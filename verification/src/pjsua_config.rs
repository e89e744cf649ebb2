//! What the engine is configured with, and what its callbacks decide.

use vstd::prelude::*;
use crate::engine::EngineRequest;
use crate::pjsua_account_config::AccountConfigUserData;
use crate::pjsua_call::{CallInfo, CallMediaData, CallMediaStatus, PjsipInvState, StateChangedUserData, INVALID_ID};
use crate::tokio_utils::{TryRecv, TrySend};

verus! {

/// The callbacks that the engine is given.
#[derive(Debug, Clone, Copy, PartialEq, Eq, Structural)]
pub struct PjsuaConfig {
    pub on_incoming_call: bool,
    pub on_call_state: bool,
    pub on_media_event: bool,
    pub on_call_media_state: bool,
    pub on_create_media_transport: bool,
}

impl PjsuaConfig {
    /// The configuration of this layer: every callback is installed.
    pub fn new() -> (config: PjsuaConfig)
        ensures
            config == (PjsuaConfig {
                on_incoming_call: true,
                on_call_state: true,
                on_media_event: true,
                on_call_media_state: true,
                on_create_media_transport: true,
            }),
    {
        PjsuaConfig {
            on_incoming_call: true,
            on_call_state: true,
            on_media_event: true,
            on_call_media_state: true,
            on_create_media_transport: true,
        }
    }
}

/// What is set over the engine's defaults for logging.
#[derive(Debug, Clone, Copy, PartialEq, Eq, Structural)]
pub struct LogConfig {
    pub console_level: u32,
    pub level: u32,
}

impl LogConfig {
    /// The logging of this layer: level 4, on the console too.
    pub open spec fn spec_default() -> LogConfig {
        LogConfig { console_level: 4, level: 4 }
    }
}

impl Default for LogConfig {
    fn default() -> (config: LogConfig)
        ensures
            config == LogConfig::spec_default(),
    {
        LogConfig { console_level: 4, level: 4 }
    }
}

/// What is set over the engine's defaults for media.
#[derive(Debug, Clone, Copy, PartialEq, Eq, Structural)]
pub struct MediaConfig {
    pub no_vad: bool,
    pub ec_tail_len: u32,
    pub snd_auto_close_time: i32,
}

impl MediaConfig {
    /// The media settings of this layer: no voice activity detection, no
    /// echo canceller, and a sound device that closes at once.
    pub open spec fn spec_default() -> MediaConfig {
        MediaConfig { no_vad: true, ec_tail_len: 0, snd_auto_close_time: 0 }
    }
}

impl Default for MediaConfig {
    fn default() -> (config: MediaConfig)
        ensures
            config == MediaConfig::spec_default(),
    {
        MediaConfig { no_vad: true, ec_tail_len: 0, snd_auto_close_time: 0 }
    }
}

/// Whether a notification reached its queue.
#[derive(Debug, Clone, Copy, PartialEq, Eq, Structural)]
pub enum Handoff {
    /// The notification is in the queue.
    Delivered,
    /// The queue was full or closed; the notification is lost, which the
    /// callback logs and survives.
    Dropped,
}

/// A broken invariant that a callback found. The caller ends the process
/// rather than go on beside an engine in an unknown state.
#[derive(Debug, Clone, Copy, PartialEq, Eq, Structural)]
pub enum CallbackFault {
    /// The engine gave no received message, or none with a transport.
    NoRxData,
    /// The engine reports no callback block for the account.
    NoUserData,
    /// The engine reports an invite state that does not exist.
    InvalidState,
    /// The engine reports a media status that does not exist.
    InvalidMediaStatus,
    /// The call has no slot in the mixing graph.
    InvalidConfSlot,
}

/// Whether a notification reached its queue, given how the attempt ended.
pub fn handoff<T>(sent: TrySend<T>) -> (outcome: Handoff)
    ensures
        outcome == (if sent is Sent {
            Handoff::Delivered
        } else {
            Handoff::Dropped
        }),
{
    match sent {
        TrySend::Sent => Handoff::Delivered,
        TrySend::Full(_) => Handoff::Dropped,
        TrySend::Closed(_) => Handoff::Dropped,
    }
}

/// What the engine's callback for an incoming call does: it queues the
/// account and the call for the account's owner, without waiting.
/// `rx_data_present` says whether the engine gave the received message with
/// its transport; `user_data` is the block that the engine reports for the
/// account. A missing message and a missing block are faults, found in this
/// order. Whether the queue takes the entry is not known beforehand.
pub fn on_incoming_call(
    user_data: Option<&AccountConfigUserData>,
    rx_data_present: bool,
    acc_id: i32,
    call_id: i32,
) -> (result: Result<Handoff, CallbackFault>)
    ensures
        result is Ok <==> rx_data_present && user_data is Some,
        result matches Err(fault) ==> fault == (if !rx_data_present {
            CallbackFault::NoRxData
        } else {
            CallbackFault::NoUserData
        }),
{
    if !rx_data_present {
        return Err(CallbackFault::NoRxData);
    }
    match user_data {
        None => Err(CallbackFault::NoUserData),
        Some(account_user_data) => {
            let sent = account_user_data.send_call(acc_id, call_id);
            Ok(handoff(sent))
        },
    }
}

/// The connections that hand a call's audio to the given slots: from the
/// call's slot to each of them, in their order.
pub open spec fn connections_of(call_conf_port: i32, sinks_slots: Seq<i32>) -> Seq<EngineRequest> {
    Seq::new(
        sinks_slots.len(),
        |i: int| EngineRequest::ConfConnect { source: call_conf_port, sink: sinks_slots[i] },
    )
}

/// What to ask of the engine to hand a call's audio to the slots of its
/// media data.
pub fn connections(call_conf_port: i32, call_media_data: &CallMediaData) -> (requests: Vec<EngineRequest>)
    ensures
        requests@ == connections_of(call_conf_port, call_media_data.sinks_slots@),
{
    let mut requests: Vec<EngineRequest> = Vec::new();
    let mut i: usize = 0;
    while i < call_media_data.sinks_slots.len()
        invariant
            i <= call_media_data.sinks_slots@.len(),
            requests@ == connections_of(call_conf_port, call_media_data.sinks_slots@.subrange(0, i as int)),
        decreases call_media_data.sinks_slots.len() - i,
    {
        requests.push(EngineRequest::ConfConnect { source: call_conf_port, sink: call_media_data.sinks_slots[i] });
        i = i + 1;
        assert(requests@ =~= connections_of(call_conf_port, call_media_data.sinks_slots@.subrange(0, i as int)));
    }
    assert(call_media_data.sinks_slots@.subrange(0, i as int) =~= call_media_data.sinks_slots@);
    requests
}

/// Whether a call is ready to have its audio bridged: it is confirmed and
/// its media is active, both at once.
pub open spec fn media_ready(info: CallInfo) -> bool {
    CallMediaStatus::of(info.media_status) == Some(CallMediaStatus::Active) && PjsipInvState::of(info.state)
        == Some(PjsipInvState::Confirmed)
}

/// The fault in what the engine reports of a call, if there is one: a
/// media status or an invite state that does not exist.
pub open spec fn info_fault(info: CallInfo) -> Option<CallbackFault> {
    if CallMediaStatus::of(info.media_status) is None {
        Some(CallbackFault::InvalidMediaStatus)
    } else if PjsipInvState::of(info.state) is None {
        Some(CallbackFault::InvalidState)
    } else {
        None
    }
}

/// What to ask of the engine with the outcome of looking for a call's media
/// data, once the call is ready: the connections of the data that was
/// found, which need the call's slot in the mixing graph; nothing where no
/// data was found.
pub fn bridge_requests(found: TryRecv<CallMediaData>, conf_slot: i32) -> (result: Result<
    Vec<EngineRequest>,
    CallbackFault,
>)
    ensures
        match found {
            TryRecv::Received(data) => if conf_slot == INVALID_ID {
                result == Err::<Vec<EngineRequest>, CallbackFault>(CallbackFault::InvalidConfSlot)
            } else {
                result matches Ok(requests) && requests@ == connections_of(conf_slot, data.sinks_slots@)
            },
            _ => result matches Ok(requests) && requests@.len() == 0,
        },
{
    match found {
        TryRecv::Received(data) => {
            if conf_slot == INVALID_ID {
                Err(CallbackFault::InvalidConfSlot)
            } else {
                Ok(connections(conf_slot, &data))
            }
        },
        TryRecv::Empty => Ok(Vec::new()),
        TryRecv::Disconnected => Ok(Vec::new()),
    }
}

/// Bridges the audio of a call if this is the moment for it: the call is
/// [`media_ready`] and its media data was not taken before. The data is
/// then looked for without waiting. What is found is taken for good, so
/// that a call is bridged at most once, by whichever callback sees it ready
/// with the data there. The result is that of [`bridge_requests`] for what
/// was found; whether the data is there is not known beforehand.
pub fn bridge_media(user_data: &mut StateChangedUserData, info: CallInfo) -> (result: Result<
    Vec<EngineRequest>,
    CallbackFault,
>)
    ensures
        info_fault(info) matches Some(fault) ==> result == Err::<Vec<EngineRequest>, CallbackFault>(fault),
        info_fault(info) is None ==> (result is Ok || (result == Err::<Vec<EngineRequest>, CallbackFault>(
            CallbackFault::InvalidConfSlot,
        ) && info.conf_slot == INVALID_ID && media_ready(info))),
        !(media_ready(info) && old(user_data).awaits_media_data()) ==> {
            &&& result matches Ok(requests) ==> requests@.len() == 0
            &&& !(result is Err && info_fault(info) is None)
            &&& final(user_data).awaits_media_data() == old(user_data).awaits_media_data()
        },
        result matches Ok(requests) && requests@.len() > 0 ==> !final(user_data).awaits_media_data(),
        result matches Ok(requests) ==> forall|i: int|
            0 <= i < requests@.len() ==> (#[trigger] requests@[i] matches EngineRequest::ConfConnect {
                source,
                ..
            } && source == info.conf_slot),
        final(user_data).awaits_media_data() ==> old(user_data).awaits_media_data(),
{
    let media_status = match CallMediaStatus::try_from(info.media_status) {
        Ok(status) => status,
        Err(_) => {
            return Err(CallbackFault::InvalidMediaStatus);
        },
    };
    let call_state = match PjsipInvState::try_from(info.state) {
        Ok(state) => state,
        Err(_) => {
            return Err(CallbackFault::InvalidState);
        },
    };
    if media_status == CallMediaStatus::Active && call_state == PjsipInvState::Confirmed {
        let found = user_data.take_media_data();
        bridge_requests(found, info.conf_slot)
    } else {
        Ok(Vec::new())
    }
}

/// What a callback on a call's state did.
#[derive(Debug)]
pub struct CallStateOutcome {
    /// Whether the state reached the call's queue.
    pub handoff: Handoff,
    /// What to ask of the engine to bridge the call's audio, if this was
    /// the moment for it.
    pub connect: Vec<EngineRequest>,
}

/// What the engine's callback for a change of a call's invite state does:
/// it queues the call and its new state for the call's owner, without
/// waiting, and bridges the call's audio by [`bridge_media`]. A call
/// without a callback block is one that nobody took: `None`.
/// Whether the queue takes the state is not known beforehand.
pub fn on_call_state(user_data: Option<&mut StateChangedUserData>, call_id: i32, info: CallInfo) -> (result:
    Result<Option<CallStateOutcome>, CallbackFault>)
    ensures
        user_data is None ==> result == Ok::<Option<CallStateOutcome>, CallbackFault>(None),
        user_data is Some ==> {
            &&& PjsipInvState::of(info.state) is None ==> result == Err::<
                Option<CallStateOutcome>,
                CallbackFault,
            >(CallbackFault::InvalidState)
            &&& PjsipInvState::of(info.state) is Some && CallMediaStatus::of(info.media_status) is None ==> result
                == Err::<Option<CallStateOutcome>, CallbackFault>(CallbackFault::InvalidMediaStatus)
            &&& info_fault(info) is None ==> (result matches Ok(Some(_)) || (result == Err::<
                Option<CallStateOutcome>,
                CallbackFault,
            >(CallbackFault::InvalidConfSlot) && info.conf_slot == INVALID_ID && media_ready(info)))
            &&& result matches Ok(Some(outcome)) ==> {
                &&& outcome.connect@.len() > 0 ==> media_ready(info) && !final(user_data->0).awaits_media_data()
                &&& !(media_ready(info) && user_data->0.awaits_media_data()) ==> outcome.connect@.len() == 0
                    && final(user_data->0).awaits_media_data() == user_data->0.awaits_media_data()
                &&& forall|i: int|
                    0 <= i < outcome.connect@.len() ==> (#[trigger] outcome.connect@[i]
                        matches EngineRequest::ConfConnect { source, .. } && source == info.conf_slot)
            }
        },
{
    match user_data {
        None => Ok(None),
        Some(state_changed_user_data) => {
            let state = match PjsipInvState::try_from(info.state) {
                Ok(state) => state,
                Err(_) => {
                    return Err(CallbackFault::InvalidState);
                },
            };
            let sent = state_changed_user_data.send_state(call_id, state);
            let handoff = handoff(sent);
            match bridge_media(state_changed_user_data, info) {
                Ok(connect) => Ok(Some(CallStateOutcome { handoff, connect })),
                Err(fault) => Err(fault),
            }
        },
    }
}

/// What the engine's callback for a change of a call's media state does:
/// it bridges the call's audio by [`bridge_media`]. A call without a
/// callback block is a fault.
pub fn on_call_media_state(user_data: Option<&mut StateChangedUserData>, info: CallInfo) -> (result: Result<
    Vec<EngineRequest>,
    CallbackFault,
>)
    ensures
        user_data is None ==> result == Err::<Vec<EngineRequest>, CallbackFault>(
            match info_fault(info) {
                Some(fault) => fault,
                None => CallbackFault::NoUserData,
            },
        ),
        user_data is Some && info_fault(info) is Some ==> result == Err::<Vec<EngineRequest>, CallbackFault>(
            info_fault(info)->0,
        ),
        result matches Ok(requests) ==> forall|i: int|
            0 <= i < requests@.len() ==> (#[trigger] requests@[i] matches EngineRequest::ConfConnect {
                source,
                ..
            } && source == info.conf_slot),
        result matches Ok(requests) && requests@.len() > 0 ==> media_ready(info),
        user_data is Some && info_fault(info) is None ==> (result is Ok || (result == Err::<
            Vec<EngineRequest>,
            CallbackFault,
        >(CallbackFault::InvalidConfSlot) && info.conf_slot == INVALID_ID && media_ready(info))),
        user_data matches Some(block) ==> ((info_fault(info) is None && !(media_ready(info)
            && block.awaits_media_data())) ==> (result matches Ok(requests) && requests@.len() == 0
            && final(block).awaits_media_data() == block.awaits_media_data())),
        user_data matches Some(block) ==> ((result matches Ok(requests) && requests@.len() > 0)
            ==> !final(block).awaits_media_data()),
        user_data matches Some(block) ==> (final(block).awaits_media_data() ==> block.awaits_media_data()),
{
    match user_data {
        None => {
            match CallMediaStatus::try_from(info.media_status) {
                Ok(_) => {},
                Err(_) => {
                    return Err(CallbackFault::InvalidMediaStatus);
                },
            }
            match PjsipInvState::try_from(info.state) {
                Ok(_) => {},
                Err(_) => {
                    return Err(CallbackFault::InvalidState);
                },
            }
            Err(CallbackFault::NoUserData)
        },
        Some(state_changed_user_data) => bridge_media(state_changed_user_data, info),
    }
}

} // verus!
