//! One call: its states, and what is asked of the engine as it goes
//! through them.

use vstd::prelude::*;
use vstd::string::StringExecFns;
use crate::engine::{EngineRequest, BUSY_HERE, OK, SESSION_PROGRESS};
use crate::error::{PjsuaError, LOCAL_ERROR};
use crate::pjmedia::pjmedia_api::port_teardown;
use crate::pjmedia::pjmedia_port_audio_sink::CustomSinkMediaPortAdded;
use crate::pjsua_softphone_api::PjsuaInstanceStarted;
use crate::tokio_utils::{
    bounded_channel, oneshot_channel, oneshot_send, oneshot_try_recv, BoundedSender, TryRecv, TrySend,
};

verus! {

/// A status code with which a call can be answered.
pub trait AnswerCode: Send + 'static {
    /// The status code.
    spec fn code(&self) -> u32;

    /// The status code.
    fn as_u32(&self) -> (code: u32)
        ensures
            code == self.code(),
    ;
}

/// The provisional answer that opens early media.
pub struct SessionProgress;

impl AnswerCode for SessionProgress {
    open spec fn code(&self) -> u32 {
        SESSION_PROGRESS
    }

    fn as_u32(&self) -> u32 {
        SESSION_PROGRESS
    }
}

/// The final answer that accepts the call.
pub struct OkAnswer;

impl AnswerCode for OkAnswer {
    open spec fn code(&self) -> u32 {
        OK
    }

    fn as_u32(&self) -> u32 {
        OK
    }
}

/// The identifier that the engine gives where there is none.
pub const INVALID_ID: i32 = -1;

/// What to ask of the engine to answer a call with the given code.
pub fn accept_incoming<A: AnswerCode>(call_id: i32, answer_state: A) -> (request: EngineRequest)
    ensures
        request == (EngineRequest::CallAnswer { call_id, code: answer_state.code() }),
{
    EngineRequest::CallAnswer { call_id, code: answer_state.as_u32() }
}

/// What to ask of the engine to turn an incoming call away.
pub fn reject_incoming(call_id: i32) -> (request: EngineRequest)
    ensures
        request == (EngineRequest::CallHangup { call_id, code: BUSY_HERE }),
{
    EngineRequest::CallHangup { call_id, code: BUSY_HERE }
}

/// Whether the engine's answer to "is the call active" says yes.
pub fn is_call_active(active: i32) -> (yes: bool)
    ensures
        yes == (active != 0),
{
    active != 0
}

/// What [`hangup_call`] asks of the engine.
pub open spec fn hangup_request(call_id: i32, active: bool) -> Option<EngineRequest> {
    if active {
        Some(EngineRequest::CallHangup { call_id, code: OK })
    } else {
        None
    }
}

/// What to ask of the engine to end a call: its termination where the
/// engine reports the call as active, and nothing where it does not, as
/// after the remote side or an earlier hangup ended it.
pub fn hangup_call(call_id: i32, active: bool) -> (request: Option<EngineRequest>)
    ensures
        request == hangup_request(call_id, active),
{
    if !active {
        return None;
    }
    Some(EngineRequest::CallHangup { call_id, code: OK })
}

/// The message of the error for a call without a slot in the mixing graph.
pub open spec fn invalid_conf_slot_message() -> Seq<char> {
    "Invalid conf slot"@
}

/// The slot of a call in the mixing graph, given what the engine reports
/// for it: [`INVALID_ID`] stands for a call that has none.
pub fn get_call_conf_port(conf_slot: i32) -> (result: Result<i32, PjsuaError>)
    ensures
        conf_slot != INVALID_ID ==> result == Ok::<i32, PjsuaError>(conf_slot),
        conf_slot == INVALID_ID ==> (result matches Err(e) && e.code == LOCAL_ERROR && e.message@
            == invalid_conf_slot_message()),
{
    if conf_slot == INVALID_ID {
        Err(PjsuaError::local("Invalid conf slot"))
    } else {
        Ok(conf_slot)
    }
}

/// A snapshot of a call as the engine reports it, each state by its number.
#[derive(Debug, Clone, Copy, PartialEq, Eq, Structural)]
pub struct CallInfo {
    pub state: u32,
    pub media_status: u32,
    pub conf_slot: i32,
}

/// The state of the invite session of a call.
#[derive(Debug, Clone, Copy, PartialEq, Eq, Structural)]
pub enum PjsipInvState {
    Null,
    Calling,
    Incoming,
    Early,
    Connecting,
    Confirmed,
    Disconnected,
}

impl PjsipInvState {
    /// The state that a number of the engine stands for.
    pub open spec fn of(value: u32) -> Option<PjsipInvState> {
        if value == 0 {
            Some(PjsipInvState::Null)
        } else if value == 1 {
            Some(PjsipInvState::Calling)
        } else if value == 2 {
            Some(PjsipInvState::Incoming)
        } else if value == 3 {
            Some(PjsipInvState::Early)
        } else if value == 4 {
            Some(PjsipInvState::Connecting)
        } else if value == 5 {
            Some(PjsipInvState::Confirmed)
        } else if value == 6 {
            Some(PjsipInvState::Disconnected)
        } else {
            None
        }
    }

    /// The state that a number of the engine stands for; there is one for
    /// each number up to 6.
    pub fn try_from(value: u32) -> (result: Result<PjsipInvState, ()>)
        ensures
            result == (match Self::of(value) {
                Some(state) => Ok::<PjsipInvState, ()>(state),
                None => Err(()),
            }),
    {
        match value {
            0 => Ok(PjsipInvState::Null),
            1 => Ok(PjsipInvState::Calling),
            2 => Ok(PjsipInvState::Incoming),
            3 => Ok(PjsipInvState::Early),
            4 => Ok(PjsipInvState::Connecting),
            5 => Ok(PjsipInvState::Confirmed),
            6 => Ok(PjsipInvState::Disconnected),
            _ => Err(()),
        }
    }
}

/// The state of the audio path of a call.
#[derive(Debug, Clone, Copy, PartialEq, Eq, Structural)]
pub enum CallMediaStatus {
    NoMedia,
    Active,
    LocalHold,
    RemoteHold,
    Error,
}

impl CallMediaStatus {
    /// The status that a number of the engine stands for.
    pub open spec fn of(value: u32) -> Option<CallMediaStatus> {
        if value == 0 {
            Some(CallMediaStatus::NoMedia)
        } else if value == 1 {
            Some(CallMediaStatus::Active)
        } else if value == 2 {
            Some(CallMediaStatus::LocalHold)
        } else if value == 3 {
            Some(CallMediaStatus::RemoteHold)
        } else if value == 4 {
            Some(CallMediaStatus::Error)
        } else {
            None
        }
    }

    /// The status that a number of the engine stands for; there is one for
    /// each number up to 4.
    pub fn try_from(value: u32) -> (result: Result<CallMediaStatus, ()>)
        ensures
            result == (match Self::of(value) {
                Some(status) => Ok::<CallMediaStatus, ()>(status),
                None => Err(()),
            }),
    {
        match value {
            0 => Ok(CallMediaStatus::NoMedia),
            1 => Ok(CallMediaStatus::Active),
            2 => Ok(CallMediaStatus::LocalHold),
            3 => Ok(CallMediaStatus::RemoteHold),
            4 => Ok(CallMediaStatus::Error),
            _ => Err(()),
        }
    }
}

/// The slots that are to be connected to a call's own slot once its audio
/// path is up.
#[derive(Debug)]
pub struct CallMediaData {
    pub sinks_slots: Vec<i32>,
}

impl CallMediaData {
    /// The media data of a call with one sink port: the port's slot.
    pub fn for_sink<'a>(media_sink: &CustomSinkMediaPortAdded<'a>) -> (data: CallMediaData)
        ensures
            data.sinks_slots@ == seq![media_sink.spec_port_slot()],
    {
        let mut sinks_slots: Vec<i32> = Vec::new();
        sinks_slots.push(media_sink.port_slot());
        assert(sinks_slots@ =~= seq![media_sink.spec_port_slot()]);
        CallMediaData { sinks_slots }
    }
}

/// The remote side ended the call before this side did.
#[derive(Debug)]
pub struct RemoteAlreadyHangUpError;

impl RemoteAlreadyHangUpError {
    /// The error as one line of text.
    pub fn to_string(&self) -> (line: String)
        ensures
            line@ == "Remote already hang up"@,
    {
        String::from_str("Remote already hang up")
    }
}

/// Why an operation on a call failed.
#[derive(Debug)]
pub enum CallError {
    /// The engine refused what was asked of it.
    Engine(PjsuaError),
    /// The call was reported in another state than the one awaited, or its
    /// notifications ended (`received` is then `None`).
    UnexpectedState { expected: PjsipInvState, received: Option<PjsipInvState> },
    /// The media data of the call was handed over before; it can be handed
    /// over once.
    MediaDataHandedBefore,
    /// The media data of the call could not be handed over: the
    /// notification block of the call is gone.
    MediaDataRefused,
    /// A state notification was brought to a call that waits for none.
    NotAwaited,
}

/// Checks a state notification against the state that is awaited. `received`
/// is what the call's queue gave: the call and its state, or `None` where
/// the queue has ended. Only the awaited state passes.
pub fn await_call_state(received: Option<(i32, PjsipInvState)>, state: PjsipInvState) -> (result: Result<
    (),
    CallError,
>)
    ensures
        result is Ok <==> (received matches Some(notified) && notified.1 == state),
        result matches Err(e) ==> e == (CallError::UnexpectedState {
            expected: state,
            received: match received {
                Some(notified) => Some(notified.1),
                None => None,
            },
        }),
{
    match received {
        Some((_, state_recv)) => {
            if state_recv == state {
                Ok(())
            } else {
                Err(CallError::UnexpectedState { expected: state, received: Some(state_recv) })
            }
        },
        None => Err(CallError::UnexpectedState { expected: state, received: None }),
    }
}

/// Checks a notified media status against the status that is awaited; only
/// the awaited status passes.
pub fn await_call_media_state(received: Option<CallMediaStatus>, state: CallMediaStatus) -> (result: Result<
    (),
    PjsuaError,
>)
    ensures
        result is Ok <==> received == Some(state),
        result matches Err(e) ==> e.code == LOCAL_ERROR && e.message@ == "Unexpected state"@,
{
    match received {
        Some(state_recv) => {
            if state_recv == state {
                Ok(())
            } else {
                Err(PjsuaError::local("Unexpected state"))
            }
        },
        None => Err(PjsuaError::local("Unexpected state")),
    }
}


/// How many state notifications of a call wait to be looked at.
pub const CALL_STATE_QUEUE_DEPTH: usize = 3;

/// What the engine's callbacks work with for one call: the sending half of
/// the call's state queue, and the receiving end for the call's media data.
pub struct StateChangedUserData {
    on_state_changed_tx: BoundedSender<(i32, PjsipInvState)>,
    call_media_data_rx: Option<tokio::sync::oneshot::Receiver<CallMediaData>>,
}

impl StateChangedUserData {
    /// Whether the media data of the call was not taken yet.
    pub closed spec fn awaits_media_data(&self) -> bool {
        self.call_media_data_rx is Some
    }

    /// How many states the queue of the call holds.
    pub closed spec fn spec_queue_depth(&self) -> usize {
        self.on_state_changed_tx.capacity()
    }

    /// How many states the queue of the call holds.
    #[verifier::when_used_as_spec(spec_queue_depth)]
    pub fn queue_depth(&self) -> (depth: usize)
        ensures
            depth == self.spec_queue_depth(),
    {
        self.on_state_changed_tx.capacity()
    }

    /// Queues a state of the call for the call's owner, without waiting.
    /// Whether the queue takes it is not known beforehand; an entry that
    /// was not queued comes back.
    pub fn send_state(&self, call_id: i32, state: PjsipInvState) -> (sent: TrySend<(i32, PjsipInvState)>)
        ensures
            sent matches TrySend::Full(entry) ==> entry == (call_id, state),
            sent matches TrySend::Closed(entry) ==> entry == (call_id, state),
    {
        self.on_state_changed_tx.try_send((call_id, state))
    }

    /// Looks for the media data of the call without waiting. Data that is
    /// found is taken for good: after that, and where it was taken before,
    /// nothing is looked for and the answer is `Disconnected`.
    pub fn take_media_data(&mut self) -> (found: TryRecv<CallMediaData>)
        ensures
            !old(self).awaits_media_data() ==> found is Disconnected,
            final(self).awaits_media_data() == (old(self).awaits_media_data() && !(found is Received)),
            final(self).queue_depth() == old(self).queue_depth(),
    {
        match self.call_media_data_rx.take() {
            None => TryRecv::Disconnected,
            Some(mut call_media_data_rx) => {
                let found = oneshot_try_recv(&mut call_media_data_rx);
                let taken = match &found {
                    TryRecv::Received(_) => true,
                    _ => false,
                };
                if !taken {
                    self.call_media_data_rx = Some(call_media_data_rx);
                }
                found
            },
        }
    }
}

/// One call of the engine, with the receiving half of its state queue.
pub struct PjsuaCallHandle<'a> {
    call_id: i32,
    _pjsua_instance_started: &'a PjsuaInstanceStarted,
    pub state_changed_rx: tokio::sync::mpsc::Receiver<(i32, PjsipInvState)>,
    call_media_data_tx: Option<tokio::sync::oneshot::Sender<CallMediaData>>,
}

impl<'a> PjsuaCallHandle<'a> {
    /// The engine's identifier of the call.
    pub closed spec fn spec_call_id(&self) -> i32 {
        self.call_id
    }

    /// Whether the media data of the call can still be handed over.
    pub closed spec fn holds_media_data_slot(&self) -> bool {
        self.call_media_data_tx is Some
    }

    /// The receiving half of the call's state queue.
    pub closed spec fn spec_state_changed_rx(&self) -> tokio::sync::mpsc::Receiver<(i32, PjsipInvState)> {
        self.state_changed_rx
    }

    /// A handle for the call, and the block that the engine's callbacks are
    /// to work with: a state queue of [`CALL_STATE_QUEUE_DEPTH`] and a slot
    /// for the media data connect the two.
    pub fn new(call_id: i32, pjsua_instance_started: &'a PjsuaInstanceStarted) -> (made: (
        PjsuaCallHandle<'a>,
        StateChangedUserData,
    ))
        ensures
            made.0.spec_call_id() == call_id,
            made.0.holds_media_data_slot(),
            made.1.awaits_media_data(),
            made.1.queue_depth() == CALL_STATE_QUEUE_DEPTH,
    {
        let (state_changed_tx, state_changed_rx) = bounded_channel::<(i32, PjsipInvState)>(CALL_STATE_QUEUE_DEPTH);
        let (call_media_data_tx, call_media_data_rx) = oneshot_channel::<CallMediaData>();
        (
            PjsuaCallHandle {
                call_id,
                _pjsua_instance_started: pjsua_instance_started,
                state_changed_rx,
                call_media_data_tx: Some(call_media_data_tx),
            },
            StateChangedUserData {
                on_state_changed_tx: state_changed_tx,
                call_media_data_rx: Some(call_media_data_rx),
            },
        )
    }

    /// The engine's identifier of the call.
    #[verifier::when_used_as_spec(spec_call_id)]
    pub fn call_id(&self) -> (call_id: i32)
        ensures
            call_id == self.spec_call_id(),
    {
        self.call_id
    }

    /// What to ask of the engine to attach the callbacks' block to the call.
    pub fn set_user_data_request(&self) -> (request: EngineRequest)
        ensures
            request == (EngineRequest::CallSetUserData { call_id: self.call_id() }),
    {
        EngineRequest::CallSetUserData { call_id: self.call_id }
    }

    /// See [`get_call_conf_port`].
    pub fn get_conf_port_slot(&self, conf_slot: i32) -> (result: Result<i32, PjsuaError>)
        ensures
            conf_slot != INVALID_ID ==> result == Ok::<i32, PjsuaError>(conf_slot),
            conf_slot == INVALID_ID ==> (result matches Err(e) && e.code == LOCAL_ERROR && e.message@
                == invalid_conf_slot_message()),
    {
        get_call_conf_port(conf_slot)
    }

    /// What to ask of the engine to answer the call with the given code.
    pub fn answer<A: AnswerCode>(&self, answer_code: A) -> (request: EngineRequest)
        ensures
            request == (EngineRequest::CallAnswer { call_id: self.call_id(), code: answer_code.code() }),
    {
        accept_incoming(self.call_id, answer_code)
    }

    /// What to ask of the engine to end the call; see [`hangup_call`].
    pub fn hangup(&self, active: bool) -> (request: Option<EngineRequest>)
        ensures
            request == hangup_request(self.call_id(), active),
    {
        hangup_call(self.call_id, active)
    }

    /// What the caller is told of handing the media data over, given how
    /// the handing over ended: success, or that the data was refused.
    pub fn handed<T>(sent: Result<(), T>) -> (result: Result<(), CallError>)
        ensures
            result == (match sent {
                Ok(()) => Ok::<(), CallError>(()),
                Err(_) => Err(CallError::MediaDataRefused),
            }),
    {
        match sent {
            Ok(()) => Ok(()),
            Err(_) => Err(CallError::MediaDataRefused),
        }
    }

    /// Hands the media data of the call to the engine's callbacks. This can
    /// be done once: a second time fails with `MediaDataHandedBefore`, and
    /// nothing is handed over. The first time the data is handed over
    /// without waiting; whether the callbacks' block is still there to take
    /// it is not known beforehand, and where it is not, the data is
    /// refused.
    pub fn hand_media_data(&mut self, data: CallMediaData) -> (result: Result<(), CallError>)
        ensures
            result matches Err(CallError::MediaDataHandedBefore) <==> !old(self).holds_media_data_slot(),
            result matches Err(e) ==> e is MediaDataHandedBefore || e is MediaDataRefused,
            !final(self).holds_media_data_slot(),
            final(self).spec_call_id() == old(self).spec_call_id(),
            final(self).spec_state_changed_rx() == old(self).spec_state_changed_rx(),
    {
        match self.call_media_data_tx.take() {
            None => Err(CallError::MediaDataHandedBefore),
            Some(tx) => Self::handed(oneshot_send(tx, data)),
        }
    }
}

/// A call that came in and was neither answered nor turned away.
pub struct PjsuaIncomingCall<'a> {
    call_handle: Option<PjsuaCallHandle<'a>>,
    account_id: i32,
    pjsua_instance_started: &'a PjsuaInstanceStarted,
}

impl<'a> PjsuaIncomingCall<'a> {
    /// Whether the call still waits to be answered or turned away.
    pub closed spec fn spec_is_pending(&self) -> bool {
        self.call_handle is Some
    }

    /// The handle of the call, while the call is pending.
    pub closed spec fn spec_call_handle(&self) -> PjsuaCallHandle<'a> {
        self.call_handle->0
    }

    /// The engine's identifier of the call, while the call is pending.
    pub open spec fn spec_call_id(&self) -> i32 {
        self.spec_call_handle().spec_call_id()
    }

    /// The account that the call came in on.
    pub closed spec fn spec_account_id(&self) -> i32 {
        self.account_id
    }

    /// The incoming call, given the engine's answer to
    /// [`PjsuaCallHandle::set_user_data_request`]. The engine's error is
    /// passed on unchanged.
    pub fn new(
        account_id: i32,
        call_handle: PjsuaCallHandle<'a>,
        pjsua_instance_started: &'a PjsuaInstanceStarted,
        user_data_set: Result<(), PjsuaError>,
    ) -> (result: Result<PjsuaIncomingCall<'a>, PjsuaError>)
        ensures
            match user_data_set {
                Ok(()) => result matches Ok(call) && call.is_pending() && call.spec_call_handle() == call_handle
                    && call.spec_account_id() == account_id,
                Err(e) => result == Err::<PjsuaIncomingCall<'a>, PjsuaError>(e),
            },
    {
        match user_data_set {
            Ok(()) => Ok(PjsuaIncomingCall { call_handle: Some(call_handle), account_id, pjsua_instance_started }),
            Err(e) => Err(e),
        }
    }

    /// Whether the call still waits to be answered or turned away.
    #[verifier::when_used_as_spec(spec_is_pending)]
    pub fn is_pending(&self) -> (pending: bool)
        ensures
            pending == self.spec_is_pending(),
    {
        self.call_handle.is_some()
    }

    /// The handle of the call, while the call is pending. What is done to
    /// the handle is done to the call's own; nothing else of the call
    /// changes.
    pub fn call_handle_mut(&mut self) -> (handle: Option<&mut PjsuaCallHandle<'a>>)
        ensures
            handle is Some <==> old(self).is_pending(),
            final(self).is_pending() == old(self).is_pending(),
            final(self).spec_account_id() == old(self).spec_account_id(),
            handle matches Some(h) ==> *h == old(self).spec_call_handle() && final(self).spec_call_handle()
                == *final(h),
    {
        self.call_handle.as_mut()
    }

    /// What to ask of the engine to answer the call provisionally.
    pub fn answer_request(&self) -> (request: EngineRequest)
        requires
            self.is_pending(),
        ensures
            request == (EngineRequest::CallAnswer { call_id: self.spec_call_id(), code: SESSION_PROGRESS }),
    {
        let handle = self.call_handle.as_ref().unwrap();
        handle.answer(SessionProgress)
    }

    /// The call with early media, given the engine's answer to
    /// [`PjsuaIncomingCall::answer_request`] and, where the engine
    /// accepted, the state notification that came next. Only `Early` leads
    /// on. Where the engine refused, `observed` is not looked at. On an
    /// error the call comes back as it was.
    pub fn answer_session_progress(
        self,
        answered: Result<(), PjsuaError>,
        observed: Option<(i32, PjsipInvState)>,
    ) -> (result: Result<PjsuaCallSetup<'a>, (CallError, PjsuaIncomingCall<'a>)>)
        requires
            self.is_pending(),
        ensures
            match answered {
                Err(e) => result == Err::<PjsuaCallSetup<'a>, (CallError, PjsuaIncomingCall<'a>)>(
                    (CallError::Engine(e), self),
                ),
                Ok(()) => if observed matches Some(notified) && notified.1 == PjsipInvState::Early {
                    result matches Ok(setup) && setup.spec_call_handle() == self.spec_call_handle()
                        && setup.spec_account_id() == self.spec_account_id()
                } else {
                    result == Err::<PjsuaCallSetup<'a>, (CallError, PjsuaIncomingCall<'a>)>(
                        (
                            CallError::UnexpectedState {
                                expected: PjsipInvState::Early,
                                received: match observed {
                                    Some(notified) => Some(notified.1),
                                    None => None,
                                },
                            },
                            self,
                        ),
                    )
                },
            },
    {
        match answered {
            Err(e) => Err((CallError::Engine(e), self)),
            Ok(()) => match await_call_state(observed, PjsipInvState::Early) {
                Err(e) => Err((e, self)),
                Ok(()) => Ok(PjsuaCallSetup::new(self)),
            },
        }
    }

    /// What to ask of the engine to turn the call away. The call is spent.
    pub fn reject(self) -> (request: EngineRequest)
        requires
            self.is_pending(),
        ensures
            request == (EngineRequest::CallHangup { call_id: self.spec_call_id(), code: BUSY_HERE }),
    {
        let handle = self.call_handle.unwrap();
        reject_incoming(handle.call_id)
    }

    /// What [`PjsuaIncomingCall::release`] asks for.
    pub open spec fn release_request(pending: bool, call_id: i32) -> Option<EngineRequest> {
        if pending {
            Some(EngineRequest::CallHangup { call_id, code: BUSY_HERE })
        } else {
            None
        }
    }

    /// What to ask of the engine when the value goes away: a call that was
    /// neither answered nor turned away is turned away. After this the call
    /// is no longer pending, so that a second time asks for nothing.
    pub fn release(&mut self) -> (request: Option<EngineRequest>)
        ensures
            request == Self::release_request(old(self).is_pending(), old(self).spec_call_id()),
            !final(self).is_pending(),
            final(self).spec_account_id() == old(self).spec_account_id(),
    {
        match self.call_handle.take() {
            Some(handle) => Some(reject_incoming(handle.call_id)),
            None => None,
        }
    }
}

/// A call with early media, to which the application's port can be added.
pub struct PjsuaCallSetup<'a> {
    account_id: i32,
    call_handle: PjsuaCallHandle<'a>,
    pjsua_instance_started: &'a PjsuaInstanceStarted,
}

impl<'a> PjsuaCallSetup<'a> {
    /// The engine's identifier of the call.
    pub open spec fn spec_call_id(&self) -> i32 {
        self.spec_call_handle().spec_call_id()
    }

    /// The account that the call came in on.
    pub closed spec fn spec_account_id(&self) -> i32 {
        self.account_id
    }

    /// The handle of the call.
    pub closed spec fn spec_call_handle(&self) -> PjsuaCallHandle<'a> {
        self.call_handle
    }

    /// The call of a pending incoming call, now with early media.
    fn new(incoming_call: PjsuaIncomingCall<'a>) -> (setup: PjsuaCallSetup<'a>)
        requires
            incoming_call.is_pending(),
        ensures
            setup.spec_call_handle() == incoming_call.spec_call_handle(),
            setup.spec_account_id() == incoming_call.spec_account_id(),
    {
        let account_id = incoming_call.account_id;
        let pjsua_instance_started = incoming_call.pjsua_instance_started;
        let call_handle = incoming_call.call_handle.unwrap();
        PjsuaCallSetup { call_handle, account_id, pjsua_instance_started }
    }

    /// The engine's identifier of the call.
    #[verifier::when_used_as_spec(spec_call_id)]
    pub fn call_id(&self) -> (call_id: i32)
        ensures
            call_id == self.spec_call_id(),
    {
        self.call_handle.call_id()
    }

    /// The account that the call came in on.
    #[verifier::when_used_as_spec(spec_account_id)]
    pub fn account_id(&self) -> (account_id: i32)
        ensures
            account_id == self.spec_account_id(),
    {
        self.account_id
    }

    /// The handle of the call.
    pub fn call_handle_mut(&mut self) -> (handle: &mut PjsuaCallHandle<'a>)
        ensures
            *handle == old(self).spec_call_handle(),
            final(self).spec_call_handle() == *final(handle),
            final(self).spec_account_id() == old(self).spec_account_id(),
    {
        &mut self.call_handle
    }

    /// What to ask of the engine to end the call; see [`hangup_call`].
    pub fn hangup(&self, active: bool) -> (request: Option<EngineRequest>)
        ensures
            request == hangup_request(self.spec_call_id(), active),
    {
        self.call_handle.hangup(active)
    }

    /// The call with its sink port attached, given how the handing over of
    /// the media data ended. Where it succeeded, the call is made of this
    /// call's handle and the port, and is to be answered next. Where it
    /// failed, the error comes back with the call and the port as they
    /// were.
    pub fn attached(self, media_sink: CustomSinkMediaPortAdded<'a>, handed: Result<(), CallError>) -> (result:
        Result<PjsuaCall<'a>, (CallError, PjsuaCallSetup<'a>, CustomSinkMediaPortAdded<'a>)>)
        ensures
            match handed {
                Ok(()) => result matches Ok(call) && call.spec_phase() == CallPhase::MediaAttached
                    && call.spec_call_handle() == self.spec_call_handle() && call.spec_media_sink()
                    == media_sink,
                Err(e) => result == Err::<
                    PjsuaCall<'a>,
                    (CallError, PjsuaCallSetup<'a>, CustomSinkMediaPortAdded<'a>),
                >((e, self, media_sink)),
            },
    {
        match handed {
            Ok(()) => Ok(PjsuaCall::new(self.call_handle, media_sink)),
            Err(e) => Err((e, self, media_sink)),
        }
    }

    /// Attaches a sink port that is in the mixing graph to the call: the
    /// media data that [`CallMediaData::for_sink`] makes of the port is
    /// handed to the engine's callbacks, which connect the port's slot to the
    /// call's slot once the call is confirmed and its audio is active. What
    /// comes back is what [`PjsuaCallSetup::attached`] makes of the outcome.
    /// A call whose media data was handed over before fails with
    /// `MediaDataHandedBefore`; whether the callbacks take the data is not
    /// known beforehand. Either way the call's handle keeps its call and
    /// its state queue, and no longer holds the slot for the media data.
    pub fn add(self, media_sink: CustomSinkMediaPortAdded<'a>) -> (result: Result<
        PjsuaCall<'a>,
        (CallError, PjsuaCallSetup<'a>, CustomSinkMediaPortAdded<'a>),
    >)
        ensures
            result matches Err((CallError::MediaDataHandedBefore, _, _)) <==> !self.spec_call_handle().holds_media_data_slot(),
            result matches Ok(call) ==> {
                &&& call.spec_phase() == CallPhase::MediaAttached
                &&& call.spec_call_id() == self.spec_call_id()
                &&& call.spec_call_handle().spec_state_changed_rx() == self.spec_call_handle().spec_state_changed_rx()
                &&& !call.spec_call_handle().holds_media_data_slot()
                &&& call.spec_media_sink() == media_sink
            },
            result matches Err((e, setup, sink)) ==> {
                &&& e is MediaDataHandedBefore || e is MediaDataRefused
                &&& setup.spec_call_id() == self.spec_call_id()
                &&& setup.spec_account_id() == self.spec_account_id()
                &&& setup.spec_call_handle().spec_state_changed_rx() == self.spec_call_handle().spec_state_changed_rx()
                &&& !setup.spec_call_handle().holds_media_data_slot()
                &&& sink == media_sink
            },
    {
        let mut setup = self;
        let data = CallMediaData::for_sink(&media_sink);
        let handed = setup.call_handle.hand_media_data(data);
        setup.attached(media_sink, handed)
    }
}

/// Where an answered call stands.
#[derive(Debug, Clone, Copy, PartialEq, Eq, Structural)]
pub enum CallPhase {
    /// The sink port is attached; the final answer is to be given.
    MediaAttached,
    /// The final answer was given; `Connecting` is awaited.
    Answered,
    /// `Connecting` was seen; `Confirmed` is awaited.
    Connecting,
    /// The call is connected.
    Confirmed,
    /// The call has ended.
    Disconnected,
}

/// The state that a call in a phase waits for, if it waits for one.
pub open spec fn awaited_in(phase: CallPhase) -> Option<PjsipInvState> {
    match phase {
        CallPhase::MediaAttached => None,
        CallPhase::Answered => Some(PjsipInvState::Connecting),
        CallPhase::Connecting => Some(PjsipInvState::Confirmed),
        CallPhase::Confirmed => Some(PjsipInvState::Disconnected),
        CallPhase::Disconnected => None,
    }
}

/// The phase that follows when the awaited state was seen.
pub open spec fn phase_after(phase: CallPhase) -> CallPhase {
    match phase {
        CallPhase::MediaAttached => CallPhase::MediaAttached,
        CallPhase::Answered => CallPhase::Connecting,
        CallPhase::Connecting => CallPhase::Confirmed,
        CallPhase::Confirmed => CallPhase::Disconnected,
        CallPhase::Disconnected => CallPhase::Disconnected,
    }
}

/// The phase of a call after a state notification: the next phase where the
/// notification brings the awaited state, else the same phase.
pub open spec fn phase_on(phase: CallPhase, received: Option<(i32, PjsipInvState)>) -> CallPhase {
    if received matches Some(notified) && awaited_in(phase) == Some(notified.1) {
        phase_after(phase)
    } else {
        phase
    }
}

/// A call with its sink port, from the final answer to its end.
pub struct PjsuaCall<'a> {
    media_sink: CustomSinkMediaPortAdded<'a>,
    call_handle: PjsuaCallHandle<'a>,
    phase: CallPhase,
}

impl<'a> PjsuaCall<'a> {
    /// Where the call stands.
    pub closed spec fn spec_phase(&self) -> CallPhase {
        self.phase
    }

    /// The engine's identifier of the call.
    pub open spec fn spec_call_id(&self) -> i32 {
        self.spec_call_handle().spec_call_id()
    }

    /// The sink port of the call.
    pub closed spec fn spec_media_sink(&self) -> CustomSinkMediaPortAdded<'a> {
        self.media_sink
    }

    /// The handle of the call.
    pub closed spec fn spec_call_handle(&self) -> PjsuaCallHandle<'a> {
        self.call_handle
    }

    /// A call with its sink port attached, which is to be answered next.
    pub fn new(pjsua_call_setup: PjsuaCallHandle<'a>, media_sink: CustomSinkMediaPortAdded<'a>) -> (call: PjsuaCall<
        'a,
    >)
        ensures
            call.spec_phase() == CallPhase::MediaAttached,
            call.spec_call_handle() == pjsua_call_setup,
            call.spec_media_sink() == media_sink,
    {
        PjsuaCall { media_sink, call_handle: pjsua_call_setup, phase: CallPhase::MediaAttached }
    }

    /// The engine's identifier of the call.
    #[verifier::when_used_as_spec(spec_call_id)]
    pub fn call_id(&self) -> (call_id: i32)
        ensures
            call_id == self.spec_call_id(),
    {
        self.call_handle.call_id()
    }

    /// Where the call stands.
    #[verifier::when_used_as_spec(spec_phase)]
    pub fn phase(&self) -> (phase: CallPhase)
        ensures
            phase == self.spec_phase(),
    {
        self.phase
    }

    /// The handle of the call.
    pub fn call_handle_mut(&mut self) -> (handle: &mut PjsuaCallHandle<'a>)
        ensures
            *handle == old(self).spec_call_handle(),
            final(self).spec_call_handle() == *final(handle),
            final(self).spec_phase() == old(self).spec_phase(),
            final(self).spec_media_sink() == old(self).spec_media_sink(),
    {
        &mut self.call_handle
    }

    /// What to ask of the engine to accept the call.
    pub fn answer_request(&self) -> (request: EngineRequest)
        ensures
            request == (EngineRequest::CallAnswer { call_id: self.spec_call_id(), code: OK }),
    {
        self.call_handle.answer(OkAnswer)
    }

    /// Takes the engine's answer to [`PjsuaCall::answer_request`]. Where
    /// the engine accepted, a call whose port is attached goes on to wait
    /// for `Connecting`; any other call stays where it is. The engine's
    /// error is passed on in [`CallError::Engine`], and the call stays
    /// where it is.
    pub fn answer_ok(&mut self, answered: Result<(), PjsuaError>) -> (result: Result<(), CallError>)
        ensures
            final(self).spec_call_handle() == old(self).spec_call_handle(),
            final(self).spec_media_sink() == old(self).spec_media_sink(),
            match answered {
                Ok(()) => result is Ok && final(self).spec_phase() == (if old(self).spec_phase()
                    == CallPhase::MediaAttached {
                    CallPhase::Answered
                } else {
                    old(self).spec_phase()
                }),
                Err(e) => result == Err::<(), CallError>(CallError::Engine(e)) && final(self).spec_phase() == old(
                    self,
                ).spec_phase(),
            },
    {
        match answered {
            Err(e) => Err(CallError::Engine(e)),
            Ok(()) => {
                if self.phase == CallPhase::MediaAttached {
                    self.phase = CallPhase::Answered;
                }
                Ok(())
            },
        }
    }

    /// The state that the call waits for, if it waits for one.
    pub fn awaited_state(&self) -> (awaited: Option<PjsipInvState>)
        ensures
            awaited == awaited_in(self.spec_phase()),
    {
        match self.phase {
            CallPhase::MediaAttached => None,
            CallPhase::Answered => Some(PjsipInvState::Connecting),
            CallPhase::Connecting => Some(PjsipInvState::Confirmed),
            CallPhase::Confirmed => Some(PjsipInvState::Disconnected),
            CallPhase::Disconnected => None,
        }
    }

    /// Takes the next state notification of the call. `received` is what the
    /// call's queue gave, `None` where the queue has ended. The awaited state
    /// moves the call to its next phase. Any other state, and the end of the
    /// queue, is a violation of the protocol: the call stays where it is and
    /// the error names both states. A call that waits for no state stays
    /// where it is too. The states are never reordered, skipped or guessed.
    pub fn on_call_state(&mut self, received: Option<(i32, PjsipInvState)>) -> (result: Result<(), CallError>)
        ensures
            final(self).spec_call_handle() == old(self).spec_call_handle(),
            final(self).spec_media_sink() == old(self).spec_media_sink(),
            final(self).spec_phase() == phase_on(old(self).spec_phase(), received),
            result is Ok <==> (received matches Some(notified) && awaited_in(old(self).spec_phase()) == Some(
                notified.1,
            )),
            result matches Err(e) ==> e == (match awaited_in(old(self).spec_phase()) {
                None => CallError::NotAwaited,
                Some(expected) => CallError::UnexpectedState {
                    expected,
                    received: match received {
                        Some(notified) => Some(notified.1),
                        None => None,
                    },
                },
            }),
    {
        let expected = match self.awaited_state() {
            Some(expected) => expected,
            None => {
                return Err(CallError::NotAwaited);
            },
        };
        match await_call_state(received, expected) {
            Err(e) => Err(e),
            Ok(()) => {
                self.phase = match self.phase {
                    CallPhase::MediaAttached => CallPhase::MediaAttached,
                    CallPhase::Answered => CallPhase::Connecting,
                    CallPhase::Connecting => CallPhase::Confirmed,
                    CallPhase::Confirmed => CallPhase::Disconnected,
                    CallPhase::Disconnected => CallPhase::Disconnected,
                };
                Ok(())
            },
        }
    }

    /// Takes the state notification that the wait for the end of the call
    /// got: only `Disconnected` ends the wait, by which the call has ended,
    /// whichever side ended it and wherever the call stood. Any other
    /// state, and the end of the queue, is a violation of the protocol: the
    /// call stays where it is.
    pub fn await_hangup(&mut self, received: Option<(i32, PjsipInvState)>) -> (result: Result<(), CallError>)
        ensures
            final(self).spec_call_handle() == old(self).spec_call_handle(),
            final(self).spec_media_sink() == old(self).spec_media_sink(),
            result is Ok <==> brings(received, PjsipInvState::Disconnected),
            final(self).spec_phase() == (if result is Ok {
                CallPhase::Disconnected
            } else {
                old(self).spec_phase()
            }),
            result matches Err(e) ==> e == (CallError::UnexpectedState {
                expected: PjsipInvState::Disconnected,
                received: match received {
                    Some(notified) => Some(notified.1),
                    None => None,
                },
            }),
    {
        match await_call_state(received, PjsipInvState::Disconnected) {
            Err(e) => Err(e),
            Ok(()) => {
                self.phase = CallPhase::Disconnected;
                Ok(())
            },
        }
    }

    /// What to ask of the engine to end the call; see [`hangup_call`].
    pub fn hangup(&self, active: bool) -> (request: Option<EngineRequest>)
        ensures
            request == hangup_request(self.spec_call_id(), active),
    {
        self.call_handle.hangup(active)
    }

    /// What [`PjsuaCall::release`] asks for: the sink port is taken out of
    /// the mixing graph before the call is ended.
    pub open spec fn release_plan(sink_released: bool, slot: i32, call_id: i32, active: bool) -> Seq<
        EngineRequest,
    > {
        (if sink_released {
            Seq::<EngineRequest>::empty()
        } else {
            port_teardown(slot)
        }) + (match hangup_request(call_id, active) {
            Some(request) => seq![request],
            None => Seq::<EngineRequest>::empty(),
        })
    }

    /// What to ask of the engine when the call goes away, in this order:
    /// the teardown of the sink port, unless that was asked for before, and
    /// the termination of the call, if the engine reports the call as
    /// active.
    pub fn release(&mut self, active: bool) -> (requests: Vec<EngineRequest>)
        ensures
            requests@ == Self::release_plan(
                old(self).spec_media_sink().is_released(),
                old(self).spec_media_sink().spec_port_slot(),
                old(self).spec_call_id(),
                active,
            ),
            final(self).spec_media_sink().is_released(),
            final(self).spec_media_sink().spec_port_slot() == old(self).spec_media_sink().spec_port_slot(),
            final(self).spec_call_handle() == old(self).spec_call_handle(),
            final(self).spec_phase() == old(self).spec_phase(),
    {
        let mut requests = self.media_sink.release();
        match self.call_handle.hangup(active) {
            Some(request) => {
                requests.push(request);
            },
            None => {},
        }
        assert(requests@ =~= Self::release_plan(
            old(self).spec_media_sink().is_released(),
            old(self).spec_media_sink().spec_port_slot(),
            old(self).spec_call_id(),
            active,
        ));
        requests
    }
}

/// A call that is let go without an answer is turned away exactly once:
/// while it is pending, letting go asks for the rejection, and for nothing
/// else; once it is no longer pending, as after the first time, letting go
/// asks for nothing.
pub proof fn law_unanswered_call_is_rejected_once(call_id: i32)
    ensures
        PjsuaIncomingCall::release_request(true, call_id) == Some(
            EngineRequest::CallHangup { call_id, code: BUSY_HERE },
        ),
        PjsuaIncomingCall::release_request(false, call_id) is None,
{
}

/// Ending a call a second time asks nothing of the engine. The first time
/// tears the sink port down and ends the call if it is active. The engine
/// then reports the call as not active, and with the port's teardown
/// already asked for, nothing is left to ask; this holds whatever the first
/// time found.
pub proof fn law_hangup_is_idempotent(slot: i32, call_id: i32)
    ensures
        hangup_request(call_id, false) is None,
        PjsuaCall::release_plan(true, slot, call_id, false) == Seq::<EngineRequest>::empty(),
        forall|sink_released: bool, active: bool|
            (#[trigger] PjsuaCall::release_plan(sink_released, slot, call_id, active)).len() <= 3,
{
    assert(PjsuaCall::release_plan(true, slot, call_id, false) =~= Seq::<EngineRequest>::empty());
}

/// The sink port of a call leaves the mixing graph before the call is
/// ended: where both are asked for, the removal of the slot comes first,
/// then the destruction of the port, then the termination.
pub proof fn law_port_goes_before_call(slot: i32, call_id: i32)
    ensures
        PjsuaCall::release_plan(false, slot, call_id, true) == seq![
            EngineRequest::ConfRemovePort { slot },
            EngineRequest::PortDestroy { slot },
            EngineRequest::CallHangup { call_id, code: OK },
        ],
{
    assert(PjsuaCall::release_plan(false, slot, call_id, true) =~= seq![
        EngineRequest::ConfRemovePort { slot },
        EngineRequest::PortDestroy { slot },
        EngineRequest::CallHangup { call_id, code: OK },
    ]);
}

/// Whether a notification brings the given state.
pub open spec fn brings(received: Option<(i32, PjsipInvState)>, state: PjsipInvState) -> bool {
    received matches Some(notified) && notified.1 == state
}

/// An answered call becomes confirmed by `Connecting` followed by
/// `Confirmed`, and by nothing else: of any two notifications, the first
/// must bring `Connecting` and the second `Confirmed`. A notification that
/// does not bring the awaited state, such as `Confirmed` before
/// `Connecting`, leaves the call where it is.
pub proof fn law_states_in_order(first: Option<(i32, PjsipInvState)>, second: Option<(i32, PjsipInvState)>)
    ensures
        phase_on(phase_on(CallPhase::Answered, first), second) == CallPhase::Confirmed <==> (brings(
            first,
            PjsipInvState::Connecting,
        ) && brings(second, PjsipInvState::Confirmed)),
        !brings(first, PjsipInvState::Connecting) ==> phase_on(CallPhase::Answered, first)
            == CallPhase::Answered,
        forall|call_id: i32| #[trigger]
            phase_on(CallPhase::Answered, Some((call_id, PjsipInvState::Confirmed))) == CallPhase::Answered,
{
}

/// A notification moves a call by one phase at most, and only when it
/// brings the state that the phase waits for.
pub proof fn law_no_state_is_guessed(phase: CallPhase, received: Option<(i32, PjsipInvState)>)
    ensures
        phase_on(phase, received) != phase ==> (received matches Some(notified) && awaited_in(phase) == Some(
            notified.1,
        ) && phase_on(phase, received) == phase_after(phase)),
        received is None ==> phase_on(phase, received) == phase,
{
}

} // verus!
