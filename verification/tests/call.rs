use pjsip_client::engine::EngineRequest;
use pjsip_client::error::{PjsuaError, LOCAL_ERROR};
use pjsip_client::pjmedia::pjmedia_port_audio_sink::{CustomSinkMediaPort, CustomSinkMediaPortAdded};
use pjsip_client::pjsua_call::{
    accept_incoming, await_call_media_state, await_call_state, get_call_conf_port, hangup_call,
    is_call_active, reject_incoming, AnswerCode, CallError, CallInfo, CallMediaData, CallMediaStatus,
    CallPhase, OkAnswer, PjsipInvState, PjsuaCall, PjsuaCallHandle, PjsuaIncomingCall,
    RemoteAlreadyHangUpError, SessionProgress, CALL_STATE_QUEUE_DEPTH, INVALID_ID,
};
use pjsip_client::pjsua_config::{
    bridge_requests, connections, on_call_media_state, on_call_state, CallbackFault, Handoff, PjsuaConfig,
};
use pjsip_client::pjsua_softphone_api::{CreationFlag, InstanceClaim, PjsuaInstanceStarted, PjsuaInstanceUninit};
use pjsip_client::tokio_utils::{TryRecv, TrySend};
use pjsip_client::transport::PjsuaTransport;

fn started() -> PjsuaInstanceStarted {
    let mut flag = CreationFlag::new();
    let mut bridge_flag = CreationFlag::new();
    let claim = InstanceClaim::new(&mut flag).ok().unwrap();
    let instance = PjsuaInstanceUninit::get_instance(claim, Ok(())).ok().unwrap();
    let instance = instance.init(PjsuaConfig::new(), Ok(())).ok().unwrap();
    let instance = instance.set_transport(PjsuaTransport::new(None), Ok(0)).ok().unwrap();
    instance.start(Ok(()), &mut bridge_flag).ok().unwrap()
}

fn sink(instance: &PjsuaInstanceStarted, slot: i32) -> CustomSinkMediaPortAdded<'_> {
    let (port, _rx) = CustomSinkMediaPort::new(8000, 1, 160, 0).ok().unwrap();
    port.add(instance, Ok(slot)).ok().unwrap()
}

fn info(state: u32, media_status: u32, conf_slot: i32) -> CallInfo {
    CallInfo { state, media_status, conf_slot }
}

fn refused(code: i32, message: &str) -> PjsuaError {
    PjsuaError::new(code, String::from(message))
}

#[test]
fn answer_codes() {
    assert_eq!(SessionProgress.as_u32(), 183);
    assert_eq!(OkAnswer.as_u32(), 200);
    assert_eq!(accept_incoming(4, SessionProgress), EngineRequest::CallAnswer { call_id: 4, code: 183 });
    assert_eq!(accept_incoming(4, OkAnswer), EngineRequest::CallAnswer { call_id: 4, code: 200 });
}

#[test]
fn rejection_is_busy_here() {
    assert_eq!(reject_incoming(9), EngineRequest::CallHangup { call_id: 9, code: 486 });
}

#[test]
fn only_an_active_call_is_hung_up() {
    assert_eq!(hangup_call(3, true), Some(EngineRequest::CallHangup { call_id: 3, code: 200 }));
    assert_eq!(hangup_call(3, false), None);
    assert!(is_call_active(1));
    assert!(is_call_active(-1));
    assert!(!is_call_active(0));
}

#[test]
fn a_call_without_slot_is_an_error() {
    assert_eq!(get_call_conf_port(0).ok(), Some(0));
    assert_eq!(get_call_conf_port(17).ok(), Some(17));
    let error = get_call_conf_port(INVALID_ID).unwrap_err();
    assert_eq!(error.code, LOCAL_ERROR);
    assert_eq!(error.message, "Invalid conf slot");
    assert_eq!(INVALID_ID, -1);
}

#[test]
fn invite_states_by_number() {
    assert_eq!(PjsipInvState::try_from(0), Ok(PjsipInvState::Null));
    assert_eq!(PjsipInvState::try_from(1), Ok(PjsipInvState::Calling));
    assert_eq!(PjsipInvState::try_from(2), Ok(PjsipInvState::Incoming));
    assert_eq!(PjsipInvState::try_from(3), Ok(PjsipInvState::Early));
    assert_eq!(PjsipInvState::try_from(4), Ok(PjsipInvState::Connecting));
    assert_eq!(PjsipInvState::try_from(5), Ok(PjsipInvState::Confirmed));
    assert_eq!(PjsipInvState::try_from(6), Ok(PjsipInvState::Disconnected));
    assert_eq!(PjsipInvState::try_from(7), Err(()));
    assert_eq!(PjsipInvState::try_from(u32::MAX), Err(()));
}

#[test]
fn media_statuses_by_number() {
    assert_eq!(CallMediaStatus::try_from(0), Ok(CallMediaStatus::NoMedia));
    assert_eq!(CallMediaStatus::try_from(1), Ok(CallMediaStatus::Active));
    assert_eq!(CallMediaStatus::try_from(2), Ok(CallMediaStatus::LocalHold));
    assert_eq!(CallMediaStatus::try_from(3), Ok(CallMediaStatus::RemoteHold));
    assert_eq!(CallMediaStatus::try_from(4), Ok(CallMediaStatus::Error));
    assert_eq!(CallMediaStatus::try_from(5), Err(()));
}

#[test]
fn remote_hangup_error_text() {
    assert_eq!(RemoteAlreadyHangUpError.to_string(), "Remote already hang up");
}

#[test]
fn only_the_awaited_state_passes() {
    assert!(await_call_state(Some((1, PjsipInvState::Early)), PjsipInvState::Early).is_ok());
    match await_call_state(Some((1, PjsipInvState::Confirmed)), PjsipInvState::Connecting) {
        Err(CallError::UnexpectedState { expected, received }) => {
            assert_eq!(expected, PjsipInvState::Connecting);
            assert_eq!(received, Some(PjsipInvState::Confirmed));
        }
        _ => panic!("Confirmed passed for Connecting"),
    }
    match await_call_state(None, PjsipInvState::Disconnected) {
        Err(CallError::UnexpectedState { expected, received }) => {
            assert_eq!(expected, PjsipInvState::Disconnected);
            assert_eq!(received, None);
        }
        _ => panic!("the end of the queue passed for Disconnected"),
    }
}

#[test]
fn only_the_awaited_media_status_passes() {
    assert!(await_call_media_state(Some(CallMediaStatus::Active), CallMediaStatus::Active).is_ok());
    let error = await_call_media_state(Some(CallMediaStatus::Error), CallMediaStatus::Active).unwrap_err();
    assert_eq!(error.code, LOCAL_ERROR);
    assert_eq!(error.message, "Unexpected state");
    assert!(await_call_media_state(None, CallMediaStatus::Active).is_err());
}

#[test]
fn call_handle_asks_for_its_call() {
    let instance = started();
    let (handle, _block) = PjsuaCallHandle::new(21, &instance);
    assert_eq!(handle.call_id(), 21);
    assert_eq!(handle.set_user_data_request(), EngineRequest::CallSetUserData { call_id: 21 });
    assert_eq!(handle.answer(OkAnswer), EngineRequest::CallAnswer { call_id: 21, code: 200 });
    assert_eq!(handle.hangup(true), Some(EngineRequest::CallHangup { call_id: 21, code: 200 }));
    assert_eq!(handle.hangup(false), None);
    assert_eq!(handle.get_conf_port_slot(4).ok(), Some(4));
    assert!(handle.get_conf_port_slot(-1).is_err());
}

#[test]
fn media_data_is_handed_over_once() {
    let instance = started();
    let (mut handle, mut block) = PjsuaCallHandle::new(21, &instance);
    assert!(handle.hand_media_data(CallMediaData { sinks_slots: vec![3, 4] }).is_ok());
    assert!(matches!(
        handle.hand_media_data(CallMediaData { sinks_slots: vec![5] }),
        Err(CallError::MediaDataHandedBefore)
    ));
    match block.take_media_data() {
        TryRecv::Received(data) => assert_eq!(data.sinks_slots, vec![3, 4]),
        _ => panic!("the media data did not arrive"),
    }
    assert!(matches!(block.take_media_data(), TryRecv::Disconnected));
}

#[test]
fn media_data_without_taker_is_refused() {
    let instance = started();
    let (mut handle, block) = PjsuaCallHandle::new(21, &instance);
    drop(block);
    assert!(matches!(
        handle.hand_media_data(CallMediaData { sinks_slots: vec![3] }),
        Err(CallError::MediaDataRefused)
    ));
}

#[test]
fn missing_media_data_is_looked_for_again() {
    let instance = started();
    let (mut handle, mut block) = PjsuaCallHandle::new(21, &instance);
    assert!(matches!(block.take_media_data(), TryRecv::Empty));
    assert!(matches!(block.take_media_data(), TryRecv::Empty));
    assert!(handle.hand_media_data(CallMediaData { sinks_slots: vec![8] }).is_ok());
    assert!(matches!(block.take_media_data(), TryRecv::Received(_)));
}

#[test]
fn refused_user_data_gives_no_incoming_call() {
    let instance = started();
    let (handle, _block) = PjsuaCallHandle::new(5, &instance);
    let error = PjsuaIncomingCall::new(1, handle, &instance, Err(refused(70004, "Invalid"))).err().unwrap();
    assert_eq!(error.code, 70004);
    assert_eq!(error.message, "Invalid");
}

#[test]
fn an_unanswered_call_is_rejected_once_when_let_go() {
    let instance = started();
    let (handle, _block) = PjsuaCallHandle::new(5, &instance);
    let mut incoming = PjsuaIncomingCall::new(1, handle, &instance, Ok(())).ok().unwrap();
    assert!(incoming.is_pending());
    assert_eq!(incoming.release(), Some(EngineRequest::CallHangup { call_id: 5, code: 486 }));
    assert!(!incoming.is_pending());
    assert_eq!(incoming.release(), None);
    assert_eq!(incoming.release(), None);
    assert!(incoming.call_handle_mut().is_none());
}

#[test]
fn an_incoming_call_can_be_rejected() {
    let instance = started();
    let (handle, _block) = PjsuaCallHandle::new(6, &instance);
    let incoming = PjsuaIncomingCall::new(1, handle, &instance, Ok(())).ok().unwrap();
    assert_eq!(incoming.reject(), EngineRequest::CallHangup { call_id: 6, code: 486 });
}

#[test]
fn session_progress_needs_early() {
    let instance = started();
    let (handle, _block) = PjsuaCallHandle::new(6, &instance);
    let incoming = PjsuaIncomingCall::new(1, handle, &instance, Ok(())).ok().unwrap();
    assert_eq!(incoming.answer_request(), EngineRequest::CallAnswer { call_id: 6, code: 183 });
    let (error, incoming) =
        incoming.answer_session_progress(Ok(()), Some((6, PjsipInvState::Connecting))).err().unwrap();
    match error {
        CallError::UnexpectedState { expected, received } => {
            assert_eq!(expected, PjsipInvState::Early);
            assert_eq!(received, Some(PjsipInvState::Connecting));
        }
        _ => panic!("Connecting passed for Early"),
    }
    let (error, incoming) = incoming.answer_session_progress(Ok(()), None).err().unwrap();
    assert!(matches!(error, CallError::UnexpectedState { expected: PjsipInvState::Early, received: None }));
    let (error, mut incoming) = incoming
        .answer_session_progress(Err(refused(171140, "Session terminated")), Some((6, PjsipInvState::Early)))
        .err()
        .unwrap();
    match error {
        CallError::Engine(error) => {
            assert_eq!(error.code, 171140);
            assert_eq!(error.message, "Session terminated");
        }
        _ => panic!("the engine's error was not passed on"),
    }
    assert!(incoming.is_pending());
    assert_eq!(incoming.release(), Some(EngineRequest::CallHangup { call_id: 6, code: 486 }));
    let (handle, _block) = PjsuaCallHandle::new(7, &instance);
    let incoming = PjsuaIncomingCall::new(1, handle, &instance, Ok(())).ok().unwrap();
    let setup = incoming.answer_session_progress(Ok(()), Some((7, PjsipInvState::Early))).ok().unwrap();
    assert_eq!(setup.hangup(true), Some(EngineRequest::CallHangup { call_id: 7, code: 200 }));
    assert_eq!(setup.hangup(false), None);
}

fn answered_call(instance: &PjsuaInstanceStarted, call_id: i32, slot: i32) -> PjsuaCall<'_> {
    let (handle, _block) = PjsuaCallHandle::new(call_id, instance);
    let mut call = PjsuaCall::new(handle, sink(instance, slot));
    assert_eq!(call.phase(), CallPhase::MediaAttached);
    assert_eq!(call.awaited_state(), None);
    assert_eq!(call.answer_request(), EngineRequest::CallAnswer { call_id, code: 200 });
    assert!(call.answer_ok(Ok(())).is_ok());
    assert_eq!(call.phase(), CallPhase::Answered);
    call
}

#[test]
fn a_call_is_confirmed_by_connecting_then_confirmed() {
    let instance = started();
    let mut call = answered_call(&instance, 3, 1);
    assert_eq!(call.awaited_state(), Some(PjsipInvState::Connecting));
    assert!(call.on_call_state(Some((3, PjsipInvState::Connecting))).is_ok());
    assert_eq!(call.phase(), CallPhase::Connecting);
    assert_eq!(call.awaited_state(), Some(PjsipInvState::Confirmed));
    assert!(call.on_call_state(Some((3, PjsipInvState::Confirmed))).is_ok());
    assert_eq!(call.phase(), CallPhase::Confirmed);
    assert_eq!(call.awaited_state(), Some(PjsipInvState::Disconnected));
    assert!(call.await_hangup(Some((3, PjsipInvState::Disconnected))).is_ok());
    assert_eq!(call.phase(), CallPhase::Disconnected);
    assert_eq!(call.awaited_state(), None);
}

#[test]
fn confirmed_before_connecting_is_a_violation() {
    let instance = started();
    let mut call = answered_call(&instance, 3, 1);
    match call.on_call_state(Some((3, PjsipInvState::Confirmed))) {
        Err(CallError::UnexpectedState { expected, received }) => {
            assert_eq!(expected, PjsipInvState::Connecting);
            assert_eq!(received, Some(PjsipInvState::Confirmed));
        }
        _ => panic!("Confirmed was taken before Connecting"),
    }
    assert_eq!(call.phase(), CallPhase::Answered);
}

#[test]
fn a_repeated_state_is_a_violation() {
    let instance = started();
    let mut call = answered_call(&instance, 3, 1);
    assert!(call.on_call_state(Some((3, PjsipInvState::Connecting))).is_ok());
    assert!(matches!(
        call.on_call_state(Some((3, PjsipInvState::Connecting))),
        Err(CallError::UnexpectedState {
            expected: PjsipInvState::Confirmed,
            received: Some(PjsipInvState::Connecting)
        })
    ));
    assert_eq!(call.phase(), CallPhase::Connecting);
    assert!(matches!(
        call.on_call_state(None),
        Err(CallError::UnexpectedState { expected: PjsipInvState::Confirmed, received: None })
    ));
    assert_eq!(call.phase(), CallPhase::Connecting);
}

#[test]
fn a_refused_answer_leaves_the_call_where_it_is() {
    let instance = started();
    let (handle, _block) = PjsuaCallHandle::new(3, &instance);
    let mut call = PjsuaCall::new(handle, sink(&instance, 1));
    match call.answer_ok(Err(refused(171140, "Session terminated"))) {
        Err(CallError::Engine(error)) => assert_eq!(error.code, 171140),
        _ => panic!("the engine's error was not passed on"),
    }
    assert_eq!(call.phase(), CallPhase::MediaAttached);
}

#[test]
fn await_hangup_takes_only_disconnected() {
    let instance = started();
    let mut call = answered_call(&instance, 3, 1);
    assert!(call.on_call_state(Some((3, PjsipInvState::Connecting))).is_ok());
    assert!(call.on_call_state(Some((3, PjsipInvState::Confirmed))).is_ok());
    assert!(matches!(
        call.await_hangup(Some((3, PjsipInvState::Confirmed))),
        Err(CallError::UnexpectedState {
            expected: PjsipInvState::Disconnected,
            received: Some(PjsipInvState::Confirmed)
        })
    ));
    assert_eq!(call.phase(), CallPhase::Confirmed);
    assert!(call.await_hangup(Some((3, PjsipInvState::Disconnected))).is_ok());
}

#[test]
fn hangup_twice_asks_the_engine_once() {
    let instance = started();
    let mut call = answered_call(&instance, 3, 8);
    assert_eq!(call.hangup(true), Some(EngineRequest::CallHangup { call_id: 3, code: 200 }));
    assert_eq!(call.release(false), vec![
        EngineRequest::ConfRemovePort { slot: 8 },
        EngineRequest::PortDestroy { slot: 8 },
    ]);
    assert!(call.release(false).is_empty());
}

#[test]
fn the_port_goes_before_the_call() {
    let instance = started();
    let mut call = answered_call(&instance, 3, 8);
    assert_eq!(call.release(true), vec![
        EngineRequest::ConfRemovePort { slot: 8 },
        EngineRequest::PortDestroy { slot: 8 },
        EngineRequest::CallHangup { call_id: 3, code: 200 },
    ]);
    assert!(call.release(false).is_empty());
}

#[test]
fn connections_go_from_the_call_to_each_slot() {
    let data = CallMediaData { sinks_slots: vec![4, 9, 4] };
    assert_eq!(connections(2, &data), vec![
        EngineRequest::ConfConnect { source: 2, sink: 4 },
        EngineRequest::ConfConnect { source: 2, sink: 9 },
        EngineRequest::ConfConnect { source: 2, sink: 4 },
    ]);
    assert!(connections(2, &CallMediaData { sinks_slots: Vec::new() }).is_empty());
}

#[test]
fn found_media_data_needs_the_calls_slot() {
    let found = TryRecv::Received(CallMediaData { sinks_slots: vec![4] });
    assert_eq!(bridge_requests(found, 2), Ok(vec![EngineRequest::ConfConnect { source: 2, sink: 4 }]));
    let found = TryRecv::Received(CallMediaData { sinks_slots: vec![4] });
    assert_eq!(bridge_requests(found, INVALID_ID), Err(CallbackFault::InvalidConfSlot));
    assert_eq!(bridge_requests(TryRecv::Empty, INVALID_ID), Ok(Vec::new()));
    assert_eq!(bridge_requests(TryRecv::Disconnected, 2), Ok(Vec::new()));
}

#[test]
fn media_is_bridged_once_when_confirmed_and_active() {
    let instance = started();
    let (mut handle, mut block) = PjsuaCallHandle::new(3, &instance);
    assert_eq!(on_call_media_state(Some(&mut block), info(5, 1, 2)), Ok(Vec::new()));
    assert!(handle.hand_media_data(CallMediaData { sinks_slots: vec![7] }).is_ok());
    assert_eq!(on_call_media_state(Some(&mut block), info(4, 1, 2)), Ok(Vec::new()));
    assert_eq!(on_call_media_state(Some(&mut block), info(5, 0, 2)), Ok(Vec::new()));
    assert_eq!(
        on_call_media_state(Some(&mut block), info(5, 1, 2)),
        Ok(vec![EngineRequest::ConfConnect { source: 2, sink: 7 }])
    );
    assert_eq!(on_call_media_state(Some(&mut block), info(5, 1, 2)), Ok(Vec::new()));
}

#[test]
fn media_callback_faults() {
    let instance = started();
    let (mut handle, mut block) = PjsuaCallHandle::new(3, &instance);
    assert_eq!(on_call_media_state(Some(&mut block), info(5, 9, 2)), Err(CallbackFault::InvalidMediaStatus));
    assert_eq!(on_call_media_state(Some(&mut block), info(7, 1, 2)), Err(CallbackFault::InvalidState));
    assert_eq!(on_call_media_state(Some(&mut block), info(7, 9, 2)), Err(CallbackFault::InvalidMediaStatus));
    assert_eq!(on_call_media_state(None, info(5, 1, 2)), Err(CallbackFault::NoUserData));
    assert_eq!(on_call_media_state(None, info(5, 9, 2)), Err(CallbackFault::InvalidMediaStatus));
    assert!(handle.hand_media_data(CallMediaData { sinks_slots: vec![7] }).is_ok());
    assert_eq!(on_call_media_state(Some(&mut block), info(5, 1, -1)), Err(CallbackFault::InvalidConfSlot));
}

#[test]
fn state_callback_queues_the_state() {
    let instance = started();
    let (mut handle, mut block) = PjsuaCallHandle::new(3, &instance);
    assert!(matches!(on_call_state(None, 3, info(3, 0, -1)), Ok(None)));
    let outcome = on_call_state(Some(&mut block), 3, info(3, 0, -1)).ok().unwrap().unwrap();
    assert_eq!(outcome.handoff, Handoff::Delivered);
    assert!(outcome.connect.is_empty());
    assert_eq!(handle.state_changed_rx.try_recv(), Ok((3, PjsipInvState::Early)));
    assert_eq!(on_call_state(Some(&mut block), 3, info(7, 0, -1)).err(), Some(CallbackFault::InvalidState));
    assert_eq!(on_call_state(Some(&mut block), 3, info(3, 5, -1)).err(), Some(CallbackFault::InvalidMediaStatus));
}

#[test]
fn state_callback_bridges_when_it_sees_the_call_ready() {
    let instance = started();
    let (mut handle, mut block) = PjsuaCallHandle::new(3, &instance);
    assert!(handle.hand_media_data(CallMediaData { sinks_slots: vec![7] }).is_ok());
    let outcome = on_call_state(Some(&mut block), 3, info(5, 1, 2)).ok().unwrap().unwrap();
    assert_eq!(outcome.handoff, Handoff::Delivered);
    assert_eq!(outcome.connect, vec![EngineRequest::ConfConnect { source: 2, sink: 7 }]);
    assert_eq!(on_call_media_state(Some(&mut block), info(5, 1, 2)), Ok(Vec::new()));
}

#[test]
fn states_beyond_the_queue_are_dropped() {
    let instance = started();
    let (handle, mut block) = PjsuaCallHandle::new(3, &instance);
    assert_eq!(CALL_STATE_QUEUE_DEPTH, 3);
    assert_eq!(block.queue_depth(), 3);
    for state in [3, 4, 5] {
        let outcome = on_call_state(Some(&mut block), 3, info(state, 0, -1)).ok().unwrap().unwrap();
        assert_eq!(outcome.handoff, Handoff::Delivered);
    }
    let outcome = on_call_state(Some(&mut block), 3, info(6, 0, -1)).ok().unwrap().unwrap();
    assert_eq!(outcome.handoff, Handoff::Dropped);
    drop(handle);
    let outcome = on_call_state(Some(&mut block), 3, info(6, 0, -1)).ok().unwrap().unwrap();
    assert_eq!(outcome.handoff, Handoff::Dropped);
}

#[test]
fn a_state_that_is_not_queued_comes_back() {
    let instance = started();
    let (handle, block) = PjsuaCallHandle::new(3, &instance);
    for _ in 0..3 {
        assert!(matches!(block.send_state(3, PjsipInvState::Early), TrySend::Sent));
    }
    assert!(matches!(block.send_state(3, PjsipInvState::Confirmed), TrySend::Full((3, PjsipInvState::Confirmed))));
    drop(handle);
    assert!(matches!(
        block.send_state(4, PjsipInvState::Disconnected),
        TrySend::Closed((4, PjsipInvState::Disconnected))
    ));
}

#[test]
fn a_call_that_waits_for_nothing_takes_no_state() {
    let instance = started();
    let (handle, _block) = PjsuaCallHandle::new(3, &instance);
    let mut call = PjsuaCall::new(handle, sink(&instance, 1));
    assert!(matches!(call.on_call_state(Some((3, PjsipInvState::Connecting))), Err(CallError::NotAwaited)));
    assert_eq!(call.phase(), CallPhase::MediaAttached);
    let mut call = answered_call(&instance, 4, 2);
    assert!(call.on_call_state(Some((4, PjsipInvState::Connecting))).is_ok());
    assert!(call.on_call_state(Some((4, PjsipInvState::Confirmed))).is_ok());
    assert!(call.on_call_state(Some((4, PjsipInvState::Disconnected))).is_ok());
    assert!(matches!(call.on_call_state(None), Err(CallError::NotAwaited)));
    assert_eq!(call.phase(), CallPhase::Disconnected);
}

#[test]
fn a_hangup_is_taken_wherever_the_call_stands() {
    let instance = started();
    let mut call = answered_call(&instance, 4, 2);
    assert!(matches!(
        call.await_hangup(Some((4, PjsipInvState::Connecting))),
        Err(CallError::UnexpectedState {
            expected: PjsipInvState::Disconnected,
            received: Some(PjsipInvState::Connecting)
        })
    ));
    assert_eq!(call.phase(), CallPhase::Answered);
    assert!(matches!(
        call.await_hangup(None),
        Err(CallError::UnexpectedState { expected: PjsipInvState::Disconnected, received: None })
    ));
    assert!(call.await_hangup(Some((4, PjsipInvState::Disconnected))).is_ok());
    assert_eq!(call.phase(), CallPhase::Disconnected);
}

#[test]
fn media_data_of_a_sink_is_its_slot() {
    let instance = started();
    let port = sink(&instance, 9);
    assert_eq!(CallMediaData::for_sink(&port).sinks_slots, vec![9]);
    let (handle, mut block) = PjsuaCallHandle::new(3, &instance);
    let incoming = PjsuaIncomingCall::new(1, handle, &instance, Ok(())).ok().unwrap();
    let setup = incoming.answer_session_progress(Ok(()), Some((3, PjsipInvState::Early))).ok().unwrap();
    let call = setup.add(port).ok().unwrap();
    assert_eq!(call.phase(), CallPhase::MediaAttached);
    match block.take_media_data() {
        TryRecv::Received(data) => assert_eq!(data.sinks_slots, vec![9]),
        _ => panic!("the media data did not arrive"),
    }
}

#[test]
fn a_refused_handover_tells_so() {
    assert!(PjsuaCallHandle::handed::<u8>(Ok(())).is_ok());
    assert!(matches!(PjsuaCallHandle::handed(Err(7u8)), Err(CallError::MediaDataRefused)));
}

#[test]
fn attached_makes_the_call_or_gives_everything_back() {
    let instance = started();
    let (handle, _block) = PjsuaCallHandle::new(3, &instance);
    let incoming = PjsuaIncomingCall::new(1, handle, &instance, Ok(())).ok().unwrap();
    let setup = incoming.answer_session_progress(Ok(()), Some((3, PjsipInvState::Early))).ok().unwrap();
    let (error, setup, port) = setup.attached(sink(&instance, 9), Err(CallError::MediaDataRefused)).err().unwrap();
    assert!(matches!(error, CallError::MediaDataRefused));
    assert_eq!(setup.call_id(), 3);
    assert_eq!(setup.account_id(), 1);
    assert_eq!(port.port_slot(), 9);
    let mut call = setup.attached(port, Ok(())).ok().unwrap();
    assert_eq!(call.phase(), CallPhase::MediaAttached);
    assert_eq!(call.call_id(), 3);
    assert_eq!(call.release(false), vec![
        EngineRequest::ConfRemovePort { slot: 9 },
        EngineRequest::PortDestroy { slot: 9 },
    ]);
}

#[test]
fn a_port_is_attached_once() {
    let instance = started();
    let (handle, block) = PjsuaCallHandle::new(3, &instance);
    let incoming = PjsuaIncomingCall::new(1, handle, &instance, Ok(())).ok().unwrap();
    let mut setup = incoming.answer_session_progress(Ok(()), Some((3, PjsipInvState::Early))).ok().unwrap();
    assert!(setup.call_handle_mut().hand_media_data(CallMediaData { sinks_slots: vec![1] }).is_ok());
    let (error, setup, port) = setup.add(sink(&instance, 9)).err().unwrap();
    assert!(matches!(error, CallError::MediaDataHandedBefore));
    assert_eq!(port.port_slot(), 9);
    assert_eq!(setup.call_id(), 3);
    drop(block);
    let (handle, block) = PjsuaCallHandle::new(4, &instance);
    drop(block);
    let incoming = PjsuaIncomingCall::new(1, handle, &instance, Ok(())).ok().unwrap();
    let setup = incoming.answer_session_progress(Ok(()), Some((4, PjsipInvState::Early))).ok().unwrap();
    let (error, _setup, _port) = setup.add(sink(&instance, 9)).err().unwrap();
    assert!(matches!(error, CallError::MediaDataRefused));
}

#[test]
fn the_setup_keeps_the_incoming_calls_queue() {
    let instance = started();
    let (handle, mut block) = PjsuaCallHandle::new(3, &instance);
    let mut incoming = PjsuaIncomingCall::new(1, handle, &instance, Ok(())).ok().unwrap();
    assert!(on_call_state(Some(&mut block), 3, info(3, 0, -1)).is_ok());
    assert!(on_call_state(Some(&mut block), 3, info(4, 0, -1)).is_ok());
    let observed = incoming.call_handle_mut().unwrap().state_changed_rx.try_recv().ok();
    assert_eq!(observed, Some((3, PjsipInvState::Early)));
    let mut setup = incoming.answer_session_progress(Ok(()), observed).ok().unwrap();
    assert_eq!(setup.call_handle_mut().state_changed_rx.try_recv(), Ok((3, PjsipInvState::Connecting)));
}
