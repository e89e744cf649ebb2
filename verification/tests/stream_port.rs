use pjsip_client::engine::EngineRequest;
use pjsip_client::error::LOCAL_ERROR;
use pjsip_client::pj_types::Frame;
use pjsip_client::pjmedia::pjmedia_api::{FrameType, SendError};
use pjsip_client::pjmedia::pjmedia_port_audio_stream::{
    CustomStreamMediaPort, CustomStreamMediaPortTx, FrameFill, MediaPortData, STREAM_QUEUE_DEPTH,
};
use pjsip_client::tokio_utils::{TryRecv, TrySend};
use pjsip_client::pjsua_config::PjsuaConfig;
use pjsip_client::pjsua_softphone_api::{CreationFlag, InstanceClaim, PjsuaInstanceStarted, PjsuaInstanceUninit};
use pjsip_client::transport::PjsuaTransport;

fn started() -> PjsuaInstanceStarted {
    let mut flag = CreationFlag::new();
    let mut bridge_flag = CreationFlag::new();
    let claim = InstanceClaim::new(&mut flag).ok().unwrap();
    let instance = PjsuaInstanceUninit::get_instance(claim, Ok(())).ok().unwrap();
    let instance = instance.init(PjsuaConfig::new(), Ok(())).ok().unwrap();
    let instance = instance.set_transport(PjsuaTransport::new(None), Ok(0)).ok().unwrap();
    instance.start(Ok(()), &mut bridge_flag).ok().unwrap()
}

#[test]
fn stream_port_is_made_with_name_and_format() {
    let (mut port, tx) = CustomStreamMediaPort::new(22050, 1, 8000, 12).ok().unwrap();
    assert_eq!(port.name(), "CustomStreamMediaPort_12");
    assert_eq!(port.format().clock_rate, 22050);
    assert_eq!(port.format().frame_time_usec, 362_811);
    assert_eq!(port.format().avg_bps, 352_800);
    assert_eq!(tx.samples_per_frame(), 8000);
    assert_eq!(tx.bits_per_sample(), 16);
    assert_eq!(tx.queue_depth(), 512);
    assert_eq!(tx.frames_tx.sender().max_capacity(), 512);
    assert_eq!(port.add_request(), EngineRequest::ConfAddPort);
    let data = port.take_port_data().unwrap();
    assert_eq!(data.sample_rate(), 22050);
    assert_eq!(data.channels_count(), 1);
    assert!(port.take_port_data().is_none());
}

#[test]
fn stream_port_with_zero_duration_is_refused() {
    let error = CustomStreamMediaPort::new(8000, 1, 7, 0).err().unwrap();
    assert_eq!(error.code, LOCAL_ERROR);
    assert!(CustomStreamMediaPort::new(16000, 2, 31, 0).is_err());
    assert!(CustomStreamMediaPort::new(16000, 2, 32, 0).is_ok());
}

#[test]
fn a_short_frame_is_padded_with_zeros() {
    let (_port, tx) = CustomStreamMediaPort::new(8000, 1, 160, 0).ok().unwrap();
    let sized = tx.fit(Frame::new(vec![7; 100], 55)).ok().unwrap();
    assert_eq!(sized.data.len(), 160);
    assert_eq!(&sized.data[..100], &[7i16; 100][..]);
    assert_eq!(&sized.data[100..], &[0i16; 60][..]);
    assert_eq!(sized.time, 55);
    let sized = tx.fit(Frame::new(Vec::new(), 1)).ok().unwrap();
    assert_eq!(sized.data, vec![0i16; 160]);
}

#[test]
fn a_frame_of_the_right_size_stays_as_it_is() {
    let (_port, tx) = CustomStreamMediaPort::new(8000, 1, 160, 0).ok().unwrap();
    let samples: Vec<i16> = (0..160).collect();
    let sized = tx.fit(Frame::new(samples.clone(), 9)).ok().unwrap();
    assert_eq!(sized.data, samples);
    assert_eq!(sized.time, 9);
}

#[test]
fn a_long_frame_comes_back_unchanged() {
    let (_port, tx) = CustomStreamMediaPort::new(8000, 1, 160, 0).ok().unwrap();
    let samples: Vec<i16> = (0..161).collect();
    match tx.fit(Frame::new(samples.clone(), 9)) {
        Err(SendError::InvalidSizeFrameError(frame)) => {
            assert_eq!(frame.data, samples);
            assert_eq!(frame.time, 9);
        }
        _ => panic!("a frame of 161 samples was taken"),
    }
    match tx.send(Frame::new(samples.clone(), 10)) {
        Err(SendError::InvalidSizeFrameError(frame)) => {
            assert_eq!(frame.data, samples);
            assert_eq!(frame.time, 10);
        }
        _ => panic!("a frame of 161 samples was sent"),
    }
}

#[test]
fn frames_of_alternating_size_all_fill_the_buffer() {
    let (mut port, tx) = CustomStreamMediaPort::new(8000, 1, 160, 0).ok().unwrap();
    let mut data = port.take_port_data().unwrap();
    for k in 0..20u64 {
        let len = if k % 2 == 0 { 160 } else { 159 };
        assert!(tx.send(Frame::new(vec![k as i16 + 1; len], k * 20_000)).is_ok());
    }
    for k in 0..20u64 {
        match data.get_frame(FrameType::Audio, 320) {
            FrameFill::Audio { bytes, timestamp } => {
                assert_eq!(bytes.len(), 320);
                assert_eq!(timestamp, k * 20_000);
                let sample = (k as i16 + 1).to_le_bytes();
                assert_eq!(&bytes[..2], &sample[..]);
                assert_eq!(&bytes[316..318], &sample[..]);
                let last = if k % 2 == 0 { sample } else { [0, 0] };
                assert_eq!(&bytes[318..], &last[..]);
            }
            _ => panic!("frame {} did not fill the buffer", k),
        }
    }
    assert!(matches!(data.get_frame(FrameType::Audio, 320), FrameFill::NoFrame));
}

#[test]
fn an_empty_queue_gives_no_frame() {
    let (mut port, tx) = CustomStreamMediaPort::new(8000, 1, 160, 0).ok().unwrap();
    let mut data = port.take_port_data().unwrap();
    assert!(matches!(data.get_frame(FrameType::Audio, 320), FrameFill::NoFrame));
    drop(tx);
    assert!(matches!(data.get_frame(FrameType::Audio, 320), FrameFill::NoFrame));
}

#[test]
fn a_request_that_is_not_for_audio_leaves_the_queue_alone() {
    let (mut port, tx) = CustomStreamMediaPort::new(8000, 1, 160, 0).ok().unwrap();
    let mut data = port.take_port_data().unwrap();
    assert!(tx.send(Frame::new(vec![1; 160], 0)).is_ok());
    assert!(matches!(data.get_frame(FrameType::NoFrame, 320), FrameFill::Untouched));
    assert!(matches!(data.get_frame(FrameType::Other, 320), FrameFill::Untouched));
    assert!(matches!(data.get_frame(FrameType::Audio, 320), FrameFill::Audio { .. }));
}

#[test]
fn a_buffer_of_another_size_is_a_mismatch() {
    let (mut port, tx) = CustomStreamMediaPort::new(8000, 1, 160, 0).ok().unwrap();
    let mut data = port.take_port_data().unwrap();
    assert!(tx.send(Frame::new(vec![1; 160], 0)).is_ok());
    match data.get_frame(FrameType::Audio, 640) {
        FrameFill::SizeMismatch { samples, capacity } => {
            assert_eq!(samples, 160);
            assert_eq!(capacity, 640);
        }
        _ => panic!("a frame of 160 samples went into 640 bytes"),
    }
    match MediaPortData::fill_frame(TryRecv::Received(Frame::new(vec![1, 2], 3)), 5) {
        FrameFill::SizeMismatch { samples, capacity } => {
            assert_eq!(samples, 2);
            assert_eq!(capacity, 5);
        }
        _ => panic!("two samples went into five bytes"),
    }
}

#[test]
fn fill_frame_writes_samples_and_time() {
    match MediaPortData::fill_frame(TryRecv::Received(Frame::new(vec![1, -2], 3)), 4) {
        FrameFill::Audio { bytes, timestamp } => {
            assert_eq!(bytes, vec![1, 0, 0xfe, 0xff]);
            assert_eq!(timestamp, 3);
        }
        _ => panic!("two samples did not go into four bytes"),
    }
    assert!(matches!(MediaPortData::fill_frame(TryRecv::Empty, 4), FrameFill::NoFrame));
    assert!(matches!(MediaPortData::fill_frame(TryRecv::Disconnected, 4), FrameFill::NoFrame));
}

#[test]
fn a_full_stream_queue_refuses_frames() {
    let (_port, tx) = CustomStreamMediaPort::new(8000, 1, 8, 0).ok().unwrap();
    assert_eq!(STREAM_QUEUE_DEPTH, 512);
    for _ in 0..STREAM_QUEUE_DEPTH {
        assert!(tx.send(Frame::new(vec![0; 8], 0)).is_ok());
    }
    assert!(matches!(tx.send(Frame::new(vec![0; 8], 0)), Err(SendError::SendErr)));
}

#[test]
fn a_stream_queue_without_receiver_refuses_frames() {
    let (port, tx) = CustomStreamMediaPort::new(8000, 1, 8, 0).ok().unwrap();
    drop(port);
    assert!(matches!(tx.send(Frame::new(vec![0; 8], 0)), Err(SendError::SendErr)));
}

#[test]
fn stream_port_is_removed_before_it_is_destroyed_and_once() {
    let (port, _tx) = CustomStreamMediaPort::new(8000, 1, 160, 1).ok().unwrap();
    let instance = started();
    let mut added = port.add(&instance, Ok(2)).ok().unwrap();
    assert_eq!(added.port_slot(), 2);
    assert_eq!(
        added.release(),
        vec![EngineRequest::ConfRemovePort { slot: 2 }, EngineRequest::PortDestroy { slot: 2 }]
    );
    assert!(added.release().is_empty());
}

#[test]
fn a_frame_that_is_not_queued_is_a_send_error() {
    assert!(CustomStreamMediaPortTx::sent_or_refused(TrySend::Sent).is_ok());
    assert!(matches!(
        CustomStreamMediaPortTx::sent_or_refused(TrySend::Full(Frame::new(vec![1], 0))),
        Err(SendError::SendErr)
    ));
    assert!(matches!(
        CustomStreamMediaPortTx::sent_or_refused(TrySend::Closed(Frame::new(vec![1], 0))),
        Err(SendError::SendErr)
    ));
}
