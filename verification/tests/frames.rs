use qhy_core::exposure::{complete_readout, exposure_worker_plan, DeviceError, ExposureCycle, ExposureState, WorkerPlan};
use qhy_core::status::{QHYCCD_ERROR, QHYCCD_READ_DIRECTLY};
use qhy_core::frame::{frame_data_len, serialize_base64, ExposureValue, Frame, FrameInfo, FrameType};
use qhy_core::status::QHYError;

fn info(width: u32, height: u32, bpp: u32) -> FrameInfo {
    FrameInfo { width, height, bpp, channels: 1 }
}

#[test]
fn frame_data_len_rounds_bits_up() {
    assert_eq!(frame_data_len(&info(4, 3, 8)), 12);
    assert_eq!(frame_data_len(&info(4, 3, 16)), 24);
    assert_eq!(frame_data_len(&info(4, 3, 12)), 24);
    assert_eq!(frame_data_len(&info(4, 3, 1)), 12);
    assert_eq!(frame_data_len(&info(4, 3, 0)), 0);
    assert_eq!(frame_data_len(&info(0, 3, 16)), 0);
}

#[test]
fn frame_from_readout_takes_prefix() {
    let buf: Vec<u8> = (0..20).collect();
    let f = Frame::from_readout(FrameType::Dark, &FrameInfo { width: 3, height: 2, bpp: 16, channels: 1 }, &buf);
    assert_eq!(f.frame_type, FrameType::Dark);
    assert_eq!((f.width, f.height, f.bpp, f.channels), (3, 2, 16, 1));
    assert_eq!(f.data, (0..12).collect::<Vec<u8>>());
}

#[test]
fn base64_of_frame_data() {
    assert_eq!(serialize_base64(b""), "");
    assert_eq!(serialize_base64(b"f"), "Zg==");
    assert_eq!(serialize_base64(b"hello"), "aGVsbG8=");
    assert_eq!(serialize_base64(&[0, 255, 128]), "AP+A");
    assert_eq!(serialize_base64(&[77, 97, 110, 255]), "TWFu/w==");
    assert_eq!(serialize_base64(b"ab"), "YWI=");
}

#[test]
fn exposure_cycle_full_round() {
    let mut c = ExposureCycle::new(8);
    assert_eq!(c.exposure_state(), ExposureState::Idle);
    let val = ExposureValue { duration_us: 1000, frame_type: FrameType::Light };
    assert_eq!(c.start_exposure(true, &val), Ok(()));
    assert_eq!(c.exposure_state(), ExposureState::Exposing(FrameType::Light));
    assert!(c.exposure_armed());
    // not done yet: nothing happens
    assert!(c.poll_exposure(false).is_none());
    assert_eq!(c.exposure_state(), ExposureState::Exposing(FrameType::Light));
    let (ft, buf) = c.poll_exposure(true).expect("readout starts");
    assert_eq!(ft, FrameType::Light);
    assert_eq!(buf, vec![0u8; 8]);
    assert_eq!(c.exposure_state(), ExposureState::ReadingOut);
    assert!(c.readout_pending());
    // nothing received yet
    assert!(c.poll_readout(None).is_none());
    assert_eq!(c.exposure_state(), ExposureState::ReadingOut);
    let (frame, back) = complete_readout(ft, Ok(FrameInfo { width: 2, height: 2, bpp: 8, channels: 1 }), buf);
    let frame = c.poll_readout(Some((frame, back))).expect("frame");
    assert_eq!(frame.data, vec![0u8; 4]);
    assert_eq!(frame.frame_type, FrameType::Light);
    assert_eq!(c.exposure_state(), ExposureState::Idle);
    assert!(!c.readout_pending());
}

#[test]
fn exposure_refused_by_camera_changes_nothing() {
    let mut c = ExposureCycle::new(4);
    let val = ExposureValue { duration_us: 5, frame_type: FrameType::Flat };
    assert_eq!(c.start_exposure(false, &val), Err(DeviceError::DeviceConnectionError));
    assert_eq!(c.exposure_state(), ExposureState::Idle);
    assert!(!c.exposure_armed());
    assert!(c.poll_exposure(true).is_none());
}

#[test]
fn failed_readout_returns_buffer_without_frame() {
    let mut c = ExposureCycle::new(3);
    let val = ExposureValue { duration_us: 5, frame_type: FrameType::Bias };
    c.start_exposure(true, &val).unwrap();
    let (ft, buf) = c.poll_exposure(true).unwrap();
    let (frame, back) = complete_readout(ft, Err(QHYError {}), buf);
    assert!(frame.is_none());
    assert_eq!(back, vec![0u8; 3]);
    assert!(c.poll_readout(Some((frame, back))).is_none());
    assert_eq!(c.exposure_state(), ExposureState::Idle);
}

#[test]
fn poll_readout_without_pending_readout_ignores_input() {
    let mut c = ExposureCycle::new(2);
    let out = c.poll_readout(Some((None, vec![1, 2, 3])));
    assert!(out.is_none());
    assert_eq!(c.exposure_state(), ExposureState::Idle);
    assert!(!c.readout_pending());
}

#[test]
fn exposure_worker_plans() {
    assert_eq!(exposure_worker_plan(QHYCCD_ERROR), WorkerPlan::GiveUp);
    assert_eq!(exposure_worker_plan(QHYCCD_READ_DIRECTLY), WorkerPlan::Signal);
    assert_eq!(exposure_worker_plan(0), WorkerPlan::WaitThenSignal);
}
