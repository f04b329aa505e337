use qhy_core::status::{
    check_error, check_exposure_start, classify_exposure_start, control_available, ExpResult,
    StreamMode, QHYCCD_ERROR, QHYCCD_READ_DIRECTLY, QHYCCD_SUCCESS,
};

#[test]
fn check_error_accepts_only_success() {
    assert!(check_error(QHYCCD_SUCCESS).is_ok());
    assert!(check_error(1).is_err());
    assert!(check_error(QHYCCD_ERROR).is_err());
    assert!(check_error(QHYCCD_READ_DIRECTLY).is_err());
}

#[test]
fn exposure_start_fails_only_on_error_code() {
    assert!(check_exposure_start(QHYCCD_ERROR).is_err());
    assert!(check_exposure_start(QHYCCD_SUCCESS).is_ok());
    assert!(check_exposure_start(QHYCCD_READ_DIRECTLY).is_ok());
    assert!(check_exposure_start(7).is_ok());
}

#[test]
fn exposure_start_classification() {
    assert!(classify_exposure_start(QHYCCD_ERROR).is_err());
    assert_eq!(classify_exposure_start(QHYCCD_READ_DIRECTLY).ok(), Some(ExpResult::ReadDirectly));
    assert_eq!(classify_exposure_start(QHYCCD_SUCCESS).ok(), Some(ExpResult::Exposing));
}

#[test]
fn control_availability_is_success_code() {
    assert!(control_available(0));
    assert!(!control_available(QHYCCD_ERROR));
    assert!(!control_available(2));
}

#[test]
fn stream_mode_codes() {
    assert_eq!(StreamMode::SingleFrame.code(), 0);
    assert_eq!(StreamMode::Live.code(), 1);
}
