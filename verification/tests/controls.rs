use qhy_core::control::{all_controls, sorted_controls, ControlId, NUM_CONTROLS};
use std::convert::TryFrom;

#[test]
fn control_codes_match_sdk_numbering() {
    assert_eq!(ControlId::Brightness.code(), 0);
    assert_eq!(ControlId::Exposure.code(), 8);
    assert_eq!(ControlId::IgnoreOverscanInterface.code(), 37);
    assert_eq!(ControlId::AutoExposure3a.code(), 39);
    assert_eq!(ControlId::MaxId.code(), 94);
    assert_eq!(ControlId::AutoWhiteBalance.code(), 1024);
    assert_eq!(ControlId::HdrShowKb.code(), 1033);
}

#[test]
fn control_from_code_rejects_unused_codes() {
    assert_eq!(ControlId::from_code(38), None);
    assert_eq!(ControlId::from_code(95), None);
    assert_eq!(ControlId::from_code(1023), None);
    assert_eq!(ControlId::from_code(1034), None);
    assert_eq!(ControlId::from_code(u32::MAX), None);
    assert_eq!(ControlId::from_code(6), Some(ControlId::Gain));
    assert_eq!(ControlId::from_code(1026), Some(ControlId::GainDb));
}

#[test]
fn control_try_from_and_into_u32() {
    assert_eq!(ControlId::try_from(14u32), Ok(ControlId::CurTemp));
    assert_eq!(ControlId::try_from(38u32), Err(38u32));
    assert_eq!(ControlId::try_from(5000u32), Err(5000u32));
    let code: u32 = u32::from(ControlId::Bits16);
    assert_eq!(code, 35);
    let code2: u32 = ControlId::Hdr.into();
    assert_eq!(code2, 1029);
}

#[test]
fn control_round_trip_for_every_control() {
    for id in all_controls() {
        assert_eq!(ControlId::try_from(u32::from(id)), Ok(id));
    }
}

#[test]
fn all_controls_lists_each_once_in_code_order() {
    let all = all_controls();
    assert_eq!(all.len(), NUM_CONTROLS);
    assert_eq!(all.len(), 104);
    assert_eq!(all[0], ControlId::Brightness);
    assert_eq!(all[38], ControlId::AutoExposure3a);
    assert_eq!(all[93], ControlId::MaxId);
    assert_eq!(all[94], ControlId::AutoWhiteBalance);
    assert_eq!(all[103], ControlId::HdrShowKb);
    for w in all.windows(2) {
        assert!(w[0].code() < w[1].code());
    }
}

#[test]
fn sorted_controls_orders_by_code() {
    let present = vec![ControlId::Gain, ControlId::CurTemp, ControlId::Brightness, ControlId::Hdr, ControlId::Exposure];
    let sorted = sorted_controls(&present);
    assert_eq!(
        sorted,
        vec![ControlId::Brightness, ControlId::Gain, ControlId::Exposure, ControlId::CurTemp, ControlId::Hdr]
    );
    assert!(sorted_controls(&Vec::new()).is_empty());
}

#[test]
fn sorted_controls_drops_duplicates() {
    let present = vec![ControlId::Offset, ControlId::Offset, ControlId::Gain];
    assert_eq!(sorted_controls(&present), vec![ControlId::Gain, ControlId::Offset]);
}
