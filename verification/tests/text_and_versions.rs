use qhy_core::text::{decimal_string, decode_c_string, str_equals};
use qhy_core::version::{decode_fw_version, FwVersion, SDKVersion};

#[test]
fn decimal_strings() {
    assert_eq!(decimal_string(0), "0");
    assert_eq!(decimal_string(7), "7");
    assert_eq!(decimal_string(10), "10");
    assert_eq!(decimal_string(2024), "2024");
    assert_eq!(decimal_string(u64::MAX), u64::MAX.to_string());
}

#[test]
fn string_equality() {
    assert!(str_equals("devices", "devices"));
    assert!(!str_equals("devices", "device"));
    assert!(!str_equals("gain", "Gain"));
    assert!(str_equals("", ""));
}

#[test]
fn c_string_stops_at_first_nul() {
    let mut buf = [0u8; 64];
    buf[..12].copy_from_slice(b"QHY600M-1234");
    assert_eq!(decode_c_string(&buf), "QHY600M-1234");
    let buf2 = b"ab\0cd";
    assert_eq!(decode_c_string(buf2), "ab");
    assert_eq!(decode_c_string(b"\0rest"), "");
}

#[test]
fn c_string_without_nul_takes_whole_buffer() {
    assert_eq!(decode_c_string(b"abc"), "abc");
    assert_eq!(decode_c_string(b""), "");
}

#[test]
fn c_string_replaces_invalid_utf8() {
    let buf = [b'a', 0xFF, b'b', 0];
    assert_eq!(decode_c_string(&buf), "a\u{FFFD}b");
    let utf8 = "Mödus\0".as_bytes();
    assert_eq!(decode_c_string(utf8), "Mödus");
}

#[test]
fn firmware_version_decoding() {
    // high nibble 4 (at most 9): year suffix 4 + 16 = 20
    let fw = decode_fw_version(&[0x47, 15, 0, 0]);
    assert_eq!(fw, FwVersion { year: 2020, month: 7, day: 15 });
    // high nibble 0xB (above 9): suffix 11
    let fw = decode_fw_version(&[0xBC, 3]);
    assert_eq!(fw, FwVersion { year: 2011, month: 12, day: 3 });
    // high nibble 9: suffix 25
    let fw = decode_fw_version(&[0x91, 31]);
    assert_eq!(fw, FwVersion { year: 2025, month: 1, day: 31 });
    let fw = decode_fw_version(&[0x00, 0]);
    assert_eq!(fw, FwVersion { year: 2016, month: 0, day: 0 });
}

#[test]
fn firmware_version_display() {
    let fw = FwVersion { year: 2020, month: 7, day: 15 };
    assert_eq!(fw.to_display_string(), "2020.7.15");
}

#[test]
fn sdk_version_from_raw_numbers() {
    let v = SDKVersion::from_raw(24, 3, 18, 1);
    assert_eq!(v, SDKVersion { year: 2024, month: 3, day: 18, subday: 1 });
    assert_eq!(v.to_display_string(), "2024.3.18.1");
}

#[test]
fn sdk_version_cuts_fields() {
    let v = SDKVersion::from_raw(65536 + 23, 256 + 12, 300, 511);
    assert_eq!(v, SDKVersion { year: 2023, month: 12, day: 44, subday: 255 });
    assert_eq!(v.to_display_string(), "2023.12.44.255");
}
