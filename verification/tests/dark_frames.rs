use qhy_core::dark::{assess_dark_frame, DarkFrameSummary, count_dark_pixels, dark_threshold, fits_bitpix, fits_pixel_data, DarkFrameError, FitsPixels};
use qhy_core::fits::{dark_frame_headers, instrument_text, CardValue, FitsCard, FloatField};
use qhy_core::frame::FrameInfo;

fn info(width: u32, height: u32, bpp: u32) -> FrameInfo {
    FrameInfo { width, height, bpp, channels: 1 }
}

#[test]
fn dark_thresholds() {
    assert_eq!(dark_threshold(8), 25);
    assert_eq!(dark_threshold(1), 25);
    assert_eq!(dark_threshold(12), 6554);
    assert_eq!(dark_threshold(16), 6554);
}

#[test]
fn counting_dark_bytes_and_words() {
    assert_eq!(count_dark_pixels(&[0, 25, 26, 255, 10], 8), 3);
    // words: 0x0000, 0x199A = 6554, 0x199B = 6555, trailing odd byte ignored
    assert_eq!(count_dark_pixels(&[0, 0, 0x9A, 0x19, 0x9B, 0x19, 0], 16), 2);
    assert_eq!(count_dark_pixels(&[], 16), 0);
}

#[test]
fn covered_frame_is_accepted() {
    let buf = vec![3u8; 100];
    let s = assess_dark_frame(&info(10, 10, 8), &buf).expect("dark");
    assert_eq!((s.pixel_count, s.data_len, s.dark_count), (100, 100, 100));
}

#[test]
fn exactly_ninety_percent_is_enough() {
    let mut buf = vec![0u8; 10];
    buf[0] = 200;
    let s = assess_dark_frame(&info(10, 1, 8), &buf).expect("90% dark");
    assert_eq!(s.dark_count, 9);
    buf[1] = 200;
    assert_eq!(
        assess_dark_frame(&info(10, 1, 8), &buf),
        Err(DarkFrameError::NotDark { dark_count: 8, pixel_count: 10 })
    );
}

#[test]
fn short_buffer_limits_data() {
    // 16-bit frame of 4 pixels needs 8 bytes; only 5 given: 2 words
    let buf = vec![0u8; 5];
    assert_eq!(
        assess_dark_frame(&info(2, 2, 16), &buf),
        Err(DarkFrameError::NotDark { dark_count: 2, pixel_count: 4 })
    );
}

#[test]
fn empty_frame_passes() {
    let s = assess_dark_frame(&info(0, 0, 16), &[]).expect("no pixels");
    assert_eq!((s.pixel_count, s.dark_count), (0, 0));
}

#[test]
fn fits_pixels_for_both_depths() {
    let buf = vec![1u8, 2, 3, 4, 5];
    let s = assess_dark_frame(&info(2, 2, 8), &buf).unwrap();
    match fits_pixel_data(&info(2, 2, 8), &s, &buf) {
        FitsPixels::Unsigned8(v) => assert_eq!(v, vec![1, 2, 3, 4]),
        _ => panic!("expected bytes"),
    }
}

#[test]
fn fits_pixels_shift_sixteen_bit_words() {
    // words 0, 0x8000, 0xFFFF, 16 and 3 more zeros
    let buf16 = vec![0x00, 0x00, 0x00, 0x80, 0xFF, 0xFF, 0x10, 0x00, 0, 0, 0, 0, 0, 0, 0, 0, 0, 0, 0, 0];
    let s = DarkFrameSummary { pixel_count: 10, data_len: 20, dark_count: 8 };
    match fits_pixel_data(&info(10, 1, 16), &s, &buf16) {
        FitsPixels::Signed16(v) => {
            assert_eq!(&v[..4], &[-32768, 0, 32767, -32752]);
            assert_eq!(v.len(), 10);
        }
        _ => panic!("expected words"),
    }
}

#[test]
fn bitpix_values() {
    assert_eq!(fits_bitpix(8), 8);
    assert_eq!(fits_bitpix(16), 16);
    assert_eq!(fits_bitpix(12), 16);
}

#[test]
fn instrument_text_is_cut_to_68_chars() {
    assert_eq!(instrument_text("QHY600M"), "QHY600M");
    let long: String = std::iter::repeat('x').take(80).collect();
    assert_eq!(instrument_text(&long).len(), 68);
}

fn keys(cards: &[FitsCard]) -> Vec<String> {
    cards
        .iter()
        .map(|c| match c {
            FitsCard::Keyword { key, .. } => key.clone(),
            FitsCard::Comment(_) => "COMMENT".to_string(),
            FitsCard::End => "END".to_string(),
        })
        .collect()
}

#[test]
fn dark_headers_for_sixteen_bit_frame() {
    let cards = dark_frame_headers(&info(640, 480, 16), "QHY5III-ab", true);
    assert_eq!(
        keys(&cards),
        vec!["SIMPLE", "BITPIX", "NAXIS", "NAXIS1", "NAXIS2", "BZERO", "BSCALE", "EXPTIME", "INSTRUME", "IMAGETYP", "XPIXSZ", "YPIXSZ", "XBINNING", "YBINNING", "CCD-TEMP", "COMMENT", "END"]
    );
    match &cards[1] {
        FitsCard::Keyword { value: CardValue::Integer(16), comment: Some(c), .. } => assert_eq!(c, "bits per pixel"),
        other => panic!("unexpected {:?}", other),
    }
    match &cards[3] {
        FitsCard::Keyword { value: CardValue::Integer(640), .. } => {}
        other => panic!("unexpected {:?}", other),
    }
    match &cards[8] {
        FitsCard::Keyword { value: CardValue::Text(t), .. } => assert_eq!(t, "QHY5III-ab"),
        other => panic!("unexpected {:?}", other),
    }
    match &cards[14] {
        FitsCard::Keyword { value: CardValue::Float(FloatField::SensorTemperature), .. } => {}
        other => panic!("unexpected {:?}", other),
    }
}

#[test]
fn dark_headers_for_eight_bit_frame_without_temperature() {
    let cards = dark_frame_headers(&info(8, 8, 8), "cam", false);
    assert_eq!(
        keys(&cards),
        vec!["SIMPLE", "BITPIX", "NAXIS", "NAXIS1", "NAXIS2", "EXPTIME", "INSTRUME", "IMAGETYP", "XPIXSZ", "YPIXSZ", "XBINNING", "YBINNING", "COMMENT", "END"]
    );
    match &cards[0] {
        FitsCard::Keyword { value: CardValue::Logical(true), comment: None, .. } => {}
        other => panic!("unexpected {:?}", other),
    }
}
