use vstd::prelude::*;

use crate::dark::{fits_bitpix, fits_bitpix_spec};
use crate::frame::FrameInfo;

verus! {

/// A value of the header that only the caller can supply, as a
/// floating-point number.
#[derive(Debug, Clone, Copy, PartialEq, Eq, Structural)]
pub enum FloatField {
    /// The exposure time in seconds.
    ExposureSeconds,
    /// The pixel pitch along X in micrometres.
    PixelWidth,
    /// The pixel pitch along Y in micrometres.
    PixelHeight,
    /// The sensor temperature in degrees Celsius.
    SensorTemperature,
}

/// The value of a header card.
#[derive(Debug)]
pub enum CardValue {
    Logical(bool),
    Integer(i64),
    Text(String),
    Float(FloatField),
}

/// A header card of a FITS file.
#[derive(Debug)]
pub enum FitsCard {
    /// A keyword with its value, and with a comment where there is one.
    Keyword { key: String, value: CardValue, comment: Option<String> },
    /// A `COMMENT` card.
    Comment(String),
    /// The `END` card that closes the header.
    End,
}

/// The model of a card value.
pub ghost enum CardValueView {
    Logical(bool),
    Integer(i64),
    Text(Seq<char>),
    Float(FloatField),
}

/// The model of a header card.
pub ghost enum FitsCardView {
    Keyword { key: Seq<char>, value: CardValueView, comment: Option<Seq<char>> },
    Comment(Seq<char>),
    End,
}

impl View for CardValue {
    type V = CardValueView;

    open spec fn view(&self) -> CardValueView {
        match self {
            CardValue::Logical(b) => CardValueView::Logical(*b),
            CardValue::Integer(i) => CardValueView::Integer(*i),
            CardValue::Text(s) => CardValueView::Text(s@),
            CardValue::Float(f) => CardValueView::Float(*f),
        }
    }
}

impl View for FitsCard {
    type V = FitsCardView;

    open spec fn view(&self) -> FitsCardView {
        match self {
            FitsCard::Keyword { key, value, comment } => FitsCardView::Keyword {
                key: key@,
                value: value@,
                comment: match comment {
                    Some(c) => Some(c@),
                    None => None,
                },
            },
            FitsCard::Comment(c) => FitsCardView::Comment(c@),
            FitsCard::End => FitsCardView::End,
        }
    }
}


/// A keyword card with a comment.
pub open spec fn keyword_card(key: Seq<char>, value: CardValueView, comment: Seq<char>) -> FitsCardView {
    FitsCardView::Keyword { key, value, comment: Some(comment) }
}

/// The first 68 characters of `s` (all of them where it is shorter): what
/// fits in the value of a FITS text card.
pub open spec fn card_text(s: Seq<char>) -> Seq<char> {
    if s.len() <= 68 {
        s
    } else {
        s.take(68)
    }
}

/// The header of the FITS file of a dark frame: the mandatory keywords of a
/// primary image of two axes, the scaling of 16-bit data where the pixels are
/// wider than 8 bits, the exposure time, the camera, the frame type, the
/// pixel pitch and the binning, the sensor temperature where it is known, a
/// comment and the closing `END` card.
pub open spec fn dark_frame_cards(info: FrameInfo, camera_id: Seq<char>, has_temperature: bool) -> Seq<FitsCardView> {
    seq![
        FitsCardView::Keyword { key: "SIMPLE"@, value: CardValueView::Logical(true), comment: None },
        keyword_card("BITPIX"@, CardValueView::Integer(fits_bitpix_spec(info.bpp)), "bits per pixel"@),
        keyword_card("NAXIS"@, CardValueView::Integer(2), "number of array dimensions"@),
        keyword_card("NAXIS1"@, CardValueView::Integer(info.width as i64), "image width [px]"@),
        keyword_card("NAXIS2"@, CardValueView::Integer(info.height as i64), "image height [px]"@),
    ] + (if info.bpp > 8 {
        seq![
            keyword_card("BZERO"@, CardValueView::Integer(32768), "offset: physical = stored + BZERO"@),
            keyword_card("BSCALE"@, CardValueView::Integer(1), "data scaling factor"@),
        ]
    } else {
        Seq::empty()
    }) + seq![
        keyword_card("EXPTIME"@, CardValueView::Float(FloatField::ExposureSeconds), "[s] total exposure time"@),
        keyword_card("INSTRUME"@, CardValueView::Text(card_text(camera_id)), "camera identifier"@),
        keyword_card("IMAGETYP"@, CardValueView::Text("DARK"@), "frame type"@),
        keyword_card("XPIXSZ"@, CardValueView::Float(FloatField::PixelWidth), "[um] pixel pitch X"@),
        keyword_card("YPIXSZ"@, CardValueView::Float(FloatField::PixelHeight), "[um] pixel pitch Y"@),
        keyword_card("XBINNING"@, CardValueView::Integer(1), "horizontal binning"@),
        keyword_card("YBINNING"@, CardValueView::Integer(1), "vertical binning"@),
    ] + (if has_temperature {
        seq![keyword_card("CCD-TEMP"@, CardValueView::Float(FloatField::SensorTemperature), "[C] sensor temperature"@)]
    } else {
        Seq::empty()
    }) + seq![FitsCardView::Comment("Dark frame acquired by qhy-ccd-test (qhy-rs)"@), FitsCardView::End]
}

fn keyword(key: &str, value: CardValue, comment: &str) -> (c: FitsCard)
    ensures
        c@ == keyword_card(key@, value@, comment@),
{
    FitsCard::Keyword {
        key: String::from_str(key),
        value,
        comment: Some(String::from_str(comment)),
    }
}

fn text_value(s: &str) -> (v: CardValue)
    ensures
        v@ == CardValueView::Text(s@),
{
    CardValue::Text(String::from_str(s))
}

/// Returns the text of an `INSTRUME` card for the camera `camera_id`: its
/// first 68 characters.
pub fn instrument_text(camera_id: &str) -> (s: String)
    ensures
        s@ == card_text(camera_id@),
{
    let n = camera_id.unicode_len();
    let end = if n <= 68 {
        n
    } else {
        68
    };
    let t = String::from_str(camera_id.substring_char(0, end));
    assert(n <= 68 ==> t@ =~= camera_id@);
    t
}

/// Builds the header of the FITS file of a dark frame taken by the camera
/// `camera_id`, with a sensor temperature card where one is known.
pub fn dark_frame_headers(info: &FrameInfo, camera_id: &str, has_temperature: bool) -> (cards: Vec<FitsCard>)
    ensures
        cards@.map_values(|c: FitsCard| c@) == dark_frame_cards(*info, camera_id@, has_temperature),
        has_keyword(cards@.map_values(|c: FitsCard| c@), "NAXIS"@, CardValueView::Integer(2)),
        has_keyword(cards@.map_values(|c: FitsCard| c@), "NAXIS1"@, CardValueView::Integer(info.width as i64)),
        has_keyword(cards@.map_values(|c: FitsCard| c@), "NAXIS2"@, CardValueView::Integer(info.height as i64)),
        has_keyword(
            cards@.map_values(|c: FitsCard| c@),
            "BITPIX"@,
            CardValueView::Integer(if info.bpp <= 8 { 8 } else { 16 }),
        ),
        has_keyword(cards@.map_values(|c: FitsCard| c@), "INSTRUME"@, CardValueView::Text(card_text(camera_id@))),
{
    let mut cards: Vec<FitsCard> = Vec::new();
    cards.push(FitsCard::Keyword {
        key: String::from_str("SIMPLE"),
        value: CardValue::Logical(true),
        comment: None,
    });
    cards.push(keyword("BITPIX", CardValue::Integer(fits_bitpix(info.bpp)), "bits per pixel"));
    cards.push(keyword("NAXIS", CardValue::Integer(2), "number of array dimensions"));
    cards.push(keyword("NAXIS1", CardValue::Integer(info.width as i64), "image width [px]"));
    cards.push(keyword("NAXIS2", CardValue::Integer(info.height as i64), "image height [px]"));
    if info.bpp > 8 {
        cards.push(
            keyword("BZERO", CardValue::Integer(32768), "offset: physical = stored + BZERO"),
        );
        cards.push(keyword("BSCALE", CardValue::Integer(1), "data scaling factor"));
    }
    cards.push(
        keyword(
            "EXPTIME",
            CardValue::Float(FloatField::ExposureSeconds),
            "[s] total exposure time",
        ),
    );
    cards.push(
        keyword("INSTRUME", CardValue::Text(instrument_text(camera_id)), "camera identifier"),
    );
    cards.push(keyword("IMAGETYP", text_value("DARK"), "frame type"));
    cards.push(
        keyword("XPIXSZ", CardValue::Float(FloatField::PixelWidth), "[um] pixel pitch X"),
    );
    cards.push(
        keyword("YPIXSZ", CardValue::Float(FloatField::PixelHeight), "[um] pixel pitch Y"),
    );
    cards.push(keyword("XBINNING", CardValue::Integer(1), "horizontal binning"));
    cards.push(keyword("YBINNING", CardValue::Integer(1), "vertical binning"));
    if has_temperature {
        cards.push(
            keyword(
                "CCD-TEMP",
                CardValue::Float(FloatField::SensorTemperature),
                "[C] sensor temperature",
            ),
        );
    }
    cards.push(FitsCard::Comment(String::from_str("Dark frame acquired by qhy-ccd-test (qhy-rs)")));
    cards.push(FitsCard::End);
    assert(cards@.map_values(|c: FitsCard| c@) =~= dark_frame_cards(
        *info,
        camera_id@,
        has_temperature,
    ));
    proof {
        lemma_dark_header_describes_frame(*info, camera_id@, has_temperature);
    }
    cards
}



/// The value of `c` where it is a keyword card keyed `key`.
pub open spec fn keyword_value(c: FitsCardView, key: Seq<char>) -> Option<CardValueView> {
    match c {
        FitsCardView::Keyword { key: k, value, .. } => if k == key {
            Some(value)
        } else {
            None
        },
        _ => None,
    }
}

/// `cards` hold exactly one card keyed `key`, and its value is `value`.
pub open spec fn has_keyword(cards: Seq<FitsCardView>, key: Seq<char>, value: CardValueView) -> bool {
    &&& exists|i: int| 0 <= i < cards.len() && #[trigger] keyword_value(cards[i], key) == Some(value)
    &&& forall|i: int, j: int|
        0 <= i < cards.len() && 0 <= j < cards.len() && #[trigger] keyword_value(cards[i], key) is Some
            && #[trigger] keyword_value(cards[j], key) is Some ==> i == j
}


proof fn lemma_key_letters()
    ensures
        "SIMPLE"@.len() == 6 && "SIMPLE"@[0] == 'S' && "SIMPLE"@[1] == 'I' && "SIMPLE"@[5] == 'E',
        "BITPIX"@.len() == 6 && "BITPIX"@[0] == 'B' && "BITPIX"@[1] == 'I' && "BITPIX"@[5] == 'X',
        "NAXIS"@.len() == 5 && "NAXIS"@[0] == 'N' && "NAXIS"@[1] == 'A' && "NAXIS"@[4] == 'S',
        "NAXIS1"@.len() == 6 && "NAXIS1"@[0] == 'N' && "NAXIS1"@[1] == 'A' && "NAXIS1"@[5] == '1',
        "NAXIS2"@.len() == 6 && "NAXIS2"@[0] == 'N' && "NAXIS2"@[1] == 'A' && "NAXIS2"@[5] == '2',
        "BZERO"@.len() == 5 && "BZERO"@[0] == 'B' && "BZERO"@[1] == 'Z' && "BZERO"@[4] == 'O',
        "BSCALE"@.len() == 6 && "BSCALE"@[0] == 'B' && "BSCALE"@[1] == 'S' && "BSCALE"@[5] == 'E',
        "EXPTIME"@.len() == 7 && "EXPTIME"@[0] == 'E' && "EXPTIME"@[1] == 'X' && "EXPTIME"@[6] == 'E',
        "INSTRUME"@.len() == 8 && "INSTRUME"@[0] == 'I' && "INSTRUME"@[1] == 'N' && "INSTRUME"@[7] == 'E',
        "IMAGETYP"@.len() == 8 && "IMAGETYP"@[0] == 'I' && "IMAGETYP"@[1] == 'M' && "IMAGETYP"@[7] == 'P',
        "XPIXSZ"@.len() == 6 && "XPIXSZ"@[0] == 'X' && "XPIXSZ"@[1] == 'P' && "XPIXSZ"@[5] == 'Z',
        "YPIXSZ"@.len() == 6 && "YPIXSZ"@[0] == 'Y' && "YPIXSZ"@[1] == 'P' && "YPIXSZ"@[5] == 'Z',
        "XBINNING"@.len() == 8 && "XBINNING"@[0] == 'X' && "XBINNING"@[1] == 'B' && "XBINNING"@[7] == 'G',
        "YBINNING"@.len() == 8 && "YBINNING"@[0] == 'Y' && "YBINNING"@[1] == 'B' && "YBINNING"@[7] == 'G',
        "CCD-TEMP"@.len() == 8 && "CCD-TEMP"@[0] == 'C' && "CCD-TEMP"@[1] == 'C' && "CCD-TEMP"@[7] == 'P',
{
    reveal_strlit("SIMPLE");
    reveal_strlit("BITPIX");
    reveal_strlit("NAXIS");
    reveal_strlit("NAXIS1");
    reveal_strlit("NAXIS2");
    reveal_strlit("BZERO");
    reveal_strlit("BSCALE");
    reveal_strlit("EXPTIME");
    reveal_strlit("INSTRUME");
    reveal_strlit("IMAGETYP");
    reveal_strlit("XPIXSZ");
    reveal_strlit("YPIXSZ");
    reveal_strlit("XBINNING");
    reveal_strlit("YBINNING");
    reveal_strlit("CCD-TEMP");
}

/// The header describes the frame it is written for: a primary image
/// (`SIMPLE` first, `END` last) of two axes whose first axis (`NAXIS1`) is
/// the frame width and second (`NAXIS2`) the frame height, with `BITPIX` 8 or
/// 16 after the pixel depth, the camera id (cut to 68 characters) as
/// `INSTRUME`, `DARK` as `IMAGETYP`, and binning 1 on both axes; each of
/// these keywords stands once.
pub proof fn lemma_dark_header_describes_frame(info: FrameInfo, camera_id: Seq<char>, has_temperature: bool)
    ensures
        ({
            let cards = dark_frame_cards(info, camera_id, has_temperature);
            &&& cards[0] == (FitsCardView::Keyword { key: "SIMPLE"@, value: CardValueView::Logical(true), comment: None })
            &&& cards.last() == FitsCardView::End
            &&& has_keyword(cards, "NAXIS"@, CardValueView::Integer(2))
            &&& has_keyword(cards, "NAXIS1"@, CardValueView::Integer(info.width as i64))
            &&& has_keyword(cards, "NAXIS2"@, CardValueView::Integer(info.height as i64))
            &&& has_keyword(cards, "BITPIX"@, CardValueView::Integer(if info.bpp <= 8 { 8 } else { 16 }))
            &&& has_keyword(cards, "INSTRUME"@, CardValueView::Text(card_text(camera_id)))
            &&& has_keyword(cards, "IMAGETYP"@, CardValueView::Text("DARK"@))
            &&& has_keyword(cards, "XBINNING"@, CardValueView::Integer(1))
            &&& has_keyword(cards, "YBINNING"@, CardValueView::Integer(1))
        }),
{
    lemma_key_letters();
    let cards = dark_frame_cards(info, camera_id, has_temperature);
    if info.bpp > 8 && has_temperature {
        let flat = seq![
            FitsCardView::Keyword { key: "SIMPLE"@, value: CardValueView::Logical(true), comment: None },
            keyword_card("BITPIX"@, CardValueView::Integer(fits_bitpix_spec(info.bpp)), "bits per pixel"@),
            keyword_card("NAXIS"@, CardValueView::Integer(2), "number of array dimensions"@),
            keyword_card("NAXIS1"@, CardValueView::Integer(info.width as i64), "image width [px]"@),
            keyword_card("NAXIS2"@, CardValueView::Integer(info.height as i64), "image height [px]"@),
            keyword_card("BZERO"@, CardValueView::Integer(32768), "offset: physical = stored + BZERO"@),
            keyword_card("BSCALE"@, CardValueView::Integer(1), "data scaling factor"@),
            keyword_card("EXPTIME"@, CardValueView::Float(FloatField::ExposureSeconds), "[s] total exposure time"@),
            keyword_card("INSTRUME"@, CardValueView::Text(card_text(camera_id)), "camera identifier"@),
            keyword_card("IMAGETYP"@, CardValueView::Text("DARK"@), "frame type"@),
            keyword_card("XPIXSZ"@, CardValueView::Float(FloatField::PixelWidth), "[um] pixel pitch X"@),
            keyword_card("YPIXSZ"@, CardValueView::Float(FloatField::PixelHeight), "[um] pixel pitch Y"@),
            keyword_card("XBINNING"@, CardValueView::Integer(1), "horizontal binning"@),
            keyword_card("YBINNING"@, CardValueView::Integer(1), "vertical binning"@),
            keyword_card("CCD-TEMP"@, CardValueView::Float(FloatField::SensorTemperature), "[C] sensor temperature"@),
            FitsCardView::Comment("Dark frame acquired by qhy-ccd-test (qhy-rs)"@),
            FitsCardView::End,
        ];
        assert(cards =~= flat);
        assert(keyword_value(flat[2], "NAXIS"@) == Some(CardValueView::Integer(2)));
        assert forall|i: int| 0 <= i < flat.len() && #[trigger] keyword_value(flat[i], "NAXIS"@) is Some implies i == 2 by {
            if i == 0 {} else if i == 1 {} else if i == 2 {} else if i == 3 {} else if i == 4 {} else if i == 5 {} else if i == 6 {} else if i == 7 {} else if i == 8 {} else if i == 9 {} else if i == 10 {} else if i == 11 {} else if i == 12 {} else if i == 13 {} else if i == 14 {} else if i == 15 {} else if i == 16 {}
        }
        assert(keyword_value(flat[3], "NAXIS1"@) == Some(CardValueView::Integer(info.width as i64)));
        assert forall|i: int| 0 <= i < flat.len() && #[trigger] keyword_value(flat[i], "NAXIS1"@) is Some implies i == 3 by {
            if i == 0 {} else if i == 1 {} else if i == 2 {} else if i == 3 {} else if i == 4 {} else if i == 5 {} else if i == 6 {} else if i == 7 {} else if i == 8 {} else if i == 9 {} else if i == 10 {} else if i == 11 {} else if i == 12 {} else if i == 13 {} else if i == 14 {} else if i == 15 {} else if i == 16 {}
        }
        assert(keyword_value(flat[4], "NAXIS2"@) == Some(CardValueView::Integer(info.height as i64)));
        assert forall|i: int| 0 <= i < flat.len() && #[trigger] keyword_value(flat[i], "NAXIS2"@) is Some implies i == 4 by {
            if i == 0 {} else if i == 1 {} else if i == 2 {} else if i == 3 {} else if i == 4 {} else if i == 5 {} else if i == 6 {} else if i == 7 {} else if i == 8 {} else if i == 9 {} else if i == 10 {} else if i == 11 {} else if i == 12 {} else if i == 13 {} else if i == 14 {} else if i == 15 {} else if i == 16 {}
        }
        assert(keyword_value(flat[1], "BITPIX"@) == Some(CardValueView::Integer(if info.bpp <= 8 { 8 } else { 16 })));
        assert forall|i: int| 0 <= i < flat.len() && #[trigger] keyword_value(flat[i], "BITPIX"@) is Some implies i == 1 by {
            if i == 0 {} else if i == 1 {} else if i == 2 {} else if i == 3 {} else if i == 4 {} else if i == 5 {} else if i == 6 {} else if i == 7 {} else if i == 8 {} else if i == 9 {} else if i == 10 {} else if i == 11 {} else if i == 12 {} else if i == 13 {} else if i == 14 {} else if i == 15 {} else if i == 16 {}
        }
        assert(keyword_value(flat[8], "INSTRUME"@) == Some(CardValueView::Text(card_text(camera_id))));
        assert forall|i: int| 0 <= i < flat.len() && #[trigger] keyword_value(flat[i], "INSTRUME"@) is Some implies i == 8 by {
            if i == 0 {} else if i == 1 {} else if i == 2 {} else if i == 3 {} else if i == 4 {} else if i == 5 {} else if i == 6 {} else if i == 7 {} else if i == 8 {} else if i == 9 {} else if i == 10 {} else if i == 11 {} else if i == 12 {} else if i == 13 {} else if i == 14 {} else if i == 15 {} else if i == 16 {}
        }
        assert(keyword_value(flat[9], "IMAGETYP"@) == Some(CardValueView::Text("DARK"@)));
        assert forall|i: int| 0 <= i < flat.len() && #[trigger] keyword_value(flat[i], "IMAGETYP"@) is Some implies i == 9 by {
            if i == 0 {} else if i == 1 {} else if i == 2 {} else if i == 3 {} else if i == 4 {} else if i == 5 {} else if i == 6 {} else if i == 7 {} else if i == 8 {} else if i == 9 {} else if i == 10 {} else if i == 11 {} else if i == 12 {} else if i == 13 {} else if i == 14 {} else if i == 15 {} else if i == 16 {}
        }
        assert(keyword_value(flat[12], "XBINNING"@) == Some(CardValueView::Integer(1)));
        assert forall|i: int| 0 <= i < flat.len() && #[trigger] keyword_value(flat[i], "XBINNING"@) is Some implies i == 12 by {
            if i == 0 {} else if i == 1 {} else if i == 2 {} else if i == 3 {} else if i == 4 {} else if i == 5 {} else if i == 6 {} else if i == 7 {} else if i == 8 {} else if i == 9 {} else if i == 10 {} else if i == 11 {} else if i == 12 {} else if i == 13 {} else if i == 14 {} else if i == 15 {} else if i == 16 {}
        }
        assert(keyword_value(flat[13], "YBINNING"@) == Some(CardValueView::Integer(1)));
        assert forall|i: int| 0 <= i < flat.len() && #[trigger] keyword_value(flat[i], "YBINNING"@) is Some implies i == 13 by {
            if i == 0 {} else if i == 1 {} else if i == 2 {} else if i == 3 {} else if i == 4 {} else if i == 5 {} else if i == 6 {} else if i == 7 {} else if i == 8 {} else if i == 9 {} else if i == 10 {} else if i == 11 {} else if i == 12 {} else if i == 13 {} else if i == 14 {} else if i == 15 {} else if i == 16 {}
        }
    } else if info.bpp > 8 {
        let flat = seq![
            FitsCardView::Keyword { key: "SIMPLE"@, value: CardValueView::Logical(true), comment: None },
            keyword_card("BITPIX"@, CardValueView::Integer(fits_bitpix_spec(info.bpp)), "bits per pixel"@),
            keyword_card("NAXIS"@, CardValueView::Integer(2), "number of array dimensions"@),
            keyword_card("NAXIS1"@, CardValueView::Integer(info.width as i64), "image width [px]"@),
            keyword_card("NAXIS2"@, CardValueView::Integer(info.height as i64), "image height [px]"@),
            keyword_card("BZERO"@, CardValueView::Integer(32768), "offset: physical = stored + BZERO"@),
            keyword_card("BSCALE"@, CardValueView::Integer(1), "data scaling factor"@),
            keyword_card("EXPTIME"@, CardValueView::Float(FloatField::ExposureSeconds), "[s] total exposure time"@),
            keyword_card("INSTRUME"@, CardValueView::Text(card_text(camera_id)), "camera identifier"@),
            keyword_card("IMAGETYP"@, CardValueView::Text("DARK"@), "frame type"@),
            keyword_card("XPIXSZ"@, CardValueView::Float(FloatField::PixelWidth), "[um] pixel pitch X"@),
            keyword_card("YPIXSZ"@, CardValueView::Float(FloatField::PixelHeight), "[um] pixel pitch Y"@),
            keyword_card("XBINNING"@, CardValueView::Integer(1), "horizontal binning"@),
            keyword_card("YBINNING"@, CardValueView::Integer(1), "vertical binning"@),
            FitsCardView::Comment("Dark frame acquired by qhy-ccd-test (qhy-rs)"@),
            FitsCardView::End,
        ];
        assert(cards =~= flat);
        assert(keyword_value(flat[2], "NAXIS"@) == Some(CardValueView::Integer(2)));
        assert forall|i: int| 0 <= i < flat.len() && #[trigger] keyword_value(flat[i], "NAXIS"@) is Some implies i == 2 by {
            if i == 0 {} else if i == 1 {} else if i == 2 {} else if i == 3 {} else if i == 4 {} else if i == 5 {} else if i == 6 {} else if i == 7 {} else if i == 8 {} else if i == 9 {} else if i == 10 {} else if i == 11 {} else if i == 12 {} else if i == 13 {} else if i == 14 {} else if i == 15 {}
        }
        assert(keyword_value(flat[3], "NAXIS1"@) == Some(CardValueView::Integer(info.width as i64)));
        assert forall|i: int| 0 <= i < flat.len() && #[trigger] keyword_value(flat[i], "NAXIS1"@) is Some implies i == 3 by {
            if i == 0 {} else if i == 1 {} else if i == 2 {} else if i == 3 {} else if i == 4 {} else if i == 5 {} else if i == 6 {} else if i == 7 {} else if i == 8 {} else if i == 9 {} else if i == 10 {} else if i == 11 {} else if i == 12 {} else if i == 13 {} else if i == 14 {} else if i == 15 {}
        }
        assert(keyword_value(flat[4], "NAXIS2"@) == Some(CardValueView::Integer(info.height as i64)));
        assert forall|i: int| 0 <= i < flat.len() && #[trigger] keyword_value(flat[i], "NAXIS2"@) is Some implies i == 4 by {
            if i == 0 {} else if i == 1 {} else if i == 2 {} else if i == 3 {} else if i == 4 {} else if i == 5 {} else if i == 6 {} else if i == 7 {} else if i == 8 {} else if i == 9 {} else if i == 10 {} else if i == 11 {} else if i == 12 {} else if i == 13 {} else if i == 14 {} else if i == 15 {}
        }
        assert(keyword_value(flat[1], "BITPIX"@) == Some(CardValueView::Integer(if info.bpp <= 8 { 8 } else { 16 })));
        assert forall|i: int| 0 <= i < flat.len() && #[trigger] keyword_value(flat[i], "BITPIX"@) is Some implies i == 1 by {
            if i == 0 {} else if i == 1 {} else if i == 2 {} else if i == 3 {} else if i == 4 {} else if i == 5 {} else if i == 6 {} else if i == 7 {} else if i == 8 {} else if i == 9 {} else if i == 10 {} else if i == 11 {} else if i == 12 {} else if i == 13 {} else if i == 14 {} else if i == 15 {}
        }
        assert(keyword_value(flat[8], "INSTRUME"@) == Some(CardValueView::Text(card_text(camera_id))));
        assert forall|i: int| 0 <= i < flat.len() && #[trigger] keyword_value(flat[i], "INSTRUME"@) is Some implies i == 8 by {
            if i == 0 {} else if i == 1 {} else if i == 2 {} else if i == 3 {} else if i == 4 {} else if i == 5 {} else if i == 6 {} else if i == 7 {} else if i == 8 {} else if i == 9 {} else if i == 10 {} else if i == 11 {} else if i == 12 {} else if i == 13 {} else if i == 14 {} else if i == 15 {}
        }
        assert(keyword_value(flat[9], "IMAGETYP"@) == Some(CardValueView::Text("DARK"@)));
        assert forall|i: int| 0 <= i < flat.len() && #[trigger] keyword_value(flat[i], "IMAGETYP"@) is Some implies i == 9 by {
            if i == 0 {} else if i == 1 {} else if i == 2 {} else if i == 3 {} else if i == 4 {} else if i == 5 {} else if i == 6 {} else if i == 7 {} else if i == 8 {} else if i == 9 {} else if i == 10 {} else if i == 11 {} else if i == 12 {} else if i == 13 {} else if i == 14 {} else if i == 15 {}
        }
        assert(keyword_value(flat[12], "XBINNING"@) == Some(CardValueView::Integer(1)));
        assert forall|i: int| 0 <= i < flat.len() && #[trigger] keyword_value(flat[i], "XBINNING"@) is Some implies i == 12 by {
            if i == 0 {} else if i == 1 {} else if i == 2 {} else if i == 3 {} else if i == 4 {} else if i == 5 {} else if i == 6 {} else if i == 7 {} else if i == 8 {} else if i == 9 {} else if i == 10 {} else if i == 11 {} else if i == 12 {} else if i == 13 {} else if i == 14 {} else if i == 15 {}
        }
        assert(keyword_value(flat[13], "YBINNING"@) == Some(CardValueView::Integer(1)));
        assert forall|i: int| 0 <= i < flat.len() && #[trigger] keyword_value(flat[i], "YBINNING"@) is Some implies i == 13 by {
            if i == 0 {} else if i == 1 {} else if i == 2 {} else if i == 3 {} else if i == 4 {} else if i == 5 {} else if i == 6 {} else if i == 7 {} else if i == 8 {} else if i == 9 {} else if i == 10 {} else if i == 11 {} else if i == 12 {} else if i == 13 {} else if i == 14 {} else if i == 15 {}
        }
    } else if has_temperature {
        let flat = seq![
            FitsCardView::Keyword { key: "SIMPLE"@, value: CardValueView::Logical(true), comment: None },
            keyword_card("BITPIX"@, CardValueView::Integer(fits_bitpix_spec(info.bpp)), "bits per pixel"@),
            keyword_card("NAXIS"@, CardValueView::Integer(2), "number of array dimensions"@),
            keyword_card("NAXIS1"@, CardValueView::Integer(info.width as i64), "image width [px]"@),
            keyword_card("NAXIS2"@, CardValueView::Integer(info.height as i64), "image height [px]"@),
            keyword_card("EXPTIME"@, CardValueView::Float(FloatField::ExposureSeconds), "[s] total exposure time"@),
            keyword_card("INSTRUME"@, CardValueView::Text(card_text(camera_id)), "camera identifier"@),
            keyword_card("IMAGETYP"@, CardValueView::Text("DARK"@), "frame type"@),
            keyword_card("XPIXSZ"@, CardValueView::Float(FloatField::PixelWidth), "[um] pixel pitch X"@),
            keyword_card("YPIXSZ"@, CardValueView::Float(FloatField::PixelHeight), "[um] pixel pitch Y"@),
            keyword_card("XBINNING"@, CardValueView::Integer(1), "horizontal binning"@),
            keyword_card("YBINNING"@, CardValueView::Integer(1), "vertical binning"@),
            keyword_card("CCD-TEMP"@, CardValueView::Float(FloatField::SensorTemperature), "[C] sensor temperature"@),
            FitsCardView::Comment("Dark frame acquired by qhy-ccd-test (qhy-rs)"@),
            FitsCardView::End,
        ];
        assert(cards =~= flat);
        assert(keyword_value(flat[2], "NAXIS"@) == Some(CardValueView::Integer(2)));
        assert forall|i: int| 0 <= i < flat.len() && #[trigger] keyword_value(flat[i], "NAXIS"@) is Some implies i == 2 by {
            if i == 0 {} else if i == 1 {} else if i == 2 {} else if i == 3 {} else if i == 4 {} else if i == 5 {} else if i == 6 {} else if i == 7 {} else if i == 8 {} else if i == 9 {} else if i == 10 {} else if i == 11 {} else if i == 12 {} else if i == 13 {} else if i == 14 {}
        }
        assert(keyword_value(flat[3], "NAXIS1"@) == Some(CardValueView::Integer(info.width as i64)));
        assert forall|i: int| 0 <= i < flat.len() && #[trigger] keyword_value(flat[i], "NAXIS1"@) is Some implies i == 3 by {
            if i == 0 {} else if i == 1 {} else if i == 2 {} else if i == 3 {} else if i == 4 {} else if i == 5 {} else if i == 6 {} else if i == 7 {} else if i == 8 {} else if i == 9 {} else if i == 10 {} else if i == 11 {} else if i == 12 {} else if i == 13 {} else if i == 14 {}
        }
        assert(keyword_value(flat[4], "NAXIS2"@) == Some(CardValueView::Integer(info.height as i64)));
        assert forall|i: int| 0 <= i < flat.len() && #[trigger] keyword_value(flat[i], "NAXIS2"@) is Some implies i == 4 by {
            if i == 0 {} else if i == 1 {} else if i == 2 {} else if i == 3 {} else if i == 4 {} else if i == 5 {} else if i == 6 {} else if i == 7 {} else if i == 8 {} else if i == 9 {} else if i == 10 {} else if i == 11 {} else if i == 12 {} else if i == 13 {} else if i == 14 {}
        }
        assert(keyword_value(flat[1], "BITPIX"@) == Some(CardValueView::Integer(if info.bpp <= 8 { 8 } else { 16 })));
        assert forall|i: int| 0 <= i < flat.len() && #[trigger] keyword_value(flat[i], "BITPIX"@) is Some implies i == 1 by {
            if i == 0 {} else if i == 1 {} else if i == 2 {} else if i == 3 {} else if i == 4 {} else if i == 5 {} else if i == 6 {} else if i == 7 {} else if i == 8 {} else if i == 9 {} else if i == 10 {} else if i == 11 {} else if i == 12 {} else if i == 13 {} else if i == 14 {}
        }
        assert(keyword_value(flat[6], "INSTRUME"@) == Some(CardValueView::Text(card_text(camera_id))));
        assert forall|i: int| 0 <= i < flat.len() && #[trigger] keyword_value(flat[i], "INSTRUME"@) is Some implies i == 6 by {
            if i == 0 {} else if i == 1 {} else if i == 2 {} else if i == 3 {} else if i == 4 {} else if i == 5 {} else if i == 6 {} else if i == 7 {} else if i == 8 {} else if i == 9 {} else if i == 10 {} else if i == 11 {} else if i == 12 {} else if i == 13 {} else if i == 14 {}
        }
        assert(keyword_value(flat[7], "IMAGETYP"@) == Some(CardValueView::Text("DARK"@)));
        assert forall|i: int| 0 <= i < flat.len() && #[trigger] keyword_value(flat[i], "IMAGETYP"@) is Some implies i == 7 by {
            if i == 0 {} else if i == 1 {} else if i == 2 {} else if i == 3 {} else if i == 4 {} else if i == 5 {} else if i == 6 {} else if i == 7 {} else if i == 8 {} else if i == 9 {} else if i == 10 {} else if i == 11 {} else if i == 12 {} else if i == 13 {} else if i == 14 {}
        }
        assert(keyword_value(flat[10], "XBINNING"@) == Some(CardValueView::Integer(1)));
        assert forall|i: int| 0 <= i < flat.len() && #[trigger] keyword_value(flat[i], "XBINNING"@) is Some implies i == 10 by {
            if i == 0 {} else if i == 1 {} else if i == 2 {} else if i == 3 {} else if i == 4 {} else if i == 5 {} else if i == 6 {} else if i == 7 {} else if i == 8 {} else if i == 9 {} else if i == 10 {} else if i == 11 {} else if i == 12 {} else if i == 13 {} else if i == 14 {}
        }
        assert(keyword_value(flat[11], "YBINNING"@) == Some(CardValueView::Integer(1)));
        assert forall|i: int| 0 <= i < flat.len() && #[trigger] keyword_value(flat[i], "YBINNING"@) is Some implies i == 11 by {
            if i == 0 {} else if i == 1 {} else if i == 2 {} else if i == 3 {} else if i == 4 {} else if i == 5 {} else if i == 6 {} else if i == 7 {} else if i == 8 {} else if i == 9 {} else if i == 10 {} else if i == 11 {} else if i == 12 {} else if i == 13 {} else if i == 14 {}
        }
    } else {
        let flat = seq![
            FitsCardView::Keyword { key: "SIMPLE"@, value: CardValueView::Logical(true), comment: None },
            keyword_card("BITPIX"@, CardValueView::Integer(fits_bitpix_spec(info.bpp)), "bits per pixel"@),
            keyword_card("NAXIS"@, CardValueView::Integer(2), "number of array dimensions"@),
            keyword_card("NAXIS1"@, CardValueView::Integer(info.width as i64), "image width [px]"@),
            keyword_card("NAXIS2"@, CardValueView::Integer(info.height as i64), "image height [px]"@),
            keyword_card("EXPTIME"@, CardValueView::Float(FloatField::ExposureSeconds), "[s] total exposure time"@),
            keyword_card("INSTRUME"@, CardValueView::Text(card_text(camera_id)), "camera identifier"@),
            keyword_card("IMAGETYP"@, CardValueView::Text("DARK"@), "frame type"@),
            keyword_card("XPIXSZ"@, CardValueView::Float(FloatField::PixelWidth), "[um] pixel pitch X"@),
            keyword_card("YPIXSZ"@, CardValueView::Float(FloatField::PixelHeight), "[um] pixel pitch Y"@),
            keyword_card("XBINNING"@, CardValueView::Integer(1), "horizontal binning"@),
            keyword_card("YBINNING"@, CardValueView::Integer(1), "vertical binning"@),
            FitsCardView::Comment("Dark frame acquired by qhy-ccd-test (qhy-rs)"@),
            FitsCardView::End,
        ];
        assert(cards =~= flat);
        assert(keyword_value(flat[2], "NAXIS"@) == Some(CardValueView::Integer(2)));
        assert forall|i: int| 0 <= i < flat.len() && #[trigger] keyword_value(flat[i], "NAXIS"@) is Some implies i == 2 by {
            if i == 0 {} else if i == 1 {} else if i == 2 {} else if i == 3 {} else if i == 4 {} else if i == 5 {} else if i == 6 {} else if i == 7 {} else if i == 8 {} else if i == 9 {} else if i == 10 {} else if i == 11 {} else if i == 12 {} else if i == 13 {}
        }
        assert(keyword_value(flat[3], "NAXIS1"@) == Some(CardValueView::Integer(info.width as i64)));
        assert forall|i: int| 0 <= i < flat.len() && #[trigger] keyword_value(flat[i], "NAXIS1"@) is Some implies i == 3 by {
            if i == 0 {} else if i == 1 {} else if i == 2 {} else if i == 3 {} else if i == 4 {} else if i == 5 {} else if i == 6 {} else if i == 7 {} else if i == 8 {} else if i == 9 {} else if i == 10 {} else if i == 11 {} else if i == 12 {} else if i == 13 {}
        }
        assert(keyword_value(flat[4], "NAXIS2"@) == Some(CardValueView::Integer(info.height as i64)));
        assert forall|i: int| 0 <= i < flat.len() && #[trigger] keyword_value(flat[i], "NAXIS2"@) is Some implies i == 4 by {
            if i == 0 {} else if i == 1 {} else if i == 2 {} else if i == 3 {} else if i == 4 {} else if i == 5 {} else if i == 6 {} else if i == 7 {} else if i == 8 {} else if i == 9 {} else if i == 10 {} else if i == 11 {} else if i == 12 {} else if i == 13 {}
        }
        assert(keyword_value(flat[1], "BITPIX"@) == Some(CardValueView::Integer(if info.bpp <= 8 { 8 } else { 16 })));
        assert forall|i: int| 0 <= i < flat.len() && #[trigger] keyword_value(flat[i], "BITPIX"@) is Some implies i == 1 by {
            if i == 0 {} else if i == 1 {} else if i == 2 {} else if i == 3 {} else if i == 4 {} else if i == 5 {} else if i == 6 {} else if i == 7 {} else if i == 8 {} else if i == 9 {} else if i == 10 {} else if i == 11 {} else if i == 12 {} else if i == 13 {}
        }
        assert(keyword_value(flat[6], "INSTRUME"@) == Some(CardValueView::Text(card_text(camera_id))));
        assert forall|i: int| 0 <= i < flat.len() && #[trigger] keyword_value(flat[i], "INSTRUME"@) is Some implies i == 6 by {
            if i == 0 {} else if i == 1 {} else if i == 2 {} else if i == 3 {} else if i == 4 {} else if i == 5 {} else if i == 6 {} else if i == 7 {} else if i == 8 {} else if i == 9 {} else if i == 10 {} else if i == 11 {} else if i == 12 {} else if i == 13 {}
        }
        assert(keyword_value(flat[7], "IMAGETYP"@) == Some(CardValueView::Text("DARK"@)));
        assert forall|i: int| 0 <= i < flat.len() && #[trigger] keyword_value(flat[i], "IMAGETYP"@) is Some implies i == 7 by {
            if i == 0 {} else if i == 1 {} else if i == 2 {} else if i == 3 {} else if i == 4 {} else if i == 5 {} else if i == 6 {} else if i == 7 {} else if i == 8 {} else if i == 9 {} else if i == 10 {} else if i == 11 {} else if i == 12 {} else if i == 13 {}
        }
        assert(keyword_value(flat[10], "XBINNING"@) == Some(CardValueView::Integer(1)));
        assert forall|i: int| 0 <= i < flat.len() && #[trigger] keyword_value(flat[i], "XBINNING"@) is Some implies i == 10 by {
            if i == 0 {} else if i == 1 {} else if i == 2 {} else if i == 3 {} else if i == 4 {} else if i == 5 {} else if i == 6 {} else if i == 7 {} else if i == 8 {} else if i == 9 {} else if i == 10 {} else if i == 11 {} else if i == 12 {} else if i == 13 {}
        }
        assert(keyword_value(flat[11], "YBINNING"@) == Some(CardValueView::Integer(1)));
        assert forall|i: int| 0 <= i < flat.len() && #[trigger] keyword_value(flat[i], "YBINNING"@) is Some implies i == 11 by {
            if i == 0 {} else if i == 1 {} else if i == 2 {} else if i == 3 {} else if i == 4 {} else if i == 5 {} else if i == 6 {} else if i == 7 {} else if i == 8 {} else if i == 9 {} else if i == 10 {} else if i == 11 {} else if i == 12 {} else if i == 13 {}
        }
    }
}

} // verus!
