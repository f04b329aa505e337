use vstd::prelude::*;

use crate::text::{count_char, decimal, decimal_string, lemma_decimal_digits};

verus! {

/// The firmware date of a camera.
#[derive(Debug, Clone, Copy, PartialEq, Eq, Structural)]
pub struct FwVersion {
    pub year: u16,
    pub month: u8,
    pub day: u8,
}

/// The release date of the SDK.
#[derive(Debug, Clone, Copy, PartialEq, Eq, Structural)]
pub struct SDKVersion {
    pub year: u16,
    pub month: u8,
    pub day: u8,
    pub subday: u8,
}

/// The two-digit year suffix that the first firmware byte encodes in its high
/// nibble. Cameras whose nibble is at most 9 count from 16, the others give
/// the suffix directly.
pub open spec fn fw_year_suffix(b0: u8) -> int {
    let high = b0 as int / 16;
    if high <= 9 {
        high + 16
    } else {
        high
    }
}

/// The firmware date that the first two bytes of the firmware buffer encode.
pub open spec fn fw_version_of(b0: u8, b1: u8) -> FwVersion {
    FwVersion {
        year: (2000 + fw_year_suffix(b0)) as u16,
        month: (b0 as int % 16) as u8,
        day: b1,
    }
}

/// Decodes the buffer that the SDK fills with a camera's firmware version.
/// Only its first two bytes carry the date.
pub fn decode_fw_version(buf: &[u8]) -> (fw: FwVersion)
    requires
        buf@.len() >= 2,
    ensures
        fw == fw_version_of(buf@[0], buf@[1]),
        fw.year == 2000 + if buf@[0] as int / 16 <= 9 {
            buf@[0] as int / 16 + 16
        } else {
            buf@[0] as int / 16
        },
        fw.month == buf@[0] % 16,
        fw.day == buf@[1],
        2010 <= fw.year <= 2025,
        fw.month < 16,
{
    let b0 = buf[0];
    let high = b0 >> 4;
    let low = b0 & 0x0f;
    assert(high == b0 / 16 && low == b0 % 16) by (bit_vector)
        requires
            high == b0 >> 4,
            low == b0 & 0x0f,
    ;
    let year_suffix = if high <= 9 {
        high + 0x10
    } else {
        high
    };
    FwVersion { year: 2000 + year_suffix as u16, month: low, day: buf[1] }
}

/// The firmware version as `{year}.{month}.{day}`.
pub open spec fn fw_version_text(v: FwVersion) -> Seq<char> {
    decimal(v.year as nat) + seq!['.'] + decimal(v.month as nat) + seq!['.'] + decimal(
        v.day as nat,
    )
}

impl FwVersion {
    /// Formats the version as `{year}.{month}.{day}`.
    pub fn to_display_string(&self) -> (s: String)
        ensures
            s@ == fw_version_text(*self),
            s@ == decimal(self.year as nat) + "."@ + decimal(self.month as nat) + "."@ + decimal(
                self.day as nat,
            ),
    {
        proof {
            reveal_strlit(".");
        }
        let mut s = decimal_string(self.year as u64);
        s.append(".");
        s.append(decimal_string(self.month as u64).as_str());
        s.append(".");
        s.append(decimal_string(self.day as u64).as_str());
        s
    }
}

/// The SDK version that the four numbers the SDK reports stand for: the year
/// counts from 2000, and each number is cut to the width of its field.
pub open spec fn sdk_version_of(year: u32, month: u32, day: u32, subday: u32) -> SDKVersion {
    SDKVersion {
        year: (2000 + year as int % 65536) as u16,
        month: (month as int % 256) as u8,
        day: (day as int % 256) as u8,
        subday: (subday as int % 256) as u8,
    }
}

/// The SDK version as `{year}.{month}.{day}.{subday}`.
pub open spec fn sdk_version_text(v: SDKVersion) -> Seq<char> {
    decimal(v.year as nat) + seq!['.'] + decimal(v.month as nat) + seq!['.'] + decimal(
        v.day as nat,
    ) + seq!['.'] + decimal(v.subday as nat)
}

impl SDKVersion {
    /// Builds the SDK version from the four numbers the SDK reports. The
    /// year is reported as an offset from 2000; the sum must fit in 16 bits.
    pub fn from_raw(year: u32, month: u32, day: u32, subday: u32) -> (v: SDKVersion)
        requires
            2000 + year as int % 65536 <= u16::MAX,
        ensures
            v == sdk_version_of(year, month, day, subday),
            v.year == 2000 + year % 65536,
            v.month == month % 256,
            v.day == day % 256,
            v.subday == subday % 256,
    {
        let y = #[verifier::truncate] (year as u16);
        let m = #[verifier::truncate] (month as u8);
        let d = #[verifier::truncate] (day as u8);
        let sd = #[verifier::truncate] (subday as u8);
        assert(y == year % 65536) by (bit_vector)
            requires
                y == #[verifier::truncate] (year as u16),
        ;
        assert(m == month % 256 && d == day % 256 && sd == subday % 256) by (bit_vector)
            requires
                m == #[verifier::truncate] (month as u8),
                d == #[verifier::truncate] (day as u8),
                sd == #[verifier::truncate] (subday as u8),
        ;
        SDKVersion { year: 2000 + y, month: m, day: d, subday: sd }
    }

    /// Formats the version as `{year}.{month}.{day}.{subday}`.
    pub fn to_display_string(&self) -> (s: String)
        ensures
            s@ == sdk_version_text(*self),
            s@ == decimal(self.year as nat) + "."@ + decimal(self.month as nat) + "."@ + decimal(
                self.day as nat,
            ) + "."@ + decimal(self.subday as nat),
    {
        proof {
            reveal_strlit(".");
        }
        let mut s = decimal_string(self.year as u64);
        s.append(".");
        s.append(decimal_string(self.month as u64).as_str());
        s.append(".");
        s.append(decimal_string(self.day as u64).as_str());
        s.append(".");
        s.append(decimal_string(self.subday as u64).as_str());
        s
    }
}

} // verus!

verus! {

/// The SDK version always reads as four fields separated by three dots,
/// whatever their values (a zero field included): the text is the decimals
/// of year, month, day and subday joined by `.`, none of which holds a dot.
pub proof fn lemma_sdk_version_fields(v: SDKVersion)
    ensures
        count_char(sdk_version_text(v), '.') == 3,
        sdk_version_text(v) == decimal(v.year as nat) + seq!['.'] + decimal(v.month as nat)
            + seq!['.'] + decimal(v.day as nat) + seq!['.'] + decimal(v.subday as nat),
        count_char(decimal(v.year as nat), '.') == 0,
        count_char(decimal(v.month as nat), '.') == 0,
        count_char(decimal(v.day as nat), '.') == 0,
        count_char(decimal(v.subday as nat), '.') == 0,
{
    lemma_decimal_digits(v.year as nat);
    lemma_decimal_digits(v.month as nat);
    lemma_decimal_digits(v.day as nat);
    lemma_decimal_digits(v.subday as nat);
    crate::text::lemma_count_char_concat(decimal(v.year as nat), seq!['.'], '.');
    let a = decimal(v.year as nat) + seq!['.'];
    crate::text::lemma_count_char_concat(a, decimal(v.month as nat), '.');
    let b = a + decimal(v.month as nat);
    crate::text::lemma_count_char_concat(b, seq!['.'], '.');
    let c = b + seq!['.'];
    crate::text::lemma_count_char_concat(c, decimal(v.day as nat), '.');
    let d = c + decimal(v.day as nat);
    crate::text::lemma_count_char_concat(d, seq!['.'], '.');
    let e = d + seq!['.'];
    crate::text::lemma_count_char_concat(e, decimal(v.subday as nat), '.');
    crate::text::lemma_count_char_single('.', '.');
}

/// The firmware version always reads as three fields separated by two dots.
pub proof fn lemma_fw_version_fields(v: FwVersion)
    ensures
        count_char(fw_version_text(v), '.') == 2,
        fw_version_text(v) == decimal(v.year as nat) + seq!['.'] + decimal(v.month as nat)
            + seq!['.'] + decimal(v.day as nat),
{
    lemma_decimal_digits(v.year as nat);
    lemma_decimal_digits(v.month as nat);
    lemma_decimal_digits(v.day as nat);
    crate::text::lemma_count_char_concat(decimal(v.year as nat), seq!['.'], '.');
    let a = decimal(v.year as nat) + seq!['.'];
    crate::text::lemma_count_char_concat(a, decimal(v.month as nat), '.');
    let b = a + decimal(v.month as nat);
    crate::text::lemma_count_char_concat(b, seq!['.'], '.');
    let c = b + seq!['.'];
    crate::text::lemma_count_char_concat(c, decimal(v.day as nat), '.');
    crate::text::lemma_count_char_single('.', '.');
}

} // verus!
