use base64::Engine;
use vstd::prelude::*;

verus! {

/// The kind of frame an exposure is taken for.
#[derive(Debug, Clone, Copy, PartialEq, Eq, Structural)]
pub enum FrameType {
    Light,
    Dark,
    Bias,
    Flat,
}

/// A request to expose one frame.
#[derive(Debug, Clone, Copy, PartialEq, Eq, Structural)]
pub struct ExposureValue {
    pub duration_us: u64,
    pub frame_type: FrameType,
}

/// The geometry the SDK reports for a frame it has read out.
#[derive(Debug, Clone, Copy, PartialEq, Eq, Structural)]
pub struct FrameInfo {
    pub width: u32,
    pub height: u32,
    pub bpp: u32,
    pub channels: u32,
}

/// A frame read out of the camera, with its pixel bytes.
#[derive(Debug)]
pub struct Frame {
    pub frame_type: FrameType,
    pub width: u32,
    pub height: u32,
    pub bpp: u32,
    pub channels: u32,
    pub data: Vec<u8>,
}

/// The number of bytes one pixel of `bpp` bits takes: `bpp / 8` rounded up.
pub open spec fn bytes_per_pixel(bpp: u32) -> int {
    (bpp as int + 7) / 8
}

/// The number of bytes of pixel data a frame of this geometry holds: width
/// times height times the bytes per pixel.
pub open spec fn frame_byte_len(info: FrameInfo) -> int {
    info.width as int * info.height as int * bytes_per_pixel(info.bpp)
}

proof fn lemma_mul_bound(a: int, b: int, c: int)
    requires
        0 <= a,
        0 <= b,
        0 <= c,
    ensures
        a * b * c >= 0,
        c > 0 ==> a * b <= a * b * c,
        a * b * c == (a * b) * c,
{
    assert(a * b >= 0) by (nonlinear_arith)
        requires
            0 <= a,
            0 <= b,
    ;
    assert(a * b * c >= 0) by (nonlinear_arith)
        requires
            0 <= a * b,
            0 <= c,
    ;
    assert(c > 0 ==> a * b <= a * b * c) by (nonlinear_arith)
        requires
            0 <= a * b,
            0 <= c,
    ;
}

/// Returns the number of pixel bytes of a frame with this geometry.
pub fn frame_data_len(info: &FrameInfo) -> (len: usize)
    requires
        frame_byte_len(*info) <= usize::MAX,
    ensures
        len == frame_byte_len(*info),
        len == info.width * info.height * ((info.bpp + 7) / 8),
{
    let bpp_bytes: u32 = info.bpp / 8 + if info.bpp % 8 == 0 {
        0
    } else {
        1
    };
    assert(bpp_bytes == bytes_per_pixel(info.bpp));
    let w = info.width as usize;
    let h = info.height as usize;
    let b = bpp_bytes as usize;
    proof {
        lemma_mul_bound(w as int, h as int, b as int);
    }
    if b == 0 {
        assert(w as int * h as int * 0 == 0) by (nonlinear_arith);
        return 0;
    }
    assert(w * h <= usize::MAX);
    let wh = w * h;
    wh * b
}

impl Frame {
    /// Builds the frame of a successful readout: the geometry the SDK
    /// reported, and as data the first `width * height * ceil(bpp / 8)` bytes
    /// of the buffer the camera filled.
    pub fn from_readout(ft: FrameType, info: &FrameInfo, buf: &[u8]) -> (f: Frame)
        requires
            frame_byte_len(*info) <= buf@.len(),
        ensures
            f.frame_type == ft,
            f.width == info.width,
            f.height == info.height,
            f.bpp == info.bpp,
            f.channels == info.channels,
            f.data@ == buf@.take(frame_byte_len(*info)),
    {
        let buf_len = buf.len();
        assert(frame_byte_len(*info) <= buf_len);
        let len = frame_data_len(info);
        let mut data: Vec<u8> = Vec::with_capacity(len);
        let mut i: usize = 0;
        while i < len
            invariant
                len <= buf@.len(),
                i <= len,
                data@ == buf@.take(i as int),
            decreases len - i,
        {
            data.push(buf[i]);
            i = i + 1;
            assert(data@ =~= buf@.take(i as int));
        }
        Frame {
            frame_type: ft,
            width: info.width,
            height: info.height,
            bpp: info.bpp,
            channels: info.channels,
            data,
        }
    }
}

/// The character of the 6-bit value `v` in the standard base64 alphabet
/// (RFC 4648): `A`-`Z`, `a`-`z`, `0`-`9`, `+`, `/`.
pub open spec fn base64_char(v: int) -> char {
    if v < 26 {
        (65 + v) as char
    } else if v < 52 {
        (97 + v - 26) as char
    } else if v < 62 {
        (48 + v - 52) as char
    } else if v == 62 {
        '+'
    } else {
        '/'
    }
}

/// The standard base64 encoding of `d` (RFC 4648, with `=` padding): each
/// group of three bytes gives four characters of six bits each; a last
/// group of one or two bytes is padded with zero bits and `=`.
pub open spec fn base64_standard(d: Seq<u8>) -> Seq<char>
    decreases d.len(),
{
    if d.len() == 0 {
        Seq::empty()
    } else if d.len() == 1 {
        seq![base64_char((d[0] as int) / 4), base64_char(((d[0] as int) % 4) * 16), '=', '=']
    } else if d.len() == 2 {
        seq![
            base64_char((d[0] as int) / 4),
            base64_char(((d[0] as int) % 4) * 16 + (d[1] as int) / 16),
            base64_char(((d[1] as int) % 16) * 4),
            '=',
        ]
    } else {
        seq![
            base64_char((d[0] as int) / 4),
            base64_char(((d[0] as int) % 4) * 16 + (d[1] as int) / 16),
            base64_char(((d[1] as int) % 16) * 4 + (d[2] as int) / 64),
            base64_char((d[2] as int) % 64),
        ] + base64_standard(d.skip(3))
    }
}

/// Whether `c` may stand in padded standard base64 text.
pub open spec fn is_base64_char(c: char) -> bool {
    ('A' <= c <= 'Z') || ('a' <= c <= 'z') || ('0' <= c <= '9') || c == '+' || c == '/' || c == '='
}

/// The length of the padded base64 text of `n` bytes: four characters for
/// every started group of three bytes.
pub open spec fn base64_len(n: int) -> int {
    4 * ((n + 2) / 3)
}

/// Calls `base64::engine::general_purpose::STANDARD.encode`.
/// Claimed: the result is the padded standard encoding of the bytes. The
/// call panics where its length does not fit in `usize`, hence the `requires`.
#[verifier::external_body]
fn standard_encode(data: &[u8]) -> (s: String)
    requires
        base64_len(data@.len() as int) <= usize::MAX,
    ensures
        s@ == base64_standard(data@),
{
    base64::engine::general_purpose::STANDARD.encode(data)
}

/// Returns the text under which a frame's pixel bytes are published: their
/// padded standard base64 encoding.
pub fn serialize_base64(data: &[u8]) -> (s: String)
    requires
        base64_len(data@.len() as int) <= usize::MAX,
    ensures
        s@ == base64_standard(data@),
        s@.len() == base64_len(data@.len() as int),
        forall|i: int| 0 <= i < s@.len() ==> is_base64_char(#[trigger] s@[i]),
{
    proof {
        lemma_base64_shape(data@);
    }
    standard_encode(data)
}

/// The encoding has four characters per started group of three bytes, each
/// of the base64 alphabet or `=`.
pub proof fn lemma_base64_shape(d: Seq<u8>)
    ensures
        base64_standard(d).len() == base64_len(d.len() as int),
        forall|i: int| 0 <= i < base64_standard(d).len() ==> is_base64_char(#[trigger] base64_standard(d)[i]),
    decreases d.len(),
{
    assert forall|v: int| 0 <= v < 64 implies is_base64_char(#[trigger] base64_char(v)) by {}
    if d.len() >= 3 {
        lemma_base64_shape(d.skip(3));
        let head = seq![
            base64_char((d[0] as int) / 4),
            base64_char(((d[0] as int) % 4) * 16 + (d[1] as int) / 16),
            base64_char(((d[1] as int) % 16) * 4 + (d[2] as int) / 64),
            base64_char((d[2] as int) % 64),
        ];
        let tail = base64_standard(d.skip(3));
        assert(base64_standard(d) == head + tail);
        assert forall|i: int| 0 <= i < base64_standard(d).len() implies is_base64_char(#[trigger] base64_standard(d)[i]) by {
            if i >= 4 {
                assert(base64_standard(d)[i] == tail[i - 4]);
            }
        }
    }
}


/// A frame of `width * height` pixels of `bpp` bits holds that many pixels
/// times `bpp / 8` rounded up bytes: 1 byte per pixel up to 8 bits, 2 up to
/// 16 bits.
pub proof fn lemma_frame_byte_len(info: FrameInfo)
    ensures
        frame_byte_len(info) == info.width as int * info.height as int * ((info.bpp as int + 7) / 8),
        1 <= info.bpp <= 8 ==> bytes_per_pixel(info.bpp) == 1,
        9 <= info.bpp <= 16 ==> bytes_per_pixel(info.bpp) == 2,
        info.bpp == 0 ==> bytes_per_pixel(info.bpp) == 0,
{
}

} // verus!
