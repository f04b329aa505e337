use vstd::prelude::*;

use crate::frame::{FrameInfo, frame_byte_len, frame_data_len};

verus! {

/// The level at or below which a pixel counts as dark: about 10 % of full
/// scale, 25 for pixels of at most 8 bits and 6554 for wider ones.
pub open spec fn dark_threshold_spec(bpp: u32) -> int {
    if bpp <= 8 {
        25
    } else {
        6554
    }
}

/// Returns the level at or below which a pixel of `bpp` bits counts as dark.
pub fn dark_threshold(bpp: u32) -> (t: u32)
    ensures
        t == dark_threshold_spec(bpp),
        bpp <= 8 ==> t == 25,
        bpp > 8 ==> t == 6554,
{
    if bpp <= 8 {
        25
    } else {
        6554
    }
}

/// The 16-bit little-endian word of two bytes.
pub open spec fn le_word(lo: u8, hi: u8) -> int {
    lo as int + 256 * hi as int
}

/// The pixel values in `data`: one per byte for pixels of at most 8 bits,
/// else one per complete pair of bytes (a little-endian word); a trailing odd
/// byte is not a pixel.
pub open spec fn pixel_values(data: Seq<u8>, bpp: u32) -> Seq<int> {
    if bpp <= 8 {
        data.map_values(|b: u8| b as int)
    } else {
        Seq::new(data.len() / 2, |i: int| le_word(data[2 * i], data[2 * i + 1]))
    }
}

/// How many of `values` are at most `t`.
pub open spec fn count_at_most(values: Seq<int>, t: int) -> nat
    decreases values.len(),
{
    if values.len() == 0 {
        0
    } else {
        count_at_most(values.drop_last(), t) + if values.last() <= t {
            1nat
        } else {
            0nat
        }
    }
}

/// The number of pixels of a frame.
pub open spec fn pixel_count_of(info: FrameInfo) -> int {
    info.width as int * info.height as int
}

/// The number of bytes of a buffer of `buf_len` bytes that hold pixel data:
/// what the frame geometry calls for, at most the whole buffer.
pub open spec fn dark_data_len(info: FrameInfo, buf_len: int) -> int {
    if frame_byte_len(info) <= buf_len {
        frame_byte_len(info)
    } else {
        buf_len
    }
}

/// Whether enough pixels are dark: at least 90 % of them (a frame without
/// pixels passes).
pub open spec fn dark_enough(dark_count: int, pixel_count: int) -> bool {
    !(10 * dark_count < 9 * pixel_count)
}

/// The measurements of a dark frame.
#[derive(Debug, Clone, Copy, PartialEq, Eq, Structural)]
pub struct DarkFrameSummary {
    pub pixel_count: usize,
    pub data_len: usize,
    pub dark_count: usize,
}

/// Why a frame taken with the lens covered is not accepted as dark.
#[derive(Debug, Clone, Copy, PartialEq, Eq, Structural)]
pub enum DarkFrameError {
    /// Fewer than 90 % of the pixels are at or below the dark threshold.
    NotDark { dark_count: usize, pixel_count: usize },
}

proof fn lemma_count_step(values: Seq<int>, t: int, i: int)
    requires
        0 <= i < values.len(),
    ensures
        count_at_most(values.take(i + 1), t) == count_at_most(values.take(i), t) + if values[i]
            <= t {
            1nat
        } else {
            0nat
        },
{
    assert(values.take(i + 1).drop_last() =~= values.take(i));
}

proof fn lemma_count_bound(values: Seq<int>, t: int)
    ensures
        count_at_most(values, t) <= values.len(),
    decreases values.len(),
{
    if values.len() > 0 {
        lemma_count_bound(values.drop_last(), t);
    }
}

/// Counts the pixel values of `data` at or below the dark threshold.
pub fn count_dark_pixels(data: &[u8], bpp: u32) -> (n: usize)
    ensures
        n == count_at_most(pixel_values(data@, bpp), dark_threshold_spec(bpp)),
{
    let threshold = dark_threshold(bpp);
    let ghost values = pixel_values(data@, bpp);
    let len = data.len();
    let mut n: usize = 0;
    if bpp <= 8 {
        let mut i: usize = 0;
        while i < len
            invariant
                len == data@.len(),
                values == pixel_values(data@, bpp),
                bpp <= 8,
                threshold == dark_threshold_spec(bpp),
                i <= len,
                values.len() == len,
                n == count_at_most(values.take(i as int), threshold as int),
                n <= i,
            decreases len - i,
        {
            proof {
                lemma_count_step(values, threshold as int, i as int);
            }
            if (data[i] as u32) <= threshold {
                n = n + 1;
            }
            i = i + 1;
        }
        assert(values.take(len as int) =~= values);
    } else {
        let words = len / 2;
        let mut i: usize = 0;
        while i < words
            invariant
                len == data@.len(),
                words == len / 2,
                values == pixel_values(data@, bpp),
                bpp > 8,
                threshold == dark_threshold_spec(bpp),
                i <= words,
                values.len() == words,
                n == count_at_most(values.take(i as int), threshold as int),
                n <= i,
            decreases words - i,
        {
            proof {
                lemma_count_step(values, threshold as int, i as int);
            }
            let word: u32 = data[2 * i] as u32 + 256 * (data[2 * i + 1] as u32);
            assert(word == values[i as int]);
            if word <= threshold {
                n = n + 1;
            }
            i = i + 1;
        }
        assert(values.take(words as int) =~= values);
    }
    n
}

proof fn lemma_pixel_count_fits(w: u32, h: u32)
    ensures
        w as int * h as int >= 0,
{
    assert(w as int * h as int >= 0) by (nonlinear_arith);
}

/// Measures a frame taken with the lens covered and decides whether it is
/// dark: it counts the pixels of the frame geometry, takes the pixel bytes
/// the geometry calls for (at most the whole buffer), counts the pixels at
/// or below the dark threshold, and accepts the frame when at least 90 % of
/// the pixels are dark.
pub fn assess_dark_frame(info: &FrameInfo, buf: &[u8]) -> (res: Result<DarkFrameSummary, DarkFrameError>)
    requires
        pixel_count_of(*info) <= u32::MAX,
        frame_byte_len(*info) <= usize::MAX,
    ensures
        ({
            let pixel_count = pixel_count_of(*info);
            let data_len = dark_data_len(*info, buf@.len() as int);
            let dark_count = count_at_most(
                pixel_values(buf@.take(data_len), info.bpp),
                dark_threshold_spec(info.bpp),
            );
            &&& res is Ok <==> dark_enough(dark_count as int, pixel_count)
            &&& res matches Ok(s) ==> s.pixel_count == pixel_count && s.data_len == data_len
                && s.dark_count == dark_count
            &&& res matches Err(e) ==> e == (DarkFrameError::NotDark {
                dark_count: dark_count as usize,
                pixel_count: pixel_count as usize,
            })
        }),
        ({
            let pixels = info.width as int * info.height as int;
            let frame_bytes = pixels * ((info.bpp as int + 7) / 8);
            let examined = if frame_bytes <= buf@.len() {
                frame_bytes
            } else {
                buf@.len() as int
            };
            let dark = count_at_most(
                pixel_values(buf@.take(examined), info.bpp),
                dark_threshold_spec(info.bpp),
            );
            &&& examined <= buf@.len() && examined <= frame_bytes
            &&& res is Ok <==> 10 * dark >= 9 * pixels
            &&& res matches Ok(s) ==> s.data_len == examined && s.dark_count == dark
                && s.pixel_count == pixels
            &&& res matches Err(e) ==> e == (DarkFrameError::NotDark {
                dark_count: dark as usize,
                pixel_count: pixels as usize,
            })
            &&& info.bpp <= 16 ==> dark <= pixels
        }),
{
    proof {
        lemma_pixel_count_fits(info.width, info.height);
        lemma_examined_pixels(*info, buf@.len() as int);
    }
    let pixel_count_u32: u32 = info.width * info.height;
    let pixel_count = pixel_count_u32 as usize;
    let byte_len = frame_data_len(info);
    let buf_len = buf.len();
    let data_len = if byte_len <= buf_len {
        byte_len
    } else {
        buf_len
    };
    let mut data: Vec<u8> = Vec::with_capacity(data_len);
    let mut i: usize = 0;
    while i < data_len
        invariant
            data_len <= buf@.len(),
            i <= data_len,
            data@ == buf@.take(i as int),
        decreases data_len - i,
    {
        data.push(buf[i]);
        i = i + 1;
        assert(data@ =~= buf@.take(i as int));
    }
    let dark_count = count_dark_pixels(data.as_slice(), info.bpp);
    proof {
        lemma_count_bound(pixel_values(data@, info.bpp), dark_threshold_spec(info.bpp));
    }
    let d = dark_count as u128;
    let p = pixel_count as u128;
    if 10 * d < 9 * p {
        Err(DarkFrameError::NotDark { dark_count, pixel_count })
    } else {
        Ok(DarkFrameSummary { pixel_count, data_len, dark_count })
    }
}


/// The pixel data stored in the FITS file of a dark frame.
#[derive(Debug)]
pub enum FitsPixels {
    /// One unsigned byte per pixel (`BITPIX` 8).
    Unsigned8(Vec<u8>),
    /// One signed 16-bit value per pixel (`BITPIX` 16), stored as the
    /// physical value minus `BZERO` (32768).
    Signed16(Vec<i16>),
}

/// The `BITPIX` of the FITS file of a frame with pixels of `bpp` bits.
pub open spec fn fits_bitpix_spec(bpp: u32) -> i64 {
    if bpp <= 8 {
        8
    } else {
        16
    }
}

/// Returns the `BITPIX` of the FITS file of a frame with pixels of `bpp` bits:
/// 8 up to 8 bits, 16 above.
pub fn fits_bitpix(bpp: u32) -> (b: i64)
    ensures
        b == fits_bitpix_spec(bpp),
{
    if bpp <= 8 {
        8
    } else {
        16
    }
}

/// Builds the pixel data of the FITS file of an accepted dark frame. For
/// pixels of at most 8 bits it is the first `pixel_count` bytes; for wider
/// pixels every complete little-endian word of the pixel bytes, shifted by
/// -32768 so that it fits a signed 16-bit value.
pub fn fits_pixel_data(info: &FrameInfo, summary: &DarkFrameSummary, buf: &[u8]) -> (px: FitsPixels)
    requires
        summary.data_len <= buf@.len(),
        info.bpp <= 8 ==> summary.pixel_count <= summary.data_len,
    ensures
        info.bpp <= 8 ==> (px matches FitsPixels::Unsigned8(v) && v@ == buf@.take(
            summary.pixel_count as int,
        )),
        info.bpp > 8 ==> (px matches FitsPixels::Signed16(v) && v@.len() == summary.data_len / 2
            && forall|i: int|
            0 <= i < v@.len() ==> #[trigger] v@[i] as int == le_word(buf@[2 * i], buf@[2 * i + 1])
                - 32768),
{
    if info.bpp <= 8 {
        let n = summary.pixel_count;
        let mut v: Vec<u8> = Vec::with_capacity(n);
        let mut i: usize = 0;
        while i < n
            invariant
                n <= buf@.len(),
                i <= n,
                v@ == buf@.take(i as int),
            decreases n - i,
        {
            v.push(buf[i]);
            i = i + 1;
            assert(v@ =~= buf@.take(i as int));
        }
        FitsPixels::Unsigned8(v)
    } else {
        let words = summary.data_len / 2;
        let mut v: Vec<i16> = Vec::with_capacity(words);
        let mut i: usize = 0;
        while i < words
            invariant
                words == summary.data_len / 2,
                summary.data_len <= buf@.len(),
                i <= words,
                v@.len() == i,
                forall|k: int|
                    0 <= k < i ==> #[trigger] v@[k] as int == le_word(buf@[2 * k], buf@[2 * k + 1])
                        - 32768,
            decreases words - i,
        {
            let word: i32 = buf[2 * i] as i32 + 256 * (buf[2 * i + 1] as i32);
            let shifted: i32 = word - 32768;
            v.push(shifted as i16);
            i = i + 1;
        }
        FitsPixels::Signed16(v)
    }
}


/// The examined bytes hold at most one pixel value per pixel of the frame,
/// for pixels of up to 16 bits.
proof fn lemma_examined_pixels(info: FrameInfo, buf_len: int)
    requires
        buf_len >= 0,
    ensures
        ({
            let pixels = info.width as int * info.height as int;
            let examined = dark_data_len(info, buf_len);
            &&& 0 <= examined
            &&& info.bpp <= 8 ==> examined <= pixels
            &&& 8 < info.bpp <= 16 ==> examined / 2 <= pixels
        }),
{
    let pixels = info.width as int * info.height as int;
    let k = (info.bpp as int + 7) / 8;
    assert(pixels >= 0) by (nonlinear_arith)
        requires
            pixels == info.width as int * info.height as int,
    ;
    assert(frame_byte_len(info) == pixels * k);
    assert(k >= 0);
    assert(pixels * k >= 0) by (nonlinear_arith)
        requires
            pixels >= 0,
            k >= 0,
    ;
    if info.bpp <= 8 {
        assert(k <= 1);
        assert(pixels * k <= pixels) by (nonlinear_arith)
            requires
                pixels >= 0,
                0 <= k <= 1,
        ;
    }
    if 8 < info.bpp <= 16 {
        assert(k == 2);
        assert((pixels * k) / 2 == pixels) by (nonlinear_arith)
            requires
                k == 2,
        ;
    }
}


/// Only the frame is examined: the bytes looked at are the first
/// `width * height * ceil(bpp / 8)` bytes of the buffer, or the whole buffer
/// where it is shorter; bytes of the buffer past the frame never count.
pub proof fn lemma_dark_data_len(info: FrameInfo, buf_len: int)
    requires
        buf_len >= 0,
    ensures
        ({
            let frame_bytes = info.width as int * info.height as int * ((info.bpp as int + 7) / 8);
            &&& frame_bytes <= buf_len ==> dark_data_len(info, buf_len) == frame_bytes
            &&& buf_len < frame_bytes ==> dark_data_len(info, buf_len) == buf_len
        }),
{
}

/// The dark count is the number of examined pixel values at or below the
/// threshold: it never exceeds the number of examined values, and for
/// pixels of up to 16 bits never the number of pixels of the frame.
pub proof fn lemma_dark_count_bound(info: FrameInfo, buf: Seq<u8>)
    ensures
        ({
            let examined = dark_data_len(info, buf.len() as int);
            let values = pixel_values(buf.take(examined), info.bpp);
            let dark = count_at_most(values, dark_threshold_spec(info.bpp));
            &&& dark <= values.len()
            &&& info.bpp <= 16 ==> dark <= info.width as int * info.height as int
        }),
{
    let examined = dark_data_len(info, buf.len() as int);
    lemma_examined_pixels(info, buf.len() as int);
    lemma_count_bound(pixel_values(buf.take(examined), info.bpp), dark_threshold_spec(info.bpp));
}


/// The count of values at most `t` is the length of the values filtered by
/// `v <= t`: every value at most `t` counts once, and no other does.
pub proof fn lemma_count_is_filter(values: Seq<int>, t: int)
    ensures
        count_at_most(values, t) == values.filter(|v: int| v <= t).len(),
        (forall|i: int| 0 <= i < values.len() ==> values[i] <= t) ==> count_at_most(values, t)
            == values.len(),
        (forall|i: int| 0 <= i < values.len() ==> values[i] > t) ==> count_at_most(values, t) == 0,
    decreases values.len(),
{
    reveal(Seq::filter);
    let p = |v: int| v <= t;
    if values.len() > 0 {
        lemma_count_is_filter(values.drop_last(), t);
        assert(values.filter(p) == if p(values.last()) {
            values.drop_last().filter(p).push(values.last())
        } else {
            values.drop_last().filter(p)
        });
        if forall|i: int| 0 <= i < values.len() ==> values[i] <= t {
            assert forall|i: int| 0 <= i < values.drop_last().len() implies values.drop_last()[i] <= t by {
                assert(values.drop_last()[i] == values[i]);
            }
        }
        if forall|i: int| 0 <= i < values.len() ==> values[i] > t {
            assert forall|i: int| 0 <= i < values.drop_last().len() implies values.drop_last()[i] > t by {
                assert(values.drop_last()[i] == values[i]);
            }
        }
    }
}

/// The pixel values of the pixel bytes: each byte for pixels of at most 8
/// bits; for wider pixels the little-endian word of each complete pair of
/// bytes, a trailing odd byte left out.
pub proof fn lemma_pixel_values(data: Seq<u8>, bpp: u32)
    ensures
        bpp <= 8 ==> pixel_values(data, bpp).len() == data.len() && forall|i: int|
            0 <= i < data.len() ==> #[trigger] pixel_values(data, bpp)[i] == data[i] as int,
        bpp > 8 ==> pixel_values(data, bpp).len() == data.len() / 2 && forall|i: int|
            0 <= i < data.len() / 2 ==> #[trigger] pixel_values(data, bpp)[i] == data[2 * i] as int
                + 256 * data[2 * i + 1] as int,
{
}


/// The constants of the dark-frame check: a 16-bit word is its low byte
/// plus 256 times its high byte; a frame is dark enough when at least 90 %
/// of its pixels are dark; `BITPIX` is 8 up to 8 bits and 16 above; the dark
/// threshold is 25 up to 8 bits and 6554 above; a frame has width times
/// height pixels.
pub proof fn lemma_dark_constants(lo: u8, hi: u8, dark: int, pixels: int, bpp: u32, info: FrameInfo)
    ensures
        le_word(lo, hi) == lo as int + 256 * hi as int,
        dark_enough(dark, pixels) <==> 10 * dark >= 9 * pixels,
        fits_bitpix_spec(bpp) == if bpp <= 8 { 8i64 } else { 16i64 },
        dark_threshold_spec(bpp) == if bpp <= 8 { 25int } else { 6554int },
        pixel_count_of(info) == info.width as int * info.height as int,
{
}

} // verus!
