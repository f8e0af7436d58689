//! Platform bitmap conversion.
//!
//! The host obtains a pre-rendered bitmap for a file from the operating
//! system's shell service and copies its raw pixel memory — `width * height`
//! pixels of four bytes each, in device-native blue-green-red-alpha order,
//! rows top-down — into a plain buffer. This module performs everything that
//! follows on that buffer: it validates the reported row copy, swaps bytes 0
//! and 2 of every four-byte pixel group in place (blue-green-red-alpha to
//! red-green-blue-alpha), and serializes the result as a PNG image of the
//! reported dimensions.

use vstd::prelude::*;
use vstd::pervasive::VecAdditionalExecFns;

use crate::errors::ExtractError;

verus! {

/// Byte `i` of the channel-swapped form of `s`: within a complete four-byte
/// group, byte 0 and byte 2 exchange places; every other byte, and every
/// byte of a trailing incomplete group, stays where it is.
pub open spec fn swapped_byte(s: Seq<u8>, i: int) -> u8 {
    if 4 * (i / 4) + 4 <= s.len() {
        if i % 4 == 0 {
            s[i + 2]
        } else if i % 4 == 2 {
            s[i - 2]
        } else {
            s[i]
        }
    } else {
        s[i]
    }
}

/// A byte sequence with byte 0 and byte 2 of every complete four-byte group
/// exchanged; bytes of a trailing incomplete group are untouched.
pub open spec fn channel_swapped(s: Seq<u8>) -> Seq<u8> {
    Seq::new(s.len(), |i: int| swapped_byte(s, i))
}

/// Exchanging red and blue twice reproduces the original buffer exactly:
/// the channel swap is its own inverse on every byte sequence.
pub proof fn lemma_channel_swap_involution(s: Seq<u8>)
    ensures
        channel_swapped(channel_swapped(s)) == s,
{
    assert(channel_swapped(channel_swapped(s)) =~= s);
}

/// Swap byte 0 and byte 2 of every complete four-byte pixel group of `buf`
/// in place, converting blue-green-red-alpha pixels to red-green-blue-alpha.
pub fn swap_channels(buf: &mut Vec<u8>)
    ensures
        final(buf)@ == channel_swapped(old(buf)@),
{
    let len = buf.len();
    let mut i: usize = 0;
    while len - i >= 4
        invariant
            len == buf@.len(),
            len == old(buf)@.len(),
            i % 4 == 0,
            i <= len,
            forall|j: int|
                0 <= j < i ==> buf@[j] == swapped_byte(old(buf)@, j),
            forall|j: int|
                i <= j < len ==> buf@[j] == old(buf)@[j],
        decreases len - i,
    {
        let b = buf[i];
        let r = buf[i + 2];
        buf.set(i, r);
        buf.set(i + 2, b);
        proof {
            assert forall|j: int| i <= j < i + 4 implies buf@[j] == swapped_byte(old(buf)@, j)
            by {
                assert(j / 4 == i / 4);
                assert(4 * (j / 4) + 4 <= len);
            }
        }
        i = i + 4;
    }
    proof {
        assert(final(buf)@ =~= channel_swapped(old(buf)@));
    }
}

/// The PNG serialization of a `width` by `height` image whose pixels, row by
/// row from the top, are the four-byte red-green-blue-alpha groups of
/// `pixels`.
pub uninterp spec fn png_of(width: u32, height: u32, pixels: Seq<u8>) -> Seq<u8>;

/// Whether `s` is non-empty and begins with the eight-byte PNG file
/// signature, the known header of the portable image format.
pub open spec fn has_png_signature(s: Seq<u8>) -> bool {
    s.len() >= 8 && s[0] == 137u8 && s[1] == 80u8 && s[2] == 78u8 && s[3] == 71u8 && s[4] == 13u8
        && s[5] == 10u8 && s[6] == 26u8 && s[7] == 10u8
}

/// Relies on `image::DynamicImage::write_to` with `image::ImageFormat::Png`
/// over an `image::RgbaImage` built by `from_raw`: for a buffer of exactly
/// `width * height * 4` bytes and nonzero dimensions the encoder cannot
/// fail, its output depends on the dimensions and pixel bytes alone, and it
/// begins with the eight-byte PNG file signature.
#[verifier::external_body]
fn encode_png(width: u32, height: u32, pixels: Vec<u8>) -> (r: Vec<u8>)
    requires
        width > 0,
        height > 0,
        pixels@.len() == width * height * 4,
    ensures
        r@ == png_of(width, height, pixels@),
        has_png_signature(r@),
{
    let rgba = image::RgbaImage::from_raw(width, height, pixels).unwrap();
    let mut png_bytes: Vec<u8> = Vec::new();
    image::DynamicImage::ImageRgba8(rgba)
        .write_to(&mut std::io::Cursor::new(&mut png_bytes), image::ImageFormat::Png)
        .unwrap();
    png_bytes
}

/// Whether `raw` holds exactly the pixel memory of a `width` by `height`
/// bitmap at four bytes per pixel, with both dimensions nonzero.
pub open spec fn consistent_dimensions(width: u32, height: u32, raw: Seq<u8>) -> bool {
    width > 0 && height > 0 && raw.len() == width * height * 4
}

/// Convert one raw blue-green-red-alpha pixel buffer into a PNG image.
///
/// For a buffer consistent with the dimensions the result is exactly the PNG
/// serialization of the channel-swapped buffer; an inconsistent buffer (or a
/// zero dimension) is rejected as an encoding error, and nothing is returned
/// with it.
pub fn convert_bitmap(width: u32, height: u32, raw: Vec<u8>) -> (r: Result<Vec<u8>, ExtractError>)
    ensures
        consistent_dimensions(width, height, raw@) ==> (r matches Ok(png) && png@ == png_of(
            width,
            height,
            channel_swapped(raw@),
        ) && has_png_signature(png@)),
        !consistent_dimensions(width, height, raw@) ==> r == Result::<
            Vec<u8>,
            ExtractError,
        >::Err(ExtractError::EncodingError),
{
    if width == 0 || height == 0 {
        return Err(ExtractError::EncodingError);
    }
    proof {
        assert((width as int) * (height as int) * 4 < u128::MAX) by (nonlinear_arith)
            requires
                width <= u32::MAX,
                height <= u32::MAX,
        ;
    }
    let expected: u128 = (width as u128) * (height as u128) * 4;
    if (raw.len() as u128) != expected {
        return Err(ExtractError::EncodingError);
    }
    let mut pixels = raw;
    swap_channels(&mut pixels);
    Ok(encode_png(width, height, pixels))
}

/// Finish one platform thumbnail extraction after the host's raw pixel copy.
///
/// `rows_copied` is what the platform's pixel-copy call reported: zero means
/// the copy failed and is surfaced as a pixel-extraction error before
/// anything else is examined. A successful copy is converted exactly as
/// [`convert_bitmap`] states.
pub fn finish_bitmap_extraction(width: u32, height: u32, rows_copied: i32, raw: Vec<u8>) -> (r:
    Result<Vec<u8>, ExtractError>)
    ensures
        rows_copied == 0 ==> r == Result::<Vec<u8>, ExtractError>::Err(
            ExtractError::PixelExtractionError,
        ),
        rows_copied != 0 && consistent_dimensions(width, height, raw@) ==> (r matches Ok(png)
            && png@ == png_of(width, height, channel_swapped(raw@)) && has_png_signature(png@)),
        rows_copied != 0 && !consistent_dimensions(width, height, raw@) ==> r == Result::<
            Vec<u8>,
            ExtractError,
        >::Err(ExtractError::EncodingError),
{
    if rows_copied == 0 {
        return Err(ExtractError::PixelExtractionError);
    }
    convert_bitmap(width, height, raw)
}

} // verus!
