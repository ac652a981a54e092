//! Frame encodings.
//!
//! The delivered frame is served under several encodings: verbatim
//! bytes, lossy JPEG (after dropping the alpha channel), and Base64 text
//! for boundaries that cannot carry binary payloads. The JPEG and Base64
//! encoders are outside crates treated as opaque: their results are
//! named, not restated. The alpha-dropping conversion is the library's
//! own.

use vstd::prelude::*;

verus! {

/// The Base64 text (standard alphabet, padded) of a byte sequence.
pub uninterp spec fn base64_of(bytes: Seq<u8>) -> Seq<char>;

/// Relies on base64's `STANDARD` engine `encode`: the text is a function
/// of the input bytes alone, four characters for every started group of
/// three bytes, padded. The encoder panics only when that output length
/// overflows `usize`, which the caller excludes.
#[verifier::external_body]
pub(crate) fn base64_encode(bytes: &[u8]) -> (r: String)
    requires
        4 * ((bytes@.len() + 2) as int / 3) <= usize::MAX,
    ensures
        r@ == base64_of(bytes@),
        r@.len() == 4 * ((bytes@.len() + 2) as int / 3),
{
    base64::Engine::encode(&base64::engine::general_purpose::STANDARD, bytes)
}

/// The JPEG bytes of a packed RGB image at the given quality.
pub uninterp spec fn jpeg_of(rgb: Seq<u8>, width: int, height: int, quality: int) -> Seq<u8>;

/// Relies on image's `JpegEncoder::write_image` on an in-memory writer:
/// the JPEG bytes are a function of the RGB pixels, dimensions and
/// quality alone; encoding fails exactly when a dimension is zero or
/// exceeds the JPEG limit of 65535. It panics unless the buffer holds
/// exactly `width * height * 3` bytes, which the caller excludes.
#[verifier::external_body]
pub(crate) fn jpeg_encode_rgb(rgb: &Vec<u8>, width: u32, height: u32, quality: u8) -> (r: Option<
    Vec<u8>,
>)
    requires
        rgb@.len() == 3 * (width as int) * (height as int),
    ensures
        r is Some <==> (1 <= width <= 65535 && 1 <= height <= 65535),
        r is Some ==> r.unwrap()@ == jpeg_of(rgb@, width as int, height as int, quality as int),
{
    let mut out: Vec<u8> = Vec::new();
    let encoder = image::codecs::jpeg::JpegEncoder::new_with_quality(&mut out, quality);
    match image::ImageEncoder::write_image(
        encoder,
        rgb.as_slice(),
        width,
        height,
        image::ExtendedColorType::Rgb8,
    ) {
        Ok(()) => Some(out),
        Err(_) => None,
    }
}

/// A packed RGBA byte sequence with the alpha byte of each complete
/// pixel dropped; trailing bytes short of a pixel are dropped too.
pub open spec fn spec_strip_alpha(rgba: Seq<u8>) -> Seq<u8>
    decreases rgba.len(),
{
    if rgba.len() < 4 {
        Seq::<u8>::empty()
    } else {
        seq![rgba[0], rgba[1], rgba[2]] + spec_strip_alpha(rgba.skip(4))
    }
}

/// Dropping alpha keeps three of every four bytes.
pub proof fn lemma_strip_alpha_len(rgba: Seq<u8>)
    ensures
        spec_strip_alpha(rgba).len() == rgba.len() as int / 4 * 3,
    decreases rgba.len(),
{
    if rgba.len() < 4 {
        vstd::arithmetic::div_mod::lemma_basic_div(rgba.len() as int, 4);
    } else {
        lemma_strip_alpha_len(rgba.skip(4));
        vstd::arithmetic::div_mod::lemma_div_minus_one(rgba.len() as int, 4);
        assert(rgba.skip(4).len() as int / 4 == rgba.len() as int / 4 - 1);
        assert((rgba.len() as int / 4 - 1) * 3 == rgba.len() as int / 4 * 3 - 3)
            by (nonlinear_arith);
    }
}

/// Converts packed RGBA pixels to packed RGB by dropping each pixel's
/// alpha byte.
pub fn rgba_to_rgb(rgba: &Vec<u8>) -> (r: Vec<u8>)
    ensures
        r@ == spec_strip_alpha(rgba@),
{
    let n = rgba.len();
    let mut out: Vec<u8> = Vec::new();
    let mut i: usize = 0;
    proof {
        assert(rgba@.skip(0) == rgba@);
    }
    while n - i >= 4
        invariant
            i <= n,
            n == rgba@.len(),
            spec_strip_alpha(rgba@) == out@ + spec_strip_alpha(rgba@.skip(i as int)),
        decreases rgba@.len() - i,
    {
        out.push(rgba[i]);
        out.push(rgba[i + 1]);
        out.push(rgba[i + 2]);
        proof {
            let tail = rgba@.skip(i as int);
            assert(tail.skip(4) == rgba@.skip(i as int + 4));
            assert(seq![tail[0], tail[1], tail[2]] == rgba@.subrange(i as int, i as int + 3));
            assert(spec_strip_alpha(tail) == rgba@.subrange(i as int, i as int + 3)
                + spec_strip_alpha(rgba@.skip(i as int + 4)));
            assert(out@ + spec_strip_alpha(rgba@.skip(i as int + 4)) == spec_strip_alpha(rgba@));
        }
        i = i + 4;
    }
    proof {
        assert(rgba@.skip(i as int).len() < 4);
        assert(spec_strip_alpha(rgba@.skip(i as int)) == Seq::<u8>::empty());
        assert(out@ == spec_strip_alpha(rgba@));
    }
    out
}

} // verus!
