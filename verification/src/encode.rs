//! The image encoder.
//!
//! A source image is decoded from its file bytes, re-encoded as PNG in
//! memory, and wrapped in standard base64 text (standard alphabet, with
//! padding, no line wrapping). Both steps are deterministic functions
//! of the input bytes, so their results carry names that the rest of
//! the pipeline's contracts are stated over.

use vstd::prelude::*;
use vstd::string::StringExecFns;
use base64::Engine;
use crate::errors::CardError;

verus! {

/// The PNG re-encoding of an image file: the bytes produced by decoding
/// the file and encoding the decoded raster as PNG. A function of the
/// input bytes alone.
pub uninterp spec fn png_reencode_of(data: Seq<u8>) -> Seq<u8>;

/// Whether an image file's bytes decode as a raster image that
/// re-encodes as PNG. Decoding guesses the format from the content of
/// the bytes and consults nothing else, so this too is a function of
/// the input bytes alone.
pub uninterp spec fn png_reencodable(data: Seq<u8>) -> bool;

/// The standard base64 encoding (padded, standard alphabet) of a byte
/// string, as ASCII bytes.
pub uninterp spec fn base64_of(data: Seq<u8>) -> Seq<u8>;

/// Membership in the standard base64 alphabet, padding included:
/// `A`-`Z`, `a`-`z`, `0`-`9`, `+`, `/` and `=`. In particular the
/// underscore is not in it, so no placeholder token can arise from an
/// encoded payload.
pub open spec fn is_base64_byte(b: u8) -> bool {
    ||| 65 <= b <= 90
    ||| 97 <= b <= 122
    ||| 48 <= b <= 57
    ||| b == 43
    ||| b == 47
    ||| b == 61
}

/// Relies on image::load_from_memory and image::DynamicImage::write_to:
/// decoding guesses the format from the bytes' content; re-encoding with
/// ImageOutputFormat::Png writes the decoded raster as PNG. The two
/// calls stand in one body because only the opaque decoded raster flows
/// between them; their composite is deterministic in the input bytes,
/// so the Ok result is named `png_reencode_of`. A failure to decode is
/// reported as Decode, a failure to re-encode as Encode, each carrying
/// the underlying error's display text; which of the two outcomes
/// happens is itself a function of the bytes, named `png_reencodable`.
#[verifier::external_body]
fn reencode_png(data: &Vec<u8>) -> (r: Result<Vec<u8>, CardError>)
    ensures
        r is Ok <==> png_reencodable(data@),
        r matches Ok(v) ==> v@ == png_reencode_of(data@),
        r matches Err(e) ==> (e is Decode || e is Encode),
{
    let img = match image::load_from_memory(data.as_slice()) {
        Ok(img) => img,
        Err(e) => {
            return Err(CardError::Decode(e.to_string()));
        },
    };
    let mut buf: Vec<u8> = Vec::new();
    let mut cursor = std::io::Cursor::new(&mut buf);
    match img.write_to(&mut cursor, image::ImageOutputFormat::Png) {
        Ok(()) => Ok(buf),
        Err(e) => Err(CardError::Encode(e.to_string())),
    }
}

/// Relies on base64::engine::general_purpose::STANDARD and
/// base64::Engine::encode: standard alphabet, padded, no line wrapping.
/// The result is a function of the input bytes alone, named `base64_of`;
/// its length is four bytes for every started group of three input
/// bytes. The length bound keeps the engine's internal output-size
/// computation from overflowing, which would panic.
#[verifier::external_body]
fn base64_encode(data: &Vec<u8>) -> (r: Vec<u8>)
    requires
        data@.len() <= 0x4000_0000_0000_0000,
    ensures
        r@ == base64_of(data@),
        r@.len() == 4 * ((data@.len() + 2) / 3),
        forall|i: int| 0 <= i < r@.len() ==> is_base64_byte(#[trigger] r@[i]),
{
    base64::engine::general_purpose::STANDARD.encode(data.as_slice()).into_bytes()
}

/// Re-encodes an image file's bytes as PNG and returns the base64 text
/// of the re-encoded PNG, as the data URI payload. Succeeds exactly
/// when the bytes decode and re-encode (and the re-encoded PNG is not
/// beyond the base64 size limit of the machine, which no real image
/// reaches).
pub fn create_base64_image(data: &Vec<u8>) -> (r: Result<Vec<u8>, CardError>)
    ensures
        r is Ok <==> (png_reencodable(data@) && png_reencode_of(data@).len()
            <= 0x4000_0000_0000_0000),
        r matches Ok(v) ==> v@ == base64_of(png_reencode_of(data@)),
        r matches Ok(v) ==> forall|i: int| 0 <= i < v@.len() ==> is_base64_byte(
            #[trigger] v@[i],
        ),
        r matches Err(e) ==> (e is Decode || e is Encode),
{
    let png = match reencode_png(data) {
        Ok(png) => png,
        Err(e) => {
            return Err(e);
        },
    };
    if (png.len() as u64) > 0x4000_0000_0000_0000u64 {
        return Err(
            CardError::Encode(String::from_str("re-encoded image too large for base64")),
        );
    }
    Ok(base64_encode(&png))
}

} // verus!
