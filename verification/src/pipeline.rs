//! The per-file pipeline.
//!
//! For one qualifying input file this runs encode, compose and render
//! in order and hands back everything the caller writes out: the code,
//! the composed document (also the debug artifact), and the rendered
//! PNG. The image is encoded before the name is examined, so an
//! undecodable image is reported as a decode failure even when the
//! name has no stem.

use vstd::prelude::*;
use crate::compose::{compose_document, data_uri, spec_compose, spec_data_uri};
use crate::encode::{base64_of, create_base64_image, png_reencodable, png_reencode_of};
use crate::errors::CardError;
use crate::names::{file_stem_of, spec_file_stem};
use crate::render::{parses_as_svg, render_document};

verus! {

/// Everything one successful pipeline run produces.
pub struct CardOutput {
    /// The code: the input file name's stem, also the output name's stem.
    pub code: Vec<u8>,
    /// The composed SVG document that was rendered, kept verbatim for
    /// the optional debug artifact.
    pub document: Vec<u8>,
    /// The rendered card as PNG bytes.
    pub png: Vec<u8>,
}

/// The image-encoding stage succeeds on these input bytes: they decode
/// and re-encode as PNG, and the re-encoded PNG is within the base64
/// size limit of the machine.
pub open spec fn spec_encode_ok(image_data: Seq<u8>) -> bool {
    png_reencodable(image_data) && png_reencode_of(image_data).len() <= 0x4000_0000_0000_0000
}

/// The document the pipeline composes for these inputs, where the file
/// name has a stem.
pub open spec fn spec_card_document(
    file_name: Seq<u8>,
    image_data: Seq<u8>,
    template: Seq<u8>,
) -> Seq<u8> {
    spec_compose(
        template,
        spec_data_uri(base64_of(png_reencode_of(image_data))),
        spec_file_stem(file_name)->Some_0,
    )
}

/// Runs the pipeline for one input file: re-encode the image bytes as a
/// base64 PNG data URI, derive the code from the file name's stem,
/// substitute both into the template, and rasterize the composed
/// document. The document handed back is exactly the document that was
/// rendered. Each error names its stage: Decode or Encode exactly when
/// the image bytes do not re-encode, Naming exactly when they do but
/// the name has no stem, Parse exactly when the composed document is
/// not well-formed, and Write only when the rendered canvas could not
/// be encoded as PNG; the run succeeds in every other case.
pub fn create_card(
    file_name: &Vec<u8>,
    image_data: &Vec<u8>,
    template: &Vec<u8>,
    font: &Vec<u8>,
) -> (r: Result<CardOutput, CardError>)
    ensures
        ({
            let encode_ok = spec_encode_ok(image_data@);
            let stem = spec_file_stem(file_name@);
            let doc = spec_card_document(file_name@, image_data@, template@);
            &&& ((r is Err && (r->Err_0 is Decode || r->Err_0 is Encode)) <==> !encode_ok)
            &&& ((r is Err && r->Err_0 is Naming) <==> (encode_ok && stem is None))
            &&& ((r is Err && r->Err_0 is Parse) <==> (encode_ok && stem is Some
                && !parses_as_svg(doc)))
            &&& ((r is Ok || (r is Err && r->Err_0 is Write)) <==> (encode_ok && stem is Some
                && parses_as_svg(doc)))
            &&& (r is Err ==> (r->Err_0 is Decode || r->Err_0 is Encode || r->Err_0 is Naming
                || r->Err_0 is Parse || r->Err_0 is Write))
            &&& (r matches Ok(out) ==> stem == Some(out.code@))
            &&& (r matches Ok(out) ==> out.document@ == doc)
        }),
{
    let payload = match create_base64_image(image_data) {
        Ok(payload) => payload,
        Err(e) => {
            return Err(e);
        },
    };
    let uri = data_uri(&payload);
    let code = match file_stem_of(file_name) {
        Some(code) => code,
        None => {
            return Err(CardError::Naming);
        },
    };
    let document = compose_document(template, &uri, &code);
    let png = match render_document(&document, font) {
        Ok(png) => png,
        Err(e) => {
            return Err(e);
        },
    };
    Ok(CardOutput { code, document, png })
}

} // verus!
