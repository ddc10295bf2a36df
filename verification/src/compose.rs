//! The template compositor.
//!
//! A card document is produced from an SVG template by three literal
//! substitutions: the image placeholder becomes a base64 PNG data URI,
//! the code placeholder becomes the card's code, and the message
//! placeholder becomes a fixed caption. Substitution is left-to-right
//! token replacement with no XML escaping of the substituted values.

use vstd::prelude::*;
use vstd::string::StrSliceExecFns;
use crate::text::{
    lemma_substitution_inserts,
    lemma_substitution_unchanged,
    match_at,
    occurs,
    push_range,
    replace_all,
    replace_all_spec,
};

verus! {

/// The bytes of an ASCII character sequence, one byte per character.
pub open spec fn ascii_bytes(s: Seq<char>) -> Seq<u8> {
    Seq::new(s.len(), |i: int| s[i] as u8)
}

/// The placeholder the image data URI replaces.
pub open spec fn image_token() -> Seq<u8> {
    ascii_bytes("DATA_IMAGE_URL"@)
}

/// The placeholder the card's code replaces.
pub open spec fn code_token() -> Seq<u8> {
    ascii_bytes("__CODE"@)
}

/// The placeholder the caption replaces.
pub open spec fn message_token() -> Seq<u8> {
    ascii_bytes("__MESSAGE"@)
}

/// The fixed caption substituted for the message placeholder.
pub open spec fn default_message() -> Seq<u8> {
    ascii_bytes("This is a sample message. TODO: Replace this with something better"@)
}

/// The fixed SVG card template, the program's embedded template
/// resource: a white 750 by 600 canvas holding the source image, the
/// code and the caption, with each placeholder token occurring exactly
/// once.
pub open spec fn spec_template() -> Seq<u8> {
    ascii_bytes(
        "<svg xmlns=\"http://www.w3.org/2000/svg\" width=\"750\" height=\"600\" viewBox=\"0 0 750 600\"><rect width=\"750\" height=\"600\" fill=\"white\"/><image x=\"25\" y=\"25\" width=\"700\" height=\"450\" href=\"DATA_IMAGE_URL\"/><text x=\"375\" y=\"520\" font-family=\"Free Serif\" font-size=\"36\">__CODE</text><text x=\"375\" y=\"560\" font-family=\"Free Serif\" font-size=\"16\">__MESSAGE</text></svg>"@,
    )
}

/// The fixed template as a byte vector.
#[verifier::rlimit(50)]
pub fn template_vec() -> (r: Vec<u8>)
    ensures
        r@ == spec_template(),
{
    let s =
        "<svg xmlns=\"http://www.w3.org/2000/svg\" width=\"750\" height=\"600\" viewBox=\"0 0 750 600\"><rect width=\"750\" height=\"600\" fill=\"white\"/><image x=\"25\" y=\"25\" width=\"700\" height=\"450\" href=\"DATA_IMAGE_URL\"/><text x=\"375\" y=\"520\" font-family=\"Free Serif\" font-size=\"36\">__CODE</text><text x=\"375\" y=\"560\" font-family=\"Free Serif\" font-size=\"16\">__MESSAGE</text></svg>";
    proof {
        reveal_strlit(
            "<svg xmlns=\"http://www.w3.org/2000/svg\" width=\"750\" height=\"600\" viewBox=\"0 0 750 600\"><rect width=\"750\" height=\"600\" fill=\"white\"/><image x=\"25\" y=\"25\" width=\"700\" height=\"450\" href=\"DATA_IMAGE_URL\"/><text x=\"375\" y=\"520\" font-family=\"Free Serif\" font-size=\"36\">__CODE</text><text x=\"375\" y=\"560\" font-family=\"Free Serif\" font-size=\"16\">__MESSAGE</text></svg>",
        );
        broadcast use vstd::string::is_ascii_spec_bytes;

        assert(vstd::string::is_ascii(s));
    }
    let r = s.as_bytes_vec();
    proof {
        assert(r@ =~= spec_template());
    }
    r
}

/// Each placeholder token occurs in the fixed template, so composing
/// with it substitutes all three values.
#[verifier::rlimit(50)]
pub proof fn lemma_template_holds_tokens()
    ensures
        occurs(spec_template(), image_token()),
        occurs(spec_template(), code_token()),
        occurs(spec_template(), message_token()),
{
    reveal_strlit(
        "<svg xmlns=\"http://www.w3.org/2000/svg\" width=\"750\" height=\"600\" viewBox=\"0 0 750 600\"><rect width=\"750\" height=\"600\" fill=\"white\"/><image x=\"25\" y=\"25\" width=\"700\" height=\"450\" href=\"DATA_IMAGE_URL\"/><text x=\"375\" y=\"520\" font-family=\"Free Serif\" font-size=\"36\">__CODE</text><text x=\"375\" y=\"560\" font-family=\"Free Serif\" font-size=\"16\">__MESSAGE</text></svg>",
    );
    reveal_strlit("DATA_IMAGE_URL");
    reveal_strlit("__CODE");
    reveal_strlit("__MESSAGE");
    assert(spec_template().subrange(184, 198) =~= image_token());
    assert(match_at(spec_template(), image_token(), 184));
    assert(spec_template().subrange(263, 269) =~= code_token());
    assert(match_at(spec_template(), code_token(), 263));
    assert(spec_template().subrange(338, 347) =~= message_token());
    assert(match_at(spec_template(), message_token(), 338));
}

/// The media-type prefix of an embedded PNG data URI.
pub open spec fn data_uri_prefix() -> Seq<u8> {
    ascii_bytes("data:image/png;base64,"@)
}

/// A data URI carrying the given base64 payload.
pub open spec fn spec_data_uri(payload: Seq<u8>) -> Seq<u8> {
    data_uri_prefix() + payload
}

/// The composed document: the template with the image placeholder
/// replaced by `uri`, then the code placeholder by `code`, then the
/// message placeholder by the fixed caption, in that order.
pub open spec fn spec_compose(template: Seq<u8>, uri: Seq<u8>, code: Seq<u8>) -> Seq<u8> {
    replace_all_spec(
        replace_all_spec(replace_all_spec(template, image_token(), uri), code_token(), code),
        message_token(),
        default_message(),
    )
}

/// The image placeholder as a byte vector.
pub fn image_token_vec() -> (r: Vec<u8>)
    ensures
        r@ == image_token(),
        r@.len() == 14,
{
    let s = "DATA_IMAGE_URL";
    proof {
        reveal_strlit("DATA_IMAGE_URL");
        broadcast use vstd::string::is_ascii_spec_bytes;

        assert(vstd::string::is_ascii(s));
    }
    let r = s.as_bytes_vec();
    proof {
        assert(r@ =~= image_token());
    }
    r
}

/// The code placeholder as a byte vector.
pub fn code_token_vec() -> (r: Vec<u8>)
    ensures
        r@ == code_token(),
        r@.len() == 6,
{
    let s = "__CODE";
    proof {
        reveal_strlit("__CODE");
        broadcast use vstd::string::is_ascii_spec_bytes;

        assert(vstd::string::is_ascii(s));
    }
    let r = s.as_bytes_vec();
    proof {
        assert(r@ =~= code_token());
    }
    r
}

/// The message placeholder as a byte vector.
pub fn message_token_vec() -> (r: Vec<u8>)
    ensures
        r@ == message_token(),
        r@.len() == 9,
{
    let s = "__MESSAGE";
    proof {
        reveal_strlit("__MESSAGE");
        broadcast use vstd::string::is_ascii_spec_bytes;

        assert(vstd::string::is_ascii(s));
    }
    let r = s.as_bytes_vec();
    proof {
        assert(r@ =~= message_token());
    }
    r
}

/// The fixed caption as a byte vector.
pub fn default_message_vec() -> (r: Vec<u8>)
    ensures
        r@ == default_message(),
{
    let s = "This is a sample message. TODO: Replace this with something better";
    proof {
        reveal_strlit("This is a sample message. TODO: Replace this with something better");
        broadcast use vstd::string::is_ascii_spec_bytes;

        assert(vstd::string::is_ascii(s));
    }
    let r = s.as_bytes_vec();
    proof {
        assert(r@ =~= default_message());
    }
    r
}

/// The data URI prefix as a byte vector.
pub fn data_uri_prefix_vec() -> (r: Vec<u8>)
    ensures
        r@ == data_uri_prefix(),
{
    let s = "data:image/png;base64,";
    proof {
        reveal_strlit("data:image/png;base64,");
        broadcast use vstd::string::is_ascii_spec_bytes;

        assert(vstd::string::is_ascii(s));
    }
    let r = s.as_bytes_vec();
    proof {
        assert(r@ =~= data_uri_prefix());
    }
    r
}

/// Wraps a base64 payload as a PNG data URI.
pub fn data_uri(payload: &Vec<u8>) -> (r: Vec<u8>)
    ensures
        r@ == spec_data_uri(payload@),
{
    let mut out = data_uri_prefix_vec();
    push_range(&mut out, payload, 0, payload.len());
    proof {
        assert(payload@.subrange(0, payload@.len() as int) =~= payload@);
    }
    out
}

/// A template in which no placeholder token occurs composes to itself,
/// whatever the data URI and the code: substitution touches nothing but
/// the tokens.
pub proof fn lemma_compose_without_tokens(template: Seq<u8>, uri: Seq<u8>, code: Seq<u8>)
    requires
        !occurs(template, image_token()),
        !occurs(template, code_token()),
        !occurs(template, message_token()),
    ensures
        spec_compose(template, uri, code) == template,
{
    reveal_strlit("DATA_IMAGE_URL");
    reveal_strlit("__CODE");
    reveal_strlit("__MESSAGE");
    lemma_substitution_unchanged(template, image_token(), uri);
    lemma_substitution_unchanged(template, code_token(), code);
    lemma_substitution_unchanged(template, message_token(), default_message());
}

/// Substituting into a template where the message placeholder still
/// occurs after the image and code substitutions puts the fixed caption
/// into the composed document.
pub proof fn lemma_compose_carries_caption(template: Seq<u8>, uri: Seq<u8>, code: Seq<u8>)
    requires
        occurs(
            replace_all_spec(
                replace_all_spec(template, image_token(), uri),
                code_token(),
                code,
            ),
            message_token(),
        ),
    ensures
        occurs(spec_compose(template, uri, code), default_message()),
{
    reveal_strlit("__MESSAGE");
    lemma_substitution_inserts(
        replace_all_spec(replace_all_spec(template, image_token(), uri), code_token(), code),
        message_token(),
        default_message(),
    );
}

/// Composes a card document from a template, an image data URI and a
/// code, substituting the three placeholder tokens in template order.
pub fn compose_document(template: &Vec<u8>, uri: &Vec<u8>, code: &Vec<u8>) -> (r: Vec<u8>)
    ensures
        r@ == spec_compose(template@, uri@, code@),
{
    let img_tok = image_token_vec();
    let code_tok = code_token_vec();
    let msg_tok = message_token_vec();
    let msg = default_message_vec();
    let with_image = replace_all(template, &img_tok, uri);
    let with_code = replace_all(&with_image, &code_tok, code);
    replace_all(&with_code, &msg_tok, &msg)
}

} // verus!
