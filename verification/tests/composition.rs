//! The template compositor on a realistic card template.

use cardgen::compose::{compose_document, data_uri, template_vec};
use usvg::TreeParsing;

fn template_bytes() -> Vec<u8> {
    template_vec()
}

#[test]
fn template_holds_each_token_once() {
    let text = String::from_utf8(template_vec()).unwrap();
    for token in ["DATA_IMAGE_URL", "__CODE", "__MESSAGE"] {
        assert_eq!(text.matches(token).count(), 1, "{token}");
    }
}

#[test]
fn code_is_substituted_and_token_vanishes() {
    let uri = data_uri(&b"AAAA".to_vec());
    let doc = compose_document(&template_bytes(), &uri, &b"ABC123".to_vec());
    let text = String::from_utf8(doc).unwrap();
    assert!(text.contains("ABC123"));
    assert!(!text.contains("__CODE"));
}

#[test]
fn image_uri_is_substituted() {
    let uri = data_uri(&b"QUJD".to_vec());
    let doc = compose_document(&template_bytes(), &uri, &b"C".to_vec());
    let text = String::from_utf8(doc).unwrap();
    assert!(text.contains("href=\"data:image/png;base64,QUJD\""));
    assert!(!text.contains("DATA_IMAGE_URL"));
}

#[test]
fn caption_is_substituted() {
    let uri = data_uri(&b"AAAA".to_vec());
    let doc = compose_document(&template_bytes(), &uri, &b"C".to_vec());
    let text = String::from_utf8(doc).unwrap();
    assert!(text.contains("This is a sample message. TODO: Replace this with something better"));
    assert!(!text.contains("__MESSAGE"));
}

#[test]
fn data_uri_prepends_media_type() {
    assert_eq!(data_uri(&b"QUJD".to_vec()), b"data:image/png;base64,QUJD".to_vec());
    assert_eq!(data_uri(&Vec::new()), b"data:image/png;base64,".to_vec());
}

#[test]
fn template_without_tokens_composes_to_itself() {
    let plain = b"<svg xmlns=\"http://www.w3.org/2000/svg\" width=\"10\" height=\"10\"/>".to_vec();
    let doc = compose_document(&plain, &b"uri".to_vec(), &b"code".to_vec());
    assert_eq!(doc, plain);
}

#[test]
fn composed_document_is_well_formed_svg() {
    let uri = data_uri(&b"AAAA".to_vec());
    let doc = compose_document(&template_bytes(), &uri, &b"CARD1".to_vec());
    let parsed = usvg::Tree::from_data(&doc, &usvg::Options::default());
    assert!(parsed.is_ok());
}
