//! The whole pipeline on concrete images, and its error taxonomy.

use base64::Engine;
use cardgen::encode::create_base64_image;
use cardgen::errors::CardError;
use cardgen::names::output_png_name;
use cardgen::pipeline::create_card;
use image::GenericImageView;

fn template_bytes() -> Vec<u8> {
    cardgen::compose::template_vec()
}

fn red_png_10x10() -> Vec<u8> {
    let img = image::RgbaImage::from_pixel(10, 10, image::Rgba([255, 0, 0, 255]));
    let mut buf: Vec<u8> = Vec::new();
    image::DynamicImage::ImageRgba8(img)
        .write_to(&mut std::io::Cursor::new(&mut buf), image::ImageOutputFormat::Png)
        .unwrap();
    buf
}

#[test]
fn renders_a_card_for_a_valid_png() {
    let out = create_card(&b"CARD1.png".to_vec(), &red_png_10x10(), &template_bytes(), &Vec::new())
        .unwrap();
    assert_eq!(out.code, b"CARD1".to_vec());
    assert_eq!(output_png_name(&out.code), b"CARD1.png".to_vec());
    let text = String::from_utf8(out.document.clone()).unwrap();
    assert!(text.contains("CARD1"));
    assert!(text.contains("data:image/png;base64,"));
    let rendered = image::load_from_memory(&out.png).unwrap();
    assert_eq!(rendered.dimensions(), (750, 600));
}

#[test]
fn payload_round_trips_to_the_same_pixels() {
    let src = red_png_10x10();
    let out = create_card(&b"CARD1.png".to_vec(), &src, &template_bytes(), &Vec::new()).unwrap();
    let text = String::from_utf8(out.document).unwrap();
    let prefix = "data:image/png;base64,";
    let start = text.find(prefix).unwrap() + prefix.len();
    let end = text[start..].find('"').unwrap() + start;
    let png = base64::engine::general_purpose::STANDARD.decode(&text[start..end]).unwrap();
    assert_eq!(&png[..8], &[0x89, b'P', b'N', b'G', 0x0d, 0x0a, 0x1a, 0x0a]);
    let reencoded = image::load_from_memory(&png).unwrap().to_rgba8();
    let original = image::load_from_memory(&src).unwrap().to_rgba8();
    assert_eq!(reencoded.dimensions(), original.dimensions());
    assert_eq!(reencoded.as_raw(), original.as_raw());
}

#[test]
fn other_raster_formats_are_reencoded_as_png() {
    let img = image::RgbaImage::from_pixel(4, 4, image::Rgba([0, 0, 255, 255]));
    let mut bmp: Vec<u8> = Vec::new();
    image::DynamicImage::ImageRgba8(img)
        .write_to(&mut std::io::Cursor::new(&mut bmp), image::ImageOutputFormat::Bmp)
        .unwrap();
    let payload = create_base64_image(&bmp).unwrap();
    let decoded = base64::engine::general_purpose::STANDARD.decode(&payload).unwrap();
    assert_eq!(&decoded[..8], &[0x89, b'P', b'N', b'G', 0x0d, 0x0a, 0x1a, 0x0a]);
    assert_ne!(decoded, bmp);
}

#[test]
fn naming_error_for_a_stemless_name() {
    let r = create_card(&Vec::new(), &red_png_10x10(), &template_bytes(), &Vec::new());
    assert!(matches!(r, Err(CardError::Naming)));
}

#[test]
fn naming_error_for_an_extension_only_name() {
    let r = create_card(&b".png".to_vec(), &red_png_10x10(), &template_bytes(), &Vec::new());
    assert!(matches!(r, Err(CardError::Naming)));
}

#[test]
fn decode_error_for_an_invalid_image() {
    let r = create_card(
        &b"CARD1.png".to_vec(),
        &b"this is no raster image".to_vec(),
        &template_bytes(),
        &Vec::new(),
    );
    assert!(matches!(r, Err(CardError::Decode(_))));
}

#[test]
fn parse_error_for_a_broken_template() {
    let r = create_card(&b"CARD1.png".to_vec(), &red_png_10x10(), &b"<svg".to_vec(), &Vec::new());
    assert!(matches!(r, Err(CardError::Parse(_))));
}

#[test]
fn error_messages_name_the_failure() {
    assert_eq!(
        CardError::Naming.message(),
        "Could not find code, file needs to be named <CODE>.png",
    );
    assert!(CardError::Decode(String::from("bad header")).message().contains("bad header"));
    assert_eq!(CardError::Canvas.message(), "Could not create pixmap");
}

#[test]
fn canvas_constants_match_the_card_size() {
    assert_eq!(cardgen::CANVAS_WIDTH, 750);
    assert_eq!(cardgen::CANVAS_HEIGHT, 600);
}
