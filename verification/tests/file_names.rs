//! Filename stem, extension and output-name rules.

use cardgen::names::{debug_svg_name, extension_of, file_stem_of, is_png_name, output_png_name};

#[test]
fn stem_of_ordinary_name() {
    assert_eq!(file_stem_of(&b"CARD1.png".to_vec()), Some(b"CARD1".to_vec()));
    assert_eq!(file_stem_of(&b"noext".to_vec()), Some(b"noext".to_vec()));
    assert_eq!(file_stem_of(&b"foo.tar.gz".to_vec()), Some(b"foo.tar".to_vec()));
    assert_eq!(file_stem_of(&b"foo.".to_vec()), Some(b"foo".to_vec()));
}

#[test]
fn hidden_and_extension_only_names_have_no_stem() {
    assert_eq!(file_stem_of(&b".png".to_vec()), None);
    assert_eq!(file_stem_of(&b".bashrc".to_vec()), None);
    assert_eq!(file_stem_of(&b".tar.gz".to_vec()), Some(b".tar".to_vec()));
}

#[test]
fn empty_name_has_no_stem() {
    assert_eq!(file_stem_of(&Vec::new()), None);
}

#[test]
fn extension_rules() {
    assert_eq!(extension_of(&b"CARD1.png".to_vec()), Some(b"png".to_vec()));
    assert_eq!(extension_of(&b".png".to_vec()), None);
    assert_eq!(extension_of(&b"foo.".to_vec()), Some(b"".to_vec()));
    assert_eq!(extension_of(&b"foo.tar.gz".to_vec()), Some(b"gz".to_vec()));
    assert_eq!(extension_of(&b"noext".to_vec()), None);
    assert_eq!(extension_of(&Vec::new()), None);
}

#[test]
fn agrees_with_std_path_on_ordinary_names() {
    let names = vec!["CARD1.png", "noext", "foo.tar.gz", "foo.", ".tar.gz", "a.b"];
    for name in names {
        let bytes = name.as_bytes().to_vec();
        let path = std::path::Path::new(name);
        assert_eq!(
            file_stem_of(&bytes),
            path.file_stem().map(|s| s.to_str().unwrap().as_bytes().to_vec()),
            "stem of {name}",
        );
        assert_eq!(
            extension_of(&bytes),
            path.extension().map(|s| s.to_str().unwrap().as_bytes().to_vec()),
            "extension of {name}",
        );
    }
}

#[test]
fn hidden_names_deviate_from_std_path_by_design() {
    // std::path gives `.png` the stem `.png`; here such a name carries
    // no code, so the pipeline can report the naming error for it.
    for name in [".png", ".bashrc"] {
        assert_eq!(file_stem_of(&name.as_bytes().to_vec()), None, "stem of {name}");
        assert!(std::path::Path::new(name).file_stem().is_some());
    }
}

#[test]
fn png_filter_is_exact_and_case_sensitive() {
    assert!(is_png_name(&b"a.png".to_vec()));
    assert!(is_png_name(&b"CARD1.png".to_vec()));
    assert!(!is_png_name(&b"a.PNG".to_vec()));
    assert!(!is_png_name(&b".png".to_vec()));
    assert!(!is_png_name(&b"apng".to_vec()));
    assert!(!is_png_name(&b"x.png.bak".to_vec()));
    assert!(!is_png_name(&b"a.pngg".to_vec()));
    assert!(!is_png_name(&Vec::new()));
}

#[test]
fn output_name_round_trips_to_the_code() {
    let name = output_png_name(&b"CARD1".to_vec());
    assert!(is_png_name(&name));
    assert_eq!(file_stem_of(&name), Some(b"CARD1".to_vec()));
    let dotted = output_png_name(&b"a.b".to_vec());
    assert!(is_png_name(&dotted));
    assert_eq!(file_stem_of(&dotted), Some(b"a.b".to_vec()));
}

#[test]
fn output_names_append_suffixes() {
    assert_eq!(output_png_name(&b"CARD1".to_vec()), b"CARD1.png".to_vec());
    assert_eq!(debug_svg_name(&b"CARD1".to_vec()), b"CARD1.svg".to_vec());
    assert_eq!(output_png_name(&Vec::new()), b".png".to_vec());
}
