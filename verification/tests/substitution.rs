//! Behavior of the byte-string substitution primitives.

use cardgen::text::{copy_range, find_sub, replace_all};

#[test]
fn replaces_every_occurrence() {
    let text = b"one X two X three".to_vec();
    let pat = b"X".to_vec();
    let sub = b"YY".to_vec();
    assert_eq!(replace_all(&text, &pat, &sub), b"one YY two YY three".to_vec());
}

#[test]
fn leaves_text_without_the_token_unchanged() {
    let text = b"nothing to see".to_vec();
    let out = replace_all(&text, &b"XYZ".to_vec(), &b"!".to_vec());
    assert_eq!(out, text);
}

#[test]
fn matches_str_replace_semantics() {
    let cases: Vec<(&str, &str, &str)> = vec![
        ("aaa", "aa", "b"),
        ("aab", "ab", "b"),
        ("axa", "x", "xx"),
        ("hello hello", "ell", "ipp"),
        ("ababab", "ab", ""),
        ("x", "x", "x"),
        ("", "a", "b"),
    ];
    for (t, p, s) in cases {
        let got = replace_all(
            &t.as_bytes().to_vec(),
            &p.as_bytes().to_vec(),
            &s.as_bytes().to_vec(),
        );
        assert_eq!(String::from_utf8(got).unwrap(), t.replace(p, s), "{t} / {p} / {s}");
    }
}

#[test]
fn inserted_text_is_not_rescanned() {
    let out = replace_all(&b"ab".to_vec(), &b"b".to_vec(), &b"bb".to_vec());
    assert_eq!(out, b"abb".to_vec());
}

#[test]
fn finds_the_first_occurrence_only() {
    let text = b"abcabc".to_vec();
    assert_eq!(find_sub(&text, &b"abc".to_vec(), 0), Some(0));
    assert_eq!(find_sub(&text, &b"abc".to_vec(), 1), Some(3));
    assert_eq!(find_sub(&text, &b"bc".to_vec(), 0), Some(1));
    assert_eq!(find_sub(&text, &b"zz".to_vec(), 0), None);
    assert_eq!(find_sub(&text, &b"abcabcabc".to_vec(), 0), None);
}

#[test]
fn copies_a_range() {
    let text = b"abcdef".to_vec();
    assert_eq!(copy_range(&text, 2, 5), b"cde".to_vec());
    assert_eq!(copy_range(&text, 0, 0), Vec::<u8>::new());
    assert_eq!(copy_range(&text, 0, 6), text);
}
