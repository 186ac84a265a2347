use cscheme::color::ColorEncoding;
use cscheme::discover::is_template;
use cscheme::discover::parse_template_name;
use cscheme::errors::SchemeError;
use cscheme::pipeline::select_templates;

#[test]
fn only_the_exact_suffix_marks_a_template() {
    assert!(is_template(&"foo/bar.hex.cscheme".to_string()));
    assert!(is_template(&"x.rrggbbaa.cscheme".to_string()));
    assert!(!is_template(&"foo/bar.hex.cschemes".to_string()));
    assert!(!is_template(&"foo/bar.hex.CSCHEME".to_string()));
    assert!(!is_template(&"readme.md".to_string()));
    assert!(!is_template(&"cscheme".to_string()));
}

#[test]
fn the_naming_convention_round_trips() {
    let (out, enc) = parse_template_name("foo/bar.hex.cscheme").unwrap();
    assert_eq!(out, "foo/bar");
    assert!(matches!(enc, ColorEncoding::Hex));

    let (out, enc) = parse_template_name("theme.rrggbbaa.cscheme").unwrap();
    assert_eq!(out, "theme");
    assert!(matches!(enc, ColorEncoding::RgbaHex));
}

#[test]
fn a_missing_encoding_tag_is_fatal() {
    let e = parse_template_name("foo/bar.cscheme").unwrap_err();
    match e {
        SchemeError::MissingColorType { path } => assert_eq!(path, "foo/bar.cscheme"),
        other => panic!("expected MissingColorType, got {:?}", other),
    }
}

#[test]
fn an_unrecognized_encoding_tag_is_fatal() {
    let e = parse_template_name("foo/bar.cmyk.cscheme").unwrap_err();
    assert!(matches!(e, SchemeError::MissingColorType { .. }));
    // An empty tag between two dots is unrecognized too.
    let e = parse_template_name("foo/bar..cscheme").unwrap_err();
    assert!(matches!(e, SchemeError::MissingColorType { .. }));
}

#[test]
fn selection_keeps_walk_order_and_skips_other_files() {
    let paths = vec![
        "notes.txt".to_string(),
        "a/term.hex.cscheme".to_string(),
        "a/deep/bar.rrggbbaa.cscheme".to_string(),
        "image.png".to_string(),
    ];
    let plans = select_templates(&paths).unwrap();
    assert_eq!(plans.len(), 2);
    assert_eq!(plans[0].source, "a/term.hex.cscheme");
    assert_eq!(plans[0].output, "a/term");
    assert!(matches!(plans[0].color_type, ColorEncoding::Hex));
    assert_eq!(plans[1].source, "a/deep/bar.rrggbbaa.cscheme");
    assert_eq!(plans[1].output, "a/deep/bar");
    assert!(matches!(plans[1].color_type, ColorEncoding::RgbaHex));
}

#[test]
fn one_malformed_template_name_aborts_selection() {
    let paths = vec![
        "a/term.hex.cscheme".to_string(),
        "broken.cscheme".to_string(),
        "b/other.hex.cscheme".to_string(),
    ];
    let e = select_templates(&paths).unwrap_err();
    match e {
        SchemeError::MissingColorType { path } => assert_eq!(path, "broken.cscheme"),
        other => panic!("expected MissingColorType, got {:?}", other),
    }
}
