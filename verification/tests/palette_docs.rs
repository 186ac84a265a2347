use cscheme::document::palette_from_document;
use cscheme::errors::SchemeError;
use cscheme::palette::ColorSchemeInput;
use cscheme::pipeline::load_palette;

/// A well-formed document whose `blue` value is the given string.
fn doc_with_blue(blue: &str) -> String {
    let mut pairs = vec![
        ("font-family", "monospace".to_string()),
        ("black", "#000000".to_string()),
        ("light-black", "#101010".to_string()),
        ("dark-gray", "#202020".to_string()),
        ("gray", "#303030".to_string()),
        ("faint-gray", "#404040".to_string()),
        ("light-gray", "#505050".to_string()),
        ("dark-white", "#606060".to_string()),
        ("white", "#707070".to_string()),
        ("red", "#AA0000".to_string()),
        ("orange", "#BB5500".to_string()),
        ("yellow", "#CCCC00".to_string()),
        ("green", "#00AA00".to_string()),
        ("cyan", "#00AAAA".to_string()),
        ("purple", "#550055".to_string()),
        ("brown", "#553311".to_string()),
    ];
    pairs.push(("blue", blue.to_string()));
    let mut out = String::from("{\n");
    for (i, (k, v)) in pairs.iter().enumerate() {
        if i > 0 {
            out.push_str(",\n");
        }
        out.push_str(&format!("  \"{}\": \"{}\"", k, v));
    }
    out.push_str("\n}\n");
    out
}

/// The same document with one key dropped.
fn doc_without(key: &str) -> String {
    let full = doc_with_blue("#445566");
    let mut out = String::new();
    for line in full.lines() {
        if line.contains(&format!("\"{}\"", key)) {
            continue;
        }
        out.push_str(line);
        out.push('\n');
    }
    // Mend a trailing comma before the closing brace, if dropping the last
    // member left one.
    out.replace(",\n}", "\n}")
}

#[test]
fn a_full_document_loads() {
    let doc = doc_with_blue("#445566");
    let scheme = load_palette(Some(&doc)).unwrap();
    assert_eq!(scheme.font_family, "monospace");
}

#[test]
fn a_missing_required_key_is_a_malformed_palette() {
    let doc = doc_without("red");
    let e = load_palette(Some(&doc)).unwrap_err();
    match e {
        SchemeError::MalformedPalette { detail } => assert_eq!(detail, "red"),
        other => panic!("expected MalformedPalette, got {:?}", other),
    }
}

#[test]
fn a_repeated_required_key_is_a_malformed_palette() {
    let doc = doc_with_blue("#445566")
        .replace("\"gray\": \"#303030\"", "\"gray\": \"#303030\", \"gray\": \"#303031\"");
    let e = load_palette(Some(&doc)).unwrap_err();
    match e {
        SchemeError::MalformedPalette { detail } => assert_eq!(detail, "gray"),
        other => panic!("expected MalformedPalette, got {:?}", other),
    }
}

#[test]
fn text_that_is_no_flat_object_is_a_malformed_palette() {
    for bad in ["", "{", "not a document", "{ \"a\" }", "{ \"a\": \"b\" \"c\": \"d\" }"] {
        let e = load_palette(Some(bad)).unwrap_err();
        assert!(matches!(e, SchemeError::MalformedPalette { .. }), "doc {:?}", bad);
    }
}

#[test]
fn a_value_without_the_marker_is_a_malformed_color_value() {
    let doc = doc_with_blue("1A2B3C");
    let e = load_palette(Some(&doc)).unwrap_err();
    match e {
        SchemeError::MalformedColorValue { key } => assert_eq!(key, "blue"),
        other => panic!("expected MalformedColorValue, got {:?}", other),
    }
}

#[test]
fn the_empty_object_misses_its_first_key() {
    let e = load_palette(Some("{}")).unwrap_err();
    match e {
        SchemeError::MalformedPalette { detail } => assert_eq!(detail, "font-family"),
        other => panic!("expected MalformedPalette, got {:?}", other),
    }
}

#[test]
fn unknown_keys_are_ignored() {
    let doc = doc_with_blue("#445566").replace(
        "\"black\"",
        "\"comment\": \"a spare member\",\n  \"black\"",
    );
    assert!(load_palette(Some(&doc)).is_ok());
}

#[test]
fn without_a_document_the_builtin_palette_loads() {
    let scheme = load_palette(None).unwrap();
    assert_eq!(scheme.font_family, "monospace");
}

#[test]
fn raw_input_validation_names_the_first_unmarked_key() {
    let input = ColorSchemeInput {
        font_family: "sans".to_string(),
        black: "#000000".to_string(),
        light_black: "101010".to_string(),
        dark_gray: "202020".to_string(),
        gray: "#303030".to_string(),
        faint_gray: "#404040".to_string(),
        light_gray: "#505050".to_string(),
        dark_white: "#606060".to_string(),
        white: "#707070".to_string(),
        red: "#AA0000".to_string(),
        orange: "#BB5500".to_string(),
        yellow: "#CCCC00".to_string(),
        green: "#00AA00".to_string(),
        cyan: "#00AAAA".to_string(),
        blue: "#445566".to_string(),
        purple: "#550055".to_string(),
        brown: "#553311".to_string(),
    };
    let e = input.parse().unwrap_err();
    match e {
        SchemeError::MalformedColorValue { key } => assert_eq!(key, "light-black"),
        other => panic!("expected MalformedColorValue, got {:?}", other),
    }
}

#[test]
fn documents_with_escapes_are_outside_the_format() {
    let doc = doc_with_blue("#445566").replace("monospace", "mono\\\"space");
    let e = palette_from_document(&doc).unwrap_err();
    assert!(matches!(e, SchemeError::MalformedPalette { .. }));
}

#[test]
fn error_messages_name_the_failing_item() {
    let e = SchemeError::MalformedPalette { detail: "red".to_string() };
    assert_eq!(e.message(), "malformed palette: red");
    let e = SchemeError::MalformedColorValue { key: "blue".to_string() };
    assert_eq!(e.message(), "malformed color value for key blue");
    let e = SchemeError::MissingColorType { path: "a/b.cscheme".to_string() };
    assert_eq!(e.message(), "missing color type in a/b.cscheme");
    let e = SchemeError::UnsupportedEncoding { tag: "cmyk".to_string() };
    assert_eq!(e.message(), "unsupported encoding cmyk");
    let e = SchemeError::InputIOError { path: "p".to_string() };
    assert_eq!(e.message(), "cannot read p");
    let e = SchemeError::OutputIOError { path: "q".to_string() };
    assert_eq!(e.message(), "cannot write q");
}
