use cscheme::color::ColorEncoding;
use cscheme::errors::SchemeError;
use cscheme::pipeline::render_all;
use cscheme::pipeline::run_pipeline;
use cscheme::pipeline::ColorSchemeFile;

/// A well-formed palette document.
fn palette_doc() -> String {
    let pairs = [
        ("font-family", "monospace"),
        ("black", "#000000"),
        ("light-black", "#101010"),
        ("dark-gray", "#202020"),
        ("gray", "#303030"),
        ("faint-gray", "#404040"),
        ("light-gray", "#505050"),
        ("dark-white", "#606060"),
        ("white", "#707070"),
        ("red", "#AA0000"),
        ("orange", "#BB5500"),
        ("yellow", "#CCCC00"),
        ("green", "#00AA00"),
        ("cyan", "#00AAAA"),
        ("blue", "#445566"),
        ("purple", "#550055"),
        ("brown", "#553311"),
    ];
    let mut out = String::from("{");
    for (i, (k, v)) in pairs.iter().enumerate() {
        if i > 0 {
            out.push(',');
        }
        out.push_str(&format!(" \"{}\": \"{}\"", k, v));
    }
    out.push_str(" }");
    out
}

#[test]
fn one_template_tree_renders_end_to_end() {
    let doc = palette_doc();
    let files = vec![("theme.rrggbbaa.cscheme".to_string(), "color: $blue;".to_string())];
    let writes = run_pipeline(Some(&doc), &files).unwrap();
    assert_eq!(writes.len(), 1);
    assert_eq!(writes[0].0, "theme");
    assert_eq!(writes[0].1, "color: 445566ff;");
}

#[test]
fn non_template_files_yield_no_write() {
    let doc = palette_doc();
    let files = vec![
        ("readme.md".to_string(), "$red stays".to_string()),
        ("t.hex.cscheme".to_string(), "r=$red".to_string()),
    ];
    let writes = run_pipeline(Some(&doc), &files).unwrap();
    assert_eq!(writes.len(), 1);
    assert_eq!(writes[0].0, "t");
    assert_eq!(writes[0].1, "r=AA0000");
}

#[test]
fn a_template_without_encoding_tag_aborts_with_no_writes() {
    let doc = palette_doc();
    let files = vec![
        ("a.hex.cscheme".to_string(), "$red".to_string()),
        ("foo/bar.cscheme".to_string(), "$red".to_string()),
    ];
    let e = run_pipeline(Some(&doc), &files).unwrap_err();
    match e {
        SchemeError::MissingColorType { path } => assert_eq!(path, "foo/bar.cscheme"),
        other => panic!("expected MissingColorType, got {:?}", other),
    }
}

#[test]
fn a_bad_palette_aborts_before_any_template_is_considered() {
    let doc = palette_doc().replace("\"red\": \"#AA0000\"", "\"red\": \"AA0000\"");
    let files = vec![("broken.cscheme".to_string(), "$red".to_string())];
    let e = run_pipeline(Some(&doc), &files).unwrap_err();
    // The palette error comes first, although discovery would fail too.
    match e {
        SchemeError::MalformedColorValue { key } => assert_eq!(key, "red"),
        other => panic!("expected MalformedColorValue, got {:?}", other),
    }
}

#[test]
fn the_builtin_palette_drives_a_run_without_a_document() {
    let files = vec![("t.hex.cscheme".to_string(), "bg: $gray; fg: $white".to_string())];
    let writes = run_pipeline(None, &files).unwrap();
    assert_eq!(writes[0].1, "bg: 808080; fg: FFFFFF");
}

#[test]
fn render_all_pairs_each_output_path_with_its_rendered_text() {
    let scheme = cscheme::pipeline::load_palette(Some(&palette_doc())).unwrap();
    let files = vec![
        ColorSchemeFile {
            path: "one".to_string(),
            content: "x $yellow".to_string(),
            color_type: ColorEncoding::Hex,
        },
        ColorSchemeFile {
            path: "two".to_string(),
            content: "y $yellow".to_string(),
            color_type: ColorEncoding::RgbaHex,
        },
    ];
    let outs = render_all(&scheme, &files);
    assert_eq!(outs.len(), 2);
    assert_eq!(outs[0], ("one".to_string(), "x CCCC00".to_string()));
    assert_eq!(outs[1], ("two".to_string(), "y CCCC00ff".to_string()));
}
