//! The pipeline driver, minus its file system edges: palette loading from an
//! optional document, selection of templates among walked paths, and the
//! rendering of every discovered template.  Reading and writing files stays
//! with the caller; a fatal palette or discovery error yields no write at
//! all.

use vstd::prelude::*;

use crate::color::ColorEncoding;
use crate::discover::is_template;
use crate::discover::is_template_path;
use crate::discover::parse_template_name;
use crate::discover::spec_parse_template_name;
use crate::document::first_bad_count;
use crate::document::first_unmarked_value;
use crate::document::first_value;
use crate::document::pairs_view;
use crate::document::palette_from_document;
use crate::document::spec_parse_doc;
use crate::errors::SchemeError;
use crate::palette::builtin_scheme;
use crate::palette::is_builtin_scheme;
use crate::palette::is_hex_color;
use crate::palette::ColorScheme;
use crate::render::render;
use crate::render::spec_render;

verus! {

/// One discovered template: its source path, its derived output path, and
/// the encoding its name requests.
#[derive(Debug)]
pub struct TemplatePlan {
    pub source: String,
    pub output: String,
    pub color_type: ColorEncoding,
}

/// One template ready to render: its derived output path, its raw content,
/// and the encoding to apply.
#[derive(Debug)]
pub struct ColorSchemeFile {
    pub path: String,
    pub content: String,
    pub color_type: ColorEncoding,
}

/// A palette loaded from a document's text holds exactly the document's
/// values: the font family verbatim, every color as its marker-carrying
/// hexadecimal text.
pub open spec fn doc_scheme_ok(text: Seq<char>, scheme: ColorScheme) -> bool {
    &&& spec_parse_doc(text) is Some
    &&& {
        let pairs = spec_parse_doc(text)->Some_0;
        &&& first_bad_count(pairs) is None
        &&& first_unmarked_value(pairs) is None
        &&& scheme.wf()
        &&& scheme.font_family@ == first_value(pairs, "font-family"@)
        &&& is_hex_color(scheme.black, first_value(pairs, "black"@))
        &&& is_hex_color(scheme.light_black, first_value(pairs, "light-black"@))
        &&& is_hex_color(scheme.dark_gray, first_value(pairs, "dark-gray"@))
        &&& is_hex_color(scheme.gray, first_value(pairs, "gray"@))
        &&& is_hex_color(scheme.faint_gray, first_value(pairs, "faint-gray"@))
        &&& is_hex_color(scheme.light_gray, first_value(pairs, "light-gray"@))
        &&& is_hex_color(scheme.dark_white, first_value(pairs, "dark-white"@))
        &&& is_hex_color(scheme.white, first_value(pairs, "white"@))
        &&& is_hex_color(scheme.red, first_value(pairs, "red"@))
        &&& is_hex_color(scheme.orange, first_value(pairs, "orange"@))
        &&& is_hex_color(scheme.yellow, first_value(pairs, "yellow"@))
        &&& is_hex_color(scheme.green, first_value(pairs, "green"@))
        &&& is_hex_color(scheme.cyan, first_value(pairs, "cyan"@))
        &&& is_hex_color(scheme.blue, first_value(pairs, "blue"@))
        &&& is_hex_color(scheme.purple, first_value(pairs, "purple"@))
        &&& is_hex_color(scheme.brown, first_value(pairs, "brown"@))
    }
}

/// Why loading a palette from a document's text failed: invalid syntax, a
/// required key not present exactly once, or, only with those satisfied, a
/// color value lacking its marker.
pub open spec fn doc_scheme_err(text: Seq<char>, e: SchemeError) -> bool {
    match spec_parse_doc(text) {
        None => e matches SchemeError::MalformedPalette { detail } && detail@ == "invalid syntax"@,
        Some(pairs) => match first_bad_count(pairs) {
            Some(k) => e matches SchemeError::MalformedPalette { detail } && detail@ == k,
            None => e matches SchemeError::MalformedColorValue { key } && Some(key@)
                == first_unmarked_value(pairs),
        },
    }
}

/// The text an optional document argument denotes.
pub open spec fn opt_view(doc: Option<&str>) -> Option<Seq<char>> {
    match doc {
        None => None,
        Some(text) => Some(text@),
    }
}

/// The palette a run must use: the built-in one without a document, the
/// document's values with one.
pub open spec fn palette_outcome_ok(doc: Option<Seq<char>>, scheme: ColorScheme) -> bool {
    match doc {
        None => is_builtin_scheme(scheme),
        Some(text) => doc_scheme_ok(text, scheme),
    }
}

/// A palette load can fail only with a document, as `doc_scheme_err` says.
pub open spec fn palette_outcome_err(doc: Option<Seq<char>>, e: SchemeError) -> bool {
    match doc {
        None => false,
        Some(text) => doc_scheme_err(text, e),
    }
}

/// Acquires the palette: the built-in one when no document is supplied
/// (this cannot fail), else the validated values of the document's text.
pub fn load_palette(doc: Option<&str>) -> (r: Result<ColorScheme, SchemeError>)
    ensures
        match r {
            Ok(scheme) => palette_outcome_ok(opt_view(doc), scheme) && scheme.wf(),
            Err(e) => palette_outcome_err(opt_view(doc), e),
        },
{
    match doc {
        None => Ok(builtin_scheme()),
        Some(text) => {
            let input = match palette_from_document(text) {
                Ok(input) => input,
                Err(e) => {
                    return Err(e);
                },
            };
            match input.parse() {
                Ok(scheme) => Ok(scheme),
                Err(e) => {
                    return Err(e);
                },
            }
        },
    }
}

/// The sequence of Strings a vector of paths denotes.
pub open spec fn paths_view(v: Seq<String>) -> Seq<Seq<char>> {
    v.map_values(|s: String| s@)
}

/// The plans a vector denotes.
pub open spec fn plans_view(v: Seq<TemplatePlan>) -> Seq<(Seq<char>, Seq<char>, ColorEncoding)> {
    v.map_values(|p: TemplatePlan| (p.source@, p.output@, p.color_type))
}

/// What discovery derives from the walked paths, from position `j` onward:
/// every template path with its output path and encoding, in walk order, or
/// the first path whose name the convention does not cover.
pub open spec fn spec_select_from(paths: Seq<Seq<char>>, j: int) -> Result<
    Seq<(Seq<char>, Seq<char>, ColorEncoding)>,
    Seq<char>,
>
    decreases paths.len() - j,
{
    if j < 0 || j >= paths.len() {
        Ok(Seq::empty())
    } else if !is_template_path(paths[j]) {
        spec_select_from(paths, j + 1)
    } else {
        match spec_parse_template_name(paths[j]) {
            None => Err(paths[j]),
            Some(pe) => match spec_select_from(paths, j + 1) {
                Err(p) => Err(p),
                Ok(rest) => Ok(seq![(paths[j], pe.0, pe.1)] + rest),
            },
        }
    }
}

/// Selects the template files among the walked paths and derives each one's
/// output path and encoding; the first path that ends in `.cscheme` without
/// a recognized encoding tag aborts discovery with `MissingColorType`.
pub fn select_templates(paths: &Vec<String>) -> (r: Result<Vec<TemplatePlan>, SchemeError>)
    ensures
        match r {
            Ok(plans) => spec_select_from(paths_view(paths@), 0) == Ok::<_, Seq<char>>(
                plans_view(plans@),
            ),
            Err(e) => e matches SchemeError::MissingColorType { path } && spec_select_from(
                paths_view(paths@),
                0,
            ) == Err::<Seq<(Seq<char>, Seq<char>, ColorEncoding)>, Seq<char>>(path@),
        },
{
    let ghost pv = paths_view(paths@);
    let mut out: Vec<TemplatePlan> = Vec::new();
    let mut j: usize = 0;
    proof {
        if spec_select_from(pv, 0) is Ok {
            let rest = spec_select_from(pv, 0)->Ok_0;
            assert(plans_view(out@) + rest =~= rest);
        }
    }
    while j < paths.len()
        invariant
            pv == paths_view(paths@),
            0 <= j <= paths@.len(),
            (match spec_select_from(pv, j as int) {
                Err(p) => spec_select_from(pv, 0) == Err::<
                    Seq<(Seq<char>, Seq<char>, ColorEncoding)>,
                    Seq<char>,
                >(p),
                Ok(rest) => spec_select_from(pv, 0) == Ok::<_, Seq<char>>(
                    plans_view(out@) + rest,
                ),
            }),
        decreases paths@.len() - j,
    {
        let ghost out0 = out@;
        proof {
            assert(pv[j as int] == paths@[j as int]@);
        }
        if is_template(&paths[j]) {
            match parse_template_name(paths[j].as_str()) {
                Err(e) => {
                    return Err(e);
                },
                Ok((output, enc)) => {
                    let source = paths[j].clone();
                    out.push(TemplatePlan { source, output, color_type: enc });
                    proof {
                        assert(plans_view(out@) =~= plans_view(out0) + seq![
                            (pv[j as int], spec_parse_template_name(pv[j as int])->Some_0.0, spec_parse_template_name(pv[j as int])->Some_0.1),
                        ]);
                        if spec_select_from(pv, j + 1) is Ok {
                            let rest = spec_select_from(pv, j + 1)->Ok_0;
                            assert(plans_view(out0) + (seq![
                                (pv[j as int], spec_parse_template_name(pv[j as int])->Some_0.0, spec_parse_template_name(pv[j as int])->Some_0.1),
                            ] + rest) =~= plans_view(out@) + rest);
                        }
                    }
                },
            }
        }
        j += 1;
    }
    Ok(out)
}

/// Renders every discovered template with the one palette of the run,
/// pairing each derived output path with its rendered text, in order.
pub fn render_all(scheme: &ColorScheme, files: &Vec<ColorSchemeFile>) -> (outs: Vec<
    (String, String),
>)
    requires
        scheme.wf(),
    ensures
        outs@.len() == files@.len(),
        forall|k: int|
            0 <= k < files@.len() ==> (#[trigger] outs@[k]).0@ == files@[k].path@ && outs@[k].1@
                == spec_render(files@[k].content@, *scheme, files@[k].color_type),
{
    let mut outs: Vec<(String, String)> = Vec::new();
    let mut j: usize = 0;
    while j < files.len()
        invariant
            scheme.wf(),
            0 <= j <= files@.len(),
            outs@.len() == j,
            forall|k: int|
                0 <= k < j ==> (#[trigger] outs@[k]).0@ == files@[k].path@ && outs@[k].1@
                    == spec_render(files@[k].content@, *scheme, files@[k].color_type),
        decreases files@.len() - j,
    {
        let path = files[j].path.clone();
        let rendered = render(files[j].content.as_str(), scheme, files[j].color_type);
        outs.push((path, rendered));
        j += 1;
    }
    outs
}

/// What one full run writes, from file position `j` onward: for every
/// template among the files, its output path and rendered content, in walk
/// order; or the first template path without a recognized encoding tag.
pub open spec fn spec_plan_from(
    files: Seq<(Seq<char>, Seq<char>)>,
    scheme: ColorScheme,
    j: int,
) -> Result<Seq<(Seq<char>, Seq<char>)>, Seq<char>>
    decreases files.len() - j,
{
    if j < 0 || j >= files.len() {
        Ok(Seq::empty())
    } else if !is_template_path(files[j].0) {
        spec_plan_from(files, scheme, j + 1)
    } else {
        match spec_parse_template_name(files[j].0) {
            None => Err(files[j].0),
            Some(pe) => match spec_plan_from(files, scheme, j + 1) {
                Err(p) => Err(p),
                Ok(rest) => Ok(seq![(pe.0, spec_render(files[j].1, scheme, pe.1))] + rest),
            },
        }
    }
}

/// One whole run over in-memory files: loads the palette, discovers the
/// templates among the given `(path, content)` pairs, and renders each one;
/// the writes to perform come back in order, and any fatal error comes back
/// before a single write is handed out.
pub fn run_pipeline(doc: Option<&str>, files: &Vec<(String, String)>) -> (r: Result<
    Vec<(String, String)>,
    SchemeError,
>)
    ensures
        match r {
            Ok(writes) => exists|scheme: ColorScheme|
                #[trigger] palette_outcome_ok(opt_view(doc), scheme) && spec_plan_from(
                    pairs_view(files@),
                    scheme,
                    0,
                ) == Ok::<_, Seq<char>>(pairs_view(writes@)),
            Err(e) => palette_outcome_err(opt_view(doc), e) || (exists|scheme: ColorScheme|
                #[trigger] palette_outcome_ok(opt_view(doc), scheme) && (e matches
                SchemeError::MissingColorType { path } && spec_plan_from(
                    pairs_view(files@),
                    scheme,
                    0,
                ) == Err::<Seq<(Seq<char>, Seq<char>)>, Seq<char>>(path@))),
        },
{
    let scheme = match load_palette(doc) {
        Ok(scheme) => scheme,
        Err(e) => {
            return Err(e);
        },
    };
    let ghost fv = pairs_view(files@);
    let mut out: Vec<(String, String)> = Vec::new();
    let mut j: usize = 0;
    proof {
        if spec_plan_from(fv, scheme, 0) is Ok {
            let rest = spec_plan_from(fv, scheme, 0)->Ok_0;
            assert(pairs_view(out@) + rest =~= rest);
        }
    }
    while j < files.len()
        invariant
            scheme.wf(),
            palette_outcome_ok(opt_view(doc), scheme),
            fv == pairs_view(files@),
            0 <= j <= files@.len(),
            (match spec_plan_from(fv, scheme, j as int) {
                Err(p) => spec_plan_from(fv, scheme, 0) == Err::<
                    Seq<(Seq<char>, Seq<char>)>,
                    Seq<char>,
                >(p),
                Ok(rest) => spec_plan_from(fv, scheme, 0) == Ok::<_, Seq<char>>(
                    pairs_view(out@) + rest,
                ),
            }),
        decreases files@.len() - j,
    {
        let ghost out0 = out@;
        proof {
            assert(fv[j as int].0 == files@[j as int].0@);
            assert(fv[j as int].1 == files@[j as int].1@);
        }
        if is_template(&files[j].0) {
            match parse_template_name(files[j].0.as_str()) {
                Err(e) => {
                    return Err(e);
                },
                Ok((output, enc)) => {
                    let rendered = render(files[j].1.as_str(), &scheme, enc);
                    out.push((output, rendered));
                    proof {
                        let pe = spec_parse_template_name(fv[j as int].0)->Some_0;
                        assert(pairs_view(out@) =~= pairs_view(out0) + seq![
                            (pe.0, spec_render(fv[j as int].1, scheme, pe.1)),
                        ]);
                        if spec_plan_from(fv, scheme, j + 1) is Ok {
                            let rest = spec_plan_from(fv, scheme, j + 1)->Ok_0;
                            assert(pairs_view(out0) + (seq![
                                (pe.0, spec_render(fv[j as int].1, scheme, pe.1)),
                            ] + rest) =~= pairs_view(out@) + rest);
                        }
                    }
                },
            }
        }
        j += 1;
    }
    Ok(out)
}

} // verus!
