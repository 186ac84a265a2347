//! A color-scheme templating library.
//!
//! Template files discovered under a root directory carry a double suffix
//! `<name>.<encodingTag>.cscheme`; each symbolic color token in their content
//! (for example `$light-gray`) is replaced by the palette's color rendered in
//! the encoding the file name requests, and the result is meant to be written
//! to `<name>`.

pub mod color;
pub mod discover;
pub mod document;
pub mod errors;
pub mod palette;
pub mod pipeline;
pub mod render;
pub mod strutil;
pub mod tokens;
