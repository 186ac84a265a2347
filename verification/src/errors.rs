//! The error taxonomy of a templating run.  Every variant is fatal to the
//! whole run; the carried string identifies the failing path, key or tag.

use vstd::prelude::*;

use vstd::string::StringExecFns;

verus! {

/// Why a templating run aborted.
#[derive(Debug)]
pub enum SchemeError {
    /// A palette document or a template file could not be read.
    InputIOError { path: String },
    /// The palette document is not syntactically valid, or omits a required
    /// key.
    MalformedPalette { detail: String },
    /// A palette color value lacks the leading `#` marker.
    MalformedColorValue { key: String },
    /// A template file name carries no recognized encoding tag.
    MissingColorType { path: String },
    /// The encoder was asked for an encoding it does not implement.
    UnsupportedEncoding { tag: String },
    /// A rendered file could not be written.
    OutputIOError { path: String },
}

impl SchemeError {
    /// A one-line description naming the failing path, key or tag.
    pub fn message(&self) -> (m: String)
        ensures
            m@ == match *self {
                SchemeError::InputIOError { path } => "cannot read "@ + path@,
                SchemeError::MalformedPalette { detail } => "malformed palette: "@ + detail@,
                SchemeError::MalformedColorValue { key } => "malformed color value for key "@
                    + key@,
                SchemeError::MissingColorType { path } => "missing color type in "@ + path@,
                SchemeError::UnsupportedEncoding { tag } => "unsupported encoding "@ + tag@,
                SchemeError::OutputIOError { path } => "cannot write "@ + path@,
            },
    {
        match self {
            SchemeError::InputIOError { path } => String::from_str("cannot read ").concat(
                path.as_str(),
            ),
            SchemeError::MalformedPalette { detail } => String::from_str(
                "malformed palette: ",
            ).concat(detail.as_str()),
            SchemeError::MalformedColorValue { key } => String::from_str(
                "malformed color value for key ",
            ).concat(key.as_str()),
            SchemeError::MissingColorType { path } => String::from_str(
                "missing color type in ",
            ).concat(path.as_str()),
            SchemeError::UnsupportedEncoding { tag } => String::from_str(
                "unsupported encoding ",
            ).concat(tag.as_str()),
            SchemeError::OutputIOError { path } => String::from_str("cannot write ").concat(
                path.as_str(),
            ),
        }
    }
}

} // verus!
