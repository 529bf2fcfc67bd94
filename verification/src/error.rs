//! The library's error type and its conversions from the errors of the
//! crates around it.

use crate::bindings::{io_error_text, json_error_text, readline_error_text, reqwest_error_text};
use vstd::prelude::*;
use vstd::std_specs::convert::FromSpecImpl;
use vstd::string::*;

verus! {

/// What can go wrong around a completion: input and terminal failures,
/// transport failures (the body of a refused request is carried verbatim),
/// and malformed JSON.
#[derive(Debug)]
pub enum Error {
    Io(String),
    Reqwest(String),
    Serde(String),
}

impl Error {
    /// The text carried by the error, whatever its kind.
    pub open spec fn detail(&self) -> Seq<char> {
        match self {
            Error::Io(e) => e@,
            Error::Reqwest(e) => e@,
            Error::Serde(e) => e@,
        }
    }

    /// The label that introduces each kind of error in its message.
    pub open spec fn label(&self) -> Seq<char> {
        match self {
            Error::Io(_) => "IO error: "@,
            Error::Reqwest(_) => "Reqwest error: "@,
            Error::Serde(_) => "Serde error: "@,
        }
    }

    /// The full message: the label of the kind, then the carried text.
    pub open spec fn message(&self) -> Seq<char> {
        self.label() + self.detail()
    }

    /// Renders the error as a human-readable message.
    pub fn to_string(&self) -> (text: String)
        ensures
            text@ == self.message(),
    {
        match self {
            Error::Io(e) => String::from_str("IO error: ").concat(e.as_str()),
            Error::Reqwest(e) => String::from_str("Reqwest error: ").concat(e.as_str()),
            Error::Serde(e) => String::from_str("Serde error: ").concat(e.as_str()),
        }
    }
}

impl From<std::io::Error> for Error {
    /// An input or output failure becomes `Error::Io` with its display text.
    fn from(e: std::io::Error) -> (err: Error)
        ensures
            err is Io,
    {
        Error::Io(io_error_text(&e))
    }
}

impl FromSpecImpl<std::io::Error> for Error {
    open spec fn obeys_from_spec() -> bool {
        false
    }

    open spec fn from_spec(e: std::io::Error) -> Error {
        arbitrary()
    }
}

impl From<reqwest::Error> for Error {
    /// A transport failure becomes `Error::Reqwest` with its display text.
    fn from(e: reqwest::Error) -> (err: Error)
        ensures
            err is Reqwest,
    {
        Error::Reqwest(reqwest_error_text(&e))
    }
}

impl FromSpecImpl<reqwest::Error> for Error {
    open spec fn obeys_from_spec() -> bool {
        false
    }

    open spec fn from_spec(e: reqwest::Error) -> Error {
        arbitrary()
    }
}

impl From<serde_json::Error> for Error {
    /// A JSON failure becomes `Error::Serde` with its display text.
    fn from(e: serde_json::Error) -> (err: Error)
        ensures
            err is Serde,
    {
        Error::Serde(json_error_text(&e))
    }
}

impl FromSpecImpl<serde_json::Error> for Error {
    open spec fn obeys_from_spec() -> bool {
        false
    }

    open spec fn from_spec(e: serde_json::Error) -> Error {
        arbitrary()
    }
}

impl From<rustyline::error::ReadlineError> for Error {
    /// A line-editor failure becomes `Error::Io`; end of input is reported
    /// as the text `EOF`.
    fn from(e: rustyline::error::ReadlineError) -> (err: Error)
        ensures
            err is Io,
    {
        match readline_error_text(&e) {
            Some(text) => Error::Io(text),
            None => Error::Io(String::from_str("EOF")),
        }
    }
}

impl FromSpecImpl<rustyline::error::ReadlineError> for Error {
    open spec fn obeys_from_spec() -> bool {
        false
    }

    open spec fn from_spec(e: rustyline::error::ReadlineError) -> Error {
        arbitrary()
    }
}

} // verus!
