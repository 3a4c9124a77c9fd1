//! The clipboard of a platform without one: loads give empty text and
//! stores are accepted and dropped.

use vstd::prelude::*;

verus! {

#[verifier::external_type_specification]
#[verifier::external_body]
pub struct ExFromUtf8Error(std::string::FromUtf8Error);

/// Why clipboard contents could not be used.
#[derive(Debug)]
pub enum Error {
    /// The contents were not valid UTF-8.
    Utf8(std::string::FromUtf8Error),
}

/// The start of every message about contents that are not UTF-8.
pub open spec fn utf8_message_prefix() -> Seq<char> {
    "error parsing utf8 string: "@
}

/// The short description of every error of this kind.
pub open spec fn utf8_description() -> Seq<char> {
    "clipboard contents not utf8"@
}

/// Relies on `FromUtf8Error`'s `Display` (through `to_string`) for the text
/// that says where the decoding failed.
#[verifier::external_body]
fn utf8_error_text(e: &std::string::FromUtf8Error) -> (r: String) {
    e.to_string()
}

/// The message for contents that are not UTF-8, given the decoder's own
/// account of the failure.
pub fn utf8_message(detail: &str) -> (r: String)
    ensures
        r@ == utf8_message_prefix() + detail@,
{
    let mut s = "error parsing utf8 string: ".to_owned();
    s.append(detail);
    s
}

impl Error {
    /// The underlying decoding error.
    pub fn cause(&self) -> (r: Option<&std::string::FromUtf8Error>)
        ensures
            r == match self {
                Error::Utf8(e) => Some(e),
            },
    {
        match self {
            Error::Utf8(e) => Some(e),
        }
    }

    /// A short description of the error.
    pub fn description(&self) -> (r: &'static str)
        ensures
            r@ == utf8_description(),
    {
        "clipboard contents not utf8"
    }

    /// The full message: the prefix, then the decoder's account.
    pub fn message(&self) -> (r: String)
        ensures
            exists|detail: Seq<char>| r@ == utf8_message_prefix() + detail,
    {
        match self {
            Error::Utf8(e) => {
                let detail = utf8_error_text(e);
                utf8_message(detail.as_str())
            },
        }
    }
}

/// A clipboard that holds nothing.
#[derive(Debug)]
pub struct Clipboard;

impl Clipboard {
    /// Opens the clipboard; this never fails.
    pub fn new() -> (r: Result<Clipboard, Error>)
        ensures
            r is Ok,
    {
        Ok(Clipboard)
    }

    /// The primary selection: always empty.
    pub fn load_primary(&self) -> (r: Result<String, Error>)
        ensures
            r matches Ok(s) && s@.len() == 0,
    {
        Ok(String::new())
    }

    /// The clipboard selection: always empty.
    pub fn load_selection(&self) -> (r: Result<String, Error>)
        ensures
            r matches Ok(s) && s@.len() == 0,
    {
        Ok(String::new())
    }

    /// Sets the primary selection: accepted and dropped.
    pub fn store_primary<S: Into<String>>(&mut self, contents: S) -> (r: Result<(), Error>)
        ensures
            r is Ok,
    {
        Ok(())
    }

    /// Sets the clipboard selection: accepted and dropped.
    pub fn store_selection<S: Into<String>>(&mut self, contents: S) -> (r: Result<(), Error>)
        ensures
            r is Ok,
    {
        Ok(())
    }
}

} // verus!
