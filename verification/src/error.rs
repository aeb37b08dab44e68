//! What can go wrong while a release is prepared.

use vstd::prelude::*;

verus! {

/// Every failure ends the run: nothing is retried, and nothing is written
/// after one.
#[derive(Clone, Debug, PartialEq, Eq)]
pub enum Error {
    /// A file or directory could not be read or written. The text is the
    /// operating system's account of it.
    Io(String),
    /// The manifest could not be parsed, or lacks a required field. The text
    /// is the parser's account of it.
    Manifest(String),
    /// The project has no license file of its own to ship.
    MissingLicense,
}

/// An `Error`, with its text as plain text.
pub enum ErrorView {
    Io(Seq<char>),
    Manifest(Seq<char>),
    MissingLicense,
}

impl View for Error {
    type V = ErrorView;

    open spec fn view(&self) -> ErrorView {
        match self {
            Error::Io(text) => ErrorView::Io(text@),
            Error::Manifest(text) => ErrorView::Manifest(text@),
            Error::MissingLicense => ErrorView::MissingLicense,
        }
    }
}

impl ErrorView {
    /// The one line that tells the user of the failure.
    pub open spec fn message(self) -> Seq<char> {
        match self {
            ErrorView::Io(text) => text,
            ErrorView::Manifest(text) => text,
            ErrorView::MissingLicense => "Missing LICENSE file. See https://choosealicense.com/"@,
        }
    }
}

impl Error {
    /// A second value of the same error.
    pub fn duplicate(&self) -> (r: Error)
        ensures
            r == *self,
    {
        match self {
            Error::Io(text) => Error::Io(text.clone()),
            Error::Manifest(text) => Error::Manifest(text.clone()),
            Error::MissingLicense => Error::MissingLicense,
        }
    }

    /// The one line that tells the user of the failure.
    pub fn message(&self) -> (r: String)
        ensures
            r@ == self@.message(),
    {
        match self {
            Error::Io(text) => text.clone(),
            Error::Manifest(text) => text.clone(),
            Error::MissingLicense => String::from_str(
                "Missing LICENSE file. See https://choosealicense.com/",
            ),
        }
    }
}

} // verus!
