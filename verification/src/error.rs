//! What can go wrong while boards and their pages are read.

use vstd::prelude::*;
use vstd::string::StringExecFns;

verus! {

/// A failure, with the detail that its source gave.
#[derive(Clone, Debug, PartialEq, Eq)]
pub enum Error {
    /// The board catalogue could not be read.
    ReadDBError(String),
    /// The board catalogue could not be understood.
    ParseDBError(String),
    /// A listing page could not be fetched.
    FetchError(String),
    /// A listing page came, but is too long or nested too deeply to be parsed.
    PageRefused,
}

/// What an `Error` holds, as sequences of characters.
pub enum ErrorView {
    ReadDBError(Seq<char>),
    ParseDBError(Seq<char>),
    FetchError(Seq<char>),
    PageRefused,
}

impl View for Error {
    type V = ErrorView;

    open spec fn view(&self) -> ErrorView {
        match self {
            Error::ReadDBError(detail) => ErrorView::ReadDBError(detail@),
            Error::ParseDBError(detail) => ErrorView::ParseDBError(detail@),
            Error::FetchError(detail) => ErrorView::FetchError(detail@),
            Error::PageRefused => ErrorView::PageRefused,
        }
    }
}

impl DeepView for Error {
    type V = ErrorView;

    open spec fn deep_view(&self) -> ErrorView {
        self@
    }
}

impl ErrorView {
    /// The sentence that describes the failure: what failed, then the detail.
    pub open spec fn message(self) -> Seq<char> {
        match self {
            ErrorView::ReadDBError(detail) => "error reading the DB file: "@ + detail,
            ErrorView::ParseDBError(detail) => "error parsing the DB file: "@ + detail,
            ErrorView::FetchError(detail) => "error fetching the page: "@ + detail,
            ErrorView::PageRefused => "error reading the page: it is too long or nested too deeply"@,
        }
    }
}

impl Error {
    /// The sentence that describes the failure: what failed, then the detail.
    pub fn message(&self) -> (sentence: String)
        ensures
            sentence@ == self@.message(),
    {
        match self {
            Error::ReadDBError(detail) => String::from_str("error reading the DB file: ").concat(
                detail.as_str(),
            ),
            Error::ParseDBError(detail) => String::from_str("error parsing the DB file: ").concat(
                detail.as_str(),
            ),
            Error::FetchError(detail) => String::from_str("error fetching the page: ").concat(
                detail.as_str(),
            ),
            Error::PageRefused => String::from_str("error reading the page: it is too long or nested too deeply"),
        }
    }
}

} // verus!
