//! What is asked of the site and what is made of its answer. The request
//! itself is made elsewhere: here stand the address that is asked for and the
//! reading of the page that comes back.

use crate::board::{page_fields, rows_of, BoardRow, BoardRowView};
use crate::error::{Error, ErrorView};
use crate::markup::fits_parser;
use crate::text::{strip_layout, without_layout};
use vstd::prelude::*;
use vstd::string::StringExecFns;

verus! {

/// The address of a listing page: the site's service address, then the
/// board's path segment.
pub open spec fn service_url(board_code: Seq<char>) -> Seq<char> {
    "https://www.clien.net/service/"@ + board_code
}

/// The address under which a board's listing page is fetched.
pub fn board_url(board_code: &str) -> (url: String)
    ensures
        url@ == service_url(board_code@),
{
    String::from_str("https://www.clien.net/service/").concat(board_code)
}

/// The rows that a page's text gives: the text is cleared of line feeds and
/// tabs, parsed, and read row by row.
pub open spec fn page_rows(body: Seq<char>) -> Seq<BoardRowView> {
    rows_of(page_fields(without_layout(body)))
}

/// The answer to a request for a page, as sequences of characters.
pub open spec fn response_view(response: Result<String, Error>) -> Result<Seq<char>, ErrorView> {
    match response {
        Ok(body) => Ok(body@),
        Err(failure) => Err(failure@),
    }
}

/// What is made of the answer to a request for a page: the rows of the page
/// that came, unless the page, cleared of line feeds and tabs, is too long or
/// nested too deeply and is refused; and the failure of a request that
/// failed.
pub open spec fn read_outcome(response: Result<Seq<char>, ErrorView>) -> Result<
    Seq<BoardRowView>,
    ErrorView,
> {
    match response {
        Ok(body) => if fits_parser(without_layout(body)) {
            Ok(page_rows(body))
        } else {
            Err(ErrorView::PageRefused)
        },
        Err(failure) => Err(failure),
    }
}

/// Makes the rows of a board out of the answer to the request for its listing
/// page. An answer that came gives the rows of its text, whatever the text
/// holds, unless the text is too long or nested too deeply: then the page is
/// refused, which is a failure. A failed request gives its failure back.
pub fn read_board_rows(response: Result<String, Error>) -> (rows: Result<Vec<BoardRow>, Error>)
    ensures
        match read_outcome(response_view(response)) {
            Ok(expected) => rows is Ok && rows->Ok_0.deep_view() == expected,
            Err(failure) => rows is Err && rows->Err_0@ == failure,
        },
        response matches Err(failure) ==> rows == Err::<Vec<BoardRow>, Error>(failure),
{
    match response {
        Ok(body) => {
            let doc = strip_layout(body.as_str());
            match BoardRow::read_page(doc.as_str()) {
                Some(rows) => Ok(rows),
                None => Err(Error::PageRefused),
            }
        },
        Err(failure) => Err(failure),
    }
}

} // verus!
