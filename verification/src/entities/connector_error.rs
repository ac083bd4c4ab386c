//! The failures of a query.

use vstd::prelude::*;

verus! {

/// Why a response body could not be decoded into a table.
#[derive(Clone, Debug, PartialEq, Eq)]
pub enum DecodeError {
    /// Data row `row` (counted from 0, the header row not counted) holds
    /// `found` fields where a timestamp and `wanted` values, that is
    /// `wanted + 1` fields, were expected.
    RowWidth { row: usize, found: usize, wanted: usize },
    /// The tokenizer rejected the text; `message` is its description.
    Tokenizer { message: String },
}

/// Every failure a query can end in.
#[derive(Clone, Debug, PartialEq, Eq)]
pub enum ConnectorError {
    /// The time specification combines fields that exclude each other. Found
    /// before any request is made.
    LibraryError(String),
    /// The server answered with a status outside the success range: the status
    /// line, the body as received, and the numeric status.
    HttpError(String, String, u16),
    /// The request never got an answer (connection, timeout, name lookup);
    /// the text describes the transport's failure.
    ApiError(String),
    /// The answer arrived but its body could not be decoded.
    GenericError(DecodeError),
}

impl ConnectorError {
    /// True of the failure that carries this status line, body and status.
    pub open spec fn is_http(self, line: Seq<char>, body: Seq<char>, status: u16) -> bool {
        self matches ConnectorError::HttpError(l, b, s) && l@ == line && b@ == body && s == status
    }
}

} // verus!
