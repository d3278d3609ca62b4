//! What all filters share: the request they look at, what they decide and how they fail.

use crate::metadata::Metadata;
use vstd::prelude::*;

verus! {

/// Why a filter failed, as a message.
pub struct FilterError {
    message: String,
}

impl View for FilterError {
    type V = Seq<char>;

    closed spec fn view(&self) -> Seq<char> {
        self.message@
    }
}

impl FilterError {
    /// The error with this message.
    pub fn new(message: String) -> (error: Self)
        ensures
            error@ == message@,
    {
        FilterError { message }
    }

    /// The error's message.
    pub fn message(&self) -> (message: &String)
        ensures
            message@ == self@,
    {
        &self.message
    }
}

/// An answer that is given in place of forwarding the request.
pub struct Rejection {
    pub status: u16,
    pub headers: Vec<(String, String)>,
    pub body: String,
}

/// What becomes of a request once a filter has seen it.
pub enum FilterAction {
    /// The request goes on.
    Continue,
    /// The request is answered with this rejection.
    Reject(Rejection),
}

/// What a filter does with request bodies.
#[derive(PartialEq, Eq, Structural, Clone, Copy, Debug)]
pub enum BodyAccess {
    /// It does not look at them.
    NoAccess,
    /// It reads them and may change them.
    ReadWrite,
}

/// How request bodies reach a filter.
#[derive(PartialEq, Eq, Structural, Clone, Copy, Debug)]
pub enum BodyMode {
    /// Piece by piece.
    Stream,
    /// Whole, up to a number of bytes where one is given.
    StreamBuffer { max_bytes: Option<usize> },
}

/// A request on its way through the filters.
pub struct HttpFilterContext {
    /// The headers that came with the request.
    pub request_headers: http::HeaderMap<http::HeaderValue>,
    /// What earlier filters have found out.
    pub filter_metadata: Metadata,
    /// Headers to be added to the request.
    pub extra_request_headers: Vec<(String, String)>,
}

impl HttpFilterContext {
    /// Nothing but the metadata differs.
    pub open spec fn same_but_metadata(self, other: HttpFilterContext) -> bool {
        &&& self.request_headers == other.request_headers
        &&& self.extra_request_headers == other.extra_request_headers
    }
}

/// The text of an optional string.
pub open spec fn text_of(text: Option<String>) -> Option<Seq<char>> {
    match text {
        Some(s) => Some(s@),
        None => None,
    }
}

/// An optional string gives its own text, and nothing where there is none.
pub proof fn optional_text_is_the_text(text: Option<String>)
    ensures
        text_of(text) is Some <==> text is Some,
        text matches Some(s) ==> text_of(text) == Some(s@),
{
}

/// Where nothing but the metadata differs, the request's headers and the headers to be added
/// are the same.
pub proof fn only_metadata_may_differ(before: HttpFilterContext, after: HttpFilterContext)
    ensures
        after.same_but_metadata(before) <==> {
            &&& after.request_headers == before.request_headers
            &&& after.extra_request_headers == before.extra_request_headers
        },
{
}

} // verus!
