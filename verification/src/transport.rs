//! What crosses the boundary to the HTTP transport: the request the host is
//! asked to issue, and the completion it hands back.

use vstd::prelude::*;
use vstd::utf8::{decode_utf8, valid_utf8};
use crate::fetch::Resource;
use crate::text::from_utf8;

verus! {

/// A request that the host has to issue.
#[derive(Debug)]
pub struct FetchRequest {
    pub resource: Resource,
    pub url: String,
}

/// A request as a mathematical value.
pub struct FetchRequestView {
    pub resource: Resource,
    pub url: Seq<char>,
}

impl DeepView for FetchRequest {
    type V = FetchRequestView;

    open spec fn deep_view(&self) -> FetchRequestView {
        FetchRequestView { resource: self.resource, url: self.url@ }
    }
}

/// The body of an HTTP response, as the transport delivered it.
#[derive(Debug)]
pub struct Response {
    pub bytes: Vec<u8>,
}

/// How a request ended: with a response, or with the transport's account of
/// what went wrong.
pub type Completion = Result<Response, String>;

/// A completion as a mathematical value: the bytes of the body, or the
/// transport's account.
pub open spec fn completion_view(completion: Completion) -> Result<Seq<u8>, Seq<char>> {
    match completion {
        Ok(response) => Ok(response.bytes@),
        Err(reason) => Err(reason@),
    }
}

/// The text that a body holds, if it is text at all.
pub open spec fn body_text(bytes: Seq<u8>) -> Option<Seq<char>> {
    if valid_utf8(bytes) {
        Some(decode_utf8(bytes))
    } else {
        None
    }
}

impl Response {
    /// The body as text, where it is well-formed UTF-8.
    pub fn text(&self) -> (text: Option<&str>)
        ensures
            match text {
                Some(text) => body_text(self.bytes@) == Some(text@),
                None => body_text(self.bytes@) is None,
            },
    {
        from_utf8(self.bytes.as_slice())
    }
}

} // verus!
