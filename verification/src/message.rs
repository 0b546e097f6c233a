//! The message converter.
//!
//! Converts an abstract HTTP request into the sandbox's native request
//! representation, and a native response back into the abstract response
//! representation. Method, URI, status and the header multimap cross the
//! boundary unchanged — duplicate header names and their order included —
//! and bodies are converted by the body converter.

use vstd::prelude::*;

use crate::body::AbstractBody;
use crate::body::NativeBody;
use crate::body::from_native;
use crate::body::to_native;

verus! {

/// One header entry: a name and a value. The header multimap is an ordered
/// list of these; duplicate names are allowed and order is significant.
#[derive(Clone, PartialEq, Eq, Debug)]
pub struct Header {
    pub name: String,
    pub value: String,
}

/// The abstract HTTP request handed in by the surrounding runtime.
#[derive(PartialEq, Eq, Debug)]
pub struct AbstractRequest {
    pub method: String,
    pub uri: String,
    pub headers: Vec<Header>,
    pub body: AbstractBody,
}

/// The sandbox's request representation.
#[derive(PartialEq, Eq, Debug)]
pub struct NativeRequest {
    pub method: String,
    pub uri: String,
    pub headers: Vec<Header>,
    pub body: NativeBody,
}

/// The sandbox's response representation.
#[derive(PartialEq, Eq, Debug)]
pub struct NativeResponse {
    pub status: u16,
    pub headers: Vec<Header>,
    pub body: NativeBody,
}

/// The abstract HTTP response handed back to the surrounding runtime.
#[derive(PartialEq, Eq, Debug)]
pub struct AbstractResponse {
    pub status: u16,
    pub headers: Vec<Header>,
    pub body: AbstractBody,
}

/// Converts an abstract request into the sandbox's representation: method,
/// URI and the header multimap unchanged, the body fully materialized.
pub fn request_to_native(req: AbstractRequest) -> (native: NativeRequest)
    ensures
        native.method == req.method,
        native.uri == req.uri,
        native.headers == req.headers,
        native.body.byte_content() == req.body.byte_content(),
{
    let AbstractRequest { method, uri, headers, body } = req;
    NativeRequest { method, uri, headers, body: to_native(body) }
}

/// Converts a native response back into the abstract representation: status
/// and the header multimap unchanged, all body bytes extracted into a fully
/// buffered body.
pub fn response_from_native(resp: NativeResponse) -> (abs: AbstractResponse)
    ensures
        abs.status == resp.status,
        abs.headers == resp.headers,
        abs.body.byte_content() == resp.body.byte_content(),
        resp.body.byte_content().len() == 0 ==> abs.body is Empty,
        resp.body.byte_content().len() > 0 ==> abs.body is Buffered,
{
    let NativeResponse { status, headers, body } = resp;
    AbstractResponse { status, headers, body: from_native(body) }
}

} // verus!
