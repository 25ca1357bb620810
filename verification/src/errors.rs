use reqwest::Error as TransportError;
use serde_json::Error as JsonError;
use vstd::prelude::*;

verus! {

/// `reqwest::Error`, the failure of the HTTP transport. Nothing is known of
/// what it holds: a value of it is only carried.
#[verifier::external_type_specification]
#[verifier::external_body]
pub struct ExTransportError(TransportError);

/// `serde_json::Error`, the failure of a JSON encoding or decoding. Nothing is
/// known of what it holds: a value of it is only carried.
#[verifier::external_type_specification]
#[verifier::external_body]
pub struct ExJsonError(JsonError);

/// What went wrong.
#[derive(Debug)]
pub enum Kind {
    /// The request could not be built or sent.
    Reqwest(TransportError),
    /// A request could not be written as JSON, or an answer was not the JSON
    /// that was expected.
    Json(JsonError),
    /// An institution id was required and empty.
    EmptyId,
    /// A search query was required and empty.
    EmptyQuery,
    /// An access token or a public token was required and empty.
    EmptyToken,
    /// Several arguments were required together and one of them was missing.
    ValidationError(&'static str),
}

#[derive(Debug)]
struct Inner {
    kind: Kind,
}

/// The one error type of the library.
#[derive(Debug)]
pub struct Error {
    inner: Box<Inner>,
}

impl View for Error {
    type V = Kind;

    closed spec fn view(&self) -> Kind {
        self.inner.kind
    }
}

impl Error {
    pub fn new(kind: Kind) -> (e: Error)
        ensures
            e@ == kind,
    {
        Error { inner: Box::new(Inner { kind }) }
    }

    /// What went wrong.
    pub fn kind(&self) -> (kind: &Kind)
        ensures
            *kind == self@,
    {
        &self.inner.kind
    }

    /// Gives up the error for what it holds.
    pub fn into_kind(self) -> (kind: Kind)
        ensures
            kind == self@,
    {
        let inner = self.inner;
        (*inner).kind
    }
}

} // verus!
