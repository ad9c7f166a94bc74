use vstd::prelude::*;

use crate::form::{FieldView, Form};

verus! {

/// The HTTP method of a request.
#[derive(Clone, Copy, Debug, PartialEq, Eq, Structural)]
pub enum Method {
    Get,
    Post,
    Delete,
}

/// What a request carries after its head.
#[derive(Clone, Debug, PartialEq, Eq)]
pub enum Body {
    /// No body at all.
    Empty,
    /// Form fields, for the transport to encode.
    Form(Form),
}

impl View for Body {
    type V = Option<Seq<FieldView>>;

    open spec fn view(&self) -> Option<Seq<FieldView>> {
        match self {
            Body::Empty => None,
            Body::Form(f) => Some(f@),
        }
    }
}

/// One request for the transport to send: a method, a path under the API's
/// base URL, and a body.
#[derive(Clone, Debug, PartialEq, Eq)]
pub struct Request {
    pub method: Method,
    pub path: String,
    pub body: Body,
}

/// A failure that the transport reports for a request.
#[derive(Clone, Debug, PartialEq, Eq)]
pub enum ClientError {
    /// The request did not complete: connection, timeout or TLS failure.
    Transport(String),
    /// The API answered with a status other than success, and this error body.
    Api { status: u16, code: Option<String>, message: String },
    /// The answer did not have the shape of the expected value.
    Decode(String),
}

/// What an operation yields: the value that the API returned, or the failure.
pub type Response<T> = Result<T, ClientError>;

impl Request {
    /// Ends the exchange that this request began, given what the transport
    /// made of it. The reply is passed on unchanged, value or error.
    pub fn complete<T>(self, reply: Response<T>) -> (r: Response<T>)
        ensures
            r == reply,
    {
        reply
    }
}

} // verus!
