//! A client library for the ZeroBounce email validation service.
//!
//! The service answers every request with a JSON object, and reports its own
//! refusals in such an object too. This library composes the addresses of the
//! two requests, "validate an address" and "credits left", and decodes the
//! bodies that come back into typed values: [`ResponseType`] tells a payload
//! from an error report, [`validate::ResponseSuccess`] and
//! [`credits::ResponseSuccess`] are the payloads. Sending the request is left
//! to the caller.

pub mod api;
pub mod credits;
pub mod json;
pub mod text;
pub mod validate;

pub use crate::api::{Api, API_URL};

use crate::json::{json_object, required_text, JsonDocument, JsonValueView, Members};
use vstd::prelude::*;

verus! {

/// The data that one call of the service answers with when it succeeds.
pub trait Payload: View + Sized {
    /// What the schema of the payload makes of an object: `None` where the
    /// object does not fit it.
    spec fn schema(object: Members) -> Option<Self::V>;

    /// Decodes the payload from an object, by its schema.
    fn decode(document: &JsonDocument) -> (payload: Option<Self>)
        ensures
            match payload {
                Some(payload) => Self::schema(document@) == Some(payload@),
                None => Self::schema(document@) is None,
            },
    ;
}

/// What the service says when it turns a request down. It does so in the body
/// of an answer like any other, not by the status of the transport.
#[derive(Debug, PartialEq, Eq)]
pub struct ResponseError {
    pub error: String,
}

impl ResponseError {
    /// The message of an object that reports an error: the text of its member
    /// `error`. `None` where the object has no such text.
    pub open spec fn schema(object: Members) -> Option<Seq<char>> {
        required_text(object, "error"@)
    }

    /// Decodes an error report from an object.
    pub fn decode(document: &JsonDocument) -> (report: Option<ResponseError>)
        ensures
            match report {
                Some(report) => Self::schema(document@) == Some(report.error@),
                None => Self::schema(document@) is None,
            },
    {
        let error = document.required_text("error")?;
        Some(ResponseError { error })
    }
}

/// An answer of the service: the payload of the call, or an error report.
/// Nothing in the answer names which of the two it is; its shape tells.
#[derive(Debug, PartialEq, Eq)]
pub enum ResponseType<T> {
    /// The service did what was asked.
    Success(Box<T>),
    /// The service turned the request down.
    Error(ResponseError),
}

/// What a [`ResponseType`] stands for.
pub enum ResponseTypeView<P> {
    Success(P),
    Error(Seq<char>),
}

impl<T: View> View for ResponseType<T> {
    type V = ResponseTypeView<T::V>;

    open spec fn view(&self) -> ResponseTypeView<T::V> {
        match self {
            ResponseType::Success(payload) => ResponseTypeView::Success(payload@),
            ResponseType::Error(report) => ResponseTypeView::Error(report.error@),
        }
    }
}

/// Why a body could not be decoded.
#[derive(Debug, Clone, Copy, PartialEq, Eq, Structural)]
pub enum DecodeError {
    /// The parser did not read the body as the text of a JSON object.
    NotAnObject,
    /// The body is a JSON object that is neither the payload nor an error
    /// report.
    UnexpectedShape,
}

/// What the outcome of decoding stands for.
pub open spec fn outcome_view<T: View>(outcome: Result<ResponseType<T>, DecodeError>) -> Result<
    ResponseTypeView<T::V>,
    DecodeError,
> {
    match outcome {
        Ok(answer) => Ok(answer@),
        Err(error) => Err(error),
    }
}

impl<T: Payload> ResponseType<T> {
    /// Which of the two an object is. The payload is tried first, so an
    /// object that fits both schemas is a payload; one that fits neither is
    /// refused.
    pub open spec fn resolved(object: Members) -> Result<ResponseTypeView<T::V>, DecodeError> {
        match T::schema(object) {
            Some(payload) => Ok(ResponseTypeView::Success(payload)),
            None => match ResponseError::schema(object) {
                Some(message) => Ok(ResponseTypeView::Error(message)),
                None => Err(DecodeError::UnexpectedShape),
            },
        }
    }

    /// What the body of an answer decodes to.
    pub open spec fn decoded(body: Seq<u8>) -> Result<ResponseTypeView<T::V>, DecodeError> {
        match json_object(body) {
            Some(object) => Self::resolved(object),
            None => Err(DecodeError::NotAnObject),
        }
    }

    /// Tells a payload from an error report by the shape of the object.
    pub fn resolve(document: &JsonDocument) -> (outcome: Result<ResponseType<T>, DecodeError>)
        ensures
            outcome_view(outcome) == Self::resolved(document@),
    {
        match T::decode(document) {
            Some(payload) => Ok(ResponseType::Success(Box::new(payload))),
            None => match ResponseError::decode(document) {
                Some(report) => Ok(ResponseType::Error(report)),
                None => Err(DecodeError::UnexpectedShape),
            },
        }
    }

    /// Decodes the body of an answer.
    pub fn decode(body: &[u8]) -> (outcome: Result<ResponseType<T>, DecodeError>)
        ensures
            outcome_view(outcome) == Self::decoded(body@),
    {
        match JsonDocument::parse(body) {
            Ok(document) => Self::resolve(&document),
            Err(error) => Err(error),
        }
    }
}

/// The object that reports an error and holds nothing else.
pub open spec fn error_report(message: Seq<char>) -> Members {
    Map::empty().insert("error"@, JsonValueView::Text(message))
}

/// An error report resolves to `Error` with its message, not to a payload,
/// whichever of the two payloads was asked for.
pub proof fn lemma_error_report_resolves(message: Seq<char>)
    ensures
        ResponseType::<validate::ResponseSuccess>::resolved(error_report(message)) == Ok::<
            ResponseTypeView<validate::ResponseSuccessView>,
            DecodeError,
        >(ResponseTypeView::Error(message)),
        ResponseType::<credits::ResponseSuccess>::resolved(error_report(message)) == Ok::<
            ResponseTypeView<Seq<char>>,
            DecodeError,
        >(ResponseTypeView::Error(message)),
{
    reveal_strlit("error");
    reveal_strlit("address");
    reveal_strlit("Credits");
    assert("error"@.len() == 5 && "address"@.len() == 7 && "Credits"@.len() == 7);
    let object = error_report(message);
    assert(!object.contains_key("address"@));
    assert(!object.contains_key("Credits"@));
    assert(object.contains_key("error"@));
}

} // verus!
