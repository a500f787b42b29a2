use vstd::prelude::*;
use crate::json::{from_value_as, string_object, string_object_of};

verus! {

/// Declares reqwest's opaque error type, so that a transport failure can
/// be carried through the error taxonomy unchanged.
#[verifier::external_type_specification]
#[verifier::external_body]
pub struct ExReqwestError(reqwest::Error);

/// The payload of an application-level HTTP failure: the status the
/// server answered with and the decoded error body.
///
/// A status of 0 marks a synthetic error, one built locally rather than
/// from a real HTTP exchange.
#[derive(Debug)]
pub struct RuxiosErrorValue<T> {
    pub status: u16,
    pub value: T,
}

/// Everything a request can fail with: the transport failed, a body
/// would not decode, an environment lookup failed, or the server
/// answered with a non-success status and an error body.
///
/// Nothing is retried or recovered: each failure is surfaced to the
/// caller as one of these four, immediately.
#[derive(Debug)]
pub enum RuxiosError<T> {
    ReqwestError(reqwest::Error),
    SerdeError(serde_json::Error),
    EnvError(String),
    MethodError(RuxiosErrorValue<T>),
}

impl RuxiosError<serde_json::Value> {
    /// A synthetic error from a plain message: a MethodError with status
    /// 0 whose body is the one-field document {"message": body}.
    pub fn from_string(body: &str) -> (r: RuxiosError<serde_json::Value>)
        ensures
            r matches RuxiosError::MethodError(ev) && ev.status == 0 && ev.value
                == string_object_of("message"@, body@),
    {
        RuxiosError::MethodError(
            RuxiosErrorValue { status: 0, value: string_object("message", body) },
        )
    }

    /// A synthetic error from a ready document: a MethodError with
    /// status 0 carrying `body` itself.
    pub fn from_value(body: serde_json::Value) -> (r: RuxiosError<serde_json::Value>)
        ensures
            r matches RuxiosError::MethodError(ev) && ev.status == 0 && ev.value == body,
    {
        RuxiosError::MethodError(RuxiosErrorValue { status: 0, value: body })
    }
}

/// Narrows a document-typed error to a caller-chosen error-body type:
/// the first three variants pass through unchanged, and a MethodError's
/// body is re-read as a `TErr`, keeping its status. A body that does
/// not fit the chosen shape surfaces as a decode error, exactly as an
/// undecodable error body does.
pub fn narrow_error<TErr: serde::de::DeserializeOwned>(e: RuxiosError<serde_json::Value>) -> (r:
    RuxiosError<TErr>)
    ensures
        e matches RuxiosError::ReqwestError(x) ==> (r matches RuxiosError::ReqwestError(y) && y
            == x),
        e matches RuxiosError::SerdeError(x) ==> (r matches RuxiosError::SerdeError(y) && y == x),
        e matches RuxiosError::EnvError(x) ==> (r matches RuxiosError::EnvError(y) && y == x),
        e matches RuxiosError::MethodError(ev) ==> ((r matches RuxiosError::MethodError(ev2)
            && ev2.status == ev.status) || r is SerdeError),
{
    match e {
        RuxiosError::ReqwestError(x) => RuxiosError::ReqwestError(x),
        RuxiosError::SerdeError(x) => RuxiosError::SerdeError(x),
        RuxiosError::EnvError(x) => RuxiosError::EnvError(x),
        RuxiosError::MethodError(ev) => match from_value_as::<TErr>(ev.value) {
            Ok(value) => RuxiosError::MethodError(RuxiosErrorValue { status: ev.status, value }),
            Err(de) => RuxiosError::SerdeError(de),
        },
    }
}

} // verus!
