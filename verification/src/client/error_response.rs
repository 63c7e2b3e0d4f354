//! What the management API answers, and how an answer becomes a result.

use vstd::prelude::*;

verus! {

/// The body of an answer that carries no entity: a message, an error
/// text, or both.
#[derive(Debug, Clone, PartialEq, Eq, Default)]
pub struct GenericResponseBody {
    pub message: Option<String>,
    pub error: Option<String>,
}

/// Why a request to the management API failed.
#[derive(Debug)]
pub enum SftpgoError {
    /// The server answered 500.
    InternalServerError(GenericResponseBody),
    /// The server answered 400.
    BadRequest(GenericResponseBody),
    /// The server answered 401: the credentials are not accepted.
    Unauthorized(GenericResponseBody),
    /// The server answered 404.
    NotFound(GenericResponseBody),
    /// The request could not be made, the answer could not be read, or
    /// its status is an error that has no variant of its own.
    ReqwestError(String),
    /// No URL could be built for the endpoint.
    UrlBuildingFailed(String),
}

/// What the body of an answer was decoded to.
#[derive(Debug)]
pub enum Payload<T> {
    /// The entity that a successful answer carries.
    Entity(T),
    /// The generic body that a rejected request is answered with.
    Generic(GenericResponseBody),
    /// The body could not be decoded as asked; the reason.
    Undecodable(String),
}

/// How the body of an answer with a given status is to be decoded.
#[derive(Debug, Clone, Copy, PartialEq, Eq, Structural)]
pub enum PayloadKind {
    /// As the entity that the request asks for.
    Entity,
    /// As a generic body.
    Generic,
    /// Not at all.
    Unread,
}

/// Whether a status is a client or server error.
pub open spec fn is_error_status(status: u16) -> bool {
    400 <= status < 600
}

/// How the body of an answer with status `status` is to be decoded.
pub open spec fn spec_expected_payload(status: u16) -> PayloadKind {
    if !is_error_status(status) {
        PayloadKind::Entity
    } else if status == 401 || status == 400 || status == 500 {
        PayloadKind::Generic
    } else {
        PayloadKind::Unread
    }
}

/// How the body of an answer with status `status` is to be decoded: the
/// entity of an answer that is no error, the generic body of a 400, 401
/// or 500, nothing of any other error.
pub fn expected_payload(status: u16) -> (kind: PayloadKind)
    ensures
        kind == spec_expected_payload(status),
{
    if !(400 <= status && status < 600) {
        PayloadKind::Entity
    } else if status == 401 || status == 400 || status == 500 {
        PayloadKind::Generic
    } else {
        PayloadKind::Unread
    }
}

/// The message of the error for a status that has no variant of its own.
pub open spec fn status_error_text() -> Seq<char> {
    "the server answered with an error status"@
}

/// The message of the error for a body that is not of the expected kind.
pub open spec fn unexpected_payload_text() -> Seq<char> {
    "the body of the answer is not of the expected kind"@
}

/// Whether `r` is the result that an answer stands for.
///
/// An answer that is no error yields its entity. A 401 is
/// `Unauthorized`, a 400 `BadRequest`, a 500 `InternalServerError`, each
/// with the generic body. Every other error status, and every body
/// that could not be decoded or is of another kind than
/// [`expected_payload`] asks for, is a `ReqwestError`.
pub open spec fn is_handled<T>(status: u16, payload: Payload<T>, r: Result<T, SftpgoError>) -> bool {
    match spec_expected_payload(status) {
        PayloadKind::Entity => match payload {
            Payload::Entity(t) => r == Ok::<T, SftpgoError>(t),
            Payload::Generic(_) => r matches Err(SftpgoError::ReqwestError(m)) && m@
                == unexpected_payload_text(),
            Payload::Undecodable(reason) => r matches Err(SftpgoError::ReqwestError(m)) && m@
                == reason@,
        },
        PayloadKind::Generic => match payload {
            Payload::Generic(body) => {
                &&& status == 401 ==> r == Err::<T, SftpgoError>(SftpgoError::Unauthorized(body))
                &&& status == 400 ==> r == Err::<T, SftpgoError>(SftpgoError::BadRequest(body))
                &&& status == 500 ==> r == Err::<T, SftpgoError>(
                    SftpgoError::InternalServerError(body),
                )
            },
            Payload::Entity(_) => r matches Err(SftpgoError::ReqwestError(m)) && m@
                == unexpected_payload_text(),
            Payload::Undecodable(reason) => r matches Err(SftpgoError::ReqwestError(m)) && m@
                == reason@,
        },
        PayloadKind::Unread => r matches Err(SftpgoError::ReqwestError(m)) && m@
            == status_error_text(),
    }
}

/// The result that an answer stands for: see [`is_handled`].
pub fn handle_response<T>(status: u16, payload: Payload<T>) -> (r: Result<T, SftpgoError>)
    ensures
        is_handled(status, payload, r),
{
    match expected_payload(status) {
        PayloadKind::Entity => match payload {
            Payload::Entity(t) => Ok(t),
            Payload::Generic(_) => Err(
                SftpgoError::ReqwestError(
                    "the body of the answer is not of the expected kind".to_owned(),
                ),
            ),
            Payload::Undecodable(reason) => Err(SftpgoError::ReqwestError(reason)),
        },
        PayloadKind::Generic => match payload {
            Payload::Generic(body) => {
                if status == 401 {
                    Err(SftpgoError::Unauthorized(body))
                } else if status == 400 {
                    Err(SftpgoError::BadRequest(body))
                } else {
                    Err(SftpgoError::InternalServerError(body))
                }
            },
            Payload::Entity(_) => Err(
                SftpgoError::ReqwestError(
                    "the body of the answer is not of the expected kind".to_owned(),
                ),
            ),
            Payload::Undecodable(reason) => Err(SftpgoError::ReqwestError(reason)),
        },
        PayloadKind::Unread => Err(
            SftpgoError::ReqwestError("the server answered with an error status".to_owned()),
        ),
    }
}

/// Which attempt of a request an answer belongs to.
#[derive(Debug, Clone, Copy, PartialEq, Eq, Structural)]
pub enum Attempt {
    /// The first attempt, with the token that was at hand.
    First,
    /// The attempt with a token obtained after the first was refused.
    Second,
}

/// What is to be done with the result of an attempt.
#[derive(Debug)]
pub enum Verdict<T> {
    /// The result stands.
    Settled(Result<T, SftpgoError>),
    /// The token is to be dropped and the request tried once more with
    /// a new one.
    Retry,
}

/// The message of the error for a request that was refused twice.
pub open spec fn refused_twice_text() -> Seq<char> {
    "the credentials were refused again after a new token was obtained"@
}

/// What is to be done with the result of an attempt: a first attempt
/// that was answered with 401 is tried once more with a new token; a
/// second attempt that is answered with 401 too is a `ReqwestError`;
/// every other result stands.
pub open spec fn verdict_of<T>(attempt: Attempt, result: Result<T, SftpgoError>, verdict: Verdict<T>) -> bool {
    match (attempt, result) {
        (Attempt::First, Err(SftpgoError::Unauthorized(_))) => verdict is Retry,
        (Attempt::Second, Err(SftpgoError::Unauthorized(_))) => verdict matches Verdict::Settled(
            Err(SftpgoError::ReqwestError(m)),
        ) && m@ == refused_twice_text(),
        _ => verdict == Verdict::Settled(result),
    }
}

/// What is to be done with the result of an attempt: see
/// [`verdict_of`].
pub fn judge<T>(attempt: Attempt, result: Result<T, SftpgoError>) -> (verdict: Verdict<T>)
    ensures
        verdict_of(attempt, result, verdict),
{
    match result {
        Err(SftpgoError::Unauthorized(body)) => match attempt {
            Attempt::First => Verdict::Retry,
            Attempt::Second => Verdict::Settled(
                Err(
                    SftpgoError::ReqwestError(
                        "the credentials were refused again after a new token was obtained".to_owned(),
                    ),
                ),
            ),
        },
        other => Verdict::Settled(other),
    }
}

} // verus!
