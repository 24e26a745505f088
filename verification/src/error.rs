//! The errors of the paste store and what each one answers to a client.

use bb8::RunError;
use redis::RedisError;
use std::string::FromUtf8Error;
use vstd::prelude::*;
use vstd::std_specs::convert::FromSpecImpl;
use vstd::string::StringExecFns;

verus! {

/// The error of the `redis` crate; it is carried, never inspected.
#[verifier::external_type_specification]
#[verifier::external_body]
pub struct ExRedisError(RedisError);

/// The error of a `bb8` pool, with its two variants: an error of the
/// connection manager, or no connection within the pool's timeout.
#[verifier::external_type_specification]
#[verifier::reject_recursive_types(E)]
pub struct ExRunError<E>(RunError<E>);

/// Why an operation of the paste store failed.
#[derive(Debug)]
pub enum PastaError {
    /// No paste is stored under the key.
    NotFound(String),
    /// The backing store reported an error.
    RedisError(RedisError),
    /// The pool supplied no connection within its timeout.
    ConnectionTimeout,
    /// The stored bytes are not text.
    PasteDecodeError(FromUtf8Error),
}

/// What a `PastaError` is, up to the detail of a decoding failure.
pub enum PastaErrorView {
    NotFound(Seq<char>),
    RedisError(RedisError),
    ConnectionTimeout,
    PasteDecodeError,
}

impl View for PastaError {
    type V = PastaErrorView;

    open spec fn view(&self) -> PastaErrorView {
        match *self {
            PastaError::NotFound(key) => PastaErrorView::NotFound(key@),
            PastaError::RedisError(e) => PastaErrorView::RedisError(e),
            PastaError::ConnectionTimeout => PastaErrorView::ConnectionTimeout,
            PastaError::PasteDecodeError(_) => PastaErrorView::PasteDecodeError,
        }
    }
}

/// What is sent back to the client: a status code and a body.
#[derive(Debug, Clone, PartialEq, Eq)]
pub struct Response {
    pub status: u16,
    pub body: String,
}

impl PastaErrorView {
    /// The description of the error.
    pub open spec fn message(self) -> Seq<char> {
        match self {
            PastaErrorView::NotFound(key) => "paste not found: "@ + key,
            PastaErrorView::RedisError(_) => "error communicating with redis"@,
            PastaErrorView::ConnectionTimeout => "connection timeout"@,
            PastaErrorView::PasteDecodeError => "string decode error"@,
        }
    }

    /// The status code that answers the error.
    pub open spec fn status(self) -> u16 {
        match self {
            PastaErrorView::NotFound(_) => 404,
            PastaErrorView::RedisError(_) => 500,
            PastaErrorView::ConnectionTimeout => 500,
            PastaErrorView::PasteDecodeError => 400,
        }
    }

    /// The body that answers the error: it names the missing key, and is
    /// empty for every other error.
    pub open spec fn body(self) -> Seq<char> {
        match self {
            PastaErrorView::NotFound(key) => "not found: "@ + key,
            _ => Seq::empty(),
        }
    }
}

impl PastaError {
    /// The description of the error.
    pub fn message(&self) -> (text: String)
        ensures
            text@ == self@.message(),
    {
        match self {
            PastaError::NotFound(key) => String::from_str("paste not found: ").concat(
                key.as_str(),
            ),
            PastaError::RedisError(_) => String::from_str("error communicating with redis"),
            PastaError::ConnectionTimeout => String::from_str("connection timeout"),
            PastaError::PasteDecodeError(_) => String::from_str("string decode error"),
        }
    }

    /// The response that answers the error. Only a missing paste has a
    /// body, which names the key that was asked for.
    pub fn into_response(self) -> (response: Response)
        ensures
            response.status == self@.status(),
            response.body@ == self@.body(),
    {
        match self {
            PastaError::NotFound(key) => Response {
                status: 404,
                body: String::from_str("not found: ").concat(key.as_str()),
            },
            PastaError::RedisError(_) => Response { status: 500, body: String::new() },
            PastaError::ConnectionTimeout => Response { status: 500, body: String::new() },
            PastaError::PasteDecodeError(_) => Response { status: 400, body: String::new() },
        }
    }
}

impl From<RunError<RedisError>> for PastaError {
    /// An error of the connection manager is an error of the store; a pool
    /// that timed out is a connection timeout.
    fn from(e: RunError<RedisError>) -> (error: PastaError) {
        match e {
            RunError::User(e) => PastaError::RedisError(e),
            RunError::TimedOut => PastaError::ConnectionTimeout,
        }
    }
}

impl FromSpecImpl<RunError<RedisError>> for PastaError {
    open spec fn obeys_from_spec() -> bool {
        true
    }

    open spec fn from_spec(e: RunError<RedisError>) -> PastaError {
        match e {
            RunError::User(e) => PastaError::RedisError(e),
            RunError::TimedOut => PastaError::ConnectionTimeout,
        }
    }
}

impl From<RedisError> for PastaError {
    fn from(e: RedisError) -> (error: PastaError) {
        PastaError::RedisError(e)
    }
}

impl FromSpecImpl<RedisError> for PastaError {
    open spec fn obeys_from_spec() -> bool {
        true
    }

    open spec fn from_spec(e: RedisError) -> PastaError {
        PastaError::RedisError(e)
    }
}

impl From<FromUtf8Error> for PastaError {
    fn from(e: FromUtf8Error) -> (error: PastaError) {
        PastaError::PasteDecodeError(e)
    }
}

impl FromSpecImpl<FromUtf8Error> for PastaError {
    open spec fn obeys_from_spec() -> bool {
        true
    }

    open spec fn from_spec(e: FromUtf8Error) -> PastaError {
        PastaError::PasteDecodeError(e)
    }
}

} // verus!
