//! The two-outcome envelope of a remote call, and how a transport outcome turns
//! into one.
use vstd::prelude::*;

verus! {

/// The status a service answers with when the call succeeded.
pub const STATUS_OK: u16 = 200;

/// Why a remote call did not produce a usable value.
#[derive(Clone, Copy, Debug, PartialEq, Eq, Structural)]
pub enum FailureKind {
    /// The request was not delivered, or no reply came back.
    Transport,
    /// The reply's payload did not have the expected shape.
    Decode,
    /// The service reported an error status.
    Server,
}

/// A structured failure of a remote call.
#[derive(Clone, Debug, PartialEq, Eq)]
pub struct Failure {
    pub kind: FailureKind,
    /// The status the service answered with, where it answered.
    pub status: Option<u16>,
    pub message: String,
}

/// The outcome of a remote call: a typed value, or a structured failure.
#[derive(Clone, Debug, PartialEq, Eq)]
pub enum Reply<T> {
    Successful(T),
    Failed(Failure),
}

/// What the transport reports of one request/reply exchange.
#[derive(Clone, Debug, PartialEq, Eq)]
pub enum Exchange<T> {
    /// Nothing came back; the text says why.
    Undelivered(String),
    /// The service answered with `status`; `payload` is the decoded body, or
    /// `None` where the body could not be decoded as the expected type.
    Answered { status: u16, payload: Option<T>, message: String },
}

impl<T> Reply<T> {
    pub open spec fn spec_is_successful(&self) -> bool {
        self is Successful
    }

    pub open spec fn spec_is_failed(&self) -> bool {
        self is Failed
    }

    /// Whether the call produced a value.
    #[verifier::when_used_as_spec(spec_is_successful)]
    pub fn is_successful(&self) -> (r: bool)
        ensures
            r == (self is Successful),
    {
        match self {
            Reply::Successful(_) => true,
            Reply::Failed(_) => false,
        }
    }

    /// Whether the call failed.
    #[verifier::when_used_as_spec(spec_is_failed)]
    pub fn is_failed(&self) -> (r: bool)
        ensures
            r == (self is Failed),
    {
        match self {
            Reply::Successful(_) => false,
            Reply::Failed(_) => true,
        }
    }

    /// The value of a successful call.
    pub fn success(self) -> (r: Option<T>)
        ensures
            match self {
                Reply::Successful(v) => r == Some(v),
                Reply::Failed(_) => r.is_none(),
            },
    {
        match self {
            Reply::Successful(v) => Some(v),
            Reply::Failed(_) => None,
        }
    }

    /// The failure of a failed call.
    pub fn failure(self) -> (r: Option<Failure>)
        ensures
            match self {
                Reply::Successful(_) => r.is_none(),
                Reply::Failed(f) => r == Some(f),
            },
    {
        match self {
            Reply::Successful(_) => None,
            Reply::Failed(f) => Some(f),
        }
    }
}

/// The reply that an exchange amounts to.
pub open spec fn reply_of<T>(e: Exchange<T>) -> Reply<T> {
    match e {
        Exchange::Undelivered(m) => Reply::Failed(
            Failure { kind: FailureKind::Transport, status: None, message: m },
        ),
        Exchange::Answered { status, payload, message } => if status != STATUS_OK {
            Reply::Failed(Failure { kind: FailureKind::Server, status: Some(status), message })
        } else {
            match payload {
                Some(v) => Reply::Successful(v),
                None => Reply::Failed(
                    Failure { kind: FailureKind::Decode, status: Some(status), message },
                ),
            }
        },
    }
}

/// Turns what the transport reported into a reply: a value only where the
/// service answered with the success status and the body decoded; every other
/// outcome is a failure value, never a fault.
pub fn reply_from_exchange<T>(e: Exchange<T>) -> (r: Reply<T>)
    ensures
        r == reply_of(e),
        r is Successful <==> (e matches Exchange::Answered { status, payload, .. } && status
            == STATUS_OK && payload is Some),
{
    match e {
        Exchange::Undelivered(m) => Reply::Failed(
            Failure { kind: FailureKind::Transport, status: None, message: m },
        ),
        Exchange::Answered { status, payload, message } => if status != STATUS_OK {
            Reply::Failed(Failure { kind: FailureKind::Server, status: Some(status), message })
        } else {
            match payload {
                Some(v) => Reply::Successful(v),
                None => Reply::Failed(
                    Failure { kind: FailureKind::Decode, status: Some(status), message },
                ),
            }
        },
    }
}

/// A reply is never both a success and a failure, and is always one of them.
pub proof fn lemma_reply_duality<T>(r: Reply<T>)
    ensures
        r.is_successful() != r.is_failed(),
{
}

/// An answer whose body does not decode is a failure, whatever its status.
pub proof fn lemma_undecodable_is_failure<T>(status: u16, message: String)
    ensures
        reply_of::<T>(Exchange::Answered { status, payload: None, message }) is Failed,
{
}

} // verus!
