//! Message shapes exchanged with the peer, and the mapping from a handler's
//! apply outcome to the process response that is sent back.
//!
//! The wire encoding of these shapes is owned by the transport layer; this
//! module fixes their content.

use vstd::prelude::*;

use crate::handler::ApplyError;

verus! {

/// One registration request: announces to the peer that this processor
/// serves `family` at `version` over the given namespaces.
pub struct RegisterRequest {
    pub family: String,
    pub version: String,
    pub namespaces: Vec<String>,
}

/// Mathematical image of a [`RegisterRequest`].
#[verifier::ext_equal]
pub struct RegisterRequestView {
    pub family: Seq<char>,
    pub version: Seq<char>,
    pub namespaces: Seq<Seq<char>>,
}

impl View for RegisterRequest {
    type V = RegisterRequestView;

    open spec fn view(&self) -> RegisterRequestView {
        RegisterRequestView {
            family: self.family@,
            version: self.version@,
            namespaces: self.namespaces.deep_view(),
        }
    }
}

impl DeepView for RegisterRequest {
    type V = RegisterRequestView;

    open spec fn deep_view(&self) -> RegisterRequestView {
        self.view()
    }
}

/// A decoded process request: the id of the execution context the handler
/// works in, and the opaque transaction payload.
pub struct ProcessRequest {
    pub context_id: String,
    pub payload: Vec<u8>,
}

/// Mathematical image of a [`ProcessRequest`].
#[verifier::ext_equal]
pub struct ProcessRequestView {
    pub context_id: Seq<char>,
    pub payload: Seq<u8>,
}

impl View for ProcessRequest {
    type V = ProcessRequestView;

    open spec fn view(&self) -> ProcessRequestView {
        ProcessRequestView { context_id: self.context_id@, payload: self.payload@ }
    }
}

/// Status carried by a process response.
#[derive(Clone, Copy, PartialEq, Eq, Structural, Debug)]
pub enum ResponseStatus {
    Okay,
    InvalidTransaction,
    InternalError,
}

/// Reply payload produced for one inbound envelope.
pub struct ProcessResponse {
    pub status: ResponseStatus,
    pub message: Option<String>,
}

/// Mathematical image of a [`ProcessResponse`].
#[verifier::ext_equal]
pub struct ProcessResponseView {
    pub status: ResponseStatus,
    pub message: Option<Seq<char>>,
}

impl View for ProcessResponse {
    type V = ProcessResponseView;

    open spec fn view(&self) -> ProcessResponseView {
        ProcessResponseView {
            status: self.status,
            message: match self.message {
                Option::Some(m) => Option::Some(m@),
                Option::None => Option::None,
            },
        }
    }
}

/// The response owed for a given apply outcome: success maps to `Okay` with
/// no message, an invalid transaction keeps its message verbatim under
/// `InvalidTransaction`, and any other failure carries its description under
/// `InternalError`.
pub open spec fn response_for_apply_spec(outcome: Result<(), ApplyError>) -> ProcessResponseView {
    match outcome {
        Result::Ok(_) => ProcessResponseView {
            status: ResponseStatus::Okay,
            message: Option::None,
        },
        Result::Err(ApplyError::InvalidTransaction(m)) => ProcessResponseView {
            status: ResponseStatus::InvalidTransaction,
            message: Option::Some(m@),
        },
        Result::Err(ApplyError::InternalError(d)) => ProcessResponseView {
            status: ResponseStatus::InternalError,
            message: Option::Some(d@),
        },
    }
}

/// Builds the process response for an apply outcome.
pub fn response_for_apply(outcome: &Result<(), ApplyError>) -> (r: ProcessResponse)
    ensures
        r@ == response_for_apply_spec(*outcome),
{
    match outcome {
        Result::Ok(_) => ProcessResponse {
            status: ResponseStatus::Okay,
            message: Option::None,
        },
        Result::Err(ApplyError::InvalidTransaction(m)) => ProcessResponse {
            status: ResponseStatus::InvalidTransaction,
            message: Option::Some(m.clone()),
        },
        Result::Err(ApplyError::InternalError(d)) => ProcessResponse {
            status: ResponseStatus::InternalError,
            message: Option::Some(d.clone()),
        },
    }
}

/// The response sent back when an envelope carries a message type this
/// processor does not serve.
pub open spec fn unsupported_response_spec() -> ProcessResponseView {
    ProcessResponseView {
        status: ResponseStatus::InternalError,
        message: Option::Some("not implemented..."@),
    }
}

/// Builds the response for an envelope of an unsupported message type.
pub fn unsupported_response() -> (r: ProcessResponse)
    ensures
        r@ == unsupported_response_spec(),
{
    let r = ProcessResponse {
        status: ResponseStatus::InternalError,
        message: Option::Some(String::from_str("not implemented...")),
    };
    proof {
        assert(r@ =~= unsupported_response_spec());
    }
    r
}

/// The response sent back when no registered handler serves a process
/// request's declared family and version.
pub open spec fn no_handler_response_spec() -> ProcessResponseView {
    ProcessResponseView {
        status: ResponseStatus::InternalError,
        message: Option::Some("no handler matches this family and version"@),
    }
}

/// Builds the response for a process request that no handler serves.
pub fn no_handler_response() -> (r: ProcessResponse)
    ensures
        r@ == no_handler_response_spec(),
{
    let r = ProcessResponse {
        status: ResponseStatus::InternalError,
        message: Option::Some(String::from_str("no handler matches this family and version")),
    };
    proof {
        assert(r@ =~= no_handler_response_spec());
    }
    r
}

/// One reply owed to the peer: a response together with the correlation id
/// of the envelope it answers.
pub struct Reply {
    pub correlation_id: String,
    pub response: ProcessResponse,
}

/// Builds the single reply owed for a well-formed process request: the
/// response for the handler's outcome, under the request's own correlation
/// id.
pub fn reply_for_request(correlation_id: String, outcome: &Result<(), ApplyError>) -> (r: Reply)
    ensures
        r.correlation_id == correlation_id,
        r.response@ == response_for_apply_spec(*outcome),
{
    Reply { correlation_id, response: response_for_apply(outcome) }
}

/// Builds the single reply owed for an envelope of an unsupported message
/// type, under that envelope's own correlation id.
pub fn reply_for_unsupported(correlation_id: String) -> (r: Reply)
    ensures
        r.correlation_id == correlation_id,
        r.response@ == unsupported_response_spec(),
{
    Reply { correlation_id, response: unsupported_response() }
}

/// Builds the single reply owed for a process request that no registered
/// handler serves, under that request's own correlation id.
pub fn reply_for_no_handler(correlation_id: String) -> (r: Reply)
    ensures
        r.correlation_id == correlation_id,
        r.response@ == no_handler_response_spec(),
{
    Reply { correlation_id, response: no_handler_response() }
}

} // verus!
