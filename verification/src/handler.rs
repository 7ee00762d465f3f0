//! Capability description of a transaction-family handler and the outcome
//! type its apply operation reports.
//!
//! A handler's business logic runs outside this library; what the dispatch
//! core needs is the handler's registration data (family name, supported
//! versions, namespaces) and, per request, the outcome of its apply call.

use vstd::prelude::*;

verus! {

/// The failure outcomes an apply operation can report.
pub enum ApplyError {
    /// The transaction itself is invalid; the message explains why.
    InvalidTransaction(String),
    /// The handler failed for a reason unrelated to the transaction.
    InternalError(String),
}

/// Mathematical image of an [`ApplyError`].
#[verifier::ext_equal]
pub enum ApplyErrorView {
    InvalidTransaction(Seq<char>),
    InternalError(Seq<char>),
}

impl View for ApplyError {
    type V = ApplyErrorView;

    open spec fn view(&self) -> ApplyErrorView {
        match self {
            ApplyError::InvalidTransaction(m) => ApplyErrorView::InvalidTransaction(m@),
            ApplyError::InternalError(d) => ApplyErrorView::InternalError(d@),
        }
    }
}

/// Registration data of one handler: the transaction family it implements,
/// the versions of that family it supports, and the namespaces it touches.
pub struct HandlerInfo {
    pub family_name: String,
    pub family_versions: Vec<String>,
    pub namespaces: Vec<String>,
}

/// Mathematical image of a [`HandlerInfo`].
#[verifier::ext_equal]
pub struct HandlerInfoView {
    pub family_name: Seq<char>,
    pub family_versions: Seq<Seq<char>>,
    pub namespaces: Seq<Seq<char>>,
}

impl View for HandlerInfo {
    type V = HandlerInfoView;

    open spec fn view(&self) -> HandlerInfoView {
        HandlerInfoView {
            family_name: self.family_name@,
            family_versions: self.family_versions.deep_view(),
            namespaces: self.namespaces.deep_view(),
        }
    }
}

impl DeepView for HandlerInfo {
    type V = HandlerInfoView;

    open spec fn deep_view(&self) -> HandlerInfoView {
        self.view()
    }
}

} // verus!
