//! Header sources and client identity headers.

pub mod dynamic;
pub mod identity;
pub mod pipeline;

use vstd::prelude::*;

pub use dynamic::{DynamicHeaderContext, DynamicHeaderPolicy, DynamicResponseFormat};
pub use identity::{ClientIdentity, ClientIdentityFragment};
pub use pipeline::{
    HeaderLayer, HeaderOperation, HeaderPipeline, HeaderPolicy, ResolvedHeaders,
    SensitiveHeaderValue,
};

verus! {

/// Header source in ascending priority order.
#[derive(Clone, Copy, Debug, PartialEq, Eq, PartialOrd, Ord, Structural)]
pub enum HeaderSource {
    /// HTTP transport safety defaults.
    Transport,
    /// Protocol-required headers.
    Protocol,
    /// Provider profile defaults.
    Provider,
    /// SDK or configured client identity.
    ClientIdentity,
    /// Model-specific override.
    Model,
    /// Value-free request-fact policy generated for one attempt.
    DynamicPolicy,
    /// Per-request non-sensitive override.
    Request,
    /// Authentication, applied last.
    Auth,
}

/// The priority rank of a header source, lowest first.
pub open spec fn source_rank(source: HeaderSource) -> int {
    match source {
        HeaderSource::Transport => 0,
        HeaderSource::Protocol => 1,
        HeaderSource::Provider => 2,
        HeaderSource::ClientIdentity => 3,
        HeaderSource::Model => 4,
        HeaderSource::DynamicPolicy => 5,
        HeaderSource::Request => 6,
        HeaderSource::Auth => 7,
    }
}

impl HeaderSource {
    /// The priority rank of the source, lowest first.
    pub fn rank(self) -> (r: u8)
        ensures
            r == source_rank(self),
    {
        match self {
            HeaderSource::Transport => 0,
            HeaderSource::Protocol => 1,
            HeaderSource::Provider => 2,
            HeaderSource::ClientIdentity => 3,
            HeaderSource::Model => 4,
            HeaderSource::DynamicPolicy => 5,
            HeaderSource::Request => 6,
            HeaderSource::Auth => 7,
        }
    }
}

} // verus!
