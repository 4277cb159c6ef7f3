use vstd::prelude::*;

use crate::model::str_eq;

verus! {

/// The remote system's current knowledge of one resource.
#[derive(Debug)]
pub enum RemoteState {
    /// The resource exists; its remote identifier is kept for reporting.
    Found { id: u64 },
    /// The remote system answered with its exact not-found signal.
    NotFound,
    /// The lookup failed for any other reason; never conflated with NotFound.
    ProbeError { detail: String },
}

/// A remote lookup answer as the transport hands it over: either the resource,
/// or an error message from the remote API, or a failure of another shape
/// (network, auth, malformed response).
#[derive(Debug)]
pub enum RemoteAnswer {
    Resource { id: u64 },
    ApiMessage { msg: String },
    OtherFailure { detail: String },
}

/// The one message by which the remote system signals that a project does
/// not exist.
pub open spec fn spec_not_found_signal() -> Seq<char> {
    "404 Project Not Found"@
}

/// What classification owes: the answer maps to `NotFound` exactly when it is
/// an API message equal to the not-found signal; a resource maps to `Found`;
/// every other failure shape maps to `ProbeError`.
pub open spec fn spec_classify(answer: RemoteAnswer) -> RemoteState {
    match answer {
        RemoteAnswer::Resource { id } => RemoteState::Found { id },
        RemoteAnswer::ApiMessage { msg } => if msg@ == spec_not_found_signal() {
            RemoteState::NotFound
        } else {
            RemoteState::ProbeError { detail: msg }
        },
        RemoteAnswer::OtherFailure { detail } => RemoteState::ProbeError { detail },
    }
}

/// Classifies a remote lookup answer, so that a transient failure can never
/// be mistaken for an absent resource.
pub fn classify(answer: RemoteAnswer) -> (r: RemoteState)
    ensures
        r == spec_classify(answer),
        (r is NotFound) <==> (answer matches RemoteAnswer::ApiMessage { msg } && msg@
            == spec_not_found_signal()),
{
    match answer {
        RemoteAnswer::Resource { id } => RemoteState::Found { id },
        RemoteAnswer::ApiMessage { msg } => {
            if str_eq(msg.as_str(), "404 Project Not Found") {
                RemoteState::NotFound
            } else {
                RemoteState::ProbeError { detail: msg }
            }
        },
        RemoteAnswer::OtherFailure { detail } => RemoteState::ProbeError { detail },
    }
}

impl RemoteState {
    /// An exact copy, so that one probe answer can drive both the decision
    /// and the report.
    pub fn duplicate(&self) -> (r: RemoteState)
        ensures
            r == *self,
    {
        match self {
            RemoteState::Found { id } => RemoteState::Found { id: *id },
            RemoteState::NotFound => RemoteState::NotFound,
            RemoteState::ProbeError { detail } => RemoteState::ProbeError {
                detail: detail.clone(),
            },
        }
    }
}

} // verus!
