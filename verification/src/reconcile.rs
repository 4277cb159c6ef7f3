use vstd::prelude::*;

use crate::model::{EngineError, Project, ProtectedAccessLevelRef};
use crate::probe::RemoteState;

verus! {

// ---------------------------------------------------------------------------
// Outcomes and remote call results.
// ---------------------------------------------------------------------------

/// What one resource's reconciliation came to.
#[derive(Debug)]
pub enum Outcome {
    Created,
    Updated,
    Skipped { reason: String },
    Failed { error: EngineError },
}

/// How the remote system answered one mutation call.
#[derive(Debug)]
pub enum CallResult {
    Success,
    Failure { detail: String },
}

impl CallResult {
    /// An exact copy.
    pub fn duplicate(&self) -> (r: CallResult)
        ensures
            r == *self,
    {
        match self {
            CallResult::Success => CallResult::Success,
            CallResult::Failure { detail } => CallResult::Failure { detail: detail.clone() },
        }
    }
}

/// Whether the resource is being brought into existence or converged.
#[derive(Clone, Copy, Debug, PartialEq, Eq, Structural)]
pub enum Mode {
    Create,
    Update,
}

// ---------------------------------------------------------------------------
// The full-field mutation request.
// ---------------------------------------------------------------------------

/// The request body of a create or update call. Every field of the resolved
/// desired state is always sent: the mutation is a full-state write, not a
/// sparse patch.
#[derive(Debug)]
pub struct MutationRequest {
    pub name: String,
    pub default_branch: String,
    pub default_branch_push_protected_access_level: ProtectedAccessLevelRef,
    pub default_branch_merge_protected_access_level: ProtectedAccessLevelRef,
    pub pages_access_level: crate::model::FeatureAccessPublic,
    pub operations_access_level: crate::model::FeatureAccess,
    pub requirements_access_level: crate::model::FeatureAccessPublic,
    pub analytics_access_level: crate::model::FeatureAccess,
    pub emails_disabled: bool,
    pub container_registry_enabled: bool,
    pub visibility: crate::model::Visibility,
    pub public_builds: bool,
    pub only_allow_merge_if_pipeline_succeeds: bool,
    pub allow_merge_on_skipped_pipeline: bool,
    pub only_allow_merge_if_all_discussions_are_resolved: bool,
    pub merge_method: crate::model::MergeMethod,
    pub squash_option: crate::model::SquashOption,
    pub merge_pipelines_enabled: bool,
    pub merge_trains_enabled: bool,
    pub remove_source_branch_after_merge: bool,
    pub printing_merge_requests_link_enabled: bool,
    pub lfs_enabled: bool,
    pub request_access_enabled: bool,
    pub auto_devops_enabled: bool,
    pub approvals_before_merge: u64,
    pub mirror: bool,
    pub package_enabled: bool,
    pub service_desk_enabled: bool,
    pub issues_enabled: bool,
    pub merge_requests_enabled: bool,
    pub jobs_enabled: bool,
    pub wiki_enabled: bool,
    pub snippets_enabled: bool,
}

/// The one request a given desired state gives rise to: every field taken
/// unchanged from the resolved specification.
pub open spec fn spec_request(p: Project) -> MutationRequest {
    MutationRequest {
        name: p.name,
        default_branch: p.default_branch,
        default_branch_push_protected_access_level: p.default_branch_push_protected_access_level,
        default_branch_merge_protected_access_level: p.default_branch_merge_protected_access_level,
        pages_access_level: p.pages_access_level,
        operations_access_level: p.operations_access_level,
        requirements_access_level: p.requirements_access_level,
        analytics_access_level: p.analytics_access_level,
        emails_disabled: p.emails_disabled,
        container_registry_enabled: p.container_registry_enabled,
        visibility: p.visibility,
        public_builds: p.public_builds,
        only_allow_merge_if_pipeline_succeeds: p.only_allow_merge_if_pipeline_succeeds,
        allow_merge_on_skipped_pipeline: p.allow_merge_on_skipped_pipeline,
        only_allow_merge_if_all_discussions_are_resolved:
            p.only_allow_merge_if_all_discussions_are_resolved,
        merge_method: p.merge_method,
        squash_option: p.squash_option,
        merge_pipelines_enabled: p.merge_pipelines_enabled,
        merge_trains_enabled: p.merge_trains_enabled,
        remove_source_branch_after_merge: p.remove_source_branch_after_merge,
        printing_merge_requests_link_enabled: p.printing_merge_requests_link_enabled,
        lfs_enabled: p.lfs_enabled,
        request_access_enabled: p.request_access_enabled,
        auto_devops_enabled: p.auto_devops_enabled,
        approvals_before_merge: p.approvals_before_merge,
        mirror: p.mirror,
        package_enabled: p.package_enabled,
        service_desk_enabled: p.service_desk_enabled,
        issues_enabled: p.issues_enabled,
        merge_requests_enabled: p.merge_requests_enabled,
        jobs_enabled: p.jobs_enabled,
        wiki_enabled: p.wiki_enabled,
        snippets_enabled: p.snippets_enabled,
    }
}

/// Builds the full-field mutation request for a resolved desired state.
pub fn build_request(p: &Project) -> (r: MutationRequest)
    ensures
        r == spec_request(*p),
{
    MutationRequest {
        name: p.name.clone(),
        default_branch: p.default_branch.clone(),
        default_branch_push_protected_access_level: p.default_branch_push_protected_access_level,
        default_branch_merge_protected_access_level: p.default_branch_merge_protected_access_level,
        pages_access_level: p.pages_access_level,
        operations_access_level: p.operations_access_level,
        requirements_access_level: p.requirements_access_level,
        analytics_access_level: p.analytics_access_level,
        emails_disabled: p.emails_disabled,
        container_registry_enabled: p.container_registry_enabled,
        visibility: p.visibility,
        public_builds: p.public_builds,
        only_allow_merge_if_pipeline_succeeds: p.only_allow_merge_if_pipeline_succeeds,
        allow_merge_on_skipped_pipeline: p.allow_merge_on_skipped_pipeline,
        only_allow_merge_if_all_discussions_are_resolved:
            p.only_allow_merge_if_all_discussions_are_resolved,
        merge_method: p.merge_method,
        squash_option: p.squash_option,
        merge_pipelines_enabled: p.merge_pipelines_enabled,
        merge_trains_enabled: p.merge_trains_enabled,
        remove_source_branch_after_merge: p.remove_source_branch_after_merge,
        printing_merge_requests_link_enabled: p.printing_merge_requests_link_enabled,
        lfs_enabled: p.lfs_enabled,
        request_access_enabled: p.request_access_enabled,
        auto_devops_enabled: p.auto_devops_enabled,
        approvals_before_merge: p.approvals_before_merge,
        mirror: p.mirror,
        package_enabled: p.package_enabled,
        service_desk_enabled: p.service_desk_enabled,
        issues_enabled: p.issues_enabled,
        merge_requests_enabled: p.merge_requests_enabled,
        jobs_enabled: p.jobs_enabled,
        wiki_enabled: p.wiki_enabled,
        snippets_enabled: p.snippets_enabled,
    }
}

// ---------------------------------------------------------------------------
// The reconciliation state machine.
// ---------------------------------------------------------------------------

/// Where one resource's reconciliation stands.
#[derive(Debug)]
pub enum Phase {
    /// The remote state is being looked up.
    Probing,
    /// The create or update mutation is in flight.
    Mutating { mode: Mode },
    /// The default branch's protection rule is being cleared.
    Unprotecting { mode: Mode },
    /// The configured protection levels are being applied.
    Protecting { mode: Mode },
    /// Reconciliation ended with this outcome.
    Finished { outcome: Outcome },
}

/// What the remote system answered to the call the current phase was waiting
/// on.
#[derive(Debug)]
pub enum Event {
    Probed { state: RemoteState },
    Mutated { result: CallResult },
    Unprotected { result: CallResult },
    Protected { result: CallResult },
}

/// An event answers the call its phase issued.
pub open spec fn event_fits(phase: Phase, event: Event) -> bool {
    match (phase, event) {
        (Phase::Probing, Event::Probed { .. }) => true,
        (Phase::Mutating { .. }, Event::Mutated { .. }) => true,
        (Phase::Unprotecting { .. }, Event::Unprotected { .. }) => true,
        (Phase::Protecting { .. }, Event::Protected { .. }) => true,
        _ => false,
    }
}

/// The transition table of the engine.
///
/// A found resource is updated, an absent one is created, and a probe failure
/// ends the run before any mutation. A failed mutation ends the run. A failed
/// unprotect is deliberately non-fatal: the rule may simply have been absent
/// already, and convergence must not be blocked by that, so the protect step
/// is attempted either way. The protect step's result decides the final
/// outcome.
pub open spec fn spec_step(phase: Phase, event: Event) -> Phase {
    match (phase, event) {
        (Phase::Probing, Event::Probed { state }) => match state {
            RemoteState::Found { .. } => Phase::Mutating { mode: Mode::Update },
            RemoteState::NotFound => Phase::Mutating { mode: Mode::Create },
            RemoteState::ProbeError { detail } => Phase::Finished {
                outcome: Outcome::Failed { error: EngineError::ProbeError { detail } },
            },
        },
        (Phase::Mutating { mode }, Event::Mutated { result }) => match result {
            CallResult::Success => Phase::Unprotecting { mode },
            CallResult::Failure { detail } => Phase::Finished {
                outcome: Outcome::Failed { error: EngineError::MutationError { detail } },
            },
        },
        (Phase::Unprotecting { mode }, Event::Unprotected { .. }) => Phase::Protecting { mode },
        (Phase::Protecting { mode }, Event::Protected { result }) => match result {
            CallResult::Success => Phase::Finished {
                outcome: match mode {
                    Mode::Create => Outcome::Created,
                    Mode::Update => Outcome::Updated,
                },
            },
            CallResult::Failure { detail } => Phase::Finished {
                outcome: Outcome::Failed { error: EngineError::MutationError { detail } },
            },
        },
        (other, _) => other,
    }
}

/// Advances the machine by one delivered event, exactly as the transition
/// table says.
pub fn step(phase: Phase, event: Event) -> (r: Phase)
    requires
        event_fits(phase, event),
    ensures
        r == spec_step(phase, event),
{
    match (phase, event) {
        (Phase::Probing, Event::Probed { state }) => match state {
            RemoteState::Found { .. } => Phase::Mutating { mode: Mode::Update },
            RemoteState::NotFound => Phase::Mutating { mode: Mode::Create },
            RemoteState::ProbeError { detail } => Phase::Finished {
                outcome: Outcome::Failed { error: EngineError::ProbeError { detail } },
            },
        },
        (Phase::Mutating { mode }, Event::Mutated { result }) => match result {
            CallResult::Success => Phase::Unprotecting { mode },
            CallResult::Failure { detail } => Phase::Finished {
                outcome: Outcome::Failed { error: EngineError::MutationError { detail } },
            },
        },
        (Phase::Unprotecting { mode }, Event::Unprotected { .. }) => Phase::Protecting { mode },
        (Phase::Protecting { mode }, Event::Protected { result }) => match result {
            CallResult::Success => Phase::Finished {
                outcome: match mode {
                    Mode::Create => Outcome::Created,
                    Mode::Update => Outcome::Updated,
                },
            },
            CallResult::Failure { detail } => Phase::Finished {
                outcome: Outcome::Failed { error: EngineError::MutationError { detail } },
            },
        },
        (other, _) => other,
    }
}

// ---------------------------------------------------------------------------
// The calls each phase asks the driver to make.
// ---------------------------------------------------------------------------

/// One remote call the driver must perform on the engine's behalf.
#[derive(Debug)]
pub enum Action {
    /// Look the resource up by name.
    Probe { name: String },
    /// Create the resource with the full-field request.
    Create { request: MutationRequest },
    /// Update the resource with the full-field request.
    Update { request: MutationRequest },
    /// Clear any protection rule on the configured default branch.
    Unprotect { project: String, branch: String },
    /// Apply the configured protection levels to the default branch.
    Protect {
        project: String,
        branch: String,
        push_level: ProtectedAccessLevelRef,
        merge_level: ProtectedAccessLevelRef,
    },
}

/// The call a phase is waiting on, or nothing once it finished.
pub open spec fn spec_next_action(p: Project, phase: Phase) -> Option<Action> {
    match phase {
        Phase::Probing => Some(Action::Probe { name: p.name }),
        Phase::Mutating { mode } => match mode {
            Mode::Create => Some(Action::Create { request: spec_request(p) }),
            Mode::Update => Some(Action::Update { request: spec_request(p) }),
        },
        Phase::Unprotecting { .. } => Some(
            Action::Unprotect { project: p.name, branch: p.default_branch },
        ),
        Phase::Protecting { .. } => Some(
            Action::Protect {
                project: p.name,
                branch: p.default_branch,
                push_level: p.default_branch_push_protected_access_level,
                merge_level: p.default_branch_merge_protected_access_level,
            },
        ),
        Phase::Finished { .. } => None,
    }
}

/// The remote call the driver must perform next for this desired state, or
/// `None` once the machine finished.
pub fn next_action(p: &Project, phase: &Phase) -> (r: Option<Action>)
    ensures
        r == spec_next_action(*p, *phase),
{
    match phase {
        Phase::Probing => Some(Action::Probe { name: p.name.clone() }),
        Phase::Mutating { mode } => match mode {
            Mode::Create => Some(Action::Create { request: build_request(p) }),
            Mode::Update => Some(Action::Update { request: build_request(p) }),
        },
        Phase::Unprotecting { .. } => Some(
            Action::Unprotect { project: p.name.clone(), branch: p.default_branch.clone() },
        ),
        Phase::Protecting { .. } => Some(
            Action::Protect {
                project: p.name.clone(),
                branch: p.default_branch.clone(),
                push_level: p.default_branch_push_protected_access_level,
                merge_level: p.default_branch_merge_protected_access_level,
            },
        ),
        Phase::Finished { .. } => None,
    }
}

// ---------------------------------------------------------------------------
// A whole reconciliation run against a fixed remote behavior.
// ---------------------------------------------------------------------------

/// How the remote system would answer each call of one reconciliation pass,
/// fixed up front. The engine makes its calls in a set order, so one answer
/// per call kind describes a whole pass.
#[derive(Debug)]
pub struct RemoteBehavior {
    pub probe: RemoteState,
    pub mutation: CallResult,
    pub unprotect: CallResult,
    pub protect: CallResult,
}

impl RemoteBehavior {
    /// An exact copy.
    pub fn duplicate(&self) -> (r: RemoteBehavior)
        ensures
            r == *self,
    {
        RemoteBehavior {
            probe: self.probe.duplicate(),
            mutation: self.mutation.duplicate(),
            unprotect: self.unprotect.duplicate(),
            protect: self.protect.duplicate(),
        }
    }
}

/// The outcome one pass comes to against a given remote behavior. A probe
/// failure fails the resource before any mutation; a failed mutation fails
/// it; the unprotect answer is deliberately ignored; the protect answer
/// decides between success and failure, and success reports `Created` exactly
/// when the probe had found nothing.
pub open spec fn reconcile_outcome(b: RemoteBehavior) -> Outcome {
    match b.probe {
        RemoteState::ProbeError { detail } => Outcome::Failed {
            error: EngineError::ProbeError { detail },
        },
        _ => match b.mutation {
            CallResult::Failure { detail } => Outcome::Failed {
                error: EngineError::MutationError { detail },
            },
            CallResult::Success => match b.protect {
                CallResult::Failure { detail } => Outcome::Failed {
                    error: EngineError::MutationError { detail },
                },
                CallResult::Success => if b.probe is Found {
                    Outcome::Updated
                } else {
                    Outcome::Created
                },
            },
        },
    }
}

/// The exact sequence of remote calls one pass makes against a given remote
/// behavior: the probe always; then, unless the probe failed, the one
/// full-field mutation; then, only if that mutation succeeded, the unprotect
/// and the protect on the configured default branch, in that order.
pub open spec fn spec_trace(p: Project, b: RemoteBehavior) -> Seq<Action> {
    let probed = seq![Action::Probe { name: p.name }];
    if b.probe is ProbeError {
        probed
    } else {
        let mutated = probed.push(
            if b.probe is Found {
                Action::Update { request: spec_request(p) }
            } else {
                Action::Create { request: spec_request(p) }
            },
        );
        if b.mutation is Failure {
            mutated
        } else {
            mutated.push(
                Action::Unprotect { project: p.name, branch: p.default_branch },
            ).push(
                Action::Protect {
                    project: p.name,
                    branch: p.default_branch,
                    push_level: p.default_branch_push_protected_access_level,
                    merge_level: p.default_branch_merge_protected_access_level,
                },
            )
        }
    }
}

/// Reconciles one resource against a fixed remote behavior, driving the state
/// machine through its four sequential steps. Returns the outcome and the
/// exact sequence of calls made.
pub fn run_reconcile(p: &Project, b: RemoteBehavior) -> (r: (Outcome, Vec<Action>))
    ensures
        r.0 == reconcile_outcome(b),
        r.1@ == spec_trace(*p, b),
{
    let RemoteBehavior { probe, mutation, unprotect, protect } = b;
    let mut trace: Vec<Action> = Vec::new();
    trace.push(Action::Probe { name: p.name.clone() });
    let mode = match step(Phase::Probing, Event::Probed { state: probe }) {
        Phase::Finished { outcome } => {
            proof {
                assert(trace@ =~= spec_trace(*p, b));
            }
            return (outcome, trace);
        },
        Phase::Mutating { mode } => mode,
        _ => unreached(),
    };
    match mode {
        Mode::Create => trace.push(Action::Create { request: build_request(p) }),
        Mode::Update => trace.push(Action::Update { request: build_request(p) }),
    }
    match step(Phase::Mutating { mode }, Event::Mutated { result: mutation }) {
        Phase::Finished { outcome } => {
            proof {
                assert(trace@ =~= spec_trace(*p, b));
            }
            return (outcome, trace);
        },
        Phase::Unprotecting { .. } => {},
        _ => unreached(),
    }
    trace.push(Action::Unprotect { project: p.name.clone(), branch: p.default_branch.clone() });
    match step(Phase::Unprotecting { mode }, Event::Unprotected { result: unprotect }) {
        Phase::Protecting { .. } => {},
        _ => unreached(),
    }
    trace.push(
        Action::Protect {
            project: p.name.clone(),
            branch: p.default_branch.clone(),
            push_level: p.default_branch_push_protected_access_level,
            merge_level: p.default_branch_merge_protected_access_level,
        },
    );
    match step(Phase::Protecting { mode }, Event::Protected { result: protect }) {
        Phase::Finished { outcome } => {
            proof {
                assert(trace@ =~= spec_trace(*p, b));
            }
            (outcome, trace)
        },
        _ => unreached(),
    }
}

// ---------------------------------------------------------------------------
// Ordering and idempotence of a pass.
// ---------------------------------------------------------------------------

/// Every unprotect call in a trace comes before every protect call.
pub open spec fn unprotect_before_protect(t: Seq<Action>) -> bool {
    forall|i: int, j: int|
        0 <= i < t.len() && 0 <= j < t.len() && #[trigger] t[i] is Unprotect && #[trigger] t[j]
            is Protect ==> i < j
}

/// Every create or update call in a trace comes before every unprotect or
/// protect call.
pub open spec fn mutation_before_protection(t: Seq<Action>) -> bool {
    forall|i: int, j: int|
        0 <= i < t.len() && 0 <= j < t.len() && (#[trigger] t[i] is Create || t[i] is Update) && (
        #[trigger] t[j] is Unprotect || t[j] is Protect) ==> i < j
}

/// Branch-protection steps run in unprotect-then-protect order, only after a
/// create or update, and only when that mutation succeeded; and the two
/// protection steps are never separated: one is made exactly when the other
/// is.
pub proof fn lemma_protection_order(p: Project, b: RemoteBehavior)
    ensures
        unprotect_before_protect(spec_trace(p, b)),
        mutation_before_protection(spec_trace(p, b)),
        (exists|i: int|
            0 <= i < spec_trace(p, b).len() && #[trigger] spec_trace(p, b)[i] is Unprotect) ==> !(
        b.probe is ProbeError) && b.mutation is Success,
        (exists|i: int|
            0 <= i < spec_trace(p, b).len() && #[trigger] spec_trace(p, b)[i] is Protect) <==> (
        exists|i: int|
            0 <= i < spec_trace(p, b).len() && #[trigger] spec_trace(p, b)[i] is Unprotect),
{
    let t = spec_trace(p, b);
    if b.probe is ProbeError {
        assert(t.len() == 1);
    } else if b.mutation is Failure {
        assert(t.len() == 2);
    } else {
        assert(t.len() == 4);
        assert(t[2] is Unprotect);
        assert(t[3] is Protect);
    }
}

/// A probe failure fails the resource before any mutation is attempted: the
/// only call made is the probe itself, and the outcome carries the probe's
/// detail verbatim.
pub proof fn lemma_probe_error_stops_the_pass(p: Project, b: RemoteBehavior)
    requires
        (b.probe is ProbeError),
    ensures
        spec_trace(p, b) =~= seq![Action::Probe { name: p.name }],
        (reconcile_outcome(b) matches Outcome::Failed { error } && error
            matches EngineError::ProbeError { detail } && b.probe matches RemoteState::ProbeError {
            detail: d,
        } && detail == d),
{
}

/// A probe that finds the resource never leads to a create: once a resource
/// exists, re-running the engine against the same desired state updates it,
/// so a second pass can never report `Created` again; and `Created` is only
/// ever reported when the probe had found nothing.
pub proof fn lemma_idempotent(p: Project, b: RemoteBehavior)
    ensures
        (reconcile_outcome(b) is Created) ==> (b.probe is NotFound),
        (b.probe is Found) ==> !(reconcile_outcome(b) is Created),
        (b.probe is Found) && (b.mutation is Success) && (b.protect is Success)
            ==> reconcile_outcome(b) == Outcome::Updated,
        (b.probe is Found) ==> forall|i: int|
            0 <= i < spec_trace(p, b).len() ==> !(#[trigger] spec_trace(p, b)[i] is Create),
{
    let t = spec_trace(p, b);
    if b.probe is Found {
        if b.mutation is Failure {
            assert(t.len() == 2);
            assert(t[1] is Update);
        } else {
            assert(t.len() == 4);
            assert(t[1] is Update);
        }
    }
}

} // verus!
