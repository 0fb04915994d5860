//! Deciding between create and update, and assembling the document that is
//! submitted to the destination.

use crate::document::{unknown_fields, Dashboard, DashboardModel};
use crate::text::{decimal, decimal_text};
use vstd::prelude::*;

verus! {

/// What a submission is meant to do on the destination.
#[derive(Debug, Clone, Copy, PartialEq, Eq, Structural)]
pub enum Decision {
    /// The destination holds no dashboard with the stable identifier.
    Create,
    /// The destination holds one, and the submission becomes its next revision.
    Update,
}

/// The outcome of reconciliation: the decision and the document to submit.
#[derive(Debug, Clone, PartialEq)]
pub struct Plan {
    pub decision: Decision,
    pub document: Dashboard,
}

/// The decision that the state of the destination calls for.
pub open spec fn decision_for(existing: Option<DashboardModel>) -> Decision {
    match existing {
        Some(_) => Decision::Update,
        None => Decision::Create,
    }
}

/// The document to submit: the source with the identity and version that the
/// destination has for it, or with none and version 0 where it has none.
pub open spec fn reconciled(
    source: DashboardModel,
    existing: Option<DashboardModel>,
) -> DashboardModel {
    match existing {
        Some(held) => DashboardModel {
            id: held.id,
            uid: source.uid,
            version: held.version,
            panels: source.panels,
            rest: source.rest,
        },
        None => DashboardModel {
            id: None,
            uid: source.uid,
            version: 0,
            panels: source.panels,
            rest: source.rest,
        },
    }
}

/// The model of a dashboard that may be there.
pub open spec fn model_of(existing: Option<&Dashboard>) -> Option<DashboardModel> {
    match existing {
        Some(held) => Some(held@),
        None => None,
    }
}

/// Reconciles `source` with what the destination holds under the same stable
/// identifier. The identity and version of the source never reach the
/// result; the stable identifier, the panels and every other field are the
/// source's own. `existing` is only read.
pub fn reconcile(source: Dashboard, existing: Option<&Dashboard>) -> (plan: Plan)
    ensures
        plan.decision == decision_for(model_of(existing)),
        plan.document@ == reconciled(source@, model_of(existing)),
        existing is None ==> plan.decision == Decision::Create && plan.document.id is None
            && plan.document.version == 0,
        existing matches Some(held) ==> plan.decision == Decision::Update && plan.document.id
            == held.id && plan.document.version == held.version,
        plan.document.uid == source.uid,
        plan.document.panels == source.panels,
        plan.document.rest == source.rest,
{
    let mut document = source;
    match existing {
        Some(held) => {
            document.id = held.id;
            document.version = held.version;
            Plan { decision: Decision::Update, document }
        },
        None => {
            document.id = None;
            document.version = 0;
            Plan { decision: Decision::Create, document }
        },
    }
}

/// The line that announces a plan before it is carried out.
pub open spec fn announcement_text(decision: Decision, version: u32) -> Seq<char> {
    match decision {
        Decision::Update =>
            "Destination instance dashboard with matching uid exists at version "@
                + decimal_text(version as nat) + ". Updating."@,
        Decision::Create =>
            "No destination instance dashboard with matching uid exists. Creating."@,
    }
}

impl Plan {
    /// The line that announces the plan: for an update it names the version
    /// that the destination holds, which is the version of the document.
    pub fn announcement(&self) -> (result: String)
        ensures
            result@ == announcement_text(self.decision, self.document.version),
    {
        match self.decision {
            Decision::Update => {
                let mut line = String::from_str(
                    "Destination instance dashboard with matching uid exists at version ",
                );
                line.append(decimal(self.document.version).as_str());
                line.append(". Updating.");
                line
            },
            Decision::Create => String::from_str(
                "No destination instance dashboard with matching uid exists. Creating.",
            ),
        }
    }
}

/// Without a match on the destination the submitted document has no identity
/// and version 0, whatever the source had.
pub proof fn law_create_path(source: DashboardModel)
    ensures
        decision_for(None) == Decision::Create,
        reconciled(source, None).id is None,
        reconciled(source, None).version == 0,
{
}

/// With a match on the destination the submitted document has the identity
/// and the version of that match.
pub proof fn law_update_path(source: DashboardModel, held: DashboardModel)
    ensures
        decision_for(Some(held)) == Decision::Update,
        reconciled(source, Some(held)).id == held.id,
        reconciled(source, Some(held)).version == held.version,
{
}

/// Reconciliation changes the identity and the version and nothing else.
pub proof fn law_reconcile_keeps_content(source: DashboardModel, existing: Option<DashboardModel>)
    ensures
        reconciled(source, existing).uid == source.uid,
        reconciled(source, existing).panels == source.panels,
        reconciled(source, existing).rest == source.rest,
        unknown_fields(reconciled(source, existing)) == unknown_fields(source),
{
}

/// The identity and the version of the source have no part in the result.
pub proof fn law_source_identity_ignored(
    source: DashboardModel,
    id: Option<u32>,
    version: u32,
    existing: Option<DashboardModel>,
)
    ensures
        reconciled(
            DashboardModel {
                id,
                uid: source.uid,
                version,
                panels: source.panels,
                rest: source.rest,
            },
            existing,
        ) == reconciled(source, existing),
{
}

/// Reconciling what was already reconciled against the same state changes nothing.
pub proof fn law_reconcile_idempotent(source: DashboardModel, existing: Option<DashboardModel>)
    ensures
        reconciled(reconciled(source, existing), existing) == reconciled(source, existing),
{
}

/// A second copy of the same dashboard, run against what the destination
/// holds after the first, is an update of that very object: where the first
/// run created the dashboard and the destination stored it under
/// `assigned_id` at `assigned_version`, the second submission carries that
/// identity and that version, which is no lower than the version first
/// submitted, and differs from the first submission in nothing else.
pub proof fn law_second_run_updates(
    source: DashboardModel,
    stored: DashboardModel,
    assigned_id: u32,
    assigned_version: u32,
)
    requires
        stored.id == Some(assigned_id),
        stored.version == assigned_version,
    ensures
        decision_for(None) == Decision::Create,
        decision_for(Some(stored)) == Decision::Update,
        reconciled(source, Some(stored)).id == Some(assigned_id),
        reconciled(source, Some(stored)).version == assigned_version,
        reconciled(source, Some(stored)).version >= reconciled(source, None).version,
        reconciled(source, Some(stored)) == (DashboardModel {
            id: Some(assigned_id),
            version: assigned_version,
            ..reconciled(source, None)
        }),
{
}

} // verus!
