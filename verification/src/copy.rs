//! One copy of one dashboard, as the steps between the requests: each
//! function takes what an instance answered and says what is done next.
//!
//! The caller fetches the dashboard from the source and hands the answer to
//! `source_fetched`; looks the stable identifier up on the destination and
//! hands the answer to `destination_looked_up`; submits the planned document
//! and hands the answer to `submitted`. An error ends the copy.

use crate::channels::ChannelMap;
use crate::client::{
    failure_text, location_text, Api, ClientFailure, FetchOutcome, SubmitOutcome, MAX_TEXT,
};
use crate::document::{unknown_fields, Dashboard, DashboardModel};
use crate::notifications::{
    channel_ids, first_unmapped, law_remap_keeps_unknown_fields, map_notifications, remap,
};
use crate::reconcile::{reconcile, reconciled, Decision, Plan};
use crate::text::{decimal, decimal_text};
use vstd::prelude::*;

verus! {

/// The request during which a copy failed.
#[derive(Debug, Clone, Copy, PartialEq, Eq, Structural)]
pub enum Stage {
    FetchSource,
    LookupDestination,
    SubmitDestination,
}

/// Why a copy ended without a report.
#[derive(Debug, Clone, PartialEq)]
pub enum CopyError {
    /// The source holds no dashboard with the stable identifier.
    SourceMissing,
    /// The dashboard refers to a channel for which the table has no entry.
    Unmapped { channel_id: String },
    /// An instance gave no usable answer during `stage`.
    Remote { stage: Stage, failure: ClientFailure },
}

/// What a finished copy reports.
#[derive(Debug, Clone, PartialEq)]
pub struct Report {
    /// Whether the dashboard was created or updated.
    pub decision: Decision,
    /// The identity that the destination has for the dashboard.
    pub id: u32,
    pub uid: String,
    /// The version that the write produced.
    pub version: u32,
    /// The URL of the dashboard on the destination; `None` where the path
    /// that the destination reported is longer than `MAX_TEXT`.
    pub location: Option<String>,
}

impl Stage {
    /// The name under which the stage is reported.
    pub fn name(&self) -> (result: &'static str)
        ensures
            result@ == stage_text(*self),
    {
        match self {
            Stage::FetchSource => "fetch from source",
            Stage::LookupDestination => "lookup on destination",
            Stage::SubmitDestination => "submit to destination",
        }
    }
}

/// The name under which a stage is reported.
pub open spec fn stage_text(stage: Stage) -> Seq<char> {
    match stage {
        Stage::FetchSource => "fetch from source"@,
        Stage::LookupDestination => "lookup on destination"@,
        Stage::SubmitDestination => "submit to destination"@,
    }
}

/// An error as it is reported: a failed request under the name of its stage,
/// an unmapped reference with the identifier of the channel.
pub open spec fn error_text(error: CopyError) -> Seq<char> {
    match error {
        CopyError::SourceMissing => "dashboard not found in source instance"@,
        CopyError::Unmapped { channel_id } => "no destination channel is mapped for "@
            + channel_id@,
        CopyError::Remote { stage, failure } => stage_text(stage) + ": "@ + failure_text(
            failure,
        ),
    }
}

/// The line that reports a finished copy.
pub open spec fn summary_text(report: Report) -> Seq<char> {
    let head = "Created or updated destination instance dashboard with id "@ + decimal_text(
        report.id as nat,
    ) + ", version "@ + decimal_text(report.version as nat);
    match report.location {
        Some(url) => head + ": "@ + url@,
        None => head,
    }
}

impl CopyError {
    /// The error as it is reported.
    pub fn describe(&self) -> (result: String)
        ensures
            result@ == error_text(*self),
    {
        match self {
            CopyError::SourceMissing => String::from_str("dashboard not found in source instance"),
            CopyError::Unmapped { channel_id } => {
                let mut line = String::from_str("no destination channel is mapped for ");
                line.append(channel_id.as_str());
                line
            },
            CopyError::Remote { stage, failure } => {
                let mut line = String::from_str(stage.name());
                line.append(": ");
                line.append(failure.describe().as_str());
                line
            },
        }
    }
}

impl Report {
    /// The line that reports the copy: the identity and the version that the
    /// destination has, and the location where it has one.
    pub fn summary(&self) -> (result: String)
        ensures
            result@ == summary_text(*self),
    {
        let mut line = String::from_str(
            "Created or updated destination instance dashboard with id ",
        );
        line.append(decimal(self.id).as_str());
        line.append(", version ");
        line.append(decimal(self.version).as_str());
        match &self.location {
            Some(url) => {
                line.append(": ");
                line.append(url.as_str());
            },
            None => {},
        }
        line
    }
}

/// Takes the source's answer. A dashboard that was found has its channel
/// references mapped through `table` and is then to be looked up on the
/// destination; one that refers to an unmapped channel ends the copy, and so
/// does a source that has no such dashboard or gave no usable answer.
pub fn source_fetched(outcome: FetchOutcome, table: &ChannelMap) -> (result: Result<
    Dashboard,
    CopyError,
>)
    ensures
        match outcome {
            FetchOutcome::Found(source) => match first_unmapped(
                channel_ids(source@.panels),
                table@,
            ) {
                None => result matches Ok(mapped) && mapped@ == remap(source@, table@),
                Some(id) => result matches Err(CopyError::Unmapped { channel_id })
                    && channel_id@ == id,
            },
            FetchOutcome::NotFound => result == Err::<Dashboard, CopyError>(
                CopyError::SourceMissing,
            ),
            FetchOutcome::Failed(failure) => result == Err::<Dashboard, CopyError>(
                CopyError::Remote { stage: Stage::FetchSource, failure },
            ),
        },
{
    match outcome {
        FetchOutcome::Found(source) => {
            let mut document = source;
            match map_notifications(&mut document, table) {
                Ok(()) => Ok(document),
                Err(unmapped) => Err(CopyError::Unmapped { channel_id: unmapped.channel_id }),
            }
        },
        FetchOutcome::NotFound => Err(CopyError::SourceMissing),
        FetchOutcome::Failed(failure) => Err(
            CopyError::Remote { stage: Stage::FetchSource, failure },
        ),
    }
}

/// Takes the destination's answer to the lookup and plans the submission: an
/// update where the destination holds the dashboard, a creation where it
/// does not. Without a usable answer nothing is planned.
pub fn destination_looked_up(source: Dashboard, outcome: FetchOutcome) -> (result: Result<
    Plan,
    CopyError,
>)
    ensures
        match outcome {
            FetchOutcome::Found(held) => result matches Ok(plan) && plan.decision
                == Decision::Update && plan.document@ == reconciled(source@, Some(held@)),
            FetchOutcome::NotFound => result matches Ok(plan) && plan.decision
                == Decision::Create && plan.document@ == reconciled(source@, None),
            FetchOutcome::Failed(failure) => result == Err::<Plan, CopyError>(
                CopyError::Remote { stage: Stage::LookupDestination, failure },
            ),
        },
{
    match outcome {
        FetchOutcome::Found(held) => Ok(reconcile(source, Some(&held))),
        FetchOutcome::NotFound => Ok(reconcile(source, None)),
        FetchOutcome::Failed(failure) => Err(
            CopyError::Remote { stage: Stage::LookupDestination, failure },
        ),
    }
}

/// Takes the destination's answer to the submission and reports what the
/// destination now holds.
pub fn submitted(decision: Decision, destination: &Api, outcome: SubmitOutcome) -> (result:
    Result<Report, CopyError>)
    ensures
        match outcome {
            SubmitOutcome::Accepted(response) => result matches Ok(report) && report.decision
                == decision && report.id == response.id && report.uid == response.uid
                && report.version == response.version && match report.location {
                Some(url) => response.url@.len() <= MAX_TEXT && url@ == location_text(
                    destination@.base,
                    response.url@,
                ),
                None => response.url@.len() > MAX_TEXT,
            },
            SubmitOutcome::Failed(failure) => result == Err::<Report, CopyError>(
                CopyError::Remote { stage: Stage::SubmitDestination, failure },
            ),
        },
{
    match outcome {
        SubmitOutcome::Accepted(response) => {
            let location = destination.locate(response.url.as_str());
            Ok(
                Report {
                    decision,
                    id: response.id,
                    uid: response.uid,
                    version: response.version,
                    location,
                },
            )
        },
        SubmitOutcome::Failed(failure) => Err(
            CopyError::Remote { stage: Stage::SubmitDestination, failure },
        ),
    }
}

/// What is submitted for a source dashboard holds every unknown field of
/// that dashboard, where it was and as it was, and has its stable
/// identifier, whatever the table and the destination hold.
pub proof fn law_unknown_fields_reach_destination(
    source: DashboardModel,
    table: Map<Seq<char>, Seq<char>>,
    existing: Option<DashboardModel>,
)
    ensures
        unknown_fields(reconciled(remap(source, table), existing)) == unknown_fields(source),
        reconciled(remap(source, table), existing).uid == source.uid,
{
    law_remap_keeps_unknown_fields(source, table);
}

} // verus!
