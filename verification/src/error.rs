//! Errors of the library's decisions.
use vstd::prelude::*;
use crate::text::{concat2, concat3, concat4, i64_decimal, int_decimal, nat_digits, usize_decimal};

verus! {

/// Error returned by imports, queue checks and current-work lookups.
#[derive(Debug)]
pub enum CoveyError {
    InvalidSourceSchema { path: String, detail: String },
    InvalidPath { path: String },
    InvalidImportDestination { reason: String },
    ApplyGateEvidenceMissing { queue_id: String, reason: String },
    CurrentWorkBlockerNotFound { blocker_id: String },
    AmbiguousCurrentWorkBlocker { blocker_id: String },
    InvalidObservabilityRow { reason: String },
    InvalidReadyQueueMetrics { reason: String },
    IllegalTransition { object: String, from: String, to: String },
    FieldTooLong { field: String, max: usize },
    NotQueueClaimOwner { session_token: String, queue_owner: String },
    StaleFenceToken { expected: i64, provided: i64 },
    LeaseExpired { object_id: String },
    InvalidRuntimeAttestation { session_token: String, reason: String },
    ApplyGateSeparationOfDutiesViolation {
        apply_gate_principal_id: String,
        conflicting_role: String,
        conflicting_principal_id: String,
    },
    DuplicateSubtaskId { subtask_id: String },
    ImportDuplicate { source_issue_id: String, subtask_id: String },
}

/// The human-readable message of an error.
pub open spec fn error_message(e: CoveyError) -> Seq<char> {
    match e {
        CoveyError::InvalidSourceSchema { path, detail } => "invalid source schema in "@ + path@ + ": "@ + detail@,
        CoveyError::InvalidPath { path } => "invalid path: "@ + path@,
        CoveyError::InvalidImportDestination { reason } => "invalid import destination: "@ + reason@,
        CoveyError::ApplyGateEvidenceMissing { queue_id, reason } =>
            "apply-gate evidence missing for queue "@ + queue_id@ + ": "@ + reason@,
        CoveyError::CurrentWorkBlockerNotFound { blocker_id } => "current-work blocker not found: "@ + blocker_id@,
        CoveyError::AmbiguousCurrentWorkBlocker { blocker_id } => "current-work blocker is ambiguous: "@ + blocker_id@,
        CoveyError::InvalidObservabilityRow { reason } => "invalid observability row: "@ + reason@,
        CoveyError::InvalidReadyQueueMetrics { reason } => "invalid ready-queue metrics: "@ + reason@,
        CoveyError::IllegalTransition { object, from, to } =>
            "illegal "@ + object@ + " transition from "@ + from@ + " to "@ + to@,
        CoveyError::FieldTooLong { field, max } => field@ + " exceeds max length "@ + nat_digits(max as nat),
        CoveyError::NotQueueClaimOwner { session_token, queue_owner } =>
            "session "@ + session_token@ + " does not own the queue claim held by "@ + queue_owner@,
        CoveyError::StaleFenceToken { expected, provided } =>
            "stale fence token: expected "@ + int_decimal(expected as int) + ", provided "@ + int_decimal(provided as int),
        CoveyError::LeaseExpired { object_id } => "lease expired for "@ + object_id@,
        CoveyError::InvalidRuntimeAttestation { session_token, reason } =>
            "invalid runtime attestation for session "@ + session_token@ + ": "@ + reason@,
        CoveyError::ApplyGateSeparationOfDutiesViolation { apply_gate_principal_id, conflicting_role, conflicting_principal_id } =>
            "apply gate principal "@ + apply_gate_principal_id@ + " is also the "@ + conflicting_role@ + " principal "@
                + conflicting_principal_id@,
        CoveyError::DuplicateSubtaskId { subtask_id } => "duplicate subtask id: "@ + subtask_id@,
        CoveyError::ImportDuplicate { source_issue_id, subtask_id } =>
            "source issue "@ + source_issue_id@ + " is already imported as subtask "@ + subtask_id@,
    }
}

impl CoveyError {
    /// The human-readable message of the error.
    pub fn message(&self) -> (r: String)
        ensures
            r@ == error_message(*self),
    {
        match self {
            CoveyError::InvalidSourceSchema { path, detail } => concat4(
                "invalid source schema in ",
                path.as_str(),
                ": ",
                detail.as_str(),
            ),
            CoveyError::InvalidPath { path } => concat2("invalid path: ", path.as_str()),
            CoveyError::InvalidImportDestination { reason } => concat2("invalid import destination: ", reason.as_str()),
            CoveyError::ApplyGateEvidenceMissing { queue_id, reason } => concat4(
                "apply-gate evidence missing for queue ",
                queue_id.as_str(),
                ": ",
                reason.as_str(),
            ),
            CoveyError::CurrentWorkBlockerNotFound { blocker_id } => concat2(
                "current-work blocker not found: ",
                blocker_id.as_str(),
            ),
            CoveyError::AmbiguousCurrentWorkBlocker { blocker_id } => concat2(
                "current-work blocker is ambiguous: ",
                blocker_id.as_str(),
            ),
            CoveyError::InvalidObservabilityRow { reason } => concat2("invalid observability row: ", reason.as_str()),
            CoveyError::InvalidReadyQueueMetrics { reason } => concat2("invalid ready-queue metrics: ", reason.as_str()),
            CoveyError::IllegalTransition { object, from, to } => {
                let head = concat3("illegal ", object.as_str(), " transition from ");
                concat3(head.as_str(), from.as_str(), concat2(" to ", to.as_str()).as_str())
            },
            CoveyError::FieldTooLong { field, max } => {
                let n = usize_decimal(*max);
                concat3(field.as_str(), " exceeds max length ", n.as_str())
            },
            CoveyError::NotQueueClaimOwner { session_token, queue_owner } => concat4(
                "session ",
                session_token.as_str(),
                " does not own the queue claim held by ",
                queue_owner.as_str(),
            ),
            CoveyError::StaleFenceToken { expected, provided } => {
                let e = i64_decimal(*expected);
                let p = i64_decimal(*provided);
                concat4("stale fence token: expected ", e.as_str(), ", provided ", p.as_str())
            },
            CoveyError::LeaseExpired { object_id } => concat2("lease expired for ", object_id.as_str()),
            CoveyError::InvalidRuntimeAttestation { session_token, reason } => concat4(
                "invalid runtime attestation for session ",
                session_token.as_str(),
                ": ",
                reason.as_str(),
            ),
            CoveyError::ApplyGateSeparationOfDutiesViolation {
                apply_gate_principal_id,
                conflicting_role,
                conflicting_principal_id,
            } => {
                let head = concat4(
                    "apply gate principal ",
                    apply_gate_principal_id.as_str(),
                    " is also the ",
                    conflicting_role.as_str(),
                );
                concat3(head.as_str(), " principal ", conflicting_principal_id.as_str())
            },
            CoveyError::DuplicateSubtaskId { subtask_id } => concat2("duplicate subtask id: ", subtask_id.as_str()),
            CoveyError::ImportDuplicate { source_issue_id, subtask_id } => concat4(
                "source issue ",
                source_issue_id.as_str(),
                " is already imported as subtask ",
                subtask_id.as_str(),
            ),
        }
    }
}

} // verus!
