//! Checks on VCS projections: packet stack entries that must carry the
//! approved review of the exact artifact, and PR publications whose
//! bookmark, target and status fields must agree.
use vstd::prelude::*;
use crate::current_work::opt_view;
use crate::error::CoveyError;
use crate::model::{ReviewState, ReviewVerdict};
use crate::text::{concat2, owned, str_eq};
use crate::validate::{ensure_object_id_len, is_too_long_error, too_long};

verus! {

/// Whether `e` refuses a projection for reason `reason`.
pub open spec fn is_projection_error(e: CoveyError, reason: Seq<char>) -> bool {
    match e {
        CoveyError::InvalidImportDestination { reason: r } => r@ == reason,
        _ => false,
    }
}

fn projection_error(reason: &str) -> (e: CoveyError)
    ensures
        is_projection_error(e, reason@),
{
    CoveyError::InvalidImportDestination { reason: owned(reason) }
}

/// A request to record one reviewed claim change in an OpenSpec packet stack.
#[derive(Debug)]
pub struct PacketStackEntryReq {
    pub stack_entry_id: String,
    pub openspec_change_id: String,
    pub packet_bookmark: String,
    pub claim_id: String,
    pub subtask_id: String,
    pub artifact_digest: String,
    pub review_id: String,
    pub findings_digest: String,
    pub claim_bookmark: String,
    pub stack_position: i64,
}

/// The first id of a packet stack request, in the order they are checked,
/// that is longer than an object id may be.
pub open spec fn packet_stack_long_field(req: PacketStackEntryReq) -> Option<Seq<char>> {
    if too_long(req.stack_entry_id@) {
        Some("stack_entry_id"@)
    } else if too_long(req.openspec_change_id@) {
        Some("openspec_change_id"@)
    } else if too_long(req.claim_id@) {
        Some("claim_id"@)
    } else if too_long(req.subtask_id@) {
        Some("subtask_id"@)
    } else {
        None
    }
}

/// Why the shape of a packet stack request is rejected, if it is: a
/// negative position, or bookmarks other than `packet/<change>` and `claim/<claim>`.
pub open spec fn packet_stack_shape_error(req: PacketStackEntryReq) -> Option<Seq<char>> {
    if req.stack_position < 0 {
        Some("packet stack position must be greater than or equal to zero"@)
    } else if req.packet_bookmark@ != "packet/"@ + req.openspec_change_id@ {
        Some("packet stack entry packet_bookmark must be packet/<openspec_change_id>"@)
    } else if req.claim_bookmark@ != "claim/"@ + req.claim_id@ {
        Some("packet stack entry claim_bookmark must be claim/<claim_id>"@)
    } else {
        None
    }
}

/// Checks the ids, position and bookmarks of a packet stack request.
pub fn check_packet_stack_entry_shape(req: &PacketStackEntryReq) -> (r: Result<(), CoveyError>)
    ensures
        packet_stack_long_field(*req) matches Some(f) ==> r is Err && is_too_long_error(r->Err_0, f),
        packet_stack_long_field(*req) is None ==> (r is Ok <==> packet_stack_shape_error(*req) is None),
        packet_stack_long_field(*req) is None && r is Err ==> is_projection_error(
            r->Err_0,
            packet_stack_shape_error(*req)->0,
        ),
{
    ensure_object_id_len("stack_entry_id", req.stack_entry_id.as_str())?;
    ensure_object_id_len("openspec_change_id", req.openspec_change_id.as_str())?;
    ensure_object_id_len("claim_id", req.claim_id.as_str())?;
    ensure_object_id_len("subtask_id", req.subtask_id.as_str())?;
    if req.stack_position < 0 {
        return Err(projection_error("packet stack position must be greater than or equal to zero"));
    }
    let packet = concat2("packet/", req.openspec_change_id.as_str());
    if !str_eq(req.packet_bookmark.as_str(), packet.as_str()) {
        return Err(projection_error("packet stack entry packet_bookmark must be packet/<openspec_change_id>"));
    }
    let claim = concat2("claim/", req.claim_id.as_str());
    if !str_eq(req.claim_bookmark.as_str(), claim.as_str()) {
        return Err(projection_error("packet stack entry claim_bookmark must be claim/<claim_id>"));
    }
    Ok(())
}

/// The stored facts a packet stack entry is checked against.
#[derive(Debug)]
pub struct PacketStackFacts {
    /// The subtask the entry's claim belongs to.
    pub claim_subtask_id: String,
    /// The change the entry's subtask was imported from, if any.
    pub scope_change_id: Option<String>,
    /// The subtask that produced the entry's artifact.
    pub artifact_producer_subtask_id: String,
    pub review_subtask_id: String,
    pub review_artifact_digest: String,
    pub review_state: ReviewState,
    pub review_verdict: Option<ReviewVerdict>,
    pub review_findings_digest: Option<String>,
}

/// Why a packet stack entry is rejected against the stored facts, if it is,
/// checked in order: the claim, the change scope, the artifact's producer,
/// and the review, which must approve the exact artifact and findings.
pub open spec fn packet_stack_facts_error(req: PacketStackEntryReq, f: PacketStackFacts) -> Option<Seq<char>> {
    if f.claim_subtask_id@ != req.subtask_id@ {
        Some("packet stack entry claim_id does not belong to subtask_id"@)
    } else if f.scope_change_id is None {
        Some("packet stack entry subtask is not OpenSpec-scoped"@)
    } else if f.scope_change_id->0@ != req.openspec_change_id@ {
        Some("packet stack entry openspec_change_id does not match subtask scope"@)
    } else if f.artifact_producer_subtask_id@ != req.subtask_id@ {
        Some("packet stack entry artifact was not produced by subtask_id"@)
    } else if f.review_subtask_id@ != req.subtask_id@ || f.review_artifact_digest@ != req.artifact_digest@
        || f.review_state != ReviewState::Decided || f.review_verdict != Some(ReviewVerdict::Approve) || opt_view(
        f.review_findings_digest,
    ) != Some(req.findings_digest@) {
        Some("packet stack entry review evidence must approve the exact artifact and findings digest"@)
    } else {
        None
    }
}

/// Checks a packet stack entry against the stored facts.
pub fn check_packet_stack_entry_facts(req: &PacketStackEntryReq, f: &PacketStackFacts) -> (r: Result<(), CoveyError>)
    ensures
        r is Ok <==> packet_stack_facts_error(*req, *f) is None,
        r is Err ==> is_projection_error(r->Err_0, packet_stack_facts_error(*req, *f)->0),
{
    if !str_eq(f.claim_subtask_id.as_str(), req.subtask_id.as_str()) {
        return Err(projection_error("packet stack entry claim_id does not belong to subtask_id"));
    }
    match &f.scope_change_id {
        None => {
            return Err(projection_error("packet stack entry subtask is not OpenSpec-scoped"));
        },
        Some(s) => {
            if !str_eq(s.as_str(), req.openspec_change_id.as_str()) {
                return Err(projection_error("packet stack entry openspec_change_id does not match subtask scope"));
            }
        },
    }
    if !str_eq(f.artifact_producer_subtask_id.as_str(), req.subtask_id.as_str()) {
        return Err(projection_error("packet stack entry artifact was not produced by subtask_id"));
    }
    let approved = match f.review_verdict {
        Some(ReviewVerdict::Approve) => true,
        _ => false,
    };
    let findings_match = match &f.review_findings_digest {
        Some(d) => str_eq(d.as_str(), req.findings_digest.as_str()),
        None => false,
    };
    if !str_eq(f.review_subtask_id.as_str(), req.subtask_id.as_str()) || !str_eq(
        f.review_artifact_digest.as_str(),
        req.artifact_digest.as_str(),
    ) || f.review_state != ReviewState::Decided || !approved || !findings_match {
        return Err(
            projection_error("packet stack entry review evidence must approve the exact artifact and findings digest"),
        );
    }
    Ok(())
}

/// Whether a PR publishes a packet stack or a single claim.
#[derive(Debug, Clone, Copy, PartialEq, Eq, Structural)]
pub enum VcsPrPublicationKind {
    Packet,
    Claim,
}

/// Publication state of a PR.
#[derive(Debug, Clone, Copy, PartialEq, Eq, Structural)]
pub enum VcsPrPublicationStatus {
    Prepared,
    Published,
    Blocked,
}

/// A request to record a PR publication.
#[derive(Debug)]
pub struct PrPublicationReq {
    pub publication_id: String,
    pub kind: VcsPrPublicationKind,
    pub openspec_change_id: Option<String>,
    pub claim_id: Option<String>,
    pub bookmark: String,
    pub pr_url: Option<String>,
    pub status: VcsPrPublicationStatus,
    pub blocker_reason: Option<String>,
}

/// Why a PR publication's target is rejected, if it is: the target its
/// kind requires, its bookmark, and an active packet stack for a prepared
/// or published packet PR (`has_stack_entries`).
pub open spec fn pr_target_error(req: PrPublicationReq, has_stack_entries: bool) -> Option<Seq<char>> {
    match req.kind {
        VcsPrPublicationKind::Packet => if req.openspec_change_id is None {
            Some("packet PR publication requires openspec_change_id"@)
        } else if req.claim_id is Some {
            Some("packet PR publication must not include claim_id"@)
        } else if req.bookmark@ != "packet/"@ + req.openspec_change_id->0@ {
            Some("packet PR publication bookmark must be packet/<openspec_change_id>"@)
        } else if req.status != VcsPrPublicationStatus::Blocked && !has_stack_entries {
            Some("packet PR publication requires at least one active packet stack entry"@)
        } else {
            None
        },
        VcsPrPublicationKind::Claim => if req.claim_id is None {
            Some("claim PR publication requires claim_id"@)
        } else if req.bookmark@ != "claim/"@ + req.claim_id->0@ {
            Some("claim PR publication bookmark must be claim/<claim_id>"@)
        } else {
            None
        },
    }
}

/// Why a PR publication is rejected, if it is: its target first, then the
/// fields its status requires or forbids.
pub open spec fn pr_publication_error(req: PrPublicationReq, has_stack_entries: bool) -> Option<Seq<char>> {
    let target_error = pr_target_error(req, has_stack_entries);
    if target_error is Some {
        target_error
    } else if req.status == VcsPrPublicationStatus::Published && req.pr_url is None {
        Some("published PR publication requires pr_url"@)
    } else if req.status == VcsPrPublicationStatus::Blocked && req.blocker_reason is None {
        Some("blocked PR publication requires blocker_reason"@)
    } else if req.status != VcsPrPublicationStatus::Blocked && req.blocker_reason is Some {
        Some("non-blocked PR publication must not include blocker_reason"@)
    } else {
        None
    }
}

fn check_pr_target(req: &PrPublicationReq, has_stack_entries: bool) -> (r: Result<(), CoveyError>)
    ensures
        r is Ok <==> pr_target_error(*req, has_stack_entries) is None,
        r is Err ==> is_projection_error(r->Err_0, pr_target_error(*req, has_stack_entries)->0),
{
    match req.kind {
        VcsPrPublicationKind::Packet => {
            let change = match &req.openspec_change_id {
                None => {
                    return Err(projection_error("packet PR publication requires openspec_change_id"));
                },
                Some(c) => c,
            };
            if req.claim_id.is_some() {
                return Err(projection_error("packet PR publication must not include claim_id"));
            }
            let expected = concat2("packet/", change.as_str());
            if !str_eq(req.bookmark.as_str(), expected.as_str()) {
                return Err(projection_error("packet PR publication bookmark must be packet/<openspec_change_id>"));
            }
            if req.status != VcsPrPublicationStatus::Blocked && !has_stack_entries {
                return Err(projection_error("packet PR publication requires at least one active packet stack entry"));
            }
            Ok(())
        },
        VcsPrPublicationKind::Claim => {
            let claim = match &req.claim_id {
                None => {
                    return Err(projection_error("claim PR publication requires claim_id"));
                },
                Some(c) => c,
            };
            let expected = concat2("claim/", claim.as_str());
            if !str_eq(req.bookmark.as_str(), expected.as_str()) {
                return Err(projection_error("claim PR publication bookmark must be claim/<claim_id>"));
            }
            Ok(())
        },
    }
}

/// Checks a PR publication request; `has_stack_entries` says whether its
/// change has an active packet stack entry. A publication id longer than an
/// object id may be is refused first.
pub fn check_pr_publication(req: &PrPublicationReq, has_stack_entries: bool) -> (r: Result<(), CoveyError>)
    ensures
        too_long(req.publication_id@) ==> r is Err && is_too_long_error(r->Err_0, "publication_id"@),
        !too_long(req.publication_id@) ==> (r is Ok <==> pr_publication_error(*req, has_stack_entries) is None),
        !too_long(req.publication_id@) && r is Err ==> is_projection_error(
            r->Err_0,
            pr_publication_error(*req, has_stack_entries)->0,
        ),
{
    ensure_object_id_len("publication_id", req.publication_id.as_str())?;
    check_pr_target(req, has_stack_entries)?;
    if req.status == VcsPrPublicationStatus::Published && req.pr_url.is_none() {
        return Err(projection_error("published PR publication requires pr_url"));
    }
    if req.status == VcsPrPublicationStatus::Blocked && req.blocker_reason.is_none() {
        return Err(projection_error("blocked PR publication requires blocker_reason"));
    }
    if req.status != VcsPrPublicationStatus::Blocked && req.blocker_reason.is_some() {
        return Err(projection_error("non-blocked PR publication must not include blocker_reason"));
    }
    Ok(())
}

} // verus!
