use covey::error::CoveyError;
use covey::model::{ReviewState, ReviewVerdict};
use covey::vcs_projection::{
    check_packet_stack_entry_facts, check_packet_stack_entry_shape, check_pr_publication, PacketStackEntryReq,
    PacketStackFacts, PrPublicationReq, VcsPrPublicationKind, VcsPrPublicationStatus,
};

fn packet_stack_req() -> PacketStackEntryReq {
    PacketStackEntryReq {
        stack_entry_id: "stack-entry-vcs-projection-1".to_owned(),
        openspec_change_id: "vcs-projection-change".to_owned(),
        packet_bookmark: "packet/vcs-projection-change".to_owned(),
        claim_id: "claim-vcs-projection-1".to_owned(),
        subtask_id: "subtask-vcs-projection-1".to_owned(),
        artifact_digest: "blake3:vcsprojectionartifact".to_owned(),
        review_id: "review-vcs-projection-1".to_owned(),
        findings_digest: "blake3:vcsprojectionfindings".to_owned(),
        claim_bookmark: "claim/claim-vcs-projection-1".to_owned(),
        stack_position: 0,
    }
}

/// The stored facts of the seeded fixture: the claim, scope, artifact and
/// approving review of `subtask-vcs-projection-1`.
fn seeded_facts() -> PacketStackFacts {
    PacketStackFacts {
        claim_subtask_id: "subtask-vcs-projection-1".to_owned(),
        scope_change_id: Some("vcs-projection-change".to_owned()),
        artifact_producer_subtask_id: "subtask-vcs-projection-1".to_owned(),
        review_subtask_id: "subtask-vcs-projection-1".to_owned(),
        review_artifact_digest: "blake3:vcsprojectionartifact".to_owned(),
        review_state: ReviewState::Decided,
        review_verdict: Some(ReviewVerdict::Approve),
        review_findings_digest: Some("blake3:vcsprojectionfindings".to_owned()),
    }
}

fn reason(e: CoveyError) -> String {
    match e {
        CoveyError::InvalidImportDestination { reason } => reason,
        other => panic!("unexpected error {other:?}"),
    }
}

#[test]
fn records_packet_stack_entry_with_approved_review_evidence() {
    let req = packet_stack_req();
    check_packet_stack_entry_shape(&req).expect("record stack entry");
    check_packet_stack_entry_facts(&req, &seeded_facts()).expect("record stack entry");
    assert_eq!(req.openspec_change_id.as_str(), "vcs-projection-change");
    assert_eq!(req.stack_position, 0);
    assert_eq!(req.claim_id.as_str(), "claim-vcs-projection-1");
}

#[test]
fn rejects_packet_stack_entry_without_matching_approved_review() {
    let mut req = packet_stack_req();
    req.findings_digest = "blake3:wrongfindings".to_owned();
    check_packet_stack_entry_shape(&req).expect("shape is valid");
    let err = check_packet_stack_entry_facts(&req, &seeded_facts()).expect_err("mismatched review evidence rejected");
    assert!(reason(err).contains("review evidence must approve the exact artifact"));
}

#[test]
fn records_packet_pr_publication_after_stack_entry() {
    let req = packet_stack_req();
    check_packet_stack_entry_shape(&req).expect("record stack entry");
    check_packet_stack_entry_facts(&req, &seeded_facts()).expect("record stack entry");
    let publication = PrPublicationReq {
        publication_id: "publication-vcs-projection-1".to_owned(),
        kind: VcsPrPublicationKind::Packet,
        openspec_change_id: Some("vcs-projection-change".to_owned()),
        claim_id: None,
        bookmark: "packet/vcs-projection-change".to_owned(),
        pr_url: Some("https://github.com/example/repo/pull/1".to_owned()),
        status: VcsPrPublicationStatus::Published,
        blocker_reason: None,
    };
    check_pr_publication(&publication, true).expect("record publication");
    assert_eq!(publication.bookmark.as_str(), "packet/vcs-projection-change");
    assert_eq!(publication.status, VcsPrPublicationStatus::Published);
}

#[test]
fn packet_stack_shape_rejects_negative_positions_and_foreign_bookmarks() {
    let mut req = packet_stack_req();
    req.stack_position = -1;
    assert_eq!(
        reason(check_packet_stack_entry_shape(&req).unwrap_err()),
        "packet stack position must be greater than or equal to zero"
    );
    let mut req = packet_stack_req();
    req.packet_bookmark = "packet/other".to_owned();
    assert_eq!(
        reason(check_packet_stack_entry_shape(&req).unwrap_err()),
        "packet stack entry packet_bookmark must be packet/<openspec_change_id>"
    );
    let mut req = packet_stack_req();
    req.claim_bookmark = "claim/other".to_owned();
    assert_eq!(
        reason(check_packet_stack_entry_shape(&req).unwrap_err()),
        "packet stack entry claim_bookmark must be claim/<claim_id>"
    );
    let mut req = packet_stack_req();
    req.claim_id = "c".repeat(129);
    assert!(matches!(
        check_packet_stack_entry_shape(&req),
        Err(CoveyError::FieldTooLong { ref field, max: 128 }) if field == "claim_id"
    ));
}

#[test]
fn packet_stack_facts_are_checked_in_order() {
    let req = packet_stack_req();
    let facts = PacketStackFacts { claim_subtask_id: "other".to_owned(), ..seeded_facts() };
    assert_eq!(
        reason(check_packet_stack_entry_facts(&req, &facts).unwrap_err()),
        "packet stack entry claim_id does not belong to subtask_id"
    );
    let facts = PacketStackFacts { scope_change_id: None, ..seeded_facts() };
    assert_eq!(
        reason(check_packet_stack_entry_facts(&req, &facts).unwrap_err()),
        "packet stack entry subtask is not OpenSpec-scoped"
    );
    let facts = PacketStackFacts { scope_change_id: Some("other".to_owned()), ..seeded_facts() };
    assert_eq!(
        reason(check_packet_stack_entry_facts(&req, &facts).unwrap_err()),
        "packet stack entry openspec_change_id does not match subtask scope"
    );
    let facts = PacketStackFacts { artifact_producer_subtask_id: "other".to_owned(), ..seeded_facts() };
    assert_eq!(
        reason(check_packet_stack_entry_facts(&req, &facts).unwrap_err()),
        "packet stack entry artifact was not produced by subtask_id"
    );
    let facts = PacketStackFacts { review_verdict: Some(ReviewVerdict::ChangesRequested), ..seeded_facts() };
    assert!(check_packet_stack_entry_facts(&req, &facts).is_err());
    let facts = PacketStackFacts { review_state: ReviewState::InProgress, ..seeded_facts() };
    assert!(check_packet_stack_entry_facts(&req, &facts).is_err());
}

fn claim_publication(status: VcsPrPublicationStatus) -> PrPublicationReq {
    PrPublicationReq {
        publication_id: "publication-claim-1".to_owned(),
        kind: VcsPrPublicationKind::Claim,
        openspec_change_id: None,
        claim_id: Some("claim-1".to_owned()),
        bookmark: "claim/claim-1".to_owned(),
        pr_url: None,
        status,
        blocker_reason: None,
    }
}

#[test]
fn pr_publication_fields_follow_kind_and_status() {
    check_pr_publication(&claim_publication(VcsPrPublicationStatus::Prepared), false).expect("prepared claim PR");
    assert_eq!(
        reason(check_pr_publication(&claim_publication(VcsPrPublicationStatus::Published), false).unwrap_err()),
        "published PR publication requires pr_url"
    );
    assert_eq!(
        reason(check_pr_publication(&claim_publication(VcsPrPublicationStatus::Blocked), false).unwrap_err()),
        "blocked PR publication requires blocker_reason"
    );
    let mut prepared_with_blocker = claim_publication(VcsPrPublicationStatus::Prepared);
    prepared_with_blocker.blocker_reason = Some("waiting".to_owned());
    assert_eq!(
        reason(check_pr_publication(&prepared_with_blocker, false).unwrap_err()),
        "non-blocked PR publication must not include blocker_reason"
    );
    let mut no_claim = claim_publication(VcsPrPublicationStatus::Prepared);
    no_claim.claim_id = None;
    assert_eq!(reason(check_pr_publication(&no_claim, false).unwrap_err()), "claim PR publication requires claim_id");
    let mut wrong_bookmark = claim_publication(VcsPrPublicationStatus::Prepared);
    wrong_bookmark.bookmark = "claim/other".to_owned();
    assert_eq!(
        reason(check_pr_publication(&wrong_bookmark, false).unwrap_err()),
        "claim PR publication bookmark must be claim/<claim_id>"
    );

    let packet = PrPublicationReq {
        publication_id: "publication-packet-1".to_owned(),
        kind: VcsPrPublicationKind::Packet,
        openspec_change_id: Some("change".to_owned()),
        claim_id: None,
        bookmark: "packet/change".to_owned(),
        pr_url: None,
        status: VcsPrPublicationStatus::Prepared,
        blocker_reason: None,
    };
    assert_eq!(
        reason(check_pr_publication(&packet, false).unwrap_err()),
        "packet PR publication requires at least one active packet stack entry"
    );
    check_pr_publication(&packet, true).expect("packet PR with stack entries");
    let with_claim = PrPublicationReq { claim_id: Some("claim-1".to_owned()), ..packet };
    assert_eq!(
        reason(check_pr_publication(&with_claim, true).unwrap_err()),
        "packet PR publication must not include claim_id"
    );
}
