use covey::error::CoveyError;
use covey::model::RuntimeAttestation;
use covey::queue::require_runtime_actor_separation;

fn attestation(provider_run_id: &str) -> RuntimeAttestation {
    RuntimeAttestation {
        session_token: format!("session-{provider_run_id}"),
        agent_principal_id: format!("principal-{provider_run_id}"),
        provider: "codex".to_owned(),
        model: "gpt-5".to_owned(),
        provider_run_id: provider_run_id.to_owned(),
        provider_run_id_issuer: "codex-cli".to_owned(),
        process_id: Some(format!("codex-shell-{provider_run_id}")),
        container_id: None,
        command_transcript_digest: format!("blake3:{provider_run_id}-transcript"),
    }
}

#[test]
fn runtime_actor_separation_accepts_distinct_provider_runs_with_shared_local_placeholders() {
    let left = attestation("provider-run-left");
    let right = attestation("provider-run-right");

    require_runtime_actor_separation("queue-test", "producer", &left, "review_actor", &right)
        .expect("distinct provider runs prove runtime actor separation");
}

#[test]
fn runtime_actor_separation_rejects_matching_provider_runs() {
    let left = attestation("provider-run-shared");
    let right = attestation("provider-run-shared");

    let error = require_runtime_actor_separation("queue-test", "producer", &left, "review_actor", &right)
        .expect_err("matching provider runs must fail separation");
    assert!(error.message().contains("provider run ids are not separated"));
}

#[test]
fn runtime_actor_separation_checks_runtime_and_transcript() {
    let left = attestation("run-a");
    let mut right = attestation("run-b");
    right.process_id = left.process_id.clone();
    let error = require_runtime_actor_separation("q-1", "review_actor", &left, "apply_gate", &right)
        .expect_err("shared runtime");
    assert!(matches!(
        error,
        CoveyError::ApplyGateEvidenceMissing { ref queue_id, ref reason }
            if queue_id == "q-1" && reason == "review_actor and apply_gate runtime refs are not separated"
    ));
    let mut right = attestation("run-b");
    right.command_transcript_digest = left.command_transcript_digest.clone();
    let error = require_runtime_actor_separation("q-1", "review_actor", &left, "apply_gate", &right)
        .expect_err("shared transcript");
    assert_eq!(
        error.message(),
        "apply-gate evidence missing for queue q-1: review_actor and apply_gate transcript digests are not separated"
    );
}
