use arc_lend::health::evaluate;
use arc_lend::health::HealthResult;
use arc_lend::health::PositionSnapshot;
use arc_lend::lifecycle::BindingKey;
use arc_lend::lifecycle::ClusterResponse;
use arc_lend::lifecycle::JobStatus;
use arc_lend::lifecycle::LifecycleError;
use arc_lend::lifecycle::RequestLifecycle;
use arc_lend::lifecycle::ResponseProof;
use arc_lend::position::PositionRecord;
use arc_lend::wire::encode_result;

const CLUSTER: u64 = 7;

fn binding() -> BindingKey {
    BindingKey { pubkey: (1u8..=32).collect(), nonce: 4242 }
}

fn position() -> PositionRecord {
    let mut p = PositionRecord::open();
    let updated = p.update(vec![0x11; 8], vec![0x22; 8]);
    assert!(updated);
    p
}

/// The result the simulated cluster would compute for `position()`
/// under some decryption of its blocks.
fn cluster_result() -> HealthResult {
    evaluate(PositionSnapshot {
        collateral_value: 1000,
        debt_value: 801,
        liquidation_threshold_pct: 80,
    })
}

fn good_response(job_id: u64) -> ClusterResponse {
    let blocks = encode_result(&cluster_result());
    ClusterResponse {
        proof: ResponseProof {
            cluster_id: CLUSTER,
            job_id,
            binding_pubkey: binding().pubkey,
            nonce: binding().nonce,
            aborted: false,
        },
        blocks,
    }
}

fn submitted() -> (RequestLifecycle, u64) {
    let mut lc = RequestLifecycle::new(Some(CLUSTER));
    let job_id = lc.submit(&position(), binding()).expect("submit must accept a fresh job");
    (lc, job_id)
}

#[test]
fn submit_registers_a_queued_job() {
    let (lc, job_id) = submitted();
    assert_eq!(job_id, 0);
    assert_eq!(lc.jobs.len(), 1);
    assert_eq!(lc.jobs[0].job_id, 0);
    assert_eq!(lc.jobs[0].status, JobStatus::Queued);
    assert!(lc.jobs[0].result.is_none());
    assert_eq!(lc.next_job_id, 1);
    assert_eq!(lc.jobs[0].request.len(), 72);
}

#[test]
fn submit_without_cluster_fails() {
    let mut lc = RequestLifecycle::new(None);
    let r = lc.submit(&position(), binding());
    assert_eq!(r, Err(LifecycleError::ClusterUnavailable));
    assert_eq!(lc.jobs.len(), 0);
}

#[test]
fn submit_with_malformed_binding_fails() {
    let mut lc = RequestLifecycle::new(Some(CLUSTER));
    let short_key = BindingKey { pubkey: vec![1; 31], nonce: 1 };
    let r = lc.submit(&position(), short_key);
    assert_eq!(r, Err(LifecycleError::InvalidBinding));
    assert_eq!(lc.jobs.len(), 0);
}

#[test]
fn job_ids_are_fresh_per_submission() {
    let (mut lc, first) = submitted();
    let second = lc.submit(&position(), binding()).unwrap();
    assert_eq!(first, 0);
    assert_eq!(second, 1);
    assert_ne!(lc.jobs[0].job_id, lc.jobs[1].job_id);
}

#[test]
fn verified_response_completes_the_job() {
    let (mut lc, job_id) = submitted();
    let r = lc.on_response(job_id, &good_response(job_id));
    assert_eq!(r, Ok(cluster_result()));
    assert_eq!(lc.jobs[0].status, JobStatus::Completed);
    assert_eq!(lc.jobs[0].result, Some(cluster_result()));
}

#[test]
fn second_response_is_rejected_and_result_kept() {
    let (mut lc, job_id) = submitted();
    let first = lc.on_response(job_id, &good_response(job_id));
    assert_eq!(first, Ok(cluster_result()));

    // A second, equally valid response for the same job.
    let again = lc.on_response(job_id, &good_response(job_id));
    assert_eq!(again, Err(LifecycleError::UnknownOrTerminalJob));
    assert_eq!(lc.jobs[0].status, JobStatus::Completed);
    assert_eq!(lc.jobs[0].result, Some(cluster_result()));

    // And an invalid one changes nothing either.
    let mut bad = good_response(job_id);
    bad.proof.aborted = true;
    let third = lc.on_response(job_id, &bad);
    assert_eq!(third, Err(LifecycleError::UnknownOrTerminalJob));
    assert_eq!(lc.jobs[0].status, JobStatus::Completed);
    assert_eq!(lc.jobs[0].result, Some(cluster_result()));
}

#[test]
fn mismatched_binding_key_aborts_without_result() {
    let (mut lc, job_id) = submitted();
    let mut resp = good_response(job_id);
    resp.proof.binding_pubkey = vec![0xFF; 32];
    let r = lc.on_response(job_id, &resp);
    assert_eq!(r, Err(LifecycleError::ComputationAborted));
    assert_eq!(lc.jobs[0].status, JobStatus::Aborted);
    assert!(lc.jobs[0].result.is_none());
}

#[test]
fn mismatched_nonce_aborts() {
    let (mut lc, job_id) = submitted();
    let mut resp = good_response(job_id);
    resp.proof.nonce = 999;
    let r = lc.on_response(job_id, &resp);
    assert_eq!(r, Err(LifecycleError::ComputationAborted));
    assert_eq!(lc.jobs[0].status, JobStatus::Aborted);
}

#[test]
fn wrong_cluster_aborts() {
    let (mut lc, job_id) = submitted();
    let mut resp = good_response(job_id);
    resp.proof.cluster_id = CLUSTER + 1;
    let r = lc.on_response(job_id, &resp);
    assert_eq!(r, Err(LifecycleError::ComputationAborted));
    assert_eq!(lc.jobs[0].status, JobStatus::Aborted);
}

#[test]
fn proof_naming_another_job_aborts() {
    let (mut lc, job_id) = submitted();
    let mut resp = good_response(job_id);
    resp.proof.job_id = job_id + 1;
    let r = lc.on_response(job_id, &resp);
    assert_eq!(r, Err(LifecycleError::ComputationAborted));
    assert_eq!(lc.jobs[0].status, JobStatus::Aborted);
}

#[test]
fn cluster_reported_abort_aborts() {
    let (mut lc, job_id) = submitted();
    let mut resp = good_response(job_id);
    resp.proof.aborted = true;
    let r = lc.on_response(job_id, &resp);
    assert_eq!(r, Err(LifecycleError::ComputationAborted));
    assert_eq!(lc.jobs[0].status, JobStatus::Aborted);
    assert!(lc.jobs[0].result.is_none());
}

#[test]
fn short_payload_block_aborts() {
    let (mut lc, job_id) = submitted();
    let mut resp = good_response(job_id);
    resp.blocks.health_factor_scaled = vec![0; 7];
    let r = lc.on_response(job_id, &resp);
    assert_eq!(r, Err(LifecycleError::ComputationAborted));
    assert_eq!(lc.jobs[0].status, JobStatus::Aborted);
}

#[test]
fn response_for_unknown_job_is_rejected_without_effect() {
    let (mut lc, job_id) = submitted();
    let r = lc.on_response(job_id + 5, &good_response(job_id + 5));
    assert_eq!(r, Err(LifecycleError::UnknownOrTerminalJob));
    assert_eq!(lc.jobs[0].status, JobStatus::Queued);
    assert_eq!(lc.jobs.len(), 1);
}

#[test]
fn abort_is_terminal_even_for_a_later_valid_response() {
    let (mut lc, job_id) = submitted();
    let mut bad = good_response(job_id);
    bad.proof.binding_pubkey = vec![0; 32];
    assert_eq!(lc.on_response(job_id, &bad), Err(LifecycleError::ComputationAborted));

    let r = lc.on_response(job_id, &good_response(job_id));
    assert_eq!(r, Err(LifecycleError::UnknownOrTerminalJob));
    assert_eq!(lc.jobs[0].status, JobStatus::Aborted);
    assert!(lc.jobs[0].result.is_none());
}

#[test]
fn independent_jobs_are_answered_independently() {
    let (mut lc, first) = submitted();
    let second = lc.submit(&position(), binding()).unwrap();

    let r2 = lc.on_response(second, &good_response(second));
    assert_eq!(r2, Ok(cluster_result()));
    assert_eq!(lc.jobs[0].status, JobStatus::Queued);
    assert_eq!(lc.jobs[1].status, JobStatus::Completed);

    let r1 = lc.on_response(first, &good_response(first));
    assert_eq!(r1, Ok(cluster_result()));
    assert_eq!(lc.jobs[0].status, JobStatus::Completed);
}

#[test]
fn submitted_request_carries_the_position_ciphertexts() {
    let (lc, _) = submitted();
    let req = &lc.jobs[0].request;
    assert_eq!(&req[48..56], vec![0x11; 8].as_slice());
    assert_eq!(&req[56..64], vec![0x22; 8].as_slice());
    assert_eq!(&req[64..72], 80u64.to_le_bytes().as_slice());
}
