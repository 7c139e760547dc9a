//! The request/response lifecycle around a confidential health check.
//!
//! `submit` registers a job in the `Queued` state and produces the
//! encoded request that goes to the external cluster; `on_response`
//! accepts the cluster's answer, verifies that it is bound to exactly
//! the job that was submitted, and only then decodes it. A job makes at
//! most one transition out of `Queued` — to `Completed` with a recorded
//! result, or to `Aborted` — and every later response for the same job
//! is rejected without any effect. Both entry points are specified
//! against the pure transition functions [`spec_submit`] and
//! [`spec_on_response`] over the state model.

use vstd::prelude::*;
use crate::health::HealthResult;
use crate::position::PositionRecord;
use crate::position::PositionModel;
use crate::wire::BINDING_PUBKEY_LEN;
use crate::wire::CIPHERTEXT_BLOCK_LEN;
use crate::wire::REQUEST_LEN;
use crate::wire::ResultBlocks;
use crate::wire::spec_encode_request;
use crate::wire::spec_encode_result;
use crate::wire::spec_decode_result;
use crate::wire::lemma_result_round_trip;
use crate::wire::encode_request;
use crate::wire::decode_result;

verus! {

/// The ways a lifecycle call can fail.
#[derive(Clone, Copy, PartialEq, Eq, Structural, Debug)]
pub enum LifecycleError {
    /// The request's binding key is structurally malformed. The caller
    /// may retry with a corrected binding.
    InvalidBinding,
    /// No active cluster is configured to accept the job. The caller
    /// may retry later.
    ClusterUnavailable,
    /// Verification of the cluster's response failed, or the cluster
    /// reported an abort. Terminal for the job; never retried.
    ComputationAborted,
    /// The response names a job that is unknown or already terminal; it
    /// is rejected without any side effect.
    UnknownOrTerminalJob,
}

/// The status of one computation job.
#[derive(Clone, Copy, PartialEq, Eq, Structural, Debug)]
pub enum JobStatus {
    /// Submitted and waiting for the cluster's response.
    Queued,
    /// A verified response was decoded and recorded.
    Completed,
    /// Verification failed or the cluster reported an abort.
    Aborted,
}

/// The key/nonce pair that binds a response to the request it answers.
#[derive(Clone, Debug)]
pub struct BindingKey {
    /// The x25519 public key the response is encrypted to.
    pub pubkey: Vec<u8>,
    /// The fresh nonce of this request.
    pub nonce: u128,
}

/// One outstanding or finished computation job.
#[derive(Clone, Debug)]
pub struct ComputationJob {
    /// The handle under which responses reference this job.
    pub job_id: u64,
    /// The binding key the submitter chose.
    pub binding: BindingKey,
    /// The encoded request that was handed to the cluster.
    pub request: Vec<u8>,
    /// Where the job stands.
    pub status: JobStatus,
    /// The decoded result, recorded exactly when the job completed.
    pub result: Option<HealthResult>,
}

/// The verification material a response carries: which cluster signed
/// it, which job and binding it answers, and whether the cluster itself
/// reported an abort.
#[derive(Clone, Debug)]
pub struct ResponseProof {
    /// The identity of the cluster whose signature covers the response.
    pub cluster_id: u64,
    /// The job the response claims to answer.
    pub job_id: u64,
    /// The binding public key the response claims to be encrypted to.
    pub binding_pubkey: Vec<u8>,
    /// The nonce the response claims to answer.
    pub nonce: u128,
    /// True when the cluster reported that the computation aborted.
    pub aborted: bool,
}

/// A signed response from the cluster: the proof and the three
/// ciphertext blocks of the result.
#[derive(Clone, Debug)]
pub struct ClusterResponse {
    /// The verification material.
    pub proof: ResponseProof,
    /// The result payload, in the fixed wire order.
    pub blocks: ResultBlocks,
}

/// The spec-level picture of one job.
#[verifier::ext_equal]
pub struct JobModel {
    pub job_id: u64,
    pub binding_pubkey: Seq<u8>,
    pub nonce: u128,
    pub request: Seq<u8>,
    pub status: JobStatus,
    pub result: Option<HealthResult>,
}

/// The spec-level picture of a response.
#[verifier::ext_equal]
pub struct ResponseModel {
    pub cluster_id: u64,
    pub job_id: u64,
    pub binding_pubkey: Seq<u8>,
    pub nonce: u128,
    pub aborted: bool,
    pub liquidatable_block: Seq<u8>,
    pub health_factor_block: Seq<u8>,
    pub shortfall_block: Seq<u8>,
}

/// The spec-level picture of the whole lifecycle state.
#[verifier::ext_equal]
pub struct StateModel {
    pub cluster_id: Option<u64>,
    pub jobs: Seq<JobModel>,
    pub next_job_id: u64,
}

impl View for ComputationJob {
    type V = JobModel;

    open spec fn view(&self) -> JobModel {
        JobModel {
            job_id: self.job_id,
            binding_pubkey: self.binding.pubkey@,
            nonce: self.binding.nonce,
            request: self.request@,
            status: self.status,
            result: self.result,
        }
    }
}

impl View for ClusterResponse {
    type V = ResponseModel;

    open spec fn view(&self) -> ResponseModel {
        ResponseModel {
            cluster_id: self.proof.cluster_id,
            job_id: self.proof.job_id,
            binding_pubkey: self.proof.binding_pubkey@,
            nonce: self.proof.nonce,
            aborted: self.proof.aborted,
            liquidatable_block: self.blocks.is_liquidatable@,
            health_factor_block: self.blocks.health_factor_scaled@,
            shortfall_block: self.blocks.shortfall@,
        }
    }
}

impl JobModel {
    /// The job invariant: a whole binding key, a whole encoded request,
    /// and a recorded result exactly when the job completed.
    pub open spec fn wf(self) -> bool {
        &&& self.binding_pubkey.len() == BINDING_PUBKEY_LEN
        &&& self.request.len() == REQUEST_LEN
        &&& (self.result is Some <==> self.status == JobStatus::Completed)
    }
}

impl StateModel {
    /// The registry invariant: job ids are unique, below the next free
    /// id, and every job obeys its own invariant.
    pub open spec fn wf(self) -> bool {
        &&& forall|i: int, j: int|
            #![trigger self.jobs[i].job_id, self.jobs[j].job_id]
            0 <= i < j < self.jobs.len() ==> self.jobs[i].job_id != self.jobs[j].job_id
        &&& forall|i: int|
            0 <= i < self.jobs.len() ==> (#[trigger] self.jobs[i]).wf() && self.jobs[i].job_id
                < self.next_job_id
    }
}

/// Whether some job in the registry carries this id.
pub open spec fn spec_has_job(jobs: Seq<JobModel>, job_id: u64) -> bool {
    exists|i: int| 0 <= i < jobs.len() && jobs[i].job_id == job_id
}

/// The index of the job with this id (meaningful when [`spec_has_job`]
/// holds and ids are unique).
pub open spec fn spec_job_index(jobs: Seq<JobModel>, job_id: u64) -> int {
    choose|i: int| 0 <= i < jobs.len() && jobs[i].job_id == job_id
}

/// Whether a response passes verification against a job: the cluster it
/// names is the expected one, it references exactly this job and the
/// binding key that job was submitted with, the cluster did not report
/// an abort, and every payload block is whole.
pub open spec fn spec_verifies(
    job: JobModel,
    cluster_id: Option<u64>,
    job_id: u64,
    resp: ResponseModel,
) -> bool {
    &&& !resp.aborted
    &&& cluster_id == Some(resp.cluster_id)
    &&& resp.job_id == job_id
    &&& resp.binding_pubkey == job.binding_pubkey
    &&& resp.nonce == job.nonce
    &&& resp.liquidatable_block.len() == CIPHERTEXT_BLOCK_LEN
    &&& resp.health_factor_block.len() == CIPHERTEXT_BLOCK_LEN
    &&& resp.shortfall_block.len() == CIPHERTEXT_BLOCK_LEN
}

/// The submit transition: with no cluster configured the request is
/// refused, a malformed binding key is refused, and otherwise a fresh
/// job is registered in the `Queued` state with the encoded request.
pub open spec fn spec_submit(
    s: StateModel,
    p: PositionModel,
    binding_pubkey: Seq<u8>,
    nonce: u128,
) -> (StateModel, Result<u64, LifecycleError>) {
    if s.cluster_id is None {
        (s, Err(LifecycleError::ClusterUnavailable))
    } else if binding_pubkey.len() != BINDING_PUBKEY_LEN {
        (s, Err(LifecycleError::InvalidBinding))
    } else {
        let job = JobModel {
            job_id: s.next_job_id,
            binding_pubkey: binding_pubkey,
            nonce: nonce,
            request: spec_encode_request(
                binding_pubkey,
                nonce,
                p.encrypted_collateral,
                p.encrypted_debt,
                p.liquidation_threshold_pct,
            ),
            status: JobStatus::Queued,
            result: None,
        };
        (
            StateModel {
                jobs: s.jobs.push(job),
                next_job_id: (s.next_job_id + 1) as u64,
                ..s
            },
            Ok(s.next_job_id),
        )
    }
}

/// The response transition: a response for an unknown or already
/// terminal job is rejected without effect; a response that fails
/// verification aborts the job and surfaces no result; a verified
/// response is decoded, recorded, and completes the job.
pub open spec fn spec_on_response(s: StateModel, job_id: u64, resp: ResponseModel) -> (
    StateModel,
    Result<HealthResult, LifecycleError>,
) {
    if !spec_has_job(s.jobs, job_id) || s.jobs[spec_job_index(s.jobs, job_id)].status
        != JobStatus::Queued {
        (s, Err(LifecycleError::UnknownOrTerminalJob))
    } else {
        let i = spec_job_index(s.jobs, job_id);
        let job = s.jobs[i];
        if spec_verifies(job, s.cluster_id, job_id, resp) {
            let decoded = spec_decode_result(
                resp.liquidatable_block,
                resp.health_factor_block,
                resp.shortfall_block,
            );
            (
                StateModel {
                    jobs: s.jobs.update(
                        i,
                        JobModel { status: JobStatus::Completed, result: Some(decoded), ..job },
                    ),
                    ..s
                },
                Ok(decoded),
            )
        } else {
            (
                StateModel {
                    jobs: s.jobs.update(i, JobModel { status: JobStatus::Aborted, ..job }),
                    ..s
                },
                Err(LifecycleError::ComputationAborted),
            )
        }
    }
}

/// The lifecycle: the expected cluster, the job registry, and the next
/// free job id.
#[derive(Debug)]
pub struct RequestLifecycle {
    /// The identity of the cluster whose responses are accepted, or
    /// `None` while no cluster is configured.
    pub cluster_id: Option<u64>,
    /// All jobs ever submitted, in submission order.
    pub jobs: Vec<ComputationJob>,
    /// The id the next submitted job will receive.
    pub next_job_id: u64,
}

impl View for RequestLifecycle {
    type V = StateModel;

    open spec fn view(&self) -> StateModel {
        StateModel {
            cluster_id: self.cluster_id,
            jobs: Seq::new(self.jobs@.len(), |i: int| self.jobs@[i]@),
            next_job_id: self.next_job_id,
        }
    }
}

fn bytes_eq(a: &Vec<u8>, b: &Vec<u8>) -> (r: bool)
    ensures
        r == (a@ == b@),
{
    if a.len() != b.len() {
        return false;
    }
    let mut i: usize = 0;
    while i < a.len()
        invariant
            i <= a@.len(),
            a@.len() == b@.len(),
            forall|k: int| 0 <= k < i ==> a@[k] == b@[k],
        decreases a@.len() - i,
    {
        if a[i] != b[i] {
            return false;
        }
        i += 1;
    }
    proof {
        assert(a@ =~= b@);
    }
    true
}

impl RequestLifecycle {
    /// The exec-level invariant is the model's.
    pub open spec fn wf(self) -> bool {
        self@.wf()
    }

    /// Start a lifecycle with an empty registry. `cluster_id` names the
    /// cluster whose responses will be accepted; with `None`, every
    /// submission is refused as [`LifecycleError::ClusterUnavailable`].
    pub fn new(cluster_id: Option<u64>) -> (r: RequestLifecycle)
        ensures
            r@ == (StateModel { cluster_id, jobs: Seq::<JobModel>::empty(), next_job_id: 0u64 }),
            r.wf(),
    {
        let r = RequestLifecycle { cluster_id, jobs: Vec::new(), next_job_id: 0 };
        proof {
            assert(r@.jobs =~= Seq::<JobModel>::empty());
            assert(r@ =~= StateModel {
                cluster_id,
                jobs: Seq::<JobModel>::empty(),
                next_job_id: 0u64,
            });
        }
        r
    }

    fn find_job(&self, job_id: u64) -> (r: Option<usize>)
        ensures
            match r {
                Some(i) => i < self@.jobs.len() && self@.jobs[i as int].job_id == job_id,
                None => !spec_has_job(self@.jobs, job_id),
            },
    {
        let mut i: usize = 0;
        while i < self.jobs.len()
            invariant
                i <= self@.jobs.len(),
                forall|k: int| 0 <= k < i ==> self@.jobs[k].job_id != job_id,
            decreases self@.jobs.len() - i,
        {
            if self.jobs[i].job_id == job_id {
                return Some(i);
            }
            i += 1;
        }
        None
    }

    /// Register a health check for a position: record a fresh `Queued`
    /// job holding the encoded request for the cluster, and return the
    /// job's id at once, without waiting for any result. Fails with
    /// [`LifecycleError::ClusterUnavailable`] when no cluster is
    /// configured and with [`LifecycleError::InvalidBinding`] when the
    /// binding key is malformed; exactly the transition described by
    /// [`spec_submit`], which changes nothing on failure.
    pub fn submit(&mut self, position: &PositionRecord, binding: BindingKey) -> (r: Result<
        u64,
        LifecycleError,
    >)
        requires
            old(self).wf(),
            position.wf(),
            old(self).next_job_id < u64::MAX,
        ensures
            (final(self)@, r) == spec_submit(old(self)@, position@, binding.pubkey@, binding.nonce),
            final(self).wf(),
    {
        if self.cluster_id.is_none() {
            return Err(LifecycleError::ClusterUnavailable);
        }
        if binding.pubkey.len() != BINDING_PUBKEY_LEN {
            return Err(LifecycleError::InvalidBinding);
        }
        let job_id = self.next_job_id;
        let request = encode_request(
            &binding.pubkey,
            binding.nonce,
            &position.encrypted_collateral,
            &position.encrypted_debt,
            position.liquidation_threshold_pct,
        );
        let job = ComputationJob { job_id, binding, request, status: JobStatus::Queued, result: None };
        self.jobs.push(job);
        self.next_job_id = job_id + 1;
        proof {
            let expected = spec_submit(old(self)@, position@, binding.pubkey@, binding.nonce).0;
            assert(self@.jobs =~= expected.jobs);
            assert(self@ =~= expected);
        }
        Ok(job_id)
    }

    /// Process the cluster's response for a job: exactly the transition
    /// described by [`spec_on_response`]. A response for an unknown or
    /// already terminal job is rejected with
    /// [`LifecycleError::UnknownOrTerminalJob`] and changes nothing; a
    /// response that fails verification moves the job to `Aborted` and
    /// fails with [`LifecycleError::ComputationAborted`] without
    /// surfacing any result; a verified response is decoded, recorded
    /// on the now `Completed` job, and returned.
    pub fn on_response(&mut self, job_id: u64, response: &ClusterResponse) -> (r: Result<
        HealthResult,
        LifecycleError,
    >)
        requires
            old(self).wf(),
        ensures
            (final(self)@, r) == spec_on_response(old(self)@, job_id, response@),
            final(self).wf(),
    {
        let found = self.find_job(job_id);
        let i: usize = match found {
            Some(i) => i,
            None => {
                return Err(LifecycleError::UnknownOrTerminalJob);
            },
        };
        proof {
            lemma_job_index_unique(self@, job_id, i as int);
        }
        let queued = match self.jobs[i].status {
            JobStatus::Queued => true,
            _ => false,
        };
        if !queued {
            return Err(LifecycleError::UnknownOrTerminalJob);
        }
        let cluster_matches = match self.cluster_id {
            Some(c) => c == response.proof.cluster_id,
            None => false,
        };
        let verified = !response.proof.aborted && cluster_matches && response.proof.job_id == job_id
            && bytes_eq(&response.proof.binding_pubkey, &self.jobs[i].binding.pubkey)
            && response.proof.nonce == self.jobs[i].binding.nonce
            && response.blocks.is_liquidatable.len() == CIPHERTEXT_BLOCK_LEN
            && response.blocks.health_factor_scaled.len() == CIPHERTEXT_BLOCK_LEN
            && response.blocks.shortfall.len() == CIPHERTEXT_BLOCK_LEN;
        if verified {
            let decoded = decode_result(&response.blocks);
            self.jobs[i].status = JobStatus::Completed;
            self.jobs[i].result = Some(decoded);
            proof {
                let expected = spec_on_response(old(self)@, job_id, response@).0;
                assert(self@.jobs =~= expected.jobs);
                assert(self@ =~= expected);
            }
            Ok(decoded)
        } else {
            self.jobs[i].status = JobStatus::Aborted;
            proof {
                let expected = spec_on_response(old(self)@, job_id, response@).0;
                assert(self@.jobs =~= expected.jobs);
                assert(self@ =~= expected);
            }
            Err(LifecycleError::ComputationAborted)
        }
    }
}

/// With unique ids, any index whose job carries the id is the index
/// [`spec_job_index`] picks.
proof fn lemma_job_index_unique(s: StateModel, job_id: u64, i: int)
    requires
        s.wf(),
        0 <= i < s.jobs.len(),
        s.jobs[i].job_id == job_id,
    ensures
        spec_has_job(s.jobs, job_id),
        spec_job_index(s.jobs, job_id) == i,
{
    assert(spec_has_job(s.jobs, job_id));
    let k = spec_job_index(s.jobs, job_id);
    assert(0 <= k < s.jobs.len() && s.jobs[k].job_id == job_id);
    if k < i {
        assert(s.jobs[k].job_id != s.jobs[i].job_id);
    } else if i < k {
        assert(s.jobs[i].job_id != s.jobs[k].job_id);
    }
}

/// Submitting preserves the registry invariant.
pub proof fn lemma_submit_preserves_wf(
    s: StateModel,
    p: PositionModel,
    binding_pubkey: Seq<u8>,
    nonce: u128,
)
    requires
        s.wf(),
        p.wf(),
        s.next_job_id < u64::MAX,
    ensures
        spec_submit(s, p, binding_pubkey, nonce).0.wf(),
{
    vstd::bytes::lemma_auto_spec_u64_to_from_le_bytes();
    vstd::bytes::lemma_auto_spec_u128_to_from_le_bytes();
}

/// Processing a response preserves the registry invariant.
pub proof fn lemma_on_response_preserves_wf(s: StateModel, job_id: u64, resp: ResponseModel)
    requires
        s.wf(),
    ensures
        spec_on_response(s, job_id, resp).0.wf(),
{
}

/// The lifecycle surfaces exactly what the cluster computed: when a
/// verified response carries the blocks that encode the cluster's
/// result, that result — and no other — is returned and recorded on the
/// completed job.
pub proof fn lemma_verified_response_returns_cluster_result(
    s: StateModel,
    job_id: u64,
    resp: ResponseModel,
    computed: HealthResult,
)
    requires
        s.wf(),
        spec_has_job(s.jobs, job_id),
        s.jobs[spec_job_index(s.jobs, job_id)].status == JobStatus::Queued,
        spec_verifies(s.jobs[spec_job_index(s.jobs, job_id)], s.cluster_id, job_id, resp),
        (resp.liquidatable_block, resp.health_factor_block, resp.shortfall_block)
            == spec_encode_result(computed),
    ensures
        spec_on_response(s, job_id, resp).1 == Ok::<HealthResult, LifecycleError>(computed),
        spec_on_response(s, job_id, resp).0.jobs[spec_job_index(s.jobs, job_id)].result == Some(
            computed,
        ),
        spec_on_response(s, job_id, resp).0.jobs[spec_job_index(s.jobs, job_id)].status
            == JobStatus::Completed,
{
    lemma_result_round_trip(computed);
}

/// A terminal job never moves again: while the job with this id is not
/// `Queued`, every response for it — whatever it carries — is rejected
/// as unknown-or-terminal and the state is left exactly as it was.
pub proof fn lemma_terminal_job_never_moves(s: StateModel, job_id: u64, resp: ResponseModel)
    requires
        s.wf(),
        spec_has_job(s.jobs, job_id),
        s.jobs[spec_job_index(s.jobs, job_id)].status != JobStatus::Queued,
    ensures
        spec_on_response(s, job_id, resp) == (
            s,
            Err::<HealthResult, LifecycleError>(LifecycleError::UnknownOrTerminalJob),
        ),
{
}

/// Only the first response for a job takes effect. Once a response has
/// completed a job and returned its result, every further response for
/// the same id — valid or not — is rejected as unknown-or-terminal and
/// leaves the whole state, the recorded result included, exactly as it
/// was.
pub proof fn lemma_second_response_rejected(
    s: StateModel,
    job_id: u64,
    first: ResponseModel,
    second: ResponseModel,
)
    requires
        s.wf(),
        spec_on_response(s, job_id, first).1 is Ok,
    ensures
        ({
            let (s1, r1) = spec_on_response(s, job_id, first);
            let (s2, r2) = spec_on_response(s1, job_id, second);
            &&& s1.jobs[spec_job_index(s1.jobs, job_id)].status == JobStatus::Completed
            &&& s1.jobs[spec_job_index(s1.jobs, job_id)].result == Some(r1->Ok_0)
            &&& r2 == Err::<HealthResult, LifecycleError>(LifecycleError::UnknownOrTerminalJob)
            &&& s2 == s1
        }),
{
    let i = spec_job_index(s.jobs, job_id);
    let s1 = spec_on_response(s, job_id, first).0;
    lemma_on_response_preserves_wf(s, job_id, first);
    assert(s1.jobs[i].job_id == job_id);
    lemma_job_index_unique(s1, job_id, i);
}

/// A response whose proof does not name the job's binding key never
/// yields a result: the job moves to `Aborted`, the call fails with
/// [`LifecycleError::ComputationAborted`], and no result is recorded.
pub proof fn lemma_mismatched_binding_aborts(s: StateModel, job_id: u64, resp: ResponseModel)
    requires
        s.wf(),
        spec_has_job(s.jobs, job_id),
        s.jobs[spec_job_index(s.jobs, job_id)].status == JobStatus::Queued,
        resp.binding_pubkey != s.jobs[spec_job_index(s.jobs, job_id)].binding_pubkey || resp.nonce
            != s.jobs[spec_job_index(s.jobs, job_id)].nonce,
    ensures
        spec_on_response(s, job_id, resp).1 == Err::<HealthResult, LifecycleError>(
            LifecycleError::ComputationAborted,
        ),
        spec_on_response(s, job_id, resp).0.jobs[spec_job_index(s.jobs, job_id)].status
            == JobStatus::Aborted,
        spec_on_response(s, job_id, resp).0.jobs[spec_job_index(s.jobs, job_id)].result is None,
{
}

} // verus!
