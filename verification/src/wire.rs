//! The wire contract with the confidential cluster.
//!
//! A request is one byte string: the 32-byte binding public key, the
//! 16-byte little-endian nonce, the collateral ciphertext block, the
//! debt ciphertext block, and the 8-byte little-endian threshold. A
//! response carries three fixed-size blocks in a fixed order —
//! liquidation flag, then health factor, then shortfall — each decoding
//! as a little-endian unsigned 64-bit integer.

use vstd::prelude::*;
use vstd::bytes::spec_u64_to_le_bytes;
use vstd::bytes::spec_u64_from_le_bytes;
use vstd::bytes::spec_u128_to_le_bytes;
use vstd::bytes::lemma_auto_spec_u64_to_from_le_bytes;
use vstd::bytes::lemma_auto_spec_u128_to_from_le_bytes;
use vstd::bytes::u64_to_le_bytes;
use vstd::bytes::u64_from_le_bytes;
use vstd::bytes::u128_to_le_bytes;
use crate::health::HealthResult;

verus! {

/// Length of the binding public key (an x25519 public key).
pub const BINDING_PUBKEY_LEN: usize = 32;

/// Length of one ciphertext block; each block carries one 64-bit field.
pub const CIPHERTEXT_BLOCK_LEN: usize = 8;

/// Length of an encoded request: binding key, nonce, collateral block,
/// debt block, threshold.
pub const REQUEST_LEN: usize = 72;

/// The bytes of an encoded request, in the fixed field order.
pub open spec fn spec_encode_request(
    binding_pubkey: Seq<u8>,
    nonce: u128,
    encrypted_collateral: Seq<u8>,
    encrypted_debt: Seq<u8>,
    liquidation_threshold_pct: u64,
) -> Seq<u8> {
    binding_pubkey + spec_u128_to_le_bytes(nonce) + encrypted_collateral + encrypted_debt
        + spec_u64_to_le_bytes(liquidation_threshold_pct)
}

fn push_bytes(out: &mut Vec<u8>, src: &Vec<u8>)
    ensures
        final(out)@ == old(out)@ + src@,
{
    let ghost prefix = out@;
    let mut i: usize = 0;
    while i < src.len()
        invariant
            i <= src@.len(),
            out@ == prefix + src@.subrange(0, i as int),
        decreases src@.len() - i,
    {
        out.push(src[i]);
        proof {
            assert(prefix + src@.subrange(0, i as int) + seq![src@[i as int]] =~= prefix
                + src@.subrange(0, i as int + 1));
        }
        i += 1;
    }
    proof {
        assert(prefix + src@.subrange(0, src@.len() as int) =~= prefix + src@);
    }
}

/// Encode a health-check request for the cluster, in the fixed field
/// order of the wire contract.
pub fn encode_request(
    binding_pubkey: &Vec<u8>,
    nonce: u128,
    encrypted_collateral: &Vec<u8>,
    encrypted_debt: &Vec<u8>,
    liquidation_threshold_pct: u64,
) -> (r: Vec<u8>)
    requires
        binding_pubkey@.len() == BINDING_PUBKEY_LEN,
        encrypted_collateral@.len() == CIPHERTEXT_BLOCK_LEN,
        encrypted_debt@.len() == CIPHERTEXT_BLOCK_LEN,
    ensures
        r@ == spec_encode_request(
            binding_pubkey@,
            nonce,
            encrypted_collateral@,
            encrypted_debt@,
            liquidation_threshold_pct,
        ),
        r@.len() == REQUEST_LEN,
{
    proof {
        lemma_auto_spec_u64_to_from_le_bytes();
        lemma_auto_spec_u128_to_from_le_bytes();
    }
    let mut out: Vec<u8> = Vec::new();
    push_bytes(&mut out, binding_pubkey);
    let nonce_bytes = u128_to_le_bytes(nonce);
    push_bytes(&mut out, &nonce_bytes);
    push_bytes(&mut out, encrypted_collateral);
    push_bytes(&mut out, encrypted_debt);
    let threshold_bytes = u64_to_le_bytes(liquidation_threshold_pct);
    push_bytes(&mut out, &threshold_bytes);
    proof {
        assert(Seq::<u8>::empty() + binding_pubkey@ + spec_u128_to_le_bytes(nonce)
            + encrypted_collateral@ + encrypted_debt@ + spec_u64_to_le_bytes(
            liquidation_threshold_pct,
        ) =~= spec_encode_request(
            binding_pubkey@,
            nonce,
            encrypted_collateral@,
            encrypted_debt@,
            liquidation_threshold_pct,
        ));
    }
    out
}

/// The three response blocks, in the fixed wire order.
#[derive(Clone, Debug)]
pub struct ResultBlocks {
    /// Block 0: decodes to 1 for a liquidatable position, 0 otherwise.
    pub is_liquidatable: Vec<u8>,
    /// Block 1: the scaled health factor.
    pub health_factor_scaled: Vec<u8>,
    /// Block 2: the shortfall amount.
    pub shortfall: Vec<u8>,
}

impl ResultBlocks {
    /// Every block is a whole ciphertext block.
    pub open spec fn wf(self) -> bool {
        &&& self.is_liquidatable@.len() == CIPHERTEXT_BLOCK_LEN
        &&& self.health_factor_scaled@.len() == CIPHERTEXT_BLOCK_LEN
        &&& self.shortfall@.len() == CIPHERTEXT_BLOCK_LEN
    }
}

/// The result encoded by three well-formed blocks: each block is read
/// as a little-endian 64-bit integer, and the position counts as
/// liquidatable exactly when block 0 reads 1.
pub open spec fn spec_decode_result(
    liquidatable_block: Seq<u8>,
    health_factor_block: Seq<u8>,
    shortfall_block: Seq<u8>,
) -> HealthResult {
    HealthResult {
        is_liquidatable: spec_u64_from_le_bytes(liquidatable_block) == 1,
        health_factor_scaled: spec_u64_from_le_bytes(health_factor_block),
        shortfall: spec_u64_from_le_bytes(shortfall_block),
    }
}

/// The blocks that encode a result: the flag as 1 or 0, then the two
/// amounts, each as little-endian bytes.
pub open spec fn spec_encode_result(r: HealthResult) -> (Seq<u8>, Seq<u8>, Seq<u8>) {
    (
        spec_u64_to_le_bytes(
            if r.is_liquidatable {
                1u64
            } else {
                0u64
            },
        ),
        spec_u64_to_le_bytes(r.health_factor_scaled),
        spec_u64_to_le_bytes(r.shortfall),
    )
}

/// Decode a response's blocks into a [`HealthResult`].
pub fn decode_result(blocks: &ResultBlocks) -> (r: HealthResult)
    requires
        blocks.wf(),
    ensures
        r == spec_decode_result(
            blocks.is_liquidatable@,
            blocks.health_factor_scaled@,
            blocks.shortfall@,
        ),
{
    let flag = u64_from_le_bytes(blocks.is_liquidatable.as_slice());
    let health_factor_scaled = u64_from_le_bytes(blocks.health_factor_scaled.as_slice());
    let shortfall = u64_from_le_bytes(blocks.shortfall.as_slice());
    HealthResult { is_liquidatable: flag == 1, health_factor_scaled, shortfall }
}

/// Encode a result as the three response blocks of the wire contract.
/// This is the cluster's side of the exchange; the lifecycle only
/// decodes, but tests and simulations build responses with it.
pub fn encode_result(r: &HealthResult) -> (blocks: ResultBlocks)
    ensures
        blocks.wf(),
        (blocks.is_liquidatable@, blocks.health_factor_scaled@, blocks.shortfall@)
            == spec_encode_result(*r),
{
    proof {
        lemma_auto_spec_u64_to_from_le_bytes();
    }
    let flag: u64 = if r.is_liquidatable {
        1
    } else {
        0
    };
    ResultBlocks {
        is_liquidatable: u64_to_le_bytes(flag),
        health_factor_scaled: u64_to_le_bytes(r.health_factor_scaled),
        shortfall: u64_to_le_bytes(r.shortfall),
    }
}

/// Encoding a result and decoding the blocks gives the result back:
/// the three-block wire format loses nothing.
pub proof fn lemma_result_round_trip(r: HealthResult)
    ensures
        spec_decode_result(
            spec_encode_result(r).0,
            spec_encode_result(r).1,
            spec_encode_result(r).2,
        ) == r,
{
    lemma_auto_spec_u64_to_from_le_bytes();
}

} // verus!
