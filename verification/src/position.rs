//! The ledger-side record a health check reads: the latest ciphertext
//! blocks for collateral and debt, and the plaintext liquidation
//! threshold. Deposits and borrows elsewhere replace the ciphertexts;
//! submitting a health check only reads them.

use vstd::prelude::*;
use crate::health::PCT_DENOMINATOR;
use crate::wire::CIPHERTEXT_BLOCK_LEN;

verus! {

/// The liquidation threshold every freshly opened position starts with,
/// as a whole percentage.
pub const DEFAULT_LIQUIDATION_THRESHOLD_PCT: u64 = 80;

fn zero_block() -> (r: Vec<u8>)
    ensures
        r@ == Seq::<u8>::new(CIPHERTEXT_BLOCK_LEN as nat, |i: int| 0u8),
{
    let mut block: Vec<u8> = Vec::new();
    let mut i: usize = 0;
    while i < CIPHERTEXT_BLOCK_LEN
        invariant
            i <= CIPHERTEXT_BLOCK_LEN,
            block@.len() == i,
            forall|k: int| 0 <= k < i ==> block@[k] == 0u8,
        decreases CIPHERTEXT_BLOCK_LEN - i,
    {
        block.push(0u8);
        i += 1;
    }
    proof {
        assert(block@ =~= Seq::<u8>::new(CIPHERTEXT_BLOCK_LEN as nat, |i: int| 0u8));
    }
    block
}

/// One position's persisted state, as the health-check entry points see
/// it. The two value fields are opaque ciphertext blocks; only the
/// confidential cluster can read them.
#[derive(Clone, Debug)]
pub struct PositionRecord {
    /// Ciphertext block holding the collateral value.
    pub encrypted_collateral: Vec<u8>,
    /// Ciphertext block holding the debt value.
    pub encrypted_debt: Vec<u8>,
    /// Plaintext liquidation threshold on the 0..=100 scale.
    pub liquidation_threshold_pct: u64,
}

/// The spec-level picture of a position record.
#[verifier::ext_equal]
pub struct PositionModel {
    pub encrypted_collateral: Seq<u8>,
    pub encrypted_debt: Seq<u8>,
    pub liquidation_threshold_pct: u64,
}

impl PositionModel {
    /// The record invariant: both ciphertexts are whole blocks and the
    /// threshold is a whole percentage.
    pub open spec fn wf(self) -> bool {
        &&& self.encrypted_collateral.len() == CIPHERTEXT_BLOCK_LEN
        &&& self.encrypted_debt.len() == CIPHERTEXT_BLOCK_LEN
        &&& self.liquidation_threshold_pct <= PCT_DENOMINATOR
    }
}

impl View for PositionRecord {
    type V = PositionModel;

    open spec fn view(&self) -> PositionModel {
        PositionModel {
            encrypted_collateral: self.encrypted_collateral@,
            encrypted_debt: self.encrypted_debt@,
            liquidation_threshold_pct: self.liquidation_threshold_pct,
        }
    }
}

impl PositionRecord {
    /// The exec-level invariant is the model's.
    pub open spec fn wf(self) -> bool {
        self@.wf()
    }

    /// Open a fresh position: zeroed ciphertext blocks (an encrypted
    /// zero in the trivial encoding used before any deposit) and the
    /// default liquidation threshold.
    pub fn open() -> (r: PositionRecord)
        ensures
            r.wf(),
            r.encrypted_collateral@ == Seq::<u8>::new(CIPHERTEXT_BLOCK_LEN as nat, |i: int| 0u8),
            r.encrypted_debt@ == Seq::<u8>::new(CIPHERTEXT_BLOCK_LEN as nat, |i: int| 0u8),
            r.liquidation_threshold_pct == DEFAULT_LIQUIDATION_THRESHOLD_PCT,
    {
        PositionRecord {
            encrypted_collateral: zero_block(),
            encrypted_debt: zero_block(),
            liquidation_threshold_pct: DEFAULT_LIQUIDATION_THRESHOLD_PCT,
        }
    }

    /// Replace the stored ciphertexts after a deposit or borrow. The
    /// threshold is untouched; malformed blocks are refused before any
    /// change is made.
    pub fn update(&mut self, new_collateral: Vec<u8>, new_debt: Vec<u8>) -> (r: bool)
        requires
            old(self).wf(),
        ensures
            r == (new_collateral@.len() == CIPHERTEXT_BLOCK_LEN && new_debt@.len()
                == CIPHERTEXT_BLOCK_LEN),
            r ==> final(self).encrypted_collateral@ == new_collateral@
                && final(self).encrypted_debt@ == new_debt@,
            !r ==> *final(self) == *old(self),
            final(self).liquidation_threshold_pct == old(self).liquidation_threshold_pct,
            final(self).wf(),
    {
        if new_collateral.len() != CIPHERTEXT_BLOCK_LEN || new_debt.len() != CIPHERTEXT_BLOCK_LEN {
            return false;
        }
        self.encrypted_collateral = new_collateral;
        self.encrypted_debt = new_debt;
        true
    }
}

} // verus!
