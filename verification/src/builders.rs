//! The per-kind operation builders: field setters, the domain-tagged signing
//! step, and an infallible finalizer.

use vstd::prelude::*;
use crate::bytes::{enc_u64, u64_to_le_bytes, push_u64, push_bytes, push_repeat, copy_bytes, copy_u64s};
use crate::config::{ChainSpec, Domain, Fork, domain_of};
use crate::ops::{
    AttDataV, AttestationData, AttesterSlashing, BeaconBlock, Deposit, IndexedAttestation,
    VoluntaryExit,
};
use crate::sign::{sig_bytes, compute_signature, Signer};
use crate::state::epoch_at;

verus! {

/// Builder for a voluntary exit.
pub struct VoluntaryExitBuilder {
    pub epoch: u64,
    pub validator_index: u64,
    pub signature: Option<Vec<u8>>,
}

impl VoluntaryExitBuilder {
    /// Starts a builder for an exit of `validator_index` at `epoch`.
    pub fn new(epoch: u64, validator_index: u64) -> (r: Self)
        ensures
            r.epoch == epoch,
            r.validator_index == validator_index,
            r.signature is None,
    {
        VoluntaryExitBuilder { epoch, validator_index, signature: None }
    }

    /// Signs the exit's unsigned fields under the voluntary-exit domain.
    pub fn sign(&mut self, fork: &Fork, sp: &ChainSpec)
        requires
            sp.wf(),
            fork.wf(),
        ensures
            final(self).epoch == old(self).epoch,
            final(self).validator_index == old(self).validator_index,
            final(self).signature matches Some(s) && s@ == sig_bytes(
                old(self).validator_index,
                old(self).epoch,
                domain_of(*sp, old(self).epoch, Domain::VoluntaryExit, *fork),
                enc_u64(old(self).epoch) + enc_u64(old(self).validator_index),
            ),
    {
        let mut msg = u64_to_le_bytes(self.epoch);
        push_u64(&mut msg, self.validator_index);
        assert(msg@ =~= enc_u64(self.epoch) + enc_u64(self.validator_index));
        let domain = sp.get_domain(self.epoch, Domain::VoluntaryExit, fork);
        self.signature = Some(compute_signature(self.validator_index, self.epoch, domain, &msg));
    }

    /// Finalizes the exit; the builder must have been signed.
    pub fn build(self) -> (r: VoluntaryExit)
        requires
            self.signature is Some,
        ensures
            r.epoch == self.epoch,
            r.validator_index == self.validator_index,
            r.signature@ == self.signature.unwrap()@,
    {
        match self.signature {
            Some(s) => VoluntaryExit {
                epoch: self.epoch,
                validator_index: self.validator_index,
                signature: s,
            },
            None => VoluntaryExit { epoch: self.epoch, validator_index: self.validator_index, signature: Vec::new() },
        }
    }
}

/// Builder for a minimal proposer-signed block.
pub struct BeaconBlockBuilder {
    pub slot: u64,
    pub previous_block_root: Vec<u8>,
    pub randao_reveal: Vec<u8>,
}

impl BeaconBlockBuilder {
    /// Starts a block builder with an all-zero parent root and reveal.
    pub fn new(sp: &ChainSpec) -> (r: Self)
        ensures
            r.slot == 0,
            r.previous_block_root@ == Seq::new(32, |i: int| 0u8),
            r.randao_reveal@ == Seq::new(96, |i: int| 0u8),
    {
        let mut root: Vec<u8> = Vec::new();
        push_repeat(&mut root, 0, 32);
        let mut reveal: Vec<u8> = Vec::new();
        push_repeat(&mut reveal, 0, 96);
        BeaconBlockBuilder { slot: 0, previous_block_root: root, randao_reveal: reveal }
    }

    /// Sets the block's slot.
    pub fn set_slot(&mut self, slot: u64)
        ensures
            final(self).slot == slot,
            final(self).previous_block_root@ == old(self).previous_block_root@,
            final(self).randao_reveal@ == old(self).randao_reveal@,
    {
        self.slot = slot;
    }

    /// Sets the root of the block this one builds on.
    pub fn set_previous_block_root(&mut self, root: Vec<u8>)
        ensures
            final(self).slot == old(self).slot,
            final(self).previous_block_root@ == root@,
            final(self).randao_reveal@ == old(self).randao_reveal@,
    {
        self.previous_block_root = root;
    }

    /// Sets the randao reveal: the proposer's signature over the target epoch
    /// under the randao domain.
    pub fn set_randao_reveal(&mut self, proposer: u64, epoch: u64, fork: &Fork, sp: &ChainSpec)
        requires
            sp.wf(),
            fork.wf(),
        ensures
            final(self).slot == old(self).slot,
            final(self).previous_block_root@ == old(self).previous_block_root@,
            final(self).randao_reveal@ == sig_bytes(
                proposer,
                epoch,
                domain_of(*sp, epoch, Domain::Randao, *fork),
                enc_u64(epoch),
            ),
    {
        let msg = u64_to_le_bytes(epoch);
        let domain = sp.get_domain(epoch, Domain::Randao, fork);
        self.randao_reveal = compute_signature(proposer, epoch, domain, &msg);
    }

    /// Finalizes the block, signing its fields with the proposer's identity
    /// under the block-proposal domain at the slot's epoch.
    pub fn build(self, proposer: u64, fork: &Fork, sp: &ChainSpec) -> (r: BeaconBlock)
        requires
            sp.wf(),
            fork.wf(),
        ensures
            r.slot == self.slot,
            r.previous_block_root@ == self.previous_block_root@,
            r.randao_reveal@ == self.randao_reveal@,
            r.signature@ == sig_bytes(
                proposer,
                epoch_at(*sp, self.slot),
                domain_of(*sp, epoch_at(*sp, self.slot), Domain::BeaconProposer, *fork),
                enc_u64(self.slot) + self.previous_block_root@ + self.randao_reveal@,
            ),
    {
        let epoch = self.slot / sp.slots_per_epoch;
        let mut msg = u64_to_le_bytes(self.slot);
        push_bytes(&mut msg, &self.previous_block_root);
        push_bytes(&mut msg, &self.randao_reveal);
        assert(msg@ =~= enc_u64(self.slot) + self.previous_block_root@ + self.randao_reveal@);
        let domain = sp.get_domain(epoch, Domain::BeaconProposer, fork);
        let signature = compute_signature(proposer, epoch, domain, &msg);
        BeaconBlock {
            slot: self.slot,
            previous_block_root: self.previous_block_root,
            randao_reveal: self.randao_reveal,
            signature,
        }
    }
}

/// Builder for a deposit.
pub struct DepositBuilder {
    pub pubkey: Vec<u8>,
    pub amount: u64,
    pub index: u64,
    pub signature: Option<Vec<u8>>,
}

impl DepositBuilder {
    /// Starts a deposit of `amount` for `pubkey`.
    pub fn new(pubkey: Vec<u8>, amount: u64) -> (r: Self)
        ensures
            r.pubkey@ == pubkey@,
            r.amount == amount,
            r.index == 0,
            r.signature is None,
    {
        DepositBuilder { pubkey, amount, index: 0, signature: None }
    }

    /// Sets the deposit's index to match the state's running counter.
    pub fn set_index(&mut self, index: u64)
        ensures
            final(self).pubkey@ == old(self).pubkey@,
            final(self).amount == old(self).amount,
            final(self).index == index,
            final(self).signature == old(self).signature,
    {
        self.index = index;
    }

    /// Signs the deposit's key and amount under the deposit domain.
    pub fn sign(&mut self, epoch: u64, fork: &Fork, sp: &ChainSpec)
        requires
            sp.wf(),
            fork.wf(),
        ensures
            final(self).pubkey@ == old(self).pubkey@,
            final(self).amount == old(self).amount,
            final(self).index == old(self).index,
            final(self).signature matches Some(s) && s@ == sig_bytes(
                old(self).index,
                epoch,
                domain_of(*sp, epoch, Domain::Deposit, *fork),
                old(self).pubkey@ + enc_u64(old(self).amount),
            ),
    {
        let mut msg = copy_bytes(&self.pubkey);
        push_u64(&mut msg, self.amount);
        assert(msg@ =~= self.pubkey@ + enc_u64(self.amount));
        let domain = sp.get_domain(epoch, Domain::Deposit, fork);
        self.signature = Some(compute_signature(self.index, epoch, domain, &msg));
    }

    /// Finalizes the deposit; the builder must have been signed.
    pub fn build(self) -> (r: Deposit)
        requires
            self.signature is Some,
        ensures
            r.pubkey@ == self.pubkey@,
            r.amount == self.amount,
            r.index == self.index,
            r.signature@ == self.signature.unwrap()@,
    {
        match self.signature {
            Some(s) => Deposit {
                pubkey: self.pubkey,
                amount: self.amount,
                index: self.index,
                signature: s,
            },
            None => Deposit { pubkey: self.pubkey, amount: self.amount, index: self.index, signature: Vec::new() },
        }
    }
}

/// The message an attestation signs: its data's fields.
pub open spec fn attestation_message(d: AttDataV) -> Seq<u8> {
    enc_u64(d.source_epoch) + enc_u64(d.target_epoch) + d.beacon_block_root
}

/// Builds the message of an attestation data record.
fn attestation_msg(d: &AttestationData) -> (r: Vec<u8>)
    ensures
        r@ == attestation_message(d@),
{
    let mut msg = u64_to_le_bytes(d.source_epoch);
    push_u64(&mut msg, d.target_epoch);
    push_bytes(&mut msg, &d.beacon_block_root);
    assert(msg@ =~= attestation_message(d@));
    msg
}

/// Builds a double-vote attester slashing: the given validators attest twice
/// to the same target epoch with different block roots, each attestation
/// signed through the supplied signing capability. Returns `None` when there
/// is no attester or the signer does not know the first one.
pub fn double_vote<S: Signer>(validator_indices: &Vec<u64>, signer: &S, target_epoch: u64) -> (r:
    Option<AttesterSlashing>)
    requires
        signer.wf(),
    ensures
        r is Some <==> validator_indices@.len() > 0 && signer.knows(validator_indices@[0]),
        r matches Some(sl) ==> {
            &&& sl@.attestation_1.attester_indices == validator_indices@
            &&& sl@.attestation_2.attester_indices == validator_indices@
            &&& sl@.attestation_1.data == (AttDataV {
                source_epoch: 0,
                target_epoch,
                beacon_block_root: Seq::new(32, |i: int| 1u8),
            })
            &&& sl@.attestation_2.data == (AttDataV {
                source_epoch: 0,
                target_epoch,
                beacon_block_root: Seq::new(32, |i: int| 2u8),
            })
            &&& sl@.attestation_1.signature == sig_bytes(
                validator_indices@[0],
                target_epoch,
                signer.domain_value(target_epoch, Domain::Attestation),
                attestation_message(sl@.attestation_1.data),
            )
            &&& sl@.attestation_2.signature == sig_bytes(
                validator_indices@[0],
                target_epoch,
                signer.domain_value(target_epoch, Domain::Attestation),
                attestation_message(sl@.attestation_2.data),
            )
            &&& sl@.attestation_1.data.target_epoch == sl@.attestation_2.data.target_epoch
            &&& sl@.attestation_1.data != sl@.attestation_2.data
        },
{
    if validator_indices.len() == 0 {
        return None;
    }
    let first = validator_indices[0];
    let mut root1: Vec<u8> = Vec::new();
    push_repeat(&mut root1, 1, 32);
    let data_1 = AttestationData { source_epoch: 0, target_epoch, beacon_block_root: root1 };
    let mut root2: Vec<u8> = Vec::new();
    push_repeat(&mut root2, 2, 32);
    let data_2 = AttestationData { source_epoch: 0, target_epoch, beacon_block_root: root2 };
    let msg1 = attestation_msg(&data_1);
    let msg2 = attestation_msg(&data_2);
    let sig1 = match signer.sign(first, &msg1, target_epoch, Domain::Attestation) {
        Some(s) => s,
        None => {
            return None;
        },
    };
    let sig2 = match signer.sign(first, &msg2, target_epoch, Domain::Attestation) {
        Some(s) => s,
        None => {
            return None;
        },
    };
    let attestation_1 = IndexedAttestation {
        attester_indices: copy_u64s(validator_indices),
        data: data_1,
        signature: sig1,
    };
    let attestation_2 = IndexedAttestation {
        attester_indices: copy_u64s(validator_indices),
        data: data_2,
        signature: sig2,
    };
    proof {
        assert(attestation_1@.data.beacon_block_root =~= Seq::new(32, |i: int| 1u8));
        assert(attestation_2@.data.beacon_block_root =~= Seq::new(32, |i: int| 2u8));
        assert(Seq::new(32, |i: int| 1u8)[0] != Seq::new(32, |i: int| 2u8)[0]);
    }
    Some(AttesterSlashing { attestation_1, attestation_2 })
}

} // verus!
