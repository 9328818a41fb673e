//! The library-wide laws: determinism of generation, preconditioning
//! equations, and when the acceptance check must refuse an operation.

use vstd::prelude::*;
use crate::codec::enc_operation;
use crate::config::{ChainSpec, GenConfig};
use crate::gate::{
    GateError, deposit_outcome, is_double_vote, slashing_outcome, transfer_outcome,
};
use crate::generate::{
    built_deposit, built_exit, built_header_block, built_randao_block, built_slashing,
    built_transfer, exit_precondition, exit_proposer,
};
use crate::hexfmt::hex_chars;
use crate::ops::{AttV, DepositV, OperationV, SlashingV, TransferV};
use crate::state::{RelativeEpoch, StateView, epoch_at, proposer_lookup};

verus! {

/// Generation is deterministic: from equal fixture states and configuration,
/// every kind's built operation, its canonical bytes and its hex rendering
/// are equal, being functions of those inputs alone.
pub proof fn lemma_generation_deterministic(
    st1: StateView,
    st2: StateView,
    sp: ChainSpec,
    cfg: GenConfig,
    pk: Seq<u8>,
)
    requires
        st1 == st2,
    ensures
        built_exit(st1, sp, cfg) == built_exit(st2, sp, cfg),
        built_header_block(st1, sp) == built_header_block(st2, sp),
        built_slashing(st1, sp, cfg) == built_slashing(st2, sp, cfg),
        built_deposit(st1, pk, sp) == built_deposit(st2, pk, sp),
        built_randao_block(st1, sp) == built_randao_block(st2, sp),
        built_transfer(st1, pk, sp) == built_transfer(st2, pk, sp),
        hex_chars(enc_operation(OperationV::Exit(built_exit(st1, sp, cfg)))) == hex_chars(
            enc_operation(OperationV::Exit(built_exit(st2, sp, cfg))),
        ),
{
}

/// The exit generator's preconditioned state sits exactly at the base epoch
/// plus the lock-up period, and the exiting validator is the proposer
/// selected at that preconditioned state.
pub proof fn lemma_exit_preconditioning(st: StateView, sp: ChainSpec, cfg: GenConfig)
    requires
        sp.wf(),
        st.validators.len() > 0,
        cfg.state_epoch + sp.persistent_committee_period <= 0xffff_ffff_ffff_ffff,
        (cfg.state_epoch + sp.persistent_committee_period) * sp.slots_per_epoch
            <= 0xffff_ffff_ffff_ffff,
    ensures
        built_exit(st, sp, cfg).epoch == cfg.state_epoch + sp.persistent_committee_period,
        epoch_at(sp, exit_precondition(st, sp, cfg).slot) == cfg.state_epoch
            + sp.persistent_committee_period,
        ({
            let pre = exit_precondition(st, sp, cfg);
            proposer_lookup(pre, pre.slot, RelativeEpoch::Current, sp) == Some(
                built_exit(st, sp, cfg).validator_index,
            )
        }),
{
    let e = (cfg.state_epoch + sp.persistent_committee_period) as u64;
    let s = sp.slots_per_epoch;
    assert((e * s) as int / s as int == e as int) by (nonlinear_arith)
        requires
            s > 0,
            e * s <= 0xffff_ffff_ffff_ffff,
    ;
    assert(exit_proposer(st, sp, cfg) == built_exit(st, sp, cfg).validator_index);
}

/// A transfer passes acceptance only from a covered sender.
pub proof fn lemma_transfer_cover_necessary(st: StateView, t: TransferV, sp: ChainSpec)
    requires
        transfer_outcome(st, t, sp) is Ok,
    ensures
        t.sender < st.balances.len(),
        st.balances[t.sender as int] >= t.amount + t.fee,
{
}

/// A sender credited with less than fee plus amount is rejected.
pub proof fn lemma_transfer_undercredited_rejected(st: StateView, t: TransferV, sp: ChainSpec)
    requires
        t.sender < st.balances.len(),
        st.balances[t.sender as int] < t.amount + t.fee,
    ensures
        transfer_outcome(st, t, sp) is Err,
{
}

/// A deposit whose index differs from the state's running counter is
/// rejected with exactly that reason.
pub proof fn lemma_deposit_index_mismatch_rejected(st: StateView, d: DepositV, sp: ChainSpec)
    requires
        d.index != st.deposit_index,
    ensures
        deposit_outcome(st, d, sp) == Err::<StateView, GateError>(GateError::BadDepositIndex),
{
}

/// A deposit passes acceptance only at the state's running counter.
pub proof fn lemma_deposit_index_necessary(st: StateView, d: DepositV, sp: ChainSpec)
    requires
        deposit_outcome(st, d, sp) is Ok,
    ensures
        d.index == st.deposit_index,
{
}

/// The built slashing is a double vote: both attestations carry the same
/// attester set and target epoch but different data.
pub proof fn lemma_built_slashing_conflict(st: StateView, sp: ChainSpec, cfg: GenConfig)
    ensures
        ({
            let sl = built_slashing(st, sp, cfg);
            &&& sl.attestation_1.data.target_epoch == sl.attestation_2.data.target_epoch
            &&& sl.attestation_1.attester_indices == sl.attestation_2.attester_indices
            &&& sl.attestation_1.data != sl.attestation_2.data
            &&& is_double_vote(sl.attestation_1.data, sl.attestation_2.data)
        }),
{
    let sl = built_slashing(st, sp, cfg);
    assert(sl.attestation_1.data.beacon_block_root[0] != sl.attestation_2.data.beacon_block_root[0]);
}

/// Two identical attestations are no slashing evidence: the acceptance
/// check refuses the pair as not slashable.
pub proof fn lemma_identical_attestations_rejected(st: StateView, a: AttV, sp: ChainSpec)
    ensures
        slashing_outcome(st, SlashingV { attestation_1: a, attestation_2: a }, sp) == Err::<
            StateView,
            GateError,
        >(GateError::NotSlashable),
{
}

} // verus!
