//! The six generation routines: precondition the state, build and sign the
//! operation, check its acceptance, and serialize the accepted instance.

use vstd::prelude::*;
use vstd::pervasive::VecAdditionalExecFns;
use crate::bytes::{enc_u64, u64_to_le_bytes, push_u64, push_bytes, copy_bytes, copy_u64s};
use crate::builders::{
    BeaconBlockBuilder, DepositBuilder, VoluntaryExitBuilder, attestation_message, double_vote,
};
use crate::codec::{enc_operation, encode_operation};
use crate::config::{ChainSpec, Domain, GenConfig, domain_of};
use crate::gate::{
    GateError, deposit_outcome, deposit_views, exit_outcome, exit_views, exits_outcome,
    deposits_outcome, header_outcome, insert_eth1_data, process_attester_slashings,
    process_block_header, process_deposits, process_exits, process_randao, process_transfers,
    randao_outcome, slashing_outcome, slashing_views, slashings_outcome, transfer_message,
    transfer_outcome, transfer_views, transfers_outcome,
};
use crate::hexfmt::{hex_chars, to_hex};
use crate::ops::{
    AttDataV, AttV, AttesterSlashing, BlockV, Deposit, DepositV, ExitV, Operation, OperationV,
    SlashingV, Transfer, TransferV, VoluntaryExit,
};
use crate::sign::{FixtureSigner, Signer, sig_bytes};
use crate::state::{
    Keypair, RelativeEpoch, State, StateView, epoch_at, increase_state_epoch, proposer_lookup,
};

verus! {

/// One generated corpus entry: the accepted operation, its canonical bytes,
/// and their lowercase-hex rendering.
pub struct CorpusEntry {
    pub op: Operation,
    pub bytes: Vec<u8>,
    pub hex: String,
}

/// The state a voluntary exit is generated against: the slot advanced to the
/// start of the epoch one lock-up period past the base epoch.
pub open spec fn exit_precondition(st: StateView, sp: ChainSpec, cfg: GenConfig) -> StateView {
    StateView {
        slot: ((cfg.state_epoch + sp.persistent_committee_period) * sp.slots_per_epoch) as u64,
        ..st
    }
}

/// The proposer selected at the preconditioned state, who is the one to exit.
pub open spec fn exit_proposer(st: StateView, sp: ChainSpec, cfg: GenConfig) -> u64 {
    let pre = exit_precondition(st, sp, cfg);
    match proposer_lookup(pre, pre.slot, RelativeEpoch::Current, sp) {
        Some(p) => p,
        None => 0,
    }
}

/// The voluntary exit the generator builds from a base state.
pub open spec fn built_exit(st: StateView, sp: ChainSpec, cfg: GenConfig) -> ExitV {
    let e = (cfg.state_epoch + sp.persistent_committee_period) as u64;
    let p = exit_proposer(st, sp, cfg);
    ExitV {
        epoch: e,
        validator_index: p,
        signature: sig_bytes(
            p,
            e,
            domain_of(sp, e, Domain::VoluntaryExit, st.fork),
            enc_u64(e) + enc_u64(p),
        ),
    }
}

/// Generates a voluntary exit: advances the state past the lock-up period,
/// lets the proposer at the new slot exit, checks and serializes it.
pub fn generate_voluntary_exit(state: &mut State, sp: &ChainSpec, cfg: &GenConfig) -> (r: Result<
    CorpusEntry,
    GateError,
>)
    requires
        old(state).wf(),
        sp.wf(),
        old(state)@.validators.len() > 0,
        cfg.state_epoch + sp.persistent_committee_period <= 0xffff_ffff_ffff_ffff,
        (cfg.state_epoch + sp.persistent_committee_period) * sp.slots_per_epoch
            <= 0xffff_ffff_ffff_ffff,
    ensures
        final(state).wf(),
        ({
            let pre = exit_precondition(old(state)@, *sp, *cfg);
            let op = built_exit(old(state)@, *sp, *cfg);
            match r {
                Ok(entry) => {
                    &&& exit_outcome(pre, op, *sp) is Ok
                    &&& final(state)@ == exit_outcome(pre, op, *sp).unwrap()
                    &&& entry.op@ == OperationV::Exit(op)
                    &&& entry.bytes@ == enc_operation(OperationV::Exit(op))
                    &&& entry.hex@ == hex_chars(entry.bytes@)
                },
                Err(e) => {
                    &&& exit_outcome(pre, op, *sp) == Err::<StateView, GateError>(e)
                    &&& final(state)@ == pre
                },
            }
        }),
{
    let new_epoch = cfg.state_epoch + sp.persistent_committee_period;
    increase_state_epoch(state, new_epoch, sp);
    assert(state@ =~= exit_precondition(old(state)@, *sp, *cfg));
    let proposer = match state.get_beacon_proposer_index(state.slot, RelativeEpoch::Current, sp) {
        Some(p) => p,
        None => {
            proof {
                assert(false);
            }
            0
        },
    };
    let mut builder = VoluntaryExitBuilder::new(new_epoch, proposer);
    builder.sign(&state.fork, sp);
    let exit = builder.build();
    assert(exit@ =~= built_exit(old(state)@, *sp, *cfg));
    let ghost pre = state@;
    let mut list: Vec<VoluntaryExit> = Vec::new();
    list.push(exit);
    let res = process_exits(state, &list, sp);
    proof {
        let views = exit_views(list@);
        assert(views[0] == list@[0]@);
        crate::gate::lemma_exits_outcome_single(pre, views, *sp);
    }
    let exit = match list.pop() {
        Some(e) => e,
        None => {
            proof {
                assert(false);
            }
            return Err(GateError::UnknownValidator);
        },
    };
    match res {
        Err(e) => Err(e),
        Ok(()) => {
            let op = Operation::Exit(exit);
            let bytes = encode_operation(&op);
            let hex = to_hex(&bytes);
            Ok(CorpusEntry { op, bytes, hex })
        },
    }
}

/// The proposer selected at the state's current slot.
pub open spec fn current_proposer(st: StateView, sp: ChainSpec) -> u64 {
    match proposer_lookup(st, st.slot, RelativeEpoch::Current, sp) {
        Some(p) => p,
        None => 0,
    }
}

/// The block the header generator builds: the state's slot and header root,
/// an all-zero reveal, and the proposer's signature over those fields.
pub open spec fn built_header_block(st: StateView, sp: ChainSpec) -> BlockV {
    let p = current_proposer(st, sp);
    let cur = epoch_at(sp, st.slot);
    let reveal = Seq::new(96, |i: int| 0u8);
    BlockV {
        slot: st.slot,
        previous_block_root: st.latest_block_header_root,
        randao_reveal: reveal,
        signature: sig_bytes(
            p,
            cur,
            domain_of(sp, cur, Domain::BeaconProposer, st.fork),
            enc_u64(st.slot) + st.latest_block_header_root + reveal,
        ),
    }
}

/// Generates a proposer-signed block header at the state's current slot,
/// checks it and serializes it.
pub fn generate_block_header(state: &mut State, sp: &ChainSpec) -> (r: Result<
    CorpusEntry,
    GateError,
>)
    requires
        old(state).wf(),
        sp.wf(),
        old(state)@.validators.len() > 0,
    ensures
        final(state).wf(),
        final(state)@ == old(state)@,
        ({
            let op = built_header_block(old(state)@, *sp);
            match r {
                Ok(entry) => {
                    &&& header_outcome(old(state)@, op, *sp, true) is Ok
                    &&& entry.op@ == OperationV::Block(op)
                    &&& entry.bytes@ == enc_operation(OperationV::Block(op))
                    &&& entry.hex@ == hex_chars(entry.bytes@)
                },
                Err(e) => header_outcome(old(state)@, op, *sp, true) == Err::<
                    StateView,
                    GateError,
                >(e),
            }
        }),
{
    let proposer = match state.get_beacon_proposer_index(state.slot, RelativeEpoch::Current, sp) {
        Some(p) => p,
        None => {
            proof {
                assert(false);
            }
            0
        },
    };
    let mut builder = BeaconBlockBuilder::new(sp);
    builder.set_slot(state.slot);
    builder.set_previous_block_root(copy_bytes(&state.latest_block_header_root));
    let block = builder.build(proposer, &state.fork, sp);
    assert(block@ =~= built_header_block(old(state)@, *sp));
    let res = process_block_header(state, &block, sp, true);
    match res {
        Err(e) => Err(e),
        Ok(()) => {
            let op = Operation::Block(block);
            let bytes = encode_operation(&op);
            let hex = to_hex(&bytes);
            Ok(CorpusEntry { op, bytes, hex })
        },
    }
}

/// The block the randao generator builds: as the header block, but with the
/// reveal set to the proposer's randao signature over the current epoch.
pub open spec fn built_randao_block(st: StateView, sp: ChainSpec) -> BlockV {
    let p = current_proposer(st, sp);
    let cur = epoch_at(sp, st.slot);
    let reveal = sig_bytes(p, cur, domain_of(sp, cur, Domain::Randao, st.fork), enc_u64(cur));
    BlockV {
        slot: st.slot,
        previous_block_root: st.latest_block_header_root,
        randao_reveal: reveal,
        signature: sig_bytes(
            p,
            cur,
            domain_of(sp, cur, Domain::BeaconProposer, st.fork),
            enc_u64(st.slot) + st.latest_block_header_root + reveal,
        ),
    }
}

/// Generates a block whose randao reveal is valid for the current proposer,
/// checks the reveal and serializes the block.
pub fn generate_randao(state: &mut State, sp: &ChainSpec) -> (r: Result<CorpusEntry, GateError>)
    requires
        old(state).wf(),
        sp.wf(),
        old(state)@.validators.len() > 0,
    ensures
        final(state).wf(),
        final(state)@ == old(state)@,
        ({
            let op = built_randao_block(old(state)@, *sp);
            match r {
                Ok(entry) => {
                    &&& randao_outcome(old(state)@, op, *sp) is Ok
                    &&& entry.op@ == OperationV::Block(op)
                    &&& entry.bytes@ == enc_operation(OperationV::Block(op))
                    &&& entry.hex@ == hex_chars(entry.bytes@)
                },
                Err(e) => randao_outcome(old(state)@, op, *sp) == Err::<StateView, GateError>(e),
            }
        }),
{
    let proposer = match state.get_beacon_proposer_index(state.slot, RelativeEpoch::Current, sp) {
        Some(p) => p,
        None => {
            proof {
                assert(false);
            }
            0
        },
    };
    let cur = state.current_epoch(sp);
    let mut builder = BeaconBlockBuilder::new(sp);
    builder.set_slot(state.slot);
    builder.set_previous_block_root(copy_bytes(&state.latest_block_header_root));
    builder.set_randao_reveal(proposer, cur, &state.fork, sp);
    let block = builder.build(proposer, &state.fork, sp);
    assert(block@ =~= built_randao_block(old(state)@, *sp));
    let res = process_randao(state, &block, sp);
    match res {
        Err(e) => Err(e),
        Ok(()) => {
            let op = Operation::Block(block);
            let bytes = encode_operation(&op);
            let hex = to_hex(&bytes);
            Ok(CorpusEntry { op, bytes, hex })
        },
    }
}

/// The validator indices of the fixture: one per validator, in order.
pub open spec fn fixture_indices(n: u64) -> Seq<u64> {
    Seq::new(n as nat, |i: int| i as u64)
}

/// The double-vote slashing the generator builds: every fixture validator
/// attests twice to the current epoch with differing block roots.
pub open spec fn built_slashing(st: StateView, sp: ChainSpec, cfg: GenConfig) -> SlashingV {
    let target = epoch_at(sp, st.slot);
    let idx = fixture_indices(cfg.num_validators);
    let d1 = AttDataV {
        source_epoch: 0,
        target_epoch: target,
        beacon_block_root: Seq::new(32, |i: int| 1u8),
    };
    let d2 = AttDataV {
        source_epoch: 0,
        target_epoch: target,
        beacon_block_root: Seq::new(32, |i: int| 2u8),
    };
    SlashingV {
        attestation_1: AttV {
            attester_indices: idx,
            data: d1,
            signature: sig_bytes(
                idx[0],
                target,
                domain_of(sp, target, Domain::Attestation, st.fork),
                attestation_message(d1),
            ),
        },
        attestation_2: AttV {
            attester_indices: idx,
            data: d2,
            signature: sig_bytes(
                idx[0],
                target,
                domain_of(sp, target, Domain::Attestation, st.fork),
                attestation_message(d2),
            ),
        },
    }
}

/// Generates an attester slashing: a double vote by the fixture validators,
/// checked for acceptance and serialized.
pub fn generate_attester_slashing(state: &mut State, sp: &ChainSpec, cfg: &GenConfig) -> (r:
    Result<CorpusEntry, GateError>)
    requires
        old(state).wf(),
        sp.wf(),
        cfg.num_validators > 0,
        cfg.num_validators <= 0xffff_ffff,
    ensures
        final(state).wf(),
        ({
            let op = built_slashing(old(state)@, *sp, *cfg);
            match r {
                Ok(entry) => {
                    &&& slashing_outcome(old(state)@, op, *sp) is Ok
                    &&& final(state)@ == slashing_outcome(old(state)@, op, *sp).unwrap()
                    &&& entry.op@ == OperationV::Slashing(op)
                    &&& entry.bytes@ == enc_operation(OperationV::Slashing(op))
                    &&& entry.hex@ == hex_chars(entry.bytes@)
                },
                Err(e) => {
                    &&& slashing_outcome(old(state)@, op, *sp) == Err::<StateView, GateError>(e)
                    &&& final(state)@ == old(state)@
                },
            }
        }),
{
    let n = cfg.num_validators as usize;
    let mut validator_indices: Vec<u64> = Vec::new();
    let mut i: usize = 0;
    while i < n
        invariant
            i <= n,
            n == cfg.num_validators,
            validator_indices@ =~= fixture_indices(i as u64),
        decreases n - i,
    {
        validator_indices.push(i as u64);
        assert(validator_indices@ =~= fixture_indices((i + 1) as u64));
        i = i + 1;
    }
    let signer = FixtureSigner {
        params: *sp,
        fork: state.fork,
        known: copy_u64s(&validator_indices),
    };
    let target = state.current_epoch(sp);
    assert(validator_indices@[0] == 0u64);
    assert(signer.known@.contains(0u64));
    let slashing = match double_vote(&validator_indices, &signer, target) {
        Some(s) => s,
        None => {
            proof {
                assert(false);
            }
            return Err(GateError::NotSlashable);
        },
    };
    assert(slashing@ =~= built_slashing(old(state)@, *sp, *cfg));
    let ghost pre = state@;
    let mut list: Vec<AttesterSlashing> = Vec::new();
    list.push(slashing);
    let res = process_attester_slashings(state, &list, sp);
    proof {
        let views = slashing_views(list@);
        assert(views[0] == list@[0]@);
        crate::gate::lemma_slashings_outcome_single(pre, views, *sp);
    }
    let slashing = match list.pop() {
        Some(s) => s,
        None => {
            proof {
                assert(false);
            }
            return Err(GateError::NotSlashable);
        },
    };
    match res {
        Err(e) => Err(e),
        Ok(()) => {
            let op = Operation::Slashing(slashing);
            let bytes = encode_operation(&op);
            let hex = to_hex(&bytes);
            Ok(CorpusEntry { op, bytes, hex })
        },
    }
}

/// The deposit the generator builds: the spare fixture key deposits the
/// standard amount at the state's running deposit counter.
pub open spec fn built_deposit(st: StateView, pk: Seq<u8>, sp: ChainSpec) -> DepositV {
    let cur = epoch_at(sp, st.slot);
    DepositV {
        pubkey: pk,
        amount: 32_000_000_000u64,
        index: st.deposit_index,
        signature: sig_bytes(
            st.deposit_index,
            cur,
            domain_of(sp, cur, Domain::Deposit, st.fork),
            pk + enc_u64(32_000_000_000u64),
        ),
    }
}

/// The state a deposit is checked against: the deposit recorded in the state's
/// own deposit-tracking data.
pub open spec fn deposit_precondition(st: StateView) -> StateView {
    StateView {
        eth1_deposit_count: if st.eth1_deposit_count > st.deposit_index {
            st.eth1_deposit_count
        } else {
            (st.deposit_index + 1) as u64
        },
        ..st
    }
}

/// Generates a deposit indexed at the state's counter, records it in the
/// state's deposit-tracking data, checks it and serializes it.
pub fn generate_deposit(state: &mut State, keypairs: &Vec<Keypair>, sp: &ChainSpec, cfg: &GenConfig) -> (r:
    Result<CorpusEntry, GateError>)
    requires
        old(state).wf(),
        sp.wf(),
        cfg.num_validators < 0xffff_ffff,
        cfg.num_validators + 1 < keypairs@.len(),
        old(state)@.deposit_index < 0xffff_ffff_ffff_ffff,
    ensures
        final(state).wf(),
        ({
            let pk = keypairs@[cfg.num_validators as int + 1]@.pk;
            let pre = deposit_precondition(old(state)@);
            let op = built_deposit(old(state)@, pk, *sp);
            match r {
                Ok(entry) => {
                    &&& deposit_outcome(pre, op, *sp) is Ok
                    &&& final(state)@ == deposit_outcome(pre, op, *sp).unwrap()
                    &&& entry.op@ == OperationV::Deposit(op)
                    &&& entry.bytes@ == enc_operation(OperationV::Deposit(op))
                    &&& entry.hex@ == hex_chars(entry.bytes@)
                    &&& op.index == old(state)@.deposit_index
                },
                Err(e) => {
                    &&& deposit_outcome(pre, op, *sp) == Err::<StateView, GateError>(e)
                    &&& final(state)@ == pre
                },
            }
        }),
{
    let j = (cfg.num_validators + 1) as usize;
    let kp = &keypairs[j];
    proof {
        assert(j as int == cfg.num_validators as int + 1);
        assert(kp@ == keypairs@[cfg.num_validators as int + 1]@);
    }
    let amount: u64 = 32_000_000_000;
    let mut builder = DepositBuilder::new(copy_bytes(&kp.pk), amount);
    builder.set_index(state.deposit_index);
    let epoch = state.current_epoch(sp);
    builder.sign(epoch, &state.fork, sp);
    let deposit = builder.build();
    assert(deposit@ =~= built_deposit(old(state)@, kp@.pk, *sp));
    insert_eth1_data(state, &deposit);
    assert(state@ =~= deposit_precondition(old(state)@));
    let ghost pre = state@;
    let mut list: Vec<Deposit> = Vec::new();
    list.push(deposit);
    let res = process_deposits(state, &list, sp);
    proof {
        let views = deposit_views(list@);
        assert(views[0] == list@[0]@);
        crate::gate::lemma_deposits_outcome_single(pre, views, *sp);
    }
    let deposit = match list.pop() {
        Some(d) => d,
        None => {
            proof {
                assert(false);
            }
            return Err(GateError::BadDepositIndex);
        },
    };
    match res {
        Err(e) => Err(e),
        Ok(()) => {
            let op = Operation::Deposit(deposit);
            let bytes = encode_operation(&op);
            let hex = to_hex(&bytes);
            Ok(CorpusEntry { op, bytes, hex })
        },
    }
}

/// The transfer the generator builds: the proposer sends the standard amount
/// and fee to a low fixture index at the state's slot.
pub open spec fn built_transfer(st: StateView, pk: Seq<u8>, sp: ChainSpec) -> TransferV {
    let p = current_proposer(st, sp);
    let recipient = ((p + 1) % 2) as u64;
    let epoch = epoch_at(sp, st.slot);
    let unsigned = TransferV {
        sender: p,
        recipient,
        amount: 1_000_000_000_000u64,
        fee: 10_000_000_000u64,
        slot: st.slot,
        pubkey: pk,
        signature: Seq::empty(),
    };
    TransferV {
        signature: sig_bytes(
            p,
            epoch,
            domain_of(sp, epoch, Domain::Transfer, st.fork),
            transfer_message(unsigned),
        ),
        ..unsigned
    }
}

/// The state a transfer is checked against: the sender credited with the fee
/// plus the amount. This mirrors the fixture shortcut of crediting the
/// balance directly rather than through a protocol operation.
pub open spec fn transfer_credited(st: StateView, sp: ChainSpec) -> StateView {
    let p = current_proposer(st, sp);
    StateView {
        balances: st.balances.update(
            p as int,
            (st.balances[p as int] + 1_010_000_000_000) as u64,
        ),
        ..st
    }
}

/// Generates a transfer from the proposer, credits the sender so it is
/// covered, checks it and serializes it.
pub fn generate_transfer(state: &mut State, keypairs: &Vec<Keypair>, sp: &ChainSpec) -> (r: Result<
    CorpusEntry,
    GateError,
>)
    requires
        old(state).wf(),
        sp.wf(),
        0 < old(state)@.validators.len() <= 0xffff_ffff,
        keypairs@.len() >= old(state)@.validators.len(),
        forall|i: int|
            0 <= i < old(state)@.balances.len() ==> old(state)@.balances[i] + 1_010_000_000_000
                <= 0xffff_ffff_ffff_ffff,
    ensures
        final(state).wf(),
        ({
            let p = current_proposer(old(state)@, *sp);
            let pk = keypairs@[p as int]@.pk;
            let credited = transfer_credited(old(state)@, *sp);
            let op = built_transfer(old(state)@, pk, *sp);
            &&& credited.balances[p as int] == old(state)@.balances[p as int] + op.fee + op.amount
            &&& match r {
                Ok(entry) => {
                    &&& transfer_outcome(credited, op, *sp) is Ok
                    &&& final(state)@ == transfer_outcome(credited, op, *sp).unwrap()
                    &&& entry.op@ == OperationV::Transfer(op)
                    &&& entry.bytes@ == enc_operation(OperationV::Transfer(op))
                    &&& entry.hex@ == hex_chars(entry.bytes@)
                },
                Err(e) => {
                    &&& transfer_outcome(credited, op, *sp) == Err::<StateView, GateError>(e)
                    &&& final(state)@ == credited
                },
            }
        }),
{
    let proposer = match state.get_beacon_proposer_index(state.slot, RelativeEpoch::Current, sp) {
        Some(p) => p,
        None => {
            proof {
                assert(false);
            }
            0
        },
    };
    let kp = &keypairs[proposer as usize];
    let recipient = (proposer + 1) % 2;
    let mut transfer = Transfer {
        sender: proposer,
        recipient,
        amount: 1_000_000_000_000,
        fee: 10_000_000_000,
        slot: state.slot,
        pubkey: copy_bytes(&kp.pk),
        signature: Vec::new(),
    };
    let mut msg = u64_to_le_bytes(transfer.sender);
    push_u64(&mut msg, transfer.recipient);
    push_u64(&mut msg, transfer.amount);
    push_u64(&mut msg, transfer.fee);
    push_u64(&mut msg, transfer.slot);
    push_bytes(&mut msg, &transfer.pubkey);
    assert(msg@ =~= transfer_message(transfer@));
    let epoch = transfer.slot / sp.slots_per_epoch;
    let domain = sp.get_domain(epoch, Domain::Transfer, &state.fork);
    transfer.signature = crate::sign::compute_signature(transfer.sender, epoch, domain, &msg);
    assert(transfer@ =~= built_transfer(old(state)@, kp@.pk, *sp));
    let si = proposer as usize;
    let bal = state.balances[si];
    state.balances.set(si, bal + 1_010_000_000_000);
    assert(state@ =~= transfer_credited(old(state)@, *sp));
    let ghost credited = state@;
    let mut list: Vec<Transfer> = Vec::new();
    list.push(transfer);
    let res = process_transfers(state, &list, sp);
    proof {
        let views = transfer_views(list@);
        assert(views[0] == list@[0]@);
        crate::gate::lemma_transfers_outcome_single(credited, views, *sp);
    }
    let transfer = match list.pop() {
        Some(t) => t,
        None => {
            proof {
                assert(false);
            }
            return Err(GateError::BadSlot);
        },
    };
    match res {
        Err(e) => Err(e),
        Ok(()) => {
            let op = Operation::Transfer(transfer);
            let bytes = encode_operation(&op);
            let hex = to_hex(&bytes);
            Ok(CorpusEntry { op, bytes, hex })
        },
    }
}

} // verus!
