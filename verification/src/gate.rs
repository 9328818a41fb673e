//! The acceptance gate: the model state-transition rules each built operation
//! is checked against, with the exact state change of every accepted one.

use vstd::prelude::*;
use vstd::pervasive::VecAdditionalExecFns;
use crate::bytes::{enc_u64, bytes_eq, push_u64, push_bytes, u64_to_le_bytes};
use crate::config::{ChainSpec, Domain, domain_of};
use crate::ops::{
    AttDataV, AttV, AttestationData, AttesterSlashing, BeaconBlock, BlockV, Deposit, DepositV,
    ExitV, SlashingV, Transfer, TransferV, VoluntaryExit,
};
use crate::sign::{sig_bytes, compute_signature};
use crate::state::{State, StateView, Validator, epoch_at, proposer_lookup, RelativeEpoch};

verus! {

/// Why the acceptance check refused an operation.
#[derive(Clone, Copy, PartialEq, Eq, Structural, Debug)]
pub enum GateError {
    UnknownValidator,
    ValidatorAlreadyExited,
    ValidatorLockedUp,
    ExitEpochInFuture,
    BadSignature,
    BadSlot,
    BadParentRoot,
    BadRandaoReveal,
    NotSlashable,
    NoSlashableAttester,
    BadDepositIndex,
    DepositNotInEth1Data,
    DepositAmountTooLow,
    BadDepositPubkey,
    BadRecipient,
    InsufficientBalance,
    BalanceOverflow,
}

/// The message a voluntary exit signs: its unsigned fields.
pub open spec fn exit_message(e: ExitV) -> Seq<u8> {
    enc_u64(e.epoch) + enc_u64(e.validator_index)
}

/// What processing one voluntary exit does to the state, or why it fails.
pub open spec fn exit_outcome(st: StateView, e: ExitV, sp: ChainSpec) -> Result<
    StateView,
    GateError,
> {
    let cur = epoch_at(sp, st.slot);
    if e.validator_index >= st.validators.len() {
        Err(GateError::UnknownValidator)
    } else {
        let v = st.validators[e.validator_index as int];
        if v.exit_epoch != sp.far_future_epoch {
            Err(GateError::ValidatorAlreadyExited)
        } else if cur < v.activation_epoch + sp.persistent_committee_period {
            Err(GateError::ValidatorLockedUp)
        } else if cur < e.epoch {
            Err(GateError::ExitEpochInFuture)
        } else if e.signature != sig_bytes(
            e.validator_index,
            e.epoch,
            domain_of(sp, e.epoch, Domain::VoluntaryExit, st.fork),
            exit_message(e),
        ) {
            Err(GateError::BadSignature)
        } else {
            Ok(
                StateView {
                    validators: st.validators.update(
                        e.validator_index as int,
                        Validator { exit_epoch: cur, ..v },
                    ),
                    ..st
                },
            )
        }
    }
}

/// Processing a list of exits: each applies to the state the one before left.
pub open spec fn exits_outcome(st: StateView, ops: Seq<ExitV>, sp: ChainSpec) -> (
    StateView,
    Option<GateError>,
)
    decreases ops.len(),
{
    if ops.len() == 0 {
        (st, None)
    } else {
        match exit_outcome(st, ops[0], sp) {
            Ok(st2) => exits_outcome(st2, ops.skip(1), sp),
            Err(e) => (st, Some(e)),
        }
    }
}

/// The views of a list of exits.
pub open spec fn exit_views(s: Seq<VoluntaryExit>) -> Seq<ExitV> {
    s.map_values(|e: VoluntaryExit| e@)
}

/// Checks one exit and applies it on acceptance.
fn process_exit_one(state: &mut State, e: &VoluntaryExit, sp: &ChainSpec) -> (r: Result<
    (),
    GateError,
>)
    requires
        old(state).wf(),
        sp.wf(),
    ensures
        match exit_outcome(old(state)@, e@, *sp) {
            Ok(st2) => r == Ok::<(), GateError>(()) && final(state)@ == st2,
            Err(er) => r == Err::<(), GateError>(er) && final(state)@ == old(state)@,
        },
        final(state).wf(),
{
    let cur = state.current_epoch(sp);
    let n = state.validators.len();
    if e.validator_index >= n as u64 {
        return Err(GateError::UnknownValidator);
    }
    let i = e.validator_index as usize;
    let v = state.validators[i];
    if v.exit_epoch != sp.far_future_epoch {
        return Err(GateError::ValidatorAlreadyExited);
    }
    let locked = if v.activation_epoch > 0xffff_ffff_ffff_ffffu64 - sp.persistent_committee_period {
        true
    } else {
        cur < v.activation_epoch + sp.persistent_committee_period
    };
    if locked {
        return Err(GateError::ValidatorLockedUp);
    }
    if cur < e.epoch {
        return Err(GateError::ExitEpochInFuture);
    }
    let mut msg = u64_to_le_bytes(e.epoch);
    let mut tail = u64_to_le_bytes(e.validator_index);
    msg.append(&mut tail);
    assert(msg@ =~= exit_message(e@));
    let domain = sp.get_domain(e.epoch, Domain::VoluntaryExit, &state.fork);
    let expected = compute_signature(e.validator_index, e.epoch, domain, &msg);
    if !bytes_eq(&e.signature, &expected) {
        return Err(GateError::BadSignature);
    }
    state.validators.set(i, Validator { activation_epoch: v.activation_epoch, exit_epoch: cur, slashed: v.slashed });
    assert(final(state)@ =~= exit_outcome(old(state)@, e@, *sp).unwrap());
    Ok(())
}

/// Gate entry for voluntary exits: applies each in turn, stopping at the
/// first rejection and reporting its reason.
pub fn process_exits(state: &mut State, exits: &Vec<VoluntaryExit>, sp: &ChainSpec) -> (r: Result<
    (),
    GateError,
>)
    requires
        old(state).wf(),
        sp.wf(),
    ensures
        final(state)@ == exits_outcome(old(state)@, exit_views(exits@), *sp).0,
        r == (match exits_outcome(old(state)@, exit_views(exits@), *sp).1 {
            None => Ok::<(), GateError>(()),
            Some(e) => Err::<(), GateError>(e),
        }),
        final(state).wf(),
{
    let ghost all = exit_views(exits@);
    assert(all.skip(0) =~= all);
    let mut i: usize = 0;
    while i < exits.len()
        invariant
            i <= exits@.len(),
            all == exit_views(exits@),
            state.wf(),
            sp.wf(),
            exits_outcome(old(state)@, all, *sp) == exits_outcome(state@, all.skip(i as int), *sp),
        decreases exits@.len() - i,
    {
        let ghost rest = all.skip(i as int);
        assert(rest[0] == exits@[i as int]@);
        let res = process_exit_one(state, &exits[i], sp);
        match res {
            Ok(()) => {
                assert(rest.skip(1) =~= all.skip(i as int + 1));
            },
            Err(er) => {
                return Err(er);
            },
        }
        i = i + 1;
    }
    assert(all.skip(exits@.len() as int) =~= Seq::<ExitV>::empty());
    Ok(())
}

/// A one-element list is processed exactly as its single operation.
pub proof fn lemma_exits_outcome_single(st: StateView, ops: Seq<ExitV>, sp: ChainSpec)
    requires
        ops.len() == 1,
    ensures
        exits_outcome(st, ops, sp) == (match exit_outcome(st, ops[0], sp) {
            Ok(st2) => (st2, None::<GateError>),
            Err(e) => (st, Some(e)),
        }),
{
    reveal_with_fuel(exits_outcome, 2);
    assert(ops.skip(1) =~= Seq::<ExitV>::empty());
}

/// The message a block proposal signs: its unsigned fields.
pub open spec fn block_proposal_message(b: BlockV) -> Seq<u8> {
    enc_u64(b.slot) + b.previous_block_root + b.randao_reveal
}

/// What the header check of one block says: the state is untouched on
/// acceptance, and the proposer's slot, parent root and (when asked for)
/// signature must all match.
pub open spec fn header_outcome(st: StateView, b: BlockV, sp: ChainSpec, verify_sig: bool) -> Result<
    StateView,
    GateError,
> {
    let cur = epoch_at(sp, st.slot);
    match proposer_lookup(st, st.slot, RelativeEpoch::Current, sp) {
        None => Err(GateError::UnknownValidator),
        Some(p) => if b.slot != st.slot {
            Err(GateError::BadSlot)
        } else if b.previous_block_root != st.latest_block_header_root {
            Err(GateError::BadParentRoot)
        } else if verify_sig && b.signature != sig_bytes(
            p,
            cur,
            domain_of(sp, cur, Domain::BeaconProposer, st.fork),
            block_proposal_message(b),
        ) {
            Err(GateError::BadSignature)
        } else {
            Ok(st)
        },
    }
}

/// Gate entry for block headers.
pub fn process_block_header(state: &mut State, block: &BeaconBlock, sp: &ChainSpec, verify_sig: bool) -> (r: Result<
    (),
    GateError,
>)
    requires
        old(state).wf(),
        sp.wf(),
    ensures
        final(state)@ == old(state)@,
        final(state).wf(),
        r == (match header_outcome(old(state)@, block@, *sp, verify_sig) {
            Ok(_) => Ok::<(), GateError>(()),
            Err(e) => Err::<(), GateError>(e),
        }),
{
    let p_opt = state.get_beacon_proposer_index(state.slot, RelativeEpoch::Current, sp);
    let p = match p_opt {
        None => {
            return Err(GateError::UnknownValidator);
        },
        Some(p) => p,
    };
    if block.slot != state.slot {
        return Err(GateError::BadSlot);
    }
    if !bytes_eq(&block.previous_block_root, &state.latest_block_header_root) {
        return Err(GateError::BadParentRoot);
    }
    if verify_sig {
        let cur = state.current_epoch(sp);
        let mut msg = u64_to_le_bytes(block.slot);
        push_bytes(&mut msg, &block.previous_block_root);
        push_bytes(&mut msg, &block.randao_reveal);
        assert(msg@ =~= block_proposal_message(block@));
        let domain = sp.get_domain(cur, Domain::BeaconProposer, &state.fork);
        let expected = compute_signature(p, cur, domain, &msg);
        if !bytes_eq(&block.signature, &expected) {
            return Err(GateError::BadSignature);
        }
    }
    Ok(())
}

/// What the randao check of one block says: the reveal must be the proposer's
/// signature over the current epoch under the randao domain.
pub open spec fn randao_outcome(st: StateView, b: BlockV, sp: ChainSpec) -> Result<
    StateView,
    GateError,
> {
    let cur = epoch_at(sp, st.slot);
    match proposer_lookup(st, st.slot, RelativeEpoch::Current, sp) {
        None => Err(GateError::UnknownValidator),
        Some(p) => if b.randao_reveal != sig_bytes(
            p,
            cur,
            domain_of(sp, cur, Domain::Randao, st.fork),
            enc_u64(cur),
        ) {
            Err(GateError::BadRandaoReveal)
        } else {
            Ok(st)
        },
    }
}

/// Gate entry for the randao reveal of a block.
pub fn process_randao(state: &mut State, block: &BeaconBlock, sp: &ChainSpec) -> (r: Result<
    (),
    GateError,
>)
    requires
        old(state).wf(),
        sp.wf(),
    ensures
        final(state)@ == old(state)@,
        final(state).wf(),
        r == (match randao_outcome(old(state)@, block@, *sp) {
            Ok(_) => Ok::<(), GateError>(()),
            Err(e) => Err::<(), GateError>(e),
        }),
{
    let p_opt = state.get_beacon_proposer_index(state.slot, RelativeEpoch::Current, sp);
    let p = match p_opt {
        None => {
            return Err(GateError::UnknownValidator);
        },
        Some(p) => p,
    };
    let cur = state.current_epoch(sp);
    let msg = u64_to_le_bytes(cur);
    let domain = sp.get_domain(cur, Domain::Randao, &state.fork);
    let expected = compute_signature(p, cur, domain, &msg);
    if !bytes_eq(&block.randao_reveal, &expected) {
        return Err(GateError::BadRandaoReveal);
    }
    Ok(())
}

/// Two votes for the same target epoch with different data.
pub open spec fn is_double_vote(d1: AttDataV, d2: AttDataV) -> bool {
    d1.target_epoch == d2.target_epoch && d1 != d2
}

/// A vote whose span strictly surrounds the other's.
pub open spec fn is_surround_vote(d1: AttDataV, d2: AttDataV) -> bool {
    d1.source_epoch < d2.source_epoch && d2.target_epoch < d1.target_epoch
}

/// When a pair of attestation data sets is slashing evidence.
pub open spec fn is_slashable(d1: AttDataV, d2: AttDataV) -> bool {
    is_double_vote(d1, d2) || is_surround_vote(d1, d2)
}

/// Whether validator `i` attested in both halves of the slashing.
pub open spec fn both_attest(s: SlashingV, i: u64) -> bool {
    s.attestation_1.attester_indices.contains(i) && s.attestation_2.attester_indices.contains(i)
}

/// Whether some registered, not-yet-slashed validator attested in both.
pub open spec fn has_slashable_attester(st: StateView, s: SlashingV) -> bool {
    exists|j: int|
        0 <= j < st.validators.len() && both_attest(s, j as u64) && !st.validators[j].slashed
}

/// The validator set with every double-attester marked slashed.
pub open spec fn slash_shared(vs: Seq<Validator>, s: SlashingV) -> Seq<Validator> {
    Seq::new(
        vs.len(),
        |j: int| Validator {
            activation_epoch: vs[j].activation_epoch,
            exit_epoch: vs[j].exit_epoch,
            slashed: vs[j].slashed || both_attest(s, j as u64),
        },
    )
}

/// What processing one attester slashing does to the state, or why it fails.
pub open spec fn slashing_outcome(st: StateView, s: SlashingV, sp: ChainSpec) -> Result<
    StateView,
    GateError,
> {
    if !is_slashable(s.attestation_1.data, s.attestation_2.data) {
        Err(GateError::NotSlashable)
    } else if !has_slashable_attester(st, s) {
        Err(GateError::NoSlashableAttester)
    } else {
        Ok(StateView { validators: slash_shared(st.validators, s), ..st })
    }
}

/// Processing a list of slashings in turn.
pub open spec fn slashings_outcome(st: StateView, ops: Seq<SlashingV>, sp: ChainSpec) -> (
    StateView,
    Option<GateError>,
)
    decreases ops.len(),
{
    if ops.len() == 0 {
        (st, None)
    } else {
        match slashing_outcome(st, ops[0], sp) {
            Ok(st2) => slashings_outcome(st2, ops.skip(1), sp),
            Err(e) => (st, Some(e)),
        }
    }
}

/// A one-element list is processed exactly as its single operation.
pub proof fn lemma_slashings_outcome_single(st: StateView, ops: Seq<SlashingV>, sp: ChainSpec)
    requires
        ops.len() == 1,
    ensures
        slashings_outcome(st, ops, sp) == (match slashing_outcome(st, ops[0], sp) {
            Ok(st2) => (st2, None::<GateError>),
            Err(e) => (st, Some(e)),
        }),
{
    reveal_with_fuel(slashings_outcome, 2);
    assert(ops.skip(1) =~= Seq::<SlashingV>::empty());
}

/// The views of a list of slashings.
pub open spec fn slashing_views(s: Seq<AttesterSlashing>) -> Seq<SlashingV> {
    s.map_values(|x: AttesterSlashing| x@)
}

/// Whether `v` holds `x`.
fn contains_u64(v: &Vec<u64>, x: u64) -> (r: bool)
    ensures
        r <==> v@.contains(x),
{
    let mut i: usize = 0;
    while i < v.len()
        invariant
            i <= v@.len(),
            forall|j: int| 0 <= j < i ==> v@[j] != x,
        decreases v@.len() - i,
    {
        if v[i] == x {
            return true;
        }
        i = i + 1;
    }
    false
}

/// Whether two attestation data records agree field for field.
fn att_data_eq(a: &AttestationData, b: &AttestationData) -> (r: bool)
    ensures
        r <==> a@ == b@,
{
    if a.source_epoch != b.source_epoch {
        return false;
    }
    if a.target_epoch != b.target_epoch {
        return false;
    }
    if !bytes_eq(&a.beacon_block_root, &b.beacon_block_root) {
        return false;
    }
    assert(a@ =~= b@);
    true
}

/// Checks one slashing and applies it on acceptance.
fn process_attester_slashing_one(state: &mut State, s: &AttesterSlashing, sp: &ChainSpec) -> (r: Result<
    (),
    GateError,
>)
    requires
        old(state).wf(),
        sp.wf(),
    ensures
        match slashing_outcome(old(state)@, s@, *sp) {
            Ok(st2) => r == Ok::<(), GateError>(()) && final(state)@ == st2,
            Err(er) => r == Err::<(), GateError>(er) && final(state)@ == old(state)@,
        },
        final(state).wf(),
{
    let d1 = &s.attestation_1.data;
    let d2 = &s.attestation_2.data;
    let double = d1.target_epoch == d2.target_epoch && !att_data_eq(d1, d2);
    let surround = d1.source_epoch < d2.source_epoch && d2.target_epoch < d1.target_epoch;
    if !(double || surround) {
        return Err(GateError::NotSlashable);
    }
    let n = state.validators.len();
    let mut j: usize = 0;
    let mut found = false;
    while !found && j < n
        invariant
            j <= n,
            n == state.validators@.len(),
            found ==> has_slashable_attester(state@, s@),
            !found ==> forall|k: int|
                0 <= k < j ==> !(both_attest(s@, k as u64) && !state@.validators[k].slashed),
        decreases (if found { 0int } else { 1int }), n - j,
    {
        if contains_u64(&s.attestation_1.attester_indices, j as u64) && contains_u64(
            &s.attestation_2.attester_indices,
            j as u64,
        ) && !state.validators[j].slashed {
            found = true;
            assert(both_attest(s@, j as u64) && !state@.validators[j as int].slashed);
        } else {
            j = j + 1;
        }
    }
    if !found {
        assert(!has_slashable_attester(state@, s@));
        return Err(GateError::NoSlashableAttester);
    }
    let mut k: usize = 0;
    while k < n
        invariant
            k <= n,
            n == state.validators@.len(),
            n == old(state)@.validators.len(),
            (StateView { validators: old(state)@.validators, ..state@ }) == old(state)@,
            forall|m: int| 0 <= m < k ==> state.validators@[m] == slash_shared(
                old(state)@.validators,
                s@,
            )[m],
            forall|m: int| k <= m < n ==> state.validators@[m] == old(state)@.validators[m],
        decreases n - k,
    {
        let c1 = contains_u64(&s.attestation_1.attester_indices, k as u64);
        let c2 = contains_u64(&s.attestation_2.attester_indices, k as u64);
        let ghost before = state.validators@;
        if c1 && c2 {
            let v = state.validators[k];
            state.validators.set(
                k,
                Validator { activation_epoch: v.activation_epoch, exit_epoch: v.exit_epoch, slashed: true },
            );
        }
        proof {
            let vs0 = old(state)@.validators;
            assert((k as int) as u64 == k as u64);
            assert((c1 && c2) == both_attest(s@, k as u64));
            assert(slash_shared(vs0, s@)[k as int] == Validator {
                activation_epoch: vs0[k as int].activation_epoch,
                exit_epoch: vs0[k as int].exit_epoch,
                slashed: vs0[k as int].slashed || both_attest(s@, (k as int) as u64),
            });
            if c1 && c2 {
                assert(state.validators@ == before.update(
                    k as int,
                    Validator {
                        activation_epoch: vs0[k as int].activation_epoch,
                        exit_epoch: vs0[k as int].exit_epoch,
                        slashed: true,
                    },
                ));
            }
            assert(state.validators@[k as int] == slash_shared(vs0, s@)[k as int]);
        }
        k = k + 1;
    }
    assert(state.validators@ =~= slash_shared(old(state)@.validators, s@));
    assert(final(state)@ =~= slashing_outcome(old(state)@, s@, *sp).unwrap());
    Ok(())
}

/// Gate entry for attester slashings.
pub fn process_attester_slashings(state: &mut State, slashings: &Vec<AttesterSlashing>, sp: &ChainSpec) -> (r: Result<
    (),
    GateError,
>)
    requires
        old(state).wf(),
        sp.wf(),
    ensures
        final(state)@ == slashings_outcome(old(state)@, slashing_views(slashings@), *sp).0,
        r == (match slashings_outcome(old(state)@, slashing_views(slashings@), *sp).1 {
            None => Ok::<(), GateError>(()),
            Some(e) => Err::<(), GateError>(e),
        }),
        final(state).wf(),
{
    let ghost all = slashing_views(slashings@);
    assert(all.skip(0) =~= all);
    let mut i: usize = 0;
    while i < slashings.len()
        invariant
            i <= slashings@.len(),
            all == slashing_views(slashings@),
            state.wf(),
            sp.wf(),
            slashings_outcome(old(state)@, all, *sp) == slashings_outcome(
                state@,
                all.skip(i as int),
                *sp,
            ),
        decreases slashings@.len() - i,
    {
        let ghost rest = all.skip(i as int);
        assert(rest[0] == slashings@[i as int]@);
        let res = process_attester_slashing_one(state, &slashings[i], sp);
        match res {
            Ok(()) => {
                assert(rest.skip(1) =~= all.skip(i as int + 1));
            },
            Err(er) => {
                return Err(er);
            },
        }
        i = i + 1;
    }
    assert(all.skip(slashings@.len() as int) =~= Seq::<SlashingV>::empty());
    Ok(())
}

/// The message a deposit signs: its public key and amount.
pub open spec fn deposit_message(d: DepositV) -> Seq<u8> {
    d.pubkey + enc_u64(d.amount)
}

/// What processing one deposit does to the state, or why it fails.
pub open spec fn deposit_outcome(st: StateView, d: DepositV, sp: ChainSpec) -> Result<
    StateView,
    GateError,
> {
    let cur = epoch_at(sp, st.slot);
    if d.index != st.deposit_index {
        Err(GateError::BadDepositIndex)
    } else if d.index >= st.eth1_deposit_count {
        Err(GateError::DepositNotInEth1Data)
    } else if d.amount < sp.min_deposit_amount {
        Err(GateError::DepositAmountTooLow)
    } else if d.pubkey.len() != 48 {
        Err(GateError::BadDepositPubkey)
    } else if d.signature != sig_bytes(
        d.index,
        cur,
        domain_of(sp, cur, Domain::Deposit, st.fork),
        deposit_message(d),
    ) {
        Err(GateError::BadSignature)
    } else {
        Ok(
            StateView {
                validators: st.validators.push(
                    Validator { activation_epoch: cur, exit_epoch: sp.far_future_epoch, slashed: false },
                ),
                balances: st.balances.push(d.amount),
                deposit_index: (d.index + 1) as u64,
                ..st
            },
        )
    }
}

/// Processing a list of deposits in turn.
pub open spec fn deposits_outcome(st: StateView, ops: Seq<DepositV>, sp: ChainSpec) -> (
    StateView,
    Option<GateError>,
)
    decreases ops.len(),
{
    if ops.len() == 0 {
        (st, None)
    } else {
        match deposit_outcome(st, ops[0], sp) {
            Ok(st2) => deposits_outcome(st2, ops.skip(1), sp),
            Err(e) => (st, Some(e)),
        }
    }
}

/// A one-element list is processed exactly as its single operation.
pub proof fn lemma_deposits_outcome_single(st: StateView, ops: Seq<DepositV>, sp: ChainSpec)
    requires
        ops.len() == 1,
    ensures
        deposits_outcome(st, ops, sp) == (match deposit_outcome(st, ops[0], sp) {
            Ok(st2) => (st2, None::<GateError>),
            Err(e) => (st, Some(e)),
        }),
{
    reveal_with_fuel(deposits_outcome, 2);
    assert(ops.skip(1) =~= Seq::<DepositV>::empty());
}

/// The views of a list of deposits.
pub open spec fn deposit_views(s: Seq<Deposit>) -> Seq<DepositV> {
    s.map_values(|x: Deposit| x@)
}

/// Records the deposit in the state's own deposit-tracking data, so that
/// acceptance can cross-check the deposit against it.
pub fn insert_eth1_data(state: &mut State, deposit: &Deposit)
    requires
        deposit@.index < 0xffff_ffff_ffff_ffff,
    ensures
        final(state)@ == (StateView {
            eth1_deposit_count: if old(state)@.eth1_deposit_count > deposit@.index {
                old(state)@.eth1_deposit_count
            } else {
                (deposit@.index + 1) as u64
            },
            ..old(state)@
        }),
{
    if state.eth1_deposit_count <= deposit.index {
        state.eth1_deposit_count = deposit.index + 1;
    }
    assert(final(state)@ =~= (StateView {
        eth1_deposit_count: if old(state)@.eth1_deposit_count > deposit@.index {
            old(state)@.eth1_deposit_count
        } else {
            (deposit@.index + 1) as u64
        },
        ..old(state)@
    }));
}

/// Checks one deposit and applies it on acceptance.
fn process_deposit_one(state: &mut State, d: &Deposit, sp: &ChainSpec) -> (r: Result<
    (),
    GateError,
>)
    requires
        old(state).wf(),
        sp.wf(),
    ensures
        match deposit_outcome(old(state)@, d@, *sp) {
            Ok(st2) => r == Ok::<(), GateError>(()) && final(state)@ == st2,
            Err(er) => r == Err::<(), GateError>(er) && final(state)@ == old(state)@,
        },
        final(state).wf(),
{
    let cur = state.current_epoch(sp);
    if d.index != state.deposit_index {
        return Err(GateError::BadDepositIndex);
    }
    if d.index >= state.eth1_deposit_count {
        return Err(GateError::DepositNotInEth1Data);
    }
    if d.amount < sp.min_deposit_amount {
        return Err(GateError::DepositAmountTooLow);
    }
    if d.pubkey.len() != 48 {
        return Err(GateError::BadDepositPubkey);
    }
    let mut msg: Vec<u8> = Vec::new();
    push_bytes(&mut msg, &d.pubkey);
    push_u64(&mut msg, d.amount);
    assert(msg@ =~= deposit_message(d@));
    let domain = sp.get_domain(cur, Domain::Deposit, &state.fork);
    let expected = compute_signature(d.index, cur, domain, &msg);
    if !bytes_eq(&d.signature, &expected) {
        return Err(GateError::BadSignature);
    }
    state.validators.push(
        Validator { activation_epoch: cur, exit_epoch: sp.far_future_epoch, slashed: false },
    );
    state.balances.push(d.amount);
    state.deposit_index = d.index + 1;
    assert(final(state)@ =~= deposit_outcome(old(state)@, d@, *sp).unwrap());
    Ok(())
}

/// Gate entry for deposits.
pub fn process_deposits(state: &mut State, deposits: &Vec<Deposit>, sp: &ChainSpec) -> (r: Result<
    (),
    GateError,
>)
    requires
        old(state).wf(),
        sp.wf(),
    ensures
        final(state)@ == deposits_outcome(old(state)@, deposit_views(deposits@), *sp).0,
        r == (match deposits_outcome(old(state)@, deposit_views(deposits@), *sp).1 {
            None => Ok::<(), GateError>(()),
            Some(e) => Err::<(), GateError>(e),
        }),
        final(state).wf(),
{
    let ghost all = deposit_views(deposits@);
    assert(all.skip(0) =~= all);
    let mut i: usize = 0;
    while i < deposits.len()
        invariant
            i <= deposits@.len(),
            all == deposit_views(deposits@),
            state.wf(),
            sp.wf(),
            deposits_outcome(old(state)@, all, *sp) == deposits_outcome(
                state@,
                all.skip(i as int),
                *sp,
            ),
        decreases deposits@.len() - i,
    {
        let ghost rest = all.skip(i as int);
        assert(rest[0] == deposits@[i as int]@);
        let res = process_deposit_one(state, &deposits[i], sp);
        match res {
            Ok(()) => {
                assert(rest.skip(1) =~= all.skip(i as int + 1));
            },
            Err(er) => {
                return Err(er);
            },
        }
        i = i + 1;
    }
    assert(all.skip(deposits@.len() as int) =~= Seq::<DepositV>::empty());
    Ok(())
}

/// The message a transfer signs: its unsigned fields.
pub open spec fn transfer_message(t: TransferV) -> Seq<u8> {
    enc_u64(t.sender) + enc_u64(t.recipient) + enc_u64(t.amount) + enc_u64(t.fee) + enc_u64(t.slot)
        + t.pubkey
}

/// What processing one transfer does to the state, or why it fails.
pub open spec fn transfer_outcome(st: StateView, t: TransferV, sp: ChainSpec) -> Result<
    StateView,
    GateError,
> {
    if t.sender >= st.balances.len() {
        Err(GateError::UnknownValidator)
    } else if t.recipient >= st.balances.len() {
        Err(GateError::BadRecipient)
    } else if st.balances[t.sender as int] < t.amount + t.fee {
        Err(GateError::InsufficientBalance)
    } else if t.slot != st.slot {
        Err(GateError::BadSlot)
    } else if t.signature != sig_bytes(
        t.sender,
        epoch_at(sp, t.slot),
        domain_of(sp, epoch_at(sp, t.slot), Domain::Transfer, st.fork),
        transfer_message(t),
    ) {
        Err(GateError::BadSignature)
    } else {
        let debited = st.balances.update(
            t.sender as int,
            (st.balances[t.sender as int] - t.amount - t.fee) as u64,
        );
        if debited[t.recipient as int] + t.amount > 0xffff_ffff_ffff_ffff {
            Err(GateError::BalanceOverflow)
        } else {
            Ok(
                StateView {
                    balances: debited.update(
                        t.recipient as int,
                        (debited[t.recipient as int] + t.amount) as u64,
                    ),
                    ..st
                },
            )
        }
    }
}

/// Processing a list of transfers in turn.
pub open spec fn transfers_outcome(st: StateView, ops: Seq<TransferV>, sp: ChainSpec) -> (
    StateView,
    Option<GateError>,
)
    decreases ops.len(),
{
    if ops.len() == 0 {
        (st, None)
    } else {
        match transfer_outcome(st, ops[0], sp) {
            Ok(st2) => transfers_outcome(st2, ops.skip(1), sp),
            Err(e) => (st, Some(e)),
        }
    }
}

/// A one-element list is processed exactly as its single operation.
pub proof fn lemma_transfers_outcome_single(st: StateView, ops: Seq<TransferV>, sp: ChainSpec)
    requires
        ops.len() == 1,
    ensures
        transfers_outcome(st, ops, sp) == (match transfer_outcome(st, ops[0], sp) {
            Ok(st2) => (st2, None::<GateError>),
            Err(e) => (st, Some(e)),
        }),
{
    reveal_with_fuel(transfers_outcome, 2);
    assert(ops.skip(1) =~= Seq::<TransferV>::empty());
}

/// The views of a list of transfers.
pub open spec fn transfer_views(s: Seq<Transfer>) -> Seq<TransferV> {
    s.map_values(|x: Transfer| x@)
}

/// Checks one transfer and applies it on acceptance.
fn process_transfer_one(state: &mut State, t: &Transfer, sp: &ChainSpec) -> (r: Result<
    (),
    GateError,
>)
    requires
        old(state).wf(),
        sp.wf(),
    ensures
        match transfer_outcome(old(state)@, t@, *sp) {
            Ok(st2) => r == Ok::<(), GateError>(()) && final(state)@ == st2,
            Err(er) => r == Err::<(), GateError>(er) && final(state)@ == old(state)@,
        },
        final(state).wf(),
{
    let n = state.balances.len();
    if t.sender >= n as u64 {
        return Err(GateError::UnknownValidator);
    }
    if t.recipient >= n as u64 {
        return Err(GateError::BadRecipient);
    }
    let si = t.sender as usize;
    let ri = t.recipient as usize;
    let bal_s = state.balances[si];
    if (bal_s as u128) < (t.amount as u128) + (t.fee as u128) {
        return Err(GateError::InsufficientBalance);
    }
    if t.slot != state.slot {
        return Err(GateError::BadSlot);
    }
    let epoch = t.slot / sp.slots_per_epoch;
    let mut msg = u64_to_le_bytes(t.sender);
    push_u64(&mut msg, t.recipient);
    push_u64(&mut msg, t.amount);
    push_u64(&mut msg, t.fee);
    push_u64(&mut msg, t.slot);
    push_bytes(&mut msg, &t.pubkey);
    assert(msg@ =~= transfer_message(t@));
    let domain = sp.get_domain(epoch, Domain::Transfer, &state.fork);
    let expected = compute_signature(t.sender, epoch, domain, &msg);
    if !bytes_eq(&t.signature, &expected) {
        return Err(GateError::BadSignature);
    }
    let new_s = bal_s - t.amount - t.fee;
    let bal_r = if ri == si {
        new_s
    } else {
        state.balances[ri]
    };
    if t.amount > 0xffff_ffff_ffff_ffffu64 - bal_r {
        return Err(GateError::BalanceOverflow);
    }
    state.balances.set(si, new_s);
    state.balances.set(ri, bal_r + t.amount);
    assert(final(state)@ =~= transfer_outcome(old(state)@, t@, *sp).unwrap());
    Ok(())
}

/// Gate entry for transfers.
pub fn process_transfers(state: &mut State, transfers: &Vec<Transfer>, sp: &ChainSpec) -> (r: Result<
    (),
    GateError,
>)
    requires
        old(state).wf(),
        sp.wf(),
    ensures
        final(state)@ == transfers_outcome(old(state)@, transfer_views(transfers@), *sp).0,
        r == (match transfers_outcome(old(state)@, transfer_views(transfers@), *sp).1 {
            None => Ok::<(), GateError>(()),
            Some(e) => Err::<(), GateError>(e),
        }),
        final(state).wf(),
{
    let ghost all = transfer_views(transfers@);
    assert(all.skip(0) =~= all);
    let mut i: usize = 0;
    while i < transfers.len()
        invariant
            i <= transfers@.len(),
            all == transfer_views(transfers@),
            state.wf(),
            sp.wf(),
            transfers_outcome(old(state)@, all, *sp) == transfers_outcome(
                state@,
                all.skip(i as int),
                *sp,
            ),
        decreases transfers@.len() - i,
    {
        let ghost rest = all.skip(i as int);
        assert(rest[0] == transfers@[i as int]@);
        let res = process_transfer_one(state, &transfers[i], sp);
        match res {
            Ok(()) => {
                assert(rest.skip(1) =~= all.skip(i as int + 1));
            },
            Err(er) => {
                return Err(er);
            },
        }
        i = i + 1;
    }
    assert(all.skip(transfers@.len() as int) =~= Seq::<TransferV>::empty());
    Ok(())
}

} // verus!
