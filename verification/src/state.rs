//! The beacon-state model, its fixture builders and the preconditioner.

use vstd::prelude::*;
use crate::config::{ChainSpec, Fork, GenConfig};
use crate::bytes::{enc_u64, u64_to_le_bytes, push_repeat};
use vstd::arithmetic::div_mod::lemma_mod_bound;

verus! {

/// One registered validator: what the eligibility rules read.
#[derive(Clone, Copy, PartialEq, Eq, Structural, Debug)]
pub struct Validator {
    pub activation_epoch: u64,
    pub exit_epoch: u64,
    pub slashed: bool,
}

/// Mutable snapshot of consensus state.
#[derive(Debug)]
pub struct State {
    pub slot: u64,
    pub fork: Fork,
    pub validators: Vec<Validator>,
    pub balances: Vec<u64>,
    pub deposit_index: u64,
    pub eth1_deposit_count: u64,
    pub latest_block_header_root: Vec<u8>,
}

/// Mathematical model of a `State`.
#[verifier::ext_equal]
pub struct StateView {
    pub slot: u64,
    pub fork: Fork,
    pub validators: Seq<Validator>,
    pub balances: Seq<u64>,
    pub deposit_index: u64,
    pub eth1_deposit_count: u64,
    pub latest_block_header_root: Seq<u8>,
}

impl View for State {
    type V = StateView;

    open spec fn view(&self) -> StateView {
        StateView {
            slot: self.slot,
            fork: self.fork,
            validators: self.validators@,
            balances: self.balances@,
            deposit_index: self.deposit_index,
            eth1_deposit_count: self.eth1_deposit_count,
            latest_block_header_root: self.latest_block_header_root@,
        }
    }
}

impl StateView {
    /// One balance per validator, a 32-byte header root, a sane fork.
    pub open spec fn wf(self) -> bool {
        &&& self.balances.len() == self.validators.len()
        &&& self.latest_block_header_root.len() == 32
        &&& self.fork.wf()
    }
}

impl State {
    pub open spec fn wf(self) -> bool {
        self@.wf()
    }
}

/// The epoch that contains `slot`.
pub open spec fn epoch_at(sp: ChainSpec, slot: u64) -> u64
    recommends
        sp.wf(),
{
    ((slot as int) / (sp.slots_per_epoch as int)) as u64
}

/// Which epoch's duty shuffling to read, relative to a base epoch.
#[derive(Clone, Copy, PartialEq, Eq, Structural, Debug)]
pub enum RelativeEpoch {
    Previous,
    Current,
    Next,
}

/// The shuffling epoch `rel` steps away from `e`, if it exists.
pub open spec fn relative_epoch_of(e: u64, rel: RelativeEpoch) -> Option<u64> {
    match rel {
        RelativeEpoch::Previous => if e > 0 {
            Some((e - 1) as u64)
        } else {
            None
        },
        RelativeEpoch::Current => Some(e),
        RelativeEpoch::Next => if e < 0xffff_ffff_ffff_ffff {
            Some((e + 1) as u64)
        } else {
            None
        },
    }
}

/// The validator index scheduled to propose at `slot` under the shuffling of
/// `epoch`, over `n` validators.
pub open spec fn proposer_index_of(slot: u64, epoch: u64, n: int) -> u64
    recommends
        n > 0,
{
    ((slot + epoch) % n) as u64
}

/// The proposer the state assigns at `slot` with the `rel` shuffling; `None`
/// when the validator set is empty or the relative epoch does not exist.
pub open spec fn proposer_lookup(st: StateView, slot: u64, rel: RelativeEpoch, sp: ChainSpec) -> Option<u64>
    recommends
        sp.wf(),
{
    if st.validators.len() == 0 {
        None
    } else {
        match relative_epoch_of(epoch_at(sp, slot), rel) {
            Some(e) => Some(proposer_index_of(slot, e, st.validators.len() as int)),
            None => None,
        }
    }
}

impl State {
    /// The epoch the state currently sits in.
    pub fn current_epoch(&self, sp: &ChainSpec) -> (r: u64)
        requires
            sp.wf(),
        ensures
            r == epoch_at(*sp, self.slot),
    {
        self.slot / sp.slots_per_epoch
    }

    /// Deterministic proposer selection: the index scheduled to propose at
    /// `slot` under the shuffling `rel` steps from the slot's epoch.
    pub fn get_beacon_proposer_index(&self, slot: u64, rel: RelativeEpoch, sp: &ChainSpec) -> (r: Option<u64>)
        requires
            sp.wf(),
        ensures
            r == proposer_lookup(self@, slot, rel, *sp),
            r matches Some(i) ==> i < self.validators@.len(),
    {
        let n = self.validators.len();
        if n == 0 {
            return None;
        }
        let base = slot / sp.slots_per_epoch;
        let e: u64 = match rel {
            RelativeEpoch::Previous => {
                if base > 0 {
                    base - 1
                } else {
                    return None;
                }
            },
            RelativeEpoch::Current => base,
            RelativeEpoch::Next => {
                if base < 0xffff_ffff_ffff_ffff {
                    base + 1
                } else {
                    return None;
                }
            },
        };
        proof {
            lemma_mod_bound(slot + e, n as int);
        }
        let idx = (((slot as u128) + (e as u128)) % (n as u128)) as u64;
        Some(idx)
    }
}

/// Advances the state's slot so that it sits at the start of `new_epoch`,
/// touching nothing else.
pub fn increase_state_epoch(state: &mut State, new_epoch: u64, sp: &ChainSpec)
    requires
        sp.wf(),
        new_epoch * sp.slots_per_epoch <= 0xffff_ffff_ffff_ffff,
    ensures
        final(state)@ == (StateView { slot: (new_epoch * sp.slots_per_epoch) as u64, ..old(state)@ }),
{
    state.slot = new_epoch * sp.slots_per_epoch;
    assert(final(state)@ =~= (StateView { slot: (new_epoch * sp.slots_per_epoch) as u64, ..old(state)@ }));
}

/// The minimal fixture state: `cfg.num_validators` active validators, each
/// with a standard balance, sitting at the first slot of `cfg.state_epoch`.
pub open spec fn minimal_state_view(cfg: GenConfig, sp: ChainSpec) -> StateView {
    StateView {
        slot: (cfg.state_epoch * sp.slots_per_epoch) as u64,
        fork: Fork { previous_version: 0, current_version: 0, epoch: 0 },
        validators: Seq::new(cfg.num_validators as nat, |i: int| Validator {
            activation_epoch: 0,
            exit_epoch: sp.far_future_epoch,
            slashed: false,
        }),
        balances: Seq::new(cfg.num_validators as nat, |i: int| 32_000_000_000u64),
        deposit_index: 0,
        eth1_deposit_count: 0,
        latest_block_header_root: Seq::new(32, |i: int| 0u8),
    }
}

/// Builds the minimal fixture state in memory.
pub fn minimal_state(cfg: &GenConfig, sp: &ChainSpec) -> (r: State)
    requires
        sp.wf(),
        cfg.state_epoch * sp.slots_per_epoch <= 0xffff_ffff_ffff_ffff,
        cfg.num_validators <= 0xffff_ffff,
    ensures
        r@ == minimal_state_view(*cfg, *sp),
        r.wf(),
{
    let n = cfg.num_validators as usize;
    let mut validators: Vec<Validator> = Vec::new();
    let mut balances: Vec<u64> = Vec::new();
    let mut i: usize = 0;
    while i < n
        invariant
            i <= n,
            n == cfg.num_validators,
            validators@ =~= Seq::new(i as nat, |j: int| Validator {
                activation_epoch: 0,
                exit_epoch: sp.far_future_epoch,
                slashed: false,
            }),
            balances@ =~= Seq::new(i as nat, |j: int| 32_000_000_000u64),
        decreases n - i,
    {
        validators.push(Validator { activation_epoch: 0, exit_epoch: sp.far_future_epoch, slashed: false });
        balances.push(32_000_000_000);
        i = i + 1;
    }
    let mut root: Vec<u8> = Vec::new();
    push_repeat(&mut root, 0, 32);
    let r = State {
        slot: cfg.state_epoch * sp.slots_per_epoch,
        fork: Fork { previous_version: 0, current_version: 0, epoch: 0 },
        validators,
        balances,
        deposit_index: 0,
        eth1_deposit_count: 0,
        latest_block_header_root: root,
    };
    assert(r@ =~= minimal_state_view(*cfg, *sp));
    r
}

/// A validator keypair: opaque secret and public key bytes.
#[derive(Clone, Debug)]
pub struct Keypair {
    pub sk: Vec<u8>,
    pub pk: Vec<u8>,
}

/// Mathematical model of a `Keypair`.
#[verifier::ext_equal]
pub struct KeypairV {
    pub sk: Seq<u8>,
    pub pk: Seq<u8>,
}

impl View for Keypair {
    type V = KeypairV;

    open spec fn view(&self) -> KeypairV {
        KeypairV { sk: self.sk@, pk: self.pk@ }
    }
}

/// The deterministic fixture keypair of validator `i`: index-tagged bytes of
/// the standard secret- and public-key lengths.
pub open spec fn fixture_keypair(i: u64) -> KeypairV {
    KeypairV {
        sk: enc_u64(i) + Seq::new(24, |j: int| 0x5eu8),
        pk: enc_u64(i) + Seq::new(40, |j: int| 0xb1u8),
    }
}

/// Builds the deterministic fixture keypair set, one pair per index.
pub fn fixture_keypairs(count: u64) -> (r: Vec<Keypair>)
    requires
        count <= 0xffff_ffff,
    ensures
        r@.len() == count,
        forall|i: int| 0 <= i < count ==> #[trigger] r@[i]@ == fixture_keypair(i as u64),
{
    let n = count as usize;
    let mut r: Vec<Keypair> = Vec::new();
    let mut i: usize = 0;
    while i < n
        invariant
            i <= n,
            n == count,
            r@.len() == i,
            forall|j: int| 0 <= j < i ==> #[trigger] r@[j]@ == fixture_keypair(j as u64),
        decreases n - i,
    {
        let mut sk = u64_to_le_bytes(i as u64);
        push_repeat(&mut sk, 0x5e, 24);
        let mut pk = u64_to_le_bytes(i as u64);
        push_repeat(&mut pk, 0xb1, 40);
        let kp = Keypair { sk, pk };
        assert(kp@ =~= fixture_keypair(i as u64));
        r.push(kp);
        i = i + 1;
    }
    r
}

} // verus!
