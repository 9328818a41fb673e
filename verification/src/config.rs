//! Chain parameters, fork identifiers and signature-domain arithmetic.

use vstd::prelude::*;

verus! {

/// The signature-domain tags: a signed message mixes one of these in so a
/// signature cannot be replayed in another context.
#[derive(Clone, Copy, PartialEq, Eq, Structural, Debug)]
pub enum Domain {
    BeaconProposer,
    Randao,
    Attestation,
    Deposit,
    VoluntaryExit,
    Transfer,
}

/// The protocol parameters the generators depend on.
#[derive(Clone, Copy, PartialEq, Eq, Structural, Debug)]
pub struct ChainSpec {
    pub slots_per_epoch: u64,
    pub persistent_committee_period: u64,
    pub min_deposit_amount: u64,
    pub far_future_epoch: u64,
    pub domain_beacon_proposer: u64,
    pub domain_randao: u64,
    pub domain_attestation: u64,
    pub domain_deposit: u64,
    pub domain_voluntary_exit: u64,
    pub domain_transfer: u64,
}

/// Fork identifier: the version pair and the epoch of the switch.
#[derive(Clone, Copy, PartialEq, Eq, Structural, Debug)]
pub struct Fork {
    pub previous_version: u64,
    pub current_version: u64,
    pub epoch: u64,
}

impl Fork {
    /// Versions are four-byte values.
    pub open spec fn wf(self) -> bool {
        self.previous_version < 0x1_0000_0000 && self.current_version < 0x1_0000_0000
    }
}

/// The four-byte domain tag of `d` under `sp`.
pub open spec fn domain_type(sp: ChainSpec, d: Domain) -> u64 {
    match d {
        Domain::BeaconProposer => sp.domain_beacon_proposer,
        Domain::Randao => sp.domain_randao,
        Domain::Attestation => sp.domain_attestation,
        Domain::Deposit => sp.domain_deposit,
        Domain::VoluntaryExit => sp.domain_voluntary_exit,
        Domain::Transfer => sp.domain_transfer,
    }
}

/// The fork version in force at `epoch`.
pub open spec fn fork_version_at(f: Fork, epoch: u64) -> u64 {
    if epoch < f.epoch {
        f.previous_version
    } else {
        f.current_version
    }
}

/// The full domain value: the tag in the low four bytes, the fork version in
/// force at `epoch` in the high four.
pub open spec fn domain_of(sp: ChainSpec, epoch: u64, d: Domain, f: Fork) -> u64
    recommends
        sp.wf(),
        f.wf(),
{
    (domain_type(sp, d) + fork_version_at(f, epoch) * 0x1_0000_0000) as u64
}

impl ChainSpec {
    /// Domain tags are four-byte values and an epoch has at least one slot.
    pub open spec fn wf(self) -> bool {
        &&& self.slots_per_epoch > 0
        &&& self.domain_beacon_proposer < 0x1_0000_0000
        &&& self.domain_randao < 0x1_0000_0000
        &&& self.domain_attestation < 0x1_0000_0000
        &&& self.domain_deposit < 0x1_0000_0000
        &&& self.domain_voluntary_exit < 0x1_0000_0000
        &&& self.domain_transfer < 0x1_0000_0000
    }

    /// The parameter set of the minimal test configuration.
    pub open spec fn minimal_spec() -> ChainSpec {
        ChainSpec {
            slots_per_epoch: 8,
            persistent_committee_period: 2048,
            min_deposit_amount: 1_000_000_000,
            far_future_epoch: 0xffff_ffff_ffff_ffff,
            domain_beacon_proposer: 0,
            domain_randao: 1,
            domain_attestation: 2,
            domain_deposit: 3,
            domain_voluntary_exit: 4,
            domain_transfer: 5,
        }
    }

    /// Builds the minimal test configuration.
    pub fn minimal() -> (r: ChainSpec)
        ensures
            r == ChainSpec::minimal_spec(),
            r.wf(),
    {
        ChainSpec {
            slots_per_epoch: 8,
            persistent_committee_period: 2048,
            min_deposit_amount: 1_000_000_000,
            far_future_epoch: 0xffff_ffff_ffff_ffff,
            domain_beacon_proposer: 0,
            domain_randao: 1,
            domain_attestation: 2,
            domain_deposit: 3,
            domain_voluntary_exit: 4,
            domain_transfer: 5,
        }
    }

    /// Computes the domain value for signing: tag plus fork version in force.
    pub fn get_domain(&self, epoch: u64, d: Domain, f: &Fork) -> (r: u64)
        requires
            self.wf(),
            f.wf(),
        ensures
            r == domain_of(*self, epoch, d, *f),
    {
        let tag = match d {
            Domain::BeaconProposer => self.domain_beacon_proposer,
            Domain::Randao => self.domain_randao,
            Domain::Attestation => self.domain_attestation,
            Domain::Deposit => self.domain_deposit,
            Domain::VoluntaryExit => self.domain_voluntary_exit,
            Domain::Transfer => self.domain_transfer,
        };
        let version = if epoch < f.epoch {
            f.previous_version
        } else {
            f.current_version
        };
        tag + version * 0x1_0000_0000
    }
}

/// Run parameters for the generators: fixture size and base epoch.
#[derive(Clone, Copy, PartialEq, Eq, Structural, Debug)]
pub struct GenConfig {
    pub num_validators: u64,
    pub state_epoch: u64,
}

impl GenConfig {
    /// The run parameters matching the standard minimal fixture.
    pub fn fixture() -> (r: GenConfig)
        ensures
            r.num_validators == crate::NUM_VALIDATORS,
            r.state_epoch == crate::STATE_EPOCH,
    {
        GenConfig { num_validators: crate::NUM_VALIDATORS, state_epoch: crate::STATE_EPOCH }
    }
}

} // verus!
