//! The six operation kinds, their mathematical views, and the tagged
//! `Operation` sum that the emitter serializes.

use vstd::prelude::*;

verus! {

/// A signed request by a validator to leave the validator set.
#[derive(Clone, Debug)]
pub struct VoluntaryExit {
    pub epoch: u64,
    pub validator_index: u64,
    pub signature: Vec<u8>,
}

/// Model of a `VoluntaryExit`.
#[verifier::ext_equal]
pub struct ExitV {
    pub epoch: u64,
    pub validator_index: u64,
    pub signature: Seq<u8>,
}

impl View for VoluntaryExit {
    type V = ExitV;

    open spec fn view(&self) -> ExitV {
        ExitV { epoch: self.epoch, validator_index: self.validator_index, signature: self.signature@ }
    }
}

impl ExitV {
    pub open spec fn wf(self) -> bool {
        self.signature.len() == 96
    }
}

/// A minimal proposer-signed block: header fields plus the randao reveal.
#[derive(Clone, Debug)]
pub struct BeaconBlock {
    pub slot: u64,
    pub previous_block_root: Vec<u8>,
    pub randao_reveal: Vec<u8>,
    pub signature: Vec<u8>,
}

/// Model of a `BeaconBlock`.
#[verifier::ext_equal]
pub struct BlockV {
    pub slot: u64,
    pub previous_block_root: Seq<u8>,
    pub randao_reveal: Seq<u8>,
    pub signature: Seq<u8>,
}

impl View for BeaconBlock {
    type V = BlockV;

    open spec fn view(&self) -> BlockV {
        BlockV {
            slot: self.slot,
            previous_block_root: self.previous_block_root@,
            randao_reveal: self.randao_reveal@,
            signature: self.signature@,
        }
    }
}

impl BlockV {
    pub open spec fn wf(self) -> bool {
        &&& self.previous_block_root.len() == 32
        &&& self.randao_reveal.len() == 96
        &&& self.signature.len() == 96
    }
}

/// What one attestation votes for.
#[derive(Clone, Debug)]
pub struct AttestationData {
    pub source_epoch: u64,
    pub target_epoch: u64,
    pub beacon_block_root: Vec<u8>,
}

/// Model of an `AttestationData`.
#[verifier::ext_equal]
pub struct AttDataV {
    pub source_epoch: u64,
    pub target_epoch: u64,
    pub beacon_block_root: Seq<u8>,
}

impl View for AttestationData {
    type V = AttDataV;

    open spec fn view(&self) -> AttDataV {
        AttDataV {
            source_epoch: self.source_epoch,
            target_epoch: self.target_epoch,
            beacon_block_root: self.beacon_block_root@,
        }
    }
}

impl AttDataV {
    pub open spec fn wf(self) -> bool {
        self.beacon_block_root.len() == 32
    }
}

/// An attestation with its attesting validator indices spelled out.
#[derive(Clone, Debug)]
pub struct IndexedAttestation {
    pub attester_indices: Vec<u64>,
    pub data: AttestationData,
    pub signature: Vec<u8>,
}

/// Model of an `IndexedAttestation`.
#[verifier::ext_equal]
pub struct AttV {
    pub attester_indices: Seq<u64>,
    pub data: AttDataV,
    pub signature: Seq<u8>,
}

impl View for IndexedAttestation {
    type V = AttV;

    open spec fn view(&self) -> AttV {
        AttV {
            attester_indices: self.attester_indices@,
            data: self.data@,
            signature: self.signature@,
        }
    }
}

impl AttV {
    pub open spec fn wf(self) -> bool {
        &&& self.data.wf()
        &&& self.signature.len() == 96
    }
}

/// Two conflicting attestations by overlapping validators: slashing evidence.
#[derive(Clone, Debug)]
pub struct AttesterSlashing {
    pub attestation_1: IndexedAttestation,
    pub attestation_2: IndexedAttestation,
}

/// Model of an `AttesterSlashing`.
#[verifier::ext_equal]
pub struct SlashingV {
    pub attestation_1: AttV,
    pub attestation_2: AttV,
}

impl View for AttesterSlashing {
    type V = SlashingV;

    open spec fn view(&self) -> SlashingV {
        SlashingV { attestation_1: self.attestation_1@, attestation_2: self.attestation_2@ }
    }
}

impl SlashingV {
    pub open spec fn wf(self) -> bool {
        self.attestation_1.wf() && self.attestation_2.wf()
    }
}

/// A deposit of new stake, indexed against the state's running counter.
#[derive(Clone, Debug)]
pub struct Deposit {
    pub pubkey: Vec<u8>,
    pub amount: u64,
    pub index: u64,
    pub signature: Vec<u8>,
}

/// Model of a `Deposit`.
#[verifier::ext_equal]
pub struct DepositV {
    pub pubkey: Seq<u8>,
    pub amount: u64,
    pub index: u64,
    pub signature: Seq<u8>,
}

impl View for Deposit {
    type V = DepositV;

    open spec fn view(&self) -> DepositV {
        DepositV {
            pubkey: self.pubkey@,
            amount: self.amount,
            index: self.index,
            signature: self.signature@,
        }
    }
}

impl DepositV {
    pub open spec fn wf(self) -> bool {
        &&& self.pubkey.len() == 48
        &&& self.signature.len() == 96
    }
}

/// A balance transfer between two validator indices.
#[derive(Clone, Debug)]
pub struct Transfer {
    pub sender: u64,
    pub recipient: u64,
    pub amount: u64,
    pub fee: u64,
    pub slot: u64,
    pub pubkey: Vec<u8>,
    pub signature: Vec<u8>,
}

/// Model of a `Transfer`.
#[verifier::ext_equal]
pub struct TransferV {
    pub sender: u64,
    pub recipient: u64,
    pub amount: u64,
    pub fee: u64,
    pub slot: u64,
    pub pubkey: Seq<u8>,
    pub signature: Seq<u8>,
}

impl View for Transfer {
    type V = TransferV;

    open spec fn view(&self) -> TransferV {
        TransferV {
            sender: self.sender,
            recipient: self.recipient,
            amount: self.amount,
            fee: self.fee,
            slot: self.slot,
            pubkey: self.pubkey@,
            signature: self.signature@,
        }
    }
}

impl TransferV {
    pub open spec fn wf(self) -> bool {
        &&& self.pubkey.len() == 48
        &&& self.signature.len() == 96
    }
}

/// One accepted operation, tagged by kind.
#[derive(Clone, Debug)]
pub enum Operation {
    Exit(VoluntaryExit),
    Block(BeaconBlock),
    Slashing(AttesterSlashing),
    Deposit(Deposit),
    Transfer(Transfer),
}

/// Model of an `Operation`.
#[verifier::ext_equal]
pub enum OperationV {
    Exit(ExitV),
    Block(BlockV),
    Slashing(SlashingV),
    Deposit(DepositV),
    Transfer(TransferV),
}

impl View for Operation {
    type V = OperationV;

    open spec fn view(&self) -> OperationV {
        match self {
            Operation::Exit(e) => OperationV::Exit(e@),
            Operation::Block(b) => OperationV::Block(b@),
            Operation::Slashing(s) => OperationV::Slashing(s@),
            Operation::Deposit(d) => OperationV::Deposit(d@),
            Operation::Transfer(t) => OperationV::Transfer(t@),
        }
    }
}

impl OperationV {
    pub open spec fn wf(self) -> bool {
        match self {
            OperationV::Exit(e) => e.wf(),
            OperationV::Block(b) => b.wf(),
            OperationV::Slashing(s) => s.wf(),
            OperationV::Deposit(d) => d.wf(),
            OperationV::Transfer(t) => t.wf(),
        }
    }
}

impl Operation {
    /// The kind label that prefixes an emitted corpus line.
    pub fn label(&self) -> (r: &'static str)
        ensures
            match self {
                Operation::Exit(_) => r@ == "VoluntaryExit"@,
                Operation::Block(_) => r@ == "Block"@,
                Operation::Slashing(_) => r@ == "AttesterSlashing"@,
                Operation::Deposit(_) => r@ == "Deposit"@,
                Operation::Transfer(_) => r@ == "Transfer"@,
            },
    {
        match self {
            Operation::Exit(_) => "VoluntaryExit",
            Operation::Block(_) => "Block",
            Operation::Slashing(_) => "AttesterSlashing",
            Operation::Deposit(_) => "Deposit",
            Operation::Transfer(_) => "Transfer",
        }
    }
}

} // verus!
