//! The canonical byte serialization of each operation kind, with proofs that
//! parsing inverts encoding.

use vstd::prelude::*;
use crate::bytes::{enc_u64, dec_u64, lemma_dec_enc, push_u64, push_bytes};
use crate::ops::{
    AttDataV, AttV, AttesterSlashing, BeaconBlock, BlockV, Deposit, DepositV, ExitV,
    IndexedAttestation, Operation, OperationV, SlashingV, Transfer, TransferV, VoluntaryExit,
};

verus! {

/// The concatenated little-endian encodings of a list of integers.
pub open spec fn enc_u64s(s: Seq<u64>) -> Seq<u8>
    decreases s.len(),
{
    if s.len() == 0 {
        Seq::empty()
    } else {
        enc_u64(s[0]) + enc_u64s(s.skip(1))
    }
}

pub proof fn lemma_enc_u64s_len(s: Seq<u64>)
    ensures
        enc_u64s(s).len() == 8 * s.len(),
    decreases s.len(),
{
    if s.len() > 0 {
        lemma_enc_u64s_len(s.skip(1));
    }
}

pub proof fn lemma_enc_u64s_push(s: Seq<u64>, x: u64)
    ensures
        enc_u64s(s.push(x)) =~= enc_u64s(s) + enc_u64(x),
    decreases s.len(),
{
    if s.len() == 0 {
        assert(s.push(x)[0] == x);
        assert(s.push(x).skip(1) =~= s);
        assert(enc_u64s(s.push(x)) == enc_u64(x) + enc_u64s(s));
        assert(enc_u64s(s) =~= Seq::<u8>::empty());
        assert(enc_u64(x) + enc_u64s(s) =~= enc_u64s(s) + enc_u64(x));
    } else {
        assert(s.push(x).skip(1) =~= s.skip(1).push(x));
        lemma_enc_u64s_push(s.skip(1), x);
        assert(enc_u64s(s.push(x)) == enc_u64(s[0]) + enc_u64s(s.skip(1).push(x)));
        assert(enc_u64s(s.push(x)) =~= enc_u64(s[0]) + (enc_u64s(s.skip(1)) + enc_u64(x)));
        assert(enc_u64(s[0]) + (enc_u64s(s.skip(1)) + enc_u64(x)) =~= (enc_u64(s[0]) + enc_u64s(
            s.skip(1),
        )) + enc_u64(x));
    }
}

pub proof fn lemma_enc_u64s_index(s: Seq<u64>, i: int)
    requires
        0 <= i < s.len(),
    ensures
        enc_u64s(s).subrange(8 * i, 8 * i + 8) =~= enc_u64(s[i]),
    decreases s.len(),
{
    lemma_enc_u64s_len(s);
    lemma_enc_u64s_len(s.skip(1));
    if i == 0 {
        assert(enc_u64s(s).subrange(0, 8) =~= enc_u64(s[0]));
    } else {
        lemma_enc_u64s_index(s.skip(1), i - 1);
        assert(enc_u64s(s.skip(1)).subrange(8 * (i - 1), 8 * (i - 1) + 8) =~= enc_u64(s[i]));
        assert(enc_u64s(s).subrange(8 * i, 8 * i + 8) =~= enc_u64s(s.skip(1)).subrange(
            8 * (i - 1),
            8 * (i - 1) + 8,
        ));
    }
}

/// Wire form of a voluntary exit: epoch, validator index, signature.
pub open spec fn enc_exit(e: ExitV) -> Seq<u8> {
    enc_u64(e.epoch) + enc_u64(e.validator_index) + e.signature
}

/// Reads a voluntary exit back from its wire form.
pub open spec fn parse_exit(b: Seq<u8>) -> Option<ExitV> {
    if b.len() == 112 {
        Some(ExitV {
            epoch: dec_u64(b.subrange(0, 8)),
            validator_index: dec_u64(b.subrange(8, 16)),
            signature: b.subrange(16, 112),
        })
    } else {
        None
    }
}

/// Parsing inverts encoding for voluntary exits.
pub proof fn lemma_exit_round_trip(e: ExitV)
    requires
        e.wf(),
    ensures
        parse_exit(enc_exit(e)) == Some(e),
{
    let b = enc_exit(e);
    assert(b.subrange(0, 8) =~= enc_u64(e.epoch));
    assert(b.subrange(8, 16) =~= enc_u64(e.validator_index));
    assert(b.subrange(16, 112) =~= e.signature);
    lemma_dec_enc(e.epoch);
    lemma_dec_enc(e.validator_index);
    assert(parse_exit(b).unwrap() =~= e);
}

/// Wire form of a block: slot, previous root, randao reveal, signature.
pub open spec fn enc_block(b: BlockV) -> Seq<u8> {
    enc_u64(b.slot) + b.previous_block_root + b.randao_reveal + b.signature
}

/// Reads a block back from its wire form.
pub open spec fn parse_block(b: Seq<u8>) -> Option<BlockV> {
    if b.len() == 232 {
        Some(BlockV {
            slot: dec_u64(b.subrange(0, 8)),
            previous_block_root: b.subrange(8, 40),
            randao_reveal: b.subrange(40, 136),
            signature: b.subrange(136, 232),
        })
    } else {
        None
    }
}

/// Parsing inverts encoding for blocks.
pub proof fn lemma_block_round_trip(bl: BlockV)
    requires
        bl.wf(),
    ensures
        parse_block(enc_block(bl)) == Some(bl),
{
    let b = enc_block(bl);
    assert(b.subrange(0, 8) =~= enc_u64(bl.slot));
    assert(b.subrange(8, 40) =~= bl.previous_block_root);
    assert(b.subrange(40, 136) =~= bl.randao_reveal);
    assert(b.subrange(136, 232) =~= bl.signature);
    lemma_dec_enc(bl.slot);
    assert(parse_block(b).unwrap() =~= bl);
}

/// Wire form of a deposit: public key, amount, index, signature.
pub open spec fn enc_deposit(d: DepositV) -> Seq<u8> {
    d.pubkey + enc_u64(d.amount) + enc_u64(d.index) + d.signature
}

/// Reads a deposit back from its wire form.
pub open spec fn parse_deposit(b: Seq<u8>) -> Option<DepositV> {
    if b.len() == 160 {
        Some(DepositV {
            pubkey: b.subrange(0, 48),
            amount: dec_u64(b.subrange(48, 56)),
            index: dec_u64(b.subrange(56, 64)),
            signature: b.subrange(64, 160),
        })
    } else {
        None
    }
}

/// Parsing inverts encoding for deposits.
pub proof fn lemma_deposit_round_trip(d: DepositV)
    requires
        d.wf(),
    ensures
        parse_deposit(enc_deposit(d)) == Some(d),
{
    let b = enc_deposit(d);
    assert(b.subrange(0, 48) =~= d.pubkey);
    assert(b.subrange(48, 56) =~= enc_u64(d.amount));
    assert(b.subrange(56, 64) =~= enc_u64(d.index));
    assert(b.subrange(64, 160) =~= d.signature);
    lemma_dec_enc(d.amount);
    lemma_dec_enc(d.index);
    assert(parse_deposit(b).unwrap() =~= d);
}

/// Wire form of a transfer: the five integers, public key, signature.
pub open spec fn enc_transfer(t: TransferV) -> Seq<u8> {
    enc_u64(t.sender) + enc_u64(t.recipient) + enc_u64(t.amount) + enc_u64(t.fee) + enc_u64(t.slot)
        + t.pubkey + t.signature
}

/// Reads a transfer back from its wire form.
pub open spec fn parse_transfer(b: Seq<u8>) -> Option<TransferV> {
    if b.len() == 184 {
        Some(TransferV {
            sender: dec_u64(b.subrange(0, 8)),
            recipient: dec_u64(b.subrange(8, 16)),
            amount: dec_u64(b.subrange(16, 24)),
            fee: dec_u64(b.subrange(24, 32)),
            slot: dec_u64(b.subrange(32, 40)),
            pubkey: b.subrange(40, 88),
            signature: b.subrange(88, 184),
        })
    } else {
        None
    }
}

/// Parsing inverts encoding for transfers.
#[verifier::rlimit(100)]
pub proof fn lemma_transfer_round_trip(t: TransferV)
    requires
        t.wf(),
    ensures
        parse_transfer(enc_transfer(t)) == Some(t),
{
    let b = enc_transfer(t);
    assert(b.subrange(0, 8) =~= enc_u64(t.sender));
    assert(b.subrange(8, 16) =~= enc_u64(t.recipient));
    assert(b.subrange(16, 24) =~= enc_u64(t.amount));
    assert(b.subrange(24, 32) =~= enc_u64(t.fee));
    assert(b.subrange(32, 40) =~= enc_u64(t.slot));
    assert(b.subrange(40, 88) =~= t.pubkey);
    assert(b.subrange(88, 184) =~= t.signature);
    lemma_dec_enc(t.sender);
    lemma_dec_enc(t.recipient);
    lemma_dec_enc(t.amount);
    lemma_dec_enc(t.fee);
    lemma_dec_enc(t.slot);
    assert(parse_transfer(b).unwrap() =~= t);
}

/// Wire form of an indexed attestation: attester count, the indices, the
/// vote's source and target epochs and root, the signature.
pub open spec fn enc_attestation(a: AttV) -> Seq<u8> {
    enc_u64(a.attester_indices.len() as u64) + enc_u64s(a.attester_indices) + enc_u64(
        a.data.source_epoch,
    ) + enc_u64(a.data.target_epoch) + a.data.beacon_block_root + a.signature
}

/// Reads an indexed attestation back from its wire form.
pub open spec fn parse_attestation(b: Seq<u8>) -> Option<AttV> {
    if b.len() < 8 {
        None
    } else {
        let n = dec_u64(b.subrange(0, 8)) as int;
        if b.len() == 8 * n + 152 {
            Some(AttV {
                attester_indices: Seq::new(n as nat, |i: int| dec_u64(b.subrange(8 + 8 * i, 16 + 8 * i))),
                data: AttDataV {
                    source_epoch: dec_u64(b.subrange(8 * n + 8, 8 * n + 16)),
                    target_epoch: dec_u64(b.subrange(8 * n + 16, 8 * n + 24)),
                    beacon_block_root: b.subrange(8 * n + 24, 8 * n + 56),
                },
                signature: b.subrange(8 * n + 56, 8 * n + 152),
            })
        } else {
            None
        }
    }
}

/// Parsing inverts encoding for indexed attestations.
pub proof fn lemma_attestation_round_trip(a: AttV)
    requires
        a.wf(),
        a.attester_indices.len() < 0x1_0000_0000,
    ensures
        parse_attestation(enc_attestation(a)) == Some(a),
{
    let b = enc_attestation(a);
    let n = a.attester_indices.len() as int;
    lemma_enc_u64s_len(a.attester_indices);
    assert(b.len() == 8 * n + 152);
    assert(b.subrange(0, 8) =~= enc_u64(n as u64));
    lemma_dec_enc(n as u64);
    let body = enc_u64s(a.attester_indices);
    assert forall|i: int| 0 <= i < n implies dec_u64(
        b.subrange(8 + 8 * i, 16 + 8 * i),
    ) == a.attester_indices[i] by {
        lemma_enc_u64s_index(a.attester_indices, i);
        assert(b.subrange(8 + 8 * i, 16 + 8 * i) =~= body.subrange(8 * i, 8 * i + 8));
        lemma_dec_enc(a.attester_indices[i]);
    }
    assert(Seq::new(n as nat, |i: int| dec_u64(b.subrange(8 + 8 * i, 16 + 8 * i)))
        =~= a.attester_indices);
    assert(b.subrange(8 * n + 8, 8 * n + 16) =~= enc_u64(a.data.source_epoch));
    assert(b.subrange(8 * n + 16, 8 * n + 24) =~= enc_u64(a.data.target_epoch));
    assert(b.subrange(8 * n + 24, 8 * n + 56) =~= a.data.beacon_block_root);
    assert(b.subrange(8 * n + 56, 8 * n + 152) =~= a.signature);
    lemma_dec_enc(a.data.source_epoch);
    lemma_dec_enc(a.data.target_epoch);
    assert(parse_attestation(b).unwrap() =~= a);
}

/// Wire form of an attester slashing: the first attestation's byte length,
/// then the two attestations.
pub open spec fn enc_slashing(s: SlashingV) -> Seq<u8> {
    enc_u64(enc_attestation(s.attestation_1).len() as u64) + enc_attestation(s.attestation_1)
        + enc_attestation(s.attestation_2)
}

/// Reads an attester slashing back from its wire form.
pub open spec fn parse_slashing(b: Seq<u8>) -> Option<SlashingV> {
    if b.len() < 8 {
        None
    } else {
        let l1 = dec_u64(b.subrange(0, 8)) as int;
        if 8 + l1 <= b.len() {
            match (parse_attestation(b.subrange(8, 8 + l1)), parse_attestation(
                b.subrange(8 + l1, b.len() as int),
            )) {
                (Some(a1), Some(a2)) => Some(SlashingV { attestation_1: a1, attestation_2: a2 }),
                _ => None,
            }
        } else {
            None
        }
    }
}

/// Parsing inverts encoding for attester slashings.
pub proof fn lemma_slashing_round_trip(s: SlashingV)
    requires
        s.wf(),
        s.attestation_1.attester_indices.len() < 0x1_0000_0000,
        s.attestation_2.attester_indices.len() < 0x1_0000_0000,
    ensures
        parse_slashing(enc_slashing(s)) == Some(s),
{
    let b = enc_slashing(s);
    let e1 = enc_attestation(s.attestation_1);
    let e2 = enc_attestation(s.attestation_2);
    lemma_enc_u64s_len(s.attestation_1.attester_indices);
    lemma_enc_u64s_len(s.attestation_2.attester_indices);
    let l1 = e1.len() as int;
    assert(b.subrange(0, 8) =~= enc_u64(l1 as u64));
    lemma_dec_enc(l1 as u64);
    assert(b.subrange(8, 8 + l1) =~= e1);
    assert(b.subrange(8 + l1, b.len() as int) =~= e2);
    lemma_attestation_round_trip(s.attestation_1);
    lemma_attestation_round_trip(s.attestation_2);
    assert(parse_slashing(b).unwrap() =~= s);
}

/// Wire form of an operation: the encoding of its kind.
pub open spec fn enc_operation(op: OperationV) -> Seq<u8> {
    match op {
        OperationV::Exit(e) => enc_exit(e),
        OperationV::Block(b) => enc_block(b),
        OperationV::Slashing(s) => enc_slashing(s),
        OperationV::Deposit(d) => enc_deposit(d),
        OperationV::Transfer(t) => enc_transfer(t),
    }
}

/// Encodes a voluntary exit.
pub fn encode_exit(e: &VoluntaryExit) -> (r: Vec<u8>)
    ensures
        r@ == enc_exit(e@),
{
    let mut out: Vec<u8> = Vec::new();
    push_u64(&mut out, e.epoch);
    push_u64(&mut out, e.validator_index);
    push_bytes(&mut out, &e.signature);
    assert(out@ =~= enc_exit(e@));
    out
}

/// Encodes a block.
pub fn encode_block(b: &BeaconBlock) -> (r: Vec<u8>)
    ensures
        r@ == enc_block(b@),
{
    let mut out: Vec<u8> = Vec::new();
    push_u64(&mut out, b.slot);
    push_bytes(&mut out, &b.previous_block_root);
    push_bytes(&mut out, &b.randao_reveal);
    push_bytes(&mut out, &b.signature);
    assert(out@ =~= enc_block(b@));
    out
}

/// Encodes a deposit.
pub fn encode_deposit(d: &Deposit) -> (r: Vec<u8>)
    ensures
        r@ == enc_deposit(d@),
{
    let mut out: Vec<u8> = Vec::new();
    push_bytes(&mut out, &d.pubkey);
    push_u64(&mut out, d.amount);
    push_u64(&mut out, d.index);
    push_bytes(&mut out, &d.signature);
    assert(out@ =~= enc_deposit(d@));
    out
}

/// Encodes a transfer.
pub fn encode_transfer(t: &Transfer) -> (r: Vec<u8>)
    ensures
        r@ == enc_transfer(t@),
{
    let mut out: Vec<u8> = Vec::new();
    push_u64(&mut out, t.sender);
    push_u64(&mut out, t.recipient);
    push_u64(&mut out, t.amount);
    push_u64(&mut out, t.fee);
    push_u64(&mut out, t.slot);
    push_bytes(&mut out, &t.pubkey);
    push_bytes(&mut out, &t.signature);
    assert(out@ =~= enc_transfer(t@));
    out
}

/// Encodes an indexed attestation.
pub fn encode_attestation(a: &IndexedAttestation) -> (r: Vec<u8>)
    ensures
        r@ == enc_attestation(a@),
{
    let mut out: Vec<u8> = Vec::new();
    push_u64(&mut out, a.attester_indices.len() as u64);
    let ghost head = out@;
    let mut i: usize = 0;
    while i < a.attester_indices.len()
        invariant
            i <= a.attester_indices@.len(),
            head == enc_u64(a.attester_indices@.len() as u64),
            out@ == head + enc_u64s(a.attester_indices@.take(i as int)),
        decreases a.attester_indices@.len() - i,
    {
        push_u64(&mut out, a.attester_indices[i]);
        proof {
            lemma_enc_u64s_push(a.attester_indices@.take(i as int), a.attester_indices@[i as int]);
            assert(a.attester_indices@.take(i as int).push(a.attester_indices@[i as int])
                =~= a.attester_indices@.take(i as int + 1));
        }
        i = i + 1;
    }
    assert(a.attester_indices@.take(a.attester_indices@.len() as int) =~= a.attester_indices@);
    push_u64(&mut out, a.data.source_epoch);
    push_u64(&mut out, a.data.target_epoch);
    push_bytes(&mut out, &a.data.beacon_block_root);
    push_bytes(&mut out, &a.signature);
    assert(out@ =~= enc_attestation(a@));
    out
}

/// Encodes an attester slashing.
pub fn encode_slashing(s: &AttesterSlashing) -> (r: Vec<u8>)
    ensures
        r@ == enc_slashing(s@),
{
    let e1 = encode_attestation(&s.attestation_1);
    let e2 = encode_attestation(&s.attestation_2);
    let mut out: Vec<u8> = Vec::new();
    push_u64(&mut out, e1.len() as u64);
    push_bytes(&mut out, &e1);
    push_bytes(&mut out, &e2);
    assert(out@ =~= enc_slashing(s@));
    out
}

/// Encodes an operation in the wire form of its kind.
pub fn encode_operation(op: &Operation) -> (r: Vec<u8>)
    ensures
        r@ == enc_operation(op@),
{
    match op {
        Operation::Exit(e) => encode_exit(e),
        Operation::Block(b) => encode_block(b),
        Operation::Slashing(s) => encode_slashing(s),
        Operation::Deposit(d) => encode_deposit(d),
        Operation::Transfer(t) => encode_transfer(t),
    }
}

} // verus!
