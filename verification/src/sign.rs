//! The model signature scheme: deterministic, domain-tagged signature bytes,
//! and the signing capability the slashing builder is handed.

use vstd::prelude::*;
use crate::bytes::{enc_u64, push_u64};
use crate::config::{ChainSpec, Domain, Fork, domain_of};

verus! {

/// The message padded or cut to the 72 bytes a signature carries of it.
pub open spec fn pad72(msg: Seq<u8>) -> Seq<u8> {
    Seq::new(72, |i: int| if i < msg.len() {
        msg[i]
    } else {
        0u8
    })
}

/// The 96 signature bytes of `signer` over `msg` at `epoch` under `domain`:
/// the three tags little-endian, then the padded message.
pub open spec fn sig_bytes(signer: u64, epoch: u64, domain: u64, msg: Seq<u8>) -> Seq<u8> {
    enc_u64(signer) + enc_u64(epoch) + enc_u64(domain) + pad72(msg)
}

/// Computes the model signature of `signer` over `msg`.
pub fn compute_signature(signer: u64, epoch: u64, domain: u64, msg: &Vec<u8>) -> (r: Vec<u8>)
    ensures
        r@ == sig_bytes(signer, epoch, domain, msg@),
        r@.len() == 96,
{
    let mut out: Vec<u8> = Vec::new();
    push_u64(&mut out, signer);
    push_u64(&mut out, epoch);
    push_u64(&mut out, domain);
    let ghost head = out@;
    let mut i: usize = 0;
    while i < 72
        invariant
            i <= 72,
            head == enc_u64(signer) + enc_u64(epoch) + enc_u64(domain),
            out@ == head + Seq::new(i as nat, |j: int| if j < msg@.len() {
                msg@[j]
            } else {
                0u8
            }),
        decreases 72 - i,
    {
        if i < msg.len() {
            out.push(msg[i]);
        } else {
            out.push(0);
        }
        assert(out@ =~= head + Seq::new(i as nat + 1, |j: int| if j < msg@.len() {
            msg@[j]
        } else {
            0u8
        }));
        i = i + 1;
    }
    assert(out@ =~= sig_bytes(signer, epoch, domain, msg@));
    out
}

/// The signing capability handed to the slashing builder: resolves a
/// validator index to its key and signs a domain-tagged message, or reports
/// the index as unknown.
pub trait Signer {
    /// When the signer is usable at all.
    spec fn wf(&self) -> bool;

    /// Which validator indices this signer can resolve to a key.
    spec fn knows(&self, validator_index: u64) -> bool;

    /// The domain value this signer mixes in for `d` at `epoch`.
    spec fn domain_value(&self, epoch: u64, d: Domain) -> u64;

    /// Signs `message` for `validator_index`, or returns `None` when the
    /// index is not one this signer knows.
    fn sign(&self, validator_index: u64, message: &Vec<u8>, epoch: u64, d: Domain) -> (r: Option<
        Vec<u8>,
    >)
        requires
            self.wf(),
        ensures
            r is Some <==> self.knows(validator_index),
            r matches Some(s) ==> s@ == sig_bytes(
                validator_index,
                epoch,
                self.domain_value(epoch, d),
                message@,
            ),
    ;
}

/// A signer over the fixture keypair set: it knows a fixed list of validator
/// indices and signs under a fixed chain configuration and fork.
pub struct FixtureSigner {
    pub params: ChainSpec,
    pub fork: Fork,
    pub known: Vec<u64>,
}

impl Signer for FixtureSigner {
    open spec fn wf(&self) -> bool {
        self.params.wf() && self.fork.wf()
    }

    open spec fn knows(&self, validator_index: u64) -> bool {
        self.known@.contains(validator_index)
    }

    open spec fn domain_value(&self, epoch: u64, d: Domain) -> u64 {
        domain_of(self.params, epoch, d, self.fork)
    }

    fn sign(&self, validator_index: u64, message: &Vec<u8>, epoch: u64, d: Domain) -> (r: Option<
        Vec<u8>,
    >) {
        let mut i: usize = 0;
        let mut found = false;
        while !found && i < self.known.len()
            invariant
                i <= self.known@.len(),
                found ==> self.known@.contains(validator_index),
                !found ==> forall|j: int| 0 <= j < i ==> self.known@[j] != validator_index,
            decreases (if found { 0int } else { 1int }), self.known@.len() - i,
        {
            if self.known[i] == validator_index {
                found = true;
            } else {
                i = i + 1;
            }
        }
        if !found {
            assert(!self.known@.contains(validator_index));
            return None;
        }
        let domain = self.params.get_domain(epoch, d, &self.fork);
        Some(compute_signature(validator_index, epoch, domain, message))
    }
}

} // verus!
