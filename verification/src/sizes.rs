//! Bodies of plausible size for the messages.
//!
//! A body is a run of zero bytes whose length is drawn from a range that
//! depends on the kind of message, with its first bytes randomised to tell
//! one body from another.
use vstd::prelude::*;
use rand::rngs::SmallRng;
use rand::{Rng, SeedableRng};
use crate::messages::{Message, MsgType};

verus! {

/// Number of leading bytes of a body that are randomised.
pub const HEAD_LEN: usize = 8;

/// The random number generator of the `rand` crate that draws the bodies.
#[verifier::external_type_specification]
#[verifier::external_body]
pub struct ExSmallRng(SmallRng);

/// `SmallRng::from_entropy` of the `rand` crate: a generator seeded by the
/// operating system. Nothing is claimed of the generator. The call panics
/// where the operating system gives no entropy.
#[verifier::external_body]
fn entropy_rng() -> (rng: SmallRng) {
    SmallRng::from_entropy()
}

/// `Rng::gen_range` of the `rand` crate on the half-open range from `low`
/// to `high`: the number drawn lies in that range. The call panics on an
/// empty range, which the precondition leaves out.
#[verifier::external_body]
fn draw_size(rng: &mut SmallRng, low: u32, high: u32) -> (n: u32)
    requires
        low < high,
    ensures
        low <= n < high,
{
    rng.gen_range(low..high)
}

/// `Rng::fill` of the `rand` crate on a byte buffer: the bytes are
/// overwritten in place, so the buffer keeps its length. Nothing is claimed
/// of the bytes.
#[verifier::external_body]
fn fill_random(rng: &mut SmallRng, dest: &mut Vec<u8>)
    ensures
        final(dest)@.len() == old(dest)@.len(),
{
    rng.fill(dest.as_mut_slice())
}

/// The range of body lengths of a kind of message: from the first number
/// up to, and without, the second.
pub open spec fn size_range(kind: MsgType) -> (u32, u32) {
    match kind {
        MsgType::BeaconBlock => (60_000u32, 80_000u32),
        MsgType::AggregateAndProofAttestation => (500u32, 550u32),
        MsgType::Attestation => (200u32, 310u32),
        MsgType::SignedContributionAndProof => (410u32, 430u32),
        MsgType::SyncCommitteeMessage => (190u32, 210u32),
    }
}

/// `n` zero bytes.
pub open spec fn zeros(n: nat) -> Seq<u8> {
    Seq::new(n, |i: int| 0u8)
}

impl MsgType {
    /// The range of body lengths of this kind.
    pub fn payload_size_range(&self) -> (range: (u32, u32))
        ensures
            range == size_range(*self),
            range.0 < range.1,
            HEAD_LEN <= range.0,
    {
        match self {
            MsgType::BeaconBlock => (60_000, 80_000),
            MsgType::AggregateAndProofAttestation => (500, 550),
            MsgType::Attestation => (200, 310),
            MsgType::SignedContributionAndProof => (410, 430),
            MsgType::SyncCommitteeMessage => (190, 210),
        }
    }
}

/// A body of `size` bytes: `head`, then zeros.
pub fn assemble_payload(size: u32, head: &Vec<u8>) -> (bytes: Vec<u8>)
    requires
        head@.len() <= size,
    ensures
        bytes@ == head@ + zeros((size - head@.len()) as nat),
{
    let mut bytes: Vec<u8> = Vec::new();
    let mut i: usize = 0;
    while i < head.len()
        invariant
            i <= head.len(),
            bytes@ == head@.take(i as int),
        decreases head.len() - i,
    {
        bytes.push(head[i]);
        assert(head@.take(i + 1) =~= head@.take(i as int).push(head@[i as int]));
        i += 1;
    }
    assert(head@.take(i as int) =~= head@);
    let rest: usize = size as usize - head.len();
    let mut j: usize = 0;
    while j < rest
        invariant
            j <= rest,
            bytes@ == head@ + zeros(j as nat),
        decreases rest - j,
    {
        bytes.push(0u8);
        assert(zeros((j + 1) as nat) =~= zeros(j as nat).push(0u8));
        assert((head@ + zeros(j as nat)).push(0u8) =~= head@ + zeros((j + 1) as nat));
        j += 1;
    }
    bytes
}

impl Message {
    /// A body for this message: its length lies in the range of the
    /// message's kind, and every byte after the randomised head is zero.
    pub fn payload(&self) -> (bytes: Vec<u8>)
        ensures
            size_range(self.kind_spec()).0 <= bytes@.len() < size_range(self.kind_spec()).1,
            bytes@.skip(HEAD_LEN as int) == zeros((bytes@.len() - HEAD_LEN) as nat),
    {
        let mut rng = entropy_rng();
        let (low, high) = self.kind().payload_size_range();
        let size = draw_size(&mut rng, low, high);
        let mut head: Vec<u8> = Vec::new();
        let mut i: usize = 0;
        while i < HEAD_LEN
            invariant
                i <= HEAD_LEN,
                head@.len() == i,
            decreases HEAD_LEN - i,
        {
            head.push(0u8);
            i += 1;
        }
        fill_random(&mut rng, &mut head);
        let bytes = assemble_payload(size, &head);
        assert(bytes@.skip(HEAD_LEN as int) =~= zeros((bytes@.len() - HEAD_LEN) as nat));
        bytes
    }
}

} // verus!
