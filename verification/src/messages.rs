//! The kinds of message and the messages themselves.
use vstd::prelude::*;
use crate::slot_generator::{Subnet, ValId};

verus! {

/// The five kinds of gossip message, in the order in which a slot emits them.
#[derive(Debug, Clone, Copy, PartialEq, Eq, Structural, Hash)]
pub enum MsgType {
    BeaconBlock,
    AggregateAndProofAttestation,
    Attestation,
    SignedContributionAndProof,
    SyncCommitteeMessage,
}

/// One simulated gossip message: who sends it, on which subnet, for which slot.
#[derive(Debug, Clone, Copy, PartialEq, Eq, Structural, Hash)]
pub enum Message {
    BeaconBlock { proposer: ValId, slot: u64 },
    AggregateAndProofAttestation { aggregator: ValId, subnet: Subnet, slot: u64 },
    Attestation { attester: ValId, subnet: Subnet, slot: u64 },
    SignedContributionAndProof { validator: ValId, subnet: Subnet, slot: u64 },
    SyncCommitteeMessage { validator: ValId, subnet: Subnet, slot: u64 },
}

/// The kinds in emission order.
pub open spec fn all_kinds() -> Seq<MsgType> {
    seq![
        MsgType::BeaconBlock,
        MsgType::AggregateAndProofAttestation,
        MsgType::Attestation,
        MsgType::SignedContributionAndProof,
        MsgType::SyncCommitteeMessage,
    ]
}

/// The message of kind `kind` that `validator` sends on `subnet` in `slot`.
/// A block is on no subnet, so `subnet` is left out of it.
pub open spec fn message_of(kind: MsgType, validator: ValId, subnet: Subnet, slot: u64) -> Message {
    match kind {
        MsgType::BeaconBlock => Message::BeaconBlock { proposer: validator, slot },
        MsgType::AggregateAndProofAttestation => Message::AggregateAndProofAttestation {
            aggregator: validator,
            subnet,
            slot,
        },
        MsgType::Attestation => Message::Attestation { attester: validator, subnet, slot },
        MsgType::SignedContributionAndProof => Message::SignedContributionAndProof {
            validator,
            subnet,
            slot,
        },
        MsgType::SyncCommitteeMessage => Message::SyncCommitteeMessage { validator, subnet, slot },
    }
}

impl MsgType {
    /// Every kind, in emission order.
    pub fn all() -> (kinds: [MsgType; 5])
        ensures
            kinds@ == all_kinds(),
    {
        let kinds = [
            MsgType::BeaconBlock,
            MsgType::AggregateAndProofAttestation,
            MsgType::Attestation,
            MsgType::SignedContributionAndProof,
            MsgType::SyncCommitteeMessage,
        ];
        assert(kinds@ =~= all_kinds());
        kinds
    }

    /// The kind's name in kebab case.
    pub open spec fn name_spec(self) -> Seq<char> {
        match self {
            MsgType::BeaconBlock => "beacon-block"@,
            MsgType::AggregateAndProofAttestation => "aggregate-and-proof-attestation"@,
            MsgType::Attestation => "attestation"@,
            MsgType::SignedContributionAndProof => "signed-contribution-and-proof"@,
            MsgType::SyncCommitteeMessage => "sync-committee-message"@,
        }
    }

    /// The kind's name in kebab case.
    pub fn name(&self) -> (s: &'static str)
        ensures
            s@ == self.name_spec(),
    {
        match self {
            MsgType::BeaconBlock => "beacon-block",
            MsgType::AggregateAndProofAttestation => "aggregate-and-proof-attestation",
            MsgType::Attestation => "attestation",
            MsgType::SignedContributionAndProof => "signed-contribution-and-proof",
            MsgType::SyncCommitteeMessage => "sync-committee-message",
        }
    }
}

impl Message {
    /// The kind of this message.
    pub open spec fn kind_spec(self) -> MsgType {
        match self {
            Message::BeaconBlock { .. } => MsgType::BeaconBlock,
            Message::AggregateAndProofAttestation { .. } => MsgType::AggregateAndProofAttestation,
            Message::Attestation { .. } => MsgType::Attestation,
            Message::SignedContributionAndProof { .. } => MsgType::SignedContributionAndProof,
            Message::SyncCommitteeMessage { .. } => MsgType::SyncCommitteeMessage,
        }
    }

    /// The kind of this message.
    pub fn kind(&self) -> (k: MsgType)
        ensures
            k == self.kind_spec(),
    {
        match self {
            Message::BeaconBlock { .. } => MsgType::BeaconBlock,
            Message::AggregateAndProofAttestation { .. } => MsgType::AggregateAndProofAttestation,
            Message::Attestation { .. } => MsgType::Attestation,
            Message::SignedContributionAndProof { .. } => MsgType::SignedContributionAndProof,
            Message::SyncCommitteeMessage { .. } => MsgType::SyncCommitteeMessage,
        }
    }
}

} // verus!
