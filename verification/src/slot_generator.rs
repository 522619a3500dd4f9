//! The committee assignment engine: who does what, on which subnet, in a slot.
//!
//! Every decision is a function of the slot, the validator's id and the
//! parameter set. The spec functions below say what is decided; the methods
//! of [`SlotGenerator`] compute it for the validators that a caller holds.
use vstd::prelude::*;
use crate::arith::lemma_quotient_zero;
use crate::messages::MsgType;
use crate::params::{GeneratorParams, NetworkParams};
use crate::validators::ValidatorSet;

verus! {

/// A validator's id: a number below `total_validators`.
#[derive(PartialEq, Eq, Structural, Hash, Clone, Copy, PartialOrd, Ord, Debug)]
pub struct ValId(pub u64);

/// A subnet's number. Attestation subnets and sync subnets are numbered apart.
#[derive(PartialEq, Eq, Structural, Hash, Clone, Copy, PartialOrd, Ord, Debug)]
pub struct Subnet(pub u64);

/// The epoch that `slot` lies in.
pub open spec fn epoch_of(p: NetworkParams, slot: u64) -> int {
    slot as int / p.slots_per_epoch as int
}

/// The sync-committee period that `slot` lies in.
pub open spec fn period_of(p: NetworkParams, slot: u64) -> int {
    epoch_of(p, slot) / (crate::EPOCHS_PER_SYNC_COMMITTEE_PERIOD as int)
}

/// `id + round`, wrapped at the width of the machine integer.
pub open spec fn wrapped_sum(id: u64, round: int) -> int {
    (id as int + round) % 0x1_0000_0000_0000_0000
}

/// The shake: the id moved by `round` with wraparound, then brought back
/// into the range of validator ids.
pub open spec fn shake(p: NetworkParams, id: u64, round: int) -> int {
    wrapped_sum(id, round) % (p.total_validators as int)
}

/// The validator that proposes the block of `slot`.
pub open spec fn proposer(p: NetworkParams, slot: u64) -> int {
    slot as int % p.total_validators as int
}

/// `id` attests in `slot`.
pub open spec fn is_attester(p: NetworkParams, slot: u64, id: u64) -> bool {
    shake(p, id, epoch_of(p, slot)) % (p.slots_per_epoch as int) == slot as int % (
    p.slots_per_epoch as int)
}

/// The attestation subnet of `id` in the epoch of `slot`.
pub open spec fn attestation_subnet(p: NetworkParams, slot: u64, id: u64) -> int {
    shake(p, id, epoch_of(p, slot)) % (p.attestation_subnets as int)
}

/// The place of `id` inside its attestation committee in the epoch of `slot`.
pub open spec fn committee_index(p: NetworkParams, slot: u64, id: u64) -> int {
    shake(p, id, epoch_of(p, slot)) / (p.attestation_subnets as int)
}

/// `id` aggregates attestations in `slot`: it holds one of the first
/// `target_aggregators` places of its committee.
pub open spec fn is_aggregator(p: NetworkParams, slot: u64, id: u64) -> bool {
    committee_index(p, slot, id) < p.target_aggregators
}

/// The subnet on which `id` aggregates: taken from the id as moved by the
/// epoch, before it is brought back into the range of validator ids.
pub open spec fn aggregate_subnet(p: NetworkParams, slot: u64, id: u64) -> int {
    wrapped_sum(id, epoch_of(p, slot)) % (p.attestation_subnets as int)
}

/// The place of `id` in the order of the sync-committee period of `slot`.
pub open spec fn sync_position(p: NetworkParams, slot: u64, id: u64) -> int {
    shake(p, id, period_of(p, slot))
}

/// `id` sits in the sync committee during the period of `slot`.
pub open spec fn is_sync_member(p: NetworkParams, slot: u64, id: u64) -> bool {
    sync_position(p, slot, id) < p.sync_committee_size()
}

/// The sync subnet of `id` during the period of `slot`.
pub open spec fn sync_subnet(p: NetworkParams, slot: u64, id: u64) -> int {
    sync_position(p, slot, id) % (p.sync_committee_subnets as int)
}

/// The place of `id` inside its sync subnet.
pub open spec fn sync_index(p: NetworkParams, slot: u64, id: u64) -> int {
    sync_position(p, slot, id) / (p.sync_committee_subnets as int)
}

/// `id` is a sync-committee member and aggregates in `slot`. The role moves
/// on with the slot, so that a period does not keep one set of aggregators.
pub open spec fn is_sync_aggregator(p: NetworkParams, slot: u64, id: u64) -> bool {
    &&& is_sync_member(p, slot, id)
    &&& (sync_index(p, slot, id) + slot as int) % (p.sync_committee_subnets as int)
        < p.target_aggregators
}

/// The subnet on which `id` sends a message of kind `kind` in `slot`, if it
/// sends one. Blocks are on no subnet: for them see [`proposer`].
pub open spec fn duty(p: NetworkParams, kind: MsgType, slot: u64, id: u64) -> Option<Subnet> {
    match kind {
        MsgType::BeaconBlock => None,
        MsgType::Attestation => if is_attester(p, slot, id) {
            Some(Subnet(attestation_subnet(p, slot, id) as u64))
        } else {
            None
        },
        MsgType::AggregateAndProofAttestation => if is_aggregator(p, slot, id) {
            Some(Subnet(aggregate_subnet(p, slot, id) as u64))
        } else {
            None
        },
        MsgType::SyncCommitteeMessage => if is_sync_member(p, slot, id) {
            Some(Subnet(sync_subnet(p, slot, id) as u64))
        } else {
            None
        },
        MsgType::SignedContributionAndProof => if is_sync_aggregator(p, slot, id) {
            Some(Subnet(sync_subnet(p, slot, id) as u64))
        } else {
            None
        },
    }
}

/// The assignments of kind `kind` in `slot` among `validators`: each
/// validator with a duty, paired with its subnet, in the order of
/// `validators`.
pub open spec fn assignments(
    p: NetworkParams,
    kind: MsgType,
    slot: u64,
    validators: Seq<ValId>,
) -> Seq<(ValId, Subnet)>
    decreases validators.len(),
{
    if validators.len() == 0 {
        Seq::empty()
    } else {
        let before = assignments(p, kind, slot, validators.drop_last());
        match duty(p, kind, slot, validators.last().0) {
            Some(subnet) => before.push((validators.last(), subnet)),
            None => before,
        }
    }
}

/// The block proposal of `slot`, if the proposer is among `validators`.
pub open spec fn block_proposal(p: NetworkParams, slot: u64, validators: Seq<ValId>) -> Option<
    ValId,
> {
    if validators.contains(ValId(proposer(p, slot) as u64)) {
        Some(ValId(proposer(p, slot) as u64))
    } else {
        None
    }
}

/// Taking one more validator into account adds its assignment, if it has one.
pub proof fn lemma_assignments_step(
    p: NetworkParams,
    kind: MsgType,
    slot: u64,
    validators: Seq<ValId>,
    i: int,
)
    requires
        0 <= i < validators.len(),
    ensures
        assignments(p, kind, slot, validators.take(i + 1)) == (match duty(
            p,
            kind,
            slot,
            validators[i].0,
        ) {
            Some(subnet) => assignments(p, kind, slot, validators.take(i)).push(
                (validators[i], subnet),
            ),
            None => assignments(p, kind, slot, validators.take(i)),
        }),
{
    assert(validators.take(i + 1).drop_last() =~= validators.take(i));
    assert(validators.take(i + 1).last() == validators[i]);
}

/// The assignment engine. It holds the parameter set and nothing else.
#[derive(Debug, Clone, Copy)]
pub struct SlotGenerator {
    params: NetworkParams,
}

impl SlotGenerator {
    /// The parameter set that the engine works with.
    pub closed spec fn params(&self) -> NetworkParams {
        self.params
    }

    /// What holds of every engine: its parameter set is usable, so that
    /// no division in it has a zero divisor. See [`NetworkParams::usable`].
    #[verifier::type_invariant]
    pub open spec fn wf(&self) -> bool {
        self.params().usable()
    }

    /// An engine for the six given values.
    pub fn new(
        slots_per_epoch: u64,
        attestation_subnets: u64,
        sync_subnet_size: u64,
        sync_committee_subnets: u64,
        target_aggregators: u64,
        total_validators: u64,
    ) -> (generator: Self)
        requires
            slots_per_epoch > 0,
            attestation_subnets > 0,
            sync_subnet_size > 0,
            sync_committee_subnets > 0,
            target_aggregators > 0,
            total_validators > 0,
            sync_subnet_size * sync_committee_subnets <= u64::MAX,
        ensures
            generator.wf(),
            generator.params() == (NetworkParams {
                slots_per_epoch,
                attestation_subnets,
                sync_subnet_size,
                sync_committee_subnets,
                target_aggregators,
                total_validators,
            }),
    {
        SlotGenerator {
            params: NetworkParams {
                slots_per_epoch,
                attestation_subnets,
                sync_subnet_size,
                sync_committee_subnets,
                target_aggregators,
                total_validators,
            },
        }
    }

    /// An engine for a checked parameter set.
    pub fn from_params(params: &GeneratorParams) -> (generator: Self)
        ensures
            generator.wf(),
            generator.params() == params@,
            generator.params().valid(),
    {
        SlotGenerator { params: params.values() }
    }

    /// The parameter set that the engine works with.
    pub fn parameters(&self) -> (p: NetworkParams)
        ensures
            p == self.params(),
            p.usable(),
    {
        proof {
            use_type_invariant(self);
        }
        self.params
    }

    /// The proposer of `slot`, if `validators` holds it.
    pub fn get_blocks(&self, slot: u64, validators: &ValidatorSet) -> (block: Option<ValId>)
        ensures
            block == block_proposal(self.params(), slot, validators@),
    {
        proof {
            use_type_invariant(self);
        }
        let chosen = ValId(slot % self.params.total_validators);
        if validators.contains(chosen) {
            Some(chosen)
        } else {
            None
        }
    }

    /// The validators among `validators` that attest in `slot`, each with its
    /// subnet.
    pub fn get_attestations(&self, slot: u64, held: &ValidatorSet) -> (out: Vec<
        (ValId, Subnet),
    >)
        ensures
            out@ == assignments(self.params(), MsgType::Attestation, slot, held@),
    {
        proof {
            use_type_invariant(self);
        }
        let validators = held.ids();
        let epoch: u64 = slot / self.params.slots_per_epoch;
        let due: u64 = slot % self.params.slots_per_epoch;
        let mut out: Vec<(ValId, Subnet)> = Vec::new();
        let mut i: usize = 0;
        while i < validators.len()
            invariant
                i <= validators.len(),
                validators@ == held@,
                self.wf(),
                epoch == epoch_of(self.params(), slot),
                due == slot % self.params().slots_per_epoch,
                out@ == assignments(
                    self.params(),
                    MsgType::Attestation,
                    slot,
                    validators@.take(i as int),
                ),
            decreases validators.len() - i,
        {
            let val = validators[i];
            let shaken: u64 = val.0.wrapping_add(epoch) % self.params.total_validators;
            let subnet = Subnet(shaken % self.params.attestation_subnets);
            proof {
                lemma_assignments_step(
                    self.params(),
                    MsgType::Attestation,
                    slot,
                    validators@,
                    i as int,
                );
            }
            if shaken % self.params.slots_per_epoch == due {
                out.push((val, subnet));
            }
            i += 1;
        }
        assert(validators@.take(i as int) =~= validators@);
        out
    }

    /// The validators among `validators` that aggregate attestations in
    /// `slot`, each with its subnet.
    pub fn get_aggregates(&self, slot: u64, held: &ValidatorSet) -> (out: Vec<(ValId, Subnet)>)
        ensures
            out@ == assignments(
                self.params(),
                MsgType::AggregateAndProofAttestation,
                slot,
                held@,
            ),
    {
        proof {
            use_type_invariant(self);
        }
        let validators = held.ids();
        let epoch: u64 = slot / self.params.slots_per_epoch;
        let mut out: Vec<(ValId, Subnet)> = Vec::new();
        let mut i: usize = 0;
        while i < validators.len()
            invariant
                i <= validators.len(),
                validators@ == held@,
                self.wf(),
                epoch == epoch_of(self.params(), slot),
                out@ == assignments(
                    self.params(),
                    MsgType::AggregateAndProofAttestation,
                    slot,
                    validators@.take(i as int),
                ),
            decreases validators.len() - i,
        {
            let val = validators[i];
            let moved: u64 = val.0.wrapping_add(epoch);
            let subnet = Subnet(moved % self.params.attestation_subnets);
            let index: u64 = (moved % self.params.total_validators)
                / self.params.attestation_subnets;
            proof {
                lemma_assignments_step(
                    self.params(),
                    MsgType::AggregateAndProofAttestation,
                    slot,
                    validators@,
                    i as int,
                );
                lemma_quotient_zero(index as int, self.params().target_aggregators as int);
            }
            if index / self.params.target_aggregators == 0 {
                out.push((val, subnet));
            }
            i += 1;
        }
        assert(validators@.take(i as int) =~= validators@);
        out
    }

    /// The validators among `validators` that sit in the sync committee in
    /// `slot`, each with its sync subnet.
    pub fn get_sync_committee_messages(&self, slot: u64, held: &ValidatorSet) -> (out: Vec<
        (ValId, Subnet),
    >)
        ensures
            out@ == assignments(self.params(), MsgType::SyncCommitteeMessage, slot, held@),
    {
        proof {
            use_type_invariant(self);
        }
        let validators = held.ids();
        let epoch: u64 = slot / self.params.slots_per_epoch;
        let period: u64 = epoch / crate::EPOCHS_PER_SYNC_COMMITTEE_PERIOD;
        let committee_size: u64 = self.params.sync_subnet_size * self.params.sync_committee_subnets;
        assert(committee_size > 0) by (nonlinear_arith)
            requires
                committee_size == self.params.sync_subnet_size * self.params.sync_committee_subnets,
                self.params.sync_subnet_size > 0,
                self.params.sync_committee_subnets > 0,
        ;
        let mut out: Vec<(ValId, Subnet)> = Vec::new();
        let mut i: usize = 0;
        while i < validators.len()
            invariant
                i <= validators.len(),
                validators@ == held@,
                self.wf(),
                period == period_of(self.params(), slot),
                committee_size == self.params().sync_committee_size(),
                committee_size > 0,
                out@ == assignments(
                    self.params(),
                    MsgType::SyncCommitteeMessage,
                    slot,
                    validators@.take(i as int),
                ),
            decreases validators.len() - i,
        {
            let val = validators[i];
            let shaken: u64 = val.0.wrapping_add(period) % self.params.total_validators;
            proof {
                lemma_assignments_step(
                    self.params(),
                    MsgType::SyncCommitteeMessage,
                    slot,
                    validators@,
                    i as int,
                );
                lemma_quotient_zero(shaken as int, committee_size as int);
            }
            if shaken / committee_size == 0 {
                let subnet = Subnet(shaken % self.params.sync_committee_subnets);
                out.push((val, subnet));
            }
            i += 1;
        }
        assert(validators@.take(i as int) =~= validators@);
        out
    }

    /// The validators among `validators` that aggregate for the sync
    /// committee in `slot`, each with its sync subnet.
    pub fn get_sync_committee_aggregates(&self, slot: u64, held: &ValidatorSet) -> (out: Vec<
        (ValId, Subnet),
    >)
        ensures
            out@ == assignments(
                self.params(),
                MsgType::SignedContributionAndProof,
                slot,
                held@,
            ),
    {
        proof {
            use_type_invariant(self);
        }
        let validators = held.ids();
        let epoch: u64 = slot / self.params.slots_per_epoch;
        let period: u64 = epoch / crate::EPOCHS_PER_SYNC_COMMITTEE_PERIOD;
        let committee_size: u64 = self.params.sync_subnet_size * self.params.sync_committee_subnets;
        assert(committee_size > 0) by (nonlinear_arith)
            requires
                committee_size == self.params.sync_subnet_size * self.params.sync_committee_subnets,
                self.params.sync_subnet_size > 0,
                self.params.sync_committee_subnets > 0,
        ;
        let mut out: Vec<(ValId, Subnet)> = Vec::new();
        let mut i: usize = 0;
        while i < validators.len()
            invariant
                i <= validators.len(),
                validators@ == held@,
                self.wf(),
                period == period_of(self.params(), slot),
                committee_size == self.params().sync_committee_size(),
                committee_size > 0,
                out@ == assignments(
                    self.params(),
                    MsgType::SignedContributionAndProof,
                    slot,
                    validators@.take(i as int),
                ),
            decreases validators.len() - i,
        {
            let val = validators[i];
            let shaken: u64 = val.0.wrapping_add(period) % self.params.total_validators;
            let in_committee = shaken / committee_size == 0;
            let subnet = Subnet(shaken % self.params.sync_committee_subnets);
            let index: u64 = shaken / self.params.sync_committee_subnets;
            let turn: u128 = (index as u128 + slot as u128) % (
            self.params.sync_committee_subnets as u128);
            let is_aggregator = turn / (self.params.target_aggregators as u128) == 0;
            proof {
                lemma_assignments_step(
                    self.params(),
                    MsgType::SignedContributionAndProof,
                    slot,
                    validators@,
                    i as int,
                );
                lemma_quotient_zero(shaken as int, committee_size as int);
                lemma_quotient_zero(turn as int, self.params().target_aggregators as int);
            }
            if in_committee && is_aggregator {
                out.push((val, subnet));
            }
            i += 1;
        }
        assert(validators@.take(i as int) =~= validators@);
        out
    }
}

} // verus!
