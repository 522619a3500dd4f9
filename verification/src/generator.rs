//! The emission engine: what is queued at which tick, and what is handed out.
//!
//! A slot has three ticks. The tick on the slot boundary queues the messages
//! of all five kinds for the new slot; the tick two thirds into the slot
//! queues the aggregates once more; the tick in between queues nothing. The
//! caller owns the clock and the timer: it tells the engine that a tick has
//! fired, reads the clock where the engine asks for it, and drains the queue.
use vstd::prelude::*;
use std::collections::VecDeque;
use crate::builder::{all_ids_in_range, ids_in_range, GeneratorBuilder};
use crate::messages::{message_of, Message, MsgType};
use crate::params::{BuildError, GeneratorParams, NetworkParams};
use crate::slot_generator::{assignments, block_proposal, SlotGenerator, Subnet, ValId};
use crate::validators::{ascending, ValidatorSet};

verus! {

/// What a tick asks for.
#[derive(Debug, Clone, Copy, PartialEq, Eq, Structural, Hash)]
pub enum TickPhase {
    /// The slot boundary: all five kinds are due.
    SlotStart,
    /// One third into the slot: nothing is due.
    Idle,
    /// Two thirds into the slot: the aggregates are due.
    Aggregates,
}

/// The phase of the tick that follows a tick of index `index`.
pub open spec fn next_phase(index: u8) -> TickPhase {
    if index >= 2 {
        TickPhase::SlotStart
    } else if index == 0 {
        TickPhase::Idle
    } else {
        TickPhase::Aggregates
    }
}

/// The index within its slot of the tick that follows a tick of index `index`.
pub open spec fn next_index(index: u8) -> u8 {
    if index >= 2 {
        0
    } else {
        (index + 1) as u8
    }
}

/// `pairs` as messages of kind `kind` for `slot`, in the same order.
pub open spec fn messages_of(kind: MsgType, slot: u64, pairs: Seq<(ValId, Subnet)>) -> Seq<
    Message,
> {
    Seq::new(pairs.len(), |i: int| message_of(kind, pairs[i].0, pairs[i].1, slot))
}

/// The messages of kind `kind` that `validators` send in `slot`.
pub open spec fn kind_batch(
    p: NetworkParams,
    kind: MsgType,
    slot: u64,
    validators: Seq<ValId>,
) -> Seq<Message> {
    match kind {
        MsgType::BeaconBlock => match block_proposal(p, slot, validators) {
            Some(proposer) => seq![Message::BeaconBlock { proposer, slot }],
            None => Seq::empty(),
        },
        _ => messages_of(kind, slot, assignments(p, kind, slot, validators)),
    }
}

/// The messages that the tick two thirds into `slot` queues: the
/// aggregates of both kinds.
pub open spec fn aggregate_batch(p: NetworkParams, slot: u64, validators: Seq<ValId>) -> Seq<
    Message,
> {
    kind_batch(p, MsgType::AggregateAndProofAttestation, slot, validators) + kind_batch(
        p,
        MsgType::SignedContributionAndProof,
        slot,
        validators,
    )
}

/// The messages that the tick at the start of `slot` queues: all five
/// kinds, kind by kind.
pub open spec fn slot_batch(p: NetworkParams, slot: u64, validators: Seq<ValId>) -> Seq<
    Message,
> {
    kind_batch(p, MsgType::BeaconBlock, slot, validators) + kind_batch(
        p,
        MsgType::AggregateAndProofAttestation,
        slot,
        validators,
    ) + kind_batch(p, MsgType::Attestation, slot, validators) + kind_batch(
        p,
        MsgType::SignedContributionAndProof,
        slot,
        validators,
    ) + kind_batch(p, MsgType::SyncCommitteeMessage, slot, validators)
}

/// The messages that a tick of phase `phase` queues in `slot`.
pub open spec fn phase_batch(
    p: NetworkParams,
    phase: TickPhase,
    slot: u64,
    validators: Seq<ValId>,
) -> Seq<Message> {
    match phase {
        TickPhase::SlotStart => slot_batch(p, slot, validators),
        TickPhase::Idle => Seq::empty(),
        TickPhase::Aggregates => aggregate_batch(p, slot, validators),
    }
}

/// What is left of a span of `slot_nanos` once `to_next` of it is still to
/// come: nothing where `to_next` is longer, all of it where `to_next` is
/// not known.
pub open spec fn elapsed_in_slot(slot_nanos: u128, to_next: Option<u128>) -> u128 {
    match to_next {
        Some(d) => if d <= slot_nanos {
            (slot_nanos - d) as u128
        } else {
            0
        },
        None => slot_nanos,
    }
}

/// The emission engine of one node: its validators, the assignment engine,
/// the queue of messages not yet handed out, and the index of the last tick.
pub struct Generator {
    slot_generator: SlotGenerator,
    validators: ValidatorSet,
    queued_messages: VecDeque<Message>,
    interval_count: u8,
}

impl Generator {
    /// The parameter set of the network.
    pub closed spec fn params(&self) -> NetworkParams {
        self.slot_generator.params()
    }

    /// The validators that this engine simulates.
    pub closed spec fn validators(&self) -> Seq<ValId> {
        self.validators@
    }

    /// The messages queued, the next one to hand out first.
    pub closed spec fn queue(&self) -> Seq<Message> {
        self.queued_messages@
    }

    /// The index within its slot of the last tick taken: 0 on the slot
    /// boundary, then 1, then 2.
    pub closed spec fn tick_index(&self) -> u8 {
        self.interval_count
    }

    /// What holds of every engine that was built: valid parameters, ids in
    /// ascending order and in range, a tick index below three. Every
    /// constructor establishes it and every method keeps it.
    pub open spec fn wf(&self) -> bool {
        &&& self.params().valid()
        &&& ascending(self.validators())
        &&& ids_in_range(self.validators(), self.params().total_validators)
        &&& self.tick_index() < 3
    }

    /// A builder in which nothing is set.
    pub fn builder() -> (b: GeneratorBuilder)
        ensures
            b == GeneratorBuilder::unset(),
    {
        GeneratorBuilder::default()
    }

    /// An engine for checked parameters. It holds `validators`, has nothing
    /// queued, and takes its first tick for a slot boundary. It turns down
    /// an id that is not below `total_validators`.
    pub fn with_params(params: GeneratorParams, validators: ValidatorSet) -> (r: Result<
        Generator,
        BuildError,
    >)
        ensures
            !ids_in_range(validators@, params@.total_validators) ==> r == Err::<
                Generator,
                BuildError,
            >(BuildError::ValidatorOutOfRange),
            ids_in_range(validators@, params@.total_validators) ==> ({
                &&& r is Ok
                &&& r->Ok_0.wf()
                &&& r->Ok_0.params() == params@
                &&& r->Ok_0.validators() == validators@
                &&& r->Ok_0.queue() == Seq::<Message>::empty()
                &&& r->Ok_0.tick_index() == 2
            }),
    {
        if !all_ids_in_range(&validators, params.total_validators()) {
            return Err(BuildError::ValidatorOutOfRange);
        }
        proof {
            use_type_invariant(&validators);
            use_type_invariant(&params);
        }
        Ok(
            Generator {
                slot_generator: SlotGenerator::from_params(&params),
                validators,
                queued_messages: VecDeque::new(),
                interval_count: 2,
            },
        )
    }

    /// Time since the last slot boundary, in nanoseconds, from the length
    /// of a slot and the time to the next boundary as the clock gave it.
    pub fn time_since_last_slot(slot_nanos: u128, to_next_slot: Option<u128>) -> (elapsed: u128)
        ensures
            elapsed == elapsed_in_slot(slot_nanos, to_next_slot),
    {
        let to_next: u128 = match to_next_slot {
            Some(d) => d,
            None => 0,
        };
        slot_nanos.saturating_sub(to_next)
    }

    /// Number of messages waiting in the queue.
    pub fn queued(&self) -> (n: usize)
        ensures
            n == self.queue().len(),
    {
        self.queued_messages.len()
    }

    /// Appends `pairs` to the queue as messages of kind `kind` for `slot`.
    fn enqueue(&mut self, kind: MsgType, slot: u64, pairs: &Vec<(ValId, Subnet)>)
        ensures
            final(self).queue() == old(self).queue() + messages_of(kind, slot, pairs@),
            final(self).params() == old(self).params(),
            final(self).validators() == old(self).validators(),
            final(self).tick_index() == old(self).tick_index(),
    {
        let mut i: usize = 0;
        while i < pairs.len()
            invariant
                i <= pairs.len(),
                self.queue() == old(self).queue() + messages_of(kind, slot, pairs@.take(i as int)),
                self.params() == old(self).params(),
                self.validators() == old(self).validators(),
                self.tick_index() == old(self).tick_index(),
            decreases pairs.len() - i,
        {
            let (validator, subnet) = pairs[i];
            let msg = match kind {
                MsgType::BeaconBlock => Message::BeaconBlock { proposer: validator, slot },
                MsgType::AggregateAndProofAttestation => Message::AggregateAndProofAttestation {
                    aggregator: validator,
                    subnet,
                    slot,
                },
                MsgType::Attestation => Message::Attestation { attester: validator, subnet, slot },
                MsgType::SignedContributionAndProof => Message::SignedContributionAndProof {
                    validator,
                    subnet,
                    slot,
                },
                MsgType::SyncCommitteeMessage => Message::SyncCommitteeMessage {
                    validator,
                    subnet,
                    slot,
                },
            };
            self.queued_messages.push_back(msg);
            assert(messages_of(kind, slot, pairs@.take(i + 1)) =~= messages_of(
                kind,
                slot,
                pairs@.take(i as int),
            ).push(msg));
            i += 1;
        }
        assert(pairs@.take(i as int) =~= pairs@);
    }

    /// Queues the messages of one kind for `slot`.
    pub fn queue_kind_msgs(&mut self, kind: MsgType, current_slot: u64)
        ensures
            old(self).wf() ==> final(self).wf(),
            final(self).queue() == old(self).queue() + kind_batch(
                old(self).params(),
                kind,
                current_slot,
                old(self).validators(),
            ),
            final(self).params() == old(self).params(),
            final(self).validators() == old(self).validators(),
            final(self).tick_index() == old(self).tick_index(),
    {
        match kind {
            MsgType::BeaconBlock => {
                match self.slot_generator.get_blocks(current_slot, &self.validators) {
                    Some(proposer) => {
                        self.queued_messages.push_back(
                            Message::BeaconBlock { proposer, slot: current_slot },
                        );
                        assert(old(self).queue().push(
                            Message::BeaconBlock { proposer, slot: current_slot },
                        ) =~= old(self).queue() + seq![
                            Message::BeaconBlock { proposer, slot: current_slot },
                        ]);
                    },
                    None => {
                        assert(old(self).queue() + Seq::<Message>::empty() =~= old(self).queue());
                    },
                }
            },
            MsgType::AggregateAndProofAttestation => {
                let pairs = self.slot_generator.get_aggregates(current_slot, &self.validators);
                self.enqueue(kind, current_slot, &pairs);
            },
            MsgType::Attestation => {
                let pairs = self.slot_generator.get_attestations(current_slot, &self.validators);
                self.enqueue(kind, current_slot, &pairs);
            },
            MsgType::SignedContributionAndProof => {
                let pairs = self.slot_generator.get_sync_committee_aggregates(
                    current_slot,
                    &self.validators,
                );
                self.enqueue(kind, current_slot, &pairs);
            },
            MsgType::SyncCommitteeMessage => {
                let pairs = self.slot_generator.get_sync_committee_messages(
                    current_slot,
                    &self.validators,
                );
                self.enqueue(kind, current_slot, &pairs);
            },
        }
    }

    /// Queues the messages of all five kinds for `current_slot`: the work
    /// of the tick on the slot boundary.
    pub fn queue_slot_msgs(&mut self, current_slot: u64)
        ensures
            old(self).wf() ==> final(self).wf(),
            final(self).queue() == old(self).queue() + slot_batch(
                old(self).params(),
                current_slot,
                old(self).validators(),
            ),
            final(self).params() == old(self).params(),
            final(self).validators() == old(self).validators(),
            final(self).tick_index() == old(self).tick_index(),
    {
        let kinds = MsgType::all();
        let ghost p = self.params();
        let ghost vals = self.validators();
        self.queue_kind_msgs(kinds[0], current_slot);
        self.queue_kind_msgs(kinds[1], current_slot);
        self.queue_kind_msgs(kinds[2], current_slot);
        self.queue_kind_msgs(kinds[3], current_slot);
        self.queue_kind_msgs(kinds[4], current_slot);
        assert(self.queue() =~= old(self).queue() + slot_batch(p, current_slot, vals));
    }

    /// Queues the aggregates of both kinds for `current_slot`: the work of
    /// the tick two thirds into the slot.
    pub fn queue_aggregate_msgs(&mut self, current_slot: u64)
        ensures
            old(self).wf() ==> final(self).wf(),
            final(self).queue() == old(self).queue() + aggregate_batch(
                old(self).params(),
                current_slot,
                old(self).validators(),
            ),
            final(self).params() == old(self).params(),
            final(self).validators() == old(self).validators(),
            final(self).tick_index() == old(self).tick_index(),
    {
        let ghost p = self.params();
        let ghost vals = self.validators();
        self.queue_kind_msgs(MsgType::AggregateAndProofAttestation, current_slot);
        self.queue_kind_msgs(MsgType::SignedContributionAndProof, current_slot);
        assert(self.queue() =~= old(self).queue() + aggregate_batch(p, current_slot, vals));
    }

    /// Takes note that the timer has fired and says what this tick asks
    /// for. Where it is not `Idle`, the caller reads the clock and hands the
    /// slot to [`Generator::queue_phase_msgs`].
    pub fn tick(&mut self) -> (phase: TickPhase)
        ensures
            old(self).wf() ==> final(self).wf(),
            phase == next_phase(old(self).tick_index()),
            final(self).tick_index() == next_index(old(self).tick_index()),
            final(self).queue() == old(self).queue(),
            final(self).params() == old(self).params(),
            final(self).validators() == old(self).validators(),
    {
        if self.interval_count >= 2 {
            self.interval_count = 0;
            TickPhase::SlotStart
        } else if self.interval_count == 1 {
            self.interval_count = 2;
            TickPhase::Aggregates
        } else {
            self.interval_count = 1;
            TickPhase::Idle
        }
    }

    /// Queues what a tick of phase `phase` asks for in `current_slot`.
    pub fn queue_phase_msgs(&mut self, phase: TickPhase, current_slot: u64)
        ensures
            old(self).wf() ==> final(self).wf(),
            final(self).queue() == old(self).queue() + phase_batch(
                old(self).params(),
                phase,
                current_slot,
                old(self).validators(),
            ),
            final(self).params() == old(self).params(),
            final(self).validators() == old(self).validators(),
            final(self).tick_index() == old(self).tick_index(),
    {
        match phase {
            TickPhase::SlotStart => self.queue_slot_msgs(current_slot),
            TickPhase::Aggregates => self.queue_aggregate_msgs(current_slot),
            TickPhase::Idle => {
                assert(self.queue() + Seq::<Message>::empty() =~= self.queue());
            },
        }
    }

    /// Hands out the message at the head of the queue, if there is one.
    pub fn next_queued(&mut self) -> (msg: Option<Message>)
        ensures
            old(self).wf() ==> final(self).wf(),
            msg == (if old(self).queue().len() > 0 {
                Some(old(self).queue()[0])
            } else {
                None
            }),
            final(self).queue() == (if old(self).queue().len() > 0 {
                old(self).queue().drop_first()
            } else {
                old(self).queue()
            }),
            final(self).params() == old(self).params(),
            final(self).validators() == old(self).validators(),
            final(self).tick_index() == old(self).tick_index(),
    {
        self.queued_messages.pop_front()
    }
}

} // verus!
