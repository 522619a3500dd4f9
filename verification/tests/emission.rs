use gossip_traffic::generator::{Generator, TickPhase};
use gossip_traffic::messages::{Message, MsgType};
use gossip_traffic::slot_generator::{Subnet, ValId};
use gossip_traffic::validators::ValidatorSet;

fn small_network() -> Generator {
    Generator::builder()
        .slots_per_epoch(2)
        .total_validators(50)
        .attestation_subnets(8)
        .target_aggregators(1)
        .sync_committee_subnets(1)
        .sync_subnet_size(1)
        .build(ValidatorSet::from_range(0, 50))
        .expect("right params")
}

fn drain(generator: &mut Generator) -> Vec<Message> {
    let mut out = Vec::new();
    while let Some(msg) = generator.next_queued() {
        out.push(msg);
    }
    out
}

#[test]
fn ticks_cycle_through_the_slot() {
    let mut generator = small_network();
    assert_eq!(generator.next_queued(), None);
    assert_eq!(generator.tick(), TickPhase::SlotStart);
    assert_eq!(generator.tick(), TickPhase::Idle);
    assert_eq!(generator.tick(), TickPhase::Aggregates);
    assert_eq!(generator.tick(), TickPhase::SlotStart);
    assert_eq!(generator.queued(), 0);
}

#[test]
fn slot_start_queues_all_kinds_in_order() {
    let mut generator = small_network();
    let phase = generator.tick();
    generator.queue_phase_msgs(phase, 0);
    assert_eq!(generator.queued(), 1 + 8 + 25 + 1 + 1);
    let msgs = drain(&mut generator);
    assert_eq!(
        msgs[0],
        Message::BeaconBlock {
            proposer: ValId(0),
            slot: 0
        }
    );
    assert_eq!(
        msgs[1],
        Message::AggregateAndProofAttestation {
            aggregator: ValId(0),
            subnet: Subnet(0),
            slot: 0
        }
    );
    assert_eq!(
        msgs[9],
        Message::Attestation {
            attester: ValId(0),
            subnet: Subnet(0),
            slot: 0
        }
    );
    assert_eq!(
        msgs[10],
        Message::Attestation {
            attester: ValId(2),
            subnet: Subnet(2),
            slot: 0
        }
    );
    assert_eq!(
        msgs[34],
        Message::SignedContributionAndProof {
            validator: ValId(0),
            subnet: Subnet(0),
            slot: 0
        }
    );
    assert_eq!(
        msgs[35],
        Message::SyncCommitteeMessage {
            validator: ValId(0),
            subnet: Subnet(0),
            slot: 0
        }
    );
    let kinds: Vec<MsgType> = msgs.iter().map(|m| m.kind()).collect();
    let mut expected = vec![MsgType::BeaconBlock];
    expected.extend(vec![MsgType::AggregateAndProofAttestation; 8]);
    expected.extend(vec![MsgType::Attestation; 25]);
    expected.push(MsgType::SignedContributionAndProof);
    expected.push(MsgType::SyncCommitteeMessage);
    assert_eq!(kinds, expected);
    assert_eq!(generator.queued(), 0);
}

#[test]
fn aggregate_tick_queues_aggregates_only() {
    let mut generator = small_network();
    generator.queue_aggregate_msgs(3);
    let msgs = drain(&mut generator);
    assert_eq!(msgs.len(), 9);
    assert!(msgs[..8]
        .iter()
        .all(|m| m.kind() == MsgType::AggregateAndProofAttestation));
    assert_eq!(msgs[8].kind(), MsgType::SignedContributionAndProof);
    assert_eq!(
        msgs[0],
        Message::AggregateAndProofAttestation {
            aggregator: ValId(0),
            subnet: Subnet(1),
            slot: 3
        }
    );

    generator.queue_phase_msgs(TickPhase::Idle, 3);
    assert_eq!(generator.queued(), 0);
    generator.queue_phase_msgs(TickPhase::Aggregates, 3);
    assert_eq!(generator.queued(), 9);
    generator.queue_slot_msgs(4);
    assert_eq!(generator.queued(), 9 + 36);
    generator.queue_kind_msgs(MsgType::BeaconBlock, 7);
    assert_eq!(generator.queued(), 9 + 36 + 1);
}

#[test]
fn messages_leave_in_arrival_order() {
    let mut generator = Generator::builder()
        .total_validators(5000)
        .build(ValidatorSet::from_range(3, 5))
        .expect("right params");
    generator.queue_kind_msgs(MsgType::BeaconBlock, 5003);
    generator.queue_kind_msgs(MsgType::BeaconBlock, 5004);
    generator.queue_kind_msgs(MsgType::BeaconBlock, 5005);
    assert_eq!(
        generator.next_queued(),
        Some(Message::BeaconBlock {
            proposer: ValId(3),
            slot: 5003
        })
    );
    assert_eq!(
        generator.next_queued(),
        Some(Message::BeaconBlock {
            proposer: ValId(4),
            slot: 5004
        })
    );
    assert_eq!(generator.next_queued(), None);
}

#[test]
fn elapsed_time_saturates() {
    assert_eq!(Generator::time_since_last_slot(12_000, Some(2_000)), 10_000);
    assert_eq!(Generator::time_since_last_slot(12_000, Some(12_000)), 0);
    assert_eq!(Generator::time_since_last_slot(12_000, Some(13_000)), 0);
    assert_eq!(Generator::time_since_last_slot(12_000, None), 12_000);
}

#[test]
fn kinds_and_names() {
    assert_eq!(
        MsgType::all(),
        [
            MsgType::BeaconBlock,
            MsgType::AggregateAndProofAttestation,
            MsgType::Attestation,
            MsgType::SignedContributionAndProof,
            MsgType::SyncCommitteeMessage
        ]
    );
    let names: Vec<&str> = MsgType::all().iter().map(|k| k.name()).collect();
    assert_eq!(
        names,
        vec![
            "beacon-block",
            "aggregate-and-proof-attestation",
            "attestation",
            "signed-contribution-and-proof",
            "sync-committee-message"
        ]
    );
}

#[test]
fn engine_without_work_queues_nothing() {
    let mut idle = Generator::builder()
        .total_validators(5000)
        .build(ValidatorSet::new())
        .expect("right params");
    for slot in 0..6u64 {
        let phase = idle.tick();
        idle.queue_phase_msgs(phase, slot / 3);
        assert_eq!(idle.queued(), 0);
        assert_eq!(idle.next_queued(), None);
    }
    // Validator 4999 sits outside every committee of slot 0 and does not
    // propose: nothing but its attestation, in its own slot of the epoch.
    let mut lone = Generator::builder()
        .total_validators(5000)
        .build(ValidatorSet::from_range(4999, 5000))
        .expect("right params");
    lone.queue_slot_msgs(0);
    assert_eq!(lone.queued(), 0);
    lone.queue_slot_msgs(4999 % 32);
    assert_eq!(
        lone.next_queued(),
        Some(Message::Attestation {
            attester: ValId(4999),
            subnet: Subnet(4999 % 64),
            slot: 4999 % 32
        })
    );
    assert_eq!(lone.next_queued(), None);
}
