use std::collections::{BTreeMap, BTreeSet, HashMap, HashSet};

use gossip_traffic::params::{BuildError, GeneratorParams, NetworkParams};
use gossip_traffic::generator::Generator;
use gossip_traffic::slot_generator::{SlotGenerator, Subnet, ValId};
use gossip_traffic::validators::ValidatorSet;

fn all_validators(total_validators: u64) -> ValidatorSet {
    ValidatorSet::from_range(0, total_validators)
}

fn set_of(ids: &[u64]) -> ValidatorSet {
    ValidatorSet::from_sorted(ids.iter().map(|id| ValId(*id)).collect()).expect("ascending ids")
}

#[test]
fn test_get_slot_attestations() {
    let test_slot = 0;
    let slots_per_epoch = 2;
    let total_validators = 50;
    let attestation_subnets = 8;
    let aggregators = 1;
    let sync_subnet_size = 1;
    let sync_subnets = 1;

    let mut builder = Generator::builder();
    let params = builder
        .slots_per_epoch(slots_per_epoch)
        .total_validators(total_validators)
        .attestation_subnets(attestation_subnets)
        .target_aggregators(aggregators)
        .sync_committee_subnets(sync_subnets)
        .sync_subnet_size(sync_subnet_size)
        .build_params()
        .expect("right params");

    let validators = all_validators(params.total_validators());
    let slot_generator = SlotGenerator::from_params(&params);

    let blocks = slot_generator.get_blocks(test_slot, &validators);
    assert_eq!(blocks, Some(ValId(0)));

    let aggregates = slot_generator.get_aggregates(test_slot, &validators);
    assert_eq!(aggregates.len(), 8);
    let subnets: BTreeSet<Subnet> = aggregates.iter().map(|(_, subnet)| *subnet).collect();
    assert_eq!(subnets.len(), 8);

    let first = slot_generator.get_attestations(test_slot, &validators);
    let second = slot_generator.get_attestations(test_slot + 1, &validators);
    assert!(first.len().abs_diff(second.len()) <= 1);
    assert_eq!(first.len() + second.len(), 50);
    assert_eq!(first.len(), 25);
    assert_eq!(first[0], (ValId(0), Subnet(0)));
    assert_eq!(first[1], (ValId(2), Subnet(2)));
    assert_eq!(second[0], (ValId(1), Subnet(1)));
}

#[test]
fn test_attestations() {
    let test_slot = 0;
    let slots_per_epoch = 12;
    let total_validators = 20000;
    let attestation_subnets = 6;
    let aggregators = 1;
    let sync_subnet_size = 1;
    let sync_subnets = 1;

    let slot_generator = SlotGenerator::new(
        slots_per_epoch,
        attestation_subnets,
        sync_subnet_size,
        sync_subnets,
        aggregators,
        total_validators,
    );

    let all_validators = all_validators(total_validators);

    let first_slot = (test_slot / slots_per_epoch) * slots_per_epoch;

    let mut epoch_attesters = HashSet::with_capacity(total_validators as usize);
    let mut epoch_subnets = BTreeSet::<Subnet>::new();
    let expected_slot_atts = (total_validators / slots_per_epoch) as usize;
    for current_slot in first_slot..first_slot + slots_per_epoch {
        let mut subnet_messages = BTreeMap::<Subnet, BTreeSet<ValId>>::default();

        for (val_id, subnet) in slot_generator.get_attestations(current_slot, &all_validators) {
            let is_new = epoch_attesters.insert(val_id);
            assert!(is_new, "each validator attests just once per epoch");
            subnet_messages.entry(subnet).or_default().insert(val_id);
            epoch_subnets.insert(subnet);
        }

        let slot_atts_count: usize = subnet_messages.values().map(|vals| vals.len()).sum();
        assert!(
            slot_atts_count.abs_diff(expected_slot_atts) <= 1,
            "unexpected number of messages per slot. Expected {} actual {}",
            expected_slot_atts,
            slot_atts_count
        );
    }
    assert_eq!(
        epoch_subnets.len(),
        attestation_subnets as usize,
        "all subnets should be attested on every epoch"
    );
    assert_eq!(epoch_attesters.len(), total_validators as usize);
}

#[test]
fn test_aggregates() {
    let test_slot = 0;
    let slots_per_epoch = 32;
    let total_validators = 765878;
    let attestation_subnets = 64;
    let aggregators = 16;
    let sync_subnet_size = 1;
    let sync_subnets = 1;

    let slot_generator = SlotGenerator::new(
        slots_per_epoch,
        attestation_subnets,
        sync_subnet_size,
        sync_subnets,
        aggregators,
        total_validators,
    );

    let all_validators = all_validators(total_validators);

    let mut all_aggregators = HashSet::with_capacity((aggregators * attestation_subnets) as usize);
    let mut per_subnet_aggregators = BTreeMap::<Subnet, usize>::default();
    let aggregates = slot_generator.get_aggregates(test_slot, &all_validators);

    for (val_id, subnet) in aggregates {
        let is_new = all_aggregators.insert(val_id);
        assert!(is_new);
        *per_subnet_aggregators.entry(subnet).or_default() += 1;
    }

    assert_eq!(per_subnet_aggregators.len(), attestation_subnets as usize);
    for aggregates_in_subnet in per_subnet_aggregators.values() {
        assert_eq!(aggregators as usize, *aggregates_in_subnet)
    }
}

#[test]
fn test_sync_messages() {
    let test_slot = 0;
    let slots_per_epoch = 32;
    let total_validators = 765878;
    let attestation_subnets = 64;
    let aggregators = 16;
    let sync_subnet_size = 128;
    let sync_subnets = 4;

    let slot_generator = SlotGenerator::new(
        slots_per_epoch,
        attestation_subnets,
        sync_subnet_size,
        sync_subnets,
        aggregators,
        total_validators,
    );

    let all_validators = all_validators(total_validators);

    let sync_messages = slot_generator.get_sync_committee_messages(test_slot, &all_validators);
    let mut per_subnet_messages = HashMap::<Subnet, usize>::with_capacity(sync_subnets as usize);
    for (_val_id, subnet) in sync_messages {
        *per_subnet_messages.entry(subnet).or_default() += 1;
    }
    assert_eq!(per_subnet_messages.len(), sync_subnets as usize);
    assert!(per_subnet_messages
        .values()
        .all(|count| *count == sync_subnet_size as usize));
}

#[test]
fn test_sync_aggregates() {
    let test_slot = 0;
    let slots_per_epoch = 32;
    let total_validators = 20;
    let attestation_subnets = 64;
    let aggregators = 3;
    let sync_subnet_size = 6;
    let sync_subnets = 4;

    let slot_generator = SlotGenerator::new(
        slots_per_epoch,
        attestation_subnets,
        sync_subnet_size,
        sync_subnets,
        aggregators,
        total_validators,
    );

    let all_validators = all_validators(total_validators);

    let mut subnet_aggregators = BTreeMap::<Subnet, BTreeSet<ValId>>::default();
    let sync_messages = slot_generator.get_sync_committee_aggregates(test_slot, &all_validators);
    for (val_id, subnet) in sync_messages {
        subnet_aggregators.entry(subnet).or_default().insert(val_id);
    }
    assert_eq!(subnet_aggregators.len(), sync_subnets as usize);
    // Twenty validators fill five places in each of the four subnets; the
    // places 0, 1, 2 and 4 have a turn below three at slot 0.
    assert!(subnet_aggregators.values().all(|vals| vals.len() == 4));
    assert_eq!(
        subnet_aggregators[&Subnet(0)],
        [ValId(0), ValId(4), ValId(8), ValId(16)].into_iter().collect()
    );
}

#[test]
fn sync_aggregators_match_target_when_subnet_size_equals_subnet_count() {
    let aggregators = 3;
    let sync_subnets = 4;
    let slot_generator = SlotGenerator::new(32, 64, 4, sync_subnets, aggregators, 765878);
    let validators = all_validators(765878);
    for slot in [0u64, 1, 2, 3, 4, 5, 31, 32, 8191, 8192, 1_000_003] {
        let mut per_subnet = BTreeMap::<Subnet, usize>::new();
        for (_, subnet) in slot_generator.get_sync_committee_aggregates(slot, &validators) {
            *per_subnet.entry(subnet).or_default() += 1;
        }
        assert_eq!(per_subnet.len(), sync_subnets as usize);
        assert!(per_subnet.values().all(|count| *count == aggregators as usize));
    }
}

#[test]
fn sync_aggregator_role_moves_with_the_slot() {
    let slot_generator = SlotGenerator::new(32, 64, 4, 4, 1, 100);
    let validators = all_validators(100);
    let at = |slot: u64| -> Vec<(ValId, Subnet)> {
        slot_generator.get_sync_committee_aggregates(slot, &validators)
    };
    // position 4 * index + subnet; the turn is (index + slot) mod 4.
    assert_eq!(
        at(0),
        vec![
            (ValId(0), Subnet(0)),
            (ValId(1), Subnet(1)),
            (ValId(2), Subnet(2)),
            (ValId(3), Subnet(3))
        ]
    );
    assert_eq!(
        at(1),
        vec![
            (ValId(12), Subnet(0)),
            (ValId(13), Subnet(1)),
            (ValId(14), Subnet(2)),
            (ValId(15), Subnet(3))
        ]
    );
    assert_eq!(at(4), at(0));
}

#[test]
fn one_proposer_per_slot() {
    let slot_generator = SlotGenerator::new(32, 64, 128, 4, 16, 1000);
    let validators = all_validators(1000);
    for slot in [0u64, 1, 999, 1000, 1001, 123_456_789, u64::MAX] {
        assert_eq!(
            slot_generator.get_blocks(slot, &validators),
            Some(ValId(slot % 1000))
        );
    }
    let some = set_of(&[5, 7]);
    assert_eq!(slot_generator.get_blocks(1005, &some), Some(ValId(5)));
    assert_eq!(slot_generator.get_blocks(1006, &some), None);
    assert_eq!(slot_generator.get_blocks(6, &ValidatorSet::new()), None);
}

#[test]
fn each_validator_attests_once_in_a_later_epoch() {
    let slots_per_epoch = 7;
    let total = 1000;
    let slot_generator = SlotGenerator::new(slots_per_epoch, 5, 10, 3, 2, total);
    let validators = all_validators(total);
    let epoch = 12345u64;
    let mut seen = HashMap::<ValId, usize>::new();
    for slot in epoch * slots_per_epoch..(epoch + 1) * slots_per_epoch {
        let attestations = slot_generator.get_attestations(slot, &validators);
        assert!(attestations.len().abs_diff((total / slots_per_epoch) as usize) <= 1);
        for (val, subnet) in attestations {
            *seen.entry(val).or_default() += 1;
            let shaken = (val.0 + epoch) % total;
            assert_eq!(subnet, Subnet(shaken % 5));
            assert_eq!(shaken % slots_per_epoch, slot % slots_per_epoch);
        }
    }
    assert_eq!(seen.len(), total as usize);
    assert!(seen.values().all(|count| *count == 1));
}

#[test]
fn aggregates_exact_values() {
    // 50 validators, 8 subnets, 1 aggregator each; epoch 3 moves every id by 3.
    let slot_generator = SlotGenerator::new(2, 8, 1, 1, 1, 50);
    let validators = all_validators(50);
    let aggregates = slot_generator.get_aggregates(6, &validators);
    assert_eq!(
        aggregates,
        vec![
            (ValId(0), Subnet(3)),
            (ValId(1), Subnet(4)),
            (ValId(2), Subnet(5)),
            (ValId(3), Subnet(6)),
            (ValId(4), Subnet(7)),
            (ValId(47), Subnet(2)),
            (ValId(48), Subnet(3)),
            (ValId(49), Subnet(4)),
        ]
    );
}

#[test]
fn aggregates_large_network_epoch_zero_slots() {
    let slot_generator = SlotGenerator::new(32, 64, 1, 1, 16, 765878);
    let validators = all_validators(765878);
    for slot in [0u64, 1, 17, 31] {
        let aggregates = slot_generator.get_aggregates(slot, &validators);
        assert_eq!(aggregates.len(), 1024);
        let ids: HashSet<ValId> = aggregates.iter().map(|(val, _)| *val).collect();
        assert_eq!(ids.len(), 1024);
        let mut per_subnet = BTreeMap::<Subnet, usize>::new();
        for (_, subnet) in aggregates {
            *per_subnet.entry(subnet).or_default() += 1;
        }
        assert_eq!(per_subnet.len(), 64);
        assert!(per_subnet.values().all(|count| *count == 16));
    }
    // In any epoch the aggregators are 1024 distinct validators.
    let later = slot_generator.get_aggregates(32 * 1000 + 5, &validators);
    assert_eq!(later.len(), 1024);
    let ids: HashSet<ValId> = later.iter().map(|(val, _)| *val).collect();
    assert_eq!(ids.len(), 1024);
}

#[test]
fn sync_membership_is_stable_within_a_period() {
    let slot_generator = SlotGenerator::new(32, 64, 128, 4, 16, 765878);
    let validators = all_validators(765878);
    let period_slots = 32 * 256;
    let first = slot_generator.get_sync_committee_messages(period_slots * 3, &validators);
    let last = slot_generator.get_sync_committee_messages(period_slots * 4 - 1, &validators);
    let next = slot_generator.get_sync_committee_messages(period_slots * 4, &validators);
    assert_eq!(first, last);
    assert_ne!(first, next);
    assert_eq!(first.len(), 512);
    assert_eq!(first[0], (ValId(0), Subnet(3)));
    assert_eq!(next[0], (ValId(0), Subnet(0)));
}

#[test]
fn shake_wraps_around() {
    // One slot per epoch, so the epoch is the slot itself.
    let slot_generator = SlotGenerator::new(1, 4, 1, 1, 1, 10);
    let validators = set_of(&[3]);
    let slot = u64::MAX - 1;
    // 3 + (2^64 - 2) wraps to 1; 1 mod 10 = 1; subnet 1 mod 4.
    assert_eq!(
        slot_generator.get_attestations(slot, &validators),
        vec![(ValId(3), Subnet(1))]
    );
}

#[test]
fn same_inputs_same_outputs() {
    let slot_generator = SlotGenerator::new(32, 64, 128, 4, 16, 5000);
    let validators = all_validators(5000);
    for slot in [0u64, 77, 100_000] {
        assert_eq!(
            slot_generator.get_blocks(slot, &validators),
            slot_generator.get_blocks(slot, &validators)
        );
        assert_eq!(
            slot_generator.get_attestations(slot, &validators),
            slot_generator.get_attestations(slot, &validators)
        );
        assert_eq!(
            slot_generator.get_aggregates(slot, &validators),
            slot_generator.get_aggregates(slot, &validators)
        );
        assert_eq!(
            slot_generator.get_sync_committee_messages(slot, &validators),
            slot_generator.get_sync_committee_messages(slot, &validators)
        );
        assert_eq!(
            slot_generator.get_sync_committee_aggregates(slot, &validators),
            slot_generator.get_sync_committee_aggregates(slot, &validators)
        );
    }
}

#[test]
fn split_validators_give_the_same_assignments() {
    let slot_generator = SlotGenerator::new(32, 64, 128, 4, 16, 3000);
    let whole = all_validators(3000);
    let parts: Vec<ValidatorSet> = vec![
        ValidatorSet::from_range(0, 1000),
        ValidatorSet::from_range(1000, 1001),
        ValidatorSet::from_range(1001, 3000),
    ];
    for slot in [0u64, 45, 99_999] {
        let mut blocks = Vec::new();
        let mut attestations = Vec::new();
        let mut aggregates = Vec::new();
        let mut sync_messages = Vec::new();
        let mut sync_aggregates = Vec::new();
        for part in parts.iter() {
            blocks.extend(slot_generator.get_blocks(slot, part));
            attestations.extend(slot_generator.get_attestations(slot, part));
            aggregates.extend(slot_generator.get_aggregates(slot, part));
            sync_messages.extend(slot_generator.get_sync_committee_messages(slot, part));
            sync_aggregates.extend(slot_generator.get_sync_committee_aggregates(slot, part));
        }
        assert_eq!(blocks.len(), 1);
        assert_eq!(Some(blocks[0]), slot_generator.get_blocks(slot, &whole));
        assert_eq!(attestations, slot_generator.get_attestations(slot, &whole));
        assert_eq!(aggregates, slot_generator.get_aggregates(slot, &whole));
        assert_eq!(
            sync_messages,
            slot_generator.get_sync_committee_messages(slot, &whole)
        );
        assert_eq!(
            sync_aggregates,
            slot_generator.get_sync_committee_aggregates(slot, &whole)
        );
    }
}

#[test]
fn builder_reports_first_violation() {
    let mut builder = Generator::builder();
    assert_eq!(
        builder.build_params().err(),
        Some(BuildError::TotalValidatorsNotSet)
    );
    let check = |set: &dyn Fn(&mut gossip_traffic::builder::GeneratorBuilder)| {
        let mut b = Generator::builder();
        b.total_validators(10_000);
        set(&mut b);
        b.build_params().err()
    };
    assert_eq!(
        check(&|b| {
            b.slots_per_epoch(0).total_validators(0);
        }),
        Some(BuildError::SlotsPerEpochZero)
    );
    assert_eq!(
        check(&|b| {
            b.total_validators(0).attestation_subnets(0);
        }),
        Some(BuildError::TotalValidatorsZero)
    );
    assert_eq!(
        check(&|b| {
            b.attestation_subnets(0).sync_committee_subnets(0);
        }),
        Some(BuildError::AttestationSubnetsZero)
    );
    assert_eq!(
        check(&|b| {
            b.sync_committee_subnets(0).sync_subnet_size(0);
        }),
        Some(BuildError::SyncCommitteeSubnetsZero)
    );
    assert_eq!(
        check(&|b| {
            b.sync_subnet_size(0).target_aggregators(0);
        }),
        Some(BuildError::SyncSubnetSizeZero)
    );
    assert_eq!(
        check(&|b| {
            b.target_aggregators(0);
        }),
        Some(BuildError::TargetAggregatorsZero)
    );
    assert_eq!(
        check(&|b| {
            b.sync_subnet_size(u64::MAX).sync_committee_subnets(2);
        }),
        Some(BuildError::SyncCommitteeTooLarge)
    );
    assert_eq!(
        check(&|b| {
            b.sync_subnet_size(2501).sync_committee_subnets(4);
        }),
        Some(BuildError::SyncCommitteeExceedsValidators)
    );
    assert_eq!(
        check(&|b| {
            b.target_aggregators(u64::MAX / 2).attestation_subnets(3);
        }),
        Some(BuildError::AttestationAggregatorsTooLarge)
    );
    assert_eq!(
        check(&|b| {
            b.target_aggregators(157).attestation_subnets(64);
        }),
        Some(BuildError::AttestationAggregatorsExceedValidators)
    );
    assert_eq!(
        check(&|b| {
            b.sync_subnet_size(1)
                .sync_committee_subnets(u64::MAX)
                .total_validators(u64::MAX)
                .attestation_subnets(1)
                .target_aggregators(2);
        }),
        Some(BuildError::SyncAggregatorsTooLarge)
    );
    assert_eq!(
        check(&|b| {
            b.sync_subnet_size(1)
                .sync_committee_subnets(100)
                .total_validators(150)
                .attestation_subnets(1)
                .target_aggregators(2);
        }),
        Some(BuildError::SyncAggregatorsExceedValidators)
    );
    assert_eq!(
        builder.total_validators(2048).build_params().map(|p| (
            p.slots_per_epoch(),
            p.attestation_subnets(),
            p.sync_subnet_size(),
            p.sync_committee_subnets(),
            p.target_aggregators(),
            p.total_validators()
        )),
        Ok((32, 64, 512, 4, 16, 2048))
    );
    assert_eq!(
        BuildError::SlotsPerEpochZero.message(),
        "slots_per_epoch should be positive"
    );
    assert_eq!(
        BuildError::TotalValidatorsNotSet.message(),
        "total_validators not set"
    );
}

#[test]
fn build_checks_validator_ids_first() {
    let mut builder = Generator::builder();
    builder.total_validators(2048);
    assert!(builder.build(set_of(&[0, 2047])).is_ok());
    assert_eq!(
        builder.build(set_of(&[0, 2048])).err(),
        Some(BuildError::ValidatorOutOfRange)
    );
    builder.slots_per_epoch(0);
    assert_eq!(
        builder.build(set_of(&[4000])).err(),
        Some(BuildError::ValidatorOutOfRange)
    );
    assert_eq!(
        builder.build(set_of(&[1])).err(),
        Some(BuildError::SlotsPerEpochZero)
    );
    assert_eq!(
        Generator::builder().build(set_of(&[1])).err(),
        Some(BuildError::TotalValidatorsNotSet)
    );
    let settings = Generator::builder().clock_settings();
    assert_eq!(settings.genesis_slot, 0);
    assert_eq!(settings.genesis_nanos, 0);
    assert_eq!(settings.slot_nanos, 12_000_000_000);
    let settings = Generator::builder().slot_clock(5, 7, 9).clock_settings();
    assert_eq!(
        (settings.genesis_slot, settings.genesis_nanos, settings.slot_nanos),
        (5, 7, 9)
    );
}

#[test]
fn split_validators_in_any_order_give_the_same_pairs() {
    let slot_generator = SlotGenerator::new(32, 64, 128, 4, 16, 3000);
    let whole = all_validators(3000);
    let evens: Vec<u64> = (0..3000).filter(|id| id % 2 == 0).collect();
    let odds: Vec<u64> = (0..3000).filter(|id| id % 2 == 1).collect();
    let parts = [set_of(&evens), set_of(&odds)];
    for slot in [3u64, 64, 70_000] {
        let mut union = BTreeSet::new();
        let mut count = 0;
        for part in parts.iter() {
            for pair in slot_generator.get_attestations(slot, part) {
                union.insert(pair);
                count += 1;
            }
        }
        let expected: BTreeSet<(ValId, Subnet)> = slot_generator
            .get_attestations(slot, &whole)
            .into_iter()
            .collect();
        assert_eq!(union, expected);
        assert_eq!(count, expected.len());
    }
}

#[test]
fn validator_sets_hold_ascending_ids() {
    let range = ValidatorSet::from_range(3, 7);
    assert_eq!(range.ids(), &vec![ValId(3), ValId(4), ValId(5), ValId(6)]);
    assert_eq!(range.len(), 4);
    assert!(!range.is_empty());
    assert!(ValidatorSet::from_range(7, 3).is_empty());
    assert!(ValidatorSet::new().is_empty());
    assert_eq!(ValidatorSet::new().len(), 0);

    assert!(ValidatorSet::from_sorted(vec![ValId(1), ValId(1)]).is_none());
    assert!(ValidatorSet::from_sorted(vec![ValId(2), ValId(1)]).is_none());
    assert!(ValidatorSet::from_sorted(vec![ValId(1), ValId(5), ValId(4)]).is_none());
    assert!(ValidatorSet::from_sorted(Vec::new()).is_some());
    assert!(ValidatorSet::from_sorted(vec![ValId(9)]).is_some());

    let set = set_of(&[1, 4, 9, 16, 25, u64::MAX]);
    for id in [1u64, 4, 9, 16, 25, u64::MAX] {
        assert!(set.contains(ValId(id)));
    }
    for id in [0u64, 2, 3, 5, 10, 24, 26, u64::MAX - 1] {
        assert!(!set.contains(ValId(id)));
    }
    assert!(!ValidatorSet::new().contains(ValId(0)));
}

#[test]
fn checked_parameters_carry_their_values() {
    let values = NetworkParams {
        slots_per_epoch: 2,
        attestation_subnets: 8,
        sync_subnet_size: 1,
        sync_committee_subnets: 1,
        target_aggregators: 1,
        total_validators: 50,
    };
    let params = GeneratorParams::new(values).expect("right params");
    assert_eq!(params.values(), values);
    assert_eq!(params.slots_per_epoch(), 2);
    assert_eq!(params.attestation_subnets(), 8);
    assert_eq!(params.sync_subnet_size(), 1);
    assert_eq!(params.sync_committee_subnets(), 1);
    assert_eq!(params.target_aggregators(), 1);
    assert_eq!(params.total_validators(), 50);
    assert_eq!(SlotGenerator::from_params(&params).parameters(), values);

    let too_few = NetworkParams {
        total_validators: 7,
        ..values
    };
    assert_eq!(
        GeneratorParams::new(too_few).err(),
        Some(BuildError::AttestationAggregatorsExceedValidators)
    );

    // One checked parameter set serves a whole network of engines.
    let first = Generator::with_params(params, ValidatorSet::from_range(0, 25));
    let second = Generator::with_params(params, ValidatorSet::from_range(25, 50));
    let third = Generator::with_params(params, ValidatorSet::from_range(25, 51));
    assert!(first.is_ok());
    assert!(second.is_ok());
    assert_eq!(third.err(), Some(BuildError::ValidatorOutOfRange));
}

fn aggregators_per_subnet(
    slot_generator: &SlotGenerator,
    slot: u64,
    validators: &ValidatorSet,
) -> BTreeMap<Subnet, usize> {
    let mut per_subnet = BTreeMap::new();
    for (_, subnet) in slot_generator.get_aggregates(slot, validators) {
        *per_subnet.entry(subnet).or_default() += 1;
    }
    per_subnet
}

#[test]
fn aggregators_spread_evenly_when_subnets_divide_the_network() {
    let slot_generator = SlotGenerator::new(2, 8, 1, 1, 2, 64);
    let validators = all_validators(64);
    for slot in 0..200u64 {
        let per_subnet = aggregators_per_subnet(&slot_generator, slot, &validators);
        assert_eq!(per_subnet.len(), 8);
        assert!(per_subnet.values().all(|count| *count == 2));
    }
}

#[test]
fn aggregators_spread_evenly_when_whole_rounds_move_past_the_end() {
    // 50 validators, 8 subnets, 2 aggregators each: 16 places.
    let slot_generator = SlotGenerator::new(2, 8, 1, 1, 2, 50);
    let validators = all_validators(50);
    // Epochs 0, 8 and 16 up to 49 move 0, 8 or all 16 places past the end.
    for epoch in [0u64, 8, 16, 17, 30, 49, 50, 58, 66, 99, 100] {
        let per_subnet = aggregators_per_subnet(&slot_generator, 2 * epoch, &validators);
        assert_eq!(per_subnet.len(), 8);
        assert!(per_subnet.values().all(|count| *count == 2));
    }
    // Epoch 3 moves 3 places past the end: the subnets are uneven, the
    // number of aggregators is still 16.
    let per_subnet = aggregators_per_subnet(&slot_generator, 6, &validators);
    assert_eq!(per_subnet.values().sum::<usize>(), 16);
    assert!(per_subnet.values().any(|count| *count != 2));
}

#[test]
fn attester_counts_follow_the_remainder() {
    // 50 = 7 * 7 + 1: the first slot of an epoch has 8 attesters, the
    // others 7.
    let slot_generator = SlotGenerator::new(7, 4, 1, 1, 1, 50);
    let validators = all_validators(50);
    for epoch in [0u64, 1, 13, 1_000_000] {
        for offset in 0..7u64 {
            let count = slot_generator
                .get_attestations(7 * epoch + offset, &validators)
                .len();
            assert_eq!(count, if offset == 0 { 8 } else { 7 });
        }
    }
}
