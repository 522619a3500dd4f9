//! What holds of the assignments over the whole network.
//!
//! The laws speak of the validators of the network that hold a duty in a
//! slot, as sets of ids, and of the sequences that the engine hands out for
//! the validators a caller holds.
use vstd::prelude::*;
use vstd::arithmetic::div_mod::{
    lemma_fundamental_div_mod,
    lemma_mod_bound,
    lemma_mod_mod,
    lemma_small_mod,
};
use vstd::set_lib::{lemma_int_range, set_int_range};
use crate::arith::{
    lemma_div_mod_of_parts,
    lemma_quotient_below,
    lemma_quotient_bounds,
};
use crate::counting::{
    lemma_residue_class_len,
    lemma_rotation_keeps_count,
    picked,
    picked_after_rotation,
    residue_class,
};
use crate::messages::MsgType;
use crate::params::NetworkParams;
use crate::slot_generator::{
    assignments,
    block_proposal,
    duty,
    epoch_of,
    is_attester,
    period_of,
    proposer,
    shake,
    sync_position,
    wrapped_sum,
    Subnet,
    ValId,
};

verus! {

/// The validators of the network that hold a duty of kind `kind` in `slot`.
pub open spec fn duty_holders(p: NetworkParams, kind: MsgType, slot: u64) -> Set<int> {
    Set::new(|v: int| 0 <= v < p.total_validators && duty(p, kind, slot, v as u64) is Some)
}

/// The validators of the network whose duty of kind `kind` in `slot` is on
/// `subnet`.
pub open spec fn subnet_holders(p: NetworkParams, kind: MsgType, slot: u64, subnet: u64) -> Set<
    int,
> {
    Set::new(
        |v: int|
            0 <= v < p.total_validators && duty(p, kind, slot, v as u64) == Some(Subnet(subnet)),
    )
}

/// The shake by `round` is a rotation of the ids: either no id of the
/// network wraps around when `round` is added, or the wraparound cannot be
/// seen because the number of validators divides the width of the integer.
pub open spec fn shake_rotates(p: NetworkParams, round: int) -> bool {
    ||| round + p.total_validators <= 0x1_0000_0000_0000_0000
    ||| 0x1_0000_0000_0000_0000int % (p.total_validators as int) == 0
}

/// Epoch and period of a slot are machine integers.
pub proof fn lemma_epoch_bounds(p: NetworkParams, slot: u64)
    requires
        p.slots_per_epoch > 0,
    ensures
        0 <= period_of(p, slot) <= epoch_of(p, slot) <= slot,
{
    lemma_quotient_bounds(slot as int, p.slots_per_epoch as int);
    lemma_quotient_bounds(epoch_of(p, slot), crate::EPOCHS_PER_SYNC_COMMITTEE_PERIOD as int);
}

/// Where the shake rotates, it sends `id` to `(id + round) mod
/// total_validators`.
pub proof fn lemma_shake_is_rotation(p: NetworkParams, id: u64, round: int)
    requires
        p.total_validators > 0,
        0 <= round,
        id < p.total_validators,
        shake_rotates(p, round),
    ensures
        shake(p, id, round) == (id + round) % (p.total_validators as int),
{
    let width = 0x1_0000_0000_0000_0000int;
    let t = p.total_validators as int;
    if round + t <= width {
        lemma_small_mod((id + round) as nat, width as nat);
    } else {
        lemma_fundamental_div_mod(width, t);
        let b = width / t;
        assert(b > 0 && t * b == width) by (nonlinear_arith)
            requires
                width == t * b + 0,
                width > 0,
                t > 0,
        ;
        lemma_mod_mod(id + round, t, b);
    }
}

/// Every slot has one proposer, the validator `slot mod total_validators`:
/// it is a validator of the network, it is named wherever the caller holds
/// it, and no other validator is ever named.
pub proof fn lemma_one_proposer(p: NetworkParams, slot: u64, validators: Seq<ValId>)
    requires
        p.valid(),
    ensures
        proposer(p, slot) == slot % p.total_validators,
        0 <= proposer(p, slot) < p.total_validators,
        validators.contains(ValId(proposer(p, slot) as u64)) ==> block_proposal(
            p,
            slot,
            validators,
        ) == Some(ValId((slot % p.total_validators) as u64)),
        !validators.contains(ValId(proposer(p, slot) as u64)) ==> block_proposal(
            p,
            slot,
            validators,
        ) is None,
{
    lemma_mod_bound(slot as int, p.total_validators as int);
}

/// The slot of epoch `epoch` in which `id` attests.
pub open spec fn attesting_slot(p: NetworkParams, epoch: int, id: u64) -> int {
    epoch * p.slots_per_epoch + shake(p, id, epoch) % (p.slots_per_epoch as int)
}

/// In an epoch all of whose slots are machine integers, a validator attests
/// in exactly one slot.
pub proof fn lemma_attests_once_per_epoch(p: NetworkParams, epoch: int, id: u64)
    requires
        p.valid(),
        0 <= epoch,
        (epoch + 1) * p.slots_per_epoch <= 0x1_0000_0000_0000_0000,
    ensures
        0 <= attesting_slot(p, epoch, id) <= u64::MAX,
        epoch_of(p, attesting_slot(p, epoch, id) as u64) == epoch,
        is_attester(p, attesting_slot(p, epoch, id) as u64, id),
        forall|slot: u64|
            epoch_of(p, slot) == epoch && #[trigger] is_attester(p, slot, id) ==> slot
                == attesting_slot(p, epoch, id),
{
    let s = p.slots_per_epoch as int;
    let r = shake(p, id, epoch) % s;
    lemma_mod_bound(shake(p, id, epoch), s);
    lemma_div_mod_of_parts(s, epoch, r);
    assert(epoch * s == s * epoch) by (nonlinear_arith);
    assert(0 <= s * epoch + r < (epoch + 1) * s) by (nonlinear_arith)
        requires
            0 <= epoch,
            0 <= r < s,
    ;
    assert forall|slot: u64| epoch_of(p, slot) == epoch && #[trigger] is_attester(p, slot, id)
        implies slot == attesting_slot(p, epoch, id) by {
        lemma_fundamental_div_mod(slot as int, s);
    }
}

/// The attesters of a slot number `total_validators / slots_per_epoch`, and
/// one more in the first slots of the epoch where the division leaves a
/// remainder.
pub proof fn lemma_attesters_per_slot(p: NetworkParams, slot: u64)
    requires
        p.valid(),
        shake_rotates(p, epoch_of(p, slot)),
    ensures
        duty_holders(p, MsgType::Attestation, slot).finite(),
        duty_holders(p, MsgType::Attestation, slot).len() == p.total_validators
            / p.slots_per_epoch + (if slot % p.slots_per_epoch < p.total_validators
            % p.slots_per_epoch {
            1int
        } else {
            0int
        }),
        p.total_validators / p.slots_per_epoch <= duty_holders(p, MsgType::Attestation, slot).len()
            <= p.total_validators / p.slots_per_epoch + 1,
{
    let t = p.total_validators as int;
    let s = p.slots_per_epoch as int;
    let e = epoch_of(p, slot);
    let r = slot as int % s;
    let pred = |x: int| x % s == r;
    lemma_epoch_bounds(p, slot);
    lemma_mod_bound(slot as int, s);
    lemma_rotation_keeps_count(t, e, pred);
    assert forall|v: int| #[trigger]
        duty_holders(p, MsgType::Attestation, slot).contains(v) == picked_after_rotation(
            t,
            e,
            pred,
        ).contains(v) by {
        if 0 <= v < t {
            lemma_shake_is_rotation(p, v as u64, e);
        }
    }
    assert(duty_holders(p, MsgType::Attestation, slot) =~= picked_after_rotation(t, e, pred));
    assert(picked(t, pred) =~= residue_class(t, s, r));
    lemma_residue_class_len(t, s, r);
}

/// The aggregators of a slot number `target_aggregators *
/// attestation_subnets`.
pub proof fn lemma_aggregators_total(p: NetworkParams, slot: u64)
    requires
        p.valid(),
        shake_rotates(p, epoch_of(p, slot)),
    ensures
        duty_holders(p, MsgType::AggregateAndProofAttestation, slot).finite(),
        duty_holders(p, MsgType::AggregateAndProofAttestation, slot).len() == p.target_aggregators
            * p.attestation_subnets,
{
    let t = p.total_validators as int;
    let a = p.attestation_subnets as int;
    let g = p.target_aggregators as int;
    let e = epoch_of(p, slot);
    let pred = |x: int| x / a < g;
    lemma_epoch_bounds(p, slot);
    lemma_rotation_keeps_count(t, e, pred);
    assert forall|v: int| #[trigger]
        duty_holders(p, MsgType::AggregateAndProofAttestation, slot).contains(v)
            == picked_after_rotation(t, e, pred).contains(v) by {
        if 0 <= v < t {
            lemma_shake_is_rotation(p, v as u64, e);
        }
    }
    assert(duty_holders(p, MsgType::AggregateAndProofAttestation, slot) =~= picked_after_rotation(
        t,
        e,
        pred,
    ));
    assert(a * g == g * a) by (nonlinear_arith);
    assert(0 <= a * g) by (nonlinear_arith)
        requires
            0 < a,
            0 < g,
    ;
    assert forall|x: int| #[trigger] picked(t, pred).contains(x) == set_int_range(
        0,
        a * g,
    ).contains(x) by {
        if 0 <= x {
            lemma_quotient_below(x, a, g);
        }
    }
    assert(picked(t, pred) =~= set_int_range(0, a * g));
    lemma_int_range(0, a * g);
}

/// Within a sync-committee period, membership of the sync committee and
/// the members' subnets stay as they are.
pub proof fn lemma_sync_membership_stable(p: NetworkParams, slot: u64, other: u64)
    requires
        period_of(p, slot) == period_of(p, other),
    ensures
        forall|id: u64| #[trigger]
            duty(p, MsgType::SyncCommitteeMessage, slot, id) == duty(
                p,
                MsgType::SyncCommitteeMessage,
                other,
                id,
            ),
        forall|subnet: u64| #[trigger]
            subnet_holders(p, MsgType::SyncCommitteeMessage, slot, subnet) == subnet_holders(
                p,
                MsgType::SyncCommitteeMessage,
                other,
                subnet,
            ),
        duty_holders(p, MsgType::SyncCommitteeMessage, slot) == duty_holders(
            p,
            MsgType::SyncCommitteeMessage,
            other,
        ),
{
    assert forall|id: u64| #[trigger]
        duty(p, MsgType::SyncCommitteeMessage, slot, id) == duty(
            p,
            MsgType::SyncCommitteeMessage,
            other,
            id,
        ) by {
        assert(sync_position(p, slot, id) == sync_position(p, other, id));
    }
    assert forall|subnet: u64| #[trigger]
        subnet_holders(p, MsgType::SyncCommitteeMessage, slot, subnet) == subnet_holders(
            p,
            MsgType::SyncCommitteeMessage,
            other,
            subnet,
        ) by {
        assert(subnet_holders(p, MsgType::SyncCommitteeMessage, slot, subnet) =~= subnet_holders(
            p,
            MsgType::SyncCommitteeMessage,
            other,
            subnet,
        ));
    }
    assert(duty_holders(p, MsgType::SyncCommitteeMessage, slot) =~= duty_holders(
        p,
        MsgType::SyncCommitteeMessage,
        other,
    ));
}

/// Every sync subnet holds `sync_subnet_size` members.
pub proof fn lemma_sync_subnet_members(p: NetworkParams, slot: u64, subnet: u64)
    requires
        p.valid(),
        subnet < p.sync_committee_subnets,
        shake_rotates(p, period_of(p, slot)),
    ensures
        subnet_holders(p, MsgType::SyncCommitteeMessage, slot, subnet).finite(),
        subnet_holders(p, MsgType::SyncCommitteeMessage, slot, subnet).len() == p.sync_subnet_size,
{
    let t = p.total_validators as int;
    let c = p.sync_committee_subnets as int;
    let z = p.sync_subnet_size as int;
    let size = p.sync_committee_size();
    let round = period_of(p, slot);
    let pred = |x: int| x < size && x % c == subnet;
    lemma_epoch_bounds(p, slot);
    lemma_rotation_keeps_count(t, round, pred);
    assert forall|v: int| #[trigger]
        subnet_holders(p, MsgType::SyncCommitteeMessage, slot, subnet).contains(v)
            == picked_after_rotation(t, round, pred).contains(v) by {
        if 0 <= v < t {
            lemma_shake_is_rotation(p, v as u64, round);
            lemma_mod_bound((v + round) % t, c);
        }
    }
    assert(subnet_holders(p, MsgType::SyncCommitteeMessage, slot, subnet)
        =~= picked_after_rotation(t, round, pred));
    assert(picked(t, pred) =~= residue_class(size, c, subnet as int));
    assert(0 <= size) by (nonlinear_arith)
        requires
            size == z * c,
            0 < z,
            0 < c,
    ;
    lemma_residue_class_len(size, c, subnet as int);
    assert(size == c * z + 0) by (nonlinear_arith)
        requires
            size == z * c,
    ;
    lemma_div_mod_of_parts(c, z, 0);
}

/// The places inside a sync subnet whose turn it is to aggregate in `slot`.
pub open spec fn has_turn(p: NetworkParams, slot: u64, index: int) -> bool {
    (index + slot) % (p.sync_committee_subnets as int) < p.target_aggregators
}

/// The places inside a sync subnet that aggregate in `slot`.
pub open spec fn turn_indices(p: NetworkParams, slot: u64) -> Set<int> {
    Set::new(|i: int| 0 <= i < p.sync_subnet_size && has_turn(p, slot, i))
}

/// A sync subnet has as many aggregators in a slot as it has places whose
/// turn it is.
pub proof fn lemma_sync_aggregators_by_index(p: NetworkParams, slot: u64, subnet: u64)
    requires
        p.valid(),
        subnet < p.sync_committee_subnets,
        shake_rotates(p, period_of(p, slot)),
    ensures
        subnet_holders(p, MsgType::SignedContributionAndProof, slot, subnet).finite(),
        turn_indices(p, slot).finite(),
        subnet_holders(p, MsgType::SignedContributionAndProof, slot, subnet).len() == turn_indices(
            p,
            slot,
        ).len(),
{
    let t = p.total_validators as int;
    let c = p.sync_committee_subnets as int;
    let z = p.sync_subnet_size as int;
    let g = p.target_aggregators as int;
    let sn = subnet as int;
    let size = p.sync_committee_size();
    let round = period_of(p, slot);
    let pred = |x: int| x < size && x % c == sn && (x / c + slot) % c < g;
    let holders = subnet_holders(p, MsgType::SignedContributionAndProof, slot, subnet);
    lemma_epoch_bounds(p, slot);
    lemma_rotation_keeps_count(t, round, pred);
    assert forall|v: int| #[trigger]
        holders.contains(v) == picked_after_rotation(t, round, pred).contains(v) by {
        if 0 <= v < t {
            lemma_shake_is_rotation(p, v as u64, round);
            lemma_mod_bound((v + round) % t, c);
        }
    }
    assert(holders =~= picked_after_rotation(t, round, pred));
    let from = turn_indices(p, slot);
    let to = picked(t, pred);
    let place = |i: int| c * i + sn;
    lemma_int_range(0, z);
    assert(from.subset_of(set_int_range(0, z)));
    vstd::set_lib::lemma_len_subset(from, set_int_range(0, z));
    assert forall|i1: int, i2: int|
        from.contains(i1) && from.contains(i2) && #[trigger] place(i1) == #[trigger] place(
            i2,
        ) implies i1 == i2 by {
        assert(i1 == i2) by (nonlinear_arith)
            requires
                c * i1 + sn == c * i2 + sn,
                0 < c,
        ;
    }
    assert(vstd::relations::injective_on(place, from));
    assert forall|x: int| #[trigger] from.map(place).contains(x) implies to.contains(x) by {
        let i = choose|i: int| from.contains(i) && x == place(i);
        lemma_div_mod_of_parts(c, i, sn);
        assert(0 <= c * i + sn < z * c) by (nonlinear_arith)
            requires
                0 <= i < z,
                0 <= sn < c,
        ;
    }
    assert forall|x: int| to.contains(x) implies #[trigger] from.map(place).contains(x) by {
        let i = x / c;
        lemma_fundamental_div_mod(x, c);
        lemma_quotient_bounds(x, c);
        assert(c * z == z * c) by (nonlinear_arith);
        lemma_quotient_below(x, c, z);
        assert(from.contains(i) && x == place(i));
    }
    assert(from.map(place) =~= to);
    vstd::set_lib::lemma_map_size(from, to, place);
}

/// The parameter sets on which every sync subnet has `target_aggregators`
/// aggregators in every slot: the turn goes round once over the places of
/// a subnet and the target fits in, or every place has a turn and the places
/// are as many as the target.
pub open spec fn sync_aggregators_exact(p: NetworkParams) -> bool {
    ||| p.sync_subnet_size == p.sync_committee_subnets && p.target_aggregators
        <= p.sync_committee_subnets
    ||| p.target_aggregators >= p.sync_committee_subnets && p.sync_subnet_size
        == p.target_aggregators
}

/// On such parameter sets every sync subnet has `target_aggregators`
/// aggregators, in every slot.
pub proof fn lemma_sync_aggregators_per_subnet(p: NetworkParams, slot: u64, subnet: u64)
    requires
        p.valid(),
        subnet < p.sync_committee_subnets,
        shake_rotates(p, period_of(p, slot)),
        sync_aggregators_exact(p),
    ensures
        subnet_holders(p, MsgType::SignedContributionAndProof, slot, subnet).finite(),
        subnet_holders(p, MsgType::SignedContributionAndProof, slot, subnet).len()
            == p.target_aggregators,
{
    let c = p.sync_committee_subnets as int;
    let z = p.sync_subnet_size as int;
    let g = p.target_aggregators as int;
    lemma_sync_aggregators_by_index(p, slot, subnet);
    if g >= c {
        assert forall|i: int| #[trigger]
            turn_indices(p, slot).contains(i) == set_int_range(0, z).contains(i) by {
            lemma_mod_bound(i + slot, c);
        }
        assert(turn_indices(p, slot) =~= set_int_range(0, z));
        lemma_int_range(0, z);
    } else {
        let pred = |x: int| x < g;
        lemma_rotation_keeps_count(c, slot as int, pred);
        assert(turn_indices(p, slot) =~= picked_after_rotation(c, slot as int, pred));
        assert(picked(c, pred) =~= set_int_range(0, g));
        lemma_int_range(0, g);
    }
}

/// Number of aggregator places that the epoch of `slot` moves past the end
/// of the range of ids, so that their holders start again from 0.
pub open spec fn places_moved_past_end(p: NetworkParams, slot: u64) -> int {
    let moved = epoch_of(p, slot) % (p.total_validators as int);
    if moved < p.target_aggregators * p.attestation_subnets {
        moved
    } else {
        p.target_aggregators * p.attestation_subnets
    }
}

/// Slots in which the aggregators spread evenly over the subnets although
/// a subnet is taken from the id before it is brought back into range:
/// the subnets divide the network evenly, or no id wraps around and the
/// places that the epoch moves past the end of the range fill whole rounds
/// of the subnets.
pub open spec fn aggregate_subnets_even(p: NetworkParams, slot: u64) -> bool {
    let e = epoch_of(p, slot);
    let t = p.total_validators as int;
    let a = p.attestation_subnets as int;
    &&& shake_rotates(p, e)
    &&& {
        ||| t % a == 0
        ||| e + t <= 0x1_0000_0000_0000_0000 && places_moved_past_end(p, slot) % a == 0
    }
}

/// Where the subnets divide the network evenly, an aggregator's subnet is
/// the remainder of its place.
proof fn lemma_aggregators_per_subnet_divided(p: NetworkParams, slot: u64, subnet: u64)
    requires
        p.valid(),
        subnet < p.attestation_subnets,
        shake_rotates(p, epoch_of(p, slot)),
        p.total_validators as int % p.attestation_subnets as int == 0,
    ensures
        subnet_holders(p, MsgType::AggregateAndProofAttestation, slot, subnet).finite(),
        subnet_holders(p, MsgType::AggregateAndProofAttestation, slot, subnet).len()
            == p.target_aggregators,
{
    let e = epoch_of(p, slot);
    let t = p.total_validators as int;
    let a = p.attestation_subnets as int;
    let g = p.target_aggregators as int;
    let sn = subnet as int;
    let pred = |x: int| x / a < g && x % a == sn;
    let holders = subnet_holders(p, MsgType::AggregateAndProofAttestation, slot, subnet);
    lemma_epoch_bounds(p, slot);
    lemma_rotation_keeps_count(t, e, pred);
    lemma_fundamental_div_mod(t, a);
    let b = t / a;
    assert(b > 0 && a * b == t) by (nonlinear_arith)
        requires
            t == a * b + 0,
            t > 0,
            a > 0,
    ;
    assert forall|v: int| #[trigger]
        holders.contains(v) == picked_after_rotation(t, e, pred).contains(v) by {
        if 0 <= v < t {
            lemma_shake_is_rotation(p, v as u64, e);
            lemma_mod_mod(wrapped_sum(v as u64, e), a, b);
            lemma_mod_bound(wrapped_sum(v as u64, e), a);
        }
    }
    assert(holders =~= picked_after_rotation(t, e, pred));
    assert(a * g == g * a) by (nonlinear_arith);
    assert(0 <= a * g) by (nonlinear_arith)
        requires
            0 < a,
            0 < g,
    ;
    assert forall|x: int| #[trigger]
        picked(t, pred).contains(x) == residue_class(a * g, a, sn).contains(x) by {
        if 0 <= x {
            lemma_quotient_below(x, a, g);
        }
    }
    assert(picked(t, pred) =~= residue_class(a * g, a, sn));
    lemma_residue_class_len(a * g, a, sn);
    lemma_div_mod_of_parts(a, g, 0);
}

/// The remainder that an aggregator's place leaves modulo the number of
/// subnets when the aggregator is on `subnet`, where no id wraps around:
/// one remainder for the places that the epoch moved past the end of the
/// range of ids, another for the rest.
pub open spec fn place_remainder(p: NetworkParams, slot: u64, subnet: u64, past_end: bool) -> int {
    let e = epoch_of(p, slot);
    let t = p.total_validators as int;
    let shift = if past_end {
        e - e % t + t
    } else {
        e - e % t
    };
    (subnet - shift) % (p.attestation_subnets as int)
}

/// Where no id wraps around, a subnet has `target_aggregators` aggregators,
/// one more where the places moved past the end of the range end in a
/// round that reaches the subnet, and one less where the places that stayed
/// begin in a round that has passed it.
pub proof fn lemma_aggregators_per_subnet_unwrapped(p: NetworkParams, slot: u64, subnet: u64)
    requires
        p.valid(),
        subnet < p.attestation_subnets,
        epoch_of(p, slot) + p.total_validators <= 0x1_0000_0000_0000_0000,
    ensures
        subnet_holders(p, MsgType::AggregateAndProofAttestation, slot, subnet).finite(),
        subnet_holders(p, MsgType::AggregateAndProofAttestation, slot, subnet).len()
            == p.target_aggregators + (if place_remainder(p, slot, subnet, true)
            < places_moved_past_end(p, slot) % (p.attestation_subnets as int) {
            1int
        } else {
            0int
        }) - (if place_remainder(p, slot, subnet, false) < places_moved_past_end(p, slot) % (
        p.attestation_subnets as int) {
            1int
        } else {
            0int
        }),
{
    let width = 0x1_0000_0000_0000_0000int;
    let e = epoch_of(p, slot);
    let t = p.total_validators as int;
    let a = p.attestation_subnets as int;
    let g = p.target_aggregators as int;
    let sn = subnet as int;
    let m = e / t;
    let c = e % t;
    let n = places_moved_past_end(p, slot);
    let k0 = e - c;
    let k1 = e - c + t;
    let pred = |x: int|
        x / a < g && if x < c {
            (x + k1) % a == sn
        } else {
            (x + k0) % a == sn
        };
    let holders = subnet_holders(p, MsgType::AggregateAndProofAttestation, slot, subnet);
    lemma_epoch_bounds(p, slot);
    lemma_fundamental_div_mod(e, t);
    lemma_mod_bound(e, t);
    lemma_rotation_keeps_count(t, e, pred);
    assert forall|v: int| #[trigger]
        holders.contains(v) == picked_after_rotation(t, e, pred).contains(v) by {
        if 0 <= v < t {
            lemma_shake_is_rotation(p, v as u64, e);
            lemma_small_mod((v + e) as nat, width as nat);
            lemma_mod_bound(v + e, a);
            vstd::arithmetic::div_mod::lemma_mod_multiples_vanish(m, v + c, t);
            assert(t * m + (v + c) == v + e);
            if v + c < t {
                lemma_small_mod((v + c) as nat, t as nat);
            } else {
                lemma_div_mod_of_parts(t, 1, v + c - t);
                assert(t * 1 + (v + c - t) == v + c);
            }
        }
    }
    assert(holders =~= picked_after_rotation(t, e, pred));
    let r0 = place_remainder(p, slot, subnet, false);
    let r1 = place_remainder(p, slot, subnet, true);
    lemma_mod_bound(sn - k0, a);
    lemma_mod_bound(sn - k1, a);
    assert(a * g == g * a) by (nonlinear_arith);
    assert(0 <= a * g) by (nonlinear_arith)
        requires
            0 < a,
            0 < g,
    ;
    let early = residue_class(n, a, r1);
    let late = crate::counting::residue_span(n, a * g, a, r0);
    assert forall|x: int| #[trigger] picked(t, pred).contains(x) == (early + late).contains(x) by {
        if 0 <= x {
            lemma_quotient_below(x, a, g);
            crate::arith::lemma_shifted_remainder(x, k0, a, sn);
            crate::arith::lemma_shifted_remainder(x, k1, a, sn);
        }
    }
    assert(picked(t, pred) =~= early + late);
    lemma_residue_class_len(n, a, r1);
    lemma_residue_class_len(n, a, r0);
    lemma_residue_class_len(a * g, a, r0);
    crate::counting::lemma_residue_span_len(n, a * g, a, r0);
    lemma_div_mod_of_parts(a, g, 0);
    assert(early.disjoint(late));
    vstd::set_lib::lemma_set_disjoint_lens(early, late);
}

/// In such a slot every attestation subnet has `target_aggregators`
/// aggregators.
pub proof fn lemma_aggregators_per_subnet(p: NetworkParams, slot: u64, subnet: u64)
    requires
        p.valid(),
        subnet < p.attestation_subnets,
        aggregate_subnets_even(p, slot),
    ensures
        subnet_holders(p, MsgType::AggregateAndProofAttestation, slot, subnet).finite(),
        subnet_holders(p, MsgType::AggregateAndProofAttestation, slot, subnet).len()
            == p.target_aggregators,
{
    if p.total_validators as int % p.attestation_subnets as int == 0 {
        lemma_aggregators_per_subnet_divided(p, slot, subnet);
    } else {
        lemma_aggregators_per_subnet_unwrapped(p, slot, subnet);
    }
}

/// The assignments are a function of the parameter set, the kind, the slot
/// and the validators alone: asked twice, an engine answers the same, and
/// two engines on one parameter set agree.
pub proof fn lemma_same_inputs_same_assignments(
    first: crate::slot_generator::SlotGenerator,
    second: crate::slot_generator::SlotGenerator,
    kind: MsgType,
    slot: u64,
    validators: Seq<ValId>,
    first_blocks: Option<ValId>,
    second_blocks: Option<ValId>,
    first_out: Seq<(ValId, Subnet)>,
    second_out: Seq<(ValId, Subnet)>,
)
    requires
        first.params() == second.params(),
        first_blocks == block_proposal(first.params(), slot, validators),
        second_blocks == block_proposal(second.params(), slot, validators),
        first_out == assignments(first.params(), kind, slot, validators),
        second_out == assignments(second.params(), kind, slot, validators),
    ensures
        first_blocks == second_blocks,
        first_out == second_out,
{
}

/// The assignments among validators held one after the other are the
/// assignments among the first, then those among the second.
pub proof fn lemma_assignments_concat(
    p: NetworkParams,
    kind: MsgType,
    slot: u64,
    first: Seq<ValId>,
    second: Seq<ValId>,
)
    ensures
        assignments(p, kind, slot, first + second) == assignments(p, kind, slot, first)
            + assignments(p, kind, slot, second),
    decreases second.len(),
{
    if second.len() == 0 {
        assert(first + second =~= first);
        assert(assignments(p, kind, slot, first) + assignments(p, kind, slot, second)
            =~= assignments(p, kind, slot, first));
    } else {
        lemma_assignments_concat(p, kind, slot, first, second.drop_last());
        assert((first + second).drop_last() =~= first + second.drop_last());
        assert((first + second).last() == second.last());
        let before = assignments(p, kind, slot, first) + assignments(
            p,
            kind,
            slot,
            second.drop_last(),
        );
        match duty(p, kind, slot, second.last().0) {
            Some(subnet) => {
                assert(before.push((second.last(), subnet)) =~= assignments(p, kind, slot, first)
                    + assignments(p, kind, slot, second.drop_last()).push(
                    (second.last(), subnet),
                ));
            },
            None => {},
        }
    }
}

/// The validators of all `parts`, one part after the other.
pub open spec fn joined(parts: Seq<Seq<ValId>>) -> Seq<ValId>
    decreases parts.len(),
{
    if parts.len() == 0 {
        Seq::empty()
    } else {
        joined(parts.drop_last()) + parts.last()
    }
}

/// The assignments that engines holding the `parts` hand out, one engine
/// after the other.
pub open spec fn joined_assignments(
    p: NetworkParams,
    kind: MsgType,
    slot: u64,
    parts: Seq<Seq<ValId>>,
) -> Seq<(ValId, Subnet)>
    decreases parts.len(),
{
    if parts.len() == 0 {
        Seq::empty()
    } else {
        joined_assignments(p, kind, slot, parts.drop_last()) + assignments(
            p,
            kind,
            slot,
            parts.last(),
        )
    }
}

/// Engines that hold the parts of a validator set hand out, taken
/// together, what one engine holding the whole set hands out.
pub proof fn lemma_parts_give_the_whole(
    p: NetworkParams,
    kind: MsgType,
    slot: u64,
    parts: Seq<Seq<ValId>>,
)
    ensures
        joined_assignments(p, kind, slot, parts) == assignments(p, kind, slot, joined(parts)),
    decreases parts.len(),
{
    if parts.len() > 0 {
        lemma_parts_give_the_whole(p, kind, slot, parts.drop_last());
        lemma_assignments_concat(p, kind, slot, joined(parts.drop_last()), parts.last());
    }
}

/// A pair is among the assignments exactly when the validator is held and
/// has that duty: the order in which validators are held decides the
/// order of the assignments and nothing else.
pub proof fn lemma_assignments_contain(
    p: NetworkParams,
    kind: MsgType,
    slot: u64,
    validators: Seq<ValId>,
    pair: (ValId, Subnet),
)
    ensures
        assignments(p, kind, slot, validators).contains(pair) <==> validators.contains(pair.0)
            && duty(p, kind, slot, pair.0.0) == Some(pair.1),
    decreases validators.len(),
{
    if validators.len() > 0 {
        let init = validators.drop_last();
        let last = validators.last();
        let before = assignments(p, kind, slot, init);
        lemma_assignments_contain(p, kind, slot, init, pair);
        assert(validators =~= init.push(last));
        assert(validators.contains(pair.0) <==> init.contains(pair.0) || pair.0 == last) by {
            if validators.contains(pair.0) {
                let i = choose|i: int| 0 <= i < validators.len() && validators[i] == pair.0;
                if i < init.len() {
                    assert(init[i] == pair.0);
                }
            }
            if init.contains(pair.0) {
                let i = choose|i: int| 0 <= i < init.len() && init[i] == pair.0;
                assert(validators[i] == pair.0);
            }
            if pair.0 == last {
                assert(validators[validators.len() - 1] == pair.0);
            }
        }
        match duty(p, kind, slot, last.0) {
            Some(subnet) => {
                let after = before.push((last, subnet));
                assert(after.contains(pair) <==> before.contains(pair) || pair == (last, subnet))
                    by {
                    if after.contains(pair) {
                        let i = choose|i: int| 0 <= i < after.len() && after[i] == pair;
                        if i < before.len() {
                            assert(before[i] == pair);
                        }
                    }
                    if before.contains(pair) {
                        let i = choose|i: int| 0 <= i < before.len() && before[i] == pair;
                        assert(after[i] == pair);
                    }
                    if pair == (last, subnet) {
                        assert(after[after.len() - 1] == pair);
                    }
                }
            },
            None => {},
        }
    }
}

/// However a validator set is split among engines, a pair is handed out by
/// the engine that holds the whole set exactly when one of the engines that
/// hold the parts hands it out.
pub proof fn lemma_union_of_parts(
    p: NetworkParams,
    kind: MsgType,
    slot: u64,
    whole: Seq<ValId>,
    parts: Seq<Seq<ValId>>,
)
    requires
        forall|v: ValId| #[trigger]
            whole.contains(v) <==> exists|i: int|
                0 <= i < parts.len() && (#[trigger] parts[i]).contains(v),
    ensures
        forall|pair: (ValId, Subnet)| #[trigger]
            assignments(p, kind, slot, whole).contains(pair) <==> exists|i: int|
                0 <= i < parts.len() && #[trigger] assignments(p, kind, slot, parts[i]).contains(
                    pair,
                ),
        block_proposal(p, slot, whole) is Some <==> exists|i: int|
            0 <= i < parts.len() && #[trigger] block_proposal(p, slot, parts[i]) is Some,
        forall|i: int|
            0 <= i < parts.len() && #[trigger] block_proposal(p, slot, parts[i]) is Some
                ==> block_proposal(p, slot, parts[i]) == block_proposal(p, slot, whole),
{
    assert forall|pair: (ValId, Subnet)| #[trigger]
        assignments(p, kind, slot, whole).contains(pair) <==> exists|i: int|
            0 <= i < parts.len() && #[trigger] assignments(p, kind, slot, parts[i]).contains(
                pair,
            ) by {
        lemma_assignments_contain(p, kind, slot, whole, pair);
        if assignments(p, kind, slot, whole).contains(pair) {
            assert(whole.contains(pair.0));
            let i = choose|i: int| 0 <= i < parts.len() && (#[trigger] parts[i]).contains(pair.0);
            lemma_assignments_contain(p, kind, slot, parts[i], pair);
            assert(assignments(p, kind, slot, parts[i]).contains(pair));
        }
        if exists|i: int|
            0 <= i < parts.len() && #[trigger] assignments(p, kind, slot, parts[i]).contains(
                pair,
            ) {
            let i = choose|i: int|
                0 <= i < parts.len() && #[trigger] assignments(p, kind, slot, parts[i]).contains(
                    pair,
                );
            lemma_assignments_contain(p, kind, slot, parts[i], pair);
            assert(parts[i].contains(pair.0));
            assert(whole.contains(pair.0));
        }
    }
    let chosen = ValId(proposer(p, slot) as u64);
    if block_proposal(p, slot, whole) is Some {
        assert(whole.contains(chosen));
        let i = choose|i: int| 0 <= i < parts.len() && (#[trigger] parts[i]).contains(chosen);
        assert(block_proposal(p, slot, parts[i]) is Some);
    }
    assert forall|i: int|
        0 <= i < parts.len() && #[trigger] block_proposal(p, slot, parts[i]) is Some implies
        block_proposal(p, slot, parts[i]) == block_proposal(p, slot, whole) by {
        assert(parts[i].contains(chosen));
        assert(whole.contains(chosen));
    }
}

/// The ids among `validators` that hold a duty of kind `kind` in `slot`.
pub open spec fn held_with_duty(
    p: NetworkParams,
    kind: MsgType,
    slot: u64,
    validators: Seq<ValId>,
) -> Set<int> {
    Set::new(
        |v: int|
            0 <= v <= u64::MAX && validators.contains(ValId(v as u64)) && duty(
                p,
                kind,
                slot,
                v as u64,
            ) is Some,
    )
}

/// Where no validator is held twice, the assignments are as many as the
/// validators held that have the duty.
pub proof fn lemma_assignments_count(
    p: NetworkParams,
    kind: MsgType,
    slot: u64,
    validators: Seq<ValId>,
)
    requires
        validators.no_duplicates(),
    ensures
        held_with_duty(p, kind, slot, validators).finite(),
        assignments(p, kind, slot, validators).len() == held_with_duty(
            p,
            kind,
            slot,
            validators,
        ).len(),
    decreases validators.len(),
{
    if validators.len() == 0 {
        assert(held_with_duty(p, kind, slot, validators) =~= Set::<int>::empty());
    } else {
        let init = validators.drop_last();
        let last = validators.last();
        lemma_assignments_count(p, kind, slot, init);
        assert(validators =~= init.push(last));
        assert(!init.contains(last)) by {
            if init.contains(last) {
                let i = choose|i: int| 0 <= i < init.len() && init[i] == last;
                assert(validators[i] == validators[validators.len() - 1]);
            }
        }
        assert forall|v: ValId| #[trigger]
            validators.contains(v) <==> init.contains(v) || v == last by {
            if validators.contains(v) {
                let i = choose|i: int| 0 <= i < validators.len() && validators[i] == v;
                if i < init.len() {
                    assert(init[i] == v);
                }
            }
            if init.contains(v) {
                let i = choose|i: int| 0 <= i < init.len() && init[i] == v;
                assert(validators[i] == v);
            }
            if v == last {
                assert(validators[validators.len() - 1] == v);
            }
        }
        let held = held_with_duty(p, kind, slot, validators);
        let held_before = held_with_duty(p, kind, slot, init);
        if duty(p, kind, slot, last.0) is Some {
            assert forall|v: int| #[trigger]
                held.contains(v) == held_before.insert(last.0 as int).contains(v) by {
                if 0 <= v <= u64::MAX {
                    assert(validators.contains(ValId(v as u64)) <==> init.contains(
                        ValId(v as u64),
                    ) || ValId(v as u64) == last);
                }
            }
            assert(held =~= held_before.insert(last.0 as int));
            assert(!held_before.contains(last.0 as int));
        } else {
            assert forall|v: int| #[trigger] held.contains(v) == held_before.contains(v) by {
                if 0 <= v <= u64::MAX {
                    assert(validators.contains(ValId(v as u64)) <==> init.contains(
                        ValId(v as u64),
                    ) || ValId(v as u64) == last);
                }
            }
            assert(held =~= held_before);
        }
    }
}

/// An engine that holds every validator of the network once hands out as
/// many assignments as the network has holders of the duty.
pub proof fn lemma_whole_network_count(
    p: NetworkParams,
    kind: MsgType,
    slot: u64,
    validators: Seq<ValId>,
)
    requires
        validators.no_duplicates(),
        forall|v: u64| #[trigger] validators.contains(ValId(v)) <==> v < p.total_validators,
    ensures
        duty_holders(p, kind, slot).finite(),
        assignments(p, kind, slot, validators).len() == duty_holders(p, kind, slot).len(),
{
    lemma_assignments_count(p, kind, slot, validators);
    assert forall|v: int| #[trigger]
        held_with_duty(p, kind, slot, validators).contains(v) == duty_holders(
            p,
            kind,
            slot,
        ).contains(v) by {
        if 0 <= v <= u64::MAX {
            assert(validators.contains(ValId(v as u64)) <==> (v as u64) < p.total_validators);
        }
    }
    assert(held_with_duty(p, kind, slot, validators) =~= duty_holders(p, kind, slot));
}

/// An engine that holds the whole network, the ids from 0 up to
/// `total_validators`, hands out as many assignments as the network has
/// holders of the duty.
pub proof fn lemma_whole_range_count(p: NetworkParams, kind: MsgType, slot: u64)
    ensures
        crate::validators::ascending(crate::validators::range_ids(0, p.total_validators)),
        duty_holders(p, kind, slot).finite(),
        assignments(p, kind, slot, crate::validators::range_ids(0, p.total_validators)).len()
            == duty_holders(p, kind, slot).len(),
{
    let whole = crate::validators::range_ids(0, p.total_validators);
    crate::validators::lemma_ascending_no_duplicates(whole);
    assert forall|v: u64| #[trigger] whole.contains(ValId(v)) <==> v < p.total_validators by {
        if v < p.total_validators {
            assert(whole[v as int] == ValId(v));
        }
    }
    lemma_whole_network_count(p, kind, slot, whole);
}

} // verus!
