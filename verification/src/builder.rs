//! Collecting the settings of a network and checking them once.
use vstd::prelude::*;
use crate::generator::Generator;
use crate::params::{first_violation, BuildError, GeneratorParams, NetworkParams};
use crate::slot_generator::ValId;
use crate::validators::ValidatorSet;

verus! {

/// Length of a slot, in seconds, where none is set.
pub const DEFAULT_SLOT_DURATION_SECONDS: u64 = 12;

/// Number of attestation subnets where none is set.
pub const DEFAULT_ATTESTATION_SUBNETS: u64 = 64;

/// Number of aggregators per subnet where none is set.
pub const DEFAULT_TARGET_AGGREGATORS: u64 = 16;

/// Number of validators in each sync subnet where none is set.
pub const DEFAULT_SYNC_COMMITTEE_SIZE: u64 = 512;

/// Number of sync subnets where none is set.
pub const DEFAULT_SYNC_COMMITTEE_SUBNETS: u64 = 4;

/// Length of an epoch, in slots, where none is set.
pub const DEFAULT_SLOTS_PER_EPOCH: u64 = 32;

/// Nanoseconds in a second.
pub const NANOS_PER_SECOND: u128 = 1_000_000_000;

/// Every id in `validators` is below `total`.
pub open spec fn ids_in_range(validators: Seq<ValId>, total: u64) -> bool {
    forall|i: int| 0 <= i < validators.len() ==> (#[trigger] validators[i]).0 < total
}

/// Whether every id in `validators` is below `total`.
pub fn all_ids_in_range(held: &ValidatorSet, total: u64) -> (ok: bool)
    ensures
        ok == ids_in_range(held@, total),
{
    let validators = held.ids();
    let mut i: usize = 0;
    while i < validators.len()
        invariant
            i <= validators.len(),
            validators@ == held@,
            forall|j: int| 0 <= j < i ==> (#[trigger] validators@[j]).0 < total,
        decreases validators.len() - i,
    {
        if total <= validators[i].0 {
            return false;
        }
        i += 1;
    }
    true
}

/// Where the slot clock starts and how long a slot lasts, in nanoseconds.
#[derive(Debug, Clone, Copy, PartialEq, Eq, Structural, Hash)]
pub struct ClockSettings {
    pub genesis_slot: u64,
    pub genesis_nanos: u128,
    pub slot_nanos: u128,
}

/// Settings as they come in, each either given or left to its default.
#[derive(Debug, Clone, Copy)]
pub struct GeneratorBuilder {
    pub slot_clock: Option<ClockSettings>,
    pub attestation_subnets: Option<u64>,
    pub target_aggregators: Option<u64>,
    pub sync_subnet_size: Option<u64>,
    pub sync_committee_subnets: Option<u64>,
    pub slots_per_epoch: Option<u64>,
    pub total_validators: Option<u64>,
}

impl Default for GeneratorBuilder {
    fn default() -> (b: Self)
        ensures
            b == GeneratorBuilder::unset(),
    {
        GeneratorBuilder {
            slot_clock: None,
            attestation_subnets: None,
            target_aggregators: None,
            sync_subnet_size: None,
            sync_committee_subnets: None,
            slots_per_epoch: None,
            total_validators: None,
        }
    }
}

impl GeneratorBuilder {
    /// The builder in which nothing is set.
    pub open spec fn unset() -> Self {
        GeneratorBuilder {
            slot_clock: None,
            attestation_subnets: None,
            target_aggregators: None,
            sync_subnet_size: None,
            sync_committee_subnets: None,
            slots_per_epoch: None,
            total_validators: None,
        }
    }

    /// The parameter set that the settings stand for, defaults filled in,
    /// with `total` for the number of validators.
    pub open spec fn resolved(self, total: u64) -> NetworkParams {
        NetworkParams {
            slots_per_epoch: self.slots_per_epoch.unwrap_or(DEFAULT_SLOTS_PER_EPOCH),
            attestation_subnets: self.attestation_subnets.unwrap_or(DEFAULT_ATTESTATION_SUBNETS),
            sync_subnet_size: self.sync_subnet_size.unwrap_or(DEFAULT_SYNC_COMMITTEE_SIZE),
            sync_committee_subnets: self.sync_committee_subnets.unwrap_or(
                DEFAULT_SYNC_COMMITTEE_SUBNETS,
            ),
            target_aggregators: self.target_aggregators.unwrap_or(DEFAULT_TARGET_AGGREGATORS),
            total_validators: total,
        }
    }

    /// The clock that the settings stand for: by default slot 0 at time 0
    /// and slots of twelve seconds.
    pub open spec fn resolved_clock(self) -> ClockSettings {
        match self.slot_clock {
            Some(c) => c,
            None => ClockSettings {
                genesis_slot: 0,
                genesis_nanos: 0,
                slot_nanos: 12_000_000_000,
            },
        }
    }

    /// What `build_params` answers.
    pub open spec fn params_outcome(self) -> Result<NetworkParams, BuildError> {
        match self.total_validators {
            None => Err(BuildError::TotalValidatorsNotSet),
            Some(total) => match first_violation(self.resolved(total)) {
                Some(e) => Err(e),
                None => Ok(self.resolved(total)),
            },
        }
    }

    /// The failure with which `build` turns `validators` down, if it does.
    pub open spec fn build_failure(self, validators: Seq<ValId>) -> Option<BuildError> {
        match self.total_validators {
            None => Some(BuildError::TotalValidatorsNotSet),
            Some(total) => if !ids_in_range(validators, total) {
                Some(BuildError::ValidatorOutOfRange)
            } else {
                first_violation(self.resolved(total))
            },
        }
    }

    /// Sets where the slot clock starts and how long a slot lasts.
    pub fn slot_clock(&mut self, genesis_slot: u64, genesis_nanos: u128, slot_nanos: u128) -> (ret:
        &mut Self)
        ensures
            *ret == (GeneratorBuilder {
                slot_clock: Some(ClockSettings { genesis_slot, genesis_nanos, slot_nanos }),
                ..*old(self)
            }),
            *final(self) == *final(ret),
    {
        self.slot_clock = Some(ClockSettings { genesis_slot, genesis_nanos, slot_nanos });
        self
    }

    /// Number of attestation subnets to split validators.
    pub fn attestation_subnets(&mut self, attestation_subnets: u64) -> (ret: &mut Self)
        ensures
            *ret == (GeneratorBuilder {
                attestation_subnets: Some(attestation_subnets),
                ..*old(self)
            }),
            *final(self) == *final(ret),
    {
        self.attestation_subnets = Some(attestation_subnets);
        self
    }

    /// Number of validators to designate as aggregators in the sync
    /// committee and attestation subnets.
    pub fn target_aggregators(&mut self, aggregators: u64) -> (ret: &mut Self)
        ensures
            *ret == (GeneratorBuilder { target_aggregators: Some(aggregators), ..*old(self) }),
            *final(self) == *final(ret),
    {
        self.target_aggregators = Some(aggregators);
        self
    }

    /// Number of validators to include in each sync subnet.
    pub fn sync_subnet_size(&mut self, sync_subnet_size: u64) -> (ret: &mut Self)
        ensures
            *ret == (GeneratorBuilder { sync_subnet_size: Some(sync_subnet_size), ..*old(self) }),
            *final(self) == *final(ret),
    {
        self.sync_subnet_size = Some(sync_subnet_size);
        self
    }

    /// Number of subcommittees to split members of the sync committee.
    pub fn sync_committee_subnets(&mut self, sync_committee_subnets: u64) -> (ret: &mut Self)
        ensures
            *ret == (GeneratorBuilder {
                sync_committee_subnets: Some(sync_committee_subnets),
                ..*old(self)
            }),
            *final(self) == *final(ret),
    {
        self.sync_committee_subnets = Some(sync_committee_subnets);
        self
    }

    /// Length of an epoch in slots.
    pub fn slots_per_epoch(&mut self, slots_per_epoch: u64) -> (ret: &mut Self)
        ensures
            *ret == (GeneratorBuilder { slots_per_epoch: Some(slots_per_epoch), ..*old(self) }),
            *final(self) == *final(ret),
    {
        self.slots_per_epoch = Some(slots_per_epoch);
        self
    }

    /// Number of validators in the network.
    pub fn total_validators(&mut self, total_validators: u64) -> (ret: &mut Self)
        ensures
            *ret == (GeneratorBuilder { total_validators: Some(total_validators), ..*old(self) }),
            *final(self) == *final(ret),
    {
        self.total_validators = Some(total_validators);
        self
    }

    /// The clock settings, defaults filled in.
    pub fn clock_settings(&self) -> (c: ClockSettings)
        ensures
            c == self.resolved_clock(),
    {
        match self.slot_clock {
            Some(c) => c,
            None => ClockSettings {
                genesis_slot: 0,
                genesis_nanos: 0,
                slot_nanos: (DEFAULT_SLOT_DURATION_SECONDS as u128) * NANOS_PER_SECOND,
            },
        }
    }

    /// The settings with defaults filled in, for `total` validators.
    pub fn resolve(&self, total: u64) -> (p: NetworkParams)
        ensures
            p == self.resolved(total),
    {
        NetworkParams {
            slots_per_epoch: match self.slots_per_epoch {
                Some(n) => n,
                None => DEFAULT_SLOTS_PER_EPOCH,
            },
            attestation_subnets: match self.attestation_subnets {
                Some(n) => n,
                None => DEFAULT_ATTESTATION_SUBNETS,
            },
            sync_subnet_size: match self.sync_subnet_size {
                Some(n) => n,
                None => DEFAULT_SYNC_COMMITTEE_SIZE,
            },
            sync_committee_subnets: match self.sync_committee_subnets {
                Some(n) => n,
                None => DEFAULT_SYNC_COMMITTEE_SUBNETS,
            },
            target_aggregators: match self.target_aggregators {
                Some(n) => n,
                None => DEFAULT_TARGET_AGGREGATORS,
            },
            total_validators: total,
        }
    }

    /// Checks the settings and hands out the parameter set, or the first
    /// condition that it breaks.
    pub fn build_params(&self) -> (r: Result<GeneratorParams, BuildError>)
        ensures
            (match self.params_outcome() {
                Ok(values) => r is Ok && r->Ok_0@ == values && values.valid(),
                Err(e) => r == Err::<GeneratorParams, BuildError>(e),
            }),
    {
        let total = match self.total_validators {
            Some(total) => total,
            None => {
                return Err(BuildError::TotalValidatorsNotSet);
            },
        };
        GeneratorParams::new(self.resolve(total))
    }

    /// Checks the settings and the validators' ids, and hands out an engine
    /// that holds `validators`, with nothing queued.
    pub fn build(&self, validators: ValidatorSet) -> (r: Result<Generator, BuildError>)
        ensures
            (match self.build_failure(validators@) {
                Some(e) => r == Err::<Generator, BuildError>(e),
                None => {
                    &&& r is Ok
                    &&& r->Ok_0.wf()
                    &&& r->Ok_0.params() == self.resolved(self.total_validators.unwrap())
                    &&& r->Ok_0.validators() == validators@
                    &&& r->Ok_0.queue() == Seq::<crate::messages::Message>::empty()
                    &&& r->Ok_0.tick_index() == 2
                },
            }),
    {
        let total = match self.total_validators {
            Some(total) => total,
            None => {
                return Err(BuildError::TotalValidatorsNotSet);
            },
        };
        if !all_ids_in_range(&validators, total) {
            return Err(BuildError::ValidatorOutOfRange);
        }
        match GeneratorParams::new(self.resolve(total)) {
            Ok(params) => Generator::with_params(params, validators),
            Err(e) => Err(e),
        }
    }
}

} // verus!
