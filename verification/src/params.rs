//! The network-wide constants and the conditions under which they make sense.
use vstd::prelude::*;

verus! {

/// The six constants that every engine of one simulated network shares.
#[derive(Debug, Clone, Copy, PartialEq, Eq, Structural, Hash)]
pub struct NetworkParams {
    /// Length of an epoch in slots.
    pub slots_per_epoch: u64,
    /// Number of attestation subnets over which validators are split.
    pub attestation_subnets: u64,
    /// Number of validators in each sync subnet.
    pub sync_subnet_size: u64,
    /// Number of subnets over which the sync committee is split.
    pub sync_committee_subnets: u64,
    /// Number of aggregators wanted per subnet.
    pub target_aggregators: u64,
    /// Number of validators in the network.
    pub total_validators: u64,
}

impl NetworkParams {
    /// All six values are positive: no division in the engine has a zero divisor.
    pub open spec fn positive(self) -> bool {
        &&& self.slots_per_epoch > 0
        &&& self.attestation_subnets > 0
        &&& self.sync_subnet_size > 0
        &&& self.sync_committee_subnets > 0
        &&& self.target_aggregators > 0
        &&& self.total_validators > 0
    }

    /// Number of seats in the sync committee, all subnets together.
    pub open spec fn sync_committee_size(self) -> int {
        self.sync_subnet_size * self.sync_committee_subnets
    }

    /// What an engine needs in order to run: positive values and a sync
    /// committee whose size is a machine integer.
    pub open spec fn usable(self) -> bool {
        &&& self.positive()
        &&& self.sync_committee_size() <= u64::MAX
    }

    /// The parameter set is consistent: every value is positive and the
    /// network has validators enough for the sync committee and for the
    /// aggregators of both kinds of subnet.
    pub open spec fn valid(self) -> bool {
        &&& self.positive()
        &&& self.sync_subnet_size * self.sync_committee_subnets <= self.total_validators
        &&& self.target_aggregators * self.attestation_subnets <= self.total_validators
        &&& self.target_aggregators * self.sync_committee_subnets <= self.total_validators
    }
}

/// Why a set of settings was turned down.
#[derive(Debug, Clone, Copy, PartialEq, Eq, Structural, Hash)]
pub enum BuildError {
    TotalValidatorsNotSet,
    ValidatorOutOfRange,
    SlotsPerEpochZero,
    TotalValidatorsZero,
    AttestationSubnetsZero,
    SyncCommitteeSubnetsZero,
    SyncSubnetSizeZero,
    TargetAggregatorsZero,
    SyncCommitteeTooLarge,
    SyncCommitteeExceedsValidators,
    AttestationAggregatorsTooLarge,
    AttestationAggregatorsExceedValidators,
    SyncAggregatorsTooLarge,
    SyncAggregatorsExceedValidators,
}

impl BuildError {
    /// The failure in words.
    pub open spec fn message_spec(self) -> Seq<char> {
        match self {
            BuildError::TotalValidatorsNotSet => "total_validators not set"@,
            BuildError::ValidatorOutOfRange => "validator ids must go up to total_validators - 1"@,
            BuildError::SlotsPerEpochZero => "slots_per_epoch should be positive"@,
            BuildError::TotalValidatorsZero => "total_validators must be positive"@,
            BuildError::AttestationSubnetsZero => "attestation_subnets must be positive"@,
            BuildError::SyncCommitteeSubnetsZero => "sync_committee_subnets must be positive"@,
            BuildError::SyncSubnetSizeZero => "sync_subnet_size must be positive"@,
            BuildError::TargetAggregatorsZero => "target_aggregators must be positive"@,
            BuildError::SyncCommitteeTooLarge => "sync committee size is too large"@,
            BuildError::SyncCommitteeExceedsValidators => "not enought validators to reach the sync committees size"@,
            BuildError::AttestationAggregatorsTooLarge => "total attestation aggregators across the network is too large"@,
            BuildError::AttestationAggregatorsExceedValidators => "not enough validators to reach the target aggregators in the attestation subnets"@,
            BuildError::SyncAggregatorsTooLarge => "target sync aggregators across the network is too large"@,
            BuildError::SyncAggregatorsExceedValidators => "not enough validators to reach the target aggregators in the sync committees"@,
        }
    }

    /// The failure in words.
    pub fn message(&self) -> (s: &'static str)
        ensures
            s@ == self.message_spec(),
    {
        match self {
            BuildError::TotalValidatorsNotSet => "total_validators not set",
            BuildError::ValidatorOutOfRange => "validator ids must go up to total_validators - 1",
            BuildError::SlotsPerEpochZero => "slots_per_epoch should be positive",
            BuildError::TotalValidatorsZero => "total_validators must be positive",
            BuildError::AttestationSubnetsZero => "attestation_subnets must be positive",
            BuildError::SyncCommitteeSubnetsZero => "sync_committee_subnets must be positive",
            BuildError::SyncSubnetSizeZero => "sync_subnet_size must be positive",
            BuildError::TargetAggregatorsZero => "target_aggregators must be positive",
            BuildError::SyncCommitteeTooLarge => "sync committee size is too large",
            BuildError::SyncCommitteeExceedsValidators => "not enought validators to reach the sync committees size",
            BuildError::AttestationAggregatorsTooLarge => "total attestation aggregators across the network is too large",
            BuildError::AttestationAggregatorsExceedValidators => "not enough validators to reach the target aggregators in the attestation subnets",
            BuildError::SyncAggregatorsTooLarge => "target sync aggregators across the network is too large",
            BuildError::SyncAggregatorsExceedValidators => "not enough validators to reach the target aggregators in the sync committees",
        }
    }
}

/// The first condition that `p` breaks, in the order in which they are
/// looked at, or `None` where it breaks none.
pub open spec fn first_violation(p: NetworkParams) -> Option<BuildError> {
    if p.slots_per_epoch == 0 {
        Some(BuildError::SlotsPerEpochZero)
    } else if p.total_validators == 0 {
        Some(BuildError::TotalValidatorsZero)
    } else if p.attestation_subnets == 0 {
        Some(BuildError::AttestationSubnetsZero)
    } else if p.sync_committee_subnets == 0 {
        Some(BuildError::SyncCommitteeSubnetsZero)
    } else if p.sync_subnet_size == 0 {
        Some(BuildError::SyncSubnetSizeZero)
    } else if p.target_aggregators == 0 {
        Some(BuildError::TargetAggregatorsZero)
    } else if p.sync_subnet_size * p.sync_committee_subnets > u64::MAX {
        Some(BuildError::SyncCommitteeTooLarge)
    } else if p.sync_subnet_size * p.sync_committee_subnets > p.total_validators {
        Some(BuildError::SyncCommitteeExceedsValidators)
    } else if p.target_aggregators * p.attestation_subnets > u64::MAX {
        Some(BuildError::AttestationAggregatorsTooLarge)
    } else if p.target_aggregators * p.attestation_subnets > p.total_validators {
        Some(BuildError::AttestationAggregatorsExceedValidators)
    } else if p.target_aggregators * p.sync_committee_subnets > u64::MAX {
        Some(BuildError::SyncAggregatorsTooLarge)
    } else if p.target_aggregators * p.sync_committee_subnets > p.total_validators {
        Some(BuildError::SyncAggregatorsExceedValidators)
    } else {
        None
    }
}

/// A parameter set breaks no condition exactly when it is valid.
pub proof fn lemma_no_violation_iff_valid(p: NetworkParams)
    ensures
        first_violation(p) is None <==> p.valid(),
{
}

/// A parameter set that has been checked: it is valid, and stays so.
#[derive(Debug, Clone, Copy)]
pub struct GeneratorParams {
    values: NetworkParams,
}

impl View for GeneratorParams {
    type V = NetworkParams;

    /// The six values.
    closed spec fn view(&self) -> NetworkParams {
        self.values
    }
}

impl GeneratorParams {
    /// What holds of every checked parameter set.
    #[verifier::type_invariant]
    pub open spec fn checked(&self) -> bool {
        self@.valid()
    }

    /// Checks `values` and hands them out as a parameter set, or says which
    /// condition they break first.
    pub fn new(values: NetworkParams) -> (r: Result<GeneratorParams, BuildError>)
        ensures
            (match first_violation(values) {
                Some(e) => r == Err::<GeneratorParams, BuildError>(e),
                None => r is Ok && r->Ok_0@ == values,
            }),
            r is Ok <==> values.valid(),
    {
        let p = &values;
        if p.slots_per_epoch == 0 {
            return Err(BuildError::SlotsPerEpochZero);
        }
        if p.total_validators == 0 {
            return Err(BuildError::TotalValidatorsZero);
        }
        if p.attestation_subnets == 0 {
            return Err(BuildError::AttestationSubnetsZero);
        }
        if p.sync_committee_subnets == 0 {
            return Err(BuildError::SyncCommitteeSubnetsZero);
        }
        if p.sync_subnet_size == 0 {
            return Err(BuildError::SyncSubnetSizeZero);
        }
        if p.target_aggregators == 0 {
            return Err(BuildError::TargetAggregatorsZero);
        }
        match p.sync_subnet_size.checked_mul(p.sync_committee_subnets) {
            None => {
                return Err(BuildError::SyncCommitteeTooLarge);
            },
            Some(size) => {
                if size > p.total_validators {
                    return Err(BuildError::SyncCommitteeExceedsValidators);
                }
            },
        }
        match p.target_aggregators.checked_mul(p.attestation_subnets) {
            None => {
                return Err(BuildError::AttestationAggregatorsTooLarge);
            },
            Some(wanted) => {
                if wanted > p.total_validators {
                    return Err(BuildError::AttestationAggregatorsExceedValidators);
                }
            },
        }
        match p.target_aggregators.checked_mul(p.sync_committee_subnets) {
            None => {
                return Err(BuildError::SyncAggregatorsTooLarge);
            },
            Some(wanted) => {
                if wanted > p.total_validators {
                    return Err(BuildError::SyncAggregatorsExceedValidators);
                }
            },
        }
        Ok(GeneratorParams { values })
    }

    /// The six values, which are valid.
    pub fn values(&self) -> (values: NetworkParams)
        ensures
            values == self@,
            values.valid(),
    {
        proof {
            use_type_invariant(self);
        }
        self.values
    }

    /// Length of an epoch in slots.
    pub fn slots_per_epoch(&self) -> (n: u64)
        ensures
            n == self@.slots_per_epoch,
    {
        self.values.slots_per_epoch
    }

    /// Number of attestation subnets.
    pub fn attestation_subnets(&self) -> (n: u64)
        ensures
            n == self@.attestation_subnets,
    {
        self.values.attestation_subnets
    }

    /// Number of validators in each sync subnet.
    pub fn sync_subnet_size(&self) -> (n: u64)
        ensures
            n == self@.sync_subnet_size,
    {
        self.values.sync_subnet_size
    }

    /// Number of sync subnets.
    pub fn sync_committee_subnets(&self) -> (n: u64)
        ensures
            n == self@.sync_committee_subnets,
    {
        self.values.sync_committee_subnets
    }

    /// Number of aggregators wanted per subnet.
    pub fn target_aggregators(&self) -> (n: u64)
        ensures
            n == self@.target_aggregators,
    {
        self.values.target_aggregators
    }

    /// Number of validators in the network.
    pub fn total_validators(&self) -> (n: u64)
        ensures
            n == self@.total_validators,
    {
        self.values.total_validators
    }
}

} // verus!
