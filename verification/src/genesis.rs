//! Genesis configuration overrides and their merge into a chain spec.
//!
//! A topology carries an optional patch over the chain's default
//! configuration. The launcher materializes a chain spec by applying the
//! patch to the defaults: a present key replaces the default, an absent key
//! leaves it unchanged.

use vstd::prelude::*;

verus! {

/// Default number of validators assigned to one availability core.
pub const DEFAULT_MAX_VALIDATORS_PER_CORE: u64 = 5;

/// Default number of approval votes needed to consider a candidate approved.
pub const DEFAULT_NEEDED_APPROVALS: u64 = 30;

/// Default number of blocks between validator-group rotations.
pub const DEFAULT_GROUP_ROTATION_FREQUENCY: u64 = 20;

/// A caller-supplied patch over the chain's default configuration.
/// Each field that is `Some` replaces the corresponding default; each field
/// that is `None` leaves the default untouched.
#[derive(Clone, Copy, Debug, PartialEq, Eq)]
pub struct GenesisOverrides {
    pub max_validators_per_core: Option<u64>,
    pub needed_approvals: Option<u64>,
    pub group_rotation_frequency: Option<u64>,
}

/// The consensus-relevant part of a materialized chain specification, shared
/// identically by every relaychain node of one network.
#[derive(Clone, Copy, Debug, PartialEq, Eq, Structural)]
pub struct ChainSpecConfig {
    pub max_validators_per_core: u64,
    pub needed_approvals: u64,
    pub group_rotation_frequency: u64,
}

/// The configuration that results from patching `base` with `o`: a present
/// key replaces the default, an absent key leaves it unchanged.
pub open spec fn spec_merged(base: ChainSpecConfig, o: GenesisOverrides) -> ChainSpecConfig {
    ChainSpecConfig {
        max_validators_per_core: match o.max_validators_per_core {
            Some(v) => v,
            None => base.max_validators_per_core,
        },
        needed_approvals: match o.needed_approvals {
            Some(v) => v,
            None => base.needed_approvals,
        },
        group_rotation_frequency: match o.group_rotation_frequency {
            Some(v) => v,
            None => base.group_rotation_frequency,
        },
    }
}

impl GenesisOverrides {
    /// The empty patch: applying it changes nothing.
    pub fn none() -> (o: GenesisOverrides)
        ensures
            o.max_validators_per_core is None,
            o.needed_approvals is None,
            o.group_rotation_frequency is None,
    {
        GenesisOverrides {
            max_validators_per_core: None,
            needed_approvals: None,
            group_rotation_frequency: None,
        }
    }
}

impl ChainSpecConfig {
    /// The chain's configuration before any override is applied.
    pub fn defaults() -> (c: ChainSpecConfig)
        ensures
            c.max_validators_per_core == DEFAULT_MAX_VALIDATORS_PER_CORE,
            c.needed_approvals == DEFAULT_NEEDED_APPROVALS,
            c.group_rotation_frequency == DEFAULT_GROUP_ROTATION_FREQUENCY,
    {
        ChainSpecConfig {
            max_validators_per_core: DEFAULT_MAX_VALIDATORS_PER_CORE,
            needed_approvals: DEFAULT_NEEDED_APPROVALS,
            group_rotation_frequency: DEFAULT_GROUP_ROTATION_FREQUENCY,
        }
    }

    /// Merge a patch into this configuration: every key present in the patch
    /// takes the patched value, every absent key keeps its current value.
    pub fn apply_overrides(&self, o: &GenesisOverrides) -> (r: ChainSpecConfig)
        ensures
            r == spec_merged(*self, *o),
    {
        ChainSpecConfig {
            max_validators_per_core: match o.max_validators_per_core {
                Some(v) => v,
                None => self.max_validators_per_core,
            },
            needed_approvals: match o.needed_approvals {
                Some(v) => v,
                None => self.needed_approvals,
            },
            group_rotation_frequency: match o.group_rotation_frequency {
                Some(v) => v,
                None => self.group_rotation_frequency,
            },
        }
    }
}

/// The override set used by the adversarial test networks: one validator per
/// core, a single needed approval, and fast group rotation, so that disputes
/// surface quickly.
pub fn runtime_config() -> (o: GenesisOverrides)
    ensures
        o.max_validators_per_core == Some(1u64),
        o.needed_approvals == Some(1u64),
        o.group_rotation_frequency == Some(10u64),
{
    GenesisOverrides {
        max_validators_per_core: Some(1),
        needed_approvals: Some(1),
        group_rotation_frequency: Some(10),
    }
}

} // verus!
