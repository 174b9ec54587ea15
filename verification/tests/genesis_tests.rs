use testnet_orchestrator::genesis::{
    ChainSpecConfig, GenesisOverrides, runtime_config, DEFAULT_GROUP_ROTATION_FREQUENCY,
    DEFAULT_MAX_VALIDATORS_PER_CORE, DEFAULT_NEEDED_APPROVALS,
};

#[test]
fn one_override_patches_one_field_and_leaves_the_rest() {
    let o = GenesisOverrides {
        max_validators_per_core: None,
        needed_approvals: Some(1),
        group_rotation_frequency: None,
    };
    let merged = ChainSpecConfig::defaults().apply_overrides(&o);
    assert_eq!(merged.needed_approvals, 1);
    assert_eq!(merged.max_validators_per_core, DEFAULT_MAX_VALIDATORS_PER_CORE);
    assert_eq!(merged.group_rotation_frequency, DEFAULT_GROUP_ROTATION_FREQUENCY);
}

#[test]
fn empty_overrides_change_nothing() {
    let merged = ChainSpecConfig::defaults().apply_overrides(&GenesisOverrides::none());
    assert_eq!(merged, ChainSpecConfig::defaults());
    assert_eq!(merged.needed_approvals, DEFAULT_NEEDED_APPROVALS);
}

#[test]
fn full_overrides_replace_every_field() {
    let o = GenesisOverrides {
        max_validators_per_core: Some(2),
        needed_approvals: Some(3),
        group_rotation_frequency: Some(4),
    };
    let merged = ChainSpecConfig::defaults().apply_overrides(&o);
    assert_eq!(merged.max_validators_per_core, 2);
    assert_eq!(merged.needed_approvals, 3);
    assert_eq!(merged.group_rotation_frequency, 4);
}

#[test]
fn runtime_config_pins_the_adversarial_test_values() {
    let o = runtime_config();
    assert_eq!(o.max_validators_per_core, Some(1));
    assert_eq!(o.needed_approvals, Some(1));
    assert_eq!(o.group_rotation_frequency, Some(10));
    let merged = ChainSpecConfig::defaults().apply_overrides(&o);
    assert_eq!(merged.max_validators_per_core, 1);
    assert_eq!(merged.needed_approvals, 1);
    assert_eq!(merged.group_rotation_frequency, 10);
}
