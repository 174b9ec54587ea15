use testnet_orchestrator::builder::TopologyBuilder;
use testnet_orchestrator::errors::ValidationError;
use testnet_orchestrator::genesis::GenesisOverrides;
use testnet_orchestrator::topology::{NodeSpec, ParachainSpec, RegistrationStrategy};

fn collator() -> NodeSpec {
    NodeSpec::new("collator".to_owned(), "polkadot-parachain".to_owned())
}

fn one_parachain() -> ParachainSpec {
    ParachainSpec::new(2000, true, RegistrationStrategy::InGenesis).with_collator(collator())
}

#[test]
fn build_accepts_a_valid_topology() {
    let d = TopologyBuilder::new("westend-local".to_owned())
        .with_default_command("polkadot".to_owned())
        .with_node("honest-0".to_owned())
        .with_node("honest-1".to_owned())
        .with_parachain(one_parachain())
        .build()
        .unwrap();
    assert_eq!(d.chain_id, "westend-local");
    assert_eq!(d.relaychain_nodes.len(), 2);
    assert_eq!(d.relaychain_nodes[0].name, "honest-0");
    assert_eq!(d.relaychain_nodes[0].command, "polkadot");
    assert_eq!(d.relaychain_nodes[1].name, "honest-1");
    assert_eq!(d.parachains.len(), 1);
    assert_eq!(d.parachains[0].id, 2000);
    assert_eq!(d.parachains[0].collators.len(), 1);
    assert_eq!(d.node_count(), 3);
}

#[test]
fn duplicate_node_name_is_rejected_before_anything_runs() {
    let r = TopologyBuilder::new("westend-local".to_owned())
        .with_default_command("polkadot".to_owned())
        .with_node("honest-0".to_owned())
        .with_node("honest-0".to_owned())
        .build();
    assert!(matches!(r, Err(ValidationError::DuplicateNodeName)));
}

#[test]
fn duplicate_between_relaychain_and_collator_is_rejected() {
    let r = TopologyBuilder::new("westend-local".to_owned())
        .with_default_command("polkadot".to_owned())
        .with_node("collator".to_owned())
        .with_parachain(one_parachain())
        .build();
    assert!(matches!(r, Err(ValidationError::DuplicateNodeName)));
}

#[test]
fn empty_relaychain_is_rejected() {
    let r = TopologyBuilder::new("westend-local".to_owned())
        .with_parachain(one_parachain())
        .build();
    assert!(matches!(r, Err(ValidationError::EmptyRelaychain)));
}

#[test]
fn parachain_without_collator_is_rejected() {
    let r = TopologyBuilder::new("westend-local".to_owned())
        .with_default_command("polkadot".to_owned())
        .with_node("honest-0".to_owned())
        .with_parachain(ParachainSpec::new(2000, true, RegistrationStrategy::InBlock))
        .build();
    assert!(matches!(r, Err(ValidationError::ParachainWithoutCollator)));
}

#[test]
fn empty_relaychain_takes_precedence_over_other_faults() {
    let r = TopologyBuilder::new("westend-local".to_owned())
        .with_parachain(ParachainSpec::new(2000, false, RegistrationStrategy::InBlock))
        .build();
    assert!(matches!(r, Err(ValidationError::EmptyRelaychain)));
}

#[test]
fn custom_node_keeps_its_own_command_and_args() {
    let malus = NodeSpec::new("malicious-backer".to_owned(), "malus".to_owned())
        .with_subcommand("suggest-garbage-candidate".to_owned())
        .with_args(vec!["-lMALUS=trace".to_owned()]);
    let d = TopologyBuilder::new("westend-local".to_owned())
        .with_default_command("polkadot".to_owned())
        .with_default_args(vec!["--no-hardware-benchmarks".to_owned()])
        .with_node("honest-0".to_owned())
        .with_custom_node(malus)
        .build()
        .unwrap();
    assert_eq!(d.relaychain_nodes[0].args, vec!["--no-hardware-benchmarks".to_owned()]);
    assert_eq!(d.relaychain_nodes[1].name, "malicious-backer");
    assert_eq!(d.relaychain_nodes[1].command, "malus");
    assert_eq!(
        d.relaychain_nodes[1].subcommand,
        Some("suggest-garbage-candidate".to_owned())
    );
    assert_eq!(d.relaychain_nodes[1].args, vec!["-lMALUS=trace".to_owned()]);
}

#[test]
fn builder_carries_genesis_overrides_through() {
    let o = GenesisOverrides {
        max_validators_per_core: None,
        needed_approvals: Some(1),
        group_rotation_frequency: None,
    };
    let d = TopologyBuilder::new("westend-local".to_owned())
        .with_default_command("polkadot".to_owned())
        .with_node("honest-0".to_owned())
        .with_genesis_overrides(o)
        .build()
        .unwrap();
    assert_eq!(d.genesis_overrides, o);
}
