use testnet_orchestrator::genesis::ChainSpecConfig;
use testnet_orchestrator::handle::NetworkHandle;
use testnet_orchestrator::plan::make_launch_plan;
use testnet_orchestrator::scenarios::{dispute_valid_descriptor, malus_backer_descriptor};
use testnet_orchestrator::topology::RegistrationStrategy;

#[test]
fn malus_backer_network_shape() {
    let d = malus_backer_descriptor().unwrap();
    assert_eq!(d.chain_id, "westend-local");
    assert_eq!(d.relaychain_nodes.len(), 4);
    assert_eq!(d.relaychain_nodes[0].name, "honest-0");
    assert_eq!(d.relaychain_nodes[1].name, "honest-1");
    assert_eq!(d.relaychain_nodes[2].name, "honest-2");
    assert_eq!(d.relaychain_nodes[3].name, "malicious-backer");
    assert_eq!(d.relaychain_nodes[0].command, "polkadot");
    assert_eq!(d.relaychain_nodes[3].command, "malus");
    assert_eq!(
        d.relaychain_nodes[3].subcommand,
        Some("suggest-garbage-candidate".to_owned())
    );
    assert_eq!(d.parachains.len(), 1);
    assert_eq!(d.parachains[0].id, 2000);
    assert!(d.parachains[0].is_cumulus_based);
    assert_eq!(
        d.parachains[0].registration_strategy,
        RegistrationStrategy::InGenesis
    );
    assert_eq!(d.parachains[0].collators[0].name, "collator");
    assert_eq!(d.parachains[0].collators[0].command, "polkadot-parachain");
    assert!(d.parachains[0].collators[0].args.is_empty());
    assert_eq!(
        d.relaychain_nodes[0].args,
        vec![
            "--no-hardware-benchmarks".to_owned(),
            "--insecure-validator-i-know-what-i-do".to_owned(),
            "-lparachain=debug".to_owned(),
        ]
    );
    assert_eq!(
        d.relaychain_nodes[3].args,
        vec![
            "--no-hardware-benchmarks".to_owned(),
            "--insecure-validator-i-know-what-i-do".to_owned(),
            "-lMALUS=trace".to_owned(),
        ]
    );
    assert_eq!(d.node_count(), 5);
    assert_eq!(d.genesis_overrides.needed_approvals, Some(1));
    assert_eq!(d.genesis_overrides.max_validators_per_core, Some(1));
    assert_eq!(d.genesis_overrides.group_rotation_frequency, Some(10));
}

#[test]
fn dispute_valid_network_shape() {
    let d = dispute_valid_descriptor().unwrap();
    assert_eq!(d.relaychain_nodes.len(), 10);
    for i in 0..9 {
        assert_eq!(d.relaychain_nodes[i].name, format!("honest-{i}"));
        assert_eq!(d.relaychain_nodes[i].command, "polkadot");
    }
    assert_eq!(d.relaychain_nodes[9].name, "malicious-disputer");
    assert_eq!(d.relaychain_nodes[9].command, "malus");
    assert_eq!(
        d.relaychain_nodes[9].subcommand,
        Some("dispute-ancestor".to_owned())
    );
    assert_eq!(d.parachains[0].id, 2000);
    assert_eq!(d.parachains[0].collators[0].name, "collator");
    assert_eq!(d.parachains[0].collators[0].command, "polkadot-parachain");
    assert_eq!(
        d.relaychain_nodes[0].args[2],
        "-lparachain=debug,parachain::dispute-coordinator=trace"
    );
    assert_eq!(d.relaychain_nodes[9].args[2], "-lMALUS=trace");
    assert_eq!(d.node_count(), 11);
}

#[test]
fn malus_backer_network_launches_into_a_complete_handle() {
    let d = malus_backer_descriptor().unwrap();
    let plan = make_launch_plan(&d, &ChainSpecConfig::defaults(), 9200);
    assert_eq!(plan.genesis_parachain_ids, vec![2000]);
    assert_eq!(plan.chain_config.needed_approvals, 1);
    let h = NetworkHandle::from_plan(&plan);
    assert_eq!(h.node_count(), 5);
    let honest = h.get_node(&"honest-0".to_owned()).unwrap();
    assert_eq!(honest.name, "honest-0");
    let collator = h.get_node(&"collator".to_owned()).unwrap();
    assert_eq!(collator.name, "collator");
}
