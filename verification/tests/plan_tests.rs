use testnet_orchestrator::builder::TopologyBuilder;
use testnet_orchestrator::errors::LaunchError;
use testnet_orchestrator::genesis::ChainSpecConfig;
use testnet_orchestrator::plan::{
    binary_resolution_outcome, make_launch_plan, spawn_outcome, startup_outcome,
};
use testnet_orchestrator::topology::{NodeSpec, ParachainSpec, RegistrationStrategy, TopologyDescriptor};

fn two_para_descriptor() -> TopologyDescriptor {
    let genesis_para = ParachainSpec::new(2000, true, RegistrationStrategy::InGenesis)
        .with_collator(NodeSpec::new("collator".to_owned(), "polkadot-parachain".to_owned()));
    let later_para = ParachainSpec::new(2001, false, RegistrationStrategy::InBlock)
        .with_collator(NodeSpec::new("collator-a".to_owned(), "polkadot-parachain".to_owned()))
        .with_collator(NodeSpec::new("collator-b".to_owned(), "polkadot-parachain".to_owned()));
    TopologyBuilder::new("westend-local".to_owned())
        .with_default_command("polkadot".to_owned())
        .with_node("honest-0".to_owned())
        .with_node("honest-1".to_owned())
        .with_parachain(genesis_para)
        .with_parachain(later_para)
        .build()
        .unwrap()
}

#[test]
fn plan_lists_every_node_in_spawn_order_with_distinct_ports() {
    let d = two_para_descriptor();
    let plan = make_launch_plan(&d, &ChainSpecConfig::defaults(), 9000);
    assert_eq!(plan.chain_id, "westend-local");
    assert_eq!(plan.processes.len(), 5);
    let names: Vec<&str> = plan.processes.iter().map(|p| p.name.as_str()).collect();
    assert_eq!(
        names,
        vec!["honest-0", "honest-1", "collator", "collator-a", "collator-b"]
    );
    for (i, p) in plan.processes.iter().enumerate() {
        assert_eq!(p.rpc_port, 9000 + 2 * i as u16);
        assert_eq!(p.prometheus_port, 9000 + 2 * i as u16 + 1);
    }
    let mut all_ports: Vec<u16> = Vec::new();
    for p in &plan.processes {
        all_ports.push(p.rpc_port);
        all_ports.push(p.prometheus_port);
    }
    for i in 0..all_ports.len() {
        for j in (i + 1)..all_ports.len() {
            assert_ne!(all_ports[i], all_ports[j]);
        }
    }
}

#[test]
fn plan_assigns_collators_to_their_parachain() {
    let d = two_para_descriptor();
    let plan = make_launch_plan(&d, &ChainSpecConfig::defaults(), 9000);
    assert_eq!(plan.processes[0].para_id, None);
    assert_eq!(plan.processes[1].para_id, None);
    assert_eq!(plan.processes[2].para_id, Some(2000));
    assert_eq!(plan.processes[3].para_id, Some(2001));
    assert_eq!(plan.processes[4].para_id, Some(2001));
}

#[test]
fn plan_registers_only_genesis_parachains_up_front() {
    let d = two_para_descriptor();
    let plan = make_launch_plan(&d, &ChainSpecConfig::defaults(), 9000);
    assert_eq!(plan.genesis_parachain_ids, vec![2000]);
}

#[test]
fn plan_derives_the_shared_chain_spec_from_the_overrides() {
    let d = TopologyBuilder::new("westend-local".to_owned())
        .with_default_command("polkadot".to_owned())
        .with_node("honest-0".to_owned())
        .with_genesis_overrides(testnet_orchestrator::genesis::runtime_config())
        .build()
        .unwrap();
    let plan = make_launch_plan(&d, &ChainSpecConfig::defaults(), 9000);
    assert_eq!(plan.chain_config.max_validators_per_core, 1);
    assert_eq!(plan.chain_config.needed_approvals, 1);
    assert_eq!(plan.chain_config.group_rotation_frequency, 10);
}

#[test]
fn plan_keeps_commands_subcommands_and_args() {
    let malus = NodeSpec::new("malicious-backer".to_owned(), "malus".to_owned())
        .with_subcommand("suggest-garbage-candidate".to_owned())
        .with_args(vec!["-lMALUS=trace".to_owned()]);
    let d = TopologyBuilder::new("westend-local".to_owned())
        .with_default_command("polkadot".to_owned())
        .with_node("honest-0".to_owned())
        .with_custom_node(malus)
        .build()
        .unwrap();
    let plan = make_launch_plan(&d, &ChainSpecConfig::defaults(), 9000);
    assert_eq!(plan.processes[1].command, "malus");
    assert_eq!(
        plan.processes[1].subcommand,
        Some("suggest-garbage-candidate".to_owned())
    );
    assert_eq!(plan.processes[1].args, vec!["-lMALUS=trace".to_owned()]);
}

#[test]
fn missing_binary_fails_the_resolution_step() {
    assert!(binary_resolution_outcome(&vec![true, true, true]).is_ok());
    assert_eq!(
        binary_resolution_outcome(&vec![true, false, true]),
        Err(LaunchError::MissingBinary)
    );
    assert!(binary_resolution_outcome(&vec![]).is_ok());
}

#[test]
fn any_node_not_live_in_time_fails_the_whole_launch() {
    assert!(startup_outcome(&vec![true, true]).is_ok());
    assert_eq!(
        startup_outcome(&vec![false, false]),
        Err(LaunchError::NodeStartupTimeout)
    );
    assert_eq!(
        startup_outcome(&vec![true, false]),
        Err(LaunchError::NodeStartupTimeout)
    );
    assert!(startup_outcome(&vec![]).is_ok());
}

#[test]
fn a_spawn_failure_mid_launch_is_a_partial_startup_failure() {
    assert!(spawn_outcome(&vec![true, true, true]).is_ok());
    assert_eq!(
        spawn_outcome(&vec![true, true, false]),
        Err(LaunchError::PartialStartupFailure)
    );
    assert_eq!(
        spawn_outcome(&vec![false]),
        Err(LaunchError::PartialStartupFailure)
    );
    assert!(spawn_outcome(&vec![]).is_ok());
}
