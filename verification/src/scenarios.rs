//! The two adversarial network topologies this crate exists to test with:
//! a relaychain with one malicious backer, and one with one malicious
//! disputer, each with a single cumulus-based parachain collator.
//!
//! Required binaries, resolved by the launcher: `polkadot`, `malus`,
//! `polkadot-parachain`, built with fast-runtime support.

use vstd::prelude::*;
use crate::builder::TopologyBuilder;
use crate::errors::ValidationError;
use crate::genesis::runtime_config;
use crate::topology::{
    NodeSpec, ParachainSpec, RegistrationStrategy, TopologyDescriptor, collator_nodes,
    lemma_equal_views_equal_deep_views, names_of, unique_names,
};

verus! {

/// The arguments every honest validator runs with; `log_spec` sets the log
/// verbosity.
fn standard_args(log_spec: &str) -> (args: Vec<String>)
    ensures
        args.deep_view() =~= seq![
            "--no-hardware-benchmarks"@,
            "--insecure-validator-i-know-what-i-do"@,
            log_spec@,
        ],
{
    let mut args: Vec<String> = Vec::new();
    args.push("--no-hardware-benchmarks".to_owned());
    args.push("--insecure-validator-i-know-what-i-do".to_owned());
    args.push(log_spec.to_owned());
    args
}

/// The one parachain both networks run: id 2000, cumulus based, registered
/// at genesis, with a single collator.
fn test_parachain() -> (p: ParachainSpec)
    ensures
        p.id == 2000,
        p.is_cumulus_based,
        p.registration_strategy == RegistrationStrategy::InGenesis,
        p.collators@.len() == 1,
        p.collators@[0].name@ == "collator"@,
        p.collators@[0].command@ == "polkadot-parachain"@,
        p.collators@[0].subcommand is None,
        p.collators@[0].args@ == Seq::<String>::empty(),
{
    ParachainSpec::new(2000, true, RegistrationStrategy::InGenesis).with_collator(
        NodeSpec::new("collator".to_owned(), "polkadot-parachain".to_owned()),
    )
}

/// The network with three honest validators and one malicious backer that
/// suggests garbage candidates, plus the test parachain. Always a valid
/// topology.
pub fn malus_backer_descriptor() -> (r: Result<TopologyDescriptor, ValidationError>)
    ensures
        r is Ok,
        match r {
            Ok(d) => {
                &&& d.wf()
                &&& d.chain_id@ == "westend-local"@
                &&& d.genesis_overrides.max_validators_per_core == Some(1u64)
                &&& d.genesis_overrides.needed_approvals == Some(1u64)
                &&& d.genesis_overrides.group_rotation_frequency == Some(10u64)
                &&& names_of(d.relaychain_nodes@) =~= seq![
                    "honest-0"@,
                    "honest-1"@,
                    "honest-2"@,
                    "malicious-backer"@,
                ]
                &&& forall|m: int|
                    0 <= m < 3 ==> (#[trigger] d.relaychain_nodes@[m]).command@ == "polkadot"@
                &&& forall|m: int|
                    0 <= m < 3 ==> (#[trigger] d.relaychain_nodes@[m]).subcommand is None
                &&& forall|m: int|
                    0 <= m < 3 ==> (#[trigger] d.relaychain_nodes@[m]).args.deep_view() == seq![
                        "--no-hardware-benchmarks"@,
                        "--insecure-validator-i-know-what-i-do"@,
                        "-lparachain=debug"@,
                    ]
                &&& d.relaychain_nodes@[3].command@ == "malus"@
                &&& d.relaychain_nodes@[3].subcommand.deep_view() == Some(
                    "suggest-garbage-candidate"@,
                )
                &&& d.relaychain_nodes@[3].args.deep_view() == seq![
                    "--no-hardware-benchmarks"@,
                    "--insecure-validator-i-know-what-i-do"@,
                    "-lMALUS=trace"@,
                ]
                &&& d.parachains@.len() == 1
                &&& d.parachains@[0].id == 2000
                &&& d.parachains@[0].is_cumulus_based
                &&& d.parachains@[0].registration_strategy == RegistrationStrategy::InGenesis
                &&& d.parachains@[0].collators@.len() == 1
                &&& d.parachains@[0].collators@[0].name@ == "collator"@
                &&& d.parachains@[0].collators@[0].command@ == "polkadot-parachain"@
                &&& d.parachains@[0].collators@[0].subcommand is None
                &&& d.parachains@[0].collators@[0].args@ == Seq::<String>::empty()
                &&& d.spec_node_count() == 5
            },
            Err(_) => false,
        },
{
    let malus = NodeSpec::new("malicious-backer".to_owned(), "malus".to_owned()).with_subcommand(
        "suggest-garbage-candidate".to_owned(),
    ).with_args(standard_args("-lMALUS=trace"));
    let b = TopologyBuilder::new("westend-local".to_owned()).with_genesis_overrides(
        runtime_config(),
    ).with_default_command("polkadot".to_owned()).with_default_args(
        standard_args("-lparachain=debug"),
    ).with_node("honest-0".to_owned()).with_node("honest-1".to_owned()).with_node(
        "honest-2".to_owned(),
    ).with_custom_node(malus).with_parachain(test_parachain());
    proof {
        reveal_strlit("honest-0");
        reveal_strlit("honest-1");
        reveal_strlit("honest-2");
        reveal_strlit("malicious-backer");
        reveal_strlit("collator");
        assert(names_of(b.relaychain_nodes@) =~= seq![
            "honest-0"@,
            "honest-1"@,
            "honest-2"@,
            "malicious-backer"@,
        ]);
        assert(b.parachains@.drop_last() =~= Seq::<ParachainSpec>::empty());
        assert(collator_nodes(Seq::<ParachainSpec>::empty()) == Seq::<NodeSpec>::empty());
        assert(collator_nodes(b.parachains@) =~= b.parachains@[0].collators@);
        assert(b.spec_names() =~= seq![
            "honest-0"@,
            "honest-1"@,
            "honest-2"@,
            "malicious-backer"@,
            "collator"@,
        ]);
        let s = b.spec_names();
        assert forall|i: int, j: int| 0 <= i < j < s.len() implies s[i] != s[j] by {
            assert(s[0] == "honest-0"@);
            assert(s[1] == "honest-1"@);
            assert(s[2] == "honest-2"@);
            assert(s[3] == "malicious-backer"@);
            assert(s[4] == "collator"@);
            assert("honest-0"@[7] == '0');
            assert("honest-1"@[7] == '1');
            assert("honest-2"@[7] == '2');
            assert("honest-0"@[0] == 'h');
            assert("honest-1"@[0] == 'h');
            assert("honest-2"@[0] == 'h');
            assert("collator"@[0] == 'c');
            assert("honest-0"@.len() == 8);
            assert("honest-1"@.len() == 8);
            assert("honest-2"@.len() == 8);
            assert("collator"@.len() == 8);
            assert("malicious-backer"@.len() == 16);
        }
        assert(unique_names(b.spec_names()));
        assert forall|m: int|
            0 <= m < 3 implies (#[trigger] b.relaychain_nodes@[m]).args.deep_view() == seq![
                "--no-hardware-benchmarks"@,
                "--insecure-validator-i-know-what-i-do"@,
                "-lparachain=debug"@,
            ] by {
            assert(b.relaychain_nodes@[m].args@ == b.default_args@);
            lemma_equal_views_equal_deep_views(b.relaychain_nodes@[m].args, b.default_args);
        }
        assert(b.relaychain_nodes@[3].args.deep_view() =~= seq![
            "--no-hardware-benchmarks"@,
            "--insecure-validator-i-know-what-i-do"@,
            "-lMALUS=trace"@,
        ]);
    }
    let r = b.build();
    proof {
        match &r {
            Ok(d) => {
                assert(d.parachains@.drop_last() =~= Seq::<ParachainSpec>::empty());
                assert(collator_nodes(Seq::<ParachainSpec>::empty()) == Seq::<NodeSpec>::empty());
                assert(collator_nodes(d.parachains@) =~= d.parachains@[0].collators@);
                assert(d.spec_node_count() == 5);
            },
            Err(_) => {},
        }
    }
    r
}

/// The network with nine honest validators and one malicious disputer that
/// disputes valid ancestor candidates, plus the test parachain. Always a
/// valid topology.
pub fn dispute_valid_descriptor() -> (r: Result<TopologyDescriptor, ValidationError>)
    ensures
        r is Ok,
        match r {
            Ok(d) => {
                &&& d.wf()
                &&& d.chain_id@ == "westend-local"@
                &&& d.genesis_overrides.max_validators_per_core == Some(1u64)
                &&& d.genesis_overrides.needed_approvals == Some(1u64)
                &&& d.genesis_overrides.group_rotation_frequency == Some(10u64)
                &&& names_of(d.relaychain_nodes@) =~= seq![
                    "honest-0"@,
                    "honest-1"@,
                    "honest-2"@,
                    "honest-3"@,
                    "honest-4"@,
                    "honest-5"@,
                    "honest-6"@,
                    "honest-7"@,
                    "honest-8"@,
                    "malicious-disputer"@,
                ]
                &&& forall|m: int|
                    0 <= m < 9 ==> (#[trigger] d.relaychain_nodes@[m]).command@ == "polkadot"@
                &&& forall|m: int|
                    0 <= m < 9 ==> (#[trigger] d.relaychain_nodes@[m]).subcommand is None
                &&& forall|m: int|
                    0 <= m < 9 ==> (#[trigger] d.relaychain_nodes@[m]).args.deep_view() == seq![
                        "--no-hardware-benchmarks"@,
                        "--insecure-validator-i-know-what-i-do"@,
                        "-lparachain=debug,parachain::dispute-coordinator=trace"@,
                    ]
                &&& d.relaychain_nodes@[9].command@ == "malus"@
                &&& d.relaychain_nodes@[9].subcommand.deep_view() == Some("dispute-ancestor"@)
                &&& d.relaychain_nodes@[9].args.deep_view() == seq![
                    "--no-hardware-benchmarks"@,
                    "--insecure-validator-i-know-what-i-do"@,
                    "-lMALUS=trace"@,
                ]
                &&& d.parachains@.len() == 1
                &&& d.parachains@[0].id == 2000
                &&& d.parachains@[0].is_cumulus_based
                &&& d.parachains@[0].registration_strategy == RegistrationStrategy::InGenesis
                &&& d.parachains@[0].collators@.len() == 1
                &&& d.parachains@[0].collators@[0].name@ == "collator"@
                &&& d.parachains@[0].collators@[0].command@ == "polkadot-parachain"@
                &&& d.parachains@[0].collators@[0].subcommand is None
                &&& d.parachains@[0].collators@[0].args@ == Seq::<String>::empty()
                &&& d.spec_node_count() == 11
            },
            Err(_) => false,
        },
{
    let malus = NodeSpec::new("malicious-disputer".to_owned(), "malus".to_owned()).with_subcommand(
        "dispute-ancestor".to_owned(),
    ).with_args(standard_args("-lMALUS=trace"));
    let b = TopologyBuilder::new("westend-local".to_owned()).with_genesis_overrides(
        runtime_config(),
    ).with_default_command("polkadot".to_owned()).with_default_args(
        standard_args("-lparachain=debug,parachain::dispute-coordinator=trace"),
    ).with_node("honest-0".to_owned()).with_node("honest-1".to_owned()).with_node(
        "honest-2".to_owned(),
    ).with_node("honest-3".to_owned()).with_node("honest-4".to_owned()).with_node(
        "honest-5".to_owned(),
    ).with_node("honest-6".to_owned()).with_node("honest-7".to_owned()).with_node(
        "honest-8".to_owned(),
    ).with_custom_node(malus).with_parachain(test_parachain());
    proof {
        reveal_strlit("honest-0");
        reveal_strlit("honest-1");
        reveal_strlit("honest-2");
        reveal_strlit("honest-3");
        reveal_strlit("honest-4");
        reveal_strlit("honest-5");
        reveal_strlit("honest-6");
        reveal_strlit("honest-7");
        reveal_strlit("honest-8");
        reveal_strlit("malicious-disputer");
        reveal_strlit("collator");
        assert(names_of(b.relaychain_nodes@) =~= seq![
            "honest-0"@,
            "honest-1"@,
            "honest-2"@,
            "honest-3"@,
            "honest-4"@,
            "honest-5"@,
            "honest-6"@,
            "honest-7"@,
            "honest-8"@,
            "malicious-disputer"@,
        ]);
        assert(b.parachains@.drop_last() =~= Seq::<ParachainSpec>::empty());
        assert(collator_nodes(Seq::<ParachainSpec>::empty()) == Seq::<NodeSpec>::empty());
        assert(collator_nodes(b.parachains@) =~= b.parachains@[0].collators@);
        assert(b.spec_names() =~= seq![
            "honest-0"@,
            "honest-1"@,
            "honest-2"@,
            "honest-3"@,
            "honest-4"@,
            "honest-5"@,
            "honest-6"@,
            "honest-7"@,
            "honest-8"@,
            "malicious-disputer"@,
            "collator"@,
        ]);
        let s = b.spec_names();
        assert forall|i: int, j: int| 0 <= i < j < s.len() implies s[i] != s[j] by {
            assert(s[0] == "honest-0"@);
            assert(s[1] == "honest-1"@);
            assert(s[2] == "honest-2"@);
            assert(s[3] == "honest-3"@);
            assert(s[4] == "honest-4"@);
            assert(s[5] == "honest-5"@);
            assert(s[6] == "honest-6"@);
            assert(s[7] == "honest-7"@);
            assert(s[8] == "honest-8"@);
            assert(s[9] == "malicious-disputer"@);
            assert(s[10] == "collator"@);
            assert("honest-0"@[7] == '0');
            assert("honest-1"@[7] == '1');
            assert("honest-2"@[7] == '2');
            assert("honest-3"@[7] == '3');
            assert("honest-4"@[7] == '4');
            assert("honest-5"@[7] == '5');
            assert("honest-6"@[7] == '6');
            assert("honest-7"@[7] == '7');
            assert("honest-8"@[7] == '8');
            assert("honest-0"@[0] == 'h');
            assert("honest-1"@[0] == 'h');
            assert("honest-2"@[0] == 'h');
            assert("honest-3"@[0] == 'h');
            assert("honest-4"@[0] == 'h');
            assert("honest-5"@[0] == 'h');
            assert("honest-6"@[0] == 'h');
            assert("honest-7"@[0] == 'h');
            assert("honest-8"@[0] == 'h');
            assert("collator"@[0] == 'c');
            assert("honest-0"@.len() == 8);
            assert("honest-1"@.len() == 8);
            assert("honest-2"@.len() == 8);
            assert("honest-3"@.len() == 8);
            assert("honest-4"@.len() == 8);
            assert("honest-5"@.len() == 8);
            assert("honest-6"@.len() == 8);
            assert("honest-7"@.len() == 8);
            assert("honest-8"@.len() == 8);
            assert("collator"@.len() == 8);
            assert("malicious-disputer"@.len() == 18);
        }
        assert(unique_names(b.spec_names()));
        assert forall|m: int|
            0 <= m < 9 implies (#[trigger] b.relaychain_nodes@[m]).args.deep_view() == seq![
                "--no-hardware-benchmarks"@,
                "--insecure-validator-i-know-what-i-do"@,
                "-lparachain=debug,parachain::dispute-coordinator=trace"@,
            ] by {
            assert(b.relaychain_nodes@[m].args@ == b.default_args@);
            lemma_equal_views_equal_deep_views(b.relaychain_nodes@[m].args, b.default_args);
        }
        assert(b.relaychain_nodes@[9].args.deep_view() =~= seq![
            "--no-hardware-benchmarks"@,
            "--insecure-validator-i-know-what-i-do"@,
            "-lMALUS=trace"@,
        ]);
    }
    let r = b.build();
    proof {
        match &r {
            Ok(d) => {
                assert(d.parachains@.drop_last() =~= Seq::<ParachainSpec>::empty());
                assert(collator_nodes(Seq::<ParachainSpec>::empty()) == Seq::<NodeSpec>::empty());
                assert(collator_nodes(d.parachains@) =~= d.parachains@[0].collators@);
                assert(d.spec_node_count() == 11);
            },
            Err(_) => {},
        }
    }
    r
}

} // verus!
