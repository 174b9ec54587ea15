//! Fluent construction of a topology descriptor.
//!
//! The builder accumulates descriptor fragments and `build` validates them:
//! it rejects an empty relaychain, a duplicated node name, and a parachain
//! without collators, in that order of precedence, and spawns nothing.

use vstd::prelude::*;
use crate::errors::ValidationError;
use crate::genesis::GenesisOverrides;
use crate::topology::{
    NodeSpec, ParachainSpec, TopologyDescriptor, collator_nodes, name_strings, names_of,
    unique_names, clone_string_vec, lemma_collator_nodes_take_step,
};

verus! {

/// Accumulates the fragments of a topology descriptor. Relaychain nodes added
/// without an explicit command inherit the default command and arguments that
/// are set at the time of the addition.
pub struct TopologyBuilder {
    pub chain_id: String,
    pub genesis_overrides: GenesisOverrides,
    pub default_command: String,
    pub default_args: Vec<String>,
    pub relaychain_nodes: Vec<NodeSpec>,
    pub parachains: Vec<ParachainSpec>,
}

impl TopologyBuilder {
    /// The node names the finished descriptor would carry, in order.
    pub open spec fn spec_names(self) -> Seq<Seq<char>> {
        names_of(self.relaychain_nodes@ + collator_nodes(self.parachains@))
    }

    /// True when some parachain has no collator.
    pub open spec fn spec_missing_collator(self) -> bool {
        exists|k: int|
            0 <= k < self.parachains@.len() && #[trigger] self.parachains@[k].collators@.len() == 0
    }

    /// True when `build` will accept the accumulated fragments.
    pub open spec fn spec_valid(self) -> bool {
        &&& self.relaychain_nodes@.len() >= 1
        &&& unique_names(self.spec_names())
        &&& !self.spec_missing_collator()
    }

    /// An empty builder for the named chain.
    pub fn new(chain_id: String) -> (b: TopologyBuilder)
        ensures
            b.chain_id == chain_id,
            b.genesis_overrides.max_validators_per_core is None,
            b.genesis_overrides.needed_approvals is None,
            b.genesis_overrides.group_rotation_frequency is None,
            b.default_command@ == Seq::<char>::empty(),
            b.default_args@ == Seq::<String>::empty(),
            b.relaychain_nodes@ == Seq::<NodeSpec>::empty(),
            b.parachains@ == Seq::<ParachainSpec>::empty(),
    {
        TopologyBuilder {
            chain_id,
            genesis_overrides: GenesisOverrides::none(),
            default_command: String::new(),
            default_args: Vec::new(),
            relaychain_nodes: Vec::new(),
            parachains: Vec::new(),
        }
    }

    /// Replace the genesis overrides.
    pub fn with_genesis_overrides(self, overrides: GenesisOverrides) -> (b: TopologyBuilder)
        ensures
            b == (TopologyBuilder { genesis_overrides: overrides, ..self }),
    {
        TopologyBuilder { genesis_overrides: overrides, ..self }
    }

    /// Replace the default command inherited by later plain nodes.
    pub fn with_default_command(self, command: String) -> (b: TopologyBuilder)
        ensures
            b == (TopologyBuilder { default_command: command, ..self }),
    {
        TopologyBuilder { default_command: command, ..self }
    }

    /// Replace the default arguments inherited by later plain nodes.
    pub fn with_default_args(self, args: Vec<String>) -> (b: TopologyBuilder)
        ensures
            b == (TopologyBuilder { default_args: args, ..self }),
    {
        TopologyBuilder { default_args: args, ..self }
    }

    /// Add a relaychain node that runs the default command with the default
    /// arguments.
    pub fn with_node(self, name: String) -> (b: TopologyBuilder)
        ensures
            b.chain_id == self.chain_id,
            b.genesis_overrides == self.genesis_overrides,
            b.default_command == self.default_command,
            b.default_args == self.default_args,
            b.parachains == self.parachains,
            b.relaychain_nodes@.len() == self.relaychain_nodes@.len() + 1,
            b.relaychain_nodes@.drop_last() == self.relaychain_nodes@,
            b.relaychain_nodes@.last().name == name,
            b.relaychain_nodes@.last().command@ == self.default_command@,
            b.relaychain_nodes@.last().subcommand is None,
            b.relaychain_nodes@.last().args@ == self.default_args@,
    {
        let node = NodeSpec {
            name,
            command: self.default_command.clone(),
            subcommand: None,
            args: clone_string_vec(&self.default_args),
        };
        let mut b = self;
        b.relaychain_nodes.push(node);
        proof {
            assert(b.relaychain_nodes@.drop_last() =~= self.relaychain_nodes@);
        }
        b
    }

    /// Add a fully specified relaychain node, ignoring the defaults.
    pub fn with_custom_node(self, node: NodeSpec) -> (b: TopologyBuilder)
        ensures
            b.chain_id == self.chain_id,
            b.genesis_overrides == self.genesis_overrides,
            b.default_command == self.default_command,
            b.default_args == self.default_args,
            b.parachains == self.parachains,
            b.relaychain_nodes@ == self.relaychain_nodes@.push(node),
    {
        let mut b = self;
        b.relaychain_nodes.push(node);
        b
    }

    /// Add a parachain together with its collators.
    pub fn with_parachain(self, parachain: ParachainSpec) -> (b: TopologyBuilder)
        ensures
            b.chain_id == self.chain_id,
            b.genesis_overrides == self.genesis_overrides,
            b.default_command == self.default_command,
            b.default_args == self.default_args,
            b.relaychain_nodes == self.relaychain_nodes,
            b.parachains@ == self.parachains@.push(parachain),
    {
        let mut b = self;
        b.parachains.push(parachain);
        b
    }

    /// Validate the accumulated fragments and freeze them into a descriptor.
    /// Pure data assembly: nothing is spawned. Succeeds exactly on a
    /// non-empty relaychain, unique node names, and no collator-less
    /// parachain, and then hands every fragment over unchanged.
    pub fn build(self) -> (r: Result<TopologyDescriptor, ValidationError>)
        ensures
            r is Ok <==> self.spec_valid(),
            r == Err::<TopologyDescriptor, ValidationError>(ValidationError::EmptyRelaychain)
                <==> self.relaychain_nodes@.len() == 0,
            r == Err::<TopologyDescriptor, ValidationError>(ValidationError::DuplicateNodeName)
                <==> (self.relaychain_nodes@.len() >= 1 && !unique_names(self.spec_names())),
            r == Err::<TopologyDescriptor, ValidationError>(
                ValidationError::ParachainWithoutCollator,
            ) <==> (self.relaychain_nodes@.len() >= 1 && unique_names(self.spec_names())
                && self.spec_missing_collator()),
            match r {
                Ok(d) => {
                    &&& d.chain_id == self.chain_id
                    &&& d.genesis_overrides == self.genesis_overrides
                    &&& d.relaychain_nodes == self.relaychain_nodes
                    &&& d.parachains == self.parachains
                    &&& d.wf()
                },
                Err(_) => true,
            },
    {
        if self.relaychain_nodes.len() == 0 {
            return Err(ValidationError::EmptyRelaychain);
        }
        let names = collect_names(&self.relaychain_nodes, &self.parachains);
        if has_duplicate(&names) {
            return Err(ValidationError::DuplicateNodeName);
        }
        let mut k: usize = 0;
        while k < self.parachains.len()
            invariant
                0 <= k <= self.parachains@.len(),
                self.relaychain_nodes@.len() >= 1,
                unique_names(self.spec_names()),
                forall|m: int|
                    0 <= m < k ==> #[trigger] self.parachains@[m].collators@.len() >= 1,
            decreases self.parachains@.len() - k,
        {
            if self.parachains[k].collators.len() == 0 {
                return Err(ValidationError::ParachainWithoutCollator);
            }
            k = k + 1;
        }
        let d = TopologyDescriptor {
            chain_id: self.chain_id,
            genesis_overrides: self.genesis_overrides,
            relaychain_nodes: self.relaychain_nodes,
            parachains: self.parachains,
        };
        proof {
            assert(d.spec_node_names() == names.deep_view());
        }
        Ok(d)
    }
}

/// Collect every node name of the would-be descriptor, relaychain validators
/// first, then the collators, parachain by parachain.
fn collect_names(relay: &Vec<NodeSpec>, paras: &Vec<ParachainSpec>) -> (names: Vec<String>)
    ensures
        names.deep_view() == names_of(relay@ + collator_nodes(paras@)),
{
    let mut names: Vec<String> = Vec::new();
    let mut i: usize = 0;
    while i < relay.len()
        invariant
            0 <= i <= relay@.len(),
            names@ =~= name_strings(relay@.take(i as int)),
        decreases relay@.len() - i,
    {
        names.push(relay[i].name.clone());
        proof {
            assert(names@ =~= name_strings(relay@.take(i as int + 1)));
        }
        i = i + 1;
    }
    proof {
        assert(relay@.take(relay@.len() as int) =~= relay@);
    }
    let mut k: usize = 0;
    while k < paras.len()
        invariant
            0 <= k <= paras@.len(),
            names@ =~= name_strings(relay@ + collator_nodes(paras@.take(k as int))),
        decreases paras@.len() - k,
    {
        let collators = &paras[k].collators;
        let mut j: usize = 0;
        while j < collators.len()
            invariant
                0 <= j <= collators@.len(),
                collators@ == paras@[k as int].collators@,
                0 <= k < paras@.len(),
                names@ =~= name_strings(
                    relay@ + collator_nodes(paras@.take(k as int)) + collators@.take(j as int),
                ),
            decreases collators@.len() - j,
        {
            names.push(collators[j].name.clone());
            proof {
                assert(names@ =~= name_strings(
                    relay@ + collator_nodes(paras@.take(k as int)) + collators@.take(j as int + 1),
                ));
            }
            j = j + 1;
        }
        proof {
            lemma_collator_nodes_take_step(paras@, k as int);
            assert(collators@.take(collators@.len() as int) =~= collators@);
            assert(relay@ + collator_nodes(paras@.take(k as int)) + collators@ =~= relay@
                + collator_nodes(paras@.take(k as int + 1)));
        }
        k = k + 1;
    }
    proof {
        assert(paras@.take(paras@.len() as int) =~= paras@);
        let all = relay@ + collator_nodes(paras@);
        assert forall|m: int| 0 <= m < all.len() implies names.deep_view()[m] == names_of(all)[m] by {
            assert(names@[m] == name_strings(all)[m]);
            assert(names.deep_view()[m] == names@[m]@);
        }
        assert(names.deep_view() =~= names_of(all));
    }
    names
}

/// True exactly when some name occurs twice in the list.
fn has_duplicate(names: &Vec<String>) -> (b: bool)
    ensures
        b == !unique_names(names.deep_view()),
{
    let mut i: usize = 0;
    while i < names.len()
        invariant
            0 <= i <= names@.len(),
            forall|p: int, q: int|
                0 <= p < q < names.deep_view().len() && p < i ==> names.deep_view()[p]
                    != names.deep_view()[q],
        decreases names@.len() - i,
    {
        let mut j: usize = i + 1;
        while j < names.len()
            invariant
                0 <= i < j <= names@.len(),
                forall|q: int|
                    i < q < j ==> names.deep_view()[i as int] != #[trigger] names.deep_view()[q],
            decreases names@.len() - j,
        {
            if names[i] == names[j] {
                proof {
                    assert(names.deep_view()[i as int] == names@[i as int]@);
                    assert(names.deep_view()[j as int] == names@[j as int]@);
                    assert(!unique_names(names.deep_view()));
                }
                return true;
            }
            j = j + 1;
        }
        i = i + 1;
    }
    false
}

} // verus!
