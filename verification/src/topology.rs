//! The immutable, declarative description of a test network: one relaychain
//! with its validators, and parachains with their collators.

use vstd::prelude::*;
use crate::genesis::GenesisOverrides;

verus! {

/// One process to spawn: a unique name, a symbolic executable reference that
/// the launcher resolves to a binary, an optional subcommand, and arguments.
#[derive(Debug)]
pub struct NodeSpec {
    pub name: String,
    pub command: String,
    pub subcommand: Option<String>,
    pub args: Vec<String>,
}

/// How a parachain is registered with the relaychain.
#[derive(Clone, Copy, Debug, PartialEq, Eq, Structural)]
pub enum RegistrationStrategy {
    /// The parachain's genesis state is embedded into the relaychain's
    /// genesis before any relaychain node starts.
    InGenesis,
    /// The parachain is registered through an extrinsic after launch.
    InBlock,
}

/// One parachain: its identifier, runtime flavour, registration strategy,
/// and the collators that produce its blocks.
#[derive(Debug)]
pub struct ParachainSpec {
    pub id: u32,
    pub is_cumulus_based: bool,
    pub registration_strategy: RegistrationStrategy,
    pub collators: Vec<NodeSpec>,
}

/// An immutable description of a whole network, produced by the builder and
/// consumed exactly once by a launcher.
#[derive(Debug)]
pub struct TopologyDescriptor {
    pub chain_id: String,
    pub genesis_overrides: GenesisOverrides,
    pub relaychain_nodes: Vec<NodeSpec>,
    pub parachains: Vec<ParachainSpec>,
}

/// The names of a sequence of nodes, in order.
pub open spec fn names_of(nodes: Seq<NodeSpec>) -> Seq<Seq<char>> {
    nodes.map_values(|n: NodeSpec| n.name@)
}

/// The names of a sequence of nodes as owned strings, in order.
pub open spec fn name_strings(nodes: Seq<NodeSpec>) -> Seq<String> {
    nodes.map_values(|n: NodeSpec| n.name)
}

/// All collators of a sequence of parachains, parachain by parachain, each
/// parachain's collators in their declared order.
pub open spec fn collator_nodes(paras: Seq<ParachainSpec>) -> Seq<NodeSpec>
    decreases paras.len(),
{
    if paras.len() == 0 {
        Seq::empty()
    } else {
        collator_nodes(paras.drop_last()) + paras.last().collators@
    }
}

/// For every collator of `paras`, in the order of `collator_nodes`, the
/// identifier of the parachain that owns it.
pub open spec fn collator_para_ids(paras: Seq<ParachainSpec>) -> Seq<Option<u32>>
    decreases paras.len(),
{
    if paras.len() == 0 {
        Seq::empty()
    } else {
        collator_para_ids(paras.drop_last()) + Seq::new(
            paras.last().collators@.len(),
            |i: int| Some(paras.last().id),
        )
    }
}

/// The number of collators declared over a sequence of parachains.
pub open spec fn collator_count(paras: Seq<ParachainSpec>) -> int
    decreases paras.len(),
{
    if paras.len() == 0 {
        0
    } else {
        collator_count(paras.drop_last()) + paras.last().collators@.len()
    }
}

/// No name occurs twice.
pub open spec fn unique_names(names: Seq<Seq<char>>) -> bool {
    forall|i: int, j: int| 0 <= i < j < names.len() ==> names[i] != names[j]
}

impl TopologyDescriptor {
    /// Every process the descriptor declares: relaychain validators first,
    /// then all collators.
    pub open spec fn spec_all_nodes(self) -> Seq<NodeSpec> {
        self.relaychain_nodes@ + collator_nodes(self.parachains@)
    }

    /// The names of all declared processes, in spawn order.
    pub open spec fn spec_node_names(self) -> Seq<Seq<char>> {
        names_of(self.spec_all_nodes())
    }

    /// How many processes the descriptor declares.
    pub open spec fn spec_node_count(self) -> int {
        self.spec_all_nodes().len() as int
    }

    /// The descriptor invariant the builder establishes: at least one
    /// relaychain node, at least one collator per parachain, and node names
    /// unique across the whole descriptor.
    pub open spec fn wf(self) -> bool {
        &&& self.relaychain_nodes@.len() >= 1
        &&& unique_names(self.spec_node_names())
        &&& forall|k: int|
            0 <= k < self.parachains@.len() ==> #[trigger] self.parachains@[k].collators@.len()
                >= 1
    }

    /// Count the declared processes.
    pub fn node_count(&self) -> (n: usize)
        requires
            self.spec_node_count() <= usize::MAX,
        ensures
            n == self.spec_node_count(),
    {
        let mut n: usize = self.relaychain_nodes.len();
        let mut k: usize = 0;
        while k < self.parachains.len()
            invariant
                0 <= k <= self.parachains@.len(),
                self.spec_node_count() <= usize::MAX,
                n == self.relaychain_nodes@.len() + collator_nodes(
                    self.parachains@.take(k as int),
                ).len(),
            decreases self.parachains@.len() - k,
        {
            proof {
                lemma_collator_nodes_take_step(self.parachains@, k as int);
                lemma_collator_nodes_prefix_len(self.parachains@, k as int + 1);
            }
            n = n + self.parachains[k].collators.len();
            k = k + 1;
        }
        proof {
            assert(self.parachains@.take(self.parachains@.len() as int) =~= self.parachains@);
        }
        n
    }
}

/// Appending one parachain appends exactly its collators.
pub proof fn lemma_collator_nodes_take_step(paras: Seq<ParachainSpec>, k: int)
    requires
        0 <= k < paras.len(),
    ensures
        collator_nodes(paras.take(k + 1)) == collator_nodes(paras.take(k)) + paras[k].collators@,
        collator_para_ids(paras.take(k + 1)) == collator_para_ids(paras.take(k)) + Seq::new(
            paras[k].collators@.len(),
            |i: int| Some(paras[k].id),
        ),
        collator_count(paras.take(k + 1)) == collator_count(paras.take(k))
            + paras[k].collators@.len(),
    decreases paras.len(),
{
    let pre = paras.take(k + 1);
    assert(pre.drop_last() =~= paras.take(k));
    assert(pre.last() == paras[k]);
}

/// A prefix of the parachain list never declares more collators than fit the
/// whole list.
pub proof fn lemma_collator_nodes_prefix_len(paras: Seq<ParachainSpec>, k: int)
    requires
        0 <= k <= paras.len(),
    ensures
        collator_nodes(paras.take(k)).len() <= collator_nodes(paras).len(),
    decreases paras.len() - k,
{
    if k < paras.len() {
        lemma_collator_nodes_take_step(paras, k);
        lemma_collator_nodes_prefix_len(paras, k + 1);
    } else {
        assert(paras.take(k) =~= paras);
    }
}

/// The collators of a parachain sequence number exactly `collator_count`.
pub proof fn lemma_collator_nodes_len(paras: Seq<ParachainSpec>)
    ensures
        collator_nodes(paras).len() == collator_count(paras),
        collator_para_ids(paras).len() == collator_count(paras),
    decreases paras.len(),
{
    if paras.len() > 0 {
        lemma_collator_nodes_len(paras.drop_last());
    }
}

/// A descriptor declares its relaychain validators plus all collators of all
/// parachains, and nothing else.
pub proof fn lemma_node_count_decomposition(d: TopologyDescriptor)
    ensures
        d.spec_node_count() == d.relaychain_nodes@.len() + collator_count(d.parachains@),
{
    lemma_collator_nodes_len(d.parachains@);
}

impl NodeSpec {
    /// A node running `command` with no subcommand and no arguments.
    pub fn new(name: String, command: String) -> (n: NodeSpec)
        ensures
            n.name == name,
            n.command == command,
            n.subcommand is None,
            n.args@ == Seq::<String>::empty(),
    {
        NodeSpec { name, command, subcommand: None, args: Vec::new() }
    }

    /// Replace the node's subcommand.
    pub fn with_subcommand(self, subcommand: String) -> (n: NodeSpec)
        ensures
            n == (NodeSpec { subcommand: Some(subcommand), ..self }),
    {
        NodeSpec { subcommand: Some(subcommand), ..self }
    }

    /// Replace the node's argument list.
    pub fn with_args(self, args: Vec<String>) -> (n: NodeSpec)
        ensures
            n == (NodeSpec { args, ..self }),
    {
        NodeSpec { args, ..self }
    }
}

impl ParachainSpec {
    /// A parachain with no collators yet.
    pub fn new(id: u32, is_cumulus_based: bool, registration_strategy: RegistrationStrategy) -> (p:
        ParachainSpec)
        ensures
            p.id == id,
            p.is_cumulus_based == is_cumulus_based,
            p.registration_strategy == registration_strategy,
            p.collators@ == Seq::<NodeSpec>::empty(),
    {
        ParachainSpec { id, is_cumulus_based, registration_strategy, collators: Vec::new() }
    }

    /// Append one collator.
    pub fn with_collator(self, collator: NodeSpec) -> (p: ParachainSpec)
        ensures
            p.id == self.id,
            p.is_cumulus_based == self.is_cumulus_based,
            p.registration_strategy == self.registration_strategy,
            p.collators@ == self.collators@.push(collator),
    {
        let mut p = self;
        p.collators.push(collator);
        p
    }
}

/// Two string vectors whose elements read back the same have the same
/// sequence of views.
pub proof fn lemma_equal_views_equal_deep_views(v1: Vec<String>, v2: Vec<String>)
    requires
        v1@ == v2@,
    ensures
        v1.deep_view() == v2.deep_view(),
{
    assert forall|m: int| 0 <= m < v1.deep_view().len() implies v1.deep_view()[m]
        == v2.deep_view()[m] by {
        assert(v1.deep_view()[m] == v1@[m]@);
        assert(v2.deep_view()[m] == v2@[m]@);
    }
    assert(v1.deep_view() =~= v2.deep_view());
}

/// Copy a vector of strings; the copy reads back identically.
pub(crate) fn clone_string_vec(v: &Vec<String>) -> (r: Vec<String>)
    ensures
        r@ == v@,
{
    let mut r: Vec<String> = Vec::new();
    let mut i: usize = 0;
    while i < v.len()
        invariant
            0 <= i <= v@.len(),
            r@ =~= v@.take(i as int),
        decreases v@.len() - i,
    {
        r.push(v[i].clone());
        proof {
            assert(r@ =~= v@.take(i as int + 1));
        }
        i = i + 1;
    }
    proof {
        assert(r@ =~= v@);
    }
    r
}

} // verus!
