//! The deterministic part of launching a network: materialize a descriptor
//! into a launch plan — the shared chain spec, the parachains to embed into
//! the relaychain genesis, and one planned process per node with a collision
//! free port assignment — and decide the outcome of the spawn phase.
//!
//! Executing the plan (resolving binaries, spawning OS processes, watching
//! liveness) is outer-layer work; its observations come back here as plain
//! values to be judged.

use vstd::prelude::*;
use crate::errors::LaunchError;
use crate::genesis::{ChainSpecConfig, spec_merged};
use crate::topology::{
    NodeSpec, ParachainSpec, RegistrationStrategy, TopologyDescriptor, collator_nodes,
    collator_para_ids, clone_string_vec, lemma_collator_nodes_take_step,
};

verus! {

/// One process the launcher is to spawn: the resolved node fragment plus the
/// network wiring assigned to it.
#[derive(Debug)]
pub struct PlannedProcess {
    pub name: String,
    pub command: String,
    pub subcommand: Option<String>,
    pub args: Vec<String>,
    /// The RPC listen port assigned to this node; distinct per process and
    /// from every telemetry port.
    pub rpc_port: u16,
    /// The telemetry (metrics) listen port assigned to this node; distinct
    /// per process and from every RPC port.
    pub prometheus_port: u16,
    /// The owning parachain for a collator, `None` for a relaychain node.
    pub para_id: Option<u32>,
}

/// Everything a launcher needs to bring a descriptor up: the chain spec all
/// relaychain nodes share, the parachains whose genesis must be embedded
/// before any relaychain process starts, and the processes in spawn order
/// (relaychain validators first, then collators).
#[derive(Debug)]
pub struct LaunchPlan {
    pub chain_id: String,
    pub chain_config: ChainSpecConfig,
    pub genesis_parachain_ids: Vec<u32>,
    pub processes: Vec<PlannedProcess>,
}

/// A planned process carries exactly the fragment of one declared node.
pub open spec fn process_matches_node(p: PlannedProcess, n: NodeSpec) -> bool {
    &&& p.name@ == n.name@
    &&& p.command@ == n.command@
    &&& p.subcommand.deep_view() == n.subcommand.deep_view()
    &&& p.args.deep_view() == n.args.deep_view()
}

/// The identifiers of the parachains registered at genesis, in declaration
/// order.
pub open spec fn genesis_para_ids(paras: Seq<ParachainSpec>) -> Seq<u32>
    decreases paras.len(),
{
    if paras.len() == 0 {
        Seq::empty()
    } else {
        genesis_para_ids(paras.drop_last()) + (if paras.last().registration_strategy
            == RegistrationStrategy::InGenesis {
            seq![paras.last().id]
        } else {
            Seq::empty()
        })
    }
}

impl LaunchPlan {
    /// The plan covers a descriptor: the shared chain spec is the defaults
    /// patched by the descriptor's overrides, genesis registration is decided
    /// before any process spawns, and the processes are the descriptor's
    /// nodes in spawn order with collision-free ports counted up from a base.
    pub open spec fn covers(self, d: TopologyDescriptor, base: ChainSpecConfig, base_port: u16)
        -> bool {
        &&& self.chain_id@ == d.chain_id@
        &&& self.chain_config == spec_merged(base, d.genesis_overrides)
        &&& self.genesis_parachain_ids@ == genesis_para_ids(d.parachains@)
        &&& self.processes@.len() == d.spec_node_count()
        &&& forall|i: int|
            0 <= i < self.processes@.len() ==> process_matches_node(
                #[trigger] self.processes@[i],
                d.spec_all_nodes()[i],
            )
        &&& forall|i: int|
            0 <= i < self.processes@.len() ==> (#[trigger] self.processes@[i]).rpc_port == base_port
                + 2 * i
        &&& forall|i: int|
            0 <= i < self.processes@.len() ==> (#[trigger] self.processes@[i]).prometheus_port
                == base_port + 2 * i + 1
        &&& forall|i: int|
            0 <= i < d.relaychain_nodes@.len() ==> (#[trigger] self.processes@[i]).para_id is None
        &&& forall|i: int|
            d.relaychain_nodes@.len() <= i < self.processes@.len()
                ==> (#[trigger] self.processes@[i]).para_id == collator_para_ids(d.parachains@)[i
                - d.relaychain_nodes@.len()]
    }
}

/// No port is assigned twice, neither among the RPC ports, nor among the
/// telemetry ports, nor between the two sets: RPC ports take the even
/// offsets from the base and telemetry ports the odd ones.
pub proof fn lemma_plan_ports_distinct(
    plan: LaunchPlan,
    d: TopologyDescriptor,
    base: ChainSpecConfig,
    base_port: u16,
)
    requires
        plan.covers(d, base, base_port),
    ensures
        forall|i: int, j: int|
            0 <= i < j < plan.processes@.len() ==> (#[trigger] plan.processes@[i]).rpc_port != (
            #[trigger] plan.processes@[j]).rpc_port,
        forall|i: int, j: int|
            0 <= i < j < plan.processes@.len() ==> (#[trigger] plan.processes@[i]).prometheus_port
                != (#[trigger] plan.processes@[j]).prometheus_port,
        forall|i: int, j: int|
            0 <= i < plan.processes@.len() && 0 <= j < plan.processes@.len() ==> (
            #[trigger] plan.processes@[i]).rpc_port != (
            #[trigger] plan.processes@[j]).prometheus_port,
{
}

/// Materialize a descriptor into a launch plan. Pure data assembly: the
/// chain spec is derived by patching `base` with the descriptor's overrides,
/// parachains registered at genesis are listed before any process entry is
/// formed, and every declared node becomes exactly one planned process, in
/// spawn order, with its RPC and telemetry ports counted up from `base_port`
/// (even and odd offsets respectively, so no two assignments collide).
pub fn make_launch_plan(d: &TopologyDescriptor, base: &ChainSpecConfig, base_port: u16) -> (plan:
    LaunchPlan)
    requires
        2 * d.spec_node_count() + base_port <= u16::MAX,
    ensures
        plan.covers(*d, *base, base_port),
{
    let chain_config = base.apply_overrides(&d.genesis_overrides);
    let mut genesis_parachain_ids: Vec<u32> = Vec::new();
    let mut k: usize = 0;
    while k < d.parachains.len()
        invariant
            0 <= k <= d.parachains@.len(),
            genesis_parachain_ids@ =~= genesis_para_ids(d.parachains@.take(k as int)),
        decreases d.parachains@.len() - k,
    {
        proof {
            lemma_genesis_para_ids_take_step(d.parachains@, k as int);
        }
        if matches!(d.parachains[k].registration_strategy, RegistrationStrategy::InGenesis) {
            genesis_parachain_ids.push(d.parachains[k].id);
        }
        proof {
            assert(genesis_parachain_ids@ =~= genesis_para_ids(
                d.parachains@.take(k as int + 1),
            ));
        }
        k = k + 1;
    }
    proof {
        assert(d.parachains@.take(d.parachains@.len() as int) =~= d.parachains@);
    }

    let mut processes: Vec<PlannedProcess> = Vec::new();
    let mut i: usize = 0;
    while i < d.relaychain_nodes.len()
        invariant
            0 <= i <= d.relaychain_nodes@.len(),
            2 * d.spec_node_count() + base_port <= u16::MAX,
            processes@.len() == i,
            forall|m: int|
                0 <= m < i ==> process_matches_node(
                    #[trigger] processes@[m],
                    d.relaychain_nodes@[m],
                ),
            forall|m: int|
                0 <= m < i ==> (#[trigger] processes@[m]).rpc_port == base_port + 2 * m,
            forall|m: int|
                0 <= m < i ==> (#[trigger] processes@[m]).prometheus_port == base_port + 2 * m + 1,
            forall|m: int| 0 <= m < i ==> (#[trigger] processes@[m]).para_id is None,
        decreases d.relaychain_nodes@.len() - i,
    {
        proof {
            lemma_all_nodes_at_least_relay(*d);
        }
        let node = &d.relaychain_nodes[i];
        let rpc_port = base_port + 2 * (i as u16);
        let p = planned_from_node(node, rpc_port, rpc_port + 1, None);
        processes.push(p);
        i = i + 1;
    }

    let mut k: usize = 0;
    while k < d.parachains.len()
        invariant
            0 <= k <= d.parachains@.len(),
            2 * d.spec_node_count() + base_port <= u16::MAX,
            processes@.len() == d.relaychain_nodes@.len() + collator_nodes(
                d.parachains@.take(k as int),
            ).len(),
            forall|m: int|
                0 <= m < d.relaychain_nodes@.len() ==> process_matches_node(
                    #[trigger] processes@[m],
                    d.relaychain_nodes@[m],
                ),
            forall|m: int|
                d.relaychain_nodes@.len() <= m < processes@.len() ==> process_matches_node(
                    #[trigger] processes@[m],
                    collator_nodes(d.parachains@.take(k as int))[m - d.relaychain_nodes@.len()],
                ),
            forall|m: int|
                0 <= m < processes@.len() ==> (#[trigger] processes@[m]).rpc_port == base_port + 2
                    * m,
            forall|m: int|
                0 <= m < processes@.len() ==> (#[trigger] processes@[m]).prometheus_port
                    == base_port + 2 * m + 1,
            forall|m: int|
                0 <= m < d.relaychain_nodes@.len() ==> (#[trigger] processes@[m]).para_id is None,
            forall|m: int|
                d.relaychain_nodes@.len() <= m < processes@.len()
                    ==> (#[trigger] processes@[m]).para_id == collator_para_ids(
                    d.parachains@.take(k as int),
                )[m - d.relaychain_nodes@.len()],
        decreases d.parachains@.len() - k,
    {
        let collators = &d.parachains[k].collators;
        let para_id = d.parachains[k].id;
        let mut j: usize = 0;
        proof {
            lemma_collator_nodes_prefix_bound(d.parachains@, k as int);
        }
        while j < collators.len()
            invariant
                0 <= j <= collators@.len(),
                0 <= k < d.parachains@.len(),
                collators@ == d.parachains@[k as int].collators@,
                para_id == d.parachains@[k as int].id,
                2 * d.spec_node_count() + base_port <= u16::MAX,
                collator_nodes(d.parachains@.take(k as int)).len() + collators@.len()
                    <= collator_nodes(d.parachains@).len(),
                processes@.len() == d.relaychain_nodes@.len() + collator_nodes(
                    d.parachains@.take(k as int),
                ).len() + j,
                forall|m: int|
                    0 <= m < d.relaychain_nodes@.len() ==> process_matches_node(
                        #[trigger] processes@[m],
                        d.relaychain_nodes@[m],
                    ),
                forall|m: int|
                    d.relaychain_nodes@.len() <= m < processes@.len() ==> process_matches_node(
                        #[trigger] processes@[m],
                        (collator_nodes(d.parachains@.take(k as int)) + collators@.take(
                            j as int,
                        ))[m - d.relaychain_nodes@.len()],
                    ),
                forall|m: int|
                    0 <= m < processes@.len() ==> (#[trigger] processes@[m]).rpc_port == base_port
                        + 2 * m,
                forall|m: int|
                    0 <= m < processes@.len() ==> (#[trigger] processes@[m]).prometheus_port
                        == base_port + 2 * m + 1,
                forall|m: int|
                    0 <= m < d.relaychain_nodes@.len() ==> (#[trigger] processes@[m]).para_id
                        is None,
                forall|m: int|
                    d.relaychain_nodes@.len() <= m < processes@.len() - j
                        ==> (#[trigger] processes@[m]).para_id == collator_para_ids(
                        d.parachains@.take(k as int),
                    )[m - d.relaychain_nodes@.len()],
                forall|m: int|
                    processes@.len() - j <= m < processes@.len()
                        ==> (#[trigger] processes@[m]).para_id == Some(para_id),
            decreases collators@.len() - j,
        {
            proof {
                lemma_collator_nodes_len_bound(*d);
            }
            let node = &collators[j];
            let port_index: usize = processes.len();
            let rpc_port = base_port + 2 * (port_index as u16);
            let p = planned_from_node(node, rpc_port, rpc_port + 1, Some(para_id));
            processes.push(p);
            j = j + 1;
        }
        proof {
            lemma_collator_nodes_take_step(d.parachains@, k as int);
            assert(collators@.take(collators@.len() as int) =~= collators@);
            assert(collator_nodes(d.parachains@.take(k as int)) + collators@ =~= collator_nodes(
                d.parachains@.take(k as int + 1),
            ));
            assert(collator_para_ids(d.parachains@.take(k as int)) + Seq::new(
                collators@.len(),
                |i: int| Some(d.parachains@[k as int].id),
            ) =~= collator_para_ids(d.parachains@.take(k as int + 1)));
            crate::topology::lemma_collator_nodes_len(d.parachains@.take(k as int));
            crate::topology::lemma_collator_nodes_len(d.parachains@.take(k as int + 1));
            let relay_len = d.relaychain_nodes@.len() as int;
            let prev_ids = collator_para_ids(d.parachains@.take(k as int));
            let next_ids = collator_para_ids(d.parachains@.take(k as int + 1));
            assert forall|m: int|
                relay_len <= m < processes@.len() implies (#[trigger] processes@[m]).para_id
                == next_ids[m - relay_len] by {
                let off = m - relay_len;
                if off < prev_ids.len() {
                    assert(next_ids[off] == prev_ids[off]);
                } else {
                    assert(next_ids[off] == Seq::new(
                        collators@.len(),
                        |i: int| Some(d.parachains@[k as int].id),
                    )[off - prev_ids.len()]);
                }
            }
        }
        k = k + 1;
    }
    proof {
        assert(d.parachains@.take(d.parachains@.len() as int) =~= d.parachains@);
        assert forall|m: int| 0 <= m < processes@.len() implies process_matches_node(
            #[trigger] processes@[m],
            d.spec_all_nodes()[m],
        ) by {
            if m < d.relaychain_nodes@.len() {
                assert(d.spec_all_nodes()[m] == d.relaychain_nodes@[m]);
            } else {
                assert(d.spec_all_nodes()[m] == collator_nodes(d.parachains@)[m
                    - d.relaychain_nodes@.len()]);
            }
        }
    }
    LaunchPlan { chain_id: d.chain_id.clone(), chain_config, genesis_parachain_ids, processes }
}

/// Form the planned process of one node.
fn planned_from_node(
    node: &NodeSpec,
    rpc_port: u16,
    prometheus_port: u16,
    para_id: Option<u32>,
) -> (p: PlannedProcess)
    ensures
        process_matches_node(p, *node),
        p.rpc_port == rpc_port,
        p.prometheus_port == prometheus_port,
        p.para_id == para_id,
{
    let subcommand = match &node.subcommand {
        Some(s) => Some(s.clone()),
        None => None,
    };
    let p = PlannedProcess {
        name: node.name.clone(),
        command: node.command.clone(),
        subcommand,
        args: clone_string_vec(&node.args),
        rpc_port,
        prometheus_port,
        para_id,
    };
    proof {
        assert(p.args.deep_view() =~= node.args.deep_view());
    }
    p
}

/// Appending one parachain appends its identifier exactly when it registers
/// at genesis.
pub proof fn lemma_genesis_para_ids_take_step(paras: Seq<ParachainSpec>, k: int)
    requires
        0 <= k < paras.len(),
    ensures
        genesis_para_ids(paras.take(k + 1)) == genesis_para_ids(paras.take(k)) + (if paras[k].registration_strategy == RegistrationStrategy::InGenesis {
            seq![paras[k].id]
        } else {
            Seq::<u32>::empty()
        }),
{
    let pre = paras.take(k + 1);
    assert(pre.drop_last() =~= paras.take(k));
    assert(pre.last() == paras[k]);
}

/// A descriptor declares at least its relaychain nodes.
proof fn lemma_all_nodes_at_least_relay(d: TopologyDescriptor)
    ensures
        d.spec_node_count() >= d.relaychain_nodes@.len(),
{
}

/// The collators of any prefix fit within the collators of the whole list.
proof fn lemma_collator_nodes_prefix_bound(paras: Seq<ParachainSpec>, k: int)
    requires
        0 <= k < paras.len(),
    ensures
        collator_nodes(paras.take(k)).len() + paras[k].collators@.len() <= collator_nodes(
            paras,
        ).len(),
    decreases paras.len() - k,
{
    lemma_collator_nodes_take_step(paras, k);
    crate::topology::lemma_collator_nodes_prefix_len(paras, k + 1);
}

/// A descriptor's node count bounds its collator count.
proof fn lemma_collator_nodes_len_bound(d: TopologyDescriptor)
    ensures
        d.relaychain_nodes@.len() + collator_nodes(d.parachains@).len() == d.spec_node_count(),
{
}

/// Judge the binary-resolution step of a launch: every symbolic executable
/// must have resolved. `resolved` holds one flag per planned process.
pub fn binary_resolution_outcome(resolved: &Vec<bool>) -> (r: Result<(), LaunchError>)
    ensures
        r is Ok <==> (forall|i: int| 0 <= i < resolved@.len() ==> resolved@[i]),
        r is Err ==> r == Err::<(), LaunchError>(LaunchError::MissingBinary),
{
    let mut i: usize = 0;
    while i < resolved.len()
        invariant
            0 <= i <= resolved@.len(),
            forall|m: int| 0 <= m < i ==> resolved@[m],
        decreases resolved@.len() - i,
    {
        if !resolved[i] {
            return Err(LaunchError::MissingBinary);
        }
        i = i + 1;
    }
    Ok(())
}

/// Judge the spawn step of a launch: `spawned` holds one flag per attempted
/// process start, in spawn order. Every process must start; one that fails
/// after its binary already resolved leaves a partial network behind, which
/// the caller tears down before propagating `PartialStartupFailure`.
pub fn spawn_outcome(spawned: &Vec<bool>) -> (r: Result<(), LaunchError>)
    ensures
        r is Ok <==> (forall|i: int| 0 <= i < spawned@.len() ==> spawned@[i]),
        r is Err ==> r == Err::<(), LaunchError>(LaunchError::PartialStartupFailure),
{
    let mut i: usize = 0;
    while i < spawned.len()
        invariant
            0 <= i <= spawned@.len(),
            forall|m: int| 0 <= m < i ==> spawned@[m],
        decreases spawned@.len() - i,
    {
        if !spawned[i] {
            return Err(LaunchError::PartialStartupFailure);
        }
        i = i + 1;
    }
    Ok(())
}

/// Judge the liveness step of a launch from one flag per spawned process:
/// the launch succeeds only when every node reported liveness (process up,
/// RPC socket accepting connections) within the startup window; any node
/// that did not fails the whole launch with `NodeStartupTimeout`. On that
/// error the caller must tear down every process it started before
/// propagating.
pub fn startup_outcome(live: &Vec<bool>) -> (r: Result<(), LaunchError>)
    ensures
        r is Ok <==> (forall|i: int| 0 <= i < live@.len() ==> live@[i]),
        r is Err ==> r == Err::<(), LaunchError>(LaunchError::NodeStartupTimeout),
{
    let mut i: usize = 0;
    while i < live.len()
        invariant
            0 <= i <= live@.len(),
            forall|m: int| 0 <= m < i ==> live@[m],
        decreases live@.len() - i,
    {
        if !live[i] {
            return Err(LaunchError::NodeStartupTimeout);
        }
        i = i + 1;
    }
    Ok(())
}

} // verus!
