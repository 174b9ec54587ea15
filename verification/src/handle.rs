//! The live-network handle: a registry of the nodes a launch brought up,
//! name lookup, client-endpoint resolution, and idempotent shutdown.
//!
//! The handle is the decision layer over a running network: the processes
//! themselves live with the launcher, which consults this registry and closes
//! it on teardown. After `shutdown` every lookup fails with
//! `AccessError::NetworkClosed` instead of handing out stale references.

use vstd::prelude::*;
use crate::errors::AccessError;
use crate::plan::LaunchPlan;
use crate::topology::unique_names;

verus! {

/// One running node: its unique name, the RPC port a chain client connects
/// to, and the telemetry port its metrics are scraped from.
#[derive(Debug)]
pub struct LiveNodeRef {
    pub name: String,
    pub rpc_port: u16,
    pub prometheus_port: u16,
}

/// A live network: the node registry of one launched topology and a closed
/// flag that `shutdown` sets.
#[derive(Debug)]
pub struct NetworkHandle {
    pub nodes: Vec<LiveNodeRef>,
    pub closed: bool,
}

/// The names of a sequence of live nodes, in order.
pub open spec fn live_node_names(nodes: Seq<LiveNodeRef>) -> Seq<Seq<char>> {
    nodes.map_values(|n: LiveNodeRef| n.name@)
}

/// The index of the first node bearing `name`, if any.
pub open spec fn spec_find_node(nodes: Seq<LiveNodeRef>, name: Seq<char>) -> Option<int>
    decreases nodes.len(),
{
    if nodes.len() == 0 {
        None
    } else if nodes[0].name@ == name {
        Some(0)
    } else {
        match spec_find_node(nodes.drop_first(), name) {
            Some(i) => Some(i + 1),
            None => None,
        }
    }
}

/// What a lookup on a handle resolves to: the index of the first node bearing
/// the name, `NetworkClosed` after shutdown, `NotFound` for an absent name.
pub open spec fn spec_get_node(h: NetworkHandle, name: Seq<char>) -> Result<int, AccessError> {
    if h.closed {
        Err(AccessError::NetworkClosed)
    } else {
        match spec_find_node(h.nodes@, name) {
            Some(i) => Ok(i),
            None => Err(AccessError::NotFound),
        }
    }
}

/// The handle after a shutdown: same registry, closed.
pub open spec fn spec_shutdown(h: NetworkHandle) -> NetworkHandle {
    NetworkHandle { closed: true, ..h }
}

/// If no node bears `name`, the search finds nothing.
proof fn lemma_find_node_none(nodes: Seq<LiveNodeRef>, name: Seq<char>)
    requires
        forall|j: int| 0 <= j < nodes.len() ==> (#[trigger] nodes[j]).name@ != name,
    ensures
        spec_find_node(nodes, name) is None,
    decreases nodes.len(),
{
    if nodes.len() > 0 {
        lemma_find_node_none(nodes.drop_first(), name);
    }
}

/// If `i` is the first index bearing `name`, the search finds exactly `i`.
proof fn lemma_find_node_at(nodes: Seq<LiveNodeRef>, name: Seq<char>, i: int)
    requires
        0 <= i < nodes.len(),
        nodes[i].name@ == name,
        forall|j: int| 0 <= j < i ==> (#[trigger] nodes[j]).name@ != name,
    ensures
        spec_find_node(nodes, name) == Some(i),
    decreases i,
{
    if i > 0 {
        lemma_find_node_at(nodes.drop_first(), name, i - 1);
    }
}

impl NetworkHandle {
    /// Unique node names; established at launch and preserved thereafter.
    pub open spec fn wf(self) -> bool {
        unique_names(live_node_names(self.nodes@))
    }

    /// Register one live node per planned process, open for access.
    pub fn from_plan(plan: &LaunchPlan) -> (h: NetworkHandle)
        ensures
            !h.closed,
            h.nodes@.len() == plan.processes@.len(),
            forall|i: int|
                0 <= i < h.nodes@.len() ==> (#[trigger] h.nodes@[i]).name@
                    == plan.processes@[i].name@ && h.nodes@[i].rpc_port
                    == plan.processes@[i].rpc_port && h.nodes@[i].prometheus_port
                    == plan.processes@[i].prometheus_port,
    {
        let mut nodes: Vec<LiveNodeRef> = Vec::new();
        let mut i: usize = 0;
        while i < plan.processes.len()
            invariant
                0 <= i <= plan.processes@.len(),
                nodes@.len() == i,
                forall|m: int|
                    0 <= m < i ==> (#[trigger] nodes@[m]).name@ == plan.processes@[m].name@
                        && nodes@[m].rpc_port == plan.processes@[m].rpc_port
                        && nodes@[m].prometheus_port == plan.processes@[m].prometheus_port,
            decreases plan.processes@.len() - i,
        {
            nodes.push(
                LiveNodeRef {
                    name: plan.processes[i].name.clone(),
                    rpc_port: plan.processes[i].rpc_port,
                    prometheus_port: plan.processes[i].prometheus_port,
                },
            );
            i = i + 1;
        }
        NetworkHandle { nodes, closed: false }
    }

    /// Resolve a node by exact name. Succeeds with the first node bearing the
    /// name; fails with `NetworkClosed` after a shutdown and with `NotFound`
    /// for an absent name.
    pub fn get_node(&self, name: &String) -> (r: Result<&LiveNodeRef, AccessError>)
        ensures
            match (r, spec_get_node(*self, name@)) {
                (Ok(node), Ok(i)) => *node == self.nodes@[i],
                (Err(e), Err(f)) => e == f,
                _ => false,
            },
    {
        if self.closed {
            return Err(AccessError::NetworkClosed);
        }
        let mut i: usize = 0;
        while i < self.nodes.len()
            invariant
                0 <= i <= self.nodes@.len(),
                !self.closed,
                forall|j: int| 0 <= j < i ==> (#[trigger] self.nodes@[j]).name@ != name@,
            decreases self.nodes@.len() - i,
        {
            if self.nodes[i].name == *name {
                proof {
                    lemma_find_node_at(self.nodes@, name@, i as int);
                }
                return Ok(&self.nodes[i]);
            }
            i = i + 1;
        }
        proof {
            lemma_find_node_none(self.nodes@, name@);
        }
        Err(AccessError::NotFound)
    }

    /// Resolve the RPC port a chain client for the named node must connect
    /// to. Fails exactly as `get_node` does.
    pub fn get_client_endpoint(&self, name: &String) -> (r: Result<u16, AccessError>)
        ensures
            match (r, spec_get_node(*self, name@)) {
                (Ok(port), Ok(i)) => port == self.nodes@[i].rpc_port,
                (Err(e), Err(f)) => e == f,
                _ => false,
            },
    {
        match self.get_node(name) {
            Ok(node) => Ok(node.rpc_port),
            Err(e) => Err(e),
        }
    }

    /// Resolve the telemetry port the named node's metrics are scraped from.
    /// Fails exactly as `get_node` does.
    pub fn telemetry_endpoint(&self, name: &String) -> (r: Result<u16, AccessError>)
        ensures
            match (r, spec_get_node(*self, name@)) {
                (Ok(port), Ok(i)) => port == self.nodes@[i].prometheus_port,
                (Err(e), Err(f)) => e == f,
                _ => false,
            },
    {
        match self.get_node(name) {
            Ok(node) => Ok(node.prometheus_port),
            Err(e) => Err(e),
        }
    }

    /// Close the handle. The registry is kept, but every later access fails
    /// with `NetworkClosed`. Safe to call any number of times.
    pub fn shutdown(&mut self)
        ensures
            *final(self) == spec_shutdown(*old(self)),
    {
        self.closed = true;
    }

    /// How many live node references the handle exposes.
    pub fn node_count(&self) -> (n: usize)
        ensures
            n == self.nodes@.len(),
    {
        self.nodes.len()
    }
}

/// A name lookup is idempotent: on a handle with unique names, every index
/// whose node bears the looked-up name is the one index the lookup resolves
/// to, so repeated calls return references to the same underlying node.
pub proof fn lemma_get_node_deterministic(h: NetworkHandle, name: Seq<char>, i: int)
    requires
        h.wf(),
        !h.closed,
        0 <= i < h.nodes@.len(),
        h.nodes@[i].name@ == name,
    ensures
        spec_get_node(h, name) == Ok::<int, AccessError>(i),
{
    assert forall|j: int| 0 <= j < i implies (#[trigger] h.nodes@[j]).name@ != name by {
        assert(live_node_names(h.nodes@)[j] == h.nodes@[j].name@);
        assert(live_node_names(h.nodes@)[i] == h.nodes@[i].name@);
    }
    lemma_find_node_at(h.nodes@, name, i);
}

/// Shutting down is idempotent — a second shutdown changes nothing — and
/// after either one every lookup fails with `NetworkClosed`.
pub proof fn lemma_shutdown_idempotent(h: NetworkHandle)
    ensures
        spec_shutdown(spec_shutdown(h)) == spec_shutdown(h),
        forall|name: Seq<char>|
            spec_get_node(spec_shutdown(h), name) == Err::<int, AccessError>(
                AccessError::NetworkClosed,
            ),
{
}

/// A handle built from a launch plan that covers a descriptor exposes exactly
/// the descriptor's nodes: its relaychain validators plus every collator of
/// every parachain, under their declared names.
pub proof fn lemma_handle_covers_descriptor(
    d: crate::topology::TopologyDescriptor,
    plan: LaunchPlan,
    h: NetworkHandle,
    base: crate::genesis::ChainSpecConfig,
    base_port: u16,
)
    requires
        plan.covers(d, base, base_port),
        !h.closed,
        h.nodes@.len() == plan.processes@.len(),
        forall|i: int|
            0 <= i < h.nodes@.len() ==> (#[trigger] h.nodes@[i]).name@ == plan.processes@[i].name@,
    ensures
        h.nodes@.len() == d.relaychain_nodes@.len() + crate::topology::collator_count(
            d.parachains@,
        ),
        live_node_names(h.nodes@) == d.spec_node_names(),
        d.wf() ==> h.wf(),
{
    crate::topology::lemma_node_count_decomposition(d);
    assert forall|i: int|
        0 <= i < h.nodes@.len() implies live_node_names(h.nodes@)[i] == d.spec_node_names()[i] by {
        assert(crate::plan::process_matches_node(plan.processes@[i], d.spec_all_nodes()[i]));
    }
    assert(live_node_names(h.nodes@) =~= d.spec_node_names());
}

} // verus!
