//! The worker directory: the known prover nodes, the SNARK-capable subset,
//! and the first-idle-wins selection rule.

use vstd::prelude::*;

verus! {

/// One remote prover node.
pub struct ProverNode {
    pub addr: String,
}

impl ProverNode {
    /// Builds a node entry from its address.
    pub fn new(addr: &str) -> (r: ProverNode)
        ensures
            r.addr@ == addr@,
    {
        ProverNode { addr: addr.to_owned() }
    }
}

/// The process-wide registry of prover nodes, constructed once from
/// configuration and borrowed by every caller.
pub struct ProverNodes {
    pub nodes: Vec<ProverNode>,
    pub snark_nodes: Vec<ProverNode>,
}

impl ProverNodes {
    /// Builds the registry from the configured node sets.
    pub fn new(nodes: Vec<ProverNode>, snark_nodes: Vec<ProverNode>) -> (r: ProverNodes)
        ensures
            r.nodes == nodes,
            r.snark_nodes == snark_nodes,
    {
        ProverNodes { nodes, snark_nodes }
    }
}

/// A copy of the general node list, in registry order.
pub fn get_nodes(directory: &ProverNodes) -> (r: Vec<ProverNode>)
    ensures
        r@.len() == directory.nodes@.len(),
        forall|i: int|
            0 <= i < r@.len() ==> #[trigger] r@[i].addr@ == directory.nodes@[i].addr@,
{
    copy_nodes(&directory.nodes)
}

/// A copy of the SNARK-capable node list, in registry order.
pub fn get_snark_nodes(directory: &ProverNodes) -> (r: Vec<ProverNode>)
    ensures
        r@.len() == directory.snark_nodes@.len(),
        forall|i: int|
            0 <= i < r@.len() ==> #[trigger] r@[i].addr@ == directory.snark_nodes@[i].addr@,
{
    copy_nodes(&directory.snark_nodes)
}

fn copy_nodes(nodes: &Vec<ProverNode>) -> (r: Vec<ProverNode>)
    ensures
        r@.len() == nodes@.len(),
        forall|i: int| 0 <= i < r@.len() ==> #[trigger] r@[i].addr@ == nodes@[i].addr@,
{
    let mut out: Vec<ProverNode> = Vec::new();
    let mut i: usize = 0;
    while i < nodes.len()
        invariant
            0 <= i <= nodes@.len(),
            out@.len() == i,
            forall|j: int| 0 <= j < i ==> #[trigger] out@[j].addr@ == nodes@[j].addr@,
        decreases nodes@.len() - i,
    {
        let addr = nodes[i].addr.clone();
        out.push(ProverNode { addr });
        i += 1;
    }
    out
}

/// First-idle-wins: the index of the first node whose liveness probe
/// succeeded, if any did.
pub fn select_idle(nodes: &Vec<ProverNode>, active: &Vec<bool>) -> (r: Option<usize>)
    requires
        active@.len() == nodes@.len(),
    ensures
        match r {
            Some(i) => i < nodes@.len() && active@[i as int] && forall|j: int|
                0 <= j < i ==> !active@[j],
            None => forall|j: int| 0 <= j < nodes@.len() ==> !active@[j],
        },
{
    let mut i: usize = 0;
    while i < active.len()
        invariant
            0 <= i <= active@.len(),
            active@.len() == nodes@.len(),
            forall|j: int| 0 <= j < i ==> !active@[j],
        decreases active@.len() - i,
    {
        if active[i] {
            return Some(i);
        }
        i += 1;
    }
    None
}

} // verus!
