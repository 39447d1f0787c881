use vstd::prelude::*;

use egui_snarl::{NodeId, OutPinId, Snarl};

use crate::node::NoiseNode;

verus! {

/// The graph store: nodes by stable index, and wires between their pins.
#[verifier::external_type_specification]
#[verifier::external_body]
#[verifier::reject_recursive_types(T)]
pub struct ExSnarl<T>(Snarl<T>);

/// The nodes that a graph holds, by index.
pub uninterp spec fn graph_nodes(g: Snarl<NoiseNode>) -> Map<usize, NoiseNode>;

/// The wires of a graph, each as (output node, output pin, input node, input pin).
pub uninterp spec fn graph_wires(g: Snarl<NoiseNode>) -> Set<(usize, usize, usize, usize)>;

/// Whether a wire leads from the output of node `x` to some input of node `y`.
pub open spec fn feeds(wires: Set<(usize, usize, usize, usize)>, x: usize, y: usize) -> bool {
    exists|q: usize| #[trigger] wires.contains((x, 0usize, y, q))
}

/// Relies on `Snarl::get_node`: the node stored at `idx`, if any.
#[verifier::external_body]
pub(crate) fn graph_node(g: &Snarl<NoiseNode>, idx: usize) -> (r: Option<&NoiseNode>)
    ensures
        r is Some == graph_nodes(*g).contains_key(idx),
        r is Some ==> *r->0 == graph_nodes(*g)[idx],
{
    g.get_node(NodeId(idx))
}

/// Relies on `Snarl`'s `IndexMut`: overwrites the node stored at `idx`,
/// leaving the other nodes and all wires as they were. Panics on a vacant index.
#[verifier::external_body]
pub(crate) fn set_graph_node(g: &mut Snarl<NoiseNode>, idx: usize, node: NoiseNode)
    requires
        graph_nodes(*old(g)).contains_key(idx),
    ensures
        graph_nodes(*final(g)) == graph_nodes(*old(g)).insert(idx, node),
        graph_wires(*final(g)) == graph_wires(*old(g)),
{
    g[NodeId(idx)] = node;
}

/// Relies on `Snarl::out_pin`: the nodes wired to output pin 0 of `idx`, one
/// entry per wire.
#[verifier::external_body]
pub(crate) fn output_consumers(g: &Snarl<NoiseNode>, idx: usize) -> (r: Vec<usize>)
    ensures
        forall|k: int| 0 <= k < r.len() ==> feeds(graph_wires(*g), idx, #[trigger] r@[k]),
        forall|y: usize| feeds(graph_wires(*g), idx, y) ==> r@.contains(y),
{
    g.out_pin(OutPinId { node: NodeId(idx), output: 0 }).remotes.iter().map(|remote| remote.node.0).collect()
}

} // verus!
