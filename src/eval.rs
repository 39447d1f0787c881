use vstd::prelude::*;

use egui_snarl::Snarl;

use crate::compile::{graph_rank, is_u32_value, lemma_node_valid, node_ok, node_valid, ranked, slot_measure, u32_ok, well_formed};
use crate::graph::{graph_node, graph_nodes};
use crate::node::NoiseNode;
use crate::value::{NodeValue, OpType};

verus! {

/// One u32 operation under the never-fail policy: an overflow, an underflow
/// or a division by zero gives 0.
pub open spec fn apply_u32(op: OpType, a: u32, b: u32) -> u32 {
    match op {
        OpType::Add => if a + b <= u32::MAX {
            (a + b) as u32
        } else {
            0
        },
        OpType::Divide => if b == 0 {
            0
        } else {
            (a / b) as u32
        },
        OpType::Multiply => if a * b <= u32::MAX {
            (a * b) as u32
        } else {
            0
        },
        OpType::Subtract => if a >= b {
            (a - b) as u32
        } else {
            0
        },
    }
}

/// The recursion measure of a u32 operation: above every slot it reads.
pub open spec fn op_measure(rank: spec_fn(usize) -> nat, n: NoiseNode) -> nat {
    match n {
        NoiseNode::U32Operation(op) => {
            let a = slot_measure(rank, op.inputs[0]);
            let b = slot_measure(rank, op.inputs[1]);
            if a >= b {
                a
            } else {
                b
            }
        },
        _ => 0,
    }
}

/// The value of a u32 slot.
pub open spec fn u32_slot_value(
    nodes: Map<usize, NoiseNode>,
    rank: spec_fn(usize) -> nat,
    v: NodeValue<u32>,
) -> u32
    decreases slot_measure(rank, v), 0nat,
    when ranked(nodes, rank)
{
    match v {
        NodeValue::Value(x) => x,
        NodeValue::Node(j) => if nodes.contains_key(j) {
            u32_node_value(nodes, rank, nodes[j])
        } else {
            0
        },
    }
}

/// The value of a u32 constant or u32 operation node.
pub open spec fn u32_node_value(
    nodes: Map<usize, NoiseNode>,
    rank: spec_fn(usize) -> nat,
    n: NoiseNode,
) -> u32
    decreases op_measure(rank, n), 1nat,
    when ranked(nodes, rank)
{
    match n {
        NoiseNode::U32(c) => c.value,
        NoiseNode::U32Operation(op) => apply_u32(
            op.op_ty,
            u32_slot_value(nodes, rank, op.inputs[0]),
            u32_slot_value(nodes, rank, op.inputs[1]),
        ),
        _ => 0,
    }
}

/// `op` applied to two operands under the never-fail policy.
pub fn checked_u32(op: OpType, lhs: u32, rhs: u32) -> (r: u32)
    ensures
        r == apply_u32(op, lhs, rhs),
{
    match op {
        OpType::Add => lhs.checked_add(rhs),
        OpType::Divide => lhs.checked_div(rhs),
        OpType::Multiply => lhs.checked_mul(rhs),
        OpType::Subtract => lhs.checked_sub(rhs),
    }.unwrap_or(0)
}

impl NodeValue<u32> {
    fn eval(self, snarl: &Snarl<NoiseNode>) -> (r: u32)
        requires
            well_formed(graph_nodes(*snarl)),
            u32_ok(graph_nodes(*snarl), graph_rank(graph_nodes(*snarl)), slot_measure(graph_rank(graph_nodes(*snarl)), self), self),
        ensures
            r == u32_slot_value(graph_nodes(*snarl), graph_rank(graph_nodes(*snarl)), self),
        decreases slot_measure(graph_rank(graph_nodes(*snarl)), self), 0nat,
    {
        let ghost nodes = graph_nodes(*snarl);
        let ghost rank = graph_rank(nodes);
        assert(ranked(nodes, rank));
        match self {
            NodeValue::Node(node_idx) => {
                proof {
                    lemma_node_valid(nodes, node_idx);
                }
                graph_node(snarl, node_idx).unwrap().eval_u32(snarl)
            },
            NodeValue::Value(value) => value,
        }
    }
}

impl NoiseNode {
    /// The value of a u32 constant or u32 operation node, computed directly
    /// from the graph without building an expression tree.
    pub fn eval_u32(&self, snarl: &Snarl<Self>) -> (r: u32)
        requires
            well_formed(graph_nodes(*snarl)),
            is_u32_value(*self),
            node_valid(graph_nodes(*snarl), *self),
        ensures
            r == u32_node_value(graph_nodes(*snarl), graph_rank(graph_nodes(*snarl)), *self),
        decreases op_measure(graph_rank(graph_nodes(*snarl)), *self), 1nat,
    {
        let ghost nodes = graph_nodes(*snarl);
        let ghost rank = graph_rank(nodes);
        let ghost bound = choose|bound: nat| node_ok(nodes, rank, *self, bound);
        assert(ranked(nodes, rank));
        match self {
            NoiseNode::U32(node) => node.value,
            NoiseNode::U32Operation(node) => {
                let lhs = node.inputs[0].eval(snarl);
                let rhs = node.inputs[1].eval(snarl);
                checked_u32(node.op_ty, lhs, rhs)
            },
            _ => 0,
        }
    }
}

} // verus!
