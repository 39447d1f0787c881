use vstd::prelude::*;

use crate::compile::{
    constant_expr, expr_ok, graph_rank, node_measure, node_ok, pair_expr, pair_measure, ranked,
    source_expr, src_measure, well_formed,
};
use crate::expr::Expr;
use crate::node::NoiseNode;
use crate::propagate::{
    has_state, in_component, is_walk, linked, op_references, pinned, reached, retype,
    retyped_nodes, type_state, walk_step, TypeState,
};
use crate::value::ZERO_BITS;

verus! {

/// A promotion leaves no component mixed: every node of the component it
/// touched is now in the promoted state.
pub proof fn lemma_promotion_is_atomic(
    nodes: Map<usize, NoiseNode>,
    wires: Set<(usize, usize, usize, usize)>,
    start: usize,
    to: TypeState,
)
    ensures
        forall|x: usize|
            #[trigger] in_component(nodes, wires, TypeState::Unresolved, start, x) ==> type_state(
                retyped_nodes(nodes, wires, start, TypeState::Unresolved, to)[x],
            ) == Some(to),
{
}

/// A demotion leaves no component mixed: every node of the component it
/// touched ends in one state, unresolved when the component was held by
/// nothing outside it, and its old state otherwise.
pub proof fn lemma_demotion_is_atomic(
    nodes: Map<usize, NoiseNode>,
    wires: Set<(usize, usize, usize, usize)>,
    start: usize,
    from: TypeState,
)
    ensures
        forall|x: usize|
            #[trigger] in_component(nodes, wires, from, start, x) ==> type_state(
                (if pinned(nodes, wires, from, start) {
                    nodes
                } else {
                    retyped_nodes(nodes, wires, start, from, TypeState::Unresolved)
                })[x],
            ) == if pinned(nodes, wires, from, start) {
                Some(from)
            } else {
                Some(TypeState::Unresolved)
            },
{
}

proof fn lemma_retype_round_trip(n: NoiseNode, to: TypeState)
    requires
        n is Operation,
    ensures
        retype(retype(n, to), TypeState::Unresolved) == n,
        type_state(retype(n, to)) == Some(to),
        forall|y: usize| op_references(retype(n, to), y) == op_references(n, y),
{
    let op = n->Operation_0;
    let r = retype(retype(n, to), TypeState::Unresolved);
    let rop = r->Operation_0;
    assert forall|i: int| 0 <= i < 2 implies rop.inputs[i] == op.inputs[i] by {
        match op.inputs[i] {
            crate::value::NodeValue::Node(j) => {},
            crate::value::NodeValue::Value(v) => {
                assert(v == ());
            },
        }
    }
    assert(rop.inputs =~= op.inputs);
}

proof fn lemma_walk_prefix(
    nodes: Map<usize, NoiseNode>,
    wires: Set<(usize, usize, usize, usize)>,
    k: TypeState,
    start: usize,
    p: Seq<usize>,
    i: int,
)
    requires
        is_walk(nodes, wires, k, start, p),
        0 <= i < p.len(),
    ensures
        reached(nodes, wires, k, start, p[i]),
{
    let q = p.subrange(0, i + 1);
    assert forall|j: int| 0 <= j < q.len() - 1 implies #[trigger] walk_step(nodes, wires, k, q, j) by {
        assert(walk_step(nodes, wires, k, p, j));
    }
    assert(is_walk(nodes, wires, k, start, q));
    assert(q.last() == p[i]);
}

/// Promoting the unresolved component of `start` to `to`, then demoting it
/// again once the wires are back as they were when the promotion ran (the
/// typed consumer connected in between and disconnected again), restores
/// every node exactly: same operators, same references, same literals. The
/// demotion finds nothing that still pins the component.
pub proof fn lemma_promotion_then_demotion_restores(
    nodes: Map<usize, NoiseNode>,
    wires: Set<(usize, usize, usize, usize)>,
    start: usize,
    to: TypeState,
)
    requires
        to != TypeState::Unresolved,
        !pinned(nodes, wires, TypeState::Unresolved, start),
    ensures
        !pinned(retyped_nodes(nodes, wires, start, TypeState::Unresolved, to), wires, to, start),
        retyped_nodes(
            retyped_nodes(nodes, wires, start, TypeState::Unresolved, to),
            wires,
            start,
            to,
            TypeState::Unresolved,
        ) == nodes,
{
    let u = TypeState::Unresolved;
    let promoted = retyped_nodes(nodes, wires, start, u, to);
    assert(is_walk(nodes, wires, u, start, seq![start]));
    assert(reached(nodes, wires, u, start, start));
    assert forall|x: usize| #[trigger] in_component(nodes, wires, u, start, x) implies in_component(
        promoted,
        wires,
        to,
        start,
        x,
    ) by {
        let p = choose|p: Seq<usize>| #[trigger] is_walk(nodes, wires, u, start, p) && p.last() == x;
        assert forall|i: int| 0 <= i < p.len() ==> in_component(nodes, wires, u, start, #[trigger] p[i]) by {
            if 0 <= i < p.len() {
                lemma_walk_prefix(nodes, wires, u, start, p, i);
                if i < p.len() - 1 {
                    assert(walk_step(nodes, wires, u, p, i));
                }
            }
        }
        assert forall|i: int| 0 <= i < p.len() - 1 implies #[trigger] walk_step(promoted, wires, to, p, i) by {
            assert(walk_step(nodes, wires, u, p, i));
            assert(in_component(nodes, wires, u, start, p[i]));
            lemma_retype_round_trip(nodes[p[i]], to);
        }
        assert(is_walk(promoted, wires, to, start, p));
        lemma_retype_round_trip(nodes[x], to);
    }
    assert forall|x: usize| #[trigger] reached(promoted, wires, to, start, x) implies in_component(
        nodes,
        wires,
        u,
        start,
        x,
    ) by {
        let q = choose|q: Seq<usize>| #[trigger] is_walk(promoted, wires, to, start, q) && q.last() == x;
        lemma_walk_back(nodes, wires, start, to, q, q.len() - 1);
    }
    assert forall|x: usize| #[trigger] reached(promoted, wires, to, start, x) implies has_state(
        promoted,
        x,
        to,
    ) by {
        assert(in_component(nodes, wires, u, start, x));
        lemma_retype_round_trip(nodes[x], to);
    }
    let restored = retyped_nodes(promoted, wires, start, to, u);
    assert forall|x: usize| #[trigger] nodes.contains_key(x) implies restored[x] == nodes[x] by {
        if in_component(nodes, wires, u, start, x) {
            lemma_retype_round_trip(nodes[x], to);
            assert(in_component(promoted, wires, to, start, x));
        } else {
            assert(!in_component(promoted, wires, to, start, x));
        }
    }
    assert(restored =~= nodes);
}

/// Along a walk of the promoted graph, every node belongs to the original
/// unresolved component.
proof fn lemma_walk_back(
    nodes: Map<usize, NoiseNode>,
    wires: Set<(usize, usize, usize, usize)>,
    start: usize,
    to: TypeState,
    q: Seq<usize>,
    n: int,
)
    requires
        to != TypeState::Unresolved,
        !pinned(nodes, wires, TypeState::Unresolved, start),
        is_walk(
            retyped_nodes(nodes, wires, start, TypeState::Unresolved, to),
            wires,
            to,
            start,
            q,
        ),
        0 <= n < q.len(),
    ensures
        in_component(nodes, wires, TypeState::Unresolved, start, q[n]),
    decreases n,
{
    let u = TypeState::Unresolved;
    let promoted = retyped_nodes(nodes, wires, start, u, to);
    if n == 0 {
        assert(is_walk(nodes, wires, u, start, seq![start]));
        assert(reached(nodes, wires, u, start, start));
    } else {
        lemma_walk_back(nodes, wires, start, to, q, n - 1);
        let a = q[n - 1];
        let b = q[n];
        assert(walk_step(promoted, wires, to, q, n - 1));
        lemma_retype_round_trip(nodes[a], to);
        assert(linked(nodes, wires, a, b));
        crate::propagate::lemma_extend_walk(nodes, wires, u, start, a, b);
        assert(has_state(nodes, b, u));
    }
}

/// Two expression trees are structurally identical: the same shape, the same
/// literals, names and operators, and lists with the same elements.
pub open spec fn same_tree(a: Expr, b: Expr) -> bool
    decreases a,
{
    match a {
        Expr::Abs(x) => b is Abs && same_tree(*x, *b->Abs_0),
        Expr::Negate(x) => b is Negate && same_tree(*x, *b->Negate_0),
        Expr::Add(x, y) => b is Add && same_tree(*x, *b->Add_0) && same_tree(*y, *b->Add_1),
        Expr::Max(x, y) => b is Max && same_tree(*x, *b->Max_0) && same_tree(*y, *b->Max_1),
        Expr::Min(x, y) => b is Min && same_tree(*x, *b->Min_0) && same_tree(*y, *b->Min_1),
        Expr::Multiply(x, y) => b is Multiply && same_tree(*x, *b->Multiply_0) && same_tree(*y, *b->Multiply_1),
        Expr::Power(x, y) => b is Power && same_tree(*x, *b->Power_0) && same_tree(*y, *b->Power_1),
        Expr::Blend(x) => {
            &&& b is Blend
            &&& same_tree(*x.sources.0, *b->Blend_0.sources.0)
            &&& same_tree(*x.sources.1, *b->Blend_0.sources.1)
            &&& same_tree(*x.control, *b->Blend_0.control)
        },
        Expr::Clamp(x) => {
            &&& b is Clamp
            &&& same_tree(*x.source, *b->Clamp_0.source)
            &&& x.lower_bound == b->Clamp_0.lower_bound
            &&& x.upper_bound == b->Clamp_0.upper_bound
        },
        Expr::Curve(x) => {
            &&& b is Curve
            &&& same_tree(*x.source, *b->Curve_0.source)
            &&& x.control_points@ == b->Curve_0.control_points@
        },
        Expr::Displace(x) => {
            &&& b is Displace
            &&& same_tree(*x.source, *b->Displace_0.source)
            &&& same_tree(*x.axes.0, *b->Displace_0.axes.0)
            &&& same_tree(*x.axes.1, *b->Displace_0.axes.1)
            &&& same_tree(*x.axes.2, *b->Displace_0.axes.2)
            &&& same_tree(*x.axes.3, *b->Displace_0.axes.3)
        },
        Expr::Exponent(x) => {
            &&& b is Exponent
            &&& same_tree(*x.source, *b->Exponent_0.source)
            &&& x.exponent == b->Exponent_0.exponent
        },
        Expr::RotatePoint(x) => {
            &&& b is RotatePoint
            &&& same_tree(*x.source, *b->RotatePoint_0.source)
            &&& x.axes == b->RotatePoint_0.axes
        },
        Expr::ScalePoint(x) => {
            &&& b is ScalePoint
            &&& same_tree(*x.source, *b->ScalePoint_0.source)
            &&& x.axes == b->ScalePoint_0.axes
        },
        Expr::TranslatePoint(x) => {
            &&& b is TranslatePoint
            &&& same_tree(*x.source, *b->TranslatePoint_0.source)
            &&& x.axes == b->TranslatePoint_0.axes
        },
        Expr::ScaleBias(x) => {
            &&& b is ScaleBias
            &&& same_tree(*x.source, *b->ScaleBias_0.source)
            &&& x.scale == b->ScaleBias_0.scale
            &&& x.bias == b->ScaleBias_0.bias
        },
        Expr::Select(x) => {
            &&& b is Select
            &&& same_tree(*x.sources.0, *b->Select_0.sources.0)
            &&& same_tree(*x.sources.1, *b->Select_0.sources.1)
            &&& same_tree(*x.control, *b->Select_0.control)
            &&& x.lower_bound == b->Select_0.lower_bound
            &&& x.upper_bound == b->Select_0.upper_bound
            &&& x.falloff == b->Select_0.falloff
        },
        Expr::Terrace(x) => {
            &&& b is Terrace
            &&& same_tree(*x.source, *b->Terrace_0.source)
            &&& x.inverted == b->Terrace_0.inverted
            &&& x.control_points@ == b->Terrace_0.control_points@
        },
        Expr::Turbulence(x) => {
            &&& b is Turbulence
            &&& same_tree(*x.source, *b->Turbulence_0.source)
            &&& x.source_ty == b->Turbulence_0.source_ty
            &&& x.seed == b->Turbulence_0.seed
            &&& x.frequency == b->Turbulence_0.frequency
            &&& x.power == b->Turbulence_0.power
            &&& x.roughness == b->Turbulence_0.roughness
        },
        _ => b == a,
    }
}

pub proof fn lemma_same_tree_reflexive(e: Expr)
    ensures
        same_tree(e, e),
    decreases e,
{
    match e {
        Expr::Abs(x) => lemma_same_tree_reflexive(*x),
        Expr::Negate(x) => lemma_same_tree_reflexive(*x),
        Expr::Add(x, y) => {
            lemma_same_tree_reflexive(*x);
            lemma_same_tree_reflexive(*y);
        },
        Expr::Max(x, y) => {
            lemma_same_tree_reflexive(*x);
            lemma_same_tree_reflexive(*y);
        },
        Expr::Min(x, y) => {
            lemma_same_tree_reflexive(*x);
            lemma_same_tree_reflexive(*y);
        },
        Expr::Multiply(x, y) => {
            lemma_same_tree_reflexive(*x);
            lemma_same_tree_reflexive(*y);
        },
        Expr::Power(x, y) => {
            lemma_same_tree_reflexive(*x);
            lemma_same_tree_reflexive(*y);
        },
        Expr::Blend(x) => {
            lemma_same_tree_reflexive(*x.sources.0);
            lemma_same_tree_reflexive(*x.sources.1);
            lemma_same_tree_reflexive(*x.control);
        },
        Expr::Select(x) => {
            lemma_same_tree_reflexive(*x.sources.0);
            lemma_same_tree_reflexive(*x.sources.1);
            lemma_same_tree_reflexive(*x.control);
        },
        Expr::Displace(x) => {
            lemma_same_tree_reflexive(*x.source);
            lemma_same_tree_reflexive(*x.axes.0);
            lemma_same_tree_reflexive(*x.axes.1);
            lemma_same_tree_reflexive(*x.axes.2);
            lemma_same_tree_reflexive(*x.axes.3);
        },
        Expr::Clamp(x) => lemma_same_tree_reflexive(*x.source),
        Expr::Curve(x) => lemma_same_tree_reflexive(*x.source),
        Expr::Exponent(x) => lemma_same_tree_reflexive(*x.source),
        Expr::RotatePoint(x) => lemma_same_tree_reflexive(*x.source),
        Expr::ScalePoint(x) => lemma_same_tree_reflexive(*x.source),
        Expr::TranslatePoint(x) => lemma_same_tree_reflexive(*x.source),
        Expr::ScaleBias(x) => lemma_same_tree_reflexive(*x.source),
        Expr::Terrace(x) => lemma_same_tree_reflexive(*x.source),
        Expr::Turbulence(x) => lemma_same_tree_reflexive(*x.source),
        _ => {},
    }
}

proof fn lemma_source_deterministic(
    nodes: Map<usize, NoiseNode>,
    rank: spec_fn(usize) -> nat,
    o: Option<usize>,
    e1: Expr,
    e2: Expr,
)
    requires
        ranked(nodes, rank),
        source_expr(nodes, rank, o, e1),
        source_expr(nodes, rank, o, e2),
    ensures
        same_tree(e1, e2),
    decreases src_measure(rank, o), 0nat,
{
    match o {
        Some(j) => {
            assert(node_ok(nodes, rank, nodes[j], rank(j)));
            lemma_expr_deterministic(nodes, rank, nodes[j], e1, e2);
        },
        None => lemma_same_tree_reflexive(e1),
    }
}

#[verifier::spinoff_prover]
#[verifier::rlimit(60)]
proof fn lemma_expr_deterministic(
    nodes: Map<usize, NoiseNode>,
    rank: spec_fn(usize) -> nat,
    n: NoiseNode,
    e1: Expr,
    e2: Expr,
)
    requires
        ranked(nodes, rank),
        expr_ok(nodes, rank, n, e1),
        expr_ok(nodes, rank, n, e2),
    ensures
        same_tree(e1, e2),
    decreases node_measure(rank, n), 2nat,
{
    match n {
        NoiseNode::Abs(u) => lemma_source_deterministic(nodes, rank, u.input_node_idx, *e1->Abs_0, *e2->Abs_0),
        NoiseNode::Negate(u) => lemma_source_deterministic(nodes, rank, u.input_node_idx, *e1->Negate_0, *e2->Negate_0),
        NoiseNode::Add(c) => lemma_pair_deterministic(nodes, rank, c.input_node_indices, *e1->Add_0, *e1->Add_1, *e2->Add_0, *e2->Add_1),
        NoiseNode::Max(c) => lemma_pair_deterministic(nodes, rank, c.input_node_indices, *e1->Max_0, *e1->Max_1, *e2->Max_0, *e2->Max_1),
        NoiseNode::Min(c) => lemma_pair_deterministic(nodes, rank, c.input_node_indices, *e1->Min_0, *e1->Min_1, *e2->Min_0, *e2->Min_1),
        NoiseNode::Multiply(c) => lemma_pair_deterministic(nodes, rank, c.input_node_indices, *e1->Multiply_0, *e1->Multiply_1, *e2->Multiply_0, *e2->Multiply_1),
        NoiseNode::Power(c) => lemma_pair_deterministic(nodes, rank, c.input_node_indices, *e1->Power_0, *e1->Power_1, *e2->Power_0, *e2->Power_1),
        NoiseNode::Blend(b) => {
            lemma_source_deterministic(nodes, rank, b.input_node_indices[0], *e1->Blend_0.sources.0, *e2->Blend_0.sources.0);
            lemma_source_deterministic(nodes, rank, b.input_node_indices[1], *e1->Blend_0.sources.1, *e2->Blend_0.sources.1);
            lemma_source_deterministic(nodes, rank, b.control_node_idx, *e1->Blend_0.control, *e2->Blend_0.control);
        },
        NoiseNode::Select(s) => {
            lemma_source_deterministic(nodes, rank, s.input_node_indices[0], *e1->Select_0.sources.0, *e2->Select_0.sources.0);
            lemma_source_deterministic(nodes, rank, s.input_node_indices[1], *e1->Select_0.sources.1, *e2->Select_0.sources.1);
            lemma_source_deterministic(nodes, rank, s.control_node_idx, *e1->Select_0.control, *e2->Select_0.control);
        },
        NoiseNode::Displace(d) => {
            lemma_source_deterministic(nodes, rank, d.input_node_idx, *e1->Displace_0.source, *e2->Displace_0.source);
            lemma_source_deterministic(nodes, rank, d.axes[0], *e1->Displace_0.axes.0, *e2->Displace_0.axes.0);
            lemma_source_deterministic(nodes, rank, d.axes[1], *e1->Displace_0.axes.1, *e2->Displace_0.axes.1);
            lemma_source_deterministic(nodes, rank, d.axes[2], *e1->Displace_0.axes.2, *e2->Displace_0.axes.2);
            lemma_source_deterministic(nodes, rank, d.axes[3], *e1->Displace_0.axes.3, *e2->Displace_0.axes.3);
        },
        NoiseNode::Clamp(c) => lemma_source_deterministic(nodes, rank, c.input_node_idx, *e1->Clamp_0.source, *e2->Clamp_0.source),
        NoiseNode::Curve(c) => lemma_source_deterministic(nodes, rank, c.input_node_idx, *e1->Curve_0.source, *e2->Curve_0.source),
        NoiseNode::Exponent(x) => lemma_source_deterministic(nodes, rank, x.input_node_idx, *e1->Exponent_0.source, *e2->Exponent_0.source),
        NoiseNode::RotatePoint(t) => lemma_source_deterministic(nodes, rank, t.input_node_idx, *e1->RotatePoint_0.source, *e2->RotatePoint_0.source),
        NoiseNode::ScalePoint(t) => lemma_source_deterministic(nodes, rank, t.input_node_idx, *e1->ScalePoint_0.source, *e2->ScalePoint_0.source),
        NoiseNode::TranslatePoint(t) => lemma_source_deterministic(nodes, rank, t.input_node_idx, *e1->TranslatePoint_0.source, *e2->TranslatePoint_0.source),
        NoiseNode::ScaleBias(x) => lemma_source_deterministic(nodes, rank, x.input_node_idx, *e1->ScaleBias_0.source, *e2->ScaleBias_0.source),
        NoiseNode::Terrace(t) => lemma_source_deterministic(nodes, rank, t.input_node_idx, *e1->Terrace_0.source, *e2->Terrace_0.source),
        NoiseNode::Turbulence(t) => lemma_source_deterministic(nodes, rank, t.input_node_idx, *e1->Turbulence_0.source, *e2->Turbulence_0.source),
        _ => lemma_same_tree_reflexive(e1),
    }
}

proof fn lemma_pair_deterministic(
    nodes: Map<usize, NoiseNode>,
    rank: spec_fn(usize) -> nat,
    o: [Option<usize>; 2],
    a0: Expr,
    a1: Expr,
    b0: Expr,
    b1: Expr,
)
    requires
        ranked(nodes, rank),
        pair_expr(nodes, rank, o, a0, a1),
        pair_expr(nodes, rank, o, b0, b1),
    ensures
        same_tree(a0, b0),
        same_tree(a1, b1),
    decreases pair_measure(rank, o), 1nat,
{
    lemma_source_deterministic(nodes, rank, o[0], a0, b0);
    lemma_source_deterministic(nodes, rank, o[1], a1, b1);
}

/// Compiling a node twice on an unmodified graph gives structurally
/// identical trees: whatever two results `NoiseNode::expr` may return for the
/// same node and graph, they have the same shape, literals, names, operators
/// and list elements.
pub proof fn lemma_compile_idempotent(nodes: Map<usize, NoiseNode>, n: NoiseNode, e1: Expr, e2: Expr)
    requires
        well_formed(nodes),
        expr_ok(nodes, graph_rank(nodes), n, e1),
        expr_ok(nodes, graph_rank(nodes), n, e2),
    ensures
        same_tree(e1, e2),
{
    lemma_expr_deterministic(nodes, graph_rank(nodes), n, e1, e2);
}

/// An incomplete graph never makes compilation fail: in every kind of node,
/// a disconnected source, control or axis slot compiles to the constant zero.
pub proof fn lemma_disconnected_source_is_zero(nodes: Map<usize, NoiseNode>, e: Expr)
    requires
        well_formed(nodes),
    ensures
        source_expr(nodes, graph_rank(nodes), None, e) <==> e == constant_expr(ZERO_BITS),
{
}

} // verus!
