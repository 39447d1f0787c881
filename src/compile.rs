use vstd::prelude::*;

use egui_snarl::Snarl;

use crate::expr::{
    BlendExpr, ClampExpr, ControlPointExpr, CurveExpr, DisplaceExpr, ExponentExpr, Expr,
    FractalExpr, RigidFractalExpr, ScaleBiasExpr, SelectExpr, TerraceExpr, TransformExpr,
    TurbulenceExpr, Variable, WorleyExpr,
};
use crate::graph::{graph_node, graph_nodes};
use crate::node::{
    BlendNode, ClampNode, CombinerNode, CurveNode, DisplaceNode, ExponentNode, FractalNode,
    NoiseNode, RigidFractalNode, ScaleBiasNode, SelectNode, TerraceNode, TransformNode,
    TurbulenceNode, UnaryNode, WorleyNode,
};
use crate::value::{F64Bits, NodeValue, ZERO_BITS};

verus! {

// ---------------------------------------------------------------------------
// Well-formed graphs
// ---------------------------------------------------------------------------

/// Whether `n` can stand in a slot that takes a noise source.
pub open spec fn is_source(n: NoiseNode) -> bool {
    !(n is ControlPoint || n is Operation || n is U32 || n is U32Operation)
}

/// Whether `n` produces an f64 value: a named f64 constant or an f64 operation.
pub open spec fn is_f64_value(n: NoiseNode) -> bool {
    n is F64 || n is F64Operation
}

/// Whether `n` produces a u32 value: a named u32 constant or a u32 operation.
pub open spec fn is_u32_value(n: NoiseNode) -> bool {
    n is U32 || n is U32Operation
}

/// `o` is empty, or names an existing node below `bound` that satisfies `kind`.
pub open spec fn ref_ok(
    nodes: Map<usize, NoiseNode>,
    rank: spec_fn(usize) -> nat,
    bound: nat,
    o: Option<usize>,
    kind: spec_fn(NoiseNode) -> bool,
) -> bool {
    match o {
        Some(j) => nodes.contains_key(j) && rank(j) < bound && kind(nodes[j]),
        None => true,
    }
}

pub open spec fn source_ok(
    nodes: Map<usize, NoiseNode>,
    rank: spec_fn(usize) -> nat,
    bound: nat,
    o: Option<usize>,
) -> bool {
    ref_ok(nodes, rank, bound, o, |n: NoiseNode| is_source(n))
}

pub open spec fn f64_ok(
    nodes: Map<usize, NoiseNode>,
    rank: spec_fn(usize) -> nat,
    bound: nat,
    v: NodeValue<F64Bits>,
) -> bool {
    match v {
        NodeValue::Node(j) => ref_ok(nodes, rank, bound, Some(j), |n: NoiseNode| is_f64_value(n)),
        NodeValue::Value(_) => true,
    }
}

pub open spec fn u32_ok(
    nodes: Map<usize, NoiseNode>,
    rank: spec_fn(usize) -> nat,
    bound: nat,
    v: NodeValue<u32>,
) -> bool {
    match v {
        NodeValue::Node(j) => ref_ok(nodes, rank, bound, Some(j), |n: NoiseNode| is_u32_value(n)),
        NodeValue::Value(_) => true,
    }
}

/// Every reference held by `n` names an existing node of the kind its slot
/// takes, ranked below `bound`.
pub open spec fn node_ok(
    nodes: Map<usize, NoiseNode>,
    rank: spec_fn(usize) -> nat,
    n: NoiseNode,
    bound: nat,
) -> bool {
    match n {
        NoiseNode::Abs(u) | NoiseNode::Negate(u) => source_ok(nodes, rank, bound, u.input_node_idx),
        NoiseNode::Add(c) | NoiseNode::Max(c) | NoiseNode::Min(c) | NoiseNode::Multiply(c)
        | NoiseNode::Power(c) => source_ok(nodes, rank, bound, c.input_node_indices[0])
            && source_ok(nodes, rank, bound, c.input_node_indices[1]),
        NoiseNode::BasicMulti(f) | NoiseNode::Billow(f) | NoiseNode::Fbm(f)
        | NoiseNode::HybridMulti(f) => u32_ok(nodes, rank, bound, f.seed) && u32_ok(
            nodes,
            rank,
            bound,
            f.octaves,
        ) && f64_ok(nodes, rank, bound, f.frequency) && f64_ok(nodes, rank, bound, f.lacunarity)
            && f64_ok(nodes, rank, bound, f.persistence),
        NoiseNode::Blend(b) => source_ok(nodes, rank, bound, b.input_node_indices[0]) && source_ok(
            nodes,
            rank,
            bound,
            b.input_node_indices[1],
        ) && source_ok(nodes, rank, bound, b.control_node_idx),
        NoiseNode::Clamp(c) => source_ok(nodes, rank, bound, c.input_node_idx) && f64_ok(
            nodes,
            rank,
            bound,
            c.lower_bound,
        ) && f64_ok(nodes, rank, bound, c.upper_bound),
        NoiseNode::Checkerboard(c) => u32_ok(nodes, rank, bound, c.size),
        NoiseNode::ControlPoint(c) => f64_ok(nodes, rank, bound, c.input) && f64_ok(
            nodes,
            rank,
            bound,
            c.output,
        ),
        NoiseNode::Curve(c) => source_ok(nodes, rank, bound, c.input_node_idx) && forall|k: int|
            0 <= k < c.control_point_node_indices@.len() ==> ref_ok(
                nodes,
                rank,
                bound,
                #[trigger] c.control_point_node_indices@[k],
                |n: NoiseNode| n is ControlPoint,
            ),
        NoiseNode::Cylinders(c) => f64_ok(nodes, rank, bound, c.frequency),
        NoiseNode::Displace(d) => source_ok(nodes, rank, bound, d.input_node_idx) && source_ok(
            nodes,
            rank,
            bound,
            d.axes[0],
        ) && source_ok(nodes, rank, bound, d.axes[1]) && source_ok(nodes, rank, bound, d.axes[2])
            && source_ok(nodes, rank, bound, d.axes[3]),
        NoiseNode::Exponent(e) => source_ok(nodes, rank, bound, e.input_node_idx) && f64_ok(
            nodes,
            rank,
            bound,
            e.exponent,
        ),
        NoiseNode::F64(_) | NoiseNode::U32(_) | NoiseNode::Operation(_) => true,
        NoiseNode::F64Operation(op) => f64_ok(nodes, rank, bound, op.inputs[0]) && f64_ok(
            nodes,
            rank,
            bound,
            op.inputs[1],
        ),
        NoiseNode::U32Operation(op) => u32_ok(nodes, rank, bound, op.inputs[0]) && u32_ok(
            nodes,
            rank,
            bound,
            op.inputs[1],
        ),
        NoiseNode::OpenSimplex(g) | NoiseNode::Perlin(g) | NoiseNode::PerlinSurflet(g)
        | NoiseNode::Simplex(g) | NoiseNode::SuperSimplex(g) | NoiseNode::Value(g) => u32_ok(
            nodes,
            rank,
            bound,
            g.seed,
        ),
        NoiseNode::RigidMulti(f) => u32_ok(nodes, rank, bound, f.seed) && u32_ok(
            nodes,
            rank,
            bound,
            f.octaves,
        ) && f64_ok(nodes, rank, bound, f.frequency) && f64_ok(nodes, rank, bound, f.lacunarity)
            && f64_ok(nodes, rank, bound, f.persistence) && f64_ok(
            nodes,
            rank,
            bound,
            f.attenuation,
        ),
        NoiseNode::RotatePoint(t) | NoiseNode::ScalePoint(t) | NoiseNode::TranslatePoint(t) => {
            source_ok(nodes, rank, bound, t.input_node_idx) && f64_ok(nodes, rank, bound, t.axes[0])
                && f64_ok(nodes, rank, bound, t.axes[1]) && f64_ok(nodes, rank, bound, t.axes[2])
                && f64_ok(nodes, rank, bound, t.axes[3])
        },
        NoiseNode::ScaleBias(s) => source_ok(nodes, rank, bound, s.input_node_idx) && f64_ok(
            nodes,
            rank,
            bound,
            s.scale,
        ) && f64_ok(nodes, rank, bound, s.bias),
        NoiseNode::Select(s) => source_ok(nodes, rank, bound, s.input_node_indices[0]) && source_ok(
            nodes,
            rank,
            bound,
            s.input_node_indices[1],
        ) && source_ok(nodes, rank, bound, s.control_node_idx) && f64_ok(
            nodes,
            rank,
            bound,
            s.lower_bound,
        ) && f64_ok(nodes, rank, bound, s.upper_bound) && f64_ok(nodes, rank, bound, s.falloff),
        NoiseNode::Terrace(t) => source_ok(nodes, rank, bound, t.input_node_idx) && forall|k: int|
            0 <= k < t.control_point_node_indices@.len() ==> ref_ok(
                nodes,
                rank,
                bound,
                #[trigger] t.control_point_node_indices@[k],
                |n: NoiseNode| is_f64_value(n),
            ),
        NoiseNode::Turbulence(t) => source_ok(nodes, rank, bound, t.input_node_idx) && u32_ok(
            nodes,
            rank,
            bound,
            t.seed,
        ) && f64_ok(nodes, rank, bound, t.frequency) && f64_ok(nodes, rank, bound, t.power)
            && u32_ok(nodes, rank, bound, t.roughness),
        NoiseNode::Worley(w) => u32_ok(nodes, rank, bound, w.seed) && f64_ok(
            nodes,
            rank,
            bound,
            w.frequency,
        ),
    }
}

/// `rank` orders the graph: every node's references are valid and lead to
/// nodes of lower rank.
pub open spec fn ranked(nodes: Map<usize, NoiseNode>, rank: spec_fn(usize) -> nat) -> bool {
    forall|i: usize| #[trigger] nodes.contains_key(i) ==> node_ok(nodes, rank, nodes[i], rank(i))
}

/// A well-formed graph: its references are valid and it has no cycle.
pub open spec fn well_formed(nodes: Map<usize, NoiseNode>) -> bool {
    exists|rank: spec_fn(usize) -> nat| ranked(nodes, rank)
}

/// A ranking of a well-formed graph.
pub open spec fn graph_rank(nodes: Map<usize, NoiseNode>) -> spec_fn(usize) -> nat {
    choose|rank: spec_fn(usize) -> nat| ranked(nodes, rank)
}

// ---------------------------------------------------------------------------
// Resolved slot values
// ---------------------------------------------------------------------------

/// The recursion measure of a slot: one above the rank of the node it references.
pub open spec fn slot_measure<T>(rank: spec_fn(usize) -> nat, v: NodeValue<T>) -> nat {
    match v {
        NodeValue::Node(j) => rank(j) + 1,
        NodeValue::Value(_) => 0,
    }
}

/// The resolved value of an f64 slot: its literal, the named constant it
/// references, or the arithmetic sub-expression of the operation it references.
pub open spec fn f64_var(
    nodes: Map<usize, NoiseNode>,
    rank: spec_fn(usize) -> nat,
    v: NodeValue<F64Bits>,
) -> Variable<F64Bits>
    decreases slot_measure(rank, v),
    when ranked(nodes, rank)
{
    match v {
        NodeValue::Value(x) => Variable::Anonymous(x),
        NodeValue::Node(j) => if nodes.contains_key(j) {
            match nodes[j] {
                NoiseNode::F64(c) => Variable::Named(c.name, c.value),
                NoiseNode::F64Operation(op) => Variable::Operation(Box::new(f64_var(nodes, rank, op.inputs[0])), Box::new(f64_var(nodes, rank, op.inputs[1])), op.op_ty),
                _ => Variable::Anonymous(F64Bits(ZERO_BITS)),
            }
        } else {
            Variable::Anonymous(F64Bits(ZERO_BITS))
        },
    }
}

/// The resolved value of a u32 slot.
pub open spec fn u32_var(
    nodes: Map<usize, NoiseNode>,
    rank: spec_fn(usize) -> nat,
    v: NodeValue<u32>,
) -> Variable<u32>
    decreases slot_measure(rank, v),
    when ranked(nodes, rank)
{
    match v {
        NodeValue::Value(x) => Variable::Anonymous(x),
        NodeValue::Node(j) => if nodes.contains_key(j) {
            match nodes[j] {
                NoiseNode::U32(c) => Variable::Named(c.name, c.value),
                NoiseNode::U32Operation(op) => Variable::Operation(Box::new(u32_var(nodes, rank, op.inputs[0])), Box::new(u32_var(nodes, rank, op.inputs[1])), op.op_ty),
                _ => Variable::Anonymous(0u32),
            }
        } else {
            Variable::Anonymous(0u32)
        },
    }
}

impl NodeValue<F64Bits> {
    fn var(self, snarl: &Snarl<NoiseNode>) -> (r: Variable<F64Bits>)
        requires
            well_formed(graph_nodes(*snarl)),
            f64_ok(graph_nodes(*snarl), graph_rank(graph_nodes(*snarl)), slot_measure(graph_rank(graph_nodes(*snarl)), self), self),
        ensures
            r == f64_var(graph_nodes(*snarl), graph_rank(graph_nodes(*snarl)), self),
        decreases slot_measure(graph_rank(graph_nodes(*snarl)), self),
    {
        let ghost nodes = graph_nodes(*snarl);
        let ghost rank = graph_rank(nodes);
        assert(ranked(nodes, rank));
        match self {
            NodeValue::Node(node_idx) => {
                assert(nodes.contains_key(node_idx));
                match graph_node(snarl, node_idx).unwrap() {
                    NoiseNode::F64(node) => Variable::Named(node.name.clone(), node.value),
                    NoiseNode::F64Operation(node) => {
                        assert(node_ok(nodes, rank, nodes[node_idx], rank(node_idx)));
                        Variable::Operation(
                            Box::new(node.inputs[0].var(snarl)),
                            Box::new(node.inputs[1].var(snarl)),
                            node.op_ty,
                        )
                    },
                    _ => Variable::Anonymous(F64Bits(ZERO_BITS)),
                }
            },
            NodeValue::Value(value) => Variable::Anonymous(value),
        }
    }
}

impl NodeValue<u32> {
    fn var(self, snarl: &Snarl<NoiseNode>) -> (r: Variable<u32>)
        requires
            well_formed(graph_nodes(*snarl)),
            u32_ok(graph_nodes(*snarl), graph_rank(graph_nodes(*snarl)), slot_measure(graph_rank(graph_nodes(*snarl)), self), self),
        ensures
            r == u32_var(graph_nodes(*snarl), graph_rank(graph_nodes(*snarl)), self),
        decreases slot_measure(graph_rank(graph_nodes(*snarl)), self),
    {
        let ghost nodes = graph_nodes(*snarl);
        let ghost rank = graph_rank(nodes);
        assert(ranked(nodes, rank));
        match self {
            NodeValue::Node(node_idx) => {
                assert(nodes.contains_key(node_idx));
                match graph_node(snarl, node_idx).unwrap() {
                    NoiseNode::U32(node) => Variable::Named(node.name.clone(), node.value),
                    NoiseNode::U32Operation(node) => {
                        assert(node_ok(nodes, rank, nodes[node_idx], rank(node_idx)));
                        Variable::Operation(
                            Box::new(node.inputs[0].var(snarl)),
                            Box::new(node.inputs[1].var(snarl)),
                            node.op_ty,
                        )
                    },
                    _ => Variable::Anonymous(0),
                }
            },
            NodeValue::Value(value) => Variable::Anonymous(value),
        }
    }
}

// ---------------------------------------------------------------------------
// Compiled expression trees
// ---------------------------------------------------------------------------

/// Every reference held by `n` names an existing node of the kind its slot takes.
pub open spec fn node_valid(nodes: Map<usize, NoiseNode>, n: NoiseNode) -> bool {
    exists|bound: nat| node_ok(nodes, graph_rank(nodes), n, bound)
}

pub open spec fn max_nat(a: nat, b: nat) -> nat {
    if a >= b {
        a
    } else {
        b
    }
}

/// The recursion measure of a source slot.
pub open spec fn src_measure(rank: spec_fn(usize) -> nat, o: Option<usize>) -> nat {
    match o {
        Some(j) => rank(j) + 1,
        None => 0,
    }
}

pub open spec fn pair_measure(rank: spec_fn(usize) -> nat, o: [Option<usize>; 2]) -> nat {
    max_nat(src_measure(rank, o[0]), src_measure(rank, o[1]))
}

pub open spec fn blend_measure(rank: spec_fn(usize) -> nat, b: BlendNode) -> nat {
    max_nat(pair_measure(rank, b.input_node_indices), src_measure(rank, b.control_node_idx))
}

pub open spec fn displace_measure(rank: spec_fn(usize) -> nat, d: DisplaceNode) -> nat {
    max_nat(
        max_nat(src_measure(rank, d.input_node_idx), src_measure(rank, d.axes[0])),
        max_nat(
            src_measure(rank, d.axes[1]),
            max_nat(src_measure(rank, d.axes[2]), src_measure(rank, d.axes[3])),
        ),
    )
}

pub open spec fn select_measure(rank: spec_fn(usize) -> nat, s: SelectNode) -> nat {
    max_nat(pair_measure(rank, s.input_node_indices), src_measure(rank, s.control_node_idx))
}

/// The recursion measure of a node: one above the highest rank among the
/// sources it reads.
pub open spec fn node_measure(rank: spec_fn(usize) -> nat, n: NoiseNode) -> nat {
    match n {
        NoiseNode::Abs(u) | NoiseNode::Negate(u) => src_measure(rank, u.input_node_idx),
        NoiseNode::Add(c) | NoiseNode::Max(c) | NoiseNode::Min(c) | NoiseNode::Multiply(c)
        | NoiseNode::Power(c) => pair_measure(rank, c.input_node_indices),
        NoiseNode::Blend(b) => blend_measure(rank, b),
        NoiseNode::Clamp(c) => src_measure(rank, c.input_node_idx),
        NoiseNode::Curve(c) => src_measure(rank, c.input_node_idx),
        NoiseNode::Displace(d) => displace_measure(rank, d),
        NoiseNode::Exponent(e) => src_measure(rank, e.input_node_idx),
        NoiseNode::RotatePoint(t) | NoiseNode::ScalePoint(t) | NoiseNode::TranslatePoint(t) => {
            src_measure(rank, t.input_node_idx)
        },
        NoiseNode::ScaleBias(s) => src_measure(rank, s.input_node_idx),
        NoiseNode::Select(s) => select_measure(rank, s),
        NoiseNode::Terrace(t) => src_measure(rank, t.input_node_idx),
        NoiseNode::Turbulence(t) => src_measure(rank, t.input_node_idx),
        _ => 0,
    }
}

/// The tree of an anonymous literal, given by its bit pattern.
pub open spec fn constant_expr(bits: u64) -> Expr {
    Expr::Constant(Variable::Anonymous(F64Bits(bits)))
}

pub open spec fn fractal_expr(
    nodes: Map<usize, NoiseNode>,
    rank: spec_fn(usize) -> nat,
    f: FractalNode,
) -> FractalExpr {
    FractalExpr {
        source_ty: f.source_ty,
        seed: u32_var(nodes, rank, f.seed),
        octaves: u32_var(nodes, rank, f.octaves),
        frequency: f64_var(nodes, rank, f.frequency),
        lacunarity: f64_var(nodes, rank, f.lacunarity),
        persistence: f64_var(nodes, rank, f.persistence),
    }
}

pub open spec fn rigid_fractal_expr(
    nodes: Map<usize, NoiseNode>,
    rank: spec_fn(usize) -> nat,
    f: RigidFractalNode,
) -> RigidFractalExpr {
    RigidFractalExpr {
        source_ty: f.source_ty,
        seed: u32_var(nodes, rank, f.seed),
        octaves: u32_var(nodes, rank, f.octaves),
        frequency: f64_var(nodes, rank, f.frequency),
        lacunarity: f64_var(nodes, rank, f.lacunarity),
        persistence: f64_var(nodes, rank, f.persistence),
        attenuation: f64_var(nodes, rank, f.attenuation),
    }
}

pub open spec fn worley_expr(
    nodes: Map<usize, NoiseNode>,
    rank: spec_fn(usize) -> nat,
    w: WorleyNode,
) -> WorleyExpr {
    WorleyExpr {
        seed: u32_var(nodes, rank, w.seed),
        frequency: f64_var(nodes, rank, w.frequency),
        distance_fn: w.distance_fn,
        return_ty: w.return_ty,
    }
}

/// The control point that a curve's point slot holds, resolved.
pub open spec fn control_point_of(
    nodes: Map<usize, NoiseNode>,
    rank: spec_fn(usize) -> nat,
) -> spec_fn(Option<usize>) -> Option<ControlPointExpr> {
    |o: Option<usize>|
        match o {
            Some(j) => Some(
                match nodes[j] {
                    NoiseNode::ControlPoint(c) => ControlPointExpr {
                        input_value: f64_var(nodes, rank, c.input),
                        output_value: f64_var(nodes, rank, c.output),
                    },
                    _ => ControlPointExpr {
                        input_value: Variable::Anonymous(F64Bits(ZERO_BITS)),
                        output_value: Variable::Anonymous(F64Bits(ZERO_BITS)),
                    },
                },
            ),
            None => None,
        }
}

/// The value that a terrace's point slot holds, resolved.
pub open spec fn terrace_point_of(
    nodes: Map<usize, NoiseNode>,
    rank: spec_fn(usize) -> nat,
) -> spec_fn(Option<usize>) -> Option<Variable<F64Bits>> {
    |o: Option<usize>|
        match o {
            Some(j) => Some(f64_var(nodes, rank, NodeValue::Node(j))),
            None => None,
        }
}

/// `e` is the tree of source slot `o`: the compiled referenced node, or the
/// constant zero when the slot is disconnected.
pub open spec fn source_expr(
    nodes: Map<usize, NoiseNode>,
    rank: spec_fn(usize) -> nat,
    o: Option<usize>,
    e: Expr,
) -> bool
    decreases src_measure(rank, o), 0nat,
    when ranked(nodes, rank)
{
    match o {
        Some(j) => nodes.contains_key(j) && expr_ok(nodes, rank, nodes[j], e),
        None => e == constant_expr(ZERO_BITS),
    }
}

pub open spec fn pair_expr(
    nodes: Map<usize, NoiseNode>,
    rank: spec_fn(usize) -> nat,
    o: [Option<usize>; 2],
    e0: Expr,
    e1: Expr,
) -> bool
    decreases pair_measure(rank, o), 1nat,
    when ranked(nodes, rank)
{
    source_expr(nodes, rank, o[0], e0) && source_expr(nodes, rank, o[1], e1)
}

pub open spec fn blend_expr(
    nodes: Map<usize, NoiseNode>,
    rank: spec_fn(usize) -> nat,
    b: BlendNode,
    e: BlendExpr,
) -> bool
    decreases blend_measure(rank, b), 1nat,
    when ranked(nodes, rank)
{
    source_expr(nodes, rank, b.input_node_indices[0], *e.sources.0) && source_expr(nodes, rank, b.input_node_indices[1], *e.sources.1,
    ) && source_expr(nodes, rank, b.control_node_idx, *e.control)
}

pub open spec fn displace_expr(
    nodes: Map<usize, NoiseNode>,
    rank: spec_fn(usize) -> nat,
    d: DisplaceNode,
    e: DisplaceExpr,
) -> bool
    decreases displace_measure(rank, d), 1nat,
    when ranked(nodes, rank)
{
    &&& source_expr(nodes, rank, d.input_node_idx, *e.source)
    &&& source_expr(nodes, rank, d.axes[0], *e.axes.0)
    &&& source_expr(nodes, rank, d.axes[1], *e.axes.1)
    &&& source_expr(nodes, rank, d.axes[2], *e.axes.2)
    &&& source_expr(nodes, rank, d.axes[3], *e.axes.3)
}

pub open spec fn select_expr(
    nodes: Map<usize, NoiseNode>,
    rank: spec_fn(usize) -> nat,
    s: SelectNode,
    e: SelectExpr,
) -> bool
    decreases select_measure(rank, s), 1nat,
    when ranked(nodes, rank)
{
    &&& source_expr(nodes, rank, s.input_node_indices[0], *e.sources.0)
    &&& source_expr(nodes, rank, s.input_node_indices[1], *e.sources.1)
    &&& source_expr(nodes, rank, s.control_node_idx, *e.control)
    &&& e.lower_bound == f64_var(nodes, rank, s.lower_bound)
    &&& e.upper_bound == f64_var(nodes, rank, s.upper_bound)
    &&& e.falloff == f64_var(nodes, rank, s.falloff)
}

/// `e` is the expression tree that node `n` compiles to. Nodes that produce
/// no noise value (control points, unresolved operations, u32 values) have none.
pub open spec fn expr_ok(
    nodes: Map<usize, NoiseNode>,
    rank: spec_fn(usize) -> nat,
    n: NoiseNode,
    e: Expr,
) -> bool
    decreases node_measure(rank, n), 2nat,
    when ranked(nodes, rank)
{
    match n {
        NoiseNode::Abs(u) => e is Abs && source_expr(nodes, rank, u.input_node_idx, *e->Abs_0),
        NoiseNode::Add(c) => e is Add && pair_expr(nodes, rank, c.input_node_indices, *e->Add_0, *e->Add_1),
        NoiseNode::BasicMulti(f) => e == Expr::BasicMulti(fractal_expr(nodes, rank, f)),
        NoiseNode::Billow(f) => e == Expr::Billow(fractal_expr(nodes, rank, f)),
        NoiseNode::Blend(b) => e is Blend && blend_expr(nodes, rank, b, e->Blend_0),
        NoiseNode::Clamp(c) => {
            &&& e is Clamp
            &&& source_expr(nodes, rank, c.input_node_idx, *e->Clamp_0.source)
            &&& e->Clamp_0.lower_bound == f64_var(nodes, rank, c.lower_bound)
            &&& e->Clamp_0.upper_bound == f64_var(nodes, rank, c.upper_bound)
        },
        NoiseNode::Checkerboard(c) => e == Expr::Checkerboard(u32_var(nodes, rank, c.size)),
        NoiseNode::Curve(c) => {
            &&& e is Curve
            &&& source_expr(nodes, rank, c.input_node_idx, *e->Curve_0.source)
            &&& e->Curve_0.control_points@ == c.control_point_node_indices@.filter_map(
                control_point_of(nodes, rank),
            )
        },
        NoiseNode::Cylinders(c) => e == Expr::Cylinders(f64_var(nodes, rank, c.frequency)),
        NoiseNode::Displace(d) => e is Displace && displace_expr(nodes, rank, d, e->Displace_0),
        NoiseNode::Exponent(x) => {
            &&& e is Exponent
            &&& source_expr(nodes, rank, x.input_node_idx, *e->Exponent_0.source)
            &&& e->Exponent_0.exponent == f64_var(nodes, rank, x.exponent)
        },
        NoiseNode::F64(c) => e == Expr::Constant(Variable::Named(c.name, c.value)),
        NoiseNode::F64Operation(op) => e == Expr::Constant(
            Variable::Operation(Box::new(f64_var(nodes, rank, op.inputs[0])), Box::new(f64_var(nodes, rank, op.inputs[1])), op.op_ty),
        ),
        NoiseNode::Fbm(f) => e == Expr::Fbm(fractal_expr(nodes, rank, f)),
        NoiseNode::HybridMulti(f) => e == Expr::HybridMulti(fractal_expr(nodes, rank, f)),
        NoiseNode::Max(c) => e is Max && pair_expr(nodes, rank, c.input_node_indices, *e->Max_0, *e->Max_1),
        NoiseNode::Min(c) => e is Min && pair_expr(nodes, rank, c.input_node_indices, *e->Min_0, *e->Min_1
        ),
        NoiseNode::Multiply(c) => e is Multiply && pair_expr(nodes, rank, c.input_node_indices, *e->Multiply_0, *e->Multiply_1
        ),
        NoiseNode::Negate(u) => e is Negate && source_expr(nodes, rank, u.input_node_idx, *e->Negate_0,
        ),
        NoiseNode::OpenSimplex(g) => e == Expr::OpenSimplex(u32_var(nodes, rank, g.seed)),
        NoiseNode::Perlin(g) => e == Expr::Perlin(u32_var(nodes, rank, g.seed)),
        NoiseNode::PerlinSurflet(g) => e == Expr::PerlinSurflet(u32_var(nodes, rank, g.seed)),
        NoiseNode::Power(c) => e is Power && pair_expr(nodes, rank, c.input_node_indices, *e->Power_0, *e->Power_1),
        NoiseNode::RigidMulti(f) => e == Expr::RidgedMulti(rigid_fractal_expr(nodes, rank, f)),
        NoiseNode::RotatePoint(t) => {
            &&& e is RotatePoint
            &&& source_expr(nodes, rank, t.input_node_idx, *e->RotatePoint_0.source)
            &&& e->RotatePoint_0.axes == transform_axes(nodes, rank, t)
        },
        NoiseNode::ScaleBias(s) => {
            &&& e is ScaleBias
            &&& source_expr(nodes, rank, s.input_node_idx, *e->ScaleBias_0.source)
            &&& e->ScaleBias_0.scale == f64_var(nodes, rank, s.scale)
            &&& e->ScaleBias_0.bias == f64_var(nodes, rank, s.bias)
        },
        NoiseNode::ScalePoint(t) => {
            &&& e is ScalePoint
            &&& source_expr(nodes, rank, t.input_node_idx, *e->ScalePoint_0.source)
            &&& e->ScalePoint_0.axes == transform_axes(nodes, rank, t)
        },
        NoiseNode::Select(s) => e is Select && select_expr(nodes, rank, s, e->Select_0),
        NoiseNode::Simplex(g) => e == Expr::Simplex(u32_var(nodes, rank, g.seed)),
        NoiseNode::SuperSimplex(g) => e == Expr::SuperSimplex(u32_var(nodes, rank, g.seed)),
        NoiseNode::Terrace(t) => {
            &&& e is Terrace
            &&& source_expr(nodes, rank, t.input_node_idx, *e->Terrace_0.source)
            &&& e->Terrace_0.inverted == t.inverted
            &&& e->Terrace_0.control_points@ == t.control_point_node_indices@.filter_map(
                terrace_point_of(nodes, rank),
            )
        },
        NoiseNode::TranslatePoint(t) => {
            &&& e is TranslatePoint
            &&& source_expr(nodes, rank, t.input_node_idx, *e->TranslatePoint_0.source)
            &&& e->TranslatePoint_0.axes == transform_axes(nodes, rank, t)
        },
        NoiseNode::Turbulence(t) => {
            &&& e is Turbulence
            &&& source_expr(nodes, rank, t.input_node_idx, *e->Turbulence_0.source)
            &&& e->Turbulence_0.source_ty == t.source_ty
            &&& e->Turbulence_0.seed == u32_var(nodes, rank, t.seed)
            &&& e->Turbulence_0.frequency == f64_var(nodes, rank, t.frequency)
            &&& e->Turbulence_0.power == f64_var(nodes, rank, t.power)
            &&& e->Turbulence_0.roughness == u32_var(nodes, rank, t.roughness)
        },
        NoiseNode::Value(g) => e == Expr::Value(u32_var(nodes, rank, g.seed)),
        NoiseNode::Worley(w) => e == Expr::Worley(worley_expr(nodes, rank, w)),
        NoiseNode::ControlPoint(_) | NoiseNode::Operation(_) | NoiseNode::U32(_)
        | NoiseNode::U32Operation(_) => false,
    }
}

pub open spec fn transform_axes(
    nodes: Map<usize, NoiseNode>,
    rank: spec_fn(usize) -> nat,
    t: TransformNode,
) -> [Variable<F64Bits>; 4] {
    [
        f64_var(nodes, rank, t.axes[0]),
        f64_var(nodes, rank, t.axes[1]),
        f64_var(nodes, rank, t.axes[2]),
        f64_var(nodes, rank, t.axes[3]),
    ]
}

/// `e` is the expression tree of node `i` of a well-formed graph.
pub open spec fn compiles_to(nodes: Map<usize, NoiseNode>, i: usize, e: Expr) -> bool {
    nodes.contains_key(i) && expr_ok(nodes, graph_rank(nodes), nodes[i], e)
}

// ---------------------------------------------------------------------------
// The compiler
// ---------------------------------------------------------------------------

/// A source slot can be read: it is empty or names an existing noise source.
pub open spec fn source_valid(nodes: Map<usize, NoiseNode>, o: Option<usize>) -> bool {
    match o {
        Some(j) => nodes.contains_key(j) && is_source(nodes[j]),
        None => true,
    }
}

pub(crate) proof fn lemma_node_valid(nodes: Map<usize, NoiseNode>, j: usize)
    requires
        well_formed(nodes),
        nodes.contains_key(j),
    ensures
        node_ok(nodes, graph_rank(nodes), nodes[j], graph_rank(nodes)(j)),
        node_valid(nodes, nodes[j]),
{
    assert(ranked(nodes, graph_rank(nodes)));
    assert(node_ok(nodes, graph_rank(nodes), nodes[j], graph_rank(nodes)(j)));
}

fn constant(value: F64Bits) -> (r: Box<Expr>)
    ensures
        *r == Expr::Constant(Variable::Anonymous(value)),
{
    Box::new(Expr::Constant(Variable::Anonymous(value)))
}

/// Compiles source slot `o`; a disconnected slot becomes the constant zero.
fn source_of(o: Option<usize>, snarl: &Snarl<NoiseNode>) -> (r: Box<Expr>)
    requires
        well_formed(graph_nodes(*snarl)),
        source_valid(graph_nodes(*snarl), o),
    ensures
        source_expr(graph_nodes(*snarl), graph_rank(graph_nodes(*snarl)), o, *r),
    decreases src_measure(graph_rank(graph_nodes(*snarl)), o), 0nat,
{
    let ghost nodes = graph_nodes(*snarl);
    let ghost rank = graph_rank(nodes);
    assert(ranked(nodes, rank));
    match o {
        Some(node_idx) => {
            proof {
                lemma_node_valid(nodes, node_idx);
            }
            let node = graph_node(snarl, node_idx).unwrap();
            Box::new(node.expr(snarl))
        },
        None => constant(F64Bits(ZERO_BITS)),
    }
}

impl crate::value::ConstantOpNode<F64Bits> {
    fn var(&self, snarl: &Snarl<NoiseNode>) -> (r: Variable<F64Bits>)
        requires
            well_formed(graph_nodes(*snarl)),
            f64_ok(graph_nodes(*snarl), graph_rank(graph_nodes(*snarl)), slot_measure(graph_rank(graph_nodes(*snarl)), self.inputs[0]), self.inputs[0]),
            f64_ok(graph_nodes(*snarl), graph_rank(graph_nodes(*snarl)), slot_measure(graph_rank(graph_nodes(*snarl)), self.inputs[1]), self.inputs[1]),
        ensures
            r == Variable::Operation(Box::new(f64_var(graph_nodes(*snarl), graph_rank(graph_nodes(*snarl)), self.inputs[0])), Box::new(f64_var(graph_nodes(*snarl), graph_rank(graph_nodes(*snarl)), self.inputs[1])), self.op_ty),
    {
        Variable::Operation(
            Box::new(self.inputs[0].var(snarl)),
                            Box::new(self.inputs[1].var(snarl)),
            self.op_ty,
        )
    }
}

impl UnaryNode {
    fn expr(&self, snarl: &Snarl<NoiseNode>) -> (r: Box<Expr>)
        requires
            well_formed(graph_nodes(*snarl)),
            source_valid(graph_nodes(*snarl), self.input_node_idx),
        ensures
            source_expr(graph_nodes(*snarl), graph_rank(graph_nodes(*snarl)), self.input_node_idx, *r),
        decreases src_measure(graph_rank(graph_nodes(*snarl)), self.input_node_idx), 1nat,
    {
        source_of(self.input_node_idx, snarl)
    }
}

impl CombinerNode {
    fn expr(&self, snarl: &Snarl<NoiseNode>) -> (r: (Box<Expr>, Box<Expr>))
        requires
            well_formed(graph_nodes(*snarl)),
            source_valid(graph_nodes(*snarl), self.input_node_indices[0]),
            source_valid(graph_nodes(*snarl), self.input_node_indices[1]),
        ensures
            pair_expr(graph_nodes(*snarl), graph_rank(graph_nodes(*snarl)), self.input_node_indices, *r.0, *r.1),
        decreases pair_measure(graph_rank(graph_nodes(*snarl)), self.input_node_indices), 1nat,
    {
        (
            source_of(self.input_node_indices[0], snarl),
            source_of(self.input_node_indices[1], snarl),
        )
    }
}

impl BlendNode {
    fn expr(&self, snarl: &Snarl<NoiseNode>) -> (r: BlendExpr)
        requires
            well_formed(graph_nodes(*snarl)),
            node_valid(graph_nodes(*snarl), NoiseNode::Blend(*self)),
        ensures
            blend_expr(graph_nodes(*snarl), graph_rank(graph_nodes(*snarl)), *self, r),
        decreases blend_measure(graph_rank(graph_nodes(*snarl)), *self), 1nat,
    {
        BlendExpr {
            sources: (
                source_of(self.input_node_indices[0], snarl),
                source_of(self.input_node_indices[1], snarl),
            ),
            control: source_of(self.control_node_idx, snarl),
        }
    }
}

impl ClampNode {
    fn expr(&self, snarl: &Snarl<NoiseNode>) -> (r: ClampExpr)
        requires
            well_formed(graph_nodes(*snarl)),
            node_valid(graph_nodes(*snarl), NoiseNode::Clamp(*self)),
        ensures
            expr_ok(graph_nodes(*snarl), graph_rank(graph_nodes(*snarl)), NoiseNode::Clamp(*self), Expr::Clamp(r)),
        decreases src_measure(graph_rank(graph_nodes(*snarl)), self.input_node_idx), 1nat,
    {
        ClampExpr {
            source: source_of(self.input_node_idx, snarl),
            lower_bound: self.lower_bound.var(snarl),
            upper_bound: self.upper_bound.var(snarl),
        }
    }
}

fn control_points(indices: &Vec<Option<usize>>, snarl: &Snarl<NoiseNode>) -> (r: Vec<ControlPointExpr>)
    requires
        well_formed(graph_nodes(*snarl)),
        forall|k: int|
            #![trigger indices@[k]]
            0 <= k < indices@.len() && indices@[k] is Some ==> graph_nodes(*snarl).contains_key(
                indices@[k]->0,
            ) && graph_nodes(*snarl)[indices@[k]->0] is ControlPoint,
    ensures
        r@ == indices@.filter_map(control_point_of(graph_nodes(*snarl), graph_rank(graph_nodes(*snarl)))),
{
    let ghost nodes = graph_nodes(*snarl);
    let ghost rank = graph_rank(nodes);
    let ghost f = control_point_of(nodes, rank);
    let mut points: Vec<ControlPointExpr> = Vec::new();
    let mut i: usize = 0;
    while i < indices.len()
        invariant
            i <= indices.len(),
            well_formed(nodes),
            nodes == graph_nodes(*snarl),
            rank == graph_rank(nodes),
            f == control_point_of(nodes, rank),
            forall|k: int|
                #![trigger indices@[k]]
                0 <= k < indices@.len() && indices@[k] is Some ==> nodes.contains_key(indices@[k]->0)
                    && nodes[indices@[k]->0] is ControlPoint,
            points@ == indices@.subrange(0, i as int).filter_map(f),
        decreases indices.len() - i,
    {
        assert(indices@.subrange(0, i + 1).drop_last() == indices@.subrange(0, i as int));
        assert(indices@.subrange(0, i + 1).last() == indices@[i as int]);
        if let Some(node_idx) = indices[i] {
            assert(indices@[i as int] == Some(node_idx));
            assert(nodes.contains_key(node_idx) && nodes[node_idx] is ControlPoint);
            proof {
                lemma_node_valid(nodes, node_idx);
            }
            match graph_node(snarl, node_idx).unwrap() {
                NoiseNode::ControlPoint(control_point) => {
                    points.push(
                        ControlPointExpr {
                            input_value: control_point.input.var(snarl),
                            output_value: control_point.output.var(snarl),
                        },
                    );
                },
                _ => {},
            }
        }
        i += 1;
    }
    assert(indices@.subrange(0, indices.len() as int) == indices@);
    points
}

fn terrace_points(indices: &Vec<Option<usize>>, snarl: &Snarl<NoiseNode>) -> (r: Vec<Variable<F64Bits>>)
    requires
        well_formed(graph_nodes(*snarl)),
        forall|k: int|
            #![trigger indices@[k]]
            0 <= k < indices@.len() && indices@[k] is Some ==> graph_nodes(*snarl).contains_key(
                indices@[k]->0,
            ) && is_f64_value(graph_nodes(*snarl)[indices@[k]->0]),
    ensures
        r@ == indices@.filter_map(terrace_point_of(graph_nodes(*snarl), graph_rank(graph_nodes(*snarl)))),
{
    let ghost nodes = graph_nodes(*snarl);
    let ghost rank = graph_rank(nodes);
    let ghost f = terrace_point_of(nodes, rank);
    let mut points: Vec<Variable<F64Bits>> = Vec::new();
    let mut i: usize = 0;
    while i < indices.len()
        invariant
            i <= indices.len(),
            well_formed(nodes),
            nodes == graph_nodes(*snarl),
            rank == graph_rank(nodes),
            f == terrace_point_of(nodes, rank),
            forall|k: int|
                #![trigger indices@[k]]
                0 <= k < indices@.len() && indices@[k] is Some ==> nodes.contains_key(indices@[k]->0)
                    && is_f64_value(nodes[indices@[k]->0]),
            points@ == indices@.subrange(0, i as int).filter_map(f),
        decreases indices.len() - i,
    {
        assert(indices@.subrange(0, i + 1).drop_last() == indices@.subrange(0, i as int));
        assert(indices@.subrange(0, i + 1).last() == indices@[i as int]);
        if let Some(node_idx) = indices[i] {
            assert(indices@[i as int] == Some(node_idx));
            proof {
                lemma_node_valid(nodes, node_idx);
            }
            let point = match graph_node(snarl, node_idx).unwrap() {
                NoiseNode::F64(node) => Variable::Named(node.name.clone(), node.value),
                NoiseNode::F64Operation(node) => node.var(snarl),
                _ => Variable::Anonymous(F64Bits(ZERO_BITS)),
            };
            points.push(point);
        }
        i += 1;
    }
    assert(indices@.subrange(0, indices.len() as int) == indices@);
    points
}

impl CurveNode {
    fn expr(&self, snarl: &Snarl<NoiseNode>) -> (r: CurveExpr)
        requires
            well_formed(graph_nodes(*snarl)),
            node_valid(graph_nodes(*snarl), NoiseNode::Curve(*self)),
        ensures
            expr_ok(graph_nodes(*snarl), graph_rank(graph_nodes(*snarl)), NoiseNode::Curve(*self), Expr::Curve(r)),
        decreases src_measure(graph_rank(graph_nodes(*snarl)), self.input_node_idx), 1nat,
    {
        let ghost nodes = graph_nodes(*snarl);
        let ghost rank = graph_rank(nodes);
        let ghost bound = choose|bound: nat| node_ok(nodes, rank, NoiseNode::Curve(*self), bound);
        assert forall|k: int|
            #![trigger self.control_point_node_indices@[k]]
            0 <= k < self.control_point_node_indices@.len() && self.control_point_node_indices@[k] is Some implies nodes.contains_key(
                self.control_point_node_indices@[k]->0,
            ) && nodes[self.control_point_node_indices@[k]->0] is ControlPoint by {
            assert(ref_ok(nodes, rank, bound, self.control_point_node_indices@[k], |n: NoiseNode| n is ControlPoint));
        }
        CurveExpr {
            source: source_of(self.input_node_idx, snarl),
            control_points: control_points(&self.control_point_node_indices, snarl),
        }
    }
}

impl DisplaceNode {
    fn expr(&self, snarl: &Snarl<NoiseNode>) -> (r: DisplaceExpr)
        requires
            well_formed(graph_nodes(*snarl)),
            node_valid(graph_nodes(*snarl), NoiseNode::Displace(*self)),
        ensures
            displace_expr(graph_nodes(*snarl), graph_rank(graph_nodes(*snarl)), *self, r),
        decreases displace_measure(graph_rank(graph_nodes(*snarl)), *self), 1nat,
    {
        DisplaceExpr {
            source: source_of(self.input_node_idx, snarl),
            axes: (
                source_of(self.axes[0], snarl),
                source_of(self.axes[1], snarl),
                source_of(self.axes[2], snarl),
                source_of(self.axes[3], snarl),
            ),
        }
    }
}

impl ExponentNode {
    fn expr(&self, snarl: &Snarl<NoiseNode>) -> (r: ExponentExpr)
        requires
            well_formed(graph_nodes(*snarl)),
            node_valid(graph_nodes(*snarl), NoiseNode::Exponent(*self)),
        ensures
            expr_ok(graph_nodes(*snarl), graph_rank(graph_nodes(*snarl)), NoiseNode::Exponent(*self), Expr::Exponent(r)),
        decreases src_measure(graph_rank(graph_nodes(*snarl)), self.input_node_idx), 1nat,
    {
        ExponentExpr {
            source: source_of(self.input_node_idx, snarl),
            exponent: self.exponent.var(snarl),
        }
    }
}

impl FractalNode {
    fn expr(&self, snarl: &Snarl<NoiseNode>) -> (r: FractalExpr)
        requires
            well_formed(graph_nodes(*snarl)),
            node_valid(graph_nodes(*snarl), NoiseNode::Fbm(*self)),
        ensures
            r == fractal_expr(graph_nodes(*snarl), graph_rank(graph_nodes(*snarl)), *self),
    {
        FractalExpr {
            source_ty: self.source_ty,
            seed: self.seed.var(snarl),
            octaves: self.octaves.var(snarl),
            frequency: self.frequency.var(snarl),
            lacunarity: self.lacunarity.var(snarl),
            persistence: self.persistence.var(snarl),
        }
    }
}

impl RigidFractalNode {
    fn expr(&self, snarl: &Snarl<NoiseNode>) -> (r: RigidFractalExpr)
        requires
            well_formed(graph_nodes(*snarl)),
            node_valid(graph_nodes(*snarl), NoiseNode::RigidMulti(*self)),
        ensures
            r == rigid_fractal_expr(graph_nodes(*snarl), graph_rank(graph_nodes(*snarl)), *self),
    {
        RigidFractalExpr {
            source_ty: self.source_ty,
            seed: self.seed.var(snarl),
            octaves: self.octaves.var(snarl),
            frequency: self.frequency.var(snarl),
            lacunarity: self.lacunarity.var(snarl),
            persistence: self.persistence.var(snarl),
            attenuation: self.attenuation.var(snarl),
        }
    }
}

impl ScaleBiasNode {
    fn expr(&self, snarl: &Snarl<NoiseNode>) -> (r: ScaleBiasExpr)
        requires
            well_formed(graph_nodes(*snarl)),
            node_valid(graph_nodes(*snarl), NoiseNode::ScaleBias(*self)),
        ensures
            expr_ok(graph_nodes(*snarl), graph_rank(graph_nodes(*snarl)), NoiseNode::ScaleBias(*self), Expr::ScaleBias(r)),
        decreases src_measure(graph_rank(graph_nodes(*snarl)), self.input_node_idx), 1nat,
    {
        ScaleBiasExpr {
            source: source_of(self.input_node_idx, snarl),
            scale: self.scale.var(snarl),
            bias: self.bias.var(snarl),
        }
    }
}

impl SelectNode {
    fn expr(&self, snarl: &Snarl<NoiseNode>) -> (r: SelectExpr)
        requires
            well_formed(graph_nodes(*snarl)),
            node_valid(graph_nodes(*snarl), NoiseNode::Select(*self)),
        ensures
            select_expr(graph_nodes(*snarl), graph_rank(graph_nodes(*snarl)), *self, r),
        decreases select_measure(graph_rank(graph_nodes(*snarl)), *self), 1nat,
    {
        SelectExpr {
            sources: (
                source_of(self.input_node_indices[0], snarl),
                source_of(self.input_node_indices[1], snarl),
            ),
            control: source_of(self.control_node_idx, snarl),
            lower_bound: self.lower_bound.var(snarl),
            upper_bound: self.upper_bound.var(snarl),
            falloff: self.falloff.var(snarl),
        }
    }
}

impl TerraceNode {
    fn expr(&self, snarl: &Snarl<NoiseNode>) -> (r: TerraceExpr)
        requires
            well_formed(graph_nodes(*snarl)),
            node_valid(graph_nodes(*snarl), NoiseNode::Terrace(*self)),
        ensures
            expr_ok(graph_nodes(*snarl), graph_rank(graph_nodes(*snarl)), NoiseNode::Terrace(*self), Expr::Terrace(r)),
        decreases src_measure(graph_rank(graph_nodes(*snarl)), self.input_node_idx), 1nat,
    {
        let ghost nodes = graph_nodes(*snarl);
        let ghost rank = graph_rank(nodes);
        let ghost bound = choose|bound: nat| node_ok(nodes, rank, NoiseNode::Terrace(*self), bound);
        assert forall|k: int|
            #![trigger self.control_point_node_indices@[k]]
            0 <= k < self.control_point_node_indices@.len() && self.control_point_node_indices@[k] is Some implies nodes.contains_key(
                self.control_point_node_indices@[k]->0,
            ) && is_f64_value(nodes[self.control_point_node_indices@[k]->0]) by {
            assert(ref_ok(nodes, rank, bound, self.control_point_node_indices@[k], |n: NoiseNode| is_f64_value(n)));
        }
        TerraceExpr {
            source: source_of(self.input_node_idx, snarl),
            inverted: self.inverted,
            control_points: terrace_points(&self.control_point_node_indices, snarl),
        }
    }
}

impl TransformNode {
    fn expr(&self, snarl: &Snarl<NoiseNode>) -> (r: TransformExpr)
        requires
            well_formed(graph_nodes(*snarl)),
            node_valid(graph_nodes(*snarl), NoiseNode::RotatePoint(*self)),
        ensures
            expr_ok(graph_nodes(*snarl), graph_rank(graph_nodes(*snarl)), NoiseNode::RotatePoint(*self), Expr::RotatePoint(r)),
        decreases src_measure(graph_rank(graph_nodes(*snarl)), self.input_node_idx), 1nat,
    {
        TransformExpr {
            source: source_of(self.input_node_idx, snarl),
            axes: [
                self.axes[0].var(snarl),
                self.axes[1].var(snarl),
                self.axes[2].var(snarl),
                self.axes[3].var(snarl),
            ],
        }
    }
}

impl TurbulenceNode {
    fn expr(&self, snarl: &Snarl<NoiseNode>) -> (r: TurbulenceExpr)
        requires
            well_formed(graph_nodes(*snarl)),
            node_valid(graph_nodes(*snarl), NoiseNode::Turbulence(*self)),
        ensures
            expr_ok(graph_nodes(*snarl), graph_rank(graph_nodes(*snarl)), NoiseNode::Turbulence(*self), Expr::Turbulence(r)),
        decreases src_measure(graph_rank(graph_nodes(*snarl)), self.input_node_idx), 1nat,
    {
        TurbulenceExpr {
            source: source_of(self.input_node_idx, snarl),
            source_ty: self.source_ty,
            seed: self.seed.var(snarl),
            frequency: self.frequency.var(snarl),
            power: self.power.var(snarl),
            roughness: self.roughness.var(snarl),
        }
    }
}

impl WorleyNode {
    fn expr(&self, snarl: &Snarl<NoiseNode>) -> (r: WorleyExpr)
        requires
            well_formed(graph_nodes(*snarl)),
            node_valid(graph_nodes(*snarl), NoiseNode::Worley(*self)),
        ensures
            r == worley_expr(graph_nodes(*snarl), graph_rank(graph_nodes(*snarl)), *self),
    {
        WorleyExpr {
            seed: self.seed.var(snarl),
            frequency: self.frequency.var(snarl),
            distance_fn: self.distance_fn,
            return_ty: self.return_ty,
        }
    }
}

impl NoiseNode {
    /// Compiles this node, and everything it transitively reads, into an
    /// expression tree. Disconnected source slots become literal constants.
    pub fn expr(&self, snarl: &Snarl<Self>) -> (r: Expr)
        requires
            well_formed(graph_nodes(*snarl)),
            is_source(*self),
            node_valid(graph_nodes(*snarl), *self),
        ensures
            expr_ok(graph_nodes(*snarl), graph_rank(graph_nodes(*snarl)), *self, r),
        decreases node_measure(graph_rank(graph_nodes(*snarl)), *self), 2nat,
    {
        let ghost nodes = graph_nodes(*snarl);
        let ghost rank = graph_rank(nodes);
        let ghost bound = choose|bound: nat| node_ok(nodes, rank, *self, bound);
        assert(ranked(nodes, rank));
        match self {
            NoiseNode::Abs(node) => Expr::Abs(node.expr(snarl)),
            NoiseNode::Add(node) => {
                let (lhs, rhs) = node.expr(snarl);
                Expr::Add(lhs, rhs)
            },
            NoiseNode::BasicMulti(node) => {
                assert(node_ok(nodes, rank, NoiseNode::Fbm(*node), bound));
                Expr::BasicMulti(node.expr(snarl))
            },
            NoiseNode::Billow(node) => {
                assert(node_ok(nodes, rank, NoiseNode::Fbm(*node), bound));
                Expr::Billow(node.expr(snarl))
            },
            NoiseNode::Blend(node) => Expr::Blend(node.expr(snarl)),
            NoiseNode::Checkerboard(node) => Expr::Checkerboard(node.size.var(snarl)),
            NoiseNode::Clamp(node) => Expr::Clamp(node.expr(snarl)),
            NoiseNode::Curve(node) => Expr::Curve(node.expr(snarl)),
            NoiseNode::Cylinders(node) => Expr::Cylinders(node.frequency.var(snarl)),
            NoiseNode::Displace(node) => Expr::Displace(node.expr(snarl)),
            NoiseNode::Exponent(node) => Expr::Exponent(node.expr(snarl)),
            NoiseNode::F64(node) => Expr::Constant(Variable::Named(node.name.clone(), node.value)),
            NoiseNode::F64Operation(node) => Expr::Constant(node.var(snarl)),
            NoiseNode::Fbm(node) => Expr::Fbm(node.expr(snarl)),
            NoiseNode::HybridMulti(node) => {
                assert(node_ok(nodes, rank, NoiseNode::Fbm(*node), bound));
                Expr::HybridMulti(node.expr(snarl))
            },
            NoiseNode::Max(node) => {
                let (lhs, rhs) = node.expr(snarl);
                Expr::Max(lhs, rhs)
            },
            NoiseNode::Min(node) => {
                let (lhs, rhs) = node.expr(snarl);
                Expr::Min(lhs, rhs)
            },
            NoiseNode::Multiply(node) => {
                let (lhs, rhs) = node.expr(snarl);
                Expr::Multiply(lhs, rhs)
            },
            NoiseNode::Negate(node) => Expr::Negate(node.expr(snarl)),
            NoiseNode::OpenSimplex(node) => Expr::OpenSimplex(node.seed.var(snarl)),
            NoiseNode::Perlin(node) => Expr::Perlin(node.seed.var(snarl)),
            NoiseNode::PerlinSurflet(node) => Expr::PerlinSurflet(node.seed.var(snarl)),
            NoiseNode::Power(node) => {
                let (lhs, rhs) = node.expr(snarl);
                Expr::Power(lhs, rhs)
            },
            NoiseNode::RigidMulti(node) => Expr::RidgedMulti(node.expr(snarl)),
            NoiseNode::RotatePoint(node) => Expr::RotatePoint(node.expr(snarl)),
            NoiseNode::ScaleBias(node) => Expr::ScaleBias(node.expr(snarl)),
            NoiseNode::ScalePoint(node) => {
                assert(node_ok(nodes, rank, NoiseNode::RotatePoint(*node), bound));
                Expr::ScalePoint(node.expr(snarl))
            },
            NoiseNode::Select(node) => Expr::Select(node.expr(snarl)),
            NoiseNode::Simplex(node) => Expr::Simplex(node.seed.var(snarl)),
            NoiseNode::SuperSimplex(node) => Expr::SuperSimplex(node.seed.var(snarl)),
            NoiseNode::Terrace(node) => Expr::Terrace(node.expr(snarl)),
            NoiseNode::TranslatePoint(node) => {
                assert(node_ok(nodes, rank, NoiseNode::RotatePoint(*node), bound));
                Expr::TranslatePoint(node.expr(snarl))
            },
            NoiseNode::Turbulence(node) => Expr::Turbulence(node.expr(snarl)),
            NoiseNode::Value(node) => Expr::Value(node.seed.var(snarl)),
            NoiseNode::Worley(node) => Expr::Worley(node.expr(snarl)),
            NoiseNode::ControlPoint(_) | NoiseNode::Operation(_) | NoiseNode::U32(_)
            | NoiseNode::U32Operation(_) => {
                proof {
                    assert(false);
                }
                Expr::Constant(Variable::Anonymous(F64Bits(ZERO_BITS)))
            },
        }
    }
}

} // verus!
