use vstd::multiset::Multiset;
use vstd::prelude::*;

use crate::compile::{
    compiles_to, control_point_of, expr_ok, f64_var, graph_rank, is_f64_value, node_ok, ranked,
    source_expr, terrace_point_of, u32_var, well_formed,
};
use crate::expr::{ControlPointExpr, Expr, Variable};
use crate::node::NoiseNode;
use crate::value::{F64Bits, NodeValue};

verus! {

// ---------------------------------------------------------------------------
// Leaves of compiled trees
// ---------------------------------------------------------------------------

/// The leaves of a resolved value that stand for a node: named constants and
/// arithmetic sub-expressions. Anonymous literals stand for none.
pub open spec fn var_leaves<T>(v: Variable<T>) -> nat
    decreases v,
{
    match v {
        Variable::Anonymous(_) => 0,
        Variable::Named(_, _) => 1,
        Variable::Operation(a, b, _) => 1 + var_leaves(*a) + var_leaves(*b),
    }
}

pub open spec fn points_leaves(s: Seq<ControlPointExpr>) -> nat
    decreases s.len(),
{
    if s.len() == 0 {
        0
    } else {
        points_leaves(s.drop_last()) + var_leaves(s.last().input_value) + var_leaves(
            s.last().output_value,
        )
    }
}

pub open spec fn values_leaves(s: Seq<Variable<F64Bits>>) -> nat
    decreases s.len(),
{
    if s.len() == 0 {
        0
    } else {
        values_leaves(s.drop_last()) + var_leaves(s.last())
    }
}

/// The literal leaves of an expression tree that stand for a node.
pub open spec fn leaves(e: Expr) -> nat
    decreases e,
{
    match e {
        Expr::Abs(x) | Expr::Negate(x) => leaves(*x),
        Expr::Add(x, y) | Expr::Max(x, y) | Expr::Min(x, y) | Expr::Multiply(x, y) | Expr::Power(x, y) => leaves(*x) + leaves(*y),
        Expr::BasicMulti(f) | Expr::Billow(f) | Expr::Fbm(f) | Expr::HybridMulti(f) => var_leaves(f.seed) + var_leaves(f.octaves) + var_leaves(f.frequency) + var_leaves(f.lacunarity) + var_leaves(f.persistence),
        Expr::Blend(b) => leaves(*b.sources.0) + leaves(*b.sources.1) + leaves(*b.control),
        Expr::Checkerboard(v) | Expr::OpenSimplex(v) | Expr::Perlin(v) | Expr::PerlinSurflet(v) | Expr::Simplex(v) | Expr::SuperSimplex(v) | Expr::Value(v) => var_leaves(v),
        Expr::Clamp(c) => leaves(*c.source) + var_leaves(c.lower_bound) + var_leaves(c.upper_bound),
        Expr::Constant(v) | Expr::Cylinders(v) => var_leaves(v),
        Expr::Curve(c) => leaves(*c.source) + points_leaves(c.control_points@),
        Expr::Displace(d) => leaves(*d.source) + leaves(*d.axes.0) + leaves(*d.axes.1) + leaves(*d.axes.2) + leaves(*d.axes.3),
        Expr::Exponent(x) => leaves(*x.source) + var_leaves(x.exponent),
        Expr::RidgedMulti(f) => var_leaves(f.seed) + var_leaves(f.octaves) + var_leaves(f.frequency) + var_leaves(f.lacunarity) + var_leaves(f.persistence) + var_leaves(f.attenuation),
        Expr::RotatePoint(t) | Expr::ScalePoint(t) | Expr::TranslatePoint(t) => leaves(*t.source) + var_leaves(t.axes[0]) + var_leaves(t.axes[1]) + var_leaves(t.axes[2]) + var_leaves(t.axes[3]),
        Expr::ScaleBias(x) => leaves(*x.source) + var_leaves(x.scale) + var_leaves(x.bias),
        Expr::Select(x) => leaves(*x.sources.0) + leaves(*x.sources.1) + leaves(*x.control) + var_leaves(x.lower_bound) + var_leaves(x.upper_bound) + var_leaves(x.falloff),
        Expr::Terrace(t) => leaves(*t.source) + values_leaves(t.control_points@),
        Expr::Turbulence(t) => leaves(*t.source) + var_leaves(t.seed) + var_leaves(t.frequency) + var_leaves(t.power) + var_leaves(t.roughness),
        Expr::Worley(w) => var_leaves(w.seed) + var_leaves(w.frequency),
    }
}

// ---------------------------------------------------------------------------
// Constant and operation nodes reached by compilation
// ---------------------------------------------------------------------------

/// The named constants and typed operation nodes that compiling node `j`
/// reaches, once for each way of reaching them.
pub open spec fn reach(nodes: Map<usize, NoiseNode>, rank: spec_fn(usize) -> nat, j: usize) -> Multiset<usize>
    decreases rank(j), 1nat, 0nat,
    when ranked(nodes, rank)
{
    if !nodes.contains_key(j) {
        Multiset::empty()
    } else {
        match nodes[j] {
            NoiseNode::F64(_) | NoiseNode::U32(_) => Multiset::singleton(j),
            NoiseNode::F64Operation(op) => Multiset::singleton(j).add((match op.inputs[0] { NodeValue::Node(k) => reach(nodes, rank, k), NodeValue::Value(_) => Multiset::empty() })).add((match op.inputs[1] { NodeValue::Node(k) => reach(nodes, rank, k), NodeValue::Value(_) => Multiset::empty() })),
            NoiseNode::U32Operation(op) => Multiset::singleton(j).add((match op.inputs[0] { NodeValue::Node(k) => reach(nodes, rank, k), NodeValue::Value(_) => Multiset::empty() })).add((match op.inputs[1] { NodeValue::Node(k) => reach(nodes, rank, k), NodeValue::Value(_) => Multiset::empty() })),
            NoiseNode::Operation(_) => Multiset::empty(),
            NoiseNode::Abs(u) | NoiseNode::Negate(u) => (match u.input_node_idx { Some(k) => reach(nodes, rank, k), None => Multiset::empty() }),
            NoiseNode::Add(c) | NoiseNode::Max(c) | NoiseNode::Min(c) | NoiseNode::Multiply(c) | NoiseNode::Power(c) => (match c.input_node_indices[0] { Some(k) => reach(nodes, rank, k), None => Multiset::empty() }).add((match c.input_node_indices[1] { Some(k) => reach(nodes, rank, k), None => Multiset::empty() })),
            NoiseNode::BasicMulti(f) | NoiseNode::Billow(f) | NoiseNode::Fbm(f) | NoiseNode::HybridMulti(f) => (match f.seed { NodeValue::Node(k) => reach(nodes, rank, k), NodeValue::Value(_) => Multiset::empty() }).add((match f.octaves { NodeValue::Node(k) => reach(nodes, rank, k), NodeValue::Value(_) => Multiset::empty() })).add((match f.frequency { NodeValue::Node(k) => reach(nodes, rank, k), NodeValue::Value(_) => Multiset::empty() })).add((match f.lacunarity { NodeValue::Node(k) => reach(nodes, rank, k), NodeValue::Value(_) => Multiset::empty() })).add((match f.persistence { NodeValue::Node(k) => reach(nodes, rank, k), NodeValue::Value(_) => Multiset::empty() })),
            NoiseNode::Blend(b) => (match b.input_node_indices[0] { Some(k) => reach(nodes, rank, k), None => Multiset::empty() }).add((match b.input_node_indices[1] { Some(k) => reach(nodes, rank, k), None => Multiset::empty() })).add((match b.control_node_idx { Some(k) => reach(nodes, rank, k), None => Multiset::empty() })),
            NoiseNode::Clamp(c) => (match c.input_node_idx { Some(k) => reach(nodes, rank, k), None => Multiset::empty() }).add((match c.lower_bound { NodeValue::Node(k) => reach(nodes, rank, k), NodeValue::Value(_) => Multiset::empty() })).add((match c.upper_bound { NodeValue::Node(k) => reach(nodes, rank, k), NodeValue::Value(_) => Multiset::empty() })),
            NoiseNode::Checkerboard(c) => (match c.size { NodeValue::Node(k) => reach(nodes, rank, k), NodeValue::Value(_) => Multiset::empty() }),
            NoiseNode::ControlPoint(c) => (match c.input { NodeValue::Node(k) => reach(nodes, rank, k), NodeValue::Value(_) => Multiset::empty() }).add((match c.output { NodeValue::Node(k) => reach(nodes, rank, k), NodeValue::Value(_) => Multiset::empty() })),
            NoiseNode::Curve(c) => (match c.input_node_idx { Some(k) => reach(nodes, rank, k), None => Multiset::empty() }).add(points_reach(nodes, rank, rank(j), c.control_point_node_indices@)),
            NoiseNode::Cylinders(c) => (match c.frequency { NodeValue::Node(k) => reach(nodes, rank, k), NodeValue::Value(_) => Multiset::empty() }),
            NoiseNode::Displace(d) => (match d.input_node_idx { Some(k) => reach(nodes, rank, k), None => Multiset::empty() }).add((match d.axes[0] { Some(k) => reach(nodes, rank, k), None => Multiset::empty() })).add((match d.axes[1] { Some(k) => reach(nodes, rank, k), None => Multiset::empty() })).add((match d.axes[2] { Some(k) => reach(nodes, rank, k), None => Multiset::empty() })).add((match d.axes[3] { Some(k) => reach(nodes, rank, k), None => Multiset::empty() })),
            NoiseNode::Exponent(x) => (match x.input_node_idx { Some(k) => reach(nodes, rank, k), None => Multiset::empty() }).add((match x.exponent { NodeValue::Node(k) => reach(nodes, rank, k), NodeValue::Value(_) => Multiset::empty() })),
            NoiseNode::OpenSimplex(g) | NoiseNode::Perlin(g) | NoiseNode::PerlinSurflet(g) | NoiseNode::Simplex(g) | NoiseNode::SuperSimplex(g) | NoiseNode::Value(g) => (match g.seed { NodeValue::Node(k) => reach(nodes, rank, k), NodeValue::Value(_) => Multiset::empty() }),
            NoiseNode::RigidMulti(f) => (match f.seed { NodeValue::Node(k) => reach(nodes, rank, k), NodeValue::Value(_) => Multiset::empty() }).add((match f.octaves { NodeValue::Node(k) => reach(nodes, rank, k), NodeValue::Value(_) => Multiset::empty() })).add((match f.frequency { NodeValue::Node(k) => reach(nodes, rank, k), NodeValue::Value(_) => Multiset::empty() })).add((match f.lacunarity { NodeValue::Node(k) => reach(nodes, rank, k), NodeValue::Value(_) => Multiset::empty() })).add((match f.persistence { NodeValue::Node(k) => reach(nodes, rank, k), NodeValue::Value(_) => Multiset::empty() })).add((match f.attenuation { NodeValue::Node(k) => reach(nodes, rank, k), NodeValue::Value(_) => Multiset::empty() })),
            NoiseNode::RotatePoint(t) | NoiseNode::ScalePoint(t) | NoiseNode::TranslatePoint(t) => (match t.input_node_idx { Some(k) => reach(nodes, rank, k), None => Multiset::empty() }).add((match t.axes[0] { NodeValue::Node(k) => reach(nodes, rank, k), NodeValue::Value(_) => Multiset::empty() })).add((match t.axes[1] { NodeValue::Node(k) => reach(nodes, rank, k), NodeValue::Value(_) => Multiset::empty() })).add((match t.axes[2] { NodeValue::Node(k) => reach(nodes, rank, k), NodeValue::Value(_) => Multiset::empty() })).add((match t.axes[3] { NodeValue::Node(k) => reach(nodes, rank, k), NodeValue::Value(_) => Multiset::empty() })),
            NoiseNode::ScaleBias(x) => (match x.input_node_idx { Some(k) => reach(nodes, rank, k), None => Multiset::empty() }).add((match x.scale { NodeValue::Node(k) => reach(nodes, rank, k), NodeValue::Value(_) => Multiset::empty() })).add((match x.bias { NodeValue::Node(k) => reach(nodes, rank, k), NodeValue::Value(_) => Multiset::empty() })),
            NoiseNode::Select(x) => (match x.input_node_indices[0] { Some(k) => reach(nodes, rank, k), None => Multiset::empty() }).add((match x.input_node_indices[1] { Some(k) => reach(nodes, rank, k), None => Multiset::empty() })).add((match x.control_node_idx { Some(k) => reach(nodes, rank, k), None => Multiset::empty() })).add((match x.lower_bound { NodeValue::Node(k) => reach(nodes, rank, k), NodeValue::Value(_) => Multiset::empty() })).add((match x.upper_bound { NodeValue::Node(k) => reach(nodes, rank, k), NodeValue::Value(_) => Multiset::empty() })).add((match x.falloff { NodeValue::Node(k) => reach(nodes, rank, k), NodeValue::Value(_) => Multiset::empty() })),
            NoiseNode::Terrace(t) => (match t.input_node_idx { Some(k) => reach(nodes, rank, k), None => Multiset::empty() }).add(values_reach(nodes, rank, rank(j), t.control_point_node_indices@)),
            NoiseNode::Turbulence(t) => (match t.input_node_idx { Some(k) => reach(nodes, rank, k), None => Multiset::empty() }).add((match t.seed { NodeValue::Node(k) => reach(nodes, rank, k), NodeValue::Value(_) => Multiset::empty() })).add((match t.frequency { NodeValue::Node(k) => reach(nodes, rank, k), NodeValue::Value(_) => Multiset::empty() })).add((match t.power { NodeValue::Node(k) => reach(nodes, rank, k), NodeValue::Value(_) => Multiset::empty() })).add((match t.roughness { NodeValue::Node(k) => reach(nodes, rank, k), NodeValue::Value(_) => Multiset::empty() })),
            NoiseNode::Worley(w) => (match w.seed { NodeValue::Node(k) => reach(nodes, rank, k), NodeValue::Value(_) => Multiset::empty() }).add((match w.frequency { NodeValue::Node(k) => reach(nodes, rank, k), NodeValue::Value(_) => Multiset::empty() })),
        }
    }
}

/// What the control point slots `s` reach, below `bound`.
pub open spec fn points_reach(
    nodes: Map<usize, NoiseNode>,
    rank: spec_fn(usize) -> nat,
    bound: nat,
    s: Seq<Option<usize>>,
) -> Multiset<usize>
    decreases bound, 0nat, s.len(),
    when ranked(nodes, rank) && forall|k: int|
        #![trigger s[k]]
        0 <= k < s.len() && s[k] is Some ==> nodes.contains_key(s[k]->0) && rank(s[k]->0) < bound
{
    if s.len() == 0 {
        Multiset::empty()
    } else {
        let rest = points_reach(nodes, rank, bound, s.drop_last());
        match s.last() {
            Some(c) => match nodes[c] {
                NoiseNode::ControlPoint(p) => rest.add((match p.input { NodeValue::Node(k) => reach(nodes, rank, k), NodeValue::Value(_) => Multiset::empty() })).add((match p.output { NodeValue::Node(k) => reach(nodes, rank, k), NodeValue::Value(_) => Multiset::empty() })),
                _ => rest,
            },
            None => rest,
        }
    }
}

/// What the terrace point slots `s` reach, below `bound`.
pub open spec fn values_reach(
    nodes: Map<usize, NoiseNode>,
    rank: spec_fn(usize) -> nat,
    bound: nat,
    s: Seq<Option<usize>>,
) -> Multiset<usize>
    decreases bound, 0nat, s.len(),
    when ranked(nodes, rank) && forall|k: int|
        #![trigger s[k]]
        0 <= k < s.len() && s[k] is Some ==> nodes.contains_key(s[k]->0) && rank(s[k]->0) < bound
{
    if s.len() == 0 {
        Multiset::empty()
    } else {
        let rest = values_reach(nodes, rank, bound, s.drop_last());
        match s.last() {
            Some(k) => rest.add(reach(nodes, rank, k)),
            None => rest,
        }
    }
}

/// A slot of kind `kind` that references an existing node of that kind.
pub open spec fn slot_valid<T>(
    nodes: Map<usize, NoiseNode>,
    v: NodeValue<T>,
    kind: spec_fn(NoiseNode) -> bool,
) -> bool {
    match v {
        NodeValue::Node(j) => nodes.contains_key(j) && kind(nodes[j]),
        NodeValue::Value(_) => true,
    }
}

proof fn lemma_f64_var_leaves(nodes: Map<usize, NoiseNode>, rank: spec_fn(usize) -> nat, v: NodeValue<F64Bits>)
    requires
        ranked(nodes, rank),
        slot_valid(nodes, v, |n: NoiseNode| is_f64_value(n)),
    ensures
        var_leaves(f64_var(nodes, rank, v)) == (match v { NodeValue::Node(k) => reach(nodes, rank, k), NodeValue::Value(_) => Multiset::empty() }).len(),
    decreases crate::compile::slot_measure(rank, v),
{
    broadcast use vstd::multiset::group_multiset_axioms;

    if let NodeValue::Node(j) = v {
        assert(node_ok(nodes, rank, nodes[j], rank(j)));
        if let NoiseNode::F64Operation(op) = nodes[j] {
            lemma_f64_var_leaves(nodes, rank, op.inputs[0]);
            lemma_f64_var_leaves(nodes, rank, op.inputs[1]);
        }
    }
}

proof fn lemma_u32_var_leaves(nodes: Map<usize, NoiseNode>, rank: spec_fn(usize) -> nat, v: NodeValue<u32>)
    requires
        ranked(nodes, rank),
        slot_valid(nodes, v, |n: NoiseNode| crate::compile::is_u32_value(n)),
    ensures
        var_leaves(u32_var(nodes, rank, v)) == (match v { NodeValue::Node(k) => reach(nodes, rank, k), NodeValue::Value(_) => Multiset::empty() }).len(),
    decreases crate::compile::slot_measure(rank, v),
{
    broadcast use vstd::multiset::group_multiset_axioms;

    if let NodeValue::Node(j) = v {
        assert(node_ok(nodes, rank, nodes[j], rank(j)));
        if let NoiseNode::U32Operation(op) = nodes[j] {
            lemma_u32_var_leaves(nodes, rank, op.inputs[0]);
            lemma_u32_var_leaves(nodes, rank, op.inputs[1]);
        }
    }
}

proof fn lemma_points_leaves(nodes: Map<usize, NoiseNode>, rank: spec_fn(usize) -> nat, bound: nat, s: Seq<Option<usize>>)
    requires
        ranked(nodes, rank),
        forall|k: int|
            #![trigger s[k]]
            0 <= k < s.len() && s[k] is Some ==> nodes.contains_key(s[k]->0) && rank(s[k]->0) < bound
                && nodes[s[k]->0] is ControlPoint,
    ensures
        points_leaves(s.filter_map(control_point_of(nodes, rank))) == points_reach(nodes, rank, bound, s).len(),
    decreases s.len(),
{
    broadcast use vstd::multiset::group_multiset_axioms;

    if s.len() > 0 {
        let rest = s.drop_last();
        assert forall|k: int|
            #![trigger rest[k]]
            0 <= k < rest.len() && rest[k] is Some implies nodes.contains_key(rest[k]->0) && rank(rest[k]->0) < bound
                && nodes[rest[k]->0] is ControlPoint by {
            assert(rest[k] == s[k]);
        }
        lemma_points_leaves(nodes, rank, bound, rest);
        let f = control_point_of(nodes, rank);
        assert(s.last() == s[s.len() - 1]);
        if let Some(c) = s.last() {
            assert(node_ok(nodes, rank, nodes[c], rank(c)));
            let p = nodes[c]->ControlPoint_0;
            lemma_f64_var_leaves(nodes, rank, p.input);
            lemma_f64_var_leaves(nodes, rank, p.output);
            let mapped = rest.filter_map(f).push(f(s.last())->0);
            assert(s.filter_map(f) == mapped);
            assert(mapped.drop_last() == rest.filter_map(f));
        } else {
            assert(s.filter_map(f) == rest.filter_map(f));
        }
    }
}

proof fn lemma_values_leaves(nodes: Map<usize, NoiseNode>, rank: spec_fn(usize) -> nat, bound: nat, s: Seq<Option<usize>>)
    requires
        ranked(nodes, rank),
        forall|k: int|
            #![trigger s[k]]
            0 <= k < s.len() && s[k] is Some ==> nodes.contains_key(s[k]->0) && rank(s[k]->0) < bound
                && is_f64_value(nodes[s[k]->0]),
    ensures
        values_leaves(s.filter_map(terrace_point_of(nodes, rank))) == values_reach(nodes, rank, bound, s).len(),
    decreases s.len(),
{
    broadcast use vstd::multiset::group_multiset_axioms;

    if s.len() > 0 {
        let rest = s.drop_last();
        assert forall|k: int|
            #![trigger rest[k]]
            0 <= k < rest.len() && rest[k] is Some implies nodes.contains_key(rest[k]->0) && rank(rest[k]->0) < bound
                && is_f64_value(nodes[rest[k]->0]) by {
            assert(rest[k] == s[k]);
        }
        lemma_values_leaves(nodes, rank, bound, rest);
        let f = terrace_point_of(nodes, rank);
        assert(s.last() == s[s.len() - 1]);
        if let Some(k) = s.last() {
            lemma_f64_var_leaves(nodes, rank, NodeValue::Node(k));
            let mapped = rest.filter_map(f).push(f(s.last())->0);
            assert(s.filter_map(f) == mapped);
            assert(mapped.drop_last() == rest.filter_map(f));
        } else {
            assert(s.filter_map(f) == rest.filter_map(f));
        }
    }
}

proof fn lemma_source_leaves(
    nodes: Map<usize, NoiseNode>,
    rank: spec_fn(usize) -> nat,
    o: Option<usize>,
    e: Expr,
)
    requires
        ranked(nodes, rank),
        source_expr(nodes, rank, o, e),
    ensures
        leaves(e) == (match o { Some(k) => reach(nodes, rank, k), None => Multiset::empty() }).len(),
    decreases crate::compile::src_measure(rank, o), 0nat,
{
    broadcast use vstd::multiset::group_multiset_axioms;

    match o {
        Some(j) => lemma_expr_leaves(nodes, rank, j, e),
        None => {},
    }
}

#[verifier::spinoff_prover]
#[verifier::rlimit(100)]
proof fn lemma_expr_leaves(nodes: Map<usize, NoiseNode>, rank: spec_fn(usize) -> nat, j: usize, e: Expr)
    requires
        ranked(nodes, rank),
        nodes.contains_key(j),
        expr_ok(nodes, rank, nodes[j], e),
    ensures
        leaves(e) == reach(nodes, rank, j).len(),
    decreases rank(j), 1nat,
{
    broadcast use vstd::multiset::group_multiset_axioms;

    assert(node_ok(nodes, rank, nodes[j], rank(j)));
    match nodes[j] {
        NoiseNode::F64(_) | NoiseNode::U32(_) | NoiseNode::Operation(_) | NoiseNode::ControlPoint(_) => {
            
        },
        NoiseNode::F64Operation(op) => {
            lemma_f64_var_leaves(nodes, rank, op.inputs[0]); lemma_f64_var_leaves(nodes, rank, op.inputs[1]);
        },
        NoiseNode::U32Operation(op) => {
            
        },
        NoiseNode::Abs(u) => {
            lemma_source_leaves(nodes, rank, u.input_node_idx, *e->Abs_0);
        },
        NoiseNode::Negate(u) => {
            lemma_source_leaves(nodes, rank, u.input_node_idx, *e->Negate_0);
        },
        NoiseNode::Add(c) => {
            lemma_source_leaves(nodes, rank, c.input_node_indices[0], *e->Add_0); lemma_source_leaves(nodes, rank, c.input_node_indices[1], *e->Add_1);
        },
        NoiseNode::Max(c) => {
            lemma_source_leaves(nodes, rank, c.input_node_indices[0], *e->Max_0); lemma_source_leaves(nodes, rank, c.input_node_indices[1], *e->Max_1);
        },
        NoiseNode::Min(c) => {
            lemma_source_leaves(nodes, rank, c.input_node_indices[0], *e->Min_0); lemma_source_leaves(nodes, rank, c.input_node_indices[1], *e->Min_1);
        },
        NoiseNode::Multiply(c) => {
            lemma_source_leaves(nodes, rank, c.input_node_indices[0], *e->Multiply_0); lemma_source_leaves(nodes, rank, c.input_node_indices[1], *e->Multiply_1);
        },
        NoiseNode::Power(c) => {
            lemma_source_leaves(nodes, rank, c.input_node_indices[0], *e->Power_0); lemma_source_leaves(nodes, rank, c.input_node_indices[1], *e->Power_1);
        },
        NoiseNode::BasicMulti(f) => {
            lemma_u32_var_leaves(nodes, rank, f.seed); lemma_u32_var_leaves(nodes, rank, f.octaves); lemma_f64_var_leaves(nodes, rank, f.frequency); lemma_f64_var_leaves(nodes, rank, f.lacunarity); lemma_f64_var_leaves(nodes, rank, f.persistence);
        },
        NoiseNode::Billow(f) => {
            lemma_u32_var_leaves(nodes, rank, f.seed); lemma_u32_var_leaves(nodes, rank, f.octaves); lemma_f64_var_leaves(nodes, rank, f.frequency); lemma_f64_var_leaves(nodes, rank, f.lacunarity); lemma_f64_var_leaves(nodes, rank, f.persistence);
        },
        NoiseNode::Fbm(f) => {
            lemma_u32_var_leaves(nodes, rank, f.seed); lemma_u32_var_leaves(nodes, rank, f.octaves); lemma_f64_var_leaves(nodes, rank, f.frequency); lemma_f64_var_leaves(nodes, rank, f.lacunarity); lemma_f64_var_leaves(nodes, rank, f.persistence);
        },
        NoiseNode::HybridMulti(f) => {
            lemma_u32_var_leaves(nodes, rank, f.seed); lemma_u32_var_leaves(nodes, rank, f.octaves); lemma_f64_var_leaves(nodes, rank, f.frequency); lemma_f64_var_leaves(nodes, rank, f.lacunarity); lemma_f64_var_leaves(nodes, rank, f.persistence);
        },
        NoiseNode::Blend(b) => {
            lemma_source_leaves(nodes, rank, b.input_node_indices[0], *e->Blend_0.sources.0); lemma_source_leaves(nodes, rank, b.input_node_indices[1], *e->Blend_0.sources.1); lemma_source_leaves(nodes, rank, b.control_node_idx, *e->Blend_0.control);
        },
        NoiseNode::Clamp(c) => {
            lemma_source_leaves(nodes, rank, c.input_node_idx, *e->Clamp_0.source); lemma_f64_var_leaves(nodes, rank, c.lower_bound); lemma_f64_var_leaves(nodes, rank, c.upper_bound);
        },
        NoiseNode::Checkerboard(c) => {
            lemma_u32_var_leaves(nodes, rank, c.size);
        },
        NoiseNode::Curve(c) => {
            lemma_source_leaves(nodes, rank, c.input_node_idx, *e->Curve_0.source); lemma_points_leaves(nodes, rank, rank(j), c.control_point_node_indices@);
        },
        NoiseNode::Cylinders(c) => {
            lemma_f64_var_leaves(nodes, rank, c.frequency);
        },
        NoiseNode::Displace(d) => {
            lemma_source_leaves(nodes, rank, d.input_node_idx, *e->Displace_0.source); lemma_source_leaves(nodes, rank, d.axes[0], *e->Displace_0.axes.0); lemma_source_leaves(nodes, rank, d.axes[1], *e->Displace_0.axes.1); lemma_source_leaves(nodes, rank, d.axes[2], *e->Displace_0.axes.2); lemma_source_leaves(nodes, rank, d.axes[3], *e->Displace_0.axes.3);
        },
        NoiseNode::Exponent(x) => {
            lemma_source_leaves(nodes, rank, x.input_node_idx, *e->Exponent_0.source); lemma_f64_var_leaves(nodes, rank, x.exponent);
        },
        NoiseNode::OpenSimplex(g) => {
            lemma_u32_var_leaves(nodes, rank, g.seed);
        },
        NoiseNode::Perlin(g) => {
            lemma_u32_var_leaves(nodes, rank, g.seed);
        },
        NoiseNode::PerlinSurflet(g) => {
            lemma_u32_var_leaves(nodes, rank, g.seed);
        },
        NoiseNode::Simplex(g) => {
            lemma_u32_var_leaves(nodes, rank, g.seed);
        },
        NoiseNode::SuperSimplex(g) => {
            lemma_u32_var_leaves(nodes, rank, g.seed);
        },
        NoiseNode::Value(g) => {
            lemma_u32_var_leaves(nodes, rank, g.seed);
        },
        NoiseNode::RigidMulti(f) => {
            lemma_u32_var_leaves(nodes, rank, f.seed); lemma_u32_var_leaves(nodes, rank, f.octaves); lemma_f64_var_leaves(nodes, rank, f.frequency); lemma_f64_var_leaves(nodes, rank, f.lacunarity); lemma_f64_var_leaves(nodes, rank, f.persistence); lemma_f64_var_leaves(nodes, rank, f.attenuation);
        },
        NoiseNode::RotatePoint(t) => {
            lemma_source_leaves(nodes, rank, t.input_node_idx, *e->RotatePoint_0.source); lemma_f64_var_leaves(nodes, rank, t.axes[0]); lemma_f64_var_leaves(nodes, rank, t.axes[1]); lemma_f64_var_leaves(nodes, rank, t.axes[2]); lemma_f64_var_leaves(nodes, rank, t.axes[3]);
        },
        NoiseNode::ScalePoint(t) => {
            lemma_source_leaves(nodes, rank, t.input_node_idx, *e->ScalePoint_0.source); lemma_f64_var_leaves(nodes, rank, t.axes[0]); lemma_f64_var_leaves(nodes, rank, t.axes[1]); lemma_f64_var_leaves(nodes, rank, t.axes[2]); lemma_f64_var_leaves(nodes, rank, t.axes[3]);
        },
        NoiseNode::TranslatePoint(t) => {
            lemma_source_leaves(nodes, rank, t.input_node_idx, *e->TranslatePoint_0.source); lemma_f64_var_leaves(nodes, rank, t.axes[0]); lemma_f64_var_leaves(nodes, rank, t.axes[1]); lemma_f64_var_leaves(nodes, rank, t.axes[2]); lemma_f64_var_leaves(nodes, rank, t.axes[3]);
        },
        NoiseNode::ScaleBias(x) => {
            lemma_source_leaves(nodes, rank, x.input_node_idx, *e->ScaleBias_0.source); lemma_f64_var_leaves(nodes, rank, x.scale); lemma_f64_var_leaves(nodes, rank, x.bias);
        },
        NoiseNode::Select(x) => {
            lemma_source_leaves(nodes, rank, x.input_node_indices[0], *e->Select_0.sources.0); lemma_source_leaves(nodes, rank, x.input_node_indices[1], *e->Select_0.sources.1); lemma_source_leaves(nodes, rank, x.control_node_idx, *e->Select_0.control); lemma_f64_var_leaves(nodes, rank, x.lower_bound); lemma_f64_var_leaves(nodes, rank, x.upper_bound); lemma_f64_var_leaves(nodes, rank, x.falloff);
        },
        NoiseNode::Terrace(t) => {
            lemma_source_leaves(nodes, rank, t.input_node_idx, *e->Terrace_0.source); lemma_values_leaves(nodes, rank, rank(j), t.control_point_node_indices@);
        },
        NoiseNode::Turbulence(t) => {
            lemma_source_leaves(nodes, rank, t.input_node_idx, *e->Turbulence_0.source); lemma_u32_var_leaves(nodes, rank, t.seed); lemma_f64_var_leaves(nodes, rank, t.frequency); lemma_f64_var_leaves(nodes, rank, t.power); lemma_u32_var_leaves(nodes, rank, t.roughness);
        },
        NoiseNode::Worley(w) => {
            lemma_u32_var_leaves(nodes, rank, w.seed); lemma_f64_var_leaves(nodes, rank, w.frequency);
        },
    }
}

/// A multiset that holds no element twice is as large as its set of elements.
proof fn lemma_len_without_repeats(m: Multiset<usize>)
    requires
        forall|v: usize| m.count(v) <= 1,
    ensures
        m.dom().finite(),
        m.len() == m.dom().len(),
    decreases m.len(),
{
    broadcast use vstd::multiset::group_multiset_axioms;
    broadcast use vstd::multiset::group_multiset_properties;

    if m.len() == 0 {
        assert(m.dom() =~= Set::empty());
    } else {
        let v = m.choose();
        let rest = m.remove(v);
        assert(m.count(v) == 1);
        assert(rest.count(v) == 0);
        assert forall|w: usize| rest.count(w) <= 1 by {
            if w != v {
                assert(rest.count(w) == m.count(w));
            }
        }
        lemma_len_without_repeats(rest);
        assert(rest.dom() =~= m.dom().remove(v));
        assert(m.dom().contains(v));
    }
}

/// Compiling node `i` counts every named constant and every typed operation
/// node it reaches, once per way of reaching it: the tree has exactly that
/// many literal leaves that stand for a node.
pub proof fn lemma_compile_leaves_match_reached(nodes: Map<usize, NoiseNode>, i: usize, e: Expr)
    requires
        well_formed(nodes),
        compiles_to(nodes, i, e),
    ensures
        leaves(e) == reach(nodes, graph_rank(nodes), i).len(),
{
    lemma_expr_leaves(nodes, graph_rank(nodes), i, e);
}

/// When compiling node `i` reaches no named constant or typed operation node
/// by two different paths, the tree has one literal leaf for each distinct
/// such node reachable from `i`.
pub proof fn lemma_compile_leaf_count(nodes: Map<usize, NoiseNode>, i: usize, e: Expr)
    requires
        well_formed(nodes),
        compiles_to(nodes, i, e),
        forall|j: usize| reach(nodes, graph_rank(nodes), i).count(j) <= 1,
    ensures
        leaves(e) == reach(nodes, graph_rank(nodes), i).dom().len(),
{
    lemma_expr_leaves(nodes, graph_rank(nodes), i, e);
    lemma_len_without_repeats(reach(nodes, graph_rank(nodes), i));
}

} // verus!
