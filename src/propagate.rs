use vstd::prelude::*;

use egui_snarl::Snarl;

use std::collections::HashSet;

use crate::graph::{feeds, graph_node, graph_nodes, graph_wires, output_consumers, set_graph_node};
use crate::node::NoiseNode;
use crate::value::{ConstantOpNode, F64Bits, NodeValue, OpType};

verus! {

/// The numeric type state of an arithmetic-operation node.
#[derive(Clone, Copy, Debug, PartialEq, Eq, Structural)]
pub enum TypeState {
    Unresolved,
    F64,
    U32,
}

/// The type state of `n`, or `None` when `n` is not an operation node.
pub open spec fn type_state(n: NoiseNode) -> Option<TypeState> {
    match n {
        NoiseNode::Operation(_) => Some(TypeState::Unresolved),
        NoiseNode::F64Operation(_) => Some(TypeState::F64),
        NoiseNode::U32Operation(_) => Some(TypeState::U32),
        _ => None,
    }
}

/// Whether node `x` exists and is an operation node in state `k`.
pub open spec fn has_state(nodes: Map<usize, NoiseNode>, x: usize, k: TypeState) -> bool {
    nodes.contains_key(x) && type_state(nodes[x]) == Some(k)
}

/// The index a slot references, if it holds a reference.
pub open spec fn slot_ref<T>(v: NodeValue<T>) -> Option<usize> {
    match v {
        NodeValue::Node(i) => Some(i),
        NodeValue::Value(_) => None,
    }
}

/// The operator of an operation node and the references held by its two
/// slots; `None` for any other node.
pub open spec fn op_parts(n: NoiseNode) -> Option<(OpType, Option<usize>, Option<usize>)> {
    match n {
        NoiseNode::Operation(op) => Some((op.op_ty, slot_ref(op.inputs[0]), slot_ref(op.inputs[1]))),
        NoiseNode::F64Operation(op) => Some(
            (op.op_ty, slot_ref(op.inputs[0]), slot_ref(op.inputs[1])),
        ),
        NoiseNode::U32Operation(op) => Some(
            (op.op_ty, slot_ref(op.inputs[0]), slot_ref(op.inputs[1])),
        ),
        _ => None,
    }
}

/// Whether operation node `n` references node `y` in one of its slots.
pub open spec fn op_references(n: NoiseNode, y: usize) -> bool {
    match op_parts(n) {
        Some((_, a, b)) => a == Some(y) || b == Some(y),
        None => false,
    }
}

/// One step of the flood fill: `y` consumes the output of `x`, or `x`
/// references `y`.
pub open spec fn linked(
    nodes: Map<usize, NoiseNode>,
    wires: Set<(usize, usize, usize, usize)>,
    x: usize,
    y: usize,
) -> bool {
    feeds(wires, x, y) || (nodes.contains_key(x) && op_references(nodes[x], y))
}

pub open spec fn walk_step(
    nodes: Map<usize, NoiseNode>,
    wires: Set<(usize, usize, usize, usize)>,
    k: TypeState,
    p: Seq<usize>,
    i: int,
) -> bool {
    has_state(nodes, p[i], k) && linked(nodes, wires, p[i], p[i + 1])
}

/// `p` is a walk from `start` that passes only through nodes in state `k`
/// (its last node may have any kind).
pub open spec fn is_walk(
    nodes: Map<usize, NoiseNode>,
    wires: Set<(usize, usize, usize, usize)>,
    k: TypeState,
    start: usize,
    p: Seq<usize>,
) -> bool {
    &&& p.len() > 0
    &&& p[0] == start
    &&& forall|i: int| 0 <= i < p.len() - 1 ==> #[trigger] walk_step(nodes, wires, k, p, i)
}

/// Whether the flood fill from `start` through nodes in state `k` reaches `x`.
pub open spec fn reached(
    nodes: Map<usize, NoiseNode>,
    wires: Set<(usize, usize, usize, usize)>,
    k: TypeState,
    start: usize,
    x: usize,
) -> bool {
    exists|p: Seq<usize>| #[trigger] is_walk(nodes, wires, k, start, p) && p.last() == x
}

/// Whether `x` belongs to the component of `start` among nodes in state `k`.
pub open spec fn in_component(
    nodes: Map<usize, NoiseNode>,
    wires: Set<(usize, usize, usize, usize)>,
    k: TypeState,
    start: usize,
    x: usize,
) -> bool {
    has_state(nodes, x, k) && reached(nodes, wires, k, start, x)
}

/// Whether the flood fill from `start` through nodes in state `k` reaches a
/// node that is not in state `k`: the component is held by something outside it.
pub open spec fn pinned(
    nodes: Map<usize, NoiseNode>,
    wires: Set<(usize, usize, usize, usize)>,
    k: TypeState,
    start: usize,
) -> bool {
    exists|x: usize| #[trigger] reached(nodes, wires, k, start, x) && !has_state(nodes, x, k)
}

pub open spec fn unit_slot(r: Option<usize>) -> NodeValue<()> {
    match r {
        Some(i) => NodeValue::Node(i),
        None => NodeValue::Value(()),
    }
}

pub open spec fn f64_slot(r: Option<usize>) -> NodeValue<F64Bits> {
    match r {
        Some(i) => NodeValue::Node(i),
        None => NodeValue::Value(F64Bits(0)),
    }
}

pub open spec fn u32_slot(r: Option<usize>) -> NodeValue<u32> {
    match r {
        Some(i) => NodeValue::Node(i),
        None => NodeValue::Value(0u32),
    }
}

/// Operation node `n` rewritten to state `to`: same operator, same
/// references, and each literal reset to the default of the new type.
/// Any other node is left as it is.
pub open spec fn retype(n: NoiseNode, to: TypeState) -> NoiseNode {
    match op_parts(n) {
        Some((op_ty, a, b)) => match to {
            TypeState::Unresolved => NoiseNode::Operation(
                ConstantOpNode { inputs: [unit_slot(a), unit_slot(b)], op_ty },
            ),
            TypeState::F64 => NoiseNode::F64Operation(
                ConstantOpNode { inputs: [f64_slot(a), f64_slot(b)], op_ty },
            ),
            TypeState::U32 => NoiseNode::U32Operation(
                ConstantOpNode { inputs: [u32_slot(a), u32_slot(b)], op_ty },
            ),
        },
        None => n,
    }
}

/// The nodes after every member of the state-`from` component of `start` is
/// rewritten to state `to`.
pub open spec fn retyped_nodes(
    nodes: Map<usize, NoiseNode>,
    wires: Set<(usize, usize, usize, usize)>,
    start: usize,
    from: TypeState,
    to: TypeState,
) -> Map<usize, NoiseNode> {
    Map::new(
        |x: usize| nodes.contains_key(x),
        |x: usize|
            if in_component(nodes, wires, from, start, x) {
                retype(nodes[x], to)
            } else {
                nodes[x]
            },
    )
}


/// `z` is waiting in `pending`, is a member, or lies outside state `k` while
/// the fill has recorded that it reached such a node.
spec fn handled(
    nodes: Map<usize, NoiseNode>,
    k: TypeState,
    pending: Seq<usize>,
    members: Seq<usize>,
    is_pinned: bool,
    z: usize,
) -> bool {
    pending.contains(z) || members.contains(z) || (!has_state(nodes, z, k) && is_pinned)
}

pub(crate) proof fn lemma_extend_walk(
    nodes: Map<usize, NoiseNode>,
    wires: Set<(usize, usize, usize, usize)>,
    k: TypeState,
    start: usize,
    x: usize,
    z: usize,
)
    requires
        reached(nodes, wires, k, start, x),
        has_state(nodes, x, k),
        linked(nodes, wires, x, z),
    ensures
        reached(nodes, wires, k, start, z),
{
    let p = choose|p: Seq<usize>| #[trigger] is_walk(nodes, wires, k, start, p) && p.last() == x;
    let q = p.push(z);
    assert forall|i: int| 0 <= i < q.len() - 1 implies #[trigger] walk_step(nodes, wires, k, q, i) by {
        if i < p.len() - 1 {
            assert(walk_step(nodes, wires, k, p, i));
        }
    }
    assert(is_walk(nodes, wires, k, start, q));
}

/// Every node of a walk from `start` is a member, or lies outside state `k`
/// while `is_pinned` is set, provided the members are closed under `linked`.
proof fn lemma_walk_covered(
    nodes: Map<usize, NoiseNode>,
    wires: Set<(usize, usize, usize, usize)>,
    k: TypeState,
    start: usize,
    members: Seq<usize>,
    is_pinned: bool,
    p: Seq<usize>,
    n: int,
)
    requires
        is_walk(nodes, wires, k, start, p),
        0 <= n < p.len(),
        members.contains(start) || (!has_state(nodes, start, k) && is_pinned),
        forall|y: usize, z: usize|
            members.contains(y) && #[trigger] linked(nodes, wires, y, z) ==> members.contains(z) || (
            !has_state(nodes, z, k) && is_pinned),
    ensures
        members.contains(p[n]) || (!has_state(nodes, p[n], k) && is_pinned),
    decreases n,
{
    if n > 0 {
        lemma_walk_covered(nodes, wires, k, start, members, is_pinned, p, n - 1);
        assert(walk_step(nodes, wires, k, p, n - 1));
        assert(linked(nodes, wires, p[n - 1], p[n]));
    }
}

proof fn lemma_push_contains(s: Seq<usize>, x: usize, y: usize)
    ensures
        s.push(x).contains(y) <==> s.contains(y) || y == x,
{
    if s.push(x).contains(y) {
        let j = choose|j: int| 0 <= j < s.len() + 1 && s.push(x)[j] == y;
        if j < s.len() {
            assert(s[j] == y);
        }
    }
    if s.contains(y) {
        let j = choose|j: int| 0 <= j < s.len() && s[j] == y;
        assert(s.push(x)[j] == y);
    }
    if y == x {
        assert(s.push(x)[s.len() as int] == y);
    }
}

fn append_all(dst: &mut Vec<usize>, src: &Vec<usize>)
    ensures
        final(dst)@ == old(dst)@ + src@,
{
    let mut i: usize = 0;
    while i < src.len()
        invariant
            i <= src.len(),
            dst@ == old(dst)@ + src@.subrange(0, i as int),
        decreases src.len() - i,
    {
        dst.push(src[i]);
        i += 1;
        assert(src@.subrange(0, i as int) == src@.subrange(0, i - 1) + seq![src@[i - 1]]);
    }
    assert(src@.subrange(0, src.len() as int) == src@);
}

fn state_of(n: &NoiseNode) -> (r: Option<TypeState>)
    ensures
        r == type_state(*n),
{
    match n {
        NoiseNode::Operation(_) => Some(TypeState::Unresolved),
        NoiseNode::F64Operation(_) => Some(TypeState::F64),
        NoiseNode::U32Operation(_) => Some(TypeState::U32),
        _ => None,
    }
}

fn slot_index<T>(v: &NodeValue<T>) -> (r: Option<usize>)
    ensures
        r == slot_ref(*v),
{
    v.as_node_index()
}

fn parts_of(n: &NoiseNode) -> (r: Option<(OpType, Option<usize>, Option<usize>)>)
    ensures
        r == op_parts(*n),
{
    match n {
        NoiseNode::Operation(op) => Some(
            (op.op_ty, slot_index(&op.inputs[0]), slot_index(&op.inputs[1])),
        ),
        NoiseNode::F64Operation(op) => Some(
            (op.op_ty, slot_index(&op.inputs[0]), slot_index(&op.inputs[1])),
        ),
        NoiseNode::U32Operation(op) => Some(
            (op.op_ty, slot_index(&op.inputs[0]), slot_index(&op.inputs[1])),
        ),
        _ => None,
    }
}

fn unit_slot_of(r: Option<usize>) -> (v: NodeValue<()>)
    ensures
        v == unit_slot(r),
{
    match r {
        Some(i) => NodeValue::Node(i),
        None => NodeValue::Value(()),
    }
}

fn f64_slot_of(r: Option<usize>) -> (v: NodeValue<F64Bits>)
    ensures
        v == f64_slot(r),
{
    match r {
        Some(i) => NodeValue::Node(i),
        None => NodeValue::Value(F64Bits(0)),
    }
}

fn u32_slot_of(r: Option<usize>) -> (v: NodeValue<u32>)
    ensures
        v == u32_slot(r),
{
    match r {
        Some(i) => NodeValue::Node(i),
        None => NodeValue::Value(0),
    }
}

/// The nodes that operation node `n` references in its slots.
fn referenced_nodes(n: &NoiseNode) -> (r: Vec<usize>)
    ensures
        forall|z: usize| r@.contains(z) <==> op_references(*n, z),
{
    let mut refs: Vec<usize> = Vec::new();
    match parts_of(n) {
        Some((_, a, b)) => {
            if let Some(y) = a {
                refs.push(y);
            }
            let ghost first = refs@;
            if let Some(y) = b {
                refs.push(y);
            }
            assert forall|z: usize| refs@.contains(z) <==> op_references(*n, z) by {
                if a == Some(z) {
                    assert(first[0] == z);
                    assert(refs@[0] == z);
                }
                if b == Some(z) {
                    assert(refs@[refs@.len() - 1] == z);
                }
            }
        },
        None => {},
    }
    refs
}

/// Operation node `n` rewritten to state `to`.
fn retyped(n: &NoiseNode, to: TypeState) -> (r: NoiseNode)
    requires
        type_state(*n) is Some,
    ensures
        r == retype(*n, to),
{
    let (op_ty, a, b) = parts_of(n).unwrap();
    match to {
        TypeState::Unresolved => NoiseNode::Operation(
            ConstantOpNode { inputs: [unit_slot_of(a), unit_slot_of(b)], op_ty },
        ),
        TypeState::F64 => NoiseNode::F64Operation(
            ConstantOpNode { inputs: [f64_slot_of(a), f64_slot_of(b)], op_ty },
        ),
        TypeState::U32 => NoiseNode::U32Operation(
            ConstantOpNode { inputs: [u32_slot_of(a), u32_slot_of(b)], op_ty },
        ),
    }
}

/// The flood fill: from `start`, in both directions of reference, through
/// the nodes in state `k`. Returns the component's members, each once, and
/// whether the fill reached a node outside state `k`.
fn collect_component(g: &Snarl<NoiseNode>, start: usize, k: TypeState) -> (r: (Vec<usize>, bool))
    ensures
        r.0@.no_duplicates(),
        forall|x: usize|
            r.0@.contains(x) <==> in_component(graph_nodes(*g), graph_wires(*g), k, start, x),
        r.1 == pinned(graph_nodes(*g), graph_wires(*g), k, start),
{
    broadcast use vstd::std_specs::hash::group_hash_axioms;
    broadcast use vstd::set_lib::full_set_properties;

    let ghost nodes = graph_nodes(*g);
    let ghost wires = graph_wires(*g);
    let mut visited: HashSet<usize> = HashSet::new();
    let mut members: Vec<usize> = Vec::new();
    let mut pending: Vec<usize> = Vec::new();
    let mut is_pinned = false;
    let ghost mut remaining = Set::<usize>::full();
    assert(remaining.finite());
    pending.push(start);
    assert(is_walk(nodes, wires, k, start, seq![start]));
    assert(reached(nodes, wires, k, start, pending@[0]));
    while pending.len() > 0
        invariant
            remaining.finite(),
            forall|y: usize| remaining.contains(y) <==> !visited@.contains(y),
            forall|y: usize| members@.contains(y) ==> visited@.contains(y),
            forall|y: usize|
                visited@.contains(y) ==> members@.contains(y) || (!has_state(nodes, y, k)
                    && is_pinned),
            members@.no_duplicates(),
            forall|y: usize| members@.contains(y) ==> #[trigger] in_component(nodes, wires, k, start, y),
            forall|j: int| 0 <= j < pending.len() ==> #[trigger] reached(nodes, wires, k, start, pending@[j]),
            is_pinned ==> pinned(nodes, wires, k, start),
            handled(nodes, k, pending@, members@, is_pinned, start),
            forall|y: usize, z: usize|
                members@.contains(y) && #[trigger] linked(nodes, wires, y, z) ==> handled(
                    nodes,
                    k,
                    pending@,
                    members@,
                    is_pinned,
                    z,
                ),
            nodes == graph_nodes(*g),
            wires == graph_wires(*g),
        decreases remaining.len(), pending.len(),
    {
        let ghost old_pending = pending@;
        let ghost old_members = members@;
        let ghost old_pinned = is_pinned;
        let x = pending.pop().unwrap();
        let ghost popped = pending@;
        assert(old_pending == pending@.push(x));
        assert(reached(nodes, wires, k, start, x)) by {
            assert(x == old_pending[old_pending.len() - 1]);
        }
        assert forall|j: int| 0 <= j < pending.len() implies #[trigger] reached(nodes, wires, k, start, pending@[j]) by {
            assert(pending@[j] == old_pending[j]);
        }
        if visited.insert(x) {
            proof {
                remaining = remaining.remove(x);
            }
            let node = graph_node(g, x);
            let is_member = match node {
                Some(n) => match state_of(n) {
                    Some(s) => s == k,
                    None => false,
                },
                None => false,
            };
            if is_member {
                let n = node.unwrap();
                members.push(x);
                proof {
                    assert(in_component(nodes, wires, k, start, x));
                }
                let consumers = output_consumers(g, x);
                append_all(&mut pending, &consumers);
                let refs = referenced_nodes(n);
                append_all(&mut pending, &refs);
                assert forall|z: usize| linked(nodes, wires, x, z) implies pending@.contains(z) by {
                    if feeds(wires, x, z) {
                        assert(consumers@.contains(z));
                        let j = choose|j: int| 0 <= j < consumers@.len() && consumers@[j] == z;
                        assert(pending@[popped.len() + j] == z);
                    } else {
                        assert(refs@.contains(z));
                        let j = choose|j: int| 0 <= j < refs@.len() && refs@[j] == z;
                        assert(pending@[popped.len() + consumers@.len() + j] == z);
                    }
                }
                assert forall|j: int| 0 <= j < pending.len() implies #[trigger] reached(nodes, wires, k, start, pending@[j]) by {
                    if j < popped.len() {
                        assert(pending@[j] == popped[j]);
                    } else if j < popped.len() + consumers@.len() {
                        let z = consumers@[j - popped.len()];
                        assert(pending@[j] == z);
                        lemma_extend_walk(nodes, wires, k, start, x, z);
                    } else {
                        let z = refs@[j - popped.len() - consumers@.len()];
                        assert(pending@[j] == z);
                        assert(op_references(nodes[x], z));
                        lemma_extend_walk(nodes, wires, k, start, x, z);
                    }
                }
                assert forall|z: usize| popped.contains(z) implies pending@.contains(z) by {
                    let j = choose|j: int| 0 <= j < popped.len() && popped[j] == z;
                    assert(pending@[j] == z);
                }
                assert forall|y: usize| #[trigger] members@.contains(y) <==> old_members.contains(y) || y == x by {
                    lemma_push_contains(old_members, x, y);
                }
                assert forall|y: usize| members@.contains(y) implies #[trigger] in_component(nodes, wires, k, start, y) by {
                    if y != x {
                        assert(old_members.contains(y));
                    }
                }
                assert(members@.no_duplicates());
            } else {
                is_pinned = true;
                assert(!has_state(nodes, x, k));
            }
        }
        proof {
            assert(members@.contains(x) || (!has_state(nodes, x, k) && is_pinned));
            assert forall|z: usize| handled(nodes, k, old_pending, old_members, old_pinned, z) implies handled(
                nodes,
                k,
                pending@,
                members@,
                is_pinned,
                z,
            ) by {
                lemma_push_contains(popped, x, z);
                if old_members.contains(z) {
                    let j = choose|j: int| 0 <= j < old_members.len() && old_members[j] == z;
                    assert(members@[j] == z);
                }
                if z != x && old_pending.contains(z) {
                    assert(popped.contains(z));
                }
            }
            assert forall|y: usize, z: usize|
                members@.contains(y) && #[trigger] linked(nodes, wires, y, z) implies handled(
                nodes,
                k,
                pending@,
                members@,
                is_pinned,
                z,
            ) by {
                if old_members.contains(y) {
                    assert(handled(nodes, k, old_pending, old_members, old_pinned, z));
                }
            }
        }
    }
    proof {
        assert forall|x: usize| in_component(nodes, wires, k, start, x) implies members@.contains(x) by {
            let p = choose|p: Seq<usize>| #[trigger] is_walk(nodes, wires, k, start, p) && p.last() == x;
            lemma_walk_covered(nodes, wires, k, start, members@, is_pinned, p, p.len() - 1);
        }
        if pinned(nodes, wires, k, start) {
            let x = choose|x: usize| #[trigger] reached(nodes, wires, k, start, x) && !has_state(nodes, x, k);
            let p = choose|p: Seq<usize>| #[trigger] is_walk(nodes, wires, k, start, p) && p.last() == x;
            lemma_walk_covered(nodes, wires, k, start, members@, is_pinned, p, p.len() - 1);
            if members@.contains(x) {
                assert(in_component(nodes, wires, k, start, x));
            }
        }
    }
    (members, is_pinned)
}

/// Rewrites each listed node to state `to`.
fn commit_retype(g: &mut Snarl<NoiseNode>, members: &Vec<usize>, to: TypeState)
    requires
        members@.no_duplicates(),
        forall|x: usize|
            members@.contains(x) ==> graph_nodes(*old(g)).contains_key(x) && (type_state(
                graph_nodes(*old(g))[x],
            ) is Some),
    ensures
        graph_nodes(*final(g)) == Map::new(
            |x: usize| graph_nodes(*old(g)).contains_key(x),
            |x: usize|
                if members@.contains(x) {
                    retype(graph_nodes(*old(g))[x], to)
                } else {
                    graph_nodes(*old(g))[x]
                },
        ),
        graph_wires(*final(g)) == graph_wires(*old(g)),
{
    let ghost nodes = graph_nodes(*g);
    let mut i: usize = 0;
    while i < members.len()
        invariant
            i <= members.len(),
            members@.no_duplicates(),
            forall|x: usize|
                members@.contains(x) ==> nodes.contains_key(x) && (type_state(nodes[x]) is Some),
            graph_nodes(*g).dom() == nodes.dom(),
            forall|x: usize|
                #[trigger] nodes.contains_key(x) ==> graph_nodes(*g)[x] == if members@.subrange(
                    0,
                    i as int,
                ).contains(x) {
                    retype(nodes[x], to)
                } else {
                    nodes[x]
                },
            graph_wires(*g) == graph_wires(*old(g)),
            nodes == graph_nodes(*old(g)),
        decreases members.len() - i,
    {
        let x = members[i];
        assert(members@.contains(x));
        assert(!members@.subrange(0, i as int).contains(x)) by {
            if members@.subrange(0, i as int).contains(x) {
                let j = choose|j: int| 0 <= j < i && members@.subrange(0, i as int)[j] == x;
                assert(members@[j] == members@[i as int]);
            }
        }
        let n = graph_node(g, x).unwrap();
        let new_node = retyped(n, to);
        set_graph_node(g, x, new_node);
        assert forall|y: usize| #[trigger]
            members@.subrange(0, i + 1).contains(y) <==> members@.subrange(0, i as int).contains(y)
                || y == x by {
            assert(members@.subrange(0, i + 1) == members@.subrange(0, i as int).push(x));
            lemma_push_contains(members@.subrange(0, i as int), x, y);
        }
        i += 1;
    }
    assert(members@.subrange(0, members.len() as int) == members@);
    assert(graph_nodes(*g) =~= Map::new(
        |x: usize| nodes.contains_key(x),
        |x: usize|
            if members@.contains(x) {
                retype(nodes[x], to)
            } else {
                nodes[x]
            },
    ));
}

/// Rewrites the state-`from` component of `start` to state `to`. With
/// `unless_pinned`, nothing is rewritten when the component is held by a
/// node outside it.
fn retype_component(
    g: &mut Snarl<NoiseNode>,
    start: usize,
    from: TypeState,
    to: TypeState,
    unless_pinned: bool,
)
    ensures
        graph_nodes(*final(g)) == if unless_pinned && pinned(
            graph_nodes(*old(g)),
            graph_wires(*old(g)),
            from,
            start,
        ) {
            graph_nodes(*old(g))
        } else {
            retyped_nodes(graph_nodes(*old(g)), graph_wires(*old(g)), start, from, to)
        },
        graph_wires(*final(g)) == graph_wires(*old(g)),
{
    let ghost nodes = graph_nodes(*g);
    let ghost wires = graph_wires(*g);
    let (members, is_pinned) = collect_component(g, start, from);
    if unless_pinned && is_pinned {
        return;
    }
    commit_retype(g, &members, to);
    assert(graph_nodes(*g) =~= retyped_nodes(nodes, wires, start, from, to));
}

impl NoiseNode {
    /// Promote-to-f64: rewrites every unresolved operation node in the
    /// component of `node_idx` to an f64 operation, with the same operator and
    /// references and each literal reset to 0.0. The flood fill follows
    /// consumer wires and slot references in both directions; the caller
    /// triggers it before wiring the typed consumer, so that it meets only
    /// unresolved operation nodes.
    pub fn propagate_f64_from_tuple_op(node_idx: usize, snarl: &mut Snarl<Self>)
        requires
            !pinned(graph_nodes(*old(snarl)), graph_wires(*old(snarl)), TypeState::Unresolved, node_idx),
        ensures
            graph_nodes(*final(snarl)) == retyped_nodes(
                graph_nodes(*old(snarl)),
                graph_wires(*old(snarl)),
                node_idx,
                TypeState::Unresolved,
                TypeState::F64,
            ),
            graph_wires(*final(snarl)) == graph_wires(*old(snarl)),
    {
        retype_component(snarl, node_idx, TypeState::Unresolved, TypeState::F64, false);
    }

    /// Promote-to-u32: rewrites every unresolved operation node in the
    /// component of `node_idx` to a u32 operation, with the same operator and
    /// references and each literal reset to 0. The flood fill must meet only
    /// unresolved operation nodes.
    pub fn propagate_u32_from_tuple_op(node_idx: usize, snarl: &mut Snarl<Self>)
        requires
            !pinned(graph_nodes(*old(snarl)), graph_wires(*old(snarl)), TypeState::Unresolved, node_idx),
        ensures
            graph_nodes(*final(snarl)) == retyped_nodes(
                graph_nodes(*old(snarl)),
                graph_wires(*old(snarl)),
                node_idx,
                TypeState::Unresolved,
                TypeState::U32,
            ),
            graph_wires(*final(snarl)) == graph_wires(*old(snarl)),
    {
        retype_component(snarl, node_idx, TypeState::Unresolved, TypeState::U32, false);
    }

    /// Demote-from-f64: when the f64 component of `node_idx` is held by no
    /// node outside it, rewrites all of it back to unresolved; otherwise
    /// changes nothing.
    pub fn propagate_tuple_from_f64_op(node_idx: usize, snarl: &mut Snarl<Self>)
        ensures
            graph_nodes(*final(snarl)) == if pinned(
                graph_nodes(*old(snarl)),
                graph_wires(*old(snarl)),
                TypeState::F64,
                node_idx,
            ) {
                graph_nodes(*old(snarl))
            } else {
                retyped_nodes(
                    graph_nodes(*old(snarl)),
                    graph_wires(*old(snarl)),
                    node_idx,
                    TypeState::F64,
                    TypeState::Unresolved,
                )
            },
            graph_wires(*final(snarl)) == graph_wires(*old(snarl)),
    {
        retype_component(snarl, node_idx, TypeState::F64, TypeState::Unresolved, true);
    }

    /// Demote-from-u32: when the u32 component of `node_idx` is held by no
    /// node outside it, rewrites all of it back to unresolved; otherwise
    /// changes nothing.
    pub fn propagate_tuple_from_u32_op(node_idx: usize, snarl: &mut Snarl<Self>)
        ensures
            graph_nodes(*final(snarl)) == if pinned(
                graph_nodes(*old(snarl)),
                graph_wires(*old(snarl)),
                TypeState::U32,
                node_idx,
            ) {
                graph_nodes(*old(snarl))
            } else {
                retyped_nodes(
                    graph_nodes(*old(snarl)),
                    graph_wires(*old(snarl)),
                    node_idx,
                    TypeState::U32,
                    TypeState::Unresolved,
                )
            },
            graph_wires(*final(snarl)) == graph_wires(*old(snarl)),
    {
        retype_component(snarl, node_idx, TypeState::U32, TypeState::Unresolved, true);
    }
}

} // verus!
