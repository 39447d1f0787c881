use egui::Pos2;
use egui_snarl::Snarl;
use noise_graph::expr::{Expr, Variable};
use noise_graph::node::{BlendNode, CombinerNode, ControlPointNode, CurveNode, NoiseNode, TerraceNode, UnaryNode};
use noise_graph::value::{ConstantNode, ConstantOpNode, F64Bits, NodeValue, OpType, ONE_BITS};

fn zero() -> Box<Expr> {
    Box::new(Expr::Constant(Variable::Anonymous(F64Bits(0))))
}

fn named(name: &str, bits: u64) -> NoiseNode {
    NoiseNode::F64(ConstantNode { name: name.to_owned(), value: F64Bits(bits) })
}

#[test]
fn disconnected_blend_compiles_to_zero_constants() {
    let mut snarl = Snarl::new();
    let blend = snarl.insert_node(Pos2::ZERO, NoiseNode::Blend(BlendNode::default()));
    let tree = snarl.get_node(blend).unwrap().expr(&snarl);
    match tree {
        Expr::Blend(b) => {
            assert_eq!(b.sources, (zero(), zero()));
            assert_eq!(b.control, zero());
        }
        _ => panic!("not a blend"),
    }
}

#[test]
fn compile_twice_gives_identical_trees() {
    let mut snarl = Snarl::new();
    let c = snarl.insert_node(Pos2::ZERO, named("height", 0x4000_0000_0000_0000));
    let abs = snarl.insert_node(Pos2::ZERO, NoiseNode::Abs(UnaryNode { input_node_idx: Some(c.0), ..Default::default() }));
    let node = snarl.get_node(abs).unwrap();
    let first = node.expr(&snarl);
    let second = node.expr(&snarl);
    assert_eq!(first, second);
    assert_eq!(
        first,
        Expr::Abs(Box::new(Expr::Constant(Variable::Named("height".to_owned(), F64Bits(0x4000_0000_0000_0000)))))
    );
}

#[test]
fn disconnected_combiner_operands_are_zero() {
    let mut snarl = Snarl::new();
    let add = snarl.insert_node(Pos2::ZERO, NoiseNode::Add(CombinerNode::default()));
    let max = snarl.insert_node(Pos2::ZERO, NoiseNode::Max(CombinerNode::default()));
    let min = snarl.insert_node(Pos2::ZERO, NoiseNode::Min(CombinerNode::default()));
    let constant = |bits: u64| Box::new(Expr::Constant(Variable::Anonymous(F64Bits(bits))));
    assert_eq!(snarl.get_node(add).unwrap().expr(&snarl), Expr::Add(constant(0), constant(0)));
    assert_eq!(snarl.get_node(max).unwrap().expr(&snarl), Expr::Max(constant(0), constant(0)));
    assert_eq!(
        snarl.get_node(min).unwrap().expr(&snarl),
        Expr::Min(constant(0), constant(0))
    );
}

#[test]
fn operation_constant_compiles_to_subexpression() {
    let mut snarl = Snarl::new();
    let c = snarl.insert_node(Pos2::ZERO, named("k", ONE_BITS));
    let op = snarl.insert_node(
        Pos2::ZERO,
        NoiseNode::F64Operation(ConstantOpNode { inputs: [NodeValue::Node(c.0), NodeValue::Value(F64Bits(7))], op_ty: OpType::Multiply }),
    );
    let tree = snarl.get_node(op).unwrap().expr(&snarl);
    assert_eq!(
        tree,
        Expr::Constant(Variable::Operation(
            Box::new(Variable::Named("k".to_owned(), F64Bits(ONE_BITS))),
            Box::new(Variable::Anonymous(F64Bits(7))),
            OpType::Multiply
        ))
    );
}

#[test]
fn curve_skips_empty_control_point_slots() {
    let mut snarl = Snarl::new();
    let point = snarl.insert_node(
        Pos2::ZERO,
        NoiseNode::ControlPoint(ControlPointNode { input: NodeValue::Value(F64Bits(1)), output: NodeValue::Value(F64Bits(2)) }),
    );
    let curve = snarl.insert_node(
        Pos2::ZERO,
        NoiseNode::Curve(CurveNode { control_point_node_indices: vec![None, Some(point.0), None], ..Default::default() }),
    );
    match snarl.get_node(curve).unwrap().expr(&snarl) {
        Expr::Curve(c) => {
            assert_eq!(c.source, zero());
            assert_eq!(c.control_points.len(), 1);
            assert_eq!(c.control_points[0].input_value, Variable::Anonymous(F64Bits(1)));
            assert_eq!(c.control_points[0].output_value, Variable::Anonymous(F64Bits(2)));
        }
        _ => panic!("not a curve"),
    }
}

#[test]
fn terrace_resolves_named_control_points() {
    let mut snarl = Snarl::new();
    let c = snarl.insert_node(Pos2::ZERO, named("step", 0x3FE0_0000_0000_0000));
    let terrace = snarl.insert_node(
        Pos2::ZERO,
        NoiseNode::Terrace(TerraceNode { inverted: true, control_point_node_indices: vec![Some(c.0), None], ..Default::default() }),
    );
    match snarl.get_node(terrace).unwrap().expr(&snarl) {
        Expr::Terrace(t) => {
            assert!(t.inverted);
            assert_eq!(t.control_points, vec![Variable::Named("step".to_owned(), F64Bits(0x3FE0_0000_0000_0000))]);
        }
        _ => panic!("not a terrace"),
    }
}

#[test]
fn nested_sources_compile_recursively() {
    let mut snarl = Snarl::new();
    let perlin = snarl.insert_node(Pos2::ZERO, NoiseNode::Perlin(Default::default()));
    let neg = snarl.insert_node(Pos2::ZERO, NoiseNode::Negate(UnaryNode { input_node_idx: Some(perlin.0), ..Default::default() }));
    let blend = snarl.insert_node(
        Pos2::ZERO,
        NoiseNode::Blend(BlendNode { input_node_indices: [Some(neg.0), None], control_node_idx: Some(perlin.0), ..Default::default() }),
    );
    let perlin_tree = || Box::new(Expr::Perlin(Variable::Anonymous(0)));
    match snarl.get_node(blend).unwrap().expr(&snarl) {
        Expr::Blend(b) => {
            assert_eq!(b.sources, (Box::new(Expr::Negate(perlin_tree())), zero()));
            assert_eq!(b.control, perlin_tree());
        }
        _ => panic!("not a blend"),
    }
}

#[test]
fn one_literal_leaf_per_distinct_constant_node() {
    let mut snarl = Snarl::new();
    let c1 = snarl.insert_node(Pos2::ZERO, named("a", ONE_BITS));
    let c2 = snarl.insert_node(Pos2::ZERO, named("b", 0x4000_0000_0000_0000));
    let op = snarl.insert_node(
        Pos2::ZERO,
        NoiseNode::F64Operation(ConstantOpNode { inputs: [NodeValue::Node(c2.0), NodeValue::Value(F64Bits(3))], op_ty: OpType::Add }),
    );
    let blend = snarl.insert_node(
        Pos2::ZERO,
        NoiseNode::Blend(BlendNode { input_node_indices: [Some(c1.0), Some(op.0)], control_node_idx: None, ..Default::default() }),
    );
    // Leaves standing for a node: "a", the operation, and "b" inside it.
    match snarl.get_node(blend).unwrap().expr(&snarl) {
        Expr::Blend(b) => {
            assert_eq!(*b.sources.0, Expr::Constant(Variable::Named("a".to_owned(), F64Bits(ONE_BITS))));
            assert_eq!(
                *b.sources.1,
                Expr::Constant(Variable::Operation(
                    Box::new(Variable::Named("b".to_owned(), F64Bits(0x4000_0000_0000_0000))),
                    Box::new(Variable::Anonymous(F64Bits(3))),
                    OpType::Add
                ))
            );
            assert_eq!(b.control, zero());
        }
        _ => panic!("not a blend"),
    }
}

#[test]
fn a_shared_constant_appears_once_per_path() {
    let mut snarl = Snarl::new();
    let c = snarl.insert_node(Pos2::ZERO, named("shared", ONE_BITS));
    let add = snarl.insert_node(
        Pos2::ZERO,
        NoiseNode::Add(CombinerNode { input_node_indices: [Some(c.0), Some(c.0)], ..Default::default() }),
    );
    let leaf = || Box::new(Expr::Constant(Variable::Named("shared".to_owned(), F64Bits(ONE_BITS))));
    assert_eq!(snarl.get_node(add).unwrap().expr(&snarl), Expr::Add(leaf(), leaf()));
}
