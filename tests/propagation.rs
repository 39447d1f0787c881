use egui::Pos2;
use egui_snarl::{InPinId, NodeId, OutPinId, Snarl};
use noise_graph::node::{FractalNode, NoiseNode};
use noise_graph::value::{ConstantOpNode, F64Bits, NodeValue, OpType};

fn generic_op(op_ty: OpType, lhs: NodeValue<()>, rhs: NodeValue<()>) -> NoiseNode {
    NoiseNode::Operation(ConstantOpNode { inputs: [lhs, rhs], op_ty })
}

fn wire(snarl: &mut Snarl<NoiseNode>, from: NodeId, to: NodeId, input: usize) {
    snarl.connect(OutPinId { node: from, output: 0 }, InPinId { node: to, input });
}

fn unwire(snarl: &mut Snarl<NoiseNode>, from: NodeId, to: NodeId, input: usize) {
    snarl.disconnect(OutPinId { node: from, output: 0 }, InPinId { node: to, input });
}

fn op_at(snarl: &Snarl<NoiseNode>, id: NodeId) -> (&'static str, OpType, [Option<usize>; 2]) {
    match snarl.get_node(id).unwrap() {
        NoiseNode::Operation(op) => ("unresolved", op.op_ty, [op.inputs[0].as_node_index(), op.inputs[1].as_node_index()]),
        NoiseNode::F64Operation(op) => ("f64", op.op_ty, [op.inputs[0].as_node_index(), op.inputs[1].as_node_index()]),
        NoiseNode::U32Operation(op) => ("u32", op.op_ty, [op.inputs[0].as_node_index(), op.inputs[1].as_node_index()]),
        _ => ("other", OpType::Add, [None, None]),
    }
}

/// Generic A feeds generic B, which feeds the frequency slot of a fractal.
fn op_chain_into_fractal() -> (Snarl<NoiseNode>, NodeId, NodeId, NodeId) {
    let mut snarl = Snarl::new();
    let a = snarl.insert_node(Pos2::ZERO, generic_op(OpType::Multiply, NodeValue::Value(()), NodeValue::Value(())));
    let b = snarl.insert_node(Pos2::ZERO, generic_op(OpType::Add, NodeValue::Node(a.0), NodeValue::Value(())));
    let mut fractal = FractalNode::default();
    fractal.frequency = NodeValue::Node(b.0);
    let f = snarl.insert_node(Pos2::ZERO, NoiseNode::Fbm(fractal));
    wire(&mut snarl, a, b, 0);
    (snarl, a, b, f)
}

#[test]
fn promotion_types_the_whole_component() {
    let (mut snarl, a, b, f) = op_chain_into_fractal();
    NoiseNode::propagate_f64_from_tuple_op(b.0, &mut snarl);
    wire(&mut snarl, b, f, 3);
    assert_eq!(op_at(&snarl, a), ("f64", OpType::Multiply, [None, None]));
    assert_eq!(op_at(&snarl, b), ("f64", OpType::Add, [Some(a.0), None]));
    match snarl.get_node(b).unwrap() {
        NoiseNode::F64Operation(op) => assert_eq!(op.inputs[1], NodeValue::Value(F64Bits(0))),
        _ => panic!("b is not an f64 operation"),
    }
    assert!(matches!(snarl.get_node(f).unwrap(), NoiseNode::Fbm(_)));
}

#[test]
fn connect_then_disconnect_frequency_slot() {
    let (mut snarl, a, b, f) = op_chain_into_fractal();
    NoiseNode::propagate_f64_from_tuple_op(b.0, &mut snarl);
    wire(&mut snarl, b, f, 3);
    assert_eq!(op_at(&snarl, a).0, "f64");
    assert_eq!(op_at(&snarl, b).0, "f64");
    unwire(&mut snarl, b, f, 3);
    NoiseNode::propagate_tuple_from_f64_op(b.0, &mut snarl);
    assert_eq!(op_at(&snarl, a), ("unresolved", OpType::Multiply, [None, None]));
    assert_eq!(op_at(&snarl, b), ("unresolved", OpType::Add, [Some(a.0), None]));
}

#[test]
fn promotion_then_demotion_restores_slots() {
    let (mut snarl, a, b, f) = op_chain_into_fractal();
    NoiseNode::propagate_u32_from_tuple_op(a.0, &mut snarl);
    wire(&mut snarl, b, f, 3);
    assert_eq!(op_at(&snarl, a).0, "u32");
    assert_eq!(op_at(&snarl, b).0, "u32");
    unwire(&mut snarl, b, f, 3);
    NoiseNode::propagate_tuple_from_u32_op(a.0, &mut snarl);
    for id in [a, b] {
        match snarl.get_node(id).unwrap() {
            NoiseNode::Operation(op) => {
                if id == a {
                    assert_eq!(op.inputs, [NodeValue::Value(()), NodeValue::Value(())]);
                    assert_eq!(op.op_ty, OpType::Multiply);
                } else {
                    assert_eq!(op.inputs, [NodeValue::Node(a.0), NodeValue::Value(())]);
                    assert_eq!(op.op_ty, OpType::Add);
                }
            }
            _ => panic!("node was not restored to an unresolved operation"),
        }
    }
}

#[test]
fn demotion_aborts_when_still_pinned() {
    let (mut snarl, a, b, f) = op_chain_into_fractal();
    NoiseNode::propagate_f64_from_tuple_op(b.0, &mut snarl);
    wire(&mut snarl, b, f, 3);
    // The wire to the fractal is still there: the component stays typed.
    NoiseNode::propagate_tuple_from_f64_op(a.0, &mut snarl);
    assert_eq!(op_at(&snarl, a).0, "f64");
    assert_eq!(op_at(&snarl, b).0, "f64");
}

#[test]
fn demotion_of_the_wrong_type_changes_nothing() {
    let (mut snarl, a, b, f) = op_chain_into_fractal();
    NoiseNode::propagate_f64_from_tuple_op(b.0, &mut snarl);
    wire(&mut snarl, b, f, 3);
    unwire(&mut snarl, b, f, 3);
    NoiseNode::propagate_tuple_from_u32_op(b.0, &mut snarl);
    assert_eq!(op_at(&snarl, a).0, "f64");
    assert_eq!(op_at(&snarl, b).0, "f64");
}

#[test]
fn promotion_follows_consumer_wires() {
    let mut snarl = Snarl::new();
    let a = snarl.insert_node(Pos2::ZERO, generic_op(OpType::Subtract, NodeValue::Value(()), NodeValue::Value(())));
    // C reads A only through a wire: its slots hold no reference.
    let c = snarl.insert_node(Pos2::ZERO, generic_op(OpType::Divide, NodeValue::Value(()), NodeValue::Value(())));
    let lone = snarl.insert_node(Pos2::ZERO, generic_op(OpType::Add, NodeValue::Value(()), NodeValue::Value(())));
    wire(&mut snarl, a, c, 1);
    NoiseNode::propagate_f64_from_tuple_op(a.0, &mut snarl);
    assert_eq!(op_at(&snarl, a).0, "f64");
    assert_eq!(op_at(&snarl, c).0, "f64");
    assert_eq!(op_at(&snarl, lone).0, "unresolved");
}
