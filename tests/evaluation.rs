use egui::Pos2;
use egui_snarl::Snarl;
use noise_graph::eval::checked_u32;
use noise_graph::node::NoiseNode;
use noise_graph::value::{ConstantNode, ConstantOpNode, NodeValue, OpType};

fn u32_op(op_ty: OpType, lhs: NodeValue<u32>, rhs: NodeValue<u32>) -> NoiseNode {
    NoiseNode::U32Operation(ConstantOpNode { inputs: [lhs, rhs], op_ty })
}

#[test]
fn u32_addition_overflow_gives_zero() {
    let mut snarl = Snarl::new();
    let id = snarl.insert_node(Pos2::ZERO, u32_op(OpType::Add, NodeValue::Value(4294967295), NodeValue::Value(1)));
    assert_eq!(snarl.get_node(id).unwrap().eval_u32(&snarl), 0);
}

#[test]
fn u32_policy_on_edge_cases() {
    assert_eq!(checked_u32(OpType::Subtract, 3, 5), 0);
    assert_eq!(checked_u32(OpType::Divide, 7, 0), 0);
    assert_eq!(checked_u32(OpType::Multiply, 65536, 65536), 0);
    assert_eq!(checked_u32(OpType::Add, 2, 3), 5);
    assert_eq!(checked_u32(OpType::Subtract, 5, 3), 2);
    assert_eq!(checked_u32(OpType::Divide, 7, 2), 3);
    assert_eq!(checked_u32(OpType::Multiply, 6, 7), 42);
}

#[test]
fn u32_evaluation_follows_references() {
    let mut snarl = Snarl::new();
    let c = snarl.insert_node(Pos2::ZERO, NoiseNode::U32(ConstantNode { name: "n".to_owned(), value: 10 }));
    let inner = snarl.insert_node(Pos2::ZERO, u32_op(OpType::Multiply, NodeValue::Node(c.0), NodeValue::Value(3)));
    let outer = snarl.insert_node(Pos2::ZERO, u32_op(OpType::Subtract, NodeValue::Node(inner.0), NodeValue::Node(c.0)));
    assert_eq!(snarl.get_node(outer).unwrap().eval_u32(&snarl), 20);
    assert_eq!(snarl.get_node(c).unwrap().eval_u32(&snarl), 10);
}
