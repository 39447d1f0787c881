use noise_graph::expr::{DistanceFunction, ReturnType, SourceType};
use noise_graph::node::{
    CombinerNode, CylindersNode, FractalNode, GeneratorNode, Image, NoiseNode, RigidFractalNode, TransformNode,
    TurbulenceNode, UnaryNode, WorleyNode,
};
use noise_graph::value::{ConstantNode, ConstantOpNode, F64Bits, NodeValue, OpType, ONE_BITS};

#[test]
fn node_value_accessors() {
    let mut v: NodeValue<u32> = NodeValue::Value(4);
    assert_eq!(v.as_node_index(), None);
    assert!(!v.is_node_idx());
    *v.as_value_mut().unwrap() = 9;
    assert_eq!(v, NodeValue::Value(9));
    let mut r: NodeValue<u32> = NodeValue::Node(12);
    assert_eq!(r.as_node_index(), Some(12));
    assert!(r.is_node_idx());
    assert!(r.as_value_mut().is_none());
}

#[test]
fn constant_op_new_fills_both_inputs() {
    let op = ConstantOpNode::new(OpType::Divide, 5u32);
    assert_eq!(op.inputs, [NodeValue::Value(5), NodeValue::Value(5)]);
    assert_eq!(op.op_ty, OpType::Divide);
}

#[test]
fn narrowing_accessors_report_the_wrong_kind() {
    let mut node = NoiseNode::Max(CombinerNode::default());
    node.as_combiner_mut().unwrap().input_node_indices[0] = Some(3);
    match &node {
        NoiseNode::Max(c) => assert_eq!(c.input_node_indices, [Some(3), None]),
        _ => panic!("kind changed"),
    }
    assert!(node.as_blend_mut().is_none());
    assert!(node.as_unary_mut().is_none());
    assert!(node.as_const_op_f64().is_none());
    let mut op = NoiseNode::Operation(ConstantOpNode::new(OpType::Add, ()));
    assert!(op.as_const_op_tuple().is_some());
    op.as_const_op_tuple_mut().unwrap().op_ty = OpType::Subtract;
    assert_eq!(op.as_const_op_tuple().unwrap().op_ty, OpType::Subtract);
    let mut gen = NoiseNode::Simplex(GeneratorNode::default());
    gen.as_generator_mut().unwrap().seed = NodeValue::Value(77);
    assert!(matches!(gen, NoiseNode::Simplex(GeneratorNode { seed: NodeValue::Value(77), .. })));
}

#[test]
fn images_belong_to_noise_producing_nodes() {
    let constant = NoiseNode::F64(ConstantNode { name: "c".to_owned(), value: F64Bits(0) });
    assert!(!constant.has_image());
    let mut abs = NoiseNode::Abs(UnaryNode::default());
    assert!(abs.has_image());
    abs.image_mut().unwrap().version = 5;
    assert_eq!(abs.image().unwrap().version, 5);
    assert_eq!(abs.image().unwrap().scale, F64Bits(0x4010_0000_0000_0000));
    assert!(abs.as_unary_mut().is_some());
}

#[test]
fn defaults_come_from_the_noise_library() {
    let fractal = FractalNode::default();
    assert_eq!(fractal.source_ty, SourceType::Perlin);
    assert_eq!(fractal.seed, NodeValue::Value(0));
    assert_eq!(fractal.octaves, NodeValue::Value(6));
    assert_eq!(fractal.frequency, NodeValue::Value(F64Bits(0x4000_0000_0000_0000)));
    assert_eq!(fractal.lacunarity, NodeValue::Value(F64Bits(0x4000_C152_382D_7365)));
    assert_eq!(fractal.persistence, NodeValue::Value(F64Bits(0x3FE0_0000_0000_0000)));
    let rigid = RigidFractalNode::default();
    assert_eq!(rigid.frequency, NodeValue::Value(F64Bits(ONE_BITS)));
    assert_eq!(rigid.attenuation, NodeValue::Value(F64Bits(0x4000_0000_0000_0000)));
    let turbulence = TurbulenceNode::default();
    assert_eq!(turbulence.roughness, NodeValue::Value(3));
    assert_eq!(turbulence.power, NodeValue::Value(F64Bits(ONE_BITS)));
    let worley = WorleyNode::default();
    assert_eq!(worley.frequency, NodeValue::Value(F64Bits(ONE_BITS)));
    assert_eq!(worley.distance_fn, DistanceFunction::Euclidean);
    assert_eq!(worley.return_ty, ReturnType::Value);
    assert_eq!(CylindersNode::default().frequency, NodeValue::Value(F64Bits(ONE_BITS)));
    let image = Image::default();
    assert_eq!(image.version, 0);
    assert!(image.texture.is_none());
}

#[test]
fn transform_presets() {
    let one = TransformNode::one();
    assert_eq!(one.axes, [NodeValue::Value(F64Bits(ONE_BITS)); 4]);
    assert_eq!(one.input_node_idx, None);
    let zero = TransformNode::zero();
    assert_eq!(zero.axes, [NodeValue::Value(F64Bits(0)); 4]);
}
