use vstd::prelude::*;

use crate::expr::{DistanceFunction, ReturnType, SourceType};
use crate::value::{ConstantNode, ConstantOpNode, F64Bits, NodeValue};

verus! {

/// An egui texture handle, carried opaquely by preview images.
#[verifier::external_type_specification]
#[verifier::external_body]
pub struct ExTextureHandle(egui::TextureHandle);

/// The preview image shown on a noise-producing node: the view's scale and
/// offset, and the texture cached for it.
#[derive(Clone)]
pub struct Image {
    pub scale: F64Bits,
    pub texture: Option<egui::TextureHandle>,
    pub version: usize,
    pub x: F64Bits,
    pub y: F64Bits,
}

#[derive(Clone)]
pub struct BlendNode {
    pub image: Image,
    pub input_node_indices: [Option<usize>; 2],
    pub control_node_idx: Option<usize>,
}

#[derive(Clone)]
pub struct CheckerboardNode {
    pub image: Image,
    pub size: NodeValue<u32>,
}

#[derive(Clone)]
pub struct ClampNode {
    pub image: Image,
    pub input_node_idx: Option<usize>,
    pub lower_bound: NodeValue<F64Bits>,
    pub upper_bound: NodeValue<F64Bits>,
}

#[derive(Clone)]
pub struct CombinerNode {
    pub image: Image,
    pub input_node_indices: [Option<usize>; 2],
}

#[derive(Clone, Copy)]
pub struct ControlPointNode {
    pub input: NodeValue<F64Bits>,
    pub output: NodeValue<F64Bits>,
}

#[derive(Clone)]
pub struct CurveNode {
    pub image: Image,
    pub input_node_idx: Option<usize>,
    pub control_point_node_indices: Vec<Option<usize>>,
}

#[derive(Clone)]
pub struct CylindersNode {
    pub image: Image,
    pub frequency: NodeValue<F64Bits>,
}

#[derive(Clone)]
pub struct DisplaceNode {
    pub image: Image,
    pub input_node_idx: Option<usize>,
    pub axes: [Option<usize>; 4],
}

#[derive(Clone)]
pub struct ExponentNode {
    pub image: Image,
    pub input_node_idx: Option<usize>,
    pub exponent: NodeValue<F64Bits>,
}

#[derive(Clone)]
pub struct FractalNode {
    pub image: Image,
    pub source_ty: SourceType,
    pub seed: NodeValue<u32>,
    pub octaves: NodeValue<u32>,
    pub frequency: NodeValue<F64Bits>,
    pub lacunarity: NodeValue<F64Bits>,
    pub persistence: NodeValue<F64Bits>,
}

#[derive(Clone)]
pub struct GeneratorNode {
    pub image: Image,
    pub seed: NodeValue<u32>,
}

#[derive(Clone)]
pub struct RigidFractalNode {
    pub image: Image,
    pub source_ty: SourceType,
    pub seed: NodeValue<u32>,
    pub octaves: NodeValue<u32>,
    pub frequency: NodeValue<F64Bits>,
    pub lacunarity: NodeValue<F64Bits>,
    pub persistence: NodeValue<F64Bits>,
    pub attenuation: NodeValue<F64Bits>,
}

#[derive(Clone)]
pub struct ScaleBiasNode {
    pub image: Image,
    pub input_node_idx: Option<usize>,
    pub scale: NodeValue<F64Bits>,
    pub bias: NodeValue<F64Bits>,
}

#[derive(Clone)]
pub struct SelectNode {
    pub image: Image,
    pub input_node_indices: [Option<usize>; 2],
    pub control_node_idx: Option<usize>,
    pub lower_bound: NodeValue<F64Bits>,
    pub upper_bound: NodeValue<F64Bits>,
    pub falloff: NodeValue<F64Bits>,
}

#[derive(Clone)]
pub struct TerraceNode {
    pub image: Image,
    pub input_node_idx: Option<usize>,
    pub inverted: bool,
    pub control_point_node_indices: Vec<Option<usize>>,
}

#[derive(Clone)]
pub struct TransformNode {
    pub image: Image,
    pub input_node_idx: Option<usize>,
    pub axes: [NodeValue<F64Bits>; 4],
}

#[derive(Clone)]
pub struct TurbulenceNode {
    pub image: Image,
    pub input_node_idx: Option<usize>,
    pub source_ty: SourceType,
    pub seed: NodeValue<u32>,
    pub frequency: NodeValue<F64Bits>,
    pub power: NodeValue<F64Bits>,
    pub roughness: NodeValue<u32>,
}

#[derive(Clone)]
pub struct UnaryNode {
    pub image: Image,
    pub input_node_idx: Option<usize>,
}

#[derive(Clone)]
pub struct WorleyNode {
    pub image: Image,
    pub seed: NodeValue<u32>,
    pub frequency: NodeValue<F64Bits>,
    pub distance_fn: DistanceFunction,
    pub return_ty: ReturnType,
}

/// One node of the graph: a closed set of kinds, each with its own slots.
#[derive(Clone)]
pub enum NoiseNode {
    Abs(UnaryNode),
    Add(CombinerNode),
    BasicMulti(FractalNode),
    Billow(FractalNode),
    Blend(BlendNode),
    Clamp(ClampNode),
    Checkerboard(CheckerboardNode),
    ControlPoint(ControlPointNode),
    Curve(CurveNode),
    Cylinders(CylindersNode),
    Displace(DisplaceNode),
    Exponent(ExponentNode),
    F64(ConstantNode<F64Bits>),
    F64Operation(ConstantOpNode<F64Bits>),
    Fbm(FractalNode),
    HybridMulti(FractalNode),
    Max(CombinerNode),
    Min(CombinerNode),
    Multiply(CombinerNode),
    Negate(UnaryNode),
    OpenSimplex(GeneratorNode),
    Operation(ConstantOpNode<()>),
    Perlin(GeneratorNode),
    PerlinSurflet(GeneratorNode),
    Power(CombinerNode),
    RigidMulti(RigidFractalNode),
    RotatePoint(TransformNode),
    ScaleBias(ScaleBiasNode),
    ScalePoint(TransformNode),
    Select(SelectNode),
    Simplex(GeneratorNode),
    SuperSimplex(GeneratorNode),
    Terrace(TerraceNode),
    TranslatePoint(TransformNode),
    Turbulence(TurbulenceNode),
    U32(ConstantNode<u32>),
    U32Operation(ConstantOpNode<u32>),
    Value(GeneratorNode),
    Worley(WorleyNode),
}

impl NoiseNode {
    /// Mutable access to this node's fields when it is a `Blend` node;
    /// the node keeps its kind.
    pub fn as_blend_mut(&mut self) -> (r: Option<&mut BlendNode>)
        ensures
            match *old(self) {
                NoiseNode::Blend(node) => r is Some && *r->0 == node && *final(self) == NoiseNode::Blend(
                    *final(r->0),
                ),
                _ => r is None && *final(self) == *old(self),
            },
    {
        if let NoiseNode::Blend(node) = self {
            Some(node)
        } else {
            None
        }
    }

    /// Mutable access to this node's fields when it is a `Checkerboard` node;
    /// the node keeps its kind.
    pub fn as_checkerboard_mut(&mut self) -> (r: Option<&mut CheckerboardNode>)
        ensures
            match *old(self) {
                NoiseNode::Checkerboard(node) => r is Some && *r->0 == node && *final(self) == NoiseNode::Checkerboard(
                    *final(r->0),
                ),
                _ => r is None && *final(self) == *old(self),
            },
    {
        if let NoiseNode::Checkerboard(node) = self {
            Some(node)
        } else {
            None
        }
    }

    /// Mutable access to this node's fields when it is a `Clamp` node;
    /// the node keeps its kind.
    pub fn as_clamp_mut(&mut self) -> (r: Option<&mut ClampNode>)
        ensures
            match *old(self) {
                NoiseNode::Clamp(node) => r is Some && *r->0 == node && *final(self) == NoiseNode::Clamp(
                    *final(r->0),
                ),
                _ => r is None && *final(self) == *old(self),
            },
    {
        if let NoiseNode::Clamp(node) = self {
            Some(node)
        } else {
            None
        }
    }

    /// Mutable access to this node's fields when it is a `Add`, `Max`, `Min`, `Multiply`, `Power` node;
    /// the node keeps its kind.
    pub fn as_combiner_mut(&mut self) -> (r: Option<&mut CombinerNode>)
        ensures
            match *old(self) {
                NoiseNode::Add(node) => r is Some && *r->0 == node && *final(self) == NoiseNode::Add(
                    *final(r->0),
                ),
                NoiseNode::Max(node) => r is Some && *r->0 == node && *final(self) == NoiseNode::Max(
                    *final(r->0),
                ),
                NoiseNode::Min(node) => r is Some && *r->0 == node && *final(self) == NoiseNode::Min(
                    *final(r->0),
                ),
                NoiseNode::Multiply(node) => r is Some && *r->0 == node && *final(self) == NoiseNode::Multiply(
                    *final(r->0),
                ),
                NoiseNode::Power(node) => r is Some && *r->0 == node && *final(self) == NoiseNode::Power(
                    *final(r->0),
                ),
                _ => r is None && *final(self) == *old(self),
            },
    {
        match self {
            NoiseNode::Add(node) => Some(node),
            NoiseNode::Max(node) => Some(node),
            NoiseNode::Min(node) => Some(node),
            NoiseNode::Multiply(node) => Some(node),
            NoiseNode::Power(node) => Some(node),
            _ => None,
        }
    }

    /// This node as a `F64Operation` node, if it is one.
    pub fn as_const_op_f64(&self) -> (r: Option<&ConstantOpNode<F64Bits>>)
        ensures
            (*self is F64Operation) == (r is Some),
            r is Some ==> *r->0 == self->F64Operation_0,
    {
        if let NoiseNode::F64Operation(node) = self {
            Some(node)
        } else {
            None
        }
    }

    /// Mutable access to this node's fields when it is a `F64Operation` node;
    /// the node keeps its kind.
    pub fn as_const_op_f64_mut(&mut self) -> (r: Option<&mut ConstantOpNode<F64Bits>>)
        ensures
            match *old(self) {
                NoiseNode::F64Operation(node) => r is Some && *r->0 == node && *final(self) == NoiseNode::F64Operation(
                    *final(r->0),
                ),
                _ => r is None && *final(self) == *old(self),
            },
    {
        if let NoiseNode::F64Operation(node) = self {
            Some(node)
        } else {
            None
        }
    }

    /// This node as a `Operation` node, if it is one.
    pub fn as_const_op_tuple(&self) -> (r: Option<&ConstantOpNode<()>>)
        ensures
            (*self is Operation) == (r is Some),
            r is Some ==> *r->0 == self->Operation_0,
    {
        if let NoiseNode::Operation(node) = self {
            Some(node)
        } else {
            None
        }
    }

    /// Mutable access to this node's fields when it is a `Operation` node;
    /// the node keeps its kind.
    pub fn as_const_op_tuple_mut(&mut self) -> (r: Option<&mut ConstantOpNode<()>>)
        ensures
            match *old(self) {
                NoiseNode::Operation(node) => r is Some && *r->0 == node && *final(self) == NoiseNode::Operation(
                    *final(r->0),
                ),
                _ => r is None && *final(self) == *old(self),
            },
    {
        if let NoiseNode::Operation(node) = self {
            Some(node)
        } else {
            None
        }
    }

    /// This node as a `U32Operation` node, if it is one.
    pub fn as_const_op_u32(&self) -> (r: Option<&ConstantOpNode<u32>>)
        ensures
            (*self is U32Operation) == (r is Some),
            r is Some ==> *r->0 == self->U32Operation_0,
    {
        if let NoiseNode::U32Operation(node) = self {
            Some(node)
        } else {
            None
        }
    }

    /// Mutable access to this node's fields when it is a `U32Operation` node;
    /// the node keeps its kind.
    pub fn as_const_op_u32_mut(&mut self) -> (r: Option<&mut ConstantOpNode<u32>>)
        ensures
            match *old(self) {
                NoiseNode::U32Operation(node) => r is Some && *r->0 == node && *final(self) == NoiseNode::U32Operation(
                    *final(r->0),
                ),
                _ => r is None && *final(self) == *old(self),
            },
    {
        if let NoiseNode::U32Operation(node) = self {
            Some(node)
        } else {
            None
        }
    }

    /// This node as a `ControlPoint` node, if it is one.
    pub fn as_control_point(&self) -> (r: Option<&ControlPointNode>)
        ensures
            (*self is ControlPoint) == (r is Some),
            r is Some ==> *r->0 == self->ControlPoint_0,
    {
        if let NoiseNode::ControlPoint(node) = self {
            Some(node)
        } else {
            None
        }
    }

    /// Mutable access to this node's fields when it is a `ControlPoint` node;
    /// the node keeps its kind.
    pub fn as_control_point_mut(&mut self) -> (r: Option<&mut ControlPointNode>)
        ensures
            match *old(self) {
                NoiseNode::ControlPoint(node) => r is Some && *r->0 == node && *final(self) == NoiseNode::ControlPoint(
                    *final(r->0),
                ),
                _ => r is None && *final(self) == *old(self),
            },
    {
        if let NoiseNode::ControlPoint(node) = self {
            Some(node)
        } else {
            None
        }
    }

    /// Mutable access to this node's fields when it is a `Curve` node;
    /// the node keeps its kind.
    pub fn as_curve_mut(&mut self) -> (r: Option<&mut CurveNode>)
        ensures
            match *old(self) {
                NoiseNode::Curve(node) => r is Some && *r->0 == node && *final(self) == NoiseNode::Curve(
                    *final(r->0),
                ),
                _ => r is None && *final(self) == *old(self),
            },
    {
        if let NoiseNode::Curve(node) = self {
            Some(node)
        } else {
            None
        }
    }

    /// Mutable access to this node's fields when it is a `Cylinders` node;
    /// the node keeps its kind.
    pub fn as_cylinders_mut(&mut self) -> (r: Option<&mut CylindersNode>)
        ensures
            match *old(self) {
                NoiseNode::Cylinders(node) => r is Some && *r->0 == node && *final(self) == NoiseNode::Cylinders(
                    *final(r->0),
                ),
                _ => r is None && *final(self) == *old(self),
            },
    {
        if let NoiseNode::Cylinders(node) = self {
            Some(node)
        } else {
            None
        }
    }

    /// Mutable access to this node's fields when it is a `Displace` node;
    /// the node keeps its kind.
    pub fn as_displace_mut(&mut self) -> (r: Option<&mut DisplaceNode>)
        ensures
            match *old(self) {
                NoiseNode::Displace(node) => r is Some && *r->0 == node && *final(self) == NoiseNode::Displace(
                    *final(r->0),
                ),
                _ => r is None && *final(self) == *old(self),
            },
    {
        if let NoiseNode::Displace(node) = self {
            Some(node)
        } else {
            None
        }
    }

    /// Mutable access to this node's fields when it is a `Exponent` node;
    /// the node keeps its kind.
    pub fn as_exponent_mut(&mut self) -> (r: Option<&mut ExponentNode>)
        ensures
            match *old(self) {
                NoiseNode::Exponent(node) => r is Some && *r->0 == node && *final(self) == NoiseNode::Exponent(
                    *final(r->0),
                ),
                _ => r is None && *final(self) == *old(self),
            },
    {
        if let NoiseNode::Exponent(node) = self {
            Some(node)
        } else {
            None
        }
    }

    /// Mutable access to this node's fields when it is a `BasicMulti`, `Billow`, `Fbm`, `HybridMulti` node;
    /// the node keeps its kind.
    pub fn as_fractal_mut(&mut self) -> (r: Option<&mut FractalNode>)
        ensures
            match *old(self) {
                NoiseNode::BasicMulti(node) => r is Some && *r->0 == node && *final(self) == NoiseNode::BasicMulti(
                    *final(r->0),
                ),
                NoiseNode::Billow(node) => r is Some && *r->0 == node && *final(self) == NoiseNode::Billow(
                    *final(r->0),
                ),
                NoiseNode::Fbm(node) => r is Some && *r->0 == node && *final(self) == NoiseNode::Fbm(
                    *final(r->0),
                ),
                NoiseNode::HybridMulti(node) => r is Some && *r->0 == node && *final(self) == NoiseNode::HybridMulti(
                    *final(r->0),
                ),
                _ => r is None && *final(self) == *old(self),
            },
    {
        match self {
            NoiseNode::BasicMulti(node) => Some(node),
            NoiseNode::Billow(node) => Some(node),
            NoiseNode::Fbm(node) => Some(node),
            NoiseNode::HybridMulti(node) => Some(node),
            _ => None,
        }
    }

    /// Mutable access to this node's fields when it is a `OpenSimplex`, `Perlin`, `PerlinSurflet`, `Simplex`, `SuperSimplex`, `Value` node;
    /// the node keeps its kind.
    pub fn as_generator_mut(&mut self) -> (r: Option<&mut GeneratorNode>)
        ensures
            match *old(self) {
                NoiseNode::OpenSimplex(node) => r is Some && *r->0 == node && *final(self) == NoiseNode::OpenSimplex(
                    *final(r->0),
                ),
                NoiseNode::Perlin(node) => r is Some && *r->0 == node && *final(self) == NoiseNode::Perlin(
                    *final(r->0),
                ),
                NoiseNode::PerlinSurflet(node) => r is Some && *r->0 == node && *final(self) == NoiseNode::PerlinSurflet(
                    *final(r->0),
                ),
                NoiseNode::Simplex(node) => r is Some && *r->0 == node && *final(self) == NoiseNode::Simplex(
                    *final(r->0),
                ),
                NoiseNode::SuperSimplex(node) => r is Some && *r->0 == node && *final(self) == NoiseNode::SuperSimplex(
                    *final(r->0),
                ),
                NoiseNode::Value(node) => r is Some && *r->0 == node && *final(self) == NoiseNode::Value(
                    *final(r->0),
                ),
                _ => r is None && *final(self) == *old(self),
            },
    {
        match self {
            NoiseNode::OpenSimplex(node) => Some(node),
            NoiseNode::Perlin(node) => Some(node),
            NoiseNode::PerlinSurflet(node) => Some(node),
            NoiseNode::Simplex(node) => Some(node),
            NoiseNode::SuperSimplex(node) => Some(node),
            NoiseNode::Value(node) => Some(node),
            _ => None,
        }
    }

    /// Mutable access to this node's fields when it is a `RigidMulti` node;
    /// the node keeps its kind.
    pub fn as_rigid_fractal_mut(&mut self) -> (r: Option<&mut RigidFractalNode>)
        ensures
            match *old(self) {
                NoiseNode::RigidMulti(node) => r is Some && *r->0 == node && *final(self) == NoiseNode::RigidMulti(
                    *final(r->0),
                ),
                _ => r is None && *final(self) == *old(self),
            },
    {
        if let NoiseNode::RigidMulti(node) = self {
            Some(node)
        } else {
            None
        }
    }

    /// Mutable access to this node's fields when it is a `ScaleBias` node;
    /// the node keeps its kind.
    pub fn as_scale_bias_mut(&mut self) -> (r: Option<&mut ScaleBiasNode>)
        ensures
            match *old(self) {
                NoiseNode::ScaleBias(node) => r is Some && *r->0 == node && *final(self) == NoiseNode::ScaleBias(
                    *final(r->0),
                ),
                _ => r is None && *final(self) == *old(self),
            },
    {
        if let NoiseNode::ScaleBias(node) = self {
            Some(node)
        } else {
            None
        }
    }

    /// Mutable access to this node's fields when it is a `Select` node;
    /// the node keeps its kind.
    pub fn as_select_mut(&mut self) -> (r: Option<&mut SelectNode>)
        ensures
            match *old(self) {
                NoiseNode::Select(node) => r is Some && *r->0 == node && *final(self) == NoiseNode::Select(
                    *final(r->0),
                ),
                _ => r is None && *final(self) == *old(self),
            },
    {
        if let NoiseNode::Select(node) = self {
            Some(node)
        } else {
            None
        }
    }

    /// Mutable access to this node's fields when it is a `Terrace` node;
    /// the node keeps its kind.
    pub fn as_terrace_mut(&mut self) -> (r: Option<&mut TerraceNode>)
        ensures
            match *old(self) {
                NoiseNode::Terrace(node) => r is Some && *r->0 == node && *final(self) == NoiseNode::Terrace(
                    *final(r->0),
                ),
                _ => r is None && *final(self) == *old(self),
            },
    {
        if let NoiseNode::Terrace(node) = self {
            Some(node)
        } else {
            None
        }
    }

    /// Mutable access to this node's fields when it is a `RotatePoint`, `ScalePoint`, `TranslatePoint` node;
    /// the node keeps its kind.
    pub fn as_transform_mut(&mut self) -> (r: Option<&mut TransformNode>)
        ensures
            match *old(self) {
                NoiseNode::RotatePoint(node) => r is Some && *r->0 == node && *final(self) == NoiseNode::RotatePoint(
                    *final(r->0),
                ),
                NoiseNode::ScalePoint(node) => r is Some && *r->0 == node && *final(self) == NoiseNode::ScalePoint(
                    *final(r->0),
                ),
                NoiseNode::TranslatePoint(node) => r is Some && *r->0 == node && *final(self) == NoiseNode::TranslatePoint(
                    *final(r->0),
                ),
                _ => r is None && *final(self) == *old(self),
            },
    {
        match self {
            NoiseNode::RotatePoint(node) => Some(node),
            NoiseNode::ScalePoint(node) => Some(node),
            NoiseNode::TranslatePoint(node) => Some(node),
            _ => None,
        }
    }

    /// Mutable access to this node's fields when it is a `Turbulence` node;
    /// the node keeps its kind.
    pub fn as_turbulence_mut(&mut self) -> (r: Option<&mut TurbulenceNode>)
        ensures
            match *old(self) {
                NoiseNode::Turbulence(node) => r is Some && *r->0 == node && *final(self) == NoiseNode::Turbulence(
                    *final(r->0),
                ),
                _ => r is None && *final(self) == *old(self),
            },
    {
        if let NoiseNode::Turbulence(node) = self {
            Some(node)
        } else {
            None
        }
    }

    /// Mutable access to this node's fields when it is a `Abs`, `Negate` node;
    /// the node keeps its kind.
    pub fn as_unary_mut(&mut self) -> (r: Option<&mut UnaryNode>)
        ensures
            match *old(self) {
                NoiseNode::Abs(node) => r is Some && *r->0 == node && *final(self) == NoiseNode::Abs(
                    *final(r->0),
                ),
                NoiseNode::Negate(node) => r is Some && *r->0 == node && *final(self) == NoiseNode::Negate(
                    *final(r->0),
                ),
                _ => r is None && *final(self) == *old(self),
            },
    {
        match self {
            NoiseNode::Abs(node) => Some(node),
            NoiseNode::Negate(node) => Some(node),
            _ => None,
        }
    }

    /// Mutable access to this node's fields when it is a `Worley` node;
    /// the node keeps its kind.
    pub fn as_worley_mut(&mut self) -> (r: Option<&mut WorleyNode>)
        ensures
            match *old(self) {
                NoiseNode::Worley(node) => r is Some && *r->0 == node && *final(self) == NoiseNode::Worley(
                    *final(r->0),
                ),
                _ => r is None && *final(self) == *old(self),
            },
    {
        if let NoiseNode::Worley(node) = self {
            Some(node)
        } else {
            None
        }
    }

}

/// The preview image of a node, for the kinds that show one: every kind
/// but control points, constants and operations.
pub open spec fn image_of(n: NoiseNode) -> Option<Image> {
    match n {
        NoiseNode::Abs(node) => Some(node.image),
        NoiseNode::Add(node) => Some(node.image),
        NoiseNode::BasicMulti(node) => Some(node.image),
        NoiseNode::Billow(node) => Some(node.image),
        NoiseNode::Blend(node) => Some(node.image),
        NoiseNode::Checkerboard(node) => Some(node.image),
        NoiseNode::Clamp(node) => Some(node.image),
        NoiseNode::Curve(node) => Some(node.image),
        NoiseNode::Cylinders(node) => Some(node.image),
        NoiseNode::Displace(node) => Some(node.image),
        NoiseNode::Exponent(node) => Some(node.image),
        NoiseNode::Fbm(node) => Some(node.image),
        NoiseNode::HybridMulti(node) => Some(node.image),
        NoiseNode::Max(node) => Some(node.image),
        NoiseNode::Min(node) => Some(node.image),
        NoiseNode::Multiply(node) => Some(node.image),
        NoiseNode::Negate(node) => Some(node.image),
        NoiseNode::OpenSimplex(node) => Some(node.image),
        NoiseNode::Perlin(node) => Some(node.image),
        NoiseNode::PerlinSurflet(node) => Some(node.image),
        NoiseNode::Power(node) => Some(node.image),
        NoiseNode::RigidMulti(node) => Some(node.image),
        NoiseNode::RotatePoint(node) => Some(node.image),
        NoiseNode::ScaleBias(node) => Some(node.image),
        NoiseNode::ScalePoint(node) => Some(node.image),
        NoiseNode::Select(node) => Some(node.image),
        NoiseNode::Simplex(node) => Some(node.image),
        NoiseNode::SuperSimplex(node) => Some(node.image),
        NoiseNode::Terrace(node) => Some(node.image),
        NoiseNode::TranslatePoint(node) => Some(node.image),
        NoiseNode::Turbulence(node) => Some(node.image),
        NoiseNode::Value(node) => Some(node.image),
        NoiseNode::Worley(node) => Some(node.image),
        NoiseNode::ControlPoint(_) | NoiseNode::F64(_) | NoiseNode::F64Operation(_) | NoiseNode::Operation(_) | NoiseNode::U32(_) | NoiseNode::U32Operation(_) => None,
    }
}

impl NoiseNode {
    /// Whether this kind of node shows a preview image.
    pub fn has_image(&self) -> (r: bool)
        ensures
            r == (image_of(*self) is Some),
    {
        self.image().is_some()
    }

    /// The preview image of this node, if its kind shows one.
    pub fn image(&self) -> (r: Option<&Image>)
        ensures
            (r is Some) == (image_of(*self) is Some),
            r is Some ==> *r->0 == image_of(*self)->0,
    {
        match self {
            NoiseNode::Abs(node) => Some(&node.image),
            NoiseNode::Add(node) => Some(&node.image),
            NoiseNode::BasicMulti(node) => Some(&node.image),
            NoiseNode::Billow(node) => Some(&node.image),
            NoiseNode::Blend(node) => Some(&node.image),
            NoiseNode::Checkerboard(node) => Some(&node.image),
            NoiseNode::Clamp(node) => Some(&node.image),
            NoiseNode::Curve(node) => Some(&node.image),
            NoiseNode::Cylinders(node) => Some(&node.image),
            NoiseNode::Displace(node) => Some(&node.image),
            NoiseNode::Exponent(node) => Some(&node.image),
            NoiseNode::Fbm(node) => Some(&node.image),
            NoiseNode::HybridMulti(node) => Some(&node.image),
            NoiseNode::Max(node) => Some(&node.image),
            NoiseNode::Min(node) => Some(&node.image),
            NoiseNode::Multiply(node) => Some(&node.image),
            NoiseNode::Negate(node) => Some(&node.image),
            NoiseNode::OpenSimplex(node) => Some(&node.image),
            NoiseNode::Perlin(node) => Some(&node.image),
            NoiseNode::PerlinSurflet(node) => Some(&node.image),
            NoiseNode::Power(node) => Some(&node.image),
            NoiseNode::RigidMulti(node) => Some(&node.image),
            NoiseNode::RotatePoint(node) => Some(&node.image),
            NoiseNode::ScaleBias(node) => Some(&node.image),
            NoiseNode::ScalePoint(node) => Some(&node.image),
            NoiseNode::Select(node) => Some(&node.image),
            NoiseNode::Simplex(node) => Some(&node.image),
            NoiseNode::SuperSimplex(node) => Some(&node.image),
            NoiseNode::Terrace(node) => Some(&node.image),
            NoiseNode::TranslatePoint(node) => Some(&node.image),
            NoiseNode::Turbulence(node) => Some(&node.image),
            NoiseNode::Value(node) => Some(&node.image),
            NoiseNode::Worley(node) => Some(&node.image),
            NoiseNode::ControlPoint(_) | NoiseNode::F64(_) | NoiseNode::F64Operation(_) | NoiseNode::Operation(_) | NoiseNode::U32(_) | NoiseNode::U32Operation(_) => None,
        }
    }

    /// Mutable access to the preview image of this node, if its kind shows
    /// one; the rest of the node is left as it is.
    pub fn image_mut(&mut self) -> (r: Option<&mut Image>)
        ensures
            match *old(self) {
                NoiseNode::Abs(node) => r is Some && *r->0 == node.image && *final(self) == NoiseNode::Abs(
                    UnaryNode { image: *final(r->0), ..node },
                ),
                NoiseNode::Add(node) => r is Some && *r->0 == node.image && *final(self) == NoiseNode::Add(
                    CombinerNode { image: *final(r->0), ..node },
                ),
                NoiseNode::BasicMulti(node) => r is Some && *r->0 == node.image && *final(self) == NoiseNode::BasicMulti(
                    FractalNode { image: *final(r->0), ..node },
                ),
                NoiseNode::Billow(node) => r is Some && *r->0 == node.image && *final(self) == NoiseNode::Billow(
                    FractalNode { image: *final(r->0), ..node },
                ),
                NoiseNode::Blend(node) => r is Some && *r->0 == node.image && *final(self) == NoiseNode::Blend(
                    BlendNode { image: *final(r->0), ..node },
                ),
                NoiseNode::Checkerboard(node) => r is Some && *r->0 == node.image && *final(self) == NoiseNode::Checkerboard(
                    CheckerboardNode { image: *final(r->0), ..node },
                ),
                NoiseNode::Clamp(node) => r is Some && *r->0 == node.image && *final(self) == NoiseNode::Clamp(
                    ClampNode { image: *final(r->0), ..node },
                ),
                NoiseNode::Curve(node) => r is Some && *r->0 == node.image && *final(self) == NoiseNode::Curve(
                    CurveNode { image: *final(r->0), ..node },
                ),
                NoiseNode::Cylinders(node) => r is Some && *r->0 == node.image && *final(self) == NoiseNode::Cylinders(
                    CylindersNode { image: *final(r->0), ..node },
                ),
                NoiseNode::Displace(node) => r is Some && *r->0 == node.image && *final(self) == NoiseNode::Displace(
                    DisplaceNode { image: *final(r->0), ..node },
                ),
                NoiseNode::Exponent(node) => r is Some && *r->0 == node.image && *final(self) == NoiseNode::Exponent(
                    ExponentNode { image: *final(r->0), ..node },
                ),
                NoiseNode::Fbm(node) => r is Some && *r->0 == node.image && *final(self) == NoiseNode::Fbm(
                    FractalNode { image: *final(r->0), ..node },
                ),
                NoiseNode::HybridMulti(node) => r is Some && *r->0 == node.image && *final(self) == NoiseNode::HybridMulti(
                    FractalNode { image: *final(r->0), ..node },
                ),
                NoiseNode::Max(node) => r is Some && *r->0 == node.image && *final(self) == NoiseNode::Max(
                    CombinerNode { image: *final(r->0), ..node },
                ),
                NoiseNode::Min(node) => r is Some && *r->0 == node.image && *final(self) == NoiseNode::Min(
                    CombinerNode { image: *final(r->0), ..node },
                ),
                NoiseNode::Multiply(node) => r is Some && *r->0 == node.image && *final(self) == NoiseNode::Multiply(
                    CombinerNode { image: *final(r->0), ..node },
                ),
                NoiseNode::Negate(node) => r is Some && *r->0 == node.image && *final(self) == NoiseNode::Negate(
                    UnaryNode { image: *final(r->0), ..node },
                ),
                NoiseNode::OpenSimplex(node) => r is Some && *r->0 == node.image && *final(self) == NoiseNode::OpenSimplex(
                    GeneratorNode { image: *final(r->0), ..node },
                ),
                NoiseNode::Perlin(node) => r is Some && *r->0 == node.image && *final(self) == NoiseNode::Perlin(
                    GeneratorNode { image: *final(r->0), ..node },
                ),
                NoiseNode::PerlinSurflet(node) => r is Some && *r->0 == node.image && *final(self) == NoiseNode::PerlinSurflet(
                    GeneratorNode { image: *final(r->0), ..node },
                ),
                NoiseNode::Power(node) => r is Some && *r->0 == node.image && *final(self) == NoiseNode::Power(
                    CombinerNode { image: *final(r->0), ..node },
                ),
                NoiseNode::RigidMulti(node) => r is Some && *r->0 == node.image && *final(self) == NoiseNode::RigidMulti(
                    RigidFractalNode { image: *final(r->0), ..node },
                ),
                NoiseNode::RotatePoint(node) => r is Some && *r->0 == node.image && *final(self) == NoiseNode::RotatePoint(
                    TransformNode { image: *final(r->0), ..node },
                ),
                NoiseNode::ScaleBias(node) => r is Some && *r->0 == node.image && *final(self) == NoiseNode::ScaleBias(
                    ScaleBiasNode { image: *final(r->0), ..node },
                ),
                NoiseNode::ScalePoint(node) => r is Some && *r->0 == node.image && *final(self) == NoiseNode::ScalePoint(
                    TransformNode { image: *final(r->0), ..node },
                ),
                NoiseNode::Select(node) => r is Some && *r->0 == node.image && *final(self) == NoiseNode::Select(
                    SelectNode { image: *final(r->0), ..node },
                ),
                NoiseNode::Simplex(node) => r is Some && *r->0 == node.image && *final(self) == NoiseNode::Simplex(
                    GeneratorNode { image: *final(r->0), ..node },
                ),
                NoiseNode::SuperSimplex(node) => r is Some && *r->0 == node.image && *final(self) == NoiseNode::SuperSimplex(
                    GeneratorNode { image: *final(r->0), ..node },
                ),
                NoiseNode::Terrace(node) => r is Some && *r->0 == node.image && *final(self) == NoiseNode::Terrace(
                    TerraceNode { image: *final(r->0), ..node },
                ),
                NoiseNode::TranslatePoint(node) => r is Some && *r->0 == node.image && *final(self) == NoiseNode::TranslatePoint(
                    TransformNode { image: *final(r->0), ..node },
                ),
                NoiseNode::Turbulence(node) => r is Some && *r->0 == node.image && *final(self) == NoiseNode::Turbulence(
                    TurbulenceNode { image: *final(r->0), ..node },
                ),
                NoiseNode::Value(node) => r is Some && *r->0 == node.image && *final(self) == NoiseNode::Value(
                    GeneratorNode { image: *final(r->0), ..node },
                ),
                NoiseNode::Worley(node) => r is Some && *r->0 == node.image && *final(self) == NoiseNode::Worley(
                    WorleyNode { image: *final(r->0), ..node },
                ),
                _ => r is None && *final(self) == *old(self),
            },
    {
        match self {
            NoiseNode::Abs(node) => Some(&mut node.image),
            NoiseNode::Add(node) => Some(&mut node.image),
            NoiseNode::BasicMulti(node) => Some(&mut node.image),
            NoiseNode::Billow(node) => Some(&mut node.image),
            NoiseNode::Blend(node) => Some(&mut node.image),
            NoiseNode::Checkerboard(node) => Some(&mut node.image),
            NoiseNode::Clamp(node) => Some(&mut node.image),
            NoiseNode::Curve(node) => Some(&mut node.image),
            NoiseNode::Cylinders(node) => Some(&mut node.image),
            NoiseNode::Displace(node) => Some(&mut node.image),
            NoiseNode::Exponent(node) => Some(&mut node.image),
            NoiseNode::Fbm(node) => Some(&mut node.image),
            NoiseNode::HybridMulti(node) => Some(&mut node.image),
            NoiseNode::Max(node) => Some(&mut node.image),
            NoiseNode::Min(node) => Some(&mut node.image),
            NoiseNode::Multiply(node) => Some(&mut node.image),
            NoiseNode::Negate(node) => Some(&mut node.image),
            NoiseNode::OpenSimplex(node) => Some(&mut node.image),
            NoiseNode::Perlin(node) => Some(&mut node.image),
            NoiseNode::PerlinSurflet(node) => Some(&mut node.image),
            NoiseNode::Power(node) => Some(&mut node.image),
            NoiseNode::RigidMulti(node) => Some(&mut node.image),
            NoiseNode::RotatePoint(node) => Some(&mut node.image),
            NoiseNode::ScaleBias(node) => Some(&mut node.image),
            NoiseNode::ScalePoint(node) => Some(&mut node.image),
            NoiseNode::Select(node) => Some(&mut node.image),
            NoiseNode::Simplex(node) => Some(&mut node.image),
            NoiseNode::SuperSimplex(node) => Some(&mut node.image),
            NoiseNode::Terrace(node) => Some(&mut node.image),
            NoiseNode::TranslatePoint(node) => Some(&mut node.image),
            NoiseNode::Turbulence(node) => Some(&mut node.image),
            NoiseNode::Value(node) => Some(&mut node.image),
            NoiseNode::Worley(node) => Some(&mut node.image),
            NoiseNode::ControlPoint(_) | NoiseNode::F64(_) | NoiseNode::F64Operation(_) | NoiseNode::Operation(_) | NoiseNode::U32(_) | NoiseNode::U32Operation(_) => None,
        }
    }
}

} // verus!
