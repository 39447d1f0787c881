use vstd::prelude::*;

use noise::{BasicMulti, Cylinders, Perlin, RidgedMulti, Turbulence, Worley};

use crate::expr::{DistanceFunction, ReturnType, SourceType};
use crate::node::{
    BlendNode, CheckerboardNode, ClampNode, CombinerNode, ControlPointNode, CurveNode,
    CylindersNode, DisplaceNode, ExponentNode, FractalNode, GeneratorNode, Image,
    RigidFractalNode, ScaleBiasNode, SelectNode, TerraceNode, TransformNode, TurbulenceNode,
    UnaryNode, WorleyNode,
};
use crate::value::{ConstantNode, F64Bits, NodeValue, ONE_BITS, ZERO_BITS};

verus! {

/// The bit pattern of `4.0`, the initial scale of a preview image.
pub const PREVIEW_SCALE_BITS: u64 = 0x4010_0000_0000_0000;

/// Relies on the `DEFAULT_*` constants of `noise::BasicMulti`: seed 0,
/// 6 octaves, frequency 2.0, lacunarity 2π/3, persistence 0.5.
#[verifier::external_body]
fn basic_multi_defaults() -> (r: (u32, u32, F64Bits, F64Bits, F64Bits))
    ensures
        r == (0u32, 6u32, F64Bits(0x4000_0000_0000_0000), F64Bits(0x4000_C152_382D_7365), F64Bits(
            0x3FE0_0000_0000_0000,
        )),
{
    (
        BasicMulti::<Perlin>::DEFAULT_SEED,
        BasicMulti::<Perlin>::DEFAULT_OCTAVES as u32,
        F64Bits(BasicMulti::<Perlin>::DEFAULT_FREQUENCY.to_bits()),
        F64Bits(BasicMulti::<Perlin>::DEFAULT_LACUNARITY.to_bits()),
        F64Bits(BasicMulti::<Perlin>::DEFAULT_PERSISTENCE.to_bits()),
    )
}

/// Relies on the `DEFAULT_*` constants of `noise::RidgedMulti`: seed 0,
/// 6 octaves, frequency 1.0, lacunarity 2π/3, persistence 1.0, attenuation 2.0.
#[verifier::external_body]
fn ridged_multi_defaults() -> (r: (u32, u32, F64Bits, F64Bits, F64Bits, F64Bits))
    ensures
        r == (0u32, 6u32, F64Bits(ONE_BITS), F64Bits(0x4000_C152_382D_7365), F64Bits(ONE_BITS), F64Bits(
            0x4000_0000_0000_0000,
        )),
{
    (
        RidgedMulti::<Perlin>::DEFAULT_SEED,
        RidgedMulti::<Perlin>::DEFAULT_OCTAVE_COUNT as u32,
        F64Bits(RidgedMulti::<Perlin>::DEFAULT_FREQUENCY.to_bits()),
        F64Bits(RidgedMulti::<Perlin>::DEFAULT_LACUNARITY.to_bits()),
        F64Bits(RidgedMulti::<Perlin>::DEFAULT_PERSISTENCE.to_bits()),
        F64Bits(RidgedMulti::<Perlin>::DEFAULT_ATTENUATION.to_bits()),
    )
}

/// Relies on the `DEFAULT_*` constants of `noise::Turbulence`: seed 0,
/// frequency 1.0, power 1.0, roughness 3.
#[verifier::external_body]
fn turbulence_defaults() -> (r: (u32, F64Bits, F64Bits, u32))
    ensures
        r == (0u32, F64Bits(ONE_BITS), F64Bits(ONE_BITS), 3u32),
{
    (
        Turbulence::<Perlin, Perlin>::DEFAULT_SEED,
        F64Bits(Turbulence::<Perlin, Perlin>::DEFAULT_FREQUENCY.to_bits()),
        F64Bits(Turbulence::<Perlin, Perlin>::DEFAULT_POWER.to_bits()),
        Turbulence::<Perlin, Perlin>::DEFAULT_ROUGHNESS as u32,
    )
}

/// Relies on the `DEFAULT_*` constants of `noise::Worley`: seed 0, frequency 1.0.
#[verifier::external_body]
fn worley_defaults() -> (r: (u32, F64Bits))
    ensures
        r == (0u32, F64Bits(ONE_BITS)),
{
    (Worley::DEFAULT_SEED, F64Bits(Worley::DEFAULT_FREQUENCY.to_bits()))
}

/// Relies on `noise::Cylinders::DEFAULT_FREQUENCY`, which is 1.0.
#[verifier::external_body]
fn cylinders_default_frequency() -> (r: F64Bits)
    ensures
        r == F64Bits(ONE_BITS),
{
    F64Bits(Cylinders::DEFAULT_FREQUENCY.to_bits())
}

/// A fresh preview image: scale 4.0, centred on the origin, no texture yet.
pub open spec fn fresh_image() -> Image {
    Image {
        scale: F64Bits(PREVIEW_SCALE_BITS),
        texture: None,
        version: 0,
        x: F64Bits(ZERO_BITS),
        y: F64Bits(ZERO_BITS),
    }
}

impl Default for Image {
    fn default() -> (r: Self)
        ensures
            r == fresh_image(),
    {
        Image {
            scale: F64Bits(PREVIEW_SCALE_BITS),
            texture: None,
            version: 0,
            x: F64Bits(ZERO_BITS),
            y: F64Bits(ZERO_BITS),
        }
    }
}

impl Default for SourceType {
    fn default() -> (r: Self)
        ensures
            r == SourceType::Perlin,
    {
        SourceType::Perlin
    }
}

impl<T: Default> Default for NodeValue<T> {
    fn default() -> (r: Self)
        ensures
            r is Value,
    {
        NodeValue::Value(T::default())
    }
}

impl<T: Default> Default for ConstantNode<T> {
    fn default() -> (r: Self)
        ensures
            r.name@ == "name"@,
    {
        ConstantNode { name: "name".to_owned(), value: T::default() }
    }
}

impl Default for CheckerboardNode {
    fn default() -> (r: Self)
        ensures
            r.image == fresh_image(),
            r.size == NodeValue::<u32>::Value(0),
    {
        CheckerboardNode { image: Image::default(), size: NodeValue::Value(0) }
    }
}

impl Default for CylindersNode {
    fn default() -> (r: Self)
        ensures
            r.image == fresh_image(),
            r.frequency == NodeValue::Value(F64Bits(ONE_BITS)),
    {
        CylindersNode {
            image: Image::default(),
            frequency: NodeValue::Value(cylinders_default_frequency()),
        }
    }
}

impl Default for ExponentNode {
    fn default() -> (r: Self)
        ensures
            r.image == fresh_image(),
            r.input_node_idx is None,
            r.exponent == NodeValue::Value(F64Bits(ONE_BITS)),
    {
        ExponentNode {
            image: Image::default(),
            input_node_idx: None,
            exponent: NodeValue::Value(F64Bits(ONE_BITS)),
        }
    }
}

impl Default for FractalNode {
    fn default() -> (r: Self)
        ensures
            r.image == fresh_image(),
            r.source_ty == SourceType::Perlin,
            r.seed == NodeValue::<u32>::Value(0),
            r.octaves == NodeValue::<u32>::Value(6),
            r.frequency == NodeValue::Value(F64Bits(0x4000_0000_0000_0000)),
            r.lacunarity == NodeValue::Value(F64Bits(0x4000_C152_382D_7365)),
            r.persistence == NodeValue::Value(F64Bits(0x3FE0_0000_0000_0000)),
    {
        let (seed, octaves, frequency, lacunarity, persistence) = basic_multi_defaults();
        FractalNode {
            image: Image::default(),
            source_ty: SourceType::default(),
            seed: NodeValue::Value(seed),
            octaves: NodeValue::Value(octaves),
            frequency: NodeValue::Value(frequency),
            lacunarity: NodeValue::Value(lacunarity),
            persistence: NodeValue::Value(persistence),
        }
    }
}

impl Default for RigidFractalNode {
    fn default() -> (r: Self)
        ensures
            r.image == fresh_image(),
            r.source_ty == SourceType::Perlin,
            r.seed == NodeValue::<u32>::Value(0),
            r.octaves == NodeValue::<u32>::Value(6),
            r.frequency == NodeValue::Value(F64Bits(ONE_BITS)),
            r.lacunarity == NodeValue::Value(F64Bits(0x4000_C152_382D_7365)),
            r.persistence == NodeValue::Value(F64Bits(ONE_BITS)),
            r.attenuation == NodeValue::Value(F64Bits(0x4000_0000_0000_0000)),
    {
        let (seed, octaves, frequency, lacunarity, persistence, attenuation) =
            ridged_multi_defaults();
        RigidFractalNode {
            image: Image::default(),
            source_ty: SourceType::default(),
            seed: NodeValue::Value(seed),
            octaves: NodeValue::Value(octaves),
            frequency: NodeValue::Value(frequency),
            lacunarity: NodeValue::Value(lacunarity),
            persistence: NodeValue::Value(persistence),
            attenuation: NodeValue::Value(attenuation),
        }
    }
}

impl Default for SelectNode {
    fn default() -> (r: Self)
        ensures
            r.image == fresh_image(),
            r.input_node_indices[0] is None,
            r.input_node_indices[1] is None,
            r.control_node_idx is None,
            r.lower_bound == NodeValue::Value(F64Bits(ZERO_BITS)),
            r.upper_bound == NodeValue::Value(F64Bits(ONE_BITS)),
            r.falloff == NodeValue::Value(F64Bits(ZERO_BITS)),
    {
        SelectNode {
            image: Image::default(),
            input_node_indices: [None, None],
            control_node_idx: None,
            lower_bound: NodeValue::Value(F64Bits(ZERO_BITS)),
            upper_bound: NodeValue::Value(F64Bits(ONE_BITS)),
            falloff: NodeValue::Value(F64Bits(ZERO_BITS)),
        }
    }
}

impl Default for TurbulenceNode {
    fn default() -> (r: Self)
        ensures
            r.image == fresh_image(),
            r.input_node_idx is None,
            r.source_ty == SourceType::Perlin,
            r.seed == NodeValue::<u32>::Value(0),
            r.frequency == NodeValue::Value(F64Bits(ONE_BITS)),
            r.power == NodeValue::Value(F64Bits(ONE_BITS)),
            r.roughness == NodeValue::<u32>::Value(3),
    {
        let (seed, frequency, power, roughness) = turbulence_defaults();
        TurbulenceNode {
            image: Image::default(),
            input_node_idx: None,
            source_ty: SourceType::default(),
            seed: NodeValue::Value(seed),
            frequency: NodeValue::Value(frequency),
            power: NodeValue::Value(power),
            roughness: NodeValue::Value(roughness),
        }
    }
}

impl Default for WorleyNode {
    fn default() -> (r: Self)
        ensures
            r.image == fresh_image(),
            r.seed == NodeValue::<u32>::Value(0),
            r.frequency == NodeValue::Value(F64Bits(ONE_BITS)),
            r.distance_fn == DistanceFunction::Euclidean,
            r.return_ty == ReturnType::Value,
    {
        let (seed, frequency) = worley_defaults();
        WorleyNode {
            image: Image::default(),
            seed: NodeValue::Value(seed),
            frequency: NodeValue::Value(frequency),
            distance_fn: DistanceFunction::Euclidean,
            return_ty: ReturnType::Value,
        }
    }
}

impl Default for BlendNode {
    fn default() -> (r: Self)
        ensures
            r.image == fresh_image(),
            r.input_node_indices[0] is None,
            r.input_node_indices[1] is None,
            r.control_node_idx is None,
    {
        BlendNode { image: Image::default(), input_node_indices: [None, None], control_node_idx: None }
    }
}

impl Default for ClampNode {
    fn default() -> (r: Self)
        ensures
            r.image == fresh_image(),
            r.input_node_idx is None,
            r.lower_bound == NodeValue::Value(F64Bits(ZERO_BITS)),
            r.upper_bound == NodeValue::Value(F64Bits(ZERO_BITS)),
    {
        ClampNode {
            image: Image::default(),
            input_node_idx: None,
            lower_bound: NodeValue::Value(F64Bits(ZERO_BITS)),
            upper_bound: NodeValue::Value(F64Bits(ZERO_BITS)),
        }
    }
}

impl Default for CombinerNode {
    fn default() -> (r: Self)
        ensures
            r.image == fresh_image(),
            r.input_node_indices[0] is None,
            r.input_node_indices[1] is None,
    {
        CombinerNode { image: Image::default(), input_node_indices: [None, None] }
    }
}

impl Default for ControlPointNode {
    fn default() -> (r: Self)
        ensures
            r.input == NodeValue::Value(F64Bits(ZERO_BITS)),
            r.output == NodeValue::Value(F64Bits(ZERO_BITS)),
    {
        ControlPointNode { input: NodeValue::Value(F64Bits(ZERO_BITS)), output: NodeValue::Value(F64Bits(ZERO_BITS)) }
    }
}

impl Default for CurveNode {
    fn default() -> (r: Self)
        ensures
            r.image == fresh_image(),
            r.input_node_idx is None,
            r.control_point_node_indices@ == Seq::<Option<usize>>::empty(),
    {
        CurveNode { image: Image::default(), input_node_idx: None, control_point_node_indices: Vec::new() }
    }
}

impl Default for DisplaceNode {
    fn default() -> (r: Self)
        ensures
            r.image == fresh_image(),
            r.input_node_idx is None,
            forall|i: int| 0 <= i < 4 ==> r.axes[i] is None,
    {
        DisplaceNode { image: Image::default(), input_node_idx: None, axes: [None, None, None, None] }
    }
}

impl Default for GeneratorNode {
    fn default() -> (r: Self)
        ensures
            r.image == fresh_image(),
            r.seed == NodeValue::<u32>::Value(0),
    {
        GeneratorNode { image: Image::default(), seed: NodeValue::Value(0) }
    }
}

impl Default for ScaleBiasNode {
    fn default() -> (r: Self)
        ensures
            r.image == fresh_image(),
            r.input_node_idx is None,
            r.scale == NodeValue::Value(F64Bits(ZERO_BITS)),
            r.bias == NodeValue::Value(F64Bits(ZERO_BITS)),
    {
        ScaleBiasNode { image: Image::default(), input_node_idx: None, scale: NodeValue::Value(F64Bits(ZERO_BITS)), bias: NodeValue::Value(F64Bits(ZERO_BITS)) }
    }
}

impl Default for TerraceNode {
    fn default() -> (r: Self)
        ensures
            r.image == fresh_image(),
            r.input_node_idx is None,
            !r.inverted,
            r.control_point_node_indices@ == Seq::<Option<usize>>::empty(),
    {
        TerraceNode {
            image: Image::default(),
            input_node_idx: None,
            inverted: false,
            control_point_node_indices: Vec::new(),
        }
    }
}

impl Default for UnaryNode {
    fn default() -> (r: Self)
        ensures
            r.image == fresh_image(),
            r.input_node_idx is None,
    {
        UnaryNode { image: Image::default(), input_node_idx: None }
    }
}

impl TransformNode {
    /// A transform with no source whose four axes all hold `value`.
    fn new(value: F64Bits) -> (r: Self)
        ensures
            r.image == fresh_image(),
            r.input_node_idx is None,
            forall|i: int| 0 <= i < 4 ==> r.axes[i] == NodeValue::Value(value),
    {
        TransformNode {
            image: Image::default(),
            input_node_idx: None,
            axes: [
                NodeValue::Value(value),
                NodeValue::Value(value),
                NodeValue::Value(value),
                NodeValue::Value(value),
            ],
        }
    }

    /// A transform whose axes are all 1.0 (the identity scale).
    pub fn one() -> (r: Self)
        ensures
            r.image == fresh_image(),
            r.input_node_idx is None,
            forall|i: int| 0 <= i < 4 ==> r.axes[i] == NodeValue::Value(F64Bits(ONE_BITS)),
    {
        Self::new(F64Bits(ONE_BITS))
    }

    /// A transform whose axes are all 0.0 (no rotation or translation).
    pub fn zero() -> (r: Self)
        ensures
            r.image == fresh_image(),
            r.input_node_idx is None,
            forall|i: int| 0 <= i < 4 ==> r.axes[i] == NodeValue::Value(F64Bits(ZERO_BITS)),
    {
        Self::new(F64Bits(ZERO_BITS))
    }
}

} // verus!
