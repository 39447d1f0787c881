use vstd::prelude::*;

use crate::value::{F64Bits, OpType};

verus! {

/// A resolved scalar parameter of an expression tree.
#[derive(Debug, PartialEq)]
pub enum Variable<T> {
    /// A literal typed directly into a slot.
    Anonymous(T),
    /// The value of a named constant node, with the user-given name.
    Named(String, T),
    /// An arithmetic sub-expression on two resolved operands.
    Operation(Box<Variable<T>>, Box<Variable<T>>, OpType),
}

/// The basic noise function a fractal is built from.
#[derive(Clone, Copy, Debug, PartialEq, Eq, Structural)]
pub enum SourceType {
    OpenSimplex,
    Perlin,
    PerlinSurflet,
    Simplex,
    SuperSimplex,
    Value,
    Worley,
}

/// The distance metric of Worley noise.
#[derive(Clone, Copy, Debug, PartialEq, Eq, Structural)]
pub enum DistanceFunction {
    Chebyshev,
    Euclidean,
    EuclideanSquared,
    Manhattan,
}

/// What Worley noise reports for a sample point.
#[derive(Clone, Copy, Debug, PartialEq, Eq, Structural)]
pub enum ReturnType {
    Distance,
    Value,
}

#[derive(Debug, PartialEq)]
pub struct BlendExpr {
    pub sources: (Box<Expr>, Box<Expr>),
    pub control: Box<Expr>,
}

#[derive(Debug, PartialEq)]
pub struct ClampExpr {
    pub source: Box<Expr>,
    pub lower_bound: Variable<F64Bits>,
    pub upper_bound: Variable<F64Bits>,
}

#[derive(Debug, PartialEq)]
pub struct ControlPointExpr {
    pub input_value: Variable<F64Bits>,
    pub output_value: Variable<F64Bits>,
}

#[derive(Debug, PartialEq)]
pub struct CurveExpr {
    pub source: Box<Expr>,
    pub control_points: Vec<ControlPointExpr>,
}

#[derive(Debug, PartialEq)]
pub struct DisplaceExpr {
    pub source: Box<Expr>,
    pub axes: (Box<Expr>, Box<Expr>, Box<Expr>, Box<Expr>),
}

#[derive(Debug, PartialEq)]
pub struct ExponentExpr {
    pub source: Box<Expr>,
    pub exponent: Variable<F64Bits>,
}

#[derive(Debug, PartialEq)]
pub struct FractalExpr {
    pub source_ty: SourceType,
    pub seed: Variable<u32>,
    pub octaves: Variable<u32>,
    pub frequency: Variable<F64Bits>,
    pub lacunarity: Variable<F64Bits>,
    pub persistence: Variable<F64Bits>,
}

#[derive(Debug, PartialEq)]
pub struct RigidFractalExpr {
    pub source_ty: SourceType,
    pub seed: Variable<u32>,
    pub octaves: Variable<u32>,
    pub frequency: Variable<F64Bits>,
    pub lacunarity: Variable<F64Bits>,
    pub persistence: Variable<F64Bits>,
    pub attenuation: Variable<F64Bits>,
}

#[derive(Debug, PartialEq)]
pub struct ScaleBiasExpr {
    pub source: Box<Expr>,
    pub scale: Variable<F64Bits>,
    pub bias: Variable<F64Bits>,
}

#[derive(Debug, PartialEq)]
pub struct SelectExpr {
    pub sources: (Box<Expr>, Box<Expr>),
    pub control: Box<Expr>,
    pub lower_bound: Variable<F64Bits>,
    pub upper_bound: Variable<F64Bits>,
    pub falloff: Variable<F64Bits>,
}

#[derive(Debug, PartialEq)]
pub struct TerraceExpr {
    pub source: Box<Expr>,
    pub inverted: bool,
    pub control_points: Vec<Variable<F64Bits>>,
}

#[derive(Debug, PartialEq)]
pub struct TransformExpr {
    pub source: Box<Expr>,
    pub axes: [Variable<F64Bits>; 4],
}

#[derive(Debug, PartialEq)]
pub struct TurbulenceExpr {
    pub source: Box<Expr>,
    pub source_ty: SourceType,
    pub seed: Variable<u32>,
    pub frequency: Variable<F64Bits>,
    pub power: Variable<F64Bits>,
    pub roughness: Variable<u32>,
}

#[derive(Debug, PartialEq)]
pub struct WorleyExpr {
    pub seed: Variable<u32>,
    pub frequency: Variable<F64Bits>,
    pub distance_fn: DistanceFunction,
    pub return_ty: ReturnType,
}

/// An immutable expression tree, ready for numeric noise evaluation.
#[derive(Debug, PartialEq)]
pub enum Expr {
    Abs(Box<Expr>),
    Add(Box<Expr>, Box<Expr>),
    BasicMulti(FractalExpr),
    Billow(FractalExpr),
    Blend(BlendExpr),
    Checkerboard(Variable<u32>),
    Clamp(ClampExpr),
    Constant(Variable<F64Bits>),
    Curve(CurveExpr),
    Cylinders(Variable<F64Bits>),
    Displace(DisplaceExpr),
    Exponent(ExponentExpr),
    Fbm(FractalExpr),
    HybridMulti(FractalExpr),
    Max(Box<Expr>, Box<Expr>),
    Min(Box<Expr>, Box<Expr>),
    Multiply(Box<Expr>, Box<Expr>),
    Negate(Box<Expr>),
    OpenSimplex(Variable<u32>),
    Perlin(Variable<u32>),
    PerlinSurflet(Variable<u32>),
    Power(Box<Expr>, Box<Expr>),
    RidgedMulti(RigidFractalExpr),
    RotatePoint(TransformExpr),
    ScaleBias(ScaleBiasExpr),
    ScalePoint(TransformExpr),
    Select(SelectExpr),
    Simplex(Variable<u32>),
    SuperSimplex(Variable<u32>),
    Terrace(TerraceExpr),
    TranslatePoint(TransformExpr),
    Turbulence(TurbulenceExpr),
    Value(Variable<u32>),
    Worley(WorleyExpr),
}

} // verus!
