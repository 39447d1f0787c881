//! A node graph of procedural-noise primitives: its node model, the compiler
//! from graph to expression tree, the scalar evaluator for u32 arithmetic, and
//! the walks that keep polymorphic operation nodes consistently typed.

pub mod compile;
pub mod defaults;
pub mod eval;
pub mod expr;
pub mod graph;
pub mod laws;
pub mod leaves;
pub mod node;
pub mod propagate;
pub mod value;
