use vstd::prelude::*;

verus! {

/// A 64-bit IEEE-754 floating-point number, carried as its bit pattern.
///
/// The graph logic never computes on these values: it copies them from node
/// parameters into compiled expression trees, and the numeric evaluator
/// outside the library turns them back into floats.
#[derive(Clone, Copy, Debug, Default, PartialEq, Eq, Structural)]
pub struct F64Bits(pub u64);

/// The bit pattern of `0.0`.
pub const ZERO_BITS: u64 = 0;

/// The bit pattern of `1.0`.
pub const ONE_BITS: u64 = 0x3FF0_0000_0000_0000;

/// The arithmetic operator of an operation node.
#[derive(Clone, Copy, Debug, PartialEq, Eq, Structural)]
pub enum OpType {
    Add,
    Divide,
    Multiply,
    Subtract,
}

/// A parameter slot: a literal value, or the index of the node whose output
/// supplies the value.
#[derive(Clone, Copy, Debug, PartialEq)]
pub enum NodeValue<T> {
    Node(usize),
    Value(T),
}

impl<T> NodeValue<T> {
    /// The referenced node's index, if this slot holds a reference.
    pub fn as_node_index(&self) -> (r: Option<usize>)
        ensures
            r == (match *self {
                NodeValue::Node(i) => Some(i),
                NodeValue::Value(_) => None::<usize>,
            }),
    {
        if let NodeValue::Node(node_idx) = self {
            Some(*node_idx)
        } else {
            None
        }
    }

    /// Mutable access to the literal, if this slot holds a literal.
    pub fn as_value_mut(&mut self) -> (r: Option<&mut T>)
        ensures
            (*old(self) is Value) == (r is Some),
            r is Some ==> *r->0 == old(self)->Value_0 && *final(self) == NodeValue::<T>::Value(
                *final(r->0),
            ),
            r is None ==> *final(self) == *old(self),
    {
        if let NodeValue::Value(value) = self {
            Some(value)
        } else {
            None
        }
    }

    /// Whether this slot holds a reference to another node.
    pub fn is_node_idx(&self) -> (r: bool)
        ensures
            r == (*self is Node),
    {
        self.as_node_index().is_some()
    }
}

/// A named literal of type `T`.
#[derive(Clone)]
pub struct ConstantNode<T> {
    pub name: String,
    pub value: T,
}

/// An arithmetic operation on two slots of type `T`.
///
/// `T` is `()` while the operation's numeric type is unresolved, and
/// `F64Bits` or `u32` once it is fixed.
#[derive(Clone, Copy)]
pub struct ConstantOpNode<T> {
    pub inputs: [NodeValue<T>; 2],
    pub op_ty: OpType,
}

impl<T: Copy> ConstantOpNode<T> {
    /// An operation whose two inputs are both the literal `value`.
    pub fn new(op_ty: OpType, value: T) -> (r: Self)
        ensures
            r.op_ty == op_ty,
            r.inputs[0] == NodeValue::<T>::Value(value),
            r.inputs[1] == NodeValue::<T>::Value(value),
    {
        ConstantOpNode { inputs: [NodeValue::Value(value), NodeValue::Value(value)], op_ty }
    }
}

} // verus!
