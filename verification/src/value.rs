//! What a value is and what shape a type has, apart from any format: the
//! models over which every format states what it writes and reads.

use vstd::prelude::*;

verus! {

/// The twelve integer types.
#[derive(Clone, Copy, Debug, PartialEq, Eq, Structural)]
pub enum Integer {
    I8,
    I16,
    I32,
    I64,
    I128,
    Isize,
    U8,
    U16,
    U32,
    U64,
    U128,
    Usize,
}

impl Integer {
    /// The smallest value of the type.
    pub open spec fn min(self) -> int {
        match self {
            Integer::I8 => i8::MIN as int,
            Integer::I16 => i16::MIN as int,
            Integer::I32 => i32::MIN as int,
            Integer::I64 => i64::MIN as int,
            Integer::I128 => i128::MIN as int,
            Integer::Isize => isize::MIN as int,
            _ => 0,
        }
    }

    /// The largest value of the type.
    pub open spec fn max(self) -> int {
        match self {
            Integer::I8 => i8::MAX as int,
            Integer::I16 => i16::MAX as int,
            Integer::I32 => i32::MAX as int,
            Integer::I64 => i64::MAX as int,
            Integer::I128 => i128::MAX as int,
            Integer::Isize => isize::MAX as int,
            Integer::U8 => u8::MAX as int,
            Integer::U16 => u16::MAX as int,
            Integer::U32 => u32::MAX as int,
            Integer::U64 => u64::MAX as int,
            Integer::U128 => u128::MAX as int,
            Integer::Usize => usize::MAX as int,
        }
    }

    /// The name of the type, as errors give it.
    pub open spec fn name(self) -> Seq<char> {
        match self {
            Integer::I8 => "i8"@,
            Integer::I16 => "i16"@,
            Integer::I32 => "i32"@,
            Integer::I64 => "i64"@,
            Integer::I128 => "i128"@,
            Integer::Isize => "isize"@,
            Integer::U8 => "u8"@,
            Integer::U16 => "u16"@,
            Integer::U32 => "u32"@,
            Integer::U64 => "u64"@,
            Integer::U128 => "u128"@,
            Integer::Usize => "usize"@,
        }
    }

    /// Whether the type has negative values.
    pub open spec fn signed(self) -> bool {
        self.min() < 0
    }

    /// The largest value of the type.
    pub fn highest(self) -> (r: u128)
        ensures
            r == self.max(),
    {
        match self {
            Integer::I8 => i8::MAX as u128,
            Integer::I16 => i16::MAX as u128,
            Integer::I32 => i32::MAX as u128,
            Integer::I64 => i64::MAX as u128,
            Integer::I128 => i128::MAX as u128,
            Integer::Isize => isize::MAX as u128,
            Integer::U8 => u8::MAX as u128,
            Integer::U16 => u16::MAX as u128,
            Integer::U32 => u32::MAX as u128,
            Integer::U64 => u64::MAX as u128,
            Integer::U128 => u128::MAX,
            Integer::Usize => usize::MAX as u128,
        }
    }

    /// How far below zero the smallest value of the type lies.
    pub fn lowest(self) -> (r: u128)
        ensures
            r == -self.min(),
    {
        match self {
            Integer::I8 => i8::MAX as u128 + 1,
            Integer::I16 => i16::MAX as u128 + 1,
            Integer::I32 => i32::MAX as u128 + 1,
            Integer::I64 => i64::MAX as u128 + 1,
            Integer::I128 => i128::MAX as u128 + 1,
            Integer::Isize => isize::MAX as u128 + 1,
            _ => 0,
        }
    }

    /// The name of the type, as errors give it.
    pub fn label(self) -> (r: &'static str)
        ensures
            r@ == self.name(),
    {
        match self {
            Integer::I8 => "i8",
            Integer::I16 => "i16",
            Integer::I32 => "i32",
            Integer::I64 => "i64",
            Integer::I128 => "i128",
            Integer::Isize => "isize",
            Integer::U8 => "u8",
            Integer::U16 => "u16",
            Integer::U32 => "u32",
            Integer::U64 => "u64",
            Integer::U128 => "u128",
            Integer::Usize => "usize",
        }
    }
}

/// A value of the supported universe.
pub enum Value {
    Unit,
    Bool(bool),
    Int(int),
    Char(char),
    Text(Seq<char>),
    Tuple(Seq<Value>),
}

/// A type of the supported universe.
pub enum Shape {
    Unit,
    Bool,
    Int(Integer),
    Char,
    Text,
    Tuple(Seq<Shape>),
}

impl Shape {
    /// Whether the shape is that of a tuple.
    pub open spec fn nests(self) -> bool {
        self is Tuple
    }
}

/// Whether `value` is a value of the type that `shape` stands for.
pub open spec fn inhabits(value: Value, shape: Shape) -> bool
    decreases shape,
{
    match (shape, value) {
        (Shape::Unit, Value::Unit) => true,
        (Shape::Bool, Value::Bool(_)) => true,
        (Shape::Int(kind), Value::Int(i)) => kind.min() <= i <= kind.max(),
        (Shape::Char, Value::Char(_)) => true,
        (Shape::Text, Value::Text(_)) => true,
        (Shape::Tuple(shapes), Value::Tuple(values)) => {
            &&& shapes.len() == values.len()
            &&& forall|i: int|
                0 <= i < shapes.len() ==> inhabits(#[trigger] values[i], shapes[i])
        },
        _ => false,
    }
}

/// A type whose values have a model: what shape the type has, and which
/// value of the universe each of its values stands for.
pub trait Shaped {
    /// The shape of the type.
    spec fn shape() -> Shape;

    /// The value that `self` stands for.
    spec fn value(&self) -> Value;
}

impl Shaped for () {
    open spec fn shape() -> Shape {
        Shape::Unit
    }

    open spec fn value(&self) -> Value {
        Value::Unit
    }
}

impl Shaped for bool {
    open spec fn shape() -> Shape {
        Shape::Bool
    }

    open spec fn value(&self) -> Value {
        Value::Bool(*self)
    }
}

impl Shaped for char {
    open spec fn shape() -> Shape {
        Shape::Char
    }

    open spec fn value(&self) -> Value {
        Value::Char(*self)
    }
}

impl Shaped for String {
    open spec fn shape() -> Shape {
        Shape::Text
    }

    open spec fn value(&self) -> Value {
        Value::Text(self@)
    }
}

impl Shaped for str {
    open spec fn shape() -> Shape {
        Shape::Text
    }

    open spec fn value(&self) -> Value {
        Value::Text(self@)
    }
}

impl Shaped for i8 {
    open spec fn shape() -> Shape {
        Shape::Int(Integer::I8)
    }

    open spec fn value(&self) -> Value {
        Value::Int(*self as int)
    }
}

impl Shaped for i16 {
    open spec fn shape() -> Shape {
        Shape::Int(Integer::I16)
    }

    open spec fn value(&self) -> Value {
        Value::Int(*self as int)
    }
}

impl Shaped for i32 {
    open spec fn shape() -> Shape {
        Shape::Int(Integer::I32)
    }

    open spec fn value(&self) -> Value {
        Value::Int(*self as int)
    }
}

impl Shaped for i64 {
    open spec fn shape() -> Shape {
        Shape::Int(Integer::I64)
    }

    open spec fn value(&self) -> Value {
        Value::Int(*self as int)
    }
}

impl Shaped for i128 {
    open spec fn shape() -> Shape {
        Shape::Int(Integer::I128)
    }

    open spec fn value(&self) -> Value {
        Value::Int(*self as int)
    }
}

impl Shaped for isize {
    open spec fn shape() -> Shape {
        Shape::Int(Integer::Isize)
    }

    open spec fn value(&self) -> Value {
        Value::Int(*self as int)
    }
}

impl Shaped for u8 {
    open spec fn shape() -> Shape {
        Shape::Int(Integer::U8)
    }

    open spec fn value(&self) -> Value {
        Value::Int(*self as int)
    }
}

impl Shaped for u16 {
    open spec fn shape() -> Shape {
        Shape::Int(Integer::U16)
    }

    open spec fn value(&self) -> Value {
        Value::Int(*self as int)
    }
}

impl Shaped for u32 {
    open spec fn shape() -> Shape {
        Shape::Int(Integer::U32)
    }

    open spec fn value(&self) -> Value {
        Value::Int(*self as int)
    }
}

impl Shaped for u64 {
    open spec fn shape() -> Shape {
        Shape::Int(Integer::U64)
    }

    open spec fn value(&self) -> Value {
        Value::Int(*self as int)
    }
}

impl Shaped for u128 {
    open spec fn shape() -> Shape {
        Shape::Int(Integer::U128)
    }

    open spec fn value(&self) -> Value {
        Value::Int(*self as int)
    }
}

impl Shaped for usize {
    open spec fn shape() -> Shape {
        Shape::Int(Integer::Usize)
    }

    open spec fn value(&self) -> Value {
        Value::Int(*self as int)
    }
}

impl<A: Shaped> Shaped for (A,) {
    open spec fn shape() -> Shape {
        Shape::Tuple(seq![A::shape()])
    }

    open spec fn value(&self) -> Value {
        Value::Tuple(seq![self.0.value()])
    }
}

impl<A: Shaped, B: Shaped> Shaped for (A, B) {
    open spec fn shape() -> Shape {
        Shape::Tuple(seq![A::shape(), B::shape()])
    }

    open spec fn value(&self) -> Value {
        Value::Tuple(seq![self.0.value(), self.1.value()])
    }
}

impl<A: Shaped, B: Shaped, C: Shaped> Shaped for (A, B, C) {
    open spec fn shape() -> Shape {
        Shape::Tuple(seq![A::shape(), B::shape(), C::shape()])
    }

    open spec fn value(&self) -> Value {
        Value::Tuple(seq![self.0.value(), self.1.value(), self.2.value()])
    }
}

impl<A: Shaped, B: Shaped, C: Shaped, D: Shaped> Shaped for (A, B, C, D) {
    open spec fn shape() -> Shape {
        Shape::Tuple(seq![A::shape(), B::shape(), C::shape(), D::shape()])
    }

    open spec fn value(&self) -> Value {
        Value::Tuple(seq![self.0.value(), self.1.value(), self.2.value(), self.3.value()])
    }
}

impl<A: Shaped, B: Shaped, C: Shaped, D: Shaped, E: Shaped> Shaped for (A, B, C, D, E) {
    open spec fn shape() -> Shape {
        Shape::Tuple(seq![A::shape(), B::shape(), C::shape(), D::shape(), E::shape()])
    }

    open spec fn value(&self) -> Value {
        Value::Tuple(seq![
            self.0.value(),
            self.1.value(),
            self.2.value(),
            self.3.value(),
            self.4.value(),
        ])
    }
}

impl<
    A: Shaped,
    B: Shaped,
    C: Shaped,
    D: Shaped,
    E: Shaped,
    F: Shaped,
> Shaped for (A, B, C, D, E, F) {
    open spec fn shape() -> Shape {
        Shape::Tuple(seq![A::shape(), B::shape(), C::shape(), D::shape(), E::shape(), F::shape()])
    }

    open spec fn value(&self) -> Value {
        Value::Tuple(seq![
            self.0.value(),
            self.1.value(),
            self.2.value(),
            self.3.value(),
            self.4.value(),
            self.5.value(),
        ])
    }
}

impl<
    A: Shaped,
    B: Shaped,
    C: Shaped,
    D: Shaped,
    E: Shaped,
    F: Shaped,
    G: Shaped,
> Shaped for (A, B, C, D, E, F, G) {
    open spec fn shape() -> Shape {
        Shape::Tuple(seq![
            A::shape(),
            B::shape(),
            C::shape(),
            D::shape(),
            E::shape(),
            F::shape(),
            G::shape(),
        ])
    }

    open spec fn value(&self) -> Value {
        Value::Tuple(seq![
            self.0.value(),
            self.1.value(),
            self.2.value(),
            self.3.value(),
            self.4.value(),
            self.5.value(),
            self.6.value(),
        ])
    }
}

impl<
    A: Shaped,
    B: Shaped,
    C: Shaped,
    D: Shaped,
    E: Shaped,
    F: Shaped,
    G: Shaped,
    H: Shaped,
> Shaped for (A, B, C, D, E, F, G, H) {
    open spec fn shape() -> Shape {
        Shape::Tuple(seq![
            A::shape(),
            B::shape(),
            C::shape(),
            D::shape(),
            E::shape(),
            F::shape(),
            G::shape(),
            H::shape(),
        ])
    }

    open spec fn value(&self) -> Value {
        Value::Tuple(seq![
            self.0.value(),
            self.1.value(),
            self.2.value(),
            self.3.value(),
            self.4.value(),
            self.5.value(),
            self.6.value(),
            self.7.value(),
        ])
    }
}

impl<
    A: Shaped,
    B: Shaped,
    C: Shaped,
    D: Shaped,
    E: Shaped,
    F: Shaped,
    G: Shaped,
    H: Shaped,
    I: Shaped,
> Shaped for (A, B, C, D, E, F, G, H, I) {
    open spec fn shape() -> Shape {
        Shape::Tuple(seq![
            A::shape(),
            B::shape(),
            C::shape(),
            D::shape(),
            E::shape(),
            F::shape(),
            G::shape(),
            H::shape(),
            I::shape(),
        ])
    }

    open spec fn value(&self) -> Value {
        Value::Tuple(seq![
            self.0.value(),
            self.1.value(),
            self.2.value(),
            self.3.value(),
            self.4.value(),
            self.5.value(),
            self.6.value(),
            self.7.value(),
            self.8.value(),
        ])
    }
}

impl<
    A: Shaped,
    B: Shaped,
    C: Shaped,
    D: Shaped,
    E: Shaped,
    F: Shaped,
    G: Shaped,
    H: Shaped,
    I: Shaped,
    J: Shaped,
> Shaped for (A, B, C, D, E, F, G, H, I, J) {
    open spec fn shape() -> Shape {
        Shape::Tuple(seq![
            A::shape(),
            B::shape(),
            C::shape(),
            D::shape(),
            E::shape(),
            F::shape(),
            G::shape(),
            H::shape(),
            I::shape(),
            J::shape(),
        ])
    }

    open spec fn value(&self) -> Value {
        Value::Tuple(seq![
            self.0.value(),
            self.1.value(),
            self.2.value(),
            self.3.value(),
            self.4.value(),
            self.5.value(),
            self.6.value(),
            self.7.value(),
            self.8.value(),
            self.9.value(),
        ])
    }
}

impl<
    A: Shaped,
    B: Shaped,
    C: Shaped,
    D: Shaped,
    E: Shaped,
    F: Shaped,
    G: Shaped,
    H: Shaped,
    I: Shaped,
    J: Shaped,
    K: Shaped,
> Shaped for (A, B, C, D, E, F, G, H, I, J, K) {
    open spec fn shape() -> Shape {
        Shape::Tuple(seq![
            A::shape(),
            B::shape(),
            C::shape(),
            D::shape(),
            E::shape(),
            F::shape(),
            G::shape(),
            H::shape(),
            I::shape(),
            J::shape(),
            K::shape(),
        ])
    }

    open spec fn value(&self) -> Value {
        Value::Tuple(seq![
            self.0.value(),
            self.1.value(),
            self.2.value(),
            self.3.value(),
            self.4.value(),
            self.5.value(),
            self.6.value(),
            self.7.value(),
            self.8.value(),
            self.9.value(),
            self.10.value(),
        ])
    }
}

impl<
    A: Shaped,
    B: Shaped,
    C: Shaped,
    D: Shaped,
    E: Shaped,
    F: Shaped,
    G: Shaped,
    H: Shaped,
    I: Shaped,
    J: Shaped,
    K: Shaped,
    L: Shaped,
> Shaped for (A, B, C, D, E, F, G, H, I, J, K, L) {
    open spec fn shape() -> Shape {
        Shape::Tuple(seq![
            A::shape(),
            B::shape(),
            C::shape(),
            D::shape(),
            E::shape(),
            F::shape(),
            G::shape(),
            H::shape(),
            I::shape(),
            J::shape(),
            K::shape(),
            L::shape(),
        ])
    }

    open spec fn value(&self) -> Value {
        Value::Tuple(seq![
            self.0.value(),
            self.1.value(),
            self.2.value(),
            self.3.value(),
            self.4.value(),
            self.5.value(),
            self.6.value(),
            self.7.value(),
            self.8.value(),
            self.9.value(),
            self.10.value(),
            self.11.value(),
        ])
    }
}

} // verus!
