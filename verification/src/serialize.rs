//! Serialization: the interfaces through which a value is written in a
//! format, and the types of the supported universe as they write
//! themselves.
//!
//! An item accepts a serializer and calls the one visit method that
//! matches its shape; the serializer writes the value and, for a tuple,
//! asks each element to write itself. The visit methods are bounded by
//! [`Serialize`], so that trait cannot be bounded by [`Serializer`] in
//! turn: it takes the format as a parameter, and what the contracts say of
//! a format stands in [`Encoding`], which both can name.

mod json;
pub mod notation;

use crate::value::{Shaped, Value};
pub use json::Json;
use vstd::prelude::*;

verus! {

/// What a format writes: which outputs render a value.
pub trait Encoding {
    /// The output type for this format.
    type Output;

    /// Whether `out` is what the format writes for `value`.
    spec fn renders(&self, value: Value, out: Self::Output) -> bool;
}

/// Trait to implement on serializable items. Defines how the item is
/// serialized by a serializer of the format `S`.
pub trait Serialize<S: Encoding>: Shaped {
    /// Accept a serializer, allowing it to serialize this item: the item
    /// calls the one visit method that matches its shape.
    fn accept(&self, serializer: &S) -> (out: S::Output)
        ensures
            serializer.renders(self.value(), out),
    ;
}

/// Trait to implement on a serializer: one visit method for each shape of
/// the supported universe.
pub trait Serializer: Encoding + Sized {
    /// Serialize the input into the required output type.
    fn serialize<T>(&self, input: &T) -> (out: Self::Output) where T: Serialize<Self> + ?Sized
        ensures
            self.renders(input.value(), out),
    ;

    /// Visit and serialize a bool type.
    fn visit_bool(&self, input: &bool) -> (out: Self::Output)
        ensures
            self.renders(input.value(), out),
    ;

    /// Visit and serialize a char type.
    fn visit_char(&self, input: &char) -> (out: Self::Output)
        ensures
            self.renders(input.value(), out),
    ;

    /// Visit and serialize an i8 type.
    fn visit_i8(&self, input: &i8) -> (out: Self::Output)
        ensures
            self.renders(input.value(), out),
    ;

    /// Visit and serialize an i16 type.
    fn visit_i16(&self, input: &i16) -> (out: Self::Output)
        ensures
            self.renders(input.value(), out),
    ;

    /// Visit and serialize an i32 type.
    fn visit_i32(&self, input: &i32) -> (out: Self::Output)
        ensures
            self.renders(input.value(), out),
    ;

    /// Visit and serialize an i64 type.
    fn visit_i64(&self, input: &i64) -> (out: Self::Output)
        ensures
            self.renders(input.value(), out),
    ;

    /// Visit and serialize an i128 type.
    fn visit_i128(&self, input: &i128) -> (out: Self::Output)
        ensures
            self.renders(input.value(), out),
    ;

    /// Visit and serialize an isize type.
    fn visit_isize(&self, input: &isize) -> (out: Self::Output)
        ensures
            self.renders(input.value(), out),
    ;

    /// Visit and serialize a str type.
    fn visit_str(&self, input: &str) -> (out: Self::Output)
        ensures
            self.renders(input.value(), out),
    ;

    /// Visit and serialize a String type.
    fn visit_string(&self, input: &String) -> (out: Self::Output)
        ensures
            self.renders(input.value(), out),
    ;

    /// Visit and serialize a tuple type of size 1.
    fn visit_tuple_1<A>(&self, input: &(A,)) -> (out: Self::Output) where
        A: Serialize<Self>,

        ensures
            self.renders(input.value(), out),
    ;

    /// Visit and serialize a tuple type of size 2.
    fn visit_tuple_2<A, B>(&self, input: &(A, B)) -> (out: Self::Output) where
        A: Serialize<Self>,
        B: Serialize<Self>,

        ensures
            self.renders(input.value(), out),
    ;

    /// Visit and serialize a tuple type of size 3.
    fn visit_tuple_3<A, B, C>(&self, input: &(A, B, C)) -> (out: Self::Output) where
        A: Serialize<Self>,
        B: Serialize<Self>,
        C: Serialize<Self>,

        ensures
            self.renders(input.value(), out),
    ;

    /// Visit and serialize a tuple type of size 4.
    fn visit_tuple_4<A, B, C, D>(&self, input: &(A, B, C, D)) -> (out: Self::Output) where
        A: Serialize<Self>,
        B: Serialize<Self>,
        C: Serialize<Self>,
        D: Serialize<Self>,

        ensures
            self.renders(input.value(), out),
    ;

    /// Visit and serialize a tuple type of size 5.
    fn visit_tuple_5<A, B, C, D, E>(&self, input: &(A, B, C, D, E)) -> (out: Self::Output) where
        A: Serialize<Self>,
        B: Serialize<Self>,
        C: Serialize<Self>,
        D: Serialize<Self>,
        E: Serialize<Self>,

        ensures
            self.renders(input.value(), out),
    ;

    /// Visit and serialize a tuple type of size 6.
    fn visit_tuple_6<A, B, C, D, E, F>(
        &self,
        input: &(A, B, C, D, E, F),
    ) -> (out: Self::Output) where
        A: Serialize<Self>,
        B: Serialize<Self>,
        C: Serialize<Self>,
        D: Serialize<Self>,
        E: Serialize<Self>,
        F: Serialize<Self>,

        ensures
            self.renders(input.value(), out),
    ;

    /// Visit and serialize a tuple type of size 7.
    fn visit_tuple_7<A, B, C, D, E, F, G>(
        &self,
        input: &(A, B, C, D, E, F, G),
    ) -> (out: Self::Output) where
        A: Serialize<Self>,
        B: Serialize<Self>,
        C: Serialize<Self>,
        D: Serialize<Self>,
        E: Serialize<Self>,
        F: Serialize<Self>,
        G: Serialize<Self>,

        ensures
            self.renders(input.value(), out),
    ;

    /// Visit and serialize a tuple type of size 8.
    fn visit_tuple_8<A, B, C, D, E, F, G, H>(
        &self,
        input: &(A, B, C, D, E, F, G, H),
    ) -> (out: Self::Output) where
        A: Serialize<Self>,
        B: Serialize<Self>,
        C: Serialize<Self>,
        D: Serialize<Self>,
        E: Serialize<Self>,
        F: Serialize<Self>,
        G: Serialize<Self>,
        H: Serialize<Self>,

        ensures
            self.renders(input.value(), out),
    ;

    /// Visit and serialize a tuple type of size 9.
    fn visit_tuple_9<A, B, C, D, E, F, G, H, I>(
        &self,
        input: &(A, B, C, D, E, F, G, H, I),
    ) -> (out: Self::Output) where
        A: Serialize<Self>,
        B: Serialize<Self>,
        C: Serialize<Self>,
        D: Serialize<Self>,
        E: Serialize<Self>,
        F: Serialize<Self>,
        G: Serialize<Self>,
        H: Serialize<Self>,
        I: Serialize<Self>,

        ensures
            self.renders(input.value(), out),
    ;

    /// Visit and serialize a tuple type of size 10.
    fn visit_tuple_10<A, B, C, D, E, F, G, H, I, J>(
        &self,
        input: &(A, B, C, D, E, F, G, H, I, J),
    ) -> (out: Self::Output) where
        A: Serialize<Self>,
        B: Serialize<Self>,
        C: Serialize<Self>,
        D: Serialize<Self>,
        E: Serialize<Self>,
        F: Serialize<Self>,
        G: Serialize<Self>,
        H: Serialize<Self>,
        I: Serialize<Self>,
        J: Serialize<Self>,

        ensures
            self.renders(input.value(), out),
    ;

    /// Visit and serialize a tuple type of size 11.
    fn visit_tuple_11<A, B, C, D, E, F, G, H, I, J, K>(
        &self,
        input: &(A, B, C, D, E, F, G, H, I, J, K),
    ) -> (out: Self::Output) where
        A: Serialize<Self>,
        B: Serialize<Self>,
        C: Serialize<Self>,
        D: Serialize<Self>,
        E: Serialize<Self>,
        F: Serialize<Self>,
        G: Serialize<Self>,
        H: Serialize<Self>,
        I: Serialize<Self>,
        J: Serialize<Self>,
        K: Serialize<Self>,

        ensures
            self.renders(input.value(), out),
    ;

    /// Visit and serialize a tuple type of size 12.
    fn visit_tuple_12<A, B, C, D, E, F, G, H, I, J, K, L>(
        &self,
        input: &(A, B, C, D, E, F, G, H, I, J, K, L),
    ) -> (out: Self::Output) where
        A: Serialize<Self>,
        B: Serialize<Self>,
        C: Serialize<Self>,
        D: Serialize<Self>,
        E: Serialize<Self>,
        F: Serialize<Self>,
        G: Serialize<Self>,
        H: Serialize<Self>,
        I: Serialize<Self>,
        J: Serialize<Self>,
        K: Serialize<Self>,
        L: Serialize<Self>,

        ensures
            self.renders(input.value(), out),
    ;

    /// Visit and serialize a u8 type.
    fn visit_u8(&self, input: &u8) -> (out: Self::Output)
        ensures
            self.renders(input.value(), out),
    ;

    /// Visit and serialize a u16 type.
    fn visit_u16(&self, input: &u16) -> (out: Self::Output)
        ensures
            self.renders(input.value(), out),
    ;

    /// Visit and serialize a u32 type.
    fn visit_u32(&self, input: &u32) -> (out: Self::Output)
        ensures
            self.renders(input.value(), out),
    ;

    /// Visit and serialize a u64 type.
    fn visit_u64(&self, input: &u64) -> (out: Self::Output)
        ensures
            self.renders(input.value(), out),
    ;

    /// Visit and serialize a u128 type.
    fn visit_u128(&self, input: &u128) -> (out: Self::Output)
        ensures
            self.renders(input.value(), out),
    ;

    /// Visit and serialize a unit type.
    fn visit_unit(&self) -> (out: Self::Output)
        ensures
            self.renders(Value::Unit, out),
    ;

    /// Visit and serialize a usize type.
    fn visit_usize(&self, input: &usize) -> (out: Self::Output)
        ensures
            self.renders(input.value(), out),
    ;
}

impl<S: Serializer> Serialize<S> for () {
    fn accept(&self, serializer: &S) -> (out: S::Output) {
        serializer.visit_unit()
    }
}

impl<S: Serializer, A: Serialize<S>> Serialize<S> for (A,) {
    fn accept(&self, serializer: &S) -> (out: S::Output) {
        serializer.visit_tuple_1(self)
    }
}

impl<S: Serializer, A: Serialize<S>, B: Serialize<S>> Serialize<S> for (A, B) {
    fn accept(&self, serializer: &S) -> (out: S::Output) {
        serializer.visit_tuple_2(self)
    }
}

impl<S: Serializer, A: Serialize<S>, B: Serialize<S>, C: Serialize<S>> Serialize<S> for (A, B, C) {
    fn accept(&self, serializer: &S) -> (out: S::Output) {
        serializer.visit_tuple_3(self)
    }
}

impl<
    S: Serializer,
    A: Serialize<S>,
    B: Serialize<S>,
    C: Serialize<S>,
    D: Serialize<S>,
> Serialize<S> for (A, B, C, D) {
    fn accept(&self, serializer: &S) -> (out: S::Output) {
        serializer.visit_tuple_4(self)
    }
}

impl<
    S: Serializer,
    A: Serialize<S>,
    B: Serialize<S>,
    C: Serialize<S>,
    D: Serialize<S>,
    E: Serialize<S>,
> Serialize<S> for (A, B, C, D, E) {
    fn accept(&self, serializer: &S) -> (out: S::Output) {
        serializer.visit_tuple_5(self)
    }
}

impl<
    S: Serializer,
    A: Serialize<S>,
    B: Serialize<S>,
    C: Serialize<S>,
    D: Serialize<S>,
    E: Serialize<S>,
    F: Serialize<S>,
> Serialize<S> for (A, B, C, D, E, F) {
    fn accept(&self, serializer: &S) -> (out: S::Output) {
        serializer.visit_tuple_6(self)
    }
}

impl<
    S: Serializer,
    A: Serialize<S>,
    B: Serialize<S>,
    C: Serialize<S>,
    D: Serialize<S>,
    E: Serialize<S>,
    F: Serialize<S>,
    G: Serialize<S>,
> Serialize<S> for (A, B, C, D, E, F, G) {
    fn accept(&self, serializer: &S) -> (out: S::Output) {
        serializer.visit_tuple_7(self)
    }
}

impl<
    S: Serializer,
    A: Serialize<S>,
    B: Serialize<S>,
    C: Serialize<S>,
    D: Serialize<S>,
    E: Serialize<S>,
    F: Serialize<S>,
    G: Serialize<S>,
    H: Serialize<S>,
> Serialize<S> for (A, B, C, D, E, F, G, H) {
    fn accept(&self, serializer: &S) -> (out: S::Output) {
        serializer.visit_tuple_8(self)
    }
}

impl<
    S: Serializer,
    A: Serialize<S>,
    B: Serialize<S>,
    C: Serialize<S>,
    D: Serialize<S>,
    E: Serialize<S>,
    F: Serialize<S>,
    G: Serialize<S>,
    H: Serialize<S>,
    I: Serialize<S>,
> Serialize<S> for (A, B, C, D, E, F, G, H, I) {
    fn accept(&self, serializer: &S) -> (out: S::Output) {
        serializer.visit_tuple_9(self)
    }
}

impl<
    S: Serializer,
    A: Serialize<S>,
    B: Serialize<S>,
    C: Serialize<S>,
    D: Serialize<S>,
    E: Serialize<S>,
    F: Serialize<S>,
    G: Serialize<S>,
    H: Serialize<S>,
    I: Serialize<S>,
    J: Serialize<S>,
> Serialize<S> for (A, B, C, D, E, F, G, H, I, J) {
    fn accept(&self, serializer: &S) -> (out: S::Output) {
        serializer.visit_tuple_10(self)
    }
}

impl<
    S: Serializer,
    A: Serialize<S>,
    B: Serialize<S>,
    C: Serialize<S>,
    D: Serialize<S>,
    E: Serialize<S>,
    F: Serialize<S>,
    G: Serialize<S>,
    H: Serialize<S>,
    I: Serialize<S>,
    J: Serialize<S>,
    K: Serialize<S>,
> Serialize<S> for (A, B, C, D, E, F, G, H, I, J, K) {
    fn accept(&self, serializer: &S) -> (out: S::Output) {
        serializer.visit_tuple_11(self)
    }
}

impl<
    S: Serializer,
    A: Serialize<S>,
    B: Serialize<S>,
    C: Serialize<S>,
    D: Serialize<S>,
    E: Serialize<S>,
    F: Serialize<S>,
    G: Serialize<S>,
    H: Serialize<S>,
    I: Serialize<S>,
    J: Serialize<S>,
    K: Serialize<S>,
    L: Serialize<S>,
> Serialize<S> for (A, B, C, D, E, F, G, H, I, J, K, L) {
    fn accept(&self, serializer: &S) -> (out: S::Output) {
        serializer.visit_tuple_12(self)
    }
}

impl<S: Serializer> Serialize<S> for bool {
    fn accept(&self, serializer: &S) -> (out: S::Output) {
        serializer.visit_bool(self)
    }
}

impl<S: Serializer> Serialize<S> for char {
    fn accept(&self, serializer: &S) -> (out: S::Output) {
        serializer.visit_char(self)
    }
}

impl<S: Serializer> Serialize<S> for i8 {
    fn accept(&self, serializer: &S) -> (out: S::Output) {
        serializer.visit_i8(self)
    }
}

impl<S: Serializer> Serialize<S> for i16 {
    fn accept(&self, serializer: &S) -> (out: S::Output) {
        serializer.visit_i16(self)
    }
}

impl<S: Serializer> Serialize<S> for i32 {
    fn accept(&self, serializer: &S) -> (out: S::Output) {
        serializer.visit_i32(self)
    }
}

impl<S: Serializer> Serialize<S> for i64 {
    fn accept(&self, serializer: &S) -> (out: S::Output) {
        serializer.visit_i64(self)
    }
}

impl<S: Serializer> Serialize<S> for i128 {
    fn accept(&self, serializer: &S) -> (out: S::Output) {
        serializer.visit_i128(self)
    }
}

impl<S: Serializer> Serialize<S> for isize {
    fn accept(&self, serializer: &S) -> (out: S::Output) {
        serializer.visit_isize(self)
    }
}

impl<S: Serializer> Serialize<S> for str {
    fn accept(&self, serializer: &S) -> (out: S::Output) {
        serializer.visit_str(self)
    }
}

impl<S: Serializer> Serialize<S> for String {
    fn accept(&self, serializer: &S) -> (out: S::Output) {
        serializer.visit_string(self)
    }
}

impl<S: Serializer> Serialize<S> for u8 {
    fn accept(&self, serializer: &S) -> (out: S::Output) {
        serializer.visit_u8(self)
    }
}

impl<S: Serializer> Serialize<S> for u16 {
    fn accept(&self, serializer: &S) -> (out: S::Output) {
        serializer.visit_u16(self)
    }
}

impl<S: Serializer> Serialize<S> for u32 {
    fn accept(&self, serializer: &S) -> (out: S::Output) {
        serializer.visit_u32(self)
    }
}

impl<S: Serializer> Serialize<S> for u64 {
    fn accept(&self, serializer: &S) -> (out: S::Output) {
        serializer.visit_u64(self)
    }
}

impl<S: Serializer> Serialize<S> for u128 {
    fn accept(&self, serializer: &S) -> (out: S::Output) {
        serializer.visit_u128(self)
    }
}

impl<S: Serializer> Serialize<S> for usize {
    fn accept(&self, serializer: &S) -> (out: S::Output) {
        serializer.visit_usize(self)
    }
}

} // verus!
