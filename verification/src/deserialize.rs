//! Deserialization: the interfaces through which a type is read from a
//! format, and the types of the supported universe as they read themselves.
//!
//! An item accepts a deserializer and calls the one visit method that
//! matches its shape; the deserializer reads the input and, for a tuple,
//! hands each element's text back to the element's own type. The visit
//! methods are bounded by [`Deserialize`], so that trait cannot be bounded
//! by [`Deserializer`] in turn: it takes the format as a parameter, and
//! what the contracts say of a format stands in [`Decoding`], which both
//! can name.

pub mod grammar;
mod json;

use crate::error::{Error, ParseError};
use crate::value::{Shape, Shaped, Value};
pub use json::{reports, yields, Json};
use vstd::prelude::*;

verus! {

/// What a format reads: for a deserializer in a given state, a shape and an
/// input, the value or the error, and the state afterwards.
pub trait Decoding: Sized {
    /// The input type for this format.
    type Input;

    /// Whether the deserializer, in this state, can take `input`: no count
    /// that it keeps would leave the machine's range.
    spec fn admits(&self, input: Self::Input) -> bool;

    /// What reading a value of `shape` from `input` comes to: the value,
    /// or the error.
    spec fn decoded(&self, shape: Shape, input: Self::Input) -> Result<Value, ParseError>;

    /// Whether `after` is the state in which reading a value of `shape`
    /// from `input` leaves the deserializer.
    spec fn leaves(&self, shape: Shape, input: Self::Input, after: Self) -> bool;
}

/// Whether a deserializer that went from `before` to `after` and returned
/// `r` did what its format says of the input and the shape of `T`: the
/// state is the one foretold, and `r` holds the value read, or the error
/// put into words.
pub open spec fn agrees<S: Decoding, T: Shaped>(
    before: S,
    input: S::Input,
    after: S,
    r: Result<T, Error>,
) -> bool {
    &&& before.leaves(T::shape(), input, after)
    &&& match r {
        Ok(v) => before.decoded(T::shape(), input) == Ok::<Value, ParseError>(v.value()),
        Err(e) => before.decoded(T::shape(), input) matches Err(f) && e@ == f.error(),
    }
}

/// Trait to implement on deserializable items. Defines how the item is
/// deserialized by a deserializer of the format `S`.
pub trait Deserialize<S: Decoding>: Shaped + Sized {
    /// Accept a deserializer, allowing it to deserialize this item: the
    /// item calls the one visit method that matches its shape.
    fn accept(deserializer: &mut S, input: &S::Input) -> (r: Result<Self, Error>)
        requires
            old(deserializer).admits(*input),
        ensures
            agrees(*old(deserializer), *input, *final(deserializer), r),
    ;
}

/// Trait to implement on a deserializer: one visit method for each shape
/// of the supported universe.
pub trait Deserializer: Decoding {
    /// Deserialize the input into the required output type.
    fn deserialize<T>(&mut self, input: &Self::Input) -> (r: Result<T, Error>) where
        T: Deserialize<Self>,

        requires
            old(self).admits(*input),
        ensures
            agrees(*old(self), *input, *final(self), r),
    ;

    /// Visit and deserialize a bool type.
    fn visit_bool(&mut self, input: &Self::Input) -> (r: Result<bool, Error>)
        requires
            old(self).admits(*input),
        ensures
            agrees(*old(self), *input, *final(self), r),
    ;

    /// Visit and deserialize a char type.
    fn visit_char(&mut self, input: &Self::Input) -> (r: Result<char, Error>)
        requires
            old(self).admits(*input),
        ensures
            agrees(*old(self), *input, *final(self), r),
    ;

    /// Visit and deserialize an i8 type.
    fn visit_i8(&mut self, input: &Self::Input) -> (r: Result<i8, Error>)
        requires
            old(self).admits(*input),
        ensures
            agrees(*old(self), *input, *final(self), r),
    ;

    /// Visit and deserialize an i16 type.
    fn visit_i16(&mut self, input: &Self::Input) -> (r: Result<i16, Error>)
        requires
            old(self).admits(*input),
        ensures
            agrees(*old(self), *input, *final(self), r),
    ;

    /// Visit and deserialize an i32 type.
    fn visit_i32(&mut self, input: &Self::Input) -> (r: Result<i32, Error>)
        requires
            old(self).admits(*input),
        ensures
            agrees(*old(self), *input, *final(self), r),
    ;

    /// Visit and deserialize an i64 type.
    fn visit_i64(&mut self, input: &Self::Input) -> (r: Result<i64, Error>)
        requires
            old(self).admits(*input),
        ensures
            agrees(*old(self), *input, *final(self), r),
    ;

    /// Visit and deserialize an i128 type.
    fn visit_i128(&mut self, input: &Self::Input) -> (r: Result<i128, Error>)
        requires
            old(self).admits(*input),
        ensures
            agrees(*old(self), *input, *final(self), r),
    ;

    /// Visit and deserialize an isize type.
    fn visit_isize(&mut self, input: &Self::Input) -> (r: Result<isize, Error>)
        requires
            old(self).admits(*input),
        ensures
            agrees(*old(self), *input, *final(self), r),
    ;

    /// Visit and deserialize a String type.
    fn visit_string(&mut self, input: &Self::Input) -> (r: Result<String, Error>)
        requires
            old(self).admits(*input),
        ensures
            agrees(*old(self), *input, *final(self), r),
    ;

    /// Visit and deserialize a tuple type of size 1.
    fn visit_tuple_1<A>(&mut self, input: &Self::Input) -> (r: Result<(A,), Error>) where
        A: Deserialize<Self>,
        requires
            old(self).admits(*input),
        ensures
            agrees(*old(self), *input, *final(self), r),
    ;

    /// Visit and deserialize a tuple type of size 2.
    fn visit_tuple_2<A, B>(&mut self, input: &Self::Input) -> (r: Result<(A, B), Error>) where
        A: Deserialize<Self>,
        B: Deserialize<Self>,
        requires
            old(self).admits(*input),
        ensures
            agrees(*old(self), *input, *final(self), r),
    ;

    /// Visit and deserialize a tuple type of size 3.
    fn visit_tuple_3<A, B, C>(&mut self, input: &Self::Input) -> (r: Result<(A, B, C), Error>) where
        A: Deserialize<Self>,
        B: Deserialize<Self>,
        C: Deserialize<Self>,
        requires
            old(self).admits(*input),
        ensures
            agrees(*old(self), *input, *final(self), r),
    ;

    /// Visit and deserialize a tuple type of size 4.
    fn visit_tuple_4<A, B, C, D>(
        &mut self,
        input: &Self::Input,
    ) -> (r: Result<(A, B, C, D), Error>) where
        A: Deserialize<Self>,
        B: Deserialize<Self>,
        C: Deserialize<Self>,
        D: Deserialize<Self>,
        requires
            old(self).admits(*input),
        ensures
            agrees(*old(self), *input, *final(self), r),
    ;

    /// Visit and deserialize a tuple type of size 5.
    fn visit_tuple_5<A, B, C, D, E>(
        &mut self,
        input: &Self::Input,
    ) -> (r: Result<(A, B, C, D, E), Error>) where
        A: Deserialize<Self>,
        B: Deserialize<Self>,
        C: Deserialize<Self>,
        D: Deserialize<Self>,
        E: Deserialize<Self>,
        requires
            old(self).admits(*input),
        ensures
            agrees(*old(self), *input, *final(self), r),
    ;

    /// Visit and deserialize a tuple type of size 6.
    fn visit_tuple_6<A, B, C, D, E, F>(
        &mut self,
        input: &Self::Input,
    ) -> (r: Result<(A, B, C, D, E, F), Error>) where
        A: Deserialize<Self>,
        B: Deserialize<Self>,
        C: Deserialize<Self>,
        D: Deserialize<Self>,
        E: Deserialize<Self>,
        F: Deserialize<Self>,
        requires
            old(self).admits(*input),
        ensures
            agrees(*old(self), *input, *final(self), r),
    ;

    /// Visit and deserialize a tuple type of size 7.
    fn visit_tuple_7<A, B, C, D, E, F, G>(
        &mut self,
        input: &Self::Input,
    ) -> (r: Result<(A, B, C, D, E, F, G), Error>) where
        A: Deserialize<Self>,
        B: Deserialize<Self>,
        C: Deserialize<Self>,
        D: Deserialize<Self>,
        E: Deserialize<Self>,
        F: Deserialize<Self>,
        G: Deserialize<Self>,
        requires
            old(self).admits(*input),
        ensures
            agrees(*old(self), *input, *final(self), r),
    ;

    /// Visit and deserialize a tuple type of size 8.
    fn visit_tuple_8<A, B, C, D, E, F, G, H>(
        &mut self,
        input: &Self::Input,
    ) -> (r: Result<(A, B, C, D, E, F, G, H), Error>) where
        A: Deserialize<Self>,
        B: Deserialize<Self>,
        C: Deserialize<Self>,
        D: Deserialize<Self>,
        E: Deserialize<Self>,
        F: Deserialize<Self>,
        G: Deserialize<Self>,
        H: Deserialize<Self>,
        requires
            old(self).admits(*input),
        ensures
            agrees(*old(self), *input, *final(self), r),
    ;

    /// Visit and deserialize a tuple type of size 9.
    fn visit_tuple_9<A, B, C, D, E, F, G, H, I>(
        &mut self,
        input: &Self::Input,
    ) -> (r: Result<(A, B, C, D, E, F, G, H, I), Error>) where
        A: Deserialize<Self>,
        B: Deserialize<Self>,
        C: Deserialize<Self>,
        D: Deserialize<Self>,
        E: Deserialize<Self>,
        F: Deserialize<Self>,
        G: Deserialize<Self>,
        H: Deserialize<Self>,
        I: Deserialize<Self>,
        requires
            old(self).admits(*input),
        ensures
            agrees(*old(self), *input, *final(self), r),
    ;

    /// Visit and deserialize a tuple type of size 10.
    fn visit_tuple_10<A, B, C, D, E, F, G, H, I, J>(
        &mut self,
        input: &Self::Input,
    ) -> (r: Result<(A, B, C, D, E, F, G, H, I, J), Error>) where
        A: Deserialize<Self>,
        B: Deserialize<Self>,
        C: Deserialize<Self>,
        D: Deserialize<Self>,
        E: Deserialize<Self>,
        F: Deserialize<Self>,
        G: Deserialize<Self>,
        H: Deserialize<Self>,
        I: Deserialize<Self>,
        J: Deserialize<Self>,
        requires
            old(self).admits(*input),
        ensures
            agrees(*old(self), *input, *final(self), r),
    ;

    /// Visit and deserialize a tuple type of size 11.
    fn visit_tuple_11<A, B, C, D, E, F, G, H, I, J, K>(
        &mut self,
        input: &Self::Input,
    ) -> (r: Result<(A, B, C, D, E, F, G, H, I, J, K), Error>) where
        A: Deserialize<Self>,
        B: Deserialize<Self>,
        C: Deserialize<Self>,
        D: Deserialize<Self>,
        E: Deserialize<Self>,
        F: Deserialize<Self>,
        G: Deserialize<Self>,
        H: Deserialize<Self>,
        I: Deserialize<Self>,
        J: Deserialize<Self>,
        K: Deserialize<Self>,
        requires
            old(self).admits(*input),
        ensures
            agrees(*old(self), *input, *final(self), r),
    ;

    /// Visit and deserialize a tuple type of size 12.
    fn visit_tuple_12<A, B, C, D, E, F, G, H, I, J, K, L>(
        &mut self,
        input: &Self::Input,
    ) -> (r: Result<(A, B, C, D, E, F, G, H, I, J, K, L), Error>) where
        A: Deserialize<Self>,
        B: Deserialize<Self>,
        C: Deserialize<Self>,
        D: Deserialize<Self>,
        E: Deserialize<Self>,
        F: Deserialize<Self>,
        G: Deserialize<Self>,
        H: Deserialize<Self>,
        I: Deserialize<Self>,
        J: Deserialize<Self>,
        K: Deserialize<Self>,
        L: Deserialize<Self>,
        requires
            old(self).admits(*input),
        ensures
            agrees(*old(self), *input, *final(self), r),
    ;

    /// Visit and deserialize a u8 type.
    fn visit_u8(&mut self, input: &Self::Input) -> (r: Result<u8, Error>)
        requires
            old(self).admits(*input),
        ensures
            agrees(*old(self), *input, *final(self), r),
    ;

    /// Visit and deserialize a u16 type.
    fn visit_u16(&mut self, input: &Self::Input) -> (r: Result<u16, Error>)
        requires
            old(self).admits(*input),
        ensures
            agrees(*old(self), *input, *final(self), r),
    ;

    /// Visit and deserialize a u32 type.
    fn visit_u32(&mut self, input: &Self::Input) -> (r: Result<u32, Error>)
        requires
            old(self).admits(*input),
        ensures
            agrees(*old(self), *input, *final(self), r),
    ;

    /// Visit and deserialize a u64 type.
    fn visit_u64(&mut self, input: &Self::Input) -> (r: Result<u64, Error>)
        requires
            old(self).admits(*input),
        ensures
            agrees(*old(self), *input, *final(self), r),
    ;

    /// Visit and deserialize a u128 type.
    fn visit_u128(&mut self, input: &Self::Input) -> (r: Result<u128, Error>)
        requires
            old(self).admits(*input),
        ensures
            agrees(*old(self), *input, *final(self), r),
    ;

    /// Visit and deserialize a unit type.
    fn visit_unit(&mut self, input: &Self::Input) -> (r: Result<(), Error>)
        requires
            old(self).admits(*input),
        ensures
            agrees(*old(self), *input, *final(self), r),
    ;

    /// Visit and deserialize a usize type.
    fn visit_usize(&mut self, input: &Self::Input) -> (r: Result<usize, Error>)
        requires
            old(self).admits(*input),
        ensures
            agrees(*old(self), *input, *final(self), r),
    ;
}

impl<S: Deserializer> Deserialize<S> for () {
    fn accept(deserializer: &mut S, input: &S::Input) -> (r: Result<Self, Error>) {
        deserializer.visit_unit(input)
    }
}

impl<S: Deserializer, A: Deserialize<S>> Deserialize<S> for (A,) {
    fn accept(deserializer: &mut S, input: &S::Input) -> (r: Result<Self, Error>) {
        deserializer.visit_tuple_1(input)
    }
}

impl<S: Deserializer, A: Deserialize<S>, B: Deserialize<S>> Deserialize<S> for (A, B) {
    fn accept(deserializer: &mut S, input: &S::Input) -> (r: Result<Self, Error>) {
        deserializer.visit_tuple_2(input)
    }
}

impl<
    S: Deserializer,
    A: Deserialize<S>,
    B: Deserialize<S>,
    C: Deserialize<S>,
> Deserialize<S> for (A, B, C) {
    fn accept(deserializer: &mut S, input: &S::Input) -> (r: Result<Self, Error>) {
        deserializer.visit_tuple_3(input)
    }
}

impl<
    S: Deserializer,
    A: Deserialize<S>,
    B: Deserialize<S>,
    C: Deserialize<S>,
    D: Deserialize<S>,
> Deserialize<S> for (A, B, C, D) {
    fn accept(deserializer: &mut S, input: &S::Input) -> (r: Result<Self, Error>) {
        deserializer.visit_tuple_4(input)
    }
}

impl<
    S: Deserializer,
    A: Deserialize<S>,
    B: Deserialize<S>,
    C: Deserialize<S>,
    D: Deserialize<S>,
    E: Deserialize<S>,
> Deserialize<S> for (A, B, C, D, E) {
    fn accept(deserializer: &mut S, input: &S::Input) -> (r: Result<Self, Error>) {
        deserializer.visit_tuple_5(input)
    }
}

impl<
    S: Deserializer,
    A: Deserialize<S>,
    B: Deserialize<S>,
    C: Deserialize<S>,
    D: Deserialize<S>,
    E: Deserialize<S>,
    F: Deserialize<S>,
> Deserialize<S> for (A, B, C, D, E, F) {
    fn accept(deserializer: &mut S, input: &S::Input) -> (r: Result<Self, Error>) {
        deserializer.visit_tuple_6(input)
    }
}

impl<
    S: Deserializer,
    A: Deserialize<S>,
    B: Deserialize<S>,
    C: Deserialize<S>,
    D: Deserialize<S>,
    E: Deserialize<S>,
    F: Deserialize<S>,
    G: Deserialize<S>,
> Deserialize<S> for (A, B, C, D, E, F, G) {
    fn accept(deserializer: &mut S, input: &S::Input) -> (r: Result<Self, Error>) {
        deserializer.visit_tuple_7(input)
    }
}

impl<
    S: Deserializer,
    A: Deserialize<S>,
    B: Deserialize<S>,
    C: Deserialize<S>,
    D: Deserialize<S>,
    E: Deserialize<S>,
    F: Deserialize<S>,
    G: Deserialize<S>,
    H: Deserialize<S>,
> Deserialize<S> for (A, B, C, D, E, F, G, H) {
    fn accept(deserializer: &mut S, input: &S::Input) -> (r: Result<Self, Error>) {
        deserializer.visit_tuple_8(input)
    }
}

impl<
    S: Deserializer,
    A: Deserialize<S>,
    B: Deserialize<S>,
    C: Deserialize<S>,
    D: Deserialize<S>,
    E: Deserialize<S>,
    F: Deserialize<S>,
    G: Deserialize<S>,
    H: Deserialize<S>,
    I: Deserialize<S>,
> Deserialize<S> for (A, B, C, D, E, F, G, H, I) {
    fn accept(deserializer: &mut S, input: &S::Input) -> (r: Result<Self, Error>) {
        deserializer.visit_tuple_9(input)
    }
}

impl<
    S: Deserializer,
    A: Deserialize<S>,
    B: Deserialize<S>,
    C: Deserialize<S>,
    D: Deserialize<S>,
    E: Deserialize<S>,
    F: Deserialize<S>,
    G: Deserialize<S>,
    H: Deserialize<S>,
    I: Deserialize<S>,
    J: Deserialize<S>,
> Deserialize<S> for (A, B, C, D, E, F, G, H, I, J) {
    fn accept(deserializer: &mut S, input: &S::Input) -> (r: Result<Self, Error>) {
        deserializer.visit_tuple_10(input)
    }
}

impl<
    S: Deserializer,
    A: Deserialize<S>,
    B: Deserialize<S>,
    C: Deserialize<S>,
    D: Deserialize<S>,
    E: Deserialize<S>,
    F: Deserialize<S>,
    G: Deserialize<S>,
    H: Deserialize<S>,
    I: Deserialize<S>,
    J: Deserialize<S>,
    K: Deserialize<S>,
> Deserialize<S> for (A, B, C, D, E, F, G, H, I, J, K) {
    fn accept(deserializer: &mut S, input: &S::Input) -> (r: Result<Self, Error>) {
        deserializer.visit_tuple_11(input)
    }
}

impl<
    S: Deserializer,
    A: Deserialize<S>,
    B: Deserialize<S>,
    C: Deserialize<S>,
    D: Deserialize<S>,
    E: Deserialize<S>,
    F: Deserialize<S>,
    G: Deserialize<S>,
    H: Deserialize<S>,
    I: Deserialize<S>,
    J: Deserialize<S>,
    K: Deserialize<S>,
    L: Deserialize<S>,
> Deserialize<S> for (A, B, C, D, E, F, G, H, I, J, K, L) {
    fn accept(deserializer: &mut S, input: &S::Input) -> (r: Result<Self, Error>) {
        deserializer.visit_tuple_12(input)
    }
}

impl<S: Deserializer> Deserialize<S> for bool {
    fn accept(deserializer: &mut S, input: &S::Input) -> (r: Result<Self, Error>) {
        deserializer.visit_bool(input)
    }
}

impl<S: Deserializer> Deserialize<S> for char {
    fn accept(deserializer: &mut S, input: &S::Input) -> (r: Result<Self, Error>) {
        deserializer.visit_char(input)
    }
}

impl<S: Deserializer> Deserialize<S> for i8 {
    fn accept(deserializer: &mut S, input: &S::Input) -> (r: Result<Self, Error>) {
        deserializer.visit_i8(input)
    }
}

impl<S: Deserializer> Deserialize<S> for i16 {
    fn accept(deserializer: &mut S, input: &S::Input) -> (r: Result<Self, Error>) {
        deserializer.visit_i16(input)
    }
}

impl<S: Deserializer> Deserialize<S> for i32 {
    fn accept(deserializer: &mut S, input: &S::Input) -> (r: Result<Self, Error>) {
        deserializer.visit_i32(input)
    }
}

impl<S: Deserializer> Deserialize<S> for i64 {
    fn accept(deserializer: &mut S, input: &S::Input) -> (r: Result<Self, Error>) {
        deserializer.visit_i64(input)
    }
}

impl<S: Deserializer> Deserialize<S> for i128 {
    fn accept(deserializer: &mut S, input: &S::Input) -> (r: Result<Self, Error>) {
        deserializer.visit_i128(input)
    }
}

impl<S: Deserializer> Deserialize<S> for isize {
    fn accept(deserializer: &mut S, input: &S::Input) -> (r: Result<Self, Error>) {
        deserializer.visit_isize(input)
    }
}

impl<S: Deserializer> Deserialize<S> for String {
    fn accept(deserializer: &mut S, input: &S::Input) -> (r: Result<Self, Error>) {
        deserializer.visit_string(input)
    }
}

impl<S: Deserializer> Deserialize<S> for u8 {
    fn accept(deserializer: &mut S, input: &S::Input) -> (r: Result<Self, Error>) {
        deserializer.visit_u8(input)
    }
}

impl<S: Deserializer> Deserialize<S> for u16 {
    fn accept(deserializer: &mut S, input: &S::Input) -> (r: Result<Self, Error>) {
        deserializer.visit_u16(input)
    }
}

impl<S: Deserializer> Deserialize<S> for u32 {
    fn accept(deserializer: &mut S, input: &S::Input) -> (r: Result<Self, Error>) {
        deserializer.visit_u32(input)
    }
}

impl<S: Deserializer> Deserialize<S> for u64 {
    fn accept(deserializer: &mut S, input: &S::Input) -> (r: Result<Self, Error>) {
        deserializer.visit_u64(input)
    }
}

impl<S: Deserializer> Deserialize<S> for u128 {
    fn accept(deserializer: &mut S, input: &S::Input) -> (r: Result<Self, Error>) {
        deserializer.visit_u128(input)
    }
}

impl<S: Deserializer> Deserialize<S> for usize {
    fn accept(deserializer: &mut S, input: &S::Input) -> (r: Result<Self, Error>) {
        deserializer.visit_usize(input)
    }
}

} // verus!
