//! The JSON-like serializer: renders a value as text, with no character
//! that the value does not call for.

use crate::decimal::{render_signed, render_unsigned};
use crate::serialize::notation::{encode, encode_items, escape, quote};
use crate::serialize::{Encoding, Serialize, Serializer};
use crate::text::to_chars;
use crate::value::{Shaped, Value};
use vstd::prelude::*;

verus! {

/// Json serializer which converts serialize items into JSON strings.
#[derive(Clone, Copy, Debug, Eq, Ord, PartialEq, PartialOrd)]
pub struct Json;

impl Json {
    /// Create a new Json serializer.
    #[must_use]
    pub fn new() -> Self {
        Self {}
    }

    /// Encode a string with the appropriate escaped characters, between
    /// quotes.
    pub fn encode_string(input: &str) -> (text: String)
        ensures
            text@ == quote(input@),
    {
        let v = to_chars(input);
        let mut text = String::new();
        text.push('"');
        let mut i: usize = 0;
        assert(v@.skip(0) =~= v@);
        while i < v.len()
            invariant
                i <= v.len(),
                text@ + escape(v@.skip(i as int)) == seq!['"'] + escape(v@),
            decreases v.len() - i,
        {
            let c = v[i];
            let ghost before = text@;
            proof {
                assert(v@.skip(i as int).skip(1) =~= v@.skip(i + 1));
            }
            if c == '\\' || c == '"' {
                text.push('\\');
            }
            text.push(c);
            i += 1;
            assert(text@ + escape(v@.skip(i as int)) =~= before + escape(v@.skip(i - 1)));
        }
        text.push('"');
        assert(text@ =~= quote(input@));
        text
    }

    /// The text that opens a tuple.
    fn begin() -> (text: String)
        ensures
            text@ == seq!['['],
    {
        let mut text = String::new();
        text.push('[');
        assert(text@ =~= seq!['[']);
        text
    }

    /// Appends the text of the next element of a tuple, `n` of whose
    /// elements `items` are written already: behind a comma and a space,
    /// unless it is the first.
    fn join(
        text: &mut String,
        element: &String,
        first: bool,
        Ghost(items): Ghost<Seq<Value>>,
        Ghost(n): Ghost<nat>,
    )
        requires
            n < items.len(),
            first == (n == 0),
            old(text)@ == seq!['['] + encode_items(items, n),
            element@ == encode(items[n as int]),
        ensures
            final(text)@ == seq!['['] + encode_items(items, n + 1),
    {
        if !first {
            text.append(", ");
        }
        text.append(element.as_str());
        assert(text@ =~= seq!['['] + encode_items(items, n + 1));
    }

    /// Appends the text that closes a tuple.
    fn finish(text: String) -> (out: String)
        ensures
            out@ == text@ + seq![']'],
    {
        let mut out = text;
        out.push(']');
        out
    }
}

impl Default for Json {
    /// Create a new default Json serializer.
    fn default() -> Self {
        Self::new()
    }
}

impl Encoding for Json {
    /// The output type for this Serializer.
    type Output = String;

    open spec fn renders(&self, value: Value, out: String) -> bool {
        out@ == encode(value)
    }
}

impl Serializer for Json {
    /// Serialize the input into the required output type.
    fn serialize<T>(&self, input: &T) -> (out: String) where T: Serialize<Self> + ?Sized {
        input.accept(self)
    }

    /// Visit and serialize a bool type.
    fn visit_bool(&self, input: &bool) -> (out: String) {
        if *input {
            String::from_str("true")
        } else {
            String::from_str("false")
        }
    }

    /// Visit and serialize a char type.
    fn visit_char(&self, input: &char) -> (out: String) {
        let text = crate::text::char_text(*input);
        Self::encode_string(text.as_str())
    }

    /// Visit and serialize an i8 type.
    fn visit_i8(&self, input: &i8) -> (out: String) {
        render_signed(*input as i128)
    }

    /// Visit and serialize an i16 type.
    fn visit_i16(&self, input: &i16) -> (out: String) {
        render_signed(*input as i128)
    }

    /// Visit and serialize an i32 type.
    fn visit_i32(&self, input: &i32) -> (out: String) {
        render_signed(*input as i128)
    }

    /// Visit and serialize an i64 type.
    fn visit_i64(&self, input: &i64) -> (out: String) {
        render_signed(*input as i128)
    }

    /// Visit and serialize an i128 type.
    fn visit_i128(&self, input: &i128) -> (out: String) {
        render_signed(*input)
    }

    /// Visit and serialize an isize type.
    fn visit_isize(&self, input: &isize) -> (out: String) {
        render_signed(*input as i128)
    }

    /// Visit and serialize a str type.
    fn visit_str(&self, input: &str) -> (out: String) {
        Self::encode_string(input)
    }

    /// Visit and serialize a String type.
    fn visit_string(&self, input: &String) -> (out: String) {
        Self::encode_string(input.as_str())
    }

    /// Visit and serialize a tuple type of size 1.
    fn visit_tuple_1<A>(&self, input: &(A,)) -> (out: String) where
        A: Serialize<Self>,
    {
        let ghost items = input.value()->Tuple_0;
        let mut text = Self::begin();
        assert(text@ =~= seq!['['] + encode_items(items, 0));
        Self::join(&mut text, &self.serialize(&input.0), true, Ghost(items), Ghost(0));
        Self::finish(text)
    }

    /// Visit and serialize a tuple type of size 2.
    fn visit_tuple_2<A, B>(&self, input: &(A, B)) -> (out: String) where
        A: Serialize<Self>,
        B: Serialize<Self>,
    {
        let ghost items = input.value()->Tuple_0;
        let mut text = Self::begin();
        assert(text@ =~= seq!['['] + encode_items(items, 0));
        Self::join(&mut text, &self.serialize(&input.0), true, Ghost(items), Ghost(0));
        Self::join(&mut text, &self.serialize(&input.1), false, Ghost(items), Ghost(1));
        Self::finish(text)
    }

    /// Visit and serialize a tuple type of size 3.
    fn visit_tuple_3<A, B, C>(&self, input: &(A, B, C)) -> (out: String) where
        A: Serialize<Self>,
        B: Serialize<Self>,
        C: Serialize<Self>,
    {
        let ghost items = input.value()->Tuple_0;
        let mut text = Self::begin();
        assert(text@ =~= seq!['['] + encode_items(items, 0));
        Self::join(&mut text, &self.serialize(&input.0), true, Ghost(items), Ghost(0));
        Self::join(&mut text, &self.serialize(&input.1), false, Ghost(items), Ghost(1));
        Self::join(&mut text, &self.serialize(&input.2), false, Ghost(items), Ghost(2));
        Self::finish(text)
    }

    /// Visit and serialize a tuple type of size 4.
    fn visit_tuple_4<A, B, C, D>(&self, input: &(A, B, C, D)) -> (out: String) where
        A: Serialize<Self>,
        B: Serialize<Self>,
        C: Serialize<Self>,
        D: Serialize<Self>,
    {
        let ghost items = input.value()->Tuple_0;
        let mut text = Self::begin();
        assert(text@ =~= seq!['['] + encode_items(items, 0));
        Self::join(&mut text, &self.serialize(&input.0), true, Ghost(items), Ghost(0));
        Self::join(&mut text, &self.serialize(&input.1), false, Ghost(items), Ghost(1));
        Self::join(&mut text, &self.serialize(&input.2), false, Ghost(items), Ghost(2));
        Self::join(&mut text, &self.serialize(&input.3), false, Ghost(items), Ghost(3));
        Self::finish(text)
    }

    /// Visit and serialize a tuple type of size 5.
    fn visit_tuple_5<A, B, C, D, E>(&self, input: &(A, B, C, D, E)) -> (out: String) where
        A: Serialize<Self>,
        B: Serialize<Self>,
        C: Serialize<Self>,
        D: Serialize<Self>,
        E: Serialize<Self>,
    {
        let ghost items = input.value()->Tuple_0;
        let mut text = Self::begin();
        assert(text@ =~= seq!['['] + encode_items(items, 0));
        Self::join(&mut text, &self.serialize(&input.0), true, Ghost(items), Ghost(0));
        Self::join(&mut text, &self.serialize(&input.1), false, Ghost(items), Ghost(1));
        Self::join(&mut text, &self.serialize(&input.2), false, Ghost(items), Ghost(2));
        Self::join(&mut text, &self.serialize(&input.3), false, Ghost(items), Ghost(3));
        Self::join(&mut text, &self.serialize(&input.4), false, Ghost(items), Ghost(4));
        Self::finish(text)
    }

    /// Visit and serialize a tuple type of size 6.
    fn visit_tuple_6<A, B, C, D, E, F>(&self, input: &(A, B, C, D, E, F)) -> (out: String) where
        A: Serialize<Self>,
        B: Serialize<Self>,
        C: Serialize<Self>,
        D: Serialize<Self>,
        E: Serialize<Self>,
        F: Serialize<Self>,
    {
        let ghost items = input.value()->Tuple_0;
        let mut text = Self::begin();
        assert(text@ =~= seq!['['] + encode_items(items, 0));
        Self::join(&mut text, &self.serialize(&input.0), true, Ghost(items), Ghost(0));
        Self::join(&mut text, &self.serialize(&input.1), false, Ghost(items), Ghost(1));
        Self::join(&mut text, &self.serialize(&input.2), false, Ghost(items), Ghost(2));
        Self::join(&mut text, &self.serialize(&input.3), false, Ghost(items), Ghost(3));
        Self::join(&mut text, &self.serialize(&input.4), false, Ghost(items), Ghost(4));
        Self::join(&mut text, &self.serialize(&input.5), false, Ghost(items), Ghost(5));
        Self::finish(text)
    }

    /// Visit and serialize a tuple type of size 7.
    fn visit_tuple_7<A, B, C, D, E, F, G>(
        &self,
        input: &(A, B, C, D, E, F, G),
    ) -> (out: String) where
        A: Serialize<Self>,
        B: Serialize<Self>,
        C: Serialize<Self>,
        D: Serialize<Self>,
        E: Serialize<Self>,
        F: Serialize<Self>,
        G: Serialize<Self>,
    {
        let ghost items = input.value()->Tuple_0;
        let mut text = Self::begin();
        assert(text@ =~= seq!['['] + encode_items(items, 0));
        Self::join(&mut text, &self.serialize(&input.0), true, Ghost(items), Ghost(0));
        Self::join(&mut text, &self.serialize(&input.1), false, Ghost(items), Ghost(1));
        Self::join(&mut text, &self.serialize(&input.2), false, Ghost(items), Ghost(2));
        Self::join(&mut text, &self.serialize(&input.3), false, Ghost(items), Ghost(3));
        Self::join(&mut text, &self.serialize(&input.4), false, Ghost(items), Ghost(4));
        Self::join(&mut text, &self.serialize(&input.5), false, Ghost(items), Ghost(5));
        Self::join(&mut text, &self.serialize(&input.6), false, Ghost(items), Ghost(6));
        Self::finish(text)
    }

    /// Visit and serialize a tuple type of size 8.
    fn visit_tuple_8<A, B, C, D, E, F, G, H>(
        &self,
        input: &(A, B, C, D, E, F, G, H),
    ) -> (out: String) where
        A: Serialize<Self>,
        B: Serialize<Self>,
        C: Serialize<Self>,
        D: Serialize<Self>,
        E: Serialize<Self>,
        F: Serialize<Self>,
        G: Serialize<Self>,
        H: Serialize<Self>,
    {
        let ghost items = input.value()->Tuple_0;
        let mut text = Self::begin();
        assert(text@ =~= seq!['['] + encode_items(items, 0));
        Self::join(&mut text, &self.serialize(&input.0), true, Ghost(items), Ghost(0));
        Self::join(&mut text, &self.serialize(&input.1), false, Ghost(items), Ghost(1));
        Self::join(&mut text, &self.serialize(&input.2), false, Ghost(items), Ghost(2));
        Self::join(&mut text, &self.serialize(&input.3), false, Ghost(items), Ghost(3));
        Self::join(&mut text, &self.serialize(&input.4), false, Ghost(items), Ghost(4));
        Self::join(&mut text, &self.serialize(&input.5), false, Ghost(items), Ghost(5));
        Self::join(&mut text, &self.serialize(&input.6), false, Ghost(items), Ghost(6));
        Self::join(&mut text, &self.serialize(&input.7), false, Ghost(items), Ghost(7));
        Self::finish(text)
    }

    /// Visit and serialize a tuple type of size 9.
    fn visit_tuple_9<A, B, C, D, E, F, G, H, I>(
        &self,
        input: &(A, B, C, D, E, F, G, H, I),
    ) -> (out: String) where
        A: Serialize<Self>,
        B: Serialize<Self>,
        C: Serialize<Self>,
        D: Serialize<Self>,
        E: Serialize<Self>,
        F: Serialize<Self>,
        G: Serialize<Self>,
        H: Serialize<Self>,
        I: Serialize<Self>,
    {
        let ghost items = input.value()->Tuple_0;
        let mut text = Self::begin();
        assert(text@ =~= seq!['['] + encode_items(items, 0));
        Self::join(&mut text, &self.serialize(&input.0), true, Ghost(items), Ghost(0));
        Self::join(&mut text, &self.serialize(&input.1), false, Ghost(items), Ghost(1));
        Self::join(&mut text, &self.serialize(&input.2), false, Ghost(items), Ghost(2));
        Self::join(&mut text, &self.serialize(&input.3), false, Ghost(items), Ghost(3));
        Self::join(&mut text, &self.serialize(&input.4), false, Ghost(items), Ghost(4));
        Self::join(&mut text, &self.serialize(&input.5), false, Ghost(items), Ghost(5));
        Self::join(&mut text, &self.serialize(&input.6), false, Ghost(items), Ghost(6));
        Self::join(&mut text, &self.serialize(&input.7), false, Ghost(items), Ghost(7));
        Self::join(&mut text, &self.serialize(&input.8), false, Ghost(items), Ghost(8));
        Self::finish(text)
    }

    /// Visit and serialize a tuple type of size 10.
    fn visit_tuple_10<A, B, C, D, E, F, G, H, I, J>(
        &self,
        input: &(A, B, C, D, E, F, G, H, I, J),
    ) -> (out: String) where
        A: Serialize<Self>,
        B: Serialize<Self>,
        C: Serialize<Self>,
        D: Serialize<Self>,
        E: Serialize<Self>,
        F: Serialize<Self>,
        G: Serialize<Self>,
        H: Serialize<Self>,
        I: Serialize<Self>,
        J: Serialize<Self>,
    {
        let ghost items = input.value()->Tuple_0;
        let mut text = Self::begin();
        assert(text@ =~= seq!['['] + encode_items(items, 0));
        Self::join(&mut text, &self.serialize(&input.0), true, Ghost(items), Ghost(0));
        Self::join(&mut text, &self.serialize(&input.1), false, Ghost(items), Ghost(1));
        Self::join(&mut text, &self.serialize(&input.2), false, Ghost(items), Ghost(2));
        Self::join(&mut text, &self.serialize(&input.3), false, Ghost(items), Ghost(3));
        Self::join(&mut text, &self.serialize(&input.4), false, Ghost(items), Ghost(4));
        Self::join(&mut text, &self.serialize(&input.5), false, Ghost(items), Ghost(5));
        Self::join(&mut text, &self.serialize(&input.6), false, Ghost(items), Ghost(6));
        Self::join(&mut text, &self.serialize(&input.7), false, Ghost(items), Ghost(7));
        Self::join(&mut text, &self.serialize(&input.8), false, Ghost(items), Ghost(8));
        Self::join(&mut text, &self.serialize(&input.9), false, Ghost(items), Ghost(9));
        Self::finish(text)
    }

    /// Visit and serialize a tuple type of size 11.
    fn visit_tuple_11<A, B, C, D, E, F, G, H, I, J, K>(
        &self,
        input: &(A, B, C, D, E, F, G, H, I, J, K),
    ) -> (out: String) where
        A: Serialize<Self>,
        B: Serialize<Self>,
        C: Serialize<Self>,
        D: Serialize<Self>,
        E: Serialize<Self>,
        F: Serialize<Self>,
        G: Serialize<Self>,
        H: Serialize<Self>,
        I: Serialize<Self>,
        J: Serialize<Self>,
        K: Serialize<Self>,
    {
        let ghost items = input.value()->Tuple_0;
        let mut text = Self::begin();
        assert(text@ =~= seq!['['] + encode_items(items, 0));
        Self::join(&mut text, &self.serialize(&input.0), true, Ghost(items), Ghost(0));
        Self::join(&mut text, &self.serialize(&input.1), false, Ghost(items), Ghost(1));
        Self::join(&mut text, &self.serialize(&input.2), false, Ghost(items), Ghost(2));
        Self::join(&mut text, &self.serialize(&input.3), false, Ghost(items), Ghost(3));
        Self::join(&mut text, &self.serialize(&input.4), false, Ghost(items), Ghost(4));
        Self::join(&mut text, &self.serialize(&input.5), false, Ghost(items), Ghost(5));
        Self::join(&mut text, &self.serialize(&input.6), false, Ghost(items), Ghost(6));
        Self::join(&mut text, &self.serialize(&input.7), false, Ghost(items), Ghost(7));
        Self::join(&mut text, &self.serialize(&input.8), false, Ghost(items), Ghost(8));
        Self::join(&mut text, &self.serialize(&input.9), false, Ghost(items), Ghost(9));
        Self::join(&mut text, &self.serialize(&input.10), false, Ghost(items), Ghost(10));
        Self::finish(text)
    }

    /// Visit and serialize a tuple type of size 12.
    fn visit_tuple_12<A, B, C, D, E, F, G, H, I, J, K, L>(
        &self,
        input: &(A, B, C, D, E, F, G, H, I, J, K, L),
    ) -> (out: String) where
        A: Serialize<Self>,
        B: Serialize<Self>,
        C: Serialize<Self>,
        D: Serialize<Self>,
        E: Serialize<Self>,
        F: Serialize<Self>,
        G: Serialize<Self>,
        H: Serialize<Self>,
        I: Serialize<Self>,
        J: Serialize<Self>,
        K: Serialize<Self>,
        L: Serialize<Self>,
    {
        let ghost items = input.value()->Tuple_0;
        let mut text = Self::begin();
        assert(text@ =~= seq!['['] + encode_items(items, 0));
        Self::join(&mut text, &self.serialize(&input.0), true, Ghost(items), Ghost(0));
        Self::join(&mut text, &self.serialize(&input.1), false, Ghost(items), Ghost(1));
        Self::join(&mut text, &self.serialize(&input.2), false, Ghost(items), Ghost(2));
        Self::join(&mut text, &self.serialize(&input.3), false, Ghost(items), Ghost(3));
        Self::join(&mut text, &self.serialize(&input.4), false, Ghost(items), Ghost(4));
        Self::join(&mut text, &self.serialize(&input.5), false, Ghost(items), Ghost(5));
        Self::join(&mut text, &self.serialize(&input.6), false, Ghost(items), Ghost(6));
        Self::join(&mut text, &self.serialize(&input.7), false, Ghost(items), Ghost(7));
        Self::join(&mut text, &self.serialize(&input.8), false, Ghost(items), Ghost(8));
        Self::join(&mut text, &self.serialize(&input.9), false, Ghost(items), Ghost(9));
        Self::join(&mut text, &self.serialize(&input.10), false, Ghost(items), Ghost(10));
        Self::join(&mut text, &self.serialize(&input.11), false, Ghost(items), Ghost(11));
        Self::finish(text)
    }

    /// Visit and serialize a u8 type.
    fn visit_u8(&self, input: &u8) -> (out: String) {
        render_unsigned(*input as u128)
    }

    /// Visit and serialize a u16 type.
    fn visit_u16(&self, input: &u16) -> (out: String) {
        render_unsigned(*input as u128)
    }

    /// Visit and serialize a u32 type.
    fn visit_u32(&self, input: &u32) -> (out: String) {
        render_unsigned(*input as u128)
    }

    /// Visit and serialize a u64 type.
    fn visit_u64(&self, input: &u64) -> (out: String) {
        render_unsigned(*input as u128)
    }

    /// Visit and serialize a u128 type.
    fn visit_u128(&self, input: &u128) -> (out: String) {
        render_unsigned(*input)
    }

    /// Visit and serialize a unit type.
    fn visit_unit(&self) -> (out: String) {
        String::from_str("null")
    }

    /// Visit and serialize a usize type.
    fn visit_usize(&self, input: &usize) -> (out: String) {
        render_unsigned(*input as u128)
    }
}

} // verus!
