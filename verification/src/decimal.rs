//! Integers in base ten: the text of a number, and the number a text denotes.

use crate::text::{digit, is_digit};
use vstd::prelude::*;

verus! {

/// The character for the digit `d`, which is below ten.
pub open spec fn digit_char(d: nat) -> char {
    if d == 0 {
        '0'
    } else if d == 1 {
        '1'
    } else if d == 2 {
        '2'
    } else if d == 3 {
        '3'
    } else if d == 4 {
        '4'
    } else if d == 5 {
        '5'
    } else if d == 6 {
        '6'
    } else if d == 7 {
        '7'
    } else if d == 8 {
        '8'
    } else {
        '9'
    }
}

/// The value of the digit `c`.
pub open spec fn digit_value(c: char) -> nat {
    (c as u32 - '0' as u32) as nat
}

/// The digits of `n`, most significant first, with no leading zero unless
/// `n` is zero.
pub open spec fn digits(n: nat) -> Seq<char>
    decreases n,
{
    if n < 10 {
        seq![digit_char(n)]
    } else {
        digits(n / 10).push(digit_char(n % 10))
    }
}

/// The canonical text of `i`: its digits, after a `-` where it is negative.
pub open spec fn decimal(i: int) -> Seq<char> {
    if i < 0 {
        seq!['-'] + digits((-i) as nat)
    } else {
        digits(i as nat)
    }
}

/// Why a text denotes no number of the wanted type.
#[derive(Clone, Copy, Debug, PartialEq, Eq)]
pub enum Malformed {
    /// The text is empty.
    Empty,
    /// A character is no digit where one is needed.
    InvalidDigit,
    /// The number is above the type's largest value.
    PosOverflow,
    /// The number is below the type's smallest value.
    NegOverflow,
}

/// What reading a run of digits from the left comes to.
pub enum Reading {
    /// Every character was a digit and the number stayed within the limit.
    Value(nat),
    /// A character that is no digit came before the limit was passed.
    Invalid,
    /// The number passed the limit before a character that is no digit came.
    Overflow,
}

/// Reads `s` as digits from the left and stops at the first character that
/// is no digit, or at the first digit with which the number passes `limit`.
pub open spec fn read_digits(s: Seq<char>, limit: nat) -> Reading
    decreases s.len(),
{
    if s.len() == 0 {
        Reading::Value(0)
    } else {
        match read_digits(s.drop_last(), limit) {
            Reading::Value(n) => if !digit(s.last()) {
                Reading::Invalid
            } else if n * 10 + digit_value(s.last()) > limit {
                Reading::Overflow
            } else {
                Reading::Value(n * 10 + digit_value(s.last()))
            },
            stopped => stopped,
        }
    }
}

/// The integer between `min` and `max` that `s` denotes: an optional sign,
/// `-` only where `min` is negative, and then at least one digit.
pub open spec fn parse(s: Seq<char>, min: int, max: int) -> Result<int, Malformed> {
    if s.len() == 0 {
        Err(Malformed::Empty)
    } else if s.len() == 1 && (s[0] == '+' || s[0] == '-') {
        Err(Malformed::InvalidDigit)
    } else if s[0] == '-' && min < 0 {
        match read_digits(s.skip(1), (-min) as nat) {
            Reading::Value(n) => Ok(-(n as int)),
            Reading::Invalid => Err(Malformed::InvalidDigit),
            Reading::Overflow => Err(Malformed::NegOverflow),
        }
    } else {
        let body = if s[0] == '+' {
            s.skip(1)
        } else {
            s
        };
        match read_digits(body, max as nat) {
            Reading::Value(n) => Ok(n as int),
            Reading::Invalid => Err(Malformed::InvalidDigit),
            Reading::Overflow => Err(Malformed::PosOverflow),
        }
    }
}

/// A sign and a magnitude, as read from a text.
#[derive(Clone, Copy, Debug)]
pub struct Number {
    /// Whether the text began with `-`.
    pub negative: bool,
    /// The number that the digits denote.
    pub magnitude: u128,
}

impl Number {
    /// The integer that the sign and the magnitude stand for.
    pub open spec fn value(self) -> int {
        if self.negative {
            -(self.magnitude as int)
        } else {
            self.magnitude as int
        }
    }

    /// The number as a signed integer.
    pub fn signed(self) -> (i: i128)
        requires
            i128::MIN <= self.value() <= i128::MAX,
        ensures
            i == self.value(),
    {
        if !self.negative {
            self.magnitude as i128
        } else if self.magnitude == 0 {
            0
        } else {
            -((self.magnitude - 1) as i128) - 1
        }
    }

    /// The number as an unsigned integer.
    pub fn unsigned(self) -> (u: u128)
        requires
            0 <= self.value(),
        ensures
            u == self.value(),
    {
        if self.negative {
            0
        } else {
            self.magnitude
        }
    }
}

/// The character for the digit `d`.
pub fn digit_of(d: u8) -> (c: char)
    requires
        d < 10,
    ensures
        c == digit_char(d as nat),
        digit(c),
        digit_value(c) == d,
{
    match d {
        0 => '0',
        1 => '1',
        2 => '2',
        3 => '3',
        4 => '4',
        5 => '5',
        6 => '6',
        7 => '7',
        8 => '8',
        _ => '9',
    }
}

/// The value of the digit `c`.
pub fn value_of(c: char) -> (d: u8)
    requires
        digit(c),
    ensures
        d == digit_value(c),
        d < 10,
{
    let n: u32 = c as u32;
    (n - 48) as u8
}

/// Appends the digits of `n` to `text`.
pub fn push_digits(text: &mut String, n: u128)
    ensures
        final(text)@ == old(text)@ + digits(n as nat),
    decreases n,
{
    if n >= 10 {
        push_digits(text, n / 10);
    }
    text.push(digit_of((n % 10) as u8));
    proof {
        if n >= 10 {
            assert(text@ =~= old(text)@ + digits(n as nat));
        } else {
            assert(text@ =~= old(text)@ + digits(n as nat));
        }
    }
}

/// The canonical text of `n`.
pub fn render_unsigned(n: u128) -> (text: String)
    ensures
        text@ == decimal(n as int),
{
    let mut text = String::new();
    push_digits(&mut text, n);
    assert(text@ =~= digits(n as nat));
    text
}

/// The canonical text of `i`.
pub fn render_signed(i: i128) -> (text: String)
    ensures
        text@ == decimal(i as int),
{
    let mut text = String::new();
    if i < 0 {
        text.push('-');
        let below: u128 = (-(i + 1)) as u128;
        push_digits(&mut text, below + 1);
        assert(text@ =~= seq!['-'] + digits((-i) as nat));
    } else {
        push_digits(&mut text, i as u128);
        assert(text@ =~= digits(i as nat));
    }
    text
}

/// Reads `v[from..]` as digits, as `read_digits` does.
fn read_from(v: &Vec<char>, from: usize, limit: u128) -> (r: Result<u128, Malformed>)
    requires
        from <= v.len(),
    ensures
        match read_digits(v@.skip(from as int), limit as nat) {
            Reading::Value(n) => r == Ok::<u128, Malformed>(n as u128) && n <= limit,
            Reading::Invalid => r == Err::<u128, Malformed>(Malformed::InvalidDigit),
            Reading::Overflow => r == Err::<u128, Malformed>(Malformed::PosOverflow),
        },
{
    let ghost body = v@.skip(from as int);
    let mut n: u128 = 0;
    let mut i: usize = from;
    assert(body.take(0) =~= Seq::<char>::empty());
    while i < v.len()
        invariant
            from <= i <= v.len(),
            body == v@.skip(from as int),
            n <= limit,
            read_digits(body.take(i - from), limit as nat) == Reading::Value(n as nat),
        decreases v.len() - i,
    {
        let c = v[i];
        let ghost prefix = body.take(i - from + 1);
        proof {
            assert(prefix.drop_last() =~= body.take(i - from));
            assert(prefix.last() == c);
            lemma_read_prefix(body, i - from + 1, limit as nat);
        }
        if !is_digit(c) {
            return Err(Malformed::InvalidDigit);
        }
        let d: u128 = value_of(c) as u128;
        if d > limit || n > (limit - d) / 10 {
            return Err(Malformed::PosOverflow);
        }
        n = n * 10 + d;
        i += 1;
    }
    assert(body.take(i - from) =~= body);
    Ok(n)
}

/// Where reading a prefix of `s` has stopped, reading `s` stops likewise.
pub proof fn lemma_read_prefix(s: Seq<char>, k: int, limit: nat)
    requires
        0 <= k <= s.len(),
    ensures
        !(read_digits(s.take(k), limit) is Value) ==> read_digits(s, limit) == read_digits(
            s.take(k),
            limit,
        ),
    decreases s.len() - k,
{
    if k < s.len() {
        lemma_read_prefix(s, k + 1, limit);
        assert(s.take(k + 1).drop_last() =~= s.take(k));
    } else {
        assert(s.take(k) =~= s);
    }
}

/// The number between `-lowest` and `highest` that the characters of `v`
/// denote.
pub fn parse_decimal(v: &Vec<char>, lowest: u128, highest: u128) -> (r: Result<Number, Malformed>)
    ensures
        match parse(v@, -(lowest as int), highest as int) {
            Ok(i) => r matches Ok(n) && n.value() == i && (n.negative ==> n.magnitude <= lowest)
                && (!n.negative ==> n.magnitude <= highest),
            Err(e) => r == Err::<Number, Malformed>(e),
        },
{
    if v.len() == 0 {
        return Err(Malformed::Empty);
    }
    let first = v[0];
    if v.len() == 1 && (first == '+' || first == '-') {
        return Err(Malformed::InvalidDigit);
    }
    if first == '-' && lowest > 0 {
        match read_from(v, 1, lowest) {
            Ok(magnitude) => Ok(Number { negative: true, magnitude }),
            Err(Malformed::PosOverflow) => Err(Malformed::NegOverflow),
            Err(e) => Err(e),
        }
    } else {
        let from: usize = if first == '+' {
            1
        } else {
            0
        };
        assert(v@.skip(0) =~= v@);
        match read_from(v, from, highest) {
            Ok(magnitude) => Ok(Number { negative: false, magnitude }),
            Err(e) => Err(e),
        }
    }
}

/// Every character of a number's digits is a digit, and the first is no
/// zero unless the number is zero.
pub proof fn lemma_digits_shape(n: nat)
    ensures
        digits(n).len() > 0,
        forall|j: int| 0 <= j < digits(n).len() ==> digit(#[trigger] digits(n)[j]),
        n > 0 ==> digits(n)[0] != '0',
        n == 0 ==> digits(n) == seq!['0'],
    decreases n,
{
    if n >= 10 {
        lemma_digits_shape(n / 10);
        let front = digits(n / 10);
        assert forall|j: int| 0 <= j < digits(n).len() implies digit(#[trigger] digits(n)[j]) by {
            if j < front.len() {
                assert(digits(n)[j] == front[j]);
            }
        }
        assert(digits(n)[0] == front[0]);
    }
}

/// Reading the digits of a number within the limit gives the number.
pub proof fn lemma_read_digits(n: nat, limit: nat)
    requires
        n <= limit,
    ensures
        read_digits(digits(n), limit) == Reading::Value(n),
    decreases n,
{
    reveal_with_fuel(read_digits, 2);
    if n >= 10 {
        lemma_read_digits(n / 10, limit);
        assert(digits(n).drop_last() =~= digits(n / 10));
        assert(digits(n).last() == digit_char(n % 10));
    } else {
        assert(digits(n).drop_last() =~= Seq::<char>::empty());
        assert(digits(n).last() == digit_char(n));
    }
}

/// The canonical text of an integer denotes that integer, in every type
/// that holds it.
pub proof fn lemma_parse_decimal(i: int, min: int, max: int)
    requires
        min <= i <= max,
        min <= 0 <= max,
    ensures
        parse(decimal(i), min, max) == Ok::<int, Malformed>(i),
{
    if i < 0 {
        let n = (-i) as nat;
        lemma_digits_shape(n);
        lemma_read_digits(n, (-min) as nat);
        assert(decimal(i).skip(1) =~= digits(n));
    } else {
        let n = i as nat;
        lemma_digits_shape(n);
        lemma_read_digits(n, max as nat);
        assert(digit(decimal(i)[0]));
    }
}

} // verus!
