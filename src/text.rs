use vstd::prelude::*;

use crate::field::Felt;

verus! {

/// The decimal digit for `d` in `0..10`.
pub open spec fn decimal_digit(d: int) -> char {
    if d == 0 {
        '0'
    } else if d == 1 {
        '1'
    } else if d == 2 {
        '2'
    } else if d == 3 {
        '3'
    } else if d == 4 {
        '4'
    } else if d == 5 {
        '5'
    } else if d == 6 {
        '6'
    } else if d == 7 {
        '7'
    } else if d == 8 {
        '8'
    } else {
        '9'
    }
}

/// The lower-case hexadecimal digit for `d` in `0..16`.
pub open spec fn hex_digit(d: int) -> char {
    if d < 10 {
        decimal_digit(d)
    } else if d == 10 {
        'a'
    } else if d == 11 {
        'b'
    } else if d == 12 {
        'c'
    } else if d == 13 {
        'd'
    } else if d == 14 {
        'e'
    } else {
        'f'
    }
}

/// Decimal notation of `n`, without leading zeros.
pub open spec fn decimal(n: nat) -> Seq<char>
    decreases n,
{
    if n < 10 {
        seq![decimal_digit(n as int)]
    } else {
        decimal(n / 10).push(decimal_digit((n % 10) as int))
    }
}

/// Two lower-case hexadecimal digits for each byte, in order.
pub open spec fn hex_bytes(b: Seq<u8>) -> Seq<char>
    decreases b.len(),
{
    if b.len() == 0 {
        Seq::empty()
    } else {
        let last = b.last() as int;
        hex_bytes(b.drop_last()) + seq![hex_digit(last / 16), hex_digit(last % 16)]
    }
}

/// A dot followed by the decimal notation of each value, in order.
pub open spec fn dotted(vals: Seq<nat>) -> Seq<char>
    decreases vals.len(),
{
    if vals.len() == 0 {
        Seq::empty()
    } else {
        dotted(vals.drop_last()) + seq!['.'] + decimal(vals.last())
    }
}

/// Text of a push of several values: `push` followed by `.v` for each value `v`.
pub open spec fn push_list_text(vals: Seq<nat>) -> Seq<char> {
    "push"@ + dotted(vals)
}

/// Relies on `String::push`: appends one character.
#[verifier::external_body]
pub(crate) fn push_char(s: &mut String, c: char)
    ensures
        final(s)@ == old(s)@.push(c),
{
    s.push(c)
}

/// Relies on `String::push_str`: appends the characters of `t`.
#[verifier::external_body]
pub(crate) fn push_str(s: &mut String, t: &str)
    ensures
        final(s)@ == old(s)@ + t@,
{
    s.push_str(t)
}

fn decimal_digit_char(d: u64) -> (c: char)
    requires
        d < 10,
    ensures
        c == decimal_digit(d as int),
{
    if d == 0 {
        '0'
    } else if d == 1 {
        '1'
    } else if d == 2 {
        '2'
    } else if d == 3 {
        '3'
    } else if d == 4 {
        '4'
    } else if d == 5 {
        '5'
    } else if d == 6 {
        '6'
    } else if d == 7 {
        '7'
    } else if d == 8 {
        '8'
    } else {
        '9'
    }
}

fn hex_digit_char(d: u8) -> (c: char)
    requires
        d < 16,
    ensures
        c == hex_digit(d as int),
{
    if d < 10 {
        decimal_digit_char(d as u64)
    } else if d == 10 {
        'a'
    } else if d == 11 {
        'b'
    } else if d == 12 {
        'c'
    } else if d == 13 {
        'd'
    } else if d == 14 {
        'e'
    } else {
        'f'
    }
}

/// Appends the decimal notation of `n`.
pub fn push_decimal(s: &mut String, n: u64)
    ensures
        final(s)@ == old(s)@ + decimal(n as nat),
    decreases n,
{
    if n >= 10 {
        push_decimal(s, n / 10);
    }
    push_char(s, decimal_digit_char(n % 10));
    proof {
        if n >= 10 {
            assert(final(s)@ =~= old(s)@ + decimal(n as nat));
        } else {
            assert(final(s)@ =~= old(s)@ + decimal(n as nat));
        }
    }
}

/// Appends two lower-case hexadecimal digits for each byte of `bytes`.
pub fn push_hex(s: &mut String, bytes: &[u8])
    ensures
        final(s)@ == old(s)@ + hex_bytes(bytes@),
{
    let ghost start = s@;
    let mut i: usize = 0;
    assert(bytes@.take(0) =~= Seq::<u8>::empty());
    assert(s@ =~= start + hex_bytes(bytes@.take(0)));
    while i < bytes.len()
        invariant
            i <= bytes@.len(),
            s@ == start + hex_bytes(bytes@.take(i as int)),
        decreases bytes@.len() - i,
    {
        let b = bytes[i];
        push_char(s, hex_digit_char(b / 16));
        push_char(s, hex_digit_char(b % 16));
        assert(bytes@.take(i + 1).drop_last() =~= bytes@.take(i as int));
        i += 1;
        assert(s@ =~= start + hex_bytes(bytes@.take(i as int)));
    }
    assert(bytes@.take(i as int) =~= bytes@);
}

/// A value written in decimal by its integer.
pub trait DecimalValue {
    /// The integer this value stands for.
    spec fn spec_value(&self) -> nat;

    /// The integer this value stands for.
    fn decimal_value(&self) -> (r: u64)
        ensures
            r as nat == self.spec_value(),
    ;
}

impl DecimalValue for u8 {
    open spec fn spec_value(&self) -> nat {
        *self as nat
    }

    fn decimal_value(&self) -> (r: u64) {
        *self as u64
    }
}

impl DecimalValue for u16 {
    open spec fn spec_value(&self) -> nat {
        *self as nat
    }

    fn decimal_value(&self) -> (r: u64) {
        *self as u64
    }
}

impl DecimalValue for u32 {
    open spec fn spec_value(&self) -> nat {
        *self as nat
    }

    fn decimal_value(&self) -> (r: u64) {
        *self as u64
    }
}

impl DecimalValue for Felt {
    open spec fn spec_value(&self) -> nat {
        self@ as nat
    }

    fn decimal_value(&self) -> (r: u64) {
        self.as_int()
    }
}

/// The integers that a sequence of values stands for.
pub open spec fn values_of<T: DecimalValue>(values: Seq<T>) -> Seq<nat> {
    values.map_values(|v: T| v.spec_value())
}

/// Appends `push` followed by `.v` for each of `values`.
pub fn display_push_vec<T: DecimalValue>(f: &mut String, values: &[T])
    ensures
        final(f)@ == old(f)@ + push_list_text(values_of(values@)),
{
    let ghost start = f@;
    push_str(f, "push");
    let mut i: usize = 0;
    assert(values_of(values@.take(0)) =~= Seq::<nat>::empty());
    while i < values.len()
        invariant
            i <= values@.len(),
            f@ == start + "push"@ + dotted(values_of(values@.take(i as int))),
        decreases values@.len() - i,
    {
        push_char(f, '.');
        push_decimal(f, values[i].decimal_value());
        let ghost prev = values_of(values@.take(i as int));
        assert(values_of(values@.take(i + 1)).drop_last() =~= prev);
        assert(values_of(values@.take(i + 1)).last() == values@[i as int].spec_value());
        i += 1;
        assert(f@ =~= start + "push"@ + dotted(values_of(values@.take(i as int))));
    }
    assert(values@.take(i as int) =~= values@);
    assert(f@ =~= start + push_list_text(values_of(values@)));
}

} // verus!
