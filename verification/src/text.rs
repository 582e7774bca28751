//! Building strings: decimal numerals and character pushes.

use vstd::prelude::*;

verus! {

/// The character of a decimal digit `d` (`0 <= d < 10`).
pub open spec fn digit_char(d: int) -> char {
    (d + 48) as char
}

/// The value of a decimal digit character.
pub open spec fn digit_value(c: char) -> int {
    (c as int) - 48
}

/// Whether `c` is one of `'0'..='9'`.
pub open spec fn is_digit(c: char) -> bool {
    48 <= (c as int) <= 57
}

/// The decimal numeral of a natural number, without leading zeros.
pub open spec fn nat_numeral(n: nat) -> Seq<char>
    decreases n,
{
    if n < 10 {
        seq![digit_char(n as int)]
    } else {
        nat_numeral(n / 10).push(digit_char((n % 10) as int))
    }
}

/// The decimal numeral of an integer: a minus sign before the numeral of its
/// magnitude when it is negative.
pub open spec fn int_numeral(n: int) -> Seq<char> {
    if n < 0 {
        seq!['-'] + nat_numeral((-n) as nat)
    } else {
        nat_numeral(n as nat)
    }
}

/// The number that a sequence of decimal digits denotes.
pub open spec fn digits_value(s: Seq<char>) -> int
    decreases s.len(),
{
    if s.len() == 0 {
        0
    } else {
        digits_value(s.drop_last()) * 10 + digit_value(s.last())
    }
}

/// The number that a numeral denotes: a leading minus sign negates the digits after it.
pub open spec fn numeral_value(s: Seq<char>) -> int {
    if s.len() > 0 && s[0] == '-' {
        -digits_value(s.drop_first())
    } else {
        digits_value(s)
    }
}

/// Reading back the numeral of a natural number gives that number.
pub proof fn lemma_nat_numeral_value(n: nat)
    ensures
        digits_value(nat_numeral(n)) == n,
        nat_numeral(n).len() > 0,
        forall|i: int| 0 <= i < nat_numeral(n).len() ==> is_digit(#[trigger] nat_numeral(n)[i]),
    decreases n,
{
    if n < 10 {
        let s = nat_numeral(n);
        assert(s.drop_last() =~= Seq::<char>::empty());
        assert(digits_value(s.drop_last()) == 0);
    } else {
        lemma_nat_numeral_value(n / 10);
        let s = nat_numeral(n);
        assert(s.drop_last() =~= nat_numeral(n / 10));
    }
}

/// Reading back the numeral of an integer gives that integer: the numeral that
/// `decimal` writes determines the number it was written from.
pub proof fn lemma_int_numeral_value(n: int)
    ensures
        numeral_value(int_numeral(n)) == n,
{
    if n < 0 {
        let m = (-n) as nat;
        lemma_nat_numeral_value(m);
        let s = int_numeral(n);
        assert(s.drop_first() =~= nat_numeral(m));
    } else {
        lemma_nat_numeral_value(n as nat);
        let s = nat_numeral(n as nat);
        assert(is_digit(s[0]));
    }
}

/// Two integers with the same numeral are equal.
pub proof fn lemma_int_numeral_injective(a: int, b: int)
    ensures
        int_numeral(a) == int_numeral(b) ==> a == b,
{
    lemma_int_numeral_value(a);
    lemma_int_numeral_value(b);
}

/// The numeral of a natural number is made of the characters `'0'..='9'`,
/// and starts with `'0'` only when the number is zero.
pub proof fn lemma_nat_numeral_digits(n: nat)
    ensures
        nat_numeral(n).len() > 0,
        forall|i: int| 0 <= i < nat_numeral(n).len() ==>
            ('0' as int) <= (#[trigger] nat_numeral(n)[i] as int) <= ('9' as int),
        nat_numeral(n)[0] == '0' ==> n == 0,
    decreases n,
{
    lemma_nat_numeral_value(n);
    if n >= 10 {
        lemma_nat_numeral_digits(n / 10);
        assert(nat_numeral(n)[0] == nat_numeral(n / 10)[0]);
    }
}

/// The numeral of an integer: a minus sign exactly when it is negative, at
/// least one digit after it, only digits after the sign, no leading zero
/// unless the integer is zero, and its digits read back, in base ten, as the
/// integer.
pub proof fn lemma_int_numeral_shape(n: int)
    ensures
        numeral_value(int_numeral(n)) == n,
        (int_numeral(n)[0] == '-') == (n < 0),
        int_numeral(n).len() > (if n < 0 { 1int } else { 0int }),
        forall|i: int| (if n < 0 { 1int } else { 0int }) <= i < int_numeral(n).len() ==>
            ('0' as int) <= (#[trigger] int_numeral(n)[i] as int) <= ('9' as int),
        int_numeral(n)[(if n < 0 { 1int } else { 0int })] == '0' ==> n == 0,
{
    lemma_int_numeral_value(n);
    if n < 0 {
        let m = (-n) as nat;
        lemma_nat_numeral_digits(m);
        assert forall|i: int| 1 <= i < int_numeral(n).len() implies
            ('0' as int) <= (#[trigger] int_numeral(n)[i] as int) <= ('9' as int) by {
            assert(int_numeral(n)[i] == nat_numeral(m)[i - 1]);
        }
        assert(int_numeral(n)[1] == nat_numeral(m)[0]);
    } else {
        lemma_nat_numeral_digits(n as nat);
    }
}

/// How numerals of related integers relate, in base ten: a one-digit number is
/// the single character `'0' + n`; the numeral of a larger number is the
/// numeral of its tenth followed by the character of its last decimal digit;
/// the numeral of a negative number is `'-'` before the numeral of its
/// magnitude.
pub proof fn lemma_int_numeral_steps(n: int)
    ensures
        0 <= n < 10 ==> int_numeral(n).len() == 1 && int_numeral(n)[0] as int == 48 + n,
        n >= 10 ==> int_numeral(n) == int_numeral(n / 10).push(int_numeral(n % 10)[0]),
        n >= 10 ==> int_numeral(n).last() as int == 48 + n % 10,
        n < 0 ==> int_numeral(n) == seq!['-'] + int_numeral(-n),
{
}

/// `std`'s `String::push`: appends `c` to `s`.
#[verifier::external_body]
fn push_char(s: &mut String, c: char)
    ensures
        final(s)@ == old(s)@.push(c),
{
    s.push(c);
}

/// Appends the decimal numeral of `n` to `s`.
fn push_nat_numeral(s: &mut String, n: u32)
    ensures
        final(s)@ == old(s)@ + nat_numeral(n as nat),
    decreases n,
{
    if n >= 10 {
        push_nat_numeral(s, n / 10);
    }
    let d: u32 = n % 10;
    let c: char = (48u8 + d as u8) as char;
    assert(c == digit_char(d as int));
    push_char(s, c);
    assert(final(s)@ == old(s)@ + nat_numeral(n as nat));
}

/// The decimal numeral of `n`, as `format!("{}", n)` writes it.
pub fn decimal(n: i32) -> (s: String)
    ensures
        s@ == int_numeral(n as int),
        numeral_value(s@) == n,
        (s@[0] == '-') == (n < 0),
        s@.len() > (if n < 0 { 1int } else { 0int }),
        forall|i: int| (if n < 0 { 1int } else { 0int }) <= i < s@.len() ==>
            ('0' as int) <= (#[trigger] s@[i] as int) <= ('9' as int),
        s@[(if n < 0 { 1int } else { 0int })] == '0' ==> n == 0,
{
    proof {
        lemma_int_numeral_shape(n as int);
    }
    let mut s = String::new();
    if n < 0 {
        push_char(&mut s, '-');
        let magnitude: u32 = (0i64 - n as i64) as u32;
        push_nat_numeral(&mut s, magnitude);
    } else {
        push_nat_numeral(&mut s, n as u32);
    }
    s
}

} // verus!
