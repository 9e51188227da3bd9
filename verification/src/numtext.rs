//! Decimal rendering of unsigned integers, used for step numbers,
//! positional element keys and collision suffixes.

use crate::textutil::push_char;
use vstd::prelude::*;

verus! {

/// The character for one decimal digit.
pub open spec fn digit_char(d: nat) -> char
    recommends
        d < 10,
{
    if d == 0 {
        '0'
    } else if d == 1 {
        '1'
    } else if d == 2 {
        '2'
    } else if d == 3 {
        '3'
    } else if d == 4 {
        '4'
    } else if d == 5 {
        '5'
    } else if d == 6 {
        '6'
    } else if d == 7 {
        '7'
    } else if d == 8 {
        '8'
    } else {
        '9'
    }
}

/// The usual decimal notation of `n`, most significant digit first,
/// with no leading zeros (a single `'0'` for zero).
pub open spec fn dec_of(n: nat) -> Seq<char>
    decreases n,
{
    if n < 10 {
        seq![digit_char(n)]
    } else {
        dec_of(n / 10) + seq![digit_char(n % 10)]
    }
}

pub proof fn lemma_dec_of_len(n: nat)
    ensures
        dec_of(n).len() >= 1,
    decreases n,
{
    if n >= 10 {
        lemma_dec_of_len(n / 10);
    }
}

/// Two distinct numbers never share a decimal notation.
pub proof fn lemma_dec_of_injective(a: nat, b: nat)
    requires
        dec_of(a) == dec_of(b),
    ensures
        a == b,
    decreases a + b,
{
    lemma_dec_of_len(a);
    lemma_dec_of_len(b);
    if a < 10 && b < 10 {
        assert(dec_of(a)[0] == digit_char(a));
        assert(dec_of(b)[0] == digit_char(b));
    } else if a < 10 && b >= 10 {
        lemma_dec_of_len(b / 10);
        assert(dec_of(b).len() >= 2);
    } else if a >= 10 && b < 10 {
        lemma_dec_of_len(a / 10);
        assert(dec_of(a).len() >= 2);
    } else {
        let da = dec_of(a / 10);
        let db = dec_of(b / 10);
        assert(dec_of(a).last() == digit_char(a % 10));
        assert(dec_of(b).last() == digit_char(b % 10));
        assert(a % 10 == b % 10);
        assert(da =~= dec_of(a).subrange(0, dec_of(a).len() - 1));
        assert(db =~= dec_of(b).subrange(0, dec_of(b).len() - 1));
        lemma_dec_of_injective(a / 10, b / 10);
    }
}

fn digit_exec(d: u64) -> (c: char)
    requires
        d < 10,
    ensures
        c == digit_char(d as nat),
{
    if d == 0 {
        '0'
    } else if d == 1 {
        '1'
    } else if d == 2 {
        '2'
    } else if d == 3 {
        '3'
    } else if d == 4 {
        '4'
    } else if d == 5 {
        '5'
    } else if d == 6 {
        '6'
    } else if d == 7 {
        '7'
    } else if d == 8 {
        '8'
    } else {
        '9'
    }
}

/// Render `n` in decimal.
pub fn to_decimal(n: u64) -> (r: String)
    ensures
        r@ == dec_of(n as nat),
    decreases n,
{
    let c = digit_exec(n % 10);
    if n < 10 {
        let mut s = String::new();
        push_char(&mut s, c);
        assert(s@ =~= dec_of(n as nat));
        s
    } else {
        let mut s = to_decimal(n / 10);
        push_char(&mut s, c);
        assert(s@ =~= dec_of(n as nat));
        s
    }
}

} // verus!
