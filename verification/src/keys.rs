//! Decimal string keys for the slot store.
//!
//! Store keys are minted from insertion order: the entry inserted when
//! the store held `n` entries gets the decimal representation of `n` as
//! its key. This module defines that representation as a spec function
//! and provides a verified renderer for it.

use vstd::prelude::*;
use vstd::string::StringExecFns;

verus! {

/// The character for a single decimal digit value.
pub open spec fn digit_char(d: nat) -> char {
    if d == 0 {
        '0'
    } else if d == 1 {
        '1'
    } else if d == 2 {
        '2'
    } else if d == 3 {
        '3'
    } else if d == 4 {
        '4'
    } else if d == 5 {
        '5'
    } else if d == 6 {
        '6'
    } else if d == 7 {
        '7'
    } else if d == 8 {
        '8'
    } else {
        '9'
    }
}

/// The usual decimal representation of `n`: most significant digit
/// first, no leading zeros except for `n == 0` itself.
pub open spec fn dec_str(n: nat) -> Seq<char>
    decreases n,
{
    if n < 10 {
        seq![digit_char(n)]
    } else {
        dec_str(n / 10) + seq![digit_char(n % 10)]
    }
}

pub proof fn lemma_dec_str_len(n: nat)
    ensures
        dec_str(n).len() >= 1,
    decreases n,
{
    if n >= 10 {
        lemma_dec_str_len(n / 10);
    }
}

/// Law: the decimal representation is injective, so distinct positions
/// in the store always carry distinct keys and each key names at most
/// one entry.
/// Distinct digit values are written as distinct characters.
pub proof fn lemma_digit_char_injective(a: nat, b: nat)
    requires
        a < 10,
        b < 10,
        digit_char(a) == digit_char(b),
    ensures
        a == b,
{
}

pub proof fn lemma_dec_str_injective(m: nat, n: nat)
    requires
        dec_str(m) == dec_str(n),
    ensures
        m == n,
    decreases m,
{
    if m >= 10 {
        lemma_dec_str_len(m / 10);
        assert(dec_str(m) == dec_str(m / 10) + seq![digit_char(m % 10)]);
        assert(dec_str(m).len() == dec_str(m / 10).len() + 1);
    }
    if n >= 10 {
        lemma_dec_str_len(n / 10);
        assert(dec_str(n) == dec_str(n / 10) + seq![digit_char(n % 10)]);
        assert(dec_str(n).len() == dec_str(n / 10).len() + 1);
    }
    if m < 10 && n < 10 {
        assert(dec_str(m) == seq![digit_char(m)]);
        assert(dec_str(n) == seq![digit_char(n)]);
        assert(seq![digit_char(m)][0] == seq![digit_char(n)][0]);
        lemma_digit_char_injective(m, n);
    } else if m >= 10 && n >= 10 {
        let a = dec_str(m / 10);
        let b = dec_str(n / 10);
        let x = digit_char(m % 10);
        let y = digit_char(n % 10);
        assert((a + seq![x]).last() == x);
        assert((b + seq![y]).last() == y);
        lemma_digit_char_injective(m % 10, n % 10);
        assert(a =~= (a + seq![x]).drop_last());
        assert(b =~= (b + seq![y]).drop_last());
        lemma_dec_str_injective(m / 10, n / 10);
    } else {
        assert(dec_str(m).len() != dec_str(n).len());
    }
}

/// A one-character string for a single decimal digit value.
fn digit_str(d: usize) -> (r: &'static str)
    requires
        d < 10,
    ensures
        r@ == seq![digit_char(d as nat)],
{
    proof {
        reveal_strlit("0");
        reveal_strlit("1");
        reveal_strlit("2");
        reveal_strlit("3");
        reveal_strlit("4");
        reveal_strlit("5");
        reveal_strlit("6");
        reveal_strlit("7");
        reveal_strlit("8");
        reveal_strlit("9");
    }
    let r: &'static str = match d {
        0 => "0",
        1 => "1",
        2 => "2",
        3 => "3",
        4 => "4",
        5 => "5",
        6 => "6",
        7 => "7",
        8 => "8",
        _ => "9",
    };
    proof {
        assert(r@ =~= seq![digit_char(d as nat)]);
    }
    r
}

/// Renders `n` in decimal, exactly as `dec_str` describes it.
pub fn key_string(n: usize) -> (r: String)
    ensures
        r@ == dec_str(n as nat),
    decreases n,
{
    if n < 10 {
        String::from_str(digit_str(n))
    } else {
        let mut s = key_string(n / 10);
        s.append(digit_str(n % 10));
        proof {
            assert(s@ =~= dec_str(n as nat));
        }
        s
    }
}

} // verus!
