//! Small verified string helpers shared across the library.

use vstd::prelude::*;
use vstd::string::StrSliceExecFns;
use vstd::string::StringExecFns;

verus! {

/// Relies on `String::push`: appends exactly one character.
#[verifier::external_body]
pub(crate) fn push_char(s: &mut String, c: char)
    ensures
        final(s)@ == old(s)@.push(c),
{
    s.push(c);
}

/// The decimal digit `d` as a character.
pub open spec fn dec_digit(d: int) -> char {
    (48 + d) as char
}

/// The usual decimal rendering of a non-negative integer, no leading zeros.
pub open spec fn dec_str_of(n: nat) -> Seq<char>
    decreases n,
{
    if n < 10 {
        seq![dec_digit(n as int)]
    } else {
        dec_str_of(n / 10) + seq![dec_digit(n as int % 10)]
    }
}

/// The decimal rendering of any integer: a `-` sign before the magnitude
/// for negative values.
pub open spec fn int_dec_str(n: int) -> Seq<char> {
    if n < 0 {
        seq!['-'] + dec_str_of((-n) as nat)
    } else {
        dec_str_of(n as nat)
    }
}

fn digit_char(d: u8) -> (c: char)
    requires
        d < 10,
    ensures
        c == dec_digit(d as int),
{
    (48 + d) as char
}

/// Renders `n` in decimal.
pub fn u64_to_dec_string(n: u64) -> (r: String)
    ensures
        r@ == dec_str_of(n as nat),
    decreases n,
{
    if n < 10 {
        let mut s = String::new();
        push_char(&mut s, digit_char(n as u8));
        proof {
            assert(s@ =~= seq![dec_digit(n as int)]);
        }
        s
    } else {
        let mut s = u64_to_dec_string(n / 10);
        push_char(&mut s, digit_char((n % 10) as u8));
        proof {
            assert(s@ =~= dec_str_of((n / 10) as nat) + seq![dec_digit(n as int % 10)]);
        }
        s
    }
}

/// Renders `n` in decimal, with a sign when negative.
pub fn i64_to_dec_string(n: i64) -> (r: String)
    ensures
        r@ == int_dec_str(n as int),
{
    if n >= 0 {
        u64_to_dec_string(n as u64)
    } else {
        let magnitude: u64 = (-(n as i128)) as u64;
        proof {
            assert(magnitude == -(n as int));
        }
        let mut s = String::new();
        push_char(&mut s, '-');
        let rest = u64_to_dec_string(magnitude);
        s.append(rest.as_str());
        proof {
            assert(s@ =~= seq!['-'] + dec_str_of((-(n as int)) as nat));
        }
        s
    }
}

/// Character-for-character string equality.
pub fn str_eq(a: &str, b: &str) -> (r: bool)
    ensures
        r == (a@ == b@),
{
    let alen = a.unicode_len();
    let blen = b.unicode_len();
    if alen != blen {
        return false;
    }
    let mut i: usize = 0;
    while i < alen
        invariant
            alen == a@.len(),
            alen == b@.len(),
            i <= alen,
            forall|j: int| 0 <= j < i ==> a@[j] == b@[j],
        decreases alen - i,
    {
        if a.get_char(i) != b.get_char(i) {
            proof {
                assert(a@[i as int] != b@[i as int]);
            }
            return false;
        }
        i = i + 1;
    }
    proof {
        assert(a@ =~= b@);
    }
    true
}

} // verus!
