//! Server-assigned identifiers and their string form.
//!
//! Users and tasks are keyed by `u64` identifiers that the stores assign from
//! a counter. On the wire (URL path segments, token subjects, response
//! bodies) an identifier travels as its decimal string; this module holds the
//! verified codec between the two forms.

use vstd::prelude::*;
use vstd::string::*;

verus! {

/// A decimal digit character.
pub open spec fn is_dec_digit(c: char) -> bool {
    48 <= c as u32 && c as u32 <= 57
}

/// Numeric value of a decimal digit character.
pub open spec fn digit_val(c: char) -> nat {
    (c as u32 - 48) as nat
}

/// The digit character for a value below ten.
pub open spec fn digit_char(d: nat) -> char {
    if d == 0 {
        '0'
    } else if d == 1 {
        '1'
    } else if d == 2 {
        '2'
    } else if d == 3 {
        '3'
    } else if d == 4 {
        '4'
    } else if d == 5 {
        '5'
    } else if d == 6 {
        '6'
    } else if d == 7 {
        '7'
    } else if d == 8 {
        '8'
    } else {
        '9'
    }
}

/// The canonical decimal form of a number: most significant digit first, no
/// leading zeros (except for the single digit of zero itself).
pub open spec fn dec_of(n: nat) -> Seq<char>
    decreases n,
{
    if n < 10 {
        seq![digit_char(n)]
    } else {
        dec_of(n / 10).push(digit_char(n % 10))
    }
}

/// Every character of the sequence is a decimal digit.
pub open spec fn all_dec_digits(s: Seq<char>) -> bool {
    forall|i: int| 0 <= i < s.len() ==> is_dec_digit(#[trigger] s[i])
}

/// The number denoted by a digit sequence, most significant digit first.
pub open spec fn dec_val(s: Seq<char>) -> nat
    decreases s.len(),
{
    if s.len() == 0 {
        0
    } else {
        dec_val(s.drop_last()) * 10 + digit_val(s.last())
    }
}

/// What parsing an identifier string yields: the denoted number, if the
/// string is a non-empty run of digits whose value fits in `u64`.
pub open spec fn parse_dec(s: Seq<char>) -> Option<u64> {
    if s.len() > 0 && all_dec_digits(s) && dec_val(s) <= u64::MAX {
        Some(dec_val(s) as u64)
    } else {
        None
    }
}

/// A longer run of digits denotes at least as much as its prefix.
proof fn lemma_dec_val_prefix(s: Seq<char>, j: int)
    requires
        0 <= j <= s.len(),
    ensures
        dec_val(s.subrange(0, j)) <= dec_val(s),
    decreases s.len() - j,
{
    if j == s.len() {
        assert(s.subrange(0, j) =~= s);
    } else {
        assert(s.subrange(0, j + 1).drop_last() =~= s.subrange(0, j));
        assert(dec_val(s.subrange(0, j + 1)) == dec_val(s.subrange(0, j)) * 10 + digit_val(
            s.subrange(0, j + 1).last(),
        ));
        lemma_dec_val_prefix(s, j + 1);
    }
}

/// The single-character string of a digit.
fn digit_str(d: u64) -> (s: &'static str)
    requires
        d < 10,
    ensures
        s@ =~= seq![digit_char(d as nat)],
{
    proof {
        reveal_strlit("0");
        reveal_strlit("1");
        reveal_strlit("2");
        reveal_strlit("3");
        reveal_strlit("4");
        reveal_strlit("5");
        reveal_strlit("6");
        reveal_strlit("7");
        reveal_strlit("8");
        reveal_strlit("9");
    }
    match d {
        0 => "0",
        1 => "1",
        2 => "2",
        3 => "3",
        4 => "4",
        5 => "5",
        6 => "6",
        7 => "7",
        8 => "8",
        _ => "9",
    }
}

/// Renders an identifier as its decimal string.
pub fn u64_to_dec(n: u64) -> (s: String)
    ensures
        s@ == dec_of(n as nat),
    decreases n,
{
    if n < 10 {
        String::from_str(digit_str(n))
    } else {
        let mut s = u64_to_dec(n / 10);
        s.append(digit_str(n % 10));
        proof {
            assert(s@ =~= dec_of((n / 10) as nat).push(digit_char((n % 10) as nat)));
        }
        s
    }
}

/// Parses a decimal identifier string; `None` on an empty string, a
/// non-digit character, or a value over `u64::MAX`.
pub fn dec_to_u64(s: &str) -> (r: Option<u64>)
    ensures
        r == parse_dec(s@),
{
    let len = s.unicode_len();
    if len == 0 {
        return None;
    }
    let mut i: usize = 0;
    let mut acc: u64 = 0;
    while i < len
        invariant
            0 < len == s@.len(),
            i <= len,
            all_dec_digits(s@.subrange(0, i as int)),
            acc as nat == dec_val(s@.subrange(0, i as int)),
        decreases len - i,
    {
        let c = s.get_char(i);
        let u = c as u32;
        if u < 48 || u > 57 {
            proof {
                assert(!is_dec_digit(s@[i as int]));
            }
            return None;
        }
        let d = (u - 48) as u64;
        proof {
            assert(s@.subrange(0, i as int + 1).drop_last() =~= s@.subrange(0, i as int));
            assert(dec_val(s@.subrange(0, i as int + 1)) == acc as nat * 10 + d as nat);
        }
        if acc > (u64::MAX - d) / 10 {
            proof {
                let m = u64::MAX as nat;
                assert(acc as nat * 10 + d as nat > m) by (nonlinear_arith)
                    requires
                        acc as nat > ((m - d as nat) as nat) / 10,
                        d < 10,
                ;
                lemma_dec_val_prefix(s@, i as int + 1);
                assert(dec_val(s@) > m);
            }
            return None;
        }
        proof {
            let m = u64::MAX as int;
            let dd = d as int;
            vstd::arithmetic::div_mod::lemma_fundamental_div_mod(m - dd, 10);
            vstd::arithmetic::div_mod::lemma_mod_bound(m - dd, 10);
            assert(acc as int * 10 + dd <= m);
        }
        acc = acc * 10 + d;
        i = i + 1;
    }
    proof {
        assert(s@.subrange(0, len as int) =~= s@);
    }
    Some(acc)
}

/// A digit character denotes the value it was made from.
proof fn lemma_digit_char_val(d: nat)
    requires
        d < 10,
    ensures
        digit_val(digit_char(d)) == d,
{
    if d == 0 {
        assert('0' as u32 == 48);
    } else if d == 1 {
        assert('1' as u32 == 49);
    } else if d == 2 {
        assert('2' as u32 == 50);
    } else if d == 3 {
        assert('3' as u32 == 51);
    } else if d == 4 {
        assert('4' as u32 == 52);
    } else if d == 5 {
        assert('5' as u32 == 53);
    } else if d == 6 {
        assert('6' as u32 == 54);
    } else if d == 7 {
        assert('7' as u32 == 55);
    } else if d == 8 {
        assert('8' as u32 == 56);
    } else {
        assert('9' as u32 == 57);
    }
}

/// Every character of a rendered identifier is a digit.
proof fn lemma_dec_of_digits(n: nat)
    ensures
        all_dec_digits(dec_of(n)),
        dec_of(n).len() > 0,
    decreases n,
{
    if n < 10 {
    } else {
        lemma_dec_of_digits(n / 10);
        assert forall|i: int| 0 <= i < dec_of(n).len() implies is_dec_digit(#[trigger] dec_of(n)[i]) by {
            if i < dec_of(n / 10).len() {
                assert(dec_of(n)[i] == dec_of(n / 10)[i]);
            }
        }
    }
}

/// A rendered identifier denotes the number it was rendered from.
proof fn lemma_dec_of_val(n: nat)
    ensures
        dec_val(dec_of(n)) == n,
    decreases n,
{
    if n < 10 {
        assert(dec_of(n).drop_last() =~= Seq::<char>::empty());
        assert(dec_val(Seq::<char>::empty()) == 0);
        lemma_digit_char_val(n);
    } else {
        lemma_dec_of_val(n / 10);
        assert(dec_of(n).drop_last() =~= dec_of(n / 10));
        vstd::arithmetic::div_mod::lemma_mod_bound(n as int, 10);
        lemma_digit_char_val(n % 10);
        assert(dec_val(dec_of(n)) == (n / 10) * 10 + digit_val(digit_char(n % 10)));
        assert((n / 10) * 10 + n % 10 == n) by (nonlinear_arith);
    }
}

/// Round trip: parsing the decimal form of an identifier gives it back.
/// This ties the identifiers minted into tokens and response bodies to the
/// ones the handlers recover from request paths and token subjects.
pub proof fn lemma_dec_roundtrip(n: u64)
    ensures
        parse_dec(dec_of(n as nat)) == Some(n),
{
    lemma_dec_of_digits(n as nat);
    lemma_dec_of_val(n as nat);
}

} // verus!
