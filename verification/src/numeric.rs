//! Decimal numerals.
//!
//! Payment amounts travel as decimal strings. `parse_u128_dec` is a
//! verified parser with exactly the acceptance rule of the standard
//! library's `u128` parse (an optional leading `+`, then one or more
//! decimal digits, value at most `u128::MAX`), and `dec_str_of` is the
//! spec-level rendering of an amount back to its decimal numeral, used
//! to pin down how amounts appear inside serialized envelopes.

use vstd::prelude::*;
use vstd::string::*;

verus! {

/// Whether `c` is a decimal digit (code points 48 through 57,
/// that is '0' through '9').
pub open spec fn is_dec_digit(c: char) -> bool {
    48 <= c as u32 <= 57
}

/// The numeric value of the decimal digit `c`.
pub open spec fn digit_val(c: char) -> nat {
    (c as u32 - 48) as nat
}

/// The value of a sequence of decimal digits, most significant first.
pub open spec fn dec_val(s: Seq<char>) -> nat
    decreases s.len(),
{
    if s.len() == 0 {
        0
    } else {
        dec_val(s.drop_last()) * 10 + digit_val(s.last())
    }
}

pub open spec fn all_dec_digits(s: Seq<char>) -> bool {
    forall|i: int| 0 <= i < s.len() ==> is_dec_digit(#[trigger] s[i])
}

/// The digit portion of a decimal numeral: everything after one
/// optional leading '+' sign.
pub open spec fn numeral_digits(s: Seq<char>) -> Seq<char> {
    if s.len() > 0 && s[0] == '+' {
        s.drop_first()
    } else {
        s
    }
}

/// Whether `s` is accepted by the standard decimal `u128` parse: an
/// optional leading '+', then one or more decimal digits, with a value
/// of at most `u128::MAX`.
pub open spec fn u128_parse_ok(s: Seq<char>) -> bool {
    let d = numeral_digits(s);
    d.len() > 0 && all_dec_digits(d) && dec_val(d) <= u128::MAX
}

/// The value that the decimal `u128` parse reads from `s`.
pub open spec fn u128_parse_val(s: Seq<char>) -> nat {
    dec_val(numeral_digits(s))
}

/// The decimal digit character for the value `d` (meaningful for
/// `d < 10`).
pub open spec fn dec_digit_char(d: nat) -> char {
    if d == 0 {
        '0'
    } else if d == 1 {
        '1'
    } else if d == 2 {
        '2'
    } else if d == 3 {
        '3'
    } else if d == 4 {
        '4'
    } else if d == 5 {
        '5'
    } else if d == 6 {
        '6'
    } else if d == 7 {
        '7'
    } else if d == 8 {
        '8'
    } else {
        '9'
    }
}

/// The decimal numeral of `n`, most significant digit first, with no
/// leading zeros (the numeral of zero is "0").
pub open spec fn dec_str_of(n: nat) -> Seq<char>
    decreases n,
{
    if n < 10 {
        seq![dec_digit_char(n)]
    } else {
        dec_str_of(n / 10) + seq![dec_digit_char(n % 10)]
    }
}

/// Reading the rendered numeral of `n` back gives `n`: the rendering
/// and the parse agree.
pub proof fn lemma_dec_str_of_val(n: nat)
    ensures
        dec_val(dec_str_of(n)) == n,
        all_dec_digits(dec_str_of(n)),
        dec_str_of(n).len() > 0,
    decreases n,
{
    if n < 10 {
        let s = dec_str_of(n);
        assert(s =~= seq![dec_digit_char(n)]);
        assert(s.drop_last() =~= Seq::<char>::empty());
        assert('0' as u32 == 48 && '1' as u32 == 49 && '2' as u32 == 50 && '3' as u32 == 51
            && '4' as u32 == 52 && '5' as u32 == 53 && '6' as u32 == 54 && '7' as u32 == 55
            && '8' as u32 == 56 && '9' as u32 == 57);
        assert(digit_val(dec_digit_char(n)) == n);
        assert(dec_val(Seq::<char>::empty()) == 0);
        assert(s.last() == dec_digit_char(n));
        assert(dec_val(s) == dec_val(s.drop_last()) * 10 + digit_val(s.last()));
        assert(dec_val(s) == digit_val(dec_digit_char(n)));
    } else {
        lemma_dec_str_of_val(n / 10);
        let a = dec_str_of(n / 10);
        let s = dec_str_of(n);
        assert(s =~= a + seq![dec_digit_char(n % 10)]);
        assert(s.drop_last() =~= a);
        assert(s.last() == dec_digit_char(n % 10));
        assert(dec_val(s) == (n / 10) * 10 + digit_val(dec_digit_char(n % 10)));
        assert((n / 10) * 10 + n % 10 == n) by (nonlinear_arith);
        assert(forall|i: int|
            0 <= i < s.len() ==> is_dec_digit(#[trigger] s[i])) by {
            assert(forall|i: int| 0 <= i < a.len() ==> s[i] == a[i]);
        }
    }
}

proof fn lemma_dec_val_extend(s: Seq<char>, i: int)
    requires
        0 <= i < s.len(),
    ensures
        dec_val(s.subrange(0, i + 1)) == dec_val(s.subrange(0, i)) * 10 + digit_val(s[i]),
{
    assert(s.subrange(0, i + 1).drop_last() =~= s.subrange(0, i));
    assert(s.subrange(0, i + 1).last() == s[i]);
}

/// The value of a numeral never drops when more digits follow: the
/// value of a prefix bounds the value of the whole from below.
proof fn lemma_dec_val_prefix(s: Seq<char>, i: int)
    requires
        0 <= i <= s.len(),
    ensures
        dec_val(s.subrange(0, i)) <= dec_val(s),
    decreases s.len() - i,
{
    if i == s.len() {
        assert(s.subrange(0, i) =~= s);
    } else {
        lemma_dec_val_extend(s, i);
        lemma_dec_val_prefix(s, i + 1);
    }
}

/// Parses `s` as a decimal `u128`, accepting exactly what the standard
/// library's `u128` parse accepts.
pub fn parse_u128_dec(s: &str) -> (r: Option<u128>)
    ensures
        r is Some <==> u128_parse_ok(s@),
        r matches Some(v) ==> v as nat == u128_parse_val(s@),
{
    let n: usize = s.unicode_len();
    if n == 0 {
        return None;
    }
    let first = s.get_char(0);
    let start: usize = if first == '+' {
        1
    } else {
        0
    };
    let ghost digits: Seq<char> = s@.subrange(start as int, n as int);
    proof {
        assert(digits =~= numeral_digits(s@));
    }
    if start == n {
        return None;
    }
    let mut acc: u128 = 0;
    let mut i: usize = start;
    while i < n
        invariant
            n == s@.len(),
            start <= i <= n,
            start < n,
            digits =~= s@.subrange(start as int, n as int),
            digits =~= numeral_digits(s@),
            all_dec_digits(s@.subrange(start as int, i as int)),
            acc as nat == dec_val(s@.subrange(start as int, i as int)),
        decreases n - i,
    {
        let c = s.get_char(i);
        let cu = c as u32;
        if cu < 48 || 57 < cu {
            proof {
                assert(digits[i - start] == s@[i as int]);
            }
            return None;
        }
        let d: u128 = (cu - 48) as u128;
        let ghost prefix = s@.subrange(start as int, i as int);
        let ghost prefix1 = s@.subrange(start as int, i as int + 1);
        proof {
            assert(prefix1.drop_last() =~= prefix);
            assert(prefix1.last() == s@[i as int]);
            assert(dec_val(prefix1) == acc as nat * 10 + digit_val(s@[i as int]));
        }
        let step = match acc.checked_mul(10) {
            Some(t) => t.checked_add(d),
            None => None,
        };
        match step {
            Some(v2) => {
                acc = v2;
            },
            None => {
                proof {
                    assert(dec_val(prefix1) > u128::MAX);
                    assert(prefix1 =~= digits.subrange(0, i - start + 1));
                    lemma_dec_val_prefix(digits, i - start + 1);
                }
                return None;
            },
        }
        proof {
            assert(all_dec_digits(prefix1)) by {
                assert(forall|j: int| 0 <= j < prefix.len() ==> prefix1[j] == prefix[j]);
            }
        }
        i = i + 1;
    }
    proof {
        assert(s@.subrange(start as int, n as int) =~= digits);
    }
    Some(acc)
}

} // verus!
