//! Small verified text utilities: string equality and parsing of decimal
//! numerals into `u32`, as the command line hands them over.

use vstd::prelude::*;
use vstd::string::*;

verus! {

/// String equality, stated over the character views.
pub fn str_eq(a: &str, b: &str) -> (r: bool)
    ensures
        r == (a@ == b@),
{
    let x: String = a.to_owned();
    let y: String = b.to_owned();
    x == y
}

/// Whether `c` is an ASCII decimal digit.
pub open spec fn is_dec_digit(c: char) -> bool {
    '0' <= c && c <= '9'
}

/// The numeric value of a decimal digit.
pub open spec fn digit_value(c: char) -> nat {
    (c as nat - '0' as nat) as nat
}

/// The value of a sequence of decimal digits, most significant first.
pub open spec fn dec_value(s: Seq<char>) -> nat
    decreases s.len(),
{
    if s.len() == 0 {
        0
    } else {
        dec_value(s.drop_last()) * 10 + digit_value(s.last())
    }
}

/// The digits of a numeral: everything after an optional leading `+` sign.
pub open spec fn digit_part(s: Seq<char>) -> Seq<char> {
    if s.len() > 0 && s[0] == '+' {
        s.drop_first()
    } else {
        s
    }
}

/// Whether `s` is a numeral that `u32` parsing accepts: an optional leading
/// `+`, then at least one decimal digit, with a value that fits in `u32`.
pub open spec fn is_u32_numeral(s: Seq<char>) -> bool {
    &&& digit_part(s).len() > 0
    &&& forall|i: int| 0 <= i < digit_part(s).len() ==> is_dec_digit(#[trigger] digit_part(s)[i])
    &&& dec_value(digit_part(s)) <= u32::MAX
}

/// Extending a digit sequence can only increase its value.
proof fn lemma_dec_value_prefix(s: Seq<char>, k: int)
    requires
        0 <= k <= s.len(),
    ensures
        dec_value(s) >= dec_value(s.take(k)),
    decreases s.len() - k,
{
    if k == s.len() {
        assert(s.take(k) =~= s);
    } else {
        assert(s.take(k + 1).drop_last() =~= s.take(k));
        assert(s.take(k + 1).last() == s[k]);
        assert(dec_value(s.take(k + 1)) == dec_value(s.take(k)) * 10 + digit_value(s[k]));
        assert(dec_value(s.take(k)) * 10 >= dec_value(s.take(k))) by (nonlinear_arith);
        lemma_dec_value_prefix(s, k + 1);
    }
}

/// Parse a `u32` numeral: an optional leading `+` sign followed by decimal
/// digits. Returns `None` on an empty token, a stray character, or a value
/// that does not fit in `u32` — exactly the tokens that `u32` parsing
/// rejects.
pub fn parse_u32(s: &str) -> (r: Option<u32>)
    ensures
        is_u32_numeral(s@) ==> r == Some(dec_value(digit_part(s@)) as u32),
        !is_u32_numeral(s@) ==> r is None,
{
    let n: usize = s.unicode_len();
    if n == 0 {
        return None;
    }
    let first: char = s.get_char(0);
    let start: usize = if first == '+' {
        1
    } else {
        0
    };
    proof {
        if start == 1 {
            assert(digit_part(s@) =~= s@.subrange(1, n as int));
        } else {
            assert(digit_part(s@) =~= s@.subrange(0, n as int));
        }
    }
    if start == n {
        // a bare sign has no digits
        return None;
    }
    let ghost d: Seq<char> = digit_part(s@);
    let mut val: u32 = 0;
    let mut i: usize = start;
    while i < n
        invariant
            start <= i <= n,
            start <= 1,
            n == s@.len(),
            d == digit_part(s@),
            d =~= s@.subrange(start as int, n as int),
            forall|j: int| 0 <= j < i - start ==> is_dec_digit(#[trigger] d[j]),
            val == dec_value(d.take(i - start)),
        decreases n - i,
    {
        let c: char = s.get_char(i);
        let u: u32 = c as u32;
        proof {
            assert(d[i - start] == s@[i as int]);
        }
        if u < 48 || u > 57 {
            proof {
                assert(!is_dec_digit(d[i - start]));
            }
            return None;
        }
        let dgt: u32 = u - 48;
        proof {
            assert(is_dec_digit(d[i - start]));
            assert(dgt == digit_value(d[i - start]));
        }
        if val > (u32::MAX - dgt) / 10 {
            proof {
                let k = i - start;
                assert(d.take(k + 1).drop_last() =~= d.take(k));
                assert(d.take(k + 1).last() == d[k]);
                assert(val * 10 + dgt > u32::MAX) by (nonlinear_arith)
                    requires
                        val > (u32::MAX - dgt) / 10,
                        dgt <= 9,
                ;
                assert(dec_value(d.take(k + 1)) > u32::MAX);
                lemma_dec_value_prefix(d, k + 1);
                assert(dec_value(d) > u32::MAX);
            }
            return None;
        }
        proof {
            let k = i - start;
            assert(d.take(k + 1).drop_last() =~= d.take(k));
            assert(d.take(k + 1).last() == d[k]);
            assert(val * 10 + dgt <= u32::MAX) by (nonlinear_arith)
                requires
                    val <= (u32::MAX - dgt) / 10,
                    dgt <= 9,
            ;
        }
        val = val * 10 + dgt;
        i = i + 1;
    }
    proof {
        assert(d.take(n - start) =~= d);
    }
    Some(val)
}

} // verus!
