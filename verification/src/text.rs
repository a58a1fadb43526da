//! Small verified text helpers shared by the descriptor parsers: exact
//! string comparison and hexadecimal byte parsing.
use vstd::prelude::*;
use vstd::string::StrSliceExecFns;

verus! {

/// Numeric value of one hexadecimal digit, either case.
pub open spec fn spec_hex_digit(c: char) -> Option<u8> {
    let v = c as u32;
    if 48 <= v && v <= 57 {
        Some((v - 48) as u8)
    } else if 65 <= v && v <= 70 {
        Some((v - 55) as u8)
    } else if 97 <= v && v <= 102 {
        Some((v - 87) as u8)
    } else {
        None
    }
}

/// Value of a digit string read most-significant first; `None` as soon as
/// any character is not a hexadecimal digit. The empty string counts 0 here
/// and is ruled out separately by `spec_parse_hex_u8`.
pub open spec fn spec_hex_val(s: Seq<char>) -> Option<int>
    decreases s.len(),
{
    if s.len() == 0 {
        Some(0)
    } else {
        match spec_hex_val(s.drop_last()) {
            None => None,
            Some(v) => match spec_hex_digit(s.last()) {
                None => None,
                Some(d) => Some(16 * v + d),
            },
        }
    }
}

/// What parsing a hexadecimal byte from `s` yields: the digits' value when
/// `s` is nonempty, all digits, and the value fits in one byte.
pub open spec fn spec_parse_hex_u8(s: Seq<char>) -> Option<u8> {
    if s.len() == 0 {
        None
    } else {
        match spec_hex_val(s) {
            None => None,
            Some(v) => if v <= 255 {
                Some(v as u8)
            } else {
                None
            },
        }
    }
}

/// A string with a non-digit anywhere has no hexadecimal value.
proof fn lemma_hex_val_nondigit(s: Seq<char>, j: int)
    requires
        0 <= j < s.len(),
        spec_hex_digit(s[j]) is None,
    ensures
        spec_hex_val(s) is None,
    decreases s.len(),
{
    if j < s.len() - 1 {
        lemma_hex_val_nondigit(s.drop_last(), j);
    }
}

/// A digit string's value is never negative.
proof fn lemma_hex_val_nonneg(s: Seq<char>)
    requires
        spec_hex_val(s) is Some,
    ensures
        spec_hex_val(s)->0 >= 0,
    decreases s.len(),
{
    if s.len() > 0 {
        lemma_hex_val_nonneg(s.drop_last());
    }
}

/// The value of a digit string only grows as digits are appended.
proof fn lemma_hex_val_prefix_le(s: Seq<char>, k: int)
    requires
        0 <= k <= s.len(),
        spec_hex_val(s) is Some,
    ensures
        spec_hex_val(s.take(k)) is Some,
        0 <= spec_hex_val(s.take(k))->0 <= spec_hex_val(s)->0,
    decreases s.len() - k,
{
    if k == s.len() {
        assert(s.take(k) =~= s);
        lemma_hex_val_nonneg(s);
    } else {
        lemma_hex_val_prefix_le(s.drop_last(), k);
        assert(s.drop_last().take(k) =~= s.take(k));
    }
}

/// Exact equality of two strings, compared character by character.
pub fn str_eq(a: &str, b: &str) -> (r: bool)
    ensures
        r == (a@ == b@),
{
    let na = a.unicode_len();
    let nb = b.unicode_len();
    if na != nb {
        return false;
    }
    let mut i: usize = 0;
    while i < na
        invariant
            i <= na,
            na == a@.len(),
            nb == b@.len(),
            na == nb,
            forall|j: int| 0 <= j < i ==> a@[j] == b@[j],
        decreases na - i,
    {
        if a.get_char(i) != b.get_char(i) {
            return false;
        }
        i = i + 1;
    }
    proof {
        assert(a@ =~= b@);
    }
    true
}

/// Numeric value of one hexadecimal digit, either case.
fn hex_digit(c: char) -> (r: Option<u8>)
    ensures
        r == spec_hex_digit(c),
{
    let v = c as u32;
    if 48 <= v && v <= 57 {
        Some((v - 48) as u8)
    } else if 65 <= v && v <= 70 {
        Some((v - 55) as u8)
    } else if 97 <= v && v <= 102 {
        Some((v - 87) as u8)
    } else {
        None
    }
}

/// Parse the characters of `s` from position `start` on as a hexadecimal
/// byte.
pub fn parse_hex_u8_from(s: &str, start: usize) -> (r: Option<u8>)
    requires
        start <= s@.len(),
    ensures
        r == spec_parse_hex_u8(s@.skip(start as int)),
{
    let ghost pre = s@.skip(start as int);
    let n = s.unicode_len();
    if start >= n {
        return None;
    }
    let mut acc: u32 = 0;
    let mut i: usize = start;
    while i < n
        invariant
            start <= i <= n,
            n == s@.len(),
            acc <= 255,
            pre == s@.skip(start as int),
            pre.len() == n - start,
            spec_hex_val(pre.take(i - start)) == Some(acc as int),
        decreases n - i,
    {
        let c = s.get_char(i);
        let d = match hex_digit(c) {
            Some(d) => d,
            None => {
                proof {
                    lemma_hex_val_nondigit(pre, i - start);
                }
                return None;
            },
        };
        acc = acc * 16 + d as u32;
        proof {
            assert(pre.take(i - start + 1).drop_last() =~= pre.take(i - start));
            assert(pre.take(i - start + 1).last() == c);
        }
        if acc > 255 {
            proof {
                if spec_hex_val(pre) is Some {
                    lemma_hex_val_prefix_le(pre, i - start + 1);
                }
            }
            return None;
        }
        i = i + 1;
    }
    proof {
        assert(pre.take(n - start) =~= pre);
    }
    Some(acc as u8)
}

} // verus!
