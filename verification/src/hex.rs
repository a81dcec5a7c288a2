use vstd::prelude::*;

verus! {

/// The value of a hexadecimal digit (either case).
pub open spec fn hex_digit(c: char) -> Option<int> {
    if '0' <= c && c <= '9' {
        Some(c as int - '0' as int)
    } else if 'a' <= c && c <= 'f' {
        Some(c as int - 'a' as int + 10)
    } else if 'A' <= c && c <= 'F' {
        Some(c as int - 'A' as int + 10)
    } else {
        None
    }
}

/// The value of a string of hexadecimal digits, if it holds nothing else.
pub open spec fn hex_value(s: Seq<char>) -> Option<int>
    decreases s.len(),
{
    if s.len() == 0 {
        Some(0)
    } else {
        match (hex_value(s.drop_last()), hex_digit(s.last())) {
            (Some(v), Some(d)) => Some(v * 16 + d),
            _ => None,
        }
    }
}

/// A `u16` written in hexadecimal: an optional `+`, then at least one
/// hexadecimal digit and nothing else, with a value that fits.
pub open spec fn spec_from_hex_u16(s: Seq<char>) -> Option<u16> {
    let digits = if s.len() > 0 && s[0] == '+' { s.drop_first() } else { s };
    if digits.len() == 0 {
        None
    } else {
        match hex_value(digits) {
            Some(v) => if v <= 0xffff { Some(v as u16) } else { None },
            None => None,
        }
    }
}

/// A value of a digit string is at least 0, and the digits before any
/// position already have a value, no larger than the whole.
proof fn lemma_hex_prefix(s: Seq<char>, k: int)
    requires
        0 <= k <= s.len(),
        hex_value(s) is Some,
    ensures
        hex_value(s).unwrap() >= 0,
        hex_value(s.subrange(0, k)) is Some,
        0 <= hex_value(s.subrange(0, k)).unwrap() <= hex_value(s).unwrap(),
    decreases s.len(),
{
    if s.len() == 0 {
        assert(s.subrange(0, k) =~= s);
    } else {
        let t = s.drop_last();
        if k == s.len() {
            lemma_hex_prefix(t, 0);
            assert(s.subrange(0, k) =~= s);
        } else {
            lemma_hex_prefix(t, k);
            assert(s.subrange(0, k) =~= t.subrange(0, k));
        }
    }
}

/// Reading one more digit: the value of the digits up to `i + 1` from the
/// value up to `i` and the digit at `i`.
proof fn lemma_hex_step(s: Seq<char>, start: int, i: int)
    requires
        0 <= start <= i < s.len(),
    ensures
        hex_value(s.subrange(start, i + 1)) == (match (hex_value(s.subrange(start, i)), hex_digit(s[i])) {
            (Some(v), Some(d)) => Some(v * 16 + d),
            _ => None::<int>,
        }),
{
    assert(s.subrange(start, i + 1).drop_last() =~= s.subrange(start, i));
}

/// Parses a `u16` written in hexadecimal (see `spec_from_hex_u16`).
pub(crate) fn parse_hex_u16(s: &str) -> (r: Option<u16>)
    ensures
        r == spec_from_hex_u16(s@),
{
    let n = s.unicode_len();
    let mut start: usize = 0;
    if n > 0 && s.get_char(0) == '+' {
        start = 1;
    }
    let ghost digits = if s@.len() > 0 && s@[0] == '+' { s@.drop_first() } else { s@ };
    assert(digits =~= s@.subrange(start as int, n as int));
    if start == n {
        return None;
    }
    let mut i: usize = start;
    let mut v: u32 = 0;
    assert(s@.subrange(start as int, start as int) =~= Seq::<char>::empty());
    while i < n
        invariant
            start <= i <= n,
            n == s@.len(),
            digits == (if s@.len() > 0 && s@[0] == '+' { s@.drop_first() } else { s@ }),
            digits == s@.subrange(start as int, n as int),
            digits.len() > 0,
            hex_value(s@.subrange(start as int, i as int)) == Some(v as int),
            v <= 0xffff,
        decreases n - i,
    {
        let c = s.get_char(i);
        let x = c as u32;
        proof {
            lemma_hex_step(s@, start as int, i as int);
        }
        let d: u32 = if 48 <= x && x <= 57 {
            x - 48
        } else if 97 <= x && x <= 102 {
            x - 87
        } else if 65 <= x && x <= 70 {
            x - 55
        } else {
            proof {
                assert(hex_digit(c) is None);
                if hex_value(digits) is Some {
                    lemma_hex_prefix(digits, i - start + 1);
                    assert(digits.subrange(0, i - start + 1) =~= s@.subrange(start as int, i + 1));
                }
            }
            return None;
        };
        assert(hex_digit(c) == Some(d as int));
        let next = v * 16 + d;
        if next > 0xffff {
            proof {
                if hex_value(digits) is Some {
                    lemma_hex_prefix(digits, i - start + 1);
                    assert(digits.subrange(0, i - start + 1) =~= s@.subrange(start as int, i + 1));
                }
            }
            return None;
        }
        v = next;
        i = i + 1;
    }
    Some(v as u16)
}

} // verus!
