//! The number of processors that the host may ever have.
//!
//! The kernel lists them as ranges of numbers, separated by commas, such as
//! `0-3,8,10-11`.

use vstd::prelude::*;
use vstd::slice::slice_subrange;
use crate::bytes::{find_byte, position};

verus! {

/// Whether `b` is a decimal digit.
pub open spec fn is_digit(b: u8) -> bool {
    0x30 <= b <= 0x39
}

/// The number that the decimal digits `s` stand for; `None` where `s` is
/// empty or holds anything but digits.
pub open spec fn decimal(s: Seq<u8>) -> Option<nat>
    decreases s.len(),
{
    if s.len() == 0 || !is_digit(s.last()) {
        None
    } else if s.len() == 1 {
        Some((s.last() - 0x30) as nat)
    } else {
        match decimal(s.drop_last()) {
            Some(v) => Some(v * 10 + (s.last() - 0x30) as nat),
            None => None,
        }
    }
}

/// The number that `s` stands for, where it fits in 32 bits.
pub open spec fn decimal32(s: Seq<u8>) -> Option<u32> {
    match decimal(s) {
        Some(v) => if v <= u32::MAX {
            Some(v as u32)
        } else {
            None
        },
        None => None,
    }
}

/// How many numbers a range stands for: one where it is a single number,
/// and for `a-b` the numbers from `a` to `b`, which are none where `b` is
/// below `a`.
pub open spec fn range_count(s: Seq<u8>) -> Option<nat> {
    let dash = find_byte(s, 0x2d);
    if dash >= s.len() {
        match decimal32(s) {
            Some(_) => Some(1),
            None => None,
        }
    } else {
        match (decimal32(s.subrange(0, dash)), decimal32(s.subrange(dash + 1, s.len() as int))) {
            (Some(a), Some(b)) => Some(
                if a <= b {
                    (b - a + 1) as nat
                } else {
                    0
                },
            ),
            _ => None,
        }
    }
}

/// How many numbers the ranges of a list stand for, taken together.
pub open spec fn ranges_count(s: Seq<u8>) -> Option<nat>
    decreases s.len(),
{
    let comma = find_byte(s, 0x2c);
    if comma >= s.len() {
        range_count(s)
    } else {
        match (range_count(s.subrange(0, comma)), ranges_count(s.subrange(comma + 1, s.len() as int))) {
            (Some(a), Some(b)) => Some(a + b),
            _ => None,
        }
    }
}

/// The list without the line feed that may end it.
pub open spec fn trimmed(s: Seq<u8>) -> Seq<u8> {
    if s.len() > 0 && s.last() == 0x0a {
        s.drop_last()
    } else {
        s
    }
}

/// The number of processors that the list `s` names; `None` where `s` is no
/// list of ranges, names no processor at all, or names more processors
/// than 32 bits can count.
pub open spec fn spec_possible_cpus(s: Seq<u8>) -> Option<u32> {
    match ranges_count(trimmed(s)) {
        Some(n) => if 0 < n <= u32::MAX {
            Some(n as u32)
        } else {
            None
        },
        None => None,
    }
}

/// A number's leading digits stand for a number that is not larger, and
/// every one of its bytes is a digit.
pub proof fn lemma_decimal_prefix(s: Seq<u8>, i: int)
    requires
        1 <= i <= s.len(),
        decimal(s) is Some,
    ensures
        decimal(s.take(i)) is Some,
        decimal(s.take(i))->Some_0 <= decimal(s)->Some_0,
        is_digit(s[i - 1]),
    decreases s.len(),
{
    if i == s.len() {
        assert(s.take(i) =~= s);
    } else {
        assert(s.drop_last().take(i) =~= s.take(i));
        lemma_decimal_prefix(s.drop_last(), i);
    }
}

/// Reads a decimal number that fits in 32 bits.
pub fn parse_u32(s: &[u8]) -> (r: Option<u32>)
    ensures
        r == decimal32(s@),
{
    if s.len() == 0 {
        return None;
    }
    let mut acc: u64 = 0;
    let mut i: usize = 0;
    while i < s.len()
        invariant
            i <= s@.len(),
            s@.len() > 0,
            acc <= u32::MAX,
            i > 0 ==> decimal(s@.take(i as int)) == Some(acc as nat),
            i == 0 ==> acc == 0,
        decreases s@.len() - i,
    {
        let b: u8 = s[i];
        let ghost next = s@.take(i + 1);
        assert(next.drop_last() =~= s@.take(i as int));
        if b < 0x30 || b > 0x39 {
            proof {
                if decimal(s@) is Some {
                    lemma_decimal_prefix(s@, i + 1);
                }
            }
            return None;
        }
        acc = acc * 10 + (b - 0x30) as u64;
        if acc > 0xffff_ffff {
            proof {
                if decimal(s@) is Some {
                    lemma_decimal_prefix(s@, i + 1);
                }
            }
            return None;
        }
        i = i + 1;
    }
    assert(s@.take(s@.len() as int) =~= s@);
    Some(acc as u32)
}

/// Counts the numbers that a range stands for.
pub fn count_range(s: &[u8]) -> (r: Option<u64>)
    ensures
        match range_count(s@) {
            Some(n) => r == Some(n as u64) && n <= 0x1_0000_0000,
            None => r is None,
        },
{
    let dash: usize = position(s, 0x2d);
    if dash >= s.len() {
        return match parse_u32(s) {
            Some(_) => Some(1),
            None => None,
        };
    }
    let first: Option<u32> = parse_u32(slice_subrange(s, 0, dash));
    let last: Option<u32> = parse_u32(slice_subrange(s, dash + 1, s.len()));
    match (first, last) {
        (Some(a), Some(b)) => if a <= b {
            Some((b - a) as u64 + 1)
        } else {
            Some(0)
        },
        _ => None,
    }
}

/// The count of the ranges counted so far together with the count of the
/// ranges that are left.
pub open spec fn counted(total: nat, rest: Option<nat>) -> Option<nat> {
    match rest {
        Some(n) => Some(total + n),
        None => None,
    }
}

/// Counts the processors that a list of ranges names.
///
/// The list may end with a line feed. The result is `None` where the list
/// is malformed, where it names no processor, and where it names more
/// processors than 32 bits can count; a count that is returned is above
/// zero.
pub fn possible_cpus(data: &[u8]) -> (r: Option<u32>)
    ensures
        r == spec_possible_cpus(data@),
        r matches Some(n) ==> n > 0,
{
    let len: usize = data.len();
    let s: &[u8] = if len > 0 && data[len - 1] == 0x0a {
        slice_subrange(data, 0, len - 1)
    } else {
        data
    };
    let end: usize = s.len();
    let mut total: u64 = 0;
    let mut pos: usize = 0;
    assert(s@.subrange(0, end as int) =~= s@);
    loop
        invariant
            pos <= end,
            end == s@.len(),
            s@ == trimmed(data@),
            total <= u32::MAX,
            ranges_count(s@) == counted(total as nat, ranges_count(s@.subrange(pos as int, end as int))),
        decreases end - pos,
    {
        let rest: &[u8] = slice_subrange(s, pos, end);
        let comma: usize = position(rest, 0x2c);
        let last: bool = comma >= rest.len();
        let piece: &[u8] = if last {
            rest
        } else {
            slice_subrange(rest, 0, comma)
        };
        proof {
            if !last {
                assert(rest@.subrange(comma + 1, rest@.len() as int) =~= s@.subrange(
                    pos + comma + 1,
                    end as int,
                ));
            }
        }
        let n: u64 = match count_range(piece) {
            Some(n) => n,
            None => {
                return None;
            },
        };
        if total + n > 0xffff_ffff {
            return None;
        }
        total = total + n;
        if last {
            if total == 0 {
                return None;
            }
            return Some(total as u32);
        }
        pos = pos + comma + 1;
    }
}

} // verus!
