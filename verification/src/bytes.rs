//! Little-endian integers and NUL-terminated strings inside a byte buffer.

use vstd::prelude::*;
use crate::search::all_distinct;

verus! {

/// Whether `len` bytes starting at `off` lie inside a buffer of `total` bytes.
pub open spec fn in_bounds(total: int, off: int, len: int) -> bool {
    0 <= off && 0 <= len && off + len <= total
}

/// The unsigned 16-bit little-endian integer at `off`.
pub open spec fn le_u16(s: Seq<u8>, off: int) -> int {
    s[off] as int + 0x100 * (s[off + 1] as int)
}

/// The unsigned 32-bit little-endian integer at `off`.
pub open spec fn le_u32(s: Seq<u8>, off: int) -> int {
    le_u16(s, off) + 0x1_0000 * le_u16(s, off + 2)
}

/// The unsigned 64-bit little-endian integer at `off`.
pub open spec fn le_u64(s: Seq<u8>, off: int) -> int {
    le_u32(s, off) + 0x1_0000_0000 * le_u32(s, off + 4)
}

/// The two's-complement reading of an unsigned 16-bit value.
pub open spec fn signed16(v: int) -> int {
    if v < 0x8000 {
        v
    } else {
        v - 0x1_0000
    }
}

/// The two's-complement reading of an unsigned 32-bit value.
pub open spec fn signed32(v: int) -> int {
    if v < 0x8000_0000 {
        v
    } else {
        v - 0x1_0000_0000
    }
}

/// The unsigned 32-bit value whose two's-complement reading is `v`.
pub open spec fn unsigned32(v: int) -> int {
    if v < 0 {
        v + 0x1_0000_0000
    } else {
        v
    }
}

/// Reads the 16-bit little-endian integer at `off`.
pub fn read_u16(data: &[u8], off: usize) -> (r: u16)
    requires
        in_bounds(data@.len() as int, off as int, 2),
    ensures
        r == le_u16(data@, off as int),
{
    let b0: u16 = data[off] as u16;
    let b1: u16 = data[off + 1] as u16;
    b0 + 0x100 * b1
}

/// Reads the 32-bit little-endian integer at `off`.
pub fn read_u32(data: &[u8], off: usize) -> (r: u32)
    requires
        in_bounds(data@.len() as int, off as int, 4),
    ensures
        r == le_u32(data@, off as int),
{
    let total: usize = data.len();
    let lo: u32 = read_u16(data, off) as u32;
    let hi: u32 = read_u16(data, off + 2) as u32;
    lo + 0x1_0000 * hi
}

/// Reads the 64-bit little-endian integer at `off`.
pub fn read_u64(data: &[u8], off: usize) -> (r: u64)
    requires
        in_bounds(data@.len() as int, off as int, 8),
    ensures
        r == le_u64(data@, off as int),
{
    let total: usize = data.len();
    let lo: u64 = read_u32(data, off) as u64;
    let hi: u64 = read_u32(data, off + 4) as u64;
    lo + 0x1_0000_0000 * hi
}

/// Reads a 16-bit little-endian integer as a signed value.
pub fn read_i16(data: &[u8], off: usize) -> (r: i16)
    requires
        in_bounds(data@.len() as int, off as int, 2),
    ensures
        r == signed16(le_u16(data@, off as int)),
{
    let v: u16 = read_u16(data, off);
    if v < 0x8000 {
        v as i16
    } else {
        let low: i16 = (v - 0x8000) as i16;
        low - 0x4000 - 0x4000
    }
}

/// Reads a 32-bit little-endian integer as a signed value.
pub fn read_i32(data: &[u8], off: usize) -> (r: i32)
    requires
        in_bounds(data@.len() as int, off as int, 4),
    ensures
        r == signed32(le_u32(data@, off as int)),
{
    let v: u32 = read_u32(data, off);
    if v < 0x8000_0000 {
        v as i32
    } else {
        let low: i32 = (v - 0x8000_0000) as i32;
        low - 0x4000_0000 - 0x4000_0000
    }
}

/// The bytes from `off` up to, and without, the first zero byte at or after
/// `off`; `None` when there is no zero byte before `end`.
pub open spec fn c_str(s: Seq<u8>, off: int, end: int) -> Option<Seq<u8>>
    decreases end - off,
{
    if off < 0 || off >= end || end > s.len() {
        None
    } else if s[off] == 0 {
        Some(Seq::empty())
    } else {
        match c_str(s, off + 1, end) {
            Some(rest) => Some(seq![s[off]] + rest),
            None => None,
        }
    }
}

/// Reads the NUL-terminated string that starts at `off` and ends before `end`.
pub fn read_c_str(data: &[u8], off: usize, end: usize) -> (r: Option<Vec<u8>>)
    ensures
        r is Some <==> c_str(data@, off as int, end as int) is Some,
        r is Some ==> r->Some_0@ == c_str(data@, off as int, end as int)->Some_0,
{
    if off >= end || end > data.len() {
        return None;
    }
    let mut out: Vec<u8> = Vec::new();
    let mut i: usize = off;
    while i < end && data[i] != 0
        invariant
            off <= i <= end <= data@.len(),
            forall|j: int| off <= j < i ==> data@[j] != 0,
            out@ == data@.subrange(off as int, i as int),
        decreases end - i,
    {
        out.push(data[i]);
        i = i + 1;
    }
    proof {
        lemma_c_str(data@, off as int, i as int, end as int);
    }
    if i < end {
        Some(out)
    } else {
        None
    }
}

/// A run of non-zero bytes from `off` to `stop` makes `c_str` the run itself
/// when a zero byte follows, and `None` when the run reaches `end`.
pub proof fn lemma_c_str(s: Seq<u8>, off: int, stop: int, end: int)
    requires
        0 <= off <= stop <= end <= s.len(),
        off < end,
        forall|j: int| off <= j < stop ==> s[j] != 0,
        stop < end ==> s[stop] == 0,
    ensures
        stop < end ==> c_str(s, off, end) == Some(s.subrange(off, stop)),
        stop == end ==> c_str(s, off, end) is None,
    decreases stop - off,
{
    if off == stop {
        if stop < end {
            assert(s.subrange(off, stop) =~= Seq::<u8>::empty());
        }
    } else {
        if off + 1 < end {
            lemma_c_str(s, off + 1, stop, end);
            if stop < end {
                assert(seq![s[off]] + s.subrange(off + 1, stop) =~= s.subrange(off, stop));
            }
        }
    }
}

/// Whether two byte strings are equal.
pub fn bytes_eq(a: &[u8], b: &[u8]) -> (r: bool)
    ensures
        r == (a@ == b@),
{
    if a.len() != b.len() {
        return false;
    }
    let mut i: usize = 0;
    while i < a.len()
        invariant
            a@.len() == b@.len(),
            i <= a@.len(),
            forall|j: int| 0 <= j < i ==> a@[j] == b@[j],
        decreases a@.len() - i,
    {
        if a[i] != b[i] {
            return false;
        }
        i = i + 1;
    }
    assert(a@ =~= b@);
    true
}

/// Whether `i` is the position of the first `b` in `s`, or the length of `s`
/// when `s` holds no `b`.
pub open spec fn is_first(s: Seq<u8>, b: u8, i: int) -> bool {
    &&& 0 <= i <= s.len()
    &&& i < s.len() ==> s[i] == b
    &&& forall|j: int| 0 <= j < i ==> s[j] != b
}

/// The position of the first `b` in `s`, or the length of `s`.
pub open spec fn find_byte(s: Seq<u8>, b: u8) -> int {
    let i = choose|i: int| is_first(s, b, i);
    if 0 <= i <= s.len() {
        i
    } else {
        s.len() as int
    }
}

/// `is_first` holds of one position only, so it determines `find_byte`.
pub proof fn lemma_find_byte(s: Seq<u8>, b: u8, i: int)
    requires
        is_first(s, b, i),
    ensures
        find_byte(s, b) == i,
{
}

/// Finds the first `b` in `s`.
pub fn position(s: &[u8], b: u8) -> (r: usize)
    ensures
        r == find_byte(s@, b),
        r <= s@.len(),
{
    let mut i: usize = 0;
    while i < s.len() && s[i] != b
        invariant
            i <= s@.len(),
            forall|j: int| 0 <= j < i ==> s@[j] != b,
        decreases s@.len() - i,
    {
        i = i + 1;
    }
    proof {
        lemma_find_byte(s@, b, i as int);
    }
    i
}

/// Whether `s` begins with `prefix`.
pub open spec fn has_prefix(s: Seq<u8>, prefix: Seq<u8>) -> bool {
    prefix.len() <= s.len() && s.subrange(0, prefix.len() as int) == prefix
}

/// Whether `s` ends with `suffix`.
pub open spec fn has_suffix(s: Seq<u8>, suffix: Seq<u8>) -> bool {
    suffix.len() <= s.len() && s.subrange(s.len() - suffix.len(), s.len() as int) == suffix
}

/// Copies `len` bytes that start at `off`.
pub fn copy_range(data: &[u8], off: usize, len: usize) -> (r: Vec<u8>)
    requires
        in_bounds(data@.len() as int, off as int, len as int),
    ensures
        r@ == data@.subrange(off as int, off + len),
{
    let total: usize = data.len();
    let mut out: Vec<u8> = Vec::new();
    let mut i: usize = 0;
    while i < len
        invariant
            total == data@.len(),
            off + len <= total,
            i <= len,
            out@ == data@.subrange(off as int, off + i),
        decreases len - i,
    {
        out.push(data[off + i]);
        i = i + 1;
    }
    out
}

/// Whether `s` begins with `prefix`.
pub fn starts_with(s: &[u8], prefix: &[u8]) -> (r: bool)
    ensures
        r == has_prefix(s@, prefix@),
{
    if prefix.len() > s.len() {
        return false;
    }
    let mut i: usize = 0;
    while i < prefix.len()
        invariant
            prefix@.len() <= s@.len(),
            i <= prefix@.len(),
            forall|j: int| 0 <= j < i ==> s@[j] == prefix@[j],
        decreases prefix@.len() - i,
    {
        if s[i] != prefix[i] {
            return false;
        }
        i = i + 1;
    }
    assert(s@.subrange(0, prefix@.len() as int) =~= prefix@);
    true
}

/// Whether `s` ends with `suffix`.
pub fn ends_with(s: &[u8], suffix: &[u8]) -> (r: bool)
    ensures
        r == has_suffix(s@, suffix@),
{
    if suffix.len() > s.len() {
        return false;
    }
    let total: usize = s.len();
    let base: usize = total - suffix.len();
    let mut i: usize = 0;
    while i < suffix.len()
        invariant
            total == s@.len(),
            suffix@.len() <= s@.len(),
            base == s@.len() - suffix@.len(),
            i <= suffix@.len(),
            forall|j: int| 0 <= j < i ==> s@[base + j] == suffix@[j],
        decreases suffix@.len() - i,
    {
        if s[base + i] != suffix[i] {
            return false;
        }
        i = i + 1;
    }
    assert(s@.subrange(base as int, s@.len() as int) =~= suffix@);
    true
}

/// The bytes of `a` followed by those of `b`.
pub fn concat(a: &[u8], b: &[u8]) -> (r: Vec<u8>)
    ensures
        r@ == a@ + b@,
{
    let mut out: Vec<u8> = Vec::new();
    let mut i: usize = 0;
    while i < a.len()
        invariant
            i <= a@.len(),
            out@ == a@.take(i as int),
        decreases a@.len() - i,
    {
        out.push(a[i]);
        i = i + 1;
    }
    let mut j: usize = 0;
    while j < b.len()
        invariant
            j <= b@.len(),
            out@ == a@ + b@.take(j as int),
        decreases b@.len() - j,
    {
        out.push(b[j]);
        j = j + 1;
    }
    out
}

/// A copy of `data`.
pub fn to_vec(data: &[u8]) -> (r: Vec<u8>)
    ensures
        r@ == data@,
{
    let mut out: Vec<u8> = Vec::new();
    let mut i: usize = 0;
    while i < data.len()
        invariant
            i <= data@.len(),
            out@ == data@.take(i as int),
        decreases data@.len() - i,
    {
        out.push(data[i]);
        assert(data@.take(i + 1) =~= data@.take(i as int).push(data@[i as int]));
        i = i + 1;
    }
    assert(data@.take(data@.len() as int) =~= data@);
    out
}

/// The views of byte strings.
pub open spec fn views(names: Seq<Vec<u8>>) -> Seq<Seq<u8>> {
    names.map_values(|n: Vec<u8>| n@)
}

/// Whether no byte string occurs twice among `names`.
pub fn distinct(names: &Vec<Vec<u8>>) -> (r: bool)
    ensures
        r == all_distinct(views(names@)),
{
    let mut j: usize = 0;
    while j < names.len()
        invariant
            j <= names@.len(),
            forall|a: int, b: int| 0 <= a < b < j ==> views(names@)[a] != views(names@)[b],
        decreases names@.len() - j,
    {
        let mut i: usize = 0;
        while i < j
            invariant
                i <= j < names@.len(),
                forall|a: int| 0 <= a < i ==> views(names@)[a] != views(names@)[j as int],
            decreases j - i,
        {
            if bytes_eq(names[i].as_slice(), names[j].as_slice()) {
                assert(views(names@)[i as int] == views(names@)[j as int]);
                return false;
            }
            i = i + 1;
        }
        j = j + 1;
    }
    true
}

} // verus!
