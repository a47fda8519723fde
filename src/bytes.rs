//! Little-endian integer and GUID readers shared by both HII dialects.
use vstd::prelude::*;
use vstd::slice::slice_subrange;

verus! {

/// Why a record could not be decoded.
#[derive(Debug, PartialEq, Eq, Clone, Copy, Structural)]
pub enum ParseError {
    /// The input ended before every fixed field could be read.
    Incomplete,
    /// A field holds a value that the format forbids here.
    Invalid,
}

/// The unsigned value of two little-endian bytes at `i`.
pub open spec fn le16(s: Seq<u8>, i: int) -> u16 {
    (s[i] as int + 0x100 * s[i + 1] as int) as u16
}

/// The unsigned value of four little-endian bytes at `i`.
pub open spec fn le32(s: Seq<u8>, i: int) -> u32 {
    (le16(s, i) as int + 0x10000 * le16(s, i + 2) as int) as u32
}

/// The unsigned value of eight little-endian bytes at `i`.
pub open spec fn le64(s: Seq<u8>, i: int) -> u64 {
    (le32(s, i) as int + 0x1_0000_0000 * le32(s, i + 4) as int) as u64
}

/// The outcome of a decoder that reads `n` bytes of fixed fields, giving `v`:
/// success exactly when `n` bytes are there, with the bytes after them left over.
pub open spec fn fixed_outcome<T>(s: Seq<u8>, r: Result<(&[u8], T), ParseError>, n: int, v: T) -> bool {
    match r {
        Ok((rest, x)) => s.len() >= n && x == v && rest@ == s.subrange(n, s.len() as int),
        Err(e) => s.len() < n && e == ParseError::Incomplete,
    }
}

/// An optional borrowed region holds exactly `s`, and is absent when `s` is empty.
pub open spec fn opt_bytes(d: Option<&[u8]>, s: Seq<u8>) -> bool {
    match d {
        Some(x) => s.len() > 0 && x@ == s,
        None => s.len() == 0,
    }
}

/// The bytes of an optional region, empty when it is absent.
pub open spec fn bytes_of(d: Option<&[u8]>) -> Seq<u8> {
    match d {
        Some(x) => x@,
        None => Seq::empty(),
    }
}

/// The region `s[i..j]`, or nothing when it is empty.
pub fn opt_range(s: &[u8], i: usize, j: usize) -> (r: Option<&[u8]>)
    requires
        i <= j <= s@.len(),
    ensures
        opt_bytes(r, s@.subrange(i as int, j as int)),
{
    if i < j {
        Some(slice_subrange(s, i, j))
    } else {
        None
    }
}

pub fn read_u8(s: &[u8], i: usize) -> (r: u8)
    requires
        i < s@.len(),
    ensures
        r == s@[i as int],
{
    s[i]
}

pub fn read_u16(s: &[u8], i: usize) -> (r: u16)
    requires
        i + 2 <= s@.len(),
    ensures
        r == le16(s@, i as int),
{
    s[i] as u16 + 0x100 * (s[i + 1] as u16)
}

pub fn read_u32(s: &[u8], i: usize) -> (r: u32)
    requires
        i + 4 <= s@.len(),
    ensures
        r == le32(s@, i as int),
{
    // The length fits in a usize, so the offsets below cannot overflow.
    let _len = s.len();
    let lo = read_u16(s, i);
    let hi = read_u16(s, i + 2);
    lo as u32 + 0x10000 * (hi as u32)
}

pub fn read_u64(s: &[u8], i: usize) -> (r: u64)
    requires
        i + 8 <= s@.len(),
    ensures
        r == le64(s@, i as int),
{
    // The length fits in a usize, so the offsets below cannot overflow.
    let _len = s.len();
    let lo = read_u32(s, i);
    let hi = read_u32(s, i + 4);
    lo as u64 + 0x1_0000_0000 * (hi as u64)
}

/// The bytes of `s` from `i` on.
pub fn tail(s: &[u8], i: usize) -> (r: &[u8])
    requires
        i <= s@.len(),
    ensures
        r@ == s@.subrange(i as int, s@.len() as int),
{
    slice_subrange(s, i, s.len())
}

/// `cnt` little-endian u16 values from `i` on.
pub open spec fn u16_run(s: Seq<u8>, i: int, cnt: nat) -> Seq<u16> {
    Seq::new(cnt, |k: int| le16(s, i + 2 * k))
}

/// Reads `cnt` u16 values from `i` on.
pub fn read_u16_run(input: &[u8], i: usize, cnt: usize) -> (r: Vec<u16>)
    requires
        i + 2 * cnt <= input@.len(),
    ensures
        r@ == u16_run(input@, i as int, cnt as nat),
{
    let mut out: Vec<u16> = Vec::new();
    let mut k: usize = 0;
    let n = input.len();
    while k < cnt
        invariant
            k <= cnt,
            n == input@.len(),
            i + 2 * cnt <= input@.len(),
            out@ == u16_run(input@, i as int, k as nat),
        decreases cnt - k,
    {
        out.push(read_u16(input, i + 2 * k));
        k = k + 1;
        assert(out@ =~= u16_run(input@, i as int, k as nat));
    }
    out
}

} // verus!
