//! Zero-terminated strings, of bytes or of UCS-2 units, one or a counted run
//! of them, as string packages and IFR records store them.
use vstd::prelude::*;
use crate::bytes::{le16, read_u16, tail, ParseError};
use crate::text::{lossy_utf16, lossy_utf8, utf16_lossy, utf8_lossy};

verus! {

/// The position just past the zero byte that ends the byte string at `i`.
pub open spec fn nul8_end(s: Seq<u8>, i: int) -> Option<int>
    decreases s.len() - i,
{
    if i < 0 || i >= s.len() {
        None
    } else if s[i] == 0 {
        Some(i + 1)
    } else {
        nul8_end(s, i + 1)
    }
}

/// The position just past the zero unit that ends the UCS-2 string at `i`.
pub open spec fn nul16_end(s: Seq<u8>, i: int) -> Option<int>
    decreases s.len() - i,
{
    if i < 0 || i + 2 > s.len() {
        None
    } else if s[i] == 0 && s[i + 1] == 0 {
        Some(i + 2)
    } else {
        nul16_end(s, i + 2)
    }
}

/// The end of the terminated string at `i`, of UCS-2 units when `wide`, else of bytes.
pub open spec fn str_end(s: Seq<u8>, i: int, wide: bool) -> Option<int> {
    if wide {
        nul16_end(s, i)
    } else {
        nul8_end(s, i)
    }
}

/// The end of `cnt` terminated strings one after another from `i`.
pub open spec fn run_end(s: Seq<u8>, i: int, cnt: nat, wide: bool) -> Option<int>
    decreases cnt,
{
    if cnt == 0 {
        Some(i)
    } else {
        match str_end(s, i, wide) {
            Some(e) => run_end(s, e, (cnt - 1) as nat, wide),
            None => None,
        }
    }
}

/// The little-endian UCS-2 units of `s`.
pub open spec fn units_of(s: Seq<u8>) -> Seq<u16> {
    Seq::new(s.len() / 2, |k: int| le16(s, 2 * k))
}

/// The text of the string that runs from `i` to its terminator, which ends at `e`.
pub open spec fn str_text(s: Seq<u8>, i: int, e: int, wide: bool) -> Seq<char> {
    if wide {
        utf16_lossy(units_of(s.subrange(i, e - 2)))
    } else {
        utf8_lossy(s.subrange(i, e - 1))
    }
}

/// The texts of `cnt` terminated strings one after another from `i`.
pub open spec fn run_texts(s: Seq<u8>, i: int, cnt: nat, wide: bool) -> Seq<Seq<char>>
    decreases cnt,
{
    if cnt == 0 {
        Seq::empty()
    } else {
        match str_end(s, i, wide) {
            Some(e) => seq![str_text(s, i, e, wide)] + run_texts(s, e, (cnt - 1) as nat, wide),
            None => Seq::empty(),
        }
    }
}

/// Finds the end of the terminated string at `i`.
pub fn find_str_end(s: &[u8], i: usize, wide: bool) -> (r: Option<usize>)
    ensures
        match r {
            Some(e) => str_end(s@, i as int, wide) == Some(e as int),
            None => str_end(s@, i as int, wide).is_none(),
        },
{
    let n = s.len();
    let mut j = i;
    if wide {
        while j < n && n - j >= 2
            invariant
                n == s@.len(),
                i <= j,
                wide,
                nul16_end(s@, i as int) == nul16_end(s@, j as int),
            decreases n - j,
        {
            if s[j] == 0 && s[j + 1] == 0 {
                assert(nul16_end(s@, j as int) == Some(j as int + 2));
                return Some(j + 2);
            }
            j = j + 2;
        }
    } else {
        while j < n
            invariant
                n == s@.len(),
                i <= j,
                !wide,
                nul8_end(s@, i as int) == nul8_end(s@, j as int),
            decreases n - j,
        {
            if s[j] == 0 {
                assert(nul8_end(s@, j as int) == Some(j as int + 1));
                return Some(j + 1);
            }
            j = j + 1;
        }
    }
    None
}

/// Finds the end of `cnt` terminated strings one after another from `i`.
pub fn find_run_end(s: &[u8], i: usize, cnt: u32, wide: bool) -> (r: Option<usize>)
    ensures
        match r {
            Some(e) => run_end(s@, i as int, cnt as nat, wide) == Some(e as int),
            None => run_end(s@, i as int, cnt as nat, wide).is_none(),
        },
{
    let mut pos = i;
    let mut k: u32 = 0;
    while k < cnt
        invariant
            k <= cnt,
            run_end(s@, i as int, cnt as nat, wide) == run_end(s@, pos as int, (cnt - k) as nat, wide),
        decreases cnt - k,
    {
        match find_str_end(s, pos, wide) {
            Some(e) => {
                pos = e;
            },
            None => {
                return None;
            },
        }
        k = k + 1;
    }
    Some(pos)
}

/// Decodes the terminated string at `i`, which ends at `e`.
pub fn decode_str(s: &[u8], i: usize, e: usize, wide: bool) -> (r: String)
    requires
        str_end(s@, i as int, wide) == Some(e as int),
    ensures
        r@ == str_text(s@, i as int, e as int, wide),
{
    proof {
        lemma_str_end_bounds(s@, i as int, wide);
    }
    if wide {
        let mut units: Vec<u16> = Vec::new();
        let mut j = i;
        while j + 2 < e
            invariant
                i <= j <= e - 2,
                e <= s@.len(),
                (j - i) % 2 == 0,
                (e - 2 - i) % 2 == 0,
                units@ == units_of(s@.subrange(i as int, j as int)),
            decreases e - j,
        {
            units.push(read_u16(s, j));
            assert(units@ =~= units_of(s@.subrange(i as int, j + 2)));
            j = j + 2;
        }
        lossy_utf16(units.as_slice())
    } else {
        lossy_utf8(vstd::slice::slice_subrange(s, i, e - 1))
    }
}

/// Where a terminated string ends lies within the input, a terminator's width
/// after its start.
pub proof fn lemma_str_end_bounds(s: Seq<u8>, i: int, wide: bool)
    ensures
        match str_end(s, i, wide) {
            Some(e) => 0 <= i && i + (if wide { 2int } else { 1int }) <= e <= s.len() && (!wide
                || (e - i) % 2 == 0),
            None => true,
        },
    decreases s.len() - i,
{
    if wide {
        if !(i < 0 || i + 2 > s.len()) && !(s[i] == 0 && s[i + 1] == 0) {
            lemma_str_end_bounds(s, i + 2, wide);
        }
    } else {
        if !(i < 0 || i >= s.len()) && s[i] != 0 {
            lemma_str_end_bounds(s, i + 1, wide);
        }
    }
}

/// Finding the end of a byte string in a suffix of `s` finds it `i` bytes earlier.
pub proof fn lemma_nul8_end_shift(s: Seq<u8>, i: int)
    requires
        0 <= i <= s.len(),
    ensures
        match nul8_end(s.subrange(i, s.len() as int), 0) {
            Some(e) => nul8_end(s, i) == Some(e + i) && s.subrange(i, s.len() as int).subrange(0, e - 1)
                == s.subrange(i, i + e - 1) && s.subrange(i, s.len() as int).subrange(e, s.len() - i)
                == s.subrange(i + e, s.len() as int),
            None => nul8_end(s, i).is_none(),
        },
{
    let t = s.subrange(i, s.len() as int);
    lemma_nul8_end_shift_from(s, i, 0);
    lemma_str_end_bounds(t, 0, false);
    match nul8_end(t, 0) {
        Some(e) => {
            assert(t.subrange(0, e - 1) =~= s.subrange(i, i + e - 1));
            assert(t.subrange(e, s.len() - i) =~= s.subrange(i + e, s.len() as int));
        },
        None => {},
    }
}

proof fn lemma_nul8_end_shift_from(s: Seq<u8>, i: int, j: int)
    requires
        0 <= i <= s.len(),
        0 <= j,
    ensures
        match nul8_end(s.subrange(i, s.len() as int), j) {
            Some(e) => nul8_end(s, i + j) == Some(e + i),
            None => nul8_end(s, i + j).is_none(),
        },
    decreases s.len() - i - j,
{
    let t = s.subrange(i, s.len() as int);
    if j < t.len() && t[j] != 0 {
        lemma_nul8_end_shift_from(s, i, j + 1);
    }
}

/// Where a run of terminated strings ends lies within the input, after its start.
pub proof fn lemma_run_end_bounds(s: Seq<u8>, i: int, cnt: nat, wide: bool)
    requires
        0 <= i <= s.len(),
    ensures
        match run_end(s, i, cnt, wide) {
            Some(e) => i <= e <= s.len(),
            None => true,
        },
    decreases cnt,
{
    if cnt > 0 {
        lemma_str_end_bounds(s, i, wide);
        match str_end(s, i, wide) {
            Some(e) => lemma_run_end_bounds(s, e, (cnt - 1) as nat, wide),
            None => {},
        }
    }
}

/// A run of `cnt` strings that all end has `cnt` texts.
pub proof fn lemma_run_texts_len(s: Seq<u8>, i: int, cnt: nat, wide: bool)
    requires
        run_end(s, i, cnt, wide) is Some,
    ensures
        run_texts(s, i, cnt, wide).len() == cnt,
    decreases cnt,
{
    if cnt > 0 {
        let e = str_end(s, i, wide).unwrap();
        lemma_run_texts_len(s, e, (cnt - 1) as nat, wide);
    }
}

/// Decodes `cnt` terminated strings one after another from `i`, which end at `e`.
pub fn decode_run(s: &[u8], i: usize, cnt: u32, e: usize, wide: bool) -> (r: Vec<String>)
    requires
        run_end(s@, i as int, cnt as nat, wide) == Some(e as int),
    ensures
        r@.map_values(|t: String| t@) == run_texts(s@, i as int, cnt as nat, wide),
{
    let mut out: Vec<String> = Vec::new();
    let mut pos = i;
    let mut k: u32 = 0;
    while k < cnt
        invariant
            k <= cnt,
            run_end(s@, pos as int, (cnt - k) as nat, wide) == Some(e as int),
            out@.map_values(|t: String| t@) + run_texts(s@, pos as int, (cnt - k) as nat, wide)
                == run_texts(s@, i as int, cnt as nat, wide),
        decreases cnt - k,
    {
        let end = find_str_end(s, pos, wide).unwrap();
        let t = decode_str(s, pos, end, wide);
        let ghost before = out@.map_values(|t: String| t@);
        out.push(t);
        assert(out@.map_values(|t: String| t@) =~= before.push(str_text(s@, pos as int, end as int, wide)));
        assert(run_texts(s@, pos as int, (cnt - k) as nat, wide) =~= seq![str_text(s@, pos as int, end as int, wide)] + run_texts(s@, end as int, (cnt - k - 1) as nat, wide));
        pos = end;
        k = k + 1;
    }
    assert(run_texts(s@, pos as int, 0, wide) =~= Seq::<Seq<char>>::empty());
    assert(out@.map_values(|t: String| t@) =~= out@.map_values(|t: String| t@) + Seq::<Seq<char>>::empty());
    out
}

/// The outcome of decoding one terminated string that starts at `i`.
pub open spec fn string_outcome(s: Seq<u8>, r: Result<(&[u8], String), ParseError>, i: int, wide: bool) -> bool {
    match str_end(s, i, wide) {
        Some(e) => match r {
            Ok((rest, t)) => t@ == str_text(s, i, e, wide) && rest@ == s.subrange(e, s.len() as int),
            Err(_) => false,
        },
        None => r == Err::<(&[u8], String), ParseError>(ParseError::Incomplete),
    }
}

/// The outcome of decoding a u16 count at `i` and then that many terminated strings.
pub open spec fn strings_outcome(s: Seq<u8>, r: Result<(&[u8], Vec<String>), ParseError>, i: int, wide: bool) -> bool {
    if s.len() < i + 2 {
        r == Err::<(&[u8], Vec<String>), ParseError>(ParseError::Incomplete)
    } else {
        match run_end(s, i + 2, le16(s, i) as nat, wide) {
            Some(e) => match r {
                Ok((rest, v)) => v@.map_values(|t: String| t@) == run_texts(s, i + 2, le16(s, i) as nat, wide)
                    && rest@ == s.subrange(e, s.len() as int),
                Err(_) => false,
            },
            None => r == Err::<(&[u8], Vec<String>), ParseError>(ParseError::Incomplete),
        }
    }
}

pub fn one_string(input: &[u8], i: usize, wide: bool) -> (r: Result<(&[u8], String), ParseError>)
    ensures
        string_outcome(input@, r, i as int, wide),
{
    match find_str_end(input, i, wide) {
        Some(e) => {
            proof {
                lemma_str_end_bounds(input@, i as int, wide);
            }
            let t = decode_str(input, i, e, wide);
            Ok((tail(input, e), t))
        },
        None => Err(ParseError::Incomplete),
    }
}

pub(crate) fn counted_strings(input: &[u8], i: usize, wide: bool) -> (r: Result<(&[u8], Vec<String>), ParseError>)
    requires
        i <= 1,
    ensures
        strings_outcome(input@, r, i as int, wide),
{
    if input.len() < i + 2 {
        return Err(ParseError::Incomplete);
    }
    let cnt = read_u16(input, i) as u32;
    match find_run_end(input, i + 2, cnt, wide) {
        Some(e) => {
            proof {
                lemma_run_end_bounds(input@, i + 2, cnt as nat, wide);
            }
            let v = decode_run(input, i + 2, cnt, e, wide);
            Ok((tail(input, e), v))
        },
        None => Err(ParseError::Incomplete),
    }
}

} // verus!
