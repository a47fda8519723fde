//! The UEFI HII dialect: package envelope, string packages with their
//! string information blocks, and form packages with their IFR operations.
use vstd::prelude::*;
use crate::bytes::{
    read_u16_run, u16_run, bytes_of, fixed_outcome, le16, le32, le64, opt_bytes, opt_range, read_u16, read_u32, read_u64,
    read_u8, tail, ParseError,
};
use crate::text::{lossy_utf8, utf8_lossy};
use crate::cstr::{
    counted_strings, find_run_end, find_str_end, lemma_run_end_bounds, lemma_str_end_bounds,
    nul8_end, one_string, run_end, str_end, string_outcome, strings_outcome,
};
pub use crate::guid::{guid, Guid};
use crate::guid::{guid_at, read_guid};

verus! {

//
// Package envelope
//
/// A package: a 24-bit length, an 8-bit type and the bytes after the 4-byte header.
#[derive(Debug, PartialEq, Eq)]
pub struct HiiPackage<'a> {
    pub Length: u32,
    pub Type: HiiPackageType,
    pub Data: Option<&'a [u8]>,
}

#[derive(Debug, Eq, PartialEq, Copy, Clone, Structural)]
pub enum HiiPackageType {
    Guid,
    Form,
    KeyboardLayout,
    Strings,
    Fonts,
    Images,
    SimpleFonts,
    DevicePath,
    End,
    System(u8),
    Unknown(u8),
}

pub open spec fn package_type_of(n: u8) -> HiiPackageType {
    if n == 0x01 {
        HiiPackageType::Guid
    } else if n == 0x02 {
        HiiPackageType::Form
    } else if n == 0x03 {
        HiiPackageType::KeyboardLayout
    } else if n == 0x04 {
        HiiPackageType::Strings
    } else if n == 0x05 {
        HiiPackageType::Fonts
    } else if n == 0x06 {
        HiiPackageType::Images
    } else if n == 0x07 {
        HiiPackageType::SimpleFonts
    } else if n == 0x08 {
        HiiPackageType::DevicePath
    } else if n == 0xDF {
        HiiPackageType::End
    } else if n >= 0xE0 {
        HiiPackageType::System(n)
    } else {
        HiiPackageType::Unknown(n)
    }
}

impl From<u8> for HiiPackageType {
    fn from(n: u8) -> (r: HiiPackageType) {
        match n {
            0x01 => HiiPackageType::Guid,
            0x02 => HiiPackageType::Form,
            0x03 => HiiPackageType::KeyboardLayout,
            0x04 => HiiPackageType::Strings,
            0x05 => HiiPackageType::Fonts,
            0x06 => HiiPackageType::Images,
            0x07 => HiiPackageType::SimpleFonts,
            0x08 => HiiPackageType::DevicePath,
            0xDF => HiiPackageType::End,
            0xE0..=0xFF => HiiPackageType::System(n),
            _ => HiiPackageType::Unknown(n),
        }
    }
}

impl vstd::std_specs::convert::FromSpecImpl<u8> for HiiPackageType {
    open spec fn obeys_from_spec() -> bool {
        true
    }

    open spec fn from_spec(n: u8) -> HiiPackageType {
        package_type_of(n)
    }
}

/// The package length held in the low 24 bits of the first word.
pub open spec fn header_length(s: Seq<u8>) -> int {
    le32(s, 0) as int % 0x100_0000
}

/// The package type held in the high 8 bits of the first word.
pub open spec fn header_type(s: Seq<u8>) -> u8 {
    (le32(s, 0) as int / 0x100_0000) as u8
}

/// Decodes the package envelope at the start of `input`.
pub fn hii_package(input: &[u8]) -> (r: Result<(&[u8], HiiPackage), ParseError>)
    ensures
        match r {
            Ok((rest, p)) => {
                let n = header_length(input@);
                &&& input@.len() >= 4 && 4 <= n <= input@.len()
                &&& p.Length == n && p.Type == package_type_of(header_type(input@))
                &&& opt_bytes(p.Data, input@.subrange(4, n))
                &&& rest@ == input@.subrange(n, input@.len() as int)
            },
            Err(e) => e == (if input@.len() >= 4 && header_length(input@) < 4 {
                ParseError::Invalid
            } else {
                ParseError::Incomplete
            }) && (input@.len() < 4 || header_length(input@) < 4 || header_length(input@)
                > input@.len()),
        },
{
    if input.len() < 4 {
        return Err(ParseError::Incomplete);
    }
    let raw = read_u32(input, 0);
    let len = raw % 0x100_0000;
    if len < 4 {
        return Err(ParseError::Invalid);
    }
    if len as usize > input.len() {
        return Err(ParseError::Incomplete);
    }
    let typ = (raw / 0x100_0000) as u8;
    let p = HiiPackage {
        Length: len,
        Type: HiiPackageType::from(typ),
        Data: opt_range(input, 4, len as usize),
    };
    Ok((tail(input, len as usize), p))
}

/// The length of the string package that starts `s`, if one plausibly does:
/// type 0x04, a length above 0x38 that fits, a 0x34-byte header, and two zero
/// bytes at its end.
pub open spec fn string_candidate_len(s: Seq<u8>) -> Option<int> {
    if s.len() < 8 {
        None
    } else {
        let n = header_length(s);
        if n > 0x38 && header_type(s) == 0x04 && le32(s, 4) == 0x34 && n <= s.len() && s[n - 2]
            == 0 && s[n - 1] == 0 {
            Some(n)
        } else {
            None
        }
    }
}

/// The length of the form package that starts `s`, if one plausibly does:
/// type 0x02, a FormSet opcode first, and an End operation (0x29 0x02) last.
pub open spec fn form_candidate_len(s: Seq<u8>) -> Option<int> {
    if s.len() < 5 {
        None
    } else {
        let n = header_length(s);
        if n >= 7 && header_type(s) == 0x02 && s[4] == 0x0E && n <= s.len() && s[n - 2] == 0x29
            && s[n - 1] == 0x02 {
            Some(n)
        } else {
            None
        }
    }
}

/// The outcome of a candidate test: the package's bytes and those after it.
pub open spec fn candidate_outcome(
    s: Seq<u8>,
    r: Result<(&[u8], &[u8]), ParseError>,
    len: Option<int>,
) -> bool {
    match r {
        Ok((rest, c)) => len.is_some() && c@ == s.subrange(0, len.unwrap()) && rest@ == s.subrange(
            len.unwrap(),
            s.len() as int,
        ),
        Err(_) => len.is_none(),
    }
}

/// Tests whether a string package starts `input`, and gives its bytes.
pub fn hii_string_package_candidate(input: &[u8]) -> (r: Result<(&[u8], &[u8]), ParseError>)
    ensures
        candidate_outcome(input@, r, string_candidate_len(input@)),
{
    if input.len() < 8 {
        return Err(ParseError::Incomplete);
    }
    let raw = read_u32(input, 0);
    let n = (raw % 0x100_0000) as usize;
    if n <= 0x38 || raw / 0x100_0000 != 0x04 || read_u32(input, 4) != 0x34 {
        return Err(ParseError::Invalid);
    }
    if n > input.len() {
        return Err(ParseError::Incomplete);
    }
    if input[n - 2] != 0 || input[n - 1] != 0 {
        return Err(ParseError::Invalid);
    }
    Ok((tail(input, n), vstd::slice::slice_subrange(input, 0, n)))
}

/// Tests whether a form package starts `input`, and gives its bytes.
pub fn hii_form_package_candidate(input: &[u8]) -> (r: Result<(&[u8], &[u8]), ParseError>)
    ensures
        candidate_outcome(input@, r, form_candidate_len(input@)),
{
    if input.len() < 5 {
        return Err(ParseError::Incomplete);
    }
    let raw = read_u32(input, 0);
    let n = (raw % 0x100_0000) as usize;
    if n < 7 || raw / 0x100_0000 != 0x02 || input[4] != 0x0E {
        return Err(ParseError::Invalid);
    }
    if n > input.len() {
        return Err(ParseError::Incomplete);
    }
    if input[n - 2] != 0x29 || input[n - 1] != 0x02 {
        return Err(ParseError::Invalid);
    }
    Ok((tail(input, n), vstd::slice::slice_subrange(input, 0, n)))
}

//
// String package
//
/// The fixed header of a string package and the string data that follows it.
#[derive(Debug, PartialEq, Eq)]
pub struct HiiStringPackage<'a> {
    pub HdrSize: u32,
    pub StringInfoOffset: u32,
    pub LanguageWindow: [u16; 16],
    pub LanguageName: u16,
    pub Language: String,
    pub Data: &'a [u8],
}

/// The sixteen UCS-2 units of the language window.
pub open spec fn language_window_of(s: Seq<u8>) -> Seq<u16> {
    Seq::new(16, |k: int| le16(s, 8 + 2 * k))
}

/// Decodes the payload of a string package: a 0x34-byte header whose
/// five-character language tag ends in a terminator, then the string data.
pub fn hii_string_package(input: &[u8]) -> (r: Result<(&[u8], HiiStringPackage), ParseError>)
    ensures
        match r {
            Ok((rest, p)) => {
                &&& input@.len() >= 48 && le32(input@, 0) == 0x34
                &&& p.HdrSize == 0x34 && p.StringInfoOffset == le32(input@, 4)
                &&& p.LanguageWindow@ == language_window_of(input@)
                &&& p.LanguageName == le16(input@, 40)
                &&& p.Language@ == utf8_lossy(input@.subrange(42, 47))
                &&& p.Data@ == input@.subrange(48, input@.len() as int)
                &&& rest@.len() == 0
            },
            Err(e) => !(input@.len() >= 48 && le32(input@, 0) == 0x34) && (e == ParseError::Invalid
                <==> (input@.len() >= 4 && le32(input@, 0) != 0x34)),
        },
{
    if input.len() < 4 {
        return Err(ParseError::Incomplete);
    }
    let hs = read_u32(input, 0);
    if hs != 0x34 {
        return Err(ParseError::Invalid);
    }
    if input.len() < 48 {
        return Err(ParseError::Incomplete);
    }
    let lw = [
        read_u16(input, 8),
        read_u16(input, 10),
        read_u16(input, 12),
        read_u16(input, 14),
        read_u16(input, 16),
        read_u16(input, 18),
        read_u16(input, 20),
        read_u16(input, 22),
        read_u16(input, 24),
        read_u16(input, 26),
        read_u16(input, 28),
        read_u16(input, 30),
        read_u16(input, 32),
        read_u16(input, 34),
        read_u16(input, 36),
        read_u16(input, 38),
    ];
    assert(lw@ =~= language_window_of(input@));
    let p = HiiStringPackage {
        HdrSize: hs,
        StringInfoOffset: read_u32(input, 4),
        LanguageWindow: lw,
        LanguageName: read_u16(input, 40),
        Language: lossy_utf8(vstd::slice::slice_subrange(input, 42, 47)),
        Data: tail(input, 48),
    };
    Ok((tail(input, input.len()), p))
}

//
// String information blocks
//
#[derive(Debug, Eq, PartialEq, Copy, Clone, Structural)]
pub enum HiiSibtType {
    End,
    StringScsu,
    StringScsuFont,
    StringsScsu,
    StringsScsuFont,
    StringUcs2,
    StringUcs2Font,
    StringsUcs2,
    StringsUcs2Font,
    Duplicate,
    Skip2,
    Skip1,
    Ext1,
    Ext2,
    Ext4,
    Unknown(u8),
}

pub open spec fn sibt_type_of(n: u8) -> HiiSibtType {
    if n == 0x00 {
        HiiSibtType::End
    } else if n == 0x10 {
        HiiSibtType::StringScsu
    } else if n == 0x11 {
        HiiSibtType::StringScsuFont
    } else if n == 0x12 {
        HiiSibtType::StringsScsu
    } else if n == 0x13 {
        HiiSibtType::StringsScsuFont
    } else if n == 0x14 {
        HiiSibtType::StringUcs2
    } else if n == 0x15 {
        HiiSibtType::StringUcs2Font
    } else if n == 0x16 {
        HiiSibtType::StringsUcs2
    } else if n == 0x17 {
        HiiSibtType::StringsUcs2Font
    } else if n == 0x20 {
        HiiSibtType::Duplicate
    } else if n == 0x21 {
        HiiSibtType::Skip2
    } else if n == 0x22 {
        HiiSibtType::Skip1
    } else if n == 0x30 {
        HiiSibtType::Ext1
    } else if n == 0x31 {
        HiiSibtType::Ext2
    } else if n == 0x32 {
        HiiSibtType::Ext4
    } else {
        HiiSibtType::Unknown(n)
    }
}

impl From<u8> for HiiSibtType {
    fn from(n: u8) -> (r: HiiSibtType) {
        match n {
            0x00 => HiiSibtType::End,
            0x10 => HiiSibtType::StringScsu,
            0x11 => HiiSibtType::StringScsuFont,
            0x12 => HiiSibtType::StringsScsu,
            0x13 => HiiSibtType::StringsScsuFont,
            0x14 => HiiSibtType::StringUcs2,
            0x15 => HiiSibtType::StringUcs2Font,
            0x16 => HiiSibtType::StringsUcs2,
            0x17 => HiiSibtType::StringsUcs2Font,
            0x20 => HiiSibtType::Duplicate,
            0x21 => HiiSibtType::Skip2,
            0x22 => HiiSibtType::Skip1,
            0x30 => HiiSibtType::Ext1,
            0x31 => HiiSibtType::Ext2,
            0x32 => HiiSibtType::Ext4,
            _ => HiiSibtType::Unknown(n),
        }
    }
}

impl vstd::std_specs::convert::FromSpecImpl<u8> for HiiSibtType {
    open spec fn obeys_from_spec() -> bool {
        true
    }

    open spec fn from_spec(n: u8) -> HiiSibtType {
        sibt_type_of(n)
    }
}

/// One string information block: its type and the bytes after its type byte.
#[derive(Debug, PartialEq, Eq)]
pub struct HiiSibtBlock<'a> {
    pub Type: HiiSibtType,
    pub Data: Option<&'a [u8]>,
}

/// A block as plain values: its type and its bytes (empty when absent).
pub open spec fn block_view(b: HiiSibtBlock) -> (HiiSibtType, Seq<u8>) {
    (b.Type, bytes_of(b.Data))
}

/// The number of bytes after the type byte of the block that starts `s`; none
/// when its type is unknown or the block does not fit.
pub open spec fn sibt_data_len(s: Seq<u8>) -> Option<int> {
    if s.len() < 1 {
        None
    } else {
        let t = s[0];
        if t == 0x00 {
            Some(0)
        } else if t == 0x10 || t == 0x14 {
            match str_end(s, 1, t == 0x14) {
                Some(e) => Some(e - 1),
                None => None,
            }
        } else if t == 0x11 || t == 0x15 {
            match str_end(s, 2, t == 0x15) {
                Some(e) => Some(e - 1),
                None => None,
            }
        } else if t == 0x12 || t == 0x16 {
            if s.len() < 3 {
                None
            } else {
                match run_end(s, 3, le16(s, 1) as nat, t == 0x16) {
                    Some(e) => Some(e - 1),
                    None => None,
                }
            }
        } else if t == 0x13 || t == 0x17 {
            if s.len() < 4 {
                None
            } else {
                match run_end(s, 4, le16(s, 2) as nat, t == 0x17) {
                    Some(e) => Some(e - 1),
                    None => None,
                }
            }
        } else if t == 0x20 || t == 0x21 {
            if s.len() >= 3 {
                Some(2)
            } else {
                None
            }
        } else if t == 0x22 {
            if s.len() >= 2 {
                Some(1)
            } else {
                None
            }
        } else if t == 0x30 {
            if s.len() >= 3 && 3 + s[2] <= s.len() {
                Some(s[2] as int)
            } else {
                None
            }
        } else if t == 0x31 {
            if s.len() >= 4 && 4 + le16(s, 2) <= s.len() {
                Some(le16(s, 2) as int)
            } else {
                None
            }
        } else if t == 0x32 {
            if s.len() >= 6 && 6 + le32(s, 2) <= s.len() {
                Some(le32(s, 2) as int)
            } else {
                None
            }
        } else {
            None
        }
    }
}

/// The block types whose length can be worked out from their content.
pub open spec fn known_sibt(t: u8) -> bool {
    t == 0x00 || (0x10 <= t <= 0x17) || (0x20 <= t <= 0x22) || (0x30 <= t <= 0x32)
}

/// Decodes the string information block at the start of `input`.
pub fn hii_sibt_block(input: &[u8]) -> (r: Result<(&[u8], HiiSibtBlock), ParseError>)
    ensures
        match r {
            Ok((rest, b)) => match sibt_data_len(input@) {
                Some(n) => {
                    &&& 0 <= n && 1 + n <= input@.len()
                    &&& b.Type == sibt_type_of(input@[0])
                    &&& opt_bytes(b.Data, input@.subrange(1, 1 + n))
                    &&& rest@ == input@.subrange(1 + n, input@.len() as int)
                },
                None => false,
            },
            Err(e) => sibt_data_len(input@).is_none() && (e == ParseError::Invalid <==> (
            input@.len() >= 1 && !known_sibt(input@[0]))),
        },
{
    let len = input.len();
    if len < 1 {
        return Err(ParseError::Incomplete);
    }
    let t = input[0];
    let n: usize = if t == 0x00 {
        0
    } else if t == 0x10 || t == 0x14 || t == 0x11 || t == 0x15 {
        let start: usize = if t == 0x10 || t == 0x14 {
            1
        } else {
            2
        };
        match find_str_end(input, start, t == 0x14 || t == 0x15) {
            Some(e) => {
                proof {
                    lemma_str_end_bounds(input@, start as int, t == 0x14 || t == 0x15);
                }
                e - 1
            },
            None => {
                return Err(ParseError::Incomplete);
            },
        }
    } else if t == 0x12 || t == 0x16 || t == 0x13 || t == 0x17 {
        let at: usize = if t == 0x12 || t == 0x16 {
            1
        } else {
            2
        };
        if len < at + 2 {
            return Err(ParseError::Incomplete);
        }
        let cnt = read_u16(input, at) as u32;
        match find_run_end(input, at + 2, cnt, t == 0x16 || t == 0x17) {
            Some(e) => {
                proof {
                    lemma_run_end_bounds(input@, at + 2, cnt as nat, t == 0x16 || t == 0x17);
                }
                e - 1
            },
            None => {
                return Err(ParseError::Incomplete);
            },
        }
    } else if t == 0x20 || t == 0x21 {
        if len < 3 {
            return Err(ParseError::Incomplete);
        }
        2
    } else if t == 0x22 {
        if len < 2 {
            return Err(ParseError::Incomplete);
        }
        1
    } else if t == 0x30 {
        if len < 3 || input[2] as usize > len - 3 {
            return Err(ParseError::Incomplete);
        }
        input[2] as usize
    } else if t == 0x31 {
        if len < 4 || read_u16(input, 2) as usize > len - 4 {
            return Err(ParseError::Incomplete);
        }
        read_u16(input, 2) as usize
    } else if t == 0x32 {
        if len < 6 || read_u32(input, 2) as usize > len - 6 {
            return Err(ParseError::Incomplete);
        }
        read_u32(input, 2) as usize
    } else {
        return Err(ParseError::Invalid);
    };
    let b = HiiSibtBlock { Type: HiiSibtType::from(t), Data: opt_range(input, 1, 1 + n) };
    Ok((tail(input, 1 + n), b))
}

/// The blocks decoded one after another from the start of `s`, up to and
/// including an End block, or up to the first block that cannot be decoded.
pub open spec fn sibt_blocks_of(s: Seq<u8>) -> Seq<(HiiSibtType, Seq<u8>)>
    decreases s.len(),
{
    match sibt_data_len(s) {
        Some(n) => if 0 <= n && 1 + n <= s.len() {
            let b = (sibt_type_of(s[0]), s.subrange(1, 1 + n));
            if s[0] == 0x00 {
                seq![b]
            } else {
                seq![b] + sibt_blocks_of(s.subrange(1 + n, s.len() as int))
            }
        } else {
            Seq::empty()
        },
        None => Seq::empty(),
    }
}

/// The number of bytes that the blocks of `sibt_blocks_of(s)` take up.
pub open spec fn sibt_blocks_used(s: Seq<u8>) -> int
    decreases s.len(),
{
    match sibt_data_len(s) {
        Some(n) => if 0 <= n && 1 + n <= s.len() {
            if s[0] == 0x00 {
                1 + n
            } else {
                1 + n + sibt_blocks_used(s.subrange(1 + n, s.len() as int))
            }
        } else {
            0
        },
        None => 0,
    }
}

/// Decodes the string information blocks of a string package's data; at least
/// one block must decode.
pub fn hii_sibt_blocks(input: &[u8]) -> (r: Result<(&[u8], Vec<HiiSibtBlock>), ParseError>)
    ensures
        match r {
            Ok((rest, v)) => {
                &&& v@.len() > 0
                &&& v@.map_values(|b: HiiSibtBlock| block_view(b)) == sibt_blocks_of(input@)
                &&& forall|k: int| 0 <= k < v@.len() ==> ((#[trigger] v@[k].Data is Some) <==> bytes_of(
                    v@[k].Data,
                ).len() > 0)
                &&& 0 <= sibt_blocks_used(input@) <= input@.len()
                &&& rest@ == input@.subrange(sibt_blocks_used(input@), input@.len() as int)
            },
            Err(e) => e == ParseError::Incomplete && sibt_blocks_of(input@).len() == 0,
        },
{
    let mut out: Vec<HiiSibtBlock> = Vec::new();
    let mut pos: usize = 0;
    let ghost s = input@;
    let len = input.len();
    assert(s.subrange(0, s.len() as int) =~= s);
    loop
        invariant_except_break
            out@.map_values(|b: HiiSibtBlock| block_view(b)) + sibt_blocks_of(s.subrange(pos as int, s.len() as int))
                == sibt_blocks_of(s),
            pos + sibt_blocks_used(s.subrange(pos as int, s.len() as int)) == sibt_blocks_used(s),
        invariant
            pos <= s.len(),
            len == s.len(),
            s == input@,
            out@.len() == 0 ==> pos == 0,
            forall|k: int| 0 <= k < out@.len() ==> ((#[trigger] out@[k].Data is Some) <==> bytes_of(
                out@[k].Data,
            ).len() > 0),
        ensures
            pos <= s.len(),
            out@.map_values(|b: HiiSibtBlock| block_view(b)) == sibt_blocks_of(s),
            pos == sibt_blocks_used(s),
        decreases s.len() - pos,
    {
        let here = tail(input, pos);
        match hii_sibt_block(here) {
            Ok((_, b)) => {
                let n = match b.Data {
                    Some(d) => d.len(),
                    None => 0,
                };
                let end = b.Type == HiiSibtType::End;
                assert(n == sibt_data_len(here@).unwrap());
                assert(here@.len() == s.len() - pos);
                assert(1 + n <= here@.len());
                assert(bytes_of(b.Data) =~= here@.subrange(1, 1 + n as int));
                assert(end <==> here@[0] == 0x00);
                let ghost before = out@.map_values(|b: HiiSibtBlock| block_view(b));
                let ghost blk = block_view(b);
                out.push(b);
                assert(out@.map_values(|b: HiiSibtBlock| block_view(b)) =~= before.push(blk));
                assert(here@.subrange(1 + n as int, here@.len() as int) =~= s.subrange(pos + 1 + n, s.len() as int));
                pos = pos + 1 + n;
                if end {
                    assert(out@.map_values(|b: HiiSibtBlock| block_view(b)) =~= sibt_blocks_of(s));
                    break;
                }
                assert(out@.map_values(|b: HiiSibtBlock| block_view(b)) + sibt_blocks_of(s.subrange(pos as int, s.len() as int)) =~= sibt_blocks_of(s));
            },
            Err(_) => {
                assert(sibt_blocks_of(here@) =~= Seq::<(HiiSibtType, Seq<u8>)>::empty());
                assert(out@.map_values(|b: HiiSibtBlock| block_view(b)) =~= sibt_blocks_of(s));
                break;
            },
        }
    }
    if out.len() == 0 {
        return Err(ParseError::Incomplete);
    }
    Ok((tail(input, pos), out))
}

/// Decodes the text of a StringScsu block: a zero-terminated byte string.
pub fn sibt_string_scsu(input: &[u8]) -> (r: Result<(&[u8], String), ParseError>)
    ensures
        string_outcome(input@, r, 0, false),
{
    one_string(input, 0, false)
}

/// Decodes the text of a StringScsuFont block: a font byte, then a zero-terminated byte string.
pub fn sibt_string_scsu_font(input: &[u8]) -> (r: Result<(&[u8], String), ParseError>)
    ensures
        string_outcome(input@, r, 1, false),
{
    one_string(input, 1, false)
}

/// Decodes the texts of a StringsScsu block: a count, then that many byte strings.
pub fn sibt_strings_scsu(input: &[u8]) -> (r: Result<(&[u8], Vec<String>), ParseError>)
    ensures
        strings_outcome(input@, r, 0, false),
{
    counted_strings(input, 0, false)
}

/// Decodes the texts of a StringsScsuFont block: a font byte, a count, then the byte strings.
pub fn sibt_strings_scsu_font(input: &[u8]) -> (r: Result<(&[u8], Vec<String>), ParseError>)
    ensures
        strings_outcome(input@, r, 1, false),
{
    counted_strings(input, 1, false)
}

/// Decodes the text of a StringUcs2 block: a zero-terminated UCS-2 string.
pub fn sibt_string_ucs2(input: &[u8]) -> (r: Result<(&[u8], String), ParseError>)
    ensures
        string_outcome(input@, r, 0, true),
{
    one_string(input, 0, true)
}

/// Decodes the text of a StringUcs2Font block: a font byte, then a UCS-2 string.
pub fn sibt_string_ucs2_font(input: &[u8]) -> (r: Result<(&[u8], String), ParseError>)
    ensures
        string_outcome(input@, r, 1, true),
{
    one_string(input, 1, true)
}

/// Decodes the texts of a StringsUcs2 block: a count, then that many UCS-2 strings.
pub fn sibt_strings_ucs2(input: &[u8]) -> (r: Result<(&[u8], Vec<String>), ParseError>)
    ensures
        strings_outcome(input@, r, 0, true),
{
    counted_strings(input, 0, true)
}

/// Decodes the texts of a StringsUcs2Font block: a font byte, a count, then the UCS-2 strings.
pub fn sibt_strings_ucs2_font(input: &[u8]) -> (r: Result<(&[u8], Vec<String>), ParseError>)
    ensures
        strings_outcome(input@, r, 1, true),
{
    counted_strings(input, 1, true)
}

//
// Form package: IFR operations
//
/// One IFR operation: its opcode, its total length (header included), whether
/// it opens a scope, and the bytes after its 2-byte header.
#[derive(Debug, PartialEq, Eq)]
pub struct IfrOperation<'a> {
    pub OpCode: IfrOpcode,
    pub Length: u8,
    pub ScopeStart: bool,
    pub Data: Option<&'a [u8]>,
}

impl<'a> IfrOperation<'a> {
    /// The bytes after the header; empty when there are none.
    pub fn payload(&self) -> (r: &'a [u8])
        ensures
            r@ == bytes_of(self.Data),
    {
        match self.Data {
            Some(d) => d,
            None => &[],
        }
    }
}

/// An operation as plain values.
pub open spec fn op_view(op: IfrOperation) -> (IfrOpcode, u8, bool, Seq<u8>) {
    (op.OpCode, op.Length, op.ScopeStart, bytes_of(op.Data))
}

/// The total length of the operation that starts `s`: the length byte without
/// its scope bit, at least 2 and within `s`.
pub open spec fn op_len(s: Seq<u8>) -> Option<int> {
    if s.len() >= 2 && 2 <= s[1] % 0x80 <= s.len() {
        Some((s[1] % 0x80) as int)
    } else {
        None
    }
}

/// Decodes the operation at the start of `input`.
pub fn ifr_operation(input: &[u8]) -> (r: Result<(&[u8], IfrOperation), ParseError>)
    ensures
        match r {
            Ok((rest, op)) => match op_len(input@) {
                Some(n) => {
                    &&& op.OpCode == opcode_of(input@[0])
                    &&& op.Length == n && 2 + bytes_of(op.Data).len() == op.Length
                    &&& op.ScopeStart == (input@[1] >= 0x80)
                    &&& opt_bytes(op.Data, input@.subrange(2, n))
                    &&& rest@ == input@.subrange(n, input@.len() as int)
                },
                None => false,
            },
            Err(e) => op_len(input@).is_none() && (e == ParseError::Invalid <==> (input@.len() >= 2
                && input@[1] % 0x80 < 2)),
        },
{
    if input.len() < 2 {
        return Err(ParseError::Incomplete);
    }
    let raw = input[1];
    let len = raw % 0x80;
    if len < 2 {
        return Err(ParseError::Invalid);
    }
    if len as usize > input.len() {
        return Err(ParseError::Incomplete);
    }
    let op = IfrOperation {
        OpCode: IfrOpcode::from(input[0]),
        Length: len,
        ScopeStart: raw >= 0x80,
        Data: opt_range(input, 2, len as usize),
    };
    Ok((tail(input, len as usize), op))
}

/// The operations decoded one after another from the start of `s`, up to the
/// first one that cannot be decoded.
pub open spec fn ifr_ops_of(s: Seq<u8>) -> Seq<(IfrOpcode, u8, bool, Seq<u8>)>
    decreases s.len(),
{
    match op_len(s) {
        Some(n) => seq![(opcode_of(s[0]), n as u8, s[1] >= 0x80, s.subrange(2, n))] + ifr_ops_of(
            s.subrange(n, s.len() as int),
        ),
        None => Seq::empty(),
    }
}

/// The number of bytes that the operations of `ifr_ops_of(s)` take up.
pub open spec fn ifr_ops_used(s: Seq<u8>) -> int
    decreases s.len(),
{
    match op_len(s) {
        Some(n) => n + ifr_ops_used(s.subrange(n, s.len() as int)),
        None => 0,
    }
}

/// The total of the declared lengths of a sequence of operations.
pub open spec fn ops_length_sum(ops: Seq<(IfrOpcode, u8, bool, Seq<u8>)>) -> int
    decreases ops.len(),
{
    if ops.len() == 0 {
        0
    } else {
        ops[0].1 as int + ops_length_sum(ops.subrange(1, ops.len() as int))
    }
}

/// The operations decoded from `s` lie end to end from its start: their
/// declared lengths add up to the bytes they take, and no operation decodes
/// in what is left after them.
pub proof fn lemma_ops_cover(s: Seq<u8>)
    ensures
        ifr_ops_used(s) == ops_length_sum(ifr_ops_of(s)),
        0 <= ifr_ops_used(s) <= s.len(),
        op_len(s.subrange(ifr_ops_used(s), s.len() as int)) is None,
    decreases s.len(),
{
    match op_len(s) {
        Some(n) => {
            let t = s.subrange(n, s.len() as int);
            lemma_ops_cover(t);
            let ops = ifr_ops_of(s);
            assert(ops.subrange(1, ops.len() as int) =~= ifr_ops_of(t));
            assert(t.subrange(ifr_ops_used(t), t.len() as int) =~= s.subrange(n + ifr_ops_used(t), s.len() as int));
        },
        None => {
            assert(s.subrange(0, s.len() as int) =~= s);
        },
    }
}

/// Decodes the operations of a form package's payload; at least one must decode.
pub fn ifr_operations(input: &[u8]) -> (r: Result<(&[u8], Vec<IfrOperation>), ParseError>)
    ensures
        match r {
            Ok((rest, v)) => {
                &&& v@.len() > 0
                &&& v@.map_values(|op: IfrOperation| op_view(op)) == ifr_ops_of(input@)
                &&& forall|k: int| 0 <= k < v@.len() ==> 2 + bytes_of(#[trigger] v@[k].Data).len() == v@[k].Length
                &&& 0 <= ifr_ops_used(input@) <= input@.len()
                &&& rest@ == input@.subrange(ifr_ops_used(input@), input@.len() as int)
                &&& ops_length_sum(v@.map_values(|op: IfrOperation| op_view(op))) == input@.len() - rest@.len()
                &&& op_len(rest@) is None
            },
            Err(e) => e == ParseError::Incomplete && ifr_ops_of(input@).len() == 0,
        },
{
    proof {
        lemma_ops_cover(input@);
    }
    let mut out: Vec<IfrOperation> = Vec::new();
    let mut pos: usize = 0;
    let ghost s = input@;
    let len = input.len();
    assert(s.subrange(0, s.len() as int) =~= s);
    loop
        invariant_except_break
            out@.map_values(|op: IfrOperation| op_view(op)) + ifr_ops_of(s.subrange(pos as int, s.len() as int))
                == ifr_ops_of(s),
            pos + ifr_ops_used(s.subrange(pos as int, s.len() as int)) == ifr_ops_used(s),
        invariant
            pos <= s.len(),
            len == s.len(),
            s == input@,
            out@.len() == 0 ==> pos == 0,
            forall|k: int| 0 <= k < out@.len() ==> 2 + bytes_of(#[trigger] out@[k].Data).len() == out@[k].Length,
        ensures
            pos <= s.len(),
            out@.map_values(|op: IfrOperation| op_view(op)) == ifr_ops_of(s),
            pos == ifr_ops_used(s),
        decreases s.len() - pos,
    {
        let here = tail(input, pos);
        match ifr_operation(here) {
            Ok((_, op)) => {
                let n = op.Length as usize;
                assert(bytes_of(op.Data) =~= here@.subrange(2, n as int));
                let ghost before = out@.map_values(|op: IfrOperation| op_view(op));
                let ghost v = op_view(op);
                out.push(op);
                assert(out@.map_values(|op: IfrOperation| op_view(op)) =~= before.push(v));
                assert(here@.subrange(n as int, here@.len() as int) =~= s.subrange(pos + n, s.len() as int));
                pos = pos + n;
                assert(out@.map_values(|op: IfrOperation| op_view(op)) + ifr_ops_of(s.subrange(pos as int, s.len() as int)) =~= ifr_ops_of(s));
            },
            Err(_) => {
                assert(ifr_ops_of(here@) =~= Seq::<(IfrOpcode, u8, bool, Seq<u8>)>::empty());
                assert(out@.map_values(|op: IfrOperation| op_view(op)) =~= ifr_ops_of(s));
                break;
            },
        }
    }
    if out.len() == 0 {
        return Err(ParseError::Incomplete);
    }
    Ok((tail(input, pos), out))
}

#[derive(Debug, Eq, PartialEq, Copy, Clone, Structural)]
pub enum IfrOpcode {
    /// Form
    Form,
    /// Subtitle
    Subtitle,
    /// Static text
    Text,
    /// Static image
    Image,
    /// One-of question
    OneOf,
    /// Boolean question
    CheckBox,
    /// Numeric question
    Numeric,
    /// Password string question
    Password,
    /// Option
    OneOfOption,
    /// Suppress-if conditional
    SuppressIf,
    /// Marks statement as locked
    Locked,
    /// Button question
    Action,
    /// Reset button
    ResetButton,
    /// Form set
    FormSet,
    /// Cross-reference
    Ref,
    /// Error checking conditional
    NoSubmitIf,
    /// Error checking conditional
    InconsistentIf,
    /// Return true if question value equals UINT16
    EqIdVal,
    /// Return true if question value equals another question value
    EqIdId,
    /// Return true if question value is found in list of UINT16s
    EqIdValList,
    /// Push true if both sub-expression returns true
    And,
    /// Push true if either sub-expressions returns true
    Or,
    /// Push false if sub-expression returns true, otherwise push true
    Not,
    /// Create rule in current form
    Rule,
    /// Nested statements, questions or options will not be selectable if expression returns true
    GrayOutIf,
    /// Date
    Date,
    /// Time
    Time,
    /// String
    String,
    /// Interval for refreshing a question
    Refresh,
    /// Nested statements, questions or options will not be processed if expression returns true
    DisableIf,
    /// Animation associated with question statement, form or form set
    Animation,
    /// Convert a string on the expression stack to lower case
    ToLower,
    /// Convert a string on the expression stack to upper case
    ToUpper,
    /// Convert one value to another by selecting a match from a list
    MapOp,
    /// Ordered list
    OrderedList,
    /// Define a buffer-style variable storage
    VarStore,
    /// Define a name/value style variable storage
    VarStoreNameValue,
    /// Define a UEFI variable style variable storage
    VarStoreEfi,
    /// Specify the device path to use for variable storage
    VarStoreDevice,
    /// Push the revision level of the UEFI Specification to which this Forms Processor is compliant
    Version,
    /// Marks end of scope
    End,
    /// Push TRUE if string matches a pattern
    Match,
    /// Return a stored value
    Get,
    /// Change a stored value
    SetOp,
    /// Provides a value for the current question or default
    Read,
    /// Change a value for the current question
    Write,
    /// Push true if two expressions are equal
    Equal,
    /// Push true if two expressions are not equal
    NotEqual,
    GreaterThan,
    GreaterEqual,
    LessThan,
    LessEqual,
    BitwiseAnd,
    BitwiseOr,
    BitwiseNot,
    ShiftLeft,
    ShiftRight,
    Add,
    Substract,
    Multiply,
    Divide,
    Modulo,
    /// Evaluate a rule
    RuleRef,
    QuestionRef1,
    QuestionRef2,
    Uint8,
    Uint16,
    Uint32,
    Uint64,
    True,
    False,
    ToUint,
    ToString,
    ToBoolean,
    /// Extract portion of string or buffer
    Mid,
    /// Find a string in a string
    Find,
    /// Extract a delimited byte or character string from buffer or string
    Token,
    StringRef1,
    StringRef2,
    /// Duplicate one of two expressions depending on result of the first expression
    Conditional,
    /// Push a question's value from a different form
    QuestionRef3,
    Zero,
    One,
    /// Push a 0xFFFFFFFFFFFFFFFF
    Ones,
    /// Push Undefined
    Undefined,
    /// Push length of buffer or string
    Length,
    /// Duplicate top of expression stack
    Dup,
    /// Push the current question's value
    This,
    /// Return first matching/non-matching character in a string
    Span,
    /// Provide a value for a question
    Value,
    /// Provide a default value for a question
    Default,
    /// Define a Default Type Declaration
    DefaultStore,
    /// Create a standards-map form
    FormMap,
    /// Push concatenated buffers or strings
    Catenate,
    /// An extensible GUIDed op-code
    Guid,
    /// Returns whether current user profile contains specified setup access privileges
    Security,
    /// Specify current form is modal
    ModalTag,
    /// Establish an event group for refreshing a forms-based element
    RefreshId,
    /// Warning conditional
    WarningIf,
    /// Push TRUE if string matches a Regular Expression pattern
    Match2,
    Unknown(u8),
}

/// The opcode that a byte stands for.
pub open spec fn opcode_of(n: u8) -> IfrOpcode {
    match n {
        0x01 => IfrOpcode::Form,
        0x02 => IfrOpcode::Subtitle,
        0x03 => IfrOpcode::Text,
        0x04 => IfrOpcode::Image,
        0x05 => IfrOpcode::OneOf,
        0x06 => IfrOpcode::CheckBox,
        0x07 => IfrOpcode::Numeric,
        0x08 => IfrOpcode::Password,
        0x09 => IfrOpcode::OneOfOption,
        0x0A => IfrOpcode::SuppressIf,
        0x0B => IfrOpcode::Locked,
        0x0C => IfrOpcode::Action,
        0x0D => IfrOpcode::ResetButton,
        0x0E => IfrOpcode::FormSet,
        0x0F => IfrOpcode::Ref,
        0x10 => IfrOpcode::NoSubmitIf,
        0x11 => IfrOpcode::InconsistentIf,
        0x12 => IfrOpcode::EqIdVal,
        0x13 => IfrOpcode::EqIdId,
        0x14 => IfrOpcode::EqIdValList,
        0x15 => IfrOpcode::And,
        0x16 => IfrOpcode::Or,
        0x17 => IfrOpcode::Not,
        0x18 => IfrOpcode::Rule,
        0x19 => IfrOpcode::GrayOutIf,
        0x1A => IfrOpcode::Date,
        0x1B => IfrOpcode::Time,
        0x1C => IfrOpcode::String,
        0x1D => IfrOpcode::Refresh,
        0x1E => IfrOpcode::DisableIf,
        0x1F => IfrOpcode::Animation,
        0x20 => IfrOpcode::ToLower,
        0x21 => IfrOpcode::ToUpper,
        0x22 => IfrOpcode::MapOp,
        0x23 => IfrOpcode::OrderedList,
        0x24 => IfrOpcode::VarStore,
        0x25 => IfrOpcode::VarStoreNameValue,
        0x26 => IfrOpcode::VarStoreEfi,
        0x27 => IfrOpcode::VarStoreDevice,
        0x28 => IfrOpcode::Version,
        0x29 => IfrOpcode::End,
        0x2A => IfrOpcode::Match,
        0x2B => IfrOpcode::Get,
        0x2C => IfrOpcode::SetOp,
        0x2D => IfrOpcode::Read,
        0x2E => IfrOpcode::Write,
        0x2F => IfrOpcode::Equal,
        0x30 => IfrOpcode::NotEqual,
        0x31 => IfrOpcode::GreaterThan,
        0x32 => IfrOpcode::GreaterEqual,
        0x33 => IfrOpcode::LessThan,
        0x34 => IfrOpcode::LessEqual,
        0x35 => IfrOpcode::BitwiseAnd,
        0x36 => IfrOpcode::BitwiseOr,
        0x37 => IfrOpcode::BitwiseNot,
        0x38 => IfrOpcode::ShiftLeft,
        0x39 => IfrOpcode::ShiftRight,
        0x3A => IfrOpcode::Add,
        0x3B => IfrOpcode::Substract,
        0x3C => IfrOpcode::Multiply,
        0x3D => IfrOpcode::Divide,
        0x3E => IfrOpcode::Modulo,
        0x3F => IfrOpcode::RuleRef,
        0x40 => IfrOpcode::QuestionRef1,
        0x41 => IfrOpcode::QuestionRef2,
        0x42 => IfrOpcode::Uint8,
        0x43 => IfrOpcode::Uint16,
        0x44 => IfrOpcode::Uint32,
        0x45 => IfrOpcode::Uint64,
        0x46 => IfrOpcode::True,
        0x47 => IfrOpcode::False,
        0x48 => IfrOpcode::ToUint,
        0x49 => IfrOpcode::ToString,
        0x4A => IfrOpcode::ToBoolean,
        0x4B => IfrOpcode::Mid,
        0x4C => IfrOpcode::Find,
        0x4D => IfrOpcode::Token,
        0x4E => IfrOpcode::StringRef1,
        0x4F => IfrOpcode::StringRef2,
        0x50 => IfrOpcode::Conditional,
        0x51 => IfrOpcode::QuestionRef3,
        0x52 => IfrOpcode::Zero,
        0x53 => IfrOpcode::One,
        0x54 => IfrOpcode::Ones,
        0x55 => IfrOpcode::Undefined,
        0x56 => IfrOpcode::Length,
        0x57 => IfrOpcode::Dup,
        0x58 => IfrOpcode::This,
        0x59 => IfrOpcode::Span,
        0x5A => IfrOpcode::Value,
        0x5B => IfrOpcode::Default,
        0x5C => IfrOpcode::DefaultStore,
        0x5D => IfrOpcode::FormMap,
        0x5E => IfrOpcode::Catenate,
        0x5F => IfrOpcode::Guid,
        0x60 => IfrOpcode::Security,
        0x61 => IfrOpcode::ModalTag,
        0x62 => IfrOpcode::RefreshId,
        0x63 => IfrOpcode::WarningIf,
        0x64 => IfrOpcode::Match2,
        _ => IfrOpcode::Unknown(n),
    }
}

/// The byte that stands for an opcode.
pub open spec fn opcode_byte(op: IfrOpcode) -> u8 {
    match op {
        IfrOpcode::Form => 0x01,
        IfrOpcode::Subtitle => 0x02,
        IfrOpcode::Text => 0x03,
        IfrOpcode::Image => 0x04,
        IfrOpcode::OneOf => 0x05,
        IfrOpcode::CheckBox => 0x06,
        IfrOpcode::Numeric => 0x07,
        IfrOpcode::Password => 0x08,
        IfrOpcode::OneOfOption => 0x09,
        IfrOpcode::SuppressIf => 0x0A,
        IfrOpcode::Locked => 0x0B,
        IfrOpcode::Action => 0x0C,
        IfrOpcode::ResetButton => 0x0D,
        IfrOpcode::FormSet => 0x0E,
        IfrOpcode::Ref => 0x0F,
        IfrOpcode::NoSubmitIf => 0x10,
        IfrOpcode::InconsistentIf => 0x11,
        IfrOpcode::EqIdVal => 0x12,
        IfrOpcode::EqIdId => 0x13,
        IfrOpcode::EqIdValList => 0x14,
        IfrOpcode::And => 0x15,
        IfrOpcode::Or => 0x16,
        IfrOpcode::Not => 0x17,
        IfrOpcode::Rule => 0x18,
        IfrOpcode::GrayOutIf => 0x19,
        IfrOpcode::Date => 0x1A,
        IfrOpcode::Time => 0x1B,
        IfrOpcode::String => 0x1C,
        IfrOpcode::Refresh => 0x1D,
        IfrOpcode::DisableIf => 0x1E,
        IfrOpcode::Animation => 0x1F,
        IfrOpcode::ToLower => 0x20,
        IfrOpcode::ToUpper => 0x21,
        IfrOpcode::MapOp => 0x22,
        IfrOpcode::OrderedList => 0x23,
        IfrOpcode::VarStore => 0x24,
        IfrOpcode::VarStoreNameValue => 0x25,
        IfrOpcode::VarStoreEfi => 0x26,
        IfrOpcode::VarStoreDevice => 0x27,
        IfrOpcode::Version => 0x28,
        IfrOpcode::End => 0x29,
        IfrOpcode::Match => 0x2A,
        IfrOpcode::Get => 0x2B,
        IfrOpcode::SetOp => 0x2C,
        IfrOpcode::Read => 0x2D,
        IfrOpcode::Write => 0x2E,
        IfrOpcode::Equal => 0x2F,
        IfrOpcode::NotEqual => 0x30,
        IfrOpcode::GreaterThan => 0x31,
        IfrOpcode::GreaterEqual => 0x32,
        IfrOpcode::LessThan => 0x33,
        IfrOpcode::LessEqual => 0x34,
        IfrOpcode::BitwiseAnd => 0x35,
        IfrOpcode::BitwiseOr => 0x36,
        IfrOpcode::BitwiseNot => 0x37,
        IfrOpcode::ShiftLeft => 0x38,
        IfrOpcode::ShiftRight => 0x39,
        IfrOpcode::Add => 0x3A,
        IfrOpcode::Substract => 0x3B,
        IfrOpcode::Multiply => 0x3C,
        IfrOpcode::Divide => 0x3D,
        IfrOpcode::Modulo => 0x3E,
        IfrOpcode::RuleRef => 0x3F,
        IfrOpcode::QuestionRef1 => 0x40,
        IfrOpcode::QuestionRef2 => 0x41,
        IfrOpcode::Uint8 => 0x42,
        IfrOpcode::Uint16 => 0x43,
        IfrOpcode::Uint32 => 0x44,
        IfrOpcode::Uint64 => 0x45,
        IfrOpcode::True => 0x46,
        IfrOpcode::False => 0x47,
        IfrOpcode::ToUint => 0x48,
        IfrOpcode::ToString => 0x49,
        IfrOpcode::ToBoolean => 0x4A,
        IfrOpcode::Mid => 0x4B,
        IfrOpcode::Find => 0x4C,
        IfrOpcode::Token => 0x4D,
        IfrOpcode::StringRef1 => 0x4E,
        IfrOpcode::StringRef2 => 0x4F,
        IfrOpcode::Conditional => 0x50,
        IfrOpcode::QuestionRef3 => 0x51,
        IfrOpcode::Zero => 0x52,
        IfrOpcode::One => 0x53,
        IfrOpcode::Ones => 0x54,
        IfrOpcode::Undefined => 0x55,
        IfrOpcode::Length => 0x56,
        IfrOpcode::Dup => 0x57,
        IfrOpcode::This => 0x58,
        IfrOpcode::Span => 0x59,
        IfrOpcode::Value => 0x5A,
        IfrOpcode::Default => 0x5B,
        IfrOpcode::DefaultStore => 0x5C,
        IfrOpcode::FormMap => 0x5D,
        IfrOpcode::Catenate => 0x5E,
        IfrOpcode::Guid => 0x5F,
        IfrOpcode::Security => 0x60,
        IfrOpcode::ModalTag => 0x61,
        IfrOpcode::RefreshId => 0x62,
        IfrOpcode::WarningIf => 0x63,
        IfrOpcode::Match2 => 0x64,
        IfrOpcode::Unknown(m) => m,
    }
}

/// Every byte survives the trip to an opcode and back, the unknown ones too.
pub proof fn lemma_opcode_round_trip(n: u8)
    ensures
        opcode_byte(opcode_of(n)) == n,
{
}

impl From<u8> for IfrOpcode {
    fn from(n: u8) -> (r: IfrOpcode) {
        match n {
            0x01 => IfrOpcode::Form,
            0x02 => IfrOpcode::Subtitle,
            0x03 => IfrOpcode::Text,
            0x04 => IfrOpcode::Image,
            0x05 => IfrOpcode::OneOf,
            0x06 => IfrOpcode::CheckBox,
            0x07 => IfrOpcode::Numeric,
            0x08 => IfrOpcode::Password,
            0x09 => IfrOpcode::OneOfOption,
            0x0A => IfrOpcode::SuppressIf,
            0x0B => IfrOpcode::Locked,
            0x0C => IfrOpcode::Action,
            0x0D => IfrOpcode::ResetButton,
            0x0E => IfrOpcode::FormSet,
            0x0F => IfrOpcode::Ref,
            0x10 => IfrOpcode::NoSubmitIf,
            0x11 => IfrOpcode::InconsistentIf,
            0x12 => IfrOpcode::EqIdVal,
            0x13 => IfrOpcode::EqIdId,
            0x14 => IfrOpcode::EqIdValList,
            0x15 => IfrOpcode::And,
            0x16 => IfrOpcode::Or,
            0x17 => IfrOpcode::Not,
            0x18 => IfrOpcode::Rule,
            0x19 => IfrOpcode::GrayOutIf,
            0x1A => IfrOpcode::Date,
            0x1B => IfrOpcode::Time,
            0x1C => IfrOpcode::String,
            0x1D => IfrOpcode::Refresh,
            0x1E => IfrOpcode::DisableIf,
            0x1F => IfrOpcode::Animation,
            0x20 => IfrOpcode::ToLower,
            0x21 => IfrOpcode::ToUpper,
            0x22 => IfrOpcode::MapOp,
            0x23 => IfrOpcode::OrderedList,
            0x24 => IfrOpcode::VarStore,
            0x25 => IfrOpcode::VarStoreNameValue,
            0x26 => IfrOpcode::VarStoreEfi,
            0x27 => IfrOpcode::VarStoreDevice,
            0x28 => IfrOpcode::Version,
            0x29 => IfrOpcode::End,
            0x2A => IfrOpcode::Match,
            0x2B => IfrOpcode::Get,
            0x2C => IfrOpcode::SetOp,
            0x2D => IfrOpcode::Read,
            0x2E => IfrOpcode::Write,
            0x2F => IfrOpcode::Equal,
            0x30 => IfrOpcode::NotEqual,
            0x31 => IfrOpcode::GreaterThan,
            0x32 => IfrOpcode::GreaterEqual,
            0x33 => IfrOpcode::LessThan,
            0x34 => IfrOpcode::LessEqual,
            0x35 => IfrOpcode::BitwiseAnd,
            0x36 => IfrOpcode::BitwiseOr,
            0x37 => IfrOpcode::BitwiseNot,
            0x38 => IfrOpcode::ShiftLeft,
            0x39 => IfrOpcode::ShiftRight,
            0x3A => IfrOpcode::Add,
            0x3B => IfrOpcode::Substract,
            0x3C => IfrOpcode::Multiply,
            0x3D => IfrOpcode::Divide,
            0x3E => IfrOpcode::Modulo,
            0x3F => IfrOpcode::RuleRef,
            0x40 => IfrOpcode::QuestionRef1,
            0x41 => IfrOpcode::QuestionRef2,
            0x42 => IfrOpcode::Uint8,
            0x43 => IfrOpcode::Uint16,
            0x44 => IfrOpcode::Uint32,
            0x45 => IfrOpcode::Uint64,
            0x46 => IfrOpcode::True,
            0x47 => IfrOpcode::False,
            0x48 => IfrOpcode::ToUint,
            0x49 => IfrOpcode::ToString,
            0x4A => IfrOpcode::ToBoolean,
            0x4B => IfrOpcode::Mid,
            0x4C => IfrOpcode::Find,
            0x4D => IfrOpcode::Token,
            0x4E => IfrOpcode::StringRef1,
            0x4F => IfrOpcode::StringRef2,
            0x50 => IfrOpcode::Conditional,
            0x51 => IfrOpcode::QuestionRef3,
            0x52 => IfrOpcode::Zero,
            0x53 => IfrOpcode::One,
            0x54 => IfrOpcode::Ones,
            0x55 => IfrOpcode::Undefined,
            0x56 => IfrOpcode::Length,
            0x57 => IfrOpcode::Dup,
            0x58 => IfrOpcode::This,
            0x59 => IfrOpcode::Span,
            0x5A => IfrOpcode::Value,
            0x5B => IfrOpcode::Default,
            0x5C => IfrOpcode::DefaultStore,
            0x5D => IfrOpcode::FormMap,
            0x5E => IfrOpcode::Catenate,
            0x5F => IfrOpcode::Guid,
            0x60 => IfrOpcode::Security,
            0x61 => IfrOpcode::ModalTag,
            0x62 => IfrOpcode::RefreshId,
            0x63 => IfrOpcode::WarningIf,
            0x64 => IfrOpcode::Match2,
            _ => IfrOpcode::Unknown(n),
        }
    }
}

impl vstd::std_specs::convert::FromSpecImpl<u8> for IfrOpcode {
    open spec fn obeys_from_spec() -> bool {
        true
    }

    open spec fn from_spec(n: u8) -> IfrOpcode {
        opcode_of(n)
    }
}

impl From<IfrOpcode> for u8 {
    fn from(op: IfrOpcode) -> (r: u8) {
        match op {
            IfrOpcode::Form => 0x01,
            IfrOpcode::Subtitle => 0x02,
            IfrOpcode::Text => 0x03,
            IfrOpcode::Image => 0x04,
            IfrOpcode::OneOf => 0x05,
            IfrOpcode::CheckBox => 0x06,
            IfrOpcode::Numeric => 0x07,
            IfrOpcode::Password => 0x08,
            IfrOpcode::OneOfOption => 0x09,
            IfrOpcode::SuppressIf => 0x0A,
            IfrOpcode::Locked => 0x0B,
            IfrOpcode::Action => 0x0C,
            IfrOpcode::ResetButton => 0x0D,
            IfrOpcode::FormSet => 0x0E,
            IfrOpcode::Ref => 0x0F,
            IfrOpcode::NoSubmitIf => 0x10,
            IfrOpcode::InconsistentIf => 0x11,
            IfrOpcode::EqIdVal => 0x12,
            IfrOpcode::EqIdId => 0x13,
            IfrOpcode::EqIdValList => 0x14,
            IfrOpcode::And => 0x15,
            IfrOpcode::Or => 0x16,
            IfrOpcode::Not => 0x17,
            IfrOpcode::Rule => 0x18,
            IfrOpcode::GrayOutIf => 0x19,
            IfrOpcode::Date => 0x1A,
            IfrOpcode::Time => 0x1B,
            IfrOpcode::String => 0x1C,
            IfrOpcode::Refresh => 0x1D,
            IfrOpcode::DisableIf => 0x1E,
            IfrOpcode::Animation => 0x1F,
            IfrOpcode::ToLower => 0x20,
            IfrOpcode::ToUpper => 0x21,
            IfrOpcode::MapOp => 0x22,
            IfrOpcode::OrderedList => 0x23,
            IfrOpcode::VarStore => 0x24,
            IfrOpcode::VarStoreNameValue => 0x25,
            IfrOpcode::VarStoreEfi => 0x26,
            IfrOpcode::VarStoreDevice => 0x27,
            IfrOpcode::Version => 0x28,
            IfrOpcode::End => 0x29,
            IfrOpcode::Match => 0x2A,
            IfrOpcode::Get => 0x2B,
            IfrOpcode::SetOp => 0x2C,
            IfrOpcode::Read => 0x2D,
            IfrOpcode::Write => 0x2E,
            IfrOpcode::Equal => 0x2F,
            IfrOpcode::NotEqual => 0x30,
            IfrOpcode::GreaterThan => 0x31,
            IfrOpcode::GreaterEqual => 0x32,
            IfrOpcode::LessThan => 0x33,
            IfrOpcode::LessEqual => 0x34,
            IfrOpcode::BitwiseAnd => 0x35,
            IfrOpcode::BitwiseOr => 0x36,
            IfrOpcode::BitwiseNot => 0x37,
            IfrOpcode::ShiftLeft => 0x38,
            IfrOpcode::ShiftRight => 0x39,
            IfrOpcode::Add => 0x3A,
            IfrOpcode::Substract => 0x3B,
            IfrOpcode::Multiply => 0x3C,
            IfrOpcode::Divide => 0x3D,
            IfrOpcode::Modulo => 0x3E,
            IfrOpcode::RuleRef => 0x3F,
            IfrOpcode::QuestionRef1 => 0x40,
            IfrOpcode::QuestionRef2 => 0x41,
            IfrOpcode::Uint8 => 0x42,
            IfrOpcode::Uint16 => 0x43,
            IfrOpcode::Uint32 => 0x44,
            IfrOpcode::Uint64 => 0x45,
            IfrOpcode::True => 0x46,
            IfrOpcode::False => 0x47,
            IfrOpcode::ToUint => 0x48,
            IfrOpcode::ToString => 0x49,
            IfrOpcode::ToBoolean => 0x4A,
            IfrOpcode::Mid => 0x4B,
            IfrOpcode::Find => 0x4C,
            IfrOpcode::Token => 0x4D,
            IfrOpcode::StringRef1 => 0x4E,
            IfrOpcode::StringRef2 => 0x4F,
            IfrOpcode::Conditional => 0x50,
            IfrOpcode::QuestionRef3 => 0x51,
            IfrOpcode::Zero => 0x52,
            IfrOpcode::One => 0x53,
            IfrOpcode::Ones => 0x54,
            IfrOpcode::Undefined => 0x55,
            IfrOpcode::Length => 0x56,
            IfrOpcode::Dup => 0x57,
            IfrOpcode::This => 0x58,
            IfrOpcode::Span => 0x59,
            IfrOpcode::Value => 0x5A,
            IfrOpcode::Default => 0x5B,
            IfrOpcode::DefaultStore => 0x5C,
            IfrOpcode::FormMap => 0x5D,
            IfrOpcode::Catenate => 0x5E,
            IfrOpcode::Guid => 0x5F,
            IfrOpcode::Security => 0x60,
            IfrOpcode::ModalTag => 0x61,
            IfrOpcode::RefreshId => 0x62,
            IfrOpcode::WarningIf => 0x63,
            IfrOpcode::Match2 => 0x64,
            IfrOpcode::Unknown(m) => m,
        }
    }
}

impl vstd::std_specs::convert::FromSpecImpl<IfrOpcode> for u8 {
    open spec fn obeys_from_spec() -> bool {
        true
    }

    open spec fn from_spec(op: IfrOpcode) -> u8 {
        opcode_byte(op)
    }
}


//
// Operation records
//
/// Form (0x01): opens a form.
#[derive(Debug, PartialEq, Eq)]
pub struct IfrForm {
    pub FormId: u16,
    pub TitleStringId: u16,
}

/// The fields laid out at the start of `s`.
pub open spec fn ifr_form_of(s: Seq<u8>) -> IfrForm {
    IfrForm {
        FormId: le16(s, 0),
        TitleStringId: le16(s, 2),
    }
}

pub fn ifr_form(input: &[u8]) -> (r: Result<(&[u8], IfrForm), ParseError>)
    ensures
        fixed_outcome(input@, r, 4, ifr_form_of(input@)),
{
    if input.len() < 4 {
        return Err(ParseError::Incomplete);
    }
    let v = IfrForm {
        FormId: read_u16(input, 0),
        TitleStringId: read_u16(input, 2),
    };
    Ok((tail(input, 4), v))
}


/// Subtitle (0x02): a subtitle line.
#[derive(Debug, PartialEq, Eq)]
pub struct IfrSubtitle {
    pub PromptStringId: u16,
    pub HelpStringId: u16,
    pub Flags: u8,
}

/// The fields laid out at the start of `s`.
pub open spec fn ifr_subtitle_of(s: Seq<u8>) -> IfrSubtitle {
    IfrSubtitle {
        PromptStringId: le16(s, 0),
        HelpStringId: le16(s, 2),
        Flags: s[4],
    }
}

pub fn ifr_subtitle(input: &[u8]) -> (r: Result<(&[u8], IfrSubtitle), ParseError>)
    ensures
        fixed_outcome(input@, r, 5, ifr_subtitle_of(input@)),
{
    if input.len() < 5 {
        return Err(ParseError::Incomplete);
    }
    let v = IfrSubtitle {
        PromptStringId: read_u16(input, 0),
        HelpStringId: read_u16(input, 2),
        Flags: read_u8(input, 4),
    };
    Ok((tail(input, 5), v))
}


/// Text (0x03): a static text line.
#[derive(Debug, PartialEq, Eq)]
pub struct IfrText {
    pub PromptStringId: u16,
    pub HelpStringId: u16,
    pub TextId: u16,
}

/// The fields laid out at the start of `s`.
pub open spec fn ifr_text_of(s: Seq<u8>) -> IfrText {
    IfrText {
        PromptStringId: le16(s, 0),
        HelpStringId: le16(s, 2),
        TextId: le16(s, 4),
    }
}

pub fn ifr_text(input: &[u8]) -> (r: Result<(&[u8], IfrText), ParseError>)
    ensures
        fixed_outcome(input@, r, 6, ifr_text_of(input@)),
{
    if input.len() < 6 {
        return Err(ParseError::Incomplete);
    }
    let v = IfrText {
        PromptStringId: read_u16(input, 0),
        HelpStringId: read_u16(input, 2),
        TextId: read_u16(input, 4),
    };
    Ok((tail(input, 6), v))
}


/// Image (0x04): a static image.
#[derive(Debug, PartialEq, Eq)]
pub struct IfrImage {
    pub ImageId: u16,
}

/// The fields laid out at the start of `s`.
pub open spec fn ifr_image_of(s: Seq<u8>) -> IfrImage {
    IfrImage {
        ImageId: le16(s, 0),
    }
}

pub fn ifr_image(input: &[u8]) -> (r: Result<(&[u8], IfrImage), ParseError>)
    ensures
        fixed_outcome(input@, r, 2, ifr_image_of(input@)),
{
    if input.len() < 2 {
        return Err(ParseError::Incomplete);
    }
    let v = IfrImage {
        ImageId: read_u16(input, 0),
    };
    Ok((tail(input, 2), v))
}


/// CheckBox (0x06): a boolean question.
#[derive(Debug, PartialEq, Eq)]
pub struct IfrCheckBox {
    pub PromptStringId: u16,
    pub HelpStringId: u16,
    pub QuestionId: u16,
    pub VarStoreId: u16,
    pub VarStoreInfo: u16,
    pub QuestionFlags: u8,
    pub Flags: u8,
}

/// The fields laid out at the start of `s`.
pub open spec fn ifr_check_box_of(s: Seq<u8>) -> IfrCheckBox {
    IfrCheckBox {
        PromptStringId: le16(s, 0),
        HelpStringId: le16(s, 2),
        QuestionId: le16(s, 4),
        VarStoreId: le16(s, 6),
        VarStoreInfo: le16(s, 8),
        QuestionFlags: s[10],
        Flags: s[11],
    }
}

pub fn ifr_check_box(input: &[u8]) -> (r: Result<(&[u8], IfrCheckBox), ParseError>)
    ensures
        fixed_outcome(input@, r, 12, ifr_check_box_of(input@)),
{
    if input.len() < 12 {
        return Err(ParseError::Incomplete);
    }
    let v = IfrCheckBox {
        PromptStringId: read_u16(input, 0),
        HelpStringId: read_u16(input, 2),
        QuestionId: read_u16(input, 4),
        VarStoreId: read_u16(input, 6),
        VarStoreInfo: read_u16(input, 8),
        QuestionFlags: read_u8(input, 10),
        Flags: read_u8(input, 11),
    };
    Ok((tail(input, 12), v))
}


/// Password (0x08): a password question.
#[derive(Debug, PartialEq, Eq)]
pub struct IfrPassword {
    pub PromptStringId: u16,
    pub HelpStringId: u16,
    pub QuestionId: u16,
    pub VarStoreId: u16,
    pub VarStoreInfo: u16,
    pub QuestionFlags: u8,
    pub MinSize: u16,
    pub MaxSize: u16,
}

/// The fields laid out at the start of `s`.
pub open spec fn ifr_password_of(s: Seq<u8>) -> IfrPassword {
    IfrPassword {
        PromptStringId: le16(s, 0),
        HelpStringId: le16(s, 2),
        QuestionId: le16(s, 4),
        VarStoreId: le16(s, 6),
        VarStoreInfo: le16(s, 8),
        QuestionFlags: s[10],
        MinSize: le16(s, 11),
        MaxSize: le16(s, 13),
    }
}

pub fn ifr_password(input: &[u8]) -> (r: Result<(&[u8], IfrPassword), ParseError>)
    ensures
        fixed_outcome(input@, r, 15, ifr_password_of(input@)),
{
    if input.len() < 15 {
        return Err(ParseError::Incomplete);
    }
    let v = IfrPassword {
        PromptStringId: read_u16(input, 0),
        HelpStringId: read_u16(input, 2),
        QuestionId: read_u16(input, 4),
        VarStoreId: read_u16(input, 6),
        VarStoreInfo: read_u16(input, 8),
        QuestionFlags: read_u8(input, 10),
        MinSize: read_u16(input, 11),
        MaxSize: read_u16(input, 13),
    };
    Ok((tail(input, 15), v))
}


/// A time of day as hour, minute and second.
#[derive(Debug, PartialEq, Eq, Copy, Clone)]
pub struct HiiTime {
    pub Hour: u8,
    pub Minute: u8,
    pub Second: u8,
}

/// The fields laid out at the start of `s`.
pub open spec fn hii_time_of(s: Seq<u8>) -> HiiTime {
    HiiTime {
        Hour: s[0],
        Minute: s[1],
        Second: s[2],
    }
}

pub fn hii_time(input: &[u8]) -> (r: Result<(&[u8], HiiTime), ParseError>)
    ensures
        fixed_outcome(input@, r, 3, hii_time_of(input@)),
{
    if input.len() < 3 {
        return Err(ParseError::Incomplete);
    }
    let v = HiiTime {
        Hour: read_u8(input, 0),
        Minute: read_u8(input, 1),
        Second: read_u8(input, 2),
    };
    Ok((tail(input, 3), v))
}


/// A date as year, month and day.
#[derive(Debug, PartialEq, Eq, Copy, Clone)]
pub struct HiiDate {
    pub Year: u16,
    pub Month: u8,
    pub Day: u8,
}

/// The fields laid out at the start of `s`.
pub open spec fn hii_date_of(s: Seq<u8>) -> HiiDate {
    HiiDate {
        Year: le16(s, 0),
        Month: s[2],
        Day: s[3],
    }
}

pub fn hii_date(input: &[u8]) -> (r: Result<(&[u8], HiiDate), ParseError>)
    ensures
        fixed_outcome(input@, r, 4, hii_date_of(input@)),
{
    if input.len() < 4 {
        return Err(ParseError::Incomplete);
    }
    let v = HiiDate {
        Year: read_u16(input, 0),
        Month: read_u8(input, 2),
        Day: read_u8(input, 3),
    };
    Ok((tail(input, 4), v))
}


/// ResetButton (0x0D): a button that restores defaults.
#[derive(Debug, PartialEq, Eq)]
pub struct IfrResetButton {
    pub PromptStringId: u16,
    pub HelpStringId: u16,
    pub DefaultId: u16,
}

/// The fields laid out at the start of `s`.
pub open spec fn ifr_reset_button_of(s: Seq<u8>) -> IfrResetButton {
    IfrResetButton {
        PromptStringId: le16(s, 0),
        HelpStringId: le16(s, 2),
        DefaultId: le16(s, 4),
    }
}

pub fn ifr_reset_button(input: &[u8]) -> (r: Result<(&[u8], IfrResetButton), ParseError>)
    ensures
        fixed_outcome(input@, r, 6, ifr_reset_button_of(input@)),
{
    if input.len() < 6 {
        return Err(ParseError::Incomplete);
    }
    let v = IfrResetButton {
        PromptStringId: read_u16(input, 0),
        HelpStringId: read_u16(input, 2),
        DefaultId: read_u16(input, 4),
    };
    Ok((tail(input, 6), v))
}


/// NoSubmitIf (0x10): an error-checking conditional.
#[derive(Debug, PartialEq, Eq)]
pub struct IfrNoSumbitIf {
    pub ErrorStringId: u16,
}

/// The fields laid out at the start of `s`.
pub open spec fn ifr_no_submit_if_of(s: Seq<u8>) -> IfrNoSumbitIf {
    IfrNoSumbitIf {
        ErrorStringId: le16(s, 0),
    }
}

pub fn ifr_no_submit_if(input: &[u8]) -> (r: Result<(&[u8], IfrNoSumbitIf), ParseError>)
    ensures
        fixed_outcome(input@, r, 2, ifr_no_submit_if_of(input@)),
{
    if input.len() < 2 {
        return Err(ParseError::Incomplete);
    }
    let v = IfrNoSumbitIf {
        ErrorStringId: read_u16(input, 0),
    };
    Ok((tail(input, 2), v))
}


/// InconsistentIf (0x11): an error-checking conditional.
#[derive(Debug, PartialEq, Eq)]
pub struct IfrInconsistentIf {
    pub ErrorStringId: u16,
}

/// The fields laid out at the start of `s`.
pub open spec fn ifr_inconsistent_if_of(s: Seq<u8>) -> IfrInconsistentIf {
    IfrInconsistentIf {
        ErrorStringId: le16(s, 0),
    }
}

pub fn ifr_inconsistent_if(input: &[u8]) -> (r: Result<(&[u8], IfrInconsistentIf), ParseError>)
    ensures
        fixed_outcome(input@, r, 2, ifr_inconsistent_if_of(input@)),
{
    if input.len() < 2 {
        return Err(ParseError::Incomplete);
    }
    let v = IfrInconsistentIf {
        ErrorStringId: read_u16(input, 0),
    };
    Ok((tail(input, 2), v))
}


/// EqIdVal (0x12): a question value compared with a constant.
#[derive(Debug, PartialEq, Eq)]
pub struct IfrEqIdVal {
    pub QuestionId: u16,
    pub Value: u16,
}

/// The fields laid out at the start of `s`.
pub open spec fn ifr_eq_id_val_of(s: Seq<u8>) -> IfrEqIdVal {
    IfrEqIdVal {
        QuestionId: le16(s, 0),
        Value: le16(s, 2),
    }
}

pub fn ifr_eq_id_val(input: &[u8]) -> (r: Result<(&[u8], IfrEqIdVal), ParseError>)
    ensures
        fixed_outcome(input@, r, 4, ifr_eq_id_val_of(input@)),
{
    if input.len() < 4 {
        return Err(ParseError::Incomplete);
    }
    let v = IfrEqIdVal {
        QuestionId: read_u16(input, 0),
        Value: read_u16(input, 2),
    };
    Ok((tail(input, 4), v))
}


/// EqIdId (0x13): two question values compared.
#[derive(Debug, PartialEq, Eq)]
pub struct IfrEqIdId {
    pub QuestionId: u16,
    pub OtherQuestionId: u16,
}

/// The fields laid out at the start of `s`.
pub open spec fn ifr_eq_id_id_of(s: Seq<u8>) -> IfrEqIdId {
    IfrEqIdId {
        QuestionId: le16(s, 0),
        OtherQuestionId: le16(s, 2),
    }
}

pub fn ifr_eq_id_id(input: &[u8]) -> (r: Result<(&[u8], IfrEqIdId), ParseError>)
    ensures
        fixed_outcome(input@, r, 4, ifr_eq_id_id_of(input@)),
{
    if input.len() < 4 {
        return Err(ParseError::Incomplete);
    }
    let v = IfrEqIdId {
        QuestionId: read_u16(input, 0),
        OtherQuestionId: read_u16(input, 2),
    };
    Ok((tail(input, 4), v))
}


/// Rule (0x18): a rule of the current form.
#[derive(Debug, PartialEq, Eq)]
pub struct IfrRule {
    pub RuleId: u8,
}

/// The fields laid out at the start of `s`.
pub open spec fn ifr_rule_of(s: Seq<u8>) -> IfrRule {
    IfrRule {
        RuleId: s[0],
    }
}

pub fn ifr_rule(input: &[u8]) -> (r: Result<(&[u8], IfrRule), ParseError>)
    ensures
        fixed_outcome(input@, r, 1, ifr_rule_of(input@)),
{
    if input.len() < 1 {
        return Err(ParseError::Incomplete);
    }
    let v = IfrRule {
        RuleId: read_u8(input, 0),
    };
    Ok((tail(input, 1), v))
}


/// Date (0x1A): a date question.
#[derive(Debug, PartialEq, Eq)]
pub struct IfrDate {
    pub PromptStringId: u16,
    pub HelpStringId: u16,
    pub QuestionId: u16,
    pub VarStoreId: u16,
    pub VarStoreInfo: u16,
    pub QuestionFlags: u8,
    pub Flags: u8,
}

/// The fields laid out at the start of `s`.
pub open spec fn ifr_date_of(s: Seq<u8>) -> IfrDate {
    IfrDate {
        PromptStringId: le16(s, 0),
        HelpStringId: le16(s, 2),
        QuestionId: le16(s, 4),
        VarStoreId: le16(s, 6),
        VarStoreInfo: le16(s, 8),
        QuestionFlags: s[10],
        Flags: s[11],
    }
}

pub fn ifr_date(input: &[u8]) -> (r: Result<(&[u8], IfrDate), ParseError>)
    ensures
        fixed_outcome(input@, r, 12, ifr_date_of(input@)),
{
    if input.len() < 12 {
        return Err(ParseError::Incomplete);
    }
    let v = IfrDate {
        PromptStringId: read_u16(input, 0),
        HelpStringId: read_u16(input, 2),
        QuestionId: read_u16(input, 4),
        VarStoreId: read_u16(input, 6),
        VarStoreInfo: read_u16(input, 8),
        QuestionFlags: read_u8(input, 10),
        Flags: read_u8(input, 11),
    };
    Ok((tail(input, 12), v))
}


/// Time (0x1B): a time question.
#[derive(Debug, PartialEq, Eq)]
pub struct IfrTime {
    pub PromptStringId: u16,
    pub HelpStringId: u16,
    pub QuestionId: u16,
    pub VarStoreId: u16,
    pub VarStoreInfo: u16,
    pub QuestionFlags: u8,
    pub Flags: u8,
}

/// The fields laid out at the start of `s`.
pub open spec fn ifr_time_of(s: Seq<u8>) -> IfrTime {
    IfrTime {
        PromptStringId: le16(s, 0),
        HelpStringId: le16(s, 2),
        QuestionId: le16(s, 4),
        VarStoreId: le16(s, 6),
        VarStoreInfo: le16(s, 8),
        QuestionFlags: s[10],
        Flags: s[11],
    }
}

pub fn ifr_time(input: &[u8]) -> (r: Result<(&[u8], IfrTime), ParseError>)
    ensures
        fixed_outcome(input@, r, 12, ifr_time_of(input@)),
{
    if input.len() < 12 {
        return Err(ParseError::Incomplete);
    }
    let v = IfrTime {
        PromptStringId: read_u16(input, 0),
        HelpStringId: read_u16(input, 2),
        QuestionId: read_u16(input, 4),
        VarStoreId: read_u16(input, 6),
        VarStoreInfo: read_u16(input, 8),
        QuestionFlags: read_u8(input, 10),
        Flags: read_u8(input, 11),
    };
    Ok((tail(input, 12), v))
}


/// String (0x1C): a string question.
#[derive(Debug, PartialEq, Eq)]
pub struct IfrString {
    pub PromptStringId: u16,
    pub HelpStringId: u16,
    pub QuestionId: u16,
    pub VarStoreId: u16,
    pub VarStoreInfo: u16,
    pub QuestionFlags: u8,
    pub MinSize: u8,
    pub MaxSize: u8,
    pub Flags: u8,
}

/// The fields laid out at the start of `s`.
pub open spec fn ifr_string_of(s: Seq<u8>) -> IfrString {
    IfrString {
        PromptStringId: le16(s, 0),
        HelpStringId: le16(s, 2),
        QuestionId: le16(s, 4),
        VarStoreId: le16(s, 6),
        VarStoreInfo: le16(s, 8),
        QuestionFlags: s[10],
        MinSize: s[11],
        MaxSize: s[12],
        Flags: s[13],
    }
}

pub fn ifr_string(input: &[u8]) -> (r: Result<(&[u8], IfrString), ParseError>)
    ensures
        fixed_outcome(input@, r, 14, ifr_string_of(input@)),
{
    if input.len() < 14 {
        return Err(ParseError::Incomplete);
    }
    let v = IfrString {
        PromptStringId: read_u16(input, 0),
        HelpStringId: read_u16(input, 2),
        QuestionId: read_u16(input, 4),
        VarStoreId: read_u16(input, 6),
        VarStoreInfo: read_u16(input, 8),
        QuestionFlags: read_u8(input, 10),
        MinSize: read_u8(input, 11),
        MaxSize: read_u8(input, 12),
        Flags: read_u8(input, 13),
    };
    Ok((tail(input, 14), v))
}


/// Refresh (0x1D): the refresh interval of a question.
#[derive(Debug, PartialEq, Eq)]
pub struct IfrRefresh {
    pub RefreshInterval: u8,
}

/// The fields laid out at the start of `s`.
pub open spec fn ifr_refresh_of(s: Seq<u8>) -> IfrRefresh {
    IfrRefresh {
        RefreshInterval: s[0],
    }
}

pub fn ifr_refresh(input: &[u8]) -> (r: Result<(&[u8], IfrRefresh), ParseError>)
    ensures
        fixed_outcome(input@, r, 1, ifr_refresh_of(input@)),
{
    if input.len() < 1 {
        return Err(ParseError::Incomplete);
    }
    let v = IfrRefresh {
        RefreshInterval: read_u8(input, 0),
    };
    Ok((tail(input, 1), v))
}


/// Animation (0x1F): an animation.
#[derive(Debug, PartialEq, Eq)]
pub struct IfrAnimation {
    pub AnimationId: u16,
}

/// The fields laid out at the start of `s`.
pub open spec fn ifr_animation_of(s: Seq<u8>) -> IfrAnimation {
    IfrAnimation {
        AnimationId: le16(s, 0),
    }
}

pub fn ifr_animation(input: &[u8]) -> (r: Result<(&[u8], IfrAnimation), ParseError>)
    ensures
        fixed_outcome(input@, r, 2, ifr_animation_of(input@)),
{
    if input.len() < 2 {
        return Err(ParseError::Incomplete);
    }
    let v = IfrAnimation {
        AnimationId: read_u16(input, 0),
    };
    Ok((tail(input, 2), v))
}


/// OrderedList (0x23): an ordered list question.
#[derive(Debug, PartialEq, Eq)]
pub struct IfrOrderedList {
    pub PromptStringId: u16,
    pub HelpStringId: u16,
    pub QuestionId: u16,
    pub VarStoreId: u16,
    pub VarStoreInfo: u16,
    pub QuestionFlags: u8,
    pub MaxContainers: u8,
    pub Flags: u8,
}

/// The fields laid out at the start of `s`.
pub open spec fn ifr_ordered_list_of(s: Seq<u8>) -> IfrOrderedList {
    IfrOrderedList {
        PromptStringId: le16(s, 0),
        HelpStringId: le16(s, 2),
        QuestionId: le16(s, 4),
        VarStoreId: le16(s, 6),
        VarStoreInfo: le16(s, 8),
        QuestionFlags: s[10],
        MaxContainers: s[11],
        Flags: s[12],
    }
}

pub fn ifr_ordered_list(input: &[u8]) -> (r: Result<(&[u8], IfrOrderedList), ParseError>)
    ensures
        fixed_outcome(input@, r, 13, ifr_ordered_list_of(input@)),
{
    if input.len() < 13 {
        return Err(ParseError::Incomplete);
    }
    let v = IfrOrderedList {
        PromptStringId: read_u16(input, 0),
        HelpStringId: read_u16(input, 2),
        QuestionId: read_u16(input, 4),
        VarStoreId: read_u16(input, 6),
        VarStoreInfo: read_u16(input, 8),
        QuestionFlags: read_u8(input, 10),
        MaxContainers: read_u8(input, 11),
        Flags: read_u8(input, 12),
    };
    Ok((tail(input, 13), v))
}


/// VarStoreNameValue (0x25): a name/value variable store.
#[derive(Debug, PartialEq, Eq)]
pub struct IfrVarStoreNameValue {
    pub VarStoreId: u16,
    pub Guid: Guid,
}

/// The fields laid out at the start of `s`.
pub open spec fn ifr_var_store_name_value_of(s: Seq<u8>) -> IfrVarStoreNameValue {
    IfrVarStoreNameValue {
        VarStoreId: le16(s, 0),
        Guid: guid_at(s, 2),
    }
}

pub fn ifr_var_store_name_value(input: &[u8]) -> (r: Result<(&[u8], IfrVarStoreNameValue), ParseError>)
    ensures
        fixed_outcome(input@, r, 18, ifr_var_store_name_value_of(input@)),
{
    if input.len() < 18 {
        return Err(ParseError::Incomplete);
    }
    let v = IfrVarStoreNameValue {
        VarStoreId: read_u16(input, 0),
        Guid: read_guid(input, 2),
    };
    Ok((tail(input, 18), v))
}


/// VarStoreDevice (0x27): the device path of variable storage.
#[derive(Debug, PartialEq, Eq)]
pub struct IfrVarStoreDevice {
    pub DevicePathStringId: u16,
}

/// The fields laid out at the start of `s`.
pub open spec fn ifr_var_store_device_of(s: Seq<u8>) -> IfrVarStoreDevice {
    IfrVarStoreDevice {
        DevicePathStringId: le16(s, 0),
    }
}

pub fn ifr_var_store_device(input: &[u8]) -> (r: Result<(&[u8], IfrVarStoreDevice), ParseError>)
    ensures
        fixed_outcome(input@, r, 2, ifr_var_store_device_of(input@)),
{
    if input.len() < 2 {
        return Err(ParseError::Incomplete);
    }
    let v = IfrVarStoreDevice {
        DevicePathStringId: read_u16(input, 0),
    };
    Ok((tail(input, 2), v))
}


/// Get (0x2B): reads a stored value.
#[derive(Debug, PartialEq, Eq)]
pub struct IfrGet {
    pub VarStoreId: u16,
    pub VarStoreInfo: u16,
    pub VarStoreType: u8,
}

/// The fields laid out at the start of `s`.
pub open spec fn ifr_get_of(s: Seq<u8>) -> IfrGet {
    IfrGet {
        VarStoreId: le16(s, 0),
        VarStoreInfo: le16(s, 2),
        VarStoreType: s[4],
    }
}

pub fn ifr_get(input: &[u8]) -> (r: Result<(&[u8], IfrGet), ParseError>)
    ensures
        fixed_outcome(input@, r, 5, ifr_get_of(input@)),
{
    if input.len() < 5 {
        return Err(ParseError::Incomplete);
    }
    let v = IfrGet {
        VarStoreId: read_u16(input, 0),
        VarStoreInfo: read_u16(input, 2),
        VarStoreType: read_u8(input, 4),
    };
    Ok((tail(input, 5), v))
}


/// Set (0x2C): changes a stored value.
#[derive(Debug, PartialEq, Eq)]
pub struct IfrSet {
    pub VarStoreId: u16,
    pub VarStoreInfo: u16,
    pub VarStoreType: u8,
}

/// The fields laid out at the start of `s`.
pub open spec fn ifr_set_of(s: Seq<u8>) -> IfrSet {
    IfrSet {
        VarStoreId: le16(s, 0),
        VarStoreInfo: le16(s, 2),
        VarStoreType: s[4],
    }
}

pub fn ifr_set(input: &[u8]) -> (r: Result<(&[u8], IfrSet), ParseError>)
    ensures
        fixed_outcome(input@, r, 5, ifr_set_of(input@)),
{
    if input.len() < 5 {
        return Err(ParseError::Incomplete);
    }
    let v = IfrSet {
        VarStoreId: read_u16(input, 0),
        VarStoreInfo: read_u16(input, 2),
        VarStoreType: read_u8(input, 4),
    };
    Ok((tail(input, 5), v))
}


/// RuleRef (0x3F): evaluates a rule.
#[derive(Debug, PartialEq, Eq)]
pub struct IfrRuleRef {
    pub RuleId: u8,
}

/// The fields laid out at the start of `s`.
pub open spec fn ifr_rule_ref_of(s: Seq<u8>) -> IfrRuleRef {
    IfrRuleRef {
        RuleId: s[0],
    }
}

pub fn ifr_rule_ref(input: &[u8]) -> (r: Result<(&[u8], IfrRuleRef), ParseError>)
    ensures
        fixed_outcome(input@, r, 1, ifr_rule_ref_of(input@)),
{
    if input.len() < 1 {
        return Err(ParseError::Incomplete);
    }
    let v = IfrRuleRef {
        RuleId: read_u8(input, 0),
    };
    Ok((tail(input, 1), v))
}


/// QuestionRef1 (0x40): pushes a question value.
#[derive(Debug, PartialEq, Eq)]
pub struct IfrQuestionRef1 {
    pub QuestionId: u16,
}

/// The fields laid out at the start of `s`.
pub open spec fn ifr_question_ref_1_of(s: Seq<u8>) -> IfrQuestionRef1 {
    IfrQuestionRef1 {
        QuestionId: le16(s, 0),
    }
}

pub fn ifr_question_ref_1(input: &[u8]) -> (r: Result<(&[u8], IfrQuestionRef1), ParseError>)
    ensures
        fixed_outcome(input@, r, 2, ifr_question_ref_1_of(input@)),
{
    if input.len() < 2 {
        return Err(ParseError::Incomplete);
    }
    let v = IfrQuestionRef1 {
        QuestionId: read_u16(input, 0),
    };
    Ok((tail(input, 2), v))
}


/// Uint8 (0x42): pushes an 8-bit constant.
#[derive(Debug, PartialEq, Eq)]
pub struct IfrUint8 {
    pub Value: u8,
}

/// The fields laid out at the start of `s`.
pub open spec fn ifr_uint8_of(s: Seq<u8>) -> IfrUint8 {
    IfrUint8 {
        Value: s[0],
    }
}

pub fn ifr_uint8(input: &[u8]) -> (r: Result<(&[u8], IfrUint8), ParseError>)
    ensures
        fixed_outcome(input@, r, 1, ifr_uint8_of(input@)),
{
    if input.len() < 1 {
        return Err(ParseError::Incomplete);
    }
    let v = IfrUint8 {
        Value: read_u8(input, 0),
    };
    Ok((tail(input, 1), v))
}


/// Uint16 (0x43): pushes a 16-bit constant.
#[derive(Debug, PartialEq, Eq)]
pub struct IfrUint16 {
    pub Value: u16,
}

/// The fields laid out at the start of `s`.
pub open spec fn ifr_uint16_of(s: Seq<u8>) -> IfrUint16 {
    IfrUint16 {
        Value: le16(s, 0),
    }
}

pub fn ifr_uint16(input: &[u8]) -> (r: Result<(&[u8], IfrUint16), ParseError>)
    ensures
        fixed_outcome(input@, r, 2, ifr_uint16_of(input@)),
{
    if input.len() < 2 {
        return Err(ParseError::Incomplete);
    }
    let v = IfrUint16 {
        Value: read_u16(input, 0),
    };
    Ok((tail(input, 2), v))
}


/// Uint32 (0x44): pushes a 32-bit constant.
#[derive(Debug, PartialEq, Eq)]
pub struct IfrUint32 {
    pub Value: u32,
}

/// The fields laid out at the start of `s`.
pub open spec fn ifr_uint32_of(s: Seq<u8>) -> IfrUint32 {
    IfrUint32 {
        Value: le32(s, 0),
    }
}

pub fn ifr_uint32(input: &[u8]) -> (r: Result<(&[u8], IfrUint32), ParseError>)
    ensures
        fixed_outcome(input@, r, 4, ifr_uint32_of(input@)),
{
    if input.len() < 4 {
        return Err(ParseError::Incomplete);
    }
    let v = IfrUint32 {
        Value: read_u32(input, 0),
    };
    Ok((tail(input, 4), v))
}


/// Uint64 (0x45): pushes a 64-bit constant.
#[derive(Debug, PartialEq, Eq)]
pub struct IfrUint64 {
    pub Value: u64,
}

/// The fields laid out at the start of `s`.
pub open spec fn ifr_uint64_of(s: Seq<u8>) -> IfrUint64 {
    IfrUint64 {
        Value: le64(s, 0),
    }
}

pub fn ifr_uint64(input: &[u8]) -> (r: Result<(&[u8], IfrUint64), ParseError>)
    ensures
        fixed_outcome(input@, r, 8, ifr_uint64_of(input@)),
{
    if input.len() < 8 {
        return Err(ParseError::Incomplete);
    }
    let v = IfrUint64 {
        Value: read_u64(input, 0),
    };
    Ok((tail(input, 8), v))
}


/// ToString (0x49): converts a value to a string.
#[derive(Debug, PartialEq, Eq)]
pub struct IfrToString {
    pub Format: u8,
}

/// The fields laid out at the start of `s`.
pub open spec fn ifr_to_string_of(s: Seq<u8>) -> IfrToString {
    IfrToString {
        Format: s[0],
    }
}

pub fn ifr_to_string(input: &[u8]) -> (r: Result<(&[u8], IfrToString), ParseError>)
    ensures
        fixed_outcome(input@, r, 1, ifr_to_string_of(input@)),
{
    if input.len() < 1 {
        return Err(ParseError::Incomplete);
    }
    let v = IfrToString {
        Format: read_u8(input, 0),
    };
    Ok((tail(input, 1), v))
}


/// Find (0x4C): finds a string in a string.
#[derive(Debug, PartialEq, Eq)]
pub struct IfrFind {
    pub Format: u8,
}

/// The fields laid out at the start of `s`.
pub open spec fn ifr_find_of(s: Seq<u8>) -> IfrFind {
    IfrFind {
        Format: s[0],
    }
}

pub fn ifr_find(input: &[u8]) -> (r: Result<(&[u8], IfrFind), ParseError>)
    ensures
        fixed_outcome(input@, r, 1, ifr_find_of(input@)),
{
    if input.len() < 1 {
        return Err(ParseError::Incomplete);
    }
    let v = IfrFind {
        Format: read_u8(input, 0),
    };
    Ok((tail(input, 1), v))
}


/// StringRef1 (0x4E): pushes a string.
#[derive(Debug, PartialEq, Eq)]
pub struct IfrStringRef1 {
    pub StringId: u16,
}

/// The fields laid out at the start of `s`.
pub open spec fn ifr_string_ref_1_of(s: Seq<u8>) -> IfrStringRef1 {
    IfrStringRef1 {
        StringId: le16(s, 0),
    }
}

pub fn ifr_string_ref_1(input: &[u8]) -> (r: Result<(&[u8], IfrStringRef1), ParseError>)
    ensures
        fixed_outcome(input@, r, 2, ifr_string_ref_1_of(input@)),
{
    if input.len() < 2 {
        return Err(ParseError::Incomplete);
    }
    let v = IfrStringRef1 {
        StringId: read_u16(input, 0),
    };
    Ok((tail(input, 2), v))
}


/// Span (0x59): the first matching character in a string.
#[derive(Debug, PartialEq, Eq)]
pub struct IfrSpan {
    pub Flags: u8,
}

/// The fields laid out at the start of `s`.
pub open spec fn ifr_span_of(s: Seq<u8>) -> IfrSpan {
    IfrSpan {
        Flags: s[0],
    }
}

pub fn ifr_span(input: &[u8]) -> (r: Result<(&[u8], IfrSpan), ParseError>)
    ensures
        fixed_outcome(input@, r, 1, ifr_span_of(input@)),
{
    if input.len() < 1 {
        return Err(ParseError::Incomplete);
    }
    let v = IfrSpan {
        Flags: read_u8(input, 0),
    };
    Ok((tail(input, 1), v))
}


/// DefaultStore (0x5C): declares a default type.
#[derive(Debug, PartialEq, Eq)]
pub struct IfrDefaultStore {
    pub NameStringId: u16,
    pub DefaultId: u16,
}

/// The fields laid out at the start of `s`.
pub open spec fn ifr_default_store_of(s: Seq<u8>) -> IfrDefaultStore {
    IfrDefaultStore {
        NameStringId: le16(s, 0),
        DefaultId: le16(s, 2),
    }
}

pub fn ifr_default_store(input: &[u8]) -> (r: Result<(&[u8], IfrDefaultStore), ParseError>)
    ensures
        fixed_outcome(input@, r, 4, ifr_default_store_of(input@)),
{
    if input.len() < 4 {
        return Err(ParseError::Incomplete);
    }
    let v = IfrDefaultStore {
        NameStringId: read_u16(input, 0),
        DefaultId: read_u16(input, 2),
    };
    Ok((tail(input, 4), v))
}


/// One method of a FormMap operation.
#[derive(Debug, PartialEq, Eq)]
pub struct IfrFormMapMethod {
    pub MethodTitleId: u16,
    pub MethodIdentifier: Guid,
}

/// The fields laid out at the start of `s`.
pub open spec fn ifr_form_map_method_of(s: Seq<u8>) -> IfrFormMapMethod {
    IfrFormMapMethod {
        MethodTitleId: le16(s, 0),
        MethodIdentifier: guid_at(s, 2),
    }
}

pub fn ifr_form_map_method(input: &[u8]) -> (r: Result<(&[u8], IfrFormMapMethod), ParseError>)
    ensures
        fixed_outcome(input@, r, 18, ifr_form_map_method_of(input@)),
{
    if input.len() < 18 {
        return Err(ParseError::Incomplete);
    }
    let v = IfrFormMapMethod {
        MethodTitleId: read_u16(input, 0),
        MethodIdentifier: read_guid(input, 2),
    };
    Ok((tail(input, 18), v))
}


/// The banner record of the EDK2 GUID extension.
#[derive(Debug, PartialEq, Eq)]
pub struct IfrGuidEdk2Banner {
    pub TitleId: u16,
    pub LineNumber: u16,
    pub Alignment: u8,
}

/// The fields laid out at the start of `s`.
pub open spec fn ifr_guid_edk2_banner_of(s: Seq<u8>) -> IfrGuidEdk2Banner {
    IfrGuidEdk2Banner {
        TitleId: le16(s, 0),
        LineNumber: le16(s, 2),
        Alignment: s[4],
    }
}

pub fn ifr_guid_edk2_banner(input: &[u8]) -> (r: Result<(&[u8], IfrGuidEdk2Banner), ParseError>)
    ensures
        fixed_outcome(input@, r, 5, ifr_guid_edk2_banner_of(input@)),
{
    if input.len() < 5 {
        return Err(ParseError::Incomplete);
    }
    let v = IfrGuidEdk2Banner {
        TitleId: read_u16(input, 0),
        LineNumber: read_u16(input, 2),
        Alignment: read_u8(input, 4),
    };
    Ok((tail(input, 5), v))
}


/// Security (0x60): tests the user profile for a privilege.
#[derive(Debug, PartialEq, Eq)]
pub struct IfrSecurity {
    pub Guid: Guid,
}

/// The fields laid out at the start of `s`.
pub open spec fn ifr_security_of(s: Seq<u8>) -> IfrSecurity {
    IfrSecurity {
        Guid: guid_at(s, 0),
    }
}

pub fn ifr_security(input: &[u8]) -> (r: Result<(&[u8], IfrSecurity), ParseError>)
    ensures
        fixed_outcome(input@, r, 16, ifr_security_of(input@)),
{
    if input.len() < 16 {
        return Err(ParseError::Incomplete);
    }
    let v = IfrSecurity {
        Guid: read_guid(input, 0),
    };
    Ok((tail(input, 16), v))
}


/// RefreshId (0x62): an event group for refreshing.
#[derive(Debug, PartialEq, Eq)]
pub struct IfrRefreshId {
    pub Guid: Guid,
}

/// The fields laid out at the start of `s`.
pub open spec fn ifr_refresh_id_of(s: Seq<u8>) -> IfrRefreshId {
    IfrRefreshId {
        Guid: guid_at(s, 0),
    }
}

pub fn ifr_refresh_id(input: &[u8]) -> (r: Result<(&[u8], IfrRefreshId), ParseError>)
    ensures
        fixed_outcome(input@, r, 16, ifr_refresh_id_of(input@)),
{
    if input.len() < 16 {
        return Err(ParseError::Incomplete);
    }
    let v = IfrRefreshId {
        Guid: read_guid(input, 0),
    };
    Ok((tail(input, 16), v))
}


/// WarningIf (0x63): a warning conditional.
#[derive(Debug, PartialEq, Eq)]
pub struct IfrWarningIf {
    pub WarningStringId: u16,
    pub Timeout: u8,
}

/// The fields laid out at the start of `s`.
pub open spec fn ifr_warning_if_of(s: Seq<u8>) -> IfrWarningIf {
    IfrWarningIf {
        WarningStringId: le16(s, 0),
        Timeout: s[2],
    }
}

pub fn ifr_warning_if(input: &[u8]) -> (r: Result<(&[u8], IfrWarningIf), ParseError>)
    ensures
        fixed_outcome(input@, r, 3, ifr_warning_if_of(input@)),
{
    if input.len() < 3 {
        return Err(ParseError::Incomplete);
    }
    let v = IfrWarningIf {
        WarningStringId: read_u16(input, 0),
        Timeout: read_u8(input, 2),
    };
    Ok((tail(input, 3), v))
}


/// Match2 (0x64): matches a string against a regular expression.
#[derive(Debug, PartialEq, Eq)]
pub struct IfrMatch2 {
    pub Guid: Guid,
}

/// The fields laid out at the start of `s`.
pub open spec fn ifr_match_2_of(s: Seq<u8>) -> IfrMatch2 {
    IfrMatch2 {
        Guid: guid_at(s, 0),
    }
}

pub fn ifr_match_2(input: &[u8]) -> (r: Result<(&[u8], IfrMatch2), ParseError>)
    ensures
        fixed_outcome(input@, r, 16, ifr_match_2_of(input@)),
{
    if input.len() < 16 {
        return Err(ParseError::Incomplete);
    }
    let v = IfrMatch2 {
        Guid: read_guid(input, 0),
    };
    Ok((tail(input, 16), v))
}



//
// Question records whose range fields depend on their flags
//
/// The width in bytes of each Min/Max/Step value, chosen by the low two bits of the flags.
pub open spec fn step_width(f: u8) -> int {
    if f % 4 == 0 {
        1
    } else if f % 4 == 1 {
        2
    } else if f % 4 == 2 {
        4
    } else {
        8
    }
}

/// Three present values, or three absent ones.
pub open spec fn opt3<T>(present: bool, a: T, b: T, c: T) -> Seq<Option<T>> {
    if present {
        seq![Some(a), Some(b), Some(c)]
    } else {
        seq![None, None, None]
    }
}

/// The Min/Max/Step groups read after the 12 fixed bytes under flags `f`:
/// the group of the selected width holds the three values, the others are absent.
pub open spec fn ranges_match(
    s: Seq<u8>,
    f: u8,
    d8: [Option<u8>; 3],
    d16: [Option<u16>; 3],
    d32: [Option<u32>; 3],
    d64: [Option<u64>; 3],
) -> bool {
    &&& d8@ == opt3(f % 4 == 0, s[12], s[13], s[14])
    &&& d16@ == opt3(f % 4 == 1, le16(s, 12), le16(s, 14), le16(s, 16))
    &&& d32@ == opt3(f % 4 == 2, le32(s, 12), le32(s, 16), le32(s, 20))
    &&& d64@ == opt3(f % 4 == 3, le64(s, 12), le64(s, 20), le64(s, 28))
}

fn read_ranges(input: &[u8], f: u8) -> (r: ([Option<u8>; 3], [Option<u16>; 3], [Option<u32>; 3], [Option<u64>; 3]))
    requires
        input@.len() >= 12 + 3 * step_width(f),
    ensures
        ranges_match(input@, f, r.0, r.1, r.2, r.3),
{
    let w = f % 4;
    let d8 = if w == 0 {
        [Some(input[12]), Some(input[13]), Some(input[14])]
    } else {
        [None, None, None]
    };
    let d16 = if w == 1 {
        [Some(read_u16(input, 12)), Some(read_u16(input, 14)), Some(read_u16(input, 16))]
    } else {
        [None, None, None]
    };
    let d32 = if w == 2 {
        [Some(read_u32(input, 12)), Some(read_u32(input, 16)), Some(read_u32(input, 20))]
    } else {
        [None, None, None]
    };
    let d64 = if w == 3 {
        [Some(read_u64(input, 12)), Some(read_u64(input, 20)), Some(read_u64(input, 28))]
    } else {
        [None, None, None]
    };
    assert(d8@ =~= opt3(f % 4 == 0, input@[12], input@[13], input@[14]));
    assert(d16@ =~= opt3(f % 4 == 1, le16(input@, 12), le16(input@, 14), le16(input@, 16)));
    assert(d32@ =~= opt3(f % 4 == 2, le32(input@, 12), le32(input@, 16), le32(input@, 20)));
    assert(d64@ =~= opt3(f % 4 == 3, le64(input@, 12), le64(input@, 20), le64(input@, 28)));
    (d8, d16, d32, d64)
}

/// Exactly one of the four Min/Max/Step groups is populated, all three of its
/// values, and it is the group of the width that the low two bits of the flags
/// select; with those bits at 1, only the 16-bit group is there.
pub proof fn lemma_range_width_exclusive(
    s: Seq<u8>,
    f: u8,
    d8: [Option<u8>; 3],
    d16: [Option<u16>; 3],
    d32: [Option<u32>; 3],
    d64: [Option<u64>; 3],
)
    requires
        ranges_match(s, f, d8, d16, d32, d64),
    ensures
        forall|k: int| 0 <= k < 3 ==> (d8@[k] is Some <==> f % 4 == 0),
        forall|k: int| 0 <= k < 3 ==> (d16@[k] is Some <==> f % 4 == 1),
        forall|k: int| 0 <= k < 3 ==> (d32@[k] is Some <==> f % 4 == 2),
        forall|k: int| 0 <= k < 3 ==> (d64@[k] is Some <==> f % 4 == 3),
{
}

/// OneOf (0x05): a one-of question with its value range.
#[derive(Debug, PartialEq, Eq)]
pub struct IfrOneOf {
    pub PromptStringId: u16,
    pub HelpStringId: u16,
    pub QuestionId: u16,
    pub VarStoreId: u16,
    pub VarStoreInfo: u16,
    pub QuestionFlags: u8,
    pub Flags: u8,
    pub MinMaxStepData8: [Option<u8>; 3],
    pub MinMaxStepData16: [Option<u16>; 3],
    pub MinMaxStepData32: [Option<u32>; 3],
    pub MinMaxStepData64: [Option<u64>; 3],
}

/// The bytes that a OneOf or Numeric record takes: 12 fixed, then three values.
pub open spec fn ranged_len(s: Seq<u8>) -> int {
    12 + 3 * step_width(s[11])
}

pub fn ifr_one_of(input: &[u8]) -> (r: Result<(&[u8], IfrOneOf), ParseError>)
    ensures
        match r {
            Ok((rest, v)) => {
                &&& input@.len() >= 12 && input@.len() >= ranged_len(input@)
                &&& v.PromptStringId == le16(input@, 0) && v.HelpStringId == le16(input@, 2)
                &&& v.QuestionId == le16(input@, 4) && v.VarStoreId == le16(input@, 6)
                &&& v.VarStoreInfo == le16(input@, 8) && v.QuestionFlags == input@[10]
                &&& v.Flags == input@[11]
                &&& ranges_match(input@, v.Flags, v.MinMaxStepData8, v.MinMaxStepData16,
                    v.MinMaxStepData32, v.MinMaxStepData64)
                &&& rest@ == input@.subrange(ranged_len(input@), input@.len() as int)
            },
            Err(e) => e == ParseError::Incomplete && (input@.len() < 12 || input@.len() < ranged_len(input@)),
        },
{
    if input.len() < 12 {
        return Err(ParseError::Incomplete);
    }
    let f = input[11];
    let n: usize = 12 + 3 * if f % 4 == 0 {
        1
    } else if f % 4 == 1 {
        2
    } else if f % 4 == 2 {
        4
    } else {
        8
    };
    if input.len() < n {
        return Err(ParseError::Incomplete);
    }
    let (d8, d16, d32, d64) = read_ranges(input, f);
    let v = IfrOneOf {
        PromptStringId: read_u16(input, 0),
        HelpStringId: read_u16(input, 2),
        QuestionId: read_u16(input, 4),
        VarStoreId: read_u16(input, 6),
        VarStoreInfo: read_u16(input, 8),
        QuestionFlags: input[10],
        Flags: f,
        MinMaxStepData8: d8,
        MinMaxStepData16: d16,
        MinMaxStepData32: d32,
        MinMaxStepData64: d64,
    };
    Ok((tail(input, n), v))
}

/// Numeric (0x07): a numeric question with its value range.
#[derive(Debug, PartialEq, Eq)]
pub struct IfrNumeric {
    pub PromptStringId: u16,
    pub HelpStringId: u16,
    pub QuestionId: u16,
    pub VarStoreId: u16,
    pub VarStoreInfo: u16,
    pub QuestionFlags: u8,
    pub Flags: u8,
    pub MinMaxStepData8: [Option<u8>; 3],
    pub MinMaxStepData16: [Option<u16>; 3],
    pub MinMaxStepData32: [Option<u32>; 3],
    pub MinMaxStepData64: [Option<u64>; 3],
}

pub fn ifr_numeric(input: &[u8]) -> (r: Result<(&[u8], IfrNumeric), ParseError>)
    ensures
        match r {
            Ok((rest, v)) => {
                &&& input@.len() >= 12 && input@.len() >= ranged_len(input@)
                &&& v.PromptStringId == le16(input@, 0) && v.HelpStringId == le16(input@, 2)
                &&& v.QuestionId == le16(input@, 4) && v.VarStoreId == le16(input@, 6)
                &&& v.VarStoreInfo == le16(input@, 8) && v.QuestionFlags == input@[10]
                &&& v.Flags == input@[11]
                &&& ranges_match(input@, v.Flags, v.MinMaxStepData8, v.MinMaxStepData16,
                    v.MinMaxStepData32, v.MinMaxStepData64)
                &&& rest@ == input@.subrange(ranged_len(input@), input@.len() as int)
            },
            Err(e) => e == ParseError::Incomplete && (input@.len() < 12 || input@.len() < ranged_len(input@)),
        },
{
    match ifr_one_of(input) {
        Ok((rest, o)) => Ok((
            rest,
            IfrNumeric {
                PromptStringId: o.PromptStringId,
                HelpStringId: o.HelpStringId,
                QuestionId: o.QuestionId,
                VarStoreId: o.VarStoreId,
                VarStoreInfo: o.VarStoreInfo,
                QuestionFlags: o.QuestionFlags,
                Flags: o.Flags,
                MinMaxStepData8: o.MinMaxStepData8,
                MinMaxStepData16: o.MinMaxStepData16,
                MinMaxStepData32: o.MinMaxStepData32,
                MinMaxStepData64: o.MinMaxStepData64,
            },
        )),
        Err(e) => Err(e),
    }
}

/// The default kinds that a CheckBox's flags can mark.
#[derive(Debug, Eq, PartialEq, Copy, Clone, Structural)]
pub enum IfrDefaultFlags {
    Default,
    MfgDefault,
}

impl IfrDefaultFlags {
    /// The flag bit of this default kind.
    pub fn bit(&self) -> (r: u8)
        ensures
            r == (match self {
                IfrDefaultFlags::Default => 0x01u8,
                IfrDefaultFlags::MfgDefault => 0x02u8,
            }),
    {
        match self {
            IfrDefaultFlags::Default => 0x01,
            IfrDefaultFlags::MfgDefault => 0x02,
        }
    }
}

//
// Records with trailing fields that only some encoders write
//
/// A reference to a question, a form, a form set or a device path; each field
/// is there only when the bytes for it are.
#[derive(Debug, PartialEq, Eq, Copy, Clone)]
pub struct HiiRef {
    pub QuestionId: Option<u16>,
    pub FormId: Option<u16>,
    pub FormSetGuid: Option<Guid>,
    pub DevicePathStringId: Option<u16>,
}

pub open spec fn hii_ref_of(s: Seq<u8>) -> HiiRef {
    HiiRef {
        QuestionId: if s.len() >= 2 { Some(le16(s, 0)) } else { None },
        FormId: if s.len() >= 4 { Some(le16(s, 2)) } else { None },
        FormSetGuid: if s.len() >= 20 { Some(guid_at(s, 4)) } else { None },
        DevicePathStringId: if s.len() >= 24 { Some(le16(s, 20)) } else { None },
    }
}

/// The bytes that `hii_ref` reads from an input of `n` bytes.
pub open spec fn hii_ref_used(n: int) -> int {
    if n >= 24 {
        22
    } else if n >= 20 {
        20
    } else if n >= 4 {
        4
    } else if n >= 2 {
        2
    } else {
        0
    }
}

pub fn hii_ref(input: &[u8]) -> (r: Result<(&[u8], HiiRef), ParseError>)
    ensures
        fixed_outcome(input@, r, hii_ref_used(input@.len() as int), hii_ref_of(input@)),
{
    let n = input.len();
    let v = HiiRef {
        QuestionId: if n >= 2 { Some(read_u16(input, 0)) } else { None },
        FormId: if n >= 4 { Some(read_u16(input, 2)) } else { None },
        FormSetGuid: if n >= 20 { Some(read_guid(input, 4)) } else { None },
        DevicePathStringId: if n >= 24 { Some(read_u16(input, 20)) } else { None },
    };
    let used: usize = if n >= 24 {
        22
    } else if n >= 20 {
        20
    } else if n >= 4 {
        4
    } else if n >= 2 {
        2
    } else {
        0
    };
    Ok((tail(input, used), v))
}

/// A typed literal value: a type byte, then a value whose shape that byte decides.
#[derive(Debug, Eq, PartialEq, Clone)]
pub enum IfrTypeValue {
    NumSize8(u8),
    NumSize16(u16),
    NumSize32(u32),
    NumSize64(u64),
    Boolean(bool),
    Time(HiiTime),
    Date(HiiDate),
    String(u16),
    Other,
    Undefined,
    Action(u16),
    Buffer(Vec<u8>),
    Ref(HiiRef),
    Unknown(u8),
}

/// The bytes that the value of type `t` needs after its type byte.
pub open spec fn type_value_width(t: u8) -> int {
    if t == 0x00 || t == 0x04 {
        1
    } else if t == 0x01 || t == 0x07 || t == 0x0A {
        2
    } else if t == 0x02 || t == 0x06 {
        4
    } else if t == 0x03 {
        8
    } else if t == 0x05 {
        3
    } else {
        0
    }
}

/// `v` is the typed value that `s` holds, `s` starting at its type byte.
pub open spec fn type_value_is(s: Seq<u8>, v: IfrTypeValue) -> bool {
    let t = s[0];
    let d = s.subrange(1, s.len() as int);
    if t == 0x00 {
        v == IfrTypeValue::NumSize8(d[0])
    } else if t == 0x01 {
        v == IfrTypeValue::NumSize16(le16(d, 0))
    } else if t == 0x02 {
        v == IfrTypeValue::NumSize32(le32(d, 0))
    } else if t == 0x03 {
        v == IfrTypeValue::NumSize64(le64(d, 0))
    } else if t == 0x04 {
        v == IfrTypeValue::Boolean(d[0] != 0)
    } else if t == 0x05 {
        v == IfrTypeValue::Time(hii_time_of(d))
    } else if t == 0x06 {
        v == IfrTypeValue::Date(hii_date_of(d))
    } else if t == 0x07 {
        v == IfrTypeValue::String(le16(d, 0))
    } else if t == 0x08 {
        v == IfrTypeValue::Other
    } else if t == 0x09 {
        v == IfrTypeValue::Undefined
    } else if t == 0x0A {
        v == IfrTypeValue::Action(le16(d, 0))
    } else if t == 0x0B {
        v matches IfrTypeValue::Buffer(b) && b@ == d
    } else if t == 0x0C {
        v == IfrTypeValue::Ref(hii_ref_of(d))
    } else {
        v == IfrTypeValue::Unknown(t)
    }
}

/// Decodes a typed value that takes up the whole of `input`; bytes after the
/// value's own width are dropped.
pub fn ifr_type_value(input: &[u8]) -> (r: Result<(&[u8], IfrTypeValue), ParseError>)
    ensures
        match r {
            Ok((rest, v)) => input@.len() >= 1 + type_value_width(input@[0]) && type_value_is(input@, v)
                && rest@.len() == 0,
            Err(e) => e == ParseError::Incomplete && (input@.len() < 1 || input@.len() < 1
                + type_value_width(input@[0])),
        },
{
    if input.len() < 1 {
        return Err(ParseError::Incomplete);
    }
    let t = input[0];
    let d = tail(input, 1);
    let w: usize = if t == 0x00 || t == 0x04 {
        1
    } else if t == 0x01 || t == 0x07 || t == 0x0A {
        2
    } else if t == 0x02 || t == 0x06 {
        4
    } else if t == 0x03 {
        8
    } else if t == 0x05 {
        3
    } else {
        0
    };
    if d.len() < w {
        return Err(ParseError::Incomplete);
    }
    let v = if t == 0x00 {
        IfrTypeValue::NumSize8(d[0])
    } else if t == 0x01 {
        IfrTypeValue::NumSize16(read_u16(d, 0))
    } else if t == 0x02 {
        IfrTypeValue::NumSize32(read_u32(d, 0))
    } else if t == 0x03 {
        IfrTypeValue::NumSize64(read_u64(d, 0))
    } else if t == 0x04 {
        IfrTypeValue::Boolean(d[0] != 0)
    } else if t == 0x05 {
        IfrTypeValue::Time(HiiTime { Hour: d[0], Minute: d[1], Second: d[2] })
    } else if t == 0x06 {
        IfrTypeValue::Date(HiiDate { Year: read_u16(d, 0), Month: d[2], Day: d[3] })
    } else if t == 0x07 {
        IfrTypeValue::String(read_u16(d, 0))
    } else if t == 0x08 {
        IfrTypeValue::Other
    } else if t == 0x09 {
        IfrTypeValue::Undefined
    } else if t == 0x0A {
        IfrTypeValue::Action(read_u16(d, 0))
    } else if t == 0x0B {
        IfrTypeValue::Buffer(vstd::slice::slice_to_vec(d))
    } else if t == 0x0C {
        match hii_ref(d) {
            Ok((_, x)) => IfrTypeValue::Ref(x),
            Err(_) => IfrTypeValue::Unknown(t),
        }
    } else {
        IfrTypeValue::Unknown(t)
    };
    Ok((tail(input, input.len()), v))
}

/// OneOfOption (0x09): one option of a one-of question, with its value.
#[derive(Debug, PartialEq, Eq)]
pub struct IfrOneOfOption {
    pub OptionStringId: u16,
    pub Flags: u8,
    pub Value: IfrTypeValue,
}

pub fn ifr_one_of_option(input: &[u8]) -> (r: Result<(&[u8], IfrOneOfOption), ParseError>)
    ensures
        match r {
            Ok((rest, v)) => {
                &&& input@.len() >= 4 && input@.len() >= 4 + type_value_width(input@[3])
                &&& v.OptionStringId == le16(input@, 0) && v.Flags == input@[2]
                &&& type_value_is(input@.subrange(3, input@.len() as int), v.Value)
                &&& rest@.len() == 0
            },
            Err(e) => e == ParseError::Incomplete && (input@.len() < 4 || input@.len() < 4
                + type_value_width(input@[3])),
        },
{
    if input.len() < 3 {
        return Err(ParseError::Incomplete);
    }
    match ifr_type_value(tail(input, 3)) {
        Ok((rest, val)) => Ok((rest, IfrOneOfOption { OptionStringId: read_u16(input, 0), Flags: input[2], Value: val })),
        Err(e) => Err(e),
    }
}

/// Default (0x5B): a default value of a question.
#[derive(Debug, PartialEq, Eq)]
pub struct IfrDefault {
    pub DefaultId: u16,
    pub Value: IfrTypeValue,
}

pub fn ifr_default(input: &[u8]) -> (r: Result<(&[u8], IfrDefault), ParseError>)
    ensures
        match r {
            Ok((rest, v)) => {
                &&& input@.len() >= 3 && input@.len() >= 3 + type_value_width(input@[2])
                &&& v.DefaultId == le16(input@, 0)
                &&& type_value_is(input@.subrange(2, input@.len() as int), v.Value)
                &&& rest@.len() == 0
            },
            Err(e) => e == ParseError::Incomplete && (input@.len() < 3 || input@.len() < 3
                + type_value_width(input@[2])),
        },
{
    if input.len() < 2 {
        return Err(ParseError::Incomplete);
    }
    match ifr_type_value(tail(input, 2)) {
        Ok((rest, val)) => Ok((rest, IfrDefault { DefaultId: read_u16(input, 0), Value: val })),
        Err(e) => Err(e),
    }
}

/// Action (0x0C): a button question, with a configuration string in newer encodings.
#[derive(Debug, PartialEq, Eq)]
pub struct IfrAction {
    pub PromptStringId: u16,
    pub HelpStringId: u16,
    pub QuestionId: u16,
    pub VarStoreId: u16,
    pub VarStoreInfo: u16,
    pub QuestionFlags: u8,
    pub ConfigStringId: Option<u16>,
}

pub open spec fn ifr_action_of(s: Seq<u8>) -> IfrAction {
    IfrAction {
        PromptStringId: le16(s, 0),
        HelpStringId: le16(s, 2),
        QuestionId: le16(s, 4),
        VarStoreId: le16(s, 6),
        VarStoreInfo: le16(s, 8),
        QuestionFlags: s[10],
        ConfigStringId: if s.len() >= 13 { Some(le16(s, 11)) } else { None },
    }
}

pub fn ifr_action(input: &[u8]) -> (r: Result<(&[u8], IfrAction), ParseError>)
    ensures
        fixed_outcome(input@, r, if input@.len() >= 13 { 13int } else { 11int }, ifr_action_of(input@)),
{
    if input.len() < 11 {
        return Err(ParseError::Incomplete);
    }
    let has = input.len() >= 13;
    let v = IfrAction {
        PromptStringId: read_u16(input, 0),
        HelpStringId: read_u16(input, 2),
        QuestionId: read_u16(input, 4),
        VarStoreId: read_u16(input, 6),
        VarStoreInfo: read_u16(input, 8),
        QuestionFlags: input[10],
        ConfigStringId: if has { Some(read_u16(input, 11)) } else { None },
    };
    Ok((tail(input, if has { 13 } else { 11 }), v))
}

/// FormSet (0x0E): opens a form set; older encoders stop before the flags and
/// the class GUIDs that the flags count.
#[derive(Debug, PartialEq, Eq)]
pub struct IfrFormSet {
    pub Guid: Guid,
    pub TitleStringId: u16,
    pub HelpStringId: u16,
    pub Flags: Option<u8>,
    pub ClassGuids: Option<Vec<Guid>>,
}

/// The bytes that a FormSet record takes, if they are all there.
pub open spec fn form_set_len(s: Seq<u8>) -> Option<int> {
    if s.len() < 20 {
        None
    } else if s.len() == 20 {
        Some(20)
    } else if s.len() >= 21 + 16 * (s[20] % 4) {
        Some(21 + 16 * (s[20] % 4))
    } else {
        None
    }
}

pub fn ifr_form_set(input: &[u8]) -> (r: Result<(&[u8], IfrFormSet), ParseError>)
    ensures
        match r {
            Ok((rest, v)) => match form_set_len(input@) {
                Some(n) => {
                    &&& v.Guid == guid_at(input@, 0) && v.TitleStringId == le16(input@, 16)
                    &&& v.HelpStringId == le16(input@, 18)
                    &&& v.Flags == (if input@.len() >= 21 { Some(input@[20]) } else { None })
                    &&& match v.ClassGuids {
                        Some(g) => input@.len() >= 21 && g@ == Seq::new(
                            (input@[20] % 4) as nat,
                            |k: int| guid_at(input@, 21 + 16 * k),
                        ),
                        None => input@.len() == 20,
                    }
                    &&& rest@ == input@.subrange(n, input@.len() as int)
                },
                None => false,
            },
            Err(e) => e == ParseError::Incomplete && form_set_len(input@).is_none(),
        },
{
    if input.len() < 20 {
        return Err(ParseError::Incomplete);
    }
    let g = read_guid(input, 0);
    let tsid = read_u16(input, 16);
    let hsid = read_u16(input, 18);
    if input.len() == 20 {
        return Ok((
            tail(input, 20),
            IfrFormSet { Guid: g, TitleStringId: tsid, HelpStringId: hsid, Flags: None, ClassGuids: None },
        ));
    }
    let f = input[20];
    let cnt = (f % 4) as usize;
    if input.len() < 21 + 16 * cnt {
        return Err(ParseError::Incomplete);
    }
    let mut guids: Vec<Guid> = Vec::new();
    let mut k: usize = 0;
    while k < cnt
        invariant
            k <= cnt,
            cnt == input@[20] % 4,
            input@.len() >= 21 + 16 * cnt,
            guids@ == Seq::new(k as nat, |j: int| guid_at(input@, 21 + 16 * j)),
        decreases cnt - k,
    {
        guids.push(read_guid(input, 21 + 16 * k));
        k = k + 1;
        assert(guids@ =~= Seq::new(k as nat, |j: int| guid_at(input@, 21 + 16 * j)));
    }
    let v = IfrFormSet { Guid: g, TitleStringId: tsid, HelpStringId: hsid, Flags: Some(f), ClassGuids: Some(guids) };
    Ok((tail(input, 21 + 16 * cnt), v))
}

/// Ref (0x0F): a cross-reference; the target fields are there only as far as
/// the bytes for them are.
#[derive(Debug, PartialEq, Eq)]
pub struct IfrRef {
    pub PromptStringId: u16,
    pub HelpStringId: u16,
    pub QuestionId: u16,
    pub VarStoreId: u16,
    pub VarStoreInfo: u16,
    pub QuestionFlags: u8,
    pub FormId: Option<u16>,
    pub RefQuestionId: Option<u16>,
    pub FormSetGuid: Option<Guid>,
    pub DevicePathId: Option<u16>,
}

pub open spec fn ifr_ref_of(s: Seq<u8>) -> IfrRef {
    IfrRef {
        PromptStringId: le16(s, 0),
        HelpStringId: le16(s, 2),
        QuestionId: le16(s, 4),
        VarStoreId: le16(s, 6),
        VarStoreInfo: le16(s, 8),
        QuestionFlags: s[10],
        FormId: if s.len() >= 13 { Some(le16(s, 11)) } else { None },
        RefQuestionId: if s.len() >= 15 { Some(le16(s, 13)) } else { None },
        FormSetGuid: if s.len() >= 31 { Some(guid_at(s, 15)) } else { None },
        DevicePathId: if s.len() >= 35 { Some(le16(s, 31)) } else { None },
    }
}

/// The bytes that `ifr_ref` reads from an input of `n` bytes.
pub open spec fn ifr_ref_used(n: int) -> int {
    if n >= 35 {
        33
    } else if n >= 31 {
        31
    } else if n >= 15 {
        15
    } else if n >= 13 {
        13
    } else {
        11
    }
}

pub fn ifr_ref(input: &[u8]) -> (r: Result<(&[u8], IfrRef), ParseError>)
    ensures
        fixed_outcome(input@, r, ifr_ref_used(input@.len() as int), ifr_ref_of(input@)),
{
    let n = input.len();
    if n < 11 {
        return Err(ParseError::Incomplete);
    }
    let v = IfrRef {
        PromptStringId: read_u16(input, 0),
        HelpStringId: read_u16(input, 2),
        QuestionId: read_u16(input, 4),
        VarStoreId: read_u16(input, 6),
        VarStoreInfo: read_u16(input, 8),
        QuestionFlags: input[10],
        FormId: if n >= 13 { Some(read_u16(input, 11)) } else { None },
        RefQuestionId: if n >= 15 { Some(read_u16(input, 13)) } else { None },
        FormSetGuid: if n >= 31 { Some(read_guid(input, 15)) } else { None },
        DevicePathId: if n >= 35 { Some(read_u16(input, 31)) } else { None },
    };
    let used: usize = if n >= 35 {
        33
    } else if n >= 31 {
        31
    } else if n >= 15 {
        15
    } else if n >= 13 {
        13
    } else {
        11
    };
    Ok((tail(input, used), v))
}

/// Which trailing fields of a Ref record are there depends on its length
/// alone: none for the 11 bytes of prompt, help, question, variable store,
/// variable offset and flags; the form from 13 bytes on; the referenced
/// question from 15; the form set GUID from 31; the device path from 35.
pub proof fn lemma_ref_tail_presence(s: Seq<u8>)
    requires
        s.len() >= 11,
    ensures
        ifr_ref_of(s).FormId is Some <==> s.len() >= 13,
        ifr_ref_of(s).RefQuestionId is Some <==> s.len() >= 15,
        ifr_ref_of(s).FormSetGuid is Some <==> s.len() >= 31,
        ifr_ref_of(s).DevicePathId is Some <==> s.len() >= 35,
        s.len() < 13 ==> ifr_ref_of(s).FormId is None && ifr_ref_of(s).RefQuestionId is None
            && ifr_ref_of(s).FormSetGuid is None && ifr_ref_of(s).DevicePathId is None,
        13 <= s.len() < 15 ==> ifr_ref_of(s).FormId == Some(le16(s, 11))
            && ifr_ref_of(s).RefQuestionId is None && ifr_ref_of(s).FormSetGuid is None
            && ifr_ref_of(s).DevicePathId is None,
{
}

/// EqIdValList (0x14): a question value looked up in a list of constants.
#[derive(Debug, PartialEq, Eq)]
pub struct IfrEqIdValList {
    pub QuestionId: u16,
    pub Values: Vec<u16>,
}

pub fn ifr_eq_id_val_list(input: &[u8]) -> (r: Result<(&[u8], IfrEqIdValList), ParseError>)
    ensures
        match r {
            Ok((rest, v)) => {
                &&& input@.len() >= 4 && input@.len() >= 4 + 2 * le16(input@, 2)
                &&& v.QuestionId == le16(input@, 0)
                &&& v.Values@ == u16_run(input@, 4, le16(input@, 2) as nat)
                &&& rest@ == input@.subrange(4 + 2 * le16(input@, 2), input@.len() as int)
            },
            Err(e) => e == ParseError::Incomplete && (input@.len() < 4 || input@.len() < 4 + 2 * le16(input@, 2)),
        },
{
    if input.len() < 4 {
        return Err(ParseError::Incomplete);
    }
    let cnt = read_u16(input, 2) as usize;
    if input.len() - 4 < 2 * cnt {
        return Err(ParseError::Incomplete);
    }
    let v = IfrEqIdValList { QuestionId: read_u16(input, 0), Values: read_u16_run(input, 4, cnt) };
    Ok((tail(input, 4 + 2 * cnt), v))
}

/// VarStore (0x24): a buffer variable store with its name.
#[derive(Debug, PartialEq, Eq)]
pub struct IfrVarStore {
    pub Guid: Guid,
    pub VarStoreId: u16,
    pub Size: u16,
    pub Name: String,
}

pub fn ifr_var_store(input: &[u8]) -> (r: Result<(&[u8], IfrVarStore), ParseError>)
    ensures
        match r {
            Ok((rest, v)) => match nul8_end(input@, 20) {
                Some(e) => {
                    &&& v.Guid == guid_at(input@, 0) && v.VarStoreId == le16(input@, 16)
                    &&& v.Size == le16(input@, 18)
                    &&& v.Name@ == utf8_lossy(input@.subrange(20, e - 1))
                    &&& rest@ == input@.subrange(e, input@.len() as int)
                },
                None => false,
            },
            Err(e) => e == ParseError::Incomplete && nul8_end(input@, 20).is_none(),
        },
{
    if input.len() < 20 {
        return Err(ParseError::Incomplete);
    }
    match find_str_end(input, 20, false) {
        Some(e) => {
            proof {
                lemma_str_end_bounds(input@, 20, false);
            }
            let v = IfrVarStore {
                Guid: read_guid(input, 0),
                VarStoreId: read_u16(input, 16),
                Size: read_u16(input, 18),
                Name: lossy_utf8(vstd::slice::slice_subrange(input, 20, e - 1)),
            };
            Ok((tail(input, e), v))
        },
        None => Err(ParseError::Incomplete),
    }
}

/// VarStoreEfi (0x26): a UEFI variable store; newer encoders add its size and name.
#[derive(Debug, PartialEq, Eq)]
pub struct IfrVarStoreEfi {
    pub VarStoreId: u16,
    pub Guid: Guid,
    pub Attributes: u32,
    pub Size: Option<u16>,
    pub Name: Option<String>,
}

/// The bytes that a VarStoreEfi record takes, if its name (when there is room
/// for one) is terminated.
pub open spec fn var_store_efi_len(s: Seq<u8>) -> Option<int> {
    if s.len() < 22 {
        None
    } else if s.len() < 24 {
        Some(22)
    } else if s.len() < 26 {
        Some(24)
    } else {
        nul8_end(s, 24)
    }
}

pub fn ifr_var_store_efi(input: &[u8]) -> (r: Result<(&[u8], IfrVarStoreEfi), ParseError>)
    ensures
        match r {
            Ok((rest, v)) => match var_store_efi_len(input@) {
                Some(n) => {
                    &&& v.VarStoreId == le16(input@, 0) && v.Guid == guid_at(input@, 2)
                    &&& v.Attributes == le32(input@, 18)
                    &&& v.Size == (if input@.len() >= 24 { Some(le16(input@, 22)) } else { None })
                    &&& match v.Name {
                        Some(t) => input@.len() >= 26 && t@ == utf8_lossy(input@.subrange(24, n - 1)),
                        None => input@.len() < 26,
                    }
                    &&& rest@ == input@.subrange(n, input@.len() as int)
                },
                None => false,
            },
            Err(e) => e == ParseError::Incomplete && var_store_efi_len(input@).is_none(),
        },
{
    let n = input.len();
    if n < 22 {
        return Err(ParseError::Incomplete);
    }
    let size = if n >= 24 { Some(read_u16(input, 22)) } else { None };
    let mut used: usize = if n >= 24 { 24 } else { 22 };
    let mut name: Option<String> = None;
    if n >= 26 {
        match find_str_end(input, 24, false) {
            Some(e) => {
                proof {
                    lemma_str_end_bounds(input@, 24, false);
                }
                name = Some(lossy_utf8(vstd::slice::slice_subrange(input, 24, e - 1)));
                used = e;
            },
            None => {
                return Err(ParseError::Incomplete);
            },
        }
    }
    let v = IfrVarStoreEfi {
        VarStoreId: read_u16(input, 0),
        Guid: read_guid(input, 2),
        Attributes: read_u32(input, 18),
        Size: size,
        Name: name,
    };
    Ok((tail(input, used), v))
}

/// QuestionRef3 (0x51): a question value from another form, with an optional
/// device path and question GUID.
#[derive(Debug, PartialEq, Eq)]
pub struct IfrQuestionRef3 {
    pub DevicePathId: Option<u16>,
    pub QuestionGuid: Option<Guid>,
}

pub open spec fn ifr_question_ref_3_of(s: Seq<u8>) -> IfrQuestionRef3 {
    IfrQuestionRef3 {
        DevicePathId: if s.len() >= 2 { Some(le16(s, 0)) } else { None },
        QuestionGuid: if s.len() >= 18 { Some(guid_at(s, 2)) } else { None },
    }
}

pub fn ifr_question_ref_3(input: &[u8]) -> (r: Result<(&[u8], IfrQuestionRef3), ParseError>)
    ensures
        fixed_outcome(
            input@,
            r,
            if input@.len() >= 18 { 18int } else if input@.len() >= 2 { 2int } else { 0int },
            ifr_question_ref_3_of(input@),
        ),
{
    let n = input.len();
    let v = IfrQuestionRef3 {
        DevicePathId: if n >= 2 { Some(read_u16(input, 0)) } else { None },
        QuestionGuid: if n >= 18 { Some(read_guid(input, 2)) } else { None },
    };
    Ok((tail(input, if n >= 18 { 18 } else if n >= 2 { 2 } else { 0 }), v))
}

/// FormMap (0x5D): a standards-map form and its methods.
#[derive(Debug, PartialEq, Eq)]
pub struct IfrFormMap {
    pub FormId: u16,
    pub Methods: Vec<IfrFormMapMethod>,
}

pub fn ifr_form_map(input: &[u8]) -> (r: Result<(&[u8], IfrFormMap), ParseError>)
    ensures
        match r {
            Ok((rest, v)) => {
                let k = (input@.len() - 2) / 18;
                &&& input@.len() >= 20
                &&& v.FormId == le16(input@, 0)
                &&& v.Methods@ == Seq::new(k as nat, |j: int| ifr_form_map_method_of(input@.subrange(2 + 18 * j, input@.len() as int)))
                &&& rest@ == input@.subrange(2 + 18 * k, input@.len() as int)
            },
            Err(e) => e == ParseError::Incomplete && input@.len() < 20,
        },
{
    let n = input.len();
    if n < 20 {
        return Err(ParseError::Incomplete);
    }
    let cnt = (n - 2) / 18;
    let mut methods: Vec<IfrFormMapMethod> = Vec::new();
    let mut k: usize = 0;
    while k < cnt
        invariant
            k <= cnt,
            cnt == (input@.len() - 2) / 18,
            n == input@.len(),
            methods@ == Seq::new(k as nat, |j: int| ifr_form_map_method_of(input@.subrange(2 + 18 * j, input@.len() as int))),
        decreases cnt - k,
    {
        let at = 2 + 18 * k;
        let here = tail(input, at);
        let m = IfrFormMapMethod { MethodTitleId: read_u16(here, 0), MethodIdentifier: read_guid(here, 2) };
        methods.push(m);
        k = k + 1;
        assert(methods@ =~= Seq::new(k as nat, |j: int| ifr_form_map_method_of(input@.subrange(2 + 18 * j, input@.len() as int))));
    }
    let v = IfrFormMap { FormId: read_u16(input, 0), Methods: methods };
    Ok((tail(input, 2 + 18 * cnt), v))
}

//
// GUID-tagged extensions
//
/// Guid (0x5F): an extension operation tagged by a GUID, and its bytes.
#[derive(Debug, PartialEq, Eq)]
pub struct IfrGuid<'a> {
    pub Guid: Guid,
    pub Data: &'a [u8],
}

pub fn ifr_guid(input: &[u8]) -> (r: Result<(&[u8], IfrGuid), ParseError>)
    ensures
        match r {
            Ok((rest, v)) => input@.len() >= 16 && v.Guid == guid_at(input@, 0) && v.Data@ == input@.subrange(16, input@.len() as int)
                && rest@.len() == 0,
            Err(e) => e == ParseError::Incomplete && input@.len() < 16,
        },
{
    if input.len() < 16 {
        return Err(ParseError::Incomplete);
    }
    Ok((tail(input, input.len()), IfrGuid { Guid: read_guid(input, 0), Data: tail(input, 16) }))
}

/// The extended opcodes of the EDK2 (Tiano) GUID extension.
#[derive(Debug, Eq, PartialEq, Copy, Clone, Structural)]
pub enum IfrEdk2ExtendOpCode {
    Label,
    Banner,
    Timeout,
    Class,
    SubClass,
    Unknown(u8),
}

pub open spec fn edk2_opcode_of(n: u8) -> IfrEdk2ExtendOpCode {
    if n == 0x00 {
        IfrEdk2ExtendOpCode::Label
    } else if n == 0x01 {
        IfrEdk2ExtendOpCode::Banner
    } else if n == 0x02 {
        IfrEdk2ExtendOpCode::Timeout
    } else if n == 0x03 {
        IfrEdk2ExtendOpCode::Class
    } else if n == 0x04 {
        IfrEdk2ExtendOpCode::SubClass
    } else {
        IfrEdk2ExtendOpCode::Unknown(n)
    }
}

impl From<u8> for IfrEdk2ExtendOpCode {
    fn from(n: u8) -> (r: IfrEdk2ExtendOpCode) {
        match n {
            0x00 => IfrEdk2ExtendOpCode::Label,
            0x01 => IfrEdk2ExtendOpCode::Banner,
            0x02 => IfrEdk2ExtendOpCode::Timeout,
            0x03 => IfrEdk2ExtendOpCode::Class,
            0x04 => IfrEdk2ExtendOpCode::SubClass,
            _ => IfrEdk2ExtendOpCode::Unknown(n),
        }
    }
}

impl vstd::std_specs::convert::FromSpecImpl<u8> for IfrEdk2ExtendOpCode {
    open spec fn obeys_from_spec() -> bool {
        true
    }

    open spec fn from_spec(n: u8) -> IfrEdk2ExtendOpCode {
        edk2_opcode_of(n)
    }
}

/// The GUID of the EDK2 (Tiano) extension family.
pub open spec fn tiano_guid_spec() -> Guid {
    Guid {
        data1: 0xf0b1735,
        data2: 0x87a0,
        data3: 0x4193,
        data4: [0xb2, 0x66, 0x53, 0x8c, 0x38, 0xaf, 0x48, 0xce],
    }
}

/// The GUID of the EDK2 (Tiano) extension family.
pub fn ifr_tiano_guid() -> (r: Guid)
    ensures
        r == tiano_guid_spec(),
{
    Guid {
        data1: 0xf0b1735,
        data2: 0x87a0,
        data3: 0x4193,
        data4: [0xb2, 0x66, 0x53, 0x8c, 0x38, 0xaf, 0x48, 0xce],
    }
}

/// An EDK2 extension record: its extended opcode and the bytes after it.
#[derive(Debug, PartialEq, Eq)]
pub struct IfrGuidEdk2<'a> {
    pub ExtendedOpCode: IfrEdk2ExtendOpCode,
    pub Data: &'a [u8],
}

pub fn ifr_guid_edk2(input: &[u8]) -> (r: Result<(&[u8], IfrGuidEdk2), ParseError>)
    ensures
        match r {
            Ok((rest, v)) => input@.len() >= 1 && v.ExtendedOpCode == edk2_opcode_of(input@[0])
                && v.Data@ == input@.subrange(1, input@.len() as int) && rest@.len() == 0,
            Err(e) => e == ParseError::Incomplete && input@.len() < 1,
        },
{
    if input.len() < 1 {
        return Err(ParseError::Incomplete);
    }
    Ok((tail(input, input.len()), IfrGuidEdk2 { ExtendedOpCode: IfrEdk2ExtendOpCode::from(input[0]), Data: tail(input, 1) }))
}

/// The extended opcodes of the EDK (Framework) GUID extension.
#[derive(Debug, Eq, PartialEq, Copy, Clone, Structural)]
pub enum IfrEdkExtendOpCode {
    OptionKey,
    VarEqName,
    Unknown(u8),
}

pub open spec fn edk_opcode_of(n: u8) -> IfrEdkExtendOpCode {
    if n == 0x00 {
        IfrEdkExtendOpCode::OptionKey
    } else if n == 0x01 {
        IfrEdkExtendOpCode::VarEqName
    } else {
        IfrEdkExtendOpCode::Unknown(n)
    }
}

impl From<u8> for IfrEdkExtendOpCode {
    fn from(n: u8) -> (r: IfrEdkExtendOpCode) {
        match n {
            0x00 => IfrEdkExtendOpCode::OptionKey,
            0x01 => IfrEdkExtendOpCode::VarEqName,
            _ => IfrEdkExtendOpCode::Unknown(n),
        }
    }
}

impl vstd::std_specs::convert::FromSpecImpl<u8> for IfrEdkExtendOpCode {
    open spec fn obeys_from_spec() -> bool {
        true
    }

    open spec fn from_spec(n: u8) -> IfrEdkExtendOpCode {
        edk_opcode_of(n)
    }
}

/// The GUID of the EDK (Framework) extension family.
pub open spec fn framework_guid_spec() -> Guid {
    Guid {
        data1: 0x31ca5d1a,
        data2: 0xd511,
        data3: 0x4931,
        data4: [0xb7, 0x82, 0xae, 0x6b, 0x2b, 0x17, 0x8c, 0xd7],
    }
}

/// The GUID of the EDK (Framework) extension family.
pub fn ifr_framework_guid() -> (r: Guid)
    ensures
        r == framework_guid_spec(),
{
    Guid {
        data1: 0x31ca5d1a,
        data2: 0xd511,
        data3: 0x4931,
        data4: [0xb7, 0x82, 0xae, 0x6b, 0x2b, 0x17, 0x8c, 0xd7],
    }
}

/// An EDK extension record: its extended opcode, a question and the bytes after them.
#[derive(Debug, PartialEq, Eq)]
pub struct IfrGuidEdk<'a> {
    pub ExtendedOpCode: IfrEdkExtendOpCode,
    pub QuestionId: u16,
    pub Data: &'a [u8],
}

pub fn ifr_guid_edk(input: &[u8]) -> (r: Result<(&[u8], IfrGuidEdk), ParseError>)
    ensures
        match r {
            Ok((rest, v)) => input@.len() >= 3 && v.ExtendedOpCode == edk_opcode_of(input@[0])
                && v.QuestionId == le16(input@, 1) && v.Data@ == input@.subrange(3, input@.len() as int)
                && rest@.len() == 0,
            Err(e) => e == ParseError::Incomplete && input@.len() < 3,
        },
{
    if input.len() < 3 {
        return Err(ParseError::Incomplete);
    }
    let v = IfrGuidEdk { ExtendedOpCode: IfrEdkExtendOpCode::from(input[0]), QuestionId: read_u16(input, 1), Data: tail(input, 3) };
    Ok((tail(input, input.len()), v))
}

} // verus!
