//! The Framework HII dialect: package envelope, string packages holding a
//! flat array of UCS-2 strings, and form packages with their IFR operations.
use vstd::prelude::*;
use crate::bytes::{
    bytes_of, fixed_outcome, le16, le32, le64, opt_bytes, opt_range, read_u16, read_u32, read_u64,
    read_u8, tail, ParseError,
};
use crate::text::utf8_lossy;
pub use crate::guid::{guid, Guid};
use crate::guid::{guid_at, read_guid};
use crate::cstr::{
    decode_run, find_run_end, lemma_nul8_end_shift, lemma_run_end_bounds, lemma_run_texts_len,
    nul8_end, one_string, run_end, run_texts, string_outcome,
};

verus! {

//
// Package envelope
//
/// A package: a 32-bit length, a 16-bit type and the bytes after the 6-byte header.
#[derive(Debug, PartialEq, Eq)]
pub struct HiiPackage<'a> {
    pub Length: usize,
    pub Type: HiiPackageType,
    pub Data: Option<&'a [u8]>,
}

#[derive(Debug, Eq, PartialEq, Copy, Clone, Structural)]
pub enum HiiPackageType {
    Font,
    String,
    Ifr,
    Keyboard,
    HandlePack,
    Variable,
    DevicePath,
    Unknown(u16),
}

pub open spec fn package_type_of(n: u16) -> HiiPackageType {
    if n == 0x01 {
        HiiPackageType::Font
    } else if n == 0x02 {
        HiiPackageType::String
    } else if n == 0x03 {
        HiiPackageType::Ifr
    } else if n == 0x04 {
        HiiPackageType::Keyboard
    } else if n == 0x05 {
        HiiPackageType::HandlePack
    } else if n == 0x06 {
        HiiPackageType::Variable
    } else if n == 0x07 {
        HiiPackageType::DevicePath
    } else {
        HiiPackageType::Unknown(n)
    }
}

impl From<u16> for HiiPackageType {
    fn from(n: u16) -> (r: HiiPackageType) {
        match n {
            0x01 => HiiPackageType::Font,
            0x02 => HiiPackageType::String,
            0x03 => HiiPackageType::Ifr,
            0x04 => HiiPackageType::Keyboard,
            0x05 => HiiPackageType::HandlePack,
            0x06 => HiiPackageType::Variable,
            0x07 => HiiPackageType::DevicePath,
            _ => HiiPackageType::Unknown(n),
        }
    }
}

impl vstd::std_specs::convert::FromSpecImpl<u16> for HiiPackageType {
    open spec fn obeys_from_spec() -> bool {
        true
    }

    open spec fn from_spec(n: u16) -> HiiPackageType {
        package_type_of(n)
    }
}

/// Decodes the package envelope at the start of `input`.
pub fn hii_package(input: &[u8]) -> (r: Result<(&[u8], HiiPackage), ParseError>)
    ensures
        match r {
            Ok((rest, p)) => {
                let n = le32(input@, 0) as int;
                &&& input@.len() >= 6 && 6 <= n <= input@.len()
                &&& p.Length == n && p.Type == package_type_of(le16(input@, 4))
                &&& opt_bytes(p.Data, input@.subrange(6, n))
                &&& rest@ == input@.subrange(n, input@.len() as int)
            },
            Err(e) => e == (if input@.len() >= 6 && le32(input@, 0) < 6 {
                ParseError::Invalid
            } else {
                ParseError::Incomplete
            }) && (input@.len() < 6 || le32(input@, 0) < 6 || le32(input@, 0) > input@.len()),
        },
{
    if input.len() < 6 {
        return Err(ParseError::Incomplete);
    }
    let len = read_u32(input, 0) as usize;
    if len < 6 {
        return Err(ParseError::Invalid);
    }
    if len > input.len() {
        return Err(ParseError::Incomplete);
    }
    let p = HiiPackage {
        Length: len,
        Type: HiiPackageType::from(read_u16(input, 4)),
        Data: opt_range(input, 6, len),
    };
    Ok((tail(input, len), p))
}

/// The length of the string package that starts `s`, if one plausibly does:
/// type 0x02, a length above 0x26 that fits, and two zero bytes at its end.
pub open spec fn string_candidate_len(s: Seq<u8>) -> Option<int> {
    if s.len() < 6 {
        None
    } else {
        let n = le32(s, 0) as int;
        if n > 0x26 && le16(s, 4) == 0x02 && n <= s.len() && s[n - 2] == 0 && s[n - 1] == 0 {
            Some(n)
        } else {
            None
        }
    }
}

/// The length of the form package that starts `s`, if one plausibly does:
/// type 0x03, a FormSet opcode first, and an EndFormSet operation (0x0D 0x02) last.
pub open spec fn form_candidate_len(s: Seq<u8>) -> Option<int> {
    if s.len() < 7 {
        None
    } else {
        let n = le32(s, 0) as int;
        if n >= 9 && le16(s, 4) == 0x03 && s[6] == 0x0E && n <= s.len() && s[n - 2] == 0x0D
            && s[n - 1] == 0x02 {
            Some(n)
        } else {
            None
        }
    }
}

/// Tests whether a string package starts `input`, and gives its bytes.
pub fn hii_string_package_candidate(input: &[u8]) -> (r: Result<(&[u8], &[u8]), ParseError>)
    ensures
        crate::uefi_parser::candidate_outcome(input@, r, string_candidate_len(input@)),
{
    if input.len() < 6 {
        return Err(ParseError::Incomplete);
    }
    let n = read_u32(input, 0) as usize;
    if n <= 0x26 || read_u16(input, 4) != 0x02 {
        return Err(ParseError::Invalid);
    }
    if n > input.len() {
        return Err(ParseError::Incomplete);
    }
    if input[n - 2] != 0 || input[n - 1] != 0 {
        return Err(ParseError::Invalid);
    }
    Ok((tail(input, n), vstd::slice::slice_subrange(input, 0, n)))
}

/// Tests whether a form package starts `input`, and gives its bytes.
pub fn hii_form_package_candidate(input: &[u8]) -> (r: Result<(&[u8], &[u8]), ParseError>)
    ensures
        crate::uefi_parser::candidate_outcome(input@, r, form_candidate_len(input@)),
{
    if input.len() < 7 {
        return Err(ParseError::Incomplete);
    }
    let n = read_u32(input, 0) as usize;
    if n < 9 || read_u16(input, 4) != 0x03 || input[6] != 0x0E {
        return Err(ParseError::Invalid);
    }
    if n > input.len() {
        return Err(ParseError::Incomplete);
    }
    if input[n - 2] != 0x0D || input[n - 1] != 0x02 {
        return Err(ParseError::Invalid);
    }
    Ok((tail(input, n), vstd::slice::slice_subrange(input, 0, n)))
}

//
// String package
//
/// A string package: four header words, then a pointer and a UCS-2 string for
/// each of its strings.
#[derive(Debug, PartialEq, Eq)]
pub struct HiiStringPackage {
    pub LanguageNameStringOffset: u32,
    pub PrintableLanguageNameOffset: u32,
    pub NumStringPointers: u32,
    pub Attributes: u32,
    pub StringPointers: Vec<u32>,
    pub Strings: Vec<String>,
}

/// Decodes a zero-terminated UCS-2 string.
pub fn string_ucs2(input: &[u8]) -> (r: Result<(&[u8], String), ParseError>)
    ensures
        string_outcome(input@, r, 0, true),
{
    one_string(input, 0, true)
}

/// Where the strings of a string package payload start: after the header and the pointers.
pub open spec fn strings_start(s: Seq<u8>) -> int {
    16 + 4 * le32(s, 8)
}

/// `cnt` little-endian u32 values from `i` on.
pub open spec fn u32_run(s: Seq<u8>, i: int, cnt: nat) -> Seq<u32> {
    Seq::new(cnt, |k: int| le32(s, i + 4 * k))
}

/// Decodes the payload of a string package.
pub fn hii_string_package(input: &[u8]) -> (r: Result<(&[u8], HiiStringPackage), ParseError>)
    ensures
        match r {
            Ok((rest, p)) => {
                &&& input@.len() >= 16 && input@.len() >= strings_start(input@)
                &&& p.LanguageNameStringOffset == le32(input@, 0)
                &&& p.PrintableLanguageNameOffset == le32(input@, 4)
                &&& p.NumStringPointers == le32(input@, 8) && p.Attributes == le32(input@, 12)
                &&& p.StringPointers@ == u32_run(input@, 16, le32(input@, 8) as nat)
                &&& p.Strings@.len() == p.StringPointers@.len()
                &&& p.Strings@.map_values(|t: String| t@) == run_texts(input@, strings_start(input@), le32(input@, 8) as nat, true)
                &&& run_end(input@, strings_start(input@), le32(input@, 8) as nat, true) == Some(input@.len() - rest@.len())
                &&& rest@ == input@.subrange(input@.len() - rest@.len(), input@.len() as int)
            },
            Err(e) => e == ParseError::Incomplete && (input@.len() < 16 || input@.len()
                < strings_start(input@) || run_end(
                input@,
                strings_start(input@),
                le32(input@, 8) as nat,
                true,
            ).is_none()),
        },
{
    if input.len() < 16 {
        return Err(ParseError::Incomplete);
    }
    let nsp = read_u32(input, 8);
    if (input.len() - 16) / 4 < nsp as usize {
        return Err(ParseError::Incomplete);
    }
    let start = 16 + 4 * nsp as usize;
    let mut ptrs: Vec<u32> = Vec::new();
    let mut k: usize = 0;
    let n = input.len();
    while k < nsp as usize
        invariant
            k <= nsp,
            n == input@.len(),
            nsp == le32(input@, 8),
            16 + 4 * nsp <= input@.len(),
            ptrs@ == u32_run(input@, 16, k as nat),
        decreases nsp - k,
    {
        ptrs.push(read_u32(input, 16 + 4 * k));
        k = k + 1;
        assert(ptrs@ =~= u32_run(input@, 16, k as nat));
    }
    match find_run_end(input, start, nsp, true) {
        Some(e) => {
            proof {
                lemma_run_end_bounds(input@, start as int, nsp as nat, true);
            }
            let strings = decode_run(input, start, nsp, e, true);
            proof {
                lemma_run_texts_len(input@, start as int, nsp as nat, true);
                assert(strings@.map_values(|t: String| t@).len() == strings@.len());
            }
            let p = HiiStringPackage {
                LanguageNameStringOffset: read_u32(input, 0),
                PrintableLanguageNameOffset: read_u32(input, 4),
                NumStringPointers: nsp,
                Attributes: read_u32(input, 12),
                StringPointers: ptrs,
                Strings: strings,
            };
            Ok((tail(input, e), p))
        },
        None => Err(ParseError::Incomplete),
    }
}

//
// Form package: IFR operations
//
/// One IFR operation: its opcode, its total length (header included), and the
/// bytes after its 2-byte header.
#[derive(Debug, PartialEq, Eq)]
pub struct IfrOperation<'a> {
    pub OpCode: IfrOpcode,
    pub Length: u8,
    pub Data: Option<&'a [u8]>,
}

impl<'a> IfrOperation<'a> {
    /// The bytes after the header; empty when there are none.
    pub fn payload(&self) -> (r: &'a [u8])
        ensures
            r@ == bytes_of(self.Data),
    {
        match self.Data {
            Some(d) => d,
            None => &[],
        }
    }
}

/// An operation as plain values.
pub open spec fn op_view(op: IfrOperation) -> (IfrOpcode, u8, Seq<u8>) {
    (op.OpCode, op.Length, bytes_of(op.Data))
}

/// The total length of the operation that starts `s`: at least 2 and within `s`.
pub open spec fn op_len(s: Seq<u8>) -> Option<int> {
    if s.len() >= 2 && 2 <= s[1] <= s.len() {
        Some(s[1] as int)
    } else {
        None
    }
}

/// Decodes the operation at the start of `input`.
pub fn ifr_operation(input: &[u8]) -> (r: Result<(&[u8], IfrOperation), ParseError>)
    ensures
        match r {
            Ok((rest, op)) => match op_len(input@) {
                Some(n) => {
                    &&& op.OpCode == opcode_of(input@[0])
                    &&& op.Length == n && 2 + bytes_of(op.Data).len() == op.Length
                    &&& opt_bytes(op.Data, input@.subrange(2, n))
                    &&& rest@ == input@.subrange(n, input@.len() as int)
                },
                None => false,
            },
            Err(e) => op_len(input@).is_none() && (e == ParseError::Invalid <==> (input@.len() >= 2
                && input@[1] < 2)),
        },
{
    if input.len() < 2 {
        return Err(ParseError::Incomplete);
    }
    let len = input[1];
    if len < 2 {
        return Err(ParseError::Invalid);
    }
    if len as usize > input.len() {
        return Err(ParseError::Incomplete);
    }
    let op = IfrOperation {
        OpCode: IfrOpcode::from(input[0]),
        Length: len,
        Data: opt_range(input, 2, len as usize),
    };
    Ok((tail(input, len as usize), op))
}

/// The operations decoded one after another from the start of `s`, up to the
/// first one that cannot be decoded.
pub open spec fn ifr_ops_of(s: Seq<u8>) -> Seq<(IfrOpcode, u8, Seq<u8>)>
    decreases s.len(),
{
    match op_len(s) {
        Some(n) => seq![(opcode_of(s[0]), n as u8, s.subrange(2, n))] + ifr_ops_of(
            s.subrange(n, s.len() as int),
        ),
        None => Seq::empty(),
    }
}

/// The number of bytes that the operations of `ifr_ops_of(s)` take up.
pub open spec fn ifr_ops_used(s: Seq<u8>) -> int
    decreases s.len(),
{
    match op_len(s) {
        Some(n) => n + ifr_ops_used(s.subrange(n, s.len() as int)),
        None => 0,
    }
}

/// The total of the declared lengths of a sequence of operations.
pub open spec fn ops_length_sum(ops: Seq<(IfrOpcode, u8, Seq<u8>)>) -> int
    decreases ops.len(),
{
    if ops.len() == 0 {
        0
    } else {
        ops[0].1 as int + ops_length_sum(ops.subrange(1, ops.len() as int))
    }
}

/// The operations decoded from `s` lie end to end from its start: their
/// declared lengths add up to the bytes they take, and no operation decodes
/// in what is left after them.
pub proof fn lemma_ops_cover(s: Seq<u8>)
    ensures
        ifr_ops_used(s) == ops_length_sum(ifr_ops_of(s)),
        0 <= ifr_ops_used(s) <= s.len(),
        op_len(s.subrange(ifr_ops_used(s), s.len() as int)) is None,
    decreases s.len(),
{
    match op_len(s) {
        Some(n) => {
            let t = s.subrange(n, s.len() as int);
            lemma_ops_cover(t);
            let ops = ifr_ops_of(s);
            assert(ops.subrange(1, ops.len() as int) =~= ifr_ops_of(t));
            assert(t.subrange(ifr_ops_used(t), t.len() as int) =~= s.subrange(n + ifr_ops_used(t), s.len() as int));
        },
        None => {
            assert(s.subrange(0, s.len() as int) =~= s);
        },
    }
}

/// Decodes the operations of a form package's payload; at least one must decode.
pub fn ifr_operations(input: &[u8]) -> (r: Result<(&[u8], Vec<IfrOperation>), ParseError>)
    ensures
        match r {
            Ok((rest, v)) => {
                &&& v@.len() > 0
                &&& v@.map_values(|op: IfrOperation| op_view(op)) == ifr_ops_of(input@)
                &&& forall|k: int| 0 <= k < v@.len() ==> 2 + bytes_of(#[trigger] v@[k].Data).len() == v@[k].Length
                &&& 0 <= ifr_ops_used(input@) <= input@.len()
                &&& rest@ == input@.subrange(ifr_ops_used(input@), input@.len() as int)
                &&& ops_length_sum(v@.map_values(|op: IfrOperation| op_view(op))) == input@.len() - rest@.len()
                &&& op_len(rest@) is None
            },
            Err(e) => e == ParseError::Incomplete && ifr_ops_of(input@).len() == 0,
        },
{
    proof {
        lemma_ops_cover(input@);
    }
    let mut out: Vec<IfrOperation> = Vec::new();
    let mut pos: usize = 0;
    let ghost s = input@;
    let len = input.len();
    assert(s.subrange(0, s.len() as int) =~= s);
    loop
        invariant_except_break
            out@.map_values(|op: IfrOperation| op_view(op)) + ifr_ops_of(s.subrange(pos as int, s.len() as int))
                == ifr_ops_of(s),
            pos + ifr_ops_used(s.subrange(pos as int, s.len() as int)) == ifr_ops_used(s),
        invariant
            pos <= s.len(),
            len == s.len(),
            s == input@,
            out@.len() == 0 ==> pos == 0,
            forall|k: int| 0 <= k < out@.len() ==> 2 + bytes_of(#[trigger] out@[k].Data).len() == out@[k].Length,
        ensures
            pos <= s.len(),
            out@.map_values(|op: IfrOperation| op_view(op)) == ifr_ops_of(s),
            pos == ifr_ops_used(s),
        decreases s.len() - pos,
    {
        let here = tail(input, pos);
        match ifr_operation(here) {
            Ok((_, op)) => {
                let n = op.Length as usize;
                assert(bytes_of(op.Data) =~= here@.subrange(2, n as int));
                let ghost before = out@.map_values(|op: IfrOperation| op_view(op));
                let ghost v = op_view(op);
                out.push(op);
                assert(out@.map_values(|op: IfrOperation| op_view(op)) =~= before.push(v));
                assert(here@.subrange(n as int, here@.len() as int) =~= s.subrange(pos + n, s.len() as int));
                pos = pos + n;
                assert(out@.map_values(|op: IfrOperation| op_view(op)) + ifr_ops_of(s.subrange(pos as int, s.len() as int)) =~= ifr_ops_of(s));
            },
            Err(_) => {
                assert(ifr_ops_of(here@) =~= Seq::<(IfrOpcode, u8, Seq<u8>)>::empty());
                assert(out@.map_values(|op: IfrOperation| op_view(op)) =~= ifr_ops_of(s));
                break;
            },
        }
    }
    if out.len() == 0 {
        return Err(ParseError::Incomplete);
    }
    Ok((tail(input, pos), out))
}

#[derive(Debug, Eq, PartialEq, Copy, Clone, Structural)]
pub enum IfrOpcode {
    Form,
    Subtitle,
    Text,
    Graphic,
    OneOf,
    CheckBox,
    Numeric,
    Password,
    OneOfOption,
    SuppressIf,
    EndForm,
    Hidden,
    EndFormSet,
    FormSet,
    Ref,
    End,
    InconsistentIf,
    EqIdVal,
    EqIdId,
    EqIdList,
    And,
    Or,
    Not,
    EndIf,
    GrayOutIf,
    Date,
    Time,
    String,
    Label,
    SaveDefaults,
    RestoreDefaults,
    Banner,
    Inventory,
    EqVarVal,
    OrderedList,
    VarStore,
    VarStoreSelect,
    VarStoreSelectPair,
    True,
    False,
    Greater,
    GreaterEqual,
    OemDefined,
    Oem,
    NvAccessCommand,
    Unknown(u8),
}

/// The opcode that a byte stands for.
pub open spec fn opcode_of(n: u8) -> IfrOpcode {
    match n {
        0x01 => IfrOpcode::Form,
        0x02 => IfrOpcode::Subtitle,
        0x03 => IfrOpcode::Text,
        0x04 => IfrOpcode::Graphic,
        0x05 => IfrOpcode::OneOf,
        0x06 => IfrOpcode::CheckBox,
        0x07 => IfrOpcode::Numeric,
        0x08 => IfrOpcode::Password,
        0x09 => IfrOpcode::OneOfOption,
        0x0A => IfrOpcode::SuppressIf,
        0x0B => IfrOpcode::EndForm,
        0x0C => IfrOpcode::Hidden,
        0x0D => IfrOpcode::EndFormSet,
        0x0E => IfrOpcode::FormSet,
        0x0F => IfrOpcode::Ref,
        0x10 => IfrOpcode::End,
        0x11 => IfrOpcode::InconsistentIf,
        0x12 => IfrOpcode::EqIdVal,
        0x13 => IfrOpcode::EqIdId,
        0x14 => IfrOpcode::EqIdList,
        0x15 => IfrOpcode::And,
        0x16 => IfrOpcode::Or,
        0x17 => IfrOpcode::Not,
        0x18 => IfrOpcode::EndIf,
        0x19 => IfrOpcode::GrayOutIf,
        0x1A => IfrOpcode::Date,
        0x1B => IfrOpcode::Time,
        0x1C => IfrOpcode::String,
        0x1D => IfrOpcode::Label,
        0x1E => IfrOpcode::SaveDefaults,
        0x1F => IfrOpcode::RestoreDefaults,
        0x20 => IfrOpcode::Banner,
        0x21 => IfrOpcode::Inventory,
        0x22 => IfrOpcode::EqVarVal,
        0x23 => IfrOpcode::OrderedList,
        0x24 => IfrOpcode::VarStore,
        0x25 => IfrOpcode::VarStoreSelect,
        0x26 => IfrOpcode::VarStoreSelectPair,
        0x27 => IfrOpcode::True,
        0x28 => IfrOpcode::False,
        0x29 => IfrOpcode::Greater,
        0x2A => IfrOpcode::GreaterEqual,
        0x2B => IfrOpcode::OemDefined,
        0xFE => IfrOpcode::Oem,
        0xFF => IfrOpcode::NvAccessCommand,
        _ => IfrOpcode::Unknown(n),
    }
}

/// The byte that stands for an opcode.
pub open spec fn opcode_byte(op: IfrOpcode) -> u8 {
    match op {
        IfrOpcode::Form => 0x01,
        IfrOpcode::Subtitle => 0x02,
        IfrOpcode::Text => 0x03,
        IfrOpcode::Graphic => 0x04,
        IfrOpcode::OneOf => 0x05,
        IfrOpcode::CheckBox => 0x06,
        IfrOpcode::Numeric => 0x07,
        IfrOpcode::Password => 0x08,
        IfrOpcode::OneOfOption => 0x09,
        IfrOpcode::SuppressIf => 0x0A,
        IfrOpcode::EndForm => 0x0B,
        IfrOpcode::Hidden => 0x0C,
        IfrOpcode::EndFormSet => 0x0D,
        IfrOpcode::FormSet => 0x0E,
        IfrOpcode::Ref => 0x0F,
        IfrOpcode::End => 0x10,
        IfrOpcode::InconsistentIf => 0x11,
        IfrOpcode::EqIdVal => 0x12,
        IfrOpcode::EqIdId => 0x13,
        IfrOpcode::EqIdList => 0x14,
        IfrOpcode::And => 0x15,
        IfrOpcode::Or => 0x16,
        IfrOpcode::Not => 0x17,
        IfrOpcode::EndIf => 0x18,
        IfrOpcode::GrayOutIf => 0x19,
        IfrOpcode::Date => 0x1A,
        IfrOpcode::Time => 0x1B,
        IfrOpcode::String => 0x1C,
        IfrOpcode::Label => 0x1D,
        IfrOpcode::SaveDefaults => 0x1E,
        IfrOpcode::RestoreDefaults => 0x1F,
        IfrOpcode::Banner => 0x20,
        IfrOpcode::Inventory => 0x21,
        IfrOpcode::EqVarVal => 0x22,
        IfrOpcode::OrderedList => 0x23,
        IfrOpcode::VarStore => 0x24,
        IfrOpcode::VarStoreSelect => 0x25,
        IfrOpcode::VarStoreSelectPair => 0x26,
        IfrOpcode::True => 0x27,
        IfrOpcode::False => 0x28,
        IfrOpcode::Greater => 0x29,
        IfrOpcode::GreaterEqual => 0x2A,
        IfrOpcode::OemDefined => 0x2B,
        IfrOpcode::Oem => 0xFE,
        IfrOpcode::NvAccessCommand => 0xFF,
        IfrOpcode::Unknown(m) => m,
    }
}

/// Every byte survives the trip to an opcode and back, the unknown ones too.
pub proof fn lemma_opcode_round_trip(n: u8)
    ensures
        opcode_byte(opcode_of(n)) == n,
{
}

impl From<u8> for IfrOpcode {
    fn from(n: u8) -> (r: IfrOpcode) {
        match n {
            0x01 => IfrOpcode::Form,
            0x02 => IfrOpcode::Subtitle,
            0x03 => IfrOpcode::Text,
            0x04 => IfrOpcode::Graphic,
            0x05 => IfrOpcode::OneOf,
            0x06 => IfrOpcode::CheckBox,
            0x07 => IfrOpcode::Numeric,
            0x08 => IfrOpcode::Password,
            0x09 => IfrOpcode::OneOfOption,
            0x0A => IfrOpcode::SuppressIf,
            0x0B => IfrOpcode::EndForm,
            0x0C => IfrOpcode::Hidden,
            0x0D => IfrOpcode::EndFormSet,
            0x0E => IfrOpcode::FormSet,
            0x0F => IfrOpcode::Ref,
            0x10 => IfrOpcode::End,
            0x11 => IfrOpcode::InconsistentIf,
            0x12 => IfrOpcode::EqIdVal,
            0x13 => IfrOpcode::EqIdId,
            0x14 => IfrOpcode::EqIdList,
            0x15 => IfrOpcode::And,
            0x16 => IfrOpcode::Or,
            0x17 => IfrOpcode::Not,
            0x18 => IfrOpcode::EndIf,
            0x19 => IfrOpcode::GrayOutIf,
            0x1A => IfrOpcode::Date,
            0x1B => IfrOpcode::Time,
            0x1C => IfrOpcode::String,
            0x1D => IfrOpcode::Label,
            0x1E => IfrOpcode::SaveDefaults,
            0x1F => IfrOpcode::RestoreDefaults,
            0x20 => IfrOpcode::Banner,
            0x21 => IfrOpcode::Inventory,
            0x22 => IfrOpcode::EqVarVal,
            0x23 => IfrOpcode::OrderedList,
            0x24 => IfrOpcode::VarStore,
            0x25 => IfrOpcode::VarStoreSelect,
            0x26 => IfrOpcode::VarStoreSelectPair,
            0x27 => IfrOpcode::True,
            0x28 => IfrOpcode::False,
            0x29 => IfrOpcode::Greater,
            0x2A => IfrOpcode::GreaterEqual,
            0x2B => IfrOpcode::OemDefined,
            0xFE => IfrOpcode::Oem,
            0xFF => IfrOpcode::NvAccessCommand,
            _ => IfrOpcode::Unknown(n),
        }
    }
}

impl vstd::std_specs::convert::FromSpecImpl<u8> for IfrOpcode {
    open spec fn obeys_from_spec() -> bool {
        true
    }

    open spec fn from_spec(n: u8) -> IfrOpcode {
        opcode_of(n)
    }
}

impl From<IfrOpcode> for u8 {
    fn from(op: IfrOpcode) -> (r: u8) {
        match op {
            IfrOpcode::Form => 0x01,
            IfrOpcode::Subtitle => 0x02,
            IfrOpcode::Text => 0x03,
            IfrOpcode::Graphic => 0x04,
            IfrOpcode::OneOf => 0x05,
            IfrOpcode::CheckBox => 0x06,
            IfrOpcode::Numeric => 0x07,
            IfrOpcode::Password => 0x08,
            IfrOpcode::OneOfOption => 0x09,
            IfrOpcode::SuppressIf => 0x0A,
            IfrOpcode::EndForm => 0x0B,
            IfrOpcode::Hidden => 0x0C,
            IfrOpcode::EndFormSet => 0x0D,
            IfrOpcode::FormSet => 0x0E,
            IfrOpcode::Ref => 0x0F,
            IfrOpcode::End => 0x10,
            IfrOpcode::InconsistentIf => 0x11,
            IfrOpcode::EqIdVal => 0x12,
            IfrOpcode::EqIdId => 0x13,
            IfrOpcode::EqIdList => 0x14,
            IfrOpcode::And => 0x15,
            IfrOpcode::Or => 0x16,
            IfrOpcode::Not => 0x17,
            IfrOpcode::EndIf => 0x18,
            IfrOpcode::GrayOutIf => 0x19,
            IfrOpcode::Date => 0x1A,
            IfrOpcode::Time => 0x1B,
            IfrOpcode::String => 0x1C,
            IfrOpcode::Label => 0x1D,
            IfrOpcode::SaveDefaults => 0x1E,
            IfrOpcode::RestoreDefaults => 0x1F,
            IfrOpcode::Banner => 0x20,
            IfrOpcode::Inventory => 0x21,
            IfrOpcode::EqVarVal => 0x22,
            IfrOpcode::OrderedList => 0x23,
            IfrOpcode::VarStore => 0x24,
            IfrOpcode::VarStoreSelect => 0x25,
            IfrOpcode::VarStoreSelectPair => 0x26,
            IfrOpcode::True => 0x27,
            IfrOpcode::False => 0x28,
            IfrOpcode::Greater => 0x29,
            IfrOpcode::GreaterEqual => 0x2A,
            IfrOpcode::OemDefined => 0x2B,
            IfrOpcode::Oem => 0xFE,
            IfrOpcode::NvAccessCommand => 0xFF,
            IfrOpcode::Unknown(m) => m,
        }
    }
}

impl vstd::std_specs::convert::FromSpecImpl<IfrOpcode> for u8 {
    open spec fn obeys_from_spec() -> bool {
        true
    }

    open spec fn from_spec(op: IfrOpcode) -> u8 {
        opcode_byte(op)
    }
}


//
// Operation records
//
/// Form (0x01): opens a form.
#[derive(Debug, PartialEq, Eq)]
pub struct IfrForm {
    pub FormId: u16,
    pub TitleStringId: u16,
}

/// The fields laid out at the start of `s`.
pub open spec fn ifr_form_of(s: Seq<u8>) -> IfrForm {
    IfrForm {
        FormId: le16(s, 0),
        TitleStringId: le16(s, 2),
    }
}

pub fn ifr_form(input: &[u8]) -> (r: Result<(&[u8], IfrForm), ParseError>)
    ensures
        fixed_outcome(input@, r, 4, ifr_form_of(input@)),
{
    if input.len() < 4 {
        return Err(ParseError::Incomplete);
    }
    let v = IfrForm {
        FormId: read_u16(input, 0),
        TitleStringId: read_u16(input, 2),
    };
    Ok((tail(input, 4), v))
}


/// Subtitle (0x02): a subtitle line.
#[derive(Debug, PartialEq, Eq)]
pub struct IfrSubtitle {
    pub SubtitleStringId: u16,
}

/// The fields laid out at the start of `s`.
pub open spec fn ifr_subtitle_of(s: Seq<u8>) -> IfrSubtitle {
    IfrSubtitle {
        SubtitleStringId: le16(s, 0),
    }
}

pub fn ifr_subtitle(input: &[u8]) -> (r: Result<(&[u8], IfrSubtitle), ParseError>)
    ensures
        fixed_outcome(input@, r, 2, ifr_subtitle_of(input@)),
{
    if input.len() < 2 {
        return Err(ParseError::Incomplete);
    }
    let v = IfrSubtitle {
        SubtitleStringId: read_u16(input, 0),
    };
    Ok((tail(input, 2), v))
}


/// Text (0x03): a static text line.
#[derive(Debug, PartialEq, Eq)]
pub struct IfrText {
    pub HelpStringId: u16,
    pub TextStringId: u16,
    pub TextTwoStringId: u16,
    pub Flags: u8,
    pub Key: u16,
}

/// The fields laid out at the start of `s`.
pub open spec fn ifr_text_of(s: Seq<u8>) -> IfrText {
    IfrText {
        HelpStringId: le16(s, 0),
        TextStringId: le16(s, 2),
        TextTwoStringId: le16(s, 4),
        Flags: s[6],
        Key: le16(s, 7),
    }
}

pub fn ifr_text(input: &[u8]) -> (r: Result<(&[u8], IfrText), ParseError>)
    ensures
        fixed_outcome(input@, r, 9, ifr_text_of(input@)),
{
    if input.len() < 9 {
        return Err(ParseError::Incomplete);
    }
    let v = IfrText {
        HelpStringId: read_u16(input, 0),
        TextStringId: read_u16(input, 2),
        TextTwoStringId: read_u16(input, 4),
        Flags: read_u8(input, 6),
        Key: read_u16(input, 7),
    };
    Ok((tail(input, 9), v))
}


/// OneOf (0x05): a one-of question.
#[derive(Debug, PartialEq, Eq)]
pub struct IfrOneOf {
    pub QuestionId: u16,
    pub Width: u8,
    pub PromptStringId: u16,
    pub HelpStringId: u16,
}

/// The fields laid out at the start of `s`.
pub open spec fn ifr_one_of_of(s: Seq<u8>) -> IfrOneOf {
    IfrOneOf {
        QuestionId: le16(s, 0),
        Width: s[2],
        PromptStringId: le16(s, 3),
        HelpStringId: le16(s, 5),
    }
}

pub fn ifr_one_of(input: &[u8]) -> (r: Result<(&[u8], IfrOneOf), ParseError>)
    ensures
        fixed_outcome(input@, r, 7, ifr_one_of_of(input@)),
{
    if input.len() < 7 {
        return Err(ParseError::Incomplete);
    }
    let v = IfrOneOf {
        QuestionId: read_u16(input, 0),
        Width: read_u8(input, 2),
        PromptStringId: read_u16(input, 3),
        HelpStringId: read_u16(input, 5),
    };
    Ok((tail(input, 7), v))
}


/// CheckBox (0x06): a boolean question.
#[derive(Debug, PartialEq, Eq)]
pub struct IfrCheckBox {
    pub QuestionId: u16,
    pub Width: u8,
    pub PromptStringId: u16,
    pub HelpStringId: u16,
    pub Flags: u8,
    pub Key: u16,
}

/// The fields laid out at the start of `s`.
pub open spec fn ifr_check_box_of(s: Seq<u8>) -> IfrCheckBox {
    IfrCheckBox {
        QuestionId: le16(s, 0),
        Width: s[2],
        PromptStringId: le16(s, 3),
        HelpStringId: le16(s, 5),
        Flags: s[7],
        Key: le16(s, 8),
    }
}

pub fn ifr_check_box(input: &[u8]) -> (r: Result<(&[u8], IfrCheckBox), ParseError>)
    ensures
        fixed_outcome(input@, r, 10, ifr_check_box_of(input@)),
{
    if input.len() < 10 {
        return Err(ParseError::Incomplete);
    }
    let v = IfrCheckBox {
        QuestionId: read_u16(input, 0),
        Width: read_u8(input, 2),
        PromptStringId: read_u16(input, 3),
        HelpStringId: read_u16(input, 5),
        Flags: read_u8(input, 7),
        Key: read_u16(input, 8),
    };
    Ok((tail(input, 10), v))
}


/// Numeric (0x07): a numeric question.
#[derive(Debug, PartialEq, Eq)]
pub struct IfrNumeric {
    pub QuestionId: u16,
    pub Width: u8,
    pub PromptStringId: u16,
    pub HelpStringId: u16,
    pub Flags: u8,
    pub Key: u16,
    pub Min: u16,
    pub Max: u16,
    pub Step: u16,
    pub Default: u16,
}

/// The fields laid out at the start of `s`.
pub open spec fn ifr_numeric_of(s: Seq<u8>) -> IfrNumeric {
    IfrNumeric {
        QuestionId: le16(s, 0),
        Width: s[2],
        PromptStringId: le16(s, 3),
        HelpStringId: le16(s, 5),
        Flags: s[7],
        Key: le16(s, 8),
        Min: le16(s, 10),
        Max: le16(s, 12),
        Step: le16(s, 14),
        Default: le16(s, 16),
    }
}

pub fn ifr_numeric(input: &[u8]) -> (r: Result<(&[u8], IfrNumeric), ParseError>)
    ensures
        fixed_outcome(input@, r, 18, ifr_numeric_of(input@)),
{
    if input.len() < 18 {
        return Err(ParseError::Incomplete);
    }
    let v = IfrNumeric {
        QuestionId: read_u16(input, 0),
        Width: read_u8(input, 2),
        PromptStringId: read_u16(input, 3),
        HelpStringId: read_u16(input, 5),
        Flags: read_u8(input, 7),
        Key: read_u16(input, 8),
        Min: read_u16(input, 10),
        Max: read_u16(input, 12),
        Step: read_u16(input, 14),
        Default: read_u16(input, 16),
    };
    Ok((tail(input, 18), v))
}


/// Password (0x08): a password question.
#[derive(Debug, PartialEq, Eq)]
pub struct IfrPassword {
    pub QuestionId: u16,
    pub Width: u8,
    pub PromptStringId: u16,
    pub HelpStringId: u16,
    pub Flags: u8,
    pub Key: u16,
    pub MinSize: u8,
    pub MaxSize: u8,
    pub Encoding: u16,
}

/// The fields laid out at the start of `s`.
pub open spec fn ifr_password_of(s: Seq<u8>) -> IfrPassword {
    IfrPassword {
        QuestionId: le16(s, 0),
        Width: s[2],
        PromptStringId: le16(s, 3),
        HelpStringId: le16(s, 5),
        Flags: s[7],
        Key: le16(s, 8),
        MinSize: s[10],
        MaxSize: s[11],
        Encoding: le16(s, 12),
    }
}

pub fn ifr_password(input: &[u8]) -> (r: Result<(&[u8], IfrPassword), ParseError>)
    ensures
        fixed_outcome(input@, r, 14, ifr_password_of(input@)),
{
    if input.len() < 14 {
        return Err(ParseError::Incomplete);
    }
    let v = IfrPassword {
        QuestionId: read_u16(input, 0),
        Width: read_u8(input, 2),
        PromptStringId: read_u16(input, 3),
        HelpStringId: read_u16(input, 5),
        Flags: read_u8(input, 7),
        Key: read_u16(input, 8),
        MinSize: read_u8(input, 10),
        MaxSize: read_u8(input, 11),
        Encoding: read_u16(input, 12),
    };
    Ok((tail(input, 14), v))
}


/// OneOfOption (0x09): one option of a one-of question.
#[derive(Debug, PartialEq, Eq)]
pub struct IfrOneOfOption {
    pub OptionStringId: u16,
    pub Value: u16,
    pub Flags: u8,
    pub Key: u16,
}

/// The fields laid out at the start of `s`.
pub open spec fn ifr_one_of_option_of(s: Seq<u8>) -> IfrOneOfOption {
    IfrOneOfOption {
        OptionStringId: le16(s, 0),
        Value: le16(s, 2),
        Flags: s[4],
        Key: le16(s, 5),
    }
}

pub fn ifr_one_of_option(input: &[u8]) -> (r: Result<(&[u8], IfrOneOfOption), ParseError>)
    ensures
        fixed_outcome(input@, r, 7, ifr_one_of_option_of(input@)),
{
    if input.len() < 7 {
        return Err(ParseError::Incomplete);
    }
    let v = IfrOneOfOption {
        OptionStringId: read_u16(input, 0),
        Value: read_u16(input, 2),
        Flags: read_u8(input, 4),
        Key: read_u16(input, 5),
    };
    Ok((tail(input, 7), v))
}


/// SuppressIf (0x0A): a suppress-if conditional.
#[derive(Debug, PartialEq, Eq)]
pub struct IfrSuppressIf {
    pub Flags: u8,
}

/// The fields laid out at the start of `s`.
pub open spec fn ifr_supress_if_of(s: Seq<u8>) -> IfrSuppressIf {
    IfrSuppressIf {
        Flags: s[0],
    }
}

pub fn ifr_supress_if(input: &[u8]) -> (r: Result<(&[u8], IfrSuppressIf), ParseError>)
    ensures
        fixed_outcome(input@, r, 1, ifr_supress_if_of(input@)),
{
    if input.len() < 1 {
        return Err(ParseError::Incomplete);
    }
    let v = IfrSuppressIf {
        Flags: read_u8(input, 0),
    };
    Ok((tail(input, 1), v))
}


/// Hidden (0x0C): a hidden value.
#[derive(Debug, PartialEq, Eq)]
pub struct IfrHidden {
    pub Value: u16,
    pub Key: u16,
}

/// The fields laid out at the start of `s`.
pub open spec fn ifr_hidden_of(s: Seq<u8>) -> IfrHidden {
    IfrHidden {
        Value: le16(s, 0),
        Key: le16(s, 2),
    }
}

pub fn ifr_hidden(input: &[u8]) -> (r: Result<(&[u8], IfrHidden), ParseError>)
    ensures
        fixed_outcome(input@, r, 4, ifr_hidden_of(input@)),
{
    if input.len() < 4 {
        return Err(ParseError::Incomplete);
    }
    let v = IfrHidden {
        Value: read_u16(input, 0),
        Key: read_u16(input, 2),
    };
    Ok((tail(input, 4), v))
}


/// FormSet (0x0E): opens a form set.
#[derive(Debug, PartialEq, Eq)]
pub struct IfrFormSet {
    pub Guid: Guid,
    pub TitleStringId: u16,
    pub HelpStringId: u16,
    pub CallbackHandle: u64,
    pub Class: u16,
    pub SubClass: u16,
    pub NvDataSize: u16,
}

/// The fields laid out at the start of `s`.
pub open spec fn ifr_form_set_of(s: Seq<u8>) -> IfrFormSet {
    IfrFormSet {
        Guid: guid_at(s, 0),
        TitleStringId: le16(s, 16),
        HelpStringId: le16(s, 18),
        CallbackHandle: le64(s, 20),
        Class: le16(s, 28),
        SubClass: le16(s, 30),
        NvDataSize: le16(s, 32),
    }
}

pub fn ifr_form_set(input: &[u8]) -> (r: Result<(&[u8], IfrFormSet), ParseError>)
    ensures
        fixed_outcome(input@, r, 34, ifr_form_set_of(input@)),
{
    if input.len() < 34 {
        return Err(ParseError::Incomplete);
    }
    let v = IfrFormSet {
        Guid: read_guid(input, 0),
        TitleStringId: read_u16(input, 16),
        HelpStringId: read_u16(input, 18),
        CallbackHandle: read_u64(input, 20),
        Class: read_u16(input, 28),
        SubClass: read_u16(input, 30),
        NvDataSize: read_u16(input, 32),
    };
    Ok((tail(input, 34), v))
}


/// Ref (0x0F): a cross-reference to a form.
#[derive(Debug, PartialEq, Eq)]
pub struct IfrRef {
    pub FormId: u16,
    pub PromptStringId: u16,
    pub HelpStringId: u16,
    pub Flags: u8,
    pub Key: u16,
}

/// The fields laid out at the start of `s`.
pub open spec fn ifr_ref_of(s: Seq<u8>) -> IfrRef {
    IfrRef {
        FormId: le16(s, 0),
        PromptStringId: le16(s, 2),
        HelpStringId: le16(s, 4),
        Flags: s[6],
        Key: le16(s, 7),
    }
}

pub fn ifr_ref(input: &[u8]) -> (r: Result<(&[u8], IfrRef), ParseError>)
    ensures
        fixed_outcome(input@, r, 9, ifr_ref_of(input@)),
{
    if input.len() < 9 {
        return Err(ParseError::Incomplete);
    }
    let v = IfrRef {
        FormId: read_u16(input, 0),
        PromptStringId: read_u16(input, 2),
        HelpStringId: read_u16(input, 4),
        Flags: read_u8(input, 6),
        Key: read_u16(input, 7),
    };
    Ok((tail(input, 9), v))
}


/// InconsistentIf (0x11): an error-checking conditional.
#[derive(Debug, PartialEq, Eq)]
pub struct IfrInconsistentIf {
    pub PopupStringId: u16,
    pub Flags: u8,
}

/// The fields laid out at the start of `s`.
pub open spec fn ifr_inconsistent_if_of(s: Seq<u8>) -> IfrInconsistentIf {
    IfrInconsistentIf {
        PopupStringId: le16(s, 0),
        Flags: s[2],
    }
}

pub fn ifr_inconsistent_if(input: &[u8]) -> (r: Result<(&[u8], IfrInconsistentIf), ParseError>)
    ensures
        fixed_outcome(input@, r, 3, ifr_inconsistent_if_of(input@)),
{
    if input.len() < 3 {
        return Err(ParseError::Incomplete);
    }
    let v = IfrInconsistentIf {
        PopupStringId: read_u16(input, 0),
        Flags: read_u8(input, 2),
    };
    Ok((tail(input, 3), v))
}


/// EqIdVal (0x12): a question value compared with a constant.
#[derive(Debug, PartialEq, Eq)]
pub struct IfrEqIdVal {
    pub QuestionId: u16,
    pub Value: u16,
}

/// The fields laid out at the start of `s`.
pub open spec fn ifr_eq_id_val_of(s: Seq<u8>) -> IfrEqIdVal {
    IfrEqIdVal {
        QuestionId: le16(s, 0),
        Value: le16(s, 2),
    }
}

pub fn ifr_eq_id_val(input: &[u8]) -> (r: Result<(&[u8], IfrEqIdVal), ParseError>)
    ensures
        fixed_outcome(input@, r, 4, ifr_eq_id_val_of(input@)),
{
    if input.len() < 4 {
        return Err(ParseError::Incomplete);
    }
    let v = IfrEqIdVal {
        QuestionId: read_u16(input, 0),
        Value: read_u16(input, 2),
    };
    Ok((tail(input, 4), v))
}


/// EqIdId (0x13): two question values compared.
#[derive(Debug, PartialEq, Eq)]
pub struct IfrEqIdId {
    pub QuestionId1: u16,
    pub QuestionId2: u16,
}

/// The fields laid out at the start of `s`.
pub open spec fn ifr_eq_id_id_of(s: Seq<u8>) -> IfrEqIdId {
    IfrEqIdId {
        QuestionId1: le16(s, 0),
        QuestionId2: le16(s, 2),
    }
}

pub fn ifr_eq_id_id(input: &[u8]) -> (r: Result<(&[u8], IfrEqIdId), ParseError>)
    ensures
        fixed_outcome(input@, r, 4, ifr_eq_id_id_of(input@)),
{
    if input.len() < 4 {
        return Err(ParseError::Incomplete);
    }
    let v = IfrEqIdId {
        QuestionId1: read_u16(input, 0),
        QuestionId2: read_u16(input, 2),
    };
    Ok((tail(input, 4), v))
}


/// GrayOutIf (0x19): a gray-out-if conditional.
#[derive(Debug, PartialEq, Eq)]
pub struct IfrGrayOutIf {
    pub Flags: u8,
}

/// The fields laid out at the start of `s`.
pub open spec fn ifr_grayout_if_of(s: Seq<u8>) -> IfrGrayOutIf {
    IfrGrayOutIf {
        Flags: s[0],
    }
}

pub fn ifr_grayout_if(input: &[u8]) -> (r: Result<(&[u8], IfrGrayOutIf), ParseError>)
    ensures
        fixed_outcome(input@, r, 1, ifr_grayout_if_of(input@)),
{
    if input.len() < 1 {
        return Err(ParseError::Incomplete);
    }
    let v = IfrGrayOutIf {
        Flags: read_u8(input, 0),
    };
    Ok((tail(input, 1), v))
}


/// Date (0x1A): a date question.
#[derive(Debug, PartialEq, Eq)]
pub struct IfrDate {
    pub QuestionId: u16,
    pub Width: u8,
    pub PromptStringId: u16,
    pub HelpStringId: u16,
    pub Flags: u8,
    pub Key: u16,
    pub Min: u16,
    pub Max: u16,
    pub Step: u16,
    pub Default: u16,
}

/// The fields laid out at the start of `s`.
pub open spec fn ifr_date_of(s: Seq<u8>) -> IfrDate {
    IfrDate {
        QuestionId: le16(s, 0),
        Width: s[2],
        PromptStringId: le16(s, 3),
        HelpStringId: le16(s, 5),
        Flags: s[7],
        Key: le16(s, 8),
        Min: le16(s, 10),
        Max: le16(s, 12),
        Step: le16(s, 14),
        Default: le16(s, 16),
    }
}

pub fn ifr_date(input: &[u8]) -> (r: Result<(&[u8], IfrDate), ParseError>)
    ensures
        fixed_outcome(input@, r, 18, ifr_date_of(input@)),
{
    if input.len() < 18 {
        return Err(ParseError::Incomplete);
    }
    let v = IfrDate {
        QuestionId: read_u16(input, 0),
        Width: read_u8(input, 2),
        PromptStringId: read_u16(input, 3),
        HelpStringId: read_u16(input, 5),
        Flags: read_u8(input, 7),
        Key: read_u16(input, 8),
        Min: read_u16(input, 10),
        Max: read_u16(input, 12),
        Step: read_u16(input, 14),
        Default: read_u16(input, 16),
    };
    Ok((tail(input, 18), v))
}


/// Time (0x1B): a time question.
#[derive(Debug, PartialEq, Eq)]
pub struct IfrTime {
    pub QuestionId: u16,
    pub Width: u8,
    pub PromptStringId: u16,
    pub HelpStringId: u16,
    pub Flags: u8,
    pub Key: u16,
    pub Min: u16,
    pub Max: u16,
    pub Step: u16,
    pub Default: u16,
}

/// The fields laid out at the start of `s`.
pub open spec fn ifr_time_of(s: Seq<u8>) -> IfrTime {
    IfrTime {
        QuestionId: le16(s, 0),
        Width: s[2],
        PromptStringId: le16(s, 3),
        HelpStringId: le16(s, 5),
        Flags: s[7],
        Key: le16(s, 8),
        Min: le16(s, 10),
        Max: le16(s, 12),
        Step: le16(s, 14),
        Default: le16(s, 16),
    }
}

pub fn ifr_time(input: &[u8]) -> (r: Result<(&[u8], IfrTime), ParseError>)
    ensures
        fixed_outcome(input@, r, 18, ifr_time_of(input@)),
{
    if input.len() < 18 {
        return Err(ParseError::Incomplete);
    }
    let v = IfrTime {
        QuestionId: read_u16(input, 0),
        Width: read_u8(input, 2),
        PromptStringId: read_u16(input, 3),
        HelpStringId: read_u16(input, 5),
        Flags: read_u8(input, 7),
        Key: read_u16(input, 8),
        Min: read_u16(input, 10),
        Max: read_u16(input, 12),
        Step: read_u16(input, 14),
        Default: read_u16(input, 16),
    };
    Ok((tail(input, 18), v))
}


/// String (0x1C): a string question.
#[derive(Debug, PartialEq, Eq)]
pub struct IfrString {
    pub QuestionId: u16,
    pub Width: u8,
    pub PromptStringId: u16,
    pub HelpStringId: u16,
    pub Flags: u8,
    pub Key: u16,
    pub MinSize: u8,
    pub MaxSize: u8,
}

/// The fields laid out at the start of `s`.
pub open spec fn ifr_string_of(s: Seq<u8>) -> IfrString {
    IfrString {
        QuestionId: le16(s, 0),
        Width: s[2],
        PromptStringId: le16(s, 3),
        HelpStringId: le16(s, 5),
        Flags: s[7],
        Key: le16(s, 8),
        MinSize: s[10],
        MaxSize: s[11],
    }
}

pub fn ifr_string(input: &[u8]) -> (r: Result<(&[u8], IfrString), ParseError>)
    ensures
        fixed_outcome(input@, r, 12, ifr_string_of(input@)),
{
    if input.len() < 12 {
        return Err(ParseError::Incomplete);
    }
    let v = IfrString {
        QuestionId: read_u16(input, 0),
        Width: read_u8(input, 2),
        PromptStringId: read_u16(input, 3),
        HelpStringId: read_u16(input, 5),
        Flags: read_u8(input, 7),
        Key: read_u16(input, 8),
        MinSize: read_u8(input, 10),
        MaxSize: read_u8(input, 11),
    };
    Ok((tail(input, 12), v))
}


/// Label (0x1D): a label.
#[derive(Debug, PartialEq, Eq)]
pub struct IfrLabel {
    pub LabelId: u16,
}

/// The fields laid out at the start of `s`.
pub open spec fn ifr_label_of(s: Seq<u8>) -> IfrLabel {
    IfrLabel {
        LabelId: le16(s, 0),
    }
}

pub fn ifr_label(input: &[u8]) -> (r: Result<(&[u8], IfrLabel), ParseError>)
    ensures
        fixed_outcome(input@, r, 2, ifr_label_of(input@)),
{
    if input.len() < 2 {
        return Err(ParseError::Incomplete);
    }
    let v = IfrLabel {
        LabelId: read_u16(input, 0),
    };
    Ok((tail(input, 2), v))
}


/// SaveDefaults (0x1E): a button that saves defaults.
#[derive(Debug, PartialEq, Eq)]
pub struct IfrSaveDefaults {
    pub FormId: u16,
    pub PromptStringId: u16,
    pub HelpStringId: u16,
    pub Flags: u8,
    pub Key: u16,
}

/// The fields laid out at the start of `s`.
pub open spec fn ifr_save_defaults_of(s: Seq<u8>) -> IfrSaveDefaults {
    IfrSaveDefaults {
        FormId: le16(s, 0),
        PromptStringId: le16(s, 2),
        HelpStringId: le16(s, 4),
        Flags: s[6],
        Key: le16(s, 7),
    }
}

pub fn ifr_save_defaults(input: &[u8]) -> (r: Result<(&[u8], IfrSaveDefaults), ParseError>)
    ensures
        fixed_outcome(input@, r, 9, ifr_save_defaults_of(input@)),
{
    if input.len() < 9 {
        return Err(ParseError::Incomplete);
    }
    let v = IfrSaveDefaults {
        FormId: read_u16(input, 0),
        PromptStringId: read_u16(input, 2),
        HelpStringId: read_u16(input, 4),
        Flags: read_u8(input, 6),
        Key: read_u16(input, 7),
    };
    Ok((tail(input, 9), v))
}


/// RestoreDefaults (0x1F): a button that restores defaults.
#[derive(Debug, PartialEq, Eq)]
pub struct IfrRestoreDefaults {
    pub FormId: u16,
    pub PromptStringId: u16,
    pub HelpStringId: u16,
    pub Flags: u8,
    pub Key: u16,
}

/// The fields laid out at the start of `s`.
pub open spec fn ifr_restore_defaults_of(s: Seq<u8>) -> IfrRestoreDefaults {
    IfrRestoreDefaults {
        FormId: le16(s, 0),
        PromptStringId: le16(s, 2),
        HelpStringId: le16(s, 4),
        Flags: s[6],
        Key: le16(s, 7),
    }
}

pub fn ifr_restore_defaults(input: &[u8]) -> (r: Result<(&[u8], IfrRestoreDefaults), ParseError>)
    ensures
        fixed_outcome(input@, r, 9, ifr_restore_defaults_of(input@)),
{
    if input.len() < 9 {
        return Err(ParseError::Incomplete);
    }
    let v = IfrRestoreDefaults {
        FormId: read_u16(input, 0),
        PromptStringId: read_u16(input, 2),
        HelpStringId: read_u16(input, 4),
        Flags: read_u8(input, 6),
        Key: read_u16(input, 7),
    };
    Ok((tail(input, 9), v))
}


/// Banner (0x20): a banner line.
#[derive(Debug, PartialEq, Eq)]
pub struct IfrBanner {
    pub TitleStringId: u16,
    pub LineNumber: u16,
    pub Alignment: u8,
}

/// The fields laid out at the start of `s`.
pub open spec fn ifr_banner_of(s: Seq<u8>) -> IfrBanner {
    IfrBanner {
        TitleStringId: le16(s, 0),
        LineNumber: le16(s, 2),
        Alignment: s[4],
    }
}

pub fn ifr_banner(input: &[u8]) -> (r: Result<(&[u8], IfrBanner), ParseError>)
    ensures
        fixed_outcome(input@, r, 5, ifr_banner_of(input@)),
{
    if input.len() < 5 {
        return Err(ParseError::Incomplete);
    }
    let v = IfrBanner {
        TitleStringId: read_u16(input, 0),
        LineNumber: read_u16(input, 2),
        Alignment: read_u8(input, 4),
    };
    Ok((tail(input, 5), v))
}


/// Inventory (0x21): an inventory line.
#[derive(Debug, PartialEq, Eq)]
pub struct IfrInventory {
    pub HelpStringId: u16,
    pub TextStringId: u16,
    pub TextTwoStringId: u16,
}

/// The fields laid out at the start of `s`.
pub open spec fn ifr_inventory_of(s: Seq<u8>) -> IfrInventory {
    IfrInventory {
        HelpStringId: le16(s, 0),
        TextStringId: le16(s, 2),
        TextTwoStringId: le16(s, 4),
    }
}

pub fn ifr_inventory(input: &[u8]) -> (r: Result<(&[u8], IfrInventory), ParseError>)
    ensures
        fixed_outcome(input@, r, 6, ifr_inventory_of(input@)),
{
    if input.len() < 6 {
        return Err(ParseError::Incomplete);
    }
    let v = IfrInventory {
        HelpStringId: read_u16(input, 0),
        TextStringId: read_u16(input, 2),
        TextTwoStringId: read_u16(input, 4),
    };
    Ok((tail(input, 6), v))
}


/// EqVarVal (0x22): a variable compared with a constant.
#[derive(Debug, PartialEq, Eq)]
pub struct IfrEqVarVal {
    pub VariableId: u16,
    pub Value: u16,
}

/// The fields laid out at the start of `s`.
pub open spec fn ifr_eq_var_val_of(s: Seq<u8>) -> IfrEqVarVal {
    IfrEqVarVal {
        VariableId: le16(s, 0),
        Value: le16(s, 2),
    }
}

pub fn ifr_eq_var_val(input: &[u8]) -> (r: Result<(&[u8], IfrEqVarVal), ParseError>)
    ensures
        fixed_outcome(input@, r, 4, ifr_eq_var_val_of(input@)),
{
    if input.len() < 4 {
        return Err(ParseError::Incomplete);
    }
    let v = IfrEqVarVal {
        VariableId: read_u16(input, 0),
        Value: read_u16(input, 2),
    };
    Ok((tail(input, 4), v))
}


/// OrderedList (0x23): an ordered list question.
#[derive(Debug, PartialEq, Eq)]
pub struct IfrOrderedList {
    pub QuestionId: u16,
    pub MaxEntries: u8,
    pub PromptStringId: u16,
    pub HelpStringId: u16,
}

/// The fields laid out at the start of `s`.
pub open spec fn ifr_ordered_list_of(s: Seq<u8>) -> IfrOrderedList {
    IfrOrderedList {
        QuestionId: le16(s, 0),
        MaxEntries: s[2],
        PromptStringId: le16(s, 3),
        HelpStringId: le16(s, 5),
    }
}

pub fn ifr_ordered_list(input: &[u8]) -> (r: Result<(&[u8], IfrOrderedList), ParseError>)
    ensures
        fixed_outcome(input@, r, 7, ifr_ordered_list_of(input@)),
{
    if input.len() < 7 {
        return Err(ParseError::Incomplete);
    }
    let v = IfrOrderedList {
        QuestionId: read_u16(input, 0),
        MaxEntries: read_u8(input, 2),
        PromptStringId: read_u16(input, 3),
        HelpStringId: read_u16(input, 5),
    };
    Ok((tail(input, 7), v))
}


/// VarStoreSelect (0x25): selects a variable store.
#[derive(Debug, PartialEq, Eq)]
pub struct IfrVarStoreSelect {
    pub VarStoreId: u16,
}

/// The fields laid out at the start of `s`.
pub open spec fn ifr_var_store_select_of(s: Seq<u8>) -> IfrVarStoreSelect {
    IfrVarStoreSelect {
        VarStoreId: le16(s, 0),
    }
}

pub fn ifr_var_store_select(input: &[u8]) -> (r: Result<(&[u8], IfrVarStoreSelect), ParseError>)
    ensures
        fixed_outcome(input@, r, 2, ifr_var_store_select_of(input@)),
{
    if input.len() < 2 {
        return Err(ParseError::Incomplete);
    }
    let v = IfrVarStoreSelect {
        VarStoreId: read_u16(input, 0),
    };
    Ok((tail(input, 2), v))
}


/// VarStoreSelectPair (0x26): selects two variable stores.
#[derive(Debug, PartialEq, Eq)]
pub struct IfrVarStoreSelectPair {
    pub VarStoreId: u16,
    pub SecondaryVarStoreId: u16,
}

/// The fields laid out at the start of `s`.
pub open spec fn ifr_var_store_select_pair_of(s: Seq<u8>) -> IfrVarStoreSelectPair {
    IfrVarStoreSelectPair {
        VarStoreId: le16(s, 0),
        SecondaryVarStoreId: le16(s, 2),
    }
}

pub fn ifr_var_store_select_pair(input: &[u8]) -> (r: Result<(&[u8], IfrVarStoreSelectPair), ParseError>)
    ensures
        fixed_outcome(input@, r, 4, ifr_var_store_select_pair_of(input@)),
{
    if input.len() < 4 {
        return Err(ParseError::Incomplete);
    }
    let v = IfrVarStoreSelectPair {
        VarStoreId: read_u16(input, 0),
        SecondaryVarStoreId: read_u16(input, 2),
    };
    Ok((tail(input, 4), v))
}



//
// Records with variable parts
//
/// EqIdList (0x14): a question value looked up in a list of constants.
#[derive(Debug, PartialEq, Eq)]
pub struct IfrEqIdList {
    pub QuestionId: u16,
    pub Width: u8,
    pub ListLength: u16,
    pub List: Vec<u16>,
}

pub fn ifr_eq_id_list(input: &[u8]) -> (r: Result<(&[u8], IfrEqIdList), ParseError>)
    ensures
        match r {
            Ok((rest, v)) => {
                &&& input@.len() >= 5 && input@.len() >= 5 + 2 * le16(input@, 3)
                &&& v.QuestionId == le16(input@, 0) && v.Width == input@[2]
                &&& v.ListLength == le16(input@, 3)
                &&& v.List@ == crate::bytes::u16_run(input@, 5, le16(input@, 3) as nat)
                &&& rest@ == input@.subrange(5 + 2 * le16(input@, 3), input@.len() as int)
            },
            Err(e) => e == ParseError::Incomplete && (input@.len() < 5 || input@.len() < 5 + 2 * le16(input@, 3)),
        },
{
    if input.len() < 5 {
        return Err(ParseError::Incomplete);
    }
    let len = read_u16(input, 3);
    let cnt = len as usize;
    if input.len() - 5 < 2 * cnt {
        return Err(ParseError::Incomplete);
    }
    let v = IfrEqIdList {
        QuestionId: read_u16(input, 0),
        Width: input[2],
        ListLength: len,
        List: crate::bytes::read_u16_run(input, 5, cnt),
    };
    Ok((tail(input, 5 + 2 * cnt), v))
}

/// Decodes a zero-terminated byte string.
pub fn string_ascii(input: &[u8]) -> (r: Result<(&[u8], String), ParseError>)
    ensures
        string_outcome(input@, r, 0, false),
{
    one_string(input, 0, false)
}

/// VarStore (0x24): a variable store with its name.
#[derive(Debug, PartialEq, Eq)]
pub struct IfrVarStore {
    pub Guid: Guid,
    pub VarStoreId: u16,
    pub Size: u16,
    pub Name: String,
}

pub fn ifr_var_store(input: &[u8]) -> (r: Result<(&[u8], IfrVarStore), ParseError>)
    ensures
        match r {
            Ok((rest, v)) => match nul8_end(input@, 20) {
                Some(e) => {
                    &&& v.Guid == guid_at(input@, 0) && v.VarStoreId == le16(input@, 16)
                    &&& v.Size == le16(input@, 18)
                    &&& v.Name@ == utf8_lossy(input@.subrange(20, e - 1))
                    &&& rest@ == input@.subrange(e, input@.len() as int)
                },
                None => false,
            },
            Err(e) => e == ParseError::Incomplete && nul8_end(input@, 20).is_none(),
        },
{
    if input.len() < 20 {
        return Err(ParseError::Incomplete);
    }
    match one_string(tail(input, 20), 0, false) {
        Ok((rest, name)) => {
            proof {
                lemma_nul8_end_shift(input@, 20);
            }
            let v = IfrVarStore {
                Guid: read_guid(input, 0),
                VarStoreId: read_u16(input, 16),
                Size: read_u16(input, 18),
                Name: name,
            };
            Ok((rest, v))
        },
        Err(e) => {
            proof {
                lemma_nul8_end_shift(input@, 20);
            }
            Err(e)
        },
    }
}

} // verus!
