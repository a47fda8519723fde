//! The package-set assembler: linear scans of a whole buffer for string and
//! form packages, the string tables they hold, and the StringIds each form uses.
use vstd::prelude::*;
use crate::bytes::{le16, tail};
use crate::guid::{guid_at, guid_eq, same_guid};
use crate::string_ids::{reduce_ids, string_id_map, IdEntries, StringIdMap};
use crate::text::utf8_lossy;
use crate::uefi_parser as uefi;
use crate::uefi_parser::IfrOpcode as U;
use crate::framework_parser as fw;
use crate::framework_parser::IfrOpcode as F;

verus! {

/// A string package found in the buffer, with its table.
#[derive(Debug)]
pub struct StringPackage {
    pub offset: usize,
    pub length: usize,
    pub language: String,
    pub string_id_map: StringIdMap,
}

/// A form package found in the buffer, with a summary of the StringIds it uses.
#[derive(Debug, PartialEq, Eq, Clone, Copy)]
pub struct FormPackage {
    pub offset: usize,
    pub length: usize,
    pub used_strings: usize,
    pub min_string_id: u16,
    pub max_string_id: u16,
}

/// A string package as plain values: offset, length, language and entries.
pub type StringModel = (int, int, Seq<char>, IdEntries);

/// A form package as plain values: offset, length and the StringIds it uses, in order.
pub type FormModel = (int, int, Seq<u16>);

pub open spec fn string_package_is(p: StringPackage, m: StringModel) -> bool {
    &&& p.offset == m.0 && p.length == m.1 && p.language@ == m.2
    &&& p.string_id_map.entries_view() == m.3 && p.string_id_map.wf()
}

/// The summary of a form: how many distinct StringIds it uses, the least and the greatest.
pub open spec fn form_package_is(p: FormPackage, m: FormModel) -> bool {
    &&& p.offset == m.0 && p.length == m.1
    &&& p.used_strings == m.2.to_set().len()
    &&& m.2.contains(p.min_string_id) && m.2.contains(p.max_string_id)
    &&& forall|x: u16| m.2.contains(x) ==> p.min_string_id <= x <= p.max_string_id
}

/// Counts the distinct StringIds of a non-empty list and finds the least and greatest.
pub fn summarize_string_ids(ids: &Vec<u16>) -> (r: (usize, u16, u16))
    requires
        ids@.len() > 0,
    ensures
        r.0 == ids@.to_set().len(),
        ids@.contains(r.1),
        ids@.contains(r.2),
        forall|x: u16| ids@.contains(x) ==> r.1 <= x <= r.2,
{
    let mut seen: Vec<u16> = Vec::new();
    let mut lo = ids[0];
    let mut hi = ids[0];
    let mut k: usize = 0;
    while k < ids.len()
        invariant
            k <= ids@.len(),
            ids@.len() > 0,
            seen@.no_duplicates(),
            forall|x: u16| seen@.contains(x) <==> exists|t: int| 0 <= t < k && #[trigger] ids@[t] == x,
            ids@.contains(lo),
            ids@.contains(hi),
            forall|t: int| 0 <= t < k ==> lo <= #[trigger] ids@[t] <= hi,
            lo <= ids@[0] <= hi,
        decreases ids@.len() - k,
    {
        let x = ids[k];
        let mut found = false;
        let mut j: usize = 0;
        while j < seen.len()
            invariant
                j <= seen@.len(),
                found <==> exists|t: int| 0 <= t < j && #[trigger] seen@[t] == x,
            decreases seen@.len() - j,
        {
            if seen[j] == x {
                found = true;
            }
            j = j + 1;
        }
        let ghost before = seen@;
        if !found {
            seen.push(x);
            assert forall|a: int, b: int|
                0 <= a < seen@.len() && 0 <= b < seen@.len() && a != b implies seen@[a] != seen@[b] by {
                if a < before.len() && b < before.len() {
                    assert(before[a] != before[b]);
                } else if a == before.len() {
                    assert(before[b] == seen@[b]);
                } else {
                    assert(before[a] == seen@[a]);
                }
            }
        }
        if x < lo {
            lo = x;
        }
        if x > hi {
            hi = x;
        }
        assert forall|y: u16| seen@.contains(y) <==> exists|t: int| 0 <= t < k + 1 && #[trigger] ids@[t] == y by {
            if exists|t: int| 0 <= t < k + 1 && #[trigger] ids@[t] == y {
                let t = choose|t: int| 0 <= t < k + 1 && #[trigger] ids@[t] == y;
                if t < k {
                    assert(before.contains(y));
                    let u = choose|u: int| 0 <= u < before.len() && before[u] == y;
                    assert(seen@[u] == y);
                } else if found {
                    let u = choose|u: int| 0 <= u < before.len() && #[trigger] before[u] == x;
                    assert(seen@[u] == y);
                } else {
                    assert(seen@[seen@.len() - 1] == y);
                }
            }
            if seen@.contains(y) {
                let t = choose|t: int| 0 <= t < seen@.len() && seen@[t] == y;
                if t < before.len() {
                    assert(before[t] == y);
                    assert(before.contains(y));
                } else {
                    assert(ids@[k as int] == y);
                }
            }
        }
        k = k + 1;
    }
    assert forall|y: u16| seen@.to_set().contains(y) <==> ids@.to_set().contains(y) by {
        if ids@.contains(y) {
            let t = choose|t: int| 0 <= t < ids@.len() && ids@[t] == y;
            assert(exists|u: int| 0 <= u < k && #[trigger] ids@[u] == y);
        }
    }
    assert(seen@.to_set() =~= ids@.to_set());
    assert forall|y: u16| ids@.contains(y) implies lo <= y <= hi by {
        let t = choose|t: int| 0 <= t < ids@.len() && ids@[t] == y;
        assert(lo <= ids@[t] <= hi);
    }
    proof {
        seen@.unique_seq_to_set();
    }
    (seen.len(), lo, hi)
}

/// The two StringIds at the start of a record: its prompt and its help.
pub open spec fn prompt_help(d: Seq<u8>, at: int) -> Seq<u16> {
    seq![le16(d, at), le16(d, at + 2)]
}

/// The StringIds that a GUID-tagged UEFI operation uses: the title of an EDK2
/// banner, or the name of an EDK VarEqName record.
pub open spec fn uefi_guid_refs(d: Seq<u8>) -> Seq<u16> {
    if d.len() < 16 {
        Seq::empty()
    } else {
        let e = d.subrange(16, d.len() as int);
        if same_guid(guid_at(d, 0), uefi::tiano_guid_spec()) {
            if e.len() >= 6 && e[0] == 0x01 {
                seq![le16(e, 1)]
            } else {
                Seq::empty()
            }
        } else if same_guid(guid_at(d, 0), uefi::framework_guid_spec()) {
            if e.len() >= 3 && e[0] == 0x01 && extension_value_of(e.subrange(3, e.len() as int)) is Some {
                seq![extension_value_of(e.subrange(3, e.len() as int)).unwrap()]
            } else {
                Seq::empty()
            }
        } else {
            Seq::empty()
        }
    }
}

/// The StringIds that one UEFI operation uses, in the order its fields hold them;
/// none when its record does not decode.
pub open spec fn uefi_op_refs(op: (U, u8, bool, Seq<u8>)) -> Seq<u16> {
    let d = op.3;
    let n = d.len();
    match op.0 {
        U::Form => if n >= 4 { seq![le16(d, 2)] } else { Seq::empty() },
        U::Subtitle => if n >= 5 { prompt_help(d, 0) } else { Seq::empty() },
        U::Text => if n >= 6 { prompt_help(d, 0).push(le16(d, 4)) } else { Seq::empty() },
        U::OneOf | U::Numeric => if n >= 12 && n >= uefi::ranged_len(d) { prompt_help(d, 0) } else { Seq::empty() },
        U::CheckBox | U::Date | U::Time => if n >= 12 { prompt_help(d, 0) } else { Seq::empty() },
        U::Password => if n >= 15 { prompt_help(d, 0) } else { Seq::empty() },
        U::OneOfOption => if n >= 4 && n >= 4 + uefi::type_value_width(d[3]) {
            if d[3] == 0x07 || d[3] == 0x0A {
                seq![le16(d, 0), le16(d, 4)]
            } else {
                seq![le16(d, 0)]
            }
        } else {
            Seq::empty()
        },
        U::Action => if n >= 13 {
            prompt_help(d, 0).push(le16(d, 11))
        } else if n >= 11 {
            prompt_help(d, 0)
        } else {
            Seq::empty()
        },
        U::ResetButton => if n >= 6 { prompt_help(d, 0) } else { Seq::empty() },
        U::FormSet => if uefi::form_set_len(d) is Some { prompt_help(d, 16) } else { Seq::empty() },
        U::Ref => if n >= 11 { prompt_help(d, 0) } else { Seq::empty() },
        U::NoSubmitIf | U::InconsistentIf | U::VarStoreDevice | U::StringRef1 | U::QuestionRef3 =>
            if n >= 2 { seq![le16(d, 0)] } else { Seq::empty() },
        U::String => if n >= 14 { prompt_help(d, 0) } else { Seq::empty() },
        U::OrderedList => if n >= 13 { prompt_help(d, 0) } else { Seq::empty() },
        U::Default => if n >= 3 && n >= 3 + uefi::type_value_width(d[2]) && (d[2] == 0x07 || d[2] == 0x0A) {
            seq![le16(d, 3)]
        } else {
            Seq::empty()
        },
        U::DefaultStore => if n >= 4 { seq![le16(d, 0)] } else { Seq::empty() },
        U::FormMap => if n >= 20 {
            Seq::new(((n - 2) / 18) as nat, |j: int| le16(d, 2 + 18 * j))
        } else {
            Seq::empty()
        },
        U::Guid => uefi_guid_refs(d),
        U::WarningIf => if n >= 3 { seq![le16(d, 0)] } else { Seq::empty() },
        _ => Seq::empty(),
    }
}

/// The StringIds that a sequence of UEFI operations uses, operation after operation.
pub open spec fn uefi_refs_of(ops: Seq<(U, u8, bool, Seq<u8>)>) -> Seq<u16>
    decreases ops.len(),
{
    if ops.len() == 0 {
        Seq::empty()
    } else {
        uefi_refs_of(ops.drop_last()) + uefi_op_refs(ops.last())
    }
}

fn push_prompt_help(out: &mut Vec<u16>, p: u16, h: u16)
    ensures
        final(out)@ == old(out)@ + seq![p, h],
{
    out.push(p);
    out.push(h);
    assert(final(out)@ =~= old(out)@ + seq![p, h]);
}

fn push_one(out: &mut Vec<u16>, x: u16)
    ensures
        final(out)@ == old(out)@ + seq![x],
{
    out.push(x);
    assert(final(out)@ =~= old(out)@ + seq![x]);
}

/// The value that the data of a GUID extension record holds (a label, a
/// timeout, a class, or the StringId of a VarEqName name): its two bytes read
/// as a little-endian u16; none unless it holds exactly two.
pub open spec fn extension_value_of(d: Seq<u8>) -> Option<u16> {
    if d.len() == 2 {
        Some(le16(d, 0))
    } else {
        None
    }
}

pub fn extension_value(d: &[u8]) -> (r: Option<u16>)
    ensures
        r == extension_value_of(d@),
{
    if d.len() == 2 {
        Some(crate::bytes::read_u16(d, 0))
    } else {
        None
    }
}

fn uefi_guid_string_ids(d: &[u8], out: &mut Vec<u16>)
    ensures
        final(out)@ == old(out)@ + uefi_guid_refs(d@),
{
    if let Ok((_, g)) = uefi::ifr_guid(d) {
        if guid_eq(&g.Guid, &uefi::ifr_tiano_guid()) {
            if let Ok((_, e)) = uefi::ifr_guid_edk2(g.Data) {
                if e.ExtendedOpCode == uefi::IfrEdk2ExtendOpCode::Banner {
                    if let Ok((_, b)) = uefi::ifr_guid_edk2_banner(e.Data) {
                        push_one(out, b.TitleId);
                        return;
                    }
                }
            }
        } else if guid_eq(&g.Guid, &uefi::ifr_framework_guid()) {
            if let Ok((_, e)) = uefi::ifr_guid_edk(g.Data) {
                if e.ExtendedOpCode == uefi::IfrEdkExtendOpCode::VarEqName {
                    if let Some(id) = extension_value(e.Data) {
                        push_one(out, id);
                        return;
                    }
                }
            }
        }
    }
    assert(uefi_guid_refs(d@) =~= Seq::<u16>::empty());
    assert(final(out)@ =~= old(out)@ + Seq::<u16>::empty());
}

/// Appends the StringIds that one UEFI operation uses.
pub fn uefi_op_string_ids(op: &uefi::IfrOperation, out: &mut Vec<u16>)
    ensures
        final(out)@ == old(out)@ + uefi_op_refs(uefi::op_view(*op)),
{
    let d = op.payload();
    let ghost before = out@;
    match op.OpCode {
        U::Form => {
            if let Ok((_, v)) = uefi::ifr_form(d) {
                push_one(out, v.TitleStringId);
            }
        },
        U::Subtitle => {
            if let Ok((_, v)) = uefi::ifr_subtitle(d) {
                push_prompt_help(out, v.PromptStringId, v.HelpStringId);
            }
        },
        U::Text => {
            if let Ok((_, v)) = uefi::ifr_text(d) {
                push_prompt_help(out, v.PromptStringId, v.HelpStringId);
                push_one(out, v.TextId);
                assert(out@ =~= before + prompt_help(d@, 0).push(le16(d@, 4)));
            }
        },
        U::OneOf => {
            if let Ok((_, v)) = uefi::ifr_one_of(d) {
                push_prompt_help(out, v.PromptStringId, v.HelpStringId);
            }
        },
        U::Numeric => {
            if let Ok((_, v)) = uefi::ifr_numeric(d) {
                push_prompt_help(out, v.PromptStringId, v.HelpStringId);
            }
        },
        U::CheckBox => {
            if let Ok((_, v)) = uefi::ifr_check_box(d) {
                push_prompt_help(out, v.PromptStringId, v.HelpStringId);
            }
        },
        U::Date => {
            if let Ok((_, v)) = uefi::ifr_date(d) {
                push_prompt_help(out, v.PromptStringId, v.HelpStringId);
            }
        },
        U::Time => {
            if let Ok((_, v)) = uefi::ifr_time(d) {
                push_prompt_help(out, v.PromptStringId, v.HelpStringId);
            }
        },
        U::Password => {
            if let Ok((_, v)) = uefi::ifr_password(d) {
                push_prompt_help(out, v.PromptStringId, v.HelpStringId);
            }
        },
        U::OneOfOption => {
            if let Ok((_, v)) = uefi::ifr_one_of_option(d) {
                match v.Value {
                    uefi::IfrTypeValue::String(x) => push_prompt_help(out, v.OptionStringId, x),
                    uefi::IfrTypeValue::Action(x) => push_prompt_help(out, v.OptionStringId, x),
                    _ => push_one(out, v.OptionStringId),
                }
            }
        },
        U::Action => {
            if let Ok((_, v)) = uefi::ifr_action(d) {
                push_prompt_help(out, v.PromptStringId, v.HelpStringId);
                if let Some(x) = v.ConfigStringId {
                    push_one(out, x);
                    assert(out@ =~= before + prompt_help(d@, 0).push(le16(d@, 11)));
                }
            }
        },
        U::ResetButton => {
            if let Ok((_, v)) = uefi::ifr_reset_button(d) {
                push_prompt_help(out, v.PromptStringId, v.HelpStringId);
            }
        },
        U::FormSet => {
            if let Ok((_, v)) = uefi::ifr_form_set(d) {
                push_prompt_help(out, v.TitleStringId, v.HelpStringId);
            }
        },
        U::Ref => {
            if let Ok((_, v)) = uefi::ifr_ref(d) {
                push_prompt_help(out, v.PromptStringId, v.HelpStringId);
            }
        },
        U::NoSubmitIf => {
            if let Ok((_, v)) = uefi::ifr_no_submit_if(d) {
                push_one(out, v.ErrorStringId);
            }
        },
        U::InconsistentIf => {
            if let Ok((_, v)) = uefi::ifr_inconsistent_if(d) {
                push_one(out, v.ErrorStringId);
            }
        },
        U::VarStoreDevice => {
            if let Ok((_, v)) = uefi::ifr_var_store_device(d) {
                push_one(out, v.DevicePathStringId);
            }
        },
        U::StringRef1 => {
            if let Ok((_, v)) = uefi::ifr_string_ref_1(d) {
                push_one(out, v.StringId);
            }
        },
        U::QuestionRef3 => {
            if let Ok((_, v)) = uefi::ifr_question_ref_3(d) {
                if let Some(x) = v.DevicePathId {
                    push_one(out, x);
                }
            }
        },
        U::String => {
            if let Ok((_, v)) = uefi::ifr_string(d) {
                push_prompt_help(out, v.PromptStringId, v.HelpStringId);
            }
        },
        U::OrderedList => {
            if let Ok((_, v)) = uefi::ifr_ordered_list(d) {
                push_prompt_help(out, v.PromptStringId, v.HelpStringId);
            }
        },
        U::Default => {
            if let Ok((_, v)) = uefi::ifr_default(d) {
                match v.Value {
                    uefi::IfrTypeValue::String(x) => push_one(out, x),
                    uefi::IfrTypeValue::Action(x) => push_one(out, x),
                    _ => {},
                }
            }
        },
        U::DefaultStore => {
            if let Ok((_, v)) = uefi::ifr_default_store(d) {
                push_one(out, v.NameStringId);
            }
        },
        U::FormMap => {
            if let Ok((_, v)) = uefi::ifr_form_map(d) {
                let mut k: usize = 0;
                while k < v.Methods.len()
                    invariant
                        k <= v.Methods@.len(),
                        v.Methods@.len() == (d@.len() - 2) / 18,
                        d@.len() >= 20,
                        forall|j: int| 0 <= j < v.Methods@.len() ==> (#[trigger] v.Methods@[j]).MethodTitleId == le16(d@, 2 + 18 * j),
                        out@ == before + Seq::new(k as nat, |j: int| le16(d@, 2 + 18 * j)),
                    decreases v.Methods@.len() - k,
                {
                    out.push(v.Methods[k].MethodTitleId);
                    k = k + 1;
                    assert(out@ =~= before + Seq::new(k as nat, |j: int| le16(d@, 2 + 18 * j)));
                }
            }
        },
        U::Guid => {
            uefi_guid_string_ids(d, out);
        },
        U::WarningIf => {
            if let Ok((_, v)) = uefi::ifr_warning_if(d) {
                push_one(out, v.WarningStringId);
            }
        },
        _ => {},
    }
    assert(out@ =~= before + uefi_op_refs(uefi::op_view(*op)));
}

/// The StringIds that a UEFI form's operations use, operation after operation.
pub fn uefi_form_string_ids(ops: &Vec<uefi::IfrOperation>) -> (r: Vec<u16>)
    ensures
        r@ == uefi_refs_of(ops@.map_values(|op: uefi::IfrOperation| uefi::op_view(op))),
{
    let ghost v = ops@.map_values(|op: uefi::IfrOperation| uefi::op_view(op));
    let mut out: Vec<u16> = Vec::new();
    let mut k: usize = 0;
    assert(v.subrange(0, 0) =~= Seq::<(U, u8, bool, Seq<u8>)>::empty());
    while k < ops.len()
        invariant
            k <= ops@.len(),
            v == ops@.map_values(|op: uefi::IfrOperation| uefi::op_view(op)),
            out@ == uefi_refs_of(v.subrange(0, k as int)),
        decreases ops@.len() - k,
    {
        uefi_op_string_ids(&ops[k], &mut out);
        assert(v.subrange(0, k + 1).drop_last() =~= v.subrange(0, k as int));
        k = k + 1;
    }
    assert(v.subrange(0, k as int) =~= v);
    out
}

/// The string package found at `i` of length `n`, if its blocks decode: its
/// language tag and the table its blocks reduce to.
pub open spec fn uefi_string_model(s: Seq<u8>, i: int, n: int) -> Seq<StringModel> {
    let blocks = uefi::sibt_blocks_of(s.subrange(i + 52, i + n));
    if blocks.len() > 0 {
        seq![(i, n, utf8_lossy(s.subrange(i + 46, i + 51)), reduce_ids(blocks).1)]
    } else {
        Seq::empty()
    }
}

/// The UEFI string packages that a linear scan finds from `i` on: at each
/// offset a candidate is tried; after one the scan goes on past its end, else
/// one byte further.
pub open spec fn uefi_string_scan(s: Seq<u8>, i: int) -> Seq<StringModel>
    decreases s.len() - i,
{
    if i < 0 || i >= s.len() {
        Seq::empty()
    } else {
        match uefi::string_candidate_len(s.subrange(i, s.len() as int)) {
            Some(n) => if n > 0 {
                uefi_string_model(s, i, n) + uefi_string_scan(s, i + n)
            } else {
                Seq::empty()
            },
            None => uefi_string_scan(s, i + 1),
        }
    }
}

/// The form package found at `i` of length `n`, if it uses any StringId.
pub open spec fn uefi_form_model(s: Seq<u8>, i: int, n: int) -> Seq<FormModel> {
    let refs = uefi_refs_of(uefi::ifr_ops_of(s.subrange(i + 4, i + n)));
    if refs.len() > 0 {
        seq![(i, n, refs)]
    } else {
        Seq::empty()
    }
}

/// The UEFI form packages that a linear scan finds from `i` on.
pub open spec fn uefi_form_scan(s: Seq<u8>, i: int) -> Seq<FormModel>
    decreases s.len() - i,
{
    if i < 0 || i >= s.len() {
        Seq::empty()
    } else {
        match uefi::form_candidate_len(s.subrange(i, s.len() as int)) {
            Some(n) => if n > 0 {
                uefi_form_model(s, i, n) + uefi_form_scan(s, i + n)
            } else {
                Seq::empty()
            },
            None => uefi_form_scan(s, i + 1),
        }
    }
}

/// The packages that a whole-buffer scan reports match the models, one for
/// one; the two kinds are found independently of each other.
pub open spec fn packages_are(
    r: (Vec<StringPackage>, Vec<FormPackage>),
    ss: Seq<StringModel>,
    fs: Seq<FormModel>,
) -> bool {
    &&& r.0@.len() == ss.len()
    &&& forall|k: int| 0 <= k < ss.len() ==> string_package_is(#[trigger] r.0@[k], ss[k])
    &&& r.1@.len() == fs.len()
    &&& forall|k: int| 0 <= k < fs.len() ==> form_package_is(#[trigger] r.1@[k], fs[k])
}

fn uefi_string_packages(data: &[u8]) -> (r: Vec<StringPackage>)
    ensures
        r@.len() == uefi_string_scan(data@, 0).len(),
        forall|k: int| 0 <= k < r@.len() ==> string_package_is(#[trigger] r@[k], uefi_string_scan(data@, 0)[k]),
{
    let ghost s = data@;
    let mut out: Vec<StringPackage> = Vec::new();
    let mut i: usize = 0;
    let len = data.len();
    let ghost found: Seq<StringModel> = Seq::empty();
    while i < len
        invariant
            i <= len,
            len == s.len(),
            s == data@,
            out@.len() == found.len(),
            forall|k: int| 0 <= k < found.len() ==> string_package_is(#[trigger] out@[k], found[k]),
            found + uefi_string_scan(s, i as int) == uefi_string_scan(s, 0),
        decreases len - i,
    {
        let here = tail(data, i);
        match uefi::hii_string_package_candidate(here) {
            Ok((_, cand)) => {
                let n = cand.len();
                let pkg = uefi::hii_package(cand);
                assert(uefi::header_length(cand@) == n);
                let payload = match pkg {
                    Ok((_, p)) => p.Data,
                    Err(_) => None,
                };
                let payload: &[u8] = match payload {
                    Some(x) => x,
                    None => &[],
                };
                assert(payload@ =~= s.subrange(i + 4, i + n));
                let sp = uefi::hii_string_package(payload);
                assert(crate::bytes::le32(payload@, 0) == crate::bytes::le32(cand@, 4));
                if let Ok((_, sp)) = sp {
                    assert(sp.Data@ =~= s.subrange(i + 52, i + n));
                    assert(payload@.subrange(42, 47) =~= s.subrange(i + 46, i + 51));
                    if let Ok((_, blocks)) = uefi::hii_sibt_blocks(sp.Data) {
                        let m = StringPackage {
                            offset: i,
                            length: n,
                            language: sp.Language,
                            string_id_map: string_id_map(&blocks),
                        };
                        proof {
                            found = found + uefi_string_model(s, i as int, n as int);
                        }
                        out.push(m);
                    } else {
                        assert(uefi_string_model(s, i as int, n as int) =~= Seq::<StringModel>::empty());
                        proof {
                            found = found + uefi_string_model(s, i as int, n as int);
                        }
                    }
                    i = i + n;
                } else {
                    // A candidate's payload always holds the header; were it not
                    // to, the scan would step on as past any other non-match.
                    i = i + 1;
                }
            },
            Err(_) => {
                i = i + 1;
            },
        }
    }
    assert(found + uefi_string_scan(s, i as int) =~= found);
    out
}

fn uefi_form_packages(data: &[u8]) -> (r: Vec<FormPackage>)
    ensures
        r@.len() == uefi_form_scan(data@, 0).len(),
        forall|k: int| 0 <= k < r@.len() ==> form_package_is(#[trigger] r@[k], uefi_form_scan(data@, 0)[k]),
{
    let ghost s = data@;
    let mut out: Vec<FormPackage> = Vec::new();
    let mut i: usize = 0;
    let len = data.len();
    let ghost found: Seq<FormModel> = Seq::empty();
    while i < len
        invariant
            i <= len,
            len == s.len(),
            s == data@,
            out@.len() == found.len(),
            forall|k: int| 0 <= k < found.len() ==> form_package_is(#[trigger] out@[k], found[k]),
            found + uefi_form_scan(s, i as int) == uefi_form_scan(s, 0),
        decreases len - i,
    {
        let here = tail(data, i);
        match uefi::hii_form_package_candidate(here) {
            Ok((_, cand)) => {
                let n = cand.len();
                let pkg = uefi::hii_package(cand);
                assert(uefi::header_length(cand@) == n);
                if let Ok((_, p)) = pkg {
                    let payload = p.Data.unwrap();
                    assert(payload@ =~= s.subrange(i + 4, i + n));
                    let ids = match uefi::ifr_operations(payload) {
                        Ok((_, ops)) => uefi_form_string_ids(&ops),
                        Err(_) => Vec::new(),
                    };
                    assert(ids@ =~= uefi_refs_of(uefi::ifr_ops_of(payload@)));
                    if ids.len() > 0 {
                        let (used, lo, hi) = summarize_string_ids(&ids);
                        out.push(FormPackage { offset: i, length: n, used_strings: used, min_string_id: lo, max_string_id: hi });
                    }
                    proof {
                        found = found + uefi_form_model(s, i as int, n as int);
                    }
                    i = i + n;
                } else {
                    i = i + 1;
                }
            },
            Err(_) => {
                i = i + 1;
            },
        }
    }
    assert(found + uefi_form_scan(s, i as int) =~= found);
    out
}

/// Finds every UEFI HII string package and form package in `data`: each
/// string package with its language and table, each form package that uses
/// any StringId with a summary of those. The two kinds are scanned
/// independently: finding none of one kind leaves the other list as found.
pub fn uefi_find_string_and_form_packages(data: &[u8]) -> (r: (Vec<StringPackage>, Vec<FormPackage>))
    ensures
        packages_are(r, uefi_string_scan(data@, 0), uefi_form_scan(data@, 0)),
{
    let strings = uefi_string_packages(data);
    let forms = uefi_form_packages(data);
    (strings, forms)
}

/// The packages that a scan finds depend on the buffer's bytes alone: the
/// same bytes, scanned again, give the same candidates and the same packages.
pub proof fn lemma_scan_depends_on_bytes_alone(a: Seq<u8>, b: Seq<u8>)
    requires
        a =~= b,
    ensures
        uefi_string_scan(a, 0) == uefi_string_scan(b, 0),
        uefi_form_scan(a, 0) == uefi_form_scan(b, 0),
        framework_string_scan(a, 0) == framework_string_scan(b, 0),
        framework_form_scan(a, 0) == framework_form_scan(b, 0),
{
}

//
// Framework dialect
//
/// The language of a Framework string package: the last string whose pointer
/// is the language-name pointer, or `Invalid` where none is.
pub open spec fn framework_language(ptrs: Seq<u32>, texts: Seq<Seq<char>>, name_ptr: u32) -> Seq<char>
    decreases ptrs.len(),
{
    if ptrs.len() == 0 || texts.len() == 0 {
        "Invalid"@
    } else if ptrs.last() == name_ptr {
        texts.last()
    } else {
        framework_language(ptrs.drop_last(), texts.drop_last(), name_ptr)
    }
}

/// The table of a Framework string package: each string's index is its
/// StringId, for as many strings as StringIds can number.
pub open spec fn framework_entries(texts: Seq<Seq<char>>) -> IdEntries {
    Seq::new(
        if texts.len() > 0x10000 { 0x10000nat } else { texts.len() },
        |k: int| (k as u16, texts[k]),
    )
}

/// The string package found at `i` of length `n`, if its payload decodes.
pub open spec fn framework_string_model(s: Seq<u8>, i: int, n: int) -> Option<StringModel> {
    let p = s.subrange(i + 6, i + n);
    let cnt = crate::bytes::le32(p, 8) as nat;
    if p.len() >= 16 && p.len() >= fw::strings_start(p) && crate::cstr::run_end(p, fw::strings_start(p), cnt, true) is Some {
        let texts = crate::cstr::run_texts(p, fw::strings_start(p), cnt, true);
        Some((i, n, framework_language(fw::u32_run(p, 16, cnt), texts, crate::bytes::le32(p, 0)), framework_entries(texts)))
    } else {
        None
    }
}

/// The Framework string packages that a linear scan finds from `i` on; a
/// candidate whose payload does not decode is passed one byte at a time.
pub open spec fn framework_string_scan(s: Seq<u8>, i: int) -> Seq<StringModel>
    decreases s.len() - i,
{
    if i < 0 || i >= s.len() {
        Seq::empty()
    } else {
        match fw::string_candidate_len(s.subrange(i, s.len() as int)) {
            Some(n) => match framework_string_model(s, i, n) {
                Some(m) => if n > 0 {
                    seq![m] + framework_string_scan(s, i + n)
                } else {
                    Seq::empty()
                },
                None => framework_string_scan(s, i + 1),
            },
            None => framework_string_scan(s, i + 1),
        }
    }
}

/// The StringIds that one Framework operation uses; none when its record does not decode.
pub open spec fn framework_op_refs(op: (F, u8, Seq<u8>)) -> Seq<u16> {
    let d = op.2;
    let n = d.len();
    match op.0 {
        F::Form => if n >= 4 { seq![le16(d, 2)] } else { Seq::empty() },
        F::Subtitle => if n >= 2 { seq![le16(d, 0)] } else { Seq::empty() },
        F::Text => if n >= 9 { prompt_help(d, 0).push(le16(d, 4)) } else { Seq::empty() },
        F::OneOf | F::OrderedList => if n >= 7 { prompt_help(d, 3) } else { Seq::empty() },
        F::CheckBox => if n >= 10 { prompt_help(d, 3) } else { Seq::empty() },
        F::Numeric | F::Date | F::Time => if n >= 18 { prompt_help(d, 3) } else { Seq::empty() },
        F::Password => if n >= 14 { prompt_help(d, 3) } else { Seq::empty() },
        F::String => if n >= 12 { prompt_help(d, 3) } else { Seq::empty() },
        F::OneOfOption => if n >= 7 { seq![le16(d, 0)] } else { Seq::empty() },
        F::FormSet => if n >= 34 { prompt_help(d, 16) } else { Seq::empty() },
        F::Ref | F::SaveDefaults | F::RestoreDefaults => if n >= 9 { prompt_help(d, 2) } else { Seq::empty() },
        F::InconsistentIf => if n >= 3 { seq![le16(d, 0)] } else { Seq::empty() },
        F::Banner => if n >= 5 { seq![le16(d, 0)] } else { Seq::empty() },
        F::Inventory => if n >= 6 { prompt_help(d, 0).push(le16(d, 4)) } else { Seq::empty() },
        _ => Seq::empty(),
    }
}

/// The StringIds that a sequence of Framework operations uses, operation after operation.
pub open spec fn framework_refs_of(ops: Seq<(F, u8, Seq<u8>)>) -> Seq<u16>
    decreases ops.len(),
{
    if ops.len() == 0 {
        Seq::empty()
    } else {
        framework_refs_of(ops.drop_last()) + framework_op_refs(ops.last())
    }
}

/// The form package found at `i` of length `n`, if it uses any StringId.
pub open spec fn framework_form_model(s: Seq<u8>, i: int, n: int) -> Seq<FormModel> {
    let refs = framework_refs_of(fw::ifr_ops_of(s.subrange(i + 6, i + n)));
    if refs.len() > 0 {
        seq![(i, n, refs)]
    } else {
        Seq::empty()
    }
}

/// The Framework form packages that a linear scan finds from `i` on.
pub open spec fn framework_form_scan(s: Seq<u8>, i: int) -> Seq<FormModel>
    decreases s.len() - i,
{
    if i < 0 || i >= s.len() {
        Seq::empty()
    } else {
        match fw::form_candidate_len(s.subrange(i, s.len() as int)) {
            Some(n) => if n > 0 {
                framework_form_model(s, i, n) + framework_form_scan(s, i + n)
            } else {
                Seq::empty()
            },
            None => framework_form_scan(s, i + 1),
        }
    }
}

/// Appends the StringIds that one Framework operation uses.
pub fn framework_op_string_ids(op: &fw::IfrOperation, out: &mut Vec<u16>)
    ensures
        final(out)@ == old(out)@ + framework_op_refs(fw::op_view(*op)),
{
    let d = op.payload();
    let ghost before = out@;
    match op.OpCode {
        F::Form => {
            if let Ok((_, v)) = fw::ifr_form(d) {
                push_one(out, v.TitleStringId);
            }
        },
        F::Subtitle => {
            if let Ok((_, v)) = fw::ifr_subtitle(d) {
                push_one(out, v.SubtitleStringId);
            }
        },
        F::Text => {
            if let Ok((_, v)) = fw::ifr_text(d) {
                push_prompt_help(out, v.HelpStringId, v.TextStringId);
                push_one(out, v.TextTwoStringId);
                assert(out@ =~= before + prompt_help(d@, 0).push(le16(d@, 4)));
            }
        },
        F::OneOf => {
            if let Ok((_, v)) = fw::ifr_one_of(d) {
                push_prompt_help(out, v.PromptStringId, v.HelpStringId);
            }
        },
        F::OrderedList => {
            if let Ok((_, v)) = fw::ifr_ordered_list(d) {
                push_prompt_help(out, v.PromptStringId, v.HelpStringId);
            }
        },
        F::CheckBox => {
            if let Ok((_, v)) = fw::ifr_check_box(d) {
                push_prompt_help(out, v.PromptStringId, v.HelpStringId);
            }
        },
        F::Numeric => {
            if let Ok((_, v)) = fw::ifr_numeric(d) {
                push_prompt_help(out, v.PromptStringId, v.HelpStringId);
            }
        },
        F::Date => {
            if let Ok((_, v)) = fw::ifr_date(d) {
                push_prompt_help(out, v.PromptStringId, v.HelpStringId);
            }
        },
        F::Time => {
            if let Ok((_, v)) = fw::ifr_time(d) {
                push_prompt_help(out, v.PromptStringId, v.HelpStringId);
            }
        },
        F::Password => {
            if let Ok((_, v)) = fw::ifr_password(d) {
                push_prompt_help(out, v.PromptStringId, v.HelpStringId);
            }
        },
        F::String => {
            if let Ok((_, v)) = fw::ifr_string(d) {
                push_prompt_help(out, v.PromptStringId, v.HelpStringId);
            }
        },
        F::OneOfOption => {
            if let Ok((_, v)) = fw::ifr_one_of_option(d) {
                push_one(out, v.OptionStringId);
            }
        },
        F::FormSet => {
            if let Ok((_, v)) = fw::ifr_form_set(d) {
                push_prompt_help(out, v.TitleStringId, v.HelpStringId);
            }
        },
        F::Ref => {
            if let Ok((_, v)) = fw::ifr_ref(d) {
                push_prompt_help(out, v.PromptStringId, v.HelpStringId);
            }
        },
        F::SaveDefaults => {
            if let Ok((_, v)) = fw::ifr_save_defaults(d) {
                push_prompt_help(out, v.PromptStringId, v.HelpStringId);
            }
        },
        F::RestoreDefaults => {
            if let Ok((_, v)) = fw::ifr_restore_defaults(d) {
                push_prompt_help(out, v.PromptStringId, v.HelpStringId);
            }
        },
        F::InconsistentIf => {
            if let Ok((_, v)) = fw::ifr_inconsistent_if(d) {
                push_one(out, v.PopupStringId);
            }
        },
        F::Banner => {
            if let Ok((_, v)) = fw::ifr_banner(d) {
                push_one(out, v.TitleStringId);
            }
        },
        F::Inventory => {
            if let Ok((_, v)) = fw::ifr_inventory(d) {
                push_prompt_help(out, v.HelpStringId, v.TextStringId);
                push_one(out, v.TextTwoStringId);
                assert(out@ =~= before + prompt_help(d@, 0).push(le16(d@, 4)));
            }
        },
        _ => {},
    }
    assert(out@ =~= before + framework_op_refs(fw::op_view(*op)));
}

/// The StringIds that a Framework form's operations use, operation after operation.
pub fn framework_form_string_ids(ops: &Vec<fw::IfrOperation>) -> (r: Vec<u16>)
    ensures
        r@ == framework_refs_of(ops@.map_values(|op: fw::IfrOperation| fw::op_view(op))),
{
    let ghost v = ops@.map_values(|op: fw::IfrOperation| fw::op_view(op));
    let mut out: Vec<u16> = Vec::new();
    let mut k: usize = 0;
    assert(v.subrange(0, 0) =~= Seq::<(F, u8, Seq<u8>)>::empty());
    while k < ops.len()
        invariant
            k <= ops@.len(),
            v == ops@.map_values(|op: fw::IfrOperation| fw::op_view(op)),
            out@ == framework_refs_of(v.subrange(0, k as int)),
        decreases ops@.len() - k,
    {
        framework_op_string_ids(&ops[k], &mut out);
        assert(v.subrange(0, k + 1).drop_last() =~= v.subrange(0, k as int));
        k = k + 1;
    }
    assert(v.subrange(0, k as int) =~= v);
    out
}

/// The language and the table of a decoded Framework string package.
pub fn framework_string_table(p: &fw::HiiStringPackage) -> (r: (String, StringIdMap))
    requires
        p.StringPointers@.len() == p.Strings@.len(),
    ensures
        r.0@ == framework_language(
            p.StringPointers@,
            p.Strings@.map_values(|t: String| t@),
            p.LanguageNameStringOffset,
        ),
        r.1.entries_view() == framework_entries(p.Strings@.map_values(|t: String| t@)),
        r.1.wf(),
{
    let ghost texts = p.Strings@.map_values(|t: String| t@);
    let mut language = "Invalid".to_owned();
    let mut entries: Vec<(u16, String)> = Vec::new();
    let mut k: usize = 0;
    let n = p.Strings.len();
    assert(p.StringPointers@.subrange(0, 0).len() == 0);
    while k < n
        invariant
            k <= n,
            n == p.Strings@.len(),
            p.StringPointers@.len() == n,
            texts == p.Strings@.map_values(|t: String| t@),
            language@ == framework_language(p.StringPointers@.subrange(0, k as int), texts.subrange(0, k as int), p.LanguageNameStringOffset),
            entries@.map_values(|e: (u16, String)| (e.0, e.1@)) == framework_entries(texts.subrange(0, k as int)),
        decreases n - k,
    {
        assert(p.StringPointers@.subrange(0, k + 1).drop_last() =~= p.StringPointers@.subrange(0, k as int));
        assert(texts.subrange(0, k + 1).drop_last() =~= texts.subrange(0, k as int));
        if p.StringPointers[k] == p.LanguageNameStringOffset {
            language = p.Strings[k].clone();
        }
        let ghost before = entries@.map_values(|e: (u16, String)| (e.0, e.1@));
        if k <= 0xFFFF {
            let t = p.Strings[k].clone();
            assert(t@ == texts[k as int]);
            assert(before.len() == k);
            entries.push((k as u16, t));
            assert(entries@.map_values(|e: (u16, String)| (e.0, e.1@)) =~= before.push((k as u16, texts[k as int])));
            assert(entries@.map_values(|e: (u16, String)| (e.0, e.1@)) =~= framework_entries(texts.subrange(0, k + 1)));
        } else {
            assert(before =~= framework_entries(texts.subrange(0, k + 1)));
        }
        k = k + 1;
    }
    assert(texts.subrange(0, n as int) =~= texts);
    assert(p.StringPointers@.subrange(0, n as int) =~= p.StringPointers@);
    let r = StringIdMap { entries };
    assert(r.wf()) by {
        let es = framework_entries(texts);
        assert forall|a: int, b: int| 0 <= a < b < es.len() implies es[a].0 < es[b].0 by {
            assert(es[a].0 == a as u16 && es[b].0 == b as u16);
        }
    }
    (language, r)
}

fn framework_string_packages(data: &[u8]) -> (r: Vec<StringPackage>)
    ensures
        r@.len() == framework_string_scan(data@, 0).len(),
        forall|k: int| 0 <= k < r@.len() ==> string_package_is(#[trigger] r@[k], framework_string_scan(data@, 0)[k]),
{
    let ghost s = data@;
    let mut out: Vec<StringPackage> = Vec::new();
    let mut i: usize = 0;
    let len = data.len();
    let ghost found: Seq<StringModel> = Seq::empty();
    while i < len
        invariant
            i <= len,
            len == s.len(),
            s == data@,
            out@.len() == found.len(),
            forall|k: int| 0 <= k < found.len() ==> string_package_is(#[trigger] out@[k], found[k]),
            found + framework_string_scan(s, i as int) == framework_string_scan(s, 0),
        decreases len - i,
    {
        let here = tail(data, i);
        match fw::hii_string_package_candidate(here) {
            Ok((_, cand)) => {
                let n = cand.len();
                let pkg = fw::hii_package(cand);
                let payload = match pkg {
                    Ok((_, p)) => p.Data,
                    Err(_) => None,
                };
                let payload: &[u8] = match payload {
                    Some(x) => x,
                    None => &[],
                };
                assert(payload@ =~= s.subrange(i + 6, i + n));
                match fw::hii_string_package(payload) {
                    Ok((_, sp)) => {
                        assert(sp.Strings@.map_values(|t: String| t@).len() == sp.Strings@.len());
                        let (language, table) = framework_string_table(&sp);
                        out.push(StringPackage { offset: i, length: n, language, string_id_map: table });
                        proof {
                            found = found + seq![framework_string_model(s, i as int, n as int).unwrap()];
                        }
                        i = i + n;
                    },
                    Err(_) => {
                        i = i + 1;
                    },
                }
            },
            Err(_) => {
                i = i + 1;
            },
        }
    }
    assert(found + framework_string_scan(s, i as int) =~= found);
    out
}

fn framework_form_packages(data: &[u8]) -> (r: Vec<FormPackage>)
    ensures
        r@.len() == framework_form_scan(data@, 0).len(),
        forall|k: int| 0 <= k < r@.len() ==> form_package_is(#[trigger] r@[k], framework_form_scan(data@, 0)[k]),
{
    let ghost s = data@;
    let mut out: Vec<FormPackage> = Vec::new();
    let mut i: usize = 0;
    let len = data.len();
    let ghost found: Seq<FormModel> = Seq::empty();
    while i < len
        invariant
            i <= len,
            len == s.len(),
            s == data@,
            out@.len() == found.len(),
            forall|k: int| 0 <= k < found.len() ==> form_package_is(#[trigger] out@[k], found[k]),
            found + framework_form_scan(s, i as int) == framework_form_scan(s, 0),
        decreases len - i,
    {
        let here = tail(data, i);
        match fw::hii_form_package_candidate(here) {
            Ok((_, cand)) => {
                let n = cand.len();
                if let Ok((_, p)) = fw::hii_package(cand) {
                    let payload = p.Data.unwrap();
                    assert(payload@ =~= s.subrange(i + 6, i + n));
                    let ids = match fw::ifr_operations(payload) {
                        Ok((_, ops)) => framework_form_string_ids(&ops),
                        Err(_) => Vec::new(),
                    };
                    assert(ids@ =~= framework_refs_of(fw::ifr_ops_of(payload@)));
                    if ids.len() > 0 {
                        let (used, lo, hi) = summarize_string_ids(&ids);
                        out.push(FormPackage { offset: i, length: n, used_strings: used, min_string_id: lo, max_string_id: hi });
                    }
                    proof {
                        found = found + framework_form_model(s, i as int, n as int);
                    }
                    i = i + n;
                } else {
                    i = i + 1;
                }
            },
            Err(_) => {
                i = i + 1;
            },
        }
    }
    assert(found + framework_form_scan(s, i as int) =~= found);
    out
}

/// Finds every Framework HII string package and form package in `data`: each
/// string package with its language and table, each form package that uses
/// any StringId with a summary of those. The two kinds are scanned
/// independently: finding none of one kind leaves the other list as found.
pub fn framework_find_string_and_form_packages(data: &[u8]) -> (r: (Vec<StringPackage>, Vec<FormPackage>))
    ensures
        packages_are(r, framework_string_scan(data@, 0), framework_form_scan(data@, 0)),
{
    let strings = framework_string_packages(data);
    let forms = framework_form_packages(data);
    (strings, forms)
}

} // verus!
