//! The 128-bit GUID, its wire layout and its canonical text form.
use vstd::prelude::*;
use crate::text::string_from_chars;
use crate::bytes::{fixed_outcome, le16, le32, read_u16, read_u32, read_u8, tail, ParseError};

verus! {

#[derive(Debug, PartialEq, Eq, Copy, Clone)]
pub struct Guid {
    pub data1: u32,
    pub data2: u16,
    pub data3: u16,
    pub data4: [u8; 8],
}

/// The GUID laid out in the 16 bytes of `s` at `i`.
pub open spec fn guid_at(s: Seq<u8>, i: int) -> Guid {
    Guid {
        data1: le32(s, i),
        data2: le16(s, i + 4),
        data3: le16(s, i + 6),
        data4: [s[i + 8], s[i + 9], s[i + 10], s[i + 11], s[i + 12], s[i + 13], s[i + 14], s[i + 15]],
    }
}

/// Reads the GUID stored in the 16 bytes of `s` at `i`.
pub fn read_guid(s: &[u8], i: usize) -> (r: Guid)
    requires
        i + 16 <= s@.len(),
    ensures
        r == guid_at(s@, i as int),
{
    // The length fits in a usize, so the offsets below cannot overflow.
    let _len = s.len();
    let d1 = read_u32(s, i);
    let d2 = read_u16(s, i + 4);
    let d3 = read_u16(s, i + 6);
    let d4 = [
        read_u8(s, i + 8),
        read_u8(s, i + 9),
        read_u8(s, i + 10),
        read_u8(s, i + 11),
        read_u8(s, i + 12),
        read_u8(s, i + 13),
        read_u8(s, i + 14),
        read_u8(s, i + 15),
    ];
    let r = Guid { data1: d1, data2: d2, data3: d3, data4: d4 };
    assert(r.data4@ =~= guid_at(s@, i as int).data4@);
    r
}

/// Decodes a GUID from the first 16 bytes of `input`.
pub fn guid(input: &[u8]) -> (r: Result<(&[u8], Guid), ParseError>)
    ensures
        fixed_outcome(input@, r, 16, guid_at(input@, 0)),
{
    if input.len() < 16 {
        return Err(ParseError::Incomplete);
    }
    Ok((tail(input, 16), read_guid(input, 0)))
}

/// The upper-case hexadecimal digit for `d` (below 16).
pub open spec fn hex_digit(d: nat) -> char {
    if d < 10 {
        ((48 + d) as u8) as char
    } else {
        ((55 + d) as u8) as char
    }
}

/// The last `width` hexadecimal digits of `v`, most significant first.
pub open spec fn hex_text(v: nat, width: nat) -> Seq<char>
    decreases width,
{
    if width == 0 {
        Seq::empty()
    } else {
        hex_text(v / 16, (width - 1) as nat).push(hex_digit(v % 16))
    }
}

/// The canonical text of a GUID: `XXXXXXXX-XXXX-XXXX-XXXX-XXXXXXXXXXXX`.
pub open spec fn guid_text(g: Guid) -> Seq<char> {
    hex_text(g.data1 as nat, 8) + seq!['-'] + hex_text(g.data2 as nat, 4) + seq!['-']
        + hex_text(g.data3 as nat, 4) + seq!['-'] + hex_text(g.data4[0] as nat, 2)
        + hex_text(g.data4[1] as nat, 2) + seq!['-'] + hex_text(g.data4[2] as nat, 2)
        + hex_text(g.data4[3] as nat, 2) + hex_text(g.data4[4] as nat, 2)
        + hex_text(g.data4[5] as nat, 2) + hex_text(g.data4[6] as nat, 2)
        + hex_text(g.data4[7] as nat, 2)
}

fn push_hex(out: &mut Vec<char>, v: u64, width: usize)
    ensures
        final(out)@ == old(out)@ + hex_text(v as nat, width as nat),
    decreases width,
{
    if width == 0 {
        assert(old(out)@ + hex_text(v as nat, 0) =~= old(out)@);
        return;
    }
    push_hex(out, v / 16, width - 1);
    let d = (v % 16) as u8;
    let c = if d < 10 {
        (48 + d) as char
    } else {
        (55 + d) as char
    };
    out.push(c);
    assert(final(out)@ =~= old(out)@ + hex_text(v as nat, width as nat));
}

/// Both GUIDs have the same four fields.
pub open spec fn same_guid(a: Guid, b: Guid) -> bool {
    a.data1 == b.data1 && a.data2 == b.data2 && a.data3 == b.data3 && a.data4@ == b.data4@
}

/// Compares two GUIDs field by field.
pub fn guid_eq(a: &Guid, b: &Guid) -> (r: bool)
    ensures
        r == same_guid(*a, *b),
{
    let mut k: usize = 0;
    while k < 8
        invariant
            k <= 8,
            forall|j: int| 0 <= j < k ==> a.data4@[j] == b.data4@[j],
        decreases 8 - k,
    {
        if a.data4[k] != b.data4[k] {
            return false;
        }
        k = k + 1;
    }
    assert(a.data4@ =~= b.data4@);
    a.data1 == b.data1 && a.data2 == b.data2 && a.data3 == b.data3
}

impl Guid {
    /// The canonical upper-case text form of the GUID.
    pub fn to_string(&self) -> (r: String)
        ensures
            r@ == guid_text(*self),
    {
        let mut out: Vec<char> = Vec::new();
        push_hex(&mut out, self.data1 as u64, 8);
        out.push('-');
        push_hex(&mut out, self.data2 as u64, 4);
        out.push('-');
        push_hex(&mut out, self.data3 as u64, 4);
        out.push('-');
        push_hex(&mut out, self.data4[0] as u64, 2);
        push_hex(&mut out, self.data4[1] as u64, 2);
        out.push('-');
        push_hex(&mut out, self.data4[2] as u64, 2);
        push_hex(&mut out, self.data4[3] as u64, 2);
        push_hex(&mut out, self.data4[4] as u64, 2);
        push_hex(&mut out, self.data4[5] as u64, 2);
        push_hex(&mut out, self.data4[6] as u64, 2);
        push_hex(&mut out, self.data4[7] as u64, 2);
        assert(out@ =~= guid_text(*self));
        string_from_chars(out.as_slice())
    }
}

/// The value of a hexadecimal digit character (upper-case letters).
pub open spec fn digit_value(c: char) -> int {
    if (c as u32) < 58 {
        c as u32 - 48
    } else {
        c as u32 - 55
    }
}

/// The character is a digit or an upper-case letter from A to F.
pub open spec fn is_hex_digit(c: char) -> bool {
    (48 <= (c as u32) <= 57) || (65 <= (c as u32) <= 70)
}

/// The value of a run of hexadecimal digits, most significant first.
pub open spec fn hex_value(t: Seq<char>) -> int
    decreases t.len(),
{
    if t.len() == 0 {
        0
    } else {
        16 * hex_value(t.drop_last()) + digit_value(t.last())
    }
}

/// The values below which `width` hexadecimal digits suffice.
pub open spec fn hex_limit(width: nat) -> int
    decreases width,
{
    if width == 0 {
        1
    } else {
        16 * hex_limit((width - 1) as nat)
    }
}

/// Writing a value in `width` hexadecimal digits and reading them back gives
/// the value again, when the digits suffice for it.
pub proof fn lemma_hex_round_trip(v: nat, width: nat)
    requires
        v < hex_limit(width),
    ensures
        hex_text(v, width).len() == width,
        forall|i: int| 0 <= i < width ==> is_hex_digit(#[trigger] hex_text(v, width)[i]),
        hex_value(hex_text(v, width)) == v,
    decreases width,
{
    if width > 0 {
        let l = hex_limit((width - 1) as nat);
        assert(v / 16 < l) by (nonlinear_arith)
            requires
                v < 16 * l,
                l >= 1,
        {
        }
        lemma_hex_limit_positive((width - 1) as nat);
        lemma_hex_round_trip(v / 16, (width - 1) as nat);
        let t = hex_text(v, width);
        assert(t.drop_last() =~= hex_text(v / 16, (width - 1) as nat));
    } else {
        assert(v == 0);
    }
}

proof fn lemma_hex_limit_positive(width: nat)
    ensures
        hex_limit(width) >= 1,
    decreases width,
{
    if width > 0 {
        lemma_hex_limit_positive((width - 1) as nat);
    }
}

/// Formatting a GUID and reading the text back gives the GUID: the text has 36
/// characters, dashes at 8, 13, 18 and 23, hexadecimal digits elsewhere, and
/// its digit groups read back as `data1`, `data2`, `data3` and the eight
/// `data4` bytes in order.
pub proof fn lemma_guid_text_round_trip(g: Guid)
    ensures
        guid_text(g).len() == 36,
        guid_text(g)[8] == '-' && guid_text(g)[13] == '-' && guid_text(g)[18] == '-'
            && guid_text(g)[23] == '-',
        forall|i: int|
            0 <= i < 36 && i != 8 && i != 13 && i != 18 && i != 23 ==> is_hex_digit(
                #[trigger] guid_text(g)[i],
            ),
        hex_value(guid_text(g).subrange(0, 8)) == g.data1,
        hex_value(guid_text(g).subrange(9, 13)) == g.data2,
        hex_value(guid_text(g).subrange(14, 18)) == g.data3,
        hex_value(guid_text(g).subrange(19, 21)) == g.data4[0],
        hex_value(guid_text(g).subrange(21, 23)) == g.data4[1],
        forall|k: int|
            2 <= k < 8 ==> hex_value(guid_text(g).subrange(24 + 2 * (k - 2), 26 + 2 * (k - 2)))
                == #[trigger] g.data4[k],
{
    reveal_with_fuel(hex_limit, 9);
    assert(hex_limit(2) == 0x100);
    assert(hex_limit(4) == 0x10000);
    assert(hex_limit(8) == 0x1_0000_0000);
    let a = hex_text(g.data1 as nat, 8);
    let b = hex_text(g.data2 as nat, 4);
    let c = hex_text(g.data3 as nat, 4);
    let d = Seq::new(8, |k: int| hex_text(g.data4[k] as nat, 2));
    lemma_hex_round_trip(g.data1 as nat, 8);
    lemma_hex_round_trip(g.data2 as nat, 4);
    lemma_hex_round_trip(g.data3 as nat, 4);
    assert forall|k: int| 0 <= k < 8 implies {
        &&& (#[trigger] d[k]).len() == 2
        &&& hex_value(d[k]) == g.data4[k]
        &&& is_hex_digit(d[k][0]) && is_hex_digit(d[k][1])
    } by {
        lemma_hex_round_trip(g.data4[k] as nat, 2);
    }
    let t = guid_text(g);
    assert(t =~= a + seq!['-'] + b + seq!['-'] + c + seq!['-'] + d[0] + d[1] + seq!['-'] + d[2]
        + d[3] + d[4] + d[5] + d[6] + d[7]);
    assert(t.subrange(0, 8) =~= a);
    assert(t.subrange(9, 13) =~= b);
    assert(t.subrange(14, 18) =~= c);
    assert(t.subrange(19, 21) =~= d[0]);
    assert(t.subrange(21, 23) =~= d[1]);
    assert forall|k: int| 2 <= k < 8 implies hex_value(t.subrange(24 + 2 * (k - 2), 26 + 2 * (k - 2)))
        == #[trigger] g.data4[k] by {
        assert(t.subrange(24 + 2 * (k - 2), 26 + 2 * (k - 2)) =~= d[k]);
    }
    assert forall|i: int|
        0 <= i < 36 && i != 8 && i != 13 && i != 18 && i != 23 implies is_hex_digit(
        #[trigger] t[i],
    ) by {
        if i < 8 {
            assert(t[i] == a[i]);
        } else if i < 13 {
            assert(t[i] == b[i - 9]);
        } else if i < 18 {
            assert(t[i] == c[i - 14]);
        } else if i < 23 {
            let k = (i - 19) / 2;
            assert(t[i] == d[k][i - 19 - 2 * k]);
        } else {
            let k = 2 + (i - 24) / 2;
            assert(t[i] == d[k][i - 24 - 2 * (k - 2)]);
        }
    }
}

} // verus!
