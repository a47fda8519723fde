//! Nesting depth of operations in a rendered form.
use vstd::prelude::*;
use crate::framework_parser as fw;
use crate::framework_parser::IfrOpcode as F;
use crate::uefi_parser as uefi;
use crate::uefi_parser::IfrOpcode as U;

verus! {

/// The depth at which a UEFI operation is shown: an End operation closes the
/// scope it ends before it is shown.
pub open spec fn uefi_shown_depth(depth: int, op: (U, u8, bool, Seq<u8>)) -> int {
    if op.0 == U::End && depth >= 1 {
        depth - 1
    } else {
        depth
    }
}

/// The depth after a sequence of UEFI operations: each operation that starts
/// a scope opens one level after it is shown.
pub open spec fn uefi_depth_after(ops: Seq<(U, u8, bool, Seq<u8>)>) -> int
    decreases ops.len(),
{
    if ops.len() == 0 {
        0
    } else {
        uefi_shown_depth(uefi_depth_after(ops.drop_last()), ops.last()) + if ops.last().2 {
            1int
        } else {
            0int
        }
    }
}

/// The depth at which each UEFI operation is shown.
pub fn uefi_scope_depths(ops: &Vec<uefi::IfrOperation>) -> (r: Vec<usize>)
    ensures
        r@.len() == ops@.len(),
        forall|k: int|
            0 <= k < r@.len() ==> r@[k] == uefi_shown_depth(
                uefi_depth_after(ops@.map_values(|op: uefi::IfrOperation| uefi::op_view(op)).subrange(0, k)),
                uefi::op_view(ops@[k]),
            ),
{
    let ghost v = ops@.map_values(|op: uefi::IfrOperation| uefi::op_view(op));
    let mut out: Vec<usize> = Vec::new();
    let mut depth: usize = 0;
    let mut k: usize = 0;
    assert(v.subrange(0, 0) =~= Seq::<(U, u8, bool, Seq<u8>)>::empty());
    while k < ops.len()
        invariant
            k <= ops@.len(),
            v == ops@.map_values(|op: uefi::IfrOperation| uefi::op_view(op)),
            out@.len() == k,
            depth == uefi_depth_after(v.subrange(0, k as int)),
            depth <= k,
            forall|j: int| 0 <= j < k ==> out@[j] == uefi_shown_depth(uefi_depth_after(v.subrange(0, j)), v[j]),
        decreases ops@.len() - k,
    {
        if ops[k].OpCode == U::End && depth >= 1 {
            depth = depth - 1;
        }
        out.push(depth);
        if ops[k].ScopeStart {
            depth = depth + 1;
        }
        assert(v.subrange(0, k + 1).drop_last() =~= v.subrange(0, k as int));
        k = k + 1;
    }
    out
}

/// The depth at which a Framework operation is shown: EndForm and EndFormSet
/// close a level before they are shown.
pub open spec fn framework_shown_depth(depth: int, op: (F, u8, Seq<u8>)) -> int {
    if (op.0 == F::EndForm || op.0 == F::EndFormSet) && depth >= 1 {
        depth - 1
    } else {
        depth
    }
}

/// The depth after a sequence of Framework operations: Form and FormSet open
/// a level after they are shown.
pub open spec fn framework_depth_after(ops: Seq<(F, u8, Seq<u8>)>) -> int
    decreases ops.len(),
{
    if ops.len() == 0 {
        0
    } else {
        framework_shown_depth(framework_depth_after(ops.drop_last()), ops.last()) + if ops.last().0
            == F::Form || ops.last().0 == F::FormSet {
            1int
        } else {
            0int
        }
    }
}

/// The depth at which each Framework operation is shown.
pub fn framework_scope_depths(ops: &Vec<fw::IfrOperation>) -> (r: Vec<usize>)
    ensures
        r@.len() == ops@.len(),
        forall|k: int|
            0 <= k < r@.len() ==> r@[k] == framework_shown_depth(
                framework_depth_after(ops@.map_values(|op: fw::IfrOperation| fw::op_view(op)).subrange(0, k)),
                fw::op_view(ops@[k]),
            ),
{
    let ghost v = ops@.map_values(|op: fw::IfrOperation| fw::op_view(op));
    let mut out: Vec<usize> = Vec::new();
    let mut depth: usize = 0;
    let mut k: usize = 0;
    assert(v.subrange(0, 0) =~= Seq::<(F, u8, Seq<u8>)>::empty());
    while k < ops.len()
        invariant
            k <= ops@.len(),
            v == ops@.map_values(|op: fw::IfrOperation| fw::op_view(op)),
            out@.len() == k,
            depth == framework_depth_after(v.subrange(0, k as int)),
            depth <= k,
            forall|j: int| 0 <= j < k ==> out@[j] == framework_shown_depth(framework_depth_after(v.subrange(0, j)), v[j]),
        decreases ops@.len() - k,
    {
        let op = ops[k].OpCode;
        if (op == F::EndForm || op == F::EndFormSet) && depth >= 1 {
            depth = depth - 1;
        }
        out.push(depth);
        if op == F::Form || op == F::FormSet {
            depth = depth + 1;
        }
        assert(v.subrange(0, k + 1).drop_last() =~= v.subrange(0, k as int));
        k = k + 1;
    }
    out
}

} // verus!
