//! String tables: the dense StringId -> text map, and the reduction that
//! builds it from a sequence of string information blocks.
use vstd::prelude::*;
use crate::bytes::{bytes_of, le16};
use crate::cstr::{run_end, run_texts, str_end, str_text};
use crate::uefi_parser::{
    block_view, sibt_string_scsu, sibt_string_scsu_font, sibt_string_ucs2, sibt_string_ucs2_font,
    sibt_strings_scsu, sibt_strings_scsu_font, sibt_strings_ucs2, sibt_strings_ucs2_font,
    HiiSibtBlock, HiiSibtType,
};

verus! {

/// Entries of a string table as plain values, in the order they were assigned.
pub type IdEntries = Seq<(u16, Seq<char>)>;

/// Every entry's StringId is above the one before it.
pub open spec fn ids_increasing(es: IdEntries) -> bool {
    forall|i: int, j: int| 0 <= i < j < es.len() ==> es[i].0 < es[j].0
}

/// The text that a table holds for `id`, if any.
pub open spec fn lookup(es: IdEntries, id: u16) -> Option<Seq<char>>
    decreases es.len(),
{
    if es.len() == 0 {
        None
    } else if es[0].0 == id {
        Some(es[0].1)
    } else {
        lookup(es.subrange(1, es.len() as int), id)
    }
}

/// A table from StringId to text, with StringIds in increasing order.
#[derive(Debug)]
pub struct StringIdMap {
    pub entries: Vec<(u16, String)>,
}

impl StringIdMap {
    pub open spec fn entries_view(&self) -> IdEntries {
        self.entries@.map_values(|e: (u16, String)| (e.0, e.1@))
    }

    /// Its StringIds increase from entry to entry, so each StringId has one text at most.
    pub open spec fn wf(&self) -> bool {
        ids_increasing(self.entries_view())
    }

    /// The number of entries.
    pub fn len(&self) -> (r: usize)
        ensures
            r == self.entries_view().len(),
    {
        self.entries.len()
    }

    /// The text stored for `id`.
    pub fn get(&self, id: u16) -> (r: Option<&String>)
        ensures
            match r {
                Some(t) => lookup(self.entries_view(), id) == Some(t@),
                None => lookup(self.entries_view(), id).is_none(),
            },
    {
        let ghost es = self.entries_view();
        let mut k: usize = 0;
        assert(es.subrange(0, es.len() as int) =~= es);
        while k < self.entries.len()
            invariant
                k <= self.entries@.len(),
                es == self.entries_view(),
                lookup(es, id) == lookup(es.subrange(k as int, es.len() as int), id),
            decreases self.entries@.len() - k,
        {
            assert(es.subrange(k as int, es.len() as int).subrange(1, es.len() - k) =~= es.subrange(
                k + 1,
                es.len() as int,
            ));
            if self.entries[k].0 == id {
                return Some(&self.entries[k].1);
            }
            k = k + 1;
        }
        None
    }

    /// The text stored for `id`, or the placeholder `InvalidId` where there is none.
    pub fn text_or_invalid(&self, id: u16) -> (r: String)
        ensures
            r@ == match lookup(self.entries_view(), id) {
                Some(t) => t,
                None => "InvalidId"@,
            },
    {
        match self.get(id) {
            Some(t) => t.clone(),
            None => "InvalidId".to_owned(),
        }
    }
}

/// The state of the reduction: the next StringId, the entries so far, and
/// whether it has stopped (at an End block, or once StringIds ran out).
pub type IdState = (int, IdEntries, bool);

/// StringId 0 is the empty string; the first block's strings start at 1.
pub open spec fn initial_ids() -> IdState {
    (1, seq![(0u16, Seq::<char>::empty())], false)
}

/// Assigns the next StringId to `t`, while StringIds remain.
pub open spec fn add_one(st: IdState, t: Seq<char>) -> IdState {
    if st.0 <= 0xFFFF {
        (st.0 + 1, st.1.push((st.0 as u16, t)), st.2)
    } else {
        st
    }
}

/// Assigns consecutive StringIds to the texts `ts`, in order.
pub open spec fn add_texts(st: IdState, ts: Seq<Seq<char>>) -> IdState
    decreases ts.len(),
{
    if ts.len() == 0 {
        st
    } else {
        add_one(add_texts(st, ts.drop_last()), ts.last())
    }
}

/// Stops the reduction once the next StringId no longer fits in 16 bits.
pub open spec fn settle(st: IdState) -> IdState {
    if st.0 > 0xFFFF {
        (st.0, st.1, true)
    } else {
        st
    }
}

/// The text of a terminated string at `i`, if it is terminated.
pub open spec fn one_text(d: Seq<u8>, i: int, wide: bool) -> Option<Seq<Seq<char>>> {
    match str_end(d, i, wide) {
        Some(e) => Some(seq![str_text(d, i, e, wide)]),
        None => None,
    }
}

/// The texts of a u16 count at `i` and that many terminated strings, if all are there.
pub open spec fn counted_texts(d: Seq<u8>, i: int, wide: bool) -> Option<Seq<Seq<char>>> {
    if d.len() < i + 2 {
        None
    } else {
        match run_end(d, i + 2, le16(d, i) as nat, wide) {
            Some(_) => Some(run_texts(d, i + 2, le16(d, i) as nat, wide)),
            None => None,
        }
    }
}

/// The texts that a literal block holds, if it decodes.
pub open spec fn block_texts(t: HiiSibtType, d: Seq<u8>) -> Option<Seq<Seq<char>>> {
    match t {
        HiiSibtType::StringScsu => one_text(d, 0, false),
        HiiSibtType::StringScsuFont => one_text(d, 1, false),
        HiiSibtType::StringsScsu => counted_texts(d, 0, false),
        HiiSibtType::StringsScsuFont => counted_texts(d, 1, false),
        HiiSibtType::StringUcs2 => one_text(d, 0, true),
        HiiSibtType::StringUcs2Font => one_text(d, 1, true),
        HiiSibtType::StringsUcs2 => counted_texts(d, 0, true),
        HiiSibtType::StringsUcs2Font => counted_texts(d, 1, true),
        _ => None,
    }
}

/// One step of the reduction over a block.
pub open spec fn id_step(st: IdState, b: (HiiSibtType, Seq<u8>)) -> IdState {
    if st.2 {
        st
    } else {
        match b.0 {
            HiiSibtType::End => (st.0, st.1, true),
            HiiSibtType::Duplicate => settle((st.0 + 1, st.1, st.2)),
            HiiSibtType::Skip2 => if b.1.len() >= 2 {
                settle((st.0 + le16(b.1, 0), st.1, st.2))
            } else {
                st
            },
            HiiSibtType::Skip1 => if b.1.len() >= 1 {
                settle((st.0 + b.1[0], st.1, st.2))
            } else {
                st
            },
            _ => match block_texts(b.0, b.1) {
                Some(ts) => settle(add_texts(st, ts)),
                None => st,
            },
        }
    }
}

/// The reduction of a whole block sequence.
pub open spec fn reduce_ids(bs: Seq<(HiiSibtType, Seq<u8>)>) -> IdState
    decreases bs.len(),
{
    if bs.len() == 0 {
        initial_ids()
    } else {
        id_step(reduce_ids(bs.drop_last()), bs.last())
    }
}

/// A state that the reduction can reach: increasing StringIds below the next one.
pub open spec fn id_state_wf(st: IdState) -> bool {
    &&& 1 <= st.0 <= 0x1FFFF
    &&& !st.2 ==> st.0 <= 0xFFFF
    &&& ids_increasing(st.1)
    &&& forall|i: int| 0 <= i < st.1.len() ==> (#[trigger] st.1[i]).0 < st.0
}

/// The running state of the StringId reduction.
#[derive(Debug)]
pub struct StringIdReduction {
    pub next_id: u32,
    pub done: bool,
    pub map: StringIdMap,
}

impl StringIdReduction {
    pub open spec fn state(&self) -> IdState {
        (self.next_id as int, self.map.entries_view(), self.done)
    }

    /// The state before the first block: StringId 0 holds the empty string.
    pub fn new() -> (r: StringIdReduction)
        ensures
            r.state() == initial_ids(),
    {
        let mut entries: Vec<(u16, String)> = Vec::new();
        entries.push((0, String::new()));
        let r = StringIdReduction { next_id: 1, done: false, map: StringIdMap { entries } };
        assert(r.state().1 =~= initial_ids().1);
        r
    }

    fn add_strings(&mut self, ts: &Vec<String>)
        requires
            id_state_wf(old(self).state()),
            !old(self).done,
        ensures
            final(self).state() == add_texts(old(self).state(), ts@.map_values(|t: String| t@)),
            final(self).next_id <= 0x10000,
            ids_increasing(final(self).state().1),
            forall|i: int|
                0 <= i < final(self).state().1.len() ==> (#[trigger] final(self).state().1[i]).0
                    < final(self).next_id,
            1 <= final(self).next_id,
            !final(self).done,
    {
        let ghost st0 = self.state();
        let ghost tv = ts@.map_values(|t: String| t@);
        let mut k: usize = 0;
        assert(tv.subrange(0, 0) =~= Seq::<Seq<char>>::empty());
        while k < ts.len()
            invariant
                k <= ts@.len(),
                tv == ts@.map_values(|t: String| t@),
                self.state() == add_texts(st0, tv.subrange(0, k as int)),
                !self.done,
                1 <= self.next_id <= 0x10000,
                ids_increasing(self.state().1),
                forall|i: int|
                    0 <= i < self.state().1.len() ==> (#[trigger] self.state().1[i]).0
                        < self.next_id,
            decreases ts@.len() - k,
        {
            let ghost prev = self.state();
            assert(tv.subrange(0, k + 1).drop_last() =~= tv.subrange(0, k as int));
            if self.next_id <= 0xFFFF {
                let id = self.next_id as u16;
                self.map.entries.push((id, ts[k].clone()));
                self.next_id = self.next_id + 1;
                assert(self.state().1 =~= prev.1.push((prev.0 as u16, tv[k as int])));
            }
            k = k + 1;
        }
        assert(tv.subrange(0, k as int) =~= tv);
    }

    /// Takes one block into the reduction.
    pub fn step(&mut self, block: &HiiSibtBlock)
        requires
            id_state_wf(old(self).state()),
        ensures
            final(self).state() == id_step(old(self).state(), block_view(*block)),
            id_state_wf(final(self).state()),
    {
        if self.done {
            return;
        }
        let ghost st0 = self.state();
        let ghost bv = block_view(*block);
        let d: &[u8] = match block.Data {
            Some(x) => x,
            None => &[],
        };
        assert(d@ == bytes_of(block.Data));
        match block.Type {
            HiiSibtType::End => {
                self.done = true;
                assert(self.state() == id_step(st0, bv));
            },
            HiiSibtType::Duplicate => {
                self.next_id = self.next_id + 1;
                self.settle();
                assert(self.state() == id_step(st0, bv));
            },
            HiiSibtType::Skip2 => {
                if d.len() >= 2 {
                    self.next_id = self.next_id + crate::bytes::read_u16(d, 0) as u32;
                    self.settle();
                }
            },
            HiiSibtType::Skip1 => {
                if d.len() >= 1 {
                    self.next_id = self.next_id + d[0] as u32;
                    self.settle();
                }
            },
            HiiSibtType::StringScsu | HiiSibtType::StringScsuFont | HiiSibtType::StringUcs2
            | HiiSibtType::StringUcs2Font => {
                let r = match block.Type {
                    HiiSibtType::StringScsu => sibt_string_scsu(d),
                    HiiSibtType::StringScsuFont => sibt_string_scsu_font(d),
                    HiiSibtType::StringUcs2 => sibt_string_ucs2(d),
                    _ => sibt_string_ucs2_font(d),
                };
                if let Ok((_, t)) = r {
                    let ghost tview = t@;
                    let mut ts: Vec<String> = Vec::new();
                    ts.push(t);
                    assert(ts@.map_values(|t: String| t@) =~= seq![tview]);
                    self.add_strings(&ts);
                    self.settle();
                    assert(self.state() == id_step(st0, bv));
                }
            },
            HiiSibtType::StringsScsu | HiiSibtType::StringsScsuFont | HiiSibtType::StringsUcs2
            | HiiSibtType::StringsUcs2Font => {
                let r = match block.Type {
                    HiiSibtType::StringsScsu => sibt_strings_scsu(d),
                    HiiSibtType::StringsScsuFont => sibt_strings_scsu_font(d),
                    HiiSibtType::StringsUcs2 => sibt_strings_ucs2(d),
                    _ => sibt_strings_ucs2_font(d),
                };
                if let Ok((_, ts)) = r {
                    self.add_strings(&ts);
                    self.settle();
                    assert(self.state() == id_step(st0, bv));
                }
            },
            _ => {},
        }
    }

    fn settle(&mut self)
        ensures
            final(self).state() == settle(old(self).state()),
    {
        if self.next_id > 0xFFFF {
            self.done = true;
        }
    }
}

/// Reduces a block sequence to its string table: StringId 0 is the empty
/// string, and each literal string takes the next StringId in block order.
pub fn string_id_map(blocks: &Vec<HiiSibtBlock>) -> (r: StringIdMap)
    ensures
        r.entries_view() == reduce_ids(blocks@.map_values(|b: HiiSibtBlock| block_view(b))).1,
        r.wf(),
{
    let ghost bs = blocks@.map_values(|b: HiiSibtBlock| block_view(b));
    let mut st = StringIdReduction::new();
    let mut k: usize = 0;
    assert(bs.subrange(0, 0) =~= Seq::<(HiiSibtType, Seq<u8>)>::empty());
    while k < blocks.len()
        invariant
            k <= blocks@.len(),
            bs == blocks@.map_values(|b: HiiSibtBlock| block_view(b)),
            st.state() == reduce_ids(bs.subrange(0, k as int)),
            id_state_wf(st.state()),
        decreases blocks@.len() - k,
    {
        assert(bs.subrange(0, k + 1).drop_last() =~= bs.subrange(0, k as int));
        st.step(&blocks[k]);
        k = k + 1;
    }
    assert(bs.subrange(0, k as int) =~= bs);
    st.map
}

/// One state's entries begin another's, and its next StringId is no larger.
pub open spec fn id_state_grows(a: IdState, b: IdState) -> bool {
    a.0 <= b.0 && a.1.len() <= b.1.len() && b.1.subrange(0, a.1.len() as int) == a.1
}

proof fn lemma_add_texts_grows(st: IdState, ts: Seq<Seq<char>>)
    ensures
        id_state_grows(st, add_texts(st, ts)),
        add_texts(st, ts).2 == st.2,
    decreases ts.len(),
{
    assert(st.1.subrange(0, st.1.len() as int) =~= st.1);
    if ts.len() > 0 {
        lemma_add_texts_grows(st, ts.drop_last());
        let p = add_texts(st, ts.drop_last());
        let q = add_one(p, ts.last());
        assert(q.1.subrange(0, st.1.len() as int) =~= p.1.subrange(0, st.1.len() as int));
    }
}

proof fn lemma_step_grows(st: IdState, b: (HiiSibtType, Seq<u8>))
    ensures
        id_state_grows(st, id_step(st, b)),
{
    assert(st.1.subrange(0, st.1.len() as int) =~= st.1);
    match block_texts(b.0, b.1) {
        Some(ts) => lemma_add_texts_grows(st, ts),
        None => {},
    }
}

/// The reduction never assigns a decreasing or repeated StringId: for any two
/// prefixes of a block sequence, the shorter one's next StringId is no larger
/// than the longer one's, and the entries it assigned stand unchanged at the
/// front of the longer one's entries.
pub proof fn lemma_next_id_monotonic(bs: Seq<(HiiSibtType, Seq<u8>)>, i: int, j: int)
    requires
        0 <= i <= j <= bs.len(),
    ensures
        id_state_grows(reduce_ids(bs.subrange(0, i)), reduce_ids(bs.subrange(0, j))),
    decreases j - i,
{
    let a = reduce_ids(bs.subrange(0, i));
    assert(a.1.subrange(0, a.1.len() as int) =~= a.1);
    if i < j {
        lemma_next_id_monotonic(bs, i, j - 1);
        assert(bs.subrange(0, j).drop_last() =~= bs.subrange(0, j - 1));
        let p = reduce_ids(bs.subrange(0, j - 1));
        lemma_step_grows(p, bs[j - 1]);
        let q = reduce_ids(bs.subrange(0, j));
        assert(q.1.subrange(0, a.1.len() as int) =~= p.1.subrange(0, a.1.len() as int));
    }
}

} // verus!
