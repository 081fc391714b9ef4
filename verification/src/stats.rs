//! The counters that the kernel keeps of its connection tracking, one record
//! for each CPU.

use crate::attr::raw_views;
use crate::attr::RawAttr;
use crate::attr::RawAttrView;
use vstd::prelude::*;

verus! {

/// The statistics of one CPU. The five optional counters are no longer kept
/// by the kernel: they are accepted from the wire and left out.
#[derive(Debug, Clone, Copy, PartialEq, Eq)]
pub struct Stats {
    pub cpu: u16,
    pub searched: Option<u32>,
    pub found: u32,
    pub new: Option<u32>,
    pub invalid: u32,
    pub ignore: Option<u32>,
    pub delete: Option<u32>,
    pub delete_list: Option<u32>,
    pub insert: u32,
    pub insert_failed: u32,
    pub drop: u32,
    pub early_drop: u32,
    pub error: u32,
    pub search_restart: u32,
    pub clash_resolve: u32,
    pub chain_too_long: u32,
}

/// The number of the attribute that carries the count of tracked entries in
/// the answer to a count request, and the unused `searched` counter in the
/// statistics of a CPU.
pub const STAT_SEARCHED: u16 = 1;

/// The number of the attribute with the counter found.
pub const STAT_FOUND: u16 = 2;

/// The number of the attribute with the counter new, which is no longer kept.
pub const STAT_NEW: u16 = 3;

/// The number of the attribute with the counter invalid.
pub const STAT_INVALID: u16 = 4;

/// The number of the attribute with the counter ignore, which is no longer kept.
pub const STAT_IGNORE: u16 = 5;

/// The number of the attribute with the counter delete, which is no longer kept.
pub const STAT_DELETE: u16 = 6;

/// The number of the attribute with the counter delete-list, which is no longer kept.
pub const STAT_DELETE_LIST: u16 = 7;

/// The number of the attribute with the counter insert.
pub const STAT_INSERT: u16 = 8;

/// The number of the attribute with the counter insert-failed.
pub const STAT_INSERT_FAILED: u16 = 9;

/// The number of the attribute with the counter drop.
pub const STAT_DROP: u16 = 10;

/// The number of the attribute with the counter early-drop.
pub const STAT_EARLY_DROP: u16 = 11;

/// The number of the attribute with the counter error.
pub const STAT_ERROR: u16 = 12;

/// The number of the attribute with the counter search-restart.
pub const STAT_SEARCH_RESTART: u16 = 13;

/// The number of the attribute with the counter clash-resolve.
pub const STAT_CLASH_RESOLVE: u16 = 14;

/// The number of the attribute with the counter chain-too-long.
pub const STAT_CHAIN_TOO_LONG: u16 = 15;

impl Stats {
    /// The record of a CPU before any counter was read: all are zero.
    pub open spec fn zero(cpu: u16) -> Stats {
        Stats {
            cpu,
            searched: None,
            found: 0,
            new: None,
            invalid: 0,
            ignore: None,
            delete: None,
            delete_list: None,
            insert: 0,
            insert_failed: 0,
            drop: 0,
            early_drop: 0,
            error: 0,
            search_restart: 0,
            clash_resolve: 0,
            chain_too_long: 0,
        }
    }

    /// The record after one attribute. An attribute whose value is a 32-bit
    /// number sets the counter of its number; the counters that are no longer
    /// kept, unknown numbers and values of another size change nothing.
    pub open spec fn with_attr(self, a: RawAttrView) -> Stats {
        match a.number_value() {
            None => self,
            Some(v) => {
                let n = a.number();
                if n == STAT_FOUND {
                    Stats { found: v, ..self }
                } else if n == STAT_INVALID {
                    Stats { invalid: v, ..self }
                } else if n == STAT_INSERT {
                    Stats { insert: v, ..self }
                } else if n == STAT_INSERT_FAILED {
                    Stats { insert_failed: v, ..self }
                } else if n == STAT_DROP {
                    Stats { drop: v, ..self }
                } else if n == STAT_EARLY_DROP {
                    Stats { early_drop: v, ..self }
                } else if n == STAT_ERROR {
                    Stats { error: v, ..self }
                } else if n == STAT_SEARCH_RESTART {
                    Stats { search_restart: v, ..self }
                } else if n == STAT_CLASH_RESOLVE {
                    Stats { clash_resolve: v, ..self }
                } else if n == STAT_CHAIN_TOO_LONG {
                    Stats { chain_too_long: v, ..self }
                } else {
                    self
                }
            },
        }
    }

    /// The record after the attributes, taken in their order: of each
    /// counter the value given last stands.
    pub open spec fn with_attrs(self, s: Seq<RawAttrView>) -> Stats
        decreases s.len(),
    {
        if s.len() == 0 {
            self
        } else {
            self.with_attr(s[0]).with_attrs(s.skip(1))
        }
    }

    /// The record after one attribute.
    pub fn absorb(self, a: &RawAttr) -> (r: Stats)
        ensures
            r == self.with_attr(a@),
    {
        match a.number_value() {
            None => self,
            Some(v) => {
                let n = a.number();
                if n == STAT_FOUND {
                    Stats { found: v, ..self }
                } else if n == STAT_INVALID {
                    Stats { invalid: v, ..self }
                } else if n == STAT_INSERT {
                    Stats { insert: v, ..self }
                } else if n == STAT_INSERT_FAILED {
                    Stats { insert_failed: v, ..self }
                } else if n == STAT_DROP {
                    Stats { drop: v, ..self }
                } else if n == STAT_EARLY_DROP {
                    Stats { early_drop: v, ..self }
                } else if n == STAT_ERROR {
                    Stats { error: v, ..self }
                } else if n == STAT_SEARCH_RESTART {
                    Stats { search_restart: v, ..self }
                } else if n == STAT_CLASH_RESOLVE {
                    Stats { clash_resolve: v, ..self }
                } else if n == STAT_CHAIN_TOO_LONG {
                    Stats { chain_too_long: v, ..self }
                } else {
                    self
                }
            },
        }
    }

    /// The statistics of a CPU, read from the attributes of its message.
    pub fn from_nlas(cpu: u16, nlas: &Vec<RawAttr>) -> (r: Stats)
        ensures
            r == Stats::zero(cpu).with_attrs(raw_views(nlas@)),
    {
        let mut stats = Stats {
            cpu,
            searched: None,
            found: 0,
            new: None,
            invalid: 0,
            ignore: None,
            delete: None,
            delete_list: None,
            insert: 0,
            insert_failed: 0,
            drop: 0,
            early_drop: 0,
            error: 0,
            search_restart: 0,
            clash_resolve: 0,
            chain_too_long: 0,
        };
        let ghost s = raw_views(nlas@);
        let mut i: usize = 0;
        assert(s.skip(0) =~= s);
        while i < nlas.len()
            invariant
                i <= nlas.len(),
                s == raw_views(nlas@),
                Stats::zero(cpu).with_attrs(s) == stats.with_attrs(s.skip(i as int)),
            decreases nlas.len() - i,
        {
            assert(s.skip(i as int).skip(1) =~= s.skip(i + 1));
            assert(s.skip(i as int)[0] == nlas@[i as int]@);
            stats = stats.absorb(&nlas[i]);
            i = i + 1;
        }
        stats
    }
}

/// The first count that the attributes give: the value of the first
/// attribute of number 1 that is a 32-bit number.
pub open spec fn first_count(s: Seq<RawAttrView>) -> Option<u32>
    decreases s.len(),
{
    if s.len() == 0 {
        None
    } else if s[0].number() == STAT_SEARCHED && s[0].number_value() is Some {
        s[0].number_value()
    } else {
        first_count(s.skip(1))
    }
}

/// The count of tracked entries that the attributes of an answer give.
pub fn counter(nlas: &Vec<RawAttr>) -> (r: Option<u32>)
    ensures
        r == first_count(raw_views(nlas@)),
{
    let ghost s = raw_views(nlas@);
    let mut i: usize = 0;
    assert(s.skip(0) =~= s);
    while i < nlas.len()
        invariant
            i <= nlas.len(),
            s == raw_views(nlas@),
            first_count(s) == first_count(s.skip(i as int)),
        decreases nlas.len() - i,
    {
        assert(s.skip(i as int).skip(1) =~= s.skip(i + 1));
        assert(s.skip(i as int)[0] == nlas@[i as int]@);
        if nlas[i].number() == STAT_SEARCHED {
            match nlas[i].number_value() {
                Some(v) => {
                    return Some(v);
                },
                None => {},
            }
        }
        i = i + 1;
    }
    None
}

/// The CPU of a record is the one it was read for, and the counters that are
/// no longer kept are never set.
pub proof fn law_stats_unused(cpu: u16, s: Seq<RawAttrView>)
    ensures
        Stats::zero(cpu).with_attrs(s).cpu == cpu,
        Stats::zero(cpu).with_attrs(s).searched is None,
        Stats::zero(cpu).with_attrs(s).new is None,
        Stats::zero(cpu).with_attrs(s).ignore is None,
        Stats::zero(cpu).with_attrs(s).delete is None,
        Stats::zero(cpu).with_attrs(s).delete_list is None,
{
    lemma_unused_kept(Stats::zero(cpu), s);
}

proof fn lemma_unused_kept(st: Stats, s: Seq<RawAttrView>)
    ensures
        st.with_attrs(s).cpu == st.cpu,
        st.with_attrs(s).searched == st.searched,
        st.with_attrs(s).new == st.new,
        st.with_attrs(s).ignore == st.ignore,
        st.with_attrs(s).delete == st.delete,
        st.with_attrs(s).delete_list == st.delete_list,
    decreases s.len(),
{
    if s.len() > 0 {
        lemma_unused_kept(st.with_attr(s[0]), s.skip(1));
    }
}

} // verus!
