//! An in-memory bar store keyed by (timestamp, timeframe), and the full
//! backfill tick that writes a window's bars into it and moves the cursor.
//!
//! Writing a bar whose key is already present is a success that changes
//! nothing, so fetching an overlapping window again is harmless.
use crate::bar::Data;
use crate::cursor::{
    backfill_cursor, backfill_report, backfill_tick_at, window_fits, Status, TickReport,
};
use vstd::prelude::*;

verus! {

/// Two bars with the same timestamp and timeframe are the same bar.
pub open spec fn same_key(a: Data, b: Data) -> bool {
    a.datetime == b.datetime && a.timeframe == b.timeframe
}

pub open spec fn holds_key(s: Seq<Data>, d: Data) -> bool {
    exists|i: int| 0 <= i < s.len() && same_key(#[trigger] s[i], d)
}

pub open spec fn keys_unique(s: Seq<Data>) -> bool {
    forall|i: int, j: int| 0 <= i < j < s.len() ==> !same_key(#[trigger] s[i], #[trigger] s[j])
}

/// The store after writing one bar.
pub open spec fn upserted(s: Seq<Data>, d: Data) -> Seq<Data> {
    if holds_key(s, d) {
        s
    } else {
        s.push(d)
    }
}

/// The store after writing the bars `ds`, in order.
pub open spec fn upserted_all(s: Seq<Data>, ds: Seq<Data>) -> Seq<Data>
    decreases ds.len(),
{
    if ds.len() == 0 {
        s
    } else {
        upserted(upserted_all(s, ds.drop_last()), ds.last())
    }
}

/// Bars of one asset, in the order in which they were first written, at most
/// one per (timestamp, timeframe).
pub struct BarStore {
    bars: Vec<Data>,
}

impl View for BarStore {
    type V = Seq<Data>;

    closed spec fn view(&self) -> Seq<Data> {
        self.bars@
    }
}

impl BarStore {
    pub fn new() -> (r: BarStore)
        ensures
            r@ == Seq::<Data>::empty(),
            keys_unique(r@),
    {
        BarStore { bars: Vec::new() }
    }

    pub fn len(&self) -> (r: usize)
        ensures
            r == self@.len(),
    {
        self.bars.len()
    }

    /// The stored bars, in the order in which they were first written.
    pub fn list(&self) -> (r: Vec<Data>)
        ensures
            r@ == self@,
    {
        let mut out: Vec<Data> = Vec::new();
        let mut i: usize = 0;
        while i < self.bars.len()
            invariant
                i <= self.bars@.len(),
                out@ == self.bars@.subrange(0, i as int),
            decreases self.bars@.len() - i,
        {
            out.push(self.bars[i]);
            i = i + 1;
        }
        assert(out@ =~= self.bars@);
        out
    }

    /// Whether a bar with this bar's key is stored.
    pub fn contains_key(&self, bar: &Data) -> (r: bool)
        ensures
            r == holds_key(self@, *bar),
    {
        let mut i: usize = 0;
        while i < self.bars.len()
            invariant
                i <= self.bars@.len(),
                forall|k: int| 0 <= k < i ==> !same_key(#[trigger] self.bars@[k], *bar),
            decreases self.bars@.len() - i,
        {
            if self.bars[i].datetime == bar.datetime && self.bars[i].timeframe == bar.timeframe {
                return true;
            }
            i = i + 1;
        }
        false
    }

    /// Writes a bar unless one with its key is stored; returns whether it was added.
    pub fn upsert(&mut self, bar: Data) -> (inserted: bool)
        requires
            keys_unique(old(self)@),
        ensures
            final(self)@ == upserted(old(self)@, bar),
            inserted == !holds_key(old(self)@, bar),
            keys_unique(final(self)@),
    {
        if self.contains_key(&bar) {
            return false;
        }
        self.bars.push(bar);
        assert(keys_unique(self.bars@)) by {
            let s = self.bars@;
            assert forall|i: int, j: int| 0 <= i < j < s.len() implies !same_key(
                #[trigger] s[i],
                #[trigger] s[j],
            ) by {
                if j == s.len() - 1 {
                    assert(s[i] == old(self)@[i]);
                }
            }
        }
        true
    }

    /// Writes the bars in order; returns how many were added.
    pub fn upsert_all(&mut self, bars: &Vec<Data>) -> (added: usize)
        requires
            keys_unique(old(self)@),
        ensures
            final(self)@ == upserted_all(old(self)@, bars@),
            added <= bars@.len(),
            keys_unique(final(self)@),
    {
        let mut added: usize = 0;
        let mut i: usize = 0;
        while i < bars.len()
            invariant
                i <= bars@.len(),
                added <= i,
                self@ == upserted_all(old(self)@, bars@.subrange(0, i as int)),
                keys_unique(self@),
            decreases bars@.len() - i,
        {
            let ghost prefix = bars@.subrange(0, i as int + 1);
            assert(prefix.drop_last() =~= bars@.subrange(0, i as int));
            if self.upsert(bars[i]) {
                added = added + 1;
            }
            i = i + 1;
        }
        assert(bars@.subrange(0, bars@.len() as int) =~= bars@);
        added
    }
}

/// One complete backfill tick against a bar store: the provider's answer for
/// the cursor's window (`None` when the fetch failed) is written, then the
/// cursor is moved as the tick's decision says.
pub fn apply_backfill_tick(
    store: &mut BarStore,
    cursor: &mut Status,
    window_length: i64,
    fetched: &Option<Vec<Data>>,
    now: i64,
) -> (r: TickReport)
    requires
        window_fits(old(cursor)@, window_length as int),
        keys_unique(old(store)@),
    ensures
        keys_unique(final(store)@),
        fetched matches Some(bars) ==> final(store)@ == upserted_all(old(store)@, bars@),
        fetched is None ==> final(store)@ == old(store)@,
        final(cursor)@ == backfill_cursor(old(cursor)@, window_length as int, fetched is Some, now as int),
        r == backfill_report(old(cursor)@, window_length as int, fetched is Some, now as int),
{
    match fetched {
        Some(bars) => {
            store.upsert_all(bars);
        },
        None => {},
    }
    backfill_tick_at(cursor, window_length, fetched.is_some(), now)
}

proof fn lemma_upserted_holds_all(s: Seq<Data>, ds: Seq<Data>)
    ensures
        forall|i: int| 0 <= i < ds.len() ==> holds_key(upserted_all(s, ds), #[trigger] ds[i]),
    decreases ds.len(),
{
    if ds.len() > 0 {
        let rest = ds.drop_last();
        lemma_upserted_holds_all(s, rest);
        let u = upserted_all(s, rest);
        let t = upserted_all(s, ds);
        assert(t == upserted(u, ds.last()));
        assert forall|i: int| 0 <= i < ds.len() implies holds_key(t, #[trigger] ds[i]) by {
            if i < ds.len() - 1 {
                assert(ds[i] == rest[i]);
                assert(holds_key(u, rest[i]));
                let k = choose|k: int| 0 <= k < u.len() && same_key(#[trigger] u[k], rest[i]);
                assert(t[k] == u[k]);
            } else if !holds_key(u, ds.last()) {
                assert(t[u.len() as int] == ds.last());
            }
        }
    }
}

proof fn lemma_upserted_all_present(t: Seq<Data>, ds: Seq<Data>)
    requires
        forall|i: int| 0 <= i < ds.len() ==> holds_key(t, #[trigger] ds[i]),
    ensures
        upserted_all(t, ds) == t,
    decreases ds.len(),
{
    if ds.len() > 0 {
        let rest = ds.drop_last();
        assert forall|i: int| 0 <= i < rest.len() implies holds_key(t, #[trigger] rest[i]) by {
            assert(rest[i] == ds[i]);
        }
        lemma_upserted_all_present(t, rest);
        assert(holds_key(t, ds[ds.len() - 1]));
    }
}

proof fn lemma_upserted_unique(s: Seq<Data>, ds: Seq<Data>)
    requires
        keys_unique(s),
    ensures
        keys_unique(upserted_all(s, ds)),
    decreases ds.len(),
{
    if ds.len() > 0 {
        let rest = ds.drop_last();
        lemma_upserted_unique(s, rest);
        let u = upserted_all(s, rest);
        let t = upserted_all(s, ds);
        if !holds_key(u, ds.last()) {
            assert forall|i: int, j: int| 0 <= i < j < t.len() implies !same_key(
                #[trigger] t[i],
                #[trigger] t[j],
            ) by {
                if j == t.len() - 1 {
                    assert(t[i] == u[i]);
                }
            }
        }
    }
}

/// Writing the same bars a second time changes nothing, and a store whose
/// keys are unique keeps them unique: no bar is ever stored twice.
pub proof fn lemma_upsert_idempotent(s: Seq<Data>, ds: Seq<Data>)
    ensures
        upserted_all(upserted_all(s, ds), ds) == upserted_all(s, ds),
        keys_unique(s) ==> keys_unique(upserted_all(s, ds)),
{
    lemma_upserted_holds_all(s, ds);
    lemma_upserted_all_present(upserted_all(s, ds), ds);
    if keys_unique(s) {
        lemma_upserted_unique(s, ds);
    }
}

} // verus!
