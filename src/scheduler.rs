//! The life of each lineage's recurring task, and the registry that keeps
//! one task per (asset, interval).
//!
//! A lineage starts in the backfill phase. The first backfill tick that
//! reports it caught up cancels the backfill task and starts the realtime
//! task; nothing leads back to backfill. The registry refuses a second
//! lineage for the same pair, which keeps each cursor single-writer.
use crate::cursor::TickReport;
use crate::text::same_text;
use vstd::prelude::*;
use vstd::string::*;

verus! {

#[derive(Clone, Copy, Debug, PartialEq, Eq, Structural)]
pub enum Phase {
    Backfill,
    Realtime,
}

/// What the lineage's task does after a tick.
#[derive(Clone, Copy, Debug, PartialEq, Eq, Structural)]
pub enum Directive {
    /// Tick the backfill again at the next interval.
    KeepBackfilling,
    /// Cancel the backfill task and start the realtime task.
    StartRealtime,
    /// Tick the realtime refresh again at the next interval.
    KeepRefreshing,
}

/// The phase after a backfill report, and what the task is told to do.
pub open spec fn next_phase(phase: Phase, report: TickReport) -> Phase {
    if phase == Phase::Backfill && report == TickReport::CaughtUp {
        Phase::Realtime
    } else {
        phase
    }
}

pub open spec fn directive_for(phase: Phase, report: TickReport) -> Directive {
    if phase == Phase::Realtime {
        Directive::KeepRefreshing
    } else if report == TickReport::CaughtUp {
        Directive::StartRealtime
    } else {
        Directive::KeepBackfilling
    }
}

/// Decides the task's next step from its phase and the report of its tick.
pub fn step(phase: Phase, report: TickReport) -> (r: (Phase, Directive))
    ensures
        r.0 == next_phase(phase, report),
        r.1 == directive_for(phase, report),
{
    match phase {
        Phase::Realtime => (Phase::Realtime, Directive::KeepRefreshing),
        Phase::Backfill => {
            if report == TickReport::CaughtUp {
                (Phase::Realtime, Directive::StartRealtime)
            } else {
                (Phase::Backfill, Directive::KeepBackfilling)
            }
        },
    }
}

/// The phase after a sequence of reports.
pub open spec fn phase_after(phase: Phase, reports: Seq<TickReport>) -> Phase
    decreases reports.len(),
{
    if reports.len() == 0 {
        phase
    } else {
        next_phase(phase_after(phase, reports.drop_last()), reports.last())
    }
}

/// How many times a sequence of reports cancels the backfill task.
pub open spec fn cancellations(phase: Phase, reports: Seq<TickReport>) -> nat
    decreases reports.len(),
{
    if reports.len() == 0 {
        0
    } else {
        let before = phase_after(phase, reports.drop_last());
        cancellations(phase, reports.drop_last()) + if directive_for(before, reports.last())
            == Directive::StartRealtime {
            1nat
        } else {
            0nat
        }
    }
}

/// A lineage's backfill task is cancelled at most once, and exactly once
/// when it started in backfill and some tick caught up; after that the
/// lineage stays in the realtime phase.
pub proof fn lemma_cancelled_once(phase: Phase, reports: Seq<TickReport>)
    ensures
        cancellations(phase, reports) <= 1,
        (cancellations(phase, reports) == 1) == (phase == Phase::Backfill && exists|i: int|
            0 <= i < reports.len() && reports[i] == TickReport::CaughtUp),
        (phase_after(phase, reports) == Phase::Realtime) == (cancellations(phase, reports) == 1
            || phase == Phase::Realtime),
    decreases reports.len(),
{
    if reports.len() > 0 {
        let rest = reports.drop_last();
        lemma_cancelled_once(phase, rest);
        if exists|i: int| 0 <= i < rest.len() && rest[i] == TickReport::CaughtUp {
            let i = choose|i: int| 0 <= i < rest.len() && rest[i] == TickReport::CaughtUp;
            assert(reports[i] == rest[i]);
        }
        if reports.last() == TickReport::CaughtUp {
            assert(reports[reports.len() - 1] == TickReport::CaughtUp);
        }
        if exists|i: int| 0 <= i < reports.len() && reports[i] == TickReport::CaughtUp {
            let i = choose|i: int| 0 <= i < reports.len() && reports[i] == TickReport::CaughtUp;
            if i < reports.len() - 1 {
                assert(rest[i] == reports[i]);
            }
        }
    }
}

/// One registered lineage.
#[derive(Clone, Debug)]
pub struct Lineage {
    pub asset: String,
    pub interval: String,
    pub phase: Phase,
}

pub struct LineageView {
    pub asset: Seq<char>,
    pub interval: Seq<char>,
    pub phase: Phase,
}

impl View for Lineage {
    type V = LineageView;

    open spec fn view(&self) -> LineageView {
        LineageView { asset: self.asset@, interval: self.interval@, phase: self.phase }
    }
}

pub open spec fn same_pair(a: LineageView, b: LineageView) -> bool {
    a.asset == b.asset && a.interval == b.interval
}

pub open spec fn pairs_unique(s: Seq<LineageView>) -> bool {
    forall|i: int, j: int| 0 <= i < j < s.len() ==> !same_pair(#[trigger] s[i], #[trigger] s[j])
}

/// The index of the lineage for (asset, interval), if one is registered.
pub open spec fn lineage_index(s: Seq<LineageView>, asset: Seq<char>, interval: Seq<char>) -> Option<int> {
    if exists|i: int| 0 <= i < s.len() && s[i].asset == asset && s[i].interval == interval {
        Some(choose|i: int| 0 <= i < s.len() && s[i].asset == asset && s[i].interval == interval)
    } else {
        None
    }
}

/// The scheduler's registry: at most one lineage per (asset, interval).
pub struct Registry {
    lineages: Vec<Lineage>,
}

impl View for Registry {
    type V = Seq<LineageView>;

    closed spec fn view(&self) -> Seq<LineageView> {
        self.lineages@.map_values(|l: Lineage| l@)
    }
}

impl Registry {
    pub fn new() -> (r: Registry)
        ensures
            r@ == Seq::<LineageView>::empty(),
    {
        Registry { lineages: Vec::new() }
    }

    pub fn len(&self) -> (r: usize)
        ensures
            r == self@.len(),
    {
        self.lineages.len()
    }

    /// Where the lineage for (asset, interval) is registered.
    pub fn find(&self, asset: &str, interval: &str) -> (r: Option<usize>)
        ensures
            r matches Some(i) ==> i < self@.len() && self@[i as int].asset == asset@
                && self@[i as int].interval == interval@,
            r is None ==> forall|i: int|
                0 <= i < self@.len() ==> !(#[trigger] self@[i].asset == asset@ && self@[i].interval
                    == interval@),
    {
        let mut i: usize = 0;
        while i < self.lineages.len()
            invariant
                i <= self@.len(),
                self@.len() == self.lineages@.len(),
                forall|k: int|
                    0 <= k < i ==> !(#[trigger] self@[k].asset == asset@ && self@[k].interval
                        == interval@),
            decreases self@.len() - i,
        {
            let l = &self.lineages[i];
            assert(self@[i as int] == l@);
            if same_text(l.asset.as_str(), asset) && same_text(l.interval.as_str(), interval) {
                return Some(i);
            }
            i = i + 1;
        }
        None
    }

    /// Registers a lineage for (asset, interval) in the backfill phase;
    /// returns false, changing nothing, when one is already registered.
    pub fn register(&mut self, asset: &str, interval: &str) -> (added: bool)
        requires
            pairs_unique(old(self)@),
        ensures
            pairs_unique(final(self)@),
            added == (forall|i: int|
                0 <= i < old(self)@.len() ==> !(#[trigger] old(self)@[i].asset == asset@
                    && old(self)@[i].interval == interval@)),
            added ==> final(self)@ == old(self)@.push(
                LineageView { asset: asset@, interval: interval@, phase: Phase::Backfill },
            ),
            !added ==> final(self)@ == old(self)@,
    {
        match self.find(asset, interval) {
            Some(_) => false,
            None => {
                let ghost before = self@;
                self.lineages.push(
                    Lineage {
                        asset: String::from_str(asset),
                        interval: String::from_str(interval),
                        phase: Phase::Backfill,
                    },
                );
                assert(self@ =~= before.push(
                    LineageView { asset: asset@, interval: interval@, phase: Phase::Backfill },
                ));
                assert forall|i: int, j: int| 0 <= i < j < self@.len() implies !same_pair(
                    #[trigger] self@[i],
                    #[trigger] self@[j],
                ) by {
                    if j == self@.len() - 1 {
                        assert(self@[i] == before[i]);
                    }
                }
                true
            },
        }
    }

    /// The phase of the lineage at `index`.
    pub fn phase(&self, index: usize) -> (r: Phase)
        requires
            index < self@.len(),
        ensures
            r == self@[index as int].phase,
    {
        let r = self.lineages[index].phase;
        assert(self@[index as int] == self.lineages@[index as int]@);
        r
    }

    /// Records the report of a backfill tick of the lineage at `index`, moves
    /// it to its next phase and returns what its task is to do.
    pub fn record(&mut self, index: usize, report: TickReport) -> (r: Directive)
        requires
            index < old(self)@.len(),
        ensures
            r == directive_for(old(self)@[index as int].phase, report),
            pairs_unique(old(self)@) ==> pairs_unique(final(self)@),
            final(self)@ == old(self)@.update(
                index as int,
                LineageView {
                    phase: next_phase(old(self)@[index as int].phase, report),
                    ..old(self)@[index as int]
                },
            ),
    {
        let ghost before = self@;
        let current = self.lineages[index].phase;
        assert(before[index as int] == self.lineages@[index as int]@);
        let (phase, directive) = step(current, report);
        let l = Lineage {
            asset: self.lineages[index].asset.clone(),
            interval: self.lineages[index].interval.clone(),
            phase,
        };
        self.lineages.set(index, l);
        assert(self@ =~= before.update(
            index as int,
            LineageView { phase: next_phase(before[index as int].phase, report), ..before[index as int] },
        ));
        assert(pairs_unique(before) ==> pairs_unique(self@)) by {
            if pairs_unique(before) {
                assert forall|i: int, j: int| 0 <= i < j < self@.len() implies !same_pair(
                    #[trigger] self@[i],
                    #[trigger] self@[j],
                ) by {
                    assert(same_pair(self@[i], self@[j]) == same_pair(before[i], before[j]));
                }
            }
        }
        directive
    }
}

} // verus!
