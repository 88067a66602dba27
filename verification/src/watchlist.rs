//! The watchlist store: the set of tracked symbols together with the
//! cached snapshot per symbol. Adding a symbol is all-or-nothing, removing
//! deletes symbol and snapshot together, and refreshing overwrites
//! snapshots of already-tracked symbols but never changes which symbols
//! are tracked.
//!
//! The store is modelled as the sequence of its entries, each a pair of
//! the symbol's characters and the snapshot's view; the tracked set is the
//! set of first components, kept free of duplicates by `wl_wf`.

use vstd::prelude::*;
use vstd::pervasive::VecAdditionalExecFns;
use crate::api::StoreError;
use crate::text::added_message;
use crate::text::added_text;
use crate::text::dollars;
use crate::text::ema_list;
use crate::text::ema_list_text;
use crate::text::money_text;
use crate::text::pct_text;
use crate::text::percent;
use crate::text::refresh_failed_message;
use crate::text::refresh_failed_text;
use crate::text::removed_message;
use crate::text::removed_text;
use crate::text::updated_message;
use crate::text::updated_text;
use crate::text::lemma_report_lines_distinct;

verus! {

/// The cached market view of one symbol: prices in cents, the percentage
/// change in hundredths of a percent, and the window of at most five
/// recent EMA values, oldest first.
#[derive(Debug)]
pub struct Snapshot {
    pub open: u64,
    pub close: u64,
    pub percentage_change: i64,
    pub recent_ema: Vec<u64>,
}

/// The mathematical value of a [`Snapshot`].
pub struct SnapshotView {
    pub open: u64,
    pub close: u64,
    pub percentage_change: i64,
    pub recent_ema: Seq<u64>,
}

impl View for Snapshot {
    type V = SnapshotView;

    open spec fn view(&self) -> SnapshotView {
        SnapshotView {
            open: self.open,
            close: self.close,
            percentage_change: self.percentage_change,
            recent_ema: self.recent_ema@,
        }
    }
}

/// A snapshot is well formed when its EMA window has at most five values.
pub open spec fn snapshot_wf(s: SnapshotView) -> bool {
    s.recent_ema.len() <= 5
}

/// Copy a price vector element by element.
fn copy_prices(v: &Vec<u64>) -> (r: Vec<u64>)
    ensures
        r@ == v@,
{
    let mut r: Vec<u64> = Vec::new();
    let mut i: usize = 0;
    while i < v.len()
        invariant
            i <= v@.len(),
            r@ =~= v@.take(i as int),
        decreases v@.len() - i as int,
    {
        r.push(v[i]);
        i += 1;
    }
    proof {
        assert(v@.take(v@.len() as int) =~= v@);
    }
    r
}

impl Clone for Snapshot {
    /// A clone carries the same mathematical value.
    fn clone(&self) -> (r: Self)
        ensures
            r@ == self@,
    {
        Snapshot {
            open: self.open,
            close: self.close,
            percentage_change: self.percentage_change,
            recent_ema: copy_prices(&self.recent_ema),
        }
    }
}

/// Whether an entry for `sym` exists.
pub open spec fn wl_contains(v: Seq<(Seq<char>, SnapshotView)>, sym: Seq<char>) -> bool {
    exists|i: int| 0 <= i < v.len() && v[i].0 == sym
}

/// Well-formedness of the store: no symbol occurs twice, and every
/// snapshot is well formed.
pub open spec fn wl_wf(v: Seq<(Seq<char>, SnapshotView)>) -> bool {
    &&& forall|i: int, j: int| 0 <= i < j < v.len() ==> v[i].0 != v[j].0
    &&& forall|i: int| 0 <= i < v.len() ==> snapshot_wf(#[trigger] v[i].1)
}

/// Relies on `str`'s `PartialEq`: two string slices compare equal exactly
/// when their character sequences are equal.
#[verifier::external_body]
fn str_eq(a: &str, b: &str) -> (r: bool)
    ensures
        r == (a@ == b@),
{
    a == b
}

/// The set of tracked symbols with the cached snapshot per symbol.
pub struct Watchlist {
    entries: Vec<(String, Snapshot)>,
}

impl View for Watchlist {
    type V = Seq<(Seq<char>, SnapshotView)>;

    closed spec fn view(&self) -> Seq<(Seq<char>, SnapshotView)> {
        self.entries@.map_values(|e: (String, Snapshot)| (e.0@, e.1@))
    }
}

impl Watchlist {
    /// An empty watchlist: nothing tracked, nothing cached.
    pub fn new() -> (w: Watchlist)
        ensures
            w@.len() == 0,
            wl_wf(w@),
    {
        Watchlist { entries: Vec::new() }
    }

    /// Whether `symbol` is currently tracked.
    pub fn contains(&self, symbol: &str) -> (r: bool)
        ensures
            r == wl_contains(self@, symbol@),
    {
        let mut i: usize = 0;
        while i < self.entries.len()
            invariant
                i <= self@.len(),
                self@.len() == self.entries@.len(),
                forall|m: int| 0 <= m < i as int ==> self@[m].0 != symbol@,
            decreases self@.len() - i as int,
        {
            if str_eq(self.entries[i].0.as_str(), symbol) {
                proof {
                    assert(self@[i as int].0 == symbol@);
                }
                return true;
            }
            i += 1;
        }
        false
    }

    /// Track `symbol` with the outcome of its fetch-and-validate pipeline,
    /// all or nothing.
    ///
    /// Fails with `AlreadyTracked` when the symbol is tracked, whatever the
    /// pipeline outcome; passes a pipeline failure through unchanged. In
    /// every failing case the store is left exactly as it was. On success
    /// the new entry is appended and the message names the symbol.
    pub fn add_stock(&mut self, symbol: String, pipeline: Result<Snapshot, StoreError>) -> (r:
        Result<String, StoreError>)
        requires
            wl_wf(old(self)@),
            pipeline is Ok ==> snapshot_wf(pipeline->Ok_0@),
        ensures
            wl_wf(final(self)@),
            wl_contains(old(self)@, symbol@) ==> *final(self) == *old(self) && r is Err
                && r->Err_0 == StoreError::AlreadyTracked,
            !wl_contains(old(self)@, symbol@) && pipeline is Err ==> *final(self) == *old(self)
                && r is Err && r->Err_0 == pipeline->Err_0,
            !wl_contains(old(self)@, symbol@) && pipeline is Ok ==> final(self)@ == old(self)@.push(
                (symbol@, pipeline->Ok_0@),
            ) && r is Ok && r->Ok_0@ == added_text(symbol@),
    {
        if self.contains(symbol.as_str()) {
            return Err(StoreError::AlreadyTracked);
        }
        match pipeline {
            Err(e) => Err(e),
            Ok(snap) => {
                let msg = added_message(symbol.as_str());
                let ghost prior = self@;
                self.entries.push((symbol, snap));
                proof {
                    assert(self@ =~= prior.push((symbol@, snap@)));
                }
                Ok(msg)
            },
        }
    }

    /// Stop tracking `symbol`, deleting its snapshot with it.
    ///
    /// Fails with `NotTracked`, leaving the store untouched, when the
    /// symbol is not tracked; otherwise exactly its entry is removed and
    /// the tracked count drops by one.
    pub fn remove_stock(&mut self, symbol: &str) -> (r: Result<String, StoreError>)
        requires
            wl_wf(old(self)@),
        ensures
            wl_wf(final(self)@),
            !wl_contains(old(self)@, symbol@) ==> *final(self) == *old(self) && r is Err
                && r->Err_0 == StoreError::NotTracked,
            wl_contains(old(self)@, symbol@) ==> r is Ok && r->Ok_0@ == removed_text(symbol@)
                && final(self)@.len() == old(self)@.len() - 1 && exists|i: int|
                0 <= i < old(self)@.len() && old(self)@[i].0 == symbol@ && final(self)@ == old(
                    self,
                )@.remove(i),
    {
        let mut i: usize = 0;
        while i < self.entries.len()
            invariant
                *self == *old(self),
                wl_wf(self@),
                i <= self@.len(),
                self@.len() == self.entries@.len(),
                forall|m: int| 0 <= m < i as int ==> (#[trigger] self@[m]).0 != symbol@,
            decreases self@.len() - i as int,
        {
            if str_eq(self.entries[i].0.as_str(), symbol) {
                let ghost prior = self@;
                let ghost at = i as int;
                proof {
                    assert(prior[at].0 == symbol@);
                }
                let _removed = self.entries.remove(i);
                let msg = removed_message(symbol);
                proof {
                    assert(self@ =~= prior.remove(at));
                    assert(wl_contains(prior, symbol@));
                    assert(exists|k: int|
                        0 <= k < prior.len() && prior[k].0 == symbol@ && self@ == prior.remove(k));
                    assert forall|m: int, n: int|
                        0 <= m < n < self@.len() implies self@[m].0 != self@[n].0 by {
                        if m < at {
                            assert(self@[m] == prior[m]);
                        } else {
                            assert(self@[m] == prior[m + 1]);
                        }
                        if n < at {
                            assert(self@[n] == prior[n]);
                        } else {
                            assert(self@[n] == prior[n + 1]);
                        }
                    }
                    assert forall|m: int| 0 <= m < self@.len() implies snapshot_wf(
                        #[trigger] self@[m].1,
                    ) by {
                        if m < at {
                            assert(self@[m] == prior[m]);
                        } else {
                            assert(self@[m] == prior[m + 1]);
                        }
                    }
                }
                return Ok(msg);
            }
            i += 1;
        }
        Err(StoreError::NotTracked)
    }

    /// The tracked symbols, in entry order.
    pub fn tracked_symbols(&self) -> (r: Vec<String>)
        ensures
            r@.len() == self@.len(),
            forall|i: int| 0 <= i < r@.len() ==> #[trigger] r@[i]@ == self@[i].0,
    {
        let mut r: Vec<String> = Vec::new();
        let mut i: usize = 0;
        while i < self.entries.len()
            invariant
                i <= self@.len(),
                self@.len() == self.entries@.len(),
                r@.len() == i as int,
                forall|m: int| 0 <= m < i as int ==> #[trigger] r@[m]@ == self@[m].0,
            decreases self@.len() - i as int,
        {
            r.push(self.entries[i].0.clone());
            i += 1;
        }
        r
    }

    /// Republish the snapshots of all tracked symbols from the outcomes of
    /// their pipelines, one outcome per tracked symbol in entry order, and
    /// report one line per symbol.
    ///
    /// A successful outcome overwrites that symbol's snapshot wholesale; a
    /// failed one changes nothing for its symbol. Which symbols are
    /// tracked, and their order, never changes, however many outcomes
    /// failed.
    pub fn refresh_data(&mut self, outcomes: Vec<(String, Result<Snapshot, StoreError>)>) -> (r:
        Vec<String>)
        requires
            wl_wf(old(self)@),
            outcomes@.len() == old(self)@.len(),
            forall|i: int|
                0 <= i < outcomes@.len() ==> (#[trigger] outcomes@[i].0)@ == old(self)@[i].0,
            forall|i: int|
                0 <= i < outcomes@.len() && (#[trigger] outcomes@[i].1) is Ok ==> snapshot_wf(
                    outcomes@[i].1->Ok_0@,
                ),
        ensures
            wl_wf(final(self)@),
            final(self)@.len() == old(self)@.len(),
            forall|i: int|
                0 <= i < final(self)@.len() ==> (#[trigger] final(self)@[i]).0 == old(self)@[i].0,
            forall|i: int|
                0 <= i < final(self)@.len() ==> (#[trigger] final(self)@[i]).1 == (
                if outcomes@[i].1 is Ok {
                    outcomes@[i].1->Ok_0@
                } else {
                    old(self)@[i].1
                }),
            r@.len() == outcomes@.len(),
            forall|i: int|
                0 <= i < r@.len() ==> (#[trigger] r@[i])@ == (if outcomes@[i].1 is Ok {
                    updated_text(outcomes@[i].0@)
                } else {
                    refresh_failed_text(outcomes@[i].1->Err_0, outcomes@[i].0@)
                }),
    {
        let mut report: Vec<String> = Vec::new();
        let mut i: usize = 0;
        while i < outcomes.len()
            invariant
                wl_wf(old(self)@),
                outcomes@.len() == old(self)@.len(),
                forall|m: int|
                    0 <= m < outcomes@.len() ==> (#[trigger] outcomes@[m].0)@ == old(self)@[m].0,
                forall|m: int|
                    0 <= m < outcomes@.len() && (#[trigger] outcomes@[m].1) is Ok ==> snapshot_wf(
                        outcomes@[m].1->Ok_0@,
                    ),
                i <= outcomes@.len(),
                self@.len() == old(self)@.len(),
                forall|m: int|
                    0 <= m < self@.len() ==> (#[trigger] self@[m]).0 == old(self)@[m].0,
                forall|m: int|
                    0 <= m < i as int ==> (#[trigger] self@[m]).1 == (if outcomes@[m].1 is Ok {
                        outcomes@[m].1->Ok_0@
                    } else {
                        old(self)@[m].1
                    }),
                forall|m: int|
                    i as int <= m < self@.len() ==> (#[trigger] self@[m]).1 == old(self)@[m].1,
                report@.len() == i as int,
                forall|m: int|
                    0 <= m < i as int ==> (#[trigger] report@[m])@ == (if outcomes@[m].1 is Ok {
                        updated_text(outcomes@[m].0@)
                    } else {
                        refresh_failed_text(outcomes@[m].1->Err_0, outcomes@[m].0@)
                    }),
            decreases outcomes@.len() - i as int,
        {
            match &outcomes[i].1 {
                Ok(snap) => {
                    let msg = updated_message(outcomes[i].0.as_str());
                    let sym = outcomes[i].0.clone();
                    let fresh = snap.clone();
                    let ghost prior = self@;
                    self.entries.set(i, (sym, fresh));
                    proof {
                        assert(self@ =~= prior.update(i as int, (sym@, fresh@)));
                    }
                    report.push(msg);
                },
                Err(e) => {
                    let msg = refresh_failed_message(e, outcomes[i].0.as_str());
                    report.push(msg);
                },
            }
            i += 1;
        }
        proof {
            assert forall|m: int, n: int|
                0 <= m < n < self@.len() implies self@[m].0 != self@[n].0 by {
                assert(self@[m].0 == old(self)@[m].0);
                assert(self@[n].0 == old(self)@[n].0);
            }
        }
        report
    }

    /// A point-in-time view for presentation: one row per tracked symbol,
    /// in entry order, with prices as currency strings, the change as a
    /// percent string, and the EMA window as a bracketed list.
    pub fn get_cached_data(&self) -> (r: Vec<(String, String, String, String, String)>)
        ensures
            r@.len() == self@.len(),
            forall|i: int|
                0 <= i < r@.len() ==> {
                    let row = #[trigger] r@[i];
                    &&& row.0@ == self@[i].0
                    &&& row.1@ == money_text(self@[i].1.open as int)
                    &&& row.2@ == money_text(self@[i].1.close as int)
                    &&& row.3@ == pct_text(self@[i].1.percentage_change as int)
                    &&& row.4@ == ema_list_text(self@[i].1.recent_ema)
                },
    {
        let mut r: Vec<(String, String, String, String, String)> = Vec::new();
        let mut i: usize = 0;
        while i < self.entries.len()
            invariant
                i <= self@.len(),
                self@.len() == self.entries@.len(),
                r@.len() == i as int,
                forall|m: int|
                    0 <= m < i as int ==> {
                        let row = #[trigger] r@[m];
                        &&& row.0@ == self@[m].0
                        &&& row.1@ == money_text(self@[m].1.open as int)
                        &&& row.2@ == money_text(self@[m].1.close as int)
                        &&& row.3@ == pct_text(self@[m].1.percentage_change as int)
                        &&& row.4@ == ema_list_text(self@[m].1.recent_ema)
                    },
            decreases self@.len() - i as int,
        {
            let entry = &self.entries[i];
            let row = (
                entry.0.clone(),
                dollars(entry.1.open),
                dollars(entry.1.close),
                percent(entry.1.percentage_change),
                ema_list(&entry.1.recent_ema),
            );
            r.push(row);
            i += 1;
        }
        r
    }
}

impl Default for Watchlist {
    /// The default watchlist is empty.
    fn default() -> (w: Watchlist)
        ensures
            w@.len() == 0,
            wl_wf(w@),
    {
        Watchlist::new()
    }
}

/// How many of the first `n` report lines are the success line for their
/// symbol.
pub open spec fn success_line_count(
    report: Seq<Seq<char>>,
    outcomes: Seq<(Seq<char>, Result<SnapshotView, StoreError>)>,
    n: int,
) -> int
    decreases n,
{
    if n <= 0 {
        0
    } else {
        success_line_count(report, outcomes, n - 1) + if report[n - 1] == updated_text(
            outcomes[n - 1].0,
        ) {
            1int
        } else {
            0int
        }
    }
}

/// Counting step: when line `i` is a success line exactly for `i != j`,
/// the first `n` lines hold `n - 1` success lines once `j` is among them,
/// and `n` before that.
proof fn lemma_success_count_prefix(
    report: Seq<Seq<char>>,
    outcomes: Seq<(Seq<char>, Result<SnapshotView, StoreError>)>,
    j: int,
    n: int,
)
    requires
        0 <= j < report.len(),
        0 <= n <= report.len(),
        forall|i: int|
            0 <= i < report.len() ==> ((#[trigger] report[i]) == updated_text(outcomes[i].0) <==> i
                != j),
    ensures
        success_line_count(report, outcomes, n) == if j < n {
            n - 1
        } else {
            n
        },
    decreases n,
{
    if n > 0 {
        lemma_success_count_prefix(report, outcomes, j, n - 1);
    }
}

/// Refresh isolation: when exactly one outcome failed, exactly one report
/// line is a failure line — line `i` is the success line for its symbol
/// precisely when outcome `i` succeeded, and the success lines number one
/// fewer than the symbols.
pub proof fn lemma_refresh_isolation(
    outcomes: Seq<(Seq<char>, Result<SnapshotView, StoreError>)>,
    report: Seq<Seq<char>>,
    j: int,
)
    requires
        0 <= j < outcomes.len(),
        outcomes[j].1 is Err,
        forall|i: int| 0 <= i < outcomes.len() && i != j ==> (#[trigger] outcomes[i].1) is Ok,
        report.len() == outcomes.len(),
        forall|i: int|
            0 <= i < report.len() ==> #[trigger] report[i] == (if outcomes[i].1 is Ok {
                updated_text(outcomes[i].0)
            } else {
                refresh_failed_text(outcomes[i].1->Err_0, outcomes[i].0)
            }),
    ensures
        forall|i: int|
            0 <= i < report.len() ==> ((#[trigger] report[i]) == updated_text(outcomes[i].0) <==> i
                != j),
        success_line_count(report, outcomes, report.len() as int) == report.len() - 1,
{
    assert forall|i: int|
        0 <= i < report.len() implies ((#[trigger] report[i]) == updated_text(outcomes[i].0) <==> i
        != j) by {
        if i == j {
            lemma_report_lines_distinct(outcomes[j].1->Err_0, outcomes[j].0, outcomes[j].0);
        }
    }
    lemma_success_count_prefix(report, outcomes, j, report.len() as int);
}

} // verus!
