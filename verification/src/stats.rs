//! Per-kind aggregates, folded forward on every finished run. They outlive
//! the pruning of the run history.
use crate::cursor::{copy_opt, opt_int, opt_text};
use crate::moment::{kept, stored_instant};
use crate::queue::TaskKind;
use crate::table::{text_before, Table};
use crate::task_queue::ExecutionOutcome;
use vstd::prelude::*;

verus! {

/// What is known of a kind's runs.
#[verifier::ext_equal]
pub struct StatState {
    pub kind: Seq<char>,
    pub total_runs: nat,
    pub total_failures: nat,
    pub total_duration_ms: nat,
    pub last_run_at: Option<int>,
    pub last_outcome: Option<ExecutionOutcome>,
    pub last_error: Option<Seq<char>>,
    pub last_success_at: Option<int>,
    pub last_duration_ms: Option<nat>,
    pub updated_at: int,
}

/// A sum, up to the largest count that a column holds.
pub open spec fn held_sum(a: nat, b: nat) -> nat {
    if a + b <= i64::MAX {
        a + b
    } else {
        i64::MAX as nat
    }
}

/// A duration, up to the largest count that a column holds.
pub open spec fn held_duration(duration_ms: Option<u64>) -> Option<nat> {
    match duration_ms {
        Some(ms) => Some(held_sum(ms as nat, 0)),
        None => None,
    }
}

/// The aggregates after one more run. Every outcome counts as a run, only
/// failures as failures, an unmeasured run adds no time, and the last
/// success survives later runs that did not succeed. Instants are kept to the
/// millisecond.
pub open spec fn with_run(
    stored: Option<StatState>,
    kind: Seq<char>,
    outcome: ExecutionOutcome,
    error: Option<Seq<char>>,
    duration_ms: Option<u64>,
    at: int,
) -> StatState {
    let failed: nat = if outcome == ExecutionOutcome::Failed {
        1
    } else {
        0
    };
    let spent = match held_duration(duration_ms) {
        Some(ms) => ms,
        None => 0,
    };
    StatState {
        kind,
        total_runs: match stored {
            Some(s) => held_sum(s.total_runs, 1),
            None => 1,
        },
        total_failures: match stored {
            Some(s) => held_sum(s.total_failures, failed),
            None => failed,
        },
        total_duration_ms: match stored {
            Some(s) => held_sum(s.total_duration_ms, spent),
            None => spent,
        },
        last_run_at: Some(stored_instant(at)),
        last_outcome: Some(outcome),
        last_error: error,
        last_success_at: if outcome == ExecutionOutcome::Succeeded {
            Some(stored_instant(at))
        } else {
            match stored {
                Some(s) => s.last_success_at,
                None => None,
            }
        },
        last_duration_ms: held_duration(duration_ms),
        updated_at: stored_instant(at),
    }
}

/// What is known of a kind's runs.
#[derive(Clone, Debug)]
pub struct TaskStats {
    pub kind: TaskKind,
    pub total_runs: u64,
    pub total_failures: u64,
    pub total_duration_ms: u64,
    pub last_run_at: Option<i128>,
    pub last_outcome: Option<ExecutionOutcome>,
    pub last_error: Option<String>,
    pub last_success_at: Option<i128>,
    pub last_duration_ms: Option<u64>,
    pub updated_at: i128,
}

pub open spec fn opt_nat(n: Option<u64>) -> Option<nat> {
    match n {
        Some(n) => Some(n as nat),
        None => None,
    }
}

impl View for TaskStats {
    type V = StatState;

    open spec fn view(&self) -> StatState {
        StatState {
            kind: self.kind@,
            total_runs: self.total_runs as nat,
            total_failures: self.total_failures as nat,
            total_duration_ms: self.total_duration_ms as nat,
            last_run_at: opt_int(self.last_run_at),
            last_outcome: self.last_outcome,
            last_error: opt_text(self.last_error),
            last_success_at: opt_int(self.last_success_at),
            last_duration_ms: opt_nat(self.last_duration_ms),
            updated_at: self.updated_at as int,
        }
    }
}

impl TaskStats {
    /// The same aggregates again.
    pub fn copied(&self) -> (same: TaskStats)
        ensures
            same@ == self@,
    {
        TaskStats {
            kind: self.kind.copied(),
            total_runs: self.total_runs,
            total_failures: self.total_failures,
            total_duration_ms: self.total_duration_ms,
            last_run_at: self.last_run_at,
            last_outcome: self.last_outcome,
            last_error: copy_opt(&self.last_error),
            last_success_at: self.last_success_at,
            last_duration_ms: self.last_duration_ms,
            updated_at: self.updated_at,
        }
    }
}

fn sum_held(a: u64, b: u64) -> (sum: u64)
    ensures
        sum == held_sum(a as nat, b as nat),
{
    let sum: u128 = a as u128 + b as u128;
    if sum <= i64::MAX as u128 {
        sum as u64
    } else {
        i64::MAX as u64
    }
}

/// The aggregates of all kinds.
pub struct StatBook {
    table: Table<TaskStats>,
}

impl View for StatBook {
    type V = Map<Seq<char>, StatState>;

    closed spec fn view(&self) -> Map<Seq<char>, StatState> {
        self.table@.map_values(|s: TaskStats| s@)
    }
}

/// The aggregates of a kind, if any.
pub open spec fn stats_of(book: Map<Seq<char>, StatState>, kind: Seq<char>) -> Option<StatState> {
    if book.dom().contains(kind) {
        Some(book[kind])
    } else {
        None
    }
}

impl StatBook {
    pub closed spec fn wf(&self) -> bool {
        self.table.wf()
    }

    /// The kinds that have aggregates, in the order of their names.
    pub closed spec fn kinds(&self) -> Seq<Seq<char>> {
        self.table.key_seq()
    }

    /// The aggregates in the order of their kinds.
    pub closed spec fn rows(&self) -> Seq<StatState> {
        self.table.row_seq().map_values(|s: TaskStats| s@)
    }

    pub fn new() -> (book: StatBook)
        ensures
            book.wf(),
            book@ == Map::<Seq<char>, StatState>::empty(),
    {
        let book = StatBook { table: Table::new() };
        assert(book@ =~= Map::<Seq<char>, StatState>::empty());
        book
    }

    /// Puts back aggregates that were persisted.
    pub fn load(&mut self, stats: TaskStats)
        requires
            old(self).wf(),
        ensures
            final(self).wf(),
            final(self)@ == old(self)@.insert(stats@.kind, stats@),
    {
        let ghost before = self@;
        let ghost state = stats@;
        let kind = stats.kind.copied();
        self.table.put(kind.as_str(), stats);
        assert(self@ =~= before.insert(state.kind, state));
    }

    /// Folds one finished run into the kind's aggregates.
    pub fn record_run(
        &mut self,
        kind: &TaskKind,
        outcome: ExecutionOutcome,
        error: Option<String>,
        duration_ms: Option<u64>,
        at: i128,
    )
        requires
            old(self).wf(),
        ensures
            final(self).wf(),
            final(self)@ == old(self)@.insert(
                kind@,
                with_run(
                    stats_of(old(self)@, kind@),
                    kind@,
                    outcome,
                    opt_text(error),
                    duration_ms,
                    at as int,
                ),
            ),
    {
        let at: i128 = kept(at);
        let failed: u64 = match outcome {
            ExecutionOutcome::Failed => 1,
            _ => 0,
        };
        let duration: Option<u64> = match duration_ms {
            Some(ms) => Some(sum_held(ms, 0)),
            None => None,
        };
        let spent: u64 = match duration {
            Some(ms) => ms,
            None => 0,
        };
        let success: Option<i128> = match outcome {
            ExecutionOutcome::Succeeded => Some(at),
            _ => None,
        };
        let stats = match self.table.get(kind.as_str()) {
            Some(stored) => TaskStats {
                kind: kind.copied(),
                total_runs: sum_held(stored.total_runs, 1),
                total_failures: sum_held(stored.total_failures, failed),
                total_duration_ms: sum_held(stored.total_duration_ms, spent),
                last_run_at: Some(at),
                last_outcome: Some(outcome),
                last_error: error,
                last_success_at: match success {
                    Some(s) => Some(s),
                    None => stored.last_success_at,
                },
                last_duration_ms: duration,
                updated_at: at,
            },
            None => TaskStats {
                kind: kind.copied(),
                total_runs: 1,
                total_failures: failed,
                total_duration_ms: spent,
                last_run_at: Some(at),
                last_outcome: Some(outcome),
                last_error: error,
                last_success_at: success,
                last_duration_ms: duration,
                updated_at: at,
            },
        };
        self.load(stats);
    }

    /// The aggregates of `kind`.
    pub fn get(&self, kind: &TaskKind) -> (stats: Option<TaskStats>)
        requires
            self.wf(),
        ensures
            stats is Some <==> self@.dom().contains(kind@),
            stats matches Some(s) ==> s@ == self@[kind@],
    {
        match self.table.get(kind.as_str()) {
            Some(stats) => Some(stats.copied()),
            None => None,
        }
    }

    /// All aggregates, in the order of their kinds.
    pub fn list(&self) -> (rows: Vec<TaskStats>)
        requires
            self.wf(),
        ensures
            rows@.map_values(|s: TaskStats| s@) == self.rows(),
    {
        let mut rows: Vec<TaskStats> = Vec::new();
        let mut i: usize = 0;
        while i < self.table.len()
            invariant
                self.wf(),
                i == rows@.len(),
                i <= self.table.row_seq().len(),
                forall|j: int| 0 <= j < i ==> (#[trigger] rows@[j])@ == self.table.row_seq()[j]@,
            decreases self.table.row_seq().len() - i,
        {
            rows.push(self.table.row_at(i).copied());
            i += 1;
        }
        assert(rows@.map_values(|s: TaskStats| s@) =~= self.rows());
        rows
    }
}

/// What is listed is exactly what is stored: every kind that has aggregates
/// is there once, in ascending order, with its own.
pub proof fn law_every_kind_is_listed_once(book: StatBook)
    requires
        book.wf(),
    ensures
        book.rows().len() == book.kinds().len(),
        book.kinds().no_duplicates(),
        forall|kind: Seq<char>| #[trigger]
            book.kinds().contains(kind) <==> book@.dom().contains(kind),
        forall|i: int, j: int|
            0 <= i < j < book.kinds().len() ==> text_before(
                #[trigger] book.kinds()[i],
                #[trigger] book.kinds()[j],
            ),
        forall|i: int|
            #![trigger book.rows()[i]]
            #![trigger book.kinds()[i]]
            0 <= i < book.kinds().len() ==> book.rows()[i] == book@[book.kinds()[i]],
        forall|kind: Seq<char>|
            book@.dom().contains(kind) ==> book.rows().contains(#[trigger] book@[kind]),
{
    book.table.lemma_keys();
    assert forall|i: int| 0 <= i < book.kinds().len() implies book.rows()[i]
        == book@[book.kinds()[i]] by {
        book.table.lemma_row_at(i);
    }
    assert forall|kind: Seq<char>| book@.dom().contains(kind) implies book.rows().contains(
        #[trigger] book@[kind],
    ) by {
        assert(book.kinds().contains(kind));
        let i = book.kinds().index_of(kind);
        assert(book.rows()[i] == book@[kind]);
    }
}

/// A run counts exactly once: as a run, and as a failure where it failed.
/// Only a success moves the last success.
pub proof fn law_runs_count_once(
    stored: StatState,
    kind: Seq<char>,
    outcome: ExecutionOutcome,
    error: Option<Seq<char>>,
    duration_ms: Option<u64>,
    at: int,
)
    requires
        stored.total_runs < i64::MAX,
        stored.total_failures < i64::MAX,
    ensures
        with_run(Some(stored), kind, outcome, error, duration_ms, at).total_runs
            == stored.total_runs + 1,
        with_run(Some(stored), kind, outcome, error, duration_ms, at).total_failures == (
        if outcome == ExecutionOutcome::Failed {
            stored.total_failures + 1
        } else {
            stored.total_failures
        }),
        outcome != ExecutionOutcome::Succeeded ==> with_run(
            Some(stored),
            kind,
            outcome,
            error,
            duration_ms,
            at,
        ).last_success_at == stored.last_success_at,
{
}

/// A run that succeeded is the last success, whatever was known before; the
/// last run, its outcome, its error and its duration are always those of the
/// latest run, to the millisecond and up to what a column holds.
pub proof fn law_the_latest_run_is_remembered(
    stored: Option<StatState>,
    kind: Seq<char>,
    outcome: ExecutionOutcome,
    error: Option<Seq<char>>,
    duration_ms: Option<u64>,
    at: int,
)
    requires
        crate::moment::valid_instant(at),
    ensures
        ({
            let after = with_run(stored, kind, outcome, error, duration_ms, at);
            let kept = at - at % 1_000_000;
            &&& after.kind == kind
            &&& outcome == ExecutionOutcome::Succeeded ==> after.last_success_at == Some(kept)
            &&& outcome != ExecutionOutcome::Succeeded ==> after.last_success_at == (
            match stored {
                Some(s) => s.last_success_at,
                None => None,
            })
            &&& after.last_run_at == Some(kept)
            &&& after.last_outcome == Some(outcome)
            &&& after.last_error == error
            &&& after.updated_at == kept
            &&& after.last_duration_ms is Some <==> duration_ms is Some
            &&& duration_ms matches Some(ms) ==> (ms <= 0x7fff_ffff_ffff_ffff
                ==> after.last_duration_ms == Some(ms as nat)) && (ms > 0x7fff_ffff_ffff_ffff
                ==> after.last_duration_ms == Some(0x7fff_ffff_ffff_ffffnat))
        }),
{
}

/// Totals only grow: each run adds one run, one failure where it failed, and
/// the time that it took, each up to what a column holds; the first run starts
/// from nothing.
pub proof fn law_totals_add_up(
    stored: Option<StatState>,
    kind: Seq<char>,
    outcome: ExecutionOutcome,
    error: Option<Seq<char>>,
    duration_ms: Option<u64>,
    at: int,
)
    ensures
        ({
            let after = with_run(stored, kind, outcome, error, duration_ms, at);
            let (runs, failures, time): (nat, nat, nat) = match stored {
                Some(s) => (s.total_runs, s.total_failures, s.total_duration_ms),
                None => (0, 0, 0),
            };
            &&& runs < i64::MAX ==> after.total_runs == runs + 1
            &&& runs >= i64::MAX ==> after.total_runs == i64::MAX
            &&& outcome == ExecutionOutcome::Failed && failures < i64::MAX ==> after.total_failures
                == failures + 1
            &&& outcome == ExecutionOutcome::Failed && failures >= i64::MAX ==> after.total_failures
                == i64::MAX
            &&& outcome != ExecutionOutcome::Failed && failures <= i64::MAX ==> after.total_failures
                == failures
            &&& duration_ms matches Some(ms) ==> (time + ms <= i64::MAX ==> after.total_duration_ms
                == time + ms)
            &&& duration_ms matches Some(ms) ==> (time + ms > i64::MAX ==> after.total_duration_ms
                == i64::MAX)
            &&& duration_ms is None && time <= i64::MAX ==> after.total_duration_ms == time
        }),
{
}

} // verus!
