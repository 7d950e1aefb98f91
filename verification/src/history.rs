//! The history of finished runs: written once, most recent first, removed
//! only by pruning.
use crate::cursor::{copy_opt, kept_opt, opt_int, opt_stored, opt_text};
use crate::moment;
use crate::queue::{BackgroundTask, TaskKind, TaskState};
use crate::seqs::{lemma_filter_none, lemma_filter_step};
use crate::stats::opt_nat;
use crate::task_queue::{DuplicateId, ExecutionOutcome};
use vstd::prelude::*;

verus! {

/// What is recorded of a finished run.
#[verifier::ext_equal]
pub struct ExecutionState {
    pub id: int,
    pub kind: Seq<char>,
    pub outcome: ExecutionOutcome,
    pub payload: Option<Seq<char>>,
    pub scheduled_at: int,
    pub started_at: Option<int>,
    pub finished_at: int,
    pub attempts: nat,
    pub duration_ms: Option<nat>,
    pub error: Option<Seq<char>>,
    pub created_at: int,
}

impl ExecutionState {
    /// The record as the log keeps it: instants to the millisecond.
    pub open spec fn stored(self) -> ExecutionState {
        ExecutionState {
            scheduled_at: moment::stored_instant(self.scheduled_at),
            started_at: opt_stored(self.started_at),
            finished_at: moment::stored_instant(self.finished_at),
            created_at: moment::stored_instant(self.created_at),
            ..self
        }
    }

    /// Whether this record is listed before another: finished later, or at
    /// the same time with the greater id.
    pub open spec fn ahead_of(self, other: ExecutionState) -> bool {
        self.finished_at > other.finished_at || (self.finished_at == other.finished_at && self.id
            > other.id)
    }
}

/// A finished run.
#[derive(Clone, Debug)]
pub struct TaskExecution {
    pub id: u128,
    pub kind: TaskKind,
    pub outcome: ExecutionOutcome,
    pub payload: Option<String>,
    pub scheduled_at: i128,
    pub started_at: Option<i128>,
    pub finished_at: i128,
    pub attempts: u32,
    pub duration_ms: Option<u64>,
    pub error: Option<String>,
    pub created_at: i128,
}

impl View for TaskExecution {
    type V = ExecutionState;

    open spec fn view(&self) -> ExecutionState {
        ExecutionState {
            id: self.id as int,
            kind: self.kind@,
            outcome: self.outcome,
            payload: opt_text(self.payload),
            scheduled_at: self.scheduled_at as int,
            started_at: opt_int(self.started_at),
            finished_at: self.finished_at as int,
            attempts: self.attempts as nat,
            duration_ms: opt_nat(self.duration_ms),
            error: opt_text(self.error),
            created_at: self.created_at as int,
        }
    }
}

/// The record of a run that finished.
pub open spec fn execution_of(
    task: TaskState,
    outcome: ExecutionOutcome,
    error: Option<Seq<char>>,
    duration_ms: Option<u64>,
    finished_at: int,
) -> ExecutionState {
    ExecutionState {
        id: task.id,
        kind: task.kind,
        outcome,
        payload: task.payload,
        scheduled_at: task.scheduled_at,
        started_at: task.started_at,
        finished_at,
        attempts: task.attempts,
        duration_ms: opt_nat(duration_ms),
        error,
        created_at: task.created_at,
    }
}

impl TaskExecution {
    /// Records a run that finished.
    pub fn of_task(
        task: &BackgroundTask,
        outcome: ExecutionOutcome,
        error: Option<String>,
        duration_ms: Option<u64>,
        finished_at: i128,
    ) -> (record: TaskExecution)
        ensures
            record@ == execution_of(
                task@,
                outcome,
                opt_text(error),
                duration_ms,
                finished_at as int,
            ),
    {
        TaskExecution {
            id: task.id(),
            kind: task.kind().copied(),
            outcome,
            payload: task.payload(),
            scheduled_at: task.scheduled_at(),
            started_at: task.started_at(),
            finished_at,
            attempts: task.attempts(),
            duration_ms,
            error,
            created_at: task.created_at(),
        }
    }

    /// The same record again.
    pub fn copied(&self) -> (same: TaskExecution)
        ensures
            same@ == self@,
    {
        TaskExecution {
            id: self.id,
            kind: self.kind.copied(),
            outcome: self.outcome,
            payload: copy_opt(&self.payload),
            scheduled_at: self.scheduled_at,
            started_at: self.started_at,
            finished_at: self.finished_at,
            attempts: self.attempts,
            duration_ms: self.duration_ms,
            error: copy_opt(&self.error),
            created_at: self.created_at,
        }
    }
}

// ---------------------------------------------------------------- order
/// Whether records are most recent first.
pub open spec fn recent_first(records: Seq<ExecutionState>) -> bool {
    forall|i: int, j: int|
        0 <= i < j < records.len() ==> (#[trigger] records[i]).ahead_of(#[trigger] records[j])
}

/// Whether some record has this id.
pub open spec fn has_execution(records: Seq<ExecutionState>, id: int) -> bool {
    exists|i: int| 0 <= i < records.len() && (#[trigger] records[i]).id == id
}

/// Whether no id occurs twice.
pub open spec fn distinct_executions(records: Seq<ExecutionState>) -> bool {
    forall|i: int, j: int|
        0 <= i < j < records.len() ==> (#[trigger] records[i]).id != (#[trigger] records[j]).id
}

/// How many leading records are listed before `record`.
pub open spec fn rank(records: Seq<ExecutionState>, record: ExecutionState) -> int
    decreases records.len(),
{
    if records.len() > 0 && records[0].ahead_of(record) {
        1 + rank(records.skip(1), record)
    } else {
        0
    }
}

/// `records` with `record` put in its place.
pub open spec fn recorded(records: Seq<ExecutionState>, record: ExecutionState) -> Seq<
    ExecutionState,
> {
    records.insert(rank(records, record), record)
}

pub(crate) proof fn lemma_rank(records: Seq<ExecutionState>, record: ExecutionState)
    ensures
        0 <= rank(records, record) <= records.len(),
        forall|i: int| 0 <= i < rank(records, record) ==> (#[trigger] records[i]).ahead_of(record),
        rank(records, record) < records.len() ==> !records[rank(records, record)].ahead_of(record),
    decreases records.len(),
{
    if records.len() > 0 && records[0].ahead_of(record) {
        let rest = records.skip(1);
        lemma_rank(rest, record);
        assert forall|i: int| 0 <= i < rank(records, record) implies (
        #[trigger] records[i]).ahead_of(record) by {
            if i > 0 {
                assert(rest[i - 1] == records[i]);
            }
        }
        if rank(records, record) < records.len() {
            assert(rest[rank(rest, record)] == records[rank(records, record)]);
        }
    }
}

proof fn lemma_recorded(records: Seq<ExecutionState>, record: ExecutionState)
    requires
        recent_first(records),
        distinct_executions(records),
        !has_execution(records, record.id),
    ensures
        recent_first(recorded(records, record)),
        distinct_executions(recorded(records, record)),
{
    lemma_rank(records, record);
    let at = rank(records, record);
    let grown = recorded(records, record);
    assert forall|i: int, j: int| 0 <= i < j < grown.len() implies (#[trigger] grown[i]).ahead_of(
        #[trigger] grown[j],
    ) && grown[i].id != grown[j].id by {
        let a = if i < at { i } else { i - 1 };
        let b = if j < at { j } else { j - 1 };
        if i != at && j != at {
            assert(grown[i] == records[a] && grown[j] == records[b]);
        } else if i == at {
            assert(grown[j] == records[b]);
            assert(!records[at].ahead_of(record));
            assert(records[b].id != record.id);
            assert(at < b ==> records[at].ahead_of(records[b]));
        } else {
            assert(grown[i] == records[a]);
        }
    }
}

// ---------------------------------------------------------------- the log
/// Finished runs, most recent first.
pub struct RunHistory {
    records: Vec<TaskExecution>,
}

impl View for RunHistory {
    type V = Seq<ExecutionState>;

    closed spec fn view(&self) -> Seq<ExecutionState> {
        self.records@.map_values(|r: TaskExecution| r@)
    }
}

/// Selects the records that finished at `cutoff` or later. Records are kept
/// to the millisecond, and so is the cutoff.
pub open spec fn finished_since(cutoff: int) -> spec_fn(ExecutionState) -> bool {
    |record: ExecutionState| record.finished_at >= moment::whole_millis(cutoff)
}

impl RunHistory {
    /// Most recent first, no id twice.
    pub open spec fn wf(&self) -> bool {
        recent_first(self@) && distinct_executions(self@)
    }

    pub fn new() -> (history: RunHistory)
        ensures
            history.wf(),
            history@ == Seq::<ExecutionState>::empty(),
    {
        let history = RunHistory { records: Vec::new() };
        assert(history@ =~= Seq::<ExecutionState>::empty());
        history
    }

    fn position(&self, id: u128) -> (at: Option<usize>)
        ensures
            at is Some <==> has_execution(self@, id as int),
            at matches Some(i) ==> i < self@.len() && self@[i as int].id == id,
    {
        let mut i: usize = 0;
        while i < self.records.len()
            invariant
                i <= self.records@.len(),
                self@.len() == self.records@.len(),
                forall|j: int| 0 <= j < i ==> (#[trigger] self@[j]).id != id,
            decreases self.records@.len() - i,
        {
            assert(self@[i as int] == self.records@[i as int]@);
            if self.records[i].id == id {
                return Some(i);
            }
            i += 1;
        }
        None
    }

    /// Records a finished run, its instants to the millisecond; a recorded
    /// id is refused and nothing changes.
    pub fn insert(&mut self, record: &TaskExecution) -> (done: Result<(), DuplicateId>)
        requires
            old(self).wf(),
        ensures
            final(self).wf(),
            done is Err <==> has_execution(old(self)@, record@.id),
            done matches Err(e) ==> e.id == record@.id && final(self)@ == old(self)@,
            done is Ok ==> final(self)@ == recorded(old(self)@, record@.stored()),
    {
        let mut stored = record.copied();
        stored.scheduled_at = moment::kept(record.scheduled_at);
        stored.started_at = kept_opt(record.started_at);
        stored.finished_at = moment::kept(record.finished_at);
        stored.created_at = moment::kept(record.created_at);
        self.load(&stored)
    }

    /// Puts back a record that was persisted; a recorded id is refused and
    /// nothing changes.
    pub fn load(&mut self, record: &TaskExecution) -> (done: Result<(), DuplicateId>)
        requires
            old(self).wf(),
        ensures
            final(self).wf(),
            done is Err <==> has_execution(old(self)@, record@.id),
            done matches Err(e) ==> e.id == record@.id && final(self)@ == old(self)@,
            done is Ok ==> final(self)@ == recorded(old(self)@, record@),
    {
        if self.position(record.id).is_some() {
            return Err(DuplicateId { id: record.id });
        }
        let ghost before = self@;
        proof {
            lemma_recorded(before, record@);
        }
        let mut i: usize = 0;
        assert(before.skip(0) =~= before);
        while i < self.records.len() && (self.records[i].finished_at > record.finished_at || (
        self.records[i].finished_at == record.finished_at && self.records[i].id > record.id))
            invariant
                i <= self.records@.len(),
                before == self@,
                before.len() == self.records@.len(),
                rank(before, record@) == i + rank(before.skip(i as int), record@),
            decreases self.records@.len() - i,
        {
            assert(before[i as int] == self.records@[i as int]@);
            assert(before.skip(i as int)[0] == before[i as int]);
            assert(before.skip(i as int).skip(1) =~= before.skip(i + 1));
            i += 1;
        }
        proof {
            if i < before.len() {
                assert(before[i as int] == self.records@[i as int]@);
                assert(before.skip(i as int)[0] == before[i as int]);
            }
        }
        self.records.insert(i, record.copied());
        assert(self@ =~= recorded(before, record@));
        Ok(())
    }

    /// The record with this id.
    pub fn find_by_id(&self, id: u128) -> (record: Option<TaskExecution>)
        ensures
            record is Some <==> has_execution(self@, id as int),
            record matches Some(r) ==> r@.id == id && self@.contains(r@),
    {
        match self.position(id) {
            Some(i) => {
                assert(self@[i as int] == self.records@[i as int]@);
                Some(self.records[i].copied())
            },
            None => None,
        }
    }

    /// The `limit` most recent records.
    pub fn list_recent(&self, limit: u32) -> (records: Vec<TaskExecution>)
        ensures
            records@.len() == (if limit < self@.len() {
                limit as nat
            } else {
                self@.len()
            }),
            forall|i: int| 0 <= i < records@.len() ==> (#[trigger] records@[i])@ == self@[i],
    {
        let mut records: Vec<TaskExecution> = Vec::new();
        let mut i: usize = 0;
        while i < self.records.len() && i < limit as usize
            invariant
                i <= self.records@.len(),
                i <= limit,
                i == records@.len(),
                self@.len() == self.records@.len(),
                forall|j: int| 0 <= j < i ==> (#[trigger] records@[j])@ == self@[j],
            decreases self.records@.len() - i,
        {
            assert(self@[i as int] == self.records@[i as int]@);
            records.push(self.records[i].copied());
            i += 1;
        }
        records
    }

    /// Removes the records that finished before `older_than` and counts
    /// them.
    pub fn prune_finished(&mut self, older_than: i128) -> (removed: u32)
        requires
            old(self).wf(),
            moment::valid_instant(older_than as int),
        ensures
            final(self).wf(),
            final(self)@ == old(self)@.filter(finished_since(older_than as int)),
            removed == (if old(self)@.len() - final(self)@.len() <= u32::MAX {
                old(self)@.len() - final(self)@.len()
            } else {
                u32::MAX as int
            }),
    {
        let ghost before = self@;
        let ghost keep = finished_since(older_than as int);
        let cutoff: i128 = moment::truncated_to_millis(older_than);
        let mut kept: Vec<TaskExecution> = Vec::new();
        let mut i: usize = 0;
        proof {
            lemma_filter_none(before, keep);
            assert(kept@.map_values(|r: TaskExecution| r@) =~= Seq::<ExecutionState>::empty());
        }
        while i < self.records.len()
            invariant
                i <= self.records@.len(),
                before == self@,
                before.len() == self.records@.len(),
                keep == finished_since(older_than as int),
                cutoff == moment::whole_millis(older_than as int),
                kept@.len() <= i,
                kept@.map_values(|r: TaskExecution| r@) == before.take(i as int).filter(keep),
            decreases self.records@.len() - i,
        {
            proof {
                lemma_filter_step(before, i as int, keep);
                assert(before[i as int] == self.records@[i as int]@);
            }
            if self.records[i].finished_at >= cutoff {
                let ghost held = kept@;
                let copy = self.records[i].copied();
                let ghost state = copy@;
                kept.push(copy);
                assert(kept@.map_values(|r: TaskExecution| r@) =~= held.map_values(
                    |r: TaskExecution| r@,
                ).push(state));
            }
            i += 1;
        }
        let removed: usize = self.records.len() - kept.len();
        proof {
            assert(before.take(before.len() as int) =~= before);
            lemma_pruned(before, keep);
        }
        self.records = kept;
        assert(self@ =~= before.filter(keep));
        if removed <= u32::MAX as usize {
            removed as u32
        } else {
            u32::MAX
        }
    }
}

proof fn lemma_pruned(records: Seq<ExecutionState>, keep: spec_fn(ExecutionState) -> bool)
    requires
        recent_first(records),
        distinct_executions(records),
    ensures
        recent_first(records.filter(keep)),
        distinct_executions(records.filter(keep)),
{
    let kept = records.filter(keep);
    assert forall|a: int, b: int| 0 <= a < b < kept.len() implies (#[trigger] kept[a]).ahead_of(
        #[trigger] kept[b],
    ) && kept[a].id != kept[b].id by {
        let i = crate::seqs::lemma_filter_from(records, keep, a);
        let j = crate::seqs::lemma_filter_from(records, keep, b);
        if j <= i {
            crate::seqs::lemma_filter_grows(records, keep, j, i);
        }
    }
}

/// Pruning removes exactly the old records: what finished at the cutoff or
/// later, to the millisecond, stays, and the rest is gone.
pub proof fn law_pruning_keeps_exactly_the_recent(
    records: Seq<ExecutionState>,
    cutoff: int,
    record: ExecutionState,
)
    ensures
        records.filter(finished_since(cutoff)).contains(record) <==> records.contains(record)
            && record.finished_at >= moment::whole_millis(cutoff),
{
    let keep = finished_since(cutoff);
    if records.contains(record) && keep(record) {
        let i = records.index_of(record);
        records.lemma_filter_contains(keep, i);
    }
    if records.filter(keep).contains(record) {
        let k = records.filter(keep).index_of(record);
        let i = crate::seqs::lemma_filter_from(records, keep, k);
    }
}

/// The log lists the latest run first, by the millisecond in which it
/// finished and then by id, and recording adds one record and touches no
/// other.
pub proof fn law_recording_adds_one_record_in_its_place(
    records: Seq<ExecutionState>,
    record: ExecutionState,
    i: int,
    j: int,
)
    requires
        recent_first(records),
        distinct_executions(records),
        !has_execution(records, record.id),
        0 <= i < j < recorded(records, record).len(),
    ensures
        ({
            let after = recorded(records, record);
            &&& after[i].finished_at > after[j].finished_at || (after[i].finished_at
                == after[j].finished_at && after[i].id > after[j].id)
            &&& exists|at: int|
                0 <= at < after.len() && after[at] == record && #[trigger] after.remove(at)
                    == records
        }),
{
    lemma_recorded(records, record);
    lemma_rank(records, record);
    let after = recorded(records, record);
    let at = rank(records, record);
    assert(after[at] == record);
    assert(after.remove(at) =~= records);
    assert(after[i].ahead_of(after[j]));
}

/// A run's record tells of that run: what it was, when it was to run, when it
/// started and finished, how often it was attempted and how it ended, with
/// every instant to the millisecond.
pub proof fn law_a_record_tells_of_its_run(
    task: TaskState,
    outcome: ExecutionOutcome,
    error: Option<Seq<char>>,
    duration_ms: Option<u64>,
    finished_at: int,
)
    requires
        moment::valid_instant(task.scheduled_at),
        moment::valid_instant(task.created_at),
        moment::valid_instant(finished_at),
        task.started_at matches Some(at) ==> moment::valid_instant(at),
    ensures
        ({
            let record = execution_of(task, outcome, error, duration_ms, finished_at).stored();
            &&& (record.id, record.kind, record.payload) == (task.id, task.kind, task.payload)
            &&& record.outcome == outcome
            &&& record.error == error
            &&& record.attempts == task.attempts
            &&& record.duration_ms is Some <==> duration_ms is Some
            &&& duration_ms matches Some(ms) ==> record.duration_ms == Some(ms as nat)
            &&& record.finished_at == finished_at - finished_at % 1_000_000
            &&& record.scheduled_at == task.scheduled_at - task.scheduled_at % 1_000_000
            &&& record.created_at == task.created_at - task.created_at % 1_000_000
            &&& record.started_at is Some <==> task.started_at is Some
            &&& task.started_at matches Some(at) ==> record.started_at == Some(
                at - at % 1_000_000,
            )
        }),
{
}

} // verus!
