//! The queue's operations: insert, claim, complete, recover.
//!
//! A row holds whole milliseconds, as its persisted text does, so that it
//! becomes due at the same instant in memory as by its text.
use crate::queue::{kind_names, BackgroundTask, RowState, TaskKind, TaskStatus, Versioned};
use crate::seqs::{lemma_filter_from, lemma_filter_grows, lemma_filter_none, lemma_filter_step};
use crate::text;
use vstd::prelude::*;

verus! {

// ---------------------------------------------------------------- outcomes
/// How a run ended for good.
#[derive(Clone, Copy, Debug, PartialEq, Eq, Structural)]
pub enum ExecutionOutcome {
    Succeeded,
    NotReady,
    Failed,
}

impl ExecutionOutcome {
    /// The persisted name.
    pub open spec fn name(self) -> Seq<char> {
        match self {
            ExecutionOutcome::Succeeded => "SUCCEEDED"@,
            ExecutionOutcome::NotReady => "NOT_READY"@,
            ExecutionOutcome::Failed => "FAILED"@,
        }
    }

    pub fn as_str(self) -> (name: &'static str)
        ensures
            name@ == self.name(),
    {
        match self {
            ExecutionOutcome::Succeeded => "SUCCEEDED",
            ExecutionOutcome::NotReady => "NOT_READY",
            ExecutionOutcome::Failed => "FAILED",
        }
    }

    /// The value that a persisted name spells.
    pub open spec fn named(raw: Seq<char>) -> Option<ExecutionOutcome> {
        if raw == "SUCCEEDED"@ {
            Some(ExecutionOutcome::Succeeded)
        } else if raw == "NOT_READY"@ {
            Some(ExecutionOutcome::NotReady)
        } else if raw == "FAILED"@ {
            Some(ExecutionOutcome::Failed)
        } else {
            None
        }
    }

    /// Reads a persisted name.
    pub fn from_text(raw: &str) -> (outcome: Option<ExecutionOutcome>)
        ensures
            outcome == ExecutionOutcome::named(raw@),
    {
        if text::same_text(raw, "SUCCEEDED") {
            Some(ExecutionOutcome::Succeeded)
        } else if text::same_text(raw, "NOT_READY") {
            Some(ExecutionOutcome::NotReady)
        } else if text::same_text(raw, "FAILED") {
            Some(ExecutionOutcome::Failed)
        } else {
            None
        }
    }
}

/// What to record when an attempt is over.
#[derive(Clone, Debug)]
pub enum TaskCompletion {
    /// The run is over: its row leaves the queue.
    Terminal { outcome: ExecutionOutcome, error: Option<String>, finished_at: i128 },
    /// The attempt failed and another one is due at `retry_at`.
    Retry { error: String, failed_at: i128, retry_at: i128 },
}

/// What a version-guarded write did.
#[derive(Clone, Copy, Debug, PartialEq, Eq, Structural)]
pub enum WriteOutcome {
    Applied,
    VersionMismatch { expected: u32, actual: u32 },
    Missing,
}

impl WriteOutcome {
    pub fn applied(&self) -> (yes: bool)
        ensures
            yes == (*self is Applied),
    {
        matches!(self, WriteOutcome::Applied)
    }
}

// ---------------------------------------------------------------- order
/// Whether rows are soonest first.
pub open spec fn in_order(rows: Seq<RowState>) -> bool {
    forall|i: int, j: int|
        0 <= i < j < rows.len() ==> (#[trigger] rows[i]).before(#[trigger] rows[j])
}

/// Whether no id occurs twice.
pub open spec fn distinct_ids(rows: Seq<RowState>) -> bool {
    forall|i: int, j: int|
        0 <= i < j < rows.len() ==> (#[trigger] rows[i]).task.id != (#[trigger] rows[j]).task.id
}

/// Whether some row has this id.
pub open spec fn has_id(rows: Seq<RowState>, id: int) -> bool {
    exists|i: int| 0 <= i < rows.len() && (#[trigger] rows[i]).task.id == id
}

/// How many leading rows sort before `row`.
pub open spec fn place(rows: Seq<RowState>, row: RowState) -> int
    decreases rows.len(),
{
    if rows.len() > 0 && rows[0].before(row) {
        1 + place(rows.skip(1), row)
    } else {
        0
    }
}

/// `rows` with `row` put in its place.
pub open spec fn placed(rows: Seq<RowState>, row: RowState) -> Seq<RowState> {
    rows.insert(place(rows, row), row)
}

/// `rows` with each of `more` put in its place.
pub open spec fn all_placed(rows: Seq<RowState>, more: Seq<RowState>) -> Seq<RowState>
    decreases more.len(),
{
    if more.len() == 0 {
        rows
    } else {
        placed(all_placed(rows, more.drop_last()), more.last())
    }
}

pub(crate) proof fn lemma_place(rows: Seq<RowState>, row: RowState)
    ensures
        0 <= place(rows, row) <= rows.len(),
        forall|i: int| 0 <= i < place(rows, row) ==> (#[trigger] rows[i]).before(row),
        place(rows, row) < rows.len() ==> !rows[place(rows, row)].before(row),
    decreases rows.len(),
{
    if rows.len() > 0 && rows[0].before(row) {
        let rest = rows.skip(1);
        lemma_place(rest, row);
        assert forall|i: int| 0 <= i < place(rows, row) implies (#[trigger] rows[i]).before(row) by {
            if i > 0 {
                assert(rest[i - 1] == rows[i]);
            }
        }
        if place(rows, row) < rows.len() {
            assert(rest[place(rest, row)] == rows[place(rows, row)]);
        }
    }
}

pub(crate) proof fn lemma_placed(rows: Seq<RowState>, row: RowState)
    requires
        in_order(rows),
        distinct_ids(rows),
        !has_id(rows, row.task.id),
    ensures
        in_order(placed(rows, row)),
        distinct_ids(placed(rows, row)),
        placed(rows, row).len() == rows.len() + 1,
        forall|id: int|
            #[trigger] has_id(placed(rows, row), id) <==> has_id(rows, id) || id == row.task.id,
{
    lemma_place(rows, row);
    let at = place(rows, row);
    let grown = placed(rows, row);
    assert forall|i: int, j: int| 0 <= i < j < grown.len() implies (#[trigger] grown[i]).before(
        #[trigger] grown[j],
    ) && grown[i].task.id != grown[j].task.id by {
        let a = if i < at { i } else { i - 1 };
        let b = if j < at { j } else { j - 1 };
        if i != at && j != at {
            assert(grown[i] == rows[a] && grown[j] == rows[b]);
        } else if i == at {
            assert(grown[j] == rows[b]);
            assert(!rows[at].before(row));
            assert(rows[b].task.id != row.task.id);
            assert(at < b ==> rows[at].before(rows[b]));
        } else {
            assert(grown[i] == rows[a]);
        }
    }
    assert forall|id: int| #[trigger] has_id(grown, id) <==> has_id(rows, id) || id
        == row.task.id by {
        if has_id(grown, id) {
            let i = choose|i: int| 0 <= i < grown.len() && (#[trigger] grown[i]).task.id == id;
            if i != at {
                assert(rows[if i < at { i } else { i - 1 }].task.id == id);
            }
        }
        if has_id(rows, id) {
            let i = choose|i: int| 0 <= i < rows.len() && (#[trigger] rows[i]).task.id == id;
            assert(grown[if i < at { i } else { i + 1 }].task.id == id);
        }
        assert(grown[at].task.id == row.task.id);
    }
}

// ---------------------------------------------------------------- selection
/// A reason for taking rows out of the queue together.
#[derive(Clone, Debug)]
enum Pick {
    PendingOf(TaskKind),
    Interrupted,
    Exhausted,
}

impl Pick {
    spec fn picks(self, row: RowState) -> bool {
        match self {
            Pick::PendingOf(kind) => pending_of(kind@)(row),
            Pick::Interrupted => row.interrupted(),
            Pick::Exhausted => row.exhausted(),
        }
    }

    fn test(&self, row: &Versioned<BackgroundTask>) -> (yes: bool)
        ensures
            yes == self.picks(row@),
    {
        match self {
            Pick::PendingOf(kind) => row.data.status() == TaskStatus::Pending && text::same_text(
                row.data.kind().as_str(),
                kind.as_str(),
            ),
            Pick::Interrupted => row.data.status() == TaskStatus::Running && row.data.can_retry(),
            Pick::Exhausted => row.data.status() == TaskStatus::Running && !row.data.can_retry(),
        }
    }
}

/// Selects the waiting rows of a kind.
pub open spec fn pending_of(kind: Seq<char>) -> spec_fn(RowState) -> bool {
    |row: RowState| row.task.status == TaskStatus::Pending && row.task.kind == kind
}

/// Selects the rows that were running with attempts left.
pub open spec fn interrupted_rows() -> spec_fn(RowState) -> bool {
    |row: RowState| row.interrupted()
}

/// Selects the rows that were running their final attempt.
pub open spec fn exhausted_rows() -> spec_fn(RowState) -> bool {
    |row: RowState| row.exhausted()
}

/// The rows that a selection leaves.
pub open spec fn without(rows: Seq<RowState>, pick: spec_fn(RowState) -> bool) -> Seq<RowState> {
    rows.filter(|row: RowState| !pick(row))
}

/// Selects the rows that may be claimed.
pub open spec fn due_rows(now: int, disabled: Seq<Seq<char>>) -> spec_fn(RowState) -> bool {
    |row: RowState| row.due(now, disabled)
}

proof fn lemma_filter_keeps_order(rows: Seq<RowState>, pick: spec_fn(RowState) -> bool)
    requires
        in_order(rows),
        distinct_ids(rows),
    ensures
        in_order(rows.filter(pick)),
        distinct_ids(rows.filter(pick)),
        forall|id: int| has_id(rows.filter(pick), id) ==> #[trigger] has_id(rows, id),
{
    let kept = rows.filter(pick);
    assert forall|a: int, b: int| 0 <= a < b < kept.len() implies (#[trigger] kept[a]).before(
        #[trigger] kept[b],
    ) && kept[a].task.id != kept[b].task.id by {
        let i = lemma_filter_from(rows, pick, a);
        let j = lemma_filter_from(rows, pick, b);
        if j <= i {
            lemma_filter_grows(rows, pick, j, i);
        }
    }
    assert forall|id: int| has_id(kept, id) implies #[trigger] has_id(rows, id) by {
        let k = choose|k: int| 0 <= k < kept.len() && (#[trigger] kept[k]).task.id == id;
        let i = lemma_filter_from(rows, pick, k);
        assert(rows[i].task.id == id);
    }
}

// ---------------------------------------------------------------- the queue
/// The live rows of the queue, soonest first.
pub struct TaskQueue {
    rows: Vec<Versioned<BackgroundTask>>,
}

spec fn states(rows: Seq<Versioned<BackgroundTask>>) -> Seq<RowState> {
    rows.map_values(|row: Versioned<BackgroundTask>| row@)
}

impl View for TaskQueue {
    type V = Seq<RowState>;

    closed spec fn view(&self) -> Seq<RowState> {
        states(self.rows@)
    }
}

/// An id that is already queued.
#[derive(Clone, Copy, Debug, PartialEq, Eq, Structural)]
pub struct DuplicateId {
    pub id: u128,
}

/// The queue after a claim: the first `limit` due rows are running.
pub open spec fn claim_all(
    rows: Seq<RowState>,
    now: int,
    disabled: Seq<Seq<char>>,
    limit: nat,
) -> Seq<RowState> {
    Seq::new(
        rows.len(),
        |i: int|
            if rows[i].due(now, disabled) && rows.take(i).filter(due_rows(now, disabled)).len()
                < limit {
                rows[i].claimed(now)
            } else {
                rows[i]
            },
    )
}

/// The rows a claim hands out: the first `limit` due ones, now running.
pub open spec fn claimed_rows(
    rows: Seq<RowState>,
    now: int,
    disabled: Seq<Seq<char>>,
    limit: nat,
) -> Seq<RowState> {
    let due = rows.filter(due_rows(now, disabled));
    due.take(
        if limit < due.len() {
            limit as int
        } else {
            due.len() as int
        },
    ).map_values(|row: RowState| row.claimed(now))
}

impl TaskQueue {
    /// Rows are in order and no id occurs twice.
    pub open spec fn wf(&self) -> bool {
        in_order(self@) && distinct_ids(self@)
    }

    pub fn new() -> (queue: TaskQueue)
        ensures
            queue.wf(),
            queue@ == Seq::<RowState>::empty(),
    {
        let queue = TaskQueue { rows: Vec::new() };
        assert(queue@ =~= Seq::<RowState>::empty());
        queue
    }

    pub fn len(&self) -> (n: usize)
        ensures
            n == self@.len(),
    {
        self.rows.len()
    }

    /// The position of the row with this id.
    fn position(&self, id: u128) -> (at: Option<usize>)
        requires
            self.wf(),
        ensures
            at is Some <==> has_id(self@, id as int),
            at matches Some(i) ==> i < self@.len() && self@[i as int].task.id == id,
    {
        let mut i: usize = 0;
        while i < self.rows.len()
            invariant
                i <= self.rows@.len(),
                self@.len() == self.rows@.len(),
                forall|j: int| 0 <= j < i ==> (#[trigger] self@[j]).task.id != id,
            decreases self.rows@.len() - i,
        {
            assert(self@[i as int] == self.rows@[i as int]@);
            if self.rows[i].data.id() == id {
                return Some(i);
            }
            i += 1;
        }
        None
    }

    /// Puts a row in its place.
    fn place_row(&mut self, row: Versioned<BackgroundTask>)
        ensures
            final(self)@ == placed(old(self)@, row@),
    {
        let ghost before = self@;
        let mut i: usize = 0;
        assert(before.skip(0) =~= before);
        while i < self.rows.len() && self.rows[i].sorts_before(&row)
            invariant
                i <= self.rows@.len(),
                before == states(self.rows@),
                place(before, row@) == i + place(before.skip(i as int), row@),
            decreases self.rows@.len() - i,
        {
            assert(before.skip(i as int)[0] == before[i as int]);
            assert(before.skip(i as int).skip(1) =~= before.skip(i + 1));
            i += 1;
        }
        proof {
            if i < before.len() {
                assert(before.skip(i as int)[0] == before[i as int]);
            }
        }
        self.rows.insert(i, row);
        assert(self@ =~= placed(before, row@));
    }

    /// Queues a run, at version one, its instants to the millisecond. A queued id is refused and nothing
    /// changes.
    pub fn insert(&mut self, task: &BackgroundTask) -> (done: Result<(), DuplicateId>)
        requires
            old(self).wf(),
        ensures
            final(self).wf(),
            done is Err <==> has_id(old(self)@, task@.id),
            done matches Err(e) ==> e.id == task@.id && final(self)@ == old(self)@,
            done is Ok ==> final(self)@ == placed(old(self)@, RowState::fresh(task@)),
    {
        match self.position(task.id()) {
            Some(_) => Err(DuplicateId { id: task.id() }),
            None => {
                proof {
                    lemma_placed(self@, RowState::fresh(task@));
                }
                self.place_row(Versioned { data: task.to_store(), version: 1 });
                Ok(())
            },
        }
    }

    /// Puts back a row that was persisted with its version.
    pub fn load(&mut self, row: Versioned<BackgroundTask>) -> (done: Result<(), DuplicateId>)
        requires
            old(self).wf(),
        ensures
            final(self).wf(),
            done is Err <==> has_id(old(self)@, row@.task.id),
            done matches Err(e) ==> e.id == row@.task.id && final(self)@ == old(self)@,
            done is Ok ==> final(self)@ == placed(old(self)@, row@),
    {
        let id: u128 = row.data.id();
        match self.position(id) {
            Some(_) => Err(DuplicateId { id }),
            None => {
                proof {
                    lemma_placed(self@, row@);
                }
                self.place_row(row);
                Ok(())
            },
        }
    }

    /// The row with this id.
    pub fn find_by_id(&self, id: u128) -> (row: Option<Versioned<BackgroundTask>>)
        requires
            self.wf(),
        ensures
            row is Some <==> has_id(self@, id as int),
            row matches Some(r) ==> r@.task.id == id && self@.contains(r@),
    {
        match self.position(id) {
            Some(i) => {
                assert(self@[i as int] == self.rows@[i as int]@);
                Some(self.rows[i].copied())
            },
            None => None,
        }
    }

    /// The first `limit` rows, soonest first.
    pub fn list_queued(&self, limit: u32) -> (rows: Vec<Versioned<BackgroundTask>>)
        ensures
            rows@.len() == (if limit < self@.len() {
                limit as nat
            } else {
                self@.len()
            }),
            forall|i: int| 0 <= i < rows@.len() ==> (#[trigger] rows@[i])@ == self@[i],
    {
        let mut rows: Vec<Versioned<BackgroundTask>> = Vec::new();
        let mut i: usize = 0;
        while i < self.rows.len() && i < limit as usize
            invariant
                i <= self.rows@.len(),
                i <= limit,
                i == rows@.len(),
                self@ == states(self.rows@),
                forall|j: int| 0 <= j < i ==> (#[trigger] rows@[j])@ == self@[j],
            decreases self.rows@.len() - i,
        {
            rows.push(self.rows[i].copied());
            i += 1;
        }
        rows
    }

    /// Whether a row of `kind` is queued, waiting or running.
    pub fn exists_active(&self, kind: &TaskKind) -> (active: bool)
        ensures
            active == has_kind(self@, kind@),
    {
        self.find_active(kind).is_some()
    }

    /// The soonest row of `kind`.
    pub fn find_active(&self, kind: &TaskKind) -> (row: Option<Versioned<BackgroundTask>>)
        ensures
            row is Some <==> has_kind(self@, kind@),
            row matches Some(r) ==> exists|i: int|
                0 <= i < self@.len() && r@ == #[trigger] self@[i] && self@[i].task.kind == kind@
                    && forall|j: int| 0 <= j < i ==> (#[trigger] self@[j]).task.kind != kind@,
    {
        let mut i: usize = 0;
        while i < self.rows.len()
            invariant
                i <= self.rows@.len(),
                self@ == states(self.rows@),
                forall|j: int| 0 <= j < i ==> (#[trigger] self@[j]).task.kind != kind@,
            decreases self.rows@.len() - i,
        {
            assert(self@[i as int] == self.rows@[i as int]@);
            if text::same_text(self.rows[i].data.kind().as_str(), kind.as_str()) {
                let row = self.rows[i].copied();
                assert(row@ == self@[i as int]);
                return Some(row);
            }
            i += 1;
        }
        None
    }

    /// Claims due rows, soonest first: each becomes running and counts one
    /// more attempt.
    pub fn claim_due(&mut self, now: i128, limit: u32, disabled: &Vec<TaskKind>) -> (claimed: Vec<
        Versioned<BackgroundTask>,
    >)
        requires
            old(self).wf(),
        ensures
            final(self).wf(),
            final(self)@ == claim_all(
                old(self)@,
                now as int,
                kind_names(disabled@),
                limit as nat,
            ),
            claimed@.map_values(|row: Versioned<BackgroundTask>| row@) == claimed_rows(
                old(self)@,
                now as int,
                kind_names(disabled@),
                limit as nat,
            ),
    {
        let ghost before = self@;
        let ghost names = kind_names(disabled@);
        let ghost pick = due_rows(now as int, names);
        let mut claimed: Vec<Versioned<BackgroundTask>> = Vec::new();
        let mut i: usize = 0;
        let ghost all = claim_all(before, now as int, names, limit as nat);
        proof {
            lemma_filter_none(before, pick);
        }
        while i < self.rows.len()
            invariant
                i <= self.rows@.len(),
                self.rows@.len() == before.len(),
                names == kind_names(disabled@),
                pick == due_rows(now as int, names),
                all == claim_all(before, now as int, names, limit as nat),
                forall|j: int| 0 <= j < i ==> (#[trigger] self.rows@[j])@ == all[j],
                forall|j: int| i <= j < before.len() ==> (#[trigger] self.rows@[j])@ == before[j],
                claimed@.len() <= limit,
                claimed@.len() == (if before.take(i as int).filter(pick).len() < limit {
                    before.take(i as int).filter(pick).len()
                } else {
                    limit as nat
                }),
                forall|k: int|
                    0 <= k < claimed@.len() ==> (#[trigger] claimed@[k])@ == before.take(
                        i as int,
                    ).filter(pick)[k].claimed(now as int),
            decreases self.rows@.len() - i,
        {
            let ghost so_far = before.take(i as int).filter(pick);
            proof {
                lemma_filter_step(before, i as int, pick);
            }
            if self.rows[i].is_due(now, disabled) && claimed.len() < limit as usize {
                let row = self.rows[i].claim(now);
                self.rows.set(i, row.copied());
                claimed.push(row);
            }
            i += 1;
        }
        proof {
            assert(self@ =~= all);
            assert(before.take(before.len() as int) =~= before);
            assert(claimed@.map_values(|row: Versioned<BackgroundTask>| row@) =~= claimed_rows(
                before,
                now as int,
                names,
                limit as nat,
            ));
            assert forall|a: int, b: int| 0 <= a < b < all.len() implies (#[trigger] all[a]).before(
                #[trigger] all[b],
            ) && all[a].task.id != all[b].task.id by {
                assert(before[a].before(before[b]));
                assert(before[a].task.id != before[b].task.id);
            }
        }
        claimed
    }

    /// The soonest time at which a row becomes claimable: the dispatcher's
    /// sleep watermark.
    pub fn next_due_at(&self, disabled: &Vec<TaskKind>) -> (at: Option<i128>)
        requires
            self.wf(),
        ensures
            at is Some <==> exists|i: int|
                0 <= i < self@.len() && claimable(#[trigger] self@[i], kind_names(disabled@)),
            at matches Some(t) ==> {
                &&& exists|i: int|
                    0 <= i < self@.len() && claimable(#[trigger] self@[i], kind_names(disabled@))
                        && self@[i].task.scheduled_at == t
                &&& forall|i: int|
                    0 <= i < self@.len() && claimable(#[trigger] self@[i], kind_names(disabled@))
                        ==> t <= self@[i].task.scheduled_at
            },
    {
        let ghost names = kind_names(disabled@);
        let mut i: usize = 0;
        while i < self.rows.len()
            invariant
                i <= self.rows@.len(),
                self.wf(),
                self@ == states(self.rows@),
                names == kind_names(disabled@),
                forall|j: int| 0 <= j < i ==> !claimable(#[trigger] self@[j], names),
            decreases self.rows@.len() - i,
        {
            assert(self@[i as int] == self.rows@[i as int]@);
            let at: i128 = self.rows[i].data.scheduled_at();
            if self.rows[i].is_due(at, disabled) {
                assert forall|j: int|
                    0 <= j < self@.len() && claimable(#[trigger] self@[j], names) implies at
                    <= self@[j].task.scheduled_at by {
                    if i < j {
                        assert(self@[i as int].before(self@[j]));
                    }
                }
                return Some(at);
            }
            i += 1;
        }
        None
    }

    /// Records the end of an attempt. Only the version that was claimed may
    /// record it; a stale one changes nothing.
    pub fn complete(&mut self, id: u128, expected_version: u32, completion: &TaskCompletion) -> (
        outcome: WriteOutcome)
        requires
            old(self).wf(),
        ensures
            final(self).wf(),
            guarded(old(self)@, id as int, expected_version, outcome),
            !(outcome is Applied) ==> final(self)@ == old(self)@,
            outcome is Applied ==> exists|i: int|
                0 <= i < old(self)@.len() && (#[trigger] old(self)@[i]).task.id == id
                    && old(self)@[i].version == expected_version && final(self)@ == completed(
                    old(self)@,
                    i,
                    *completion,
                ),
    {
        let at: usize = match self.position(id) {
            Some(i) => i,
            None => {
                return WriteOutcome::Missing;
            },
        };
        let ghost before = self@;
        assert(before[at as int] == self.rows@[at as int]@);
        if self.rows[at].version != expected_version {
            return WriteOutcome::VersionMismatch {
                expected: expected_version,
                actual: self.rows[at].version,
            };
        }
        let row = self.rows.remove(at);
        let ghost rest = self@;
        proof {
            assert(rest =~= before.remove(at as int));
            assert forall|i: int, j: int| 0 <= i < j < rest.len() implies (
            #[trigger] rest[i]).before(#[trigger] rest[j]) && rest[i].task.id != rest[j].task.id by {
                let a = if i < at { i } else { i + 1 };
                let b = if j < at { j } else { j + 1 };
                assert(rest[i] == before[a] && rest[j] == before[b]);
            }
            if has_id(rest, id as int) {
                let i = choose|i: int| 0 <= i < rest.len() && (#[trigger] rest[i]).task.id == id;
                let a = if i < at { i } else { i + 1 };
                assert(rest[i] == before[a]);
                assert(a < at ==> before[a].task.id != before[at as int].task.id);
                assert(at < a ==> before[at as int].task.id != before[a].task.id);
                assert(false);
            }
        }
        match completion {
            TaskCompletion::Terminal { .. } => {},
            TaskCompletion::Retry { error, failed_at, retry_at } => {
                let back = row.requeue(error.as_str(), *failed_at, *retry_at);
                proof {
                    lemma_placed(rest, back@);
                }
                self.place_row(back);
            },
        }
        WriteOutcome::Applied
    }

    /// Takes the picked rows out, in order.
    fn take_out(&mut self, pick: &Pick) -> (taken: Vec<Versioned<BackgroundTask>>)
        ensures
            final(self)@ == old(self)@.filter(|row: RowState| !pick.picks(row)),
            states(taken@) == old(self)@.filter(|row: RowState| pick.picks(row)),
    {
        let ghost before = self@;
        let ghost yes = |row: RowState| pick.picks(row);
        let ghost no = |row: RowState| !pick.picks(row);
        let mut kept: Vec<Versioned<BackgroundTask>> = Vec::new();
        let mut taken: Vec<Versioned<BackgroundTask>> = Vec::new();
        let mut i: usize = 0;
        proof {
            lemma_filter_none(before, yes);
            lemma_filter_none(before, no);
        }
        assert(states(kept@) =~= Seq::<RowState>::empty());
        while i < self.rows.len()
            invariant
                i <= self.rows@.len(),
                before == states(self.rows@),
                yes == (|row: RowState| pick.picks(row)),
                no == (|row: RowState| !pick.picks(row)),
                states(taken@) == before.take(i as int).filter(yes),
                states(kept@) == before.take(i as int).filter(no),
            decreases self.rows@.len() - i,
        {
            proof {
                lemma_filter_step(before, i as int, yes);
                lemma_filter_step(before, i as int, no);
            }
            let row = self.rows[i].copied();
            let ghost state = row@;
            if pick.test(&row) {
                let ghost held = taken@;
                taken.push(row);
                assert(states(taken@) =~= states(held).push(state));
            } else {
                let ghost held = kept@;
                kept.push(row);
                assert(states(kept@) =~= states(held).push(state));
            }
            i += 1;
        }
        assert(before.take(before.len() as int) =~= before);
        self.rows = kept;
        taken
    }

    /// Removes the waiting rows of `kind` and returns them; running rows
    /// stay.
    pub fn take_pending(&mut self, kind: &TaskKind) -> (taken: Vec<Versioned<BackgroundTask>>)
        requires
            old(self).wf(),
        ensures
            final(self).wf(),
            final(self)@ == without(old(self)@, pending_of(kind@)),
            taken@.map_values(|row: Versioned<BackgroundTask>| row@) == old(self)@.filter(
                pending_of(kind@),
            ),
    {
        let pick = Pick::PendingOf(kind.copied());
        proof {
            let f = pending_of(kind@);
            assert((|row: RowState| pick.picks(row)) =~= f);
            assert((|row: RowState| !pick.picks(row)) =~= (|row: RowState| !f(row)));
            lemma_filter_keeps_order(self@, |row: RowState| !f(row));
        }
        self.take_out(&pick)
    }

    /// Startup recovery, first half: rows a previous process left running,
    /// with attempts left, wait again and are due at once.
    pub fn requeue_interrupted(&mut self, error: &str, now: i128) -> (requeued: u32)
        requires
            old(self).wf(),
        ensures
            final(self).wf(),
            final(self)@ == all_placed(
                without(old(self)@, interrupted_rows()),
                old(self)@.filter(interrupted_rows()).map_values(
                    |row: RowState| row.requeued(error@, now as int, now as int),
                ),
            ),
            requeued == (if old(self)@.filter(interrupted_rows()).len() <= u32::MAX {
                old(self)@.filter(interrupted_rows()).len()
            } else {
                u32::MAX as nat
            }),
    {
        let ghost before = self@;
        let pick = Pick::Interrupted;
        let ghost f = interrupted_rows();
        let ghost back = |row: RowState| row.requeued(error@, now as int, now as int);
        proof {
            assert((|row: RowState| pick.picks(row)) =~= f);
            assert((|row: RowState| !pick.picks(row)) =~= (|row: RowState| !f(row)));
            lemma_filter_keeps_order(before, |row: RowState| !f(row));
            lemma_filter_keeps_order(before, f);
        }
        let taken = self.take_out(&pick);
        let ghost kept = self@;
        let ghost picked = before.filter(f);
        let ghost returned = picked.map_values(back);
        let mut i: usize = 0;
        assert(returned.take(0) =~= Seq::<RowState>::empty());
        proof {
            assert forall|k: int| 0 <= k < picked.len() implies !has_id(
                kept,
                (#[trigger] picked[k]).task.id,
            ) by {
                lemma_split_ids(before, f, k);
            }
        }
        while i < taken.len()
            invariant
                i <= taken@.len(),
                picked == states(taken@),
                back == (|row: RowState| row.requeued(error@, now as int, now as int)),
                returned == picked.map_values(back),
                distinct_ids(picked),
                self@ == all_placed(kept, returned.take(i as int)),
                self.wf(),
                forall|k: int|
                    i <= k < picked.len() ==> !has_id(self@, (#[trigger] picked[k]).task.id),
            decreases taken@.len() - i,
        {
            let row = taken[i].requeue(error, now, now);
            proof {
                assert(row@ == returned[i as int]);
                assert(!has_id(self@, picked[i as int].task.id));
                lemma_placed(self@, row@);
                assert(returned.take(i + 1).drop_last() =~= returned.take(i as int));
                assert(returned.take(i + 1).last() == row@);
                assert forall|k: int| i + 1 <= k < picked.len() implies !has_id(
                    placed(self@, row@),
                    (#[trigger] picked[k]).task.id,
                ) by {
                    assert(picked[i as int].task.id != picked[k].task.id);
                    assert(!has_id(self@, picked[k].task.id));
                }
            }
            self.place_row(row);
            i += 1;
        }
        assert(returned.take(returned.len() as int) =~= returned);
        if taken.len() <= u32::MAX as usize {
            taken.len() as u32
        } else {
            u32::MAX
        }
    }

    /// Startup recovery, second half: rows a previous process left running
    /// on their final attempt leave the queue and are returned.
    pub fn take_exhausted_running(&mut self) -> (taken: Vec<Versioned<BackgroundTask>>)
        requires
            old(self).wf(),
        ensures
            final(self).wf(),
            final(self)@ == without(old(self)@, exhausted_rows()),
            taken@.map_values(|row: Versioned<BackgroundTask>| row@) == old(self)@.filter(
                exhausted_rows(),
            ),
    {
        let pick = Pick::Exhausted;
        proof {
            let f = exhausted_rows();
            assert((|row: RowState| pick.picks(row)) =~= f);
            assert((|row: RowState| !pick.picks(row)) =~= (|row: RowState| !f(row)));
            lemma_filter_keeps_order(self@, |row: RowState| !f(row));
        }
        self.take_out(&pick)
    }
}

proof fn lemma_split_ids(rows: Seq<RowState>, pick: spec_fn(RowState) -> bool, k: int)
    requires
        distinct_ids(rows),
        0 <= k < rows.filter(pick).len(),
    ensures
        !has_id(rows.filter(|row: RowState| !pick(row)), rows.filter(pick)[k].task.id),
{
    let other = |row: RowState| !pick(row);
    let rest = rows.filter(other);
    let id = rows.filter(pick)[k].task.id;
    let i = lemma_filter_from(rows, pick, k);
    if has_id(rest, id) {
        let m = choose|m: int| 0 <= m < rest.len() && (#[trigger] rest[m]).task.id == id;
        let j = lemma_filter_from(rows, other, m);
        assert(i != j);
        assert(i < j ==> rows[i].task.id != rows[j].task.id);
        assert(j < i ==> rows[j].task.id != rows[i].task.id);
    }
}

/// Whether some row is of this kind.
pub open spec fn has_kind(rows: Seq<RowState>, kind: Seq<char>) -> bool {
    exists|i: int| 0 <= i < rows.len() && (#[trigger] rows[i]).task.kind == kind
}

/// Whether a row waits and its kind is not disabled.
pub open spec fn claimable(row: RowState, disabled: Seq<Seq<char>>) -> bool {
    row.task.status == TaskStatus::Pending && !disabled.contains(row.task.kind)
}

/// What a write to the row of `id`, guarded by a version, comes to: it is
/// applied where the row has that version, and refused where the row has
/// another or is gone.
pub open spec fn guarded(
    rows: Seq<RowState>,
    id: int,
    version: u32,
    outcome: WriteOutcome,
) -> bool {
    match outcome {
        WriteOutcome::Missing => !has_id(rows, id),
        WriteOutcome::VersionMismatch { expected, actual } => expected == version && actual
            != version && exists|i: int|
            0 <= i < rows.len() && (#[trigger] rows[i]).task.id == id && rows[i].version == actual,
        WriteOutcome::Applied => exists|i: int|
            0 <= i < rows.len() && (#[trigger] rows[i]).task.id == id && rows[i].version == version,
    }
}

/// The queue after row `i` recorded the end of its attempt.
pub open spec fn completed(rows: Seq<RowState>, i: int, completion: TaskCompletion) -> Seq<
    RowState,
> {
    match completion {
        TaskCompletion::Terminal { .. } => rows.remove(i),
        TaskCompletion::Retry { error, failed_at, retry_at } => placed(
            rows.remove(i),
            rows[i].requeued(error@, failed_at as int, retry_at as int),
        ),
    }
}

} // verus!
