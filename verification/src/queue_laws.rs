//! What the queue's operations keep, whatever the order they come in.
use crate::moment::{
    lemma_stored_later, lemma_whole_millis, stored_instant, valid_instant, whole_millis,
};
use crate::queue::{same_run, RowState, TaskState, TaskStatus};
use crate::seqs::{
    lemma_filter_at, lemma_filter_from, lemma_filter_grows, lemma_filter_none, lemma_filter_step,
};
use crate::task_queue::{
    all_placed, claim_all, claimable, claimed_rows, completed, distinct_ids, due_rows,
    exhausted_rows, has_id, has_kind, in_order, interrupted_rows, lemma_place, lemma_placed,
    pending_of, place, placed, without, TaskCompletion,
};
use vstd::prelude::*;

verus! {

proof fn lemma_placed_members(rows: Seq<RowState>, row: RowState)
    ensures
        placed(rows, row).len() == rows.len() + 1,
        forall|i: int|
            0 <= i < placed(rows, row).len() ==> #[trigger] placed(rows, row)[i] == row
                || rows.contains(placed(rows, row)[i]),
{
    lemma_place(rows, row);
    let at = place(rows, row);
    let grown = placed(rows, row);
    assert forall|i: int| 0 <= i < grown.len() implies #[trigger] grown[i] == row || rows.contains(
        grown[i],
    ) by {
        if i < at {
            assert(grown[i] == rows[i]);
        } else if i > at {
            assert(grown[i] == rows[i - 1]);
        }
    }
}

proof fn lemma_all_placed_members(rows: Seq<RowState>, more: Seq<RowState>)
    ensures
        forall|i: int|
            0 <= i < all_placed(rows, more).len() ==> rows.contains(
                #[trigger] all_placed(rows, more)[i],
            ) || more.contains(all_placed(rows, more)[i]),
    decreases more.len(),
{
    if more.len() == 0 {
        assert forall|i: int| 0 <= i < rows.len() implies rows.contains(#[trigger] rows[i]) by {}
    } else {
        let less = all_placed(rows, more.drop_last());
        let all = all_placed(rows, more);
        lemma_all_placed_members(rows, more.drop_last());
        lemma_placed_members(less, more.last());
        assert forall|i: int| 0 <= i < all.len() implies rows.contains(#[trigger] all[i])
            || more.contains(all[i]) by {
            if all[i] == more.last() {
                assert(more[more.len() - 1] == all[i]);
            } else {
                let j = less.index_of(all[i]);
                assert(less[j] == all[i]);
                if !rows.contains(less[j]) {
                    let k = more.drop_last().index_of(less[j]);
                    assert(more[k] == all[i]);
                }
            }
        }
    }
}

// ---------------------------------------------------------------- no overlap
/// Whether no kind has two rows: one kind never piles up or overlaps.
pub open spec fn one_per_kind(rows: Seq<RowState>) -> bool {
    forall|i: int, j: int|
        0 <= i < j < rows.len() ==> (#[trigger] rows[i]).task.kind != (
        #[trigger] rows[j]).task.kind
}

/// An insert that was gated on no active row of its kind keeps one row per
/// kind.
pub proof fn law_gated_insert_keeps_one_row_per_kind(rows: Seq<RowState>, row: RowState)
    requires
        one_per_kind(rows),
        !has_kind(rows, row.task.kind),
    ensures
        one_per_kind(placed(rows, row)),
{
    lemma_place(rows, row);
    let at = place(rows, row);
    let grown = placed(rows, row);
    assert forall|i: int, j: int| 0 <= i < j < grown.len() implies (#[trigger] grown[i]).task.kind
        != (#[trigger] grown[j]).task.kind by {
        let a = if i < at { i } else { i - 1 };
        let b = if j < at { j } else { j - 1 };
        if i != at && j != at {
            assert(grown[i] == rows[a] && grown[j] == rows[b]);
        } else if i == at {
            assert(grown[j] == rows[b]);
        } else {
            assert(grown[i] == rows[a]);
        }
    }
}

/// Claiming keeps one row per kind.
pub proof fn law_claim_keeps_one_row_per_kind(
    rows: Seq<RowState>,
    now: int,
    disabled: Seq<Seq<char>>,
    limit: nat,
)
    requires
        one_per_kind(rows),
    ensures
        one_per_kind(claim_all(rows, now, disabled, limit)),
{
    let after = claim_all(rows, now, disabled, limit);
    assert forall|i: int, j: int| 0 <= i < j < after.len() implies (#[trigger] after[i]).task.kind
        != (#[trigger] after[j]).task.kind by {
        assert(rows[i].task.kind != rows[j].task.kind);
    }
}

/// Completing keeps one row per kind.
pub proof fn law_completion_keeps_one_row_per_kind(
    rows: Seq<RowState>,
    i: int,
    completion: TaskCompletion,
)
    requires
        one_per_kind(rows),
        0 <= i < rows.len(),
    ensures
        one_per_kind(completed(rows, i, completion)),
{
    let rest = rows.remove(i);
    assert forall|a: int, b: int| 0 <= a < b < rest.len() implies (#[trigger] rest[a]).task.kind
        != (#[trigger] rest[b]).task.kind by {
        let x = if a < i { a } else { a + 1 };
        let y = if b < i { b } else { b + 1 };
        assert(rest[a] == rows[x] && rest[b] == rows[y]);
    }
    if let TaskCompletion::Retry { error, failed_at, retry_at } = completion {
        let back = rows[i].requeued(error@, failed_at as int, retry_at as int);
        if has_kind(rest, back.task.kind) {
            let a = choose|a: int|
                0 <= a < rest.len() && (#[trigger] rest[a]).task.kind == back.task.kind;
            let x = if a < i { a } else { a + 1 };
            assert(rest[a] == rows[x]);
            assert(x < i ==> rows[x].task.kind != rows[i].task.kind);
            assert(i < x ==> rows[i].task.kind != rows[x].task.kind);
        }
        law_gated_insert_keeps_one_row_per_kind(rest, back);
    }
}

// ---------------------------------------------------------------- budget
/// Whether no run started more attempts than it may: a waiting run has one
/// left, a running one is within its budget.
pub open spec fn within_budget(rows: Seq<RowState>) -> bool {
    forall|i: int| 0 <= i < rows.len() ==> row_within_budget(#[trigger] rows[i])
}

pub open spec fn row_within_budget(row: RowState) -> bool {
    match row.task.status {
        TaskStatus::Pending => row.task.attempts < row.task.max_attempts,
        TaskStatus::Running => row.task.attempts <= row.task.max_attempts,
    }
}

/// Claiming never exceeds the budget.
pub proof fn law_claim_stays_within_budget(
    rows: Seq<RowState>,
    now: int,
    disabled: Seq<Seq<char>>,
    limit: nat,
)
    requires
        within_budget(rows),
    ensures
        within_budget(claim_all(rows, now, disabled, limit)),
{
    let after = claim_all(rows, now, disabled, limit);
    assert forall|i: int| 0 <= i < after.len() implies row_within_budget(#[trigger] after[i]) by {
        assert(row_within_budget(rows[i]));
    }
}

/// A completion keeps the budget as long as a retry is only recorded for a
/// run with an attempt left.
pub proof fn law_completion_stays_within_budget(
    rows: Seq<RowState>,
    i: int,
    completion: TaskCompletion,
)
    requires
        within_budget(rows),
        0 <= i < rows.len(),
        completion is Retry ==> rows[i].task.can_retry(),
    ensures
        within_budget(completed(rows, i, completion)),
{
    let rest = rows.remove(i);
    assert forall|a: int| 0 <= a < rest.len() implies row_within_budget(#[trigger] rest[a]) by {
        assert(rest[a] == rows[if a < i { a } else { a + 1 }]);
    }
    if let TaskCompletion::Retry { error, failed_at, retry_at } = completion {
        let back = rows[i].requeued(error@, failed_at as int, retry_at as int);
        lemma_placed_members(rest, back);
        let after = placed(rest, back);
        assert forall|a: int| 0 <= a < after.len() implies row_within_budget(
            #[trigger] after[a],
        ) by {
            if after[a] != back {
                let b = rest.index_of(after[a]);
                assert(row_within_budget(rest[b]));
            }
        }
    }
}

/// Attempts that the queued runs may still start.
pub open spec fn attempts_left(rows: Seq<RowState>) -> int
    decreases rows.len(),
{
    if rows.len() == 0 {
        0
    } else {
        attempts_left(rows.drop_last()) + rows.last().task.max_attempts - rows.last().task.attempts
    }
}

/// Every claimed run spends one of the attempts that are left. With
/// [`law_completion_adds_no_attempts`], a drain that claims until nothing is
/// due comes to an end, retries without delay included.
pub proof fn law_each_claim_spends_an_attempt(
    rows: Seq<RowState>,
    now: int,
    disabled: Seq<Seq<char>>,
    limit: nat,
)
    requires
        within_budget(rows),
        forall|i: int| 0 <= i < rows.len() ==> (#[trigger] rows[i]).task.max_attempts <= u32::MAX,
    ensures
        attempts_left(claim_all(rows, now, disabled, limit)) == attempts_left(rows) - claimed_rows(
            rows,
            now,
            disabled,
            limit,
        ).len(),
{
    lemma_claims_spend(rows, now, disabled, limit, rows.len() as int);
    let after = claim_all(rows, now, disabled, limit);
    assert(rows.take(rows.len() as int) =~= rows);
    assert(after.take(rows.len() as int) =~= after);
}

proof fn lemma_claims_spend(
    rows: Seq<RowState>,
    now: int,
    disabled: Seq<Seq<char>>,
    limit: nat,
    n: int,
)
    requires
        within_budget(rows),
        forall|i: int| 0 <= i < rows.len() ==> (#[trigger] rows[i]).task.max_attempts <= u32::MAX,
        0 <= n <= rows.len(),
    ensures
        ({
            let due = rows.take(n).filter(due_rows(now, disabled)).len();
            let spent = if due < limit {
                due
            } else {
                limit
            };
            attempts_left(claim_all(rows, now, disabled, limit).take(n)) == attempts_left(
                rows.take(n),
            ) - spent
        }),
    decreases n,
{
    let pick = due_rows(now, disabled);
    let after = claim_all(rows, now, disabled, limit);
    if n == 0 {
        lemma_filter_none(rows, pick);
        assert(after.take(0) =~= Seq::<RowState>::empty());
        assert(rows.take(0) =~= Seq::<RowState>::empty());
    } else {
        lemma_claims_spend(rows, now, disabled, limit, n - 1);
        lemma_filter_step(rows, n - 1, pick);
        assert(rows.take(n).drop_last() =~= rows.take(n - 1));
        assert(after.take(n).drop_last() =~= after.take(n - 1));
        assert(rows.take(n).last() == rows[n - 1]);
        assert(after.take(n).last() == after[n - 1]);
        assert(row_within_budget(rows[n - 1]));
    }
}

/// The end of a run never adds to the attempts that are left, also where it
/// is to be retried.
pub proof fn law_completion_adds_no_attempts(
    rows: Seq<RowState>,
    i: int,
    completion: TaskCompletion,
)
    requires
        within_budget(rows),
        0 <= i < rows.len(),
    ensures
        attempts_left(completed(rows, i, completion)) <= attempts_left(rows),
{
    let rest = rows.remove(i);
    assert(row_within_budget(rows[i]));
    assert(rest.insert(i, rows[i]) =~= rows);
    lemma_attempts_of_insert(rest, i, rows[i]);
    if let TaskCompletion::Retry { error, failed_at, retry_at } = completion {
        let back = rows[i].requeued(error@, failed_at as int, retry_at as int);
        lemma_place(rest, back);
        lemma_attempts_of_insert(rest, place(rest, back), back);
    }
}

proof fn lemma_attempts_of_insert(rows: Seq<RowState>, i: int, row: RowState)
    requires
        0 <= i <= rows.len(),
    ensures
        attempts_left(rows.insert(i, row)) == attempts_left(rows) + row.task.max_attempts
            - row.task.attempts,
    decreases rows.len(),
{
    let more = rows.insert(i, row);
    if i == rows.len() {
        assert(more.drop_last() =~= rows);
    } else {
        lemma_attempts_of_insert(rows.drop_last(), i, row);
        assert(more.drop_last() =~= rows.drop_last().insert(i, row));
        assert(more.last() == rows.last());
    }
}

// ---------------------------------------------------------------- recovery
/// The queue after both halves of startup recovery.
pub open spec fn recovered(rows: Seq<RowState>, error: Seq<char>, now: int) -> Seq<RowState> {
    without(
        all_placed(
            without(rows, interrupted_rows()),
            rows.filter(interrupted_rows()).map_values(
                |row: RowState| row.requeued(error, now, now),
            ),
        ),
        exhausted_rows(),
    )
}

/// Recovery leaves no row running: every orphan of a previous process was
/// requeued or taken out.
pub proof fn law_recovery_leaves_nothing_running(rows: Seq<RowState>, error: Seq<char>, now: int)
    ensures
        forall|i: int|
            0 <= i < recovered(rows, error, now).len() ==> (#[trigger] recovered(
                rows,
                error,
                now,
            )[i]).task.status == TaskStatus::Pending,
{
    let back = |row: RowState| row.requeued(error, now, now);
    let interrupted = interrupted_rows();
    let exhausted = exhausted_rows();
    let kept = without(rows, interrupted);
    let returned = rows.filter(interrupted).map_values(back);
    let requeued = all_placed(kept, returned);
    let after = recovered(rows, error, now);
    lemma_all_placed_members(kept, returned);
    assert forall|i: int| 0 <= i < after.len() implies (#[trigger] after[i]).task.status
        == TaskStatus::Pending by {
        let j = lemma_filter_from(requeued, |row: RowState| !exhausted(row), i);
        if kept.contains(requeued[j]) {
            let k = kept.index_of(requeued[j]);
            let m = lemma_filter_from(rows, |row: RowState| !interrupted(row), k);
        } else {
            let k = returned.index_of(requeued[j]);
            assert(returned[k] == back(rows.filter(interrupted)[k]));
        }
    }
}

/// Recovery keeps the budget: only rows with attempts left wait again.
pub proof fn law_recovery_stays_within_budget(rows: Seq<RowState>, error: Seq<char>, now: int)
    requires
        within_budget(rows),
    ensures
        within_budget(recovered(rows, error, now)),
{
    let back = |row: RowState| row.requeued(error, now, now);
    let interrupted = interrupted_rows();
    let exhausted = exhausted_rows();
    let kept = without(rows, interrupted);
    let returned = rows.filter(interrupted).map_values(back);
    let requeued = all_placed(kept, returned);
    let after = recovered(rows, error, now);
    lemma_all_placed_members(kept, returned);
    assert forall|i: int| 0 <= i < after.len() implies row_within_budget(#[trigger] after[i]) by {
        let j = lemma_filter_from(requeued, |row: RowState| !exhausted(row), i);
        if kept.contains(requeued[j]) {
            let k = kept.index_of(requeued[j]);
            let m = lemma_filter_from(rows, |row: RowState| !interrupted(row), k);
            assert(row_within_budget(rows[m]));
        } else {
            let k = returned.index_of(requeued[j]);
            assert(returned[k] == back(rows.filter(interrupted)[k]));
            let m = lemma_filter_from(rows, interrupted, k);
        }
    }
}

// ---------------------------------------------------------------- claims
/// A row that was claimed is not due again, however the clock moves: no run
/// is handed out twice.
pub proof fn law_claimed_rows_are_not_due_again(
    row: RowState,
    now: int,
    later: int,
    disabled: Seq<Seq<char>>,
)
    ensures
        !row.claimed(now).due(later, disabled),
{
}

/// A claim with room for every due row leaves none due at that instant.
pub proof fn law_ample_claim_drains_the_due_rows(
    rows: Seq<RowState>,
    now: int,
    disabled: Seq<Seq<char>>,
    limit: nat,
)
    requires
        rows.filter(due_rows(now, disabled)).len() <= limit,
    ensures
        forall|i: int|
            0 <= i < rows.len() ==> !(#[trigger] claim_all(rows, now, disabled, limit)[i]).due(
                now,
                disabled,
            ),
        claimed_rows(rows, now, disabled, limit).len() == rows.filter(
            due_rows(now, disabled),
        ).len(),
{
    let pick = due_rows(now, disabled);
    assert forall|i: int| 0 <= i < rows.len() implies !(#[trigger] claim_all(
        rows,
        now,
        disabled,
        limit,
    )[i]).due(now, disabled) by {
        if rows[i].due(now, disabled) {
            lemma_filter_step(rows, i, pick);
            lemma_filter_grows(rows, pick, i + 1, rows.len() as int);
            assert(rows.take(rows.len() as int) =~= rows);
        }
    }
}

/// Once everything due was claimed, the next wake-up lies in the future:
/// neither what runs nor what is disabled wakes the dispatcher early.
pub proof fn law_a_drained_queue_wakes_later(
    rows: Seq<RowState>,
    now: int,
    disabled: Seq<Seq<char>>,
    limit: nat,
)
    requires
        rows.filter(due_rows(now, disabled)).len() <= limit,
    ensures
        forall|i: int|
            0 <= i < rows.len() && claimable(
                #[trigger] claim_all(rows, now, disabled, limit)[i],
                disabled,
            ) ==> now < claim_all(rows, now, disabled, limit)[i].task.scheduled_at,
{
    law_ample_claim_drains_the_due_rows(rows, now, disabled, limit);
    let after = claim_all(rows, now, disabled, limit);
    assert forall|i: int| 0 <= i < rows.len() && claimable(#[trigger] after[i], disabled) implies now
        < after[i].task.scheduled_at by {
        lemma_stored_later(now, after[i].task.scheduled_at);
    }
}



/// A retried run waits out its backoff: it is due from the millisecond of its
/// retry time on and not before, and its attempts still count.
pub proof fn law_retry_waits_out_its_backoff(
    row: RowState,
    error: Seq<char>,
    now: int,
    retry_at: int,
    clock: int,
    disabled: Seq<Seq<char>>,
)
    requires
        !disabled.contains(row.task.kind),
    ensures
        row.requeued(error, now, retry_at).due(clock, disabled) <==> stored_instant(retry_at)
            <= stored_instant(clock),
        row.requeued(error, now, retry_at).task.attempts == row.task.attempts,
{
    lemma_whole_millis(retry_at);
}

/// A run is due from the millisecond that it is scheduled in, also where the
/// clock stands before the scheduled instant within it.
pub proof fn law_a_run_is_due_in_its_millisecond(
    task: TaskState,
    clock: int,
    disabled: Seq<Seq<char>>,
)
    requires
        task.status == TaskStatus::Pending,
        !disabled.contains(task.kind),
        valid_instant(task.scheduled_at),
        valid_instant(clock),
    ensures
        RowState::fresh(task).due(clock, disabled) <==> whole_millis(task.scheduled_at)
            <= whole_millis(clock),
        task.scheduled_at <= clock ==> RowState::fresh(task).due(clock, disabled),
{
    lemma_whole_millis(task.scheduled_at);
    lemma_whole_millis(clock);
}

// ---------------------------------------------------------------- order
/// A new row comes to the queue and touches no other; the queue stays soonest
/// first, and by id among rows of the same instant.
pub proof fn law_placing_adds_one_row_in_its_place(
    rows: Seq<RowState>,
    row: RowState,
    i: int,
    j: int,
)
    requires
        in_order(rows),
        distinct_ids(rows),
        !has_id(rows, row.task.id),
        0 <= i < j < placed(rows, row).len(),
    ensures
        ({
            let after = placed(rows, row);
            after[i].task.scheduled_at < after[j].task.scheduled_at || (after[i].task.scheduled_at
                == after[j].task.scheduled_at && after[i].task.id < after[j].task.id)
        }),
        is_added(rows, placed(rows, row), row),
{
    lemma_placed(rows, row);
    lemma_added(rows, row);
    let after = placed(rows, row);
    assert(after[i].before(after[j]));
}

/// Whether `after` is `rows` and one row more.
pub open spec fn is_added(rows: Seq<RowState>, after: Seq<RowState>, row: RowState) -> bool {
    exists|at: int| 0 <= at < after.len() && after[at] == row && #[trigger] after.remove(at) == rows
}

/// Placing a row adds it.
pub(crate) proof fn lemma_added(rows: Seq<RowState>, row: RowState)
    ensures
        is_added(rows, placed(rows, row), row),
{
    lemma_place(rows, row);
    let after = placed(rows, row);
    let at = place(rows, row);
    assert(after[at] == row);
    assert(after.remove(at) =~= rows);
}

/// A claim starts the due rows that come first, as many as it may: no due row
/// is passed over for a later one, no row that is not due is started, and one
/// is left over only where the limit is reached. What it hands out is what it
/// started.
pub proof fn law_a_claim_takes_the_first_due_rows(
    rows: Seq<RowState>,
    now: int,
    disabled: Seq<Seq<char>>,
    limit: nat,
    i: int,
)
    requires
        0 <= i < rows.len(),
    ensures
        ({
            let after = claim_all(rows, now, disabled, limit);
            let out = claimed_rows(rows, now, disabled, limit);
            &&& after.len() == rows.len()
            &&& out.len() <= limit
            &&& after[i] == rows[i] || after[i] == rows[i].claimed(now)
            &&& !rows[i].due(now, disabled) ==> after[i] == rows[i]
            &&& rows[i].due(now, disabled) && after[i] == rows[i] ==> out.len() == limit
            &&& after[i] != rows[i] ==> out.contains(after[i])
            &&& after[i] != rows[i] ==> forall|j: int|
                0 <= j < i && (#[trigger] rows[j]).due(now, disabled) ==> after[j] != rows[j]
        }),
{
    let pick = due_rows(now, disabled);
    let due = rows.filter(pick);
    let after = claim_all(rows, now, disabled, limit);
    let out = claimed_rows(rows, now, disabled, limit);
    let ahead = rows.take(i).filter(pick).len();
    if rows[i].due(now, disabled) {
        lemma_filter_at(rows, pick, i);
        if ahead < limit {
            assert(out[ahead as int] == after[i]);
            assert forall|j: int| 0 <= j < i && (#[trigger] rows[j]).due(now, disabled) implies
                after[j] != rows[j] by {
                lemma_filter_grows(rows, pick, j, i);
            }
        }
    }
}

/// Every run that a claim hands out was due and is now running in the queue.
pub proof fn law_a_claim_hands_out_only_due_rows(
    rows: Seq<RowState>,
    now: int,
    disabled: Seq<Seq<char>>,
    limit: nat,
    k: int,
)
    requires
        0 <= k < claimed_rows(rows, now, disabled, limit).len(),
    ensures
        exists|j: int|
            0 <= j < rows.len() && (#[trigger] rows[j]).due(now, disabled) && claim_all(
                rows,
                now,
                disabled,
                limit,
            )[j] == claimed_rows(rows, now, disabled, limit)[k],
        claimed_rows(rows, now, disabled, limit)[k].task.status == TaskStatus::Running,
{
    let j = lemma_filter_from(rows, due_rows(now, disabled), k);
    assert(rows[j].due(now, disabled));
}

/// The dispatcher wakes for exactly the rows that a claim would take at their
/// time.
pub proof fn law_a_row_wakes_the_dispatcher_for_a_claim(row: RowState, disabled: Seq<Seq<char>>)
    ensures
        claimable(row, disabled) <==> row.due(row.task.scheduled_at, disabled),
{
}

/// The end of an attempt takes its row out, for good or to wait again: every
/// other row stays, and the one that is retried comes back with its error,
/// its attempts spent, at its retry time.
pub proof fn law_the_end_of_an_attempt_moves_its_row(
    rows: Seq<RowState>,
    i: int,
    completion: TaskCompletion,
)
    requires
        distinct_ids(rows),
        0 <= i < rows.len(),
        rows[i].version < u32::MAX,
        completion matches TaskCompletion::Retry { failed_at, retry_at, .. } ==> valid_instant(
            failed_at as int,
        ) && valid_instant(retry_at as int),
    ensures
        completion is Terminal ==> completed(rows, i, completion) == rows.remove(i) && !has_id(
            completed(rows, i, completion),
            rows[i].task.id,
        ),
        completion matches TaskCompletion::Retry { error, retry_at, .. } ==> exists|back: RowState|
            {
                &&& #[trigger] is_added(rows.remove(i), completed(rows, i, completion), back)
                &&& back.task.status == TaskStatus::Pending
                &&& back.task.attempts == rows[i].task.attempts
                &&& back.task.last_error == Some(error@)
                &&& back.task.scheduled_at == retry_at - retry_at as int % 1_000_000
                &&& same_run(rows[i].task, back.task)
                &&& back.version == rows[i].version + 1
            },
{
    let rest = rows.remove(i);
    if has_id(rest, rows[i].task.id) {
        let a = choose|a: int|
            0 <= a < rest.len() && (#[trigger] rest[a]).task.id == rows[i].task.id;
        let x = if a < i { a } else { a + 1 };
        assert(rest[a] == rows[x]);
        assert(x < i ==> rows[x].task.id != rows[i].task.id);
        assert(i < x ==> rows[i].task.id != rows[x].task.id);
    }
    if let TaskCompletion::Retry { error, failed_at, retry_at } = completion {
        let back = rows[i].requeued(error@, failed_at as int, retry_at as int);
        lemma_added(rest, back);
        assert(is_added(rest, completed(rows, i, completion), back));
    }
}

// ---------------------------------------------------------------- recovery by row
proof fn lemma_placed_keeps(rows: Seq<RowState>, row: RowState, kept: RowState)
    requires
        rows.contains(kept) || kept == row,
    ensures
        placed(rows, row).contains(kept),
{
    lemma_place(rows, row);
    let at = place(rows, row);
    let after = placed(rows, row);
    if kept == row {
        assert(after[at] == kept);
    } else {
        let i = rows.index_of(kept);
        assert(after[if i < at { i } else { i + 1 }] == kept);
    }
}

proof fn lemma_all_placed_keeps(rows: Seq<RowState>, more: Seq<RowState>, kept: RowState)
    requires
        rows.contains(kept) || more.contains(kept),
    ensures
        all_placed(rows, more).contains(kept),
    decreases more.len(),
{
    if more.len() > 0 {
        if kept != more.last() {
            if more.contains(kept) {
                let i = more.index_of(kept);
                assert(more.drop_last()[i] == kept);
            }
            lemma_all_placed_keeps(rows, more.drop_last(), kept);
        }
        lemma_placed_keeps(all_placed(rows, more.drop_last()), more.last(), kept);
    }
}

/// Recovery settles every row by what it was: one that waited is untouched,
/// one that ran with attempts left waits again and is due at once, with its
/// attempts spent and the error of the interruption, and one that ran its
/// last attempt is gone. Nothing else comes into the queue.
pub proof fn law_recovery_settles_every_row(
    rows: Seq<RowState>,
    error: Seq<char>,
    now: int,
    i: int,
)
    requires
        distinct_ids(rows),
        valid_instant(now),
        0 <= i < rows.len(),
        rows[i].version < u32::MAX,
    ensures
        rows[i].task.status == TaskStatus::Pending ==> recovered(rows, error, now).contains(rows[i]),
        rows[i].task.status == TaskStatus::Running && rows[i].task.attempts
            < rows[i].task.max_attempts ==> exists|back: RowState|
            {
                &&& #[trigger] recovered(rows, error, now).contains(back)
                &&& back.task.status == TaskStatus::Pending
                &&& back.task.attempts == rows[i].task.attempts
                &&& back.task.last_error == Some(error)
                &&& back.task.scheduled_at == now - now % 1_000_000
                &&& same_run(rows[i].task, back.task)
                &&& back.version == rows[i].version + 1
            },
        rows[i].task.status == TaskStatus::Running && rows[i].task.attempts
            >= rows[i].task.max_attempts ==> !has_id(recovered(rows, error, now), rows[i].task.id),
        forall|k: int|
            0 <= k < recovered(rows, error, now).len() ==> has_id(
                rows,
                (#[trigger] recovered(rows, error, now)[k]).task.id,
            ),
{
    let back = |row: RowState| row.requeued(error, now, now);
    let interrupted = interrupted_rows();
    let exhausted = exhausted_rows();
    let stays = |row: RowState| !interrupted(row);
    let lives = |row: RowState| !exhausted(row);
    let kept = without(rows, interrupted);
    let picked = rows.filter(interrupted);
    let returned = picked.map_values(back);
    let requeued = all_placed(kept, returned);
    let after = recovered(rows, error, now);
    lemma_all_placed_members(kept, returned);
    assert(after == requeued.filter(lives));
    if rows[i].task.status == TaskStatus::Pending {
        rows.lemma_filter_contains(stays, i);
        lemma_all_placed_keeps(kept, returned, rows[i]);
        requeued.lemma_filter_contains(lives, requeued.index_of(rows[i]));
    } else if rows[i].task.attempts < rows[i].task.max_attempts {
        rows.lemma_filter_contains(interrupted, i);
        let k = picked.index_of(rows[i]);
        assert(returned[k] == back(rows[i]));
        lemma_all_placed_keeps(kept, returned, back(rows[i]));
        requeued.lemma_filter_contains(lives, requeued.index_of(back(rows[i])));
        assert(after.contains(back(rows[i])));
    }
    assert forall|k: int| 0 <= k < after.len() implies has_id(
        rows,
        (#[trigger] after[k]).task.id,
    ) && !(after[k].task.id == rows[i].task.id && rows[i].exhausted()) by {
        let j = lemma_filter_from(requeued, lives, k);
        if kept.contains(requeued[j]) {
            let a = kept.index_of(requeued[j]);
            let m = lemma_filter_from(rows, stays, a);
            assert(rows[m].task.id == after[k].task.id);
            assert(m < i ==> rows[m].task.id != rows[i].task.id);
            assert(i < m ==> rows[i].task.id != rows[m].task.id);
        } else {
            let a = returned.index_of(requeued[j]);
            assert(returned[a] == back(picked[a]));
            let m = lemma_filter_from(rows, interrupted, a);
            assert(rows[m].task.id == after[k].task.id);
            assert(m < i ==> rows[m].task.id != rows[i].task.id);
            assert(i < m ==> rows[i].task.id != rows[m].task.id);
        }
    }
}

/// The runs that recovery ends for good are exactly those that ran their last
/// attempt.
pub proof fn law_recovery_ends_the_last_attempts(
    rows: Seq<RowState>,
    error: Seq<char>,
    now: int,
    row: RowState,
)
    ensures
        all_placed(
            without(rows, interrupted_rows()),
            rows.filter(interrupted_rows()).map_values(
                |row: RowState| row.requeued(error, now, now),
            ),
        ).filter(exhausted_rows()).contains(row) <==> rows.contains(row) && row.task.status
            == TaskStatus::Running && row.task.attempts >= row.task.max_attempts,
{
    let back = |row: RowState| row.requeued(error, now, now);
    let interrupted = interrupted_rows();
    let exhausted = exhausted_rows();
    let stays = |row: RowState| !interrupted(row);
    let kept = without(rows, interrupted);
    let picked = rows.filter(interrupted);
    let returned = picked.map_values(back);
    let requeued = all_placed(kept, returned);
    lemma_all_placed_members(kept, returned);
    if requeued.filter(exhausted).contains(row) {
        let k = requeued.filter(exhausted).index_of(row);
        let j = lemma_filter_from(requeued, exhausted, k);
        if kept.contains(requeued[j]) {
            let a = kept.index_of(requeued[j]);
            let m = lemma_filter_from(rows, stays, a);
            assert(rows[m] == row);
        } else {
            let a = returned.index_of(requeued[j]);
            assert(returned[a] == back(picked[a]));
        }
    }
    if rows.contains(row) && row.task.status == TaskStatus::Running && row.task.attempts
        >= row.task.max_attempts {
        rows.lemma_filter_contains(stays, rows.index_of(row));
        lemma_all_placed_keeps(kept, returned, row);
        requeued.lemma_filter_contains(exhausted, requeued.index_of(row));
    }
}

/// Clearing a kind takes exactly its waiting rows out of the queue: one that
/// runs stays, and so does every row of another kind.
pub proof fn law_clearing_a_kind_takes_its_waiting_rows(
    rows: Seq<RowState>,
    kind: Seq<char>,
    row: RowState,
)
    ensures
        without(rows, pending_of(kind)).contains(row) <==> rows.contains(row) && !(row.task.status
            == TaskStatus::Pending && row.task.kind == kind),
        rows.filter(pending_of(kind)).contains(row) <==> rows.contains(row) && row.task.status
            == TaskStatus::Pending && row.task.kind == kind,
        rows.filter(pending_of(kind)).len() + without(rows, pending_of(kind)).len() == rows.len(),
{
    let picked = pending_of(kind);
    let stays = |row: RowState| !picked(row);
    lemma_filter_split(rows, picked);
    if rows.contains(row) {
        let at = rows.index_of(row);
        if picked(row) {
            rows.lemma_filter_contains(picked, at);
        } else {
            rows.lemma_filter_contains(stays, at);
        }
    }
    if rows.filter(picked).contains(row) {
        rows.lemma_filter_contains_rev(picked, row);
        rows.lemma_filter_pred(picked, rows.filter(picked).index_of(row));
    }
    if rows.filter(stays).contains(row) {
        rows.lemma_filter_contains_rev(stays, row);
        rows.lemma_filter_pred(stays, rows.filter(stays).index_of(row));
    }
}

proof fn lemma_filter_split(rows: Seq<RowState>, pick: spec_fn(RowState) -> bool)
    ensures
        rows.filter(pick).len() + without(rows, pick).len() == rows.len(),
    decreases rows.len(),
{
    reveal(Seq::filter);
    if rows.len() > 0 {
        lemma_filter_split(rows.drop_last(), pick);
    }
}

} // verus!
