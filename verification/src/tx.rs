//! The transaction lifecycle protocol.
//!
//! One invocation of the executor walks the state machine
//! `Idle -> Opening -> Open -> {Committing -> Committed | RollingBack ->
//! RolledBack}`, where `Opening`, `Committing` and `RollingBack` may each
//! fail into the terminal `Failed` state. The executable layer below the
//! machine is the set of decision functions the executor runs between its
//! driver calls: what to do after opening, after the caller's logic, after
//! commit and after rollback.

use vstd::prelude::*;

use sea_orm::DbErr;

use crate::error::Error;

verus! {

/// One invocation's position in the transaction lifecycle.
#[derive(Clone, Copy, Debug, PartialEq, Eq, Structural)]
pub enum TxState {
    /// No transaction yet.
    Idle,
    /// A transaction is being opened against the connection.
    Opening,
    /// The transaction is open and the caller's logic is running.
    Open,
    /// The logic succeeded; the transaction is being committed.
    Committing,
    /// The logic failed; the transaction is being rolled back.
    RollingBack,
    /// Terminal: everything the logic did is durably persisted.
    Committed,
    /// Terminal: everything the logic did is undone.
    RolledBack,
    /// Terminal: a driver call failed; the invocation reports a database
    /// error.
    Failed,
}

/// The allowed transitions of the lifecycle machine.
pub open spec fn tx_step(pre: TxState, post: TxState) -> bool {
    ||| (pre == TxState::Idle && post == TxState::Opening)
    ||| (pre == TxState::Opening && post == TxState::Open)
    ||| (pre == TxState::Opening && post == TxState::Failed)
    ||| (pre == TxState::Open && post == TxState::Committing)
    ||| (pre == TxState::Open && post == TxState::RollingBack)
    ||| (pre == TxState::Committing && post == TxState::Committed)
    ||| (pre == TxState::Committing && post == TxState::Failed)
    ||| (pre == TxState::RollingBack && post == TxState::RolledBack)
    ||| (pre == TxState::RollingBack && post == TxState::Failed)
}

/// How far through the lifecycle a state is. Every allowed transition
/// strictly increases the phase, so no state is ever revisited.
pub open spec fn tx_phase(s: TxState) -> int {
    match s {
        TxState::Idle => 0,
        TxState::Opening => 1,
        TxState::Open => 2,
        TxState::Committing => 3,
        TxState::RollingBack => 3,
        TxState::Committed => 4,
        TxState::RolledBack => 4,
        TxState::Failed => 4,
    }
}

/// A possible history of one invocation: it starts at `Idle` and only takes
/// allowed transitions.
pub open spec fn valid_trace(t: Seq<TxState>) -> bool {
    &&& t.len() >= 1
    &&& t[0] == TxState::Idle
    &&& forall|i: int| 0 <= i < t.len() - 1 ==> #[trigger] tx_step(t[i], t[i + 1])
}

/// Each allowed transition strictly increases the phase.
pub proof fn lemma_step_increases_phase(pre: TxState, post: TxState)
    requires
        tx_step(pre, post),
    ensures
        tx_phase(pre) < tx_phase(post),
{
}

/// Along a valid trace the phase strictly increases, so no state occurs
/// twice.
pub proof fn lemma_trace_phase_monotone(t: Seq<TxState>, i: int, j: int)
    requires
        valid_trace(t),
        0 <= i < j < t.len(),
    ensures
        tx_phase(t[i]) < tx_phase(t[j]),
    decreases j - i,
{
    if j == i + 1 {
        lemma_step_increases_phase(t[i], t[j]);
    } else {
        lemma_trace_phase_monotone(t, i, j - 1);
        assert(tx_step(t[j - 1], t[j - 1 + 1]));
        lemma_step_increases_phase(t[j - 1], t[j]);
    }
}

/// Law: for one invocation, at most one of commit and rollback ever
/// executes — no valid history contains both `Committing` and
/// `RollingBack`, nor either of them twice.
pub proof fn lemma_commit_rollback_exclusive(t: Seq<TxState>, i: int, j: int)
    requires
        valid_trace(t),
        0 <= i < t.len(),
        0 <= j < t.len(),
        i != j,
    ensures
        !(t[i] == TxState::Committing && t[j] == TxState::Committing),
        !(t[i] == TxState::Committing && t[j] == TxState::RollingBack),
        !(t[i] == TxState::RollingBack && t[j] == TxState::RollingBack),
    {
    if i < j {
        lemma_trace_phase_monotone(t, i, j);
    } else {
        lemma_trace_phase_monotone(t, j, i);
    }
}

/// Law: if opening the transaction fails, the caller's logic never runs —
/// a valid history in which `Opening` steps to `Failed` never contains
/// `Open`.
pub proof fn lemma_opening_failure_skips_logic(t: Seq<TxState>, i: int, j: int)
    requires
        valid_trace(t),
        0 <= i < t.len() - 1,
        t[i] == TxState::Opening,
        t[i + 1] == TxState::Failed,
        0 <= j < t.len(),
    ensures
        t[j] != TxState::Open,
{
    if j < i {
        lemma_trace_phase_monotone(t, j, i);
    } else if j > i + 1 {
        lemma_trace_phase_monotone(t, i + 1, j);
    }
}

/// The history one executor invocation writes, given which of its driver
/// calls succeed: opening, and then — once the logic's outcome has picked
/// commit or rollback — that finishing call. When opening fails there is
/// no finishing call and no logic run at all.
pub open spec fn invocation_trace(begin_ok: bool, logic_ok: bool, finish_ok: bool) -> Seq<
    TxState,
> {
    if !begin_ok {
        seq![TxState::Idle, TxState::Opening, TxState::Failed]
    } else if logic_ok {
        if finish_ok {
            seq![
                TxState::Idle,
                TxState::Opening,
                TxState::Open,
                TxState::Committing,
                TxState::Committed,
            ]
        } else {
            seq![
                TxState::Idle,
                TxState::Opening,
                TxState::Open,
                TxState::Committing,
                TxState::Failed,
            ]
        }
    } else {
        if finish_ok {
            seq![
                TxState::Idle,
                TxState::Opening,
                TxState::Open,
                TxState::RollingBack,
                TxState::RolledBack,
            ]
        } else {
            seq![
                TxState::Idle,
                TxState::Opening,
                TxState::Open,
                TxState::RollingBack,
                TxState::Failed,
            ]
        }
    }
}

/// Law: however its driver calls turn out, one invocation walks the
/// lifecycle machine from `Idle` into a terminal state — its history is a
/// valid trace, and no outcome is reported while the transaction is still
/// open.
pub proof fn lemma_invocation_walks_the_machine(begin_ok: bool, logic_ok: bool, finish_ok: bool)
    ensures
        valid_trace(invocation_trace(begin_ok, logic_ok, finish_ok)),
        tx_phase(invocation_trace(begin_ok, logic_ok, finish_ok).last()) == 4,
{
    let t = invocation_trace(begin_ok, logic_ok, finish_ok);
    assert forall|i: int| 0 <= i < t.len() - 1 implies #[trigger] tx_step(t[i], t[i + 1]) by {
        if begin_ok {
            assert(tx_step(t[2], t[3]));
            assert(tx_step(t[3], t[4]));
        }
        assert(tx_step(t[0], t[1]));
        assert(tx_step(t[1], t[2]));
    }
}

/// What the executor does next, decided between its driver calls.
pub enum TxAction<T, E> {
    /// The transaction is open: run the caller's logic.
    RunLogic,
    /// The logic succeeded with this value: commit.
    Commit(T),
    /// The logic failed with this error: roll back.
    Rollback(E),
    /// The invocation is over with this outcome.
    Done(Result<T, Error<E>>),
}

/// Decides the executor's next step once opening the transaction has
/// settled: on success the caller's logic runs; on failure the invocation
/// is over with a database error and the logic is never invoked.
pub fn after_begin<T, E>(begin: Result<(), DbErr>) -> (a: TxAction<T, E>)
    ensures
        begin is Ok ==> a is RunLogic,
        begin matches Err(d) ==> a == TxAction::<T, E>::Done(Err(Error::Database(d))),
{
    match begin {
        Ok(()) => TxAction::RunLogic,
        Err(d) => TxAction::Done(Err(Error::Database(d))),
    }
}

/// Decides the executor's next step once the caller's logic has settled:
/// success is followed by a commit of exactly the returned value, failure
/// by a rollback carrying exactly the caller's error.
pub fn after_logic<T, E>(outcome: Result<T, E>) -> (a: TxAction<T, E>)
    ensures
        outcome matches Ok(v) ==> a == TxAction::<T, E>::Commit(v),
        outcome matches Err(e) ==> a == TxAction::<T, E>::Rollback(e),
{
    match outcome {
        Ok(v) => TxAction::Commit(v),
        Err(e) => TxAction::Rollback(e),
    }
}

/// Decides the invocation's outcome once commit has settled: only a
/// successful commit yields the logic's value; a commit failure overrides
/// logical success, since nothing was durably persisted.
pub fn after_commit<T, E>(value: T, commit: Result<(), DbErr>) -> (r: Result<T, Error<E>>)
    ensures
        commit is Ok ==> r == Ok::<T, Error<E>>(value),
        commit matches Err(d) ==> r == Err::<T, Error<E>>(Error::Database(d)),
{
    match commit {
        Ok(()) => Ok(value),
        Err(d) => Err(Error::Database(d)),
    }
}

/// Decides the invocation's outcome once rollback has settled: after a
/// confirmed rollback the caller's error is reported as a transaction
/// error; a rollback failure takes priority and is reported as a database
/// error, since the transaction's final state is unknown.
pub fn after_rollback<T, E>(err: E, rollback: Result<(), DbErr>) -> (r: Result<T, Error<E>>)
    ensures
        rollback is Ok ==> r == Err::<T, Error<E>>(Error::Transaction(err)),
        rollback matches Err(d) ==> r == Err::<T, Error<E>>(Error::Database(d)),
{
    match rollback {
        Ok(()) => Err(Error::Transaction(err)),
        Err(d) => Err(Error::Database(d)),
    }
}

} // verus!
