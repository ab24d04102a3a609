//! The decisions of the transactional store.
//!
//! The store itself is reached through asynchronous calls that this library
//! does not make. What it decides stands here: a transaction is a state
//! machine that is told what the store answered and says what to do next,
//! and each operation that runs inside a transaction is a function from the
//! store's answers to the operation's result.

pub mod admin;
pub mod lease;
pub mod stats;

use crate::apierror::{
    ToErrorCode, HTTP_BACKEND_FAILURE, HTTP_FORBIDDEN, HTTP_NOT_FOUND, HTTP_UNAUTHORIZED,
};
use crate::auth::{is_admin_role_list, lists_role, ROLE_ADMIN};
use vstd::prelude::*;

verus! {

/// A failure reported by the storage driver. Values of this type are only
/// carried along: nothing here reads them.
#[verifier::external_type_specification]
#[verifier::external_body]
pub struct ExSqlxError(sqlx::Error);

/// The lease under which a transaction runs.
#[derive(Debug, Clone, Copy)]
pub enum LeaseKind {
    /// A read lease: it may be held together with other leases
    Read,
    /// The write lease, taken for the named operation
    Write { operation: &'static str },
}

/// The handle of one live transaction, as the workload sees it.
#[derive(Debug, Clone, Copy)]
pub struct Database {
    /// The lease under which the transaction runs
    pub lease: LeaseKind,
}

/// Why a read transaction failed.
#[derive(Debug)]
#[allow(inconsistent_fields)]
pub enum DbReadError<E> {
    /// No read lease could be acquired; the caller may try again
    AcquireRead { source: sqlx::Error },
    /// The workload failed; what it did was rolled back
    Workload { source: E },
    /// The workload succeeded and the commit failed
    Commit(sqlx::Error),
    /// The workload failed and the rollback failed too; `error` is the
    /// message of the workload's failure
    Rollback { source: sqlx::Error, error: String },
}

/// Why a write transaction failed. Every variant names the operation for
/// which the write lease was taken.
#[derive(Debug)]
#[allow(inconsistent_fields)]
pub enum DbWriteError<E> {
    /// The write lease could not be acquired; the caller may try again
    AcquireWrite { source: sqlx::Error, operation: &'static str },
    /// The workload failed; what it did was rolled back
    Workload { source: E, operation: &'static str },
    /// The workload succeeded and the commit failed
    Commit { source: sqlx::Error, operation: &'static str },
    /// The workload failed and the rollback failed too; `error` is the
    /// message of the workload's failure
    Rollback { source: sqlx::Error, operation: &'static str, error: String },
}

/// What the store or the workload answered.
#[derive(Debug)]
pub enum TransactionEvent<T, E> {
    /// The transaction is asked for
    Begin,
    /// The lease was acquired
    Acquired,
    /// The lease could not be acquired
    AcquireFailed(sqlx::Error),
    /// The workload returned a value
    WorkloadSucceeded(T),
    /// The workload returned an error, whose message is `message`
    WorkloadFailed { error: E, message: String },
    /// The commit went through
    Committed,
    /// The commit failed
    CommitFailed(sqlx::Error),
    /// The rollback went through
    RolledBack,
    /// The rollback failed
    RollbackFailed(sqlx::Error),
}

/// How far a transaction has come.
#[derive(Debug)]
pub enum TransactionPhase<T, E> {
    /// Nothing was asked of the store yet
    Idle,
    /// The lease was asked for
    Acquiring,
    /// The lease is held and the workload runs
    Running,
    /// The workload returned this value and the commit was asked for
    Committing(T),
    /// The workload failed with this error and the rollback was asked for
    RollingBack { error: E, message: String },
    /// The transaction is over and its lease is released
    Finished,
}

/// What to do next.
#[derive(Debug)]
pub enum TransactionAction<T, F> {
    /// Acquire the lease
    Acquire(LeaseKind),
    /// Run the workload against this handle
    RunWorkload(Database),
    /// Commit the transaction
    Commit,
    /// Roll the transaction back
    Rollback,
    /// Release the lease, if one is held, and return this result
    Finish(Result<T, F>),
    /// The event answers nothing that was asked: go on waiting
    Ignore,
}

/// Why a transaction failed, whatever its lease.
#[derive(Debug)]
pub enum TransactionFailure<E> {
    Acquire(sqlx::Error),
    Workload(E),
    Commit(sqlx::Error),
    Rollback { source: sqlx::Error, error: String },
}

/// Whether the lease is held in this phase.
pub open spec fn holds_lease<T, E>(phase: TransactionPhase<T, E>) -> bool {
    phase is Running || phase is Committing || phase is RollingBack
}

/// The phase after an event and the action that the event calls for.
///
/// A transaction acquires its lease, runs the workload, and then commits if
/// the workload succeeded and rolls back if it failed. It finishes with the
/// workload's value after a commit that went through, and with a failure in
/// every other case. An event that does not answer the pending action changes
/// nothing.
pub open spec fn transition<T, E>(
    lease: LeaseKind,
    phase: TransactionPhase<T, E>,
    event: TransactionEvent<T, E>,
) -> (TransactionPhase<T, E>, TransactionAction<T, TransactionFailure<E>>) {
    match (phase, event) {
        (TransactionPhase::Idle, TransactionEvent::Begin) => (
            TransactionPhase::Acquiring,
            TransactionAction::Acquire(lease),
        ),
        (TransactionPhase::Acquiring, TransactionEvent::Acquired) => (
            TransactionPhase::Running,
            TransactionAction::RunWorkload(Database { lease }),
        ),
        (TransactionPhase::Acquiring, TransactionEvent::AcquireFailed(source)) => (
            TransactionPhase::Finished,
            TransactionAction::Finish(Err(TransactionFailure::Acquire(source))),
        ),
        (TransactionPhase::Running, TransactionEvent::WorkloadSucceeded(value)) => (
            TransactionPhase::Committing(value),
            TransactionAction::Commit,
        ),
        (TransactionPhase::Running, TransactionEvent::WorkloadFailed { error, message }) => (
            TransactionPhase::RollingBack { error, message },
            TransactionAction::Rollback,
        ),
        (TransactionPhase::Committing(value), TransactionEvent::Committed) => (
            TransactionPhase::Finished,
            TransactionAction::Finish(Ok(value)),
        ),
        (TransactionPhase::Committing(value), TransactionEvent::CommitFailed(source)) => (
            TransactionPhase::Finished,
            TransactionAction::Finish(Err(TransactionFailure::Commit(source))),
        ),
        (TransactionPhase::RollingBack { error, message }, TransactionEvent::RolledBack) => (
            TransactionPhase::Finished,
            TransactionAction::Finish(Err(TransactionFailure::Workload(error))),
        ),
        (
            TransactionPhase::RollingBack { error, message },
            TransactionEvent::RollbackFailed(source),
        ) => (
            TransactionPhase::Finished,
            TransactionAction::Finish(
                Err(TransactionFailure::Rollback { source, error: message }),
            ),
        ),
        (phase, _) => (phase, TransactionAction::Ignore),
    }
}

/// A workload that failed is never committed: the failure calls for a
/// rollback, and from there no event leads to a commit or to success.
pub proof fn lemma_failed_workload_is_rolled_back<T, E>(
    lease: LeaseKind,
    error: E,
    message: String,
    later: TransactionEvent<T, E>,
)
    ensures
        transition::<T, E>(
            lease,
            TransactionPhase::Running,
            TransactionEvent::WorkloadFailed { error, message },
        ).1 is Rollback,
        !(transition::<T, E>(lease, TransactionPhase::RollingBack { error, message }, later).1
            is Commit),
        !(transition::<T, E>(lease, TransactionPhase::RollingBack { error, message }, later).1
            matches TransactionAction::Finish(Ok(_))),
{
}

/// The phase that a run of events leads to.
pub open spec fn phase_after<T, E>(
    lease: LeaseKind,
    phase: TransactionPhase<T, E>,
    events: Seq<TransactionEvent<T, E>>,
) -> TransactionPhase<T, E>
    decreases events.len(),
{
    if events.len() == 0 {
        phase
    } else {
        phase_after(lease, transition(lease, phase, events[0]).0, events.drop_first())
    }
}

/// The action that the last event of a run calls for.
pub open spec fn last_action<T, E>(
    lease: LeaseKind,
    phase: TransactionPhase<T, E>,
    events: Seq<TransactionEvent<T, E>>,
) -> TransactionAction<T, TransactionFailure<E>> {
    transition(lease, phase_after(lease, phase, events.drop_last()), events.last()).1
}

/// Once a workload has failed, no run of later events makes the transaction
/// run the workload again, commit, or succeed.
pub proof fn lemma_failure_is_final<T, E>(
    lease: LeaseKind,
    phase: TransactionPhase<T, E>,
    events: Seq<TransactionEvent<T, E>>,
)
    requires
        phase is RollingBack || phase is Finished,
        events.len() > 0,
    ensures
        phase_after(lease, phase, events) is RollingBack || phase_after(lease, phase, events)
            is Finished,
        !(last_action(lease, phase, events) is Commit),
        !(last_action(lease, phase, events) is RunWorkload),
        !(last_action(lease, phase, events) matches TransactionAction::Finish(Ok(_))),
    decreases events.len(),
{
    let next = transition(lease, phase, events[0]).0;
    assert(next is RollingBack || next is Finished);
    if events.len() == 1 {
        assert(events.drop_last() =~= Seq::<TransactionEvent<T, E>>::empty());
        assert(events.drop_first() =~= Seq::<TransactionEvent<T, E>>::empty());
        assert(events.last() == events[0]);
    } else {
        let rest = events.drop_first();
        lemma_failure_is_final(lease, next, rest);
        assert(rest.last() == events.last());
        assert(events.drop_last().drop_first() =~= rest.drop_last());
        assert(events.drop_last()[0] == events[0]);
        assert(phase_after(lease, phase, events.drop_last()) == phase_after(
            lease,
            next,
            rest.drop_last(),
        ));
    }
}

/// A transaction succeeds only with the value that its workload returned,
/// and only after the commit of that value went through.
pub proof fn lemma_success_follows_commit<T, E>(
    lease: LeaseKind,
    phase: TransactionPhase<T, E>,
    event: TransactionEvent<T, E>,
    value: T,
)
    requires
        transition(lease, phase, event).1 == TransactionAction::<
            T,
            TransactionFailure<E>,
        >::Finish(Ok(value)),
    ensures
        phase == TransactionPhase::<T, E>::Committing(value),
        event is Committed,
{
}

/// A lease is never given up in silence. It is held from the moment it is
/// acquired until the transaction finishes, and the transaction finishes
/// with a lease only from a phase that waits for a commit or a rollback.
pub proof fn lemma_lease_is_resolved<T, E>(
    lease: LeaseKind,
    phase: TransactionPhase<T, E>,
    event: TransactionEvent<T, E>,
)
    ensures
        ({
            let (after, action) = transition(lease, phase, event);
            &&& holds_lease(phase) ==> holds_lease(after) || after is Finished
            &&& holds_lease(phase) && after is Finished ==> phase is Committing || phase
                is RollingBack
            &&& action is Finish <==> (after is Finished && !(phase is Finished))
            &&& phase is Finished ==> after is Finished && action is Ignore
        }),
{
}

/// Makes one step of a transaction under the given lease.
pub fn advance<T, E>(
    lease: LeaseKind,
    phase: TransactionPhase<T, E>,
    event: TransactionEvent<T, E>,
) -> (step: (TransactionPhase<T, E>, TransactionAction<T, TransactionFailure<E>>))
    ensures
        step == transition(lease, phase, event),
{
    match phase {
        TransactionPhase::Idle => match event {
            TransactionEvent::Begin => (
                TransactionPhase::Acquiring,
                TransactionAction::Acquire(lease),
            ),
            _ => (TransactionPhase::Idle, TransactionAction::Ignore),
        },
        TransactionPhase::Acquiring => match event {
            TransactionEvent::Acquired => (
                TransactionPhase::Running,
                TransactionAction::RunWorkload(Database { lease }),
            ),
            TransactionEvent::AcquireFailed(source) => (
                TransactionPhase::Finished,
                TransactionAction::Finish(Err(TransactionFailure::Acquire(source))),
            ),
            _ => (TransactionPhase::Acquiring, TransactionAction::Ignore),
        },
        TransactionPhase::Running => match event {
            TransactionEvent::WorkloadSucceeded(value) => (
                TransactionPhase::Committing(value),
                TransactionAction::Commit,
            ),
            TransactionEvent::WorkloadFailed { error, message } => (
                TransactionPhase::RollingBack { error, message },
                TransactionAction::Rollback,
            ),
            _ => (TransactionPhase::Running, TransactionAction::Ignore),
        },
        TransactionPhase::Committing(value) => match event {
            TransactionEvent::Committed => (
                TransactionPhase::Finished,
                TransactionAction::Finish(Ok(value)),
            ),
            TransactionEvent::CommitFailed(source) => (
                TransactionPhase::Finished,
                TransactionAction::Finish(Err(TransactionFailure::Commit(source))),
            ),
            _ => (TransactionPhase::Committing(value), TransactionAction::Ignore),
        },
        TransactionPhase::RollingBack { error, message } => match event {
            TransactionEvent::RolledBack => (
                TransactionPhase::Finished,
                TransactionAction::Finish(Err(TransactionFailure::Workload(error))),
            ),
            TransactionEvent::RollbackFailed(source) => (
                TransactionPhase::Finished,
                TransactionAction::Finish(
                    Err(TransactionFailure::Rollback { source, error: message }),
                ),
            ),
            _ => (TransactionPhase::RollingBack { error, message }, TransactionAction::Ignore),
        },
        TransactionPhase::Finished => (TransactionPhase::Finished, TransactionAction::Ignore),
    }
}

/// The failure of a read transaction.
pub open spec fn read_failure<E>(failure: TransactionFailure<E>) -> DbReadError<E> {
    match failure {
        TransactionFailure::Acquire(source) => DbReadError::AcquireRead { source },
        TransactionFailure::Workload(source) => DbReadError::Workload { source },
        TransactionFailure::Commit(source) => DbReadError::Commit(source),
        TransactionFailure::Rollback { source, error } => DbReadError::Rollback { source, error },
    }
}

/// The failure of a write transaction for `operation`.
pub open spec fn write_failure<E>(
    operation: &'static str,
    failure: TransactionFailure<E>,
) -> DbWriteError<E> {
    match failure {
        TransactionFailure::Acquire(source) => DbWriteError::AcquireWrite { source, operation },
        TransactionFailure::Workload(source) => DbWriteError::Workload { source, operation },
        TransactionFailure::Commit(source) => DbWriteError::Commit { source, operation },
        TransactionFailure::Rollback { source, error } => DbWriteError::Rollback {
            source,
            operation,
            error,
        },
    }
}

/// The action of a read transaction for an action of the shared machine.
pub open spec fn read_action<T, E>(
    action: TransactionAction<T, TransactionFailure<E>>,
) -> TransactionAction<T, DbReadError<E>> {
    match action {
        TransactionAction::Acquire(lease) => TransactionAction::Acquire(lease),
        TransactionAction::RunWorkload(database) => TransactionAction::RunWorkload(database),
        TransactionAction::Commit => TransactionAction::Commit,
        TransactionAction::Rollback => TransactionAction::Rollback,
        TransactionAction::Finish(Ok(value)) => TransactionAction::Finish(Ok(value)),
        TransactionAction::Finish(Err(failure)) => TransactionAction::Finish(
            Err(read_failure(failure)),
        ),
        TransactionAction::Ignore => TransactionAction::Ignore,
    }
}

/// The action of a write transaction for an action of the shared machine.
pub open spec fn write_action<T, E>(
    operation: &'static str,
    action: TransactionAction<T, TransactionFailure<E>>,
) -> TransactionAction<T, DbWriteError<E>> {
    match action {
        TransactionAction::Acquire(lease) => TransactionAction::Acquire(lease),
        TransactionAction::RunWorkload(database) => TransactionAction::RunWorkload(database),
        TransactionAction::Commit => TransactionAction::Commit,
        TransactionAction::Rollback => TransactionAction::Rollback,
        TransactionAction::Finish(Ok(value)) => TransactionAction::Finish(Ok(value)),
        TransactionAction::Finish(Err(failure)) => TransactionAction::Finish(
            Err(write_failure(operation, failure)),
        ),
        TransactionAction::Ignore => TransactionAction::Ignore,
    }
}

/// Whether an event answers an action: it reports how the action went. No
/// event answers the end of a transaction, nor an event that was ignored.
pub open spec fn answers<T, E, F>(
    action: TransactionAction<T, F>,
    event: TransactionEvent<T, E>,
) -> bool {
    match action {
        TransactionAction::Acquire(_) => event is Acquired || event is AcquireFailed,
        TransactionAction::RunWorkload(_) => event is WorkloadSucceeded || event
            is WorkloadFailed,
        TransactionAction::Commit => event is Committed || event is CommitFailed,
        TransactionAction::Rollback => event is RolledBack || event is RollbackFailed,
        TransactionAction::Finish(_) => false,
        TransactionAction::Ignore => false,
    }
}

/// A transaction that is driven as it asks is never stuck: its beginning is
/// not ignored, and the event that answers the action of a step is not
/// ignored by the next step. This holds of read and of write transactions
/// alike, whose actions differ from those of the shared machine in the
/// failure that they finish with and in nothing else.
pub proof fn lemma_answer_is_never_ignored<T, E>(
    lease: LeaseKind,
    operation: &'static str,
    phase: TransactionPhase<T, E>,
    event: TransactionEvent<T, E>,
    reply: TransactionEvent<T, E>,
)
    ensures
        !(transition::<T, E>(lease, TransactionPhase::Idle, TransactionEvent::Begin).1
            is Ignore),
        answers(transition(lease, phase, event).1, reply) ==> !(transition(
            lease,
            transition(lease, phase, event).0,
            reply,
        ).1 is Ignore),
        answers(read_action(transition(lease, phase, event).1), reply) == answers(
            transition(lease, phase, event).1,
            reply,
        ),
        answers(write_action(operation, transition(lease, phase, event).1), reply)
            == answers(transition(lease, phase, event).1, reply),
        read_action(transition(lease, phase, event).1) is Ignore <==> transition(
            lease,
            phase,
            event,
        ).1 is Ignore,
        write_action(operation, transition(lease, phase, event).1) is Ignore <==> transition(
            lease,
            phase,
            event,
        ).1 is Ignore,
{
}

/// Executes a piece of work in the context of a read transaction, one step
/// at a time. The transaction is committed if the workload succeeds, and
/// rolled back if it fails. A transaction starts in the phase `Idle` with
/// the event `Begin`.
pub fn db_transaction_read<T, E>(
    phase: TransactionPhase<T, E>,
    event: TransactionEvent<T, E>,
) -> (step: (TransactionPhase<T, E>, TransactionAction<T, DbReadError<E>>))
    ensures
        step.0 == transition(LeaseKind::Read, phase, event).0,
        step.1 == read_action(transition(LeaseKind::Read, phase, event).1),
{
    let (after, action) = advance(LeaseKind::Read, phase, event);
    let mapped = match action {
        TransactionAction::Acquire(lease) => TransactionAction::Acquire(lease),
        TransactionAction::RunWorkload(database) => TransactionAction::RunWorkload(database),
        TransactionAction::Commit => TransactionAction::Commit,
        TransactionAction::Rollback => TransactionAction::Rollback,
        TransactionAction::Finish(Ok(value)) => TransactionAction::Finish(Ok(value)),
        TransactionAction::Finish(Err(failure)) => TransactionAction::Finish(
            Err(
                match failure {
                    TransactionFailure::Acquire(source) => DbReadError::AcquireRead { source },
                    TransactionFailure::Workload(source) => DbReadError::Workload { source },
                    TransactionFailure::Commit(source) => DbReadError::Commit(source),
                    TransactionFailure::Rollback { source, error } => DbReadError::Rollback {
                        source,
                        error,
                    },
                },
            ),
        ),
        TransactionAction::Ignore => TransactionAction::Ignore,
    };
    (after, mapped)
}

/// Executes a piece of work in the context of a write transaction for
/// `operation`, one step at a time. The transaction is committed if the
/// workload succeeds, and rolled back if it fails; every failure names the
/// operation. A transaction starts in the phase `Idle` with the event
/// `Begin`.
pub fn db_transaction_write<T, E>(
    operation: &'static str,
    phase: TransactionPhase<T, E>,
    event: TransactionEvent<T, E>,
) -> (step: (TransactionPhase<T, E>, TransactionAction<T, DbWriteError<E>>))
    ensures
        step.0 == transition(LeaseKind::Write { operation }, phase, event).0,
        step.1 == write_action(
            operation,
            transition(LeaseKind::Write { operation }, phase, event).1,
        ),
{
    let (after, action) = advance(LeaseKind::Write { operation }, phase, event);
    let mapped = match action {
        TransactionAction::Acquire(lease) => TransactionAction::Acquire(lease),
        TransactionAction::RunWorkload(database) => TransactionAction::RunWorkload(database),
        TransactionAction::Commit => TransactionAction::Commit,
        TransactionAction::Rollback => TransactionAction::Rollback,
        TransactionAction::Finish(Ok(value)) => TransactionAction::Finish(Ok(value)),
        TransactionAction::Finish(Err(failure)) => TransactionAction::Finish(
            Err(
                match failure {
                    TransactionFailure::Acquire(source) => DbWriteError::AcquireWrite {
                        source,
                        operation,
                    },
                    TransactionFailure::Workload(source) => DbWriteError::Workload {
                        source,
                        operation,
                    },
                    TransactionFailure::Commit(source) => DbWriteError::Commit {
                        source,
                        operation,
                    },
                    TransactionFailure::Rollback { source, error } => DbWriteError::Rollback {
                        source,
                        operation,
                        error,
                    },
                },
            ),
        ),
        TransactionAction::Ignore => TransactionAction::Ignore,
    };
    (after, mapped)
}

/// Why an identity is refused.
#[derive(Debug)]
pub enum AuthenticationError {
    /// The store failed while the user was looked up
    CheckUser(sqlx::Error),
    /// The store failed while the roles were looked up
    CheckRoles(sqlx::Error),
    /// No active user matches
    Unauthorized,
    /// The user is not known
    Forbidden,
    /// The user is no administrator
    AdministrationIsForbidden,
}

/// Why a package version cannot be used.
#[derive(Debug)]
pub enum CratesError {
    /// The store failed
    Sqlx(sqlx::Error),
    /// The package has no such version
    PackageVersionNotFound { package: String, version: String },
}

/// Why a user may not manage a package.
#[derive(Debug)]
pub enum IsCrateManagerError {
    /// The store failed
    Sqlx(sqlx::Error),
    /// The user is not an owner of this package
    NotOwnerOfPackage,
}

impl<E> DbReadError<E> {
    /// Whether the caller may try the transaction again: only where no lease
    /// could be acquired.
    pub fn is_retryable(&self) -> (retryable: bool)
        ensures
            retryable == (*self is AcquireRead),
    {
        matches!(self, DbReadError::AcquireRead { .. })
    }

    /// Whether the failure puts the integrity of the store in doubt: a commit
    /// or a rollback that failed.
    pub fn is_store_fault(&self) -> (fault: bool)
        ensures
            fault == (*self is Commit || *self is Rollback),
    {
        matches!(self, DbReadError::Commit(_) | DbReadError::Rollback { .. })
    }
}

impl<E> DbWriteError<E> {
    /// Whether the caller may try the transaction again: only where the write
    /// lease could not be acquired.
    pub fn is_retryable(&self) -> (retryable: bool)
        ensures
            retryable == (*self is AcquireWrite),
    {
        matches!(self, DbWriteError::AcquireWrite { .. })
    }

    /// Whether the failure puts the integrity of the store in doubt: a commit
    /// or a rollback that failed.
    pub fn is_store_fault(&self) -> (fault: bool)
        ensures
            fault == (*self is Commit || *self is Rollback),
    {
        matches!(self, DbWriteError::Commit { .. } | DbWriteError::Rollback { .. })
    }

    /// The operation for which the write lease was taken.
    pub fn operation(&self) -> (operation: &'static str)
        ensures
            operation == match *self {
                DbWriteError::AcquireWrite { operation, .. } => operation,
                DbWriteError::Workload { operation, .. } => operation,
                DbWriteError::Commit { operation, .. } => operation,
                DbWriteError::Rollback { operation, .. } => operation,
            },
    {
        match self {
            DbWriteError::AcquireWrite { operation, .. } => operation,
            DbWriteError::Workload { operation, .. } => operation,
            DbWriteError::Commit { operation, .. } => operation,
            DbWriteError::Rollback { operation, .. } => operation,
        }
    }
}

/// Every failure of a write transaction names the operation that the
/// transaction was begun for.
pub proof fn lemma_write_failure_names_operation<E>(
    operation: &'static str,
    failure: TransactionFailure<E>,
)
    ensures
        match write_failure(operation, failure) {
            DbWriteError::AcquireWrite { operation: o, .. } => o == operation,
            DbWriteError::Workload { operation: o, .. } => o == operation,
            DbWriteError::Commit { operation: o, .. } => o == operation,
            DbWriteError::Rollback { operation: o, .. } => o == operation,
        },
{
}

/// The status under which a refused identity is reported: a failure of the
/// store is an internal fault, a missing identity is unauthorized, and a known
/// identity without the right is forbidden.
pub open spec fn authentication_status(error: AuthenticationError) -> u16 {
    match error {
        AuthenticationError::CheckUser(_) => HTTP_BACKEND_FAILURE,
        AuthenticationError::CheckRoles(_) => HTTP_BACKEND_FAILURE,
        AuthenticationError::Unauthorized => HTTP_UNAUTHORIZED,
        AuthenticationError::Forbidden => HTTP_FORBIDDEN,
        AuthenticationError::AdministrationIsForbidden => HTTP_FORBIDDEN,
    }
}

impl ToErrorCode for AuthenticationError {
    fn error_code(&self) -> (code: u16)
        ensures
            code == authentication_status(*self),
    {
        match self {
            AuthenticationError::CheckUser(_) => HTTP_BACKEND_FAILURE,
            AuthenticationError::CheckRoles(_) => HTTP_BACKEND_FAILURE,
            AuthenticationError::Unauthorized => HTTP_UNAUTHORIZED,
            AuthenticationError::Forbidden => HTTP_FORBIDDEN,
            AuthenticationError::AdministrationIsForbidden => HTTP_FORBIDDEN,
        }
    }
}

impl ToErrorCode for CratesError {
    /// A failure of the store is an internal fault; a version that is absent
    /// is not found.
    fn error_code(&self) -> (code: u16)
        ensures
            code == (if *self is Sqlx {
                HTTP_BACKEND_FAILURE
            } else {
                HTTP_NOT_FOUND
            }),
    {
        match self {
            CratesError::Sqlx(_) => HTTP_BACKEND_FAILURE,
            CratesError::PackageVersionNotFound { .. } => HTTP_NOT_FOUND,
        }
    }
}

impl ToErrorCode for IsCrateManagerError {
    /// A failure of the store is an internal fault; a user who does not own
    /// the package is forbidden.
    fn error_code(&self) -> (code: u16)
        ensures
            code == (if *self is Sqlx {
                HTTP_BACKEND_FAILURE
            } else {
                HTTP_FORBIDDEN
            }),
    {
        match self {
            IsCrateManagerError::Sqlx(_) => HTTP_BACKEND_FAILURE,
            IsCrateManagerError::NotOwnerOfPackage => HTTP_FORBIDDEN,
        }
    }
}

/// What remains to be done to find out whether a user manages a package.
#[derive(Debug)]
pub enum ManagerCheck {
    /// The user is an administrator and manages every package
    Granted(i64),
    /// The store must say whether the user owns the package
    AskOwnership { uid: i64 },
}

impl Database {
    /// Checks the security for an operation and returns the identifier of
    /// the target user. `found` is what the store answered when asked for the
    /// active user with the given email.
    pub fn check_is_user(found: Result<Option<i64>, sqlx::Error>) -> (result: Result<
        i64,
        AuthenticationError,
    >)
        ensures
            result == match found {
                Ok(Some(id)) => Ok::<i64, AuthenticationError>(id),
                Ok(None) => Err(AuthenticationError::Unauthorized),
                Err(source) => Err(AuthenticationError::CheckUser(source)),
            },
    {
        match found {
            Ok(Some(id)) => Ok(id),
            Ok(None) => Err(AuthenticationError::Unauthorized),
            Err(source) => Err(AuthenticationError::CheckUser(source)),
        }
    }

    /// Gets whether a user is an admin. `roles` is what the store answered
    /// when asked for the role string of the user: a comma-separated list, in
    /// which the admin role is looked for once the white space around each
    /// piece is dropped.
    pub fn get_is_admin(roles: Result<Option<String>, sqlx::Error>) -> (result: Result<
        bool,
        AuthenticationError,
    >)
        ensures
            result == match roles {
                Ok(Some(list)) => Ok::<bool, AuthenticationError>(
                    lists_role(list@, ROLE_ADMIN@),
                ),
                Ok(None) => Err(AuthenticationError::Forbidden),
                Err(source) => Err(AuthenticationError::CheckRoles(source)),
            },
    {
        match roles {
            Ok(Some(list)) => Ok(is_admin_role_list(list.as_str())),
            Ok(None) => Err(AuthenticationError::Forbidden),
            Err(source) => Err(AuthenticationError::CheckRoles(source)),
        }
    }

    /// Checks that a user is an admin, given what `get_is_admin` found.
    pub fn check_is_admin(is_admin: Result<bool, AuthenticationError>) -> (result: Result<
        (),
        AuthenticationError,
    >)
        ensures
            result == match is_admin {
                Ok(true) => Ok::<(), AuthenticationError>(()),
                Ok(false) => Err(AuthenticationError::AdministrationIsForbidden),
                Err(e) => Err(e),
            },
    {
        match is_admin {
            Ok(true) => Ok(()),
            Ok(false) => Err(AuthenticationError::AdministrationIsForbidden),
            Err(e) => Err(e),
        }
    }

    /// Checks that a package has a version. `found` is what the store
    /// answered when asked for that version of the package.
    pub fn check_crate_exists(
        found: Result<Option<i64>, sqlx::Error>,
        package: &str,
        version: &str,
    ) -> (result: Result<(), CratesError>)
        ensures
            match found {
                Ok(Some(_)) => result is Ok,
                Ok(None) => result matches Err(CratesError::PackageVersionNotFound {
                    package: p,
                    version: v,
                }) && p@ == package@ && v@ == version@,
                Err(source) => result == Err::<(), CratesError>(CratesError::Sqlx(source)),
            },
    {
        match found {
            Ok(Some(_)) => Ok(()),
            Ok(None) => Err(
                CratesError::PackageVersionNotFound {
                    package: package.to_owned(),
                    version: version.to_owned(),
                },
            ),
            Err(source) => Err(CratesError::Sqlx(source)),
        }
    }

    /// Checks the ownership of a package, first part. An administrator
    /// manages every package, so nothing is asked of the store; for anyone
    /// else, and where the check for administration failed, the store must
    /// say whether the user owns the package.
    pub fn check_is_crate_manager(
        uid: i64,
        admin_check: Result<(), AuthenticationError>,
    ) -> (check: ManagerCheck)
        ensures
            check == match admin_check {
                Ok(_) => ManagerCheck::Granted(uid),
                Err(_) => ManagerCheck::AskOwnership { uid },
            },
    {
        match admin_check {
            Ok(_) => ManagerCheck::Granted(uid),
            Err(_) => ManagerCheck::AskOwnership { uid },
        }
    }

    /// Checks the ownership of a package, second part. `owned` is what the
    /// store answered when asked for the ownership of the package by the
    /// user.
    pub fn check_is_crate_owner(uid: i64, owned: Result<Option<i64>, sqlx::Error>) -> (result:
        Result<i64, IsCrateManagerError>)
        ensures
            result == match owned {
                Ok(Some(_)) => Ok::<i64, IsCrateManagerError>(uid),
                Ok(None) => Err(IsCrateManagerError::NotOwnerOfPackage),
                Err(source) => Err(IsCrateManagerError::Sqlx(source)),
            },
    {
        match owned {
            Ok(Some(_)) => Ok(uid),
            Ok(None) => Err(IsCrateManagerError::NotOwnerOfPackage),
            Err(source) => Err(IsCrateManagerError::Sqlx(source)),
        }
    }
}

} // verus!
