use registry_core::database::admin::{
    GlobalTokenRow, TokenCreation, TokenCreationAction, TokenCreationEvent, TokensError,
};
use registry_core::database::stats::{
    unversioned, CrateVersion, CratesStatsError, StatsAnswer, StatsProgress, StatsQuery, StatsStep,
};
use registry_core::apierror::ToErrorCode;
use registry_core::database::{
    advance, db_transaction_read, db_transaction_write, AuthenticationError, CratesError,
    Database, DbReadError, DbWriteError, IsCrateManagerError, LeaseKind, ManagerCheck,
    TransactionAction, TransactionEvent, TransactionFailure, TransactionPhase,
};

type Phase = TransactionPhase<u32, String>;
type Event = TransactionEvent<u32, String>;

fn stamp() -> chrono::NaiveDateTime {
    chrono::NaiveDate::from_ymd_opt(2024, 1, 2)
        .and_then(|d| d.and_hms_opt(3, 4, 5))
        .expect("a valid time")
}

fn failed(message: &str) -> Event {
    TransactionEvent::WorkloadFailed { error: message.to_string(), message: format!("text of {message}") }
}

#[test]
fn write_transaction_that_succeeds() {
    let (phase, action) = db_transaction_write::<u32, String>("publish", Phase::Idle, Event::Begin);
    assert!(matches!(phase, TransactionPhase::Acquiring));
    assert!(matches!(
        action,
        TransactionAction::Acquire(LeaseKind::Write { operation: "publish" })
    ));
    let (phase, action) = db_transaction_write("publish", phase, Event::Acquired);
    assert!(matches!(phase, TransactionPhase::Running));
    assert!(matches!(
        action,
        TransactionAction::RunWorkload(Database { lease: LeaseKind::Write { operation: "publish" } })
    ));
    let (phase, action) = db_transaction_write("publish", phase, Event::WorkloadSucceeded(42));
    assert!(matches!(phase, TransactionPhase::Committing(42)));
    assert!(matches!(action, TransactionAction::Commit));
    let (phase, action) = db_transaction_write("publish", phase, Event::Committed);
    assert!(matches!(phase, TransactionPhase::Finished));
    assert!(matches!(action, TransactionAction::Finish(Ok(42))));
}

#[test]
fn write_lease_that_cannot_be_acquired() {
    let (phase, _) = db_transaction_write::<u32, String>("publish", Phase::Idle, Event::Begin);
    let (phase, action) =
        db_transaction_write("publish", phase, Event::AcquireFailed(sqlx::Error::PoolTimedOut));
    assert!(matches!(phase, TransactionPhase::Finished));
    assert!(matches!(
        action,
        TransactionAction::Finish(Err(DbWriteError::AcquireWrite {
            source: sqlx::Error::PoolTimedOut,
            operation: "publish"
        }))
    ));
}

#[test]
fn failed_workload_is_rolled_back() {
    let (phase, action) = db_transaction_write("yank", Phase::Running, failed("boom"));
    assert!(matches!(action, TransactionAction::Rollback));
    match &phase {
        TransactionPhase::RollingBack { error, message } => {
            assert_eq!(error, "boom");
            assert_eq!(message, "text of boom");
        }
        other => panic!("unexpected phase {other:?}"),
    }
    // a commit that is reported now answers nothing
    let (phase, action) = db_transaction_write("yank", phase, Event::Committed);
    assert!(matches!(action, TransactionAction::Ignore));
    assert!(matches!(phase, TransactionPhase::RollingBack { .. }));
    let (phase, action) = db_transaction_write("yank", phase, Event::RolledBack);
    assert!(matches!(phase, TransactionPhase::Finished));
    match action {
        TransactionAction::Finish(Err(DbWriteError::Workload { source, operation })) => {
            assert_eq!(source, "boom");
            assert_eq!(operation, "yank");
        }
        other => panic!("unexpected action {other:?}"),
    }
}

#[test]
fn failed_rollback_keeps_the_message_of_the_workload() {
    let (phase, _) = db_transaction_write("yank", Phase::Running, failed("boom"));
    let (phase, action) =
        db_transaction_write("yank", phase, Event::RollbackFailed(sqlx::Error::PoolClosed));
    assert!(matches!(phase, TransactionPhase::Finished));
    match action {
        TransactionAction::Finish(Err(DbWriteError::Rollback { source, operation, error })) => {
            assert!(matches!(source, sqlx::Error::PoolClosed));
            assert_eq!(operation, "yank");
            assert_eq!(error, "text of boom");
        }
        other => panic!("unexpected action {other:?}"),
    }
}

#[test]
fn failed_commit() {
    let (phase, action) =
        db_transaction_write("publish", Phase::Committing(1), Event::CommitFailed(sqlx::Error::WorkerCrashed));
    assert!(matches!(phase, TransactionPhase::Finished));
    assert!(matches!(
        action,
        TransactionAction::Finish(Err(DbWriteError::Commit {
            source: sqlx::Error::WorkerCrashed,
            operation: "publish"
        }))
    ));
}

#[test]
fn read_transaction_paths() {
    let (phase, action) = db_transaction_read::<u32, String>(Phase::Idle, Event::Begin);
    assert!(matches!(action, TransactionAction::Acquire(LeaseKind::Read)));
    let (phase, action) = db_transaction_read(phase, Event::Acquired);
    assert!(matches!(action, TransactionAction::RunWorkload(Database { lease: LeaseKind::Read })));
    let (phase, action) = db_transaction_read(phase, Event::WorkloadSucceeded(5));
    assert!(matches!(action, TransactionAction::Commit));
    let (_, action) = db_transaction_read(phase, Event::Committed);
    assert!(matches!(action, TransactionAction::Finish(Ok(5))));

    let (_, action) =
        db_transaction_read::<u32, String>(Phase::Acquiring, Event::AcquireFailed(sqlx::Error::PoolClosed));
    assert!(matches!(
        action,
        TransactionAction::Finish(Err(DbReadError::AcquireRead { source: sqlx::Error::PoolClosed }))
    ));
    let (_, action) =
        db_transaction_read(Phase::Committing(1), Event::CommitFailed(sqlx::Error::PoolClosed));
    assert!(matches!(
        action,
        TransactionAction::Finish(Err(DbReadError::Commit(sqlx::Error::PoolClosed)))
    ));
    let (phase, action) = db_transaction_read(Phase::Running, failed("nope"));
    assert!(matches!(action, TransactionAction::Rollback));
    let (_, action) = db_transaction_read(phase, Event::RolledBack);
    match action {
        TransactionAction::Finish(Err(DbReadError::Workload { source })) => assert_eq!(source, "nope"),
        other => panic!("unexpected action {other:?}"),
    }
    let (phase, _) = db_transaction_read(Phase::Running, failed("nope"));
    let (_, action) = db_transaction_read(phase, Event::RollbackFailed(sqlx::Error::RowNotFound));
    match action {
        TransactionAction::Finish(Err(DbReadError::Rollback { source, error })) => {
            assert!(matches!(source, sqlx::Error::RowNotFound));
            assert_eq!(error, "text of nope");
        }
        other => panic!("unexpected action {other:?}"),
    }
}

#[test]
fn events_that_answer_nothing_are_ignored() {
    let cases: Vec<(Phase, Event)> = vec![
        (Phase::Idle, Event::Acquired),
        (Phase::Idle, Event::Committed),
        (Phase::Acquiring, Event::Begin),
        (Phase::Acquiring, Event::WorkloadSucceeded(1)),
        (Phase::Running, Event::Committed),
        (Phase::Running, Event::RolledBack),
        (Phase::Committing(3), Event::RolledBack),
        (Phase::Committing(3), Event::WorkloadSucceeded(4)),
        (Phase::Finished, Event::Begin),
        (Phase::Finished, Event::Committed),
    ];
    for (phase, event) in cases {
        let before = format!("{phase:?}");
        let (after, action) = advance(LeaseKind::Read, phase, event);
        assert!(matches!(action, TransactionAction::Ignore), "{before}");
        assert_eq!(format!("{after:?}"), before);
    }
}

#[test]
fn shared_machine_reports_plain_failures() {
    let (_, action) = advance::<u32, String>(
        LeaseKind::Read,
        Phase::Acquiring,
        Event::AcquireFailed(sqlx::Error::PoolTimedOut),
    );
    assert!(matches!(
        action,
        TransactionAction::Finish(Err(TransactionFailure::Acquire(sqlx::Error::PoolTimedOut)))
    ));
}

#[test]
fn user_check() {
    assert_eq!(Database::check_is_user(Ok(Some(7))).ok(), Some(7));
    assert!(matches!(Database::check_is_user(Ok(None)), Err(AuthenticationError::Unauthorized)));
    assert!(matches!(
        Database::check_is_user(Err(sqlx::Error::PoolClosed)),
        Err(AuthenticationError::CheckUser(sqlx::Error::PoolClosed))
    ));
}

#[test]
fn admin_lookup() {
    assert_eq!(Database::get_is_admin(Ok(Some("user, admin".to_string()))).ok(), Some(true));
    assert_eq!(Database::get_is_admin(Ok(Some("user,Admin".to_string()))).ok(), Some(false));
    assert_eq!(Database::get_is_admin(Ok(Some(String::new()))).ok(), Some(false));
    assert!(matches!(Database::get_is_admin(Ok(None)), Err(AuthenticationError::Forbidden)));
    assert!(matches!(
        Database::get_is_admin(Err(sqlx::Error::RowNotFound)),
        Err(AuthenticationError::CheckRoles(sqlx::Error::RowNotFound))
    ));
}

#[test]
fn admin_check() {
    assert!(Database::check_is_admin(Ok(true)).is_ok());
    assert!(matches!(
        Database::check_is_admin(Ok(false)),
        Err(AuthenticationError::AdministrationIsForbidden)
    ));
    assert!(matches!(
        Database::check_is_admin(Err(AuthenticationError::Forbidden)),
        Err(AuthenticationError::Forbidden)
    ));
}

#[test]
fn crate_version_check() {
    assert!(Database::check_crate_exists(Ok(Some(1)), "abc", "1.0.0").is_ok());
    match Database::check_crate_exists(Ok(None), "abc", "1.0.0") {
        Err(CratesError::PackageVersionNotFound { package, version }) => {
            assert_eq!(package, "abc");
            assert_eq!(version, "1.0.0");
        }
        other => panic!("unexpected result {other:?}"),
    }
    assert!(matches!(
        Database::check_crate_exists(Err(sqlx::Error::PoolClosed), "abc", "1.0.0"),
        Err(CratesError::Sqlx(sqlx::Error::PoolClosed))
    ));
}

#[test]
fn administrators_manage_every_crate() {
    assert!(matches!(Database::check_is_crate_manager(9, Ok(())), ManagerCheck::Granted(9)));
}

#[test]
fn others_must_own_the_crate() {
    for refusal in [
        AuthenticationError::AdministrationIsForbidden,
        AuthenticationError::Forbidden,
        AuthenticationError::CheckRoles(sqlx::Error::PoolClosed),
    ] {
        assert!(matches!(
            Database::check_is_crate_manager(9, Err(refusal)),
            ManagerCheck::AskOwnership { uid: 9 }
        ));
    }
    assert_eq!(Database::check_is_crate_owner(9, Ok(Some(1))).ok(), Some(9));
    assert!(matches!(
        Database::check_is_crate_owner(9, Ok(None)),
        Err(IsCrateManagerError::NotOwnerOfPackage)
    ));
    assert!(matches!(
        Database::check_is_crate_owner(9, Err(sqlx::Error::PoolClosed)),
        Err(IsCrateManagerError::Sqlx(sqlx::Error::PoolClosed))
    ));
}

#[test]
fn global_tokens_are_listed_without_capabilities() {
    let rows = vec![
        GlobalTokenRow { id: 1, name: "ci".to_string(), last_used: stamp() },
        GlobalTokenRow { id: 5, name: "deploy".to_string(), last_used: stamp() },
    ];
    let tokens = Database::get_global_tokens(Ok(rows)).expect("listed");
    assert_eq!(tokens.len(), 2);
    assert_eq!((tokens[0].id, tokens[0].name.as_str()), (1, "ci"));
    assert_eq!((tokens[1].id, tokens[1].name.as_str()), (5, "deploy"));
    for token in &tokens {
        assert_eq!(token.last_used, stamp());
        assert!(!token.can_write);
        assert!(!token.can_admin);
    }
    assert!(Database::get_global_tokens(Ok(Vec::new())).expect("listed").is_empty());
    assert!(matches!(
        Database::get_global_tokens(Err(sqlx::Error::PoolClosed)),
        Err(sqlx::Error::PoolClosed)
    ));
}

#[test]
fn token_is_created_in_three_steps() {
    let (phase, action) = Database::create_global_token("ci");
    match &action {
        TokenCreationAction::LookUpName { name } => assert_eq!(name, "ci"),
        other => panic!("unexpected action {other:?}"),
    }
    let (phase, action) = phase.step(TokenCreationEvent::NameLookedUp(Ok(None)));
    assert!(matches!(action, TokenCreationAction::MakeSecret { length: 64 }));
    let (phase, action) = phase.step(TokenCreationEvent::SecretMade {
        secret: "s3cr3t".to_string(),
        hash: "h4sh".to_string(),
        now: stamp(),
    });
    match &action {
        TokenCreationAction::Store { name, token, last_used } => {
            assert_eq!(name, "ci");
            assert_eq!(token, "h4sh");
            assert_eq!(*last_used, stamp());
        }
        other => panic!("unexpected action {other:?}"),
    }
    let (phase, action) = phase.step(TokenCreationEvent::Stored(Ok(17)));
    assert!(matches!(phase, TokenCreation::Finished));
    match action {
        TokenCreationAction::Finish(Ok(token)) => {
            assert_eq!(token.id, 17);
            assert_eq!(token.name, "ci");
            assert_eq!(token.secret, "s3cr3t");
            assert_eq!(token.last_used, stamp());
            assert!(!token.can_write);
            assert!(!token.can_admin);
        }
        other => panic!("unexpected action {other:?}"),
    }
}

#[test]
fn token_with_an_existing_name_is_refused() {
    let (phase, _) = Database::create_global_token("ci");
    let (phase, action) = phase.step(TokenCreationEvent::NameLookedUp(Ok(Some(3))));
    assert!(matches!(phase, TokenCreation::Finished));
    assert!(matches!(action, TokenCreationAction::Finish(Err(TokensError::TokenNameExist))));
    // nothing is stored afterwards, whatever is reported
    let (phase, action) = phase.step(TokenCreationEvent::SecretMade {
        secret: "s".to_string(),
        hash: "h".to_string(),
        now: stamp(),
    });
    assert!(matches!(action, TokenCreationAction::Ignore));
    let (phase, action) = phase.step(TokenCreationEvent::Stored(Ok(1)));
    assert!(matches!(action, TokenCreationAction::Ignore));
    assert!(matches!(phase, TokenCreation::Finished));
}

#[test]
fn token_creation_reports_store_failures() {
    let (phase, _) = Database::create_global_token("ci");
    let (phase, action) = phase.step(TokenCreationEvent::NameLookedUp(Err(sqlx::Error::PoolClosed)));
    assert!(matches!(phase, TokenCreation::Finished));
    assert!(matches!(
        action,
        TokenCreationAction::Finish(Err(TokensError::Sqlx(sqlx::Error::PoolClosed)))
    ));
    let storing = TokenCreation::Storing { name: "ci".to_string(), secret: "s".to_string(), now: stamp() };
    let (_, action) = storing.step(TokenCreationEvent::Stored(Err(sqlx::Error::RowNotFound)));
    assert!(matches!(
        action,
        TokenCreationAction::Finish(Err(TokensError::Sqlx(sqlx::Error::RowNotFound)))
    ));
}

#[test]
fn token_creation_ignores_what_it_did_not_ask_for() {
    let (phase, _) = Database::create_global_token("ci");
    let (phase, action) = phase.step(TokenCreationEvent::Stored(Ok(1)));
    assert!(matches!(action, TokenCreationAction::Ignore));
    assert!(matches!(phase, TokenCreation::CheckingName { .. }));
    let making = TokenCreation::MakingSecret { name: "ci".to_string() };
    let (phase, action) = making.step(TokenCreationEvent::NameLookedUp(Ok(None)));
    assert!(matches!(action, TokenCreationAction::Ignore));
    assert!(matches!(phase, TokenCreation::MakingSecret { .. }));
}

fn version(package: &str, version: &str) -> CrateVersion {
    CrateVersion { package: package.to_string(), version: version.to_string() }
}

#[test]
fn statistics_are_gathered_in_five_answers() {
    let progress = StatsProgress::start();
    assert_eq!(progress.pending(), Some(StatsQuery::CountCrates));
    let (progress, step) = Database::get_crates_stats(progress, StatsAnswer::Count(3));
    assert!(matches!(step, StatsStep::Ask(StatsQuery::CountDownloads)));
    assert_eq!(progress.pending(), Some(StatsQuery::CountDownloads));
    let (progress, step) = Database::get_crates_stats(progress, StatsAnswer::Sum(Some(120)));
    assert!(matches!(step, StatsStep::Ask(StatsQuery::NewestCrates)));
    let (progress, step) =
        Database::get_crates_stats(progress, StatsAnswer::Versions(vec![version("new", "0.1.0")]));
    assert!(matches!(step, StatsStep::Ask(StatsQuery::MostDownloaded)));
    let (progress, step) = Database::get_crates_stats(
        progress,
        StatsAnswer::Names(vec!["serde".to_string(), "log".to_string()]),
    );
    assert!(matches!(step, StatsStep::Ask(StatsQuery::LastUpdated)));
    assert_eq!(progress.pending(), Some(StatsQuery::LastUpdated));
    let (progress, step) =
        Database::get_crates_stats(progress, StatsAnswer::Versions(vec![version("abc", "1.0.0")]));
    assert_eq!(progress.pending(), None);
    match step {
        StatsStep::Finish(Ok(stats)) => {
            assert_eq!(stats.total_crates, 3);
            assert_eq!(stats.total_downloads, 120);
            assert_eq!(stats.crates_newest.len(), 1);
            assert_eq!(stats.crates_newest[0].package, "new");
            assert_eq!(stats.crates_newest[0].version, "0.1.0");
            assert_eq!(stats.crates_most_downloaded.len(), 2);
            assert_eq!(stats.crates_most_downloaded[0].package, "serde");
            assert_eq!(stats.crates_most_downloaded[0].version, "");
            assert_eq!(stats.crates_most_downloaded[1].package, "log");
            assert_eq!(stats.crates_most_downloaded[1].version, "");
            assert_eq!(stats.crates_last_updated.len(), 1);
            assert_eq!(stats.crates_last_updated[0].package, "abc");
            assert_eq!(stats.crates_last_updated[0].version, "1.0.0");
        }
        other => panic!("unexpected step {other:?}"),
    }
}

#[test]
fn absent_sum_counts_as_zero() {
    let counting = StatsProgress::CountingDownloads { total_crates: 0 };
    let (progress, _) = Database::get_crates_stats(counting, StatsAnswer::Sum(None));
    assert!(matches!(
        progress,
        StatsProgress::ListingNewest { total_crates: 0, total_downloads: 0 }
    ));
}

#[test]
fn failed_question_names_itself() {
    let phases = vec![
        StatsProgress::CountingCrates,
        StatsProgress::CountingDownloads { total_crates: 1 },
        StatsProgress::ListingNewest { total_crates: 1, total_downloads: 2 },
        StatsProgress::ListingMostDownloaded {
            total_crates: 1,
            total_downloads: 2,
            crates_newest: Vec::new(),
        },
        StatsProgress::ListingLastUpdated {
            total_crates: 1,
            total_downloads: 2,
            crates_newest: Vec::new(),
            crates_most_downloaded: Vec::new(),
        },
    ];
    let mut seen = Vec::new();
    for progress in phases {
        let (after, step) =
            Database::get_crates_stats(progress, StatsAnswer::Failed(sqlx::Error::PoolClosed));
        assert!(matches!(after, StatsProgress::Finished));
        seen.push(match step {
            StatsStep::Finish(Err(CratesStatsError::CountCrates(_))) => 1,
            StatsStep::Finish(Err(CratesStatsError::CountDownload(_))) => 2,
            StatsStep::Finish(Err(CratesStatsError::NewestCrates(_))) => 3,
            StatsStep::Finish(Err(CratesStatsError::MostDownloaded(_))) => 4,
            StatsStep::Finish(Err(CratesStatsError::LastUpdated(_))) => 5,
            other => panic!("unexpected step {other:?}"),
        });
    }
    assert_eq!(seen, vec![1, 2, 3, 4, 5]);
}

#[test]
fn answers_of_the_wrong_sort_are_ignored() {
    let (progress, step) = Database::get_crates_stats(StatsProgress::start(), StatsAnswer::Sum(Some(1)));
    assert!(matches!(step, StatsStep::Ignore));
    assert!(matches!(progress, StatsProgress::CountingCrates));
    let (progress, step) = Database::get_crates_stats(StatsProgress::Finished, StatsAnswer::Count(1));
    assert!(matches!(step, StatsStep::Ignore));
    assert!(matches!(progress, StatsProgress::Finished));
    let (progress, step) = Database::get_crates_stats(
        StatsProgress::Finished,
        StatsAnswer::Failed(sqlx::Error::PoolClosed),
    );
    assert!(matches!(step, StatsStep::Ignore));
    assert!(matches!(progress, StatsProgress::Finished));
}

#[test]
fn names_become_crates_without_versions() {
    let list = unversioned(vec!["a".to_string(), "b".to_string()]);
    assert_eq!(list.len(), 2);
    assert_eq!(list[1].package, "b");
    assert_eq!(list[1].version, "");
    assert!(unversioned(Vec::new()).is_empty());
}

#[test]
fn status_classes_of_store_failures() {
    assert_eq!(AuthenticationError::CheckUser(sqlx::Error::PoolClosed).error_code(), 500);
    assert_eq!(AuthenticationError::CheckRoles(sqlx::Error::PoolClosed).error_code(), 500);
    assert_eq!(AuthenticationError::Unauthorized.error_code(), 401);
    assert_eq!(AuthenticationError::Forbidden.error_code(), 403);
    assert_eq!(AuthenticationError::AdministrationIsForbidden.error_code(), 403);
    assert_eq!(CratesError::Sqlx(sqlx::Error::PoolClosed).error_code(), 500);
    let missing = CratesError::PackageVersionNotFound {
        package: "abc".to_string(),
        version: "1.0.0".to_string(),
    };
    assert_eq!(missing.error_code(), 404);
    assert_eq!(IsCrateManagerError::Sqlx(sqlx::Error::PoolClosed).error_code(), 500);
    assert_eq!(IsCrateManagerError::NotOwnerOfPackage.error_code(), 403);
    assert_eq!(TokensError::Sqlx(sqlx::Error::PoolClosed).error_code(), 500);
    assert_eq!(TokensError::TokenNameExist.error_code(), 409);
    assert_eq!(CratesStatsError::LastUpdated(sqlx::Error::PoolClosed).error_code(), 500);
}

#[test]
fn only_lease_failures_can_be_tried_again() {
    let errors: Vec<DbWriteError<String>> = vec![
        DbWriteError::AcquireWrite { source: sqlx::Error::PoolTimedOut, operation: "op" },
        DbWriteError::Workload { source: "w".to_string(), operation: "op" },
        DbWriteError::Commit { source: sqlx::Error::PoolClosed, operation: "op" },
        DbWriteError::Rollback { source: sqlx::Error::PoolClosed, operation: "op", error: "w".to_string() },
    ];
    let retryable: Vec<bool> = errors.iter().map(DbWriteError::is_retryable).collect();
    let faults: Vec<bool> = errors.iter().map(DbWriteError::is_store_fault).collect();
    assert_eq!(retryable, vec![true, false, false, false]);
    assert_eq!(faults, vec![false, false, true, true]);
    assert!(errors.iter().all(|e| e.operation() == "op"));
    let errors: Vec<DbReadError<String>> = vec![
        DbReadError::AcquireRead { source: sqlx::Error::PoolTimedOut },
        DbReadError::Workload { source: "w".to_string() },
        DbReadError::Commit(sqlx::Error::PoolClosed),
        DbReadError::Rollback { source: sqlx::Error::PoolClosed, error: "w".to_string() },
    ];
    let retryable: Vec<bool> = errors.iter().map(DbReadError::is_retryable).collect();
    let faults: Vec<bool> = errors.iter().map(DbReadError::is_store_fault).collect();
    assert_eq!(retryable, vec![true, false, false, false]);
    assert_eq!(faults, vec![false, false, true, true]);
}
