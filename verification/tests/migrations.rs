use reddit_scraper::migrations::{
    is_sql_migration, IoErrorKind, IoFailure, Migration, MigrationAction, MigrationError,
    MigrationEvent, MigrationPhase,
};

fn failure(kind: IoErrorKind, message: &str) -> IoFailure {
    IoFailure { kind, message: message.to_string() }
}

#[test]
fn sql_files_are_migrations() {
    assert!(is_sql_migration("001_create_table.sql"));
    assert!(is_sql_migration("001_invalid.sql"));
    assert!(is_sql_migration("a.b.sql"));
    assert!(is_sql_migration("x.sql"));
    assert!(is_sql_migration("..sql"));
}

#[test]
fn other_files_are_not_migrations() {
    assert!(!is_sql_migration(".sql"));
    assert!(!is_sql_migration("sql"));
    assert!(!is_sql_migration("notes.SQL"));
    assert!(!is_sql_migration("001.sql.bak"));
    assert!(!is_sql_migration("README"));
    assert!(!is_sql_migration("trailing."));
    assert!(!is_sql_migration(".."));
    assert!(!is_sql_migration(""));

}

#[test]
fn test_run_migrations_missing_directory() {
    let (run, action) = Migration::begin(false);
    assert_eq!(run.phase, MigrationPhase::Finished);
    assert!(
        matches!(action, MigrationAction::Finish(Err(MigrationError::IoError(_)))),
        "Expected IoError, got: {:?}",
        action
    );
    match action {
        MigrationAction::Finish(Err(MigrationError::IoError(f))) => {
            assert_eq!(f.kind, IoErrorKind::NotFound);
            assert_eq!(f.message, "Migrations directory not found");
        }
        other => panic!("Expected IoError, got: {:?}", other),
    }
}

#[test]
fn a_clean_run_executes_only_sql_files_in_order() {
    let (mut run, action) = Migration::begin(true);
    assert!(matches!(action, MigrationAction::OpenDirectory));
    assert!(matches!(run.step(MigrationEvent::DirectoryOpened), MigrationAction::NextEntry));
    assert!(matches!(
        run.step(MigrationEvent::Entry("README.md".to_string())),
        MigrationAction::NextEntry
    ));
    assert!(matches!(
        run.step(MigrationEvent::Entry("001_create_table.sql".to_string())),
        MigrationAction::ReadEntry
    ));
    match run.step(MigrationEvent::FileRead("CREATE TABLE test (id INTEGER PRIMARY KEY);".to_string())) {
        MigrationAction::ExecuteBatch(sql) => {
            assert_eq!(sql, "CREATE TABLE test (id INTEGER PRIMARY KEY);")
        }
        other => panic!("unexpected action {:?}", other),
    }
    assert!(matches!(run.step(MigrationEvent::BatchExecuted), MigrationAction::NextEntry));
    assert!(matches!(run.step(MigrationEvent::NoMoreEntries), MigrationAction::Finish(Ok(()))));
    assert_eq!(run.phase, MigrationPhase::Finished);
    assert!(!run.accepts(&MigrationEvent::NoMoreEntries));
}

#[test]
fn a_refused_batch_finishes_with_a_database_error() {
    let (mut run, _) = Migration::begin(true);
    run.step(MigrationEvent::DirectoryOpened);
    run.step(MigrationEvent::Entry("001_invalid.sql".to_string()));
    run.step(MigrationEvent::FileRead("INVALID SQL STATEMENT;".to_string()));
    match run.step(MigrationEvent::BatchFailed("syntax error".to_string())) {
        MigrationAction::Finish(Err(MigrationError::RusqliteError(m))) => assert_eq!(m, "syntax error"),
        other => panic!("Expected RusqliteError, got: {:?}", other),
    }
}

#[test]
fn io_failures_finish_with_io_errors() {
    let (mut run, _) = Migration::begin(true);
    assert!(matches!(
        run.step(MigrationEvent::DirectoryFailed(failure(IoErrorKind::PermissionDenied, "denied"))),
        MigrationAction::Finish(Err(MigrationError::IoError(IoFailure { kind: IoErrorKind::PermissionDenied, .. })))
    ));

    let (mut run, _) = Migration::begin(true);
    run.step(MigrationEvent::DirectoryOpened);
    assert!(matches!(
        run.step(MigrationEvent::EntryFailed(failure(IoErrorKind::Other, "gone"))),
        MigrationAction::Finish(Err(MigrationError::IoError(_)))
    ));

    let (mut run, _) = Migration::begin(true);
    run.step(MigrationEvent::DirectoryOpened);
    run.step(MigrationEvent::Entry("002.sql".to_string()));
    assert!(matches!(
        run.step(MigrationEvent::FileReadFailed(failure(IoErrorKind::InvalidData, "unreadable"))),
        MigrationAction::Finish(Err(MigrationError::IoError(IoFailure { kind: IoErrorKind::InvalidData, .. })))
    ));
}

#[test]
fn each_phase_accepts_only_its_events() {
    let (run, _) = Migration::begin(true);
    assert!(run.accepts(&MigrationEvent::DirectoryOpened));
    assert!(!run.accepts(&MigrationEvent::NoMoreEntries));
    assert!(!run.accepts(&MigrationEvent::BatchExecuted));
    assert!(!run.accepts(&MigrationEvent::FileRead(String::new())));
}
