use sea_orm::DbErr;

use trustify::error::Error;
use trustify::model::ModelDb;
use trustify::model::ModelTx;
use trustify::tx::after_begin;
use trustify::tx::after_commit;
use trustify::tx::after_logic;
use trustify::tx::after_rollback;
use trustify::tx::TxAction;

#[test]
fn commit_publishes_writes() {
    let mut db = ModelDb::new();
    let r: Result<(), Error<String>> = db.transaction(|mut tx: ModelTx| {
        tx.insert(42);
        (tx, Ok(()))
    });
    assert!(r.is_ok());
    assert!(db.contains(42));
    assert_eq!(db.len(), 1);
}

#[test]
fn committed_row_visible_to_next_transaction() {
    let mut db = ModelDb::new();
    let first: Result<(), Error<String>> = db.transaction(|mut tx: ModelTx| {
        tx.insert(7);
        (tx, Ok(()))
    });
    assert!(first.is_ok());

    let second: Result<bool, Error<String>> = db.transaction(|tx: ModelTx| {
        let seen = tx.contains(7);
        (tx, Ok(seen))
    });
    match second {
        Ok(seen) => assert!(seen),
        Err(_) => panic!("the read-only transaction must succeed"),
    }
}

#[test]
fn rollback_discards_writes() {
    let mut db = ModelDb::new();
    let r: Result<(), Error<String>> = db.transaction(|mut tx: ModelTx| {
        tx.insert(42);
        assert!(tx.contains(42));
        (tx, Err(String::from("bad input")))
    });
    match r {
        Err(Error::Transaction(msg)) => assert_eq!(msg, "bad input"),
        _ => panic!("expected the caller's own error back"),
    }
    assert!(!db.contains(42));
    assert_eq!(db.len(), 0);

    let read: Result<bool, Error<String>> = db.transaction(|tx: ModelTx| {
        let seen = tx.contains(42);
        (tx, Ok(seen))
    });
    match read {
        Ok(seen) => assert!(!seen),
        Err(_) => panic!("the read-only transaction must succeed"),
    }
}

#[test]
fn failed_open_reports_database_error_and_skips_logic() {
    let a: TxAction<u64, String> = after_begin(Err(DbErr::Custom(String::from("pool down"))));
    match a {
        TxAction::Done(Err(e)) => assert!(e.is_database()),
        TxAction::RunLogic => panic!("logic must never run when opening fails"),
        _ => panic!("a failed open ends the invocation"),
    }
}

#[test]
fn successful_open_runs_logic() {
    let a: TxAction<u64, String> = after_begin(Ok(()));
    assert!(matches!(a, TxAction::RunLogic));
}

#[test]
fn logic_outcome_picks_commit_or_rollback() {
    let a: TxAction<u64, String> = after_logic(Ok(5));
    match a {
        TxAction::Commit(v) => assert_eq!(v, 5),
        _ => panic!("success must commit"),
    }

    let b: TxAction<u64, String> = after_logic(Err(String::from("no")));
    match b {
        TxAction::Rollback(e) => assert_eq!(e, "no"),
        _ => panic!("failure must roll back"),
    }
}

#[test]
fn commit_failure_overrides_logical_success() {
    let r: Result<u64, Error<String>> =
        after_commit(9, Err(DbErr::Custom(String::from("disk full"))));
    match r {
        Err(e) => assert!(e.is_database()),
        Ok(_) => panic!("a failed commit must not report success"),
    }

    let ok: Result<u64, Error<String>> = after_commit(9, Ok(()));
    match ok {
        Ok(v) => assert_eq!(v, 9),
        Err(_) => panic!("a clean commit returns the logic's value"),
    }
}

#[test]
fn rollback_outcome_decides_the_error() {
    let r: Result<u64, Error<String>> = after_rollback(String::from("bad"), Ok(()));
    match r {
        Err(Error::Transaction(e)) => assert_eq!(e, "bad"),
        _ => panic!("after a clean rollback the caller's error is reported"),
    }

    let r2: Result<u64, Error<String>> =
        after_rollback(String::from("bad"), Err(DbErr::Custom(String::from("lost"))));
    match r2 {
        Err(e) => assert!(e.is_database()),
        Ok(_) => panic!("a failed rollback must not report success"),
    }
}

#[test]
fn error_taxonomy_accessors() {
    let d: Error<String> = Error::from(DbErr::Custom(String::from("x")));
    assert!(d.is_database());
    assert!(!d.is_transaction());
    assert!(d.into_transaction().is_none());

    let t: Error<String> = Error::Transaction(String::from("oops"));
    assert!(t.is_transaction());
    assert!(!t.is_database());
    assert_eq!(t.into_transaction(), Some(String::from("oops")));
}

#[test]
fn error_messages_render_with_their_prefixes() {
    let t: Error<String> = Error::Transaction(String::from("oops"));
    assert_eq!(t.message_with("oops"), "transaction error: oops");
    assert!(t.database_message().is_none());

    let d: Error<String> = Error::Database(DbErr::Custom(String::from("x")));
    assert_eq!(d.message_with("Custom Error: x"), "database error: Custom Error: x");
    let m = d.database_message().expect("the infrastructure variant renders");
    assert_eq!(m, "database error: Custom Error: x");
    assert!(m.starts_with("database error: "));
}
