use lmdb_handles::db;
use lmdb_handles::dbi::{Database, DatabaseOptions, EngineEvent, OpenAction};
use lmdb_handles::environment::Environment;
use lmdb_handles::error::Error;

/// Plays the engine for one open: begins the transaction, answers the
/// handle-open primitive with `dbi`, and reports success for every later
/// call, as a healthy engine would.
fn drive_open(env: &mut Environment, opts: &DatabaseOptions, dbi: u32) -> Result<Database, Error> {
    let mut flow = Database::open(env, opts);
    let mut act = flow.step(env, EngineEvent::Done);
    loop {
        match act {
            OpenAction::OpenDbi => act = flow.step(env, EngineEvent::DoneDbi(dbi)),
            OpenAction::SetKeyCmp(_) | OpenAction::SetValCmp(_) | OpenAction::Commit => {
                act = flow.step(env, EngineEvent::Done)
            }
            OpenAction::AbortAndFail(e) | OpenAction::Fail(e) => return Err(e),
            OpenAction::Finish(h) => return Ok(h),
        }
    }
}

#[test]
fn open_default_succeeds() {
    let mut env = Environment::new(1);
    let opts = DatabaseOptions::defaults();
    let h = drive_open(&mut env, &opts, 3).unwrap();
    assert_eq!(h.dbi(), 3);
    assert!(env.contains_dbi(3));
}

#[test]
fn open_same_identifier_twice_is_reopened() {
    let mut env = Environment::new(1);
    let opts = DatabaseOptions::defaults();
    let h = drive_open(&mut env, &opts, 3).unwrap();
    let second = drive_open(&mut env, &opts, 3);
    assert_eq!(second.unwrap_err(), Error::Reopened);
    assert!(env.contains_dbi(3));
    h.close(&mut env);
}

#[test]
fn open_distinct_names_succeeds_independently() {
    let mut env = Environment::new(1);
    let opts = DatabaseOptions::defaults();
    let h1 = drive_open(&mut env, &opts, 3).unwrap();
    let h2 = drive_open(&mut env, &opts, 4).unwrap();
    assert_ne!(h1.dbi(), h2.dbi());
    assert!(env.contains_dbi(3));
    assert!(env.contains_dbi(4));
}

#[test]
fn close_frees_identifier_for_reopen() {
    let mut env = Environment::new(1);
    let opts = DatabaseOptions::defaults();
    let h = drive_open(&mut env, &opts, 3).unwrap();
    h.close(&mut env);
    assert!(!env.contains_dbi(3));
    let again = drive_open(&mut env, &opts, 3).unwrap();
    assert_eq!(again.dbi(), 3);
    assert!(env.contains_dbi(3));
}

#[test]
fn delete_consumes_handle_and_frees_identifier() {
    let mut env = Environment::new(1);
    let opts = DatabaseOptions::new(db::CREATE);
    let h = drive_open(&mut env, &opts, 5).unwrap();
    h.delete(&mut env, Ok(())).unwrap();
    assert!(!env.contains_dbi(5));
    let again = drive_open(&mut env, &opts, 5).unwrap();
    assert_eq!(again.dbi(), 5);
}

#[test]
fn failed_delete_returns_handle_and_error() {
    let mut env = Environment::new(1);
    let opts = DatabaseOptions::new(db::CREATE);
    let h = drive_open(&mut env, &opts, 5).unwrap();
    let (e, h) = h.delete(&mut env, Err(-30786)).unwrap_err();
    assert_eq!(e, Error::Engine(-30786));
    assert!(env.contains_dbi(5));
    h.close(&mut env);
    assert!(!env.contains_dbi(5));
}

#[test]
fn assert_same_env_by_identity() {
    let mut env1 = Environment::new(1);
    let env2 = Environment::new(2);
    let opts = DatabaseOptions::defaults();
    let h = drive_open(&mut env1, &opts, 3).unwrap();
    assert!(h.assert_same_env(&env1).is_ok());
    assert_eq!(h.assert_same_env(&env2).unwrap_err(), Error::Mismatch);
}

#[test]
fn begin_failure_reports_engine_error() {
    let mut env = Environment::new(1);
    let opts = DatabaseOptions::defaults();
    let mut flow = Database::open(&env, &opts);
    let act = flow.step(&mut env, EngineEvent::Failed(-5));
    assert_eq!(act, OpenAction::Fail(Error::Engine(-5)));
}

#[test]
fn handle_open_failure_aborts_with_engine_error() {
    let mut env = Environment::new(1);
    let opts = DatabaseOptions::defaults();
    let mut flow = Database::open(&env, &opts);
    let act = flow.step(&mut env, EngineEvent::Done);
    assert_eq!(act, OpenAction::OpenDbi);
    let act = flow.step(&mut env, EngineEvent::Failed(-2));
    assert_eq!(act, OpenAction::AbortAndFail(Error::Engine(-2)));
    assert!(!env.contains_dbi(0));
}

#[test]
fn comparator_failure_surrenders_registered_slot() {
    let mut env = Environment::new(1);
    let mut opts = DatabaseOptions::new(db::CREATE);
    opts.sort_keys_as::<u32>();
    let mut flow = Database::open(&env, &opts);
    let act = flow.step(&mut env, EngineEvent::Done);
    assert_eq!(act, OpenAction::OpenDbi);
    let act = flow.step(&mut env, EngineEvent::DoneDbi(7));
    assert_eq!(act, OpenAction::SetKeyCmp(7));
    let act = flow.step(&mut env, EngineEvent::Failed(-3));
    assert_eq!(act, OpenAction::AbortAndFail(Error::Engine(-3)));
    // No handle was produced, but the slot stays registered rather than
    // ever risking a double registration.
    assert!(env.contains_dbi(7));
}

#[test]
fn commit_failure_reports_without_abort() {
    let mut env = Environment::new(1);
    let opts = DatabaseOptions::defaults();
    let mut flow = Database::open(&env, &opts);
    let act = flow.step(&mut env, EngineEvent::Done);
    assert_eq!(act, OpenAction::OpenDbi);
    let act = flow.step(&mut env, EngineEvent::DoneDbi(9));
    assert_eq!(act, OpenAction::Commit);
    let act = flow.step(&mut env, EngineEvent::Failed(-4));
    assert_eq!(act, OpenAction::Fail(Error::Engine(-4)));
    assert!(env.contains_dbi(9));
}

#[test]
fn open_installs_each_bound_comparator_before_commit() {
    let mut env = Environment::new(1);
    let mut opts = DatabaseOptions::new(db::CREATE | db::DUPSORT);
    opts.sort_keys_as::<u32>();
    opts.sort_values_as::<u32>();
    let mut flow = Database::open(&env, &opts);
    assert_eq!(flow.step(&mut env, EngineEvent::Done), OpenAction::OpenDbi);
    assert_eq!(
        flow.step(&mut env, EngineEvent::DoneDbi(5)),
        OpenAction::SetKeyCmp(5)
    );
    assert_eq!(
        flow.step(&mut env, EngineEvent::Done),
        OpenAction::SetValCmp(5)
    );
    assert_eq!(flow.step(&mut env, EngineEvent::Done), OpenAction::Commit);
    let act = flow.step(&mut env, EngineEvent::Done);
    assert_eq!(act, OpenAction::Finish(Database { env_id: 1, dbi: 5 }));
}

#[test]
fn serialised_opens_produce_distinct_identifiers() {
    let mut env = Environment::new(1);
    let opts = DatabaseOptions::defaults();
    let mut ids = Vec::new();
    for i in 0..8u32 {
        let h = drive_open(&mut env, &opts, i).unwrap();
        ids.push(h.dbi());
    }
    for a in 0..ids.len() {
        for b in (a + 1)..ids.len() {
            assert_ne!(ids[a], ids[b]);
        }
        assert!(env.contains_dbi(ids[a]));
    }
}

#[test]
fn options_builders() {
    let o = DatabaseOptions::defaults();
    assert_eq!(o.flags, 0);
    let mut o = DatabaseOptions::new(db::CREATE | db::DUPSORT);
    assert_eq!(o.flags, 0x40004);
    o.sort_keys_as::<u32>();
    o.sort_values_as::<u32>();
    assert_eq!(o.flags, 0x40004);
}
