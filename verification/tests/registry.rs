//! Registry lifecycle: initialization, destruction with rollback, saving,
//! and independence of distinct snapshot paths.

use stronghold_sessions::{
    create_client, destroy, execute_procedure, get_store_record, initialize, load_client,
    remove_secret, remove_store_record, save, save_secret, save_store_record, unsafe_get_secret,
    BytesDto, Error, LocationDto, ProcedureDto, Session, StrongholdCollection,
};

fn path(s: &str) -> String {
    s.to_string()
}

fn client() -> BytesDto {
    BytesDto::Text("app".to_string())
}

#[test]
fn uninitialized_path_operations_fail_not_initialized() {
    let mut coll = StrongholdCollection::new();
    let p = path("/tmp/never-opened");
    let c = client();

    assert_eq!(create_client(&mut coll, &p, &c), Err(Error::NotInitialized));
    assert_eq!(load_client(&coll, &p, &c), Err(Error::NotInitialized));
    assert_eq!(
        get_store_record(&coll, &p, &c, "k".to_string()),
        Err(Error::NotInitialized)
    );
    assert_eq!(
        save_store_record(&mut coll, &p, &c, "k".to_string(), vec![1], None),
        Err(Error::NotInitialized)
    );
    assert_eq!(
        remove_store_record(&mut coll, &p, &c, "k".to_string()),
        Err(Error::NotInitialized)
    );
    let vault = BytesDto::Text("vault".to_string());
    let record = BytesDto::Text("record".to_string());
    assert_eq!(
        save_secret(&mut coll, &p, &c, &vault, &record, vec![7]),
        Err(Error::NotInitialized)
    );
    assert!(matches!(
        unsafe_get_secret(&coll, &p, &c, &vault, &record),
        Err(Error::NotInitialized)
    ));
    assert_eq!(
        remove_secret(&mut coll, &p, &c, &vault, &record),
        Err(Error::NotInitialized)
    );
    let proc = ProcedureDto::GetAleoViewKey {
        private_key: LocationDto::Generic {
            vault: vault.clone(),
            record: record.clone(),
        },
    };
    assert_eq!(
        execute_procedure(&coll, &p, &c, proc),
        Err(Error::NotInitialized)
    );
}

#[test]
fn initialize_then_operations_reach_the_session() {
    let mut coll = StrongholdCollection::new();
    let p = path("/tmp/opened");
    assert_eq!(initialize(&mut coll, p.clone(), Ok(Session::new())), Ok(()));
    let c = client();
    // Fresh snapshot holds no client yet.
    assert_eq!(load_client(&coll, &p, &c), Err(Error::ClientNotFound));
    assert_eq!(create_client(&mut coll, &p, &c), Ok(()));
    assert_eq!(load_client(&coll, &p, &c), Ok(()));
}

#[test]
fn initialize_engine_failure_passes_through() {
    let mut coll = StrongholdCollection::new();
    let p = path("/tmp/unopenable");
    let r = initialize(
        &mut coll,
        p.clone(),
        Err(Error::Engine("snapshot could not be opened".to_string())),
    );
    assert_eq!(
        r,
        Err(Error::Engine("snapshot could not be opened".to_string()))
    );
    // The failed path was never inserted.
    assert_eq!(create_client(&mut coll, &p, &client()), Err(Error::NotInitialized));
}

#[test]
fn initialize_last_wins() {
    let mut coll = StrongholdCollection::new();
    let p = path("/tmp/twice");
    let mut first = Session::new();
    // Give the first session a client, then replace the whole session.
    assert_eq!(initialize(&mut coll, p.clone(), Ok(first)), Ok(()));
    assert_eq!(create_client(&mut coll, &p, &client()), Ok(()));
    first = Session::new();
    assert_eq!(initialize(&mut coll, p.clone(), Ok(first)), Ok(()));
    // The replacement session is fresh: the client is gone.
    assert_eq!(load_client(&coll, &p, &client()), Err(Error::ClientNotFound));
}

#[test]
fn destroy_on_unopened_path_is_noop_success() {
    let mut coll = StrongholdCollection::new();
    let p = path("/tmp/nothing-here");
    assert_eq!(destroy(&mut coll, &p, Ok(())), Ok(()));
    // Even a failing flush outcome is ignored when no session is open.
    assert_eq!(
        destroy(&mut coll, &p, Err(Error::Engine("disk full".to_string()))),
        Ok(())
    );
}

#[test]
fn destroy_rollback_keeps_session_on_flush_failure() {
    let mut coll = StrongholdCollection::new();
    let p = path("/tmp/rollback");
    assert_eq!(initialize(&mut coll, p.clone(), Ok(Session::new())), Ok(()));

    let flush_error = Error::Engine("flush failed".to_string());
    assert_eq!(destroy(&mut coll, &p, Err(flush_error.clone())), Err(flush_error.clone()));

    // The session is still open: a save with a failing flush reaches it ...
    assert_eq!(save(&coll, &p, Err(flush_error.clone())), Err(flush_error.clone()));
    // ... and another destroy still finds it; this one succeeds and removes it.
    assert_eq!(destroy(&mut coll, &p, Ok(())), Ok(()));
    assert_eq!(save(&coll, &p, Err(flush_error.clone())), Ok(()));
}

#[test]
fn save_is_noop_on_unopened_path_and_flush_on_open_one() {
    let mut coll = StrongholdCollection::new();
    let p = path("/tmp/save");
    assert_eq!(save(&coll, &p, Err(Error::Engine("unused".to_string()))), Ok(()));
    assert_eq!(initialize(&mut coll, p.clone(), Ok(Session::new())), Ok(()));
    assert_eq!(save(&coll, &p, Ok(())), Ok(()));
    assert_eq!(
        save(&coll, &p, Err(Error::Engine("disk full".to_string()))),
        Err(Error::Engine("disk full".to_string()))
    );
}

#[test]
fn distinct_paths_are_independent() {
    let mut coll = StrongholdCollection::new();
    let p1 = path("/tmp/one");
    let p2 = path("/tmp/two");
    assert_eq!(initialize(&mut coll, p1.clone(), Ok(Session::new())), Ok(()));
    assert_eq!(initialize(&mut coll, p2.clone(), Ok(Session::new())), Ok(()));

    let c1 = BytesDto::Text("first".to_string());
    let c2 = BytesDto::Text("second".to_string());
    assert_eq!(create_client(&mut coll, &p1, &c1), Ok(()));
    assert_eq!(create_client(&mut coll, &p2, &c2), Ok(()));

    // Each path retrieves its own session: the clients do not leak across.
    assert_eq!(load_client(&coll, &p1, &c1), Ok(()));
    assert_eq!(load_client(&coll, &p1, &c2), Err(Error::ClientNotFound));
    assert_eq!(load_client(&coll, &p2, &c2), Ok(()));
    assert_eq!(load_client(&coll, &p2, &c1), Err(Error::ClientNotFound));

    // Destroying one leaves the other untouched.
    assert_eq!(destroy(&mut coll, &p1, Ok(())), Ok(()));
    assert_eq!(load_client(&coll, &p1, &c1), Err(Error::NotInitialized));
    assert_eq!(load_client(&coll, &p2, &c2), Ok(()));
}

#[test]
fn create_client_resets_existing_client() {
    let mut coll = StrongholdCollection::new();
    let p = path("/tmp/reset");
    let c = client();
    assert_eq!(initialize(&mut coll, p.clone(), Ok(Session::new())), Ok(()));
    assert_eq!(create_client(&mut coll, &p, &c), Ok(()));
    assert_eq!(
        save_store_record(&mut coll, &p, &c, "k".to_string(), vec![9], None),
        Ok(None)
    );
    // Creating the client again starts it empty.
    assert_eq!(create_client(&mut coll, &p, &c), Ok(()));
    assert_eq!(get_store_record(&coll, &p, &c, "k".to_string()), Ok(None));
}
