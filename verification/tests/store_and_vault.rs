//! Store facade and vault facade round trips.

use stronghold_sessions::{
    create_client, get_store_record, initialize, remove_secret, remove_store_record, save_secret,
    save_store_record, unsafe_get_secret, BytesDto, Error, Session, StrongholdCollection,
};

fn open_with_client(p: &str, c: &BytesDto) -> StrongholdCollection {
    let mut coll = StrongholdCollection::new();
    assert_eq!(initialize(&mut coll, p.to_string(), Ok(Session::new())), Ok(()));
    assert_eq!(create_client(&mut coll, &p.to_string(), c), Ok(()));
    coll
}

#[test]
fn store_save_then_get_returns_value() {
    let p = "/tmp/store".to_string();
    let c = BytesDto::Text("app".to_string());
    let mut coll = open_with_client(&p, &c);

    assert_eq!(
        save_store_record(&mut coll, &p, &c, "greeting".to_string(), vec![104, 105], None),
        Ok(None)
    );
    assert_eq!(
        get_store_record(&coll, &p, &c, "greeting".to_string()),
        Ok(Some(vec![104, 105]))
    );
    // Saving again returns the prior value.
    assert_eq!(
        save_store_record(&mut coll, &p, &c, "greeting".to_string(), vec![3], Some(60)),
        Ok(Some(vec![104, 105]))
    );
    assert_eq!(get_store_record(&coll, &p, &c, "greeting".to_string()), Ok(Some(vec![3])));
}

#[test]
fn store_remove_then_get_returns_absent() {
    let p = "/tmp/store-remove".to_string();
    let c = BytesDto::Text("app".to_string());
    let mut coll = open_with_client(&p, &c);

    assert_eq!(
        save_store_record(&mut coll, &p, &c, "k".to_string(), vec![1, 2, 3], None),
        Ok(None)
    );
    assert_eq!(
        remove_store_record(&mut coll, &p, &c, "k".to_string()),
        Ok(Some(vec![1, 2, 3]))
    );
    assert_eq!(get_store_record(&coll, &p, &c, "k".to_string()), Ok(None));
    // Absence is never an error: removing again answers None.
    assert_eq!(remove_store_record(&mut coll, &p, &c, "k".to_string()), Ok(None));
}

#[test]
fn store_operations_on_missing_client_fail_client_not_found() {
    let p = "/tmp/no-client".to_string();
    let good = BytesDto::Text("app".to_string());
    let missing = BytesDto::Text("ghost".to_string());
    let mut coll = open_with_client(&p, &good);

    assert_eq!(
        get_store_record(&coll, &p, &missing, "k".to_string()),
        Err(Error::ClientNotFound)
    );
    assert_eq!(
        save_store_record(&mut coll, &p, &missing, "k".to_string(), vec![1], None),
        Err(Error::ClientNotFound)
    );
    assert_eq!(
        remove_store_record(&mut coll, &p, &missing, "k".to_string()),
        Err(Error::ClientNotFound)
    );
}

#[test]
fn save_secret_then_unsafe_get_returns_original_bytes() {
    let p = "/tmp/vault".to_string();
    let c = BytesDto::Text("app".to_string());
    let mut coll = open_with_client(&p, &c);

    let vault = BytesDto::Text("keys".to_string());
    let record = BytesDto::Text("seed".to_string());
    let secret = vec![0xde, 0xad, 0xbe, 0xef];
    assert_eq!(save_secret(&mut coll, &p, &c, &vault, &record, secret.clone()), Ok(()));

    let read = unsafe_get_secret(&coll, &p, &c, &vault, &record).unwrap();
    assert_eq!(read.expose(), &secret);
}

#[test]
fn text_and_raw_identifiers_address_the_same_slot() {
    let p = "/tmp/vault-ident".to_string();
    let c = BytesDto::Text("app".to_string());
    let mut coll = open_with_client(&p, &c);

    // "keys" as text and the same bytes raw denote the same vault.
    let vault_text = BytesDto::Text("keys".to_string());
    let vault_raw = BytesDto::Raw(b"keys".to_vec());
    let record = BytesDto::Text("seed".to_string());
    assert_eq!(save_secret(&mut coll, &p, &c, &vault_text, &record, vec![42]), Ok(()));
    let read = unsafe_get_secret(&coll, &p, &c, &vault_raw, &record).unwrap();
    assert_eq!(read.expose(), &vec![42]);
}

#[test]
fn remove_secret_then_unsafe_get_fails_record_not_found() {
    let p = "/tmp/vault-remove".to_string();
    let c = BytesDto::Text("app".to_string());
    let mut coll = open_with_client(&p, &c);

    let vault = BytesDto::Text("keys".to_string());
    let record = BytesDto::Text("seed".to_string());
    assert_eq!(save_secret(&mut coll, &p, &c, &vault, &record, vec![1, 2]), Ok(()));
    assert_eq!(remove_secret(&mut coll, &p, &c, &vault, &record), Ok(()));
    assert!(matches!(
        unsafe_get_secret(&coll, &p, &c, &vault, &record),
        Err(Error::RecordNotFound)
    ));
    // Removing an absent record still reports success.
    assert_eq!(remove_secret(&mut coll, &p, &c, &vault, &record), Ok(()));
}

#[test]
fn unsafe_get_secret_on_empty_vault_fails_record_not_found() {
    let p = "/tmp/vault-empty".to_string();
    let c = BytesDto::Text("app".to_string());
    let coll = open_with_client(&p, &c);
    let vault = BytesDto::Text("nothing".to_string());
    let record = BytesDto::Text("nowhere".to_string());
    assert!(matches!(
        unsafe_get_secret(&coll, &p, &c, &vault, &record),
        Err(Error::RecordNotFound)
    ));
}

#[test]
fn returned_secret_buffer_wipes_to_zeros() {
    let p = "/tmp/vault-wipe".to_string();
    let c = BytesDto::Text("app".to_string());
    let mut coll = open_with_client(&p, &c);

    let vault = BytesDto::Text("keys".to_string());
    let record = BytesDto::Text("seed".to_string());
    assert_eq!(save_secret(&mut coll, &p, &c, &vault, &record, vec![9, 9, 9]), Ok(()));
    let mut read = unsafe_get_secret(&coll, &p, &c, &vault, &record).unwrap();
    read.wipe();
    assert_eq!(read.expose(), &vec![0, 0, 0]);
}
