//! The session registry: a process-wide map from snapshot path to open
//! session, together with the store and vault operations routed through it.
//!
//! The registry is an explicitly owned object passed by reference to every
//! operation. Engine outcomes — opening a snapshot from disk, flushing one
//! back — enter as plain `Result` values: the contracts here pin down every
//! registry decision for whatever the engine answered.

use vstd::prelude::*;
use vstd::string::StrSliceExecFns;
use vstd::utf8::encode_utf8;

use crate::bytemap::ByteMap;
use crate::bytes::{copy_bytes, BytesDto};
use crate::error::Error;
use crate::procedure::{translates_to, Procedure, ProcedureDto};
use crate::secret::SecretBuffer;
use crate::session::{ClientState, ClientView, Session, StoreEntry, VaultState};

verus! {

/// The registry's abstract state: snapshot path bytes, to client identifier
/// bytes, to that client's state.
pub type RegistryView = Map<Seq<u8>, Map<Seq<u8>, ClientView>>;

/// The registry key a snapshot path denotes: its UTF-8 bytes.
pub open spec fn path_key(path: Seq<char>) -> Seq<u8> {
    encode_utf8(path)
}

/// The registry view after replacing one client's state within one session.
pub open spec fn with_client(m: RegistryView, pk: Seq<u8>, cb: Seq<u8>, c: ClientView) -> RegistryView {
    m.insert(pk, m[pk].insert(cb, c))
}

/// The process-wide collection of open sessions, keyed by snapshot path.
/// At most one session exists per path; `initialize` replaces silently.
pub struct StrongholdCollection {
    pub sessions: ByteMap<Session>,
}

impl View for StrongholdCollection {
    type V = RegistryView;

    open spec fn view(&self) -> RegistryView {
        self.sessions@
    }
}

impl StrongholdCollection {
    /// An empty registry; constructed once at startup by the embedder.
    pub fn new() -> (r: Self)
        ensures
            r@ == Map::<Seq<u8>, Map<Seq<u8>, ClientView>>::empty(),
    {
        StrongholdCollection { sessions: ByteMap::new() }
    }

    /// Whether a session is open for `path`.
    pub open spec fn has_session(self, path: Seq<char>) -> bool {
        self@.contains_key(path_key(path))
    }

    /// The session open for `path`.
    pub open spec fn session_at(self, path: Seq<char>) -> Map<Seq<u8>, ClientView> {
        self@[path_key(path)]
    }

    /// Whether `path` has an open session holding the client named by `client` bytes.
    pub open spec fn has_client(self, path: Seq<char>, client: Seq<u8>) -> bool {
        self.has_session(path) && self.session_at(path).contains_key(client)
    }

    /// The state of that client.
    pub open spec fn client_at(self, path: Seq<char>, client: Seq<u8>) -> ClientView {
        self.session_at(path)[client]
    }
}

/// The UTF-8 bytes of a string, as a fresh vector.
fn utf8_bytes(s: &String) -> (r: Vec<u8>)
    ensures
        r@ == encode_utf8(s@),
{
    s.as_str().as_bytes_vec()
}

/// Looks up the open session for a snapshot path, as the engine handle
/// lookup does: absent paths answer `NotInitialized`.
fn get_stronghold<'a>(collection: &'a StrongholdCollection, path: &Vec<u8>) -> (r: Result<
    &'a Session,
    Error,
>)
    ensures
        match r {
            Ok(s) => collection@.contains_key(path@) && s@ == collection@[path@],
            Err(e) => e == Error::NotInitialized && !collection@.contains_key(path@),
        },
{
    match collection.sessions.get(path) {
        Some(s) => Ok(s),
        None => Err(Error::NotInitialized),
    }
}

/// Looks up a client within the open session for a snapshot path.
fn get_client<'a>(collection: &'a StrongholdCollection, path: &Vec<u8>, client: &Vec<u8>) -> (r:
    Result<&'a ClientState, Error>)
    ensures
        match r {
            Ok(c) => collection@.contains_key(path@) && collection@[path@].contains_key(client@)
                && c@ == collection@[path@][client@],
            Err(Error::NotInitialized) => !collection@.contains_key(path@),
            Err(Error::ClientNotFound) => collection@.contains_key(path@)
                && !collection@[path@].contains_key(client@),
            Err(_) => false,
        },
{
    let session = get_stronghold(collection, path)?;
    match session.clients.get(client) {
        Some(c) => Ok(c),
        None => Err(Error::ClientNotFound),
    }
}

/// Records the session the engine opened for `snapshot_path`, replacing any
/// session already open for that path (last initialize wins). `opened` is the
/// engine's outcome for opening or creating the snapshot with the derived
/// key; an engine failure passes through unchanged and leaves the registry
/// as it was.
pub fn initialize(
    collection: &mut StrongholdCollection,
    snapshot_path: String,
    opened: Result<Session, Error>,
) -> (r: Result<(), Error>)
    ensures
        match opened {
            Ok(s) => r == Ok::<(), Error>(()) && final(collection)@ == old(collection)@.insert(
                path_key(snapshot_path@),
                s@,
            ),
            Err(e) => r == Err::<(), Error>(e) && final(collection)@ == old(collection)@,
        },
{
    match opened {
        Ok(session) => {
            let pk = utf8_bytes(&snapshot_path);
            collection.sessions.insert(pk, session);
            Ok(())
        },
        Err(e) => Err(e),
    }
}

/// Closes the session for `snapshot_path` after persisting it. `flush` is
/// the engine's outcome for writing the session back to disk: on failure the
/// session is kept under its key (rollback) and the error surfaces, so a
/// failed destroy never loses a session. With no session open this is a
/// no-op success and `flush` is ignored.
pub fn destroy(
    collection: &mut StrongholdCollection,
    snapshot_path: &String,
    flush: Result<(), Error>,
) -> (r: Result<(), Error>)
    ensures
        !old(collection).has_session(snapshot_path@) ==> r == Ok::<(), Error>(()) && final(collection)@ == old(collection)@,
        old(collection).has_session(snapshot_path@) ==> match flush {
            Ok(()) => r == Ok::<(), Error>(()) && final(collection)@ == old(collection)@.remove(
                path_key(snapshot_path@),
            ),
            Err(e) => r == Err::<(), Error>(e) && final(collection)@ == old(collection)@,
        },
{
    let pk = utf8_bytes(snapshot_path);
    match collection.sessions.remove_entry(&pk) {
        Some((key, session)) => {
            match flush {
                Ok(()) => Ok(()),
                Err(e) => {
                    collection.sessions.insert(key, session);
                    proof {
                        assert(old(collection)@.remove(pk@).insert(pk@, old(collection)@[pk@])
                            =~= old(collection)@);
                    }
                    Err(e)
                },
            }
        },
        None => Ok(()),
    }
}

/// Persists the session for `snapshot_path` without closing it. `flush` is
/// the engine's outcome for writing the session to disk; with no session
/// open this is a no-op success and `flush` is ignored. The registry never
/// changes.
pub fn save(
    collection: &StrongholdCollection,
    snapshot_path: &String,
    flush: Result<(), Error>,
) -> (r: Result<(), Error>)
    ensures
        !collection.has_session(snapshot_path@) ==> r == Ok::<(), Error>(()),
        collection.has_session(snapshot_path@) ==> r == flush,
{
    let pk = utf8_bytes(snapshot_path);
    if collection.sessions.contains(&pk) {
        flush
    } else {
        Ok(())
    }
}

/// Creates the named client namespace, empty, within the open session for
/// `snapshot_path`, replacing any state that client already had, as the
/// engine's create does. Fails with `NotInitialized` if no session is open.
pub fn create_client(
    collection: &mut StrongholdCollection,
    snapshot_path: &String,
    client: &BytesDto,
) -> (r: Result<(), Error>)
    ensures
        match r {
            Ok(()) => old(collection).has_session(snapshot_path@) && final(collection)@
                == with_client(
                old(collection)@,
                path_key(snapshot_path@),
                client.spec_bytes(),
                ClientView::empty(),
            ),
            Err(e) => e == Error::NotInitialized && !old(collection).has_session(snapshot_path@)
                && final(collection)@ == old(collection)@,
        },
{
    let pk = utf8_bytes(snapshot_path);
    match collection.sessions.remove_entry(&pk) {
        Some((key, mut session)) => {
            let cb = client.to_bytes();
            session.clients.insert(cb, ClientState::new());
            collection.sessions.insert(key, session);
            proof {
                let m = old(collection)@;
                let sv = m[pk@].insert(client.spec_bytes(), ClientView::empty());
                assert(m.remove(pk@).insert(pk@, sv) =~= m.insert(pk@, sv));
            }
            Ok(())
        },
        None => Err(Error::NotInitialized),
    }
}

/// Loads the named client namespace within the open session for
/// `snapshot_path`: it must already exist there. Fails with
/// `NotInitialized` if no session is open, and with the engine's
/// client-not-found failure if the snapshot holds no such client.
/// The registry never changes.
pub fn load_client(
    collection: &StrongholdCollection,
    snapshot_path: &String,
    client: &BytesDto,
) -> (r: Result<(), Error>)
    ensures
        match r {
            Ok(()) => collection.has_client(snapshot_path@, client.spec_bytes()),
            Err(Error::NotInitialized) => !collection.has_session(snapshot_path@),
            Err(Error::ClientNotFound) => collection.has_session(snapshot_path@) && !collection
                .has_client(snapshot_path@, client.spec_bytes()),
            Err(_) => false,
        },
{
    let pk = utf8_bytes(snapshot_path);
    let cb = client.to_bytes();
    match get_client(collection, &pk, &cb) {
        Ok(_) => Ok(()),
        Err(e) => Err(e),
    }
}

/// Reads the store record under `key` in the named client: the value if the
/// record is present, `None` if absent — absence is never an error.
pub fn get_store_record(
    collection: &StrongholdCollection,
    snapshot_path: &String,
    client: &BytesDto,
    key: String,
) -> (r: Result<Option<Vec<u8>>, Error>)
    ensures
        match r {
            Ok(v) => collection.has_client(snapshot_path@, client.spec_bytes()) && (match v {
                Some(b) => collection.client_at(snapshot_path@, client.spec_bytes()).store_lookup(
                    encode_utf8(key@),
                ) == Some(b@),
                None => collection.client_at(snapshot_path@, client.spec_bytes()).store_lookup(
                    encode_utf8(key@),
                ) is None,
            }),
            Err(Error::NotInitialized) => !collection.has_session(snapshot_path@),
            Err(Error::ClientNotFound) => collection.has_session(snapshot_path@) && !collection
                .has_client(snapshot_path@, client.spec_bytes()),
            Err(_) => false,
        },
{
    let pk = utf8_bytes(snapshot_path);
    let cb = client.to_bytes();
    let cl = get_client(collection, &pk, &cb)?;
    let kb = utf8_bytes(&key);
    match cl.store.get(&kb) {
        Some(entry) => Ok(Some(copy_bytes(&entry.value))),
        None => Ok(None),
    }
}

/// Writes the store record under `key` in the named client, with an optional
/// time-to-live after which the engine considers it expired. Returns the
/// value the record held before, `None` if it was absent.
pub fn save_store_record(
    collection: &mut StrongholdCollection,
    snapshot_path: &String,
    client: &BytesDto,
    key: String,
    value: Vec<u8>,
    lifetime: Option<u64>,
) -> (r: Result<Option<Vec<u8>>, Error>)
    ensures
        match r {
            Ok(prev) => {
                let cb = client.spec_bytes();
                let kb = encode_utf8(key@);
                let before = old(collection).client_at(snapshot_path@, cb);
                &&& old(collection).has_client(snapshot_path@, cb)
                &&& final(collection)@ == with_client(
                    old(collection)@,
                    path_key(snapshot_path@),
                    cb,
                    before.store_insert(kb, value@, lifetime),
                )
                &&& match prev {
                    Some(p) => before.store_lookup(kb) == Some(p@),
                    None => before.store_lookup(kb) is None,
                }
            },
            Err(Error::NotInitialized) => !old(collection).has_session(snapshot_path@) && final(collection)@ == old(collection)@,
            Err(Error::ClientNotFound) => old(collection).has_session(snapshot_path@) && !old(collection).has_client(snapshot_path@, client.spec_bytes()) && final(collection)@ == old(collection)@,
            Err(_) => false,
        },
{
    let pk = utf8_bytes(snapshot_path);
    match collection.sessions.remove_entry(&pk) {
        None => Err(Error::NotInitialized),
        Some((skey, mut session)) => {
            let cb = client.to_bytes();
            match session.clients.remove_entry(&cb) {
                None => {
                    collection.sessions.insert(skey, session);
                    proof {
                        let m = old(collection)@;
                        assert(m.remove(pk@).insert(pk@, m[pk@]) =~= m);
                    }
                    Err(Error::ClientNotFound)
                },
                Some((ckey, mut cl)) => {
                    let kb = utf8_bytes(&key);
                    let prev = cl.store.insert(kb, StoreEntry { value, lifetime });
                    let out = match prev {
                        Some(e) => Some(e.value),
                        None => None,
                    };
                    session.clients.insert(ckey, cl);
                    collection.sessions.insert(skey, session);
                    proof {
                        let m = old(collection)@;
                        let cv = m[pk@][cb@].store_insert(encode_utf8(key@), value@, lifetime);
                        assert(m[pk@].remove(cb@).insert(cb@, cv) =~= m[pk@].insert(cb@, cv));
                        assert(m.remove(pk@).insert(pk@, m[pk@].insert(cb@, cv)) =~= with_client(
                            m,
                            pk@,
                            cb@,
                            cv,
                        ));
                    }
                    Ok(out)
                },
            }
        },
    }
}

/// Deletes the store record under `key` in the named client. Returns the
/// value it held, `None` if it was absent — absence is never an error.
pub fn remove_store_record(
    collection: &mut StrongholdCollection,
    snapshot_path: &String,
    client: &BytesDto,
    key: String,
) -> (r: Result<Option<Vec<u8>>, Error>)
    ensures
        match r {
            Ok(prev) => {
                let cb = client.spec_bytes();
                let kb = encode_utf8(key@);
                let before = old(collection).client_at(snapshot_path@, cb);
                &&& old(collection).has_client(snapshot_path@, cb)
                &&& final(collection)@ == with_client(
                    old(collection)@,
                    path_key(snapshot_path@),
                    cb,
                    before.store_remove(kb),
                )
                &&& match prev {
                    Some(p) => before.store_lookup(kb) == Some(p@),
                    None => before.store_lookup(kb) is None,
                }
            },
            Err(Error::NotInitialized) => !old(collection).has_session(snapshot_path@) && final(collection)@ == old(collection)@,
            Err(Error::ClientNotFound) => old(collection).has_session(snapshot_path@) && !old(collection).has_client(snapshot_path@, client.spec_bytes()) && final(collection)@ == old(collection)@,
            Err(_) => false,
        },
{
    let pk = utf8_bytes(snapshot_path);
    match collection.sessions.remove_entry(&pk) {
        None => Err(Error::NotInitialized),
        Some((skey, mut session)) => {
            let cb = client.to_bytes();
            match session.clients.remove_entry(&cb) {
                None => {
                    collection.sessions.insert(skey, session);
                    proof {
                        let m = old(collection)@;
                        assert(m.remove(pk@).insert(pk@, m[pk@]) =~= m);
                    }
                    Err(Error::ClientNotFound)
                },
                Some((ckey, mut cl)) => {
                    let kb = utf8_bytes(&key);
                    let prev = cl.store.remove_entry(&kb);
                    let out = match prev {
                        Some(e) => Some(e.1.value),
                        None => None,
                    };
                    session.clients.insert(ckey, cl);
                    collection.sessions.insert(skey, session);
                    proof {
                        let m = old(collection)@;
                        let cv = m[pk@][cb@].store_remove(encode_utf8(key@));
                        assert(m[pk@].remove(cb@).insert(cb@, cv) =~= m[pk@].insert(cb@, cv));
                        assert(m.remove(pk@).insert(pk@, m[pk@].insert(cb@, cv)) =~= with_client(
                            m,
                            pk@,
                            cb@,
                            cv,
                        ));
                    }
                    Ok(out)
                },
            }
        },
    }
}

/// Writes a secret at the generic location (vault, record path) in the named
/// client. The plaintext moves into the session without any copy being kept.
pub fn save_secret(
    collection: &mut StrongholdCollection,
    snapshot_path: &String,
    client: &BytesDto,
    vault: &BytesDto,
    record_path: &BytesDto,
    secret: Vec<u8>,
) -> (r: Result<(), Error>)
    ensures
        match r {
            Ok(()) => {
                let cb = client.spec_bytes();
                let before = old(collection).client_at(snapshot_path@, cb);
                &&& old(collection).has_client(snapshot_path@, cb)
                &&& final(collection)@ == with_client(
                    old(collection)@,
                    path_key(snapshot_path@),
                    cb,
                    before.vault_insert(vault.spec_bytes(), record_path.spec_bytes(), secret@),
                )
            },
            Err(Error::NotInitialized) => !old(collection).has_session(snapshot_path@) && final(collection)@ == old(collection)@,
            Err(Error::ClientNotFound) => old(collection).has_session(snapshot_path@) && !old(collection).has_client(snapshot_path@, client.spec_bytes()) && final(collection)@ == old(collection)@,
            Err(_) => false,
        },
{
    let pk = utf8_bytes(snapshot_path);
    match collection.sessions.remove_entry(&pk) {
        None => Err(Error::NotInitialized),
        Some((skey, mut session)) => {
            let cb = client.to_bytes();
            match session.clients.remove_entry(&cb) {
                None => {
                    collection.sessions.insert(skey, session);
                    proof {
                        let m = old(collection)@;
                        assert(m.remove(pk@).insert(pk@, m[pk@]) =~= m);
                    }
                    Err(Error::ClientNotFound)
                },
                Some((ckey, mut cl)) => {
                    let vb = vault.to_bytes();
                    let rb = record_path.to_bytes();
                    let mut vs = match cl.vaults.remove_entry(&vb) {
                        Some((_vkey, vs)) => vs,
                        None => VaultState { records: ByteMap::new() },
                    };
                    vs.records.insert(rb, secret);
                    cl.vaults.insert(vb, vs);
                    session.clients.insert(ckey, cl);
                    collection.sessions.insert(skey, session);
                    proof {
                        let m = old(collection)@;
                        let before = m[pk@][cb@];
                        let cv = before.vault_insert(
                            vault.spec_bytes(),
                            record_path.spec_bytes(),
                            secret@,
                        );
                        assert(cl@.vaults =~= cv.vaults);
                        assert(cl@.store =~= cv.store);
                        assert(m[pk@].remove(cb@).insert(cb@, cv) =~= m[pk@].insert(cb@, cv));
                        assert(m.remove(pk@).insert(pk@, m[pk@].insert(cb@, cv)) =~= with_client(
                            m,
                            pk@,
                            cb@,
                            cv,
                        ));
                    }
                    Ok(())
                },
            }
        },
    }
}

/// Reads the secret at the generic location (vault, record path) in the
/// named client, wrapped in a self-scrubbing buffer: the returned bytes are
/// genuinely sensitive plaintext, and the caller must scrub them. A missing
/// record surfaces the engine's record-not-found failure.
pub fn unsafe_get_secret(
    collection: &StrongholdCollection,
    snapshot_path: &String,
    client: &BytesDto,
    vault: &BytesDto,
    record_path: &BytesDto,
) -> (r: Result<SecretBuffer, Error>)
    ensures
        match r {
            Ok(s) => collection.has_client(snapshot_path@, client.spec_bytes()) && collection
                .client_at(snapshot_path@, client.spec_bytes()).vault_lookup(
                vault.spec_bytes(),
                record_path.spec_bytes(),
            ) == Some(s@),
            Err(Error::RecordNotFound) => collection.has_client(snapshot_path@, client.spec_bytes())
                && collection.client_at(snapshot_path@, client.spec_bytes()).vault_lookup(
                vault.spec_bytes(),
                record_path.spec_bytes(),
            ) is None,
            Err(Error::NotInitialized) => !collection.has_session(snapshot_path@),
            Err(Error::ClientNotFound) => collection.has_session(snapshot_path@) && !collection
                .has_client(snapshot_path@, client.spec_bytes()),
            Err(_) => false,
        },
{
    let pk = utf8_bytes(snapshot_path);
    let cb = client.to_bytes();
    let cl = get_client(collection, &pk, &cb)?;
    let vb = vault.to_bytes();
    match cl.vaults.get(&vb) {
        None => Err(Error::RecordNotFound),
        Some(vs) => {
            let rb = record_path.to_bytes();
            match vs.records.get(&rb) {
                None => Err(Error::RecordNotFound),
                Some(bytes) => Ok(SecretBuffer::new(copy_bytes(bytes))),
            }
        },
    }
}

/// Deletes the secret at the generic location (vault, record path) in the
/// named client, reporting success or failure only, never the content.
/// Deleting an absent record succeeds without effect.
pub fn remove_secret(
    collection: &mut StrongholdCollection,
    snapshot_path: &String,
    client: &BytesDto,
    vault: &BytesDto,
    record_path: &BytesDto,
) -> (r: Result<(), Error>)
    ensures
        match r {
            Ok(()) => {
                let cb = client.spec_bytes();
                let before = old(collection).client_at(snapshot_path@, cb);
                &&& old(collection).has_client(snapshot_path@, cb)
                &&& final(collection)@ == with_client(
                    old(collection)@,
                    path_key(snapshot_path@),
                    cb,
                    before.vault_remove(vault.spec_bytes(), record_path.spec_bytes()),
                )
            },
            Err(Error::NotInitialized) => !old(collection).has_session(snapshot_path@) && final(collection)@ == old(collection)@,
            Err(Error::ClientNotFound) => old(collection).has_session(snapshot_path@) && !old(collection).has_client(snapshot_path@, client.spec_bytes()) && final(collection)@ == old(collection)@,
            Err(_) => false,
        },
{
    let pk = utf8_bytes(snapshot_path);
    match collection.sessions.remove_entry(&pk) {
        None => Err(Error::NotInitialized),
        Some((skey, mut session)) => {
            let cb = client.to_bytes();
            match session.clients.remove_entry(&cb) {
                None => {
                    collection.sessions.insert(skey, session);
                    proof {
                        let m = old(collection)@;
                        assert(m.remove(pk@).insert(pk@, m[pk@]) =~= m);
                    }
                    Err(Error::ClientNotFound)
                },
                Some((ckey, mut cl)) => {
                    let vb = vault.to_bytes();
                    match cl.vaults.remove_entry(&vb) {
                        None => {
                            session.clients.insert(ckey, cl);
                            collection.sessions.insert(skey, session);
                            proof {
                                let m = old(collection)@;
                                let before = m[pk@][cb@];
                                let cv = before.vault_remove(
                                    vault.spec_bytes(),
                                    record_path.spec_bytes(),
                                );
                                assert(cl@.vaults =~= cv.vaults);
                                assert(cl@.store =~= cv.store);
                                assert(m[pk@].remove(cb@).insert(cb@, cv) =~= m[pk@].insert(
                                    cb@,
                                    cv,
                                ));
                                assert(m.remove(pk@).insert(pk@, m[pk@].insert(cb@, cv))
                                    =~= with_client(m, pk@, cb@, cv));
                            }
                            Ok(())
                        },
                        Some((vkey, mut vs)) => {
                            let rb = record_path.to_bytes();
                            vs.records.remove_entry(&rb);
                            cl.vaults.insert(vkey, vs);
                            session.clients.insert(ckey, cl);
                            collection.sessions.insert(skey, session);
                            proof {
                                let m = old(collection)@;
                                let before = m[pk@][cb@];
                                let cv = before.vault_remove(
                                    vault.spec_bytes(),
                                    record_path.spec_bytes(),
                                );
                                assert(cl@.vaults =~= cv.vaults);
                                assert(cl@.store =~= cv.store);
                                assert(m[pk@].remove(cb@).insert(cb@, cv) =~= m[pk@].insert(
                                    cb@,
                                    cv,
                                ));
                                assert(m.remove(pk@).insert(pk@, m[pk@].insert(cb@, cv))
                                    =~= with_client(m, pk@, cb@, cv));
                            }
                            Ok(())
                        },
                    }
                },
            }
        },
    }
}

/// Validates that the session and client exist, then translates the tagged
/// request into the one typed invocation the engine is to execute.
/// Procedure execution itself — and its output bytes — belong to the engine:
/// the embedder runs the returned invocation against the named client.
pub fn execute_procedure(
    collection: &StrongholdCollection,
    snapshot_path: &String,
    client: &BytesDto,
    procedure: ProcedureDto,
) -> (r: Result<Procedure, Error>)
    ensures
        match r {
            Ok(p) => collection.has_client(snapshot_path@, client.spec_bytes()) && translates_to(
                procedure,
                p,
            ),
            Err(Error::NotInitialized) => !collection.has_session(snapshot_path@),
            Err(Error::ClientNotFound) => collection.has_session(snapshot_path@) && !collection
                .has_client(snapshot_path@, client.spec_bytes()),
            Err(_) => false,
        },
{
    let pk = utf8_bytes(snapshot_path);
    let cb = client.to_bytes();
    match get_client(collection, &pk, &cb) {
        Ok(_) => Ok(procedure.into_procedure()),
        Err(e) => Err(e),
    }
}

} // verus!
