//! The model of an open session: the decrypted state of one snapshot that
//! this layer reads and writes through the engine — client namespaces, each
//! with an auxiliary key/value store and vaults of secret records.

use vstd::prelude::*;
use crate::bytemap::ByteMap;

verus! {

/// Spec-level picture of one store record: its bytes and optional time-to-live.
pub ghost struct StoreRecordView {
    pub value: Seq<u8>,
    pub lifetime: Option<u64>,
}

/// Spec-level picture of one client namespace.
pub ghost struct ClientView {
    /// Auxiliary store: key bytes to record.
    pub store: Map<Seq<u8>, StoreRecordView>,
    /// Vaults: vault path bytes to (record path bytes to secret bytes).
    pub vaults: Map<Seq<u8>, Map<Seq<u8>, Seq<u8>>>,
}

impl ClientView {
    /// A client namespace with nothing in it.
    pub open spec fn empty() -> ClientView {
        ClientView { store: Map::empty(), vaults: Map::empty() }
    }

    /// The store record under `key`, if present.
    pub open spec fn store_lookup(self, key: Seq<u8>) -> Option<Seq<u8>> {
        if self.store.contains_key(key) {
            Some(self.store[key].value)
        } else {
            None
        }
    }

    /// The client after binding `key` to a record.
    pub open spec fn store_insert(self, key: Seq<u8>, value: Seq<u8>, lifetime: Option<u64>) -> ClientView {
        ClientView {
            store: self.store.insert(key, StoreRecordView { value, lifetime }),
            vaults: self.vaults,
        }
    }

    /// The client after removing the store record under `key`.
    pub open spec fn store_remove(self, key: Seq<u8>) -> ClientView {
        ClientView { store: self.store.remove(key), vaults: self.vaults }
    }

    /// The secret at (vault path, record path), if present.
    pub open spec fn vault_lookup(self, vault: Seq<u8>, record: Seq<u8>) -> Option<Seq<u8>> {
        if self.vaults.contains_key(vault) && self.vaults[vault].contains_key(record) {
            Some(self.vaults[vault][record])
        } else {
            None
        }
    }

    /// The client after writing a secret at (vault path, record path).
    pub open spec fn vault_insert(self, vault: Seq<u8>, record: Seq<u8>, secret: Seq<u8>) -> ClientView {
        let v = if self.vaults.contains_key(vault) {
            self.vaults[vault]
        } else {
            Map::empty()
        };
        ClientView { store: self.store, vaults: self.vaults.insert(vault, v.insert(record, secret)) }
    }

    /// The client after deleting the record at (vault path, record path).
    pub open spec fn vault_remove(self, vault: Seq<u8>, record: Seq<u8>) -> ClientView {
        if self.vaults.contains_key(vault) {
            ClientView {
                store: self.store,
                vaults: self.vaults.insert(vault, self.vaults[vault].remove(record)),
            }
        } else {
            self
        }
    }
}

/// One record of a client's auxiliary store: value bytes and an optional
/// time-to-live after which the engine considers the record expired.
pub struct StoreEntry {
    pub value: Vec<u8>,
    pub lifetime: Option<u64>,
}

impl View for StoreEntry {
    type V = StoreRecordView;

    open spec fn view(&self) -> StoreRecordView {
        StoreRecordView { value: self.value@, lifetime: self.lifetime }
    }
}

/// The secret records of one vault, keyed by record path bytes.
pub struct VaultState {
    pub records: ByteMap<Vec<u8>>,
}

impl View for VaultState {
    type V = Map<Seq<u8>, Seq<u8>>;

    open spec fn view(&self) -> Map<Seq<u8>, Seq<u8>> {
        self.records@
    }
}

/// One client namespace: its auxiliary store and its vaults.
pub struct ClientState {
    pub store: ByteMap<StoreEntry>,
    pub vaults: ByteMap<VaultState>,
}

impl View for ClientState {
    type V = ClientView;

    open spec fn view(&self) -> ClientView {
        ClientView { store: self.store@, vaults: self.vaults@ }
    }
}

impl ClientState {
    /// A fresh, empty client namespace.
    pub fn new() -> (r: Self)
        ensures
            r@ == ClientView::empty(),
    {
        let r = ClientState { store: ByteMap::new(), vaults: ByteMap::new() };
        proof {
            assert(r@.store =~= ClientView::empty().store);
            assert(r@.vaults =~= ClientView::empty().vaults);
        }
        r
    }
}

/// An open session: the live, decrypted state of one snapshot, keyed by
/// client identifier bytes. At most one session exists per snapshot path;
/// the registry owns it.
pub struct Session {
    pub clients: ByteMap<ClientState>,
}

impl View for Session {
    type V = Map<Seq<u8>, ClientView>;

    open spec fn view(&self) -> Map<Seq<u8>, ClientView> {
        self.clients@
    }
}

impl Session {
    /// A session over a snapshot that holds no clients yet.
    pub fn new() -> (r: Self)
        ensures
            r@ == Map::<Seq<u8>, ClientView>::empty(),
    {
        Session { clients: ByteMap::new() }
    }
}

} // verus!
