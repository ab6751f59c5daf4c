//! Laws of the registry: how the operations' state transitions compose.
//! Each proof function quantifies over every registry state its requires
//! admits; the transitions are the very spec functions the operations'
//! contracts are stated with.

use vstd::prelude::*;
use vstd::utf8::encode_utf8_decode_utf8;

use crate::registry::{path_key, with_client, RegistryView};
use crate::session::ClientView;

verus! {

/// Saving a secret and then reading the same (client, vault, record)
/// location returns exactly the saved bytes.
pub proof fn lemma_save_then_get_secret(
    m: RegistryView,
    pk: Seq<u8>,
    cb: Seq<u8>,
    vb: Seq<u8>,
    rb: Seq<u8>,
    secret: Seq<u8>,
)
    requires
        m.contains_key(pk),
        m[pk].contains_key(cb),
    ensures
        ({
            let m2 = with_client(m, pk, cb, m[pk][cb].vault_insert(vb, rb, secret));
            &&& m2.contains_key(pk)
            &&& m2[pk].contains_key(cb)
            &&& m2[pk][cb].vault_lookup(vb, rb) == Some(secret)
        }),
{
}

/// Removing the secret at a location and then reading that location finds
/// nothing.
pub proof fn lemma_remove_then_get_secret(
    m: RegistryView,
    pk: Seq<u8>,
    cb: Seq<u8>,
    vb: Seq<u8>,
    rb: Seq<u8>,
)
    requires
        m.contains_key(pk),
        m[pk].contains_key(cb),
    ensures
        ({
            let m2 = with_client(m, pk, cb, m[pk][cb].vault_remove(vb, rb));
            &&& m2.contains_key(pk)
            &&& m2[pk].contains_key(cb)
            &&& m2[pk][cb].vault_lookup(vb, rb) is None
        }),
{
}

/// Saving a store record and then reading the same key returns exactly the
/// saved value.
pub proof fn lemma_save_then_get_store(
    m: RegistryView,
    pk: Seq<u8>,
    cb: Seq<u8>,
    kb: Seq<u8>,
    value: Seq<u8>,
    lifetime: Option<u64>,
)
    requires
        m.contains_key(pk),
        m[pk].contains_key(cb),
    ensures
        ({
            let m2 = with_client(m, pk, cb, m[pk][cb].store_insert(kb, value, lifetime));
            &&& m2.contains_key(pk)
            &&& m2[pk].contains_key(cb)
            &&& m2[pk][cb].store_lookup(kb) == Some(value)
        }),
{
}

/// Removing a store record and then reading the same key finds nothing.
pub proof fn lemma_remove_then_get_store(m: RegistryView, pk: Seq<u8>, cb: Seq<u8>, kb: Seq<u8>)
    requires
        m.contains_key(pk),
        m[pk].contains_key(cb),
    ensures
        ({
            let m2 = with_client(m, pk, cb, m[pk][cb].store_remove(kb));
            &&& m2.contains_key(pk)
            &&& m2[pk].contains_key(cb)
            &&& m2[pk][cb].store_lookup(kb) is None
        }),
{
}

/// Two snapshot paths that differ denote different registry keys: UTF-8
/// encoding is lossless.
pub proof fn lemma_path_key_injective(path1: Seq<char>, path2: Seq<char>)
    requires
        path1 != path2,
    ensures
        path_key(path1) != path_key(path2),
{
    encode_utf8_decode_utf8(path1);
    encode_utf8_decode_utf8(path2);
}

/// Initializing sessions for two distinct snapshot paths leaves both open
/// and independently retrievable, each under its own path.
pub proof fn lemma_initialize_independent(
    m: RegistryView,
    path1: Seq<char>,
    s1: Map<Seq<u8>, ClientView>,
    path2: Seq<char>,
    s2: Map<Seq<u8>, ClientView>,
)
    requires
        path1 != path2,
    ensures
        ({
            let m2 = m.insert(path_key(path1), s1).insert(path_key(path2), s2);
            &&& m2.contains_key(path_key(path1)) && m2[path_key(path1)] == s1
            &&& m2.contains_key(path_key(path2)) && m2[path_key(path2)] == s2
        }),
{
    lemma_path_key_injective(path1, path2);
}

} // verus!
