//! Password handling: a caller-supplied key-derivation function is applied
//! to the raw password before anything reaches the engine, and the plaintext
//! password buffer is wiped immediately after use.

use vstd::prelude::*;

use crate::secret::{wipe_bytes, SecretBuffer};

verus! {

/// A caller-supplied key-derivation function from password bytes to derived
/// key bytes.
pub struct PasswordHashFunction<F>(pub F);

/// How the embedder configures password hashing: a built-in key-derivation
/// function parameterized by a filesystem path (an external collaborator
/// run by the embedder), or an arbitrary caller-supplied function.
pub enum PasswordHashFunctionKind<F> {
    Argon2(String),
    Custom(F),
}

/// Applies the key-derivation function to the password and immediately wipes
/// the password buffer, whatever the function returned. The derived key
/// leaves wrapped as secret material; the embedder hands it to the engine to
/// open the snapshot, then scrubs it.
pub fn derive_snapshot_key<F: Fn(&Vec<u8>) -> Vec<u8>>(
    hash_function: &PasswordHashFunction<F>,
    password: &mut Vec<u8>,
) -> (key: SecretBuffer)
    requires
        forall|p: &Vec<u8>| p@ == old(password)@ ==> call_requires(hash_function.0, (p,)),
    ensures
        final(password)@.len() == old(password)@.len(),
        forall|i: int| 0 <= i < final(password)@.len() ==> final(password)@[i] == 0u8,
        exists|p: &Vec<u8>, k: Vec<u8>|
            p@ == old(password)@ && #[trigger] call_ensures(hash_function.0, (p,), k) && key@ == k@,
{
    let k = (hash_function.0)(&*password);
    wipe_bytes(password);
    SecretBuffer::new(k)
}

} // verus!
