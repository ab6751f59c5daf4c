//! Handling discipline for plaintext secret material.
//!
//! Every buffer of plaintext secret bytes entering or leaving the layer is
//! wrapped in a [`SecretBuffer`] and scrubbed — every byte overwritten with
//! zero — at the earliest point after it is no longer needed.

use vstd::prelude::*;
use vstd::pervasive::VecAdditionalExecFns;

verus! {

/// Overwrites every byte of the buffer with zero, keeping its length, so a
/// later inspection of the buffer shows only zeros.
pub fn wipe_bytes(buf: &mut Vec<u8>)
    ensures
        final(buf)@.len() == old(buf)@.len(),
        forall|i: int| 0 <= i < final(buf)@.len() ==> final(buf)@[i] == 0u8,
{
    let n = buf.len();
    let mut i: usize = 0;
    while i < n
        invariant
            n == buf@.len(),
            i <= n,
            forall|j: int| 0 <= j < i ==> buf@[j] == 0u8,
        decreases n - i,
    {
        buf.set(i, 0);
        i += 1;
    }
}

/// In-memory plaintext secret material: passwords, seeds, derived keys,
/// secrets read back from a vault. The holder scrubs it with [`SecretBuffer::wipe`]
/// as soon as the bytes are no longer needed; reading it out through
/// [`SecretBuffer::expose`] hands over genuinely sensitive plaintext.
pub struct SecretBuffer {
    bytes: Vec<u8>,
}

impl View for SecretBuffer {
    type V = Seq<u8>;

    closed spec fn view(&self) -> Seq<u8> {
        self.bytes@
    }
}

impl SecretBuffer {
    /// Wraps plaintext bytes the moment they enter the layer.
    pub fn new(bytes: Vec<u8>) -> (r: Self)
        ensures
            r@ == bytes@,
    {
        SecretBuffer { bytes }
    }

    /// Borrows the plaintext. The caller must not copy it out unscrubbed.
    pub fn expose(&self) -> (r: &Vec<u8>)
        ensures
            r@ == self@,
    {
        &self.bytes
    }

    /// Overwrites the plaintext with zeros, keeping the length.
    pub fn wipe(&mut self)
        ensures
            final(self)@.len() == old(self)@.len(),
            forall|i: int| 0 <= i < final(self)@.len() ==> final(self)@[i] == 0u8,
    {
        wipe_bytes(&mut self.bytes);
    }
}

} // verus!
