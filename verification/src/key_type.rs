//! The strict key-algorithm tag parser: exactly two identifiers are
//! recognized, case-insensitively; everything else is rejected before any
//! request reaches the engine. It is kept apart from the general payload
//! decoding so its accepted set stands on its own.

use vstd::prelude::*;
use vstd::string::StrSliceExecFns;

use crate::error::Error;

verus! {

/// A key algorithm: the closed set this layer understands.
#[derive(Clone, Copy, Debug, PartialEq, Eq)]
pub enum KeyType {
    Ed25519,
    X25519,
}

/// One character matched case-insensitively against a character of a
/// lowercase identifier: equal, or the uppercase letter of it.
pub open spec fn char_matches_ci(a: char, b: char) -> bool {
    a == b || ('A' as u32 <= a as u32 && a as u32 <= 'Z' as u32 && a as u32 + 32 == b as u32)
}

/// Whether `s` matches the lowercase identifier `lit`, ignoring letter case.
pub open spec fn matches_ci(s: Seq<char>, lit: Seq<char>) -> bool {
    s.len() == lit.len() && forall|i: int| 0 <= i < s.len() ==> char_matches_ci(s[i], lit[i])
}

impl KeyType {
    /// What parsing accepts: exactly the two algorithm identifiers, in any
    /// letter case; every other value is an unknown key type.
    pub open spec fn spec_parse(s: Seq<char>) -> Result<KeyType, Error> {
        if matches_ci(s, "ed25519"@) {
            Ok(KeyType::Ed25519)
        } else if matches_ci(s, "x25519"@) {
            Ok(KeyType::X25519)
        } else {
            Err(Error::UnknownKeyType)
        }
    }

    /// Parses a key algorithm tag, rejecting anything outside the closed
    /// accepted set with an unknown-key-type error.
    pub fn parse(s: &str) -> (r: Result<KeyType, Error>)
        ensures
            r == KeyType::spec_parse(s@),
    {
        if eq_ci(s, "ed25519") {
            Ok(KeyType::Ed25519)
        } else if eq_ci(s, "x25519") {
            Ok(KeyType::X25519)
        } else {
            Err(Error::UnknownKeyType)
        }
    }
}

/// Case-insensitive comparison of `s` against a lowercase identifier.
fn eq_ci(s: &str, lit: &str) -> (r: bool)
    ensures
        r == matches_ci(s@, lit@),
{
    let n = s.unicode_len();
    if n != lit.unicode_len() {
        return false;
    }
    let mut i: usize = 0;
    while i < n
        invariant
            n == s@.len(),
            n == lit@.len(),
            i <= n,
            forall|j: int| 0 <= j < i ==> char_matches_ci(s@[j], lit@[j]),
        decreases n - i,
    {
        let a = s.get_char(i);
        let b = lit.get_char(i);
        let au = a as u32;
        let bu = b as u32;
        let ok = a == b || ('A' as u32 <= au && au <= 'Z' as u32 && au + 32 == bu);
        if !ok {
            proof {
                assert(!char_matches_ci(s@[i as int], lit@[i as int]));
            }
            return false;
        }
        i += 1;
    }
    true
}

} // verus!
