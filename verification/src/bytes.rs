//! The tagged byte value used as the canonical identifier type: vault names,
//! client names, record paths. A value is either UTF-8 text or raw bytes;
//! when used as a key, only the resulting byte sequence matters.

use vstd::prelude::*;
use vstd::string::StrSliceExecFns;
use vstd::utf8::encode_utf8;

verus! {

/// A byte sequence tagged as either UTF-8 text or raw bytes.
///
/// Text and raw forms with identical byte content are distinct values of the
/// union but denote the same key: identity is byte-wise after normalization
/// through [`BytesDto::spec_bytes`].
#[derive(Clone, Debug, Hash, PartialEq, Eq, PartialOrd, Ord)]
pub enum BytesDto {
    Text(String),
    Raw(Vec<u8>),
}

impl BytesDto {
    /// The byte sequence the value denotes: text encodes as its UTF-8 bytes,
    /// raw bytes are used as-is.
    pub open spec fn spec_bytes(&self) -> Seq<u8> {
        match self {
            BytesDto::Text(t) => encode_utf8(t@),
            BytesDto::Raw(b) => b@,
        }
    }

    /// The denoted bytes, materialized.
    pub fn to_bytes(&self) -> (r: Vec<u8>)
        ensures
            r@ == self.spec_bytes(),
    {
        match self {
            BytesDto::Text(t) => t.as_str().as_bytes_vec(),
            BytesDto::Raw(b) => copy_bytes(b),
        }
    }
}

/// A fresh vector holding the same bytes.
pub fn copy_bytes(src: &Vec<u8>) -> (r: Vec<u8>)
    ensures
        r@ == src@,
{
    let n = src.len();
    let mut r: Vec<u8> = Vec::new();
    let mut i: usize = 0;
    while i < n
        invariant
            n == src@.len(),
            i <= n,
            r@ =~= src@.subrange(0, i as int),
        decreases n - i,
    {
        r.push(src[i]);
        i += 1;
    }
    proof {
        assert(r@ =~= src@);
    }
    r
}

} // verus!
