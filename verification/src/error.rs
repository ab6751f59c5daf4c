//! Error taxonomy of the session layer.

use vstd::prelude::*;

verus! {

/// Why an operation failed.
///
/// `NotInitialized` marks an operation addressed to a snapshot path with no
/// open session. `UnknownKeyType` and `MalformedPayload` mark strictly
/// validated input that did not match its closed set of accepted forms.
/// The remaining variants carry failures surfaced by the vault engine
/// through unchanged: a missing client namespace, a missing secret record,
/// or any other engine failure with its message.
#[derive(Clone, Debug, PartialEq, Eq)]
pub enum Error {
    NotInitialized,
    UnknownKeyType,
    MalformedPayload,
    ClientNotFound,
    RecordNotFound,
    Engine(String),
}

} // verus!
