//! The location resolver: maps an abstract location request — named-generic
//! or counter-based — to the engine's internal location handle. The two
//! addressing schemes are distinct namespaces and never collide, because the
//! handle keeps the scheme tag.

use vstd::prelude::*;

use crate::bytes::BytesDto;

verus! {

/// Spec-level picture of a resolved location handle.
pub ghost enum LocationView {
    Generic { vault: Seq<u8>, record: Seq<u8> },
    Counter { vault: Seq<u8>, counter: usize },
}

/// A location request: a secret record addressed either by vault and record
/// name or by vault and numeric counter.
#[derive(Clone, Debug, PartialEq, Eq)]
pub enum LocationDto {
    Generic { vault: BytesDto, record: BytesDto },
    Counter { vault: BytesDto, counter: usize },
}

impl LocationDto {
    /// The handle this request resolves to: identifiers normalize to their
    /// bytes, the scheme tag and counter carry over unchanged.
    pub open spec fn spec_resolved(&self) -> LocationView {
        match self {
            LocationDto::Generic { vault, record } => LocationView::Generic {
                vault: vault.spec_bytes(),
                record: record.spec_bytes(),
            },
            LocationDto::Counter { vault, counter } => LocationView::Counter {
                vault: vault.spec_bytes(),
                counter: *counter,
            },
        }
    }
}

/// Model of the engine's internal location handle: the resolved byte paths
/// under their addressing scheme.
#[derive(Clone, Debug, PartialEq, Eq)]
pub enum Location {
    Generic { vault: Vec<u8>, record: Vec<u8> },
    Counter { vault: Vec<u8>, counter: usize },
}

impl View for Location {
    type V = LocationView;

    open spec fn view(&self) -> LocationView {
        match self {
            Location::Generic { vault, record } => LocationView::Generic {
                vault: vault@,
                record: record@,
            },
            Location::Counter { vault, counter } => LocationView::Counter {
                vault: vault@,
                counter: *counter,
            },
        }
    }
}

impl Location {
    /// Resolves a location request deterministically, with no fallible
    /// branch: the request type itself rules malformed input out.
    pub fn resolve(dto: &LocationDto) -> (r: Location)
        ensures
            r@ == dto.spec_resolved(),
    {
        match dto {
            LocationDto::Generic { vault, record } => Location::Generic {
                vault: vault.to_bytes(),
                record: record.to_bytes(),
            },
            LocationDto::Counter { vault, counter } => Location::Counter {
                vault: vault.to_bytes(),
                counter: *counter,
            },
        }
    }
}

} // verus!
