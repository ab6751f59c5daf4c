//! The wire shapes of the command surface. A tagged value travels as either
//! a plain string or a raw byte array, interchangeably and without a
//! discriminant: decoders accept both. A location travels as a tagged
//! payload — a `type` tag and a `payload` object — in one of two shapes,
//! named or counter-based. The encoder emits the canonical field order, and
//! the decoder is strict about it.

use vstd::prelude::*;
use vstd::string::StringExecFns;

use crate::bytes::{copy_bytes, BytesDto};
use crate::error::Error;
use crate::location::LocationDto;

verus! {

/// One node of a self-describing wire payload.
#[derive(Debug, PartialEq, Eq)]
pub enum WireValue {
    Str(String),
    Bytes(Vec<u8>),
    Uint(usize),
    Object(Vec<(String, WireValue)>),
}

/// How a tagged value relates to a wire value: text travels as a string,
/// raw bytes as a byte array.
pub open spec fn is_bytes_wire(dto: BytesDto, w: WireValue) -> bool {
    match (dto, w) {
        (BytesDto::Text(t), WireValue::Str(s)) => s@ == t@,
        (BytesDto::Raw(b), WireValue::Bytes(v)) => v@ == b@,
        _ => false,
    }
}

/// The two wire shapes a tagged value decodes from.
pub open spec fn is_bytes_shaped(w: WireValue) -> bool {
    w is Str || w is Bytes
}

/// Encodes a tagged value into its wire shape: text as a string, raw as a
/// byte array.
pub fn encode_bytes_dto(dto: &BytesDto) -> (w: WireValue)
    ensures
        is_bytes_wire(*dto, w),
{
    match dto {
        BytesDto::Text(t) => WireValue::Str(t.clone()),
        BytesDto::Raw(b) => WireValue::Bytes(copy_bytes(b)),
    }
}

/// Decodes a tagged value from either wire shape, without a discriminant;
/// any other shape is malformed.
pub fn decode_bytes_dto(w: &WireValue) -> (r: Result<BytesDto, Error>)
    ensures
        match r {
            Ok(dto) => is_bytes_shaped(*w) && is_bytes_wire(dto, *w),
            Err(e) => e == Error::MalformedPayload && !is_bytes_shaped(*w),
        },
{
    match w {
        WireValue::Str(s) => Ok(BytesDto::Text(s.clone())),
        WireValue::Bytes(b) => Ok(BytesDto::Raw(copy_bytes(b))),
        _ => Err(Error::MalformedPayload),
    }
}

/// How a location request relates to a wire value: a two-field object — the
/// `type` tag and the `payload` object holding the scheme's fields in
/// canonical order.
pub open spec fn is_location_wire(dto: LocationDto, w: WireValue) -> bool {
    match w {
        WireValue::Object(top) => {
            &&& top@.len() == 2
            &&& top@[0].0@ == "type"@
            &&& top@[1].0@ == "payload"@
            &&& match dto {
                LocationDto::Generic { vault, record } => {
                    &&& top@[0].1 matches WireValue::Str(tag) && tag@ == "Generic"@
                    &&& top@[1].1 matches WireValue::Object(fields) && fields@.len() == 2
                        && fields@[0].0@ == "vault"@ && is_bytes_wire(vault, fields@[0].1)
                        && fields@[1].0@ == "record"@ && is_bytes_wire(record, fields@[1].1)
                },
                LocationDto::Counter { vault, counter } => {
                    &&& top@[0].1 matches WireValue::Str(tag) && tag@ == "Counter"@
                    &&& top@[1].1 matches WireValue::Object(fields) && fields@.len() == 2
                        && fields@[0].0@ == "vault"@ && is_bytes_wire(vault, fields@[0].1)
                        && fields@[1].0@ == "counter"@ && (fields@[1].1 matches WireValue::Uint(c)
                        && c == counter)
                },
            }
        },
        _ => false,
    }
}

/// The shape of a named-location payload.
pub open spec fn generic_payload_shaped(p: WireValue) -> bool {
    p matches WireValue::Object(fields) && fields@.len() == 2 && fields@[0].0@ == "vault"@
        && is_bytes_shaped(fields@[0].1) && fields@[1].0@ == "record"@ && is_bytes_shaped(
        fields@[1].1,
    )
}

/// The shape of a counter-location payload.
pub open spec fn counter_payload_shaped(p: WireValue) -> bool {
    p matches WireValue::Object(fields) && fields@.len() == 2 && fields@[0].0@ == "vault"@
        && is_bytes_shaped(fields@[0].1) && fields@[1].0@ == "counter"@ && fields@[1].1 is Uint
}

/// The wire shapes a location decodes from.
pub open spec fn is_location_shaped(w: WireValue) -> bool {
    match w {
        WireValue::Object(top) => {
            &&& top@.len() == 2
            &&& top@[0].0@ == "type"@
            &&& top@[1].0@ == "payload"@
            &&& (top@[0].1 matches WireValue::Str(tag) && ((tag@ == "Generic"@
                && generic_payload_shaped(top@[1].1)) || (tag@ == "Counter"@
                && counter_payload_shaped(top@[1].1))))
        },
        _ => false,
    }
}

/// Whether a string equals a literal.
fn str_eq_lit(s: &String, lit: &str) -> (r: bool)
    ensures
        r == (s@ == lit@),
{
    let other = String::from_str(lit);
    *s == other
}

/// Encodes a location request as its tagged wire payload, fields in
/// canonical order.
pub fn encode_location(dto: &LocationDto) -> (w: WireValue)
    ensures
        is_location_wire(*dto, w),
{
    match dto {
        LocationDto::Generic { vault, record } => {
            let mut fields: Vec<(String, WireValue)> = Vec::new();
            fields.push((String::from_str("vault"), encode_bytes_dto(vault)));
            fields.push((String::from_str("record"), encode_bytes_dto(record)));
            let mut top: Vec<(String, WireValue)> = Vec::new();
            top.push((String::from_str("type"), WireValue::Str(String::from_str("Generic"))));
            top.push((String::from_str("payload"), WireValue::Object(fields)));
            WireValue::Object(top)
        },
        LocationDto::Counter { vault, counter } => {
            let mut fields: Vec<(String, WireValue)> = Vec::new();
            fields.push((String::from_str("vault"), encode_bytes_dto(vault)));
            fields.push((String::from_str("counter"), WireValue::Uint(*counter)));
            let mut top: Vec<(String, WireValue)> = Vec::new();
            top.push((String::from_str("type"), WireValue::Str(String::from_str("Counter"))));
            top.push((String::from_str("payload"), WireValue::Object(fields)));
            WireValue::Object(top)
        },
    }
}

/// Decodes a location request from its tagged wire payload; any other shape
/// is malformed.
pub fn decode_location(w: &WireValue) -> (r: Result<LocationDto, Error>)
    ensures
        match r {
            Ok(dto) => is_location_shaped(*w) && is_location_wire(dto, *w),
            Err(e) => e == Error::MalformedPayload && !is_location_shaped(*w),
        },
{
    match w {
        WireValue::Object(top) => {
            if top.len() != 2 {
                return Err(Error::MalformedPayload);
            }
            if !str_eq_lit(&top[0].0, "type") || !str_eq_lit(&top[1].0, "payload") {
                return Err(Error::MalformedPayload);
            }
            let tag = match &top[0].1 {
                WireValue::Str(tag) => tag,
                _ => {
                    return Err(Error::MalformedPayload);
                },
            };
            let fields = match &top[1].1 {
                WireValue::Object(fields) => fields,
                _ => {
                    return Err(Error::MalformedPayload);
                },
            };
            if str_eq_lit(tag, "Generic") {
                proof {
                    reveal_strlit("Generic");
                    reveal_strlit("Counter");
                    assert("Generic"@[0] != "Counter"@[0]);
                }
                if fields.len() != 2 {
                    return Err(Error::MalformedPayload);
                }
                if !str_eq_lit(&fields[0].0, "vault") || !str_eq_lit(&fields[1].0, "record") {
                    return Err(Error::MalformedPayload);
                }
                let vault = decode_bytes_dto(&fields[0].1)?;
                let record = decode_bytes_dto(&fields[1].1)?;
                Ok(LocationDto::Generic { vault, record })
            } else if str_eq_lit(tag, "Counter") {
                proof {
                    reveal_strlit("Generic");
                    reveal_strlit("Counter");
                    assert("Generic"@[0] != "Counter"@[0]);
                }
                if fields.len() != 2 {
                    return Err(Error::MalformedPayload);
                }
                if !str_eq_lit(&fields[0].0, "vault") || !str_eq_lit(&fields[1].0, "counter") {
                    return Err(Error::MalformedPayload);
                }
                let vault = decode_bytes_dto(&fields[0].1)?;
                let counter = match &fields[1].1 {
                    WireValue::Uint(c) => *c,
                    _ => {
                        return Err(Error::MalformedPayload);
                    },
                };
                Ok(LocationDto::Counter { vault, counter })
            } else {
                Err(Error::MalformedPayload)
            }
        },
        _ => Err(Error::MalformedPayload),
    }
}

/// Whichever of the two wire shapes carried a tagged value, decoding it back
/// yields the same variant with byte-identical content.
pub proof fn lemma_bytes_round_trip(dto: BytesDto, w: WireValue, decoded: BytesDto)
    requires
        is_bytes_wire(dto, w),
        is_bytes_wire(decoded, w),
    ensures
        decoded.spec_bytes() == dto.spec_bytes(),
        dto matches BytesDto::Text(t) ==> (decoded matches BytesDto::Text(t2) && t2@ == t@),
        dto matches BytesDto::Raw(b) ==> (decoded matches BytesDto::Raw(b2) && b2@ == b@),
{
}

/// A location encoded as named or indexed, decoded, and re-resolved gives
/// the same handle as one resolved directly from the original request.
pub proof fn lemma_location_round_trip(dto: LocationDto, w: WireValue, decoded: LocationDto)
    requires
        is_location_wire(dto, w),
        is_location_wire(decoded, w),
    ensures
        decoded.spec_resolved() == dto.spec_resolved(),
{
    reveal_strlit("Generic");
    reveal_strlit("Counter");
    assert("Generic"@[0] != "Counter"@[0]);
    match w {
        WireValue::Object(top) => {
            match (dto, decoded) {
                (
                    LocationDto::Generic { vault: v1, record: r1 },
                    LocationDto::Generic { vault: v2, record: r2 },
                ) => {
                    match top@[1].1 {
                        WireValue::Object(fields) => {
                            lemma_bytes_round_trip(v1, fields@[0].1, v2);
                            lemma_bytes_round_trip(r1, fields@[1].1, r2);
                        },
                        _ => {},
                    }
                },
                (
                    LocationDto::Counter { vault: v1, counter: c1 },
                    LocationDto::Counter { vault: v2, counter: c2 },
                ) => {
                    match top@[1].1 {
                        WireValue::Object(fields) => {
                            lemma_bytes_round_trip(v1, fields@[0].1, v2);
                        },
                        _ => {},
                    }
                },
                (LocationDto::Generic { .. }, LocationDto::Counter { .. }) => {
                    assert("Generic"@ != "Counter"@);
                },
                (LocationDto::Counter { .. }, LocationDto::Generic { .. }) => {
                    assert("Generic"@ != "Counter"@);
                },
            }
        },
        _ => {},
    }
}

} // verus!
