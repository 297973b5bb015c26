//! The protocol's wire primitives as structured values: hex byte strings,
//! little-endian hex integers, plain and optional strings, and lists.

use vstd::prelude::*;

use crate::error::Error;
use crate::hex::{
    bytes_of_hex, decode_hex, decode_u32_le, encode_hex, encode_u32_le, hex_of, is_hex, le_bytes,
    le_value, lemma_hex_round_trip, lemma_u32_le_round_trip,
};
use crate::value::{is_str, Value};

verus! {

/// A variable-length byte string, hex on the wire.
#[derive(Clone, Debug, PartialEq, Eq)]
pub struct HexBytes(pub Vec<u8>);

/// A 32-bit integer, hex of its little-endian bytes on the wire.
#[derive(Clone, Copy, Debug, PartialEq, Eq)]
pub struct HexU32Le(pub u32);

/// The session token that the pool assigns at subscription.
#[derive(Clone, Debug, PartialEq, Eq)]
pub struct ExtraNonce1(pub HexBytes);

/// `v` is the wire form of the bytes `b`: their lower-case hex.
pub open spec fn writes_hex(v: Value, b: Seq<u8>) -> bool {
    is_str(v, hex_of(b))
}

/// `v` can be read as a byte string.
pub open spec fn reads_hex(v: Value) -> bool {
    v is Str && is_hex(v->Str_0@)
}

/// The bytes that `v` is read as.
pub open spec fn hex_read(v: Value) -> Seq<u8> {
    bytes_of_hex(v->Str_0@)
}

/// `v` is the wire form of the integer `x`.
pub open spec fn writes_u32_le(v: Value, x: u32) -> bool {
    is_str(v, hex_of(le_bytes(x)))
}

/// `v` can be read as a little-endian integer: eight hex digits.
pub open spec fn reads_u32_le(v: Value) -> bool {
    v is Str && is_hex(v->Str_0@) && v->Str_0@.len() == 8
}

/// The integer that `v` is read as.
pub open spec fn u32_le_read(v: Value) -> u32 {
    le_value(bytes_of_hex(v->Str_0@)) as u32
}

/// `v` is the wire form of an optional string: null where absent.
pub open spec fn writes_opt_str(v: Value, o: Option<Seq<char>>) -> bool {
    match o {
        Some(s) => is_str(v, s),
        None => v is Null,
    }
}

pub open spec fn reads_opt_str(v: Value) -> bool {
    v is Null || v is Str
}

pub open spec fn opt_str_read(v: Value) -> Option<Seq<char>> {
    if v is Str {
        Some(v->Str_0@)
    } else {
        None
    }
}

/// `v` is the wire form of an optional byte string: null where absent.
pub open spec fn writes_opt_hex(v: Value, o: Option<Seq<u8>>) -> bool {
    match o {
        Some(b) => writes_hex(v, b),
        None => v is Null,
    }
}

pub open spec fn reads_opt_hex(v: Value) -> bool {
    v is Null || reads_hex(v)
}

pub open spec fn opt_hex_read(v: Value) -> Option<Seq<u8>> {
    if v is Str {
        Some(hex_read(v))
    } else {
        None
    }
}

/// `v` is an array of the wire forms of the byte strings `bs`.
pub open spec fn writes_hex_list(v: Value, bs: Seq<Seq<u8>>) -> bool {
    &&& v is Array
    &&& v->Array_0@.len() == bs.len()
    &&& forall|i: int| 0 <= i < bs.len() ==> writes_hex(#[trigger] v->Array_0@[i], bs[i])
}

pub open spec fn reads_hex_list(v: Value) -> bool {
    &&& v is Array
    &&& forall|i: int| 0 <= i < v->Array_0@.len() ==> reads_hex(#[trigger] v->Array_0@[i])
}

pub open spec fn hex_list_read(v: Value) -> Seq<Seq<u8>> {
    v->Array_0@.map_values(|x: Value| hex_read(x))
}

pub proof fn lemma_hex_value(v: Value, b: Seq<u8>)
    requires
        writes_hex(v, b),
    ensures
        reads_hex(v),
        hex_read(v) == b,
{
    lemma_hex_round_trip(b);
}

pub proof fn lemma_u32_le_value(v: Value, x: u32)
    requires
        writes_u32_le(v, x),
    ensures
        reads_u32_le(v),
        u32_le_read(v) == x,
{
    lemma_hex_round_trip(le_bytes(x));
    lemma_u32_le_round_trip(x);
}

pub proof fn lemma_opt_hex_value(v: Value, o: Option<Seq<u8>>)
    requires
        writes_opt_hex(v, o),
    ensures
        reads_opt_hex(v),
        opt_hex_read(v) == o,
{
    if let Some(b) = o {
        lemma_hex_value(v, b);
    }
}

pub proof fn lemma_hex_list_value(v: Value, bs: Seq<Seq<u8>>)
    requires
        writes_hex_list(v, bs),
    ensures
        reads_hex_list(v),
        hex_list_read(v) == bs,
{
    assert forall|i: int| 0 <= i < v->Array_0@.len() implies reads_hex(#[trigger] v->Array_0@[i])
        && hex_read(v->Array_0@[i]) == bs[i] by {
        lemma_hex_value(v->Array_0@[i], bs[i]);
    }
    assert(hex_list_read(v) =~= bs);
}

impl HexBytes {
    /// The lower-case hex string of the bytes.
    pub fn into_value(self) -> (r: Value)
        ensures
            writes_hex(r, self.0@),
    {
        Value::Str(encode_hex(self.0.as_slice()))
    }

    /// Reads a hex string of even length, in either case.
    pub fn from_value(v: Value) -> (r: Result<HexBytes, Error>)
        ensures
            r is Ok <==> reads_hex(v),
            r is Ok ==> r->Ok_0.0@ == hex_read(v),
            r is Err ==> r->Err_0 == Error::ParamShape,
    {
        match v {
            Value::Str(s) => match decode_hex(s.as_str()) {
                Ok(b) => Ok(HexBytes(b)),
                Err(_) => Err(Error::ParamShape),
            },
            _ => Err(Error::ParamShape),
        }
    }
}

impl HexU32Le {
    /// Eight lower-case hex digits of the little-endian bytes.
    pub fn into_value(self) -> (r: Value)
        ensures
            writes_u32_le(r, self.0),
    {
        Value::Str(encode_u32_le(self.0))
    }

    /// Reads eight hex digits as a little-endian integer.
    pub fn from_value(v: Value) -> (r: Result<HexU32Le, Error>)
        ensures
            r is Ok <==> reads_u32_le(v),
            r is Ok ==> r->Ok_0.0 == u32_le_read(v),
            r is Err ==> r->Err_0 == Error::ParamShape,
    {
        match v {
            Value::Str(s) => match decode_u32_le(s.as_str()) {
                Ok(x) => Ok(HexU32Le(x)),
                Err(_) => Err(Error::ParamShape),
            },
            _ => Err(Error::ParamShape),
        }
    }
}

/// A string parameter.
pub fn str_from_value(v: Value) -> (r: Result<String, Error>)
    ensures
        r is Ok <==> v is Str,
        r is Ok ==> r->Ok_0@ == v->Str_0@,
        r is Err ==> r->Err_0 == Error::ParamShape,
{
    match v {
        Value::Str(s) => Ok(s),
        _ => Err(Error::ParamShape),
    }
}

/// An optional string parameter: null where absent.
pub fn opt_str_into_value(o: Option<String>) -> (r: Value)
    ensures
        writes_opt_str(r, (match o {
            Some(s) => Some(s@),
            None => None::<Seq<char>>,
        })),
{
    match o {
        Some(s) => Value::Str(s),
        None => Value::Null,
    }
}

pub fn opt_str_from_value(v: Value) -> (r: Result<Option<String>, Error>)
    ensures
        r is Ok <==> reads_opt_str(v),
        r is Ok ==> (match r->Ok_0 {
            Some(s) => Some(s@),
            None => None::<Seq<char>>,
        }) == opt_str_read(v),
        r is Err ==> r->Err_0 == Error::ParamShape,
{
    match v {
        Value::Str(s) => Ok(Some(s)),
        Value::Null => Ok(None),
        _ => Err(Error::ParamShape),
    }
}

/// A list of byte strings, an array of hex strings on the wire.
pub fn hex_list_into_value(list: Vec<HexBytes>) -> (r: Value)
    ensures
        writes_hex_list(r, list@.map_values(|h: HexBytes| h.0@)),
{
    let ghost orig = list@;
    let mut list = list;
    let mut out: Vec<Value> = Vec::new();
    while list.len() > 0
        invariant
            out@.len() + list@.len() == orig.len(),
            list@ == orig.subrange(out@.len() as int, orig.len() as int),
            forall|i: int| 0 <= i < out@.len() ==> writes_hex(#[trigger] out@[i], orig[i].0@),
        decreases list@.len(),
    {
        let h = list.remove(0);
        out.push(h.into_value());
    }
    Value::Array(out)
}

pub fn hex_list_from_value(v: Value) -> (r: Result<Vec<HexBytes>, Error>)
    ensures
        r is Ok <==> reads_hex_list(v),
        r is Ok ==> r->Ok_0@.map_values(|h: HexBytes| h.0@) == hex_list_read(v),
        r is Err ==> r->Err_0 == Error::ParamShape,
{
    let mut items = match v {
        Value::Array(items) => items,
        _ => return Err(Error::ParamShape),
    };
    let ghost orig = items@;
    let mut out: Vec<HexBytes> = Vec::new();
    while items.len() > 0
        invariant
            out@.len() + items@.len() == orig.len(),
            items@ == orig.subrange(out@.len() as int, orig.len() as int),
            v is Array && v->Array_0@ == orig,
            forall|i: int| 0 <= i < out@.len() ==> reads_hex(#[trigger] orig[i]),
            forall|i: int| 0 <= i < out@.len() ==> #[trigger] out@[i].0@ == hex_read(orig[i]),
        decreases items@.len(),
    {
        let ghost k = out@.len() as int;
        let x = items.remove(0);
        assert(x == orig[k]);
        match HexBytes::from_value(x) {
            Ok(h) => out.push(h),
            Err(e) => {
                assert(!reads_hex(v->Array_0@[k]));
                return Err(e);
            },
        }
    }
    assert(out@.map_values(|h: HexBytes| h.0@) =~= hex_list_read(v));
    Ok(out)
}

} // verus!
