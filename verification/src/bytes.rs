//! Big-endian byte form of 64-bit integers.
//!
//! Identifiers and barcodes are `i64` values; they travel to the web view as
//! eight bytes so that no precision is lost on the way.
use vstd::prelude::*;

verus! {

/// The eight bytes of the two's-complement form of `x`, most significant first.
pub open spec fn be_bytes(x: i64) -> Seq<u8> {
    let u = x as u64;
    seq![
        (u >> 56u64) as u8,
        (u >> 48u64) as u8,
        (u >> 40u64) as u8,
        (u >> 32u64) as u8,
        (u >> 24u64) as u8,
        (u >> 16u64) as u8,
        (u >> 8u64) as u8,
        u as u8,
    ]
}

/// The integer whose big-endian form is `b` (of length eight).
pub open spec fn from_be(b: Seq<u8>) -> i64 {
    (((b[0] as u64) << 56u64) | ((b[1] as u64) << 48u64) | ((b[2] as u64) << 40u64) | ((
    b[3] as u64) << 32u64) | ((b[4] as u64) << 24u64) | ((b[5] as u64) << 16u64) | ((
    b[6] as u64) << 8u64) | (b[7] as u64)) as i64
}

/// Writes `x` as eight bytes, most significant first.
pub fn a_bytes(x: i64) -> (res: [u8; 8])
    ensures
        res@ == be_bytes(x),
{
    let u = x as u64;
    let res = [
        (u >> 56u64) as u8,
        (u >> 48u64) as u8,
        (u >> 40u64) as u8,
        (u >> 32u64) as u8,
        (u >> 24u64) as u8,
        (u >> 16u64) as u8,
        (u >> 8u64) as u8,
        u as u8,
    ];
    assert(res@ =~= be_bytes(x));
    res
}

/// Reads eight bytes, most significant first, as an integer.
pub fn desde_bytes(b: [u8; 8]) -> (res: i64)
    ensures
        res == from_be(b@),
{
    let u: u64 = ((b[0] as u64) << 56u64) | ((b[1] as u64) << 48u64) | ((b[2] as u64) << 40u64)
        | ((b[3] as u64) << 32u64) | ((b[4] as u64) << 24u64) | ((b[5] as u64) << 16u64) | ((
    b[6] as u64) << 8u64) | (b[7] as u64);
    u as i64
}

/// Reading back the bytes that were written for `x` gives `x`.
pub proof fn lemma_bytes_ida_y_vuelta(x: i64)
    ensures
        from_be(be_bytes(x)) == x,
{
    let u = x as u64;
    assert(((((u >> 56u64) as u8) as u64) << 56u64 | (((u >> 48u64) as u8) as u64) << 48u64 | (((u
        >> 40u64) as u8) as u64) << 40u64 | (((u >> 32u64) as u8) as u64) << 32u64 | (((u >> 24u64)
        as u8) as u64) << 24u64 | (((u >> 16u64) as u8) as u64) << 16u64 | (((u >> 8u64) as u8)
        as u64) << 8u64 | ((u as u8) as u64)) == u) by (bit_vector);
    assert(((x as u64) as i64) == x) by (bit_vector);
}

/// Writing the integer read from eight bytes gives the same eight bytes.
pub proof fn lemma_bytes_vuelta_e_ida(b: Seq<u8>)
    requires
        b.len() == 8,
    ensures
        be_bytes(from_be(b)) == b,
{
    let (b0, b1, b2, b3, b4, b5, b6, b7) = (b[0], b[1], b[2], b[3], b[4], b[5], b[6], b[7]);
    let u: u64 = ((b0 as u64) << 56u64) | ((b1 as u64) << 48u64) | ((b2 as u64) << 40u64) | ((
    b3 as u64) << 32u64) | ((b4 as u64) << 24u64) | ((b5 as u64) << 16u64) | ((b6 as u64)
        << 8u64) | (b7 as u64);
    assert(((u as i64) as u64) == u) by (bit_vector);
    assert((u >> 56u64) as u8 == b0 && (u >> 48u64) as u8 == b1 && (u >> 40u64) as u8 == b2 && (u
        >> 32u64) as u8 == b3 && (u >> 24u64) as u8 == b4 && (u >> 16u64) as u8 == b5 && (u
        >> 8u64) as u8 == b6 && u as u8 == b7) by (bit_vector)
        requires
            u == ((b0 as u64) << 56u64) | ((b1 as u64) << 48u64) | ((b2 as u64) << 40u64) | ((
            b3 as u64) << 32u64) | ((b4 as u64) << 24u64) | ((b5 as u64) << 16u64) | ((
            b6 as u64) << 8u64) | (b7 as u64),
    ;
    assert(be_bytes(from_be(b)) =~= b);
}

/// Bytes of an optional integer, as the optional shared form carries it.
pub open spec fn opcion_be_bytes(x: Option<i64>) -> Option<Seq<u8>> {
    match x {
        Some(v) => Some(be_bytes(v)),
        None => None,
    }
}

/// The optional integer read from optional bytes.
pub open spec fn opcion_from_be(b: Option<Seq<u8>>) -> Option<i64> {
    match b {
        Some(v) => Some(from_be(v)),
        None => None,
    }
}

/// View of optional bytes.
pub open spec fn vista_opcion_bytes(b: Option<[u8; 8]>) -> Option<Seq<u8>> {
    match b {
        Some(v) => Some(v@),
        None => None,
    }
}

/// Writes an optional integer as optional bytes.
pub fn opcion_a_bytes(x: Option<i64>) -> (res: Option<[u8; 8]>)
    ensures
        vista_opcion_bytes(res) == opcion_be_bytes(x),
{
    match x {
        Some(v) => Some(a_bytes(v)),
        None => None,
    }
}

/// Reads optional bytes as an optional integer.
pub fn opcion_desde_bytes(b: Option<[u8; 8]>) -> (res: Option<i64>)
    ensures
        res == opcion_from_be(vista_opcion_bytes(b)),
{
    match b {
        Some(v) => Some(desde_bytes(v)),
        None => None,
    }
}

/// Reading back the optional bytes written for `x` gives `x`.
pub proof fn lemma_opcion_ida_y_vuelta(x: Option<i64>)
    ensures
        opcion_from_be(opcion_be_bytes(x)) == x,
{
    if let Some(v) = x {
        lemma_bytes_ida_y_vuelta(v);
    }
}

} // verus!
