use vstd::prelude::*;

verus! {

#[verifier::external_type_specification]
#[verifier::external_body]
pub struct ExEncodeError(bincode::error::EncodeError);

#[verifier::external_type_specification]
#[verifier::external_body]
pub struct ExDecodeError(bincode::error::DecodeError);

/// The bytes of bincode's variable-length encoding of a `u32` under its
/// standard configuration (little endian): values up to 250 take one
/// byte; larger values a marker byte (251 for 16 bits, 252 for 32 bits)
/// followed by the value in little-endian order.
pub open spec fn varint_u32(v: u32) -> Seq<u8> {
    if v <= 250 {
        seq![v as u8]
    } else if v <= 0xffff {
        seq![251u8, (v % 256) as u8, (v / 256) as u8]
    } else {
        seq![
            252u8,
            (v % 256) as u8,
            ((v / 256) % 256) as u8,
            ((v / 65536) % 256) as u8,
            (v / 16777216) as u8,
        ]
    }
}

/// What bincode reads as a `u32` at the front of `s` under its standard
/// configuration: the value and the number of bytes it took, or `None`
/// when the bytes end too early or the marker byte is not one of a `u32`.
pub open spec fn varint_read_u32(s: Seq<u8>) -> Option<(u32, nat)> {
    if s.len() == 0 {
        None
    } else if s[0] <= 250 {
        Some((s[0] as u32, 1))
    } else if s[0] == 251 {
        if s.len() >= 3 {
            Some(((s[1] + 256 * s[2]) as u32, 3))
        } else {
            None
        }
    } else if s[0] == 252 {
        if s.len() >= 5 {
            Some(((s[1] + 256 * s[2] + 65536 * s[3] + 16777216 * s[4]) as u32, 5))
        } else {
            None
        }
    } else {
        None
    }
}

/// `bincode::encode_to_vec` on a `u32` with `bincode::config::standard()`.
/// The contract claims the varint bytes above, and that encoding into a
/// vector never fails (its writer only extends the vector).
#[verifier::external_body]
pub(crate) fn bincode_encode_u32(v: u32) -> (r: Result<Vec<u8>, bincode::error::EncodeError>)
    ensures
        r is Ok,
        r is Ok ==> r->Ok_0@ == varint_u32(v),
{
    bincode::encode_to_vec(v, bincode::config::standard())
}

/// `bincode::decode_from_slice::<u32, _>` with `bincode::config::standard()`.
/// The contract claims it reads as `varint_read_u32` says, returning the
/// value and the count of bytes consumed, and an error exactly when that
/// spec gives `None`.
#[verifier::external_body]
pub(crate) fn bincode_decode_u32(bytes: &[u8]) -> (r: Result<(u32, usize), bincode::error::DecodeError>)
    ensures
        r is Ok <==> varint_read_u32(bytes@) is Some,
        r matches Ok((v, n)) ==> varint_read_u32(bytes@) == Some((v, n as nat)),
{
    bincode::decode_from_slice::<u32, _>(bytes, bincode::config::standard())
}

/// Reading back what was written gives the value and the written length.
pub proof fn lemma_varint_roundtrip(v: u32, rest: Seq<u8>)
    ensures
        varint_read_u32(varint_u32(v) + rest) == Some((v, varint_u32(v).len())),
        (varint_u32(v) + rest).skip(varint_u32(v).len() as int) =~= rest,
{
    let s = varint_u32(v) + rest;
    if v <= 250 {
        assert(s[0] == v as u8);
    } else if v <= 0xffff {
        assert(s[0] == 251u8);
        assert(s[1] == (v % 256) as u8);
        assert(s[2] == (v / 256) as u8);
        assert(s[1] + 256 * s[2] == v) by (nonlinear_arith)
            requires
                s[1] == (v % 256) as u8,
                s[2] == (v / 256) as u8,
                250 < v <= 0xffff,
        ;
    } else {
        assert(s[0] == 252u8);
        assert(s[1] + 256 * s[2] + 65536 * s[3] + 16777216 * s[4] == v) by (nonlinear_arith)
            requires
                s[1] == (v % 256) as u8,
                s[2] == ((v / 256) % 256) as u8,
                s[3] == ((v / 65536) % 256) as u8,
                s[4] == (v / 16777216) as u8,
                0xffff < v,
        ;
    }
}

/// Appends the encoding of `v` to `out`.
pub(crate) fn push_u32(out: &mut Vec<u8>, v: u32)
    ensures
        final(out)@ == old(out)@ + varint_u32(v),
{
    let r = bincode_encode_u32(v);
    match r {
        Ok(mut b) => {
            out.append(&mut b);
        },
        Err(_) => {},
    }
}

} // verus!
