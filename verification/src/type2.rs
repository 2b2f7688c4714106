//! Type-2 codec: an optional fixed-width field whose presence is gated by a
//! p-bit written or read immediately before it.

use vstd::prelude::*;
use crate::bits::{enc_type2, field_at, fits};
use crate::bitbuffer::BitBuffer;
use crate::delimiters;
use crate::pdu_parse_error::PduParseError;

verus! {

/// Outcome of decoding one Type-2 element of width `w` at position `pos` of
/// `s`: the result and the position after it. A clear p-bit yields `None`
/// with no further bits consumed; a set p-bit is followed by the value, or by
/// exhaustion naming the field.
pub open spec fn type2_res(
    s: Seq<bool>,
    pos: nat,
    w: nat,
    field: &'static str,
) -> (Result<Option<u64>, PduParseError>, nat) {
    if pos + 1 > s.len() {
        (Err(PduParseError::BufferEnded { field: "pbit" }), pos)
    } else if !s[pos as int] {
        (Ok(None), (pos + 1) as nat)
    } else if pos + 1 + w <= s.len() {
        (Ok(Some(field_at(s, pos as int + 1, w as int))), (pos + 1 + w) as nat)
    } else {
        (Err(PduParseError::BufferEnded { field }), (pos + 1) as nat)
    }
}

/// Decode one Type-2 element: read the p-bit; when it is set, read `num_bits`
/// more as the value. A clear p-bit means the value is absent and consumes
/// nothing further.
pub fn parse(buffer: &mut BitBuffer, num_bits: usize, field_name: &'static str) -> (r: Result<
    Option<u64>,
    PduParseError,
>)
    requires
        old(buffer).wf(),
        num_bits <= 64,
    ensures
        final(buffer).wf(),
        final(buffer).bits() == old(buffer).bits(),
        final(buffer).writable() == old(buffer).writable(),
        old(buffer).cursor() <= final(buffer).cursor() <= old(buffer).bits().len(),
        (r, final(buffer).cursor()) == type2_res(
            old(buffer).bits(),
            old(buffer).cursor(),
            num_bits as nat,
            field_name,
        ),
        r matches Ok(Some(v)) ==> fits(v, num_bits as nat),
{
    proof {
        if old(buffer).cursor() < old(buffer).bits().len() {
            crate::bits::lemma_field_at_single(old(buffer).bits(), old(buffer).cursor() as int);
        }
    }
    match delimiters::read_pbit(buffer) {
        Ok(true) => {
            match buffer.read_field(num_bits, field_name) {
                Ok(v) => Ok(Some(v)),
                Err(e) => Err(e),
            }
        },
        Ok(false) => Ok(None),  // Field not present
        Err(e) => Err(e),
    }
}

/// Encode one Type-2 element: p-bit `1` then `len` bits of the value when
/// present, else p-bit `0` alone.
pub fn write(buffer: &mut BitBuffer, value: Option<u64>, len: usize)
    requires
        old(buffer).wf(),
        old(buffer).writable(),
        len <= 64,
        value matches Some(v) ==> fits(v, len as nat),
    ensures
        final(buffer).wf(),
        final(buffer).writable(),
        final(buffer).cursor() == old(buffer).cursor(),
        final(buffer).bits() == old(buffer).bits() + enc_type2(value, len as nat),
{
    broadcast use crate::bits::lemma_seq_add_assoc;

    match value {
        Some(v) => {
            delimiters::write_pbit(buffer, 1);
            buffer.write_bits(v, len);
        },
        None => {
            delimiters::write_pbit(buffer, 0);
        },
    }
}

} // verus!
