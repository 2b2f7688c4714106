//! Single-bit presence markers that gate whether further elements follow.
//!
//! The o-bit appears once after a PDU's fixed Type-1 fields: `1` means one or
//! more Type-2/3/4 elements follow. A p-bit precedes each Type-2 element: `1`
//! means the fixed-width value is present. An m-bit precedes each Type-3/4
//! element and appears once more, trailing, after the last one; a trailing
//! `1` marks an element the parser did not expect, a hard decode error.

use vstd::prelude::*;
use crate::bitbuffer::{read_res, BitBuffer};
use crate::pdu_parse_error::PduParseError;

verus! {

/// Read the o-bit between Type-1 and Type-2/3/4 elements.
pub fn read_obit(buffer: &mut BitBuffer) -> (r: Result<bool, PduParseError>)
    requires
        old(buffer).wf(),
    ensures
        final(buffer).wf(),
        final(buffer).bits() == old(buffer).bits(),
        final(buffer).writable() == old(buffer).writable(),
        old(buffer).cursor() <= final(buffer).cursor() <= old(buffer).bits().len(),
        match read_res(old(buffer).bits(), old(buffer).cursor(), 1) {
            Some((p, v)) => r == Ok::<bool, PduParseError>(v == 1) && final(buffer).cursor() == p,
            None => r == Err::<bool, PduParseError>(PduParseError::BufferEnded { field: "obit" })
                && final(buffer).cursor() == old(buffer).cursor(),
        },
{
    Ok(buffer.read_field(1, "obit")? == 1)
}

/// Write the o-bit between Type-1 and Type-2/3/4 elements.
pub fn write_obit(buffer: &mut BitBuffer, val: u8)
    requires
        old(buffer).wf(),
        old(buffer).writable(),
        val <= 1,
    ensures
        final(buffer).wf(),
        final(buffer).writable(),
        final(buffer).bits() == old(buffer).bits() + seq![val == 1],
        final(buffer).cursor() == old(buffer).cursor(),
{
    buffer.write_bit(val);
}

/// Read a p-bit preceding a Type-2 element.
pub fn read_pbit(buffer: &mut BitBuffer) -> (r: Result<bool, PduParseError>)
    requires
        old(buffer).wf(),
    ensures
        final(buffer).wf(),
        final(buffer).bits() == old(buffer).bits(),
        final(buffer).writable() == old(buffer).writable(),
        old(buffer).cursor() <= final(buffer).cursor() <= old(buffer).bits().len(),
        match read_res(old(buffer).bits(), old(buffer).cursor(), 1) {
            Some((p, v)) => r == Ok::<bool, PduParseError>(v == 1) && final(buffer).cursor() == p,
            None => r == Err::<bool, PduParseError>(PduParseError::BufferEnded { field: "pbit" })
                && final(buffer).cursor() == old(buffer).cursor(),
        },
{
    Ok(buffer.read_field(1, "pbit")? == 1)
}

/// Write the p-bit preceding a Type-2 element.
pub fn write_pbit(buffer: &mut BitBuffer, val: u8)
    requires
        old(buffer).wf(),
        old(buffer).writable(),
        val <= 1,
    ensures
        final(buffer).wf(),
        final(buffer).writable(),
        final(buffer).bits() == old(buffer).bits() + seq![val == 1],
        final(buffer).cursor() == old(buffer).cursor(),
{
    buffer.write_bit(val);
}

/// Read an m-bit found before a Type-3/4 element, and trailing the message.
pub fn read_mbit(buffer: &mut BitBuffer) -> (r: Result<bool, PduParseError>)
    requires
        old(buffer).wf(),
    ensures
        final(buffer).wf(),
        final(buffer).bits() == old(buffer).bits(),
        final(buffer).writable() == old(buffer).writable(),
        old(buffer).cursor() <= final(buffer).cursor() <= old(buffer).bits().len(),
        match read_res(old(buffer).bits(), old(buffer).cursor(), 1) {
            Some((p, v)) => r == Ok::<bool, PduParseError>(v == 1) && final(buffer).cursor() == p,
            None => r == Err::<bool, PduParseError>(PduParseError::BufferEnded { field: "mbit" })
                && final(buffer).cursor() == old(buffer).cursor(),
        },
{
    Ok(buffer.read_field(1, "mbit")? == 1)
}

/// Write the m-bit before a Type-3/4 element, and trailing the message.
pub fn write_mbit(buffer: &mut BitBuffer, val: u8)
    requires
        old(buffer).wf(),
        old(buffer).writable(),
        val <= 1,
    ensures
        final(buffer).wf(),
        final(buffer).writable(),
        final(buffer).bits() == old(buffer).bits() + seq![val == 1],
        final(buffer).cursor() == old(buffer).cursor(),
{
    buffer.write_bit(val);
}

/// Outcome of the trailing-marker check that ends every PDU parse, given the
/// o-bit that opened the optional part: when the o-bit was set, one more bit
/// is read, and a `1` there is an unexpected trailing element.
pub open spec fn trailing_res(s: Seq<bool>, pos: nat, obit: bool) -> (Result<(), PduParseError>, nat) {
    if !obit {
        (Ok(()), pos)
    } else if pos + 1 > s.len() {
        (Err(PduParseError::BufferEnded { field: "trailing_obit" }), pos)
    } else if s[pos as int] {
        (Err(PduParseError::InvalidObitValue), (pos + 1) as nat)
    } else {
        (Ok(()), (pos + 1) as nat)
    }
}

/// Check the trailing m-bit after the last recognized element: if the o-bit
/// announced optional elements, the bit after them must be `0`. A trailing
/// `1` is an element the schema did not expect and fails the parse; it is
/// never silently accepted.
pub fn check_trailing(buffer: &mut BitBuffer, obit: bool) -> (r: Result<(), PduParseError>)
    requires
        old(buffer).wf(),
    ensures
        final(buffer).wf(),
        final(buffer).bits() == old(buffer).bits(),
        final(buffer).writable() == old(buffer).writable(),
        old(buffer).cursor() <= final(buffer).cursor() <= old(buffer).bits().len(),
        (r, final(buffer).cursor()) == trailing_res(
            old(buffer).bits(),
            old(buffer).cursor(),
            obit,
        ),
{
    if obit {
        proof {
            if old(buffer).cursor() < old(buffer).bits().len() {
                crate::bits::lemma_field_at_single(
                    old(buffer).bits(),
                    old(buffer).cursor() as int,
                );
            }
        }
        let trailing = buffer.read_field(1, "trailing_obit")?;
        if trailing == 1 {
            return Err(PduParseError::InvalidObitValue);
        }
    }
    Ok(())
}

} // verus!
