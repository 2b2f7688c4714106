//! Type-3/4 codec: tag-identified elements discovered by non-consuming
//! lookahead.
//!
//! A Type-3 element is framed as `m-bit(1) tag(4) length(11) payload(length)`.
//! A Type-4 container is framed as `m-bit(1) tag(4) length(11) count(6)`
//! followed by `count` caller-decoded sub-elements. Because elements may
//! appear in a standard-defined but not caller-enumerated order, the codec
//! decides whether the next element is the one the caller wants *without
//! consuming bits*: only once both the presence bit and the tag match does it
//! commit and consume.

use vstd::prelude::*;
use vstd::arithmetic::power2::*;
use crate::bits::{
    bits_value, enc_field, field_at, fits, lemma_bits_value_bound, lemma_field_at_single,
};
use crate::bitbuffer::BitBuffer;
use crate::delimiters::write_mbit;
use crate::pdu_parse_error::PduParseError;

verus! {

/// The wire image of an optional element: its encoding when present,
/// nothing when absent.
pub open spec fn enc_opt_elem(e: Option<Type3Element>) -> Seq<bool> {
    match e {
        Some(x) => x.enc(),
        None => Seq::<bool>::empty(),
    }
}

/// Failure kinds of Type-3/4 lookahead and decoding. `FieldNotPresent` is
/// not damage: it is the normal signal that the element the caller asked for
/// is not next, and the buffer is left untouched so another tag can be
/// tried. `OutOfBounds` means the buffer is genuinely too short for what its
/// own framing declared.
#[derive(Debug, PartialEq, Eq)]
pub enum Type34Err {
    FieldNotPresent,
    InvalidId,
    OutOfBounds,
}

/// Outcome of decoding one Type-3 element with the given expected tag at
/// position `pos` of `s`: the result and the position after the attempt.
/// Lookahead misses (absent m-bit, different tag) leave the position
/// unchanged; a committed decode that runs out of bits leaves the cursor
/// where the failing read began.
pub open spec fn type3_res(s: Seq<bool>, pos: nat, tag: u64) -> (Result<(usize, u64), Type34Err>, nat) {
    if pos + 1 > s.len() {
        (Err(Type34Err::OutOfBounds), pos)
    } else if !s[pos as int] {
        (Err(Type34Err::FieldNotPresent), pos)
    } else if pos + 5 > s.len() {
        (Err(Type34Err::OutOfBounds), pos)
    } else if field_at(s, pos as int + 1, 4) != tag {
        (Err(Type34Err::FieldNotPresent), pos)
    } else if pos + 16 > s.len() {
        (Err(Type34Err::OutOfBounds), (pos + 5) as nat)
    } else {
        let l = field_at(s, pos as int + 5, 11) as nat;
        if l <= 64 && pos + 16 + l <= s.len() {
            (
                Ok((l as usize, field_at(s, pos as int + 16, l as int))),
                (pos + 16 + l) as nat,
            )
        } else {
            (Err(Type34Err::OutOfBounds), (pos + 16) as nat)
        }
    }
}

/// Outcome of decoding one Type-4 container header with the given expected
/// tag at position `pos` of `s`: on success, the declared element count and
/// the declared payload width remaining after the 6-bit count field.
pub open spec fn type4_res(s: Seq<bool>, pos: nat, tag: u64) -> (Result<(usize, usize), Type34Err>, nat) {
    if pos + 1 > s.len() {
        (Err(Type34Err::OutOfBounds), pos)
    } else if !s[pos as int] {
        (Err(Type34Err::FieldNotPresent), pos)
    } else if pos + 5 > s.len() {
        (Err(Type34Err::OutOfBounds), pos)
    } else if field_at(s, pos as int + 1, 4) != tag {
        (Err(Type34Err::FieldNotPresent), pos)
    } else if pos + 16 > s.len() {
        (Err(Type34Err::OutOfBounds), (pos + 5) as nat)
    } else if pos + 22 > s.len() {
        (Err(Type34Err::OutOfBounds), (pos + 16) as nat)
    } else {
        let l = field_at(s, pos as int + 5, 11) as nat;
        let count = field_at(s, pos as int + 16, 6) as nat;
        if l >= 6 {
            (Ok((count as usize, (l - 6) as usize)), (pos + 22) as nat)
        } else {
            (Err(Type34Err::OutOfBounds), (pos + 22) as nat)
        }
    }
}

/// Read the m-bit for a Type-3/4 element without advancing the cursor:
/// `Ok(true)` when an element follows, `FieldNotPresent` when the m-bit is
/// clear, `OutOfBounds` when no bit is left to inspect.
pub fn check_peek_mbit(buffer: &BitBuffer) -> (r: Result<bool, Type34Err>)
    requires
        buffer.wf(),
    ensures
        r == (if buffer.cursor() + 1 > buffer.bits().len() {
            Err::<bool, Type34Err>(Type34Err::OutOfBounds)
        } else if buffer.bits()[buffer.cursor() as int] {
            Ok::<bool, Type34Err>(true)
        } else {
            Err::<bool, Type34Err>(Type34Err::FieldNotPresent)
        }),
{
    proof {
        if buffer.cursor() < buffer.bits().len() {
            lemma_field_at_single(buffer.bits(), buffer.cursor() as int);
        }
    }
    match buffer.peek_bits(1) {
        Some(0) => Err(Type34Err::FieldNotPresent),
        Some(_) => Ok(true),  // Field is present
        None => Err(Type34Err::OutOfBounds),
    }
}

/// Check, without advancing the cursor, that the 4-bit tag following the
/// m-bit is the one the caller expects; `FieldNotPresent` means a different
/// element is next and the caller should try its next tag.
pub fn check_peek_id(buffer: &BitBuffer, expected_id: u64) -> (r: Result<(), Type34Err>)
    requires
        buffer.wf(),
    ensures
        r == (if buffer.cursor() + 5 > buffer.bits().len() {
            Err::<(), Type34Err>(Type34Err::OutOfBounds)
        } else if field_at(buffer.bits(), buffer.cursor() as int + 1, 4) == expected_id {
            Ok::<(), Type34Err>(())
        } else {
            Err::<(), Type34Err>(Type34Err::FieldNotPresent)
        }),
{
    let id_bits = match buffer.peek_bits_posoffset(1, 4) {
        Some(x) => x,
        None => return Err(Type34Err::OutOfBounds),
    };
    if id_bits == expected_id {
        Ok(())
    } else {
        Err(Type34Err::FieldNotPresent)
    }
}

/// Decode one Type-3 element with the expected tag: peek the m-bit and the
/// tag without consuming; only once both match, advance past them, read the
/// 11-bit length and exactly that many payload bits.
pub fn parse_type3_generic(buffer: &mut BitBuffer, expected_id: u64) -> (r: Result<
    (usize, u64),
    Type34Err,
>)
    requires
        old(buffer).wf(),
    ensures
        final(buffer).wf(),
        final(buffer).bits() == old(buffer).bits(),
        final(buffer).writable() == old(buffer).writable(),
        old(buffer).cursor() <= final(buffer).cursor() <= old(buffer).bits().len(),
        (r, final(buffer).cursor()) == type3_res(
            old(buffer).bits(),
            old(buffer).cursor(),
            expected_id,
        ),
        r matches Ok((l, d)) ==> l <= 64 && fits(d, l as nat),
{
    // Check that more elements are present. Returns FieldNotPresent if mbit is 0
    check_peek_mbit(buffer)?;

    // Check that next element is our searched id
    check_peek_id(buffer, expected_id)?;

    // Target field is present. Advance buffer position and read field contents
    buffer.seek_rel(5);
    let len_bits: usize = match buffer.read_bits(11) {
        Some(x) => {
            proof {
                lemma_bits_value_bound(
                    old(buffer).bits().subrange(
                        old(buffer).cursor() as int + 5,
                        old(buffer).cursor() as int + 16,
                    ),
                );
                lemma2_to64();
            }
            x as usize
        },
        None => return Err(Type34Err::OutOfBounds),
    };
    let data = match buffer.read_bits(len_bits) {
        Some(x) => x,
        None => return Err(Type34Err::OutOfBounds),
    };
    proof {
        lemma_bits_value_bound(
            old(buffer).bits().subrange(
                old(buffer).cursor() as int + 16,
                old(buffer).cursor() as int + 16 + len_bits as int,
            ),
        );
    }
    Ok((len_bits, data))
}

/// Decode one Type-4 container header with the expected tag: the same
/// non-consuming lookahead as a Type-3 element, then the 11-bit total length
/// and the 6-bit element count. Returns the count and the declared payload
/// width left after the count field, for the caller's accounting while it
/// decodes that many sub-elements; a declared length shorter than the count
/// field itself is out of bounds.
pub fn parse_type4_header_generic(buffer: &mut BitBuffer, expected_id: u64) -> (r: Result<
    (usize, usize),
    Type34Err,
>)
    requires
        old(buffer).wf(),
    ensures
        final(buffer).wf(),
        final(buffer).bits() == old(buffer).bits(),
        final(buffer).writable() == old(buffer).writable(),
        old(buffer).cursor() <= final(buffer).cursor() <= old(buffer).bits().len(),
        (r, final(buffer).cursor()) == type4_res(
            old(buffer).bits(),
            old(buffer).cursor(),
            expected_id,
        ),
        r matches Ok((count, rem)) ==> count < 64 && rem < 2048,
{
    // Check that more elements are present. Returns FieldNotPresent if mbit is 0
    check_peek_mbit(buffer)?;

    // Check that next element is our searched id
    check_peek_id(buffer, expected_id)?;

    // Target field is present. Advance buffer position and read field contents
    buffer.seek_rel(5);
    let len_bits: usize = match buffer.read_bits(11) {
        Some(x) => {
            proof {
                lemma_bits_value_bound(
                    old(buffer).bits().subrange(
                        old(buffer).cursor() as int + 5,
                        old(buffer).cursor() as int + 16,
                    ),
                );
                lemma2_to64();
            }
            x as usize
        },
        None => return Err(Type34Err::OutOfBounds),
    };
    let num_elems: usize = match buffer.read_bits(6) {
        Some(x) => {
            proof {
                lemma_bits_value_bound(
                    old(buffer).bits().subrange(
                        old(buffer).cursor() as int + 16,
                        old(buffer).cursor() as int + 22,
                    ),
                );
                lemma2_to64();
            }
            x as usize
        },
        None => return Err(Type34Err::OutOfBounds),
    };
    if len_bits < 6 {
        return Err(Type34Err::OutOfBounds);
    }
    Ok((num_elems, len_bits - 6))
}

/// Write the envelope that opens a Type-4 container: the m-bit and the 4-bit
/// tag. The 11-bit length, the count and the sub-element payload are the
/// caller's responsibility once it knows the serialized size of its elements.
pub fn write_type4_header_generic(buffer: &mut BitBuffer, field_type: u64)
    requires
        old(buffer).wf(),
        old(buffer).writable(),
        fits(field_type, 4),
    ensures
        final(buffer).wf(),
        final(buffer).writable(),
        final(buffer).cursor() == old(buffer).cursor(),
        final(buffer).bits() == old(buffer).bits() + seq![true] + enc_field(field_type, 4),
{
    // mbit + id
    write_mbit(buffer, 1);
    buffer.write_bits(field_type, 4);
}

/// One decoded Type-3 element (and the envelope of a Type-4 container whose
/// sub-elements the schema treats as one opaque payload): the tag that
/// identified it, the payload right-justified, and the payload bit-width.
#[derive(Debug, Clone, Copy, PartialEq, Eq)]
pub struct Type3Element {
    pub field_type: u64,
    pub data: u64,
    pub len: usize,
}

impl Type3Element {
    /// The element's fields fit the widths its framing gives them.
    pub open spec fn wf(self) -> bool {
        fits(self.field_type, 4) && self.len <= 64 && fits(self.data, self.len as nat)
    }

    /// The element's wire image: m-bit, tag, 11-bit length, payload.
    pub open spec fn enc(self) -> Seq<bool> {
        seq![true] + enc_field(self.field_type, 4) + enc_field(self.len as u64, 11) + enc_field(
            self.data,
            self.len as nat,
        )
    }

    /// Decode the element with the expected tag, or report why not: the
    /// uplink/downlink MM schemas try a sequence of tags and treat any
    /// failure as "absent".
    pub fn try_parse(buffer: &mut BitBuffer, expected_id: u64) -> (r: Result<
        Type3Element,
        Type34Err,
    >)
        requires
            old(buffer).wf(),
            fits(expected_id, 4),
        ensures
            final(buffer).wf(),
            final(buffer).bits() == old(buffer).bits(),
            final(buffer).writable() == old(buffer).writable(),
            old(buffer).cursor() <= final(buffer).cursor() <= old(buffer).bits().len(),
            final(buffer).cursor() == type3_res(
                old(buffer).bits(),
                old(buffer).cursor(),
                expected_id,
            ).1,
            r == match type3_res(old(buffer).bits(), old(buffer).cursor(), expected_id).0 {
                Ok((l, d)) => Ok::<Type3Element, Type34Err>(
                    Type3Element { field_type: expected_id, data: d, len: l },
                ),
                Err(e) => Err::<Type3Element, Type34Err>(e),
            },
            r matches Ok(e) ==> e.wf(),
    {
        match parse_type3_generic(buffer, expected_id) {
            Ok((len, data)) => Ok(Type3Element { field_type: expected_id, data, len }),
            Err(e) => Err(e),
        }
    }

    /// Decode the element with the expected tag in the style the CMCE
    /// schemas use: a lookahead miss is the normal `None`, while a committed
    /// decode that overran the buffer fails the whole parse naming the field.
    pub fn parse_opt(buffer: &mut BitBuffer, expected_id: u64, field_name: &'static str) -> (r:
        Result<Option<Type3Element>, PduParseError>)
        requires
            old(buffer).wf(),
            fits(expected_id, 4),
        ensures
            final(buffer).wf(),
            final(buffer).bits() == old(buffer).bits(),
            final(buffer).writable() == old(buffer).writable(),
            old(buffer).cursor() <= final(buffer).cursor() <= old(buffer).bits().len(),
            final(buffer).cursor() == type3_res(
                old(buffer).bits(),
                old(buffer).cursor(),
                expected_id,
            ).1,
            r == match type3_res(old(buffer).bits(), old(buffer).cursor(), expected_id).0 {
                Ok((l, d)) => Ok::<Option<Type3Element>, PduParseError>(
                    Some(Type3Element { field_type: expected_id, data: d, len: l }),
                ),
                Err(Type34Err::FieldNotPresent) => Ok::<Option<Type3Element>, PduParseError>(None),
                Err(_) => Err::<Option<Type3Element>, PduParseError>(
                    PduParseError::BufferEnded { field: field_name },
                ),
            },
            r matches Ok(Some(e)) ==> e.wf(),
    {
        match parse_type3_generic(buffer, expected_id) {
            Ok((len, data)) => Ok(Some(Type3Element { field_type: expected_id, data, len })),
            Err(Type34Err::FieldNotPresent) => Ok(None),
            Err(_) => Err(PduParseError::BufferEnded { field: field_name }),
        }
    }

    /// Encode one Type-3 element: m-bit `1`, the 4-bit tag, the 11-bit
    /// payload length, then the payload itself.
    pub fn write(buffer: &mut BitBuffer, field_type: u64, data: u64, len: usize)
        requires
            old(buffer).wf(),
            old(buffer).writable(),
            fits(field_type, 4),
            len <= 64,
            fits(data, len as nat),
        ensures
            final(buffer).wf(),
            final(buffer).writable(),
            final(buffer).cursor() == old(buffer).cursor(),
            final(buffer).bits() == old(buffer).bits() + (Type3Element {
                field_type,
                data,
                len,
            }).enc(),
    {
        broadcast use crate::bits::lemma_seq_add_assoc;

        proof {
            lemma2_to64();
        }
        write_mbit(buffer, 1);
        buffer.write_bits(field_type, 4);
        buffer.write_bits(len as u64, 11);
        buffer.write_bits(data, len);
    }
}

/// Write an optional Type-3 element: its full framing when present, nothing
/// when absent.
pub fn write_opt_elem(buffer: &mut BitBuffer, e: &Option<Type3Element>)
    requires
        old(buffer).wf(),
        old(buffer).writable(),
        e matches Some(v) ==> v.wf(),
    ensures
        final(buffer).wf(),
        final(buffer).writable(),
        final(buffer).cursor() == old(buffer).cursor(),
        final(buffer).bits() == old(buffer).bits() + enc_opt_elem(*e),
{
    broadcast use crate::bits::lemma_seq_add_empty_right;

    if let Some(ref value) = e {
        Type3Element::write(buffer, value.field_type, value.data, value.len);
    }
}

} // verus!
