//! The closed set of parse-failure kinds every codec function returns
//! instead of raising.

use vstd::prelude::*;

verus! {

/// One discrete failure of a PDU decode. Each variant carries enough context
/// (field name, expected/found values) to reconstruct a precise diagnostic
/// without re-parsing.
#[derive(Debug, PartialEq, Eq)]
pub enum PduParseError {
    /// The PDU-type discriminant did not match the schema being tried.
    InvalidPduType { expected: u64, found: u64 },
    /// The buffer ran out of bits while reading the named field.
    BufferEnded { field: &'static str },
    /// An unexpected trailing presence bit: an element the schema did not
    /// recognize follows the last decoded one.
    InvalidObitValue,
    /// A Type-3 element carried a tag the schema does not know.
    InvalidType3ElemId { found: u64 },
    /// A decoded value failed the schema's domain validation.
    InvalidValue { field: &'static str, value: u64 },
}

/// Compare a decoded PDU-type discriminant against the one the schema
/// expects; mismatch is the caller's signal to try another schema.
pub fn expect_pdu_type(found: u64, expected: u64) -> (r: Result<(), PduParseError>)
    ensures
        r == if found == expected {
            Ok::<(), PduParseError>(())
        } else {
            Err::<(), PduParseError>(PduParseError::InvalidPduType { expected, found })
        },
{
    if found == expected {
        Ok(())
    } else {
        Err(PduParseError::InvalidPduType { expected, found })
    }
}

} // verus!
