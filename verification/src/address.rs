//! TETRA subscriber addressing: the short subscriber identity and its kind.

use vstd::prelude::*;

verus! {

/// The kind of a short subscriber identity.
#[derive(Copy, Debug, Clone, PartialEq, Eq, Structural)]
pub enum SsiType {
    Unknown,
    /// Generic for other types.
    Ssi,
    Issi,
    Gssi,
    Ussi,
    Smi,
    /// Only usable in UMAC; needs to be replaced with a true SSI.
    EventLabel,
}

/// A TETRA address: a short subscriber identity together with its kind and
/// whether it is still an encrypted subscriber identity. The encrypted flag
/// lets a still-encrypted SSI travel up the stack unmodified.
#[derive(Copy, Debug, Clone, PartialEq, Eq, Structural)]
pub struct TetraAddress {
    /// Set when the address is an ESI (Encrypted Subscriber Identity).
    pub encrypted: bool,
    pub ssi_type: SsiType,
    pub ssi: u32,
}

impl Default for TetraAddress {
    /// The neutral address: unencrypted, of unknown kind, identity zero.
    fn default() -> (r: TetraAddress)
        ensures
            r == (TetraAddress { encrypted: false, ssi_type: SsiType::Unknown, ssi: 0u32 }),
    {
        TetraAddress { encrypted: false, ssi_type: SsiType::Unknown, ssi: 0 }
    }
}

} // verus!
