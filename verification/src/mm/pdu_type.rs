//! MM PDU-type discriminants: the 4-bit code that opens every MM PDU.

use vstd::prelude::*;
use vstd::arithmetic::power2::lemma2_to64;
use crate::bits::fits;

verus! {

/// Downlink MM PDU types carried by this stack.
#[derive(Debug, Clone, Copy, PartialEq, Eq, Structural)]
pub enum MmPduTypeDl {
    DLocationUpdateAccept,
    DLocationUpdateReject,
    DLocationUpdateProceeding,
    DAttachDetachGroupIdentityAcknowledgement,
}

impl MmPduTypeDl {
    /// The 4-bit discriminant on the wire.
    pub open spec fn raw(self) -> u64 {
        match self {
            MmPduTypeDl::DLocationUpdateAccept => 5,
            MmPduTypeDl::DLocationUpdateReject => 7,
            MmPduTypeDl::DLocationUpdateProceeding => 9,
            MmPduTypeDl::DAttachDetachGroupIdentityAcknowledgement => 11,
        }
    }

    pub fn into_raw(self) -> (r: u64)
        ensures
            r == self.raw(),
            fits(r, 4),
    {
        proof {
            lemma2_to64();
        }
        match self {
            MmPduTypeDl::DLocationUpdateAccept => 5,
            MmPduTypeDl::DLocationUpdateReject => 7,
            MmPduTypeDl::DLocationUpdateProceeding => 9,
            MmPduTypeDl::DAttachDetachGroupIdentityAcknowledgement => 11,
        }
    }
}

/// Uplink MM PDU types carried by this stack.
#[derive(Debug, Clone, Copy, PartialEq, Eq, Structural)]
pub enum MmPduTypeUl {
    UItsiDetach,
    ULocationUpdateDemand,
    UAttachDetachGroupIdentityAcknowledgement,
}

impl MmPduTypeUl {
    /// The 4-bit discriminant on the wire.
    pub open spec fn raw(self) -> u64 {
        match self {
            MmPduTypeUl::UItsiDetach => 1,
            MmPduTypeUl::ULocationUpdateDemand => 2,
            MmPduTypeUl::UAttachDetachGroupIdentityAcknowledgement => 9,
        }
    }

    pub fn into_raw(self) -> (r: u64)
        ensures
            r == self.raw(),
            fits(r, 4),
    {
        proof {
            lemma2_to64();
        }
        match self {
            MmPduTypeUl::UItsiDetach => 1,
            MmPduTypeUl::ULocationUpdateDemand => 2,
            MmPduTypeUl::UAttachDetachGroupIdentityAcknowledgement => 9,
        }
    }
}

} // verus!
