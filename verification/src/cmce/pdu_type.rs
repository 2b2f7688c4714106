//! CMCE PDU-type discriminants: the 5-bit code that opens every CMCE PDU.

use vstd::prelude::*;
use vstd::arithmetic::power2::lemma2_to64;
use crate::bits::fits;

verus! {

/// Downlink CMCE PDU types carried by this stack.
#[derive(Debug, Clone, Copy, PartialEq, Eq, Structural)]
pub enum CmcePduTypeDl {
    DAlert,
    DConnect,
    DConnectAcknowledge,
    DInfo,
    DRelease,
    DSetup,
    DStatus,
    DTxGranted,
    DTxWait,
    DCallRestore,
}

impl CmcePduTypeDl {
    /// The 5-bit discriminant on the wire.
    pub open spec fn raw(self) -> u64 {
        match self {
            CmcePduTypeDl::DAlert => 0,
            CmcePduTypeDl::DConnect => 2,
            CmcePduTypeDl::DConnectAcknowledge => 3,
            CmcePduTypeDl::DInfo => 5,
            CmcePduTypeDl::DRelease => 6,
            CmcePduTypeDl::DSetup => 7,
            CmcePduTypeDl::DStatus => 8,
            CmcePduTypeDl::DTxGranted => 11,
            CmcePduTypeDl::DTxWait => 12,
            CmcePduTypeDl::DCallRestore => 14,
        }
    }

    pub fn into_raw(self) -> (r: u64)
        ensures
            r == self.raw(),
            fits(r, 5),
    {
        proof {
            lemma2_to64();
        }
        match self {
            CmcePduTypeDl::DAlert => 0,
            CmcePduTypeDl::DConnect => 2,
            CmcePduTypeDl::DConnectAcknowledge => 3,
            CmcePduTypeDl::DInfo => 5,
            CmcePduTypeDl::DRelease => 6,
            CmcePduTypeDl::DSetup => 7,
            CmcePduTypeDl::DStatus => 8,
            CmcePduTypeDl::DTxGranted => 11,
            CmcePduTypeDl::DTxWait => 12,
            CmcePduTypeDl::DCallRestore => 14,
        }
    }
}

/// Uplink CMCE PDU types carried by this stack.
#[derive(Debug, Clone, Copy, PartialEq, Eq, Structural)]
pub enum CmcePduTypeUl {
    UAlert,
    UConnect,
    UInfo,
    UTxCeased,
    UTxDemand,
    UCallRestore,
}

impl CmcePduTypeUl {
    /// The 5-bit discriminant on the wire.
    pub open spec fn raw(self) -> u64 {
        match self {
            CmcePduTypeUl::UAlert => 0,
            CmcePduTypeUl::UConnect => 2,
            CmcePduTypeUl::UInfo => 5,
            CmcePduTypeUl::UTxCeased => 9,
            CmcePduTypeUl::UTxDemand => 10,
            CmcePduTypeUl::UCallRestore => 14,
        }
    }

    pub fn into_raw(self) -> (r: u64)
        ensures
            r == self.raw(),
            fits(r, 5),
    {
        proof {
            lemma2_to64();
        }
        match self {
            CmcePduTypeUl::UAlert => 0,
            CmcePduTypeUl::UConnect => 2,
            CmcePduTypeUl::UInfo => 5,
            CmcePduTypeUl::UTxCeased => 9,
            CmcePduTypeUl::UTxDemand => 10,
            CmcePduTypeUl::UCallRestore => 14,
        }
    }
}

} // verus!
