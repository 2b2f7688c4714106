//! MM Type-3/4 element identifiers: the 4-bit tag naming each optional
//! element, one table for each link direction.

use vstd::prelude::*;
use vstd::arithmetic::power2::lemma2_to64;
use crate::bits::fits;

verus! {

/// Downlink MM Type-3/4 element identifiers.
#[derive(Debug, Clone, Copy, PartialEq, Eq, Structural)]
pub enum MmType34ElemIdDl {
    DefaultGroupAttachLifetime,
    NewRegisteredArea,
    GroupIdentityLocationAccept,
    SecurityDownlink,
    CellTypeControl,
    AuthenticationDownlink,
    GroupIdentityDownlink,
    GroupIdentitySecurityRelatedInformation,
    Proprietary,
}

impl MmType34ElemIdDl {
    /// The 4-bit tag on the wire.
    pub open spec fn raw(self) -> u64 {
        match self {
            MmType34ElemIdDl::DefaultGroupAttachLifetime => 1,
            MmType34ElemIdDl::NewRegisteredArea => 2,
            MmType34ElemIdDl::GroupIdentityLocationAccept => 3,
            MmType34ElemIdDl::SecurityDownlink => 4,
            MmType34ElemIdDl::CellTypeControl => 5,
            MmType34ElemIdDl::AuthenticationDownlink => 6,
            MmType34ElemIdDl::GroupIdentityDownlink => 7,
            MmType34ElemIdDl::GroupIdentitySecurityRelatedInformation => 8,
            MmType34ElemIdDl::Proprietary => 15,
        }
    }

    pub fn into_raw(self) -> (r: u64)
        ensures
            r == self.raw(),
            fits(r, 4),
    {
        proof {
            lemma2_to64();
        }
        match self {
            MmType34ElemIdDl::DefaultGroupAttachLifetime => 1,
            MmType34ElemIdDl::NewRegisteredArea => 2,
            MmType34ElemIdDl::GroupIdentityLocationAccept => 3,
            MmType34ElemIdDl::SecurityDownlink => 4,
            MmType34ElemIdDl::CellTypeControl => 5,
            MmType34ElemIdDl::AuthenticationDownlink => 6,
            MmType34ElemIdDl::GroupIdentityDownlink => 7,
            MmType34ElemIdDl::GroupIdentitySecurityRelatedInformation => 8,
            MmType34ElemIdDl::Proprietary => 15,
        }
    }
}

/// Uplink MM Type-3/4 element identifiers.
#[derive(Debug, Clone, Copy, PartialEq, Eq, Structural)]
pub enum MmType34ElemIdUl {
    AuthenticationUplink,
    GroupIdentityLocationDemand,
    GroupReportResponse,
    ExtendedCapabilities,
    GroupIdentityUplink,
    Proprietary,
}

impl MmType34ElemIdUl {
    /// The 4-bit tag on the wire.
    pub open spec fn raw(self) -> u64 {
        match self {
            MmType34ElemIdUl::AuthenticationUplink => 1,
            MmType34ElemIdUl::GroupIdentityLocationDemand => 2,
            MmType34ElemIdUl::GroupReportResponse => 3,
            MmType34ElemIdUl::ExtendedCapabilities => 4,
            MmType34ElemIdUl::GroupIdentityUplink => 7,
            MmType34ElemIdUl::Proprietary => 15,
        }
    }

    pub fn into_raw(self) -> (r: u64)
        ensures
            r == self.raw(),
            fits(r, 4),
    {
        proof {
            lemma2_to64();
        }
        match self {
            MmType34ElemIdUl::AuthenticationUplink => 1,
            MmType34ElemIdUl::GroupIdentityLocationDemand => 2,
            MmType34ElemIdUl::GroupReportResponse => 3,
            MmType34ElemIdUl::ExtendedCapabilities => 4,
            MmType34ElemIdUl::GroupIdentityUplink => 7,
            MmType34ElemIdUl::Proprietary => 15,
        }
    }
}

} // verus!
