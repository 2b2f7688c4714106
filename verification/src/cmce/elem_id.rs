//! CMCE Type-3 element identifiers: the 4-bit tag naming each optional
//! element of a CMCE PDU.

use vstd::prelude::*;
use vstd::arithmetic::power2::lemma2_to64;
use crate::bits::fits;

verus! {

/// CMCE Type-3 element identifiers.
#[derive(Debug, Clone, Copy, PartialEq, Eq, Structural)]
pub enum CmceType3ElemId {
    Dtmf,
    ExternalSubscriberNumber,
    Facility,
    PollResponseAddresses,
    TemporaryAddress,
    DmMsAddress,
    NotificationIndicator,
    Proprietary,
}

impl CmceType3ElemId {
    /// The 4-bit tag on the wire.
    pub open spec fn raw(self) -> u64 {
        match self {
            CmceType3ElemId::Dtmf => 1,
            CmceType3ElemId::ExternalSubscriberNumber => 2,
            CmceType3ElemId::Facility => 3,
            CmceType3ElemId::PollResponseAddresses => 4,
            CmceType3ElemId::TemporaryAddress => 5,
            CmceType3ElemId::DmMsAddress => 6,
            CmceType3ElemId::NotificationIndicator => 7,
            CmceType3ElemId::Proprietary => 15,
        }
    }

    pub fn into_raw(self) -> (r: u64)
        ensures
            r == self.raw(),
            fits(r, 4),
    {
        proof {
            lemma2_to64();
        }
        match self {
            CmceType3ElemId::Dtmf => 1,
            CmceType3ElemId::ExternalSubscriberNumber => 2,
            CmceType3ElemId::Facility => 3,
            CmceType3ElemId::PollResponseAddresses => 4,
            CmceType3ElemId::TemporaryAddress => 5,
            CmceType3ElemId::DmMsAddress => 6,
            CmceType3ElemId::NotificationIndicator => 7,
            CmceType3ElemId::Proprietary => 15,
        }
    }
}

} // verus!
