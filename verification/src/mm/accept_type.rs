//! The 3-bit Location update accept type element (clause 16.10.35a).

use vstd::prelude::*;
use vstd::arithmetic::power2::lemma2_to64;
use crate::bits::fits;

verus! {

/// Why a location update was accepted. The 3-bit value `7` is reserved and
/// rejected as an invalid field value.
#[derive(Debug, Clone, Copy, PartialEq, Eq, Structural)]
pub enum MmLocationUpdateAcceptType {
    ItsiAttach,
    RoamingLocationUpdating,
    TemporaryRegistration,
    PeriodicLocationUpdating,
    CallRestorationRoamingLocationUpdating,
    MigratingLocationUpdating,
    DemandLocationUpdating,
}

impl MmLocationUpdateAcceptType {
    /// The 3-bit value on the wire.
    pub open spec fn raw(self) -> u64 {
        match self {
            MmLocationUpdateAcceptType::ItsiAttach => 0,
            MmLocationUpdateAcceptType::RoamingLocationUpdating => 1,
            MmLocationUpdateAcceptType::TemporaryRegistration => 2,
            MmLocationUpdateAcceptType::PeriodicLocationUpdating => 3,
            MmLocationUpdateAcceptType::CallRestorationRoamingLocationUpdating => 4,
            MmLocationUpdateAcceptType::MigratingLocationUpdating => 5,
            MmLocationUpdateAcceptType::DemandLocationUpdating => 6,
        }
    }

    pub fn into_raw(self) -> (r: u64)
        ensures
            r == self.raw(),
            fits(r, 3),
    {
        proof {
            lemma2_to64();
        }
        match self {
            MmLocationUpdateAcceptType::ItsiAttach => 0,
            MmLocationUpdateAcceptType::RoamingLocationUpdating => 1,
            MmLocationUpdateAcceptType::TemporaryRegistration => 2,
            MmLocationUpdateAcceptType::PeriodicLocationUpdating => 3,
            MmLocationUpdateAcceptType::CallRestorationRoamingLocationUpdating => 4,
            MmLocationUpdateAcceptType::MigratingLocationUpdating => 5,
            MmLocationUpdateAcceptType::DemandLocationUpdating => 6,
        }
    }

    /// The variant a 3-bit value names; meaningful only below the reserved
    /// value.
    pub open spec fn from_raw(val: u64) -> MmLocationUpdateAcceptType {
        if val == 0 {
            MmLocationUpdateAcceptType::ItsiAttach
        } else if val == 1 {
            MmLocationUpdateAcceptType::RoamingLocationUpdating
        } else if val == 2 {
            MmLocationUpdateAcceptType::TemporaryRegistration
        } else if val == 3 {
            MmLocationUpdateAcceptType::PeriodicLocationUpdating
        } else if val == 4 {
            MmLocationUpdateAcceptType::CallRestorationRoamingLocationUpdating
        } else if val == 5 {
            MmLocationUpdateAcceptType::MigratingLocationUpdating
        } else {
            MmLocationUpdateAcceptType::DemandLocationUpdating
        }
    }

    /// Classify a decoded 3-bit value; the reserved value is refused.
    pub fn try_from(val: u64) -> (r: Result<MmLocationUpdateAcceptType, ()>)
        ensures
            match r {
                Ok(t) => t.raw() == val && t == MmLocationUpdateAcceptType::from_raw(val),
                Err(()) => val > 6,
            },
    {
        match val {
            0 => Ok(MmLocationUpdateAcceptType::ItsiAttach),
            1 => Ok(MmLocationUpdateAcceptType::RoamingLocationUpdating),
            2 => Ok(MmLocationUpdateAcceptType::TemporaryRegistration),
            3 => Ok(MmLocationUpdateAcceptType::PeriodicLocationUpdating),
            4 => Ok(MmLocationUpdateAcceptType::CallRestorationRoamingLocationUpdating),
            5 => Ok(MmLocationUpdateAcceptType::MigratingLocationUpdating),
            6 => Ok(MmLocationUpdateAcceptType::DemandLocationUpdating),
            _ => Err(()),
        }
    }
}

} // verus!
