//! The D-INFO PDU (clause 14.7.1.8): the general information message to the MS.

use vstd::prelude::*;
use vstd::arithmetic::power2::lemma2_to64;
use crate::bits::{enc_field, enc_type2, fits};
use crate::bitbuffer::{read_res, BitBuffer};
use crate::delimiters;
use crate::delimiters::trailing_res;
use crate::type2;
use crate::type2::type2_res;
use crate::type34::{enc_opt_elem, type3_res, write_opt_elem, Type34Err, Type3Element};
use crate::pdu_parse_error::{expect_pdu_type, PduParseError};
use crate::cmce::pdu_type::CmcePduTypeDl;
use crate::cmce::elem_id::CmceType3ElemId;

verus! {

#[derive(Debug)]
pub struct DInfo {
    /// Type1, 14 bits
    pub call_identifier: u16,
    /// Type1, 1 bits
    pub reset_call_time_out_timer_t310_: bool,
    /// Type1, 1 bits
    pub poll_request: bool,
    /// Type2, 14 bits
    pub new_call_identifier: Option<u64>,
    /// Type2, 4 bits
    pub call_time_out: Option<u64>,
    /// Type2, 3 bits
    pub call_time_out_set_up_phase_t301_t302_: Option<u64>,
    /// Type2, 1 bits
    pub call_ownership: Option<u64>,
    /// Type2, 9 bits
    pub modify: Option<u64>,
    /// Type2, 3 bits
    pub call_status: Option<u64>,
    /// Type2, 24 bits
    pub temporary_address: Option<u64>,
    /// Type2, 6 bits
    pub notification_indicator: Option<u64>,
    /// Type2, 6 bits
    pub poll_response_percentage: Option<u64>,
    /// Type2, 6 bits
    pub poll_response_number: Option<u64>,
    /// Type3
    pub dtmf: Option<Type3Element>,
    /// Type3
    pub facility: Option<Type3Element>,
    /// Type3
    pub poll_response_addresses: Option<Type3Element>,
    /// Type3
    pub proprietary: Option<Type3Element>,
}

impl DInfo {
    /// Whether any optional element is present, which decides the o-bit.
    pub open spec fn has_optionals(self) -> bool {
        self.new_call_identifier is Some || self.call_time_out is Some || self.call_time_out_set_up_phase_t301_t302_ is Some || self.call_ownership is Some || self.modify is Some || self.call_status is Some || self.temporary_address is Some || self.notification_indicator is Some || self.poll_response_percentage is Some || self.poll_response_number is Some || self.dtmf is Some || self.facility is Some || self.poll_response_addresses is Some || self.proprietary is Some
    }

    /// Every field fits its wire width and every element carries its own tag.
    pub open spec fn wf(self) -> bool {
        &&& fits(self.call_identifier as u64, 14)
        &&& (self.new_call_identifier matches Some(v) ==> fits(v, 14))
        &&& (self.call_time_out matches Some(v) ==> fits(v, 4))
        &&& (self.call_time_out_set_up_phase_t301_t302_ matches Some(v) ==> fits(v, 3))
        &&& (self.call_ownership matches Some(v) ==> fits(v, 1))
        &&& (self.modify matches Some(v) ==> fits(v, 9))
        &&& (self.call_status matches Some(v) ==> fits(v, 3))
        &&& (self.temporary_address matches Some(v) ==> fits(v, 24))
        &&& (self.notification_indicator matches Some(v) ==> fits(v, 6))
        &&& (self.poll_response_percentage matches Some(v) ==> fits(v, 6))
        &&& (self.poll_response_number matches Some(v) ==> fits(v, 6))
        &&& (self.dtmf matches Some(e) ==> e.wf() && e.field_type == CmceType3ElemId::Dtmf.raw())
        &&& (self.facility matches Some(e) ==> e.wf() && e.field_type == CmceType3ElemId::Facility.raw())
        &&& (self.poll_response_addresses matches Some(e) ==> e.wf() && e.field_type == CmceType3ElemId::PollResponseAddresses.raw())
        &&& (self.proprietary matches Some(e) ==> e.wf() && e.field_type == CmceType3ElemId::Proprietary.raw())
    }

    /// What decoding the run of Type-2 elements yields when the o-bit was
    /// `obit`: the ten optional values in wire order, or the exact failure.
    pub open spec fn spec_parse_type2_part(s: Seq<bool>, pos: nat, obit: bool) -> (Result<
        (Option<u64>, Option<u64>, Option<u64>, Option<u64>, Option<u64>, Option<u64>, Option<u64>, Option<u64>, Option<u64>, Option<u64>),
        PduParseError,
    >, nat) {
        let step0: (Result<Option<u64>, PduParseError>, nat) = if obit {
            type2_res(s, pos, 14, "new_call_identifier")
        } else {
            (Ok(None), pos)
        };
        match step0.0 {
            Err(e) => (Err::<(Option<u64>, Option<u64>, Option<u64>, Option<u64>, Option<u64>, Option<u64>, Option<u64>, Option<u64>, Option<u64>, Option<u64>), PduParseError>(e), step0.1),
            Ok(new_call_identifier) => {
                let step1: (Result<Option<u64>, PduParseError>, nat) = if obit {
                    type2_res(s, step0.1, 4, "call_time_out")
                } else {
                    (Ok(None), step0.1)
                };
                match step1.0 {
                    Err(e) => (Err::<(Option<u64>, Option<u64>, Option<u64>, Option<u64>, Option<u64>, Option<u64>, Option<u64>, Option<u64>, Option<u64>, Option<u64>), PduParseError>(e), step1.1),
                    Ok(call_time_out) => {
                        let step2: (Result<Option<u64>, PduParseError>, nat) = if obit {
                            type2_res(s, step1.1, 3, "call_time_out_set_up_phase_t301_t302_")
                        } else {
                            (Ok(None), step1.1)
                        };
                        match step2.0 {
                            Err(e) => (Err::<(Option<u64>, Option<u64>, Option<u64>, Option<u64>, Option<u64>, Option<u64>, Option<u64>, Option<u64>, Option<u64>, Option<u64>), PduParseError>(e), step2.1),
                            Ok(call_time_out_set_up_phase_t301_t302_) => {
                                let step3: (Result<Option<u64>, PduParseError>, nat) = if obit {
                                    type2_res(s, step2.1, 1, "call_ownership")
                                } else {
                                    (Ok(None), step2.1)
                                };
                                match step3.0 {
                                    Err(e) => (Err::<(Option<u64>, Option<u64>, Option<u64>, Option<u64>, Option<u64>, Option<u64>, Option<u64>, Option<u64>, Option<u64>, Option<u64>), PduParseError>(e), step3.1),
                                    Ok(call_ownership) => {
                                        let step4: (Result<Option<u64>, PduParseError>, nat) = if obit {
                                            type2_res(s, step3.1, 9, "modify")
                                        } else {
                                            (Ok(None), step3.1)
                                        };
                                        match step4.0 {
                                            Err(e) => (Err::<(Option<u64>, Option<u64>, Option<u64>, Option<u64>, Option<u64>, Option<u64>, Option<u64>, Option<u64>, Option<u64>, Option<u64>), PduParseError>(e), step4.1),
                                            Ok(modify) => {
                                                let step5: (Result<Option<u64>, PduParseError>, nat) = if obit {
                                                    type2_res(s, step4.1, 3, "call_status")
                                                } else {
                                                    (Ok(None), step4.1)
                                                };
                                                match step5.0 {
                                                    Err(e) => (Err::<(Option<u64>, Option<u64>, Option<u64>, Option<u64>, Option<u64>, Option<u64>, Option<u64>, Option<u64>, Option<u64>, Option<u64>), PduParseError>(e), step5.1),
                                                    Ok(call_status) => {
                                                        let step6: (Result<Option<u64>, PduParseError>, nat) = if obit {
                                                            type2_res(s, step5.1, 24, "temporary_address")
                                                        } else {
                                                            (Ok(None), step5.1)
                                                        };
                                                        match step6.0 {
                                                            Err(e) => (Err::<(Option<u64>, Option<u64>, Option<u64>, Option<u64>, Option<u64>, Option<u64>, Option<u64>, Option<u64>, Option<u64>, Option<u64>), PduParseError>(e), step6.1),
                                                            Ok(temporary_address) => {
                                                                let step7: (Result<Option<u64>, PduParseError>, nat) = if obit {
                                                                    type2_res(s, step6.1, 6, "notification_indicator")
                                                                } else {
                                                                    (Ok(None), step6.1)
                                                                };
                                                                match step7.0 {
                                                                    Err(e) => (Err::<(Option<u64>, Option<u64>, Option<u64>, Option<u64>, Option<u64>, Option<u64>, Option<u64>, Option<u64>, Option<u64>, Option<u64>), PduParseError>(e), step7.1),
                                                                    Ok(notification_indicator) => {
                                                                        let step8: (Result<Option<u64>, PduParseError>, nat) = if obit {
                                                                            type2_res(s, step7.1, 6, "poll_response_percentage")
                                                                        } else {
                                                                            (Ok(None), step7.1)
                                                                        };
                                                                        match step8.0 {
                                                                            Err(e) => (Err::<(Option<u64>, Option<u64>, Option<u64>, Option<u64>, Option<u64>, Option<u64>, Option<u64>, Option<u64>, Option<u64>, Option<u64>), PduParseError>(e), step8.1),
                                                                            Ok(poll_response_percentage) => {
                                                                                let step9: (Result<Option<u64>, PduParseError>, nat) = if obit {
                                                                                    type2_res(s, step8.1, 6, "poll_response_number")
                                                                                } else {
                                                                                    (Ok(None), step8.1)
                                                                                };
                                                                                match step9.0 {
                                                                                    Err(e) => (Err::<(Option<u64>, Option<u64>, Option<u64>, Option<u64>, Option<u64>, Option<u64>, Option<u64>, Option<u64>, Option<u64>, Option<u64>), PduParseError>(e), step9.1),
                                                                                    Ok(poll_response_number) => {
                                                                                        (Ok::<(Option<u64>, Option<u64>, Option<u64>, Option<u64>, Option<u64>, Option<u64>, Option<u64>, Option<u64>, Option<u64>, Option<u64>), PduParseError>((new_call_identifier, call_time_out, call_time_out_set_up_phase_t301_t302_, call_ownership, modify, call_status, temporary_address, notification_indicator, poll_response_percentage, poll_response_number)), step9.1)
                                                                                    },
                                                                                }
                                                                            },
                                                                        }
                                                                    },
                                                                }
                                                            },
                                                        }
                                                    },
                                                }
                                            },
                                        }
                                    },
                                }
                            },
                        }
                    },
                }
            },
        }
    }

    /// What decoding the Type-3 elements and the trailing marker yields,
    /// given everything decoded before them.
    pub open spec fn spec_parse_elements(
        s: Seq<bool>,
        pos: nat,
        obit: bool,
        call_identifier: u16,
        reset_call_time_out_timer_t310_: bool,
        poll_request: bool,
        t2s: (Option<u64>, Option<u64>, Option<u64>, Option<u64>, Option<u64>, Option<u64>, Option<u64>, Option<u64>, Option<u64>, Option<u64>),
    ) -> (Result<DInfo, PduParseError>, nat) {
        let step0: (Result<Option<Type3Element>, PduParseError>, nat) = if obit {
            let t: (Result<(usize, u64), Type34Err>, nat) = type3_res(s, pos, CmceType3ElemId::Dtmf.raw());
            (
                match t.0 {
                    Ok((l, d)) => Ok(Some(Type3Element { field_type: CmceType3ElemId::Dtmf.raw(), data: d, len: l })),
                    Err(Type34Err::FieldNotPresent) => Ok(None),
                    Err(_) => Err(PduParseError::BufferEnded { field: "dtmf" }),
                },
                t.1,
            )
        } else {
            (Ok(None), pos)
        };
        match step0.0 {
            Err(e) => (Err::<DInfo, PduParseError>(e), step0.1),
            Ok(dtmf) => {
                let step1: (Result<Option<Type3Element>, PduParseError>, nat) = if obit {
                    let t: (Result<(usize, u64), Type34Err>, nat) = type3_res(s, step0.1, CmceType3ElemId::Facility.raw());
                    (
                        match t.0 {
                            Ok((l, d)) => Ok(Some(Type3Element { field_type: CmceType3ElemId::Facility.raw(), data: d, len: l })),
                            Err(Type34Err::FieldNotPresent) => Ok(None),
                            Err(_) => Err(PduParseError::BufferEnded { field: "facility" }),
                        },
                        t.1,
                    )
                } else {
                    (Ok(None), step0.1)
                };
                match step1.0 {
                    Err(e) => (Err::<DInfo, PduParseError>(e), step1.1),
                    Ok(facility) => {
                        let step2: (Result<Option<Type3Element>, PduParseError>, nat) = if obit {
                            let t: (Result<(usize, u64), Type34Err>, nat) = type3_res(s, step1.1, CmceType3ElemId::PollResponseAddresses.raw());
                            (
                                match t.0 {
                                    Ok((l, d)) => Ok(Some(Type3Element { field_type: CmceType3ElemId::PollResponseAddresses.raw(), data: d, len: l })),
                                    Err(Type34Err::FieldNotPresent) => Ok(None),
                                    Err(_) => Err(PduParseError::BufferEnded { field: "poll_response_addresses" }),
                                },
                                t.1,
                            )
                        } else {
                            (Ok(None), step1.1)
                        };
                        match step2.0 {
                            Err(e) => (Err::<DInfo, PduParseError>(e), step2.1),
                            Ok(poll_response_addresses) => {
                                let step3: (Result<Option<Type3Element>, PduParseError>, nat) = if obit {
                                    let t: (Result<(usize, u64), Type34Err>, nat) = type3_res(s, step2.1, CmceType3ElemId::Proprietary.raw());
                                    (
                                        match t.0 {
                                            Ok((l, d)) => Ok(Some(Type3Element { field_type: CmceType3ElemId::Proprietary.raw(), data: d, len: l })),
                                            Err(Type34Err::FieldNotPresent) => Ok(None),
                                            Err(_) => Err(PduParseError::BufferEnded { field: "proprietary" }),
                                        },
                                        t.1,
                                    )
                                } else {
                                    (Ok(None), step2.1)
                                };
                                match step3.0 {
                                    Err(e) => (Err::<DInfo, PduParseError>(e), step3.1),
                                    Ok(proprietary) => {
                                        let tr: (Result<(), PduParseError>, nat) = trailing_res(s, step3.1, obit);
                                        match tr.0 {
                                            Err(e) => (Err::<DInfo, PduParseError>(e), tr.1),
                                            Ok(_) => (
                                                Ok::<DInfo, PduParseError>(
                                                    DInfo {
                                                        call_identifier,
                                                        reset_call_time_out_timer_t310_,
                                                        poll_request,
                                                        new_call_identifier: t2s.0,
                                                        call_time_out: t2s.1,
                                                        call_time_out_set_up_phase_t301_t302_: t2s.2,
                                                        call_ownership: t2s.3,
                                                        modify: t2s.4,
                                                        call_status: t2s.5,
                                                        temporary_address: t2s.6,
                                                        notification_indicator: t2s.7,
                                                        poll_response_percentage: t2s.8,
                                                        poll_response_number: t2s.9,
                                                        dtmf,
                                                        facility,
                                                        poll_response_addresses,
                                                        proprietary,
                                                    },
                                                ),
                                                tr.1,
                                            ),
                                        }
                                    },
                                }
                            },
                        }
                    },
                }
            },
        }
    }

    /// What decoding yields from the bits at a cursor: the decoded PDU or
    /// the exact failure, together with the cursor position afterwards.
    pub open spec fn spec_parse(s: Seq<bool>, pos: nat) -> (Result<DInfo, PduParseError>, nat) {
        match read_res(s, pos, 5) {
            None => (Err::<DInfo, PduParseError>(PduParseError::BufferEnded { field: "pdu_type" }), pos),
            Some((p0, v0)) => {
                if v0 != CmcePduTypeDl::DInfo.raw() {
                    (Err::<DInfo, PduParseError>(PduParseError::InvalidPduType { expected: CmcePduTypeDl::DInfo.raw(), found: v0 }), p0)
                } else {
                    match read_res(s, p0, 14) {
                        None => (Err::<DInfo, PduParseError>(PduParseError::BufferEnded { field: "call_identifier" }), p0),
                        Some((p1, v1)) => {
                            let call_identifier = v1 as u16;
                            match read_res(s, p1, 1) {
                                None => (Err::<DInfo, PduParseError>(PduParseError::BufferEnded { field: "reset_call_time_out_timer_t310_" }), p1),
                                Some((p2, v2)) => {
                                    let reset_call_time_out_timer_t310_ = v2 != 0;
                                    match read_res(s, p2, 1) {
                                        None => (Err::<DInfo, PduParseError>(PduParseError::BufferEnded { field: "poll_request" }), p2),
                                        Some((p3, v3)) => {
                                            let poll_request = v3 != 0;
                                            match read_res(s, p3, 1) {
                                                None => (Err::<DInfo, PduParseError>(PduParseError::BufferEnded { field: "obit" }), p3),
                                                Some((p4, v4)) => {
                                                    let obit = v4 == 1;
                                                    let t2part: (Result<(Option<u64>, Option<u64>, Option<u64>, Option<u64>, Option<u64>, Option<u64>, Option<u64>, Option<u64>, Option<u64>, Option<u64>), PduParseError>, nat) = DInfo::spec_parse_type2_part(s, p4, obit);
                                                    match t2part.0 {
                                                        Err(e) => (Err::<DInfo, PduParseError>(e), t2part.1),
                                                        Ok(t2s) => DInfo::spec_parse_elements(
                                                            s,
                                                            t2part.1,
                                                            obit,
                                                            call_identifier,
                                                            reset_call_time_out_timer_t310_,
                                                            poll_request,
                                                            t2s,
                                                        ),
                                                    }
                                                },
                                            }
                                        },
                                    }
                                },
                            }
                        },
                    }
                }
            },
        }
    }

    /// The PDU's wire image: the type code and the fixed part, then either
    /// a clear o-bit alone or a set o-bit followed by the optional part and
    /// the trailing m-bit.
    pub open spec fn enc(self) -> Seq<bool> {
        enc_field(CmcePduTypeDl::DInfo.raw(), 5) + enc_field(self.call_identifier as u64, 14) + seq![self.reset_call_time_out_timer_t310_] + seq![self.poll_request] + if self.has_optionals() {
            seq![true] + self.enc_optionals()
        } else {
            seq![false]
        }
    }

    /// Decode the run of Type-2 elements that follows the o-bit.
    fn parse_type2_part(buffer: &mut BitBuffer, obit: bool) -> (r: Result<
        (Option<u64>, Option<u64>, Option<u64>, Option<u64>, Option<u64>, Option<u64>, Option<u64>, Option<u64>, Option<u64>, Option<u64>),
        PduParseError,
    >)
        requires
            old(buffer).wf(),
        ensures
            final(buffer).wf(),
            final(buffer).bits() == old(buffer).bits(),
            final(buffer).writable() == old(buffer).writable(),
            old(buffer).cursor() <= final(buffer).cursor() <= old(buffer).bits().len(),
            ({
                let sp = DInfo::spec_parse_type2_part(old(buffer).bits(), old(buffer).cursor(), obit);
                r == sp.0 && final(buffer).cursor() == sp.1
            }),
            r matches Ok(t) ==> (t.0 matches Some(v) ==> fits(v, 14)),
            r matches Ok(t) ==> (t.1 matches Some(v) ==> fits(v, 4)),
            r matches Ok(t) ==> (t.2 matches Some(v) ==> fits(v, 3)),
            r matches Ok(t) ==> (t.3 matches Some(v) ==> fits(v, 1)),
            r matches Ok(t) ==> (t.4 matches Some(v) ==> fits(v, 9)),
            r matches Ok(t) ==> (t.5 matches Some(v) ==> fits(v, 3)),
            r matches Ok(t) ==> (t.6 matches Some(v) ==> fits(v, 24)),
            r matches Ok(t) ==> (t.7 matches Some(v) ==> fits(v, 6)),
            r matches Ok(t) ==> (t.8 matches Some(v) ==> fits(v, 6)),
            r matches Ok(t) ==> (t.9 matches Some(v) ==> fits(v, 6)),
    {
        let new_call_identifier = if obit {
            type2::parse(buffer, 14, "new_call_identifier")?
        } else {
            None
        };
        let call_time_out = if obit {
            type2::parse(buffer, 4, "call_time_out")?
        } else {
            None
        };
        let call_time_out_set_up_phase_t301_t302_ = if obit {
            type2::parse(buffer, 3, "call_time_out_set_up_phase_t301_t302_")?
        } else {
            None
        };
        let call_ownership = if obit {
            type2::parse(buffer, 1, "call_ownership")?
        } else {
            None
        };
        let modify = if obit {
            type2::parse(buffer, 9, "modify")?
        } else {
            None
        };
        let call_status = if obit {
            type2::parse(buffer, 3, "call_status")?
        } else {
            None
        };
        let temporary_address = if obit {
            type2::parse(buffer, 24, "temporary_address")?
        } else {
            None
        };
        let notification_indicator = if obit {
            type2::parse(buffer, 6, "notification_indicator")?
        } else {
            None
        };
        let poll_response_percentage = if obit {
            type2::parse(buffer, 6, "poll_response_percentage")?
        } else {
            None
        };
        let poll_response_number = if obit {
            type2::parse(buffer, 6, "poll_response_number")?
        } else {
            None
        };
        Ok((new_call_identifier, call_time_out, call_time_out_set_up_phase_t301_t302_, call_ownership, modify, call_status, temporary_address, notification_indicator, poll_response_percentage, poll_response_number))
    }

    /// Parse from BitBuffer.
    #[verifier::rlimit(50)]
    pub fn from_bitbuf(buffer: &mut BitBuffer) -> (r: Result<DInfo, PduParseError>)
        requires
            old(buffer).wf(),
        ensures
            final(buffer).wf(),
            final(buffer).bits() == old(buffer).bits(),
            final(buffer).writable() == old(buffer).writable(),
            old(buffer).cursor() <= final(buffer).cursor() <= old(buffer).bits().len(),
            r matches Ok(p) ==> p.wf(),
            ({
                let sp = DInfo::spec_parse(old(buffer).bits(), old(buffer).cursor());
                r == sp.0 && final(buffer).cursor() == sp.1
            }),
    {
        proof {
            lemma2_to64();
        }
        let pdu_type = buffer.read_field(5, "pdu_type")?;
        expect_pdu_type(pdu_type, CmcePduTypeDl::DInfo.into_raw())?;
        let call_identifier = buffer.read_field(14, "call_identifier")? as u16;
        let reset_call_time_out_timer_t310_ = buffer.read_field(1, "reset_call_time_out_timer_t310_")? != 0;
        let poll_request = buffer.read_field(1, "poll_request")? != 0;

        // obit designates presence of any further type2, type3 or type4 fields
        let obit = delimiters::read_obit(buffer)?;
        let (new_call_identifier, call_time_out, call_time_out_set_up_phase_t301_t302_, call_ownership, modify, call_status, temporary_address, notification_indicator, poll_response_percentage, poll_response_number) = Self::parse_type2_part(buffer, obit)?;
        let dtmf = if obit {
            Type3Element::parse_opt(buffer, CmceType3ElemId::Dtmf.into_raw(), "dtmf")?
        } else {
            None
        };
        let facility = if obit {
            Type3Element::parse_opt(buffer, CmceType3ElemId::Facility.into_raw(), "facility")?
        } else {
            None
        };
        let poll_response_addresses = if obit {
            Type3Element::parse_opt(buffer, CmceType3ElemId::PollResponseAddresses.into_raw(), "poll_response_addresses")?
        } else {
            None
        };
        let proprietary = if obit {
            Type3Element::parse_opt(buffer, CmceType3ElemId::Proprietary.into_raw(), "proprietary")?
        } else {
            None
        };

        // Reject a trailing mbit left set after the last recognized element
        delimiters::check_trailing(buffer, obit)?;

        Ok(DInfo {
            call_identifier,
            reset_call_time_out_timer_t310_,
            poll_request,
            new_call_identifier,
            call_time_out,
            call_time_out_set_up_phase_t301_t302_,
            call_ownership,
            modify,
            call_status,
            temporary_address,
            notification_indicator,
            poll_response_percentage,
            poll_response_number,
            dtmf,
            facility,
            poll_response_addresses,
            proprietary,
        })
    }

    /// Serialize this PDU into the given BitBuffer.
    #[verifier::rlimit(50)]
    pub fn to_bitbuf(&self, buffer: &mut BitBuffer) -> (r: Result<(), PduParseError>)
        requires
            old(buffer).wf(),
            old(buffer).writable(),
            self.wf(),
        ensures
            final(buffer).wf(),
            final(buffer).writable(),
            final(buffer).cursor() == old(buffer).cursor(),
            final(buffer).bits() == old(buffer).bits() + self.enc(),
            r is Ok,
    {
        broadcast use crate::bits::lemma_seq_add_assoc;
        broadcast use crate::bits::lemma_seq_add_empty_right;
        broadcast use crate::bits::lemma_seq_add_empty_left;

        proof {
            lemma2_to64();
        }
        buffer.write_bits(CmcePduTypeDl::DInfo.into_raw(), 5);
        buffer.write_bits(self.call_identifier as u64, 14);
        buffer.write_bit(
            if self.reset_call_time_out_timer_t310_ {
                1
            } else {
                0
            },
        );
        buffer.write_bit(
            if self.poll_request {
                1
            } else {
                0
            },
        );

        // Check if any optional field present and place o-bit
        let obit_val = self.new_call_identifier.is_some() || self.call_time_out.is_some() || self.call_time_out_set_up_phase_t301_t302_.is_some() || self.call_ownership.is_some() || self.modify.is_some() || self.call_status.is_some() || self.temporary_address.is_some() || self.notification_indicator.is_some() || self.poll_response_percentage.is_some() || self.poll_response_number.is_some() || self.dtmf.is_some() || self.facility.is_some() || self.poll_response_addresses.is_some() || self.proprietary.is_some();
        delimiters::write_obit(
            buffer,
            if obit_val {
                1
            } else {
                0
            },
        );
        if !obit_val {
            return Ok(());
        }
        self.write_optionals(buffer);
        Ok(())
    }

    /// The part of the wire image that follows a set o-bit: the Type-2
    /// elements, the Type-3 elements, and the trailing m-bit.
    pub open spec fn enc_optionals(self) -> Seq<bool> {
        enc_type2(self.new_call_identifier, 14) + enc_type2(self.call_time_out, 4) + enc_type2(self.call_time_out_set_up_phase_t301_t302_, 3) + enc_type2(self.call_ownership, 1) + enc_type2(self.modify, 9) + enc_type2(self.call_status, 3) + enc_type2(self.temporary_address, 24) + enc_type2(self.notification_indicator, 6) + enc_type2(self.poll_response_percentage, 6) + enc_type2(self.poll_response_number, 6) + enc_opt_elem(self.dtmf) + enc_opt_elem(self.facility) + enc_opt_elem(self.poll_response_addresses) + enc_opt_elem(self.proprietary) + seq![false]
    }

    /// Write everything that follows the o-bit.
    #[verifier::rlimit(50)]
    fn write_optionals(&self, buffer: &mut BitBuffer)
        requires
            old(buffer).wf(),
            old(buffer).writable(),
            self.wf(),
        ensures
            final(buffer).wf(),
            final(buffer).writable(),
            final(buffer).cursor() == old(buffer).cursor(),
            final(buffer).bits() == old(buffer).bits() + self.enc_optionals(),
    {
        broadcast use crate::bits::lemma_seq_add_assoc;
        broadcast use crate::bits::lemma_seq_add_empty_right;
        broadcast use crate::bits::lemma_seq_add_empty_left;

        type2::write(buffer, self.new_call_identifier, 14);
        type2::write(buffer, self.call_time_out, 4);
        type2::write(buffer, self.call_time_out_set_up_phase_t301_t302_, 3);
        type2::write(buffer, self.call_ownership, 1);
        type2::write(buffer, self.modify, 9);
        type2::write(buffer, self.call_status, 3);
        type2::write(buffer, self.temporary_address, 24);
        type2::write(buffer, self.notification_indicator, 6);
        type2::write(buffer, self.poll_response_percentage, 6);
        type2::write(buffer, self.poll_response_number, 6);
        write_opt_elem(buffer, &self.dtmf);
        write_opt_elem(buffer, &self.facility);
        write_opt_elem(buffer, &self.poll_response_addresses);
        write_opt_elem(buffer, &self.proprietary);
        // Write terminating m-bit
        delimiters::write_mbit(buffer, 0);
    }
}

} // verus!
