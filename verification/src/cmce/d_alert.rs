//! The D-ALERT PDU: the SwMI tells the calling MS that the called party is being alerted.

use vstd::prelude::*;
use vstd::arithmetic::power2::lemma2_to64;
use crate::bits::{enc_field, enc_type2, fits};
use crate::bitbuffer::{read_res, BitBuffer};
use crate::delimiters;
use crate::delimiters::trailing_res;
use crate::type2;
use crate::type2::type2_res;
use crate::type34::{enc_opt_elem, type3_res, write_opt_elem, Type34Err, Type3Element};
use crate::pdu_parse_error::{expect_pdu_type, PduParseError};
use crate::cmce::pdu_type::CmcePduTypeDl;
use crate::cmce::elem_id::CmceType3ElemId;

verus! {

#[derive(Debug)]
pub struct DAlert {
    /// Type1, 14 bits
    pub call_identifier: u16,
    /// Type1, 3 bits
    pub call_time_out_set_up_phase: u8,
    /// Type1, 1 bits
    pub reserved: bool,
    /// Type1, 1 bits
    pub simplex_duplex_selection: bool,
    /// Type1, 1 bits
    pub call_queued: bool,
    /// Type2, 8 bits
    pub basic_service_information: Option<u64>,
    /// Type2, 6 bits
    pub notification_indicator: Option<u64>,
    /// Type3
    pub facility: Option<Type3Element>,
    /// Type3
    pub proprietary: Option<Type3Element>,
}

impl DAlert {
    /// Whether any optional element is present, which decides the o-bit.
    pub open spec fn has_optionals(self) -> bool {
        self.basic_service_information is Some || self.notification_indicator is Some || self.facility is Some || self.proprietary is Some
    }

    /// Every field fits its wire width and every element carries its own tag.
    pub open spec fn wf(self) -> bool {
        &&& fits(self.call_identifier as u64, 14)
        &&& fits(self.call_time_out_set_up_phase as u64, 3)
        &&& (self.basic_service_information matches Some(v) ==> fits(v, 8))
        &&& (self.notification_indicator matches Some(v) ==> fits(v, 6))
        &&& (self.facility matches Some(e) ==> e.wf() && e.field_type == CmceType3ElemId::Facility.raw())
        &&& (self.proprietary matches Some(e) ==> e.wf() && e.field_type == CmceType3ElemId::Proprietary.raw())
    }

    /// What decoding yields from the bits at a cursor: the decoded PDU or
    /// the exact failure, together with the cursor position afterwards.
    pub open spec fn spec_parse(s: Seq<bool>, pos: nat) -> (Result<DAlert, PduParseError>, nat) {
        match read_res(s, pos, 5) {
            None => (Err::<DAlert, PduParseError>(PduParseError::BufferEnded { field: "pdu_type" }), pos),
            Some((p0, v0)) => {
                if v0 != CmcePduTypeDl::DAlert.raw() {
                    (Err::<DAlert, PduParseError>(PduParseError::InvalidPduType { expected: CmcePduTypeDl::DAlert.raw(), found: v0 }), p0)
                } else {
                    match read_res(s, p0, 14) {
                        None => (Err::<DAlert, PduParseError>(PduParseError::BufferEnded { field: "call_identifier" }), p0),
                        Some((p1, v1)) => {
                            let call_identifier = v1 as u16;
                            match read_res(s, p1, 3) {
                                None => (Err::<DAlert, PduParseError>(PduParseError::BufferEnded { field: "call_time_out_set_up_phase" }), p1),
                                Some((p2, v2)) => {
                                    let call_time_out_set_up_phase = v2 as u8;
                                    match read_res(s, p2, 1) {
                                        None => (Err::<DAlert, PduParseError>(PduParseError::BufferEnded { field: "reserved" }), p2),
                                        Some((p3, v3)) => {
                                            let reserved = v3 != 0;
                                            match read_res(s, p3, 1) {
                                                None => (Err::<DAlert, PduParseError>(PduParseError::BufferEnded { field: "simplex_duplex_selection" }), p3),
                                                Some((p4, v4)) => {
                                                    let simplex_duplex_selection = v4 != 0;
                                                    match read_res(s, p4, 1) {
                                                        None => (Err::<DAlert, PduParseError>(PduParseError::BufferEnded { field: "call_queued" }), p4),
                                                        Some((p5, v5)) => {
                                                            let call_queued = v5 != 0;
                                                            match read_res(s, p5, 1) {
                                                                None => (Err::<DAlert, PduParseError>(PduParseError::BufferEnded { field: "obit" }), p5),
                                                                Some((p6, v6)) => {
                                                                    let obit = v6 == 1;
                                                                    let step7: (Result<Option<u64>, PduParseError>, nat) = if obit {
                                                                        type2_res(s, p6, 8, "basic_service_information")
                                                                    } else {
                                                                        (Ok(None), p6)
                                                                    };
                                                                    match step7.0 {
                                                                        Err(e) => (Err::<DAlert, PduParseError>(e), step7.1),
                                                                        Ok(basic_service_information) => {
                                                                            let step8: (Result<Option<u64>, PduParseError>, nat) = if obit {
                                                                                type2_res(s, step7.1, 6, "notification_indicator")
                                                                            } else {
                                                                                (Ok(None), step7.1)
                                                                            };
                                                                            match step8.0 {
                                                                                Err(e) => (Err::<DAlert, PduParseError>(e), step8.1),
                                                                                Ok(notification_indicator) => {
                                                                                    let step9: (Result<Option<Type3Element>, PduParseError>, nat) = if obit {
                                                                                        let t: (Result<(usize, u64), Type34Err>, nat) = type3_res(s, step8.1, CmceType3ElemId::Facility.raw());
                                                                                        (
                                                                                            match t.0 {
                                                                                                Ok((l, d)) => Ok(Some(Type3Element { field_type: CmceType3ElemId::Facility.raw(), data: d, len: l })),
                                                                                                Err(Type34Err::FieldNotPresent) => Ok(None),
                                                                                                Err(_) => Err(PduParseError::BufferEnded { field: "facility" }),
                                                                                            },
                                                                                            t.1,
                                                                                        )
                                                                                    } else {
                                                                                        (Ok(None), step8.1)
                                                                                    };
                                                                                    match step9.0 {
                                                                                        Err(e) => (Err::<DAlert, PduParseError>(e), step9.1),
                                                                                        Ok(facility) => {
                                                                                            let step10: (Result<Option<Type3Element>, PduParseError>, nat) = if obit {
                                                                                                let t: (Result<(usize, u64), Type34Err>, nat) = type3_res(s, step9.1, CmceType3ElemId::Proprietary.raw());
                                                                                                (
                                                                                                    match t.0 {
                                                                                                        Ok((l, d)) => Ok(Some(Type3Element { field_type: CmceType3ElemId::Proprietary.raw(), data: d, len: l })),
                                                                                                        Err(Type34Err::FieldNotPresent) => Ok(None),
                                                                                                        Err(_) => Err(PduParseError::BufferEnded { field: "proprietary" }),
                                                                                                    },
                                                                                                    t.1,
                                                                                                )
                                                                                            } else {
                                                                                                (Ok(None), step9.1)
                                                                                            };
                                                                                            match step10.0 {
                                                                                                Err(e) => (Err::<DAlert, PduParseError>(e), step10.1),
                                                                                                Ok(proprietary) => {
                                                                                                    let tr: (Result<(), PduParseError>, nat) = trailing_res(s, step10.1, obit);
                                                                                                    match tr.0 {
                                                                                                        Err(e) => (Err::<DAlert, PduParseError>(e), tr.1),
                                                                                                        Ok(_) => (Ok::<DAlert, PduParseError>(DAlert { call_identifier, call_time_out_set_up_phase, reserved, simplex_duplex_selection, call_queued, basic_service_information, notification_indicator, facility, proprietary }), tr.1),
                                                                                                    }
                                                                                                },
                                                                                            }
                                                                                        },
                                                                                    }
                                                                                },
                                                                            }
                                                                        },
                                                                    }
                                                                },
                                                            }
                                                        },
                                                    }
                                                },
                                            }
                                        },
                                    }
                                },
                            }
                        },
                    }
                }
            },
        }
    }

    /// The PDU's wire image: the type code and the fixed part, then either
    /// a clear o-bit alone or a set o-bit followed by the optional part and
    /// the trailing m-bit.
    pub open spec fn enc(self) -> Seq<bool> {
        enc_field(CmcePduTypeDl::DAlert.raw(), 5) + enc_field(self.call_identifier as u64, 14) + enc_field(self.call_time_out_set_up_phase as u64, 3) + seq![self.reserved] + seq![self.simplex_duplex_selection] + seq![self.call_queued] + if self.has_optionals() {
            seq![true] + enc_type2(self.basic_service_information, 8) + enc_type2(self.notification_indicator, 6) + enc_opt_elem(self.facility) + enc_opt_elem(self.proprietary) + seq![false]
        } else {
            seq![false]
        }
    }

    /// Parse from BitBuffer.
    pub fn from_bitbuf(buffer: &mut BitBuffer) -> (r: Result<DAlert, PduParseError>)
        requires
            old(buffer).wf(),
        ensures
            final(buffer).wf(),
            final(buffer).bits() == old(buffer).bits(),
            final(buffer).writable() == old(buffer).writable(),
            old(buffer).cursor() <= final(buffer).cursor() <= old(buffer).bits().len(),
            r matches Ok(p) ==> p.wf(),
            ({
                let sp = DAlert::spec_parse(old(buffer).bits(), old(buffer).cursor());
                r == sp.0 && final(buffer).cursor() == sp.1
            }),
    {
        proof {
            lemma2_to64();
        }
        let pdu_type = buffer.read_field(5, "pdu_type")?;
        expect_pdu_type(pdu_type, CmcePduTypeDl::DAlert.into_raw())?;
        let call_identifier = buffer.read_field(14, "call_identifier")? as u16;
        let call_time_out_set_up_phase = buffer.read_field(3, "call_time_out_set_up_phase")? as u8;
        let reserved = buffer.read_field(1, "reserved")? != 0;
        let simplex_duplex_selection = buffer.read_field(1, "simplex_duplex_selection")? != 0;
        let call_queued = buffer.read_field(1, "call_queued")? != 0;

        // obit designates presence of any further type2, type3 or type4 fields
        let obit = delimiters::read_obit(buffer)?;
        let basic_service_information = if obit {
            type2::parse(buffer, 8, "basic_service_information")?
        } else {
            None
        };
        let notification_indicator = if obit {
            type2::parse(buffer, 6, "notification_indicator")?
        } else {
            None
        };
        let facility = if obit {
            Type3Element::parse_opt(buffer, CmceType3ElemId::Facility.into_raw(), "facility")?
        } else {
            None
        };
        let proprietary = if obit {
            Type3Element::parse_opt(buffer, CmceType3ElemId::Proprietary.into_raw(), "proprietary")?
        } else {
            None
        };

        // Reject a trailing mbit left set after the last recognized element
        delimiters::check_trailing(buffer, obit)?;

        Ok(DAlert {
            call_identifier,
            call_time_out_set_up_phase,
            reserved,
            simplex_duplex_selection,
            call_queued,
            basic_service_information,
            notification_indicator,
            facility,
            proprietary,
        })
    }

    /// Serialize this PDU into the given BitBuffer.
    #[verifier::rlimit(50)]
    pub fn to_bitbuf(&self, buffer: &mut BitBuffer) -> (r: Result<(), PduParseError>)
        requires
            old(buffer).wf(),
            old(buffer).writable(),
            self.wf(),
        ensures
            final(buffer).wf(),
            final(buffer).writable(),
            final(buffer).cursor() == old(buffer).cursor(),
            final(buffer).bits() == old(buffer).bits() + self.enc(),
            r is Ok,
    {
        broadcast use crate::bits::lemma_seq_add_assoc;
        broadcast use crate::bits::lemma_seq_add_empty_right;
        broadcast use crate::bits::lemma_seq_add_empty_left;

        proof {
            lemma2_to64();
        }
        buffer.write_bits(CmcePduTypeDl::DAlert.into_raw(), 5);
        buffer.write_bits(self.call_identifier as u64, 14);
        buffer.write_bits(self.call_time_out_set_up_phase as u64, 3);
        buffer.write_bit(
            if self.reserved {
                1
            } else {
                0
            },
        );
        buffer.write_bit(
            if self.simplex_duplex_selection {
                1
            } else {
                0
            },
        );
        buffer.write_bit(
            if self.call_queued {
                1
            } else {
                0
            },
        );

        // Check if any optional field present and place o-bit
        let obit_val = self.basic_service_information.is_some() || self.notification_indicator.is_some() || self.facility.is_some() || self.proprietary.is_some();
        delimiters::write_obit(
            buffer,
            if obit_val {
                1
            } else {
                0
            },
        );
        if !obit_val {
            return Ok(());
        }
        type2::write(buffer, self.basic_service_information, 8);
        type2::write(buffer, self.notification_indicator, 6);
        write_opt_elem(buffer, &self.facility);
        write_opt_elem(buffer, &self.proprietary);
        // Write terminating m-bit
        delimiters::write_mbit(buffer, 0);
        Ok(())
    }
}

} // verus!
