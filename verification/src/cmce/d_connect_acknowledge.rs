//! The D-CONNECT ACKNOWLEDGE PDU: the SwMI confirms the connect of the called MS.

use vstd::prelude::*;
use vstd::arithmetic::power2::lemma2_to64;
use crate::bits::{enc_field, enc_type2, fits};
use crate::bitbuffer::{read_res, BitBuffer};
use crate::delimiters;
use crate::delimiters::trailing_res;
use crate::type2;
use crate::type2::type2_res;
use crate::type34::{enc_opt_elem, type3_res, write_opt_elem, Type34Err, Type3Element};
use crate::pdu_parse_error::{expect_pdu_type, PduParseError};
use crate::cmce::pdu_type::CmcePduTypeDl;
use crate::cmce::elem_id::CmceType3ElemId;

verus! {

#[derive(Debug)]
pub struct DConnectAcknowledge {
    /// Type1, 14 bits
    pub call_identifier: u16,
    /// Type1, 4 bits
    pub call_time_out: u8,
    /// Type1, 2 bits
    pub transmission_grant: u8,
    /// Type1, 1 bits
    pub transmission_request_permission: bool,
    /// Type2, 6 bits
    pub notification_indicator: Option<u64>,
    /// Type3
    pub facility: Option<Type3Element>,
    /// Type3
    pub proprietary: Option<Type3Element>,
}

impl DConnectAcknowledge {
    /// Whether any optional element is present, which decides the o-bit.
    pub open spec fn has_optionals(self) -> bool {
        self.notification_indicator is Some || self.facility is Some || self.proprietary is Some
    }

    /// Every field fits its wire width and every element carries its own tag.
    pub open spec fn wf(self) -> bool {
        &&& fits(self.call_identifier as u64, 14)
        &&& fits(self.call_time_out as u64, 4)
        &&& fits(self.transmission_grant as u64, 2)
        &&& (self.notification_indicator matches Some(v) ==> fits(v, 6))
        &&& (self.facility matches Some(e) ==> e.wf() && e.field_type == CmceType3ElemId::Facility.raw())
        &&& (self.proprietary matches Some(e) ==> e.wf() && e.field_type == CmceType3ElemId::Proprietary.raw())
    }

    /// What decoding yields from the bits at a cursor: the decoded PDU or
    /// the exact failure, together with the cursor position afterwards.
    pub open spec fn spec_parse(s: Seq<bool>, pos: nat) -> (Result<DConnectAcknowledge, PduParseError>, nat) {
        match read_res(s, pos, 5) {
            None => (Err::<DConnectAcknowledge, PduParseError>(PduParseError::BufferEnded { field: "pdu_type" }), pos),
            Some((p0, v0)) => {
                if v0 != CmcePduTypeDl::DConnectAcknowledge.raw() {
                    (Err::<DConnectAcknowledge, PduParseError>(PduParseError::InvalidPduType { expected: CmcePduTypeDl::DConnectAcknowledge.raw(), found: v0 }), p0)
                } else {
                    match read_res(s, p0, 14) {
                        None => (Err::<DConnectAcknowledge, PduParseError>(PduParseError::BufferEnded { field: "call_identifier" }), p0),
                        Some((p1, v1)) => {
                            let call_identifier = v1 as u16;
                            match read_res(s, p1, 4) {
                                None => (Err::<DConnectAcknowledge, PduParseError>(PduParseError::BufferEnded { field: "call_time_out" }), p1),
                                Some((p2, v2)) => {
                                    let call_time_out = v2 as u8;
                                    match read_res(s, p2, 2) {
                                        None => (Err::<DConnectAcknowledge, PduParseError>(PduParseError::BufferEnded { field: "transmission_grant" }), p2),
                                        Some((p3, v3)) => {
                                            let transmission_grant = v3 as u8;
                                            match read_res(s, p3, 1) {
                                                None => (Err::<DConnectAcknowledge, PduParseError>(PduParseError::BufferEnded { field: "transmission_request_permission" }), p3),
                                                Some((p4, v4)) => {
                                                    let transmission_request_permission = v4 != 0;
                                                    match read_res(s, p4, 1) {
                                                        None => (Err::<DConnectAcknowledge, PduParseError>(PduParseError::BufferEnded { field: "obit" }), p4),
                                                        Some((p5, v5)) => {
                                                            let obit = v5 == 1;
                                                            let step6: (Result<Option<u64>, PduParseError>, nat) = if obit {
                                                                type2_res(s, p5, 6, "notification_indicator")
                                                            } else {
                                                                (Ok(None), p5)
                                                            };
                                                            match step6.0 {
                                                                Err(e) => (Err::<DConnectAcknowledge, PduParseError>(e), step6.1),
                                                                Ok(notification_indicator) => {
                                                                    let step7: (Result<Option<Type3Element>, PduParseError>, nat) = if obit {
                                                                        let t: (Result<(usize, u64), Type34Err>, nat) = type3_res(s, step6.1, CmceType3ElemId::Facility.raw());
                                                                        (
                                                                            match t.0 {
                                                                                Ok((l, d)) => Ok(Some(Type3Element { field_type: CmceType3ElemId::Facility.raw(), data: d, len: l })),
                                                                                Err(Type34Err::FieldNotPresent) => Ok(None),
                                                                                Err(_) => Err(PduParseError::BufferEnded { field: "facility" }),
                                                                            },
                                                                            t.1,
                                                                        )
                                                                    } else {
                                                                        (Ok(None), step6.1)
                                                                    };
                                                                    match step7.0 {
                                                                        Err(e) => (Err::<DConnectAcknowledge, PduParseError>(e), step7.1),
                                                                        Ok(facility) => {
                                                                            let step8: (Result<Option<Type3Element>, PduParseError>, nat) = if obit {
                                                                                let t: (Result<(usize, u64), Type34Err>, nat) = type3_res(s, step7.1, CmceType3ElemId::Proprietary.raw());
                                                                                (
                                                                                    match t.0 {
                                                                                        Ok((l, d)) => Ok(Some(Type3Element { field_type: CmceType3ElemId::Proprietary.raw(), data: d, len: l })),
                                                                                        Err(Type34Err::FieldNotPresent) => Ok(None),
                                                                                        Err(_) => Err(PduParseError::BufferEnded { field: "proprietary" }),
                                                                                    },
                                                                                    t.1,
                                                                                )
                                                                            } else {
                                                                                (Ok(None), step7.1)
                                                                            };
                                                                            match step8.0 {
                                                                                Err(e) => (Err::<DConnectAcknowledge, PduParseError>(e), step8.1),
                                                                                Ok(proprietary) => {
                                                                                    let tr: (Result<(), PduParseError>, nat) = trailing_res(s, step8.1, obit);
                                                                                    match tr.0 {
                                                                                        Err(e) => (Err::<DConnectAcknowledge, PduParseError>(e), tr.1),
                                                                                        Ok(_) => (Ok::<DConnectAcknowledge, PduParseError>(DConnectAcknowledge { call_identifier, call_time_out, transmission_grant, transmission_request_permission, notification_indicator, facility, proprietary }), tr.1),
                                                                                    }
                                                                                },
                                                                            }
                                                                        },
                                                                    }
                                                                },
                                                            }
                                                        },
                                                    }
                                                },
                                            }
                                        },
                                    }
                                },
                            }
                        },
                    }
                }
            },
        }
    }

    /// The PDU's wire image: the type code and the fixed part, then either
    /// a clear o-bit alone or a set o-bit followed by the optional part and
    /// the trailing m-bit.
    pub open spec fn enc(self) -> Seq<bool> {
        enc_field(CmcePduTypeDl::DConnectAcknowledge.raw(), 5) + enc_field(self.call_identifier as u64, 14) + enc_field(self.call_time_out as u64, 4) + enc_field(self.transmission_grant as u64, 2) + seq![self.transmission_request_permission] + if self.has_optionals() {
            seq![true] + enc_type2(self.notification_indicator, 6) + enc_opt_elem(self.facility) + enc_opt_elem(self.proprietary) + seq![false]
        } else {
            seq![false]
        }
    }

    /// Parse from BitBuffer.
    pub fn from_bitbuf(buffer: &mut BitBuffer) -> (r: Result<DConnectAcknowledge, PduParseError>)
        requires
            old(buffer).wf(),
        ensures
            final(buffer).wf(),
            final(buffer).bits() == old(buffer).bits(),
            final(buffer).writable() == old(buffer).writable(),
            old(buffer).cursor() <= final(buffer).cursor() <= old(buffer).bits().len(),
            r matches Ok(p) ==> p.wf(),
            ({
                let sp = DConnectAcknowledge::spec_parse(old(buffer).bits(), old(buffer).cursor());
                r == sp.0 && final(buffer).cursor() == sp.1
            }),
    {
        proof {
            lemma2_to64();
        }
        let pdu_type = buffer.read_field(5, "pdu_type")?;
        expect_pdu_type(pdu_type, CmcePduTypeDl::DConnectAcknowledge.into_raw())?;
        let call_identifier = buffer.read_field(14, "call_identifier")? as u16;
        let call_time_out = buffer.read_field(4, "call_time_out")? as u8;
        let transmission_grant = buffer.read_field(2, "transmission_grant")? as u8;
        let transmission_request_permission = buffer.read_field(1, "transmission_request_permission")? != 0;

        // obit designates presence of any further type2, type3 or type4 fields
        let obit = delimiters::read_obit(buffer)?;
        let notification_indicator = if obit {
            type2::parse(buffer, 6, "notification_indicator")?
        } else {
            None
        };
        let facility = if obit {
            Type3Element::parse_opt(buffer, CmceType3ElemId::Facility.into_raw(), "facility")?
        } else {
            None
        };
        let proprietary = if obit {
            Type3Element::parse_opt(buffer, CmceType3ElemId::Proprietary.into_raw(), "proprietary")?
        } else {
            None
        };

        // Reject a trailing mbit left set after the last recognized element
        delimiters::check_trailing(buffer, obit)?;

        Ok(DConnectAcknowledge {
            call_identifier,
            call_time_out,
            transmission_grant,
            transmission_request_permission,
            notification_indicator,
            facility,
            proprietary,
        })
    }

    /// Serialize this PDU into the given BitBuffer.
    #[verifier::rlimit(50)]
    pub fn to_bitbuf(&self, buffer: &mut BitBuffer) -> (r: Result<(), PduParseError>)
        requires
            old(buffer).wf(),
            old(buffer).writable(),
            self.wf(),
        ensures
            final(buffer).wf(),
            final(buffer).writable(),
            final(buffer).cursor() == old(buffer).cursor(),
            final(buffer).bits() == old(buffer).bits() + self.enc(),
            r is Ok,
    {
        broadcast use crate::bits::lemma_seq_add_assoc;
        broadcast use crate::bits::lemma_seq_add_empty_right;
        broadcast use crate::bits::lemma_seq_add_empty_left;

        proof {
            lemma2_to64();
        }
        buffer.write_bits(CmcePduTypeDl::DConnectAcknowledge.into_raw(), 5);
        buffer.write_bits(self.call_identifier as u64, 14);
        buffer.write_bits(self.call_time_out as u64, 4);
        buffer.write_bits(self.transmission_grant as u64, 2);
        buffer.write_bit(
            if self.transmission_request_permission {
                1
            } else {
                0
            },
        );

        // Check if any optional field present and place o-bit
        let obit_val = self.notification_indicator.is_some() || self.facility.is_some() || self.proprietary.is_some();
        delimiters::write_obit(
            buffer,
            if obit_val {
                1
            } else {
                0
            },
        );
        if !obit_val {
            return Ok(());
        }
        type2::write(buffer, self.notification_indicator, 6);
        write_opt_elem(buffer, &self.facility);
        write_opt_elem(buffer, &self.proprietary);
        // Write terminating m-bit
        delimiters::write_mbit(buffer, 0);
        Ok(())
    }
}

} // verus!
