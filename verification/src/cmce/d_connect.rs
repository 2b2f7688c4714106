//! The D-CONNECT PDU: the SwMI tells the calling MS that the call is through-connected.

use vstd::prelude::*;
use vstd::arithmetic::power2::lemma2_to64;
use crate::bits::{enc_field, enc_type2, fits};
use crate::bitbuffer::{read_res, BitBuffer};
use crate::delimiters;
use crate::delimiters::trailing_res;
use crate::type2;
use crate::type2::type2_res;
use crate::type34::{enc_opt_elem, type3_res, write_opt_elem, Type34Err, Type3Element};
use crate::pdu_parse_error::{expect_pdu_type, PduParseError};
use crate::cmce::pdu_type::CmcePduTypeDl;
use crate::cmce::elem_id::CmceType3ElemId;

verus! {

#[derive(Debug)]
pub struct DConnect {
    /// Type1, 14 bits
    pub call_identifier: u16,
    /// Type1, 4 bits
    pub call_time_out: u8,
    /// Type1, 1 bits
    pub hook_method_selection: bool,
    /// Type1, 1 bits
    pub simplex_duplex_selection: bool,
    /// Type1, 2 bits
    pub transmission_grant: u8,
    /// Type1, 1 bits
    pub transmission_request_permission: bool,
    /// Type1, 1 bits
    pub call_ownership: bool,
    /// Type2, 4 bits
    pub call_priority: Option<u64>,
    /// Type2, 8 bits
    pub basic_service_information: Option<u64>,
    /// Type2, 24 bits
    pub temporary_address: Option<u64>,
    /// Type2, 6 bits
    pub notification_indicator: Option<u64>,
    /// Type3
    pub facility: Option<Type3Element>,
    /// Type3
    pub proprietary: Option<Type3Element>,
}

impl DConnect {
    /// Whether any optional element is present, which decides the o-bit.
    pub open spec fn has_optionals(self) -> bool {
        self.call_priority is Some || self.basic_service_information is Some || self.temporary_address is Some || self.notification_indicator is Some || self.facility is Some || self.proprietary is Some
    }

    /// Every field fits its wire width and every element carries its own tag.
    pub open spec fn wf(self) -> bool {
        &&& fits(self.call_identifier as u64, 14)
        &&& fits(self.call_time_out as u64, 4)
        &&& fits(self.transmission_grant as u64, 2)
        &&& (self.call_priority matches Some(v) ==> fits(v, 4))
        &&& (self.basic_service_information matches Some(v) ==> fits(v, 8))
        &&& (self.temporary_address matches Some(v) ==> fits(v, 24))
        &&& (self.notification_indicator matches Some(v) ==> fits(v, 6))
        &&& (self.facility matches Some(e) ==> e.wf() && e.field_type == CmceType3ElemId::Facility.raw())
        &&& (self.proprietary matches Some(e) ==> e.wf() && e.field_type == CmceType3ElemId::Proprietary.raw())
    }

    /// What decoding yields from the bits at a cursor: the decoded PDU or
    /// the exact failure, together with the cursor position afterwards.
    pub open spec fn spec_parse(s: Seq<bool>, pos: nat) -> (Result<DConnect, PduParseError>, nat) {
        match read_res(s, pos, 5) {
            None => (Err::<DConnect, PduParseError>(PduParseError::BufferEnded { field: "pdu_type" }), pos),
            Some((p0, v0)) => {
                if v0 != CmcePduTypeDl::DConnect.raw() {
                    (Err::<DConnect, PduParseError>(PduParseError::InvalidPduType { expected: CmcePduTypeDl::DConnect.raw(), found: v0 }), p0)
                } else {
                    match read_res(s, p0, 14) {
                        None => (Err::<DConnect, PduParseError>(PduParseError::BufferEnded { field: "call_identifier" }), p0),
                        Some((p1, v1)) => {
                            let call_identifier = v1 as u16;
                            match read_res(s, p1, 4) {
                                None => (Err::<DConnect, PduParseError>(PduParseError::BufferEnded { field: "call_time_out" }), p1),
                                Some((p2, v2)) => {
                                    let call_time_out = v2 as u8;
                                    match read_res(s, p2, 1) {
                                        None => (Err::<DConnect, PduParseError>(PduParseError::BufferEnded { field: "hook_method_selection" }), p2),
                                        Some((p3, v3)) => {
                                            let hook_method_selection = v3 != 0;
                                            match read_res(s, p3, 1) {
                                                None => (Err::<DConnect, PduParseError>(PduParseError::BufferEnded { field: "simplex_duplex_selection" }), p3),
                                                Some((p4, v4)) => {
                                                    let simplex_duplex_selection = v4 != 0;
                                                    match read_res(s, p4, 2) {
                                                        None => (Err::<DConnect, PduParseError>(PduParseError::BufferEnded { field: "transmission_grant" }), p4),
                                                        Some((p5, v5)) => {
                                                            let transmission_grant = v5 as u8;
                                                            match read_res(s, p5, 1) {
                                                                None => (Err::<DConnect, PduParseError>(PduParseError::BufferEnded { field: "transmission_request_permission" }), p5),
                                                                Some((p6, v6)) => {
                                                                    let transmission_request_permission = v6 != 0;
                                                                    match read_res(s, p6, 1) {
                                                                        None => (Err::<DConnect, PduParseError>(PduParseError::BufferEnded { field: "call_ownership" }), p6),
                                                                        Some((p7, v7)) => {
                                                                            let call_ownership = v7 != 0;
                                                                            match read_res(s, p7, 1) {
                                                                                None => (Err::<DConnect, PduParseError>(PduParseError::BufferEnded { field: "obit" }), p7),
                                                                                Some((p8, v8)) => {
                                                                                    let obit = v8 == 1;
                                                                                    let step9: (Result<Option<u64>, PduParseError>, nat) = if obit {
                                                                                        type2_res(s, p8, 4, "call_priority")
                                                                                    } else {
                                                                                        (Ok(None), p8)
                                                                                    };
                                                                                    match step9.0 {
                                                                                        Err(e) => (Err::<DConnect, PduParseError>(e), step9.1),
                                                                                        Ok(call_priority) => {
                                                                                            let step10: (Result<Option<u64>, PduParseError>, nat) = if obit {
                                                                                                type2_res(s, step9.1, 8, "basic_service_information")
                                                                                            } else {
                                                                                                (Ok(None), step9.1)
                                                                                            };
                                                                                            match step10.0 {
                                                                                                Err(e) => (Err::<DConnect, PduParseError>(e), step10.1),
                                                                                                Ok(basic_service_information) => {
                                                                                                    let step11: (Result<Option<u64>, PduParseError>, nat) = if obit {
                                                                                                        type2_res(s, step10.1, 24, "temporary_address")
                                                                                                    } else {
                                                                                                        (Ok(None), step10.1)
                                                                                                    };
                                                                                                    match step11.0 {
                                                                                                        Err(e) => (Err::<DConnect, PduParseError>(e), step11.1),
                                                                                                        Ok(temporary_address) => {
                                                                                                            let step12: (Result<Option<u64>, PduParseError>, nat) = if obit {
                                                                                                                type2_res(s, step11.1, 6, "notification_indicator")
                                                                                                            } else {
                                                                                                                (Ok(None), step11.1)
                                                                                                            };
                                                                                                            match step12.0 {
                                                                                                                Err(e) => (Err::<DConnect, PduParseError>(e), step12.1),
                                                                                                                Ok(notification_indicator) => {
                                                                                                                    let step13: (Result<Option<Type3Element>, PduParseError>, nat) = if obit {
                                                                                                                        let t: (Result<(usize, u64), Type34Err>, nat) = type3_res(s, step12.1, CmceType3ElemId::Facility.raw());
                                                                                                                        (
                                                                                                                            match t.0 {
                                                                                                                                Ok((l, d)) => Ok(Some(Type3Element { field_type: CmceType3ElemId::Facility.raw(), data: d, len: l })),
                                                                                                                                Err(Type34Err::FieldNotPresent) => Ok(None),
                                                                                                                                Err(_) => Err(PduParseError::BufferEnded { field: "facility" }),
                                                                                                                            },
                                                                                                                            t.1,
                                                                                                                        )
                                                                                                                    } else {
                                                                                                                        (Ok(None), step12.1)
                                                                                                                    };
                                                                                                                    match step13.0 {
                                                                                                                        Err(e) => (Err::<DConnect, PduParseError>(e), step13.1),
                                                                                                                        Ok(facility) => {
                                                                                                                            let step14: (Result<Option<Type3Element>, PduParseError>, nat) = if obit {
                                                                                                                                let t: (Result<(usize, u64), Type34Err>, nat) = type3_res(s, step13.1, CmceType3ElemId::Proprietary.raw());
                                                                                                                                (
                                                                                                                                    match t.0 {
                                                                                                                                        Ok((l, d)) => Ok(Some(Type3Element { field_type: CmceType3ElemId::Proprietary.raw(), data: d, len: l })),
                                                                                                                                        Err(Type34Err::FieldNotPresent) => Ok(None),
                                                                                                                                        Err(_) => Err(PduParseError::BufferEnded { field: "proprietary" }),
                                                                                                                                    },
                                                                                                                                    t.1,
                                                                                                                                )
                                                                                                                            } else {
                                                                                                                                (Ok(None), step13.1)
                                                                                                                            };
                                                                                                                            match step14.0 {
                                                                                                                                Err(e) => (Err::<DConnect, PduParseError>(e), step14.1),
                                                                                                                                Ok(proprietary) => {
                                                                                                                                    let tr: (Result<(), PduParseError>, nat) = trailing_res(s, step14.1, obit);
                                                                                                                                    match tr.0 {
                                                                                                                                        Err(e) => (Err::<DConnect, PduParseError>(e), tr.1),
                                                                                                                                        Ok(_) => (Ok::<DConnect, PduParseError>(DConnect { call_identifier, call_time_out, hook_method_selection, simplex_duplex_selection, transmission_grant, transmission_request_permission, call_ownership, call_priority, basic_service_information, temporary_address, notification_indicator, facility, proprietary }), tr.1),
                                                                                                                                    }
                                                                                                                                },
                                                                                                                            }
                                                                                                                        },
                                                                                                                    }
                                                                                                                },
                                                                                                            }
                                                                                                        },
                                                                                                    }
                                                                                                },
                                                                                            }
                                                                                        },
                                                                                    }
                                                                                },
                                                                            }
                                                                        },
                                                                    }
                                                                },
                                                            }
                                                        },
                                                    }
                                                },
                                            }
                                        },
                                    }
                                },
                            }
                        },
                    }
                }
            },
        }
    }

    /// The PDU's wire image: the type code and the fixed part, then either
    /// a clear o-bit alone or a set o-bit followed by the optional part and
    /// the trailing m-bit.
    pub open spec fn enc(self) -> Seq<bool> {
        enc_field(CmcePduTypeDl::DConnect.raw(), 5) + enc_field(self.call_identifier as u64, 14) + enc_field(self.call_time_out as u64, 4) + seq![self.hook_method_selection] + seq![self.simplex_duplex_selection] + enc_field(self.transmission_grant as u64, 2) + seq![self.transmission_request_permission] + seq![self.call_ownership] + if self.has_optionals() {
            seq![true] + enc_type2(self.call_priority, 4) + enc_type2(self.basic_service_information, 8) + enc_type2(self.temporary_address, 24) + enc_type2(self.notification_indicator, 6) + enc_opt_elem(self.facility) + enc_opt_elem(self.proprietary) + seq![false]
        } else {
            seq![false]
        }
    }

    /// Parse from BitBuffer.
    pub fn from_bitbuf(buffer: &mut BitBuffer) -> (r: Result<DConnect, PduParseError>)
        requires
            old(buffer).wf(),
        ensures
            final(buffer).wf(),
            final(buffer).bits() == old(buffer).bits(),
            final(buffer).writable() == old(buffer).writable(),
            old(buffer).cursor() <= final(buffer).cursor() <= old(buffer).bits().len(),
            r matches Ok(p) ==> p.wf(),
            ({
                let sp = DConnect::spec_parse(old(buffer).bits(), old(buffer).cursor());
                r == sp.0 && final(buffer).cursor() == sp.1
            }),
    {
        proof {
            lemma2_to64();
        }
        let pdu_type = buffer.read_field(5, "pdu_type")?;
        expect_pdu_type(pdu_type, CmcePduTypeDl::DConnect.into_raw())?;
        let call_identifier = buffer.read_field(14, "call_identifier")? as u16;
        let call_time_out = buffer.read_field(4, "call_time_out")? as u8;
        let hook_method_selection = buffer.read_field(1, "hook_method_selection")? != 0;
        let simplex_duplex_selection = buffer.read_field(1, "simplex_duplex_selection")? != 0;
        let transmission_grant = buffer.read_field(2, "transmission_grant")? as u8;
        let transmission_request_permission = buffer.read_field(1, "transmission_request_permission")? != 0;
        let call_ownership = buffer.read_field(1, "call_ownership")? != 0;

        // obit designates presence of any further type2, type3 or type4 fields
        let obit = delimiters::read_obit(buffer)?;
        let call_priority = if obit {
            type2::parse(buffer, 4, "call_priority")?
        } else {
            None
        };
        let basic_service_information = if obit {
            type2::parse(buffer, 8, "basic_service_information")?
        } else {
            None
        };
        let temporary_address = if obit {
            type2::parse(buffer, 24, "temporary_address")?
        } else {
            None
        };
        let notification_indicator = if obit {
            type2::parse(buffer, 6, "notification_indicator")?
        } else {
            None
        };
        let facility = if obit {
            Type3Element::parse_opt(buffer, CmceType3ElemId::Facility.into_raw(), "facility")?
        } else {
            None
        };
        let proprietary = if obit {
            Type3Element::parse_opt(buffer, CmceType3ElemId::Proprietary.into_raw(), "proprietary")?
        } else {
            None
        };

        // Reject a trailing mbit left set after the last recognized element
        delimiters::check_trailing(buffer, obit)?;

        Ok(DConnect {
            call_identifier,
            call_time_out,
            hook_method_selection,
            simplex_duplex_selection,
            transmission_grant,
            transmission_request_permission,
            call_ownership,
            call_priority,
            basic_service_information,
            temporary_address,
            notification_indicator,
            facility,
            proprietary,
        })
    }

    /// Serialize this PDU into the given BitBuffer.
    #[verifier::rlimit(50)]
    pub fn to_bitbuf(&self, buffer: &mut BitBuffer) -> (r: Result<(), PduParseError>)
        requires
            old(buffer).wf(),
            old(buffer).writable(),
            self.wf(),
        ensures
            final(buffer).wf(),
            final(buffer).writable(),
            final(buffer).cursor() == old(buffer).cursor(),
            final(buffer).bits() == old(buffer).bits() + self.enc(),
            r is Ok,
    {
        broadcast use crate::bits::lemma_seq_add_assoc;
        broadcast use crate::bits::lemma_seq_add_empty_right;
        broadcast use crate::bits::lemma_seq_add_empty_left;

        proof {
            lemma2_to64();
        }
        buffer.write_bits(CmcePduTypeDl::DConnect.into_raw(), 5);
        buffer.write_bits(self.call_identifier as u64, 14);
        buffer.write_bits(self.call_time_out as u64, 4);
        buffer.write_bit(
            if self.hook_method_selection {
                1
            } else {
                0
            },
        );
        buffer.write_bit(
            if self.simplex_duplex_selection {
                1
            } else {
                0
            },
        );
        buffer.write_bits(self.transmission_grant as u64, 2);
        buffer.write_bit(
            if self.transmission_request_permission {
                1
            } else {
                0
            },
        );
        buffer.write_bit(
            if self.call_ownership {
                1
            } else {
                0
            },
        );

        // Check if any optional field present and place o-bit
        let obit_val = self.call_priority.is_some() || self.basic_service_information.is_some() || self.temporary_address.is_some() || self.notification_indicator.is_some() || self.facility.is_some() || self.proprietary.is_some();
        delimiters::write_obit(
            buffer,
            if obit_val {
                1
            } else {
                0
            },
        );
        if !obit_val {
            return Ok(());
        }
        type2::write(buffer, self.call_priority, 4);
        type2::write(buffer, self.basic_service_information, 8);
        type2::write(buffer, self.temporary_address, 24);
        type2::write(buffer, self.notification_indicator, 6);
        write_opt_elem(buffer, &self.facility);
        write_opt_elem(buffer, &self.proprietary);
        // Write terminating m-bit
        delimiters::write_mbit(buffer, 0);
        Ok(())
    }
}

} // verus!
