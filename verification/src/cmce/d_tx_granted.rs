//! The D-TX GRANTED PDU: the SwMI grants permission to transmit.

use vstd::prelude::*;
use vstd::arithmetic::power2::lemma2_to64;
use crate::bits::{enc_field, enc_opt_field, enc_type2, fits};
use crate::bitbuffer::{read_res, BitBuffer};
use crate::delimiters;
use crate::delimiters::trailing_res;
use crate::type2;
use crate::type2::type2_res;
use crate::type34::{enc_opt_elem, type3_res, write_opt_elem, Type34Err, Type3Element};
use crate::pdu_parse_error::{expect_pdu_type, PduParseError};
use crate::cmce::pdu_type::CmcePduTypeDl;
use crate::cmce::elem_id::CmceType3ElemId;

verus! {

#[derive(Debug)]
pub struct DTxGranted {
    /// Type1, 14 bits
    pub call_identifier: u16,
    /// Type1, 2 bits
    pub transmission_grant: u8,
    /// Type1, 1 bits
    pub transmission_request_permission: bool,
    /// Type1, 1 bits
    pub encryption_control: bool,
    /// Type1, 1 bits
    pub reserved: bool,
    /// Type2, 6 bits
    pub notification_indicator: Option<u64>,
    /// Type2, 2 bits
    pub transmitting_party_type_identifier: Option<u64>,
    /// Conditional, 24 bits
    pub transmitting_party_address_ssi: Option<u64>,
    /// Conditional, 24 bits
    pub transmitting_party_extension: Option<u64>,
    /// Type3
    pub external_subscriber_number: Option<Type3Element>,
    /// Type3
    pub facility: Option<Type3Element>,
    /// Type3
    pub dm_ms_address: Option<Type3Element>,
    /// Type3
    pub proprietary: Option<Type3Element>,
}

impl DTxGranted {
    /// Whether any optional element is present, which decides the o-bit.
    pub open spec fn has_optionals(self) -> bool {
        self.notification_indicator is Some || self.transmitting_party_type_identifier is Some || self.external_subscriber_number is Some || self.facility is Some || self.dm_ms_address is Some || self.proprietary is Some
    }

    /// Every field fits its wire width and every element carries its own tag.
    pub open spec fn wf(self) -> bool {
        &&& fits(self.call_identifier as u64, 14)
        &&& fits(self.transmission_grant as u64, 2)
        &&& (self.notification_indicator matches Some(v) ==> fits(v, 6))
        &&& (self.transmitting_party_type_identifier matches Some(v) ==> fits(v, 2))
        &&& (self.transmitting_party_address_ssi matches Some(v) ==> fits(v, 24))
        &&& (self.transmitting_party_extension matches Some(v) ==> fits(v, 24))
        &&& (self.external_subscriber_number matches Some(e) ==> e.wf() && e.field_type == CmceType3ElemId::ExternalSubscriberNumber.raw())
        &&& (self.facility matches Some(e) ==> e.wf() && e.field_type == CmceType3ElemId::Facility.raw())
        &&& (self.dm_ms_address matches Some(e) ==> e.wf() && e.field_type == CmceType3ElemId::DmMsAddress.raw())
        &&& (self.proprietary matches Some(e) ==> e.wf() && e.field_type == CmceType3ElemId::Proprietary.raw())
    }

    /// What decoding yields from the bits at a cursor: the decoded PDU or
    /// the exact failure, together with the cursor position afterwards.
    pub open spec fn spec_parse(s: Seq<bool>, pos: nat) -> (Result<DTxGranted, PduParseError>, nat) {
        match read_res(s, pos, 5) {
            None => (Err::<DTxGranted, PduParseError>(PduParseError::BufferEnded { field: "pdu_type" }), pos),
            Some((p0, v0)) => {
                if v0 != CmcePduTypeDl::DTxGranted.raw() {
                    (Err::<DTxGranted, PduParseError>(PduParseError::InvalidPduType { expected: CmcePduTypeDl::DTxGranted.raw(), found: v0 }), p0)
                } else {
                    match read_res(s, p0, 14) {
                        None => (Err::<DTxGranted, PduParseError>(PduParseError::BufferEnded { field: "call_identifier" }), p0),
                        Some((p1, v1)) => {
                            let call_identifier = v1 as u16;
                            match read_res(s, p1, 2) {
                                None => (Err::<DTxGranted, PduParseError>(PduParseError::BufferEnded { field: "transmission_grant" }), p1),
                                Some((p2, v2)) => {
                                    let transmission_grant = v2 as u8;
                                    match read_res(s, p2, 1) {
                                        None => (Err::<DTxGranted, PduParseError>(PduParseError::BufferEnded { field: "transmission_request_permission" }), p2),
                                        Some((p3, v3)) => {
                                            let transmission_request_permission = v3 != 0;
                                            match read_res(s, p3, 1) {
                                                None => (Err::<DTxGranted, PduParseError>(PduParseError::BufferEnded { field: "encryption_control" }), p3),
                                                Some((p4, v4)) => {
                                                    let encryption_control = v4 != 0;
                                                    match read_res(s, p4, 1) {
                                                        None => (Err::<DTxGranted, PduParseError>(PduParseError::BufferEnded { field: "reserved" }), p4),
                                                        Some((p5, v5)) => {
                                                            let reserved = v5 != 0;
                                                            match read_res(s, p5, 1) {
                                                                None => (Err::<DTxGranted, PduParseError>(PduParseError::BufferEnded { field: "obit" }), p5),
                                                                Some((p6, v6)) => {
                                                                    let obit = v6 == 1;
                                                                    let step7: (Result<Option<u64>, PduParseError>, nat) = if obit {
                                                                        type2_res(s, p6, 6, "notification_indicator")
                                                                    } else {
                                                                        (Ok(None), p6)
                                                                    };
                                                                    match step7.0 {
                                                                        Err(e) => (Err::<DTxGranted, PduParseError>(e), step7.1),
                                                                        Ok(notification_indicator) => {
                                                                            let step8: (Result<Option<u64>, PduParseError>, nat) = if obit {
                                                                                type2_res(s, step7.1, 2, "transmitting_party_type_identifier")
                                                                            } else {
                                                                                (Ok(None), step7.1)
                                                                            };
                                                                            match step8.0 {
                                                                                Err(e) => (Err::<DTxGranted, PduParseError>(e), step8.1),
                                                                                Ok(transmitting_party_type_identifier) => {
                                                                                    let present9: bool = match transmitting_party_type_identifier {
                                                                                        Some(x) => (obit && x == 1) || x == 2,
                                                                                        None => false,
                                                                                    };
                                                                                    let step9: (Result<Option<u64>, PduParseError>, nat) = if present9 {
                                                                                        match read_res(s, step8.1, 24) {
                                                                                            None => (Err(PduParseError::BufferEnded { field: "transmitting_party_address_ssi" }), step8.1),
                                                                                            Some((q, v)) => (Ok(Some(v)), q),
                                                                                        }
                                                                                    } else {
                                                                                        (Ok(None), step8.1)
                                                                                    };
                                                                                    match step9.0 {
                                                                                        Err(e) => (Err::<DTxGranted, PduParseError>(e), step9.1),
                                                                                        Ok(transmitting_party_address_ssi) => {
                                                                                            let present10: bool = match transmitting_party_type_identifier {
                                                                                                Some(x) => (obit && x == 2),
                                                                                                None => false,
                                                                                            };
                                                                                            let step10: (Result<Option<u64>, PduParseError>, nat) = if present10 {
                                                                                                match read_res(s, step9.1, 24) {
                                                                                                    None => (Err(PduParseError::BufferEnded { field: "transmitting_party_extension" }), step9.1),
                                                                                                    Some((q, v)) => (Ok(Some(v)), q),
                                                                                                }
                                                                                            } else {
                                                                                                (Ok(None), step9.1)
                                                                                            };
                                                                                            match step10.0 {
                                                                                                Err(e) => (Err::<DTxGranted, PduParseError>(e), step10.1),
                                                                                                Ok(transmitting_party_extension) => {
                                                                                                    let step11: (Result<Option<Type3Element>, PduParseError>, nat) = if obit {
                                                                                                        let t: (Result<(usize, u64), Type34Err>, nat) = type3_res(s, step10.1, CmceType3ElemId::ExternalSubscriberNumber.raw());
                                                                                                        (
                                                                                                            match t.0 {
                                                                                                                Ok((l, d)) => Ok(Some(Type3Element { field_type: CmceType3ElemId::ExternalSubscriberNumber.raw(), data: d, len: l })),
                                                                                                                Err(Type34Err::FieldNotPresent) => Ok(None),
                                                                                                                Err(_) => Err(PduParseError::BufferEnded { field: "external_subscriber_number" }),
                                                                                                            },
                                                                                                            t.1,
                                                                                                        )
                                                                                                    } else {
                                                                                                        (Ok(None), step10.1)
                                                                                                    };
                                                                                                    match step11.0 {
                                                                                                        Err(e) => (Err::<DTxGranted, PduParseError>(e), step11.1),
                                                                                                        Ok(external_subscriber_number) => {
                                                                                                            let step12: (Result<Option<Type3Element>, PduParseError>, nat) = if obit {
                                                                                                                let t: (Result<(usize, u64), Type34Err>, nat) = type3_res(s, step11.1, CmceType3ElemId::Facility.raw());
                                                                                                                (
                                                                                                                    match t.0 {
                                                                                                                        Ok((l, d)) => Ok(Some(Type3Element { field_type: CmceType3ElemId::Facility.raw(), data: d, len: l })),
                                                                                                                        Err(Type34Err::FieldNotPresent) => Ok(None),
                                                                                                                        Err(_) => Err(PduParseError::BufferEnded { field: "facility" }),
                                                                                                                    },
                                                                                                                    t.1,
                                                                                                                )
                                                                                                            } else {
                                                                                                                (Ok(None), step11.1)
                                                                                                            };
                                                                                                            match step12.0 {
                                                                                                                Err(e) => (Err::<DTxGranted, PduParseError>(e), step12.1),
                                                                                                                Ok(facility) => {
                                                                                                                    let step13: (Result<Option<Type3Element>, PduParseError>, nat) = if obit {
                                                                                                                        let t: (Result<(usize, u64), Type34Err>, nat) = type3_res(s, step12.1, CmceType3ElemId::DmMsAddress.raw());
                                                                                                                        (
                                                                                                                            match t.0 {
                                                                                                                                Ok((l, d)) => Ok(Some(Type3Element { field_type: CmceType3ElemId::DmMsAddress.raw(), data: d, len: l })),
                                                                                                                                Err(Type34Err::FieldNotPresent) => Ok(None),
                                                                                                                                Err(_) => Err(PduParseError::BufferEnded { field: "dm_ms_address" }),
                                                                                                                            },
                                                                                                                            t.1,
                                                                                                                        )
                                                                                                                    } else {
                                                                                                                        (Ok(None), step12.1)
                                                                                                                    };
                                                                                                                    match step13.0 {
                                                                                                                        Err(e) => (Err::<DTxGranted, PduParseError>(e), step13.1),
                                                                                                                        Ok(dm_ms_address) => {
                                                                                                                            let step14: (Result<Option<Type3Element>, PduParseError>, nat) = if obit {
                                                                                                                                let t: (Result<(usize, u64), Type34Err>, nat) = type3_res(s, step13.1, CmceType3ElemId::Proprietary.raw());
                                                                                                                                (
                                                                                                                                    match t.0 {
                                                                                                                                        Ok((l, d)) => Ok(Some(Type3Element { field_type: CmceType3ElemId::Proprietary.raw(), data: d, len: l })),
                                                                                                                                        Err(Type34Err::FieldNotPresent) => Ok(None),
                                                                                                                                        Err(_) => Err(PduParseError::BufferEnded { field: "proprietary" }),
                                                                                                                                    },
                                                                                                                                    t.1,
                                                                                                                                )
                                                                                                                            } else {
                                                                                                                                (Ok(None), step13.1)
                                                                                                                            };
                                                                                                                            match step14.0 {
                                                                                                                                Err(e) => (Err::<DTxGranted, PduParseError>(e), step14.1),
                                                                                                                                Ok(proprietary) => {
                                                                                                                                    let tr: (Result<(), PduParseError>, nat) = trailing_res(s, step14.1, obit);
                                                                                                                                    match tr.0 {
                                                                                                                                        Err(e) => (Err::<DTxGranted, PduParseError>(e), tr.1),
                                                                                                                                        Ok(_) => (Ok::<DTxGranted, PduParseError>(DTxGranted { call_identifier, transmission_grant, transmission_request_permission, encryption_control, reserved, notification_indicator, transmitting_party_type_identifier, transmitting_party_address_ssi, transmitting_party_extension, external_subscriber_number, facility, dm_ms_address, proprietary }), tr.1),
                                                                                                                                    }
                                                                                                                                },
                                                                                                                            }
                                                                                                                        },
                                                                                                                    }
                                                                                                                },
                                                                                                            }
                                                                                                        },
                                                                                                    }
                                                                                                },
                                                                                            }
                                                                                        },
                                                                                    }
                                                                                },
                                                                            }
                                                                        },
                                                                    }
                                                                },
                                                            }
                                                        },
                                                    }
                                                },
                                            }
                                        },
                                    }
                                },
                            }
                        },
                    }
                }
            },
        }
    }

    /// The PDU's wire image: the type code and the fixed part, then either
    /// a clear o-bit alone or a set o-bit followed by the optional part and
    /// the trailing m-bit.
    pub open spec fn enc(self) -> Seq<bool> {
        enc_field(CmcePduTypeDl::DTxGranted.raw(), 5) + enc_field(self.call_identifier as u64, 14) + enc_field(self.transmission_grant as u64, 2) + seq![self.transmission_request_permission] + seq![self.encryption_control] + seq![self.reserved] + if self.has_optionals() {
            seq![true] + enc_type2(self.notification_indicator, 6) + enc_type2(self.transmitting_party_type_identifier, 2) + enc_opt_field(self.transmitting_party_address_ssi, 24) + enc_opt_field(self.transmitting_party_extension, 24) + enc_opt_elem(self.external_subscriber_number) + enc_opt_elem(self.facility) + enc_opt_elem(self.dm_ms_address) + enc_opt_elem(self.proprietary) + seq![false]
        } else {
            seq![false]
        }
    }

    /// Parse from BitBuffer.
    pub fn from_bitbuf(buffer: &mut BitBuffer) -> (r: Result<DTxGranted, PduParseError>)
        requires
            old(buffer).wf(),
        ensures
            final(buffer).wf(),
            final(buffer).bits() == old(buffer).bits(),
            final(buffer).writable() == old(buffer).writable(),
            old(buffer).cursor() <= final(buffer).cursor() <= old(buffer).bits().len(),
            r matches Ok(p) ==> p.wf(),
            ({
                let sp = DTxGranted::spec_parse(old(buffer).bits(), old(buffer).cursor());
                r == sp.0 && final(buffer).cursor() == sp.1
            }),
    {
        proof {
            lemma2_to64();
        }
        let pdu_type = buffer.read_field(5, "pdu_type")?;
        expect_pdu_type(pdu_type, CmcePduTypeDl::DTxGranted.into_raw())?;
        let call_identifier = buffer.read_field(14, "call_identifier")? as u16;
        let transmission_grant = buffer.read_field(2, "transmission_grant")? as u8;
        let transmission_request_permission = buffer.read_field(1, "transmission_request_permission")? != 0;
        let encryption_control = buffer.read_field(1, "encryption_control")? != 0;
        let reserved = buffer.read_field(1, "reserved")? != 0;

        // obit designates presence of any further type2, type3 or type4 fields
        let obit = delimiters::read_obit(buffer)?;
        let notification_indicator = if obit {
            type2::parse(buffer, 6, "notification_indicator")?
        } else {
            None
        };
        let transmitting_party_type_identifier = if obit {
            type2::parse(buffer, 2, "transmitting_party_type_identifier")?
        } else {
            None
        };
        let transmitting_party_address_ssi_present = match transmitting_party_type_identifier {
            Some(x) => (obit && x == 1) || x == 2,
            None => false,
        };
        let transmitting_party_address_ssi = if transmitting_party_address_ssi_present {
            Some(buffer.read_field(24, "transmitting_party_address_ssi")?)
        } else {
            None
        };
        let transmitting_party_extension_present = match transmitting_party_type_identifier {
            Some(x) => (obit && x == 2),
            None => false,
        };
        let transmitting_party_extension = if transmitting_party_extension_present {
            Some(buffer.read_field(24, "transmitting_party_extension")?)
        } else {
            None
        };
        let external_subscriber_number = if obit {
            Type3Element::parse_opt(buffer, CmceType3ElemId::ExternalSubscriberNumber.into_raw(), "external_subscriber_number")?
        } else {
            None
        };
        let facility = if obit {
            Type3Element::parse_opt(buffer, CmceType3ElemId::Facility.into_raw(), "facility")?
        } else {
            None
        };
        let dm_ms_address = if obit {
            Type3Element::parse_opt(buffer, CmceType3ElemId::DmMsAddress.into_raw(), "dm_ms_address")?
        } else {
            None
        };
        let proprietary = if obit {
            Type3Element::parse_opt(buffer, CmceType3ElemId::Proprietary.into_raw(), "proprietary")?
        } else {
            None
        };

        // Reject a trailing mbit left set after the last recognized element
        delimiters::check_trailing(buffer, obit)?;

        Ok(DTxGranted {
            call_identifier,
            transmission_grant,
            transmission_request_permission,
            encryption_control,
            reserved,
            notification_indicator,
            transmitting_party_type_identifier,
            transmitting_party_address_ssi,
            transmitting_party_extension,
            external_subscriber_number,
            facility,
            dm_ms_address,
            proprietary,
        })
    }

    /// Serialize this PDU into the given BitBuffer.
    #[verifier::rlimit(50)]
    pub fn to_bitbuf(&self, buffer: &mut BitBuffer) -> (r: Result<(), PduParseError>)
        requires
            old(buffer).wf(),
            old(buffer).writable(),
            self.wf(),
        ensures
            final(buffer).wf(),
            final(buffer).writable(),
            final(buffer).cursor() == old(buffer).cursor(),
            final(buffer).bits() == old(buffer).bits() + self.enc(),
            r is Ok,
    {
        broadcast use crate::bits::lemma_seq_add_assoc;
        broadcast use crate::bits::lemma_seq_add_empty_right;
        broadcast use crate::bits::lemma_seq_add_empty_left;

        proof {
            lemma2_to64();
        }
        buffer.write_bits(CmcePduTypeDl::DTxGranted.into_raw(), 5);
        buffer.write_bits(self.call_identifier as u64, 14);
        buffer.write_bits(self.transmission_grant as u64, 2);
        buffer.write_bit(
            if self.transmission_request_permission {
                1
            } else {
                0
            },
        );
        buffer.write_bit(
            if self.encryption_control {
                1
            } else {
                0
            },
        );
        buffer.write_bit(
            if self.reserved {
                1
            } else {
                0
            },
        );

        // Check if any optional field present and place o-bit
        let obit_val = self.notification_indicator.is_some() || self.transmitting_party_type_identifier.is_some() || self.external_subscriber_number.is_some() || self.facility.is_some() || self.dm_ms_address.is_some() || self.proprietary.is_some();
        delimiters::write_obit(
            buffer,
            if obit_val {
                1
            } else {
                0
            },
        );
        if !obit_val {
            return Ok(());
        }
        type2::write(buffer, self.notification_indicator, 6);
        type2::write(buffer, self.transmitting_party_type_identifier, 2);
        buffer.write_opt_bits(self.transmitting_party_address_ssi, 24);
        buffer.write_opt_bits(self.transmitting_party_extension, 24);
        write_opt_elem(buffer, &self.external_subscriber_number);
        write_opt_elem(buffer, &self.facility);
        write_opt_elem(buffer, &self.dm_ms_address);
        write_opt_elem(buffer, &self.proprietary);
        // Write terminating m-bit
        delimiters::write_mbit(buffer, 0);
        Ok(())
    }
}

} // verus!
