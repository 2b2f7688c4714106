//! The U-CALL-RESTORE PDU: the MS asks the SwMI to restore a call after cell re-selection.

use vstd::prelude::*;
use vstd::arithmetic::power2::lemma2_to64;
use crate::bits::{enc_field, enc_opt_field, enc_type2, fits};
use crate::bitbuffer::{read_res, BitBuffer};
use crate::delimiters;
use crate::delimiters::trailing_res;
use crate::type2;
use crate::type2::type2_res;
use crate::type34::{enc_opt_elem, type3_res, write_opt_elem, Type34Err, Type3Element};
use crate::pdu_parse_error::{expect_pdu_type, PduParseError};
use crate::cmce::pdu_type::CmcePduTypeUl;
use crate::cmce::elem_id::CmceType3ElemId;

verus! {

#[derive(Debug)]
pub struct UCallRestore {
    /// Type1, 14 bits
    pub call_identifier: u16,
    /// Type1, 1 bits
    pub request_to_transmit_send_data: bool,
    /// Type1, 2 bits
    pub other_party_type_identifier: u8,
    /// Conditional, 8 bits
    pub other_party_short_number_address: Option<u64>,
    /// Conditional, 24 bits
    pub other_party_ssi: Option<u64>,
    /// Conditional, 24 bits
    pub other_party_extension: Option<u64>,
    /// Type2, 8 bits
    pub basic_service_information: Option<u64>,
    /// Type3
    pub facility: Option<Type3Element>,
    /// Type3
    pub dm_ms_address: Option<Type3Element>,
    /// Type3
    pub proprietary: Option<Type3Element>,
}

impl UCallRestore {
    /// Whether any optional element is present, which decides the o-bit.
    pub open spec fn has_optionals(self) -> bool {
        self.basic_service_information is Some || self.facility is Some || self.dm_ms_address is Some || self.proprietary is Some
    }

    /// Every field fits its wire width and every element carries its own tag.
    pub open spec fn wf(self) -> bool {
        &&& fits(self.call_identifier as u64, 14)
        &&& fits(self.other_party_type_identifier as u64, 2)
        &&& (self.other_party_short_number_address matches Some(v) ==> fits(v, 8))
        &&& (self.other_party_ssi matches Some(v) ==> fits(v, 24))
        &&& (self.other_party_extension matches Some(v) ==> fits(v, 24))
        &&& (self.basic_service_information matches Some(v) ==> fits(v, 8))
        &&& (self.facility matches Some(e) ==> e.wf() && e.field_type == CmceType3ElemId::Facility.raw())
        &&& (self.dm_ms_address matches Some(e) ==> e.wf() && e.field_type == CmceType3ElemId::DmMsAddress.raw())
        &&& (self.proprietary matches Some(e) ==> e.wf() && e.field_type == CmceType3ElemId::Proprietary.raw())
    }

    /// What decoding yields from the bits at a cursor: the decoded PDU or
    /// the exact failure, together with the cursor position afterwards.
    pub open spec fn spec_parse(s: Seq<bool>, pos: nat) -> (Result<UCallRestore, PduParseError>, nat) {
        match read_res(s, pos, 5) {
            None => (Err::<UCallRestore, PduParseError>(PduParseError::BufferEnded { field: "pdu_type" }), pos),
            Some((p0, v0)) => {
                if v0 != CmcePduTypeUl::UCallRestore.raw() {
                    (Err::<UCallRestore, PduParseError>(PduParseError::InvalidPduType { expected: CmcePduTypeUl::UCallRestore.raw(), found: v0 }), p0)
                } else {
                    match read_res(s, p0, 14) {
                        None => (Err::<UCallRestore, PduParseError>(PduParseError::BufferEnded { field: "call_identifier" }), p0),
                        Some((p1, v1)) => {
                            let call_identifier = v1 as u16;
                            match read_res(s, p1, 1) {
                                None => (Err::<UCallRestore, PduParseError>(PduParseError::BufferEnded { field: "request_to_transmit_send_data" }), p1),
                                Some((p2, v2)) => {
                                    let request_to_transmit_send_data = v2 != 0;
                                    match read_res(s, p2, 2) {
                                        None => (Err::<UCallRestore, PduParseError>(PduParseError::BufferEnded { field: "other_party_type_identifier" }), p2),
                                        Some((p3, v3)) => {
                                            let other_party_type_identifier = v3 as u8;
                                            let step4: (Result<Option<u64>, PduParseError>, nat) = if other_party_type_identifier == 0 {
                                                match read_res(s, p3, 8) {
                                                    None => (Err(PduParseError::BufferEnded { field: "other_party_short_number_address" }), p3),
                                                    Some((q, v)) => (Ok(Some(v)), q),
                                                }
                                            } else {
                                                (Ok(None), p3)
                                            };
                                            match step4.0 {
                                                Err(e) => (Err::<UCallRestore, PduParseError>(e), step4.1),
                                                Ok(other_party_short_number_address) => {
                                                    let step5: (Result<Option<u64>, PduParseError>, nat) = if other_party_type_identifier == 1 || other_party_type_identifier == 2 {
                                                        match read_res(s, step4.1, 24) {
                                                            None => (Err(PduParseError::BufferEnded { field: "other_party_ssi" }), step4.1),
                                                            Some((q, v)) => (Ok(Some(v)), q),
                                                        }
                                                    } else {
                                                        (Ok(None), step4.1)
                                                    };
                                                    match step5.0 {
                                                        Err(e) => (Err::<UCallRestore, PduParseError>(e), step5.1),
                                                        Ok(other_party_ssi) => {
                                                            let step6: (Result<Option<u64>, PduParseError>, nat) = if other_party_type_identifier == 2 {
                                                                match read_res(s, step5.1, 24) {
                                                                    None => (Err(PduParseError::BufferEnded { field: "other_party_extension" }), step5.1),
                                                                    Some((q, v)) => (Ok(Some(v)), q),
                                                                }
                                                            } else {
                                                                (Ok(None), step5.1)
                                                            };
                                                            match step6.0 {
                                                                Err(e) => (Err::<UCallRestore, PduParseError>(e), step6.1),
                                                                Ok(other_party_extension) => {
                                                                    match read_res(s, step6.1, 1) {
                                                                        None => (Err::<UCallRestore, PduParseError>(PduParseError::BufferEnded { field: "obit" }), step6.1),
                                                                        Some((p7, v7)) => {
                                                                            let obit = v7 == 1;
                                                                            let step8: (Result<Option<u64>, PduParseError>, nat) = if obit {
                                                                                type2_res(s, p7, 8, "basic_service_information")
                                                                            } else {
                                                                                (Ok(None), p7)
                                                                            };
                                                                            match step8.0 {
                                                                                Err(e) => (Err::<UCallRestore, PduParseError>(e), step8.1),
                                                                                Ok(basic_service_information) => {
                                                                                    let step9: (Result<Option<Type3Element>, PduParseError>, nat) = if obit {
                                                                                        let t: (Result<(usize, u64), Type34Err>, nat) = type3_res(s, step8.1, CmceType3ElemId::Facility.raw());
                                                                                        (
                                                                                            match t.0 {
                                                                                                Ok((l, d)) => Ok(Some(Type3Element { field_type: CmceType3ElemId::Facility.raw(), data: d, len: l })),
                                                                                                Err(Type34Err::FieldNotPresent) => Ok(None),
                                                                                                Err(_) => Err(PduParseError::BufferEnded { field: "facility" }),
                                                                                            },
                                                                                            t.1,
                                                                                        )
                                                                                    } else {
                                                                                        (Ok(None), step8.1)
                                                                                    };
                                                                                    match step9.0 {
                                                                                        Err(e) => (Err::<UCallRestore, PduParseError>(e), step9.1),
                                                                                        Ok(facility) => {
                                                                                            let step10: (Result<Option<Type3Element>, PduParseError>, nat) = if obit {
                                                                                                let t: (Result<(usize, u64), Type34Err>, nat) = type3_res(s, step9.1, CmceType3ElemId::DmMsAddress.raw());
                                                                                                (
                                                                                                    match t.0 {
                                                                                                        Ok((l, d)) => Ok(Some(Type3Element { field_type: CmceType3ElemId::DmMsAddress.raw(), data: d, len: l })),
                                                                                                        Err(Type34Err::FieldNotPresent) => Ok(None),
                                                                                                        Err(_) => Err(PduParseError::BufferEnded { field: "dm_ms_address" }),
                                                                                                    },
                                                                                                    t.1,
                                                                                                )
                                                                                            } else {
                                                                                                (Ok(None), step9.1)
                                                                                            };
                                                                                            match step10.0 {
                                                                                                Err(e) => (Err::<UCallRestore, PduParseError>(e), step10.1),
                                                                                                Ok(dm_ms_address) => {
                                                                                                    let step11: (Result<Option<Type3Element>, PduParseError>, nat) = if obit {
                                                                                                        let t: (Result<(usize, u64), Type34Err>, nat) = type3_res(s, step10.1, CmceType3ElemId::Proprietary.raw());
                                                                                                        (
                                                                                                            match t.0 {
                                                                                                                Ok((l, d)) => Ok(Some(Type3Element { field_type: CmceType3ElemId::Proprietary.raw(), data: d, len: l })),
                                                                                                                Err(Type34Err::FieldNotPresent) => Ok(None),
                                                                                                                Err(_) => Err(PduParseError::BufferEnded { field: "proprietary" }),
                                                                                                            },
                                                                                                            t.1,
                                                                                                        )
                                                                                                    } else {
                                                                                                        (Ok(None), step10.1)
                                                                                                    };
                                                                                                    match step11.0 {
                                                                                                        Err(e) => (Err::<UCallRestore, PduParseError>(e), step11.1),
                                                                                                        Ok(proprietary) => {
                                                                                                            let tr: (Result<(), PduParseError>, nat) = trailing_res(s, step11.1, obit);
                                                                                                            match tr.0 {
                                                                                                                Err(e) => (Err::<UCallRestore, PduParseError>(e), tr.1),
                                                                                                                Ok(_) => (Ok::<UCallRestore, PduParseError>(UCallRestore { call_identifier, request_to_transmit_send_data, other_party_type_identifier, other_party_short_number_address, other_party_ssi, other_party_extension, basic_service_information, facility, dm_ms_address, proprietary }), tr.1),
                                                                                                            }
                                                                                                        },
                                                                                                    }
                                                                                                },
                                                                                            }
                                                                                        },
                                                                                    }
                                                                                },
                                                                            }
                                                                        },
                                                                    }
                                                                },
                                                            }
                                                        },
                                                    }
                                                },
                                            }
                                        },
                                    }
                                },
                            }
                        },
                    }
                }
            },
        }
    }

    /// The PDU's wire image: the type code and the fixed part, then either
    /// a clear o-bit alone or a set o-bit followed by the optional part and
    /// the trailing m-bit.
    pub open spec fn enc(self) -> Seq<bool> {
        enc_field(CmcePduTypeUl::UCallRestore.raw(), 5) + enc_field(self.call_identifier as u64, 14) + seq![self.request_to_transmit_send_data] + enc_field(self.other_party_type_identifier as u64, 2) + enc_opt_field(self.other_party_short_number_address, 8) + enc_opt_field(self.other_party_ssi, 24) + enc_opt_field(self.other_party_extension, 24) + if self.has_optionals() {
            seq![true] + enc_type2(self.basic_service_information, 8) + enc_opt_elem(self.facility) + enc_opt_elem(self.dm_ms_address) + enc_opt_elem(self.proprietary) + seq![false]
        } else {
            seq![false]
        }
    }

    /// Parse from BitBuffer.
    pub fn from_bitbuf(buffer: &mut BitBuffer) -> (r: Result<UCallRestore, PduParseError>)
        requires
            old(buffer).wf(),
        ensures
            final(buffer).wf(),
            final(buffer).bits() == old(buffer).bits(),
            final(buffer).writable() == old(buffer).writable(),
            old(buffer).cursor() <= final(buffer).cursor() <= old(buffer).bits().len(),
            r matches Ok(p) ==> p.wf(),
            ({
                let sp = UCallRestore::spec_parse(old(buffer).bits(), old(buffer).cursor());
                r == sp.0 && final(buffer).cursor() == sp.1
            }),
    {
        proof {
            lemma2_to64();
        }
        let pdu_type = buffer.read_field(5, "pdu_type")?;
        expect_pdu_type(pdu_type, CmcePduTypeUl::UCallRestore.into_raw())?;
        let call_identifier = buffer.read_field(14, "call_identifier")? as u16;
        let request_to_transmit_send_data = buffer.read_field(1, "request_to_transmit_send_data")? != 0;
        let other_party_type_identifier = buffer.read_field(2, "other_party_type_identifier")? as u8;
        let other_party_short_number_address = if other_party_type_identifier == 0 {
            Some(buffer.read_field(8, "other_party_short_number_address")?)
        } else {
            None
        };
        let other_party_ssi = if other_party_type_identifier == 1 || other_party_type_identifier == 2 {
            Some(buffer.read_field(24, "other_party_ssi")?)
        } else {
            None
        };
        let other_party_extension = if other_party_type_identifier == 2 {
            Some(buffer.read_field(24, "other_party_extension")?)
        } else {
            None
        };

        // obit designates presence of any further type2, type3 or type4 fields
        let obit = delimiters::read_obit(buffer)?;
        let basic_service_information = if obit {
            type2::parse(buffer, 8, "basic_service_information")?
        } else {
            None
        };
        let facility = if obit {
            Type3Element::parse_opt(buffer, CmceType3ElemId::Facility.into_raw(), "facility")?
        } else {
            None
        };
        let dm_ms_address = if obit {
            Type3Element::parse_opt(buffer, CmceType3ElemId::DmMsAddress.into_raw(), "dm_ms_address")?
        } else {
            None
        };
        let proprietary = if obit {
            Type3Element::parse_opt(buffer, CmceType3ElemId::Proprietary.into_raw(), "proprietary")?
        } else {
            None
        };

        // Reject a trailing mbit left set after the last recognized element
        delimiters::check_trailing(buffer, obit)?;

        Ok(UCallRestore {
            call_identifier,
            request_to_transmit_send_data,
            other_party_type_identifier,
            other_party_short_number_address,
            other_party_ssi,
            other_party_extension,
            basic_service_information,
            facility,
            dm_ms_address,
            proprietary,
        })
    }

    /// Serialize this PDU into the given BitBuffer.
    #[verifier::rlimit(50)]
    pub fn to_bitbuf(&self, buffer: &mut BitBuffer) -> (r: Result<(), PduParseError>)
        requires
            old(buffer).wf(),
            old(buffer).writable(),
            self.wf(),
        ensures
            final(buffer).wf(),
            final(buffer).writable(),
            final(buffer).cursor() == old(buffer).cursor(),
            final(buffer).bits() == old(buffer).bits() + self.enc(),
            r is Ok,
    {
        broadcast use crate::bits::lemma_seq_add_assoc;
        broadcast use crate::bits::lemma_seq_add_empty_right;
        broadcast use crate::bits::lemma_seq_add_empty_left;

        proof {
            lemma2_to64();
        }
        buffer.write_bits(CmcePduTypeUl::UCallRestore.into_raw(), 5);
        buffer.write_bits(self.call_identifier as u64, 14);
        buffer.write_bit(
            if self.request_to_transmit_send_data {
                1
            } else {
                0
            },
        );
        buffer.write_bits(self.other_party_type_identifier as u64, 2);
        buffer.write_opt_bits(self.other_party_short_number_address, 8);
        buffer.write_opt_bits(self.other_party_ssi, 24);
        buffer.write_opt_bits(self.other_party_extension, 24);

        // Check if any optional field present and place o-bit
        let obit_val = self.basic_service_information.is_some() || self.facility.is_some() || self.dm_ms_address.is_some() || self.proprietary.is_some();
        delimiters::write_obit(
            buffer,
            if obit_val {
                1
            } else {
                0
            },
        );
        if !obit_val {
            return Ok(());
        }
        type2::write(buffer, self.basic_service_information, 8);
        write_opt_elem(buffer, &self.facility);
        write_opt_elem(buffer, &self.dm_ms_address);
        write_opt_elem(buffer, &self.proprietary);
        // Write terminating m-bit
        delimiters::write_mbit(buffer, 0);
        Ok(())
    }
}

} // verus!
