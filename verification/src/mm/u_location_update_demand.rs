//! The U-LOCATION UPDATE DEMAND PDU: the MS demands registration or updating in the network.

use vstd::prelude::*;
use vstd::arithmetic::power2::lemma2_to64;
use crate::bits::{enc_field, enc_opt_field, enc_type2, fits};
use crate::bitbuffer::{read_res, BitBuffer};
use crate::delimiters;
use crate::delimiters::trailing_res;
use crate::type2;
use crate::type2::type2_res;
use crate::type34::{enc_opt_elem, type3_res, write_opt_elem, Type34Err, Type3Element};
use crate::pdu_parse_error::{expect_pdu_type, PduParseError};
use crate::mm::pdu_type::MmPduTypeUl;
use crate::mm::elem_id::MmType34ElemIdUl;

verus! {

#[derive(Debug)]
pub struct ULocationUpdateDemand {
    /// Type1, 3 bits
    pub location_update_type: u8,
    /// Type1, 1 bits
    pub request_to_append_la: bool,
    /// Type1, 1 bits
    pub cipher_control: bool,
    /// Conditional, 10 bits
    pub ciphering_parameters: Option<u64>,
    /// Type2, 24 bits
    pub class_of_ms: Option<u64>,
    /// Type2, 3 bits
    pub energy_saving_mode: Option<u64>,
    /// Type2; the variable-width LA information element is not carried
    /// by this schema and is always absent.
    pub la_information: Option<u64>,
    /// Type2, 24 bits
    pub ssi: Option<u64>,
    /// Type2, 24 bits
    pub address_extension: Option<u64>,
    /// Type3
    pub group_identity_location_demand: Option<Type3Element>,
    /// Type3
    pub group_report_response: Option<Type3Element>,
    /// Type3
    pub authentication_uplink: Option<Type3Element>,
    /// Type3
    pub extended_capabilities: Option<Type3Element>,
    /// Type3
    pub proprietary: Option<Type3Element>,
}

impl ULocationUpdateDemand {
    /// Whether any optional element is present, which decides the o-bit.
    pub open spec fn has_optionals(self) -> bool {
        self.class_of_ms is Some || self.energy_saving_mode is Some || self.la_information is Some || self.ssi is Some || self.address_extension is Some || self.group_identity_location_demand is Some || self.group_report_response is Some || self.authentication_uplink is Some || self.extended_capabilities is Some || self.proprietary is Some
    }

    /// Every field fits its wire width and every element carries its own tag.
    pub open spec fn wf(self) -> bool {
        &&& fits(self.location_update_type as u64, 3)
        &&& (self.ciphering_parameters matches Some(v) ==> fits(v, 10))
        &&& (self.class_of_ms matches Some(v) ==> fits(v, 24))
        &&& (self.energy_saving_mode matches Some(v) ==> fits(v, 3))
        &&& self.la_information is None
        &&& (self.ssi matches Some(v) ==> fits(v, 24))
        &&& (self.address_extension matches Some(v) ==> fits(v, 24))
        &&& (self.group_identity_location_demand matches Some(e) ==> e.wf() && e.field_type == MmType34ElemIdUl::GroupIdentityLocationDemand.raw())
        &&& (self.group_report_response matches Some(e) ==> e.wf() && e.field_type == MmType34ElemIdUl::GroupReportResponse.raw())
        &&& (self.authentication_uplink matches Some(e) ==> e.wf() && e.field_type == MmType34ElemIdUl::AuthenticationUplink.raw())
        &&& (self.extended_capabilities matches Some(e) ==> e.wf() && e.field_type == MmType34ElemIdUl::ExtendedCapabilities.raw())
        &&& (self.proprietary matches Some(e) ==> e.wf() && e.field_type == MmType34ElemIdUl::Proprietary.raw())
    }

    /// What decoding yields from the bits at a cursor: the decoded PDU or
    /// the exact failure, together with the cursor position afterwards.
    pub open spec fn spec_parse(s: Seq<bool>, pos: nat) -> (Result<ULocationUpdateDemand, PduParseError>, nat) {
        match read_res(s, pos, 4) {
            None => (Err::<ULocationUpdateDemand, PduParseError>(PduParseError::BufferEnded { field: "pdu_type" }), pos),
            Some((p0, v0)) => {
                if v0 != MmPduTypeUl::ULocationUpdateDemand.raw() {
                    (Err::<ULocationUpdateDemand, PduParseError>(PduParseError::InvalidPduType { expected: MmPduTypeUl::ULocationUpdateDemand.raw(), found: v0 }), p0)
                } else {
                    match read_res(s, p0, 3) {
                        None => (Err::<ULocationUpdateDemand, PduParseError>(PduParseError::BufferEnded { field: "location_update_type" }), p0),
                        Some((p1, v1)) => {
                            let location_update_type = v1 as u8;
                            match read_res(s, p1, 1) {
                                None => (Err::<ULocationUpdateDemand, PduParseError>(PduParseError::BufferEnded { field: "request_to_append_la" }), p1),
                                Some((p2, v2)) => {
                                    let request_to_append_la = v2 != 0;
                                    match read_res(s, p2, 1) {
                                        None => (Err::<ULocationUpdateDemand, PduParseError>(PduParseError::BufferEnded { field: "cipher_control" }), p2),
                                        Some((p3, v3)) => {
                                            let cipher_control = v3 != 0;
                                            let step4: (Result<Option<u64>, PduParseError>, nat) = if cipher_control {
                                                match read_res(s, p3, 10) {
                                                    None => (Err(PduParseError::BufferEnded { field: "ciphering_parameters" }), p3),
                                                    Some((q, v)) => (Ok(Some(v)), q),
                                                }
                                            } else {
                                                (Ok(None), p3)
                                            };
                                            match step4.0 {
                                                Err(e) => (Err::<ULocationUpdateDemand, PduParseError>(e), step4.1),
                                                Ok(ciphering_parameters) => {
                                                    match read_res(s, step4.1, 1) {
                                                        None => (Err::<ULocationUpdateDemand, PduParseError>(PduParseError::BufferEnded { field: "obit" }), step4.1),
                                                        Some((p5, v5)) => {
                                                            let obit = v5 == 1;
                                                            let step6: (Result<Option<u64>, PduParseError>, nat) = if obit {
                                                                type2_res(s, p5, 24, "class_of_ms")
                                                            } else {
                                                                (Ok(None), p5)
                                                            };
                                                            match step6.0 {
                                                                Err(e) => (Err::<ULocationUpdateDemand, PduParseError>(e), step6.1),
                                                                Ok(class_of_ms) => {
                                                                    let step7: (Result<Option<u64>, PduParseError>, nat) = if obit {
                                                                        type2_res(s, step6.1, 3, "energy_saving_mode")
                                                                    } else {
                                                                        (Ok(None), step6.1)
                                                                    };
                                                                    match step7.0 {
                                                                        Err(e) => (Err::<ULocationUpdateDemand, PduParseError>(e), step7.1),
                                                                        Ok(energy_saving_mode) => {
                                                                            let step8: (Result<Option<u64>, PduParseError>, nat) = if obit {
                                                                                match read_res(s, step7.1, 1) {
                                                                                    None => (Err(PduParseError::BufferEnded { field: "pbit" }), step7.1),
                                                                                    Some((q, v)) => if v == 1 {
                                                                                        (Err(PduParseError::BufferEnded { field: "la_information" }), q)
                                                                                    } else {
                                                                                        (Ok(None), q)
                                                                                    },
                                                                                }
                                                                            } else {
                                                                                (Ok(None), step7.1)
                                                                            };
                                                                            match step8.0 {
                                                                                Err(e) => (Err::<ULocationUpdateDemand, PduParseError>(e), step8.1),
                                                                                Ok(la_information) => {
                                                                                    let step9: (Result<Option<u64>, PduParseError>, nat) = if obit {
                                                                                        type2_res(s, step8.1, 24, "ssi")
                                                                                    } else {
                                                                                        (Ok(None), step8.1)
                                                                                    };
                                                                                    match step9.0 {
                                                                                        Err(e) => (Err::<ULocationUpdateDemand, PduParseError>(e), step9.1),
                                                                                        Ok(ssi) => {
                                                                                            let step10: (Result<Option<u64>, PduParseError>, nat) = if obit {
                                                                                                type2_res(s, step9.1, 24, "address_extension")
                                                                                            } else {
                                                                                                (Ok(None), step9.1)
                                                                                            };
                                                                                            match step10.0 {
                                                                                                Err(e) => (Err::<ULocationUpdateDemand, PduParseError>(e), step10.1),
                                                                                                Ok(address_extension) => {
                                                                                                    let t11: (Result<(usize, u64), Type34Err>, nat) = type3_res(s, step10.1, MmType34ElemIdUl::GroupIdentityLocationDemand.raw());
                                                                                                    let group_identity_location_demand: Option<Type3Element> = match t11.0 {
                                                                                                        Ok((l, d)) => Some(Type3Element { field_type: MmType34ElemIdUl::GroupIdentityLocationDemand.raw(), data: d, len: l }),
                                                                                                        Err(_) => None,
                                                                                                    };
                                                                                                    let t12: (Result<(usize, u64), Type34Err>, nat) = type3_res(s, t11.1, MmType34ElemIdUl::GroupReportResponse.raw());
                                                                                                    let group_report_response: Option<Type3Element> = match t12.0 {
                                                                                                        Ok((l, d)) => Some(Type3Element { field_type: MmType34ElemIdUl::GroupReportResponse.raw(), data: d, len: l }),
                                                                                                        Err(_) => None,
                                                                                                    };
                                                                                                    let t13: (Result<(usize, u64), Type34Err>, nat) = type3_res(s, t12.1, MmType34ElemIdUl::AuthenticationUplink.raw());
                                                                                                    let authentication_uplink: Option<Type3Element> = match t13.0 {
                                                                                                        Ok((l, d)) => Some(Type3Element { field_type: MmType34ElemIdUl::AuthenticationUplink.raw(), data: d, len: l }),
                                                                                                        Err(_) => None,
                                                                                                    };
                                                                                                    let t14: (Result<(usize, u64), Type34Err>, nat) = type3_res(s, t13.1, MmType34ElemIdUl::ExtendedCapabilities.raw());
                                                                                                    let extended_capabilities: Option<Type3Element> = match t14.0 {
                                                                                                        Ok((l, d)) => Some(Type3Element { field_type: MmType34ElemIdUl::ExtendedCapabilities.raw(), data: d, len: l }),
                                                                                                        Err(_) => None,
                                                                                                    };
                                                                                                    let t15: (Result<(usize, u64), Type34Err>, nat) = type3_res(s, t14.1, MmType34ElemIdUl::Proprietary.raw());
                                                                                                    let proprietary: Option<Type3Element> = match t15.0 {
                                                                                                        Ok((l, d)) => Some(Type3Element { field_type: MmType34ElemIdUl::Proprietary.raw(), data: d, len: l }),
                                                                                                        Err(_) => None,
                                                                                                    };
                                                                                                    let tr: (Result<(), PduParseError>, nat) = trailing_res(s, t15.1, obit);
                                                                                                    match tr.0 {
                                                                                                        Err(e) => (Err::<ULocationUpdateDemand, PduParseError>(e), tr.1),
                                                                                                        Ok(_) => (Ok::<ULocationUpdateDemand, PduParseError>(ULocationUpdateDemand { location_update_type, request_to_append_la, cipher_control, ciphering_parameters, class_of_ms, energy_saving_mode, la_information, ssi, address_extension, group_identity_location_demand, group_report_response, authentication_uplink, extended_capabilities, proprietary }), tr.1),
                                                                                                    }
                                                                                                },
                                                                                            }
                                                                                        },
                                                                                    }
                                                                                },
                                                                            }
                                                                        },
                                                                    }
                                                                },
                                                            }
                                                        },
                                                    }
                                                },
                                            }
                                        },
                                    }
                                },
                            }
                        },
                    }
                }
            },
        }
    }

    /// The PDU's wire image: the type code and the fixed part, then either
    /// a clear o-bit alone or a set o-bit followed by the optional part and
    /// the trailing m-bit.
    pub open spec fn enc(self) -> Seq<bool> {
        enc_field(MmPduTypeUl::ULocationUpdateDemand.raw(), 4) + enc_field(self.location_update_type as u64, 3) + seq![self.request_to_append_la] + seq![self.cipher_control] + enc_opt_field(self.ciphering_parameters, 10) + if self.has_optionals() {
            seq![true] + enc_type2(self.class_of_ms, 24) + enc_type2(self.energy_saving_mode, 3) + seq![false] + enc_type2(self.ssi, 24) + enc_type2(self.address_extension, 24) + enc_opt_elem(self.group_identity_location_demand) + enc_opt_elem(self.group_report_response) + enc_opt_elem(self.authentication_uplink) + enc_opt_elem(self.extended_capabilities) + enc_opt_elem(self.proprietary) + seq![false]
        } else {
            seq![false]
        }
    }

    /// Parse from BitBuffer.
    #[verifier::rlimit(100)]
    pub fn from_bitbuf(buffer: &mut BitBuffer) -> (r: Result<ULocationUpdateDemand, PduParseError>)
        requires
            old(buffer).wf(),
        ensures
            final(buffer).wf(),
            final(buffer).bits() == old(buffer).bits(),
            final(buffer).writable() == old(buffer).writable(),
            old(buffer).cursor() <= final(buffer).cursor() <= old(buffer).bits().len(),
            r matches Ok(p) ==> p.wf(),
            ({
                let sp = ULocationUpdateDemand::spec_parse(old(buffer).bits(), old(buffer).cursor());
                r == sp.0 && final(buffer).cursor() == sp.1
            }),
    {
        proof {
            lemma2_to64();
        }
        let pdu_type = buffer.read_field(4, "pdu_type")?;
        expect_pdu_type(pdu_type, MmPduTypeUl::ULocationUpdateDemand.into_raw())?;
        let location_update_type = buffer.read_field(3, "location_update_type")? as u8;
        let request_to_append_la = buffer.read_field(1, "request_to_append_la")? != 0;
        let cipher_control = buffer.read_field(1, "cipher_control")? != 0;
        let ciphering_parameters = if cipher_control {
            Some(buffer.read_field(10, "ciphering_parameters")?)
        } else {
            None
        };

        // obit designates presence of any further type2, type3 or type4 fields
        let obit = delimiters::read_obit(buffer)?;
        let class_of_ms = if obit {
            type2::parse(buffer, 24, "class_of_ms")?
        } else {
            None
        };
        let energy_saving_mode = if obit {
            type2::parse(buffer, 3, "energy_saving_mode")?
        } else {
            None
        };
        // The LA information element has a layout this schema does not carry:
        // a frame that marks it present cannot be decoded further.
        let la_information = if obit {
            if delimiters::read_pbit(buffer)? {
                return Err(PduParseError::BufferEnded { field: "la_information" });
            }
            None
        } else {
            None
        };
        let ssi = if obit {
            type2::parse(buffer, 24, "ssi")?
        } else {
            None
        };
        let address_extension = if obit {
            type2::parse(buffer, 24, "address_extension")?
        } else {
            None
        };
        let group_identity_location_demand = match Type3Element::try_parse(buffer, MmType34ElemIdUl::GroupIdentityLocationDemand.into_raw()) {
            Ok(value) => Some(value),
            Err(_) => None,
        };
        let group_report_response = match Type3Element::try_parse(buffer, MmType34ElemIdUl::GroupReportResponse.into_raw()) {
            Ok(value) => Some(value),
            Err(_) => None,
        };
        let authentication_uplink = match Type3Element::try_parse(buffer, MmType34ElemIdUl::AuthenticationUplink.into_raw()) {
            Ok(value) => Some(value),
            Err(_) => None,
        };
        let extended_capabilities = match Type3Element::try_parse(buffer, MmType34ElemIdUl::ExtendedCapabilities.into_raw()) {
            Ok(value) => Some(value),
            Err(_) => None,
        };
        let proprietary = match Type3Element::try_parse(buffer, MmType34ElemIdUl::Proprietary.into_raw()) {
            Ok(value) => Some(value),
            Err(_) => None,
        };

        // Reject a trailing mbit left set after the last recognized element
        delimiters::check_trailing(buffer, obit)?;

        Ok(ULocationUpdateDemand {
            location_update_type,
            request_to_append_la,
            cipher_control,
            ciphering_parameters,
            class_of_ms,
            energy_saving_mode,
            la_information,
            ssi,
            address_extension,
            group_identity_location_demand,
            group_report_response,
            authentication_uplink,
            extended_capabilities,
            proprietary,
        })
    }

    /// Serialize this PDU into the given BitBuffer.
    #[verifier::rlimit(50)]
    pub fn to_bitbuf(&self, buffer: &mut BitBuffer) -> (r: Result<(), PduParseError>)
        requires
            old(buffer).wf(),
            old(buffer).writable(),
            self.wf(),
        ensures
            final(buffer).wf(),
            final(buffer).writable(),
            final(buffer).cursor() == old(buffer).cursor(),
            final(buffer).bits() == old(buffer).bits() + self.enc(),
            r is Ok,
    {
        broadcast use crate::bits::lemma_seq_add_assoc;
        broadcast use crate::bits::lemma_seq_add_empty_right;
        broadcast use crate::bits::lemma_seq_add_empty_left;

        proof {
            lemma2_to64();
        }
        buffer.write_bits(MmPduTypeUl::ULocationUpdateDemand.into_raw(), 4);
        buffer.write_bits(self.location_update_type as u64, 3);
        buffer.write_bit(
            if self.request_to_append_la {
                1
            } else {
                0
            },
        );
        buffer.write_bit(
            if self.cipher_control {
                1
            } else {
                0
            },
        );
        buffer.write_opt_bits(self.ciphering_parameters, 10);

        // Check if any optional field present and place o-bit
        let obit_val = self.class_of_ms.is_some() || self.energy_saving_mode.is_some() || self.la_information.is_some() || self.ssi.is_some() || self.address_extension.is_some() || self.group_identity_location_demand.is_some() || self.group_report_response.is_some() || self.authentication_uplink.is_some() || self.extended_capabilities.is_some() || self.proprietary.is_some();
        delimiters::write_obit(
            buffer,
            if obit_val {
                1
            } else {
                0
            },
        );
        if !obit_val {
            return Ok(());
        }
        type2::write(buffer, self.class_of_ms, 24);
        type2::write(buffer, self.energy_saving_mode, 3);
        // The LA information element is never carried: mark it absent.
        delimiters::write_pbit(buffer, 0);
        type2::write(buffer, self.ssi, 24);
        type2::write(buffer, self.address_extension, 24);
        write_opt_elem(buffer, &self.group_identity_location_demand);
        write_opt_elem(buffer, &self.group_report_response);
        write_opt_elem(buffer, &self.authentication_uplink);
        write_opt_elem(buffer, &self.extended_capabilities);
        write_opt_elem(buffer, &self.proprietary);
        // Write terminating m-bit
        delimiters::write_mbit(buffer, 0);
        Ok(())
    }
}

} // verus!
