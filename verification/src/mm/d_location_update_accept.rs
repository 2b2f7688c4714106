//! The D-LOCATION UPDATE ACCEPT PDU (clause 16.9.2.7): the infrastructure tells the MS that updating in the network is complete.

use vstd::prelude::*;
use vstd::arithmetic::power2::lemma2_to64;
use crate::bits::{enc_field, enc_type2, fits};
use crate::bitbuffer::{read_res, BitBuffer};
use crate::delimiters;
use crate::delimiters::trailing_res;
use crate::type2;
use crate::type2::type2_res;
use crate::type34::{enc_opt_elem, type3_res, write_opt_elem, Type34Err, Type3Element};
use crate::pdu_parse_error::{expect_pdu_type, PduParseError};
use crate::mm::pdu_type::MmPduTypeDl;
use crate::mm::elem_id::MmType34ElemIdDl;
use crate::mm::accept_type::MmLocationUpdateAcceptType;

verus! {

#[derive(Debug)]
pub struct DLocationUpdateAccept {
    /// Type1, 3 bits
    pub location_update_accept_type: MmLocationUpdateAcceptType,
    /// Type2, 24 bits
    pub ssi: Option<u64>,
    /// Type2, 24 bits
    pub address_extension: Option<u64>,
    /// Type2, 16 bits
    pub subscriber_class: Option<u64>,
    /// Type2, 14 bits
    pub energy_saving_information: Option<u64>,
    /// Type2, 6 bits
    pub scch_information_and_distribution_on_18th_frame: Option<u64>,
    /// Type4
    pub new_registered_area: Option<Type3Element>,
    /// Type3
    pub security_downlink: Option<Type3Element>,
    /// Type3
    pub group_identity_location_accept: Option<Type3Element>,
    /// Type3
    pub default_group_attachment_lifetime: Option<Type3Element>,
    /// Type3
    pub authentication_downlink: Option<Type3Element>,
    /// Type4
    pub group_identity_security_related_information: Option<Type3Element>,
    /// Type3
    pub cell_type_control: Option<Type3Element>,
    /// Type3
    pub proprietary: Option<Type3Element>,
}

impl DLocationUpdateAccept {
    /// Whether any optional element is present, which decides the o-bit.
    pub open spec fn has_optionals(self) -> bool {
        self.ssi is Some || self.address_extension is Some || self.subscriber_class is Some || self.energy_saving_information is Some || self.scch_information_and_distribution_on_18th_frame is Some || self.new_registered_area is Some || self.security_downlink is Some || self.group_identity_location_accept is Some || self.default_group_attachment_lifetime is Some || self.authentication_downlink is Some || self.group_identity_security_related_information is Some || self.cell_type_control is Some || self.proprietary is Some
    }

    /// Every field fits its wire width and every element carries its own tag.
    pub open spec fn wf(self) -> bool {
        &&& (self.ssi matches Some(v) ==> fits(v, 24))
        &&& (self.address_extension matches Some(v) ==> fits(v, 24))
        &&& (self.subscriber_class matches Some(v) ==> fits(v, 16))
        &&& (self.energy_saving_information matches Some(v) ==> fits(v, 14))
        &&& (self.scch_information_and_distribution_on_18th_frame matches Some(v) ==> fits(v, 6))
        &&& (self.new_registered_area matches Some(e) ==> e.wf() && e.field_type == MmType34ElemIdDl::NewRegisteredArea.raw())
        &&& (self.security_downlink matches Some(e) ==> e.wf() && e.field_type == MmType34ElemIdDl::SecurityDownlink.raw())
        &&& (self.group_identity_location_accept matches Some(e) ==> e.wf() && e.field_type == MmType34ElemIdDl::GroupIdentityLocationAccept.raw())
        &&& (self.default_group_attachment_lifetime matches Some(e) ==> e.wf() && e.field_type == MmType34ElemIdDl::DefaultGroupAttachLifetime.raw())
        &&& (self.authentication_downlink matches Some(e) ==> e.wf() && e.field_type == MmType34ElemIdDl::AuthenticationDownlink.raw())
        &&& (self.group_identity_security_related_information matches Some(e) ==> e.wf() && e.field_type == MmType34ElemIdDl::GroupIdentitySecurityRelatedInformation.raw())
        &&& (self.cell_type_control matches Some(e) ==> e.wf() && e.field_type == MmType34ElemIdDl::CellTypeControl.raw())
        &&& (self.proprietary matches Some(e) ==> e.wf() && e.field_type == MmType34ElemIdDl::Proprietary.raw())
    }

    /// What decoding yields from the bits at a cursor: the decoded PDU or
    /// the exact failure, together with the cursor position afterwards.
    pub open spec fn spec_parse(s: Seq<bool>, pos: nat) -> (Result<DLocationUpdateAccept, PduParseError>, nat) {
        match read_res(s, pos, 4) {
            None => (Err::<DLocationUpdateAccept, PduParseError>(PduParseError::BufferEnded { field: "pdu_type" }), pos),
            Some((p0, v0)) => {
                if v0 != MmPduTypeDl::DLocationUpdateAccept.raw() {
                    (Err::<DLocationUpdateAccept, PduParseError>(PduParseError::InvalidPduType { expected: MmPduTypeDl::DLocationUpdateAccept.raw(), found: v0 }), p0)
                } else {
                    match read_res(s, p0, 3) {
                        None => (Err::<DLocationUpdateAccept, PduParseError>(PduParseError::BufferEnded { field: "location_update_accept_type" }), p0),
                        Some((p1, v1)) => {
                            if v1 > 6 {
                                (Err::<DLocationUpdateAccept, PduParseError>(PduParseError::InvalidValue { field: "location_update_accept_type", value: v1 }), p1)
                            } else {
                                let location_update_accept_type = MmLocationUpdateAcceptType::from_raw(v1);
                                match read_res(s, p1, 1) {
                                    None => (Err::<DLocationUpdateAccept, PduParseError>(PduParseError::BufferEnded { field: "obit" }), p1),
                                    Some((p2, v2)) => {
                                        let obit = v2 == 1;
                                        let step3: (Result<Option<u64>, PduParseError>, nat) = if obit {
                                            type2_res(s, p2, 24, "ssi")
                                        } else {
                                            (Ok(None), p2)
                                        };
                                        match step3.0 {
                                            Err(e) => (Err::<DLocationUpdateAccept, PduParseError>(e), step3.1),
                                            Ok(ssi) => {
                                                let step4: (Result<Option<u64>, PduParseError>, nat) = if obit {
                                                    type2_res(s, step3.1, 24, "address_extension")
                                                } else {
                                                    (Ok(None), step3.1)
                                                };
                                                match step4.0 {
                                                    Err(e) => (Err::<DLocationUpdateAccept, PduParseError>(e), step4.1),
                                                    Ok(address_extension) => {
                                                        let step5: (Result<Option<u64>, PduParseError>, nat) = if obit {
                                                            type2_res(s, step4.1, 16, "subscriber_class")
                                                        } else {
                                                            (Ok(None), step4.1)
                                                        };
                                                        match step5.0 {
                                                            Err(e) => (Err::<DLocationUpdateAccept, PduParseError>(e), step5.1),
                                                            Ok(subscriber_class) => {
                                                                let step6: (Result<Option<u64>, PduParseError>, nat) = if obit {
                                                                    type2_res(s, step5.1, 14, "energy_saving_information")
                                                                } else {
                                                                    (Ok(None), step5.1)
                                                                };
                                                                match step6.0 {
                                                                    Err(e) => (Err::<DLocationUpdateAccept, PduParseError>(e), step6.1),
                                                                    Ok(energy_saving_information) => {
                                                                        let step7: (Result<Option<u64>, PduParseError>, nat) = if obit {
                                                                            type2_res(s, step6.1, 6, "scch_information_and_distribution_on_18th_frame")
                                                                        } else {
                                                                            (Ok(None), step6.1)
                                                                        };
                                                                        match step7.0 {
                                                                            Err(e) => (Err::<DLocationUpdateAccept, PduParseError>(e), step7.1),
                                                                            Ok(scch_information_and_distribution_on_18th_frame) => {
                                                                                let t8: (Result<(usize, u64), Type34Err>, nat) = type3_res(s, step7.1, MmType34ElemIdDl::NewRegisteredArea.raw());
                                                                                let new_registered_area: Option<Type3Element> = match t8.0 {
                                                                                    Ok((l, d)) => Some(Type3Element { field_type: MmType34ElemIdDl::NewRegisteredArea.raw(), data: d, len: l }),
                                                                                    Err(_) => None,
                                                                                };
                                                                                let t9: (Result<(usize, u64), Type34Err>, nat) = type3_res(s, t8.1, MmType34ElemIdDl::SecurityDownlink.raw());
                                                                                let security_downlink: Option<Type3Element> = match t9.0 {
                                                                                    Ok((l, d)) => Some(Type3Element { field_type: MmType34ElemIdDl::SecurityDownlink.raw(), data: d, len: l }),
                                                                                    Err(_) => None,
                                                                                };
                                                                                let t10: (Result<(usize, u64), Type34Err>, nat) = type3_res(s, t9.1, MmType34ElemIdDl::GroupIdentityLocationAccept.raw());
                                                                                let group_identity_location_accept: Option<Type3Element> = match t10.0 {
                                                                                    Ok((l, d)) => Some(Type3Element { field_type: MmType34ElemIdDl::GroupIdentityLocationAccept.raw(), data: d, len: l }),
                                                                                    Err(_) => None,
                                                                                };
                                                                                let t11: (Result<(usize, u64), Type34Err>, nat) = type3_res(s, t10.1, MmType34ElemIdDl::DefaultGroupAttachLifetime.raw());
                                                                                let default_group_attachment_lifetime: Option<Type3Element> = match t11.0 {
                                                                                    Ok((l, d)) => Some(Type3Element { field_type: MmType34ElemIdDl::DefaultGroupAttachLifetime.raw(), data: d, len: l }),
                                                                                    Err(_) => None,
                                                                                };
                                                                                let t12: (Result<(usize, u64), Type34Err>, nat) = type3_res(s, t11.1, MmType34ElemIdDl::AuthenticationDownlink.raw());
                                                                                let authentication_downlink: Option<Type3Element> = match t12.0 {
                                                                                    Ok((l, d)) => Some(Type3Element { field_type: MmType34ElemIdDl::AuthenticationDownlink.raw(), data: d, len: l }),
                                                                                    Err(_) => None,
                                                                                };
                                                                                let t13: (Result<(usize, u64), Type34Err>, nat) = type3_res(s, t12.1, MmType34ElemIdDl::GroupIdentitySecurityRelatedInformation.raw());
                                                                                let group_identity_security_related_information: Option<Type3Element> = match t13.0 {
                                                                                    Ok((l, d)) => Some(Type3Element { field_type: MmType34ElemIdDl::GroupIdentitySecurityRelatedInformation.raw(), data: d, len: l }),
                                                                                    Err(_) => None,
                                                                                };
                                                                                let t14: (Result<(usize, u64), Type34Err>, nat) = type3_res(s, t13.1, MmType34ElemIdDl::CellTypeControl.raw());
                                                                                let cell_type_control: Option<Type3Element> = match t14.0 {
                                                                                    Ok((l, d)) => Some(Type3Element { field_type: MmType34ElemIdDl::CellTypeControl.raw(), data: d, len: l }),
                                                                                    Err(_) => None,
                                                                                };
                                                                                let t15: (Result<(usize, u64), Type34Err>, nat) = type3_res(s, t14.1, MmType34ElemIdDl::Proprietary.raw());
                                                                                let proprietary: Option<Type3Element> = match t15.0 {
                                                                                    Ok((l, d)) => Some(Type3Element { field_type: MmType34ElemIdDl::Proprietary.raw(), data: d, len: l }),
                                                                                    Err(_) => None,
                                                                                };
                                                                                let tr: (Result<(), PduParseError>, nat) = trailing_res(s, t15.1, obit);
                                                                                match tr.0 {
                                                                                    Err(e) => (Err::<DLocationUpdateAccept, PduParseError>(e), tr.1),
                                                                                    Ok(_) => (Ok::<DLocationUpdateAccept, PduParseError>(DLocationUpdateAccept { location_update_accept_type, ssi, address_extension, subscriber_class, energy_saving_information, scch_information_and_distribution_on_18th_frame, new_registered_area, security_downlink, group_identity_location_accept, default_group_attachment_lifetime, authentication_downlink, group_identity_security_related_information, cell_type_control, proprietary }), tr.1),
                                                                                }
                                                                            },
                                                                        }
                                                                    },
                                                                }
                                                            },
                                                        }
                                                    },
                                                }
                                            },
                                        }
                                    },
                                }
                            }
                        },
                    }
                }
            },
        }
    }

    /// The PDU's wire image: the type code and the fixed part, then either
    /// a clear o-bit alone or a set o-bit followed by the optional part and
    /// the trailing m-bit.
    pub open spec fn enc(self) -> Seq<bool> {
        enc_field(MmPduTypeDl::DLocationUpdateAccept.raw(), 4) + enc_field(self.location_update_accept_type.raw(), 3) + if self.has_optionals() {
            seq![true] + enc_type2(self.ssi, 24) + enc_type2(self.address_extension, 24) + enc_type2(self.subscriber_class, 16) + enc_type2(self.energy_saving_information, 14) + enc_type2(self.scch_information_and_distribution_on_18th_frame, 6) + enc_opt_elem(self.new_registered_area) + enc_opt_elem(self.security_downlink) + enc_opt_elem(self.group_identity_location_accept) + enc_opt_elem(self.default_group_attachment_lifetime) + enc_opt_elem(self.authentication_downlink) + enc_opt_elem(self.group_identity_security_related_information) + enc_opt_elem(self.cell_type_control) + enc_opt_elem(self.proprietary) + seq![false]
        } else {
            seq![false]
        }
    }

    /// Parse from BitBuffer.
    #[verifier::rlimit(100)]
    pub fn from_bitbuf(buffer: &mut BitBuffer) -> (r: Result<DLocationUpdateAccept, PduParseError>)
        requires
            old(buffer).wf(),
        ensures
            final(buffer).wf(),
            final(buffer).bits() == old(buffer).bits(),
            final(buffer).writable() == old(buffer).writable(),
            old(buffer).cursor() <= final(buffer).cursor() <= old(buffer).bits().len(),
            r matches Ok(p) ==> p.wf(),
            ({
                let sp = DLocationUpdateAccept::spec_parse(old(buffer).bits(), old(buffer).cursor());
                r == sp.0 && final(buffer).cursor() == sp.1
            }),
    {
        proof {
            lemma2_to64();
        }
        let pdu_type = buffer.read_field(4, "pdu_type")?;
        expect_pdu_type(pdu_type, MmPduTypeDl::DLocationUpdateAccept.into_raw())?;
        let val: u64 = buffer.read_field(3, "location_update_accept_type")?;
        let location_update_accept_type = match MmLocationUpdateAcceptType::try_from(val) {
            Ok(x) => x,
            Err(_) => {
                return Err(PduParseError::InvalidValue { field: "location_update_accept_type", value: val });
            },
        };

        // obit designates presence of any further type2, type3 or type4 fields
        let obit = delimiters::read_obit(buffer)?;
        let ssi = if obit {
            type2::parse(buffer, 24, "ssi")?
        } else {
            None
        };
        let address_extension = if obit {
            type2::parse(buffer, 24, "address_extension")?
        } else {
            None
        };
        let subscriber_class = if obit {
            type2::parse(buffer, 16, "subscriber_class")?
        } else {
            None
        };
        let energy_saving_information = if obit {
            type2::parse(buffer, 14, "energy_saving_information")?
        } else {
            None
        };
        let scch_information_and_distribution_on_18th_frame = if obit {
            type2::parse(buffer, 6, "scch_information_and_distribution_on_18th_frame")?
        } else {
            None
        };
        let new_registered_area = match Type3Element::try_parse(buffer, MmType34ElemIdDl::NewRegisteredArea.into_raw()) {
            Ok(value) => Some(value),
            Err(_) => None,
        };
        let security_downlink = match Type3Element::try_parse(buffer, MmType34ElemIdDl::SecurityDownlink.into_raw()) {
            Ok(value) => Some(value),
            Err(_) => None,
        };
        let group_identity_location_accept = match Type3Element::try_parse(buffer, MmType34ElemIdDl::GroupIdentityLocationAccept.into_raw()) {
            Ok(value) => Some(value),
            Err(_) => None,
        };
        let default_group_attachment_lifetime = match Type3Element::try_parse(buffer, MmType34ElemIdDl::DefaultGroupAttachLifetime.into_raw()) {
            Ok(value) => Some(value),
            Err(_) => None,
        };
        let authentication_downlink = match Type3Element::try_parse(buffer, MmType34ElemIdDl::AuthenticationDownlink.into_raw()) {
            Ok(value) => Some(value),
            Err(_) => None,
        };
        let group_identity_security_related_information = match Type3Element::try_parse(buffer, MmType34ElemIdDl::GroupIdentitySecurityRelatedInformation.into_raw()) {
            Ok(value) => Some(value),
            Err(_) => None,
        };
        let cell_type_control = match Type3Element::try_parse(buffer, MmType34ElemIdDl::CellTypeControl.into_raw()) {
            Ok(value) => Some(value),
            Err(_) => None,
        };
        let proprietary = match Type3Element::try_parse(buffer, MmType34ElemIdDl::Proprietary.into_raw()) {
            Ok(value) => Some(value),
            Err(_) => None,
        };

        // Reject a trailing mbit left set after the last recognized element
        delimiters::check_trailing(buffer, obit)?;

        Ok(DLocationUpdateAccept {
            location_update_accept_type,
            ssi,
            address_extension,
            subscriber_class,
            energy_saving_information,
            scch_information_and_distribution_on_18th_frame,
            new_registered_area,
            security_downlink,
            group_identity_location_accept,
            default_group_attachment_lifetime,
            authentication_downlink,
            group_identity_security_related_information,
            cell_type_control,
            proprietary,
        })
    }

    /// Serialize this PDU into the given BitBuffer.
    #[verifier::rlimit(50)]
    pub fn to_bitbuf(&self, buffer: &mut BitBuffer)
        requires
            old(buffer).wf(),
            old(buffer).writable(),
            self.wf(),
        ensures
            final(buffer).wf(),
            final(buffer).writable(),
            final(buffer).cursor() == old(buffer).cursor(),
            final(buffer).bits() == old(buffer).bits() + self.enc(),
    {
        broadcast use crate::bits::lemma_seq_add_assoc;
        broadcast use crate::bits::lemma_seq_add_empty_right;
        broadcast use crate::bits::lemma_seq_add_empty_left;

        proof {
            lemma2_to64();
        }
        buffer.write_bits(MmPduTypeDl::DLocationUpdateAccept.into_raw(), 4);
        buffer.write_bits(self.location_update_accept_type.into_raw(), 3);

        // Check if any optional field present and place o-bit
        let obit_val = self.ssi.is_some() || self.address_extension.is_some() || self.subscriber_class.is_some() || self.energy_saving_information.is_some() || self.scch_information_and_distribution_on_18th_frame.is_some() || self.new_registered_area.is_some() || self.security_downlink.is_some() || self.group_identity_location_accept.is_some() || self.default_group_attachment_lifetime.is_some() || self.authentication_downlink.is_some() || self.group_identity_security_related_information.is_some() || self.cell_type_control.is_some() || self.proprietary.is_some();
        delimiters::write_obit(
            buffer,
            if obit_val {
                1
            } else {
                0
            },
        );
        if !obit_val {
            return ;
        }
        type2::write(buffer, self.ssi, 24);
        type2::write(buffer, self.address_extension, 24);
        type2::write(buffer, self.subscriber_class, 16);
        type2::write(buffer, self.energy_saving_information, 14);
        type2::write(buffer, self.scch_information_and_distribution_on_18th_frame, 6);
        write_opt_elem(buffer, &self.new_registered_area);
        write_opt_elem(buffer, &self.security_downlink);
        write_opt_elem(buffer, &self.group_identity_location_accept);
        write_opt_elem(buffer, &self.default_group_attachment_lifetime);
        write_opt_elem(buffer, &self.authentication_downlink);
        write_opt_elem(buffer, &self.group_identity_security_related_information);
        write_opt_elem(buffer, &self.cell_type_control);
        write_opt_elem(buffer, &self.proprietary);
        // Write terminating m-bit
        delimiters::write_mbit(buffer, 0);
    }
}

} // verus!
