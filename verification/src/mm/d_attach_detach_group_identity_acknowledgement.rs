//! The D-ATTACH/DETACH GROUP IDENTITY ACKNOWLEDGEMENT PDU (clause 16.9.2.2): the infrastructure acknowledges MS-initiated attachment or detachment of group identities.

use vstd::prelude::*;
use vstd::arithmetic::power2::lemma2_to64;
use crate::bits::{enc_field, fits};
use crate::bitbuffer::{read_res, BitBuffer};
use crate::delimiters;
use crate::delimiters::trailing_res;
use crate::type34::{enc_opt_elem, type3_res, type4_res, write_opt_elem, Type34Err, Type3Element};
use crate::pdu_parse_error::{expect_pdu_type, PduParseError};
use crate::mm::pdu_type::MmPduTypeDl;
use crate::mm::elem_id::MmType34ElemIdDl;
use crate::mm::group_identity_downlink::{enc_opt_gid_container, spec_parse_gids, GroupIdentityDownlink};
use crate::type34::parse_type4_header_generic;

verus! {

#[derive(Debug)]
pub struct DAttachDetachGroupIdentityAcknowledgement {
    /// Type1, 1 bits
    pub group_identity_accept_reject: u8,
    /// Type1, 1 bits
    pub reserved: bool,
    /// Type3
    pub proprietary: Option<Type3Element>,
    /// Type4
    pub group_identity_downlink: Option<Vec<GroupIdentityDownlink>>,
    /// Type4
    pub group_identity_security_related_information: Option<Type3Element>,
}

impl DAttachDetachGroupIdentityAcknowledgement {
    /// Whether any optional element is present, which decides the o-bit.
    pub open spec fn has_optionals(self) -> bool {
        self.proprietary is Some || self.group_identity_downlink is Some || self.group_identity_security_related_information is Some
    }

    /// Every field fits its wire width and every element carries its own tag.
    pub open spec fn wf(self) -> bool {
        &&& fits(self.group_identity_accept_reject as u64, 1)
        &&& (self.proprietary matches Some(e) ==> e.wf() && e.field_type == MmType34ElemIdDl::Proprietary.raw())
        &&& (self.group_identity_downlink matches Some(gs) ==> gs@.len() <= 63 && (forall|i: int| 0 <= i < gs@.len() ==> gs@[i].wf()))
        &&& (self.group_identity_security_related_information matches Some(e) ==> e.wf() && e.field_type == MmType34ElemIdDl::GroupIdentitySecurityRelatedInformation.raw())
    }

    /// What decoding yields from the bits at a cursor, as a model of the
    /// result: the fixed fields, the optional elements, and the decoded
    /// record run as a sequence, or the exact failure; together with the
    /// cursor position afterwards.
    pub open spec fn spec_parse(s: Seq<bool>, pos: nat) -> (Result<
        (u8, bool, Option<Type3Element>, Option<Seq<GroupIdentityDownlink>>, Option<Type3Element>),
        PduParseError,
    >, nat) {
        match read_res(s, pos, 4) {
            None => (Err::<(u8, bool, Option<Type3Element>, Option<Seq<GroupIdentityDownlink>>, Option<Type3Element>), PduParseError>(PduParseError::BufferEnded { field: "pdu_type" }), pos),
            Some((p0, v0)) => {
                if v0 != MmPduTypeDl::DAttachDetachGroupIdentityAcknowledgement.raw() {
                    (Err::<(u8, bool, Option<Type3Element>, Option<Seq<GroupIdentityDownlink>>, Option<Type3Element>), PduParseError>(PduParseError::InvalidPduType { expected: MmPduTypeDl::DAttachDetachGroupIdentityAcknowledgement.raw(), found: v0 }), p0)
                } else {
                    match read_res(s, p0, 1) {
                        None => (Err::<(u8, bool, Option<Type3Element>, Option<Seq<GroupIdentityDownlink>>, Option<Type3Element>), PduParseError>(PduParseError::BufferEnded { field: "group_identity_accept_reject" }), p0),
                        Some((p1, v1)) => {
                            let group_identity_accept_reject = v1 as u8;
                            match read_res(s, p1, 1) {
                                None => (Err::<(u8, bool, Option<Type3Element>, Option<Seq<GroupIdentityDownlink>>, Option<Type3Element>), PduParseError>(PduParseError::BufferEnded { field: "reserved" }), p1),
                                Some((p2, v2)) => {
                                    let reserved = v2 != 0;
                                    match read_res(s, p2, 1) {
                                        None => (Err::<(u8, bool, Option<Type3Element>, Option<Seq<GroupIdentityDownlink>>, Option<Type3Element>), PduParseError>(PduParseError::BufferEnded { field: "obit" }), p2),
                                        Some((p3, v3)) => {
                                            let obit = v3 == 1;
                                            let t3: (Result<(usize, u64), Type34Err>, nat) = type3_res(s, p3, MmType34ElemIdDl::Proprietary.raw());
                                            let proprietary: Option<Type3Element> = match t3.0 {
                                                Ok((l, d)) => Some(Type3Element { field_type: MmType34ElemIdDl::Proprietary.raw(), data: d, len: l }),
                                                Err(_) => None,
                                            };
                                            let t4: (Result<(usize, usize), Type34Err>, nat) = type4_res(s, t3.1, MmType34ElemIdDl::GroupIdentityDownlink.raw());
                                            let gstep: (Result<Option<Seq<GroupIdentityDownlink>>, PduParseError>, nat) = match t4.0 {
                                                Err(_) => (Ok(None), t4.1),
                                                Ok((num_elems, _len_bits)) => {
                                                    let run = spec_parse_gids(s, t4.1, num_elems as nat);
                                                    match run.0 {
                                                        Err(e) => (Err(e), run.1),
                                                        Ok(sq) => (Ok(Some(sq)), run.1),
                                                    }
                                                },
                                            };
                                            match gstep.0 {
                                                Err(e) => (Err::<(u8, bool, Option<Type3Element>, Option<Seq<GroupIdentityDownlink>>, Option<Type3Element>), PduParseError>(e), gstep.1),
                                                Ok(group_identity_downlink) => {
                                                    let t5: (Result<(usize, u64), Type34Err>, nat) = type3_res(s, gstep.1, MmType34ElemIdDl::GroupIdentitySecurityRelatedInformation.raw());
                                                    let group_identity_security_related_information: Option<Type3Element> = match t5.0 {
                                                        Ok((l, d)) => Some(Type3Element { field_type: MmType34ElemIdDl::GroupIdentitySecurityRelatedInformation.raw(), data: d, len: l }),
                                                        Err(_) => None,
                                                    };
                                                    let tr: (Result<(), PduParseError>, nat) = trailing_res(s, t5.1, obit);
                                                    match tr.0 {
                                                        Err(e) => (Err::<(u8, bool, Option<Type3Element>, Option<Seq<GroupIdentityDownlink>>, Option<Type3Element>), PduParseError>(e), tr.1),
                                                        Ok(_) => (
                                                            Ok::<(u8, bool, Option<Type3Element>, Option<Seq<GroupIdentityDownlink>>, Option<Type3Element>), PduParseError>(
                                                                (
                                                                    group_identity_accept_reject,
                                                                    reserved,
                                                                    proprietary,
                                                                    group_identity_downlink,
                                                                    group_identity_security_related_information,
                                                                ),
                                                            ),
                                                            tr.1,
                                                        ),
                                                    }
                                                },
                                            }
                                        },
                                    }
                                },
                            }
                        },
                    }
                }
            },
        }
    }

    /// The PDU's wire image: the type code and the fixed part, then either
    /// a clear o-bit alone or a set o-bit followed by the optional part and
    /// the trailing m-bit.
    pub open spec fn enc(self) -> Seq<bool> {
        enc_field(MmPduTypeDl::DAttachDetachGroupIdentityAcknowledgement.raw(), 4) + enc_field(self.group_identity_accept_reject as u64, 1) + seq![self.reserved] + if self.has_optionals() {
            seq![true] + enc_opt_elem(self.proprietary) + enc_opt_gid_container(self.group_identity_downlink) + enc_opt_elem(self.group_identity_security_related_information) + seq![false]
        } else {
            seq![false]
        }
    }

    /// Parse from BitBuffer.
    pub fn from_bitbuf(buffer: &mut BitBuffer) -> (r: Result<DAttachDetachGroupIdentityAcknowledgement, PduParseError>)
        requires
            old(buffer).wf(),
        ensures
            final(buffer).wf(),
            final(buffer).bits() == old(buffer).bits(),
            final(buffer).writable() == old(buffer).writable(),
            old(buffer).cursor() <= final(buffer).cursor() <= old(buffer).bits().len(),
            r matches Ok(p) ==> p.wf(),
            ({
                let sp = DAttachDetachGroupIdentityAcknowledgement::spec_parse(old(buffer).bits(), old(buffer).cursor());
                &&& final(buffer).cursor() == sp.1
                &&& match (r, sp.0) {
                    (Ok(p), Ok(m)) => {
                        &&& p.group_identity_accept_reject == m.0
                        &&& p.reserved == m.1
                        &&& p.proprietary == m.2
                        &&& match (p.group_identity_downlink, m.3) {
                            (Some(v), Some(q)) => v@ == q,
                            (None, None) => true,
                            _ => false,
                        }
                        &&& p.group_identity_security_related_information == m.4
                    },
                    (Err(e1), Err(e2)) => e1 == e2,
                    _ => false,
                }
            }),
    {
        proof {
            lemma2_to64();
        }
        let pdu_type = buffer.read_field(4, "pdu_type")?;
        expect_pdu_type(pdu_type, MmPduTypeDl::DAttachDetachGroupIdentityAcknowledgement.into_raw())?;
        let group_identity_accept_reject = buffer.read_field(1, "group_identity_accept_reject")? as u8;
        let reserved = buffer.read_field(1, "reserved")? != 0;

        // obit designates presence of any further type2, type3 or type4 fields
        let obit = delimiters::read_obit(buffer)?;
        let proprietary = match Type3Element::try_parse(buffer, MmType34ElemIdDl::Proprietary.into_raw()) {
            Ok(value) => Some(value),
            Err(_) => None,
        };
        let type4_field = parse_type4_header_generic(
            buffer,
            MmType34ElemIdDl::GroupIdentityDownlink.into_raw(),
        );
        let group_identity_downlink = match type4_field {
            Ok((num_elems, _len_bits)) => Some(
                GroupIdentityDownlink::parse_run(buffer, num_elems)?,
            ),
            Err(_) => None,
        };
        let group_identity_security_related_information = match Type3Element::try_parse(buffer, MmType34ElemIdDl::GroupIdentitySecurityRelatedInformation.into_raw()) {
            Ok(value) => Some(value),
            Err(_) => None,
        };

        // Reject a trailing mbit left set after the last recognized element
        delimiters::check_trailing(buffer, obit)?;

        Ok(DAttachDetachGroupIdentityAcknowledgement {
            group_identity_accept_reject,
            reserved,
            proprietary,
            group_identity_downlink,
            group_identity_security_related_information,
        })
    }

    /// Serialize this PDU into the given BitBuffer.
    #[verifier::rlimit(50)]
    pub fn to_bitbuf(&self, buffer: &mut BitBuffer) -> (r: Result<(), PduParseError>)
        requires
            old(buffer).wf(),
            old(buffer).writable(),
            self.wf(),
        ensures
            final(buffer).wf(),
            final(buffer).writable(),
            final(buffer).cursor() == old(buffer).cursor(),
            final(buffer).bits() == old(buffer).bits() + self.enc(),
            r is Ok,
    {
        broadcast use crate::bits::lemma_seq_add_assoc;
        broadcast use crate::bits::lemma_seq_add_empty_right;
        broadcast use crate::bits::lemma_seq_add_empty_left;

        proof {
            lemma2_to64();
        }
        buffer.write_bits(MmPduTypeDl::DAttachDetachGroupIdentityAcknowledgement.into_raw(), 4);
        buffer.write_bits(self.group_identity_accept_reject as u64, 1);
        buffer.write_bit(
            if self.reserved {
                1
            } else {
                0
            },
        );

        // Check if any optional field present and place o-bit
        let obit_val = self.proprietary.is_some() || self.group_identity_downlink.is_some() || self.group_identity_security_related_information.is_some();
        delimiters::write_obit(
            buffer,
            if obit_val {
                1
            } else {
                0
            },
        );
        if !obit_val {
            return Ok(());
        }
        write_opt_elem(buffer, &self.proprietary);
        GroupIdentityDownlink::write_opt_field(buffer, &self.group_identity_downlink);
        write_opt_elem(buffer, &self.group_identity_security_related_information);
        // Write terminating m-bit
        delimiters::write_mbit(buffer, 0);
        Ok(())
    }
}

} // verus!
