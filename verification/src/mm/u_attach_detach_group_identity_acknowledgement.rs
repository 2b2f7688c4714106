//! The U-ATTACH/DETACH GROUP IDENTITY ACKNOWLEDGEMENT PDU (clause 16.9.3.2): the MS acknowledges SwMI-initiated attachment or detachment of group identities.

use vstd::prelude::*;
use vstd::arithmetic::power2::lemma2_to64;
use crate::bits::{enc_field, fits};
use crate::bitbuffer::{read_res, BitBuffer};
use crate::delimiters;
use crate::delimiters::trailing_res;
use crate::type34::{enc_opt_elem, type3_res, write_opt_elem, Type34Err, Type3Element};
use crate::pdu_parse_error::{expect_pdu_type, PduParseError};
use crate::mm::pdu_type::MmPduTypeUl;
use crate::mm::elem_id::MmType34ElemIdUl;

verus! {

#[derive(Debug)]
pub struct UAttachDetachGroupIdentityAcknowledgement {
    /// Type1, 1 bits
    pub group_identity_acknowledgement_type: bool,
    /// Type4
    pub group_identity_uplink: Option<Type3Element>,
    /// Type3
    pub proprietary: Option<Type3Element>,
}

impl UAttachDetachGroupIdentityAcknowledgement {
    /// Whether any optional element is present, which decides the o-bit.
    pub open spec fn has_optionals(self) -> bool {
        self.group_identity_uplink is Some || self.proprietary is Some
    }

    /// Every field fits its wire width and every element carries its own tag.
    pub open spec fn wf(self) -> bool {
        &&& (self.group_identity_uplink matches Some(e) ==> e.wf() && e.field_type == MmType34ElemIdUl::GroupIdentityUplink.raw())
        &&& (self.proprietary matches Some(e) ==> e.wf() && e.field_type == MmType34ElemIdUl::Proprietary.raw())
    }

    /// What decoding yields from the bits at a cursor: the decoded PDU or
    /// the exact failure, together with the cursor position afterwards.
    pub open spec fn spec_parse(s: Seq<bool>, pos: nat) -> (Result<UAttachDetachGroupIdentityAcknowledgement, PduParseError>, nat) {
        match read_res(s, pos, 4) {
            None => (Err::<UAttachDetachGroupIdentityAcknowledgement, PduParseError>(PduParseError::BufferEnded { field: "pdu_type" }), pos),
            Some((p0, v0)) => {
                if v0 != MmPduTypeUl::UAttachDetachGroupIdentityAcknowledgement.raw() {
                    (Err::<UAttachDetachGroupIdentityAcknowledgement, PduParseError>(PduParseError::InvalidPduType { expected: MmPduTypeUl::UAttachDetachGroupIdentityAcknowledgement.raw(), found: v0 }), p0)
                } else {
                    match read_res(s, p0, 1) {
                        None => (Err::<UAttachDetachGroupIdentityAcknowledgement, PduParseError>(PduParseError::BufferEnded { field: "group_identity_acknowledgement_type" }), p0),
                        Some((p1, v1)) => {
                            let group_identity_acknowledgement_type = v1 != 0;
                            match read_res(s, p1, 1) {
                                None => (Err::<UAttachDetachGroupIdentityAcknowledgement, PduParseError>(PduParseError::BufferEnded { field: "obit" }), p1),
                                Some((p2, v2)) => {
                                    let obit = v2 == 1;
                                    let t3: (Result<(usize, u64), Type34Err>, nat) = type3_res(s, p2, MmType34ElemIdUl::GroupIdentityUplink.raw());
                                    let group_identity_uplink: Option<Type3Element> = match t3.0 {
                                        Ok((l, d)) => Some(Type3Element { field_type: MmType34ElemIdUl::GroupIdentityUplink.raw(), data: d, len: l }),
                                        Err(_) => None,
                                    };
                                    let t4: (Result<(usize, u64), Type34Err>, nat) = type3_res(s, t3.1, MmType34ElemIdUl::Proprietary.raw());
                                    let proprietary: Option<Type3Element> = match t4.0 {
                                        Ok((l, d)) => Some(Type3Element { field_type: MmType34ElemIdUl::Proprietary.raw(), data: d, len: l }),
                                        Err(_) => None,
                                    };
                                    let tr: (Result<(), PduParseError>, nat) = trailing_res(s, t4.1, obit);
                                    match tr.0 {
                                        Err(e) => (Err::<UAttachDetachGroupIdentityAcknowledgement, PduParseError>(e), tr.1),
                                        Ok(_) => (Ok::<UAttachDetachGroupIdentityAcknowledgement, PduParseError>(UAttachDetachGroupIdentityAcknowledgement { group_identity_acknowledgement_type, group_identity_uplink, proprietary }), tr.1),
                                    }
                                },
                            }
                        },
                    }
                }
            },
        }
    }

    /// The PDU's wire image: the type code and the fixed part, then either
    /// a clear o-bit alone or a set o-bit followed by the optional part and
    /// the trailing m-bit.
    pub open spec fn enc(self) -> Seq<bool> {
        enc_field(MmPduTypeUl::UAttachDetachGroupIdentityAcknowledgement.raw(), 4) + seq![self.group_identity_acknowledgement_type] + if self.has_optionals() {
            seq![true] + enc_opt_elem(self.group_identity_uplink) + enc_opt_elem(self.proprietary) + seq![false]
        } else {
            seq![false]
        }
    }

    /// Parse from BitBuffer.
    pub fn from_bitbuf(buffer: &mut BitBuffer) -> (r: Result<UAttachDetachGroupIdentityAcknowledgement, PduParseError>)
        requires
            old(buffer).wf(),
        ensures
            final(buffer).wf(),
            final(buffer).bits() == old(buffer).bits(),
            final(buffer).writable() == old(buffer).writable(),
            old(buffer).cursor() <= final(buffer).cursor() <= old(buffer).bits().len(),
            r matches Ok(p) ==> p.wf(),
            ({
                let sp = UAttachDetachGroupIdentityAcknowledgement::spec_parse(old(buffer).bits(), old(buffer).cursor());
                r == sp.0 && final(buffer).cursor() == sp.1
            }),
    {
        proof {
            lemma2_to64();
        }
        let pdu_type = buffer.read_field(4, "pdu_type")?;
        expect_pdu_type(pdu_type, MmPduTypeUl::UAttachDetachGroupIdentityAcknowledgement.into_raw())?;
        let group_identity_acknowledgement_type = buffer.read_field(1, "group_identity_acknowledgement_type")? != 0;

        // obit designates presence of any further type2, type3 or type4 fields
        let obit = delimiters::read_obit(buffer)?;
        let group_identity_uplink = match Type3Element::try_parse(buffer, MmType34ElemIdUl::GroupIdentityUplink.into_raw()) {
            Ok(value) => Some(value),
            Err(_) => None,
        };
        let proprietary = match Type3Element::try_parse(buffer, MmType34ElemIdUl::Proprietary.into_raw()) {
            Ok(value) => Some(value),
            Err(_) => None,
        };

        // Reject a trailing mbit left set after the last recognized element
        delimiters::check_trailing(buffer, obit)?;

        Ok(UAttachDetachGroupIdentityAcknowledgement {
            group_identity_acknowledgement_type,
            group_identity_uplink,
            proprietary,
        })
    }

    /// Serialize this PDU into the given BitBuffer.
    #[verifier::rlimit(50)]
    pub fn to_bitbuf(&self, buffer: &mut BitBuffer) -> (r: Result<(), PduParseError>)
        requires
            old(buffer).wf(),
            old(buffer).writable(),
            self.wf(),
        ensures
            final(buffer).wf(),
            final(buffer).writable(),
            final(buffer).cursor() == old(buffer).cursor(),
            final(buffer).bits() == old(buffer).bits() + self.enc(),
            r is Ok,
    {
        broadcast use crate::bits::lemma_seq_add_assoc;
        broadcast use crate::bits::lemma_seq_add_empty_right;
        broadcast use crate::bits::lemma_seq_add_empty_left;

        proof {
            lemma2_to64();
        }
        buffer.write_bits(MmPduTypeUl::UAttachDetachGroupIdentityAcknowledgement.into_raw(), 4);
        buffer.write_bit(
            if self.group_identity_acknowledgement_type {
                1
            } else {
                0
            },
        );

        // Check if any optional field present and place o-bit
        let obit_val = self.group_identity_uplink.is_some() || self.proprietary.is_some();
        delimiters::write_obit(
            buffer,
            if obit_val {
                1
            } else {
                0
            },
        );
        if !obit_val {
            return Ok(());
        }
        write_opt_elem(buffer, &self.group_identity_uplink);
        write_opt_elem(buffer, &self.proprietary);
        // Write terminating m-bit
        delimiters::write_mbit(buffer, 0);
        Ok(())
    }
}

} // verus!
