//! The D-LOCATION UPDATE PROCEEDING PDU: the infrastructure reports that the location update demand is being processed.

use vstd::prelude::*;
use vstd::arithmetic::power2::lemma2_to64;
use crate::bits::{enc_field, fits};
use crate::bitbuffer::{read_res, BitBuffer};
use crate::delimiters;
use crate::delimiters::trailing_res;
use crate::type34::{enc_opt_elem, type3_res, write_opt_elem, Type34Err, Type3Element};
use crate::pdu_parse_error::{expect_pdu_type, PduParseError};
use crate::mm::pdu_type::MmPduTypeDl;
use crate::mm::elem_id::MmType34ElemIdDl;

verus! {

#[derive(Debug)]
pub struct DLocationUpdateProceeding {
    /// Type1, 24 bits
    pub ssi: u32,
    /// Type1, 24 bits
    pub address_extension: u32,
    /// Type3
    pub proprietary: Option<Type3Element>,
}

impl DLocationUpdateProceeding {
    /// Whether any optional element is present, which decides the o-bit.
    pub open spec fn has_optionals(self) -> bool {
        self.proprietary is Some
    }

    /// Every field fits its wire width and every element carries its own tag.
    pub open spec fn wf(self) -> bool {
        &&& fits(self.ssi as u64, 24)
        &&& fits(self.address_extension as u64, 24)
        &&& (self.proprietary matches Some(e) ==> e.wf() && e.field_type == MmType34ElemIdDl::Proprietary.raw())
    }

    /// What decoding yields from the bits at a cursor: the decoded PDU or
    /// the exact failure, together with the cursor position afterwards.
    pub open spec fn spec_parse(s: Seq<bool>, pos: nat) -> (Result<DLocationUpdateProceeding, PduParseError>, nat) {
        match read_res(s, pos, 4) {
            None => (Err::<DLocationUpdateProceeding, PduParseError>(PduParseError::BufferEnded { field: "pdu_type" }), pos),
            Some((p0, v0)) => {
                if v0 != MmPduTypeDl::DLocationUpdateProceeding.raw() {
                    (Err::<DLocationUpdateProceeding, PduParseError>(PduParseError::InvalidPduType { expected: MmPduTypeDl::DLocationUpdateProceeding.raw(), found: v0 }), p0)
                } else {
                    match read_res(s, p0, 24) {
                        None => (Err::<DLocationUpdateProceeding, PduParseError>(PduParseError::BufferEnded { field: "ssi" }), p0),
                        Some((p1, v1)) => {
                            let ssi = v1 as u32;
                            match read_res(s, p1, 24) {
                                None => (Err::<DLocationUpdateProceeding, PduParseError>(PduParseError::BufferEnded { field: "address_extension" }), p1),
                                Some((p2, v2)) => {
                                    let address_extension = v2 as u32;
                                    match read_res(s, p2, 1) {
                                        None => (Err::<DLocationUpdateProceeding, PduParseError>(PduParseError::BufferEnded { field: "obit" }), p2),
                                        Some((p3, v3)) => {
                                            let obit = v3 == 1;
                                            let t4: (Result<(usize, u64), Type34Err>, nat) = type3_res(s, p3, MmType34ElemIdDl::Proprietary.raw());
                                            let proprietary: Option<Type3Element> = match t4.0 {
                                                Ok((l, d)) => Some(Type3Element { field_type: MmType34ElemIdDl::Proprietary.raw(), data: d, len: l }),
                                                Err(_) => None,
                                            };
                                            let tr: (Result<(), PduParseError>, nat) = trailing_res(s, t4.1, obit);
                                            match tr.0 {
                                                Err(e) => (Err::<DLocationUpdateProceeding, PduParseError>(e), tr.1),
                                                Ok(_) => (Ok::<DLocationUpdateProceeding, PduParseError>(DLocationUpdateProceeding { ssi, address_extension, proprietary }), tr.1),
                                            }
                                        },
                                    }
                                },
                            }
                        },
                    }
                }
            },
        }
    }

    /// The PDU's wire image: the type code and the fixed part, then either
    /// a clear o-bit alone or a set o-bit followed by the optional part and
    /// the trailing m-bit.
    pub open spec fn enc(self) -> Seq<bool> {
        enc_field(MmPduTypeDl::DLocationUpdateProceeding.raw(), 4) + enc_field(self.ssi as u64, 24) + enc_field(self.address_extension as u64, 24) + if self.has_optionals() {
            seq![true] + enc_opt_elem(self.proprietary) + seq![false]
        } else {
            seq![false]
        }
    }

    /// Parse from BitBuffer.
    pub fn from_bitbuf(buffer: &mut BitBuffer) -> (r: Result<DLocationUpdateProceeding, PduParseError>)
        requires
            old(buffer).wf(),
        ensures
            final(buffer).wf(),
            final(buffer).bits() == old(buffer).bits(),
            final(buffer).writable() == old(buffer).writable(),
            old(buffer).cursor() <= final(buffer).cursor() <= old(buffer).bits().len(),
            r matches Ok(p) ==> p.wf(),
            ({
                let sp = DLocationUpdateProceeding::spec_parse(old(buffer).bits(), old(buffer).cursor());
                r == sp.0 && final(buffer).cursor() == sp.1
            }),
    {
        proof {
            lemma2_to64();
        }
        let pdu_type = buffer.read_field(4, "pdu_type")?;
        expect_pdu_type(pdu_type, MmPduTypeDl::DLocationUpdateProceeding.into_raw())?;
        let ssi = buffer.read_field(24, "ssi")? as u32;
        let address_extension = buffer.read_field(24, "address_extension")? as u32;

        // obit designates presence of any further type2, type3 or type4 fields
        let obit = delimiters::read_obit(buffer)?;
        let proprietary = match Type3Element::try_parse(buffer, MmType34ElemIdDl::Proprietary.into_raw()) {
            Ok(value) => Some(value),
            Err(_) => None,
        };

        // Reject a trailing mbit left set after the last recognized element
        delimiters::check_trailing(buffer, obit)?;

        Ok(DLocationUpdateProceeding {
            ssi,
            address_extension,
            proprietary,
        })
    }

    /// Serialize this PDU into the given BitBuffer.
    #[verifier::rlimit(50)]
    pub fn to_bitbuf(&self, buffer: &mut BitBuffer) -> (r: Result<(), PduParseError>)
        requires
            old(buffer).wf(),
            old(buffer).writable(),
            self.wf(),
        ensures
            final(buffer).wf(),
            final(buffer).writable(),
            final(buffer).cursor() == old(buffer).cursor(),
            final(buffer).bits() == old(buffer).bits() + self.enc(),
            r is Ok,
    {
        broadcast use crate::bits::lemma_seq_add_assoc;
        broadcast use crate::bits::lemma_seq_add_empty_right;
        broadcast use crate::bits::lemma_seq_add_empty_left;

        proof {
            lemma2_to64();
        }
        buffer.write_bits(MmPduTypeDl::DLocationUpdateProceeding.into_raw(), 4);
        buffer.write_bits(self.ssi as u64, 24);
        buffer.write_bits(self.address_extension as u64, 24);

        // Check if any optional field present and place o-bit
        let obit_val = self.proprietary.is_some();
        delimiters::write_obit(
            buffer,
            if obit_val {
                1
            } else {
                0
            },
        );
        if !obit_val {
            return Ok(());
        }
        write_opt_elem(buffer, &self.proprietary);
        // Write terminating m-bit
        delimiters::write_mbit(buffer, 0);
        Ok(())
    }
}

} // verus!
