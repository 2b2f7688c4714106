//! The U-ITSI DETACH PDU (clause 16.9.3.3): the MS announces that it will be de-activated.

use vstd::prelude::*;
use vstd::arithmetic::power2::lemma2_to64;
use crate::bits::{enc_field, enc_type2, fits};
use crate::bitbuffer::{read_res, BitBuffer};
use crate::delimiters;
use crate::delimiters::trailing_res;
use crate::type2;
use crate::type2::type2_res;
use crate::type34::{enc_opt_elem, type3_res, write_opt_elem, Type34Err, Type3Element};
use crate::pdu_parse_error::{expect_pdu_type, PduParseError};
use crate::mm::pdu_type::MmPduTypeUl;
use crate::mm::elem_id::MmType34ElemIdUl;

verus! {

#[derive(Debug)]
pub struct UItsiDetach {
    /// Type2, 24 bits
    pub address_extension: Option<u64>,
    /// Type3
    pub proprietary: Option<Type3Element>,
}

impl UItsiDetach {
    /// Whether any optional element is present, which decides the o-bit.
    pub open spec fn has_optionals(self) -> bool {
        self.address_extension is Some || self.proprietary is Some
    }

    /// Every field fits its wire width and every element carries its own tag.
    pub open spec fn wf(self) -> bool {
        &&& (self.address_extension matches Some(v) ==> fits(v, 24))
        &&& (self.proprietary matches Some(e) ==> e.wf() && e.field_type == MmType34ElemIdUl::Proprietary.raw())
    }

    /// What decoding yields from the bits at a cursor: the decoded PDU or
    /// the exact failure, together with the cursor position afterwards.
    pub open spec fn spec_parse(s: Seq<bool>, pos: nat) -> (Result<UItsiDetach, PduParseError>, nat) {
        match read_res(s, pos, 4) {
            None => (Err::<UItsiDetach, PduParseError>(PduParseError::BufferEnded { field: "pdu_type" }), pos),
            Some((p0, v0)) => {
                if v0 != MmPduTypeUl::UItsiDetach.raw() {
                    (Err::<UItsiDetach, PduParseError>(PduParseError::InvalidPduType { expected: MmPduTypeUl::UItsiDetach.raw(), found: v0 }), p0)
                } else {
                    match read_res(s, p0, 1) {
                        None => (Err::<UItsiDetach, PduParseError>(PduParseError::BufferEnded { field: "obit" }), p0),
                        Some((p1, v1)) => {
                            let obit = v1 == 1;
                            let step2: (Result<Option<u64>, PduParseError>, nat) = if obit {
                                type2_res(s, p1, 24, "address_extension")
                            } else {
                                (Ok(None), p1)
                            };
                            match step2.0 {
                                Err(e) => (Err::<UItsiDetach, PduParseError>(e), step2.1),
                                Ok(address_extension) => {
                                    let t3: (Result<(usize, u64), Type34Err>, nat) = type3_res(s, step2.1, MmType34ElemIdUl::Proprietary.raw());
                                    let proprietary: Option<Type3Element> = match t3.0 {
                                        Ok((l, d)) => Some(Type3Element { field_type: MmType34ElemIdUl::Proprietary.raw(), data: d, len: l }),
                                        Err(_) => None,
                                    };
                                    let tr: (Result<(), PduParseError>, nat) = trailing_res(s, t3.1, obit);
                                    match tr.0 {
                                        Err(e) => (Err::<UItsiDetach, PduParseError>(e), tr.1),
                                        Ok(_) => (Ok::<UItsiDetach, PduParseError>(UItsiDetach { address_extension, proprietary }), tr.1),
                                    }
                                },
                            }
                        },
                    }
                }
            },
        }
    }

    /// The PDU's wire image: the type code and the fixed part, then either
    /// a clear o-bit alone or a set o-bit followed by the optional part and
    /// the trailing m-bit.
    pub open spec fn enc(self) -> Seq<bool> {
        enc_field(MmPduTypeUl::UItsiDetach.raw(), 4) + if self.has_optionals() {
            seq![true] + enc_type2(self.address_extension, 24) + enc_opt_elem(self.proprietary) + seq![false]
        } else {
            seq![false]
        }
    }

    /// Parse from BitBuffer.
    pub fn from_bitbuf(buffer: &mut BitBuffer) -> (r: Result<UItsiDetach, PduParseError>)
        requires
            old(buffer).wf(),
        ensures
            final(buffer).wf(),
            final(buffer).bits() == old(buffer).bits(),
            final(buffer).writable() == old(buffer).writable(),
            old(buffer).cursor() <= final(buffer).cursor() <= old(buffer).bits().len(),
            r matches Ok(p) ==> p.wf(),
            ({
                let sp = UItsiDetach::spec_parse(old(buffer).bits(), old(buffer).cursor());
                r == sp.0 && final(buffer).cursor() == sp.1
            }),
    {
        proof {
            lemma2_to64();
        }
        let pdu_type = buffer.read_field(4, "pdu_type")?;
        expect_pdu_type(pdu_type, MmPduTypeUl::UItsiDetach.into_raw())?;

        // obit designates presence of any further type2, type3 or type4 fields
        let obit = delimiters::read_obit(buffer)?;
        let address_extension = if obit {
            type2::parse(buffer, 24, "address_extension")?
        } else {
            None
        };
        let proprietary = match Type3Element::try_parse(buffer, MmType34ElemIdUl::Proprietary.into_raw()) {
            Ok(value) => Some(value),
            Err(_) => None,
        };

        // Reject a trailing mbit left set after the last recognized element
        delimiters::check_trailing(buffer, obit)?;

        Ok(UItsiDetach {
            address_extension,
            proprietary,
        })
    }

    /// Serialize this PDU into the given BitBuffer.
    #[verifier::rlimit(50)]
    pub fn to_bitbuf(&self, buffer: &mut BitBuffer) -> (r: Result<(), PduParseError>)
        requires
            old(buffer).wf(),
            old(buffer).writable(),
            self.wf(),
        ensures
            final(buffer).wf(),
            final(buffer).writable(),
            final(buffer).cursor() == old(buffer).cursor(),
            final(buffer).bits() == old(buffer).bits() + self.enc(),
            r is Ok,
    {
        broadcast use crate::bits::lemma_seq_add_assoc;
        broadcast use crate::bits::lemma_seq_add_empty_right;
        broadcast use crate::bits::lemma_seq_add_empty_left;

        proof {
            lemma2_to64();
        }
        buffer.write_bits(MmPduTypeUl::UItsiDetach.into_raw(), 4);

        // Check if any optional field present and place o-bit
        let obit_val = self.address_extension.is_some() || self.proprietary.is_some();
        delimiters::write_obit(
            buffer,
            if obit_val {
                1
            } else {
                0
            },
        );
        if !obit_val {
            return Ok(());
        }
        type2::write(buffer, self.address_extension, 24);
        write_opt_elem(buffer, &self.proprietary);
        // Write terminating m-bit
        delimiters::write_mbit(buffer, 0);
        Ok(())
    }
}

} // verus!
