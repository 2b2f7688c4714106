//! The D-LOCATION UPDATE REJECT PDU: the infrastructure refuses a location update, giving the reject cause.

use vstd::prelude::*;
use vstd::arithmetic::power2::lemma2_to64;
use crate::bits::{enc_field, enc_opt_field, enc_type2, fits};
use crate::bitbuffer::{read_res, BitBuffer};
use crate::delimiters;
use crate::delimiters::trailing_res;
use crate::type2;
use crate::type2::type2_res;
use crate::type34::{enc_opt_elem, type3_res, write_opt_elem, Type34Err, Type3Element};
use crate::pdu_parse_error::{expect_pdu_type, PduParseError};
use crate::mm::pdu_type::MmPduTypeDl;
use crate::mm::elem_id::MmType34ElemIdDl;

verus! {

#[derive(Debug)]
pub struct DLocationUpdateReject {
    /// Type1, 3 bits
    pub location_update_type: u8,
    /// Type1, 5 bits
    pub reject_cause: u8,
    /// Type1, 1 bits
    pub cipher_control: bool,
    /// Conditional, 10 bits
    pub ciphering_parameters: Option<u64>,
    /// Type2, 24 bits
    pub address_extension: Option<u64>,
    /// Type3
    pub cell_type_control: Option<Type3Element>,
    /// Type3
    pub proprietary: Option<Type3Element>,
}

impl DLocationUpdateReject {
    /// Whether any optional element is present, which decides the o-bit.
    pub open spec fn has_optionals(self) -> bool {
        self.address_extension is Some || self.cell_type_control is Some || self.proprietary is Some
    }

    /// Every field fits its wire width and every element carries its own tag.
    pub open spec fn wf(self) -> bool {
        &&& fits(self.location_update_type as u64, 3)
        &&& fits(self.reject_cause as u64, 5)
        &&& (self.ciphering_parameters matches Some(v) ==> fits(v, 10))
        &&& (self.address_extension matches Some(v) ==> fits(v, 24))
        &&& (self.cell_type_control matches Some(e) ==> e.wf() && e.field_type == MmType34ElemIdDl::CellTypeControl.raw())
        &&& (self.proprietary matches Some(e) ==> e.wf() && e.field_type == MmType34ElemIdDl::Proprietary.raw())
    }

    /// What decoding yields from the bits at a cursor: the decoded PDU or
    /// the exact failure, together with the cursor position afterwards.
    pub open spec fn spec_parse(s: Seq<bool>, pos: nat) -> (Result<DLocationUpdateReject, PduParseError>, nat) {
        match read_res(s, pos, 4) {
            None => (Err::<DLocationUpdateReject, PduParseError>(PduParseError::BufferEnded { field: "pdu_type" }), pos),
            Some((p0, v0)) => {
                if v0 != MmPduTypeDl::DLocationUpdateReject.raw() {
                    (Err::<DLocationUpdateReject, PduParseError>(PduParseError::InvalidPduType { expected: MmPduTypeDl::DLocationUpdateReject.raw(), found: v0 }), p0)
                } else {
                    match read_res(s, p0, 3) {
                        None => (Err::<DLocationUpdateReject, PduParseError>(PduParseError::BufferEnded { field: "location_update_type" }), p0),
                        Some((p1, v1)) => {
                            let location_update_type = v1 as u8;
                            match read_res(s, p1, 5) {
                                None => (Err::<DLocationUpdateReject, PduParseError>(PduParseError::BufferEnded { field: "reject_cause" }), p1),
                                Some((p2, v2)) => {
                                    let reject_cause = v2 as u8;
                                    match read_res(s, p2, 1) {
                                        None => (Err::<DLocationUpdateReject, PduParseError>(PduParseError::BufferEnded { field: "cipher_control" }), p2),
                                        Some((p3, v3)) => {
                                            let cipher_control = v3 != 0;
                                            let step4: (Result<Option<u64>, PduParseError>, nat) = if cipher_control {
                                                match read_res(s, p3, 10) {
                                                    None => (Err(PduParseError::BufferEnded { field: "ciphering_parameters" }), p3),
                                                    Some((q, v)) => (Ok(Some(v)), q),
                                                }
                                            } else {
                                                (Ok(None), p3)
                                            };
                                            match step4.0 {
                                                Err(e) => (Err::<DLocationUpdateReject, PduParseError>(e), step4.1),
                                                Ok(ciphering_parameters) => {
                                                    match read_res(s, step4.1, 1) {
                                                        None => (Err::<DLocationUpdateReject, PduParseError>(PduParseError::BufferEnded { field: "obit" }), step4.1),
                                                        Some((p5, v5)) => {
                                                            let obit = v5 == 1;
                                                            let step6: (Result<Option<u64>, PduParseError>, nat) = if obit {
                                                                type2_res(s, p5, 24, "address_extension")
                                                            } else {
                                                                (Ok(None), p5)
                                                            };
                                                            match step6.0 {
                                                                Err(e) => (Err::<DLocationUpdateReject, PduParseError>(e), step6.1),
                                                                Ok(address_extension) => {
                                                                    let t7: (Result<(usize, u64), Type34Err>, nat) = type3_res(s, step6.1, MmType34ElemIdDl::CellTypeControl.raw());
                                                                    let cell_type_control: Option<Type3Element> = match t7.0 {
                                                                        Ok((l, d)) => Some(Type3Element { field_type: MmType34ElemIdDl::CellTypeControl.raw(), data: d, len: l }),
                                                                        Err(_) => None,
                                                                    };
                                                                    let t8: (Result<(usize, u64), Type34Err>, nat) = type3_res(s, t7.1, MmType34ElemIdDl::Proprietary.raw());
                                                                    let proprietary: Option<Type3Element> = match t8.0 {
                                                                        Ok((l, d)) => Some(Type3Element { field_type: MmType34ElemIdDl::Proprietary.raw(), data: d, len: l }),
                                                                        Err(_) => None,
                                                                    };
                                                                    let tr: (Result<(), PduParseError>, nat) = trailing_res(s, t8.1, obit);
                                                                    match tr.0 {
                                                                        Err(e) => (Err::<DLocationUpdateReject, PduParseError>(e), tr.1),
                                                                        Ok(_) => (Ok::<DLocationUpdateReject, PduParseError>(DLocationUpdateReject { location_update_type, reject_cause, cipher_control, ciphering_parameters, address_extension, cell_type_control, proprietary }), tr.1),
                                                                    }
                                                                },
                                                            }
                                                        },
                                                    }
                                                },
                                            }
                                        },
                                    }
                                },
                            }
                        },
                    }
                }
            },
        }
    }

    /// The PDU's wire image: the type code and the fixed part, then either
    /// a clear o-bit alone or a set o-bit followed by the optional part and
    /// the trailing m-bit.
    pub open spec fn enc(self) -> Seq<bool> {
        enc_field(MmPduTypeDl::DLocationUpdateReject.raw(), 4) + enc_field(self.location_update_type as u64, 3) + enc_field(self.reject_cause as u64, 5) + seq![self.cipher_control] + enc_opt_field(self.ciphering_parameters, 10) + if self.has_optionals() {
            seq![true] + enc_type2(self.address_extension, 24) + enc_opt_elem(self.cell_type_control) + enc_opt_elem(self.proprietary) + seq![false]
        } else {
            seq![false]
        }
    }

    /// Parse from BitBuffer.
    pub fn from_bitbuf(buffer: &mut BitBuffer) -> (r: Result<DLocationUpdateReject, PduParseError>)
        requires
            old(buffer).wf(),
        ensures
            final(buffer).wf(),
            final(buffer).bits() == old(buffer).bits(),
            final(buffer).writable() == old(buffer).writable(),
            old(buffer).cursor() <= final(buffer).cursor() <= old(buffer).bits().len(),
            r matches Ok(p) ==> p.wf(),
            ({
                let sp = DLocationUpdateReject::spec_parse(old(buffer).bits(), old(buffer).cursor());
                r == sp.0 && final(buffer).cursor() == sp.1
            }),
    {
        proof {
            lemma2_to64();
        }
        let pdu_type = buffer.read_field(4, "pdu_type")?;
        expect_pdu_type(pdu_type, MmPduTypeDl::DLocationUpdateReject.into_raw())?;
        let location_update_type = buffer.read_field(3, "location_update_type")? as u8;
        let reject_cause = buffer.read_field(5, "reject_cause")? as u8;
        let cipher_control = buffer.read_field(1, "cipher_control")? != 0;
        let ciphering_parameters = if cipher_control {
            Some(buffer.read_field(10, "ciphering_parameters")?)
        } else {
            None
        };

        // obit designates presence of any further type2, type3 or type4 fields
        let obit = delimiters::read_obit(buffer)?;
        let address_extension = if obit {
            type2::parse(buffer, 24, "address_extension")?
        } else {
            None
        };
        let cell_type_control = match Type3Element::try_parse(buffer, MmType34ElemIdDl::CellTypeControl.into_raw()) {
            Ok(value) => Some(value),
            Err(_) => None,
        };
        let proprietary = match Type3Element::try_parse(buffer, MmType34ElemIdDl::Proprietary.into_raw()) {
            Ok(value) => Some(value),
            Err(_) => None,
        };

        // Reject a trailing mbit left set after the last recognized element
        delimiters::check_trailing(buffer, obit)?;

        Ok(DLocationUpdateReject {
            location_update_type,
            reject_cause,
            cipher_control,
            ciphering_parameters,
            address_extension,
            cell_type_control,
            proprietary,
        })
    }

    /// Serialize this PDU into the given BitBuffer.
    #[verifier::rlimit(50)]
    pub fn to_bitbuf(&self, buffer: &mut BitBuffer) -> (r: Result<(), PduParseError>)
        requires
            old(buffer).wf(),
            old(buffer).writable(),
            self.wf(),
        ensures
            final(buffer).wf(),
            final(buffer).writable(),
            final(buffer).cursor() == old(buffer).cursor(),
            final(buffer).bits() == old(buffer).bits() + self.enc(),
            r is Ok,
    {
        broadcast use crate::bits::lemma_seq_add_assoc;
        broadcast use crate::bits::lemma_seq_add_empty_right;
        broadcast use crate::bits::lemma_seq_add_empty_left;

        proof {
            lemma2_to64();
        }
        buffer.write_bits(MmPduTypeDl::DLocationUpdateReject.into_raw(), 4);
        buffer.write_bits(self.location_update_type as u64, 3);
        buffer.write_bits(self.reject_cause as u64, 5);
        buffer.write_bit(
            if self.cipher_control {
                1
            } else {
                0
            },
        );
        buffer.write_opt_bits(self.ciphering_parameters, 10);

        // Check if any optional field present and place o-bit
        let obit_val = self.address_extension.is_some() || self.cell_type_control.is_some() || self.proprietary.is_some();
        delimiters::write_obit(
            buffer,
            if obit_val {
                1
            } else {
                0
            },
        );
        if !obit_val {
            return Ok(());
        }
        type2::write(buffer, self.address_extension, 24);
        write_opt_elem(buffer, &self.cell_type_control);
        write_opt_elem(buffer, &self.proprietary);
        // Write terminating m-bit
        delimiters::write_mbit(buffer, 0);
        Ok(())
    }
}

} // verus!
