//! The D-STATUS PDU: the SwMI forwards a pre-coded status value to the MS.

use vstd::prelude::*;
use vstd::arithmetic::power2::lemma2_to64;
use crate::bits::{enc_field, enc_opt_field, fits};
use crate::bitbuffer::{read_res, BitBuffer};
use crate::delimiters;
use crate::delimiters::trailing_res;
use crate::type34::{enc_opt_elem, type3_res, write_opt_elem, Type34Err, Type3Element};
use crate::pdu_parse_error::{expect_pdu_type, PduParseError};
use crate::cmce::pdu_type::CmcePduTypeDl;
use crate::cmce::elem_id::CmceType3ElemId;

verus! {

#[derive(Debug)]
pub struct DStatus {
    /// Type1, 2 bits
    pub calling_party_type_identifier: u8,
    /// Conditional, 24 bits
    pub calling_party_address_ssi: Option<u64>,
    /// Conditional, 24 bits
    pub calling_party_extension: Option<u64>,
    /// Type1, 16 bits
    pub pre_coded_status: u16,
    /// Type3
    pub external_subscriber_number: Option<Type3Element>,
    /// Type3
    pub dm_ms_address: Option<Type3Element>,
}

impl DStatus {
    /// Whether any optional element is present, which decides the o-bit.
    pub open spec fn has_optionals(self) -> bool {
        self.external_subscriber_number is Some || self.dm_ms_address is Some
    }

    /// Every field fits its wire width and every element carries its own tag.
    pub open spec fn wf(self) -> bool {
        &&& fits(self.calling_party_type_identifier as u64, 2)
        &&& (self.calling_party_address_ssi matches Some(v) ==> fits(v, 24))
        &&& (self.calling_party_extension matches Some(v) ==> fits(v, 24))
        &&& fits(self.pre_coded_status as u64, 16)
        &&& (self.external_subscriber_number matches Some(e) ==> e.wf() && e.field_type == CmceType3ElemId::ExternalSubscriberNumber.raw())
        &&& (self.dm_ms_address matches Some(e) ==> e.wf() && e.field_type == CmceType3ElemId::DmMsAddress.raw())
    }

    /// What decoding yields from the bits at a cursor: the decoded PDU or
    /// the exact failure, together with the cursor position afterwards.
    pub open spec fn spec_parse(s: Seq<bool>, pos: nat) -> (Result<DStatus, PduParseError>, nat) {
        match read_res(s, pos, 5) {
            None => (Err::<DStatus, PduParseError>(PduParseError::BufferEnded { field: "pdu_type" }), pos),
            Some((p0, v0)) => {
                if v0 != CmcePduTypeDl::DStatus.raw() {
                    (Err::<DStatus, PduParseError>(PduParseError::InvalidPduType { expected: CmcePduTypeDl::DStatus.raw(), found: v0 }), p0)
                } else {
                    match read_res(s, p0, 2) {
                        None => (Err::<DStatus, PduParseError>(PduParseError::BufferEnded { field: "calling_party_type_identifier" }), p0),
                        Some((p1, v1)) => {
                            let calling_party_type_identifier = v1 as u8;
                            let step2: (Result<Option<u64>, PduParseError>, nat) = if calling_party_type_identifier == 1 || calling_party_type_identifier == 2 {
                                match read_res(s, p1, 24) {
                                    None => (Err(PduParseError::BufferEnded { field: "calling_party_address_ssi" }), p1),
                                    Some((q, v)) => (Ok(Some(v)), q),
                                }
                            } else {
                                (Ok(None), p1)
                            };
                            match step2.0 {
                                Err(e) => (Err::<DStatus, PduParseError>(e), step2.1),
                                Ok(calling_party_address_ssi) => {
                                    let step3: (Result<Option<u64>, PduParseError>, nat) = if calling_party_type_identifier == 2 {
                                        match read_res(s, step2.1, 24) {
                                            None => (Err(PduParseError::BufferEnded { field: "calling_party_extension" }), step2.1),
                                            Some((q, v)) => (Ok(Some(v)), q),
                                        }
                                    } else {
                                        (Ok(None), step2.1)
                                    };
                                    match step3.0 {
                                        Err(e) => (Err::<DStatus, PduParseError>(e), step3.1),
                                        Ok(calling_party_extension) => {
                                            match read_res(s, step3.1, 16) {
                                                None => (Err::<DStatus, PduParseError>(PduParseError::BufferEnded { field: "pre_coded_status" }), step3.1),
                                                Some((p4, v4)) => {
                                                    let pre_coded_status = v4 as u16;
                                                    match read_res(s, p4, 1) {
                                                        None => (Err::<DStatus, PduParseError>(PduParseError::BufferEnded { field: "obit" }), p4),
                                                        Some((p5, v5)) => {
                                                            let obit = v5 == 1;
                                                            let step6: (Result<Option<Type3Element>, PduParseError>, nat) = if obit {
                                                                let t: (Result<(usize, u64), Type34Err>, nat) = type3_res(s, p5, CmceType3ElemId::ExternalSubscriberNumber.raw());
                                                                (
                                                                    match t.0 {
                                                                        Ok((l, d)) => Ok(Some(Type3Element { field_type: CmceType3ElemId::ExternalSubscriberNumber.raw(), data: d, len: l })),
                                                                        Err(Type34Err::FieldNotPresent) => Ok(None),
                                                                        Err(_) => Err(PduParseError::BufferEnded { field: "external_subscriber_number" }),
                                                                    },
                                                                    t.1,
                                                                )
                                                            } else {
                                                                (Ok(None), p5)
                                                            };
                                                            match step6.0 {
                                                                Err(e) => (Err::<DStatus, PduParseError>(e), step6.1),
                                                                Ok(external_subscriber_number) => {
                                                                    let step7: (Result<Option<Type3Element>, PduParseError>, nat) = if obit {
                                                                        let t: (Result<(usize, u64), Type34Err>, nat) = type3_res(s, step6.1, CmceType3ElemId::DmMsAddress.raw());
                                                                        (
                                                                            match t.0 {
                                                                                Ok((l, d)) => Ok(Some(Type3Element { field_type: CmceType3ElemId::DmMsAddress.raw(), data: d, len: l })),
                                                                                Err(Type34Err::FieldNotPresent) => Ok(None),
                                                                                Err(_) => Err(PduParseError::BufferEnded { field: "dm_ms_address" }),
                                                                            },
                                                                            t.1,
                                                                        )
                                                                    } else {
                                                                        (Ok(None), step6.1)
                                                                    };
                                                                    match step7.0 {
                                                                        Err(e) => (Err::<DStatus, PduParseError>(e), step7.1),
                                                                        Ok(dm_ms_address) => {
                                                                            let tr: (Result<(), PduParseError>, nat) = trailing_res(s, step7.1, obit);
                                                                            match tr.0 {
                                                                                Err(e) => (Err::<DStatus, PduParseError>(e), tr.1),
                                                                                Ok(_) => (Ok::<DStatus, PduParseError>(DStatus { calling_party_type_identifier, calling_party_address_ssi, calling_party_extension, pre_coded_status, external_subscriber_number, dm_ms_address }), tr.1),
                                                                            }
                                                                        },
                                                                    }
                                                                },
                                                            }
                                                        },
                                                    }
                                                },
                                            }
                                        },
                                    }
                                },
                            }
                        },
                    }
                }
            },
        }
    }

    /// The PDU's wire image: the type code and the fixed part, then either
    /// a clear o-bit alone or a set o-bit followed by the optional part and
    /// the trailing m-bit.
    pub open spec fn enc(self) -> Seq<bool> {
        enc_field(CmcePduTypeDl::DStatus.raw(), 5) + enc_field(self.calling_party_type_identifier as u64, 2) + enc_opt_field(self.calling_party_address_ssi, 24) + enc_opt_field(self.calling_party_extension, 24) + enc_field(self.pre_coded_status as u64, 16) + if self.has_optionals() {
            seq![true] + enc_opt_elem(self.external_subscriber_number) + enc_opt_elem(self.dm_ms_address) + seq![false]
        } else {
            seq![false]
        }
    }

    /// Parse from BitBuffer.
    pub fn from_bitbuf(buffer: &mut BitBuffer) -> (r: Result<DStatus, PduParseError>)
        requires
            old(buffer).wf(),
        ensures
            final(buffer).wf(),
            final(buffer).bits() == old(buffer).bits(),
            final(buffer).writable() == old(buffer).writable(),
            old(buffer).cursor() <= final(buffer).cursor() <= old(buffer).bits().len(),
            r matches Ok(p) ==> p.wf(),
            ({
                let sp = DStatus::spec_parse(old(buffer).bits(), old(buffer).cursor());
                r == sp.0 && final(buffer).cursor() == sp.1
            }),
    {
        proof {
            lemma2_to64();
        }
        let pdu_type = buffer.read_field(5, "pdu_type")?;
        expect_pdu_type(pdu_type, CmcePduTypeDl::DStatus.into_raw())?;
        let calling_party_type_identifier = buffer.read_field(2, "calling_party_type_identifier")? as u8;
        let calling_party_address_ssi = if calling_party_type_identifier == 1 || calling_party_type_identifier == 2 {
            Some(buffer.read_field(24, "calling_party_address_ssi")?)
        } else {
            None
        };
        let calling_party_extension = if calling_party_type_identifier == 2 {
            Some(buffer.read_field(24, "calling_party_extension")?)
        } else {
            None
        };
        let pre_coded_status = buffer.read_field(16, "pre_coded_status")? as u16;

        // obit designates presence of any further type2, type3 or type4 fields
        let obit = delimiters::read_obit(buffer)?;
        let external_subscriber_number = if obit {
            Type3Element::parse_opt(buffer, CmceType3ElemId::ExternalSubscriberNumber.into_raw(), "external_subscriber_number")?
        } else {
            None
        };
        let dm_ms_address = if obit {
            Type3Element::parse_opt(buffer, CmceType3ElemId::DmMsAddress.into_raw(), "dm_ms_address")?
        } else {
            None
        };

        // Reject a trailing mbit left set after the last recognized element
        delimiters::check_trailing(buffer, obit)?;

        Ok(DStatus {
            calling_party_type_identifier,
            calling_party_address_ssi,
            calling_party_extension,
            pre_coded_status,
            external_subscriber_number,
            dm_ms_address,
        })
    }

    /// Serialize this PDU into the given BitBuffer.
    #[verifier::rlimit(50)]
    pub fn to_bitbuf(&self, buffer: &mut BitBuffer) -> (r: Result<(), PduParseError>)
        requires
            old(buffer).wf(),
            old(buffer).writable(),
            self.wf(),
        ensures
            final(buffer).wf(),
            final(buffer).writable(),
            final(buffer).cursor() == old(buffer).cursor(),
            final(buffer).bits() == old(buffer).bits() + self.enc(),
            r is Ok,
    {
        broadcast use crate::bits::lemma_seq_add_assoc;
        broadcast use crate::bits::lemma_seq_add_empty_right;
        broadcast use crate::bits::lemma_seq_add_empty_left;

        proof {
            lemma2_to64();
        }
        buffer.write_bits(CmcePduTypeDl::DStatus.into_raw(), 5);
        buffer.write_bits(self.calling_party_type_identifier as u64, 2);
        buffer.write_opt_bits(self.calling_party_address_ssi, 24);
        buffer.write_opt_bits(self.calling_party_extension, 24);
        buffer.write_bits(self.pre_coded_status as u64, 16);

        // Check if any optional field present and place o-bit
        let obit_val = self.external_subscriber_number.is_some() || self.dm_ms_address.is_some();
        delimiters::write_obit(
            buffer,
            if obit_val {
                1
            } else {
                0
            },
        );
        if !obit_val {
            return Ok(());
        }
        write_opt_elem(buffer, &self.external_subscriber_number);
        write_opt_elem(buffer, &self.dm_ms_address);
        // Write terminating m-bit
        delimiters::write_mbit(buffer, 0);
        Ok(())
    }
}

} // verus!
