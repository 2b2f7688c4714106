//! The Group Identity Downlink sub-element: the fixed 32-bit record repeated
//! inside the Type-4 container of the attachment acknowledgement PDU.

use vstd::prelude::*;
use vstd::arithmetic::power2::lemma2_to64;
use crate::bits::{enc_field, fits};
use crate::bitbuffer::{read_res, BitBuffer};
use crate::pdu_parse_error::PduParseError;
use crate::type34::write_type4_header_generic;
use crate::mm::elem_id::MmType34ElemIdDl;

verus! {

/// The wire image of a run of group identity records, back to back.
pub open spec fn enc_gids(s: Seq<GroupIdentityDownlink>) -> Seq<bool>
    decreases s.len(),
{
    if s.len() == 0 {
        Seq::<bool>::empty()
    } else {
        enc_gids(s.drop_last()) + s.last().enc()
    }
}

/// The wire image of the whole Type-4 container holding the records: m-bit,
/// tag, the 11-bit total length (6 bits of count plus 32 per record), the
/// 6-bit count, then the records.
pub open spec fn enc_gid_container(s: Seq<GroupIdentityDownlink>) -> Seq<bool> {
    seq![true] + enc_field(MmType34ElemIdDl::GroupIdentityDownlink.raw(), 4) + enc_field(
        (6 + 32 * s.len()) as u64,
        11,
    ) + enc_field(s.len() as u64, 6) + enc_gids(s)
}

/// The wire image of the optional container: its encoding when present,
/// nothing when absent.
pub open spec fn enc_opt_gid_container(v: Option<Vec<GroupIdentityDownlink>>) -> Seq<bool> {
    match v {
        Some(s) => enc_gid_container(s@),
        None => Seq::<bool>::empty(),
    }
}


/// What decoding one 32-bit record yields at a cursor: the record or the
/// exact failure, together with the cursor position afterwards.
pub open spec fn gid_res(s: Seq<bool>, pos: nat) -> (Result<GroupIdentityDownlink, PduParseError>, nat) {
    match read_res(s, pos, 1) {
        None => (Err::<GroupIdentityDownlink, PduParseError>(PduParseError::BufferEnded { field: "attach_detach_type_identifier" }), pos),
        Some((p0, v0)) => {
            let attach_detach_type_identifier = v0 != 0;
            match read_res(s, p0, 2) {
                None => (Err::<GroupIdentityDownlink, PduParseError>(PduParseError::BufferEnded { field: "group_identity_attachment_lifetime" }), p0),
                Some((p1, v1)) => {
                    let group_identity_attachment_lifetime = v1 as u8;
                    match read_res(s, p1, 3) {
                        None => (Err::<GroupIdentityDownlink, PduParseError>(PduParseError::BufferEnded { field: "class_of_usage" }), p1),
                        Some((p2, v2)) => {
                            let class_of_usage = v2 as u8;
                            match read_res(s, p2, 2) {
                                None => (Err::<GroupIdentityDownlink, PduParseError>(PduParseError::BufferEnded { field: "group_identity_address_type" }), p2),
                                Some((p3, v3)) => {
                                    let group_identity_address_type = v3 as u8;
                                    match read_res(s, p3, 24) {
                                        None => (Err::<GroupIdentityDownlink, PduParseError>(PduParseError::BufferEnded { field: "gssi" }), p3),
                                        Some((p4, v4)) => {
                                            let gssi = v4 as u32;
                                            (
                                                Ok::<GroupIdentityDownlink, PduParseError>(
                                                    GroupIdentityDownlink {
                                                        attach_detach_type_identifier,
                                                        group_identity_attachment_lifetime,
                                                        class_of_usage,
                                                        group_identity_address_type,
                                                        gssi,
                                                    },
                                                ),
                                                p4,
                                            )
                                        },
                                    }
                                },
                            }
                        },
                    }
                },
            }
        },
    }
}

/// What decoding a run of `n` records yields: the records in order, or the
/// first failure, together with the cursor position afterwards.
pub open spec fn spec_parse_gids(s: Seq<bool>, pos: nat, n: nat) -> (Result<
    Seq<GroupIdentityDownlink>,
    PduParseError,
>, nat)
    decreases n,
{
    if n == 0 {
        (Ok(Seq::<GroupIdentityDownlink>::empty()), pos)
    } else {
        let h = gid_res(s, pos);
        match h.0 {
            Err(e) => (Err(e), h.1),
            Ok(g) => {
                let t = spec_parse_gids(s, h.1, (n - 1) as nat);
                match t.0 {
                    Err(e) => (Err(e), t.1),
                    Ok(rest) => (Ok(Seq::<GroupIdentityDownlink>::empty().push(g) + rest), t.1),
                }
            },
        }
    }
}

/// One group identity record: attach/detach selector, attachment lifetime,
/// class of usage, address type, and the group short subscriber identity.
#[derive(Debug, Clone, Copy, PartialEq, Eq, Structural)]
pub struct GroupIdentityDownlink {
    /// 1 bit: attachment (`false`) or detachment (`true`).
    pub attach_detach_type_identifier: bool,
    /// 2 bits: how long the attachment lasts.
    pub group_identity_attachment_lifetime: u8,
    /// 3 bits: class of usage.
    pub class_of_usage: u8,
    /// 2 bits: which address form follows.
    pub group_identity_address_type: u8,
    /// 24 bits: the GSSI itself.
    pub gssi: u32,
}

impl GroupIdentityDownlink {
    /// Every field fits the width its position on the wire gives it.
    pub open spec fn wf(self) -> bool {
        fits(self.group_identity_attachment_lifetime as u64, 2) && fits(
            self.class_of_usage as u64,
            3,
        ) && fits(self.group_identity_address_type as u64, 2) && fits(self.gssi as u64, 24)
    }

    /// The record's 32-bit wire image.
    pub open spec fn enc(self) -> Seq<bool> {
        seq![self.attach_detach_type_identifier] + enc_field(
            self.group_identity_attachment_lifetime as u64,
            2,
        ) + enc_field(self.class_of_usage as u64, 3) + enc_field(
            self.group_identity_address_type as u64,
            2,
        ) + enc_field(self.gssi as u64, 24)
    }

    /// Decode one 32-bit record at the cursor: exactly the five fields in
    /// wire order, or the buffer-exhaustion error naming the first field
    /// that overran.
    pub fn from_bitbuf(buffer: &mut BitBuffer) -> (r: Result<GroupIdentityDownlink, PduParseError>)
        requires
            old(buffer).wf(),
        ensures
            final(buffer).wf(),
            final(buffer).bits() == old(buffer).bits(),
            final(buffer).writable() == old(buffer).writable(),
            old(buffer).cursor() <= final(buffer).cursor() <= old(buffer).bits().len(),
            ({
                let sp = gid_res(old(buffer).bits(), old(buffer).cursor());
                r == sp.0 && final(buffer).cursor() == sp.1
            }),
            r matches Ok(g) ==> g.wf(),
    {
        proof {
            if old(buffer).cursor() < old(buffer).bits().len() {
                crate::bits::lemma_field_at_single(old(buffer).bits(), old(buffer).cursor() as int);
            }
            lemma2_to64();
        }
        let attach_detach_type_identifier = buffer.read_field(1, "attach_detach_type_identifier")?
            != 0;
        let group_identity_attachment_lifetime = buffer.read_field(
            2,
            "group_identity_attachment_lifetime",
        )? as u8;
        let class_of_usage = buffer.read_field(3, "class_of_usage")? as u8;
        let group_identity_address_type = buffer.read_field(2, "group_identity_address_type")?
            as u8;
        let gssi = buffer.read_field(24, "gssi")? as u32;
        Ok(
            GroupIdentityDownlink {
                attach_detach_type_identifier,
                group_identity_attachment_lifetime,
                class_of_usage,
                group_identity_address_type,
                gssi,
            },
        )
    }

    /// Decode a run of `count` records back to back, as the container's
    /// declared element count directs; the first record that cannot be
    /// decoded fails the whole run.
    pub fn parse_run(buffer: &mut BitBuffer, count: usize) -> (r: Result<
        Vec<GroupIdentityDownlink>,
        PduParseError,
    >)
        requires
            old(buffer).wf(),
            count < 64,
        ensures
            final(buffer).wf(),
            final(buffer).bits() == old(buffer).bits(),
            final(buffer).writable() == old(buffer).writable(),
            old(buffer).cursor() <= final(buffer).cursor() <= old(buffer).bits().len(),
            ({
                let sp = spec_parse_gids(old(buffer).bits(), old(buffer).cursor(), count as nat);
                &&& final(buffer).cursor() == sp.1
                &&& match (r, sp.0) {
                    (Ok(v), Ok(q)) => v@ == q && v@.len() == count,
                    (Err(e1), Err(e2)) => e1 == e2,
                    _ => false,
                }
            }),
            r matches Ok(v) ==> forall|i: int| 0 <= i < v@.len() ==> v@[i].wf(),
    {
        broadcast use crate::bits::lemma_seq_add_empty_left;
        broadcast use crate::bits::lemma_seq_add_empty_right;
        broadcast use crate::bits::lemma_push_front_concat;

        let mut elems: Vec<GroupIdentityDownlink> = Vec::new();
        let mut k: usize = 0;
        while k < count
            invariant
                k <= count,
                count < 64,
                elems@.len() == k,
                forall|i: int| 0 <= i < elems@.len() ==> elems@[i].wf(),
                buffer.wf(),
                buffer.bits() == old(buffer).bits(),
                buffer.writable() == old(buffer).writable(),
                old(buffer).cursor() <= buffer.cursor() <= buffer.bits().len(),
                ({
                    let total = spec_parse_gids(
                        old(buffer).bits(),
                        old(buffer).cursor(),
                        count as nat,
                    );
                    let rem = spec_parse_gids(
                        old(buffer).bits(),
                        buffer.cursor(),
                        (count - k) as nat,
                    );
                    match rem.0 {
                        Ok(rest) => total == (
                            Ok::<Seq<GroupIdentityDownlink>, PduParseError>(elems@ + rest),
                            rem.1,
                        ),
                        Err(e) => total == (
                            Err::<Seq<GroupIdentityDownlink>, PduParseError>(e),
                            rem.1,
                        ),
                    }
                }),
            decreases count - k,
        {
            let ghost c0 = buffer.cursor();
            let ghost m = (count - k) as nat;
            let ghost e0 = elems@;
            let g = GroupIdentityDownlink::from_bitbuf(buffer)?;
            elems.push(g);
            k += 1;
            proof {
                let s = old(buffer).bits();
                let total = spec_parse_gids(s, old(buffer).cursor(), count as nat);
                let rem_old = spec_parse_gids(s, c0, m);
                let rem_new = spec_parse_gids(s, buffer.cursor(), (count - k) as nat);
                assert((count - k) as nat == (m - 1) as nat);
                assert(rem_old == (match rem_new.0 {
                    Ok(rest) => (
                        Ok::<Seq<GroupIdentityDownlink>, PduParseError>(
                            Seq::<GroupIdentityDownlink>::empty().push(g) + rest,
                        ),
                        rem_new.1,
                    ),
                    Err(e) => (Err::<Seq<GroupIdentityDownlink>, PduParseError>(e), rem_new.1),
                }));
                assert(elems@ == e0.push(g));
                match rem_new.0 {
                    Ok(rest) => {
                        assert(e0 + (Seq::<GroupIdentityDownlink>::empty().push(g) + rest) == e0.push(
                            g,
                        ) + rest);
                        assert(total == (
                            Ok::<Seq<GroupIdentityDownlink>, PduParseError>(elems@ + rest),
                            rem_new.1,
                        ));
                    },
                    Err(e) => {
                        assert(total == (
                            Err::<Seq<GroupIdentityDownlink>, PduParseError>(e),
                            rem_new.1,
                        ));
                    },
                }
            }
        }
        Ok(elems)
    }

    /// Encode the record: the five fields back to back, 32 bits in all.
    pub fn to_bitbuf(&self, buffer: &mut BitBuffer) -> (r: Result<(), PduParseError>)
        requires
            old(buffer).wf(),
            old(buffer).writable(),
            self.wf(),
        ensures
            final(buffer).wf(),
            final(buffer).writable(),
            final(buffer).cursor() == old(buffer).cursor(),
            final(buffer).bits() == old(buffer).bits() + self.enc(),
            r is Ok,
    {
        broadcast use crate::bits::lemma_seq_add_assoc;

        buffer.write_bit(if self.attach_detach_type_identifier {
            1
        } else {
            0
        });
        buffer.write_bits(self.group_identity_attachment_lifetime as u64, 2);
        buffer.write_bits(self.class_of_usage as u64, 3);
        buffer.write_bits(self.group_identity_address_type as u64, 2);
        buffer.write_bits(self.gssi as u64, 24);
        Ok(())
    }

    /// Encode the whole Type-4 container around a run of records: the
    /// envelope, the declared length and count, then each record in order.
    pub fn write_field(buffer: &mut BitBuffer, elems: &Vec<GroupIdentityDownlink>)
        requires
            old(buffer).wf(),
            old(buffer).writable(),
            elems@.len() <= 63,
            forall|i: int| 0 <= i < elems@.len() ==> elems@[i].wf(),
        ensures
            final(buffer).wf(),
            final(buffer).writable(),
            final(buffer).cursor() == old(buffer).cursor(),
            final(buffer).bits() == old(buffer).bits() + enc_gid_container(elems@),
    {
        broadcast use crate::bits::lemma_seq_add_assoc;

        proof {
            lemma2_to64();
        }
        let count = elems.len();
        write_type4_header_generic(buffer, MmType34ElemIdDl::GroupIdentityDownlink.into_raw());
        buffer.write_bits((6 + 32 * count) as u64, 11);
        buffer.write_bits(count as u64, 6);
        let ghost header = old(buffer).bits() + seq![true] + enc_field(
            MmType34ElemIdDl::GroupIdentityDownlink.raw(),
            4,
        ) + enc_field((6 + 32 * elems@.len()) as u64, 11) + enc_field(elems@.len() as u64, 6);
        let mut k: usize = 0;
        proof {
            assert(elems@.subrange(0, 0) =~= Seq::<GroupIdentityDownlink>::empty());
            assert(header + enc_gids(elems@.subrange(0, 0)) =~= header);
        }
        while k < count
            invariant
                k <= count,
                count == elems@.len() <= 63,
                forall|i: int| 0 <= i < elems@.len() ==> elems@[i].wf(),
                buffer.wf(),
                buffer.writable(),
                buffer.cursor() == old(buffer).cursor(),
                buffer.bits() == header + enc_gids(elems@.subrange(0, k as int)),
            decreases count - k,
        {
            let e = elems[k];
            let _ = e.to_bitbuf(buffer);
            proof {
                assert(elems@.subrange(0, k + 1).drop_last() =~= elems@.subrange(0, k as int));
                assert(elems@.subrange(0, k + 1).last() == elems@[k as int]);
                broadcast use crate::bits::lemma_seq_add_assoc;

            }
            k += 1;
        }
        proof {
            assert(elems@.subrange(0, elems@.len() as int) =~= elems@);
        }
    }

    /// Write the optional container: its full framing when present, nothing
    /// when absent.
    pub fn write_opt_field(buffer: &mut BitBuffer, elems: &Option<Vec<GroupIdentityDownlink>>)
        requires
            old(buffer).wf(),
            old(buffer).writable(),
            elems matches Some(gs) ==> gs@.len() <= 63 && (forall|i: int|
                0 <= i < gs@.len() ==> gs@[i].wf()),
        ensures
            final(buffer).wf(),
            final(buffer).writable(),
            final(buffer).cursor() == old(buffer).cursor(),
            final(buffer).bits() == old(buffer).bits() + enc_opt_gid_container(*elems),
    {
        proof {
            assert(old(buffer).bits() + Seq::<bool>::empty() =~= old(buffer).bits());
        }
        if let Some(ref gs) = elems {
            GroupIdentityDownlink::write_field(buffer, gs);
        }
    }
}

} // verus!
