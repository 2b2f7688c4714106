//! The codec's governing laws, stated once over the spec model that every
//! buffer and framing contract speaks, and proved for all inputs.

use vstd::prelude::*;
use vstd::arithmetic::power2::*;
use crate::bits::{
    bit_val, enc_field, enc_type2, field_at, fits, lemma_bits_of_len,
    lemma_bits_value_of_bits_of, lemma_field_at_single, lemma_subrange_of_middle,
};
use crate::bitbuffer::read_res;
use crate::delimiters::trailing_res;
use crate::type2::type2_res;
use crate::type34::{enc_opt_elem, type3_res, Type34Err, Type3Element};
use crate::pdu_parse_error::PduParseError;
use crate::mm::pdu_type::MmPduTypeUl;
use crate::mm::elem_id::MmType34ElemIdUl;
use crate::mm::u_itsi_detach::UItsiDetach;

verus! {

/// Law: fixed-field round trip. Reading a `w`-bit field from the position
/// where the `w`-bit encoding of `v` was appended gives back `v` and
/// advances exactly past it, whatever was in the buffer before and whatever
/// follows.
pub proof fn lemma_type1_round_trip(prefix: Seq<bool>, v: u64, w: nat, rest: Seq<bool>)
    requires
        w <= 64,
        fits(v, w),
    ensures
        read_res(prefix + enc_field(v, w) + rest, prefix.len() as nat, w) == Some(
            ((prefix.len() + w) as nat, v),
        ),
{
    lemma_bits_of_len(v as nat, w);
    let s = prefix + enc_field(v, w) + rest;
    lemma_subrange_of_middle(prefix, enc_field(v, w), rest, 0, w as int);
    assert(enc_field(v, w).subrange(0, w as int) =~= enc_field(v, w));
    lemma_bits_value_of_bits_of(v as nat, w);
}

/// Law: Type-2 round trip. Decoding a Type-2 element from the position where
/// one was encoded gives back the same optional value — present or absent —
/// and advances exactly past it.
pub proof fn lemma_type2_round_trip(
    prefix: Seq<bool>,
    v: Option<u64>,
    w: nat,
    rest: Seq<bool>,
    field: &'static str,
)
    requires
        w <= 64,
        v matches Some(x) ==> fits(x, w),
    ensures
        type2_res(prefix + enc_type2(v, w) + rest, prefix.len() as nat, w, field) == (
            Ok::<Option<u64>, PduParseError>(v),
            (prefix.len() + enc_type2(v, w).len()) as nat,
        ),
{
    let e = enc_type2(v, w);
    let s = prefix + e + rest;
    let p = prefix.len();
    match v {
        None => {
            assert(s[p as int] == false);
        },
        Some(x) => {
            lemma_bits_of_len(x as nat, w);
            assert(s[p as int] == true);
            lemma_subrange_of_middle(prefix, e, rest, 1, 1 + w as int);
            assert(e.subrange(1, 1 + w as int) =~= enc_field(x, w));
            lemma_bits_value_of_bits_of(x as nat, w);
        },
    }
}

/// Law: Type-3 round trip. Decoding with the tag an element was encoded
/// under finds it, returns its exact length and payload, and advances
/// exactly past it.
pub proof fn lemma_type3_round_trip(prefix: Seq<bool>, e: Type3Element, rest: Seq<bool>)
    requires
        e.wf(),
    ensures
        type3_res(prefix + e.enc() + rest, prefix.len() as nat, e.field_type) == (
            Ok::<(usize, u64), Type34Err>((e.len, e.data)),
            (prefix.len() + 16 + e.len) as nat,
        ),
{
    let mid = e.enc();
    let s = prefix + mid + rest;
    let p = prefix.len();
    lemma_bits_of_len(e.field_type as nat, 4);
    lemma_bits_of_len(e.len as nat, 11);
    lemma_bits_of_len(e.data as nat, e.len as nat);
    assert(mid.len() == 16 + e.len);
    assert(s[p as int] == true);
    lemma_subrange_of_middle(prefix, mid, rest, 1, 5);
    assert(mid.subrange(1, 5) =~= enc_field(e.field_type, 4));
    lemma_bits_value_of_bits_of(e.field_type as nat, 4);
    lemma_subrange_of_middle(prefix, mid, rest, 5, 16);
    assert(mid.subrange(5, 16) =~= enc_field(e.len as u64, 11));
    assert(fits(e.len as u64, 11)) by {
        lemma2_to64();
        lemma_pow2_strictly_increases(7, 11);
    }
    lemma_bits_value_of_bits_of(e.len as nat, 11);
    lemma_subrange_of_middle(prefix, mid, rest, 16, 16 + e.len as int);
    assert(mid.subrange(16, 16 + e.len as int) =~= enc_field(e.data, e.len as nat));
    lemma_bits_value_of_bits_of(e.data as nat, e.len as nat);
}

/// Law: lookahead never consumes. The value `peek_bits` promises is the very
/// value a following `read_field` consumes: on a readable window the read
/// returns that value and advances once; past the end it fails and moves
/// nothing. (That the peek itself cannot move the cursor is structural: it
/// borrows the buffer immutably.)
pub proof fn lemma_peek_previews_read(s: Seq<bool>, pos: nat, w: nat)
    ensures
        match read_res(s, pos, w) {
            Some((p, v)) => p == pos + w && v == field_at(s, pos as int, w as int),
            None => w > 64 || pos + w > s.len(),
        },
{
}

/// Law: reading past the end is harmless and repeatable. With fewer than `w`
/// bits left there is no outcome to consume: `read_field`'s contract then
/// forces the buffer-exhaustion error with the cursor unchanged, so reading
/// again fails identically.
pub proof fn lemma_read_boundary(s: Seq<bool>, pos: nat, w: nat)
    requires
        pos + w > s.len(),
    ensures
        read_res(s, pos, w) is None,
{
}

/// Law: a tag mismatch is non-destructive. When the next element carries
/// `tag_b`, trying to decode it under a different `tag_a` reports
/// `FieldNotPresent` with the position unchanged — so trying again under
/// `tag_b` immediately succeeds on the very same element.
pub proof fn lemma_tag_mismatch_non_destructive(
    prefix: Seq<bool>,
    e: Type3Element,
    rest: Seq<bool>,
    tag_a: u64,
)
    requires
        e.wf(),
        tag_a != e.field_type,
    ensures
        type3_res(prefix + e.enc() + rest, prefix.len() as nat, tag_a) == (
            Err::<(usize, u64), Type34Err>(Type34Err::FieldNotPresent),
            prefix.len() as nat,
        ),
        type3_res(prefix + e.enc() + rest, prefix.len() as nat, e.field_type) == (
            Ok::<(usize, u64), Type34Err>((e.len, e.data)),
            (prefix.len() + 16 + e.len) as nat,
        ),
{
    let mid = e.enc();
    let s = prefix + mid + rest;
    let p = prefix.len();
    lemma_bits_of_len(e.field_type as nat, 4);
    lemma_bits_of_len(e.len as nat, 11);
    lemma_bits_of_len(e.data as nat, e.len as nat);
    assert(s[p as int] == true);
    lemma_subrange_of_middle(prefix, mid, rest, 1, 5);
    assert(mid.subrange(1, 5) =~= enc_field(e.field_type, 4));
    lemma_bits_value_of_bits_of(e.field_type as nat, 4);
    lemma_type3_round_trip(prefix, e, rest);
}

/// Law: an unexpected trailing presence bit is always rejected. When the
/// o-bit announced optional elements and the bit after the last recognized
/// one is `1`, the trailing check fails with the invalid-terminator error —
/// it is never read as a silently ignorable extension.
pub proof fn lemma_trailing_one_rejected(s: Seq<bool>, pos: nat)
    requires
        pos < s.len(),
        s[pos as int],
    ensures
        trailing_res(s, pos, true).0 == Err::<(), PduParseError>(PduParseError::InvalidObitValue),
{
}

/// Law: a clear trailing bit is accepted, and checking is idempotent in the
/// sense that the check consumes exactly the one trailing bit when the o-bit
/// was set and nothing at all when it was not.
pub proof fn lemma_trailing_zero_accepted(s: Seq<bool>, pos: nat, obit: bool)
    requires
        obit ==> pos < s.len() && !s[pos as int],
    ensures
        trailing_res(s, pos, obit).0 == Ok::<(), PduParseError>(()),
        trailing_res(s, pos, obit).1 == pos + (if obit {
            1int
        } else {
            0int
        }),
{
}

/// Law: a whole message round-trips. Decoding from the position where a
/// well-formed PDU was encoded gives back that very PDU and stops exactly at
/// its end, whatever preceded it — shown here for the ITSI detach message,
/// whose schema exercises the o-bit, a Type-2 element and a Type-3 element.
/// When the PDU carries no optional element its encoding ends on the clear
/// o-bit, so what follows must not begin with a set bit that lookahead could
/// mistake for an element of this PDU.
pub proof fn lemma_pdu_round_trip(prefix: Seq<bool>, p: UItsiDetach, rest: Seq<bool>)
    requires
        p.wf(),
        p.has_optionals() || rest.len() == 0 || !rest[0],
    ensures
        UItsiDetach::spec_parse(prefix + p.enc() + rest, prefix.len() as nat) == (
            Ok::<UItsiDetach, PduParseError>(p),
            (prefix.len() + p.enc().len()) as nat,
        ),
{
    lemma2_to64();
    let s = prefix + p.enc() + rest;
    let code = MmPduTypeUl::UItsiDetach.raw();
    let c = enc_field(code, 4);
    lemma_bits_of_len(code as nat, 4);
    if !p.has_optionals() {
        // The image is the type code followed by a clear o-bit.
        assert(p.enc() =~= c + seq![false]);
        assert(s =~= prefix + c + (seq![false] + rest));
        lemma_type1_round_trip(prefix, code, 4, seq![false] + rest);
        let p0 = (prefix.len() + 4) as nat;
        assert(s =~= (prefix + c) + seq![false] + rest);
        lemma_delimiter_round_trip(prefix + c, false, rest);
        assert(read_res(s, p0, 1) == Some(((p0 + 1) as nat, 0u64)));
        let p1 = (p0 + 1) as nat;
        // The Type-3 lookahead finds nothing: either the buffer ends here or
        // the next bit is clear.
        assert(type3_res(s, p1, MmType34ElemIdUl::Proprietary.raw()).1 == p1);
        assert(type3_res(s, p1, MmType34ElemIdUl::Proprietary.raw()).0 is Err);
        assert(p.address_extension is None && p.proprietary is None);
        assert(p.enc().len() == 5);
    } else {
        let e2 = enc_type2(p.address_extension, 24);
        let e3 = enc_opt_elem(p.proprietary);
        assert(p.enc() =~= c + (seq![true] + e2 + e3 + seq![false]));
        // The type code.
        assert(s =~= prefix + c + (seq![true] + e2 + e3 + seq![false] + rest));
        lemma_type1_round_trip(prefix, code, 4, seq![true] + e2 + e3 + seq![false] + rest);
        let p0 = (prefix.len() + 4) as nat;
        // The set o-bit.
        assert(s =~= (prefix + c) + seq![true] + (e2 + e3 + seq![false] + rest));
        lemma_delimiter_round_trip(prefix + c, true, e2 + e3 + seq![false] + rest);
        assert(read_res(s, p0, 1) == Some(((p0 + 1) as nat, 1u64)));
        let p1 = (p0 + 1) as nat;
        // The Type-2 element.
        assert(s =~= (prefix + c + seq![true]) + e2 + (e3 + seq![false] + rest));
        lemma_type2_round_trip(
            prefix + c + seq![true],
            p.address_extension,
            24,
            e3 + seq![false] + rest,
            "address_extension",
        );
        assert(type2_res(s, p1, 24, "address_extension") == (
            Ok::<Option<u64>, PduParseError>(p.address_extension),
            (p1 + e2.len()) as nat,
        ));
        let p2 = (p1 + e2.len()) as nat;
        // The Type-3 element, present or absent.
        let p3: nat = match p.proprietary {
            Some(e) => {
                assert(e3 == e.enc());
                assert(s =~= (prefix + c + seq![true] + e2) + e.enc() + (seq![false] + rest));
                lemma_type3_round_trip(prefix + c + seq![true] + e2, e, seq![false] + rest);
                lemma_bits_of_len(e.field_type as nat, 4);
                lemma_bits_of_len(e.len as nat, 11);
                lemma_bits_of_len(e.data as nat, e.len as nat);
                assert(type3_res(s, p2, MmType34ElemIdUl::Proprietary.raw()) == (
                    Ok::<(usize, u64), Type34Err>((e.len, e.data)),
                    (p2 + 16 + e.len) as nat,
                ));
                (p2 + 16 + e.len) as nat
            },
            None => {
                assert(e3 =~= Seq::<bool>::empty());
                assert(s =~= (prefix + c + seq![true] + e2) + seq![false] + rest);
                assert(s[p2 as int] == false);
                assert(type3_res(s, p2, MmType34ElemIdUl::Proprietary.raw()) == (
                    Err::<(usize, u64), Type34Err>(Type34Err::FieldNotPresent),
                    p2,
                ));
                p2
            },
        };
        // The trailing marker is clear.
        assert(s[p3 as int] == false);
        assert(trailing_res(s, p3, true) == (Ok::<(), PduParseError>(()), (p3 + 1) as nat));
        assert(p.enc().len() == 5 + e2.len() + e3.len() + 1);
        assert(p3 + 1 == prefix.len() + p.enc().len());
    }
}

/// The single-bit delimiters read back exactly the bit the matching writer
/// appended: the o/p/m-bit round trip.
pub proof fn lemma_delimiter_round_trip(prefix: Seq<bool>, b: bool, rest: Seq<bool>)
    ensures
        read_res(prefix + seq![b] + rest, prefix.len() as nat, 1) == Some(
            ((prefix.len() + 1) as nat, bit_val(b) as u64),
        ),
{
    let s = prefix + seq![b] + rest;
    lemma_field_at_single(s, prefix.len() as int);
    assert(s[prefix.len() as int] == b);
}

} // verus!
