//! Mathematical model of bit strings.
//!
//! A bit string is a `Seq<bool>`; every field on the wire is the
//! most-significant-bit-first encoding of an unsigned integer. This module
//! defines the value of a bit string, the `w`-bit encoding of a value, and the
//! lemmas that make the two mutually inverse.

use vstd::prelude::*;
use vstd::arithmetic::power2::*;

verus! {

/// The numeric value of one bit.
pub open spec fn bit_val(b: bool) -> nat {
    if b {
        1
    } else {
        0
    }
}

/// The unsigned value of a bit string, most significant bit first.
pub open spec fn bits_value(s: Seq<bool>) -> nat
    decreases s.len(),
{
    if s.len() == 0 {
        0
    } else {
        2 * bits_value(s.drop_last()) + bit_val(s.last())
    }
}

/// The `w`-bit encoding of `v % 2^w`, most significant bit first.
pub open spec fn bits_of(v: nat, w: nat) -> Seq<bool>
    decreases w,
{
    if w == 0 {
        Seq::empty()
    } else {
        bits_of(v / 2, (w - 1) as nat).push(v % 2 == 1)
    }
}

/// The value of the `width`-bit field that starts at bit `pos` of `s`,
/// as the `u64` a buffer read returns.
pub open spec fn field_at(s: Seq<bool>, pos: int, width: int) -> u64 {
    bits_value(s.subrange(pos, pos + width)) as u64
}

/// The wire encoding of a `w`-bit unsigned field.
pub open spec fn enc_field(v: u64, w: nat) -> Seq<bool> {
    bits_of(v as nat, w)
}

/// The wire encoding of one Type-2 element: a p-bit, then the `w`-bit value
/// when present.
pub open spec fn enc_type2(v: Option<u64>, w: nat) -> Seq<bool> {
    match v {
        Some(x) => seq![true] + enc_field(x, w),
        None => seq![false],
    }
}

/// The wire encoding of a fixed-width field that a condition elsewhere in
/// the PDU makes present or absent, with no presence bit of its own.
pub open spec fn enc_opt_field(v: Option<u64>, w: nat) -> Seq<bool> {
    match v {
        Some(x) => enc_field(x, w),
        None => Seq::<bool>::empty(),
    }
}

/// Whether `v` fits in a `w`-bit field.
pub open spec fn fits(v: u64, w: nat) -> bool {
    (v as nat) < pow2(w)
}

/// Sequence concatenation is associative.
pub broadcast proof fn lemma_seq_add_assoc<A>(a: Seq<A>, b: Seq<A>, c: Seq<A>)
    ensures
        #[trigger] ((a + b) + c) == a + (b + c),
{
    assert((a + b) + c =~= a + (b + c));
}

/// The empty sequence is neutral on the right of concatenation.
pub broadcast proof fn lemma_seq_add_empty_right<A>(a: Seq<A>)
    ensures
        #[trigger] (a + Seq::<A>::empty()) == a,
{
    assert(a + Seq::<A>::empty() =~= a);
}

/// The empty sequence is neutral on the left of concatenation.
pub broadcast proof fn lemma_seq_add_empty_left<A>(a: Seq<A>)
    ensures
        #[trigger] (Seq::<A>::empty() + a) == a,
{
    assert(Seq::<A>::empty() + a =~= a);
}

/// Prepending one element under a concatenation is pushing it onto the
/// front part.
pub broadcast proof fn lemma_push_front_concat<A>(a: Seq<A>, g: A, b: Seq<A>)
    ensures
        #[trigger] (a + (Seq::<A>::empty().push(g) + b)) == a.push(g) + b,
{
    assert(a + (Seq::<A>::empty().push(g) + b) =~= a.push(g) + b);
}

pub broadcast proof fn lemma_bits_of_len(v: nat, w: nat)
    ensures
        #[trigger] bits_of(v, w).len() == w,
    decreases w,
{
    if w > 0 {
        lemma_bits_of_len(v / 2, (w - 1) as nat);
    }
}

/// A bit string of length `w` has a value below `2^w`.
pub proof fn lemma_bits_value_bound(s: Seq<bool>)
    ensures
        bits_value(s) < pow2(s.len()),
    decreases s.len(),
{
    if s.len() == 0 {
        lemma_pow2_unfold(1);
        assert(pow2(0) == 1) by {
            lemma2_to64();
        }
    } else {
        lemma_bits_value_bound(s.drop_last());
        lemma_pow2_unfold(s.len());
    }
}

/// Decoding the encoding of `v` gives back `v`, for `v < 2^w`.
pub proof fn lemma_bits_value_of_bits_of(v: nat, w: nat)
    requires
        v < pow2(w),
    ensures
        bits_value(bits_of(v, w)) == v,
    decreases w,
{
    if w == 0 {
        assert(pow2(0) == 1) by {
            lemma2_to64();
        }
    } else {
        lemma_pow2_unfold(w);
        lemma_bits_value_of_bits_of(v / 2, (w - 1) as nat);
        lemma_bits_of_len(v / 2, (w - 1) as nat);
        let s = bits_of(v, w);
        assert(s.drop_last() =~= bits_of(v / 2, (w - 1) as nat));
        assert(bits_value(s) == 2 * (v / 2) + bit_val(v % 2 == 1));
        assert(2 * (v / 2) + v % 2 == v) by {
            vstd::arithmetic::div_mod::lemma_fundamental_div_mod(v as int, 2);
        }
    }
}

/// Encoding the value of a bit string gives back the same bit string.
pub proof fn lemma_bits_of_bits_value(s: Seq<bool>)
    ensures
        bits_of(bits_value(s), s.len()) == s,
    decreases s.len(),
{
    if s.len() == 0 {
        assert(bits_of(bits_value(s), 0) =~= s);
    } else {
        let v = bits_value(s);
        let p = bits_value(s.drop_last());
        let b = bit_val(s.last());
        assert(v == 2 * p + b);
        assert(v / 2 == p && v % 2 == b) by {
            vstd::arithmetic::div_mod::lemma_fundamental_div_mod_converse(
                v as int,
                2,
                p as int,
                b as int,
            );
        }
        lemma_bits_of_bits_value(s.drop_last());
        assert(bits_of(v, s.len()) =~= s);
    }
}

/// A one-bit field reads back the bit itself.
pub proof fn lemma_field_at_single(s: Seq<bool>, pos: int)
    requires
        0 <= pos < s.len(),
    ensures
        field_at(s, pos, 1) == bit_val(s[pos]),
{
    let sub = s.subrange(pos, pos + 1);
    assert(sub.len() == 1);
    assert(sub.last() == s[pos]);
    assert(sub.drop_last() =~= Seq::<bool>::empty());
    assert(bits_value(Seq::<bool>::empty()) == 0);
    assert(bits_value(sub) == 2 * bits_value(sub.drop_last()) + bit_val(sub.last()));
}

/// Appending one bit doubles the value and adds the new bit.
pub proof fn lemma_bits_value_push(s: Seq<bool>, b: bool)
    ensures
        bits_value(s.push(b)) == 2 * bits_value(s) + bit_val(b),
{
    assert(s.push(b).drop_last() =~= s);
}

/// The value of a prefix extended by one bit of the same string.
pub proof fn lemma_bits_value_subrange_step(s: Seq<bool>, lo: int, i: int)
    requires
        0 <= lo <= i < s.len(),
    ensures
        bits_value(s.subrange(lo, i + 1)) == 2 * bits_value(s.subrange(lo, i)) + bit_val(s[i]),
{
    assert(s.subrange(lo, i + 1) =~= s.subrange(lo, i).push(s[i]));
    lemma_bits_value_push(s.subrange(lo, i), s[i]);
}

/// Bit `i` (from the most significant end) of the `w`-bit encoding of `v`.
pub proof fn lemma_bits_of_index(v: nat, w: nat, i: int)
    requires
        0 <= i < w,
    ensures
        bits_of(v, w)[i] == ((v / pow2((w - 1 - i) as nat)) % 2 == 1),
    decreases w,
{
    lemma_bits_of_len(v / 2, (w - 1) as nat);
    assert(bits_of(v, w) == bits_of(v / 2, (w - 1) as nat).push(v % 2 == 1));
    if i == w - 1 {
        assert(pow2(0) == 1) by {
            lemma2_to64();
        }
        assert(bits_of(v, w)[i] == (v % 2 == 1));
        assert(v / pow2(0) == v);
    } else {
        lemma_bits_of_index(v / 2, (w - 1) as nat, i);
        let k = (w - 2 - i) as nat;
        assert((v / 2) / pow2(k) == v / (2 * pow2(k))) by {
            lemma_pow2_pos(k);
            vstd::arithmetic::div_mod::lemma_div_denominator(v as int, 2, pow2(k) as int);
        }
        assert(2 * pow2(k) == pow2((k + 1) as nat)) by {
            lemma_pow2_adds(1, k);
            lemma2_to64();
        }
    }
}

/// A subrange taken strictly inside the middle part of a concatenation is a
/// subrange of that middle part.
pub proof fn lemma_subrange_of_middle(
    prefix: Seq<bool>,
    mid: Seq<bool>,
    rest: Seq<bool>,
    a: int,
    b: int,
)
    requires
        0 <= a <= b <= mid.len(),
    ensures
        (prefix + mid + rest).subrange(prefix.len() + a, prefix.len() + b) == mid.subrange(a, b),
{
    assert((prefix + mid + rest).subrange(prefix.len() + a, prefix.len() + b) =~= mid.subrange(
        a,
        b,
    ));
}

} // verus!
