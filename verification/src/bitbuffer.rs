//! Bit-addressable read/write buffer over an owned bit store.
//!
//! A [`BitBuffer`] holds an ordered bit store, a total bit length and a
//! current cursor. Reads consume bits at the cursor; peeks extract the same
//! bits without moving it; writes append to the end of the store. A buffer is
//! either fixed (decode: backed by a received frame, length frozen at
//! construction) or auto-expanding (encode: the store grows as bits are
//! appended). Every operation keeps the invariant `0 <= cursor <= length`,
//! and a read that would overrun fails without consuming anything.

use vstd::prelude::*;
use vstd::arithmetic::power2::*;
use crate::bits::{
    bits_of, bits_value, field_at, lemma_bits_of_index, lemma_bits_of_len,
    lemma_bits_value_bound, lemma_bits_value_subrange_step,
};
use crate::pdu_parse_error::PduParseError;

verus! {

/// Outcome of extracting `w` bits at position `pos` of `s`: the advanced
/// position and the value read, or `None` when `w` exceeds 64 or fewer than
/// `w` bits remain.
pub open spec fn read_res(s: Seq<bool>, pos: nat, w: nat) -> Option<(nat, u64)> {
    if w <= 64 && pos + w <= s.len() {
        Some(((pos + w) as nat, field_at(s, pos as int, w as int)))
    } else {
        None
    }
}

pub struct BitBuffer {
    store: Vec<bool>,
    pos: usize,
    expandable: bool,
}

impl BitBuffer {
    /// The bits held, in wire order.
    pub closed spec fn bits(&self) -> Seq<bool> {
        self.store@
    }

    /// The current cursor position, in bits from the start.
    pub closed spec fn cursor(&self) -> nat {
        self.pos as nat
    }

    /// Whether the buffer accepts appends (encode mode).
    pub closed spec fn writable(&self) -> bool {
        self.expandable
    }

    /// The buffer invariant: the cursor never passes the end.
    pub open spec fn wf(&self) -> bool {
        self.cursor() <= self.bits().len()
    }

    /// An empty auto-expanding buffer for encoding. The size hint only
    /// pre-allocates; it does not bound what can be written.
    pub fn new_autoexpand(size_hint_bits: usize) -> (r: BitBuffer)
        ensures
            r.wf(),
            r.bits() == Seq::<bool>::empty(),
            r.cursor() == 0,
            r.writable(),
    {
        let _ = size_hint_bits;
        BitBuffer { store: Vec::new(), pos: 0, expandable: true }
    }

    /// A fixed buffer for decoding, built from a string of `'0'`/`'1'`
    /// characters in wire order. Any character other than `'1'` is read as a
    /// zero bit.
    pub fn from_bitstr(s: &str) -> (r: BitBuffer)
        ensures
            r.wf(),
            r.cursor() == 0,
            !r.writable(),
            r.bits().len() == s@.len(),
            forall|i: int| 0 <= i < s@.len() ==> r.bits()[i] == (s@[i] == '1'),
    {
        let n = s.unicode_len();
        let mut store: Vec<bool> = Vec::new();
        let mut i: usize = 0;
        while i < n
            invariant
                n == s@.len(),
                i <= n,
                store@.len() == i,
                forall|j: int| 0 <= j < i ==> store@[j] == (s@[j] == '1'),
            decreases n - i,
        {
            let c = s.get_char(i);
            store.push(c == '1');
            i += 1;
        }
        BitBuffer { store, pos: 0, expandable: false }
    }

    /// How many bits remain between the cursor and the end.
    pub fn remaining(&self) -> (r: usize)
        requires
            self.wf(),
        ensures
            r == self.bits().len() - self.cursor(),
    {
        self.store.len() - self.pos
    }

    /// Extract `width` bits starting `skip` bits past the cursor, without
    /// moving the cursor. `None` when `width` exceeds 64 or the window passes
    /// the end of the buffer.
    pub fn peek_bits_posoffset(&self, skip: usize, width: usize) -> (r: Option<u64>)
        requires
            self.wf(),
        ensures
            r == match read_res(self.bits(), (self.cursor() + skip) as nat, width as nat) {
                Some((_, v)) => Some(v),
                None => None::<u64>,
            },
    {
        if width > 64 {
            return None;
        }
        let len = self.store.len();
        if skip > len - self.pos {
            return None;
        }
        if width > len - self.pos - skip {
            return None;
        }
        let start = self.pos + skip;
        Some(self.extract(start, width))
    }

    /// Extract `width` bits at the cursor without moving it.
    pub fn peek_bits(&self, width: usize) -> (r: Option<u64>)
        requires
            self.wf(),
        ensures
            r == match read_res(self.bits(), self.cursor(), width as nat) {
                Some((_, v)) => Some(v),
                None => None::<u64>,
            },
    {
        self.peek_bits_posoffset(0, width)
    }

    /// Consume `width` bits at the cursor. On success the cursor advances by
    /// `width`; on failure (`width > 64` or not enough bits) nothing changes.
    pub fn read_bits(&mut self, width: usize) -> (r: Option<u64>)
        requires
            old(self).wf(),
        ensures
            final(self).wf(),
            final(self).bits() == old(self).bits(),
            final(self).writable() == old(self).writable(),
            match read_res(old(self).bits(), old(self).cursor(), width as nat) {
                Some((p, v)) => r == Some(v) && final(self).cursor() == p,
                None => r == None::<u64> && final(self).cursor() == old(self).cursor(),
            },
            r matches Some(v) ==> (v as nat) < pow2(width as nat),
            old(self).cursor() <= final(self).cursor() <= old(self).bits().len(),
    {
        if width > 64 {
            return None;
        }
        if width > self.store.len() - self.pos {
            return None;
        }
        let v = self.extract(self.pos, width);
        self.pos = self.pos + width;
        Some(v)
    }

    /// Consume `width` bits as the value of the named field. Exactly when
    /// fewer than `width` bits remain, fails with `BufferEnded` naming the
    /// field and leaves the cursor untouched.
    pub fn read_field(&mut self, width: usize, field_name: &'static str) -> (r: Result<
        u64,
        PduParseError,
    >)
        requires
            old(self).wf(),
            width <= 64,
        ensures
            final(self).wf(),
            final(self).bits() == old(self).bits(),
            final(self).writable() == old(self).writable(),
            match read_res(old(self).bits(), old(self).cursor(), width as nat) {
                Some((p, v)) => r == Ok::<u64, PduParseError>(v) && final(self).cursor() == p,
                None => r == Err::<u64, PduParseError>(
                    PduParseError::BufferEnded { field: field_name },
                ) && final(self).cursor() == old(self).cursor(),
            },
            r matches Ok(v) ==> (v as nat) < pow2(width as nat),
            old(self).cursor() <= final(self).cursor() <= old(self).bits().len(),
    {
        match self.read_bits(width) {
            Some(v) => Ok(v),
            None => Err(PduParseError::BufferEnded { field: field_name }),
        }
    }

    /// Advance the cursor by `delta` bits with no value extraction; used
    /// after a peek-based decision to skip bits already inspected.
    pub fn seek_rel(&mut self, delta: usize)
        requires
            old(self).wf(),
            old(self).cursor() + delta <= old(self).bits().len(),
        ensures
            final(self).wf(),
            final(self).bits() == old(self).bits(),
            final(self).writable() == old(self).writable(),
            final(self).cursor() == old(self).cursor() + delta,
    {
        let n = self.store.len();
        assert(self.pos + delta <= n);
        self.pos = self.pos + delta;
    }

    /// Append one bit (`0` or `1`) to the end of the buffer.
    pub fn write_bit(&mut self, val: u8)
        requires
            old(self).wf(),
            old(self).writable(),
            val <= 1,
        ensures
            final(self).wf(),
            final(self).bits() == old(self).bits() + seq![val == 1],
            final(self).cursor() == old(self).cursor(),
            final(self).writable(),
    {
        proof {
            assert(old(self).bits().push(val == 1) =~= old(self).bits() + seq![val == 1]);
        }
        self.store.push(val == 1);
    }

    /// Append the `width`-bit most-significant-bit-first encoding of `value`
    /// to the end of the buffer. A value that does not fit in `width` bits,
    /// like a write to a fixed-capacity buffer, is a caller error, excluded
    /// by precondition rather than reported at run time.
    pub fn write_bits(&mut self, value: u64, width: usize)
        requires
            old(self).wf(),
            old(self).writable(),
            width <= 64,
            (value as nat) < pow2(width as nat),
        ensures
            final(self).wf(),
            final(self).bits() == old(self).bits() + bits_of(value as nat, width as nat),
            final(self).cursor() == old(self).cursor(),
            final(self).writable(),
    {
        let ghost enc = bits_of(value as nat, width as nat);
        proof {
            lemma_bits_of_len(value as nat, width as nat);
        }
        let mut i: usize = 0;
        while i < width
            invariant
                i <= width,
                width <= 64,
                enc == bits_of(value as nat, width as nat),
                enc.len() == width,
                self.store@ == old(self).bits() + enc.subrange(0, i as int),
                self.pos == old(self).pos,
                self.expandable == old(self).expandable,
                old(self).wf(),
            decreases width - i,
        {
            let shift: usize = width - 1 - i;
            let b: bool = (value >> (shift as u64)) % 2 == 1;
            proof {
                vstd::bits::lemma_u64_shr_is_div(value, shift as u64);
                lemma_pow2_pos(shift as nat);
                lemma_bits_of_index(value as nat, width as nat, i as int);
                assert((value >> (shift as u64)) as nat == (value as nat) / pow2(shift as nat));
                assert(enc[i as int] == b);
                assert(enc.subrange(0, i as int).push(enc[i as int]) =~= enc.subrange(
                    0,
                    i as int + 1,
                ));
            }
            self.store.push(b);
            i += 1;
        }
        proof {
            assert(enc.subrange(0, width as int) =~= enc);
        }
    }


    /// Append a conditionally present fixed-width field: the `width`-bit
    /// encoding of the value when present, nothing when absent. The
    /// condition that governs presence lives with the caller.
    pub fn write_opt_bits(&mut self, value: Option<u64>, width: usize)
        requires
            old(self).wf(),
            old(self).writable(),
            width <= 64,
            value matches Some(v) ==> (v as nat) < pow2(width as nat),
        ensures
            final(self).wf(),
            final(self).writable(),
            final(self).cursor() == old(self).cursor(),
            final(self).bits() == old(self).bits() + crate::bits::enc_opt_field(
                value,
                width as nat,
            ),
    {
        proof {
            assert(old(self).bits() + Seq::<bool>::empty() =~= old(self).bits());
        }
        if let Some(v) = value {
            self.write_bits(v, width);
        }
    }

    /// Render the bits from the cursor to the end as a string of `'0'`/`'1'`
    /// characters, for diagnostics: the unread remainder of a decode buffer,
    /// or (with the cursor still at zero) everything written to an encode
    /// buffer.
    pub fn dump_bin(&self) -> (r: String)
        requires
            self.wf(),
        ensures
            r@.len() == self.bits().len() - self.cursor(),
            forall|i: int|
                0 <= i < r@.len() ==> r@[i] == (if self.bits()[self.cursor() + i] {
                    '1'
                } else {
                    '0'
                }),
    {
        self.render(self.pos)
    }

    /// Render every bit held, cursor position notwithstanding, as a string
    /// of `'0'`/`'1'` characters.
    pub fn to_bitstr(&self) -> (r: String)
        requires
            self.wf(),
        ensures
            r@.len() == self.bits().len(),
            forall|i: int|
                0 <= i < r@.len() ==> r@[i] == (if self.bits()[i] {
                    '1'
                } else {
                    '0'
                }),
    {
        self.render(0)
    }

    /// Shared renderer: the bits from `start` to the end, as text.
    fn render(&self, start: usize) -> (r: String)
        requires
            start <= self.bits().len(),
        ensures
            r@.len() == self.bits().len() - start,
            forall|i: int|
                0 <= i < r@.len() ==> r@[i] == (if self.bits()[start + i] {
                    '1'
                } else {
                    '0'
                }),
    {
        let mut out = String::new();
        let mut i: usize = start;
        while i < self.store.len()
            invariant
                start <= i <= self.store@.len(),
                out@.len() == i - start,
                forall|j: int|
                    0 <= j < out@.len() ==> out@[j] == (if self.store@[start + j] {
                        '1'
                    } else {
                        '0'
                    }),
            decreases self.store@.len() - i,
        {
            proof {
                reveal_strlit("1");
                reveal_strlit("0");
            }
            if self.store[i] {
                out.append("1");
            } else {
                out.append("0");
            }
            i += 1;
        }
        out
    }

    /// Internal extraction of `width` bits at absolute position `start`.
    fn extract(&self, start: usize, width: usize) -> (v: u64)
        requires
            width <= 64,
            start + width <= self.bits().len(),
        ensures
            v == field_at(self.bits(), start as int, width as int),
            (v as nat) == bits_value(self.bits().subrange(start as int, start + width)),
            (v as nat) < pow2(width as nat),
    {
        let ghost s = self.bits();
        let n = self.store.len();
        let mut v: u64 = 0;
        let mut i: usize = 0;
        proof {
            assert(s.subrange(start as int, start as int) =~= Seq::<bool>::empty());
            assert(pow2(0) == 1) by {
                lemma2_to64();
            }
        }
        while i < width
            invariant
                i <= width,
                width <= 64,
                start + width <= n,
                n == s.len(),
                s == self.bits(),
                (v as nat) == bits_value(s.subrange(start as int, start + i)),
                (v as nat) < pow2(i as nat),
            decreases width - i,
        {
            proof {
                lemma_bits_value_subrange_step(s, start as int, start + i);
                lemma_pow2_unfold((i + 1) as nat);
                assert(pow2(64) == 0x10000000000000000) by {
                    lemma2_to64_rest();
                }
                if (i + 1) < 64 {
                    lemma_pow2_strictly_increases((i + 1) as nat, 64);
                }
            }
            let b = self.store[start + i];
            v = v * 2 + (if b {
                1
            } else {
                0
            });
            i += 1;
        }
        proof {
            lemma_bits_value_bound(s.subrange(start as int, start + width));
        }
        v
    }
}

} // verus!
