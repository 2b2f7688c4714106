//! Buffer-level tests: construction, reads, peeks, writes, and rendering.

use tetra_codec::bitbuffer::BitBuffer;
use tetra_codec::pdu_parse_error::PduParseError;

#[test]
fn from_bitstr_and_back() {
    let s = "10110011011";
    let buffer = BitBuffer::from_bitstr(s);
    assert_eq!(buffer.to_bitstr(), s);
    assert_eq!(buffer.remaining(), 11);
}

#[test]
fn field_round_trip_small() {
    // Round trip for a handful of widths and values.
    let cases: [(u64, usize); 6] = [(0, 1), (1, 1), (5, 3), (0xAB, 8), (0x3FFF, 14), (12345, 24)];
    for (v, w) in cases {
        let mut buffer = BitBuffer::new_autoexpand(0);
        buffer.write_bits(v, w);
        let got = buffer.read_field(w, "field").unwrap();
        assert_eq!(got, v);
        assert_eq!(buffer.remaining(), 0);
    }
}

#[test]
fn field_round_trip_full_width() {
    let mut buffer = BitBuffer::new_autoexpand(0);
    buffer.write_bits(u64::MAX, 64);
    assert_eq!(buffer.read_field(64, "wide").unwrap(), u64::MAX);
}

#[test]
fn values_are_msb_first() {
    let mut buffer = BitBuffer::new_autoexpand(0);
    buffer.write_bits(0b1011_0010, 8);
    assert_eq!(buffer.to_bitstr(), "10110010");
}

#[test]
fn peek_does_not_consume() {
    let mut buffer = BitBuffer::from_bitstr("101100110111");
    let peeked = buffer.peek_bits(5).unwrap();
    let read = buffer.read_field(5, "field").unwrap();
    assert_eq!(peeked, read);
    assert_eq!(read, 0b10110);
    // The cursor advanced exactly once, by the width of the single read.
    assert_eq!(buffer.remaining(), 7);
}

#[test]
fn peek_at_offset_skips_without_consuming() {
    let buffer = BitBuffer::from_bitstr("101100110111");
    assert_eq!(buffer.peek_bits_posoffset(1, 4).unwrap(), 0b0110);
    assert_eq!(buffer.peek_bits_posoffset(0, 1).unwrap(), 1);
    assert_eq!(buffer.peek_bits_posoffset(12, 1), None);
    assert_eq!(buffer.peek_bits_posoffset(8, 5), None);
    assert_eq!(buffer.remaining(), 12);
}

#[test]
fn boundary_read_fails_and_moves_nothing() {
    let mut buffer = BitBuffer::from_bitstr("1010");
    let e1 = buffer.read_field(5, "five").unwrap_err();
    assert_eq!(e1, PduParseError::BufferEnded { field: "five" });
    // Reading again gives the identical error: the cursor did not move.
    let e2 = buffer.read_field(5, "five").unwrap_err();
    assert_eq!(e2, PduParseError::BufferEnded { field: "five" });
    // The bits that are there are still readable afterwards.
    assert_eq!(buffer.read_field(4, "four").unwrap(), 0b1010);
}

#[test]
fn read_bits_refuses_widths_beyond_a_word() {
    let mut buffer = BitBuffer::from_bitstr(&"1".repeat(100));
    assert_eq!(buffer.read_bits(65), None);
    assert_eq!(buffer.remaining(), 100);
    assert_eq!(buffer.read_bits(64), Some(u64::MAX));
    assert_eq!(buffer.remaining(), 36);
}

#[test]
fn seek_rel_advances_without_extraction() {
    let mut buffer = BitBuffer::from_bitstr("11100111");
    buffer.seek_rel(3);
    assert_eq!(buffer.read_field(2, "two").unwrap(), 0b00);
    assert_eq!(buffer.remaining(), 3);
}

#[test]
fn dump_bin_shows_the_unread_remainder() {
    let mut buffer = BitBuffer::from_bitstr("10110011");
    buffer.seek_rel(3);
    assert_eq!(buffer.dump_bin(), "10011");
    assert_eq!(buffer.to_bitstr(), "10110011");
}

#[test]
fn dump_bin_shows_everything_written() {
    let mut buffer = BitBuffer::new_autoexpand(16);
    buffer.write_bits(0b101, 3);
    buffer.write_bit(1);
    assert_eq!(buffer.dump_bin(), "1011");
}

#[test]
fn from_bitstr_reads_other_characters_as_zero() {
    let buffer = BitBuffer::from_bitstr("1x1 0");
    assert_eq!(buffer.to_bitstr(), "10100");
}

#[test]
fn empty_buffer_has_nothing() {
    let mut buffer = BitBuffer::from_bitstr("");
    assert_eq!(buffer.remaining(), 0);
    assert_eq!(buffer.peek_bits(1), None);
    assert_eq!(
        buffer.read_field(1, "bit").unwrap_err(),
        PduParseError::BufferEnded { field: "bit" }
    );
}
