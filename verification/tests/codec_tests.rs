//! Tests of the element-framing protocols: delimiters, Type-2, Type-3/4.

use tetra_codec::bitbuffer::BitBuffer;
use tetra_codec::delimiters;
use tetra_codec::pdu_parse_error::PduParseError;
use tetra_codec::type2;
use tetra_codec::type34::{
    check_peek_id, check_peek_mbit, parse_type3_generic, parse_type4_header_generic,
    write_type4_header_generic, Type34Err, Type3Element,
};

#[test]
fn delimiter_round_trip() {
    let mut buffer = BitBuffer::new_autoexpand(0);
    delimiters::write_obit(&mut buffer, 1);
    delimiters::write_pbit(&mut buffer, 0);
    delimiters::write_mbit(&mut buffer, 1);
    assert_eq!(delimiters::read_obit(&mut buffer).unwrap(), true);
    assert_eq!(delimiters::read_pbit(&mut buffer).unwrap(), false);
    assert_eq!(delimiters::read_mbit(&mut buffer).unwrap(), true);
}

#[test]
fn type2_round_trip_present() {
    let mut buffer = BitBuffer::new_autoexpand(0);
    type2::write(&mut buffer, Some(0x2A), 8);
    assert_eq!(buffer.to_bitstr(), "100101010");
    let got = type2::parse(&mut buffer, 8, "field").unwrap();
    assert_eq!(got, Some(0x2A));
    assert_eq!(buffer.remaining(), 0);
}

#[test]
fn type2_round_trip_absent() {
    let mut buffer = BitBuffer::new_autoexpand(0);
    type2::write(&mut buffer, None, 8);
    assert_eq!(buffer.to_bitstr(), "0");
    let got = type2::parse(&mut buffer, 8, "field").unwrap();
    assert_eq!(got, None);
    assert_eq!(buffer.remaining(), 0);
}

#[test]
fn type2_value_cut_short_names_the_field() {
    // p-bit says present, but only three of eight value bits exist.
    let mut buffer = BitBuffer::from_bitstr("1010");
    let e = type2::parse(&mut buffer, 8, "shorted").unwrap_err();
    assert_eq!(e, PduParseError::BufferEnded { field: "shorted" });
}

#[test]
fn type2_missing_pbit_is_reported_as_such() {
    let mut buffer = BitBuffer::from_bitstr("");
    let e = type2::parse(&mut buffer, 8, "field").unwrap_err();
    assert_eq!(e, PduParseError::BufferEnded { field: "pbit" });
}

#[test]
fn type3_round_trip() {
    let mut buffer = BitBuffer::new_autoexpand(0);
    Type3Element::write(&mut buffer, 0x3, 0b110101, 6);
    // m-bit, tag, 11-bit length, payload.
    assert_eq!(buffer.to_bitstr(), "1001100000000110110101");
    let (len, data) = parse_type3_generic(&mut buffer, 0x3).unwrap();
    assert_eq!((len, data), (6, 0b110101));
    assert_eq!(buffer.remaining(), 0);
}

#[test]
fn type3_tag_mismatch_is_non_destructive() {
    let mut buffer = BitBuffer::new_autoexpand(0);
    Type3Element::write(&mut buffer, 0x7, 0xBEEF, 16);
    // Trying the wrong tag reports absence and consumes nothing...
    let miss = parse_type3_generic(&mut buffer, 0x2).unwrap_err();
    assert_eq!(miss, Type34Err::FieldNotPresent);
    // ...so trying the right tag immediately finds the very same element.
    let (len, data) = parse_type3_generic(&mut buffer, 0x7).unwrap();
    assert_eq!((len, data), (16, 0xBEEF));
}

#[test]
fn type3_absent_mbit_is_field_not_present() {
    let mut buffer = BitBuffer::from_bitstr("0111111");
    let e = parse_type3_generic(&mut buffer, 0x7).unwrap_err();
    assert_eq!(e, Type34Err::FieldNotPresent);
    assert_eq!(buffer.remaining(), 7);
}

#[test]
fn type3_truncated_payload_is_out_of_bounds() {
    // m-bit and tag match; the declared length runs past the end.
    let mut buffer = BitBuffer::from_bitstr("10111000001000000");
    let e = parse_type3_generic(&mut buffer, 0x7).unwrap_err();
    assert_eq!(e, Type34Err::OutOfBounds);
}

#[test]
fn type3_empty_buffer_is_out_of_bounds() {
    let mut buffer = BitBuffer::from_bitstr("");
    let e = parse_type3_generic(&mut buffer, 0x7).unwrap_err();
    assert_eq!(e, Type34Err::OutOfBounds);
}

#[test]
fn peek_helpers_classify_without_consuming() {
    let buffer = BitBuffer::from_bitstr("10111");
    assert_eq!(check_peek_mbit(&buffer).unwrap(), true);
    assert_eq!(check_peek_id(&buffer, 0b0111), Ok(()));
    assert_eq!(check_peek_id(&buffer, 0b0001).unwrap_err(), Type34Err::FieldNotPresent);
    let empty = BitBuffer::from_bitstr("");
    assert_eq!(check_peek_mbit(&empty).unwrap_err(), Type34Err::OutOfBounds);
}

#[test]
fn type4_header_round_trip() {
    let mut buffer = BitBuffer::new_autoexpand(0);
    write_type4_header_generic(&mut buffer, 0x7);
    buffer.write_bits(38, 11);
    buffer.write_bits(1, 6);
    let (count, remaining_width) = parse_type4_header_generic(&mut buffer, 0x7).unwrap();
    assert_eq!((count, remaining_width), (1, 32));
}

#[test]
fn type4_declared_length_below_count_width_is_out_of_bounds() {
    let mut buffer = BitBuffer::new_autoexpand(0);
    write_type4_header_generic(&mut buffer, 0x7);
    buffer.write_bits(5, 11);
    buffer.write_bits(0, 6);
    let e = parse_type4_header_generic(&mut buffer, 0x7).unwrap_err();
    assert_eq!(e, Type34Err::OutOfBounds);
}

#[test]
fn type3_element_parse_opt_styles() {
    // The CMCE-style wrapper maps a lookahead miss to None and a genuine
    // overrun to a buffer error naming the field.
    let mut buffer = BitBuffer::from_bitstr("0");
    let r = Type3Element::parse_opt(&mut buffer, 0x3, "facility").unwrap();
    assert!(r.is_none());
    let mut truncated = BitBuffer::from_bitstr("10011");
    let e = Type3Element::parse_opt(&mut truncated, 0x3, "facility").unwrap_err();
    assert_eq!(e, PduParseError::BufferEnded { field: "facility" });
}

#[test]
fn type3_payload_wider_than_a_word_is_out_of_bounds() {
    // A declared payload length of 65 cannot be represented in the 64-bit
    // value a Type-3 element carries, however long the buffer is.
    let mut buffer = BitBuffer::new_autoexpand(0);
    buffer.write_bit(1);
    buffer.write_bits(0x7, 4);
    buffer.write_bits(65, 11);
    for _ in 0..65 {
        buffer.write_bit(0);
    }
    let e = parse_type3_generic(&mut buffer, 0x7).unwrap_err();
    assert_eq!(e, Type34Err::OutOfBounds);
}

#[test]
fn type3_longest_representable_payload_round_trips() {
    let mut buffer = BitBuffer::new_autoexpand(0);
    Type3Element::write(&mut buffer, 0x1, u64::MAX, 64);
    let (len, data) = parse_type3_generic(&mut buffer, 0x1).unwrap();
    assert_eq!((len, data), (64, u64::MAX));
    assert_eq!(buffer.remaining(), 0);
}
