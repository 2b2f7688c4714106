//! PDU-level decode/encode tests, including the lab-captured frames.

use tetra_codec::bitbuffer::BitBuffer;
use tetra_codec::mm::d_attach_detach_group_identity_acknowledgement::DAttachDetachGroupIdentityAcknowledgement;
use tetra_codec::mm::d_location_update_accept::DLocationUpdateAccept;
use tetra_codec::mm::u_itsi_detach::UItsiDetach;
use tetra_codec::pdu_parse_error::PduParseError;

#[test]
fn decode_encode_test() {
    // Vec from lab
    let test_vec = "10110011011100000100110000001011100000000110101000110011100000";

    let mut buffer = BitBuffer::from_bitstr(test_vec);

    let pdu = DAttachDetachGroupIdentityAcknowledgement::from_bitbuf(&mut buffer)
        .expect("the lab frame must decode");

    assert_eq!(pdu.group_identity_accept_reject, 0);
    assert!(!pdu.reserved);
    assert!(pdu.proprietary.is_none());
    let gids = pdu
        .group_identity_downlink
        .as_ref()
        .expect("the frame carries one group identity record");
    assert_eq!(gids.len(), 1);
    assert!(pdu.group_identity_security_related_information.is_none());

    let mut buf = BitBuffer::new_autoexpand(32);
    pdu.to_bitbuf(&mut buf).unwrap();
    assert_eq!(buf.to_bitstr(), test_vec);
}

#[test]
fn test_ui_itsi_detach() {
    let test_vec = "0001110011001100000101001110010";
    let mut buffer = BitBuffer::from_bitstr(test_vec);
    let parsed = UItsiDetach::from_bitbuf(&mut buffer).expect("the frame must decode");
    assert_eq!(parsed.address_extension, Some(0x330539));
    assert!(parsed.proprietary.is_none());
    assert_eq!(buffer.remaining(), 0);
}

#[test]
fn itsi_detach_round_trip() {
    let test_vec = "0001110011001100000101001110010";
    let mut buffer = BitBuffer::from_bitstr(test_vec);
    let parsed = UItsiDetach::from_bitbuf(&mut buffer).unwrap();
    let mut out = BitBuffer::new_autoexpand(0);
    parsed.to_bitbuf(&mut out).unwrap();
    assert_eq!(out.to_bitstr(), test_vec);
}

#[test]
fn pdu_type_mismatch_is_reported() {
    // A frame whose 4-bit discriminant is not the ITSI detach code.
    let mut buffer = BitBuffer::from_bitstr("01111");
    let r = UItsiDetach::from_bitbuf(&mut buffer);
    assert_eq!(
        r.unwrap_err(),
        PduParseError::InvalidPduType { expected: 1, found: 7 }
    );
}

#[test]
fn short_frame_reports_buffer_ended() {
    let mut buffer = BitBuffer::from_bitstr("000");
    let r = UItsiDetach::from_bitbuf(&mut buffer);
    assert_eq!(r.unwrap_err(), PduParseError::BufferEnded { field: "pdu_type" });
    // Nothing was consumed, so the same read fails the same way again.
    let r2 = UItsiDetach::from_bitbuf(&mut buffer);
    assert_eq!(r2.unwrap_err(), PduParseError::BufferEnded { field: "pdu_type" });
}

#[test]
fn trailing_one_is_invalid_terminator() {
    // Type code, o-bit set, the Type-2 element absent, then a stray trailing
    // presence bit: the parse must fail, never silently accept it.
    let mut buffer = BitBuffer::from_bitstr("0001101");
    let r = UItsiDetach::from_bitbuf(&mut buffer);
    assert_eq!(r.unwrap_err(), PduParseError::InvalidObitValue);
}

#[test]
fn trailing_zero_is_accepted() {
    let mut buffer = BitBuffer::from_bitstr("0001100");
    let pdu = UItsiDetach::from_bitbuf(&mut buffer).unwrap();
    assert!(pdu.address_extension.is_none());
    assert!(pdu.proprietary.is_none());
}

#[test]
fn all_optionals_absent_encodes_clear_obit() {
    let pdu = UItsiDetach { address_extension: None, proprietary: None };
    let mut out = BitBuffer::new_autoexpand(0);
    pdu.to_bitbuf(&mut out).unwrap();
    assert_eq!(out.to_bitstr(), "00010");
}

#[test]
fn reserved_accept_type_is_invalid_value() {
    // D-LOCATION UPDATE ACCEPT whose 3-bit accept type is the reserved value.
    let mut buffer = BitBuffer::from_bitstr("01011110");
    let r = DLocationUpdateAccept::from_bitbuf(&mut buffer);
    assert_eq!(
        r.unwrap_err(),
        PduParseError::InvalidValue { field: "location_update_accept_type", value: 7 }
    );
}
