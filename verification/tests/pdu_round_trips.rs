//! Encode-then-decode round trips across the CMCE and MM PDU set.

use tetra_codec::bitbuffer::BitBuffer;
use tetra_codec::type34::Type3Element;
use tetra_codec::cmce::d_alert::DAlert;
use tetra_codec::cmce::d_release::DRelease;
use tetra_codec::cmce::d_setup::DSetup;
use tetra_codec::cmce::d_status::DStatus;
use tetra_codec::cmce::u_connect::UConnect;
use tetra_codec::cmce::u_tx_demand::UTxDemand;
use tetra_codec::mm::accept_type::MmLocationUpdateAcceptType;
use tetra_codec::mm::d_location_update_accept::DLocationUpdateAccept;
use tetra_codec::mm::d_location_update_proceeding::DLocationUpdateProceeding;
use tetra_codec::mm::d_location_update_reject::DLocationUpdateReject;
use tetra_codec::mm::group_identity_downlink::GroupIdentityDownlink;
use tetra_codec::mm::d_attach_detach_group_identity_acknowledgement::DAttachDetachGroupIdentityAcknowledgement;
use tetra_codec::mm::u_location_update_demand::ULocationUpdateDemand;

fn encode(f: impl FnOnce(&mut BitBuffer)) -> String {
    let mut buffer = BitBuffer::new_autoexpand(64);
    f(&mut buffer);
    buffer.to_bitstr()
}

#[test]
fn d_release_round_trip() {
    let pdu = DRelease {
        call_identifier: 0x1234,
        disconnect_cause: 9,
        notification_indicator: Some(17),
        facility: None,
        proprietary: None,
    };
    let s = encode(|b| pdu.to_bitbuf(b).unwrap());
    let mut buffer = BitBuffer::from_bitstr(&s);
    let back = DRelease::from_bitbuf(&mut buffer).unwrap();
    assert_eq!(back.call_identifier, 0x1234);
    assert_eq!(back.disconnect_cause, 9);
    assert_eq!(back.notification_indicator, Some(17));
    assert!(back.facility.is_none());
    assert!(back.proprietary.is_none());
    assert_eq!(buffer.remaining(), 0);
}

#[test]
fn d_status_conditional_fields_round_trip() {
    let pdu = DStatus {
        calling_party_type_identifier: 2,
        calling_party_address_ssi: Some(0xABCDEF),
        calling_party_extension: Some(0x123456),
        pre_coded_status: 0x8001,
        external_subscriber_number: None,
        dm_ms_address: None,
    };
    let s = encode(|b| pdu.to_bitbuf(b).unwrap());
    let mut buffer = BitBuffer::from_bitstr(&s);
    let back = DStatus::from_bitbuf(&mut buffer).unwrap();
    assert_eq!(back.calling_party_type_identifier, 2);
    assert_eq!(back.calling_party_address_ssi, Some(0xABCDEF));
    assert_eq!(back.calling_party_extension, Some(0x123456));
    assert_eq!(back.pre_coded_status, 0x8001);
}

#[test]
fn d_setup_type2_gated_conditionals_round_trip() {
    let pdu = DSetup {
        call_identifier: 77,
        call_time_out: 3,
        hook_method_selection: false,
        simplex_duplex_selection: true,
        basic_service_information: 0x5C,
        transmission_grant: 1,
        transmission_request_permission: false,
        call_priority: 11,
        notification_indicator: None,
        temporary_address: None,
        calling_party_type_identifier: Some(2),
        calling_party_address_ssi: Some(0x00F00D),
        calling_party_extension: Some(0x0BEEF5),
        external_subscriber_number: None,
        facility: None,
        dm_ms_address: None,
        proprietary: None,
    };
    let s = encode(|b| pdu.to_bitbuf(b).unwrap());
    let mut buffer = BitBuffer::from_bitstr(&s);
    let back = DSetup::from_bitbuf(&mut buffer).unwrap();
    assert_eq!(back.calling_party_type_identifier, Some(2));
    assert_eq!(back.calling_party_address_ssi, Some(0x00F00D));
    assert_eq!(back.calling_party_extension, Some(0x0BEEF5));
    assert_eq!(back.call_priority, 11);
    assert_eq!(buffer.remaining(), 0);
}

#[test]
fn d_alert_with_facility_element_round_trip() {
    let facility = Type3Element { field_type: 3, data: 0x5A5A, len: 16 };
    let pdu = DAlert {
        call_identifier: 1,
        call_time_out_set_up_phase: 2,
        reserved: false,
        simplex_duplex_selection: false,
        call_queued: true,
        basic_service_information: None,
        notification_indicator: None,
        facility: Some(facility),
        proprietary: None,
    };
    let s = encode(|b| pdu.to_bitbuf(b).unwrap());
    let mut buffer = BitBuffer::from_bitstr(&s);
    let back = DAlert::from_bitbuf(&mut buffer).unwrap();
    assert_eq!(back.facility, Some(facility));
    assert!(back.call_queued);
    assert_eq!(buffer.remaining(), 0);
}

#[test]
fn u_connect_round_trip() {
    let pdu = UConnect {
        call_identifier: 9,
        hook_method_selection: true,
        simplex_duplex_selection: false,
        basic_service_information: Some(0xA5),
        facility: None,
        proprietary: None,
    };
    let s = encode(|b| pdu.to_bitbuf(b).unwrap());
    let mut buffer = BitBuffer::from_bitstr(&s);
    let back = UConnect::from_bitbuf(&mut buffer).unwrap();
    assert_eq!(back.basic_service_information, Some(0xA5));
    assert!(back.hook_method_selection);
}

#[test]
fn u_tx_demand_without_optionals_round_trip() {
    let pdu = UTxDemand {
        call_identifier: 0x3FFF,
        tx_demand_priority: 3,
        encryption_control: false,
        reserved: false,
        facility: None,
        dm_ms_address: None,
        proprietary: None,
    };
    let s = encode(|b| pdu.to_bitbuf(b).unwrap());
    assert_eq!(s.len(), 5 + 14 + 2 + 1 + 1 + 1);
    let mut buffer = BitBuffer::from_bitstr(&s);
    let back = UTxDemand::from_bitbuf(&mut buffer).unwrap();
    assert_eq!(back.call_identifier, 0x3FFF);
    assert_eq!(back.tx_demand_priority, 3);
}

#[test]
fn d_location_update_proceeding_round_trip() {
    let pdu = DLocationUpdateProceeding {
        ssi: 0xABCDEF,
        address_extension: 0x123456,
        proprietary: None,
    };
    let s = encode(|b| pdu.to_bitbuf(b).unwrap());
    let mut buffer = BitBuffer::from_bitstr(&s);
    let back = DLocationUpdateProceeding::from_bitbuf(&mut buffer).unwrap();
    assert_eq!(back.ssi, 0xABCDEF);
    assert_eq!(back.address_extension, 0x123456);
}

#[test]
fn d_location_update_accept_round_trip() {
    let pdu = DLocationUpdateAccept {
        location_update_accept_type: MmLocationUpdateAcceptType::RoamingLocationUpdating,
        ssi: Some(0x010203),
        address_extension: None,
        subscriber_class: Some(0xFFFF),
        energy_saving_information: None,
        scch_information_and_distribution_on_18th_frame: None,
        new_registered_area: None,
        security_downlink: None,
        group_identity_location_accept: None,
        default_group_attachment_lifetime: None,
        authentication_downlink: None,
        group_identity_security_related_information: None,
        cell_type_control: None,
        proprietary: None,
    };
    let s = encode(|b| pdu.to_bitbuf(b));
    let mut buffer = BitBuffer::from_bitstr(&s);
    let back = DLocationUpdateAccept::from_bitbuf(&mut buffer).unwrap();
    assert_eq!(
        back.location_update_accept_type,
        MmLocationUpdateAcceptType::RoamingLocationUpdating
    );
    assert_eq!(back.ssi, Some(0x010203));
    assert_eq!(back.subscriber_class, Some(0xFFFF));
    assert_eq!(buffer.remaining(), 0);
}

#[test]
fn d_location_update_reject_cipher_conditional_round_trip() {
    let pdu = DLocationUpdateReject {
        location_update_type: 1,
        reject_cause: 16,
        cipher_control: true,
        ciphering_parameters: Some(0x155),
        address_extension: None,
        cell_type_control: None,
        proprietary: None,
    };
    let s = encode(|b| pdu.to_bitbuf(b).unwrap());
    let mut buffer = BitBuffer::from_bitstr(&s);
    let back = DLocationUpdateReject::from_bitbuf(&mut buffer).unwrap();
    assert!(back.cipher_control);
    assert_eq!(back.ciphering_parameters, Some(0x155));
    assert_eq!(back.reject_cause, 16);
}

#[test]
fn u_location_update_demand_round_trip() {
    let pdu = ULocationUpdateDemand {
        location_update_type: 4,
        request_to_append_la: false,
        cipher_control: false,
        ciphering_parameters: None,
        class_of_ms: Some(0x800001),
        energy_saving_mode: Some(5),
        la_information: None,
        ssi: Some(0x000042),
        address_extension: None,
        group_identity_location_demand: None,
        group_report_response: None,
        authentication_uplink: None,
        extended_capabilities: None,
        proprietary: None,
    };
    let s = encode(|b| pdu.to_bitbuf(b).unwrap());
    let mut buffer = BitBuffer::from_bitstr(&s);
    let back = ULocationUpdateDemand::from_bitbuf(&mut buffer).unwrap();
    assert_eq!(back.location_update_type, 4);
    assert_eq!(back.class_of_ms, Some(0x800001));
    assert_eq!(back.energy_saving_mode, Some(5));
    assert_eq!(back.ssi, Some(0x000042));
    assert_eq!(buffer.remaining(), 0);
}

#[test]
fn group_identity_container_round_trip() {
    let record = GroupIdentityDownlink {
        attach_detach_type_identifier: false,
        group_identity_attachment_lifetime: 3,
        class_of_usage: 4,
        group_identity_address_type: 2,
        gssi: 0x0D4670,
    };
    let pdu = DAttachDetachGroupIdentityAcknowledgement {
        group_identity_accept_reject: 0,
        reserved: false,
        proprietary: None,
        group_identity_downlink: Some(vec![record, record]),
        group_identity_security_related_information: None,
    };
    let s = encode(|b| pdu.to_bitbuf(b).unwrap());
    let mut buffer = BitBuffer::from_bitstr(&s);
    let back = DAttachDetachGroupIdentityAcknowledgement::from_bitbuf(&mut buffer).unwrap();
    let gids = back.group_identity_downlink.unwrap();
    assert_eq!(gids.len(), 2);
    assert_eq!(gids[0], record);
    assert_eq!(gids[1], record);
    assert_eq!(buffer.remaining(), 0);
}
