//! Mobility Management (MM) protocol data units and their field tables.

pub mod pdu_type;
pub mod accept_type;
pub mod elem_id;
pub mod group_identity_downlink;
pub mod u_itsi_detach;
pub mod d_attach_detach_group_identity_acknowledgement;
pub mod d_location_update_accept;
pub mod d_location_update_proceeding;
pub mod d_location_update_reject;
pub mod u_attach_detach_group_identity_acknowledgement;
pub mod u_location_update_demand;
