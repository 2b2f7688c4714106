//! Circuit Mode Control Entity (CMCE) protocol data units and their field
//! tables.

pub mod pdu_type;
pub mod elem_id;

pub mod d_alert;
pub mod d_call_restore;
pub mod d_connect;
pub mod d_connect_acknowledge;
pub mod d_info;
pub mod d_release;
pub mod d_setup;
pub mod d_status;
pub mod d_tx_granted;
pub mod d_tx_wait;
pub mod u_alert;
pub mod u_call_restore;
pub mod u_connect;
pub mod u_info;
pub mod u_tx_ceased;
pub mod u_tx_demand;
