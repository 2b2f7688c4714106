//! Tests of the client-state manager and the configuration defaults.

use tetra_codec::client_state::{MmClientMgr, MmClientState};
use tetra_codec::config::{
    default_freq_band, default_main_carrier, default_stack_mode, CfgCellInfo, StackMode,
    StackState,
};
use tetra_codec::address::TetraAddress;
use tetra_codec::address::SsiType;

#[test]
fn client_manager_lifecycle() {
    let mut mgr = MmClientMgr::new();
    assert!(!mgr.is_known(42));

    let props = mgr.fetch_or_create(42);
    assert_eq!(props.ssi, 42);
    assert_eq!(props.state, MmClientState::Unknown);
    assert!(mgr.is_known(42));

    // Fetching again does not reset anything.
    let again = mgr.fetch_or_create(42);
    assert_eq!(again.state, MmClientState::Unknown);

    mgr.register(42, true);
    let attached = mgr.fetch_or_create(42);
    assert_eq!(attached.state, MmClientState::Attached);

    let removed = mgr.remove(42).expect("the client was known");
    assert_eq!(removed.ssi, 42);
    assert_eq!(removed.state, MmClientState::Attached);
    assert!(!mgr.is_known(42));
    assert!(mgr.remove(42).is_none());
}

#[test]
fn register_without_attachment_keeps_state_unknown() {
    let mut mgr = MmClientMgr::new();
    mgr.register(7, false);
    assert_eq!(mgr.fetch_or_create(7).state, MmClientState::Unknown);
}

#[test]
fn config_defaults() {
    assert_eq!(default_freq_band(), 4);
    assert_eq!(default_main_carrier(), 1521);
    assert_eq!(default_stack_mode(), StackMode::Bs);

    let cell = CfgCellInfo::default();
    assert_eq!(cell.main_carrier, 1521);
    assert_eq!(cell.freq_band, 4);
    assert!(cell.registration);
    assert!(cell.deregistration);
    assert!(!cell.voice_service);
    assert_eq!(cell.location_area, 0);

    assert_eq!(StackState::default().cell_load_ca, 0);
}

#[test]
fn default_address_is_neutral() {
    let a = TetraAddress::default();
    assert!(!a.encrypted);
    assert_eq!(a.ssi_type, SsiType::Unknown);
    assert_eq!(a.ssi, 0);
}
