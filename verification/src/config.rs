//! Stack configuration data: the plain settings every layer reads. Loading
//! them from a configuration file, and the radio-frequency settings that
//! need floating point, live with the process entry point, not here.

use vstd::prelude::*;

verus! {

/// Which role the stack runs in.
#[derive(Debug, Clone, Copy, PartialEq, Eq, Structural)]
pub enum StackMode {
    Bs,
    Ms,
    Mon,
}

/// The PHY layer input device kind.
#[derive(Debug, Clone, Copy, PartialEq, Eq, Structural)]
pub enum RfIoType {
    Undefined,
    NoDevice,
    Soapysdr,
    File,
}

/// Network identity, from the D-MLE-SYNC broadcast (clause 18.4.2.1).
#[derive(Debug, Clone, Copy, PartialEq, Eq, Structural)]
pub struct CfgNetInfo {
    /// 10 bits.
    pub mcc: u16,
    /// 14 bits.
    pub mnc: u16,
}

/// Cell identity and service flags, from SYNC, SYSINFO and D-MLE-SYSINFO.
#[derive(Debug, Clone, Copy, PartialEq, Eq, Structural)]
pub struct CfgCellInfo {
    /// 2 bits, from D-MLE-SYNC.
    pub neighbor_cell_broadcast: u8,
    /// 2 bits, from D-MLE-SYNC.
    pub cell_load_ca: u8,
    /// 1 bit, from D-MLE-SYNC.
    pub late_entry_supported: bool,
    /// 12 bits, from MAC SYSINFO.
    pub main_carrier: u16,
    /// 4 bits, from MAC SYSINFO.
    pub freq_band: u8,
    /// 2 bits, from MAC SYSINFO.
    pub freq_offset: u8,
    /// 3 bits, from MAC SYSINFO.
    pub duplex_spacing_setting: u8,
    /// 1 bit, from MAC SYSINFO.
    pub reverse_operation: bool,
    /// 14 bits, from D-MLE-SYSINFO.
    pub location_area: u16,
    /// 16 bits, from D-MLE-SYSINFO.
    pub subscriber_class: u16,
    pub registration: bool,
    pub deregistration: bool,
    pub priority_cell: bool,
    pub no_minimum_mode: bool,
    pub migration: bool,
    pub system_wide_services: bool,
    pub voice_service: bool,
    pub circuit_mode_data_service: bool,
    pub sndcp_service: bool,
    pub aie_service: bool,
    pub advanced_link: bool,
    /// From SYNC.
    pub system_code: u8,
    pub colour_code: u8,
    pub sharing_mode: u8,
    pub ts_reserved_frames: u8,
    pub u_plane_dtx: bool,
    pub frame_18_ext: bool,
}

/// Mutable, stack-editable state.
#[derive(Debug, Clone, Copy, PartialEq, Eq, Structural)]
pub struct StackState {
    pub cell_load_ca: u8,
}

/// The frequency band a cell sits in when the configuration names none.
pub fn default_freq_band() -> (r: u8)
    ensures
        r == 4u8,
{
    4
}

/// The main carrier a cell uses when the configuration names none.
pub fn default_main_carrier() -> (r: u16)
    ensures
        r == 1521u16,
{
    1521
}

/// The role the stack runs in when the configuration names none.
pub fn default_stack_mode() -> (r: StackMode)
    ensures
        r == StackMode::Bs,
{
    StackMode::Bs
}

impl Default for CfgCellInfo {
    /// A registration-capable cell on the default carrier, with every other
    /// flag and field cleared.
    fn default() -> (r: CfgCellInfo)
        ensures
            r.main_carrier == 1521u16,
            r.freq_band == 4u8,
            r.registration,
            r.deregistration,
            r.neighbor_cell_broadcast == 0u8 && r.cell_load_ca == 0u8 && !r.late_entry_supported,
            r.freq_offset == 0u8 && r.duplex_spacing_setting == 0u8 && !r.reverse_operation,
            r.location_area == 0u16 && r.subscriber_class == 0u16,
            !r.priority_cell && !r.no_minimum_mode && !r.migration && !r.system_wide_services,
            !r.voice_service && !r.circuit_mode_data_service && !r.sndcp_service && !r.aie_service,
            !r.advanced_link,
            r.system_code == 0u8 && r.colour_code == 0u8 && r.sharing_mode == 0u8,
            r.ts_reserved_frames == 0u8 && !r.u_plane_dtx && !r.frame_18_ext,
    {
        CfgCellInfo {
            freq_band: default_freq_band(),
            main_carrier: default_main_carrier(),
            freq_offset: 0,
            duplex_spacing_setting: 0,
            reverse_operation: false,
            neighbor_cell_broadcast: 0,
            cell_load_ca: 0,
            late_entry_supported: false,
            location_area: 0,
            subscriber_class: 0,
            registration: true,
            deregistration: true,
            priority_cell: false,
            no_minimum_mode: false,
            migration: false,
            system_wide_services: false,
            voice_service: false,
            circuit_mode_data_service: false,
            sndcp_service: false,
            aie_service: false,
            advanced_link: false,
            system_code: 0,
            colour_code: 0,
            sharing_mode: 0,
            ts_reserved_frames: 0,
            u_plane_dtx: false,
            frame_18_ext: false,
        }
    }
}

impl Default for StackState {
    /// The initial mutable state: no load reported.
    fn default() -> (r: StackState)
        ensures
            r == (StackState { cell_load_ca: 0u8 }),
    {
        StackState { cell_load_ca: 0 }
    }
}

} // verus!
