//! Hardware description: MAC/PHY/NVM families, their parameters, and the
//! table of routines installed for each device family.
use vstd::prelude::*;

verus! {

/// Physical medium of the link.
#[derive(Debug, Clone, Copy, PartialEq, Eq, Structural)]
pub enum MediaType {
    Unknown,
    Copper,
    Fiber,
    InternalSerdes,
}

/// MAC generations, listed in the order of the hardware families.
#[derive(Debug, Clone, Copy, PartialEq, Eq, Structural)]
pub enum MacType {
    Mac_undefined,
    Mac_82542,
    Mac_82543,
    Mac_82544,
    Mac_82540,
    Mac_82545,
    Mac_82545_rev_3,
    Mac_82546,
    Mac_82546_rev_3,
    Mac_82541,
    Mac_82541_rev_2,
    Mac_82547,
    Mac_82547_rev_2,
    Mac_82571,
    Mac_82572,
    Mac_82573,
    Mac_82574,
    Mac_82583,
    Mac_80003es2lan,
    Mac_ich8lan,
    Mac_ich9lan,
    Mac_ich10lan,
    Mac_pchlan,
    Mac_pch2lan,
    Mac_pch_lpt,
    Mac_pch_spt,
    Mac_pch_cnp,
    Mac_82575,
    Mac_82576,
    Mac_82580,
    Mac_i350,
    Mac_i354,
    Mac_i210,
    Mac_i211,
    Mac_vfadapt,
    Mac_vfadapt_i350,
}

/// Position of a MAC type in the family order (its enumeration number).
pub open spec fn mac_rank(t: MacType) -> u32 {
    match t {
        MacType::Mac_undefined => 0,
        MacType::Mac_82542 => 1,
        MacType::Mac_82543 => 2,
        MacType::Mac_82544 => 3,
        MacType::Mac_82540 => 4,
        MacType::Mac_82545 => 5,
        MacType::Mac_82545_rev_3 => 6,
        MacType::Mac_82546 => 7,
        MacType::Mac_82546_rev_3 => 8,
        MacType::Mac_82541 => 9,
        MacType::Mac_82541_rev_2 => 10,
        MacType::Mac_82547 => 11,
        MacType::Mac_82547_rev_2 => 12,
        MacType::Mac_82571 => 13,
        MacType::Mac_82572 => 14,
        MacType::Mac_82573 => 15,
        MacType::Mac_82574 => 16,
        MacType::Mac_82583 => 17,
        MacType::Mac_80003es2lan => 18,
        MacType::Mac_ich8lan => 19,
        MacType::Mac_ich9lan => 20,
        MacType::Mac_ich10lan => 21,
        MacType::Mac_pchlan => 22,
        MacType::Mac_pch2lan => 23,
        MacType::Mac_pch_lpt => 24,
        MacType::Mac_pch_spt => 25,
        MacType::Mac_pch_cnp => 26,
        MacType::Mac_82575 => 27,
        MacType::Mac_82576 => 28,
        MacType::Mac_82580 => 29,
        MacType::Mac_i350 => 30,
        MacType::Mac_i354 => 31,
        MacType::Mac_i210 => 32,
        MacType::Mac_i211 => 33,
        MacType::Mac_vfadapt => 34,
        MacType::Mac_vfadapt_i350 => 35,
    }
}

/// Rank of the first MAC handled by the "em" (rather than "lem") path.
pub const EM_MAC_MIN_RANK: u32 = 11;
/// Rank of the first MAC of the igb generation.
pub const IGB_MAC_MIN_RANK: u32 = 27;

impl MacType {
    /// The enumeration number of this MAC type.
    pub fn rank(&self) -> (r: u32)
        ensures
            r == mac_rank(*self),
    {
        match self {
            MacType::Mac_undefined => 0,
            MacType::Mac_82542 => 1,
            MacType::Mac_82543 => 2,
            MacType::Mac_82544 => 3,
            MacType::Mac_82540 => 4,
            MacType::Mac_82545 => 5,
            MacType::Mac_82545_rev_3 => 6,
            MacType::Mac_82546 => 7,
            MacType::Mac_82546_rev_3 => 8,
            MacType::Mac_82541 => 9,
            MacType::Mac_82541_rev_2 => 10,
            MacType::Mac_82547 => 11,
            MacType::Mac_82547_rev_2 => 12,
            MacType::Mac_82571 => 13,
            MacType::Mac_82572 => 14,
            MacType::Mac_82573 => 15,
            MacType::Mac_82574 => 16,
            MacType::Mac_82583 => 17,
            MacType::Mac_80003es2lan => 18,
            MacType::Mac_ich8lan => 19,
            MacType::Mac_ich9lan => 20,
            MacType::Mac_ich10lan => 21,
            MacType::Mac_pchlan => 22,
            MacType::Mac_pch2lan => 23,
            MacType::Mac_pch_lpt => 24,
            MacType::Mac_pch_spt => 25,
            MacType::Mac_pch_cnp => 26,
            MacType::Mac_82575 => 27,
            MacType::Mac_82576 => 28,
            MacType::Mac_82580 => 29,
            MacType::Mac_i350 => 30,
            MacType::Mac_i354 => 31,
            MacType::Mac_i210 => 32,
            MacType::Mac_i211 => 33,
            MacType::Mac_vfadapt => 34,
            MacType::Mac_vfadapt_i350 => 35,
        }
    }
}

/// Flow-control modes; the numeric value of each mode is given by
/// [`fc_value`] (rx pause is bit 0, tx pause is bit 1).
#[derive(Debug, Clone, Copy, PartialEq, Eq, Structural)]
pub enum FcMode {
    NoPause,
    RxPause,
    TxPause,
    Full,
    Default,
}

/// Numeric encoding of a flow-control mode.
pub open spec fn fc_value(m: FcMode) -> u32 {
    match m {
        FcMode::NoPause => 0,
        FcMode::RxPause => 1,
        FcMode::TxPause => 2,
        FcMode::Full => 3,
        FcMode::Default => 255,
    }
}

impl FcMode {
    /// Numeric encoding of the mode.
    pub fn value(&self) -> (r: u32)
        ensures
            r == fc_value(*self),
    {
        match self {
            FcMode::NoPause => 0,
            FcMode::RxPause => 1,
            FcMode::TxPause => 2,
            FcMode::Full => 3,
            FcMode::Default => 255,
        }
    }

    /// Intersection of two modes: `rhs` when the two encodings share a bit,
    /// `None` otherwise.
    pub fn bitand(self, rhs: Self) -> (r: Self)
        ensures
            r == (if fc_value(self) & fc_value(rhs) > 0 { rhs } else { FcMode::NoPause }),
    {
        if self.value() & rhs.value() > 0 {
            rhs
        } else {
            FcMode::NoPause
        }
    }
}

#[derive(Debug, Clone, Copy, PartialEq, Eq, Structural)]
pub enum UlpState {
    Unknown,
    Off,
    On,
}

#[derive(Debug, Clone, Copy, PartialEq, Eq, Structural)]
pub enum BusType {
    Unknown,
    Pci,
    Pcix,
    Pci_express,
    Reserved,
}

#[derive(Debug, Clone, Copy, PartialEq, Eq, Structural)]
pub enum BusSpeed {
    Unknown,
    Speed_33,
    Speed_66,
    Speed_100,
    Speed_120,
    Speed_133,
    Speed_2500,
    Speed_5000,
    Reserved,
}

#[derive(Debug, Clone, Copy, PartialEq, Eq, Structural)]
pub enum BusWidth {
    Unknown,
    Width_pcie_x1,
    Width_pcie_x2,
    Width_pcie_x4,
    Width_pcie_x8,
    Width_32,
    Width_64,
    Reserved,
}

#[derive(Debug, Clone, Copy, PartialEq, Eq, Structural)]
pub enum SerdesLinkState {
    Down,
    AutonegProgress,
    AutonegComplete,
    ForcedUp,
}

#[derive(Debug, Clone, Copy, PartialEq, Eq, Structural)]
pub enum SmartSpeed {
    Default,
    On,
    Off,
}

#[derive(Debug, Clone, Copy, PartialEq, Eq, Structural)]
pub enum RevPolarity {
    Normal,
    Reversed,
    Undefined,
}

/// PHY master/slave setting; `HwDefault` is the driver's default choice.
#[derive(Debug, Clone, Copy, PartialEq, Eq, Structural)]
pub enum MsType {
    HwDefault,
    ForceMaster,
    ForceSlave,
    Auto,
}

#[derive(Debug, Clone, Copy, PartialEq, Eq, Structural)]
pub enum GbRxStatus {
    NotOk,
    Good,
    Undefined,
}

#[derive(Debug, Clone, Copy, PartialEq, Eq, Structural)]
pub enum PhyType {
    Type_unknown,
    Type_none,
    Type_m88,
    Type_igp,
    Type_igp_2,
    Type_gg82563,
    Type_igp_3,
    Type_ife,
    Type_bm,
    Type_82578,
    Type_82577,
    Type_82579,
    Type_i217,
    Type_82580,
    Type_vf,
    Type_i210,
}

#[derive(Debug, Clone, Copy, PartialEq, Eq, Structural)]
pub enum NvmType {
    Unknown,
    NoNvm,
    EepromSpi,
    EepromMicrowire,
    FlashHw,
    Invm,
    FlashSw,
}

#[derive(Debug, Clone, Copy, PartialEq, Eq, Structural)]
pub enum NvmOverride {
    NoOverride,
    SpiSmall,
    SpiLarge,
    MicrowireSmall,
    MicrowireLarge,
}

/// Manageability firmware modes; [`mng_mode_value`] gives their encoding.
#[derive(Debug, Clone, Copy, PartialEq, Eq, Structural)]
pub enum MngMode {
    NoMng,
    Asf,
    Pt,
    Ipmi,
    HostIfOnly,
}

/// Numeric encoding of a manageability mode.
pub open spec fn mng_mode_value(m: MngMode) -> u32 {
    match m {
        MngMode::NoMng => 0,
        MngMode::Asf => 1,
        MngMode::Pt => 2,
        MngMode::Ipmi => 3,
        MngMode::HostIfOnly => 4,
    }
}

// ------------------------------------------------------------- routine tables

/// Routines that can serve as a PHY register reader or writer.
#[derive(Debug, Clone, Copy, PartialEq, Eq, Structural)]
pub enum PhyRegAccess {
    M88,
    Hv,
    HvLocked,
    PageHv,
    KmrnGeneric,
    KmrnLocked,
}

/// PHY-model specific routines (polarity, forced speed, cable length, info).
#[derive(Debug, Clone, Copy, PartialEq, Eq, Structural)]
pub enum PhyModel {
    M88,
    I82577,
}

/// The PHY routines installed for the detected device. A routine that no
/// device family of this driver provides (acquire/release, reset-block
/// check, link-up configuration, page selection) has no slot: asking for
/// it answers "No function".
#[derive(Debug, Clone, Copy, PartialEq, Eq, Structural)]
pub struct PhyOps {
    pub init_params: bool,
    pub check_polarity: Option<PhyModel>,
    pub commit: bool,
    pub force_speed_duplex: Option<PhyModel>,
    pub get_cfg_done: bool,
    pub get_cable_length: Option<PhyModel>,
    pub get_info: Option<PhyModel>,
    pub read_reg: Option<PhyRegAccess>,
    pub read_reg_locked: Option<PhyRegAccess>,
    pub read_reg_page: Option<PhyRegAccess>,
    pub reset: bool,
    pub write_reg: Option<PhyRegAccess>,
    pub write_reg_locked: Option<PhyRegAccess>,
    pub write_reg_page: Option<PhyRegAccess>,
    pub power_up: bool,
    pub power_down: bool,
}

/// Routines that probe the bus the MAC sits on.
#[derive(Debug, Clone, Copy, PartialEq, Eq, Structural)]
pub enum BusInfoFn {
    PciGeneric,
    PcieGeneric,
}

/// Routines that find the PCI function number of the port.
#[derive(Debug, Clone, Copy, PartialEq, Eq, Structural)]
pub enum LanIdFn {
    MultiPortPci,
    MultiPortPcie,
    SinglePort,
}

/// Routines that depend on the medium (copper, fiber, internal serdes).
#[derive(Debug, Clone, Copy, PartialEq, Eq, Structural)]
pub enum MediaFn {
    Copper,
    Fiber,
    Serdes,
}

/// Routines that read the MAC address.
#[derive(Debug, Clone, Copy, PartialEq, Eq, Structural)]
pub enum MacAddrFn {
    Generic,
    E82540,
}

/// The MAC routines installed for the detected device; a `bool` slot is
/// `true` when the single routine this driver has for it is installed.
#[derive(Debug, Clone, Copy, PartialEq, Eq, Structural)]
pub struct MacOps {
    pub init_params: bool,
    pub id_led_init: bool,
    pub check_for_link: Option<MediaFn>,
    pub cleanup_led: bool,
    pub clear_hw_cntrs: bool,
    pub clear_vfta: bool,
    pub get_bus_info: Option<BusInfoFn>,
    pub set_lan_id: Option<LanIdFn>,
    pub get_link_up_info: Option<MediaFn>,
    pub led_on: bool,
    pub led_off: bool,
    pub update_mc_addr_list: bool,
    pub reset_hw: bool,
    pub init_hw: bool,
    pub setup_link: bool,
    pub setup_physical_interface: Option<MediaFn>,
    pub setup_led: bool,
    pub write_vfta: bool,
    pub config_collision_dist: bool,
    pub rar_set: bool,
    pub read_mac_addr: Option<MacAddrFn>,
    pub validate_mdi_setting: bool,
}

/// The NVM routines installed for the detected device.
#[derive(Debug, Clone, Copy, PartialEq, Eq, Structural)]
pub struct NvmOps {
    pub init_params: bool,
    pub acquire: bool,
    pub read: bool,
    pub release: bool,
    pub reload: bool,
    pub update: bool,
    pub valid_led_default: bool,
    pub validate: bool,
    pub write: bool,
}

/// The mailbox routines installed for the detected device.
#[derive(Debug, Clone, Copy, PartialEq, Eq, Structural)]
pub struct MbxOps {
    pub read_posted: bool,
    pub write_posted: bool,
}

/// An empty PHY routine table.
pub open spec fn phy_ops_empty() -> PhyOps {
    PhyOps {
        init_params: false,
        check_polarity: None,
        commit: false,
        force_speed_duplex: None,
        get_cfg_done: false,
        get_cable_length: None,
        get_info: None,
        read_reg: None,
        read_reg_locked: None,
        read_reg_page: None,
        reset: false,
        write_reg: None,
        write_reg_locked: None,
        write_reg_page: None,
        power_up: false,
        power_down: false,
    }
}

impl PhyOps {
    /// Installs the generic PHY routines; there are none, so the table is
    /// left as it is.
    pub fn init_generic(&mut self)
        ensures
            *final(self) == *old(self),
    {
    }
}

impl NvmOps {
    /// Installs the generic NVM routines: the generic reload.
    pub fn init_generic(&mut self)
        ensures
            *final(self) == (NvmOps { reload: true, ..*old(self) }),
    {
        self.reload = true;
    }
}

impl MbxOps {
    /// Installs the generic mailbox routines: posted read and posted write.
    pub fn init_generic(&mut self)
        ensures
            *final(self) == (MbxOps { read_posted: true, write_posted: true }),
    {
        self.read_posted = true;
        self.write_posted = true;
    }
}

impl MacOps {
    /// Installs the generic MAC routines: PCIe LAN id, generic MAC address
    /// read, collision distance, receive-address set and MDI validation.
    pub fn init_generic(&mut self)
        ensures
            *final(self) == (MacOps {
                set_lan_id: Some(LanIdFn::MultiPortPcie),
                read_mac_addr: Some(MacAddrFn::Generic),
                config_collision_dist: true,
                rar_set: true,
                validate_mdi_setting: true,
                ..*old(self)
            }),
    {
        self.set_lan_id = Some(LanIdFn::MultiPortPcie);
        self.read_mac_addr = Some(MacAddrFn::Generic);
        self.config_collision_dist = true;
        self.rar_set = true;
        self.validate_mdi_setting = true;
    }
}

// ------------------------------------------------------------ descriptions

#[derive(Debug, Clone, Copy, PartialEq, Eq, Structural)]
pub struct FcInfo {
    pub high_water: u32,
    pub low_water: u32,
    pub pause_time: u16,
    pub refresh_time: u16,
    pub send_xon: bool,
    pub strict_ieee: bool,
    pub current_mode: FcMode,
    pub requested_mode: FcMode,
}

#[derive(Debug, Clone, Copy, PartialEq, Eq, Structural)]
pub struct BusInfo {
    pub bustype: BusType,
    pub speed: BusSpeed,
    pub width: BusWidth,
    pub func: u16,
    pub pci_cmd_word: u16,
}

#[derive(Debug, Clone, Copy, PartialEq, Eq, Structural)]
pub struct PhyInfo {
    pub ops: PhyOps,
    pub media_type: MediaType,
    pub phy_type: PhyType,
    pub local_rx: GbRxStatus,
    pub remote_rx: GbRxStatus,
    pub ms_type: MsType,
    pub original_ms_type: MsType,
    pub cable_polarity: RevPolarity,
    pub smart_speed: SmartSpeed,
    pub addr: u32,
    pub id: u32,
    pub reset_delay_us: u32,
    pub revision: u32,
    pub autoneg_advertised: u16,
    pub autoneg_mask: u16,
    pub cable_length: u16,
    pub max_cable_length: u16,
    pub min_cable_length: u16,
    pub mdix: u8,
    pub disable_polarity_correction: bool,
    pub is_mdix: bool,
    pub polarity_correction: bool,
    pub speed_downgraded: bool,
    pub autoneg_wait_to_complete: bool,
}

#[derive(Debug, Clone, Copy, PartialEq, Eq, Structural)]
pub struct NvmInfo {
    pub ops: NvmOps,
    pub nvm_type: NvmType,
    pub nvmoverride: NvmOverride,
    pub flash_bank_size: u32,
    pub flash_base_addr: u32,
    pub word_size: u16,
    pub delay_usec: u16,
    pub address_bits: u16,
    pub opcode_bits: u16,
    pub page_size: u16,
}

#[derive(Debug, Clone, Copy, PartialEq, Eq, Structural)]
pub struct MbxStats {
    pub msgs_tx: u32,
    pub msgs_rx: u32,
    pub acks: u32,
    pub reqs: u32,
    pub rsts: u32,
}

#[derive(Debug, Clone, Copy, PartialEq, Eq, Structural)]
pub struct MbxInfo {
    pub ops: MbxOps,
    pub stats: MbxStats,
    pub timeout: u32,
    pub usec_delay: u32,
    pub size: u16,
}

/// MAC parameters and state. The multicast shadow table holds
/// `mta_reg_count` words.
#[derive(Debug, Clone)]
pub struct MacInfo {
    pub ops: MacOps,
    pub mac_type: MacType,
    pub addr: [u8; 6],
    pub perm_addr: [u8; 6],
    pub collision_delta: u32,
    pub ledctl_default: u32,
    pub ledctl_mode1: u32,
    pub ledctl_mode2: u32,
    pub mc_filter_type: u32,
    pub tx_packet_delta: u32,
    pub txcw: u32,
    pub current_ifs_val: u16,
    pub ifs_max_val: u16,
    pub ifs_min_val: u16,
    pub ifs_ratio: u16,
    pub ifs_step_size: u16,
    pub mta_reg_count: u16,
    pub uta_reg_count: u16,
    pub mta_shadow: Vec<u32>,
    pub rar_entry_count: u16,
    pub forced_speed_duplex: u8,
    pub adaptive_ifs: bool,
    pub has_fwsm: bool,
    pub arc_subsystem_valid: bool,
    pub asf_firmware_present: bool,
    pub autoneg: bool,
    pub autoneg_failed: bool,
    pub get_link_status: bool,
    pub in_ifs_mode: bool,
    pub report_tx_early: bool,
    pub serdes_link_state: SerdesLinkState,
    pub serdes_has_link: bool,
    pub tx_pkt_filtering: bool,
    pub max_frame_size: u32,
}

#[derive(Debug, Clone, Copy, PartialEq, Eq, Structural)]
pub struct DevSpec_82541 {
    pub phy_init_script: bool,
}

#[derive(Debug, Clone, Copy, PartialEq, Eq, Structural)]
pub struct ShadowRam {
    pub value: u16,
    pub modified: bool,
}

#[derive(Debug, Clone)]
pub struct DevSpec_ich8lan {
    pub kmrn_lock_loss_workaround_enabled: bool,
    pub shadow_ram: Vec<ShadowRam>,
    pub nvm_k1_enabled: bool,
    pub disable_k1_off: bool,
    pub eee_disable: bool,
    pub eee_lp_ability: u16,
    pub ulp_state: UlpState,
    pub ulp_capability_disabled: bool,
    pub during_suspend_flow: bool,
    pub during_dpg_exit: bool,
}

/// Device-family specific state.
#[derive(Debug, Clone)]
pub struct DevSpec {
    pub _82541: DevSpec_82541,
    pub ich8lan: DevSpec_ich8lan,
}

/// Everything the driver knows about the controller.
#[derive(Debug, Clone)]
pub struct Hardware {
    pub phy: PhyInfo,
    pub mac: MacInfo,
    pub nvm: NvmInfo,
    pub mbx: MbxInfo,
    pub bus: BusInfo,
    pub fc: FcInfo,
    pub vendor_id: u16,
    pub device_id: u16,
    pub subsystem_vendor_id: u16,
    pub subsystem_device_id: u16,
    pub revision_id: u8,
    pub io_base: u64,
    pub dev_spec: DevSpec,
}

} // verus!
