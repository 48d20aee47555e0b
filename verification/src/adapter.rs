//! The adapter: everything the driver keeps about one controller, the
//! machine it reaches through, and the recorded trace of that machine
//! access.
use vstd::prelude::*;
use crate::consts::{E1000_STATUS};
use crate::hw::{
    BusInfo, BusSpeed, BusType, BusWidth, DevSpec, DevSpec_82541, DevSpec_ich8lan, FcInfo,
    FcMode, GbRxStatus, Hardware, MacInfo, MacOps, MacType, MbxInfo, MbxOps, MbxStats,
    MediaType, MsType, NvmInfo, NvmOps, NvmOverride, NvmType, PhyInfo, PhyOps, PhyType,
    RevPolarity, SerdesLinkState, ShadowRam, SmartSpeed, UlpState, phy_ops_empty,
};
use crate::iflib::{IfLibShared, IfMedia, IfNet, TxRxKind, iflib_intr_mode_t};
use crate::platform::{IoOp, Platform, read_value};
use crate::rings::{HwStats, IntDelayInfo, RxQueue, TxQueue};

verus! {

/// Result of a driver operation; the error carries a message.
pub type AdResult = Result<(), String>;

/// One e1000 controller.
pub struct Adapter<P: Platform> {
    /// The machine the driver reaches through.
    pub plat: P,
    /// Every machine access made through this adapter, oldest first.
    pub io_log: Ghost<Seq<IoOp>>,
    pub hw: Hardware,
    pub ifnet: IfNet,
    pub ifmedia: IfMedia,
    pub iflib_shared: IfLibShared,
    pub io_rid: i32,
    pub tx_process_limit: u32,
    pub rx_process_limit: u32,
    /// Multicast address array (six bytes per address), once allocated.
    pub mta: Option<Vec<u8>>,
    pub tx_queues: Vec<TxQueue>,
    pub rx_queues: Vec<RxQueue>,
    pub wol: u32,
    pub has_manage: bool,
    pub has_amt: bool,
    pub link_active: bool,
    pub link_speed: u16,
    pub link_duplex: u16,
    pub smartspeed: u32,
    pub dmac: u32,
    pub link_mask: i32,
    pub que_mask: u64,
    pub dropped_pkts: u64,
    pub link_irq: u64,
    pub mbuf_defrag_failed: u64,
    pub no_tx_dma_setup: u64,
    pub no_tx_map_avail: u64,
    pub rx_overruns: u64,
    pub watchdog_events: u64,
    pub tx_int_delay: IntDelayInfo,
    pub tx_abs_int_delay: IntDelayInfo,
    pub rx_int_delay: IntDelayInfo,
    pub rx_abs_int_delay: IntDelayInfo,
    pub fc: FcMode,
    pub stats: HwStats,
    pub vf_ifp: u16,
    pub txd_cmd: u32,
    pub rx_mbuf_sz: u32,
    pub num_vlans: u32,
}

impl<P: Platform> Adapter<P> {
    /// All driver state other than the hardware description, the machine
    /// and the trace is the same in `self` and `o`.
    pub open spec fn same_except_hw(&self, o: &Self) -> bool {
        *self == (Adapter { plat: self.plat, io_log: self.io_log, hw: self.hw, ..*o })
    }

    /// All driver state (everything but the machine and the trace) is the
    /// same in `self` and `o`.
    pub open spec fn same_state(&self, o: &Self) -> bool {
        self.same_except_hw(o) && self.hw == o.hw
    }

    /// The trace of `self` is that of `o` followed by `ops`.
    pub open spec fn logged(&self, o: &Self, ops: Seq<IoOp>) -> bool {
        self.io_log@ =~= o.io_log@ + ops
    }

    /// The trace of `self` extends that of `o`.
    pub open spec fn log_extends(&self, o: &Self) -> bool {
        &&& self.io_log@.len() >= o.io_log@.len()
        &&& forall|i: int| 0 <= i < o.io_log@.len() ==> self.io_log@[i] == o.io_log@[i]
    }

    /// The value returned by the `k`-th operation recorded since `o`, when
    /// that operation is a register read.
    pub open spec fn read_at(&self, o: &Self, k: int) -> u32 {
        read_value(self.io_log@[o.io_log@.len() + k])
    }

    /// The operations appended to the trace since `o`.
    pub open spec fn new_ops(&self, o: &Self) -> Seq<IoOp> {
        self.io_log@.subrange(o.io_log@.len() as int, self.io_log@.len() as int)
    }
}

/// Keeping everything but the machine and the trace composes.
pub proof fn lemma_same_except_hw_trans<P: Platform>(a: &Adapter<P>, b: &Adapter<P>, c: &Adapter<P>)
    requires
        b.same_except_hw(a),
        c.same_except_hw(b),
    ensures
        c.same_except_hw(a),
{
}

/// A fresh, zero-filled MAC description.
fn new_mac_info() -> (m: MacInfo)
    ensures
        m.mac_type == MacType::Mac_undefined,
        m.mta_shadow@.len() == 128,
        forall|i: int| 0 <= i < 128 ==> m.mta_shadow@[i] == 0,
        m.mta_reg_count == 0,
        m.max_frame_size == 0,
        !m.get_link_status,
        !m.autoneg,
{
    let mut shadow: Vec<u32> = Vec::new();
    let mut i: usize = 0;
    while i < 128
        invariant
            i <= 128,
            shadow@.len() == i,
            forall|k: int| 0 <= k < i ==> shadow@[k] == 0,
        decreases 128 - i,
    {
        shadow.push(0);
        i = i + 1;
    }
    MacInfo {
        ops: MacOps {
            init_params: false,
            id_led_init: false,
            check_for_link: None,
            cleanup_led: false,
            clear_hw_cntrs: false,
            clear_vfta: false,
            get_bus_info: None,
            set_lan_id: None,
            get_link_up_info: None,
            led_on: false,
            led_off: false,
            update_mc_addr_list: false,
            reset_hw: false,
            init_hw: false,
            setup_link: false,
            setup_physical_interface: None,
            setup_led: false,
            write_vfta: false,
            config_collision_dist: false,
            rar_set: false,
            read_mac_addr: None,
            validate_mdi_setting: false,
        },
        mac_type: MacType::Mac_undefined,
        addr: [0u8; 6],
        perm_addr: [0u8; 6],
        collision_delta: 0,
        ledctl_default: 0,
        ledctl_mode1: 0,
        ledctl_mode2: 0,
        mc_filter_type: 0,
        tx_packet_delta: 0,
        txcw: 0,
        current_ifs_val: 0,
        ifs_max_val: 0,
        ifs_min_val: 0,
        ifs_ratio: 0,
        ifs_step_size: 0,
        mta_reg_count: 0,
        uta_reg_count: 0,
        mta_shadow: shadow,
        rar_entry_count: 0,
        forced_speed_duplex: 0,
        adaptive_ifs: false,
        has_fwsm: false,
        arc_subsystem_valid: false,
        asf_firmware_present: false,
        autoneg: false,
        autoneg_failed: false,
        get_link_status: false,
        in_ifs_mode: false,
        report_tx_early: false,
        serdes_link_state: SerdesLinkState::Down,
        serdes_has_link: false,
        tx_pkt_filtering: false,
        max_frame_size: 0,
    }
}

/// A fresh, zero-filled PHY description.
fn new_phy_info() -> (p: PhyInfo)
    ensures
        p.ops == phy_ops_empty(),
        p.media_type == MediaType::Unknown,
        p.phy_type == PhyType::Type_unknown,
        p.addr == 0,
        p.id == 0,
{
    PhyInfo {
        ops: PhyOps {
            init_params: false,
            check_polarity: None,
            commit: false,
            force_speed_duplex: None,
            get_cfg_done: false,
            get_cable_length: None,
            get_info: None,
            read_reg: None,
            read_reg_locked: None,
            read_reg_page: None,
            reset: false,
            write_reg: None,
            write_reg_locked: None,
            write_reg_page: None,
            power_up: false,
            power_down: false,
        },
        media_type: MediaType::Unknown,
        phy_type: PhyType::Type_unknown,
        local_rx: GbRxStatus::NotOk,
        remote_rx: GbRxStatus::NotOk,
        ms_type: MsType::HwDefault,
        original_ms_type: MsType::HwDefault,
        cable_polarity: RevPolarity::Normal,
        smart_speed: SmartSpeed::Default,
        addr: 0,
        id: 0,
        reset_delay_us: 0,
        revision: 0,
        autoneg_advertised: 0,
        autoneg_mask: 0,
        cable_length: 0,
        max_cable_length: 0,
        min_cable_length: 0,
        mdix: 0,
        disable_polarity_correction: false,
        is_mdix: false,
        polarity_correction: false,
        speed_downgraded: false,
        autoneg_wait_to_complete: false,
    }
}

/// A fresh, zero-filled hardware description.
pub fn new_hardware() -> (h: Hardware)
    ensures
        h.mac.mac_type == MacType::Mac_undefined,
        h.mac.mta_shadow@.len() == 128,
        h.phy.ops == phy_ops_empty(),
        h.phy.media_type == MediaType::Unknown,
        h.device_id == 0,
        h.bus.func == 0,
{
    let mut shadow_ram: Vec<ShadowRam> = Vec::new();
    let mut i: usize = 0;
    while i < 2048
        invariant
            i <= 2048,
            shadow_ram@.len() == i,
        decreases 2048 - i,
    {
        shadow_ram.push(ShadowRam { value: 0, modified: false });
        i = i + 1;
    }
    Hardware {
        phy: new_phy_info(),
        mac: new_mac_info(),
        nvm: NvmInfo {
            ops: NvmOps {
                init_params: false,
                acquire: false,
                read: false,
                release: false,
                reload: false,
                update: false,
                valid_led_default: false,
                validate: false,
                write: false,
            },
            nvm_type: NvmType::Unknown,
            nvmoverride: NvmOverride::NoOverride,
            flash_bank_size: 0,
            flash_base_addr: 0,
            word_size: 0,
            delay_usec: 0,
            address_bits: 0,
            opcode_bits: 0,
            page_size: 0,
        },
        mbx: MbxInfo {
            ops: MbxOps { read_posted: false, write_posted: false },
            stats: MbxStats { msgs_tx: 0, msgs_rx: 0, acks: 0, reqs: 0, rsts: 0 },
            timeout: 0,
            usec_delay: 0,
            size: 0,
        },
        bus: BusInfo {
            bustype: BusType::Unknown,
            speed: BusSpeed::Unknown,
            width: BusWidth::Unknown,
            func: 0,
            pci_cmd_word: 0,
        },
        fc: FcInfo {
            high_water: 0,
            low_water: 0,
            pause_time: 0,
            refresh_time: 0,
            send_xon: false,
            strict_ieee: false,
            current_mode: FcMode::NoPause,
            requested_mode: FcMode::NoPause,
        },
        vendor_id: 0,
        device_id: 0,
        subsystem_vendor_id: 0,
        subsystem_device_id: 0,
        revision_id: 0,
        io_base: 0,
        dev_spec: DevSpec {
            _82541: DevSpec_82541 { phy_init_script: false },
            ich8lan: DevSpec_ich8lan {
                kmrn_lock_loss_workaround_enabled: false,
                shadow_ram: shadow_ram,
                nvm_k1_enabled: false,
                disable_k1_off: false,
                eee_disable: false,
                eee_lp_ability: 0,
                ulp_state: UlpState::Unknown,
                ulp_capability_disabled: false,
                during_suspend_flow: false,
                during_dpg_exit: false,
            },
        },
    }
}

/// All-zero statistics.
pub fn zero_stats() -> (s: HwStats)
    ensures
        s.crcerrs == 0 && s.colc == 0 && s.ecol == 0 && s.latecol == 0 && s.rxerrc == 0
            && s.algnerrc == 0 && s.ruc == 0 && s.roc == 0 && s.mpc == 0 && s.cexterr == 0,
{
    HwStats {
        crcerrs: 0, algnerrc: 0, symerrs: 0, rxerrc: 0, mpc: 0, scc: 0, ecol: 0, mcc: 0,
        latecol: 0, colc: 0, dc: 0, tncrs: 0, sec: 0, cexterr: 0, rlec: 0, xonrxc: 0,
        xontxc: 0, xoffrxc: 0, xofftxc: 0, fcruc: 0, prc64: 0, prc127: 0, prc255: 0,
        prc511: 0, prc1023: 0, prc1522: 0, gprc: 0, bprc: 0, mprc: 0, gptc: 0, gorc: 0,
        gotc: 0, rnbc: 0, ruc: 0, rfc: 0, roc: 0, rjc: 0, mgprc: 0, mgpdc: 0, mgptc: 0,
        tor: 0, tot: 0, tpr: 0, tpt: 0, ptc64: 0, ptc127: 0, ptc255: 0, ptc511: 0,
        ptc1023: 0, ptc1522: 0, mptc: 0, bptc: 0, tsctc: 0, tsctfc: 0, iac: 0, icrxptc: 0,
        icrxatc: 0, ictxptc: 0, ictxatc: 0, ictxqec: 0, ictxqmtc: 0, icrxdmtc: 0,
        icrxoc: 0, cbtmpc: 0, htdpmc: 0, cbrdpc: 0, cbrmpc: 0, rpthc: 0, hgptc: 0,
        htcbdpc: 0, hgorc: 0, hgotc: 0, lenerrs: 0, scvpc: 0, hrmpc: 0, doosync: 0,
        o2bgptc: 0, o2bspc: 0, b2ospc: 0, b2ogprc: 0,
    }
}

impl<P: Platform> Adapter<P> {
    /// A zero-filled adapter on the given machine, with an empty trace.
    pub fn new(plat: P) -> (a: Self)
        ensures
            a.io_log@ == Seq::<IoOp>::empty(),
            a.hw.mac.mac_type == MacType::Mac_undefined,
            a.hw.mac.mta_shadow@.len() == 128,
            a.hw.phy.ops == phy_ops_empty(),
            a.hw.device_id == 0,
            a.mta.is_none(),
            a.tx_queues@.len() == 0,
            a.rx_queues@.len() == 0,
            !a.link_active,
            a.fc == FcMode::NoPause,
            a.iflib_shared.isc_ntxqsets == 0,
            a.iflib_shared.isc_nrxqsets == 0,
    {
        Adapter {
            plat: plat,
            io_log: Ghost(Seq::empty()),
            hw: new_hardware(),
            ifnet: IfNet {
                mtu: 0,
                capenable: 0,
                capabilities: 0,
                flags: 0,
                lladdr: [0u8; 6],
                multiaddrs: Vec::new(),
                counters: Vec::new(),
                if_baudrate: 0,
                hwtsomax: 0,
                hwtsomaxsegcount: 0,
                hwtsomaxsegsize: 0,
                sendqlen: 0,
                sendqready: false,
                ifheaderlen: 0,
            },
            ifmedia: IfMedia { entries: Vec::new(), current: 0 },
            iflib_shared: IfLibShared {
                isc_ntxqsets: 0,
                isc_nrxqsets: 0,
                isc_ntxqsets_max: 0,
                isc_nrxqsets_max: 0,
                isc_ntxd0: 0,
                isc_nrxd0: 0,
                isc_txqsizes0: 0,
                isc_rxqsizes0: 0,
                isc_txd_size0: 0,
                isc_rxd_size0: 0,
                isc_msix_bar: 0,
                isc_tx_nsegments: 0,
                isc_tx_tso_segments_max: 0,
                isc_tx_tso_size_max: 0,
                isc_tx_tso_segsize_max: 0,
                isc_tx_csum_flags: 0,
                isc_capabilities: 0,
                isc_capenable: 0,
                isc_intr: iflib_intr_mode_t::IFLIB_INTR_LEGACY,
                isc_max_frame_size: 0,
                isc_pause_frames: 0,
                isc_txrx: TxRxKind::Unset,
            },
            io_rid: 0,
            tx_process_limit: 0,
            rx_process_limit: 0,
            mta: None,
            tx_queues: Vec::new(),
            rx_queues: Vec::new(),
            wol: 0,
            has_manage: false,
            has_amt: false,
            link_active: false,
            link_speed: 0,
            link_duplex: 0,
            smartspeed: 0,
            dmac: 0,
            link_mask: 0,
            que_mask: 0,
            dropped_pkts: 0,
            link_irq: 0,
            mbuf_defrag_failed: 0,
            no_tx_dma_setup: 0,
            no_tx_map_avail: 0,
            rx_overruns: 0,
            watchdog_events: 0,
            tx_int_delay: IntDelayInfo { offset: 0, value: 0 },
            tx_abs_int_delay: IntDelayInfo { offset: 0, value: 0 },
            rx_int_delay: IntDelayInfo { offset: 0, value: 0 },
            rx_abs_int_delay: IntDelayInfo { offset: 0, value: 0 },
            fc: FcMode::NoPause,
            stats: zero_stats(),
            vf_ifp: 0,
            txd_cmd: 0,
            rx_mbuf_sz: 0,
            num_vlans: 0,
        }
    }
}

// ------------------------------------------------------------------ machine

impl<P: Platform> Adapter<P> {
    /// Reads a device register.
    pub fn read_register(&mut self, reg: u32) -> (v: u32)
        ensures
            final(self).logged(old(self), seq![IoOp::Read { reg, value: v }]),
            final(self).same_state(old(self)),
    {
        do_read_register(self, reg)
    }

    /// Writes a device register.
    pub fn write_register(&mut self, reg: u32, value: u32)
        ensures
            final(self).logged(old(self), seq![IoOp::Write { reg, value }]),
            final(self).same_state(old(self)),
    {
        do_write_register(self, reg, value)
    }

    /// Flushes posted writes by reading the status register.
    pub fn write_flush(&mut self)
        ensures
            final(self).logged(old(self), seq![IoOp::Read { reg: E1000_STATUS, value: final(self).read_at(old(self), 0) }]),
            final(self).same_state(old(self)),
    {
        let v = do_read_register(self, E1000_STATUS);
    }

    /// Reads a 16-bit flash register.
    pub fn read_flash_register16(&mut self, reg: u32) -> (v: u16)
        ensures
            final(self).logged(old(self), seq![IoOp::FlashRead16 { reg, value: v }]),
            final(self).same_state(old(self)),
    {
        let v = self.plat.read_flash_register16(reg);
        proof {
            self.io_log@ = self.io_log@.push(IoOp::FlashRead16 { reg, value: v });
        }
        v
    }

    /// Writes a 16-bit flash register.
    pub fn write_flash_register16(&mut self, reg: u32, value: u16)
        ensures
            final(self).logged(old(self), seq![IoOp::FlashWrite16 { reg, value }]),
            final(self).same_state(old(self)),
    {
        self.plat.write_flash_register16(reg, value);
        proof {
            self.io_log@ = self.io_log@.push(IoOp::FlashWrite16 { reg, value });
        }
    }

    /// Reads a 32-bit flash register.
    pub fn read_flash_register(&mut self, reg: u32) -> (v: u32)
        ensures
            final(self).logged(old(self), seq![IoOp::FlashRead { reg, value: v }]),
            final(self).same_state(old(self)),
    {
        let v = self.plat.read_flash_register(reg);
        proof {
            self.io_log@ = self.io_log@.push(IoOp::FlashRead { reg, value: v });
        }
        v
    }

    /// Writes a 32-bit flash register.
    pub fn write_flash_register(&mut self, reg: u32, value: u32)
        ensures
            final(self).logged(old(self), seq![IoOp::FlashWrite { reg, value }]),
            final(self).same_state(old(self)),
    {
        self.plat.write_flash_register(reg, value);
        proof {
            self.io_log@ = self.io_log@.push(IoOp::FlashWrite { reg, value });
        }
    }

    /// Clears the bits of `bit` in a register (read, modify, write).
    pub fn clear_register_bit(&mut self, reg: u32, bit: u32)
        ensures
            final(self).logged(
                old(self),
                seq![
                    IoOp::Read { reg, value: final(self).read_at(old(self), 0) },
                    IoOp::Write { reg, value: final(self).read_at(old(self), 0) & !bit },
                ],
            ),
            final(self).same_state(old(self)),
    {
        let mut v: u32 = do_read_register(self, reg);
        v &= !bit;
        do_write_register(self, reg, v);
    }

    /// Sets the bits of `bit` in a register (read, modify, write).
    pub fn set_register_bit(&mut self, reg: u32, bit: u32)
        ensures
            final(self).logged(
                old(self),
                seq![
                    IoOp::Read { reg, value: final(self).read_at(old(self), 0) },
                    IoOp::Write { reg, value: final(self).read_at(old(self), 0) | bit },
                ],
            ),
            final(self).same_state(old(self)),
    {
        let mut v: u32 = do_read_register(self, reg);
        v |= bit;
        do_write_register(self, reg, v);
    }

    /// Reads the PCI configuration space.
    pub fn pci_read_config(&mut self, reg: u32, width: u32) -> (v: u32)
        ensures
            final(self).logged(old(self), seq![IoOp::PciRead { reg, width, value: v }]),
            final(self).same_state(old(self)),
    {
        let v = self.plat.pci_read_config(reg, width);
        proof {
            self.io_log@ = self.io_log@.push(IoOp::PciRead { reg, width, value: v });
        }
        v
    }

    /// Asks the bus for the resource of kind `kind` behind PCI register
    /// `rid`; `true` when it was granted.
    pub fn bus_alloc_resource(&mut self, kind: i32, rid: i32) -> (granted: bool)
        ensures
            final(self).logged(old(self), seq![IoOp::AllocResource { kind, rid, granted }]),
            final(self).same_state(old(self)),
    {
        let granted = self.plat.bus_alloc_resource(kind, rid);
        proof {
            self.io_log@ = self.io_log@.push(IoOp::AllocResource { kind, rid, granted });
        }
        granted
    }

    /// Reads a register of the PCI Express capability.
    pub fn read_pcie_cap_reg(&mut self, reg: u32) -> (v: u16)
        ensures
            final(self).logged(old(self), seq![IoOp::PcieCapRead { reg, value: v }]),
            final(self).same_state(old(self)),
    {
        let v = self.plat.read_pcie_cap_reg(reg);
        proof {
            self.io_log@ = self.io_log@.push(IoOp::PcieCapRead { reg, value: v });
        }
        v
    }

    /// The PCI vendor id of the device.
    pub fn pci_get_vendor(&mut self) -> (v: u32)
        ensures
            final(self).logged(old(self), seq![IoOp::VendorId { value: v }]),
            final(self).same_state(old(self)),
    {
        let v = self.plat.pci_get_vendor();
        proof {
            self.io_log@ = self.io_log@.push(IoOp::VendorId { value: v });
        }
        v
    }

    /// The PCI device id of the device.
    pub fn pci_get_device(&mut self) -> (v: u32)
        ensures
            final(self).logged(old(self), seq![IoOp::DeviceId { value: v }]),
            final(self).same_state(old(self)),
    {
        let v = self.plat.pci_get_device();
        proof {
            self.io_log@ = self.io_log@.push(IoOp::DeviceId { value: v });
        }
        v
    }

    /// Tells the network stack the link state changed.
    pub fn link_state_change(&mut self, state: i32, baudrate: u64)
        ensures
            final(self).logged(old(self), seq![IoOp::LinkState { state, baudrate }]),
            final(self).same_state(old(self)),
    {
        self.plat.link_state_change(state, baudrate);
        proof {
            self.io_log@ = self.io_log@.push(IoOp::LinkState { state, baudrate });
        }
    }

    /// Asks the stack to run the administrative task soon.
    pub fn admin_intr_deferred(&mut self)
        ensures
            final(self).logged(old(self), seq![IoOp::AdminIntr]),
            final(self).same_state(old(self)),
    {
        self.plat.admin_intr_deferred();
        proof {
            self.io_log@ = self.io_log@.push(IoOp::AdminIntr);
        }
    }

    /// Announces the MAC address to the stack.
    pub fn set_mac(&mut self, addr: [u8; 6])
        ensures
            final(self).logged(old(self), seq![IoOp::SetMac { addr }]),
            final(self).same_state(old(self)),
    {
        self.plat.set_mac(addr);
        proof {
            self.io_log@ = self.io_log@.push(IoOp::SetMac { addr });
        }
    }

    pub fn is_copper(&self) -> (r: bool)
        ensures
            r == (self.hw.phy.media_type == MediaType::Copper),
    {
        self.hw.phy.media_type == MediaType::Copper
    }

    pub fn is_mac(&self, mac_type: MacType) -> (r: bool)
        ensures
            r == (self.hw.mac.mac_type == mac_type),
    {
        self.hw.mac.mac_type == mac_type
    }

    /// Whether the MAC type is one of `mac_types`.
    pub fn is_macs(&self, mac_types: &[MacType]) -> (r: bool)
        ensures
            r == mac_types@.contains(self.hw.mac.mac_type),
    {
        let mut i: usize = 0;
        while i < mac_types.len()
            invariant
                i <= mac_types@.len(),
                forall|k: int| 0 <= k < i ==> mac_types@[k] != self.hw.mac.mac_type,
            decreases mac_types@.len() - i,
        {
            if mac_types[i] == self.hw.mac.mac_type {
                return true;
            }
            i = i + 1;
        }
        false
    }

    /// Whether the MAC type is none of `mac_types`.
    pub fn is_not_macs(&self, mac_types: &[MacType]) -> (r: bool)
        ensures
            r == !mac_types@.contains(self.hw.mac.mac_type),
    {
        let mut i: usize = 0;
        while i < mac_types.len()
            invariant
                i <= mac_types@.len(),
                forall|k: int| 0 <= k < i ==> mac_types@[k] != self.hw.mac.mac_type,
            decreases mac_types@.len() - i,
        {
            if mac_types[i] == self.hw.mac.mac_type {
                return false;
            }
            i = i + 1;
        }
        true
    }

    /// Number of receive queue sets (negative counts read as huge).
    pub fn rx_num_queues(&self) -> (r: usize)
        ensures
            r == self.iflib_shared.isc_nrxqsets as usize,
    {
        self.iflib_shared.isc_nrxqsets as usize
    }

    /// Number of transmit queue sets (negative counts read as huge).
    pub fn tx_num_queues(&self) -> (r: usize)
        ensures
            r == self.iflib_shared.isc_ntxqsets as usize,
    {
        self.iflib_shared.isc_ntxqsets as usize
    }
}

/// Reads a device register.
pub fn do_read_register<P: Platform>(adapter: &mut Adapter<P>, reg: u32) -> (v: u32)
    ensures
        final(adapter).logged(old(adapter), seq![IoOp::Read { reg, value: v }]),
        final(adapter).same_state(old(adapter)),
{
    let v = adapter.plat.read_register(reg);
    proof {
        adapter.io_log@ = adapter.io_log@.push(IoOp::Read { reg, value: v });
    }
    v
}

/// Writes a device register.
pub fn do_write_register<P: Platform>(adapter: &mut Adapter<P>, reg: u32, value: u32)
    ensures
        final(adapter).logged(old(adapter), seq![IoOp::Write { reg, value }]),
        final(adapter).same_state(old(adapter)),
{
    adapter.plat.write_register(reg, value);
    proof {
        adapter.io_log@ = adapter.io_log@.push(IoOp::Write { reg, value });
    }
}

/// Writes entry `index` of a register array starting at `reg`.
pub fn do_write_register_array<P: Platform>(
    adapter: &mut Adapter<P>,
    reg: u32,
    index: u32,
    value: u32,
)
    requires
        reg + index * 4 <= u32::MAX,
    ensures
        final(adapter).logged(
            old(adapter),
            seq![IoOp::Write { reg: (reg + index * 4) as u32, value }],
        ),
        final(adapter).same_state(old(adapter)),
{
    assert((index << 2u32) == index * 4) by (bit_vector)
        requires
            index * 4 <= u32::MAX,
    ;
    do_write_register(adapter, reg + (index << 2), value);
}

/// Writes a register through the I/O-port window.
pub fn do_write_register_io<P: Platform>(adapter: &mut Adapter<P>, reg: u32, value: u32)
    ensures
        final(adapter).logged(old(adapter), seq![IoOp::WriteIo { reg, value }]),
        final(adapter).same_state(old(adapter)),
{
    adapter.plat.write_register_io(reg, value);
    proof {
        adapter.io_log@ = adapter.io_log@.push(IoOp::WriteIo { reg, value });
    }
}

/// Flushes posted writes by reading the status register.
pub fn do_write_flush<P: Platform>(adapter: &mut Adapter<P>)
    ensures
        final(adapter).logged(
            old(adapter),
            seq![IoOp::Read { reg: E1000_STATUS, value: final(adapter).read_at(old(adapter), 0) }],
        ),
        final(adapter).same_state(old(adapter)),
{
    do_read_register(adapter, E1000_STATUS);
}

/// Busy-waits `usecs` microseconds.
pub fn do_usec_delay<P: Platform>(adapter: &mut Adapter<P>, usecs: usize)
    ensures
        final(adapter).logged(old(adapter), seq![IoOp::Delay { usecs }]),
        final(adapter).same_state(old(adapter)),
{
    adapter.plat.usec_delay(usecs);
    proof {
        adapter.io_log@ = adapter.io_log@.push(IoOp::Delay { usecs });
    }
}

/// Busy-waits `msecs` milliseconds.
pub fn do_msec_delay<P: Platform>(adapter: &mut Adapter<P>, msecs: usize)
    requires
        msecs * 1000 <= usize::MAX,
    ensures
        final(adapter).logged(old(adapter), seq![IoOp::Delay { usecs: (1000 * msecs) as usize }]),
        final(adapter).same_state(old(adapter)),
{
    do_usec_delay(adapter, 1000 * msecs);
}

} // verus!
