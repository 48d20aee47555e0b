use std::collections::HashMap;

use e1000::adapter::Adapter;
use e1000::consts::{
    CSUM_DATA_VALID, CSUM_IP_CHECKED, CSUM_IP_VALID, CSUM_PSEUDO_HDR, FULL_DUPLEX,
    IFM_1000_T, IFM_ACTIVE, IFM_AVALID, IFM_ETHER, IFM_FDX, M_HASHTYPE_OPAQUE,
    M_HASHTYPE_RSS_TCP_IPV4,
};
use e1000::headers::{Ich8HsfStatus, Ich8HsflCtrl, ip, tcphdr};
use e1000::hw::{
    BusType, FcMode, GbRxStatus, MacType, MediaFn, MediaType, PhyRegAccess, PhyType, RevPolarity,
};
use e1000::iflib::{IfMediaReq, IfRxdInfo, IftCounter};
use e1000::link::{config_fc_after_link_up_generic, resolve_fc};
use e1000::mac::{
    blink_led_generic, disable_pcie_master_generic, get_auto_rd_done_generic, hash_mc_addr_generic,
    mc_hash_computable,
};
use e1000::phy::{
    __read_kmrn_reg, check_polarity_82577, get_cable_length_82577, get_phy_id, get_phy_info_82577,
    phy_sw_reset_generic,
    read_phy_reg_page_hv, write_phy_reg_page_hv,
};
use e1000::nvm::read_mac_addr_generic;
use e1000::regs::{BM_PHY_REG, BM_PHY_REG_NUM, BM_PHY_REG_PAGE};
use e1000::ops::is_valid_ether_addr;
use e1000::platform::Platform;
use e1000::txrx::{em_determine_rsstype, em_receive_checksum, lem_receive_checksum};

/// A machine whose registers and configuration space hold fixed values and
/// which records what the driver asks of it.
#[derive(Default)]
struct Mock {
    regs: HashMap<u32, u32>,
    pci: HashMap<u32, u32>,
    writes: Vec<(u32, u32)>,
    pci_reads: Vec<u32>,
    allocs: Vec<(i32, i32)>,
    refuse_alloc: bool,
    admin: u32,
    macs: Vec<[u8; 6]>,
    links: Vec<(i32, u64)>,
    device: u32,
    phy: HashMap<u32, u16>,
    mdic: u32,
}

impl Platform for Mock {
    fn read_register(&mut self, reg: u32) -> u32 {
        if reg == 0x00020 && !self.phy.is_empty() {
            let phy_reg = (self.mdic >> 16) & 0x1F;
            let data = *self.phy.get(&phy_reg).unwrap_or(&0) as u32;
            return 0x1000_0000 | (self.mdic & 0x03FF_0000) | data;
        }
        *self.regs.get(&reg).unwrap_or(&0)
    }
    fn write_register(&mut self, reg: u32, value: u32) {
        if reg == 0x00020 {
            self.mdic = value;
        }
        self.writes.push((reg, value));
    }
    fn write_register_io(&mut self, reg: u32, value: u32) {
        self.writes.push((reg, value));
    }
    fn read_flash_register16(&mut self, _reg: u32) -> u16 {
        0
    }
    fn write_flash_register16(&mut self, _reg: u32, _value: u16) {}
    fn read_flash_register(&mut self, _reg: u32) -> u32 {
        0
    }
    fn write_flash_register(&mut self, _reg: u32, _value: u32) {}
    fn usec_delay(&mut self, _usecs: usize) {}
    fn pci_read_config(&mut self, reg: u32, _width: u32) -> u32 {
        self.pci_reads.push(reg);
        *self.pci.get(&reg).unwrap_or(&0)
    }
    fn read_pcie_cap_reg(&mut self, _reg: u32) -> u16 {
        0
    }
    fn pci_get_vendor(&mut self) -> u32 {
        0x8086
    }
    fn pci_get_device(&mut self) -> u32 {
        self.device
    }
    fn link_state_change(&mut self, state: i32, baudrate: u64) {
        self.links.push((state, baudrate));
    }
    fn admin_intr_deferred(&mut self) {
        self.admin += 1;
    }
    fn set_mac(&mut self, addr: [u8; 6]) {
        self.macs.push(addr);
    }
    fn bus_alloc_resource(&mut self, kind: i32, rid: i32) -> bool {
        self.allocs.push((kind, rid));
        !self.refuse_alloc
    }
}

fn adapter() -> Adapter<Mock> {
    Adapter::new(Mock::default())
}

fn rxd_info() -> IfRxdInfo {
    IfRxdInfo {
        iri_qsidx: 0,
        iri_vtag: 0,
        iri_len: 0,
        iri_cidx: 0,
        iri_flowid: 0,
        iri_flags: 0,
        iri_csum_flags: 0x7,
        iri_csum_data: 0x1234,
        iri_nfrags: 0,
        iri_rsstype: 0,
        iri_frags: vec![],
    }
}

#[test]
fn valid_unicast_address_is_accepted() {
    assert!(is_valid_ether_addr(&[0x00, 0x1b, 0x21, 0x3c, 0x4d, 0x5e]).is_ok());
}

#[test]
fn multicast_address_is_refused() {
    assert!(is_valid_ether_addr(&[0x01, 0x00, 0x5e, 0x00, 0x00, 0x01]).is_err());
}

#[test]
fn zero_address_is_refused() {
    assert!(is_valid_ether_addr(&[0, 0, 0, 0, 0, 0]).is_err());
}

#[test]
fn rss_type_of_tcp_over_ipv4() {
    assert_eq!(em_determine_rsstype(0x0000_0001), M_HASHTYPE_RSS_TCP_IPV4);
    assert_eq!(em_determine_rsstype(0xffff_fff0), M_HASHTYPE_OPAQUE);
}

#[test]
fn extended_checksum_ip_and_tcp_valid() {
    let mut ri = rxd_info();
    em_receive_checksum(0x40 | 0x20, &mut ri);
    assert_eq!(ri.iri_csum_flags, CSUM_IP_CHECKED | CSUM_IP_VALID | CSUM_DATA_VALID | CSUM_PSEUDO_HDR);
    assert_eq!(ri.iri_csum_data, 0xffff);
}

#[test]
fn extended_checksum_ignored() {
    let mut ri = rxd_info();
    em_receive_checksum(0x04 | 0x40 | 0x20, &mut ri);
    assert_eq!(ri.iri_csum_flags, 0);
    assert_eq!(ri.iri_csum_data, 0x1234);
}

#[test]
fn legacy_checksum_with_tcp_error() {
    let mut ri = rxd_info();
    lem_receive_checksum(0x40 | 0x20, 0x20, &mut ri);
    assert_eq!(ri.iri_csum_flags, CSUM_IP_CHECKED | CSUM_IP_VALID);
    assert_eq!(ri.iri_csum_data, 0x1234);
}

#[test]
fn legacy_checksum_keeps_flags_without_ip_check() {
    let mut ri = rxd_info();
    lem_receive_checksum(0x20, 0, &mut ri);
    assert_eq!(ri.iri_csum_flags, 0x7 | CSUM_DATA_VALID | CSUM_PSEUDO_HDR);
    assert_eq!(ri.iri_csum_data, 0xffff);
}

#[test]
fn ip_header_bitfield() {
    let b = ip::new_bitfield_1(5, 4);
    assert_eq!(b, 0x45);
    let mut h = ip { bits: b, ..Default::default() };
    assert_eq!(h.ip_hl(), 5);
    assert_eq!(h.ip_v(), 4);
    h.set_ip_hl(6);
    assert_eq!(h.bits, 0x46);
    assert_eq!(h.ip_v(), 4);
}

#[test]
fn tcp_header_bitfield() {
    assert_eq!(tcphdr::new_bitfield_1(0, 5), 0x50);
    let mut t = tcphdr::default();
    t.set_th_off(8);
    assert_eq!(t.th_off(), 8);
    assert_eq!(t.th_x2(), 0);
    t.set_th_off(0x1f);
    assert_eq!(t.th_off(), 0xf);
}

#[test]
fn flash_status_fields() {
    let mut s = Ich8HsfStatus::default();
    s.set_flcdone(1);
    s.set_berasesz(3);
    assert_eq!(s.bits, 0x19);
    assert_eq!(s.flcdone(), 1);
    assert_eq!(s.berasesz(), 3);
    s.set_flockdn(1);
    assert_eq!(s.bits, 0x8019);
    assert_eq!(Ich8HsfStatus::new_bitfield_1(1, 0, 0, 3, 0, 0, 0, 0, 1), 0x8019);
}

#[test]
fn flash_control_fields() {
    let c = Ich8HsflCtrl { bits: Ich8HsflCtrl::new_bitfield_1(1, 2, 0, 3, 0) };
    assert_eq!(c.bits, 0x0305);
    assert_eq!(c.flcycle(), 2);
    assert_eq!(c.fldbcount(), 3);
}

#[test]
fn flow_control_both_symmetric() {
    assert_eq!(resolve_fc(0x0400, 0x0400, FcMode::Full), FcMode::Full);
}

#[test]
fn multicast_hash_computable_for_128_registers() {
    assert!(mc_hash_computable(128, 0));
    assert!(!mc_hash_computable(0, 0));
    assert!(!mc_hash_computable(4096, 0));
}

#[test]
fn mac_type_from_device_id() {
    let mut a = adapter();
    a.hw.device_id = 0x100F;
    assert!(a.set_mac_type().is_ok());
    assert_eq!(a.hw.mac.mac_type, MacType::Mac_82545);
    let mut b = adapter();
    b.hw.device_id = 0xffff;
    assert!(b.set_mac_type().is_err());
    assert_eq!(b.hw.mac.mac_type, MacType::Mac_undefined);
}

#[test]
fn init_functions_for_82545() {
    let mut a = adapter();
    a.hw.device_id = 0x100F;
    assert!(a.setup_init_functions(false).is_ok());
    assert_eq!(a.hw.mac.mac_type, MacType::Mac_82545);
    assert!(a.hw.mac.ops.init_params);
    assert!(a.hw.mac.ops.rar_set);
    assert!(a.hw.nvm.ops.init_params);
    assert!(a.hw.phy.ops.init_params);
    assert!(a.plat.writes.is_empty());
}

#[test]
fn init_functions_refuse_lpt() {
    let mut a = adapter();
    a.hw.device_id = 0x153A;
    assert!(a.setup_init_functions(false).is_err());
}

#[test]
fn pci_resources_find_io_bar_after_64bit_bar() {
    let mut a = adapter();
    a.hw.mac.mac_type = MacType::Mac_82545;
    a.hw.io_base = 7;
    a.plat.pci.insert(0x10, 0x4);
    a.plat.pci.insert(0x18, 0x1);
    assert!(a.allocate_pci_resources().is_ok());
    assert_eq!(a.io_rid, 0x18);
    assert_eq!(a.hw.io_base, 0);
    assert_eq!(a.plat.pci_reads, vec![0x10, 0x18]);
    assert_eq!(a.plat.allocs, vec![(3, 0x10), (4, 0x18)]);
}

#[test]
fn pci_resources_without_io_bar() {
    let mut a = adapter();
    a.hw.mac.mac_type = MacType::Mac_82545;
    assert!(a.allocate_pci_resources().is_err());
    assert_eq!(a.plat.pci_reads, vec![0x10, 0x14, 0x18, 0x1c, 0x20, 0x24]);
    assert_eq!(a.plat.allocs, vec![(3, 0x10)]);
}

#[test]
fn pci_resources_memory_refused() {
    let mut a = adapter();
    a.plat.refuse_alloc = true;
    assert!(a.allocate_pci_resources().is_err());
    assert_eq!(a.plat.allocs, vec![(3, 0x10)]);
}

#[test]
fn pci_resources_no_io_on_pch() {
    let mut a = adapter();
    a.hw.mac.mac_type = MacType::Mac_pch_lpt;
    assert!(a.allocate_pci_resources().is_ok());
    assert!(a.plat.pci_reads.is_empty());
}

#[test]
fn media_status_gigabit_full_duplex() {
    let mut a = adapter();
    a.link_active = true;
    a.link_speed = 1000;
    a.link_duplex = FULL_DUPLEX;
    let mut req = IfMediaReq { ifm_status: 0, ifm_active: 0 };
    a.media_status(&mut req);
    assert_eq!(req.ifm_status, (IFM_AVALID | IFM_ACTIVE) as i32);
    assert_eq!(req.ifm_active, (IFM_ETHER | IFM_1000_T | IFM_FDX) as i32);
    assert_eq!(a.plat.admin, 1);
}

#[test]
fn media_status_link_down() {
    let mut a = adapter();
    let mut req = IfMediaReq { ifm_status: 9, ifm_active: 9 };
    a.media_status(&mut req);
    assert_eq!(req.ifm_status, IFM_AVALID as i32);
    assert_eq!(req.ifm_active, IFM_ETHER as i32);
}

#[test]
fn input_errors_counter() {
    let mut a = adapter();
    a.dropped_pkts = 1;
    a.stats.rxerrc = 2;
    a.stats.crcerrs = 3;
    a.stats.mpc = 4;
    a.stats.colc = 11;
    assert_eq!(a.get_counter(IftCounter::IERRORS), 10);
    assert_eq!(a.get_counter(IftCounter::COLLISIONS), 11);
}

#[test]
fn timer_asks_admin_task_on_first_queue_only() {
    let mut a = adapter();
    a.timer(1);
    assert_eq!(a.plat.admin, 0);
    a.timer(0);
    assert_eq!(a.plat.admin, 1);
}

#[test]
fn receive_address_zero_written() {
    let mut a = adapter();
    a.hw.mac.ops.rar_set = true;
    assert!(a.rar_set(&[0x00, 0x11, 0x22, 0x33, 0x44, 0x55], 0).is_ok());
    assert_eq!(a.plat.writes, vec![(0x5400, 0x3322_1100), (0x5404, 0x8000_5544)]);
}

#[test]
fn receive_address_without_routine() {
    let mut a = adapter();
    assert!(a.rar_set(&[0x00, 0x11, 0x22, 0x33, 0x44, 0x55], 0).is_err());
    assert!(a.plat.writes.is_empty());
}

#[test]
fn statistics_accumulate() {
    let mut a = adapter();
    a.hw.mac.mac_type = MacType::Mac_82545;
    a.hw.phy.media_type = MediaType::Copper;
    a.plat.regs.insert(0x04000, 5);
    a.update_stats_counters();
    assert_eq!(a.stats.crcerrs, 5);
    a.update_stats_counters();
    assert_eq!(a.stats.crcerrs, 10);
}

#[test]
fn multicast_list_copied() {
    let mut a = adapter();
    a.hw.mac.mac_type = MacType::Mac_82545;
    a.mta = Some(vec![0xaa; 768]);
    a.ifnet.multiaddrs = vec![[0x01, 0x00, 0x5e, 0x00, 0x00, 0x01]];
    assert!(a.multi_set().is_ok());
    let m = a.mta.as_ref().unwrap();
    assert_eq!(&m[0..6], &[0x01, 0x00, 0x5e, 0x00, 0x00, 0x01]);
    assert!(m[6..].iter().all(|b| *b == 0));
}

#[test]
fn init_refused_without_receive_address_routine() {
    let mut a = adapter();
    a.hw.mac.mac_type = MacType::Mac_82545;
    a.mta = Some(vec![0; 768]);
    assert!(a.init().is_err());
    assert!(a.plat.writes.is_empty());
}

#[test]
fn init_refused_on_82571() {
    let mut a = adapter();
    a.hw.mac.mac_type = MacType::Mac_82571;
    a.hw.mac.ops.rar_set = true;
    a.mta = Some(vec![0; 768]);
    assert!(a.init().is_err());
    assert_eq!(a.plat.writes.len(), 2);
}

#[test]
fn receive_address_reads_back() {
    let addr = [0x00, 0x1b, 0x21, 0x3c, 0x4d, 0x5e];
    let mut a = adapter();
    a.hw.mac.ops.rar_set = true;
    assert!(a.rar_set(&addr, 0).is_ok());
    let writes = a.plat.writes.clone();
    for (reg, value) in writes {
        a.plat.regs.insert(reg, value);
    }
    assert!(read_mac_addr_generic(&mut a).is_ok());
    assert_eq!(a.hw.mac.perm_addr, addr);
    assert_eq!(a.hw.mac.addr, addr);
}

#[test]
fn multicast_hash_of_all_hosts_group() {
    let mut a = adapter();
    a.hw.mac.mta_reg_count = 128;
    a.hw.mac.mc_filter_type = 0;
    let h = hash_mc_addr_generic(&a, &[0x01, 0x00, 0x5e, 0x00, 0x00, 0x01]);
    assert_eq!(h, 0x10);
    let h2 = hash_mc_addr_generic(&a, &[0x01, 0x00, 0x5e, 0x7f, 0xff, 0xff]);
    assert_eq!(h2, 0xfff);
    assert!(h2 < 128 * 32);
}

#[test]
fn bm_phy_register_encoding_round_trip() {
    let off = BM_PHY_REG(769, 17);
    assert_eq!(BM_PHY_REG_PAGE(off), 769);
    assert_eq!(BM_PHY_REG_NUM(off), 17);
}

#[test]
fn flow_control_needs_partner_pause() {
    assert_eq!(resolve_fc(0x0400, 0x0000, FcMode::Full), FcMode::NoPause);
}

#[test]
fn blink_on_copper_blinks_the_leds_set_on() {
    let mut a = adapter();
    a.hw.phy.media_type = MediaType::Copper;
    a.hw.mac.ledctl_mode2 = 0x0000_000E;
    a.hw.mac.ledctl_default = 0;
    assert!(blink_led_generic(&mut a).is_ok());
    assert_eq!(a.plat.writes, vec![(0x00E00, 0x8E)]);
}

#[test]
fn blink_on_fiber_blinks_led_zero() {
    let mut a = adapter();
    a.hw.phy.media_type = MediaType::Fiber;
    assert!(blink_led_generic(&mut a).is_ok());
    assert_eq!(a.plat.writes, vec![(0x00E00, 0x8E)]);
}

#[test]
fn software_phy_reset_sets_reset_bit() {
    let mut a = adapter();
    a.hw.phy.ops.read_reg = Some(PhyRegAccess::M88);
    a.hw.phy.ops.write_reg = Some(PhyRegAccess::PageHv);
    a.plat.regs.insert(0x00020, 0x1000_0000 | 0x1140);
    assert!(phy_sw_reset_generic(&mut a).is_ok());
    assert_eq!(a.plat.writes.len(), 2);
    assert_eq!(a.plat.writes[1].1 & 0xFFFF, 0x9140);
}

#[test]
fn polarity_82577_reversed() {
    let mut a = adapter();
    a.hw.phy.ops.read_reg = Some(PhyRegAccess::M88);
    a.plat.regs.insert(0x00020, 0x1000_0000 | (26 << 16) | 0x0400);
    assert!(check_polarity_82577(&mut a).is_ok());
    assert_eq!(a.hw.phy.cable_polarity, RevPolarity::Reversed);
}

#[test]
fn polarity_82577_normal() {
    let mut a = adapter();
    a.hw.phy.ops.read_reg = Some(PhyRegAccess::M88);
    a.plat.regs.insert(0x00020, 0x1000_0000 | (26 << 16));
    assert!(check_polarity_82577(&mut a).is_ok());
    assert_eq!(a.hw.phy.cable_polarity, RevPolarity::Normal);
}

#[test]
fn cable_length_82577_stored() {
    let mut a = adapter();
    a.hw.phy.ops.read_reg = Some(PhyRegAccess::M88);
    a.plat.regs.insert(0x00020, 0x1000_0000 | (31 << 16) | (40 << 2));
    assert!(get_cable_length_82577(&mut a).is_ok());
    assert_eq!(a.hw.phy.cable_length, 40);
}

#[test]
fn kumeran_read_without_semaphore_routine() {
    let mut a = adapter();
    a.plat.regs.insert(0x00034, 0x0012_1234);
    let mut data: u16 = 0;
    assert!(__read_kmrn_reg(&mut a, 2, &mut data, false).is_ok());
    assert_eq!(data, 0x1234);
    assert_eq!(a.plat.writes[0], (0x00034, (2 << 16) | 0x0020_0000));
}

fn smartspeed_adapter(s: u32) -> Adapter<Mock> {
    let mut a = adapter();
    a.link_active = false;
    a.hw.phy.phy_type = PhyType::Type_igp;
    a.hw.mac.autoneg = true;
    a.hw.phy.autoneg_advertised = 0x0020;
    a.smartspeed = s;
    a
}

#[test]
fn smartspeed_wraps_after_its_maximum() {
    let mut a = smartspeed_adapter(15);
    assert!(a.lem_smartspeed().is_ok());
    assert_eq!(a.smartspeed, 0);
    let mut b = smartspeed_adapter(14);
    assert!(b.lem_smartspeed().is_ok());
    assert_eq!(b.smartspeed, 15);
    assert!(b.plat.writes.is_empty());
}

#[test]
fn pcie_master_disable_times_out_while_requests_pend() {
    let mut a = adapter();
    a.hw.bus.bustype = BusType::Pci_express;
    a.plat.regs.insert(0x00008, 0x0008_0000);
    assert!(disable_pcie_master_generic(&mut a).is_err());
    assert_eq!(a.plat.writes, vec![(0x00000, 0x4)]);
}

#[test]
fn pcie_master_disable_done_when_requests_drain() {
    let mut a = adapter();
    a.hw.bus.bustype = BusType::Pci_express;
    assert!(disable_pcie_master_generic(&mut a).is_ok());
}

#[test]
fn auto_read_done_times_out() {
    let mut a = adapter();
    assert!(get_auto_rd_done_generic(&mut a).is_err());
    a.plat.regs.insert(0x00010, 0x0000_0200);
    assert!(get_auto_rd_done_generic(&mut a).is_ok());
}

#[test]
fn phy_id_and_revision_from_the_id_registers() {
    let mut a = adapter();
    a.hw.phy.ops.read_reg = Some(PhyRegAccess::M88);
    a.plat.phy.insert(2, 0x0141);
    a.plat.phy.insert(3, 0x0C25);
    assert!(get_phy_id(&mut a).is_ok());
    assert_eq!(a.hw.phy.id, 0x0141_0C20);
    assert_eq!(a.hw.phy.revision, 5);
}

fn autoneg_fc_adapter(lp: u16) -> Adapter<Mock> {
    let mut a = adapter();
    a.hw.phy.media_type = MediaType::Copper;
    a.hw.mac.autoneg = true;
    a.hw.mac.ops.get_link_up_info = Some(MediaFn::Copper);
    a.hw.phy.ops.read_reg = Some(PhyRegAccess::M88);
    a.hw.fc.requested_mode = FcMode::Full;
    a.hw.fc.current_mode = FcMode::Full;
    a.plat.regs.insert(0x00008, 0x0000_0001);
    a.plat.phy.insert(1, 0x0020);
    a.plat.phy.insert(4, 0x0400);
    a.plat.phy.insert(5, lp);
    a
}

#[test]
fn flow_control_after_link_up_from_both_advertisements() {
    let mut a = autoneg_fc_adapter(0x0400);
    assert!(config_fc_after_link_up_generic(&mut a).is_ok());
    assert_eq!(a.hw.fc.current_mode, FcMode::Full);
    assert_eq!(a.plat.writes[0], (0x00000, 0x1800_0000));
    let mut b = autoneg_fc_adapter(0);
    assert!(config_fc_after_link_up_generic(&mut b).is_ok());
    assert_eq!(b.hw.fc.current_mode, FcMode::NoPause);
}

#[test]
fn flow_control_forced_without_autoneg() {
    let mut a = adapter();
    a.hw.phy.media_type = MediaType::Copper;
    a.hw.fc.current_mode = FcMode::RxPause;
    assert!(config_fc_after_link_up_generic(&mut a).is_ok());
    assert_eq!(a.plat.writes, vec![(0x00000, 0x0800_0000)]);
    let mut b = adapter();
    b.hw.phy.media_type = MediaType::Copper;
    b.hw.fc.current_mode = FcMode::Default;
    assert!(config_fc_after_link_up_generic(&mut b).is_err());
    assert!(b.plat.writes.is_empty());
}

#[test]
fn hv_page_read_goes_through_mdic_at_the_page_address() {
    let mut a = adapter();
    a.plat.phy.insert(2, 0x1234);
    let mut data: u16 = 0;
    assert!(read_phy_reg_page_hv(&mut a, 2, &mut data).is_ok());
    assert_eq!(data, 0x1234);
    assert_eq!(a.hw.phy.addr, 2);
    assert_eq!(a.plat.writes[0], (0x00020, (2 << 16) | (2 << 21) | 0x0800_0000));
}

#[test]
fn hv_page_write_goes_through_mdic_at_the_page_address() {
    let mut a = adapter();
    a.plat.phy.insert(2, 0);
    assert!(write_phy_reg_page_hv(&mut a, 2, 0xBEEF).is_ok());
    assert_eq!(a.plat.writes[0], (0x00020, 0xBEEF | (2 << 16) | (2 << 21) | 0x0400_0000));
}

#[test]
fn phy_info_82577_below_gigabit() {
    let mut a = adapter();
    a.hw.phy.ops.read_reg = Some(PhyRegAccess::M88);
    a.plat.phy.insert(1, 0x0004);
    a.plat.phy.insert(26, 0x0800 | 0x0100 | 0x0400);
    assert!(get_phy_info_82577(&mut a).is_ok());
    assert!(a.hw.phy.is_mdix);
    assert!(a.hw.phy.polarity_correction);
    assert_eq!(a.hw.phy.cable_polarity, RevPolarity::Reversed);
    assert_eq!(a.hw.phy.local_rx, GbRxStatus::Undefined);
    assert_eq!(a.hw.phy.remote_rx, GbRxStatus::Undefined);
    assert_eq!(a.hw.phy.cable_length, 0xFF);
}

#[test]
fn phy_info_82577_without_link() {
    let mut a = adapter();
    a.hw.phy.ops.read_reg = Some(PhyRegAccess::M88);
    a.plat.phy.insert(1, 0);
    assert!(get_phy_info_82577(&mut a).is_err());
}

#[test]
fn smartspeed_cycle_start_on_master_slave_fault() {
    let mut a = smartspeed_adapter(0);
    a.hw.phy.ops.read_reg = Some(PhyRegAccess::M88);
    a.hw.phy.ops.write_reg = Some(PhyRegAccess::M88);
    a.plat.phy.insert(0x0A, 0x8000);
    a.plat.phy.insert(0x09, 0x1000);
    let _ = a.lem_smartspeed();
    assert_eq!(a.smartspeed, 1);
}

#[test]
fn smartspeed_cycle_start_without_fault() {
    let mut a = smartspeed_adapter(0);
    a.hw.phy.ops.read_reg = Some(PhyRegAccess::M88);
    a.plat.phy.insert(0x0A, 0);
    assert!(a.lem_smartspeed().is_ok());
    assert_eq!(a.smartspeed, 0);
}
