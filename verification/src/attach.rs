//! Bringing a device up: choosing the routine tables for the detected MAC,
//! claiming the PCI resources, and the attach and init sequences that tie
//! the rest of the driver together.
use vstd::prelude::*;
use crate::adapter::{
    AdResult, Adapter, do_read_register, do_write_register, lemma_same_except_hw_trans,
};
use crate::consts::{
    AUTONEG_ADV_DEFAULT, AUTO_ALL_MODES, E1000_CTRL, E1000_CTRL_EXT, E1000_CTRL_EXT_DRV_LOAD,
    E1000_CTRL_VME, E1000_ICR, E1000_ICS, E1000_ICS_LSC, E1000_IMS, E1000_IMS_LSC, E1000_MTA,
    E1000_RAR_ENTRIES, E1000_VET, EM_BAR_MEM_TYPE_64BIT, EM_BAR_MEM_TYPE_MASK,
    EM_BAR_TYPE_FLASH, EM_BAR_TYPE_IO, EM_BAR_TYPE_MASK, EM_MSIX_LINK, ETHERTYPE_VLAN,
    IFCAP_VLAN_HWFILTER, IFCAP_VLAN_HWTAGGING, IFF_PROMISC, IFM_AUTO, IFM_ETHER,
    M88E1011_I_PHY_ID, MAX_NUM_MULTICAST_ADDRESSES, MCLBYTES, PCIR_BARS, PCIR_CIS, PCIR_COMMAND,
    SYS_RES_IOPORT, SYS_RES_MEMORY, em_bar_mem_type, em_bar_type, pcir_bar,
};
use crate::e8254x::{
    init_function_pointers, init_mac_params, init_nvm_params, init_phy_params,
    init_script_state, mac_ops_8254x, media_of_device, nvm_ops_8254x, phy_ops_8254x,
    set_tbi_compatibility,
};
use crate::hw::{
    BusInfoFn, EM_MAC_MIN_RANK, Hardware, IGB_MAC_MIN_RANK, LanIdFn, MacAddrFn, MacInfo, MacOps,
    MacType, MbxInfo, MbxOps, MediaType, MsType, NvmInfo, NvmOps, NvmType, PhyInfo, PhyOps,
    PhyType, mac_rank,
};
use crate::iflib::{iflib_intr_mode_t};
use crate::lifecycle::{lemma_admin_facts, reset_water_ok};
use crate::mac::{
    clear_hw_cntrs_base_generic, get_bus_info_pci_generic, get_bus_info_pcie_generic,
    mc_hash_computable, rar_high, rar_low, spec_rah, spec_ral,
};
use crate::ops::{
    configured_ifnet, copper_media, is_valid_ether_addr, mac_type_of_device, valid_ether_addr,
};
use crate::platform::{IoOp, Platform, is_read_of, pci_value, read_value};
use crate::rings::{TxQueue, TxRing};
use crate::units::{RX_DESC_SIZE, TX_DESC_SIZE};

verus! {

// ------------------------------------------------------------ routine tables

/// The MAC types of the 8254x family (82540, 82545, 82546 and their
/// revisions), the family whose routines this driver holds.
pub open spec fn family_8254x(t: MacType) -> bool {
    t == MacType::Mac_82540 || t == MacType::Mac_82545 || t == MacType::Mac_82545_rev_3 || t
        == MacType::Mac_82546 || t == MacType::Mac_82546_rev_3
}

/// `hw` with the generic routines installed in every table.
pub open spec fn generic_tables(hw: Hardware) -> Hardware {
    Hardware {
        mac: MacInfo {
            ops: MacOps {
                set_lan_id: Some(LanIdFn::MultiPortPcie),
                read_mac_addr: Some(MacAddrFn::Generic),
                config_collision_dist: true,
                rar_set: true,
                validate_mdi_setting: true,
                ..hw.mac.ops
            },
            ..hw.mac
        },
        nvm: NvmInfo { ops: NvmOps { reload: true, ..hw.nvm.ops }, ..hw.nvm },
        mbx: MbxInfo { ops: MbxOps { read_posted: true, write_posted: true }, ..hw.mbx },
        ..hw
    }
}

/// `hw` with the family's MAC, NVM and PHY parameter routines marked
/// present.
pub open spec fn family_marked(hw: Hardware) -> Hardware {
    Hardware {
        mac: MacInfo { ops: MacOps { init_params: true, ..hw.mac.ops }, ..hw.mac },
        nvm: NvmInfo { ops: NvmOps { init_params: true, ..hw.nvm.ops }, ..hw.nvm },
        phy: PhyInfo { ops: PhyOps { init_params: true, ..hw.phy.ops }, ..hw.phy },
        ..hw
    }
}

/// `hw` with MAC type `t`, the generic routines installed, and the
/// family's parameter routines marked present.
pub open spec fn with_tables(hw: Hardware, t: MacType) -> Hardware {
    family_marked(generic_tables(Hardware { mac: MacInfo { mac_type: t, ..hw.mac }, ..hw }))
}

/// What the family's table installation leaves is `family_marked`.
proof fn lemma_family_marked(a: Hardware, b: Hardware)
    requires
        b == (Hardware { mac: b.mac, nvm: b.nvm, phy: b.phy, ..a }),
        b.mac == (MacInfo { ops: b.mac.ops, ..a.mac }),
        b.nvm == (NvmInfo { ops: b.nvm.ops, ..a.nvm }),
        b.phy == (PhyInfo { ops: b.phy.ops, ..a.phy }),
        b.mac.ops == (MacOps { init_params: true, ..a.mac.ops }),
        b.nvm.ops == (NvmOps { init_params: true, ..a.nvm.ops }),
        b.phy.ops == (PhyOps { init_params: true, ..a.phy.ops }),
    ensures
        b == family_marked(a),
{
}

/// Installs the generic routines of every table.
#[verifier::spinoff_prover]
#[verifier::rlimit(100)]
fn install_generic<P: Platform>(adapter: &mut Adapter<P>)
    ensures
        final(adapter).same_except_hw(old(adapter)),
        final(adapter).io_log@ == old(adapter).io_log@,
        final(adapter).hw == generic_tables(old(adapter).hw),
{
    let mut p = adapter.hw.phy.ops;
    p.init_generic();
    let mut m = adapter.hw.mac.ops;
    m.init_generic();
    let mut b = adapter.hw.mbx.ops;
    b.init_generic();
    let mut n = adapter.hw.nvm.ops;
    n.init_generic();
    adapter.hw.phy.ops = p;
    adapter.hw.mac.ops = m;
    adapter.hw.mbx.ops = b;
    adapter.hw.nvm.ops = n;
}

/// Sets the MAC type and installs the generic routines and the 8254x
/// family's; refused for an unknown device and for a MAC outside the
/// family.
#[verifier::spinoff_prover]
#[verifier::rlimit(50)]
fn install_tables<P: Platform>(adapter: &mut Adapter<P>) -> (r: AdResult)
    ensures
        final(adapter).same_except_hw(old(adapter)),
        final(adapter).io_log@ == old(adapter).io_log@,
        r.is_ok() <==> (mac_type_of_device(old(adapter).hw.device_id) is Some && family_8254x(
            mac_type_of_device(old(adapter).hw.device_id)->0,
        )),
        mac_type_of_device(old(adapter).hw.device_id) is None ==> final(adapter).hw
            == old(adapter).hw,
        r.is_ok() ==> final(adapter).hw == with_tables(
            old(adapter).hw,
            mac_type_of_device(old(adapter).hw.device_id)->0,
        ),
{
    let ghost s0 = *adapter;
    let res = adapter.set_mac_type();
    if res.is_err() {
        return res;
    }
    let ghost s1 = *adapter;
    install_generic(adapter);
    let ghost s2 = *adapter;
    proof {
        lemma_same_except_hw_trans(&s0, &s1, &s2);
    }
    let t = adapter.hw.mac.mac_type;
    if t == MacType::Mac_82540 || t == MacType::Mac_82545 || t == MacType::Mac_82545_rev_3 || t
        == MacType::Mac_82546 || t == MacType::Mac_82546_rev_3 {
        let _ = init_function_pointers(adapter);
        proof {
            lemma_same_except_hw_trans(&s0, &s2, adapter);
            lemma_family_marked(s2.hw, adapter.hw);
        }
        Ok(())
    } else {
        Err("Unsupported hardware".to_string())
    }
}

impl<P: Platform> Adapter<P> {
    /// Sets the MAC type from the device id, installs the generic routines
    /// and then the family's, and with `init_device` runs the family's MAC,
    /// NVM and PHY parameter routines in that order. Only the 8254x family
    /// is served: an unknown device, and every other MAC, is refused.
    #[verifier::spinoff_prover]
    #[verifier::rlimit(50)]
    pub fn setup_init_functions(&mut self, init_device: bool) -> (r: AdResult)
        ensures
            final(self).same_except_hw(old(self)),
            final(self).log_extends(old(self)),
            ({
                let d = mac_type_of_device(old(self).hw.device_id);
                let t = d->0;
                let h = with_tables(old(self).hw, t);
                &&& d is None ==> r.is_err() && final(self).hw == old(self).hw
                &&& r.is_ok() ==> d is Some && family_8254x(t)
                &&& !init_device ==> (r.is_ok() <==> d is Some && family_8254x(t))
                &&& !init_device && r.is_ok() ==> final(self).hw == h
                    && final(self).io_log@ == old(self).io_log@
                &&& init_device && r.is_ok() ==> final(self).hw.phy.id == M88E1011_I_PHY_ID
                    && final(self).hw.phy.phy_type == PhyType::Type_m88
                    && final(self).hw.phy.media_type == media_of_device(old(self).hw.device_id)
                    && final(self).hw.phy.ops == phy_ops_8254x(h.phy.ops)
                    && final(self).hw.mac == (MacInfo {
                    mta_reg_count: 128,
                    rar_entry_count: E1000_RAR_ENTRIES,
                    ops: mac_ops_8254x(h.mac.ops, media_of_device(old(self).hw.device_id)),
                    ..h.mac
                }) && final(self).hw.nvm.ops == nvm_ops_8254x(h.nvm.ops)
                    && final(self).hw.nvm.nvm_type == NvmType::EepromMicrowire
                    && final(self).hw.nvm.opcode_bits == 3 && (final(self).hw.nvm.address_bits == 6
                    || final(self).hw.nvm.address_bits == 8)
            }),
    {
        let ghost s0 = *self;
        let res = install_tables(self);
        if res.is_err() || !init_device {
            return res;
        }
        let ghost s1 = *self;
        let _ = init_mac_params(self);
        let ghost s2 = *self;
        let _ = init_nvm_params(self);
        let ghost s3 = *self;
        let res = init_phy_params(self);
        proof {
            lemma_same_except_hw_trans(&s0, &s1, &s2);
            lemma_same_except_hw_trans(&s0, &s2, &s3);
            lemma_same_except_hw_trans(&s0, &s3, self);
        }
        res
    }
}

// ------------------------------------------------------------ PCI resources

/// The step from one base address register to the next: a 64-bit memory
/// BAR takes two registers.
pub open spec fn bar_step(v: u32) -> int {
    if v & EM_BAR_MEM_TYPE_MASK == EM_BAR_MEM_TYPE_64BIT {
        8
    } else {
        4
    }
}

/// The scan for the I/O base address register from register `rid` on,
/// where the trace `l` holds the values read from entry `k` on: the
/// register found and the trace position after its read, or `None` when
/// the scan runs past the base address registers.
pub open spec fn bar_scan(l: Seq<IoOp>, k: int, rid: int) -> Option<(int, int)>
    decreases PCIR_CIS + 8 - rid,
{
    if rid >= PCIR_CIS {
        None
    } else if pci_value(l[k]) & EM_BAR_TYPE_MASK == EM_BAR_TYPE_IO {
        Some((rid, k + 1))
    } else {
        bar_scan(l, k + 1, rid + bar_step(pci_value(l[k])))
    }
}

/// The reads of that scan are 4-byte configuration reads of the scanned
/// registers.
pub open spec fn bar_reads(l: Seq<IoOp>, k: int, rid: int) -> bool
    decreases PCIR_CIS + 8 - rid,
{
    if rid >= PCIR_CIS {
        true
    } else {
        &&& 0 <= k < l.len()
        &&& l[k] == IoOp::PciRead { reg: rid as u32, width: 4, value: pci_value(l[k]) }
        &&& (pci_value(l[k]) & EM_BAR_TYPE_MASK != EM_BAR_TYPE_IO ==> bar_reads(
            l,
            k + 1,
            rid + bar_step(pci_value(l[k])),
        ))
    }
}

/// Reading the scan's entries again in a longer trace gives the same scan.
proof fn lemma_bar_scan_extends(l: Seq<IoOp>, m: Seq<IoOp>, k: int, rid: int)
    requires
        bar_reads(l, k, rid),
        0 <= k,
        m.len() >= l.len(),
        forall|i: int| 0 <= i < l.len() ==> m[i] == l[i],
    ensures
        bar_scan(m, k, rid) == bar_scan(l, k, rid),
        bar_reads(m, k, rid),
    decreases PCIR_CIS + 8 - rid,
{
    if rid < PCIR_CIS && pci_value(l[k]) & EM_BAR_TYPE_MASK != EM_BAR_TYPE_IO {
        lemma_bar_scan_extends(l, m, k + 1, rid + bar_step(pci_value(l[k])));
    }
}

/// Scans the base address registers from `rid` on for the I/O one.
#[verifier::spinoff_prover]
fn scan_bars<P: Platform>(adapter: &mut Adapter<P>, rid: i32) -> (r: Option<i32>)
    requires
        PCIR_BARS <= rid < PCIR_CIS + 8,
    ensures
        final(adapter).same_state(old(adapter)),
        final(adapter).log_extends(old(adapter)),
        bar_reads(final(adapter).io_log@, old(adapter).io_log@.len() as int, rid as int),
        (r is Some <==> bar_scan(final(adapter).io_log@, old(adapter).io_log@.len() as int, rid as int) is Some),
        r is Some ==> r->0 == bar_scan(final(adapter).io_log@, old(adapter).io_log@.len() as int, rid as int).unwrap().0
            && final(adapter).io_log@.len() == bar_scan(
            final(adapter).io_log@,
            old(adapter).io_log@.len() as int,
            rid as int,
        ).unwrap().1,
    decreases PCIR_CIS + 8 - rid,
{
    if rid >= PCIR_CIS as i32 {
        return None;
    }
    assert(rid < PCIR_CIS);
    let ghost s0 = *adapter;
    let val = adapter.pci_read_config(rid as u32, 4);
    if em_bar_type(val) == EM_BAR_TYPE_IO {
        return Some(rid);
    }
    let mut next = rid + 4;
    if em_bar_mem_type(val) == EM_BAR_MEM_TYPE_64BIT {
        next = next + 4;
    }
    let ghost s1 = *adapter;
    let r = scan_bars(adapter, next);
    proof {
        assert(adapter.io_log@[s0.io_log@.len() as int] == s1.io_log@[s0.io_log@.len() as int]);
        assert(pci_value(adapter.io_log@[s0.io_log@.len() as int]) == val);
    }
    r
}

/// The MACs that also use an I/O port window: those after the 82543 and
/// before the PCI Express generation.
pub open spec fn uses_io_bar(t: MacType) -> bool {
    mac_rank(t) > 2 && mac_rank(t) < EM_MAC_MIN_RANK
}

impl<P: Platform> Adapter<P> {
    /// Claims the memory window behind the first base address register;
    /// on the MACs that use I/O ports (`uses_io_bar`) also finds the I/O
    /// base address register (`bar_scan`), remembers it, claims its ports
    /// and clears the I/O base. Refused when the memory window or the
    /// ports are not granted, or no I/O register is found.
    #[verifier::spinoff_prover]
    #[verifier::rlimit(50)]
    pub fn allocate_pci_resources(&mut self) -> (r: AdResult)
        ensures
            ({
                let l = final(self).io_log@;
                let o = old(self).io_log@.len() as int;
                let scan = bar_scan(l, o + 1, PCIR_BARS as int);
                let found = scan.unwrap().0;
                let end = scan.unwrap().1;
                &&& final(self).log_extends(old(self))
                &&& l.len() > o
                &&& l[o] == IoOp::AllocResource { kind: SYS_RES_MEMORY, rid: PCIR_BARS as i32, granted: l[o]->granted }
                &&& !l[o]->granted ==> r.is_err() && l.len() == o + 1 && final(self).same_state(old(self))
                &&& l[o]->granted && !uses_io_bar(old(self).hw.mac.mac_type) ==> r.is_ok() && l.len() == o
                    + 1 && final(self).same_state(old(self))
                &&& l[o]->granted && uses_io_bar(old(self).hw.mac.mac_type) ==> {
                    &&& bar_reads(l, o + 1, PCIR_BARS as int)
                    &&& scan is None ==> r.is_err() && final(self).same_state(old(self))
                    &&& scan is Some ==> {
                        &&& l.len() == end + 1
                        &&& l[end] == IoOp::AllocResource { kind: SYS_RES_IOPORT, rid: found as i32, granted: l[end]->granted }
                        &&& (r.is_ok() <==> l[end]->granted)
                        &&& *final(self) == (Adapter {
                            plat: final(self).plat,
                            io_log: final(self).io_log,
                            io_rid: found as i32,
                            hw: Hardware {
                                io_base: if l[end]->granted {
                                    0
                                } else {
                                    old(self).hw.io_base
                                },
                                ..old(self).hw
                            },
                            ..*old(self)
                        })
                    }
                }
            }),
    {
        let rid: i32 = pcir_bar(0) as i32;
        let ghost s0 = *self;
        if !self.bus_alloc_resource(SYS_RES_MEMORY, rid) {
            return Err("Unable to allocate bus resource: memory".to_string());
        }
        let t = self.hw.mac.mac_type.rank();
        if t > 2 && t < EM_MAC_MIN_RANK {
            let ghost s1 = *self;
            let found = scan_bars(self, rid);
            if found.is_none() {
                return Err("Unable to locate IO BAR".to_string());
            }
            let io_rid = found.unwrap();
            self.io_rid = io_rid;
            let ghost s2 = *self;
            let granted = self.bus_alloc_resource(SYS_RES_IOPORT, io_rid);
            proof {
                lemma_bar_scan_extends(s2.io_log@, self.io_log@, s1.io_log@.len() as int, rid as int);
            }
            if !granted {
                return Err("Unable to allocate bus resource: ioport".to_string());
            }
            self.hw.io_base = 0;
        }
        Ok(())
    }
}

// ------------------------------------------------------------ attach and init

impl<P: Platform> Adapter<P> {
    /// The second half of attach: sets up the network interface (copper
    /// only), resets the device, accumulates the statistics, forces a link
    /// check and runs the administrative task, and on management hardware
    /// without AMT takes control from the firmware.
    #[verifier::spinoff_prover]
    #[verifier::rlimit(50)]
    pub fn attach_post(&mut self) -> (r: AdResult)
        requires
            old(self).iflib_shared.isc_ntxqsets == 1 ==> old(self).iflib_shared.isc_ntxd0 > i32::MIN,
            old(self).vf_ifp == 0 ==> old(self).hw.mac.mac_type != MacType::Mac_82573,
            reset_water_ok(old(self).hw.mac.mac_type, old(self).hw.mac.max_frame_size),
        ensures
            final(self).log_extends(old(self)),
            old(self).hw.phy.media_type != MediaType::Copper ==> r.is_err() && *final(self) == (Adapter {
                ifnet: configured_ifnet(
                    old(self).ifnet,
                    old(self).iflib_shared.isc_ntxqsets == 1,
                    old(self).iflib_shared.isc_ntxd0,
                    old(self).wol,
                ),
                ..*old(self)
            }),
            r.is_ok() ==> final(self).ifmedia.entries@ == old(self).ifmedia.entries@ + copper_media(
                old(self).hw.phy.phy_type,
            ),
            r.is_ok() ==> final(self).ifmedia.current == (IFM_ETHER | IFM_AUTO) as i32,
            r.is_ok() && !(old(self).has_manage && !old(self).has_amt) ==> final(self).io_log@.last()
                == (IoOp::Write { reg: E1000_IMS, value: EM_MSIX_LINK | E1000_IMS_LSC }),
            r.is_ok() && old(self).has_manage && !old(self).has_amt && old(self).vf_ifp == 0 ==> {
                let l = final(self).io_log@;
                &&& l.len() >= old(self).io_log@.len() + 3
                &&& l[l.len() - 3] == (IoOp::Write { reg: E1000_IMS, value: EM_MSIX_LINK | E1000_IMS_LSC })
                &&& is_read_of(l[l.len() - 2], E1000_CTRL_EXT)
                &&& l.last() == (IoOp::Write {
                    reg: E1000_CTRL_EXT,
                    value: read_value(l[l.len() - 2]) | E1000_CTRL_EXT_DRV_LOAD,
                })
            },
    {
        let ghost s0 = *self;
        let res = self.setup_interface();
        if res.is_err() {
            return res;
        }
        let ghost s1 = *self;
        let res = self.reset();
        if res.is_err() {
            return res;
        }
        let ghost s2 = *self;
        self.update_stats_counters();
        self.hw.mac.get_link_status = true;
        let ghost s3 = *self;
        proof {
            assert(s3.ifmedia == s1.ifmedia);
            assert(s3.smartspeed == s0.smartspeed);
        }
        let res = self.update_admin_status();
        proof {
            lemma_admin_facts(&s3, self);
        }
        if res.is_err() {
            return res;
        }
        let ghost s4 = *self;
        self.add_hw_stats();
        proof {
            lemma_admin_facts(&s3, self);
        }
        if self.has_manage && !self.has_amt {
            if self.vf_ifp == 0 && self.hw.mac.mac_type == MacType::Mac_82573 {
                return Err("Unsupported hardware".to_string());
            }
            self.get_hw_control();
            proof {
                if s4.vf_ifp == 0 {
                    let l = self.io_log@;
                    assert(l[l.len() - 3] == s4.io_log@.last());
                }
            }
        }
        Ok(())
    }
}

/// What `init` needs of the driver's queues and tables, all along.
pub open spec fn init_ready<P: Platform>(a: &Adapter<P>) -> bool {
    &&& 0 <= a.iflib_shared.isc_ntxqsets <= a.tx_queues@.len()
    &&& a.iflib_shared.isc_ntxqsets < 0x100_0000
    &&& a.iflib_shared.isc_ntxd0 as u32 * TX_DESC_SIZE <= u32::MAX
    &&& a.rx_queues@.len() < 0x100_0000
    &&& a.iflib_shared.isc_nrxd0 as u32 * RX_DESC_SIZE <= u32::MAX
    &&& a.mta is Some
    &&& a.mta->0@.len() >= 6 * MAX_NUM_MULTICAST_ADDRESSES
}

/// A transmit queue with its report-status indices cleared.
pub open spec fn rs_cleared(q: TxQueue) -> TxQueue {
    TxQueue { txr: TxRing { tx_rs_cidx: 0, tx_rs_pidx: 0, tx_cidx_processed: 0, ..q.txr }, ..q }
}

/// Clears the report-status indices of every transmit queue.
fn clear_rs_indices(qs: &mut Vec<TxQueue>)
    ensures
        final(qs)@.len() == old(qs)@.len(),
        forall|i: int| 0 <= i < final(qs)@.len() ==> #[trigger] final(qs)@[i] == rs_cleared(old(qs)@[i]),
{
    let n = qs.len();
    let mut i: usize = 0;
    while i < n
        invariant
            n == old(qs)@.len(),
            qs@.len() == n,
            i <= n,
            forall|k: int| 0 <= k < i ==> #[trigger] qs@[k] == rs_cleared(old(qs)@[k]),
            forall|k: int| i <= k < n ==> #[trigger] qs@[k] == old(qs)@[k],
        decreases n - i,
    {
        let mut q = qs.remove(i);
        q.txr.tx_rs_cidx = 0;
        q.txr.tx_rs_pidx = 0;
        q.txr.tx_cidx_processed = 0;
        qs.insert(i, q);
        i = i + 1;
    }
}

/// The start of `init`: takes the interface's link-level address as the
/// MAC address, puts it in receive address 0, refuses the 82571, resets
/// the device and runs the administrative task.
#[verifier::spinoff_prover]
#[verifier::rlimit(50)]
fn init_head<P: Platform>(adapter: &mut Adapter<P>) -> (r: AdResult)
    requires
        init_ready(old(adapter)),
        old(adapter).vf_ifp == 0 ==> old(adapter).hw.mac.mac_type != MacType::Mac_82573,
        reset_water_ok(old(adapter).hw.mac.mac_type, old(adapter).hw.mac.max_frame_size),
    ensures
        init_ready(final(adapter)),
        final(adapter).log_extends(old(adapter)),
        final(adapter).has_manage == old(adapter).has_manage,
        final(adapter).has_amt == old(adapter).has_amt,
        final(adapter).vf_ifp == old(adapter).vf_ifp,
        final(adapter).iflib_shared.isc_intr == old(adapter).iflib_shared.isc_intr,
        !old(adapter).hw.mac.ops.rar_set ==> r.is_err(),
        old(adapter).hw.mac.mac_type == MacType::Mac_82571 ==> r.is_err(),
        r.is_ok() ==> {
            let l = final(adapter).io_log@;
            let o = old(adapter).io_log@.len() as int;
            let a = old(adapter).ifnet.lladdr@;
            &&& l.len() >= o + 4
            &&& l[o] == IoOp::Write { reg: spec_ral(0), value: rar_low(a) }
            &&& l[o + 2] == IoOp::Write { reg: spec_rah(0), value: rar_high(a) }
        },
{
    let ghost s0 = *adapter;
    let mac_addr: [u8; 6] = adapter.ifnet.lladdr();
    adapter.hw.mac.addr = mac_addr;
    let res = adapter.rar_set(&mac_addr, 0);
    if res.is_err() {
        return res;
    }
    let ghost s1 = *adapter;
    if adapter.hw.mac.mac_type == MacType::Mac_82571 {
        return Err("Unsupported hardware".to_string());
    }
    let res = adapter.reset();
    if res.is_err() {
        return res;
    }
    let ghost s2 = *adapter;
    let res = adapter.update_admin_status();
    proof {
        lemma_admin_facts(&s2, adapter);
        assert(adapter.io_log@[s0.io_log@.len() as int] == s1.io_log@[s0.io_log@.len() as int]);
        assert(adapter.io_log@[s0.io_log@.len() + 2int] == s1.io_log@[s0.io_log@.len() + 2int]);
    }
    res
}

/// The transmit half of `init`: clears the report-status indices, sets
/// the VLAN ether type, configures manageability, programs the transmit
/// unit and the multicast table. Refused on the IGB MACs and on the MACs
/// and media the transmit unit does not handle.
#[verifier::spinoff_prover]
#[verifier::rlimit(50)]
fn init_tx_part<P: Platform>(adapter: &mut Adapter<P>) -> (r: AdResult)
    requires
        init_ready(old(adapter)),
    ensures
        init_ready(final(adapter)),
        final(adapter).log_extends(old(adapter)),
        final(adapter).has_manage == old(adapter).has_manage,
        final(adapter).has_amt == old(adapter).has_amt,
        final(adapter).vf_ifp == old(adapter).vf_ifp,
        final(adapter).iflib_shared == old(adapter).iflib_shared,
        final(adapter).ifnet == old(adapter).ifnet,
        final(adapter).rx_queues == old(adapter).rx_queues,
        final(adapter).io_log@.len() > old(adapter).io_log@.len(),
        final(adapter).io_log@[old(adapter).io_log@.len() as int] == (IoOp::Write { reg: E1000_VET, value: ETHERTYPE_VLAN }),
{
    let ghost s0 = *adapter;
    clear_rs_indices(&mut adapter.tx_queues);
    let ghost s1 = *adapter;
    do_write_register(adapter, E1000_VET, ETHERTYPE_VLAN);
    let ghost s2 = *adapter;
    let t = adapter.hw.mac.mac_type;
    if t.rank() >= IGB_MAC_MIN_RANK {
        return Err("Unsupported hardware".to_string());
    }
    adapter.init_manageability();
    let m = adapter.hw.phy.media_type;
    if t == MacType::Mac_80003es2lan || t == MacType::Mac_82542 || t == MacType::Mac_82571 || t
        == MacType::Mac_82572 || t == MacType::Mac_82574 || m == MediaType::Fiber || m
        == MediaType::InternalSerdes {
        return Err("Unsupported hardware".to_string());
    }
    let ghost s3 = *adapter;
    adapter.initialize_transmit_unit();
    let ghost s4 = *adapter;
    if adapter.hw.mac.ops.update_mc_addr_list {
        let cnt = adapter.hw.mac.mta_reg_count;
        if !mc_hash_computable(cnt, adapter.hw.mac.mc_filter_type) || cnt as usize
            > adapter.hw.mac.mta_shadow.len() || cnt as u32 > (u32::MAX - E1000_MTA) / 4 {
            return Err("Unsupported hardware".to_string());
        }
    }
    let res = adapter.multi_set();
    proof {
        assert(adapter.io_log@[s0.io_log@.len() as int] == s2.io_log@[s0.io_log@.len() as int]);
    }
    res
}

/// The receive half of `init`: picks the receive buffer size (standard
/// clusters; larger frames are refused), programs the receive unit, the
/// VLAN tag stripping and the promiscuous mode, and clears the statistics
/// counters.
#[verifier::spinoff_prover]
#[verifier::rlimit(50)]
fn init_rx_part<P: Platform>(adapter: &mut Adapter<P>) -> (r: AdResult)
    requires
        init_ready(old(adapter)),
    ensures
        final(adapter).log_extends(old(adapter)),
        final(adapter).has_manage == old(adapter).has_manage,
        final(adapter).has_amt == old(adapter).has_amt,
        final(adapter).vf_ifp == old(adapter).vf_ifp,
        final(adapter).iflib_shared.isc_intr == old(adapter).iflib_shared.isc_intr,
        old(adapter).hw.mac.max_frame_size > 2048 ==> r.is_err(),
        r.is_ok() ==> final(adapter).rx_mbuf_sz == MCLBYTES,
{
    if adapter.hw.mac.max_frame_size > 2048 {
        return Err("Only frame size <= 2048 is supported".to_string());
    }
    adapter.rx_mbuf_sz = MCLBYTES;
    let ghost s0 = *adapter;
    let res = adapter.initialize_receive_unit();
    if res.is_err() {
        return res;
    }
    let ghost s1 = *adapter;
    let caps = adapter.ifnet.capenable();
    if caps & IFCAP_VLAN_HWTAGGING != 0 {
        if caps & IFCAP_VLAN_HWFILTER != 0 {
            adapter.setup_vlan_hw_support();
        } else {
            let ctrl = do_read_register(adapter, E1000_CTRL);
            do_write_register(adapter, E1000_CTRL, ctrl | E1000_CTRL_VME);
        }
    }
    let _ = adapter.set_promisc(IFF_PROMISC);
    clear_hw_cntrs_base_generic(adapter);
    Ok(())
}

/// The end of `init`: refuses MSI-X and the 82574, clears pending
/// interrupts and raises a link-status interrupt, lets AMT hardware take
/// control from the firmware, and refuses copper IGB MACs.
#[verifier::spinoff_prover]
#[verifier::rlimit(50)]
fn init_intr_part<P: Platform>(adapter: &mut Adapter<P>) -> (r: AdResult)
    ensures
        final(adapter).log_extends(old(adapter)),
        final(adapter).rx_mbuf_sz == old(adapter).rx_mbuf_sz,
        old(adapter).hw.mac.mac_type == MacType::Mac_82574 || old(adapter).iflib_shared.isc_intr
            == iflib_intr_mode_t::IFLIB_INTR_MSIX ==> r.is_err(),
        r.is_ok() && !(old(adapter).has_manage && old(adapter).has_amt) ==> {
            let l = final(adapter).io_log@;
            &&& l.len() == old(adapter).io_log@.len() + 2
            &&& is_read_of(l[l.len() - 2], E1000_ICR)
            &&& l.last() == (IoOp::Write { reg: E1000_ICS, value: E1000_ICS_LSC })
        },
{
    if adapter.hw.mac.mac_type == MacType::Mac_82574 || adapter.iflib_shared.isc_intr
        == iflib_intr_mode_t::IFLIB_INTR_MSIX {
        return Err("Unsupported hardware".to_string());
    }
    let _ = do_read_register(adapter, E1000_ICR);
    do_write_register(adapter, E1000_ICS, E1000_ICS_LSC);
    if adapter.has_manage && adapter.has_amt {
        if adapter.vf_ifp == 0 && adapter.hw.mac.mac_type == MacType::Mac_82573 {
            return Err("Unsupported hardware".to_string());
        }
        adapter.get_hw_control();
    }
    if adapter.hw.mac.mac_type.rank() >= IGB_MAC_MIN_RANK && adapter.hw.phy.media_type
        == MediaType::Copper {
        return Err("Unsupported hardware".to_string());
    }
    Ok(())
}

impl<P: Platform> Adapter<P> {
    /// Brings the interface up: the link-level address becomes the MAC
    /// address and receive address 0, the device is reset and the link
    /// checked, the transmit and receive units, the multicast table, VLAN
    /// and promiscuous settings are programmed, the statistics cleared,
    /// pending interrupts cleared and a link-status interrupt raised; AMT
    /// hardware takes control from the firmware. Refused without a
    /// receive-address routine, on the 82571, the 82574, the IGB MACs,
    /// with MSI-X, with frames over 2048 bytes, and where a step it runs
    /// refuses.
    #[verifier::spinoff_prover]
    #[verifier::rlimit(50)]
    pub fn init(&mut self) -> (r: AdResult)
        requires
            init_ready(old(self)),
            old(self).vf_ifp == 0 ==> old(self).hw.mac.mac_type != MacType::Mac_82573,
            reset_water_ok(old(self).hw.mac.mac_type, old(self).hw.mac.max_frame_size),
        ensures
            final(self).log_extends(old(self)),
            !old(self).hw.mac.ops.rar_set ==> r.is_err(),
            old(self).hw.mac.mac_type == MacType::Mac_82571 ==> r.is_err(),
            old(self).iflib_shared.isc_intr == iflib_intr_mode_t::IFLIB_INTR_MSIX ==> r.is_err(),
            r.is_ok() ==> final(self).rx_mbuf_sz == MCLBYTES,
            r.is_ok() ==> {
                let l = final(self).io_log@;
                let o = old(self).io_log@.len() as int;
                let a = old(self).ifnet.lladdr@;
                &&& l.len() >= o + 4
                &&& l[o] == IoOp::Write { reg: spec_ral(0), value: rar_low(a) }
                &&& l[o + 2] == IoOp::Write { reg: spec_rah(0), value: rar_high(a) }
                &&& l.contains(IoOp::Write { reg: E1000_VET, value: ETHERTYPE_VLAN })
            },
            r.is_ok() && !(old(self).has_manage && old(self).has_amt) ==> {
                let l = final(self).io_log@;
                &&& is_read_of(l[l.len() - 2], E1000_ICR)
                &&& l.last() == (IoOp::Write { reg: E1000_ICS, value: E1000_ICS_LSC })
            },
    {
        let ghost s0 = *self;
        let res = init_head(self);
        if res.is_err() {
            return res;
        }
        let ghost s1 = *self;
        let res = init_tx_part(self);
        if res.is_err() {
            return res;
        }
        let ghost s2 = *self;
        let res = init_rx_part(self);
        if res.is_err() {
            return res;
        }
        let ghost s3 = *self;
        let res = init_intr_part(self);
        proof {
            let k = s1.io_log@.len() as int;
            assert(s2.io_log@[k] == IoOp::Write { reg: E1000_VET, value: ETHERTYPE_VLAN });
            assert(self.io_log@[k] == s2.io_log@[k]);
            assert(self.io_log@[s0.io_log@.len() as int] == s1.io_log@[s0.io_log@.len() as int]);
            assert(self.io_log@[s0.io_log@.len() + 2int] == s1.io_log@[s0.io_log@.len() + 2int]);
        }
        res
    }
}

/// The length of the multicast address array: room for the largest
/// multicast list, six bytes per address.
pub const MTA_BYTES: usize = 768;

/// The frame size of standard Ethernet: the MTU, the header and the
/// frame check sequence.
pub const STD_FRAME_SIZE: u32 = 1518;

/// The first steps of attach: the transmit processing limit, the device
/// identification, the shared context and the PCI resources; on the ICH8
/// family (up to the LPT PCH) also the flash window.
#[verifier::spinoff_prover]
#[verifier::rlimit(50)]
fn attach_identify<P: Platform>(adapter: &mut Adapter<P>) -> (r: AdResult)
    requires
        0 <= old(adapter).iflib_shared.isc_ntxd0 < 0x0800_0000,
        0 <= old(adapter).iflib_shared.isc_nrxd0 < 0x0800_0000,
    ensures
        final(adapter).log_extends(old(adapter)),
        final(adapter).tx_process_limit == old(adapter).iflib_shared.isc_ntxd0 as u32,
        final(adapter).io_log@.len() > old(adapter).io_log@.len(),
        final(adapter).io_log@[old(adapter).io_log@.len() as int] == (IoOp::PciRead {
            reg: PCIR_COMMAND,
            width: 2,
            value: pci_value(final(adapter).io_log@[old(adapter).io_log@.len() as int]),
        }),
{
    let ghost s0 = *adapter;
    adapter.tx_process_limit = adapter.iflib_shared.tx_process_limit() as u32;
    let ghost s1 = *adapter;
    let res = adapter.identify_hardware();
    if res.is_err() {
        return res;
    }
    let ghost s2 = *adapter;
    let res = adapter.setup_shared_context();
    if res.is_err() {
        return res;
    }
    let res = adapter.allocate_pci_resources();
    if res.is_err() {
        return res;
    }
    let t = adapter.hw.mac.mac_type;
    if t == MacType::Mac_ich8lan || t == MacType::Mac_ich9lan || t == MacType::Mac_ich10lan || t
        == MacType::Mac_pchlan || t == MacType::Mac_pch2lan || t == MacType::Mac_pch_lpt {
        if !adapter.bus_alloc_resource(SYS_RES_MEMORY, EM_BAR_TYPE_FLASH as i32) {
            return Err("Unable to allocate bus resource: flash".to_string());
        }
    }
    proof {
        assert(adapter.io_log@[s0.io_log@.len() as int] == s2.io_log@[s0.io_log@.len() as int]);
    }
    Ok(())
}

/// The settings attach makes before reading the NVM: auto-negotiation on
/// with the default advertisement, the 82541/82543 workarounds on the older
/// MACs, the copper PHY options, standard frame sizes, early transmit
/// reports, a cleared multicast array and Energy Efficient Ethernet off.
#[verifier::spinoff_prover]
#[verifier::rlimit(50)]
fn attach_settings<P: Platform>(adapter: &mut Adapter<P>)
    ensures
        final(adapter).io_log@ == old(adapter).io_log@,
        final(adapter).hw.nvm == old(adapter).hw.nvm,
        final(adapter).hw.mac.mac_type == old(adapter).hw.mac.mac_type,
        final(adapter).hw.mac.ops == old(adapter).hw.mac.ops,
        final(adapter).hw.phy.id == old(adapter).hw.phy.id,
        final(adapter).hw.bus == old(adapter).hw.bus,
        final(adapter).tx_process_limit == old(adapter).tx_process_limit,
        final(adapter).hw.mac.autoneg,
        !final(adapter).hw.phy.autoneg_wait_to_complete,
        final(adapter).hw.phy.autoneg_advertised == AUTONEG_ADV_DEFAULT,
        final(adapter).hw.mac.max_frame_size == STD_FRAME_SIZE,
        final(adapter).iflib_shared.isc_max_frame_size == STD_FRAME_SIZE as u16,
        final(adapter).hw.mac.report_tx_early,
        final(adapter).mta is Some,
        final(adapter).mta->0@ == Seq::new(MTA_BYTES as nat, |i: int| 0u8),
{
    adapter.hw.mac.autoneg = true;
    adapter.hw.phy.autoneg_wait_to_complete = false;
    adapter.hw.phy.autoneg_advertised = AUTONEG_ADV_DEFAULT;
    if adapter.hw.mac.mac_type.rank() < EM_MAC_MIN_RANK {
        init_script_state(adapter, true);
        set_tbi_compatibility(adapter, true);
    }
    if adapter.hw.phy.media_type == MediaType::Copper {
        adapter.hw.phy.mdix = AUTO_ALL_MODES;
        adapter.hw.phy.disable_polarity_correction = false;
        adapter.hw.phy.ms_type = MsType::HwDefault;
    }
    adapter.iflib_shared.isc_max_frame_size = STD_FRAME_SIZE as u16;
    adapter.hw.mac.max_frame_size = STD_FRAME_SIZE;
    adapter.hw.mac.report_tx_early = true;
    let mta: Vec<u8> = vec![0u8; MTA_BYTES];
    adapter.mta = Some(mta);
    let _ = adapter.check_reset_block();
    adapter.hw.dev_spec.ich8lan.eee_disable = true;
}

/// What the NVM part of attach may change: the station and permanent
/// addresses, the wake-up and management settings, and the trace, which
/// only grows.
#[verifier::opaque]
pub open spec fn nvm_frame<P: Platform>(o: &Adapter<P>, f: &Adapter<P>) -> bool {
    &&& *f == Adapter {
        plat: f.plat,
        io_log: f.io_log,
        hw: Hardware {
            mac: MacInfo { perm_addr: f.hw.mac.perm_addr, addr: f.hw.mac.addr, ..o.hw.mac },
            ..o.hw
        },
        has_manage: f.has_manage,
        has_amt: f.has_amt,
        wol: f.wol,
        ..*o
    }
    &&& f.log_extends(o)
}

proof fn lemma_nvm_frame_trans<P: Platform>(a: &Adapter<P>, b: &Adapter<P>, c: &Adapter<P>)
    requires
        nvm_frame(a, b),
        nvm_frame(b, c),
    ensures
        nvm_frame(a, c),
{
    reveal(nvm_frame);
}

proof fn lemma_nvm_frame_of_state<P: Platform>(o: &Adapter<P>, f: &Adapter<P>)
    requires
        f.same_state(o),
        f.log_extends(o),
    ensures
        nvm_frame(o, f),
{
    reveal(nvm_frame);
}

proof fn lemma_nvm_frame_of_addr<P: Platform>(o: &Adapter<P>, f: &Adapter<P>)
    requires
        f.same_except_hw(o),
        f.log_extends(o),
        f.hw == (Hardware {
            mac: MacInfo { perm_addr: f.hw.mac.perm_addr, addr: f.hw.mac.addr, ..o.hw.mac },
            ..o.hw
        }),
    ensures
        nvm_frame(o, f),
{
    reveal(nvm_frame);
}

proof fn lemma_nvm_frame_of_wakeup<P: Platform>(o: &Adapter<P>, f: &Adapter<P>)
    requires
        f.same_state(&Adapter { has_manage: f.has_manage, has_amt: f.has_amt, wol: f.wol, ..*o }),
        f.log_extends(o),
    ensures
        nvm_frame(o, f),
{
    reveal(nvm_frame);
}

proof fn lemma_nvm_frame_facts<P: Platform>(o: &Adapter<P>, f: &Adapter<P>)
    requires
        nvm_frame(o, f),
    ensures
        f.log_extends(o),
        f.mta == o.mta,
        f.tx_process_limit == o.tx_process_limit,
        f.iflib_shared == o.iflib_shared,
        f.hw.mac.mac_type == o.hw.mac.mac_type,
        f.hw.mac.autoneg == o.hw.mac.autoneg,
        f.hw.mac.max_frame_size == o.hw.mac.max_frame_size,
        f.hw.mac.report_tx_early == o.hw.mac.report_tx_early,
        f.hw.phy == o.hw.phy,
        f.hw.nvm == o.hw.nvm,
{
    reveal(nvm_frame);
}

/// Resets the MAC and validates the NVM checksum, a second time when the
/// first check fails (some parts fail it while the link sleeps).
#[verifier::spinoff_prover]
fn attach_checksum<P: Platform>(adapter: &mut Adapter<P>) -> (r: AdResult)
    requires
        1 <= old(adapter).hw.nvm.opcode_bits <= 16,
        1 <= old(adapter).hw.nvm.address_bits <= 16,
    ensures
        nvm_frame(old(adapter), final(adapter)),
{
    let ghost s0 = *adapter;
    let res = adapter.mac_reset_hw();
    if res.is_err() {
        proof { lemma_nvm_frame_of_state(&s0, adapter); }
        return res;
    }
    let ghost s1 = *adapter;
    let first = adapter.validate_nvm_checksum();
    let ghost s2 = *adapter;
    proof {
        lemma_nvm_frame_of_state(&s0, &s1);
        lemma_nvm_frame_of_state(&s1, &s2);
        lemma_nvm_frame_trans(&s0, &s1, &s2);
    }
    if first.is_err() {
        let res = adapter.validate_nvm_checksum();
        proof {
            lemma_nvm_frame_of_state(&s2, adapter);
            lemma_nvm_frame_trans(&s0, &s2, adapter);
        }
        return res;
    }
    Ok(())
}

/// Reads the MAC address and checks it, reads the wake-up and management
/// settings, and announces the address.
#[verifier::spinoff_prover]
#[verifier::rlimit(50)]
fn attach_address<P: Platform>(adapter: &mut Adapter<P>) -> (r: AdResult)
    requires
        1 <= old(adapter).hw.nvm.opcode_bits <= 16,
        1 <= old(adapter).hw.nvm.address_bits <= 16,
    ensures
        nvm_frame(old(adapter), final(adapter)),
        r.is_ok() ==> valid_ether_addr(final(adapter).hw.mac.addr@) && final(adapter).hw.mac.addr
            == final(adapter).hw.mac.perm_addr,
        r.is_ok() ==> final(adapter).io_log@.last() == (IoOp::SetMac { addr: final(adapter).hw.mac.addr }),
{
    let ghost s0 = *adapter;
    let res = adapter.mac_read_mac_addr();
    if res.is_err() {
        proof { lemma_nvm_frame_of_state(&s0, adapter); }
        return res;
    }
    proof { lemma_nvm_frame_of_addr(&s0, adapter); }
    let ghost s1 = *adapter;
    let addr = adapter.hw.mac.addr;
    let res = is_valid_ether_addr(&addr);
    if res.is_err() {
        return res;
    }
    let res = adapter.get_wakeup();
    let ghost s2 = *adapter;
    proof {
        lemma_nvm_frame_of_wakeup(&s1, &s2);
        lemma_nvm_frame_trans(&s0, &s1, &s2);
    }
    if res.is_err() {
        return res;
    }
    let addr = adapter.hw.mac.addr;
    adapter.set_mac(addr);
    proof {
        lemma_nvm_frame_of_state(&s2, adapter);
        lemma_nvm_frame_trans(&s0, &s2, adapter);
    }
    Ok(())
}

impl<P: Platform> Adapter<P> {
    /// The first half of attach: identifies the device, sets up the shared
    /// context and the PCI resources, installs the routine tables and runs
    /// the parameter routines, probes the bus, makes the default settings,
    /// resets the MAC, validates the NVM, reads and checks the MAC address,
    /// reads the wake-up settings and announces the address. Refused where
    /// any of these steps refuses.
    #[verifier::spinoff_prover]
    #[verifier::rlimit(50)]
    pub fn attach_pre(&mut self) -> (r: AdResult)
        requires
            0 <= old(self).iflib_shared.isc_ntxd0 < 0x0800_0000,
            0 <= old(self).iflib_shared.isc_nrxd0 < 0x0800_0000,
        ensures
            final(self).log_extends(old(self)),
            final(self).io_log@.len() > old(self).io_log@.len(),
            final(self).io_log@[old(self).io_log@.len() as int] == (IoOp::PciRead {
                reg: PCIR_COMMAND,
                width: 2,
                value: pci_value(final(self).io_log@[old(self).io_log@.len() as int]),
            }),
            r.is_ok() ==> family_8254x(final(self).hw.mac.mac_type) && final(self).hw.phy.id
                == M88E1011_I_PHY_ID,
            r.is_ok() ==> final(self).tx_process_limit == old(self).iflib_shared.isc_ntxd0 as u32,
            r.is_ok() ==> valid_ether_addr(final(self).hw.mac.addr@) && final(self).hw.mac.addr
                == final(self).hw.mac.perm_addr,
            r.is_ok() ==> final(self).io_log@.last() == (IoOp::SetMac { addr: final(self).hw.mac.addr }),
            r.is_ok() ==> final(self).hw.mac.autoneg && final(self).hw.phy.autoneg_advertised
                == AUTONEG_ADV_DEFAULT && final(self).hw.mac.report_tx_early,
            r.is_ok() ==> final(self).hw.mac.max_frame_size == STD_FRAME_SIZE
                && final(self).iflib_shared.isc_max_frame_size == STD_FRAME_SIZE as u16,
            r.is_ok() ==> final(self).mta is Some && final(self).mta->0@ == Seq::new(
                MTA_BYTES as nat,
                |i: int| 0u8,
            ),
    {
        let ghost s0 = *self;
        let res = attach_identify(self);
        if res.is_err() {
            return res;
        }
        let ghost s1 = *self;
        let res = self.setup_init_functions(true);
        if res.is_err() {
            return res;
        }
        let ghost s2 = *self;
        let res = self.setup_msix();
        if res.is_err() {
            return res;
        }
        match self.hw.mac.ops.get_bus_info {
            Some(BusInfoFn::PciGeneric) => {
                let _ = get_bus_info_pci_generic(self);
            },
            Some(BusInfoFn::PcieGeneric) => {
                let _ = get_bus_info_pcie_generic(self);
            },
            None => {
                return Err("No function: get_bus_info".to_string());
            },
        }
        let ghost s3 = *self;
        attach_settings(self);
        let ghost s4 = *self;
        let res = attach_checksum(self);
        let ghost s5 = *self;
        proof {
            lemma_nvm_frame_facts(&s4, &s5);
        }
        if res.is_err() {
            return res;
        }
        let res = attach_address(self);
        proof {
            lemma_nvm_frame_facts(&s5, self);
            assert(self.io_log@[s0.io_log@.len() as int] == s1.io_log@[s0.io_log@.len() as int]);
        }
        res
    }
}

} // verus!
