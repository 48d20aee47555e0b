//! Adapter-level operations: identifying the device, dispatching to the
//! installed MAC routines, receive filtering, manageability and firmware
//! hand-over.
use vstd::prelude::*;
use crate::adapter::{
    AdResult, Adapter, do_read_register, do_write_register, lemma_same_except_hw_trans,
};
use crate::consts::{
    E1000_CTRL_EXT, E1000_CTRL_EXT_DRV_LOAD, E1000_DEV_ID_82545EM_COPPER,
    E1000_DEV_ID_82545EM_FIBER, E1000_DEV_ID_82546EB_FIBER, E1000_DEV_ID_82546GB_FIBER,
    E1000_DEV_ID_82546GB_PCIE, E1000_DEV_ID_82546GB_QUAD_COPPER_KSP3,
    E1000_DEV_ID_82571EB_FIBER, E1000_DEV_ID_82571EB_QUAD_COPPER,
    E1000_DEV_ID_82571EB_QUAD_COPPER_LP, E1000_DEV_ID_82571EB_QUAD_FIBER,
    E1000_DEV_ID_PCH_I218_LM2, E1000_DEV_ID_PCH_I218_LM3, E1000_DEV_ID_PCH_I218_V2,
    E1000_DEV_ID_PCH_I218_V3, E1000_DEV_ID_PCH_LBG_I219_LM3, E1000_DEV_ID_PCH_LPTLP_I218_LM,
    E1000_DEV_ID_PCH_LPTLP_I218_V, E1000_DEV_ID_PCH_LPT_I217_LM, E1000_DEV_ID_PCH_LPT_I217_V,
    E1000_DEV_ID_PCH_SPT_I219_LM, E1000_DEV_ID_PCH_SPT_I219_LM2, E1000_DEV_ID_PCH_SPT_I219_LM4,
    E1000_DEV_ID_PCH_SPT_I219_LM5, E1000_DEV_ID_PCH_SPT_I219_V, E1000_DEV_ID_PCH_SPT_I219_V2,
    E1000_DEV_ID_PCH_SPT_I219_V4, E1000_DEV_ID_PCH_SPT_I219_V5, E1000_FACTPS,
    E1000_FACTPS_MNGCG, E1000_FWSM, E1000_FWSM_MODE_MASK, E1000_FWSM_MODE_SHIFT, E1000_MANC,
    E1000_MANC2H, E1000_MANC_ARP_EN, E1000_MANC_ASF_EN, E1000_MANC_EN_MNG2HOST,
    E1000_MANC_RCV_TCO_EN, E1000_MANC_SMBUS_EN, E1000_MTA, E1000_RCTL, E1000_RCTL_MPE,
    E1000_RCTL_SBP, E1000_RCTL_UPE, E1000_REVISION_2, E1000_WUC, E1000_WUC_APME, E1000_WUFC_MAG,
    E1000_WUFC_MC, EM_EEPROM_APME, EM_MAX_SCATTER, EM_TSO_SEG_SIZE, ETHER_VLAN_HEADER_LEN,
    IFCAP_HWCSUM, IFCAP_TSO4, IFCAP_VLAN_HWCSUM, IFCAP_VLAN_HWFILTER, IFCAP_VLAN_HWTAGGING,
    IFCAP_VLAN_HWTSO, IFCAP_VLAN_MTU, IFCAP_WOL_MAGIC, IFCAP_WOL_MCAST, IFCAP_WOL_UCAST,
    IFF_ALLMULTI, IFF_PROMISC, IFM_1000_T, IFM_100_TX, IFM_10_T, IFM_AUTO, IFM_ETHER, IFM_FDX,
    IP_MAXPACKET, MAX_NUM_MULTICAST_ADDRESSES, NVM_INIT_CONTROL3_PORT_A, PCIR_COMMAND,
    PCIR_REVID, PCIR_SUBDEV_0, PCIR_SUBVEND_0,
};
use crate::e8254x::{init_hw, mac_from_words, read_mac_addr, reset_hw, reset_ops_8254x};
use crate::hw::{
    BusInfo, Hardware, IGB_MAC_MIN_RANK, MacAddrFn, MacInfo, MacType, MediaType, MngMode,
    PhyType, mac_rank, mng_mode_value,
};
use crate::iflib::{IfMedia, IfNet};
use crate::mac::{mc_hash_ok, mta_build, update_mc_addr_list_generic, with_mta_shadow, zero_words};
use crate::nvm::{rar_bytes, read_mac_addr_generic};
use crate::platform::{IoOp, Platform, is_read_of, pci_value, read_value};

verus! {

// ------------------------------------------------------------ identification

/// The MAC type of a supported device id; `None` for any other device.
pub open spec fn mac_type_of_device(d: u16) -> Option<MacType> {
    if d == E1000_DEV_ID_82545EM_COPPER || d == E1000_DEV_ID_82545EM_FIBER {
        Some(MacType::Mac_82545)
    } else if d == E1000_DEV_ID_PCH_LPT_I217_LM || d == E1000_DEV_ID_PCH_LPT_I217_V || d
        == E1000_DEV_ID_PCH_LPTLP_I218_LM || d == E1000_DEV_ID_PCH_LPTLP_I218_V || d
        == E1000_DEV_ID_PCH_I218_LM2 || d == E1000_DEV_ID_PCH_I218_V2 || d
        == E1000_DEV_ID_PCH_I218_LM3 || d == E1000_DEV_ID_PCH_I218_V3 {
        Some(MacType::Mac_pch_lpt)
    } else if d == E1000_DEV_ID_PCH_SPT_I219_LM || d == E1000_DEV_ID_PCH_SPT_I219_V || d
        == E1000_DEV_ID_PCH_SPT_I219_LM2 || d == E1000_DEV_ID_PCH_SPT_I219_V2 || d
        == E1000_DEV_ID_PCH_LBG_I219_LM3 || d == E1000_DEV_ID_PCH_SPT_I219_LM4 || d
        == E1000_DEV_ID_PCH_SPT_I219_V4 || d == E1000_DEV_ID_PCH_SPT_I219_LM5 || d
        == E1000_DEV_ID_PCH_SPT_I219_V5 {
        Some(MacType::Mac_pch_spt)
    } else {
        None
    }
}

/// The MAC type of device `d` (`mac_type_of_device`).
fn mac_type_for(d: u16) -> (r: Option<MacType>)
    ensures
        r == mac_type_of_device(d),
{
    if d == E1000_DEV_ID_82545EM_COPPER || d == E1000_DEV_ID_82545EM_FIBER {
        Some(MacType::Mac_82545)
    } else if d == E1000_DEV_ID_PCH_LPT_I217_LM || d == E1000_DEV_ID_PCH_LPT_I217_V || d
        == E1000_DEV_ID_PCH_LPTLP_I218_LM || d == E1000_DEV_ID_PCH_LPTLP_I218_V || d
        == E1000_DEV_ID_PCH_I218_LM2 || d == E1000_DEV_ID_PCH_I218_V2 || d
        == E1000_DEV_ID_PCH_I218_LM3 || d == E1000_DEV_ID_PCH_I218_V3 {
        Some(MacType::Mac_pch_lpt)
    } else if d == E1000_DEV_ID_PCH_SPT_I219_LM || d == E1000_DEV_ID_PCH_SPT_I219_V || d
        == E1000_DEV_ID_PCH_SPT_I219_LM2 || d == E1000_DEV_ID_PCH_SPT_I219_V2 || d
        == E1000_DEV_ID_PCH_LBG_I219_LM3 || d == E1000_DEV_ID_PCH_SPT_I219_LM4 || d
        == E1000_DEV_ID_PCH_SPT_I219_V4 || d == E1000_DEV_ID_PCH_SPT_I219_LM5 || d
        == E1000_DEV_ID_PCH_SPT_I219_V5 {
        Some(MacType::Mac_pch_spt)
    } else {
        None
    }
}

/// Sets the MAC type to `t`.
#[verifier::spinoff_prover]
fn set_mac_type_to<P: Platform>(adapter: &mut Adapter<P>, t: MacType)
    ensures
        final(adapter).same_except_hw(old(adapter)),
        final(adapter).io_log@ == old(adapter).io_log@,
        final(adapter).hw == (Hardware {
            mac: MacInfo { mac_type: t, ..old(adapter).hw.mac },
            ..old(adapter).hw
        }),
{
    adapter.hw.mac.mac_type = t;
}

impl<P: Platform> Adapter<P> {
    /// Sets the MAC type from the device id (`mac_type_of_device`); refused,
    /// with nothing changed, for an unsupported device.
    #[verifier::spinoff_prover]
    pub fn set_mac_type(&mut self) -> (r: AdResult)
        ensures
            final(self).same_except_hw(old(self)),
            final(self).io_log@ == old(self).io_log@,
            r.is_ok() <==> mac_type_of_device(old(self).hw.device_id) is Some,
            r.is_err() ==> final(self).hw == old(self).hw,
            r.is_ok() ==> final(self).hw == (Hardware {
                mac: MacInfo {
                    mac_type: mac_type_of_device(old(self).hw.device_id)->0,
                    ..old(self).hw.mac
                },
                ..old(self).hw
            }),
    {
        let t = mac_type_for(self.hw.device_id);
        if t.is_none() {
            return Err("Hardware not supported".to_string());
        }
        set_mac_type_to(self, t.unwrap());
        Ok(())
    }
}

/// The identification fields of `hw` set from the PCI command word, vendor
/// and device ids, revision and subsystem ids.
pub open spec fn with_ids(
    hw: Hardware,
    cmd: u32,
    vendor: u32,
    device: u32,
    rev: u32,
    subven: u32,
    subdev: u32,
) -> Hardware {
    Hardware {
        bus: BusInfo { pci_cmd_word: cmd as u16, ..hw.bus },
        vendor_id: vendor as u16,
        device_id: device as u16,
        revision_id: rev as u8,
        subsystem_vendor_id: subven as u16,
        subsystem_device_id: subdev as u16,
        ..hw
    }
}

/// Stores the identification read from the bus.
fn store_ids(hw: &mut Hardware, cmd: u32, vendor: u32, device: u32, rev: u32, subven: u32, subdev: u32)
    ensures
        *final(hw) == with_ids(*old(hw), cmd, vendor, device, rev, subven, subdev),
{
    hw.bus.pci_cmd_word = cmd as u16;
    hw.vendor_id = vendor as u16;
    hw.device_id = device as u16;
    hw.revision_id = rev as u8;
    hw.subsystem_vendor_id = subven as u16;
    hw.subsystem_device_id = subdev as u16;
}

impl<P: Platform> Adapter<P> {
    /// Reads the PCI command word, the vendor and device ids, the revision
    /// and the subsystem ids from the bus, in that order, stores them, and
    /// sets the MAC type from the device id.
    #[verifier::spinoff_prover]
    pub fn identify_hardware(&mut self) -> (r: AdResult)
        ensures
            final(self).same_except_hw(old(self)),
            ({
                let o = old(self).io_log@.len() as int;
                let l = final(self).io_log@;
                let ids = with_ids(
                    old(self).hw,
                    pci_value(l[o + 0]),
                    pci_value(l[o + 1]),
                    pci_value(l[o + 2]),
                    pci_value(l[o + 3]),
                    pci_value(l[o + 4]),
                    pci_value(l[o + 5]),
                );
                &&& final(self).logged(
                    old(self),
                    seq![
                        IoOp::PciRead { reg: PCIR_COMMAND, width: 2, value: pci_value(l[o + 0]) },
                        IoOp::VendorId { value: pci_value(l[o + 1]) },
                        IoOp::DeviceId { value: pci_value(l[o + 2]) },
                        IoOp::PciRead { reg: PCIR_REVID, width: 1, value: pci_value(l[o + 3]) },
                        IoOp::PciRead { reg: PCIR_SUBVEND_0, width: 2, value: pci_value(l[o + 4]) },
                        IoOp::PciRead { reg: PCIR_SUBDEV_0, width: 2, value: pci_value(l[o + 5]) },
                    ],
                )
                &&& (r.is_ok() <==> mac_type_of_device(ids.device_id) is Some)
                &&& r.is_err() ==> final(self).hw == ids
                &&& r.is_ok() ==> final(self).hw == (Hardware {
                    mac: MacInfo { mac_type: mac_type_of_device(ids.device_id)->0, ..ids.mac },
                    ..ids
                })
            }),
    {
        let ghost s0 = *self;
        let cmd = self.pci_read_config(PCIR_COMMAND, 2);
        let vendor = self.pci_get_vendor();
        let device = self.pci_get_device();
        let rev = self.pci_read_config(PCIR_REVID, 1);
        let subven = self.pci_read_config(PCIR_SUBVEND_0, 2);
        let subdev = self.pci_read_config(PCIR_SUBDEV_0, 2);
        let ghost s1 = *self;
        store_ids(&mut self.hw, cmd, vendor, device, rev, subven, subdev);
        let ghost s2 = *self;
        proof {
            lemma_same_except_hw_trans(&s0, &s1, &s2);
        }
        let r = self.set_mac_type();
        proof {
            lemma_same_except_hw_trans(&s0, &s2, self);
        }
        r
    }

    /// Sets up the shared iflib context for the MAC type.
    pub fn setup_shared_context(&mut self) -> (r: AdResult)
        requires
            0 <= old(self).iflib_shared.isc_ntxd0 < 0x0800_0000,
            0 <= old(self).iflib_shared.isc_nrxd0 < 0x0800_0000,
        ensures
            *final(self) == (Adapter { iflib_shared: final(self).iflib_shared, ..*old(self) }),
            r.is_err() <==> (mac_rank(old(self).hw.mac.mac_type) >= IGB_MAC_MIN_RANK || mac_rank(
                old(self).hw.mac.mac_type,
            ) < 2),
    {
        let t = self.hw.mac.mac_type;
        self.iflib_shared.setup(t)
    }

    /// MSI-X vectors are only set up for the 82574, which this driver does
    /// not implement: refused there, nothing to do elsewhere.
    pub fn setup_msix(&mut self) -> (r: AdResult)
        ensures
            *final(self) == *old(self),
            r.is_err() <==> old(self).hw.mac.mac_type == MacType::Mac_82574,
    {
        if self.hw.mac.mac_type == MacType::Mac_82574 {
            Err("MSIX not implemented".to_string())
        } else {
            Ok(())
        }
    }
}

// ------------------------------------------------------------ manageability

/// Whether the management firmware passes traffic through: firmware is
/// present, TCO receive is enabled in `manc`, and either (with a firmware
/// semaphore register) clock gating is off in `factps` while `fwsm` selects
/// pass-through mode, or (without one, and not on the 82574/82583) SMBus is
/// enabled and ASF is not.
pub open spec fn mng_pass_thru(
    asf_present: bool,
    has_fwsm: bool,
    t: MacType,
    manc: u32,
    fwsm: u32,
    factps: u32,
) -> bool {
    &&& asf_present
    &&& manc & E1000_MANC_RCV_TCO_EN != 0
    &&& if has_fwsm {
        factps & E1000_FACTPS_MNGCG == 0 && fwsm & E1000_FWSM_MODE_MASK == (mng_mode_value(
            MngMode::Pt,
        ) << E1000_FWSM_MODE_SHIFT)
    } else if t == MacType::Mac_82574 || t == MacType::Mac_82583 {
        false
    } else {
        manc & E1000_MANC_SMBUS_EN > 0 && manc & E1000_MANC_ASF_EN == 0
    }
}

/// Decides whether management traffic passes through to the host. Reads
/// `MANC` when firmware is present, then `FWSM` and `FACTPS` when the
/// firmware semaphore exists and TCO receive is on.
pub fn enable_mng_pass_thru<P: Platform>(adapter: &mut Adapter<P>) -> (r: bool)
    ensures
        final(adapter).same_state(old(adapter)),
        ({
            let h = old(adapter).hw;
            let manc = final(adapter).read_at(old(adapter), 0);
            let fwsm = final(adapter).read_at(old(adapter), 1);
            let factps = final(adapter).read_at(old(adapter), 2);
            &&& !h.mac.asf_firmware_present ==> final(adapter).io_log@ == old(adapter).io_log@
            &&& h.mac.asf_firmware_present && (manc & E1000_MANC_RCV_TCO_EN == 0
                || !h.mac.has_fwsm) ==> final(adapter).logged(
                old(adapter),
                seq![IoOp::Read { reg: E1000_MANC, value: manc }],
            )
            &&& h.mac.asf_firmware_present && manc & E1000_MANC_RCV_TCO_EN != 0 && h.mac.has_fwsm
                ==> final(adapter).logged(
                old(adapter),
                seq![
                    IoOp::Read { reg: E1000_MANC, value: manc },
                    IoOp::Read { reg: E1000_FWSM, value: fwsm },
                    IoOp::Read { reg: E1000_FACTPS, value: factps },
                ],
            )
            &&& r == mng_pass_thru(
                h.mac.asf_firmware_present,
                h.mac.has_fwsm,
                h.mac.mac_type,
                manc,
                fwsm,
                factps,
            )
        }),
{
    if !adapter.hw.mac.asf_firmware_present {
        return false;
    }
    let manc: u32 = do_read_register(adapter, E1000_MANC);
    if manc & E1000_MANC_RCV_TCO_EN == 0 {
        return false;
    }
    if adapter.hw.mac.has_fwsm {
        let fwsm = do_read_register(adapter, E1000_FWSM);
        let factps = do_read_register(adapter, E1000_FACTPS);
        if factps & E1000_FACTPS_MNGCG == 0 && fwsm & E1000_FWSM_MODE_MASK == (2u32 << E1000_FWSM_MODE_SHIFT) {
            return true;
        }
    } else if adapter.hw.mac.mac_type == MacType::Mac_82574 || adapter.hw.mac.mac_type
        == MacType::Mac_82583 {
        // pass-through detection for these parts is not implemented
    } else if manc & E1000_MANC_SMBUS_EN > 0 && manc & E1000_MANC_ASF_EN == 0 {
        return true;
    }
    false
}

/// The mailbox is not implemented by this driver: reading a posted message
/// does nothing and succeeds.
pub fn read_posted<P: Platform>(adapter: &mut Adapter<P>, msg: &mut u32, size: u16, mbx_id: u16) -> (r: AdResult)
    ensures
        r.is_ok(),
        *final(adapter) == *old(adapter),
        *final(msg) == *old(msg),
{
    Ok(())
}

/// The mailbox is not implemented by this driver: posting a message does
/// nothing and succeeds.
pub fn write_posted<P: Platform>(adapter: &mut Adapter<P>, msg: &mut u32, size: u16, mbx_id: u16) -> (r: AdResult)
    ensures
        r.is_ok(),
        *final(adapter) == *old(adapter),
        *final(msg) == *old(msg),
{
    Ok(())
}

impl<P: Platform> Adapter<P> {
    /// With management present, lets management packets through to the
    /// host: reads `MANC2H` and `MANC`, writes `MANC2H` with ports 623 and
    /// 664 enabled, then `MANC` without ARP interception and with
    /// management-to-host on. Does nothing otherwise.
    pub fn init_manageability(&mut self)
        ensures
            final(self).same_state(old(self)),
            !old(self).has_manage ==> final(self).io_log@ == old(self).io_log@,
            old(self).has_manage ==> ({
                let manc2h = final(self).read_at(old(self), 0);
                let manc = final(self).read_at(old(self), 1);
                final(self).logged(
                    old(self),
                    seq![
                        IoOp::Read { reg: E1000_MANC2H, value: manc2h },
                        IoOp::Read { reg: E1000_MANC, value: manc },
                        IoOp::Write { reg: E1000_MANC2H, value: manc2h | 0x20 | 0x40 },
                        IoOp::Write {
                            reg: E1000_MANC,
                            value: manc & !E1000_MANC_ARP_EN | E1000_MANC_EN_MNG2HOST,
                        },
                    ],
                )
            }),
    {
        if self.has_manage {
            let mut manc2h: u32 = do_read_register(self, E1000_MANC2H);
            let mut manc: u32 = do_read_register(self, E1000_MANC);
            manc = manc & !E1000_MANC_ARP_EN;
            manc = manc | E1000_MANC_EN_MNG2HOST;
            manc2h = manc2h | (1u32 << 5u32);
            manc2h = manc2h | (1u32 << 6u32);
            proof {
                assert(1u32 << 5u32 == 0x20) by (bit_vector);
                assert(1u32 << 6u32 == 0x40) by (bit_vector);
            }
            do_write_register(self, E1000_MANC2H, manc2h);
            do_write_register(self, E1000_MANC, manc);
        }
    }

    /// Tells the firmware the driver is in control: sets the driver-loaded
    /// bit of `CTRL_EXT` (read, then write). Does nothing on a virtual
    /// function interface.
    pub fn get_hw_control(&mut self)
        requires
            old(self).vf_ifp == 0 ==> old(self).hw.mac.mac_type != MacType::Mac_82573,
        ensures
            final(self).same_state(old(self)),
            old(self).vf_ifp != 0 ==> final(self).io_log@ == old(self).io_log@,
            old(self).vf_ifp == 0 ==> final(self).logged(
                old(self),
                seq![
                    IoOp::Read { reg: E1000_CTRL_EXT, value: final(self).read_at(old(self), 0) },
                    IoOp::Write {
                        reg: E1000_CTRL_EXT,
                        value: final(self).read_at(old(self), 0) | E1000_CTRL_EXT_DRV_LOAD,
                    },
                ],
            ),
    {
        if self.vf_ifp != 0 {
            return;
        }
        let ctrl_ext = do_read_register(self, E1000_CTRL_EXT);
        do_write_register(self, E1000_CTRL_EXT, ctrl_ext | E1000_CTRL_EXT_DRV_LOAD);
    }

    /// ASPM is only disabled on the 82573, 82574 and 82583, which this
    /// driver does not support; on every other MAC there is nothing to do.
    pub fn disable_aspm(&mut self)
        requires
            old(self).hw.mac.mac_type != MacType::Mac_82573 && old(self).hw.mac.mac_type
                != MacType::Mac_82574 && old(self).hw.mac.mac_type != MacType::Mac_82583,
        ensures
            *final(self) == *old(self),
    {
    }

    /// Hardware VLAN filtering is not implemented: nothing is changed, with
    /// or without registered VLANs.
    pub fn setup_vlan_hw_support(&mut self)
        ensures
            *final(self) == *old(self),
    {
    }

    /// Statistics are published through sysctl by the glue: nothing to do
    /// here.
    pub fn add_hw_stats(&mut self)
        ensures
            *final(self) == *old(self),
    {
    }
}

// ------------------------------------------------------------ promiscuity

/// The receive control value with promiscuity turned off: unicast
/// promiscuity and bad-packet storage cleared, multicast promiscuity
/// cleared unless all multicast is wanted or the joined groups fill the
/// table.
pub open spec fn promisc_off(rctl: u32, flags: u32, naddrs: nat) -> u32 {
    let r1 = rctl & !E1000_RCTL_UPE;
    let mcnt: int = if flags & IFF_ALLMULTI != 0 {
        MAX_NUM_MULTICAST_ADDRESSES as int
    } else if naddrs < MAX_NUM_MULTICAST_ADDRESSES {
        naddrs as int
    } else {
        MAX_NUM_MULTICAST_ADDRESSES as int
    };
    let r2 = if mcnt < MAX_NUM_MULTICAST_ADDRESSES {
        r1 & !E1000_RCTL_MPE
    } else {
        r1
    };
    r2 & !E1000_RCTL_SBP
}

impl<P: Platform> Adapter<P> {
    /// Turns promiscuous reception off: reads `RCTL` and writes it back as
    /// `promisc_off` makes it.
    pub fn disable_promisc(&mut self) -> (r: AdResult)
        ensures
            r.is_ok(),
            final(self).same_state(old(self)),
            final(self).logged(
                old(self),
                seq![
                    IoOp::Read { reg: E1000_RCTL, value: final(self).read_at(old(self), 0) },
                    IoOp::Write {
                        reg: E1000_RCTL,
                        value: promisc_off(
                            final(self).read_at(old(self), 0),
                            old(self).ifnet.flags,
                            old(self).ifnet.multiaddrs@.len(),
                        ),
                    },
                ],
            ),
    {
        let mut reg_rctl: u32 = do_read_register(self, E1000_RCTL);
        reg_rctl = reg_rctl & !E1000_RCTL_UPE;
        let mcnt: u32 = if self.ifnet.flags() & IFF_ALLMULTI != 0 {
            MAX_NUM_MULTICAST_ADDRESSES
        } else {
            self.ifnet.multiaddr_count(MAX_NUM_MULTICAST_ADDRESSES)
        };
        if mcnt < MAX_NUM_MULTICAST_ADDRESSES {
            reg_rctl = reg_rctl & !E1000_RCTL_MPE;
        }
        reg_rctl = reg_rctl & !E1000_RCTL_SBP;
        do_write_register(self, E1000_RCTL, reg_rctl);
        Ok(())
    }

    /// Sets the receive filter for `flags`: turns promiscuity off, reads
    /// `RCTL` again, and with `IFF_PROMISC` writes it with unicast and
    /// multicast promiscuity on (all-multicast alone is not implemented and
    /// writes nothing).
    pub fn set_promisc(&mut self, flags: u32) -> (r: AdResult)
        ensures
            r.is_ok(),
            final(self).same_state(old(self)),
            ({
                let v0 = final(self).read_at(old(self), 0);
                let v2 = final(self).read_at(old(self), 2);
                let head = seq![
                    IoOp::Read { reg: E1000_RCTL, value: v0 },
                    IoOp::Write {
                        reg: E1000_RCTL,
                        value: promisc_off(v0, old(self).ifnet.flags, old(self).ifnet.multiaddrs@.len()),
                    },
                    IoOp::Read { reg: E1000_RCTL, value: v2 },
                ];
                final(self).logged(
                    old(self),
                    if flags & IFF_PROMISC != 0 {
                        head.push(IoOp::Write {
                            reg: E1000_RCTL,
                            value: v2 | E1000_RCTL_UPE | E1000_RCTL_MPE,
                        })
                    } else {
                        head
                    },
                )
            }),
    {
        let ghost s0 = *self;
        let _ = self.disable_promisc();
        let ghost s1 = *self;
        let mut reg_rctl: u32 = do_read_register(self, E1000_RCTL);
        if flags & IFF_PROMISC != 0 {
            reg_rctl = reg_rctl | E1000_RCTL_UPE | E1000_RCTL_MPE;
            do_write_register(self, E1000_RCTL, reg_rctl);
        }
        proof {
            assert(self.read_at(&s0, 0) == s1.read_at(&s0, 0));
        }
        Ok(())
    }
}

// ------------------------------------------------------------ addresses

/// A usable station address: not a group address (low bit of the first
/// byte clear) and not all zeros.
pub open spec fn valid_ether_addr(a: Seq<u8>) -> bool {
    a[0] & 1 == 0 && a != seq![0u8, 0u8, 0u8, 0u8, 0u8, 0u8]
}

/// Accepts `addr` when it is a usable station address
/// (`valid_ether_addr`), refuses it otherwise.
pub fn is_valid_ether_addr(addr: &[u8]) -> (r: AdResult)
    requires
        addr@.len() >= 1,
    ensures
        r.is_ok() <==> valid_ether_addr(addr@),
{
    if addr[0] & 1 > 0 {
        return Err("Ether address is not valid".to_string());
    }
    if addr.len() == 6 && addr[0] == 0 && addr[1] == 0 && addr[2] == 0 && addr[3] == 0 && addr[4]
        == 0 && addr[5] == 0 {
        proof {
            assert(addr@ =~= seq![0u8, 0u8, 0u8, 0u8, 0u8, 0u8]);
        }
        return Err("Ether address is not valid".to_string());
    }
    proof {
        if addr@ == seq![0u8, 0u8, 0u8, 0u8, 0u8, 0u8] {
            assert(addr@[1] == 0 && addr@[2] == 0 && addr@[3] == 0 && addr@[4] == 0 && addr@[5]
                == 0);
        }
    }
    Ok(())
}

// ------------------------------------------------------------ MAC dispatch

impl<P: Platform> Adapter<P> {
    /// Resets the MAC with the installed routine (`reset_ops_8254x`);
    /// refused, with nothing done, when none is installed.
    pub fn mac_reset_hw(&mut self) -> (r: AdResult)
        ensures
            final(self).same_state(old(self)),
            !old(self).hw.mac.ops.reset_hw ==> r.is_err() && final(self).io_log@ == old(
                self,
            ).io_log@,
            old(self).hw.mac.ops.reset_hw ==> r.is_ok() && final(self).logged(
                old(self),
                reset_ops_8254x(
                    old(self).hw.mac.mac_type,
                    final(self).read_at(old(self), 3),
                    final(self).read_at(old(self), 5),
                    final(self).read_at(old(self), 8),
                    final(self).read_at(old(self), 11),
                ),
            ),
    {
        if self.hw.mac.ops.reset_hw {
            reset_hw(self)
        } else {
            Err("No function".to_string())
        }
    }

    /// Initialises the MAC with the installed routine (`init_hw`); refused,
    /// with nothing done, when none is installed.
    pub fn mac_init_hw(&mut self) -> (r: AdResult)
        ensures
            final(self).same_except_hw(old(self)),
            final(self).log_extends(old(self)),
            !old(self).hw.mac.ops.init_hw ==> r.is_err() && final(self).same_state(old(self))
                && final(self).io_log@ == old(self).io_log@,
            old(self).hw.mac.ops.init_hw && !old(self).hw.mac.ops.rar_set ==> r.is_err()
                && final(self).hw == old(self).hw,
            r.is_ok() ==> old(self).hw.mac.ops.init_hw && old(self).hw.mac.ops.rar_set,
    {
        if self.hw.mac.ops.init_hw {
            init_hw(self)
        } else {
            Err("No function".to_string())
        }
    }

    /// Reads the permanent MAC address with the installed routine (from
    /// the NVM, or from receive-address entry 0) and makes it the current
    /// address; refused, with nothing done, when none is installed.
    #[verifier::spinoff_prover]
    #[verifier::rlimit(100)]
    pub fn mac_read_mac_addr(&mut self) -> (r: AdResult)
        requires
            old(self).hw.nvm.ops.read ==> 1 <= old(self).hw.nvm.opcode_bits <= 16 && 1 <= old(
                self,
            ).hw.nvm.address_bits <= 16,
        ensures
            final(self).same_except_hw(old(self)),
            final(self).log_extends(old(self)),
            old(self).hw.mac.ops.read_mac_addr is None ==> r.is_err() && final(self).same_state(
                old(self),
            ) && final(self).io_log@ == old(self).io_log@,
            r.is_err() ==> final(self).same_state(old(self)),
            r.is_ok() ==> final(self).hw == (Hardware {
                mac: MacInfo {
                    perm_addr: final(self).hw.mac.perm_addr,
                    addr: final(self).hw.mac.perm_addr,
                    ..old(self).hw.mac
                },
                ..old(self).hw
            }),
            old(self).hw.mac.ops.read_mac_addr == Some(MacAddrFn::Generic) ==> r.is_ok()
                && final(self).hw.mac.perm_addr@ == rar_bytes(
                final(self).read_at(old(self), 1),
                final(self).read_at(old(self), 0),
            ),
            old(self).hw.mac.ops.read_mac_addr == Some(MacAddrFn::E82540) && r.is_ok() ==> exists|
                w0: u16,
                w1: u16,
                w2: u16,
            |
                final(self).hw.mac.perm_addr@ == #[trigger] mac_from_words(
                    w0,
                    w1,
                    w2,
                    old(self).hw.bus.func,
                ),
    {
        let which = self.hw.mac.ops.read_mac_addr;
        if which.is_none() {
            return Err("No function".to_string());
        }
        let generic = match which {
            Some(MacAddrFn::Generic) => true,
            _ => false,
        };
        if generic {
            read_mac_addr_generic(self)
        } else {
            read_mac_addr(self)
        }
    }


    /// Rebuilds and writes the multicast table from the first `count`
    /// addresses of the multicast array with the installed routine; does
    /// nothing when none is installed.
    pub fn update_mc_addr_list(&mut self, count: u32)
        requires
            old(self).hw.mac.ops.update_mc_addr_list ==> {
                &&& mc_hash_ok(old(self).hw.mac.mta_reg_count, old(self).hw.mac.mc_filter_type)
                &&& old(self).hw.mac.mta_reg_count <= old(self).hw.mac.mta_shadow@.len()
                &&& old(self).mta is Some ==> old(self).mta->0@.len() >= 6 * count
                &&& E1000_MTA + 4 * old(self).hw.mac.mta_reg_count <= u32::MAX
            },
        ensures
            final(self).same_except_hw(old(self)),
            final(self).log_extends(old(self)),
            !old(self).hw.mac.ops.update_mc_addr_list ==> final(self).same_state(old(self))
                && final(self).io_log@ == old(self).io_log@,
            old(self).hw.mac.ops.update_mc_addr_list ==> final(self).hw == with_mta_shadow(
                old(self).hw,
                final(self).hw.mac.mta_shadow,
            ),
            old(self).hw.mac.ops.update_mc_addr_list && old(self).mta is Some
                ==> final(self).hw.mac.mta_shadow@ == mta_build(
                zero_words(old(self).hw.mac.mta_shadow@.len()),
                old(self).mta->0@,
                count as nat,
                old(self).hw.mac.mta_reg_count,
                old(self).hw.mac.mc_filter_type,
            ),
    {
        if self.hw.mac.ops.update_mc_addr_list {
            let _ = update_mc_addr_list_generic(self, count);
        }
    }
}

/// Clears every byte of the multicast array.
fn clear_mta<P: Platform>(adapter: &mut Adapter<P>)
    requires
        old(adapter).mta is Some,
    ensures
        *final(adapter) == (Adapter { mta: final(adapter).mta, ..*old(adapter) }),
        final(adapter).mta is Some,
        final(adapter).mta->0@.len() == old(adapter).mta->0@.len(),
        forall|k: int| 0 <= k < final(adapter).mta->0@.len() ==> final(adapter).mta->0@[k] == 0,
{
    let mut m = adapter.mta.take().unwrap();
    let len = m.len();
    let mut i: usize = 0;
    while i < len
        invariant
            len == m@.len(),
            i <= len,
            forall|k: int| 0 <= k < i ==> m@[k] == 0,
        decreases len - i,
    {
        m.set(i, 0);
        i = i + 1;
    }
    adapter.mta = Some(m);
}

/// Copies the joined multicast groups (at most the table size) into the
/// multicast array, six bytes each; answers how many were copied.
fn copy_multiaddrs<P: Platform>(adapter: &mut Adapter<P>) -> (mcnt: u32)
    requires
        old(adapter).mta is Some,
        old(adapter).mta->0@.len() >= 6 * MAX_NUM_MULTICAST_ADDRESSES,
    ensures
        *final(adapter) == (Adapter { mta: final(adapter).mta, ..*old(adapter) }),
        final(adapter).mta is Some,
        mcnt == (if old(adapter).ifnet.multiaddrs@.len() < MAX_NUM_MULTICAST_ADDRESSES {
            old(adapter).ifnet.multiaddrs@.len() as u32
        } else {
            MAX_NUM_MULTICAST_ADDRESSES
        }),
        final(adapter).mta->0@.len() == old(adapter).mta->0@.len(),
        forall|i: int, j: int|
            #![trigger final(adapter).mta->0@[6 * i + j]]
            0 <= i < mcnt && 0 <= j < 6 ==> final(adapter).mta->0@[6 * i + j]
                == old(adapter).ifnet.multiaddrs@[i][j],
        forall|k: int|
            6 * mcnt <= k < final(adapter).mta->0@.len() ==> final(adapter).mta->0@[k] == old(
                adapter,
            ).mta->0@[k],
{
    let mut m = adapter.mta.take().unwrap();
    let mcnt = adapter.ifnet.multiaddr_array(&mut m, MAX_NUM_MULTICAST_ADDRESSES);
    adapter.mta = Some(m);
    mcnt
}

/// Turns on multicast promiscuity (read `RCTL`, write it back with `MPE`).
fn set_mpe<P: Platform>(adapter: &mut Adapter<P>)
    ensures
        final(adapter).same_state(old(adapter)),
        final(adapter).logged(
            old(adapter),
            seq![
                IoOp::Read { reg: E1000_RCTL, value: final(adapter).read_at(old(adapter), 0) },
                IoOp::Write {
                    reg: E1000_RCTL,
                    value: final(adapter).read_at(old(adapter), 0) | E1000_RCTL_MPE,
                },
            ],
        ),
{
    let mut reg_rctl: u32 = do_read_register(adapter, E1000_RCTL);
    reg_rctl = reg_rctl | E1000_RCTL_MPE;
    do_write_register(adapter, E1000_RCTL, reg_rctl);
}

/// Fills the cleared multicast array from the joined groups, then turns
/// multicast promiscuity on when they fill the table, or rebuilds the
/// multicast table from them.
#[verifier::spinoff_prover]
#[verifier::rlimit(50)]
fn multi_fill<P: Platform>(adapter: &mut Adapter<P>)
    requires
        old(adapter).mta is Some,
        old(adapter).mta->0@.len() >= 6 * MAX_NUM_MULTICAST_ADDRESSES,
        forall|k: int| 0 <= k < old(adapter).mta->0@.len() ==> old(adapter).mta->0@[k] == 0,
        old(adapter).hw.mac.ops.update_mc_addr_list ==> {
            &&& mc_hash_ok(old(adapter).hw.mac.mta_reg_count, old(adapter).hw.mac.mc_filter_type)
            &&& old(adapter).hw.mac.mta_reg_count <= old(adapter).hw.mac.mta_shadow@.len()
            &&& E1000_MTA + 4 * old(adapter).hw.mac.mta_reg_count <= u32::MAX
        },
    ensures
        final(adapter).log_extends(old(adapter)),
        final(adapter).mta is Some,
        final(adapter).mta->0@.len() == old(adapter).mta->0@.len(),
        *final(adapter) == (Adapter {
            plat: final(adapter).plat,
            io_log: final(adapter).io_log,
            hw: final(adapter).hw,
            mta: final(adapter).mta,
            ..*old(adapter)
        }),
        ({
            let n = old(adapter).ifnet.multiaddrs@.len();
            let mcnt: nat = if n < MAX_NUM_MULTICAST_ADDRESSES {
                n
            } else {
                MAX_NUM_MULTICAST_ADDRESSES as nat
            };
            &&& forall|i: int, j: int|
                #![trigger final(adapter).mta->0@[6 * i + j]]
                0 <= i < mcnt && 0 <= j < 6 ==> final(adapter).mta->0@[6 * i + j]
                    == old(adapter).ifnet.multiaddrs@[i][j]
            &&& forall|k: int|
                6 * mcnt <= k < final(adapter).mta->0@.len() ==> final(adapter).mta->0@[k] == 0
            &&& mcnt >= MAX_NUM_MULTICAST_ADDRESSES ==> final(adapter).hw == old(adapter).hw
                && final(adapter).logged(
                old(adapter),
                seq![
                    IoOp::Read { reg: E1000_RCTL, value: final(adapter).read_at(old(adapter), 0) },
                    IoOp::Write {
                        reg: E1000_RCTL,
                        value: final(adapter).read_at(old(adapter), 0) | E1000_RCTL_MPE,
                    },
                ],
            )
            &&& mcnt < MAX_NUM_MULTICAST_ADDRESSES && !old(adapter).hw.mac.ops.update_mc_addr_list
                ==> final(adapter).hw == old(adapter).hw && final(adapter).io_log@ == old(adapter).io_log@
            &&& mcnt < MAX_NUM_MULTICAST_ADDRESSES && old(adapter).hw.mac.ops.update_mc_addr_list
                ==> final(adapter).hw == with_mta_shadow(old(adapter).hw, final(adapter).hw.mac.mta_shadow)
                && final(adapter).hw.mac.mta_shadow@ == mta_build(
                zero_words(old(adapter).hw.mac.mta_shadow@.len()),
                final(adapter).mta->0@,
                mcnt,
                old(adapter).hw.mac.mta_reg_count,
                old(adapter).hw.mac.mc_filter_type,
            )
        }),
{
    let mcnt = copy_multiaddrs(adapter);
    if mcnt >= MAX_NUM_MULTICAST_ADDRESSES {
        set_mpe(adapter);
    } else {
        adapter.update_mc_addr_list(mcnt);
    }
}

impl<P: Platform> Adapter<P> {
    /// Programs the multicast filter from the joined groups: clears the
    /// multicast array (refusing the 82542 rev 2 then), copies the groups
    /// into it, and either turns multicast promiscuity on when the groups
    /// fill the table or rebuilds the multicast table from them.
    #[verifier::spinoff_prover]
    #[verifier::rlimit(50)]
    pub fn multi_set(&mut self) -> (r: AdResult)
        requires
            old(self).mta is Some,
            old(self).mta->0@.len() >= 6 * MAX_NUM_MULTICAST_ADDRESSES,
            old(self).hw.mac.ops.update_mc_addr_list ==> {
                &&& mc_hash_ok(old(self).hw.mac.mta_reg_count, old(self).hw.mac.mc_filter_type)
                &&& old(self).hw.mac.mta_reg_count <= old(self).hw.mac.mta_shadow@.len()
                &&& E1000_MTA + 4 * old(self).hw.mac.mta_reg_count <= u32::MAX
            },
        ensures
            final(self).log_extends(old(self)),
            final(self).mta is Some,
            final(self).mta->0@.len() == old(self).mta->0@.len(),
            *final(self) == (Adapter {
                plat: final(self).plat,
                io_log: final(self).io_log,
                hw: final(self).hw,
                mta: final(self).mta,
                ..*old(self)
            }),
            ({
                let n = old(self).ifnet.multiaddrs@.len();
                let mcnt: nat = if n < MAX_NUM_MULTICAST_ADDRESSES {
                    n
                } else {
                    MAX_NUM_MULTICAST_ADDRESSES as nat
                };
                let refused = old(self).hw.mac.mac_type == MacType::Mac_82542
                    && old(self).hw.revision_id == E1000_REVISION_2;
                &&& r.is_err() <==> refused
                &&& refused ==> final(self).hw == old(self).hw && final(self).io_log@ == old(
                    self,
                ).io_log@ && forall|k: int|
                    0 <= k < final(self).mta->0@.len() ==> final(self).mta->0@[k] == 0
                &&& !refused ==> (forall|i: int, j: int|
                    #![trigger final(self).mta->0@[6 * i + j]]
                    0 <= i < mcnt && 0 <= j < 6 ==> final(self).mta->0@[6 * i + j]
                        == old(self).ifnet.multiaddrs@[i][j])
                &&& !refused ==> (forall|k: int|
                    6 * mcnt <= k < final(self).mta->0@.len() ==> final(self).mta->0@[k] == 0)
                &&& !refused && mcnt >= MAX_NUM_MULTICAST_ADDRESSES ==> final(self).hw == old(
                    self,
                ).hw && final(self).logged(
                    old(self),
                    seq![
                        IoOp::Read { reg: E1000_RCTL, value: final(self).read_at(old(self), 0) },
                        IoOp::Write {
                            reg: E1000_RCTL,
                            value: final(self).read_at(old(self), 0) | E1000_RCTL_MPE,
                        },
                    ],
                )
                &&& !refused && mcnt < MAX_NUM_MULTICAST_ADDRESSES
                    && !old(self).hw.mac.ops.update_mc_addr_list ==> final(self).hw == old(self).hw
                    && final(self).io_log@ == old(self).io_log@
                &&& !refused && mcnt < MAX_NUM_MULTICAST_ADDRESSES
                    && old(self).hw.mac.ops.update_mc_addr_list ==> final(self).hw
                    == with_mta_shadow(old(self).hw, final(self).hw.mac.mta_shadow)
                    && final(self).hw.mac.mta_shadow@ == mta_build(
                    zero_words(old(self).hw.mac.mta_shadow@.len()),
                    final(self).mta->0@,
                    mcnt,
                    old(self).hw.mac.mta_reg_count,
                    old(self).hw.mac.mc_filter_type,
                )
            }),
    {
        clear_mta(self);
        if self.hw.mac.mac_type == MacType::Mac_82542 && self.hw.revision_id == E1000_REVISION_2 {
            return Err("Unsupported hardware".to_string());
        }
        multi_fill(self);
        Ok(())
    }
}

// ------------------------------------------------------------ wake-up

/// The device ids whose wake-up settings this driver does not handle.
pub open spec fn wakeup_unhandled(d: u32) -> bool {
    d == E1000_DEV_ID_82546GB_PCIE as u32 || d == E1000_DEV_ID_82546EB_FIBER as u32 || d
        == E1000_DEV_ID_82546GB_FIBER as u32 || d == E1000_DEV_ID_82546GB_QUAD_COPPER_KSP3 as u32
        || d == E1000_DEV_ID_82571EB_FIBER as u32 || d == E1000_DEV_ID_82571EB_QUAD_COPPER as u32
        || d == E1000_DEV_ID_82571EB_QUAD_FIBER as u32 || d
        == E1000_DEV_ID_82571EB_QUAD_COPPER_LP as u32
}

/// Whether device id `d` is one of `wakeup_unhandled`.
fn is_wakeup_unhandled(d: u32) -> (r: bool)
    ensures
        r == wakeup_unhandled(d),
{
    d == E1000_DEV_ID_82546GB_PCIE as u32 || d == E1000_DEV_ID_82546EB_FIBER as u32 || d
        == E1000_DEV_ID_82546GB_FIBER as u32 || d == E1000_DEV_ID_82546GB_QUAD_COPPER_KSP3 as u32
        || d == E1000_DEV_ID_82571EB_FIBER as u32 || d == E1000_DEV_ID_82571EB_QUAD_COPPER as u32
        || d == E1000_DEV_ID_82571EB_QUAD_FIBER as u32 || d
        == E1000_DEV_ID_82571EB_QUAD_COPPER_LP as u32
}

/// Records the management, AMT and wake-on-LAN settings.
fn set_wakeup_fields<P: Platform>(adapter: &mut Adapter<P>, has_manage: bool, has_amt: bool, wol: u32)
    ensures
        *final(adapter) == (Adapter { has_manage, has_amt, wol, ..*old(adapter) }),
{
    adapter.has_manage = has_manage;
    adapter.has_amt = has_amt;
    adapter.wol = wol;
}

/// The wake-on-LAN setting from the APME bit: magic packet and multicast
/// when `data` has a bit of `mask`, `wol` unchanged otherwise.
pub open spec fn wol_from(data: u16, mask: u32, wol: u32) -> u32 {
    if data & (mask as u16) > 0 {
        E1000_WUFC_MAG | E1000_WUFC_MC
    } else {
        wol
    }
}

impl<P: Platform> Adapter<P> {
    /// Gathers the wake-up and management settings: whether management
    /// passes traffic through (`enable_mng_pass_thru`), then the APME bit,
    /// from the NVM on the 82545 or from `WUC` on the LPT/SPT PCH parts
    /// (which also have AMT), which turns on magic-packet and multicast
    /// wake-up. Refused for other MAC types, when the NVM read fails, and
    /// for the devices of `wakeup_unhandled` (by the device id the bus
    /// reports last).
    #[verifier::spinoff_prover]
    #[verifier::rlimit(50)]
    pub fn get_wakeup(&mut self) -> (r: AdResult)
        requires
            old(self).hw.nvm.ops.read ==> 1 <= old(self).hw.nvm.opcode_bits <= 16 && 1 <= old(
                self,
            ).hw.nvm.address_bits <= 16,
        ensures
            final(self).same_state(
                &Adapter {
                    has_manage: final(self).has_manage,
                    has_amt: final(self).has_amt,
                    wol: final(self).wol,
                    ..*old(self)
                },
            ),
            final(self).log_extends(old(self)),
            final(self).has_manage ==> old(self).hw.mac.asf_firmware_present,
            ({
                let t = old(self).hw.mac.mac_type;
                let l = final(self).io_log@;
                let pch = t == MacType::Mac_pch_lpt || t == MacType::Mac_pch_spt;
                &&& t != MacType::Mac_82545 && !pch ==> r.is_err()
                &&& pch ==> final(self).has_amt && (r.is_ok() <==> !wakeup_unhandled(
                    pci_value(l.last()),
                )) && l.len() >= old(self).io_log@.len() + 2 && is_read_of(l[l.len() - 2], E1000_WUC)
                    && l.last() == (IoOp::DeviceId { value: pci_value(l.last()) })
                    && final(self).wol == wol_from(
                    read_value(l[l.len() - 2]) as u16,
                    E1000_WUC_APME,
                    old(self).wol,
                )
                &&& t == MacType::Mac_82545 ==> final(self).has_amt == old(self).has_amt && (
                final(self).wol == old(self).wol || final(self).wol == (E1000_WUFC_MAG
                    | E1000_WUFC_MC))
                &&& t == MacType::Mac_82545 && r.is_ok() ==> l.len() > old(self).io_log@.len()
                    && l.last() == (IoOp::DeviceId { value: pci_value(l.last()) })
                    && !wakeup_unhandled(pci_value(l.last()))
            }),
    {
        let ghost s0 = *self;
        let has_manage = enable_mng_pass_thru(self);
        let mut has_amt = self.has_amt;
        let mut wol = self.wol;
        let mut apme_mask: u32 = EM_EEPROM_APME;
        let mut eeprom_data: [u16; 1] = [0u16; 1];
        if self.hw.mac.mac_type == MacType::Mac_82545 {
            let res = self.nvm_read(NVM_INIT_CONTROL3_PORT_A, 1, &mut eeprom_data);
            if res.is_err() {
                set_wakeup_fields(self, has_manage, has_amt, wol);
                return res;
            }
        } else if self.hw.mac.mac_type == MacType::Mac_pch_lpt || self.hw.mac.mac_type
            == MacType::Mac_pch_spt {
            apme_mask = E1000_WUC_APME;
            has_amt = true;
            let wuc = do_read_register(self, E1000_WUC);
            eeprom_data[0] = wuc as u16;
        } else {
            set_wakeup_fields(self, has_manage, has_amt, wol);
            return Err("Unsupported hardware".to_string());
        }
        if eeprom_data[0] & apme_mask as u16 > 0 {
            wol = E1000_WUFC_MAG | E1000_WUFC_MC;
        }
        let dev_id = self.pci_get_device();
        set_wakeup_fields(self, has_manage, has_amt, wol);
        if is_wakeup_unhandled(dev_id) {
            return Err("Unsupported hardware".to_string());
        }
        Ok(())
    }
}

// ------------------------------------------------------------ interface

/// The media words of a copper adapter, in the order they are announced:
/// 10 and 100 Mb/s (half, then full duplex), 1000 Mb/s full then half
/// unless the PHY is an IFE, and autoselect.
pub open spec fn copper_media(t: PhyType) -> Seq<(i32, i32)> {
    let base = seq![
        ((IFM_ETHER | IFM_10_T) as i32, 0i32),
        ((IFM_ETHER | IFM_10_T | IFM_FDX) as i32, 0i32),
        ((IFM_ETHER | IFM_100_TX) as i32, 0i32),
        ((IFM_ETHER | IFM_100_TX | IFM_FDX) as i32, 0i32),
    ];
    let gig = if t != PhyType::Type_ife {
        seq![((IFM_ETHER | IFM_1000_T | IFM_FDX) as i32, 0i32), ((IFM_ETHER | IFM_1000_T) as i32, 0i32)]
    } else {
        Seq::<(i32, i32)>::empty()
    };
    base + gig + seq![((IFM_ETHER | IFM_AUTO) as i32, 0i32)]
}

/// The capabilities announced for the interface: checksum offload (plain
/// and on VLANs), TSO, VLAN tagging, VLAN TSO, VLAN MTU.
pub open spec fn em_if_caps() -> u32 {
    IFCAP_HWCSUM | IFCAP_VLAN_HWCSUM | IFCAP_TSO4 | IFCAP_VLAN_HWTAGGING | IFCAP_VLAN_HWTSO
        | IFCAP_VLAN_MTU
}

/// The interface as `setup_interface` configures it.
pub open spec fn configured_ifnet(i: IfNet, single_queue: bool, ntxd: i32, wol: u32) -> IfNet {
    let caps = (i.capabilities | em_if_caps()) | IFCAP_VLAN_HWFILTER;
    let capenable = if wol > 0 {
        (i.capenable | IFCAP_WOL_MAGIC) & !(IFCAP_WOL_MCAST | IFCAP_WOL_UCAST)
    } else {
        i.capenable & !(IFCAP_WOL_MAGIC | IFCAP_WOL_MCAST | IFCAP_WOL_UCAST)
    };
    IfNet {
        hwtsomax: IP_MAXPACKET,
        hwtsomaxsegcount: (EM_MAX_SCATTER - 5) as u32,
        hwtsomaxsegsize: EM_TSO_SEG_SIZE,
        sendqlen: if single_queue {
            (ntxd - 1) as i32
        } else {
            i.sendqlen
        },
        sendqready: if single_queue {
            true
        } else {
            i.sendqready
        },
        ifheaderlen: ETHER_VLAN_HEADER_LEN as i32,
        capabilities: caps,
        capenable,
        ..i
    }
}

/// Configures the network interface (TSO limits, send queue, capabilities,
/// wake-on-LAN).
fn configure_ifnet(i: &mut IfNet, single_queue: bool, ntxd: i32, wol: u32)
    requires
        single_queue ==> ntxd > i32::MIN,
    ensures
        *final(i) == configured_ifnet(*old(i), single_queue, ntxd, wol),
{
    i.set_hwtsomax(IP_MAXPACKET);
    i.set_hwtsomax_segcount(EM_MAX_SCATTER - 5);
    i.set_hwtsomax_segsize(EM_TSO_SEG_SIZE);
    if single_queue {
        i.set_sendqlen(ntxd - 1);
        i.set_sendqready();
    }
    let cap: u32 = IFCAP_HWCSUM | IFCAP_VLAN_HWCSUM | IFCAP_TSO4 | IFCAP_VLAN_HWTAGGING
        | IFCAP_VLAN_HWTSO | IFCAP_VLAN_MTU;
    i.set_ifheaderlen(ETHER_VLAN_HEADER_LEN as i32);
    i.set_capabilitiesbit(cap, 0);
    i.set_capabilitiesbit(IFCAP_VLAN_HWFILTER, 0);
    if wol > 0 {
        i.set_capenablebit(IFCAP_WOL_MAGIC, IFCAP_WOL_MCAST | IFCAP_WOL_UCAST);
    } else {
        i.set_capenablebit(0, IFCAP_WOL_MAGIC | IFCAP_WOL_MCAST | IFCAP_WOL_UCAST);
    }
    proof {
        assert(forall|x: u32| #[trigger] (x & !0u32) == x) by (bit_vector);
        assert(forall|x: u32| #[trigger] (x | 0u32) == x) by (bit_vector);
    }
}

/// Announces the media of a copper adapter and selects autoselect.
fn add_copper_media(m: &mut IfMedia, t: PhyType)
    ensures
        final(m).entries@ == old(m).entries@ + copper_media(t),
        final(m).current == (IFM_ETHER | IFM_AUTO) as i32,
{
    m.add((IFM_ETHER | IFM_10_T) as i32, 0);
    m.add((IFM_ETHER | IFM_10_T | IFM_FDX) as i32, 0);
    m.add((IFM_ETHER | IFM_100_TX) as i32, 0);
    m.add((IFM_ETHER | IFM_100_TX | IFM_FDX) as i32, 0);
    if t != PhyType::Type_ife {
        m.add((IFM_ETHER | IFM_1000_T | IFM_FDX) as i32, 0);
        m.add((IFM_ETHER | IFM_1000_T) as i32, 0);
    }
    m.add((IFM_ETHER | IFM_AUTO) as i32, 0);
    m.set((IFM_ETHER | IFM_AUTO) as i32);
    proof {
        assert(final(m).entries@ =~= old(m).entries@ + copper_media(t));
    }
}

impl<P: Platform> Adapter<P> {
    /// Configures the network interface (`configured_ifnet`) and, for a
    /// copper adapter, announces its media (`copper_media`) and selects
    /// autoselect; refused for other media, after the interface is
    /// configured.
    pub fn setup_interface(&mut self) -> (r: AdResult)
        requires
            old(self).iflib_shared.isc_ntxqsets == 1 ==> old(self).iflib_shared.isc_ntxd0
                > i32::MIN,
        ensures
            r.is_ok() <==> old(self).hw.phy.media_type == MediaType::Copper,
            final(self).ifnet == configured_ifnet(
                old(self).ifnet,
                old(self).iflib_shared.isc_ntxqsets == 1,
                old(self).iflib_shared.isc_ntxd0,
                old(self).wol,
            ),
            r.is_err() ==> *final(self) == (Adapter { ifnet: final(self).ifnet, ..*old(self) }),
            r.is_ok() ==> *final(self) == (Adapter {
                ifnet: final(self).ifnet,
                ifmedia: final(self).ifmedia,
                ..*old(self)
            }),
            r.is_ok() ==> final(self).ifmedia.entries@ == old(self).ifmedia.entries@
                + copper_media(old(self).hw.phy.phy_type),
            r.is_ok() ==> final(self).ifmedia.current == (IFM_ETHER | IFM_AUTO) as i32,
    {
        let single = self.iflib_shared.isc_ntxqsets == 1;
        let ntxd = self.iflib_shared.isc_ntxd0;
        let wol = self.wol;
        configure_ifnet(&mut self.ifnet, single, ntxd, wol);
        if self.hw.phy.media_type != MediaType::Copper {
            return Err("Unsupported hardware".to_string());
        }
        let t = self.hw.phy.phy_type;
        add_copper_media(&mut self.ifmedia, t);
        Ok(())
    }
}

// ------------------------------------------------------------ registers

/// The offset at which the MAC of `hw` answers for register `reg`: the
/// same offset on the 82543 and later. The 82542, which lays some
/// registers out elsewhere, is not handled by this library.
pub fn register(hw: &Hardware, reg: u32) -> (r: u32)
    requires
        mac_rank(hw.mac.mac_type) >= 2,
    ensures
        r == reg,
{
    reg
}

} // verus!
