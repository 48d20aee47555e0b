//! Generic MAC routines: bus probing, LEDs, the multicast hash table,
//! receive addresses, link speed/duplex, flow control and the hardware
//! counters.
use vstd::prelude::*;
use crate::adapter::{
    AdResult, Adapter, do_msec_delay, do_read_register, do_usec_delay, do_write_flush,
    do_write_register, do_write_register_array,
};
use crate::consts::{
    AUTO_READ_DONE_TIMEOUT, E1000_BPRC, E1000_BPTC, E1000_COLC, E1000_COLD_SHIFT,
    E1000_COLLISION_DISTANCE, E1000_CRCERRS, E1000_CTRL, E1000_CTRL_GIO_MASTER_DISABLE,
    E1000_CTRL_RFCE, E1000_CTRL_TFCE, E1000_DC, E1000_ECOL, E1000_EECD, E1000_EECD_AUTO_RD,
    E1000_FCRTH, E1000_FCRTL, E1000_FCRTL_XONE, E1000_FCRUC, E1000_GCR, E1000_GORCH,
    E1000_GORCL, E1000_GOTCH, E1000_GOTCL, E1000_GPRC, E1000_GPTC, E1000_LATECOL, E1000_LEDCTL,
    E1000_LEDCTL_LED0_BLINK, E1000_LEDCTL_LED0_IVRT, E1000_LEDCTL_LED0_MODE_MASK,
    E1000_LEDCTL_MODE_LED_OFF, E1000_LEDCTL_MODE_LED_ON, E1000_MCC, E1000_MPC, E1000_MPRC,
    E1000_MPTC, E1000_MTA, E1000_RAH_AV, E1000_RFC, E1000_RJC, E1000_RLEC, E1000_RNBC,
    E1000_ROC, E1000_RUC, E1000_SCC, E1000_SEC, E1000_STATUS, E1000_STATUS_BUS64,
    E1000_STATUS_FD, E1000_STATUS_FUNC_MASK, E1000_STATUS_FUNC_SHIFT,
    E1000_STATUS_GIO_MASTER_ENABLE, E1000_STATUS_PCI66, E1000_STATUS_PCIX_MODE,
    E1000_STATUS_PCIX_SPEED, E1000_STATUS_PCIX_SPEED_100, E1000_STATUS_PCIX_SPEED_133,
    E1000_STATUS_PCIX_SPEED_66, E1000_STATUS_SPEED_10, E1000_STATUS_SPEED_100,
    E1000_STATUS_SPEED_1000, E1000_SYMERRS, E1000_TCTL, E1000_TCTL_COLD, E1000_TORH, E1000_TORL,
    E1000_TOTH, E1000_TOTL, E1000_TPR, E1000_TPT, E1000_VFTA, E1000_VLAN_FILTER_TBL_SIZE,
    E1000_XOFFRXC, E1000_XOFFTXC, E1000_XONRXC, E1000_XONTXC, FULL_DUPLEX, HALF_DUPLEX,
    ID_LED_DEF1_OFF2, ID_LED_DEF1_ON2, ID_LED_DEFAULT, ID_LED_OFF1_DEF2, ID_LED_OFF1_OFF2,
    ID_LED_OFF1_ON2, ID_LED_ON1_DEF2, ID_LED_ON1_OFF2, ID_LED_ON1_ON2, ID_LED_RESERVED_0000,
    ID_LED_RESERVED_FFFF, MASTER_DISABLE_TIMEOUT, NVM_ID_LED_SETTINGS, PCIE_LINK_SPEED_2500,
    PCIE_LINK_SPEED_5000, PCIE_LINK_SPEED_MASK, PCIE_LINK_STATUS, PCIE_LINK_WIDTH_MASK,
    PCIE_LINK_WIDTH_SHIFT, PCIE_NO_SNOOP_ALL, PCI_HEADER_TYPE_MULTIFUNC,
    PCI_HEADER_TYPE_REGISTER, SPEED_10, SPEED_100, SPEED_1000,
};
use crate::hw::{
    BusInfo, BusSpeed, BusType, BusWidth, FcInfo, FcMode, Hardware, LanIdFn, MacInfo, MediaType,
    fc_value,
};
use crate::nvm::{rar_bytes};
use crate::platform::{IoOp, Platform, is_read_of, read_value};
use crate::regs::{E1000_RAH, E1000_RAL};

verus! {

// ------------------------------------------------------------------ bus info

/// PCI or PCI-X, as told by the status register.
pub open spec fn pci_bus_type(status: u32) -> BusType {
    if status & E1000_STATUS_PCIX_MODE != 0 { BusType::Pcix } else { BusType::Pci }
}

/// Bus speed, as told by the status register.
pub open spec fn pci_bus_speed(status: u32) -> BusSpeed {
    if status & E1000_STATUS_PCIX_MODE == 0 {
        if status & E1000_STATUS_PCI66 == E1000_STATUS_PCI66 {
            BusSpeed::Speed_66
        } else {
            BusSpeed::Speed_33
        }
    } else if status & E1000_STATUS_PCIX_SPEED == E1000_STATUS_PCIX_SPEED_66 {
        BusSpeed::Speed_66
    } else if status & E1000_STATUS_PCIX_SPEED == E1000_STATUS_PCIX_SPEED_100 {
        BusSpeed::Speed_100
    } else if status & E1000_STATUS_PCIX_SPEED == E1000_STATUS_PCIX_SPEED_133 {
        BusSpeed::Speed_133
    } else {
        BusSpeed::Reserved
    }
}

/// Bus width, as told by the status register.
pub open spec fn pci_bus_width(status: u32) -> BusWidth {
    if status & E1000_STATUS_BUS64 != 0 { BusWidth::Width_64 } else { BusWidth::Width_32 }
}

/// PCIe link speed, as told by the link status register.
pub open spec fn pcie_bus_speed(link_status: u16) -> BusSpeed {
    if link_status & PCIE_LINK_SPEED_MASK == PCIE_LINK_SPEED_2500 {
        BusSpeed::Speed_2500
    } else if link_status & PCIE_LINK_SPEED_MASK == PCIE_LINK_SPEED_5000 {
        BusSpeed::Speed_5000
    } else {
        BusSpeed::Unknown
    }
}

/// PCIe link width, as told by the link status register.
pub open spec fn pcie_bus_width(link_status: u16) -> BusWidth {
    let w = (link_status & PCIE_LINK_WIDTH_MASK) >> PCIE_LINK_WIDTH_SHIFT;
    if w == 1 {
        BusWidth::Width_pcie_x1
    } else if w == 2 {
        BusWidth::Width_pcie_x2
    } else if w == 4 {
        BusWidth::Width_pcie_x4
    } else if w == 8 {
        BusWidth::Width_pcie_x8
    } else if w == 9 {
        BusWidth::Width_32
    } else if w == 10 {
        BusWidth::Width_64
    } else if w == 11 {
        BusWidth::Reserved
    } else {
        BusWidth::Unknown
    }
}

/// `new` differs from `old` at most in the bus function number.
pub open spec fn only_func_changed(new: Hardware, old: Hardware) -> bool {
    new == (Hardware { bus: BusInfo { func: new.bus.func, ..old.bus }, ..old })
}

/// Runs the installed "set LAN id" routine, if any.
pub fn set_lan_id<P: Platform>(adapter: &mut Adapter<P>)
    ensures
        final(adapter).same_except_hw(old(adapter)),
        final(adapter).log_extends(old(adapter)),
        only_func_changed(final(adapter).hw, old(adapter).hw),
        old(adapter).hw.mac.ops.set_lan_id == Some(LanIdFn::SinglePort) ==> final(adapter).hw.bus.func == 0,
        old(adapter).hw.mac.ops.set_lan_id == Some(LanIdFn::MultiPortPci) ==> {
            let hdr = read_value_pci(final(adapter).io_log@[old(adapter).io_log@.len() as int]);
            &&& final(adapter).io_log@[old(adapter).io_log@.len() as int] matches IoOp::PciRead {
                reg,
                width,
                ..
            } && reg == PCI_HEADER_TYPE_REGISTER && width == 2
            &&& final(adapter).hw.bus.func == (if (hdr as u16) & PCI_HEADER_TYPE_MULTIFUNC != 0 {
                ((final(adapter).read_at(old(adapter), 1) & E1000_STATUS_FUNC_MASK)
                    >> E1000_STATUS_FUNC_SHIFT) as u16
            } else {
                0
            })
        },
        (old(adapter).hw.mac.ops.set_lan_id is None || old(adapter).hw.mac.ops.set_lan_id
            == Some(LanIdFn::MultiPortPcie)) ==> final(adapter).io_log@ == old(adapter).io_log@
            && final(adapter).hw == old(adapter).hw,
{
    match adapter.hw.mac.ops.set_lan_id {
        Some(LanIdFn::MultiPortPci) => set_lan_id_multi_port_pci(adapter),
        Some(LanIdFn::MultiPortPcie) => set_lan_id_multi_port_pcie(adapter),
        Some(LanIdFn::SinglePort) => set_lan_id_single_port(adapter),
        None => {},
    }
}

/// The value a PCI configuration read returned (zero for other operations).
pub open spec fn read_value_pci(op: IoOp) -> u32 {
    match op {
        IoOp::PciRead { value, .. } => value,
        _ => 0,
    }
}

/// Probes a PCI/PCI-X bus: type, speed and width from the status register,
/// then the PCI function through the installed LAN-id routine.
pub fn get_bus_info_pci_generic<P: Platform>(adapter: &mut Adapter<P>) -> (r: AdResult)
    ensures
        r.is_ok(),
        final(adapter).same_except_hw(old(adapter)),
        final(adapter).log_extends(old(adapter)),
        is_read_of(final(adapter).io_log@[old(adapter).io_log@.len() as int], E1000_STATUS),
        ({
            let status = final(adapter).read_at(old(adapter), 0);
            &&& final(adapter).hw.bus.bustype == pci_bus_type(status)
            &&& final(adapter).hw.bus.speed == pci_bus_speed(status)
            &&& final(adapter).hw.bus.width == pci_bus_width(status)
        }),
        final(adapter).hw == (Hardware {
            bus: BusInfo {
                bustype: final(adapter).hw.bus.bustype,
                speed: final(adapter).hw.bus.speed,
                width: final(adapter).hw.bus.width,
                func: final(adapter).hw.bus.func,
                ..old(adapter).hw.bus
            },
            ..old(adapter).hw
        }),
{
    let status = do_read_register(adapter, E1000_STATUS);
    adapter.hw.bus.bustype = if status & E1000_STATUS_PCIX_MODE != 0 {
        BusType::Pcix
    } else {
        BusType::Pci
    };
    adapter.hw.bus.speed = match adapter.hw.bus.bustype {
        BusType::Pci => {
            if status & E1000_STATUS_PCI66 == E1000_STATUS_PCI66 {
                BusSpeed::Speed_66
            } else {
                BusSpeed::Speed_33
            }
        },
        _ => {
            let s = status & E1000_STATUS_PCIX_SPEED;
            if s == E1000_STATUS_PCIX_SPEED_66 {
                BusSpeed::Speed_66
            } else if s == E1000_STATUS_PCIX_SPEED_100 {
                BusSpeed::Speed_100
            } else if s == E1000_STATUS_PCIX_SPEED_133 {
                BusSpeed::Speed_133
            } else {
                BusSpeed::Reserved
            }
        },
    };
    adapter.hw.bus.width = if status & E1000_STATUS_BUS64 != 0 {
        BusWidth::Width_64
    } else {
        BusWidth::Width_32
    };
    let ghost mid = *adapter;
    set_lan_id(adapter);
    proof {
        assert(mid.io_log@[old(adapter).io_log@.len() as int] == adapter.io_log@[old(adapter).io_log@.len() as int]);
        assert(mid.io_log@.len() == old(adapter).io_log@.len() + 1);
    }
    Ok(())
}

/// Probes a PCI Express bus: speed and width from the link status register
/// of the PCIe capability, then the PCI function.
pub fn get_bus_info_pcie_generic<P: Platform>(adapter: &mut Adapter<P>) -> (r: AdResult)
    ensures
        r.is_ok(),
        final(adapter).same_except_hw(old(adapter)),
        final(adapter).log_extends(old(adapter)),
        final(adapter).io_log@[old(adapter).io_log@.len() as int] matches IoOp::PcieCapRead {
            reg,
            value,
        } && reg == PCIE_LINK_STATUS && final(adapter).hw.bus.speed == pcie_bus_speed(value)
            && final(adapter).hw.bus.width == pcie_bus_width(value),
        final(adapter).hw.bus.bustype == BusType::Pci_express,
        old(adapter).hw.mac.ops.set_lan_id == Some(LanIdFn::SinglePort) ==> final(adapter).hw.bus.func == 0,
        old(adapter).hw.mac.ops.set_lan_id is None || old(adapter).hw.mac.ops.set_lan_id == Some(
            LanIdFn::MultiPortPcie,
        ) ==> final(adapter).hw.bus.func == old(adapter).hw.bus.func && final(adapter).io_log@.len()
            == old(adapter).io_log@.len() + 1,
        old(adapter).hw.mac.ops.set_lan_id == Some(LanIdFn::MultiPortPci) ==> {
            let o = old(adapter).io_log@.len() as int;
            let hdr = read_value_pci(final(adapter).io_log@[o + 1]);
            &&& final(adapter).io_log@[o + 1] matches IoOp::PciRead { reg, width, .. } && reg
                == PCI_HEADER_TYPE_REGISTER && width == 2
            &&& final(adapter).hw.bus.func == (if (hdr as u16) & PCI_HEADER_TYPE_MULTIFUNC != 0 {
                ((read_value(final(adapter).io_log@[o + 2]) & E1000_STATUS_FUNC_MASK)
                    >> E1000_STATUS_FUNC_SHIFT) as u16
            } else {
                0
            })
        },
        final(adapter).hw == (Hardware {
            bus: BusInfo {
                bustype: BusType::Pci_express,
                speed: final(adapter).hw.bus.speed,
                width: final(adapter).hw.bus.width,
                func: final(adapter).hw.bus.func,
                ..old(adapter).hw.bus
            },
            ..old(adapter).hw
        }),
{
    adapter.hw.bus.bustype = BusType::Pci_express;
    let link = adapter.read_pcie_cap_reg(PCIE_LINK_STATUS);
    let sp = link & PCIE_LINK_SPEED_MASK;
    adapter.hw.bus.speed = if sp == PCIE_LINK_SPEED_2500 {
        BusSpeed::Speed_2500
    } else if sp == PCIE_LINK_SPEED_5000 {
        BusSpeed::Speed_5000
    } else {
        BusSpeed::Unknown
    };
    let w = (link & PCIE_LINK_WIDTH_MASK) >> PCIE_LINK_WIDTH_SHIFT;
    adapter.hw.bus.width = if w == 1 {
        BusWidth::Width_pcie_x1
    } else if w == 2 {
        BusWidth::Width_pcie_x2
    } else if w == 4 {
        BusWidth::Width_pcie_x4
    } else if w == 8 {
        BusWidth::Width_pcie_x8
    } else if w == 9 {
        BusWidth::Width_32
    } else if w == 10 {
        BusWidth::Width_64
    } else if w == 11 {
        BusWidth::Reserved
    } else {
        BusWidth::Unknown
    };
    let ghost mid = *adapter;
    set_lan_id(adapter);
    proof {
        assert(mid.io_log@[old(adapter).io_log@.len() as int] == adapter.io_log@[old(adapter).io_log@.len() as int]);
        assert(mid.io_log@.len() == old(adapter).io_log@.len() + 1);
    }
    Ok(())
}

/// Finds the PCI function of a multi-port PCI adapter from the status
/// register; single-function devices are function 0.
pub fn set_lan_id_multi_port_pci<P: Platform>(adapter: &mut Adapter<P>)
    ensures
        final(adapter).same_except_hw(old(adapter)),
        final(adapter).log_extends(old(adapter)),
        only_func_changed(final(adapter).hw, old(adapter).hw),
        ({
            let hdr = read_value_pci(final(adapter).io_log@[old(adapter).io_log@.len() as int]);
            &&& final(adapter).io_log@[old(adapter).io_log@.len() as int] matches IoOp::PciRead {
                reg,
                width,
                ..
            } && reg == PCI_HEADER_TYPE_REGISTER && width == 2
            &&& final(adapter).hw.bus.func == (if (hdr as u16) & PCI_HEADER_TYPE_MULTIFUNC != 0 {
                ((final(adapter).read_at(old(adapter), 1) & E1000_STATUS_FUNC_MASK)
                    >> E1000_STATUS_FUNC_SHIFT) as u16
            } else {
                0
            })
            &&& (hdr as u16) & PCI_HEADER_TYPE_MULTIFUNC != 0 ==> is_read_of(
                final(adapter).io_log@[old(adapter).io_log@.len() + 1int],
                E1000_STATUS,
            )
        }),
{
    let hdr = adapter.pci_read_config(PCI_HEADER_TYPE_REGISTER, 2) as u16;
    if hdr & PCI_HEADER_TYPE_MULTIFUNC != 0 {
        let status = do_read_register(adapter, E1000_STATUS);
        adapter.hw.bus.func = ((status & E1000_STATUS_FUNC_MASK) >> E1000_STATUS_FUNC_SHIFT) as u16;
    } else {
        adapter.hw.bus.func = 0;
    }
}

/// The PCI Express LAN-id routine: not provided by this driver, it does
/// nothing.
pub fn set_lan_id_multi_port_pcie<P: Platform>(adapter: &mut Adapter<P>)
    ensures
        final(adapter).same_state(old(adapter)),
        final(adapter).io_log@ == old(adapter).io_log@,
{
}

/// A single-port adapter is always function 0.
pub fn set_lan_id_single_port<P: Platform>(adapter: &mut Adapter<P>)
    ensures
        final(adapter).same_except_hw(old(adapter)),
        final(adapter).io_log@ == old(adapter).io_log@,
        only_func_changed(final(adapter).hw, old(adapter).hw),
        final(adapter).hw.bus.func == 0,
{
    adapter.hw.bus.func = 0;
}

// ---------------------------------------------------------------------- LEDs

/// Turns the LED off: on copper writes the "mode 1" LED control; fiber is
/// refused; other media do nothing.
pub fn led_off_generic<P: Platform>(adapter: &mut Adapter<P>) -> (r: AdResult)
    ensures
        final(adapter).same_state(old(adapter)),
        r.is_err() <==> old(adapter).hw.phy.media_type == MediaType::Fiber,
        final(adapter).logged(
            old(adapter),
            if old(adapter).hw.phy.media_type == MediaType::Copper {
                seq![IoOp::Write { reg: E1000_LEDCTL, value: old(adapter).hw.mac.ledctl_mode1 }]
            } else {
                Seq::empty()
            },
        ),
{
    match adapter.hw.phy.media_type {
        MediaType::Fiber => Err("Fiber not supported yet".to_string()),
        MediaType::Copper => {
            let v = adapter.hw.mac.ledctl_mode1;
            do_write_register(adapter, E1000_LEDCTL, v);
            Ok(())
        },
        _ => {
            proof {
                assert(adapter.io_log@ =~= old(adapter).io_log@ + Seq::<IoOp>::empty());
            }
            Ok(())
        },
    }
}

/// Turns the LED on: on copper writes the "mode 2" LED control; fiber is
/// refused; other media do nothing.
pub fn led_on_generic<P: Platform>(adapter: &mut Adapter<P>) -> (r: AdResult)
    ensures
        final(adapter).same_state(old(adapter)),
        r.is_err() <==> old(adapter).hw.phy.media_type == MediaType::Fiber,
        final(adapter).logged(
            old(adapter),
            if old(adapter).hw.phy.media_type == MediaType::Copper {
                seq![IoOp::Write { reg: E1000_LEDCTL, value: old(adapter).hw.mac.ledctl_mode2 }]
            } else {
                Seq::empty()
            },
        ),
{
    match adapter.hw.phy.media_type {
        MediaType::Fiber => Err("Fiber not supported yet".to_string()),
        MediaType::Copper => {
            let v = adapter.hw.mac.ledctl_mode2;
            do_write_register(adapter, E1000_LEDCTL, v);
            Ok(())
        },
        _ => {
            proof {
                assert(adapter.io_log@ =~= old(adapter).io_log@ + Seq::<IoOp>::empty());
            }
            Ok(())
        },
    }
}

/// Restores the default LED control.
pub fn cleanup_led_generic<P: Platform>(adapter: &mut Adapter<P>) -> (r: AdResult)
    ensures
        r.is_ok(),
        final(adapter).same_state(old(adapter)),
        final(adapter).logged(
            old(adapter),
            seq![IoOp::Write { reg: E1000_LEDCTL, value: old(adapter).hw.mac.ledctl_default }],
        ),
{
    let v = adapter.hw.mac.ledctl_default;
    do_write_register(adapter, E1000_LEDCTL, v);
    Ok(())
}

/// LED setup is not provided by this driver: always refused, nothing done.
pub fn setup_led_generic<P: Platform>(adapter: &mut Adapter<P>) -> (r: AdResult)
    ensures
        r.is_err(),
        final(adapter).same_state(old(adapter)),
        final(adapter).io_log@ == old(adapter).io_log@,
{
    Err("incomplete function - returning error".to_string())
}

/// Blinks the LEDs that are set to be on (`blink_value`): writes the LED
/// control register once.
pub fn blink_led_generic<P: Platform>(adapter: &mut Adapter<P>) -> (r: AdResult)
    ensures
        r.is_ok(),
        final(adapter).same_state(old(adapter)),
        final(adapter).logged(
            old(adapter),
            seq![
                IoOp::Write {
                    reg: E1000_LEDCTL,
                    value: blink_value(
                        old(adapter).hw.phy.media_type == MediaType::Fiber,
                        old(adapter).hw.mac.ledctl_mode2,
                        old(adapter).hw.mac.ledctl_default,
                    ),
                },
            ],
        ),
{
    let v = if adapter.hw.phy.media_type == MediaType::Fiber {
        E1000_LEDCTL_LED0_BLINK | E1000_LEDCTL_MODE_LED_ON
    } else {
        let m = adapter.hw.mac.ledctl_mode2;
        let d = adapter.hw.mac.ledctl_default;
        let v0 = blink_step(m, m, d, 0);
        let v1 = blink_step(v0, m, d, 8);
        let v2 = blink_step(v1, m, d, 16);
        blink_step(v2, m, d, 24)
    };
    do_write_register(adapter, E1000_LEDCTL, v);
    Ok(())
}

/// LED `i` (its mode at bit `i` of `mode2`, its inversion in `default`) is
/// on: mode "on" and not inverted, or mode "off" and inverted.
pub open spec fn led_is_on(mode2: u32, default: u32, i: u32) -> bool {
    let mode = (mode2 >> i) & E1000_LEDCTL_LED0_MODE_MASK;
    let ld = default >> i;
    (ld & E1000_LEDCTL_LED0_IVRT == 0 && mode == E1000_LEDCTL_MODE_LED_ON) || (ld
        & E1000_LEDCTL_LED0_IVRT != 0 && mode == E1000_LEDCTL_MODE_LED_OFF)
}

/// The LED control value `v` with LED `i` set to blink in mode "on" when
/// it is on in `mode2`.
pub open spec fn blink_led(v: u32, mode2: u32, default: u32, i: u32) -> u32 {
    if led_is_on(mode2, default, i) {
        (v & !(E1000_LEDCTL_LED0_MODE_MASK << i)) | ((E1000_LEDCTL_LED0_BLINK
            | E1000_LEDCTL_MODE_LED_ON) << i)
    } else {
        v
    }
}

/// The LED control value that blinks the LEDs set to be on: LED 0 always
/// on fiber; otherwise each of the four LEDs on in mode 2.
pub open spec fn blink_value(fiber: bool, mode2: u32, default: u32) -> u32 {
    if fiber {
        E1000_LEDCTL_LED0_BLINK | E1000_LEDCTL_MODE_LED_ON
    } else {
        blink_led(
            blink_led(blink_led(blink_led(mode2, mode2, default, 0), mode2, default, 8), mode2, default, 16),
            mode2,
            default,
            24,
        )
    }
}

/// One LED of `blink_value`.
fn blink_step(v: u32, mode2: u32, default: u32, i: u32) -> (r: u32)
    requires
        i < 32,
    ensures
        r == blink_led(v, mode2, default, i),
{
    let mode = (mode2 >> i) & E1000_LEDCTL_LED0_MODE_MASK;
    let ld = default >> i;
    if (ld & E1000_LEDCTL_LED0_IVRT == 0 && mode == E1000_LEDCTL_MODE_LED_ON) || (ld
        & E1000_LEDCTL_LED0_IVRT != 0 && mode == E1000_LEDCTL_MODE_LED_OFF) {
        (v & !(E1000_LEDCTL_LED0_MODE_MASK << i)) | ((E1000_LEDCTL_LED0_BLINK
            | E1000_LEDCTL_MODE_LED_ON) << i)
    } else {
        v
    }
}

/// New LED-control value after applying one nibble `temp` of the NVM LED
/// setting to LED `i` (`first` selects the "mode 1" table, otherwise the
/// "mode 2" table).
pub open spec fn led_nibble_step(mode: u32, i: u32, temp: u16, first: bool) -> u32 {
    let mask: u32 = (0xFFu32 << (8 * i) as u32) as u32;
    let on: u32 = (E1000_LEDCTL_MODE_LED_ON << (8 * i) as u32) as u32;
    let off: u32 = (E1000_LEDCTL_MODE_LED_OFF << (8 * i) as u32) as u32;
    if first {
        if temp == ID_LED_ON1_DEF2 || temp == ID_LED_ON1_OFF2 || temp == ID_LED_ON1_ON2 {
            (mode & !mask) | on
        } else if temp == ID_LED_OFF1_DEF2 || temp == ID_LED_OFF1_OFF2 || temp
            == ID_LED_OFF1_ON2 {
            (mode & !mask) | off
        } else {
            mode
        }
    } else {
        if temp == ID_LED_DEF1_ON2 || temp == ID_LED_ON1_ON2 || temp == ID_LED_OFF1_ON2 {
            (mode & !mask) | on
        } else if temp == ID_LED_DEF1_OFF2 || temp == ID_LED_ON1_OFF2 || temp
            == ID_LED_OFF1_OFF2 {
            (mode & !mask) | off
        } else {
            mode
        }
    }
}

/// The nibble of the NVM LED setting that describes LED `i`.
pub open spec fn led_nibble(data: u16, i: u32) -> u16 {
    (data >> ((4 * i) as u16)) & 0x0Fu16
}

/// The LED-control value after applying the nibbles of LEDs `0..n`.
pub open spec fn led_modes(data: u16, start: u32, n: nat, first: bool) -> u32
    decreases n,
{
    if n == 0 {
        start
    } else {
        let prev = led_modes(data, start, (n - 1) as nat, first);
        led_nibble_step(prev, (n - 1) as u32, led_nibble(data, (n - 1) as u32), first)
    }
}

/// Applies one nibble of the NVM LED setting to LED `i`.
fn led_step(mode: u32, i: u32, temp: u16, first: bool) -> (r: u32)
    requires
        i < 4,
    ensures
        r == led_nibble_step(mode, i, temp, first),
{
    let sh: u32 = 8 * i;
    let mask: u32 = 0xFFu32 << sh;
    let on: u32 = E1000_LEDCTL_MODE_LED_ON << sh;
    let off: u32 = E1000_LEDCTL_MODE_LED_OFF << sh;
    if first {
        if temp == ID_LED_ON1_DEF2 || temp == ID_LED_ON1_OFF2 || temp == ID_LED_ON1_ON2 {
            (mode & !mask) | on
        } else if temp == ID_LED_OFF1_DEF2 || temp == ID_LED_OFF1_OFF2 || temp
            == ID_LED_OFF1_ON2 {
            (mode & !mask) | off
        } else {
            mode
        }
    } else {
        if temp == ID_LED_DEF1_ON2 || temp == ID_LED_ON1_ON2 || temp == ID_LED_OFF1_ON2 {
            (mode & !mask) | on
        } else if temp == ID_LED_DEF1_OFF2 || temp == ID_LED_ON1_OFF2 || temp
            == ID_LED_OFF1_OFF2 {
            (mode & !mask) | off
        } else {
            mode
        }
    }
}

/// Computes the two LED modes from the NVM LED setting and the default LED
/// control: for each of the four LEDs, the nibble of `data` decides whether
/// the LED is forced on, forced off or left as in the default.
pub fn id_led_modes(data: u16, ledctl_default: u32) -> (r: (u32, u32))
    ensures
        r.0 == led_modes(data, ledctl_default, 4, true),
        r.1 == led_modes(data, ledctl_default, 4, false),
{
    let led_mask: u16 = 0x0F;
    let mut mode1 = ledctl_default;
    let mut mode2 = ledctl_default;
    let mut i: u32 = 0;
    while i < 4
        invariant
            i <= 4,
            led_mask == 0x0F,
            mode1 == led_modes(data, ledctl_default, i as nat, true),
            mode2 == led_modes(data, ledctl_default, i as nat, false),
        decreases 4 - i,
    {
        let temp: u16 = (data >> ((4 * i) as u16)) & led_mask;
        mode1 = led_step(mode1, i, temp, true);
        mode2 = led_step(mode2, i, temp, false);
        assert(mode1 == led_modes(data, ledctl_default, (i + 1) as nat, true));
        i = i + 1;
    }
    (mode1, mode2)
}

// ---------------------------------------------------------------------- VFTA

/// Zeroes the VLAN filter table, flushing after every entry.
pub fn clear_vfta_generic<P: Platform>(adapter: &mut Adapter<P>)
    ensures
        final(adapter).same_state(old(adapter)),
        final(adapter).log_extends(old(adapter)),
        final(adapter).io_log@.len() == old(adapter).io_log@.len() + 2 * E1000_VLAN_FILTER_TBL_SIZE,
        forall|k: int|
            0 <= k < E1000_VLAN_FILTER_TBL_SIZE ==> #[trigger] final(adapter).io_log@[old(adapter).io_log@.len() + 2 * k] == (IoOp::Write { reg: (E1000_VFTA + 4 * k) as u32, value: 0 })
                && is_read_of(
                final(adapter).io_log@[old(adapter).io_log@.len() + 2 * k + 1],
                E1000_STATUS,
            ),
{
    let mut offset: u32 = 0;
    while offset < E1000_VLAN_FILTER_TBL_SIZE
        invariant
            offset <= E1000_VLAN_FILTER_TBL_SIZE,
            adapter.same_state(old(adapter)),
            adapter.log_extends(old(adapter)),
            adapter.io_log@.len() == old(adapter).io_log@.len() + 2 * offset,
            forall|k: int|
                0 <= k < offset ==> #[trigger] adapter.io_log@[old(adapter).io_log@.len() + 2 * k]
                    == (IoOp::Write { reg: (E1000_VFTA + 4 * k) as u32, value: 0 }) && is_read_of(
                    adapter.io_log@[old(adapter).io_log@.len() + 2 * k + 1],
                    E1000_STATUS,
                ),
        decreases E1000_VLAN_FILTER_TBL_SIZE - offset,
    {
        do_write_register_array(adapter, E1000_VFTA, offset, 0);
        do_write_flush(adapter);
        offset = offset + 1;
    }
}

/// Writing one VFTA entry is not provided by this driver: does nothing.
pub fn write_vfta_generic<P: Platform>(adapter: &mut Adapter<P>, offset: u32, value: u32)
    ensures
        final(adapter).same_state(old(adapter)),
        final(adapter).io_log@ == old(adapter).io_log@,
{
}

// ------------------------------------------------------------ multicast hash

/// The hash mask for a table of `cnt` 32-bit registers.
pub open spec fn mc_hash_mask(cnt: u16) -> u32 {
    (cnt * 32 - 1) as u32
}

/// The least shift at or above `s` that brings the hash mask down to 0xFF
/// (32 when there is none).
pub open spec fn first_shift(mask: u32, s: u32) -> u32
    decreases 32 - s,
{
    if s >= 32 {
        32
    } else if mask >> s == 0xFF {
        s
    } else {
        first_shift(mask, (s + 1) as u32)
    }
}

/// Extra left shift selected by the multicast filter type.
pub open spec fn shift_adjust(filter_type: u32) -> u32 {
    if filter_type == 1 {
        1
    } else if filter_type == 2 {
        2
    } else if filter_type == 3 {
        4
    } else {
        0
    }
}

/// Total shift of the multicast hash: the shift where the mask reaches
/// 0xFF, plus the filter-type adjustment.
pub open spec fn mc_bit_shift(cnt: u16, filter_type: u32) -> u32 {
    (first_shift(mc_hash_mask(cnt), 0) + shift_adjust(filter_type)) as u32
}

/// The hash is computable: the table has at least one register, fewer than
/// 2048, and the total shift is at most eight bits.
pub open spec fn mc_hash_ok(cnt: u16, filter_type: u32) -> bool {
    &&& 1 <= cnt < 2048
    &&& mc_bit_shift(cnt, filter_type) <= 8
}

/// The multicast hash of an address whose last two bytes are `a4`, `a5`:
/// the upper bits of `a4` and `a5` shifted left by the total shift, under
/// the mask.
pub open spec fn mc_hash(cnt: u16, filter_type: u32, a4: u8, a5: u8) -> u32 {
    let bs = mc_bit_shift(cnt, filter_type);
    mc_hash_mask(cnt) & (((a4 as u32) >> ((8 - bs) as u32)) | (((a5 as u32) << bs) as u32))
}

proof fn lemma_first_shift_range(mask: u32, s: u32)
    requires
        s <= 32,
    ensures
        s <= first_shift(mask, s) <= 32,
        first_shift(mask, s) < 32 ==> mask >> first_shift(mask, s) == 0xFF,
    decreases 32 - s,
{
    if s < 32 && mask >> s != 0xFF {
        lemma_first_shift_range(mask, (s + 1) as u32);
    }
}

/// Whether the multicast hash can be computed for a table of `cnt`
/// registers and filter type `filter_type` (`mc_hash_ok`).
pub fn mc_hash_computable(cnt: u16, filter_type: u32) -> (r: bool)
    ensures
        r == mc_hash_ok(cnt, filter_type),
{
    if cnt < 1 || cnt >= 2048 {
        return false;
    }
    let mask: u32 = (cnt as u32) * 32 - 1;
    assert(mask == mc_hash_mask(cnt));
    let mut s: u32 = 0;
    while s < 32 && mask >> s != 0xFF
        invariant
            s <= 32,
            first_shift(mask, s) == first_shift(mask, 0),
        decreases 32 - s,
    {
        s = s + 1;
    }
    let adj: u32 = if filter_type == 1 {
        1
    } else if filter_type == 2 {
        2
    } else if filter_type == 3 {
        4
    } else {
        0
    };
    s + adj <= 8
}

/// The multicast hash of a six-byte address: which of the
/// `mta_reg_count * 32` filter bits the address selects.
pub fn hash_mc_addr_generic<P: Platform>(adapter: &Adapter<P>, mc_addr: &[u8]) -> (r: u32)
    requires
        mc_addr@.len() == 6,
        mc_hash_ok(adapter.hw.mac.mta_reg_count, adapter.hw.mac.mc_filter_type),
    ensures
        r == mc_hash(
            adapter.hw.mac.mta_reg_count,
            adapter.hw.mac.mc_filter_type,
            mc_addr@[4],
            mc_addr@[5],
        ),
{
    let hash_mask: u32 = (adapter.hw.mac.mta_reg_count * 32) as u32 - 1;
    let ghost fs0 = first_shift(hash_mask, 0);
    proof {
        lemma_first_shift_range(hash_mask, 0);
    }
    let mut bit_shift: u32 = 0;
    while hash_mask >> bit_shift != 0xFF
        invariant
            bit_shift <= fs0,
            fs0 <= 8,
            fs0 == first_shift(hash_mask, 0),
            first_shift(hash_mask, bit_shift) == fs0,
        decreases fs0 - bit_shift,
    {
        proof {
            lemma_first_shift_range(hash_mask, (bit_shift + 1) as u32);
        }
        bit_shift = bit_shift + 1;
    }
    match adapter.hw.mac.mc_filter_type {
        1 => bit_shift = bit_shift + 1,
        2 => bit_shift = bit_shift + 2,
        3 => bit_shift = bit_shift + 4,
        _ => {},
    }
    hash_mask & (((mc_addr[4] as u32) >> (8 - bit_shift)) | ((mc_addr[5] as u32) << bit_shift))
}

/// Sets the filter bit selected by `hash` in a shadow table of `cnt`
/// registers.
pub open spec fn mta_insert(shadow: Seq<u32>, hash: u32, cnt: u16) -> Seq<u32> {
    let reg = (hash >> 5) & ((cnt - 1) as u32);
    let bit = hash & 0x1F;
    shadow.update(reg as int, shadow[reg as int] | ((1u32 << bit) as u32))
}

/// The shadow table after inserting the first `n` addresses of the
/// six-bytes-per-address list `mta`.
pub open spec fn mta_build(
    shadow: Seq<u32>,
    mta: Seq<u8>,
    n: nat,
    cnt: u16,
    filter_type: u32,
) -> Seq<u32>
    decreases n,
{
    if n == 0 {
        shadow
    } else {
        let k = (n - 1) as int;
        mta_insert(
            mta_build(shadow, mta, (n - 1) as nat, cnt, filter_type),
            mc_hash(cnt, filter_type, mta[6 * k + 4], mta[6 * k + 5]),
            cnt,
        )
    }
}

/// The multicast hash of any address selects one of the table's
/// `cnt * 32` filter bits.
pub proof fn lemma_mc_hash_in_table(cnt: u16, filter_type: u32, a4: u8, a5: u8)
    requires
        1 <= cnt < 2048,
    ensures
        mc_hash(cnt, filter_type, a4, a5) < cnt * 32,
{
    let bs = mc_bit_shift(cnt, filter_type);
    lemma_and_le(((a4 as u32) >> ((8 - bs) as u32)) | (((a5 as u32) << bs) as u32), mc_hash_mask(cnt));
}

/// Bit `j` of the filter that a table of 32-bit registers makes: bit
/// `j % 32` of register `j / 32`.
pub open spec fn filter_bit(t: Seq<u32>, j: int) -> bool {
    (t[j / 32] >> ((j % 32) as u32)) & 1 == 1
}

/// Inserting a hash sets exactly the filter bit that the hash names: with a
/// power-of-two register count, after `mta_insert` bit `j` of the
/// `cnt * 32`-bit filter is set iff `j` is the hash or the bit was set
/// before.
pub proof fn lemma_mta_insert_filter(t: Seq<u32>, h: u32, cnt: u16, j: int)
    requires
        t.len() == cnt,
        1 <= cnt <= 2048,
        (cnt as u32) & (((cnt as u32) - 1) as u32) == 0,
        h < cnt * 32,
        0 <= j < cnt * 32,
    ensures
        mta_insert(t, h, cnt).len() == t.len(),
        filter_bit(mta_insert(t, h, cnt), j) == (j == h || filter_bit(t, j)),
{
    let c = cnt as u32;
    let m1 = (cnt - 1) as u32;
    assert(m1 == c - 1);
    assert(c & m1 == 0);
    let r = (h >> 5) & m1;
    let b = h & 0x1F;
    assert(r == h / 32 && b == h % 32) by (bit_vector)
        requires
            r == (h >> 5) & m1,
            b == h & 0x1F,
            m1 == c - 1,
            1 <= c <= 2048,
            c & m1 == 0,
            h < c * 32,
    ;
    let w = t[r as int];
    let w2 = (w | ((1u32 << b) as u32)) as u32;
    let t2 = mta_insert(t, h, cnt);
    assert(t2 == t.update(r as int, w2));
    let q = j / 32;
    let mm = (j % 32) as u32;
    vstd::arithmetic::div_mod::lemma_fundamental_div_mod(j, 32);
    vstd::arithmetic::div_mod::lemma_fundamental_div_mod(h as int, 32);
    if q == r as int {
        assert(t2[q] == w2);
        assert(((w2 >> mm) & 1 == 1) == (mm == b || (w >> mm) & 1 == 1)) by (bit_vector)
            requires
                w2 == w | ((1u32 << b) as u32),
                b < 32,
                mm < 32,
        ;
        assert((j == h as int) == (mm == b));
    } else {
        assert(t2[q] == t[q]);
        assert(j != h as int);
    }
}

/// With the 128-register table of this driver's MACs, the multicast hash is
/// twelve consecutive bits of the address's last two bytes read as one
/// 16-bit number (byte 5 high): address bits 47:36 for filter type 0,
/// 46:35 for type 1, 45:34 for type 2 and 43:32 for type 3.
pub proof fn lemma_mc_hash_address_bits(ft: u32, a4: u8, a5: u8)
    ensures
        ft == 0 ==> mc_hash(128, ft, a4, a5) == ((a5 as int * 256 + a4 as int) / 16) % 4096,
        ft == 1 ==> mc_hash(128, ft, a4, a5) == ((a5 as int * 256 + a4 as int) / 8) % 4096,
        ft == 2 ==> mc_hash(128, ft, a4, a5) == ((a5 as int * 256 + a4 as int) / 4) % 4096,
        ft == 3 ==> mc_hash(128, ft, a4, a5) == (a5 as int * 256 + a4 as int) % 4096,
{
    assert(mc_hash_mask(128) == 4095);
    assert(4095u32 >> 0u32 != 0xFF && 4095u32 >> 1u32 != 0xFF && 4095u32 >> 2u32 != 0xFF
        && 4095u32 >> 3u32 != 0xFF && 4095u32 >> 4u32 == 0xFF) by (bit_vector);
    reveal_with_fuel(first_shift, 6);
    assert(first_shift(4095, 0) == 4);
    let l = a4 as u32;
    let h = a5 as u32;
    assert({
        &&& 4095u32 & ((l >> 4u32) | ((h << 4u32) as u32)) == ((h * 256 + l) / 16) % 4096
        &&& 4095u32 & ((l >> 3u32) | ((h << 5u32) as u32)) == ((h * 256 + l) / 8) % 4096
        &&& 4095u32 & ((l >> 2u32) | ((h << 6u32) as u32)) == ((h * 256 + l) / 4) % 4096
        &&& 4095u32 & ((l >> 0u32) | ((h << 8u32) as u32)) == (h * 256 + l) % 4096
    }) by (bit_vector)
        requires
            l < 256,
            h < 256,
    ;
}

/// `n` zero words.
pub open spec fn zero_words(n: nat) -> Seq<u32> {
    Seq::new(n, |i: int| 0u32)
}

proof fn lemma_and_le(x: u32, m: u32)
    ensures
        x & m <= m,
        m & x <= m,
{
    assert(x & m <= m && m & x <= m) by (bit_vector);
}

proof fn lemma_mta_build_len(shadow: Seq<u32>, mta: Seq<u8>, n: nat, cnt: u16, ft: u32)
    requires
        1 <= cnt,
        cnt <= shadow.len(),
    ensures
        mta_build(shadow, mta, n, cnt, ft).len() == shadow.len(),
    decreases n,
{
    if n > 0 {
        lemma_mta_build_len(shadow, mta, (n - 1) as nat, cnt, ft);
        let k = (n - 1) as int;
        let h = mc_hash(cnt, ft, mta[6 * k + 4], mta[6 * k + 5]);
        lemma_and_le(h >> 5, (cnt - 1) as u32);
    }
}

/// After inserting the first `n` addresses of `mta`, bit `j` of the filter
/// is set iff it was set before or `j` is the hash of one of those
/// addresses: every joined group passes the filter, and nothing else is
/// let through.
pub proof fn lemma_mta_build_filter(shadow: Seq<u32>, mta: Seq<u8>, n: nat, cnt: u16, ft: u32, j: int)
    requires
        shadow.len() == cnt,
        1 <= cnt < 2048,
        (cnt as u32) & (((cnt as u32) - 1) as u32) == 0,
        0 <= j < cnt * 32,
    ensures
        filter_bit(mta_build(shadow, mta, n, cnt, ft), j) == (filter_bit(shadow, j) || exists|k: int|
            0 <= k < n && #[trigger] mc_hash(cnt, ft, mta[6 * k + 4], mta[6 * k + 5]) == j),
    decreases n,
{
    if n > 0 {
        let k = (n - 1) as int;
        let prev = mta_build(shadow, mta, (n - 1) as nat, cnt, ft);
        let h = mc_hash(cnt, ft, mta[6 * k + 4], mta[6 * k + 5]);
        lemma_mta_build_filter(shadow, mta, (n - 1) as nat, cnt, ft, j);
        lemma_mta_build_len(shadow, mta, (n - 1) as nat, cnt, ft);
        lemma_mc_hash_in_table(cnt, ft, mta[6 * k + 4], mta[6 * k + 5]);
        lemma_mta_insert_filter(prev, h, cnt, j);
        if exists|i: int| 0 <= i < n && #[trigger] mc_hash(cnt, ft, mta[6 * i + 4], mta[6 * i + 5]) == j {
            let i = choose|i: int| 0 <= i < n && #[trigger] mc_hash(cnt, ft, mta[6 * i + 4], mta[6 * i + 5]) == j;
            if i < n - 1 {
                assert(exists|i2: int| 0 <= i2 < n - 1 && #[trigger] mc_hash(cnt, ft, mta[6 * i2 + 4], mta[6 * i2 + 5]) == j);
            }
        }
    }
}

/// The hardware description with only the multicast shadow table taken
/// from `shadow`.
pub open spec fn with_mta_shadow(hw: Hardware, shadow: Vec<u32>) -> Hardware {
    Hardware { mac: MacInfo { mta_shadow: shadow, ..hw.mac }, ..hw }
}

/// Rebuilds the multicast table from the first `mc_addr_count` addresses
/// of the adapter's multicast array and writes it to the hardware, last
/// register first, then flushes. Without a multicast array the shadow
/// table is left cleared and nothing is written.
pub fn update_mc_addr_list_generic<P: Platform>(adapter: &mut Adapter<P>, mc_addr_count: u32) -> (r: AdResult)
    requires
        mc_hash_ok(old(adapter).hw.mac.mta_reg_count, old(adapter).hw.mac.mc_filter_type),
        old(adapter).hw.mac.mta_reg_count <= old(adapter).hw.mac.mta_shadow@.len(),
        old(adapter).mta is Some ==> old(adapter).mta->0@.len() >= 6 * mc_addr_count,
        E1000_MTA + 4 * old(adapter).hw.mac.mta_reg_count <= u32::MAX,
    ensures
        r.is_err() <==> old(adapter).mta is None,
        final(adapter).same_except_hw(old(adapter)),
        final(adapter).hw == with_mta_shadow(old(adapter).hw, final(adapter).hw.mac.mta_shadow),
        r.is_err() ==> final(adapter).hw.mac.mta_shadow@ == zero_words(
            old(adapter).hw.mac.mta_shadow@.len(),
        ) && final(adapter).io_log@ == old(adapter).io_log@,
        r.is_ok() ==> final(adapter).hw.mac.mta_shadow@ == mta_build(
            zero_words(old(adapter).hw.mac.mta_shadow@.len()),
            old(adapter).mta->0@,
            mc_addr_count as nat,
            old(adapter).hw.mac.mta_reg_count,
            old(adapter).hw.mac.mc_filter_type,
        ),
        r.is_ok() ==> final(adapter).log_extends(old(adapter)),
        r.is_ok() ==> final(adapter).io_log@.len() == old(adapter).io_log@.len()
            + old(adapter).hw.mac.mta_reg_count + 1,
        r.is_ok() ==> forall|k: int|
            0 <= k < old(adapter).hw.mac.mta_reg_count ==> {
                let reg_i = old(adapter).hw.mac.mta_reg_count - 1 - k;
                #[trigger] final(adapter).io_log@[old(adapter).io_log@.len() + k] == (IoOp::Write {
                    reg: (E1000_MTA + 4 * reg_i) as u32,
                    value: final(adapter).hw.mac.mta_shadow@[reg_i],
                })
            },
        r.is_ok() ==> is_read_of(final(adapter).io_log@.last(), E1000_STATUS),
{
    let cnt = adapter.hw.mac.mta_reg_count;
    let ghost zero = zero_words(old(adapter).hw.mac.mta_shadow@.len());
    let len = adapter.hw.mac.mta_shadow.len();
    let mut j: usize = 0;
    while j < len
        invariant
            len == adapter.hw.mac.mta_shadow@.len(),
            len == old(adapter).hw.mac.mta_shadow@.len(),
            j <= len,
            forall|k: int| 0 <= k < j ==> adapter.hw.mac.mta_shadow@[k] == 0,
            adapter.same_except_hw(old(adapter)),
            adapter.io_log@ == old(adapter).io_log@,
            adapter.hw == with_mta_shadow(old(adapter).hw, adapter.hw.mac.mta_shadow),
        decreases len - j,
    {
        adapter.hw.mac.mta_shadow.set(j, 0);
        j = j + 1;
    }
    assert(adapter.hw.mac.mta_shadow@ =~= zero);
    if adapter.mta.is_none() {
        return Err("Can't access mta".to_string());
    }
    let mut i: u32 = 0;
    while i < mc_addr_count
        invariant
            i <= mc_addr_count,
            cnt == old(adapter).hw.mac.mta_reg_count,
            1 <= cnt <= len,
            len == adapter.hw.mac.mta_shadow@.len(),
            zero == zero_words(len as nat),
            mc_hash_ok(cnt, old(adapter).hw.mac.mc_filter_type),
            adapter.mta is Some,
            adapter.mta == old(adapter).mta,
            adapter.mta->0@.len() >= 6 * mc_addr_count,
            adapter.hw.mac.mc_filter_type == old(adapter).hw.mac.mc_filter_type,
            adapter.hw.mac.mta_reg_count == cnt,
            adapter.hw.mac.mta_shadow@ == mta_build(zero, adapter.mta->0@, i as nat, cnt,
                old(adapter).hw.mac.mc_filter_type),
            adapter.same_except_hw(old(adapter)),
            adapter.io_log@ == old(adapter).io_log@,
            adapter.hw == with_mta_shadow(old(adapter).hw, adapter.hw.mac.mta_shadow),
        decreases mc_addr_count - i,
    {
        let hash_value = {
            let m = adapter.mta.as_ref().unwrap();
            let mlen = m.len();
            assert(6 * i + 6 <= mlen) by (nonlinear_arith)
                requires
                    i < mc_addr_count,
                    mlen >= 6 * mc_addr_count,
            ;
            let base: usize = 6 * (i as usize);
            let slice = vstd::slice::slice_subrange(m.as_slice(), base, base + 6);
            hash_mc_addr_generic(adapter, slice)
        };
        let hash_reg = (hash_value >> 5) & (cnt as u32 - 1);
        let hash_bit = hash_value & 0x1F;
        proof {
            lemma_and_le(hash_value >> 5, (cnt - 1) as u32);
            lemma_mta_build_len(zero, adapter.mta->0@, i as nat, cnt,
                old(adapter).hw.mac.mc_filter_type);
            assert(hash_bit < 32) by (bit_vector)
                requires
                    hash_bit == hash_value & 0x1F,
            ;
        }
        let old_word = adapter.hw.mac.mta_shadow[hash_reg as usize];
        adapter.hw.mac.mta_shadow.set(hash_reg as usize, old_word | (1u32 << hash_bit));
        i = i + 1;
    }
    let ghost start = adapter.io_log@.len();
    let ghost built = adapter.hw.mac.mta_shadow@;
    let mut k: u32 = cnt as u32;
    while k > 0
        invariant
            k <= cnt,
            adapter.hw.mac.mta_shadow@ == built,
            cnt == old(adapter).hw.mac.mta_reg_count,
            1 <= cnt <= adapter.hw.mac.mta_shadow@.len(),
            E1000_MTA + 4 * cnt <= u32::MAX,
            start == old(adapter).io_log@.len(),
            adapter.same_except_hw(old(adapter)),
            adapter.log_extends(old(adapter)),
            adapter.io_log@.len() == start + (cnt - k),
            adapter.hw == with_mta_shadow(old(adapter).hw, adapter.hw.mac.mta_shadow),
            forall|q: int|
                0 <= q < cnt - k ==> {
                    let reg_i = cnt - 1 - q;
                    #[trigger] adapter.io_log@[start + q] == (IoOp::Write {
                        reg: (E1000_MTA + 4 * reg_i) as u32,
                        value: adapter.hw.mac.mta_shadow@[reg_i],
                    })
                },
        decreases k,
    {
        let idx: u32 = k - 1;
        let v = adapter.hw.mac.mta_shadow[idx as usize];
        do_write_register_array(adapter, E1000_MTA, idx, v);
        k = k - 1;
    }
    do_write_flush(adapter);
    Ok(())
}

// ------------------------------------------------------------ link settings

/// Reads the resolved speed and duplex from the status register. The speed
/// is left unchanged when the status names none of 1000 and 100 Mb/s (the
/// 10 Mb/s status code is zero and never matches).
pub fn get_speed_and_duplex_copper_generic<P: Platform>(
    adapter: &mut Adapter<P>,
    speed: &mut u16,
    duplex: &mut u16,
) -> (r: AdResult)
    ensures
        r.is_ok(),
        final(adapter).same_state(old(adapter)),
        final(adapter).logged(
            old(adapter),
            seq![IoOp::Read { reg: E1000_STATUS, value: final(adapter).read_at(old(adapter), 0) }],
        ),
        ({
            let status = final(adapter).read_at(old(adapter), 0);
            &&& *final(speed) == (if status & E1000_STATUS_SPEED_1000 != 0 {
                SPEED_1000
            } else if status & E1000_STATUS_SPEED_100 != 0 {
                SPEED_100
            } else if status & E1000_STATUS_SPEED_10 != 0 {
                SPEED_10
            } else {
                *old(speed)
            })
            &&& *final(duplex) == (if status & E1000_STATUS_FD != 0 {
                FULL_DUPLEX
            } else {
                HALF_DUPLEX
            })
        }),
{
    let status: u32 = do_read_register(adapter, E1000_STATUS);
    if status & E1000_STATUS_SPEED_1000 != 0 {
        *speed = SPEED_1000;
    } else if status & E1000_STATUS_SPEED_100 != 0 {
        *speed = SPEED_100;
    } else if status & E1000_STATUS_SPEED_10 != 0 {
        *speed = SPEED_10;
    }
    if status & E1000_STATUS_FD != 0 {
        *duplex = FULL_DUPLEX;
    } else {
        *duplex = HALF_DUPLEX;
    }
    Ok(())
}

/// Speed/duplex of fiber and serdes links is not provided by this driver:
/// always refused, nothing done.
pub fn get_speed_and_duplex_fiber_serdes_generic<P: Platform>(
    adapter: &mut Adapter<P>,
    speed: &mut u16,
    duplex: &mut u16,
) -> (r: AdResult)
    ensures
        r.is_err(),
        final(adapter).same_state(old(adapter)),
        final(adapter).io_log@ == old(adapter).io_log@,
        *final(speed) == *old(speed),
        *final(duplex) == *old(duplex),
{
    Err("incomplete function - returning error".to_string())
}

/// Serdes link checking is not provided by this driver: always refused.
pub fn check_for_serdes_link_generic<P: Platform>(adapter: &mut Adapter<P>) -> (r: AdResult)
    ensures
        r.is_err(),
        final(adapter).same_state(old(adapter)),
        final(adapter).io_log@ == old(adapter).io_log@,
{
    Err("incomplete function - returning error".to_string())
}

/// Fiber link checking is not provided by this driver: always refused.
pub fn check_for_fiber_link_generic<P: Platform>(adapter: &mut Adapter<P>) -> (r: AdResult)
    ensures
        r.is_err(),
        final(adapter).same_state(old(adapter)),
        final(adapter).io_log@ == old(adapter).io_log@,
{
    Err("incomplete function - returning error".to_string())
}

/// Fiber/serdes link setup is not provided by this driver: always refused.
pub fn setup_fiber_serdes_link_generic<P: Platform>(adapter: &mut Adapter<P>) -> (r: AdResult)
    ensures
        r.is_err(),
        final(adapter).same_state(old(adapter)),
        final(adapter).io_log@ == old(adapter).io_log@,
{
    Err("incomplete function - returning error".to_string())
}

/// MDI setting validation is not provided by this driver: always refused.
pub fn validate_mdi_setting_generic<P: Platform>(adapter: &mut Adapter<P>) -> (r: AdResult)
    ensures
        r.is_err(),
        final(adapter).same_state(old(adapter)),
        final(adapter).io_log@ == old(adapter).io_log@,
{
    Err("incomplete function - returning error".to_string())
}

// ------------------------------------------------------- receive addresses

/// The receive-address low word of a MAC address (bytes 0..3, little
/// endian).
pub open spec fn rar_low(addr: Seq<u8>) -> u32 {
    (addr[0] as u32) | ((addr[1] as u32) << 8u32) | ((addr[2] as u32) << 16u32) | ((addr[3] as u32) << 24u32)
}

/// The receive-address high word of a MAC address (bytes 4..5), with the
/// address-valid bit set unless the whole address is zero.
pub open spec fn rar_high(addr: Seq<u8>) -> u32 {
    let high = (addr[4] as u32) | ((addr[5] as u32) << 8u32);
    if rar_low(addr) != 0 || high != 0 { high | E1000_RAH_AV } else { high }
}

/// A MAC address put in a receive-address entry (`rar_low`, `rar_high`)
/// reads back from that entry (`rar_bytes`) as the same address.
pub proof fn lemma_rar_roundtrip(addr: Seq<u8>)
    requires
        addr.len() == 6,
    ensures
        rar_bytes(rar_low(addr), rar_high(addr)) == addr,
{
    let b0 = addr[0];
    let b1 = addr[1];
    let b2 = addr[2];
    let b3 = addr[3];
    let b4 = addr[4];
    let b5 = addr[5];
    let low = rar_low(addr);
    let high = rar_high(addr);
    assert(low == (b0 as u32) | ((b1 as u32) << 8u32) | ((b2 as u32) << 16u32) | ((b3 as u32) << 24u32));
    assert({
        &&& ((low >> 0u32) & 0xFF) as u8 == b0
        &&& ((low >> 8u32) & 0xFF) as u8 == b1
        &&& ((low >> 16u32) & 0xFF) as u8 == b2
        &&& ((low >> 24u32) & 0xFF) as u8 == b3
    }) by (bit_vector)
        requires
            low == (b0 as u32) | ((b1 as u32) << 8u32) | ((b2 as u32) << 16u32) | ((b3 as u32) << 24u32),
    ;
    let h = (b4 as u32) | ((b5 as u32) << 8u32);
    assert(high == h || high == h | E1000_RAH_AV);
    assert({
        &&& ((high >> 0u32) & 0xFF) as u8 == b4
        &&& ((high >> 8u32) & 0xFF) as u8 == b5
    }) by (bit_vector)
        requires
            high == (b4 as u32) | ((b5 as u32) << 8u32) || high == ((b4 as u32) | ((b5 as u32) << 8u32))
                | 0x80000000u32,
    ;
    assert(rar_bytes(low, high) =~= addr);
}

/// Programs receive-address entry `index`: the low word, a flush, the high
/// word (with the valid bit for a non-zero address), a flush.
pub fn rar_set_generic<P: Platform>(adapter: &mut Adapter<P>, addr: &[u8], index: usize) -> (r: AdResult)
    requires
        addr@.len() >= 6,
        index < 0x1000_0000,
    ensures
        r.is_ok(),
        final(adapter).same_state(old(adapter)),
        final(adapter).logged(
            old(adapter),
            seq![
                IoOp::Write { reg: spec_ral(index), value: rar_low(addr@) },
                IoOp::Read { reg: E1000_STATUS, value: final(adapter).read_at(old(adapter), 1) },
                IoOp::Write { reg: spec_rah(index), value: rar_high(addr@) },
                IoOp::Read { reg: E1000_STATUS, value: final(adapter).read_at(old(adapter), 3) },
            ],
        ),
{
    let low: u32 = (addr[0] as u32) | (addr[1] as u32) << 8 | (addr[2] as u32) << 16
        | (addr[3] as u32) << 24;
    let mut high: u32 = (addr[4] as u32) | (addr[5] as u32) << 8;
    if low != 0 || high != 0 {
        high |= E1000_RAH_AV;
    }
    let ral = E1000_RAL(index);
    let rah = E1000_RAH(index);
    do_write_register(adapter, ral, low);
    do_write_flush(adapter);
    do_write_register(adapter, rah, high);
    do_write_flush(adapter);
    Ok(())
}

/// Offset of the receive-address low register of entry `i`.
pub open spec fn spec_ral(i: usize) -> u32 {
    (if i <= 15 { 0x05400 + i * 8 } else { 0x054E0 + (i - 16) * 8 }) as u32
}

/// Offset of the receive-address high register of entry `i`.
pub open spec fn spec_rah(i: usize) -> u32 {
    (if i <= 15 { 0x05404 + i * 8 } else { 0x054E4 + (i - 16) * 8 }) as u32
}

/// Sets the collision distance in the transmit control register.
pub fn config_collision_dist_generic<P: Platform>(adapter: &mut Adapter<P>)
    ensures
        final(adapter).same_state(old(adapter)),
        final(adapter).logged(
            old(adapter),
            seq![
                IoOp::Read { reg: E1000_TCTL, value: final(adapter).read_at(old(adapter), 0) },
                IoOp::Write {
                    reg: E1000_TCTL,
                    value: (final(adapter).read_at(old(adapter), 0) & !E1000_TCTL_COLD) | (
                    E1000_COLLISION_DISTANCE << E1000_COLD_SHIFT),
                },
                IoOp::Read { reg: E1000_STATUS, value: final(adapter).read_at(old(adapter), 2) },
            ],
        ),
{
    let mut tctl: u32 = do_read_register(adapter, E1000_TCTL);
    tctl &= !E1000_TCTL_COLD;
    tctl |= E1000_COLLISION_DISTANCE << E1000_COLD_SHIFT;
    do_write_register(adapter, E1000_TCTL, tctl);
    do_write_flush(adapter);
}

// ------------------------------------------------------------- flow control

/// The receive flow-control thresholds (low, high) for the current mode:
/// the water marks when transmitting pause frames is enabled (with XON on
/// the low mark when requested), zero otherwise.
pub open spec fn fc_thresholds(fc: FcInfo) -> (u32, u32) {
    if fc_value(fc.current_mode) & fc_value(FcMode::TxPause) != 0 {
        (if fc.send_xon { fc.low_water | E1000_FCRTL_XONE } else { fc.low_water }, fc.high_water)
    } else {
        (0, 0)
    }
}

/// Writes the receive flow-control thresholds.
pub fn set_fc_watermarks_generic<P: Platform>(adapter: &mut Adapter<P>)
    ensures
        final(adapter).same_state(old(adapter)),
        final(adapter).logged(
            old(adapter),
            seq![
                IoOp::Write { reg: E1000_FCRTL, value: fc_thresholds(old(adapter).hw.fc).0 },
                IoOp::Write { reg: E1000_FCRTH, value: fc_thresholds(old(adapter).hw.fc).1 },
            ],
        ),
{
    let mut fctrl: u32 = 0;
    let mut fctrh: u32 = 0;
    if adapter.hw.fc.current_mode.value() & FcMode::TxPause.value() != 0 {
        fctrl = adapter.hw.fc.low_water;
        if adapter.hw.fc.send_xon {
            fctrl |= E1000_FCRTL_XONE;
        }
        fctrh = adapter.hw.fc.high_water;
    }
    do_write_register(adapter, E1000_FCRTL, fctrl);
    do_write_register(adapter, E1000_FCRTH, fctrh);
}

/// The device control value that applies flow-control mode `m` to `ctrl`.
pub open spec fn fc_ctrl(ctrl: u32, m: FcMode) -> u32 {
    match m {
        FcMode::NoPause => ctrl & !(E1000_CTRL_TFCE | E1000_CTRL_RFCE),
        FcMode::RxPause => (ctrl & !E1000_CTRL_TFCE) | E1000_CTRL_RFCE,
        FcMode::TxPause => (ctrl & !E1000_CTRL_RFCE) | E1000_CTRL_TFCE,
        FcMode::Full => ctrl | (E1000_CTRL_TFCE | E1000_CTRL_RFCE),
        FcMode::Default => ctrl,
    }
}

/// Forcing a flow-control mode into the device control value: pause frames
/// are transmitted (TFCE) exactly in the transmit-only and full modes,
/// honoured on receipt (RFCE) exactly in the receive-only and full modes,
/// and every other bit of the control value is kept (for the default mode
/// nothing changes).
pub proof fn lemma_fc_ctrl_bits(ctrl: u32, m: FcMode)
    ensures
        m != FcMode::Default ==> ((fc_ctrl(ctrl, m) & E1000_CTRL_TFCE != 0) <==> (m == FcMode::TxPause
            || m == FcMode::Full)),
        m != FcMode::Default ==> ((fc_ctrl(ctrl, m) & E1000_CTRL_RFCE != 0) <==> (m == FcMode::RxPause
            || m == FcMode::Full)),
        fc_ctrl(ctrl, m) & !(E1000_CTRL_TFCE | E1000_CTRL_RFCE) == ctrl & !(E1000_CTRL_TFCE
            | E1000_CTRL_RFCE),
        m == FcMode::Default ==> fc_ctrl(ctrl, m) == ctrl,
{
    let n = ctrl & !(0x1000_0000u32 | 0x0800_0000u32);
    assert({
        &&& (ctrl & !(0x1000_0000u32 | 0x0800_0000u32)) & 0x1000_0000u32 == 0
        &&& (ctrl & !(0x1000_0000u32 | 0x0800_0000u32)) & 0x0800_0000u32 == 0
        &&& ((ctrl & !0x1000_0000u32) | 0x0800_0000u32) & 0x1000_0000u32 == 0
        &&& ((ctrl & !0x1000_0000u32) | 0x0800_0000u32) & 0x0800_0000u32 != 0
        &&& ((ctrl & !0x0800_0000u32) | 0x1000_0000u32) & 0x1000_0000u32 != 0
        &&& ((ctrl & !0x0800_0000u32) | 0x1000_0000u32) & 0x0800_0000u32 == 0
        &&& (ctrl | (0x1000_0000u32 | 0x0800_0000u32)) & 0x1000_0000u32 != 0
        &&& (ctrl | (0x1000_0000u32 | 0x0800_0000u32)) & 0x0800_0000u32 != 0
        &&& (ctrl & !(0x1000_0000u32 | 0x0800_0000u32)) & !(0x1000_0000u32 | 0x0800_0000u32) == n
        &&& ((ctrl & !0x1000_0000u32) | 0x0800_0000u32) & !(0x1000_0000u32 | 0x0800_0000u32) == n
        &&& ((ctrl & !0x0800_0000u32) | 0x1000_0000u32) & !(0x1000_0000u32 | 0x0800_0000u32) == n
        &&& (ctrl | (0x1000_0000u32 | 0x0800_0000u32)) & !(0x1000_0000u32 | 0x0800_0000u32) == n
    }) by (bit_vector)
        requires
            n == ctrl & !(0x1000_0000u32 | 0x0800_0000u32),
    ;
}

/// Forces the MAC's transmit/receive pause enables to the current
/// flow-control mode; the "default" mode is refused (after the read).
pub fn force_mac_fc_generic<P: Platform>(adapter: &mut Adapter<P>) -> (r: AdResult)
    ensures
        final(adapter).same_state(old(adapter)),
        r.is_err() <==> old(adapter).hw.fc.current_mode == FcMode::Default,
        final(adapter).logged(
            old(adapter),
            if r.is_err() {
                seq![IoOp::Read { reg: E1000_CTRL, value: final(adapter).read_at(old(adapter), 0) }]
            } else {
                seq![
                    IoOp::Read { reg: E1000_CTRL, value: final(adapter).read_at(old(adapter), 0) },
                    IoOp::Write {
                        reg: E1000_CTRL,
                        value: fc_ctrl(
                            final(adapter).read_at(old(adapter), 0),
                            old(adapter).hw.fc.current_mode,
                        ),
                    },
                ]
            },
        ),
{
    let mut ctrl = do_read_register(adapter, E1000_CTRL);
    match adapter.hw.fc.current_mode {
        FcMode::NoPause => ctrl &= !(E1000_CTRL_TFCE | E1000_CTRL_RFCE),
        FcMode::RxPause => {
            ctrl &= !E1000_CTRL_TFCE;
            ctrl |= E1000_CTRL_RFCE;
        },
        FcMode::TxPause => {
            ctrl &= !E1000_CTRL_RFCE;
            ctrl |= E1000_CTRL_TFCE;
        },
        FcMode::Full => ctrl |= E1000_CTRL_TFCE | E1000_CTRL_RFCE,
        _ => return Err("Flow control param set incorrectly".to_string()),
    }
    do_write_register(adapter, E1000_CTRL, ctrl);
    Ok(())
}


// ------------------------------------------------------------ counters

/// The statistics registers every MAC clears by reading, in reading order.
pub open spec fn base_counter_regs() -> Seq<u32> {
    seq![
        E1000_CRCERRS,
        E1000_SYMERRS,
        E1000_MPC,
        E1000_SCC,
        E1000_ECOL,
        E1000_MCC,
        E1000_LATECOL,
        E1000_COLC,
        E1000_DC,
        E1000_SEC,
        E1000_RLEC,
        E1000_XONRXC,
        E1000_XONTXC,
        E1000_XOFFRXC,
        E1000_XOFFTXC,
        E1000_FCRUC,
        E1000_GPRC,
        E1000_BPRC,
        E1000_MPRC,
        E1000_GPTC,
        E1000_GORCL,
        E1000_GORCH,
        E1000_GOTCL,
        E1000_GOTCH,
        E1000_RNBC,
        E1000_RUC,
        E1000_RFC,
        E1000_ROC,
        E1000_RJC,
        E1000_TORL,
        E1000_TORH,
        E1000_TOTL,
        E1000_TOTH,
        E1000_TPR,
        E1000_TPT,
        E1000_MPTC,
        E1000_BPTC
    ]
}

/// Clears the base statistics counters by reading each of
/// `base_counter_regs`, in order.
pub fn clear_hw_cntrs_base_generic<P: Platform>(adapter: &mut Adapter<P>)
    ensures
        final(adapter).same_state(old(adapter)),
        final(adapter).log_extends(old(adapter)),
        final(adapter).new_ops(old(adapter)).len() == base_counter_regs().len(),
        forall|k: int|
            0 <= k < base_counter_regs().len() ==> is_read_of(
                #[trigger] final(adapter).new_ops(old(adapter))[k],
                base_counter_regs()[k],
            ),
{
    let regs: [u32; 37] = [
        E1000_CRCERRS,
        E1000_SYMERRS,
        E1000_MPC,
        E1000_SCC,
        E1000_ECOL,
        E1000_MCC,
        E1000_LATECOL,
        E1000_COLC,
        E1000_DC,
        E1000_SEC,
        E1000_RLEC,
        E1000_XONRXC,
        E1000_XONTXC,
        E1000_XOFFRXC,
        E1000_XOFFTXC,
        E1000_FCRUC,
        E1000_GPRC,
        E1000_BPRC,
        E1000_MPRC,
        E1000_GPTC,
        E1000_GORCL,
        E1000_GORCH,
        E1000_GOTCL,
        E1000_GOTCH,
        E1000_RNBC,
        E1000_RUC,
        E1000_RFC,
        E1000_ROC,
        E1000_RJC,
        E1000_TORL,
        E1000_TORH,
        E1000_TOTL,
        E1000_TOTH,
        E1000_TPR,
        E1000_TPT,
        E1000_MPTC,
        E1000_BPTC
    ];
    assert(regs@ =~= base_counter_regs());
    let mut k: usize = 0;
    while k < 37
        invariant
            k <= 37,
            regs@ == base_counter_regs(),
            adapter.same_state(old(adapter)),
            adapter.log_extends(old(adapter)),
            adapter.io_log@.len() == old(adapter).io_log@.len() + k,
            forall|j: int|
                0 <= j < k ==> is_read_of(
                    #[trigger] adapter.io_log@[old(adapter).io_log@.len() + j],
                    regs@[j],
                ),
        decreases 37 - k,
    {
        do_read_register(adapter, regs[k]);
        k = k + 1;
    }
    proof {
        assert forall|j: int| 0 <= j < 37 implies is_read_of(
            #[trigger] adapter.new_ops(old(adapter))[j],
            base_counter_regs()[j],
        ) by {
            assert(adapter.new_ops(old(adapter))[j] == adapter.io_log@[old(adapter).io_log@.len() + j]);
        }
    }
}

// ------------------------------------------------------------ bus

/// Waits for the hardware to finish reading the NVM: reads the EEPROM
/// control register until the auto-read-done bit shows, up to
/// `AUTO_READ_DONE_TIMEOUT` times 1 ms apart; refused if it never shows.
pub fn get_auto_rd_done_generic<P: Platform>(adapter: &mut Adapter<P>) -> (r: AdResult)
    ensures
        final(adapter).same_state(old(adapter)),
        final(adapter).log_extends(old(adapter)),
        r.is_ok() ==> is_read_of(final(adapter).io_log@.last(), E1000_EECD) && read_value(
            final(adapter).io_log@.last(),
        ) & E1000_EECD_AUTO_RD != 0,
        r.is_err() ==> final(adapter).new_ops(old(adapter)).len() == 2 * AUTO_READ_DONE_TIMEOUT,
        r.is_err() ==> forall|k: int|
            0 <= k < AUTO_READ_DONE_TIMEOUT ==> is_read_of(
                #[trigger] final(adapter).io_log@[old(adapter).io_log@.len() + 2 * k],
                E1000_EECD,
            ) && read_value(final(adapter).io_log@[old(adapter).io_log@.len() + 2 * k]) & E1000_EECD_AUTO_RD
                == 0,
{
    let mut i: u32 = 0;
    while i < AUTO_READ_DONE_TIMEOUT
        invariant_except_break
            adapter.io_log@.len() == old(adapter).io_log@.len() + 2 * i,
        invariant
            i <= AUTO_READ_DONE_TIMEOUT,
            adapter.same_state(old(adapter)),
            adapter.log_extends(old(adapter)),
            forall|k: int|
                0 <= k < i ==> is_read_of(
                    #[trigger] adapter.io_log@[old(adapter).io_log@.len() + 2 * k],
                    E1000_EECD,
                ) && read_value(adapter.io_log@[old(adapter).io_log@.len() + 2 * k]) & E1000_EECD_AUTO_RD
                    == 0,
        ensures
            adapter.same_state(old(adapter)),
            adapter.log_extends(old(adapter)),
            i < AUTO_READ_DONE_TIMEOUT ==> is_read_of(adapter.io_log@.last(), E1000_EECD) && read_value(
                adapter.io_log@.last(),
            ) & E1000_EECD_AUTO_RD != 0,
            i == AUTO_READ_DONE_TIMEOUT ==> adapter.io_log@.len() == old(adapter).io_log@.len() + 2 * i,
        decreases AUTO_READ_DONE_TIMEOUT - i,
    {
        let ghost s0 = *adapter;
        let v = adapter.read_register(E1000_EECD);
        if v & E1000_EECD_AUTO_RD != 0 {
            break;
        }
        let ghost s1 = *adapter;
        do_msec_delay(adapter, 1);
        proof {
            let b = old(adapter).io_log@.len() as int;
            assert(adapter.io_log@[b + 2 * i] == s1.io_log@[b + 2 * i]);
            assert(s1.io_log@[b + 2 * i] == (IoOp::Read { reg: E1000_EECD, value: v }));
            assert forall|k: int| 0 <= k < i + 1 implies is_read_of(
                #[trigger] adapter.io_log@[b + 2 * k],
                E1000_EECD,
            ) && read_value(adapter.io_log@[b + 2 * k]) & E1000_EECD_AUTO_RD == 0 by {
                if k < i {
                    assert(adapter.io_log@[b + 2 * k] == s0.io_log@[b + 2 * k]);
                }
            }
        }
        i = i + 1;
    }
    if i == AUTO_READ_DONE_TIMEOUT {
        Err("Auto read by HW from NVM has not completed".to_string())
    } else {
        Ok(())
    }
}

/// Disables PCI Express master access and waits for the pending master
/// requests to drain: sets the master-disable bit, then reads the status
/// register until the master-enable bit clears, up to
/// `MASTER_DISABLE_TIMEOUT` times 100 us apart; refused if it never clears.
/// Nothing is done on other buses.
pub fn disable_pcie_master_generic<P: Platform>(adapter: &mut Adapter<P>) -> (r: AdResult)
    ensures
        final(adapter).same_state(old(adapter)),
        final(adapter).log_extends(old(adapter)),
        old(adapter).hw.bus.bustype != BusType::Pci_express ==> r.is_ok() && final(adapter).io_log@
            == old(adapter).io_log@,
        old(adapter).hw.bus.bustype == BusType::Pci_express ==> final(adapter).new_ops(old(adapter)).len()
            >= 2 && is_read_of(final(adapter).new_ops(old(adapter))[0], E1000_CTRL) && final(adapter).new_ops(old(adapter))[1] == (IoOp::Write {
            reg: E1000_CTRL,
            value: read_value(final(adapter).new_ops(old(adapter))[0]) | E1000_CTRL_GIO_MASTER_DISABLE,
        }),
        old(adapter).hw.bus.bustype == BusType::Pci_express && r.is_ok() ==> is_read_of(
            final(adapter).io_log@.last(),
            E1000_STATUS,
        ) && read_value(final(adapter).io_log@.last()) & E1000_STATUS_GIO_MASTER_ENABLE == 0,
        r.is_err() ==> old(adapter).hw.bus.bustype == BusType::Pci_express && forall|k: int|
            0 <= k < MASTER_DISABLE_TIMEOUT ==> is_read_of(
                #[trigger] final(adapter).io_log@[old(adapter).io_log@.len() + 2 + 2 * k],
                E1000_STATUS,
            ) && read_value(final(adapter).io_log@[old(adapter).io_log@.len() + 2 + 2 * k])
                & E1000_STATUS_GIO_MASTER_ENABLE != 0,
{
    if adapter.hw.bus.bustype != BusType::Pci_express {
        return Ok(());
    }
    adapter.set_register_bit(E1000_CTRL, E1000_CTRL_GIO_MASTER_DISABLE);
    let ghost first = adapter.io_log@;
    let mut timeout: u32 = MASTER_DISABLE_TIMEOUT;
    while timeout > 0
        invariant_except_break
            adapter.io_log@.len() == first.len() + 2 * (MASTER_DISABLE_TIMEOUT - timeout),
        invariant
            timeout <= MASTER_DISABLE_TIMEOUT,
            adapter.same_state(old(adapter)),
            adapter.log_extends(old(adapter)),
            first.len() == old(adapter).io_log@.len() + 2,
            adapter.io_log@.len() >= first.len(),
            forall|k: int| 0 <= k < first.len() ==> adapter.io_log@[k] == first[k],
            forall|k: int|
                0 <= k < MASTER_DISABLE_TIMEOUT - timeout ==> is_read_of(
                    #[trigger] adapter.io_log@[first.len() + 2 * k],
                    E1000_STATUS,
                ) && read_value(adapter.io_log@[first.len() + 2 * k]) & E1000_STATUS_GIO_MASTER_ENABLE != 0,
        ensures
            adapter.same_state(old(adapter)),
            adapter.log_extends(old(adapter)),
            adapter.io_log@.len() >= first.len(),
            forall|k: int| 0 <= k < first.len() ==> adapter.io_log@[k] == first[k],
            timeout > 0 ==> is_read_of(adapter.io_log@.last(), E1000_STATUS) && read_value(
                adapter.io_log@.last(),
            ) & E1000_STATUS_GIO_MASTER_ENABLE == 0,
        decreases timeout,
    {
        let ghost s0 = *adapter;
        let v = adapter.read_register(E1000_STATUS);
        if v & E1000_STATUS_GIO_MASTER_ENABLE == 0 {
            break;
        }
        let ghost s1 = *adapter;
        do_usec_delay(adapter, 100);
        proof {
            let b = first.len() as int;
            let n = MASTER_DISABLE_TIMEOUT - timeout;
            assert(adapter.io_log@[b + 2 * n] == s1.io_log@[b + 2 * n]);
            assert(s1.io_log@[b + 2 * n] == (IoOp::Read { reg: E1000_STATUS, value: v }));
            assert forall|k: int| 0 <= k < n + 1 implies is_read_of(
                #[trigger] adapter.io_log@[b + 2 * k],
                E1000_STATUS,
            ) && read_value(adapter.io_log@[b + 2 * k]) & E1000_STATUS_GIO_MASTER_ENABLE != 0 by {
                if k < n {
                    assert(adapter.io_log@[b + 2 * k] == s0.io_log@[b + 2 * k]);
                }
            }
        }
        timeout = timeout - 1;
    }
    proof {
        let n = adapter.new_ops(old(adapter));
        assert(n[0] == first[old(adapter).io_log@.len() as int]);
        assert(n[1] == first[old(adapter).io_log@.len() + 1int]);
    }
    if timeout == 0 {
        proof {
            assert forall|k: int| 0 <= k < MASTER_DISABLE_TIMEOUT implies is_read_of(
                #[trigger] adapter.io_log@[old(adapter).io_log@.len() + 2 + 2 * k],
                E1000_STATUS,
            ) && read_value(adapter.io_log@[old(adapter).io_log@.len() + 2 + 2 * k])
                & E1000_STATUS_GIO_MASTER_ENABLE != 0 by {
                assert(adapter.io_log@[first.len() + 2 * k] == adapter.io_log@[old(adapter).io_log@.len() + 2 + 2 * k]);
            }
        }
        return Err("Master requests are pending".to_string());
    }
    Ok(())
}

/// Enables PCI Express no-snoop for the events in `no_snoop`: replaces the
/// no-snoop bits of the GIO control register. Nothing is done on other
/// buses or for an empty set.
pub fn set_pcie_no_snoop_generic<P: Platform>(adapter: &mut Adapter<P>, no_snoop: u32)
    ensures
        final(adapter).same_state(old(adapter)),
        old(adapter).hw.bus.bustype != BusType::Pci_express || no_snoop == 0 ==> final(adapter).io_log@
            == old(adapter).io_log@,
        old(adapter).hw.bus.bustype == BusType::Pci_express && no_snoop != 0 ==> final(adapter).logged(
            old(adapter),
            seq![
                IoOp::Read { reg: E1000_GCR, value: final(adapter).read_at(old(adapter), 0) },
                IoOp::Write {
                    reg: E1000_GCR,
                    value: (final(adapter).read_at(old(adapter), 0) & !PCIE_NO_SNOOP_ALL) | no_snoop,
                },
            ],
        ),
{
    if adapter.hw.bus.bustype != BusType::Pci_express {
        return;
    }
    if no_snoop != 0 {
        let mut gcr = adapter.read_register(E1000_GCR);
        gcr = gcr & !PCIE_NO_SNOOP_ALL;
        gcr = gcr | no_snoop;
        adapter.write_register(E1000_GCR, gcr);
    }
}

/// The PCI-X maximum-memory-read-byte-count workaround is not implemented by
/// this driver: does nothing.
pub fn pcix_mmrbc_workaround_generic<P: Platform>(adapter: &mut Adapter<P>)
    ensures
        final(adapter).same_state(old(adapter)),
        final(adapter).io_log@ == old(adapter).io_log@,
{
}

// ------------------------------------------------------------ receive addresses

impl<P: Platform> Adapter<P> {
    /// Writes receive-address entry `index` with the installed routine;
    /// refused when none is installed.
    pub fn rar_set(&mut self, addr: &[u8], index: usize) -> (r: AdResult)
        requires
            addr@.len() >= 6,
            index < 0x1000_0000,
        ensures
            final(self).same_state(old(self)),
            r.is_ok() == old(self).hw.mac.ops.rar_set,
            !old(self).hw.mac.ops.rar_set ==> final(self).io_log@ == old(self).io_log@,
            old(self).hw.mac.ops.rar_set ==> final(self).logged(
                old(self),
                seq![
                    IoOp::Write { reg: spec_ral(index), value: rar_low(addr@) },
                    IoOp::Read { reg: E1000_STATUS, value: final(self).read_at(old(self), 1) },
                    IoOp::Write { reg: spec_rah(index), value: rar_high(addr@) },
                    IoOp::Read { reg: E1000_STATUS, value: final(self).read_at(old(self), 3) },
                ],
            ),
    {
        if self.hw.mac.ops.rar_set {
            rar_set_generic(self, addr, index)
        } else {
            Err("No function: rar_set()".to_string())
        }
    }
}

/// The receive-address entry writes for entry `i` with address `a`, as
/// four trace operations starting at `k`.
pub open spec fn rar_written(ops: Seq<IoOp>, k: int, i: usize, a: Seq<u8>) -> bool {
    &&& ops[k] == IoOp::Write { reg: spec_ral(i), value: rar_low(a) }
    &&& is_read_of(ops[k + 1], E1000_STATUS)
    &&& ops[k + 2] == IoOp::Write { reg: spec_rah(i), value: rar_high(a) }
    &&& is_read_of(ops[k + 3], E1000_STATUS)
}

/// The all-zero MAC address.
pub open spec fn zero_mac() -> Seq<u8> {
    seq![0u8, 0u8, 0u8, 0u8, 0u8, 0u8]
}

/// Sets up the receive addresses: entry 0 gets the MAC address, entries 1
/// to `rar_count - 1` are zeroed. Refused without the entry writer.
pub fn init_rx_addrs_generic<P: Platform>(adapter: &mut Adapter<P>, rar_count: usize) -> (r: AdResult)
    requires
        rar_count < 0x1000_0000,
    ensures
        final(adapter).same_state(old(adapter)),
        r.is_ok() == old(adapter).hw.mac.ops.rar_set,
        !old(adapter).hw.mac.ops.rar_set ==> final(adapter).io_log@ == old(adapter).io_log@,
        old(adapter).hw.mac.ops.rar_set ==> final(adapter).log_extends(old(adapter)),
        old(adapter).hw.mac.ops.rar_set ==> final(adapter).new_ops(old(adapter)).len() == 4 * (
        if rar_count == 0 {
            1
        } else {
            rar_count as int
        }),
        old(adapter).hw.mac.ops.rar_set ==> rar_written(
            final(adapter).new_ops(old(adapter)),
            0,
            0,
            old(adapter).hw.mac.addr@,
        ),
        old(adapter).hw.mac.ops.rar_set ==> forall|i: int|
            1 <= i < rar_count ==> #[trigger] rar_written(
                final(adapter).new_ops(old(adapter)),
                4 * i,
                i as usize,
                zero_mac(),
            ),
{
    let zero_addr: [u8; 6] = [0, 0, 0, 0, 0, 0];
    assert(zero_addr@ =~= zero_mac());
    let hw_addr: [u8; 6] = adapter.hw.mac.addr;
    let res = adapter.rar_set(&hw_addr, 0);
    if res.is_err() {
        return res;
    }
    let ghost start = old(adapter).io_log@.len();
    let mut i: usize = 1;
    while i < rar_count
        invariant
            1 <= i,
            i <= rar_count || rar_count == 0,
            rar_count == 0 ==> i == 1,
            rar_count < 0x1000_0000,
            zero_addr@ == zero_mac(),
            adapter.hw.mac.ops.rar_set,
            start == old(adapter).io_log@.len(),
            adapter.same_state(old(adapter)),
            adapter.log_extends(old(adapter)),
            adapter.io_log@.len() == start + 4 * i,
            rar_written(adapter.io_log@.subrange(start as int, adapter.io_log@.len() as int), 0, 0, hw_addr@),
            forall|j: int|
                1 <= j < i ==> #[trigger] rar_written(
                    adapter.io_log@.subrange(start as int, adapter.io_log@.len() as int),
                    4 * j,
                    j as usize,
                    zero_addr@,
                ),
        decreases rar_count - i,
    {
        let ghost before = adapter.io_log@;
        let res = adapter.rar_set(&zero_addr, i);
        proof {
            let a = adapter.io_log@.subrange(start as int, adapter.io_log@.len() as int);
            let b = before.subrange(start as int, before.len() as int);
            assert forall|q: int| 0 <= q < b.len() implies a[q] == b[q] by {
                assert(a[q] == adapter.io_log@[start + q]);
            }
            assert(rar_written(a, 0, 0, hw_addr@));
            assert forall|j: int| 1 <= j < i + 1 implies #[trigger] rar_written(a, 4 * j, j as usize, zero_addr@) by {
                if j < i {
                    assert(rar_written(b, 4 * j, j as usize, zero_addr@));
                } else {
                    assert(a[4 * j] == adapter.io_log@[start + 4 * j]);
                    assert(a[4 * j + 1] == adapter.io_log@[start + 4 * j + 1]);
                    assert(a[4 * j + 2] == adapter.io_log@[start + 4 * j + 2]);
                    assert(a[4 * j + 3] == adapter.io_log@[start + 4 * j + 3]);
                }
            }
        }
        i = i + 1;
    }
    proof {
        let n = adapter.new_ops(old(adapter));
        assert(n =~= adapter.io_log@.subrange(start as int, adapter.io_log@.len() as int));
        assert(hw_addr@ == old(adapter).hw.mac.addr@);
        assert(rar_count >= 1 ==> i == rar_count);
    }
    Ok(())
}

// ------------------------------------------------------------ LED defaults

/// Reads the LED setting word from the NVM into `data[0]`, replacing a
/// reserved value (all zeros or all ones) by `ID_LED_DEFAULT`.
pub fn valid_led_default_generic<P: Platform>(adapter: &mut Adapter<P>, data: &mut [u16]) -> (r: AdResult)
    requires
        old(data)@.len() >= 1,
        old(adapter).hw.nvm.ops.read ==> 1 <= old(adapter).hw.nvm.opcode_bits <= 16 && 1 <= old(adapter).hw.nvm.address_bits <= 16,
    ensures
        final(adapter).same_state(old(adapter)),
        final(adapter).log_extends(old(adapter)),
        final(data)@.len() == old(data)@.len(),
        !old(adapter).hw.nvm.ops.read ==> r.is_err() && final(data)@ == old(data)@,
        r.is_ok() ==> final(data)@[0] != ID_LED_RESERVED_0000 && final(data)@[0] != ID_LED_RESERVED_FFFF,
{
    let res = adapter.nvm_read(NVM_ID_LED_SETTINGS, 1, data);
    if res.is_err() {
        return res;
    }
    if data[0] == ID_LED_RESERVED_0000 || data[0] == ID_LED_RESERVED_FFFF {
        data[0] = ID_LED_DEFAULT;
    }
    Ok(())
}

/// Initialises the LED modes: reads the LED setting word (through the
/// installed NVM routine, whose own failure is ignored), takes the LED
/// control register as the default and derives the two modes from the word
/// (`id_led_modes`). Refused when no NVM routine is installed.
#[verifier::spinoff_prover]
#[verifier::rlimit(100)]
pub fn id_led_init_generic<P: Platform>(adapter: &mut Adapter<P>) -> (r: AdResult)
    requires
        old(adapter).hw.nvm.ops.read ==> 1 <= old(adapter).hw.nvm.opcode_bits <= 16 && 1 <= old(adapter).hw.nvm.address_bits <= 16,
    ensures
        final(adapter).same_except_hw(old(adapter)),
        final(adapter).log_extends(old(adapter)),
        r.is_ok() == old(adapter).hw.nvm.ops.valid_led_default,
        r.is_err() ==> final(adapter).same_state(old(adapter)) && final(adapter).io_log@ == old(adapter).io_log@,
        r.is_ok() ==> is_read_of(final(adapter).io_log@.last(), E1000_LEDCTL)
            && final(adapter).hw.mac.ledctl_default == read_value(final(adapter).io_log@.last())
            && exists|d: u16|
            (final(adapter).hw.mac.ledctl_mode1, final(adapter).hw.mac.ledctl_mode2) == (
            #[trigger] led_modes(d, final(adapter).hw.mac.ledctl_default, 4, true),
            led_modes(d, final(adapter).hw.mac.ledctl_default, 4, false),
        ),
{
    if !adapter.hw.nvm.ops.valid_led_default {
        return Err("No function: valid_led_default".to_string());
    }
    let mut data: [u16; 1] = [0];
    let _ = valid_led_default_generic(adapter, &mut data);
    let word: u16 = data[0];
    let ledctl = adapter.read_register(E1000_LEDCTL);
    let (m1, m2) = id_led_modes(word, ledctl);
    adapter.hw.mac.ledctl_default = ledctl;
    adapter.hw.mac.ledctl_mode1 = m1;
    adapter.hw.mac.ledctl_mode2 = m2;
    assert((adapter.hw.mac.ledctl_mode1, adapter.hw.mac.ledctl_mode2) == (
        led_modes(word, adapter.hw.mac.ledctl_default, 4, true),
        led_modes(word, adapter.hw.mac.ledctl_default, 4, false),
    ));
    Ok(())
}

} // verus!
