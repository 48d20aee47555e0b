//! The 8254x family: the 82540/82545/82546 MAC, PHY and NVM set-up, reset
//! and initialisation, and the 82541/82543 hooks.
use vstd::prelude::*;
use crate::adapter::{
    AdResult, Adapter, do_msec_delay, do_read_register, do_write_flush, do_write_register,
    do_write_register_array, do_write_register_io, lemma_same_except_hw_trans,
};
use crate::consts::{
    AUTONEG_ADVERTISE_SPEED_DEFAULT, E1000_ALGNERRC, E1000_CEXTERR, E1000_CTRL, E1000_CTRL_DUP,
    E1000_CTRL_RST, E1000_DEV_ID_82545EM_FIBER, E1000_DEV_ID_82545GM_FIBER,
    E1000_DEV_ID_82545GM_SERDES, E1000_DEV_ID_82546EB_FIBER, E1000_DEV_ID_82546GB_FIBER,
    E1000_DEV_ID_82546GB_SERDES, E1000_EECD, E1000_EECD_SIZE, E1000_FUNC_1, E1000_ICR,
    E1000_IMC, E1000_MANC, E1000_MANC_ARP_EN, E1000_MGTPDC, E1000_MGTPRC, E1000_MGTPTC,
    E1000_MTA, E1000_PRC1023, E1000_PRC127, E1000_PRC1522, E1000_PRC255, E1000_PRC511,
    E1000_PRC64, E1000_PTC1023, E1000_PTC127, E1000_PTC1522, E1000_PTC255, E1000_PTC511,
    E1000_PTC64, E1000_RAR_ENTRIES, E1000_RCTL, E1000_RXERRC, E1000_STATUS, E1000_TCTL,
    E1000_TCTL_PSP, E1000_TNCRS, E1000_TSCTC, E1000_TSCTFC, E1000_TXDCTL_FULL_TX_DESC_WB,
    E1000_TXDCTL_WTHRESH, E1000_VET, M88E1011_I_PHY_ID,
};
use crate::hw::{
    BusInfoFn, DevSpec, Hardware, LanIdFn, MacAddrFn, MacInfo, MacOps, MacType, MediaFn,
    MediaType, NvmInfo, NvmOps, NvmOverride, NvmType, PhyInfo, PhyModel, PhyOps, PhyRegAccess,
    PhyType,
};
use crate::link::{setup_link_generic};
use crate::mac::{
    base_counter_regs, clear_hw_cntrs_base_generic, clear_vfta_generic, init_rx_addrs_generic,
    pcix_mmrbc_workaround_generic,
};
use crate::phy::{get_phy_id, lemma_only_phy_facts};
use crate::platform::{IoOp, Platform, is_read_of, read_value};
use crate::regs::{E1000_TXDCTL};

verus! {

// ------------------------------------------------------------ parameters

/// Installs the family's parameter routines.
#[verifier::spinoff_prover]
#[verifier::rlimit(100)]
pub fn init_function_pointers<P: Platform>(adapter: &mut Adapter<P>) -> (r: AdResult)
    ensures
        r.is_ok(),
        final(adapter).same_except_hw(old(adapter)),
        final(adapter).io_log@ == old(adapter).io_log@,
        final(adapter).hw == (Hardware {
            mac: final(adapter).hw.mac,
            nvm: final(adapter).hw.nvm,
            phy: final(adapter).hw.phy,
            ..old(adapter).hw
        }),
        final(adapter).hw.mac == (MacInfo { ops: final(adapter).hw.mac.ops, ..old(adapter).hw.mac }),
        final(adapter).hw.nvm == (NvmInfo { ops: final(adapter).hw.nvm.ops, ..old(adapter).hw.nvm }),
        final(adapter).hw.phy == (PhyInfo { ops: final(adapter).hw.phy.ops, ..old(adapter).hw.phy }),
        final(adapter).hw.mac.ops == (MacOps { init_params: true, ..old(adapter).hw.mac.ops }),
        final(adapter).hw.nvm.ops == (NvmOps { init_params: true, ..old(adapter).hw.nvm.ops }),
        final(adapter).hw.phy.ops == (PhyOps { init_params: true, ..old(adapter).hw.phy.ops }),
{
    let mac_ops = MacOps { init_params: true, ..adapter.hw.mac.ops };
    let nvm_ops = NvmOps { init_params: true, ..adapter.hw.nvm.ops };
    let phy_ops = PhyOps { init_params: true, ..adapter.hw.phy.ops };
    adapter.hw.mac.ops = mac_ops;
    adapter.hw.nvm.ops = nvm_ops;
    adapter.hw.phy.ops = phy_ops;
    Ok(())
}

/// The media a device of the family uses, by device id.
pub open spec fn media_of_device(device_id: u16) -> MediaType {
    if device_id == E1000_DEV_ID_82545EM_FIBER || device_id == E1000_DEV_ID_82545GM_FIBER
        || device_id == E1000_DEV_ID_82546EB_FIBER || device_id == E1000_DEV_ID_82546GB_FIBER {
        MediaType::Fiber
    } else if device_id == E1000_DEV_ID_82545GM_SERDES || device_id
        == E1000_DEV_ID_82546GB_SERDES {
        MediaType::InternalSerdes
    } else {
        MediaType::Copper
    }
}

/// The MAC routines the family installs for media `m` on top of `ops`.
pub open spec fn mac_ops_8254x(ops: MacOps, m: MediaType) -> MacOps {
    MacOps {
        get_bus_info: Some(BusInfoFn::PciGeneric),
        set_lan_id: Some(LanIdFn::MultiPortPci),
        reset_hw: true,
        init_hw: true,
        setup_link: true,
        setup_physical_interface: Some(
            if m == MediaType::Copper {
                MediaFn::Copper
            } else {
                MediaFn::Serdes
            },
        ),
        check_for_link: Some(
            if m == MediaType::Copper {
                MediaFn::Copper
            } else if m == MediaType::Fiber {
                MediaFn::Fiber
            } else {
                MediaFn::Serdes
            },
        ),
        get_link_up_info: Some(
            if m == MediaType::Copper {
                MediaFn::Copper
            } else {
                MediaFn::Serdes
            },
        ),
        update_mc_addr_list: true,
        write_vfta: true,
        clear_vfta: true,
        read_mac_addr: Some(MacAddrFn::E82540),
        id_led_init: true,
        setup_led: true,
        cleanup_led: true,
        led_on: true,
        led_off: true,
        clear_hw_cntrs: true,
        ..ops
    }
}

/// The media of device `d` (`media_of_device`).
fn media_for(d: u16) -> (m: MediaType)
    ensures
        m == media_of_device(d),
{
    if d == E1000_DEV_ID_82545EM_FIBER || d == E1000_DEV_ID_82545GM_FIBER || d
        == E1000_DEV_ID_82546EB_FIBER || d == E1000_DEV_ID_82546GB_FIBER {
        MediaType::Fiber
    } else if d == E1000_DEV_ID_82545GM_SERDES || d == E1000_DEV_ID_82546GB_SERDES {
        MediaType::InternalSerdes
    } else {
        MediaType::Copper
    }
}

/// Sets the table sizes and the MAC routines of the family for media `m`.
fn set_mac_8254x(mac: &mut MacInfo, m: MediaType) -> (r: AdResult)
    requires
        m == MediaType::Copper || m == MediaType::Fiber || m == MediaType::InternalSerdes,
    ensures
        r.is_ok(),
        *final(mac) == (MacInfo {
            mta_reg_count: 128,
            rar_entry_count: E1000_RAR_ENTRIES,
            ops: mac_ops_8254x(old(mac).ops, m),
            ..*old(mac)
        }),
{
    let link = match m {
        MediaType::Copper => MediaFn::Copper,
        MediaType::Fiber => MediaFn::Fiber,
        MediaType::InternalSerdes => MediaFn::Serdes,
        _ => return Err("No function for check_for_link".to_string()),
    };
    let phys = if m == MediaType::Copper {
        MediaFn::Copper
    } else {
        MediaFn::Serdes
    };
    let ops = MacOps {
        get_bus_info: Some(BusInfoFn::PciGeneric),
        set_lan_id: Some(LanIdFn::MultiPortPci),
        reset_hw: true,
        init_hw: true,
        setup_link: true,
        setup_physical_interface: Some(phys),
        check_for_link: Some(link),
        get_link_up_info: Some(phys),
        update_mc_addr_list: true,
        write_vfta: true,
        clear_vfta: true,
        read_mac_addr: Some(MacAddrFn::E82540),
        id_led_init: true,
        setup_led: true,
        cleanup_led: true,
        led_on: true,
        led_off: true,
        clear_hw_cntrs: true,
        ..mac.ops
    };
    mac.mta_reg_count = 128;
    mac.rar_entry_count = E1000_RAR_ENTRIES;
    mac.ops = ops;
    Ok(())
}

/// Sets the MAC parameters of the family: the media from the device id,
/// 128 multicast table registers, `E1000_RAR_ENTRIES` receive addresses,
/// and the MAC routines (`mac_ops_8254x`).
#[verifier::spinoff_prover]
#[verifier::rlimit(100)]
pub fn init_mac_params<P: Platform>(adapter: &mut Adapter<P>) -> (r: AdResult)
    ensures
        r.is_ok(),
        final(adapter).same_except_hw(old(adapter)),
        final(adapter).io_log@ == old(adapter).io_log@,
        final(adapter).hw == (Hardware {
            phy: final(adapter).hw.phy,
            mac: final(adapter).hw.mac,
            ..old(adapter).hw
        }),
        final(adapter).hw.phy == (PhyInfo {
            media_type: media_of_device(old(adapter).hw.device_id),
            ..old(adapter).hw.phy
        }),
        final(adapter).hw.mac == (MacInfo {
            mta_reg_count: 128,
            rar_entry_count: E1000_RAR_ENTRIES,
            ops: final(adapter).hw.mac.ops,
            ..old(adapter).hw.mac
        }),
        final(adapter).hw.mac.ops == mac_ops_8254x(
            old(adapter).hw.mac.ops,
            media_of_device(old(adapter).hw.device_id),
        ),
{
    let m = media_for(adapter.hw.device_id);
    adapter.hw.phy.media_type = m;
    set_mac_8254x(&mut adapter.hw.mac, m)
}

/// The PHY routines the family installs on top of `ops`.
pub open spec fn phy_ops_8254x(ops: PhyOps) -> PhyOps {
    PhyOps {
        check_polarity: Some(PhyModel::M88),
        commit: true,
        force_speed_duplex: Some(PhyModel::M88),
        get_cable_length: Some(PhyModel::M88),
        get_cfg_done: true,
        read_reg: Some(PhyRegAccess::M88),
        reset: true,
        write_reg: Some(PhyRegAccess::M88),
        get_info: Some(PhyModel::M88),
        power_up: true,
        power_down: true,
        ..ops
    }
}

/// The MAC types whose PHY id this family verifies.
pub open spec fn verifies_phy_id(t: MacType) -> bool {
    t == MacType::Mac_82540 || t == MacType::Mac_82545 || t == MacType::Mac_82545_rev_3 || t
        == MacType::Mac_82546 || t == MacType::Mac_82546_rev_3
}

/// Sets the PHY parameters of the family (address 1, the default speed
/// mask, a 10 ms reset delay, an M88 PHY and its routines), reads the PHY
/// identifier and checks that it is the M88E1011's. Refused for another
/// identifier or another MAC type.
#[verifier::spinoff_prover]
#[verifier::rlimit(100)]
pub fn init_phy_params<P: Platform>(adapter: &mut Adapter<P>) -> (r: AdResult)
    ensures
        final(adapter).same_except_hw(old(adapter)),
        final(adapter).log_extends(old(adapter)),
        final(adapter).hw == (Hardware { phy: final(adapter).hw.phy, ..old(adapter).hw }),
        final(adapter).hw.phy == (PhyInfo {
            addr: final(adapter).hw.phy.addr,
            id: final(adapter).hw.phy.id,
            revision: final(adapter).hw.phy.revision,
            autoneg_mask: AUTONEG_ADVERTISE_SPEED_DEFAULT,
            reset_delay_us: 10000,
            phy_type: PhyType::Type_m88,
            ops: phy_ops_8254x(old(adapter).hw.phy.ops),
            ..old(adapter).hw.phy
        }),
        final(adapter).hw.phy.ops == phy_ops_8254x(old(adapter).hw.phy.ops),
        final(adapter).hw.phy.phy_type == PhyType::Type_m88,
        final(adapter).hw.phy.autoneg_mask == AUTONEG_ADVERTISE_SPEED_DEFAULT,
        final(adapter).hw.phy.reset_delay_us == 10000,
        r.is_ok() ==> verifies_phy_id(old(adapter).hw.mac.mac_type)
            && final(adapter).hw.phy.id == M88E1011_I_PHY_ID,
{
    adapter.hw.phy.addr = 1;
    adapter.hw.phy.autoneg_mask = AUTONEG_ADVERTISE_SPEED_DEFAULT;
    adapter.hw.phy.reset_delay_us = 10000;
    adapter.hw.phy.phy_type = PhyType::Type_m88;
    adapter.hw.phy.ops.check_polarity = Some(PhyModel::M88);
    adapter.hw.phy.ops.commit = true;
    adapter.hw.phy.ops.force_speed_duplex = Some(PhyModel::M88);
    adapter.hw.phy.ops.get_cable_length = Some(PhyModel::M88);
    adapter.hw.phy.ops.get_cfg_done = true;
    adapter.hw.phy.ops.read_reg = Some(PhyRegAccess::M88);
    adapter.hw.phy.ops.reset = true;
    adapter.hw.phy.ops.write_reg = Some(PhyRegAccess::M88);
    adapter.hw.phy.ops.get_info = Some(PhyModel::M88);
    adapter.hw.phy.ops.power_up = true;
    adapter.hw.phy.ops.power_down = true;
    let ghost s0 = *adapter;
    let res = get_phy_id(adapter);
    proof {
        lemma_only_phy_facts(&s0, adapter);
    }
    if res.is_err() {
        return res;
    }
    match adapter.hw.mac.mac_type {
        MacType::Mac_82540 | MacType::Mac_82545 | MacType::Mac_82545_rev_3 | MacType::Mac_82546
        | MacType::Mac_82546_rev_3 => {
            if adapter.hw.phy.id == M88E1011_I_PHY_ID {
                Ok(())
            } else {
                Err("Could not verify phy id".to_string())
            }
        },
        _ => Err("Could not find mac type for match phy id".to_string()),
    }
}

/// The NVM routines the family installs on top of `ops`.
pub open spec fn nvm_ops_8254x(ops: NvmOps) -> NvmOps {
    NvmOps {
        acquire: true,
        read: true,
        release: true,
        update: true,
        valid_led_default: true,
        validate: true,
        write: true,
        ..ops
    }
}

/// Sets the NVM parameters of the family: a Microwire EEPROM with a 50 us
/// delay and 3 opcode bits, 8 address bits and 256 words when large (by
/// the override, or else by the size bit of the EEPROM control register
/// read), 6 and 64 otherwise, and the NVM routines.
pub fn init_nvm_params<P: Platform>(adapter: &mut Adapter<P>) -> (r: AdResult)
    ensures
        r.is_ok(),
        final(adapter).same_except_hw(old(adapter)),
        final(adapter).logged(
            old(adapter),
            seq![IoOp::Read { reg: E1000_EECD, value: final(adapter).read_at(old(adapter), 0) }],
        ),
        ({
            let large = if old(adapter).hw.nvm.nvmoverride == NvmOverride::MicrowireLarge {
                true
            } else if old(adapter).hw.nvm.nvmoverride == NvmOverride::MicrowireSmall {
                false
            } else {
                final(adapter).read_at(old(adapter), 0) & E1000_EECD_SIZE != 0
            };
            &&& final(adapter).hw == (Hardware { nvm: final(adapter).hw.nvm, ..old(adapter).hw })
            &&& final(adapter).hw.nvm.ops == nvm_ops_8254x(old(adapter).hw.nvm.ops)
            &&& final(adapter).hw.nvm == (NvmInfo {
                    nvm_type: NvmType::EepromMicrowire,
                    delay_usec: 50,
                    opcode_bits: 3,
                    address_bits: if large {
                        8
                    } else {
                        6
                    },
                    word_size: if large {
                        256
                    } else {
                        64
                    },
                    ops: final(adapter).hw.nvm.ops,
                    ..old(adapter).hw.nvm
                })
        }),
{
    let eecd = do_read_register(adapter, E1000_EECD);
    adapter.hw.nvm.nvm_type = NvmType::EepromMicrowire;
    adapter.hw.nvm.delay_usec = 50;
    adapter.hw.nvm.opcode_bits = 3;
    match adapter.hw.nvm.nvmoverride {
        NvmOverride::MicrowireLarge => {
            adapter.hw.nvm.address_bits = 8;
            adapter.hw.nvm.word_size = 256;
        },
        NvmOverride::MicrowireSmall => {
            adapter.hw.nvm.address_bits = 6;
            adapter.hw.nvm.word_size = 64;
        },
        _ => {
            adapter.hw.nvm.address_bits = if eecd & E1000_EECD_SIZE == 0 {
                6
            } else {
                8
            };
            adapter.hw.nvm.word_size = if eecd & E1000_EECD_SIZE == 0 {
                64
            } else {
                256
            };
        },
    }
    adapter.hw.nvm.ops.acquire = true;
    adapter.hw.nvm.ops.read = true;
    adapter.hw.nvm.ops.release = true;
    adapter.hw.nvm.ops.update = true;
    adapter.hw.nvm.ops.valid_led_default = true;
    adapter.hw.nvm.ops.validate = true;
    adapter.hw.nvm.ops.write = true;
    Ok(())
}

// ------------------------------------------------------------ MAC address

/// The MAC address held by the first three NVM words (each word low byte
/// first), with the last bit flipped on the second port (`func` 1).
pub open spec fn mac_from_words(w0: u16, w1: u16, w2: u16, func: u16) -> Seq<u8> {
    let second_port = func == E1000_FUNC_1;
    let b5 = (w2 >> 8u16) as u8;
    seq![
        (w0 & 0xff) as u8,
        (w0 >> 8u16) as u8,
        (w1 & 0xff) as u8,
        (w1 >> 8u16) as u8,
        (w2 & 0xff) as u8,
        if second_port {
            b5 ^ 1u8
        } else {
            b5
        },
    ]
}

/// The bytes of `mac_from_words`.
fn mac_bytes(w0: u16, w1: u16, w2: u16, func: u16) -> (a: [u8; 6])
    ensures
        a@ == mac_from_words(w0, w1, w2, func),
{
    let mut b5: u8 = (w2 >> 8u16) as u8;
    if func == E1000_FUNC_1 {
        b5 = b5 ^ 1;
    }
    let a: [u8; 6] = [
        (w0 & 0xff) as u8,
        (w0 >> 8u16) as u8,
        (w1 & 0xff) as u8,
        (w1 >> 8u16) as u8,
        (w2 & 0xff) as u8,
        b5,
    ];
    proof {
        assert(a@ =~= mac_from_words(w0, w1, w2, func));
    }
    a
}

/// Makes `a` both the permanent and the current address.
fn set_both_addrs<P: Platform>(adapter: &mut Adapter<P>, a: [u8; 6])
    ensures
        final(adapter).same_except_hw(old(adapter)),
        final(adapter).io_log@ == old(adapter).io_log@,
        final(adapter).hw == (Hardware {
            mac: MacInfo { perm_addr: a, addr: a, ..old(adapter).hw.mac },
            ..old(adapter).hw
        }),
{
    adapter.hw.mac.perm_addr = a;
    adapter.hw.mac.addr = a;
}

/// Reads NVM words 0, 1 and 2 one at a time.
fn read_first_words<P: Platform>(adapter: &mut Adapter<P>) -> (r: Result<[u16; 3], String>)
    requires
        old(adapter).hw.nvm.ops.read,
        1 <= old(adapter).hw.nvm.opcode_bits <= 16,
        1 <= old(adapter).hw.nvm.address_bits <= 16,
    ensures
        final(adapter).same_state(old(adapter)),
        final(adapter).log_extends(old(adapter)),
{
    let mut words: [u16; 3] = [0u16; 3];
    let mut k: usize = 0;
    while k < 3
        invariant
            k <= 3,
            words@.len() == 3,
            adapter.same_state(old(adapter)),
            adapter.log_extends(old(adapter)),
            old(adapter).hw.nvm.ops.read,
            1 <= old(adapter).hw.nvm.opcode_bits <= 16,
            1 <= old(adapter).hw.nvm.address_bits <= 16,
        decreases 3 - k,
    {
        let mut nvm_data: [u16; 1] = [0u16; 1];
        let res = adapter.nvm_read(k as u16, 1, &mut nvm_data);
        if res.is_err() {
            return Err("NVM read error".to_string());
        }
        words[k] = nvm_data[0];
        k = k + 1;
    }
    Ok(words)
}

/// Reads the permanent MAC address from the first three NVM words (low
/// byte first), flips its last bit on the second port, and makes it the
/// current address. Refused without an NVM reader or when a read fails.
#[verifier::spinoff_prover]
#[verifier::rlimit(100)]
pub fn read_mac_addr<P: Platform>(adapter: &mut Adapter<P>) -> (r: AdResult)
    requires
        old(adapter).hw.nvm.ops.read ==> 1 <= old(adapter).hw.nvm.opcode_bits <= 16 && 1 <= old(
            adapter).hw.nvm.address_bits <= 16,
    ensures
        final(adapter).same_except_hw(old(adapter)),
        final(adapter).log_extends(old(adapter)),
        !old(adapter).hw.nvm.ops.read ==> r.is_err() && final(adapter).same_state(old(adapter))
            && final(adapter).io_log@ == old(adapter).io_log@,
        r.is_err() ==> final(adapter).same_state(old(adapter)),
        r.is_ok() ==> final(adapter).hw == (Hardware { mac: final(adapter).hw.mac, ..old(adapter).hw }),
        r.is_ok() ==> final(adapter).hw.mac == (MacInfo {
            perm_addr: final(adapter).hw.mac.perm_addr,
            addr: final(adapter).hw.mac.perm_addr,
            ..old(adapter).hw.mac
        }),
        r.is_ok() ==> exists|w0: u16, w1: u16, w2: u16|
            final(adapter).hw.mac.perm_addr@ == #[trigger] mac_from_words(
                w0,
                w1,
                w2,
                old(adapter).hw.bus.func,
            ),
{
    if !adapter.hw.nvm.ops.read {
        return Err("No function".to_string());
    }
    let words = match read_first_words(adapter) {
        Ok(w) => w,
        Err(e) => return Err(e),
    };
    let ghost s1 = *adapter;
    let perm = mac_bytes(words[0], words[1], words[2], adapter.hw.bus.func);
    set_both_addrs(adapter, perm);
    proof {
        lemma_same_except_hw_trans(old(adapter), &s1, adapter);
    }
    Ok(())
}

// ------------------------------------------------------------ initialisation

/// Clears the `count` multicast table registers, flushing after each.
fn zero_mta<P: Platform>(adapter: &mut Adapter<P>, count: u16)
    ensures
        final(adapter).same_state(old(adapter)),
        final(adapter).log_extends(old(adapter)),
        final(adapter).io_log@.len() == old(adapter).io_log@.len() + 2 * count,
        forall|i: int|
            0 <= i < count ==> #[trigger] final(adapter).io_log@[old(adapter).io_log@.len() + 2 * i]
                == (IoOp::Write { reg: (E1000_MTA + 4 * i) as u32, value: 0 }) && is_read_of(
                final(adapter).io_log@[old(adapter).io_log@.len() + 2 * i + 1],
                E1000_STATUS,
            ),
{
    let mut i: u16 = 0;
    while i < count
        invariant
            i <= count,
            adapter.same_state(old(adapter)),
            adapter.log_extends(old(adapter)),
            adapter.io_log@.len() == old(adapter).io_log@.len() + 2 * i,
            forall|j: int|
                0 <= j < i ==> #[trigger] adapter.io_log@[old(adapter).io_log@.len() + 2 * j]
                    == (IoOp::Write { reg: (E1000_MTA + 4 * j) as u32, value: 0 }) && is_read_of(
                    adapter.io_log@[old(adapter).io_log@.len() + 2 * j + 1],
                    E1000_STATUS,
                ),
        decreases count - i,
    {
        let ghost before = adapter.io_log@;
        do_write_register_array(adapter, E1000_MTA, i as u32, 0);
        do_write_flush(adapter);
        proof {
            assert forall|j: int| 0 <= j < i + 1 implies #[trigger] adapter.io_log@[old(
                adapter,
            ).io_log@.len() + 2 * j] == (IoOp::Write { reg: (E1000_MTA + 4 * j) as u32, value: 0 })
                && is_read_of(adapter.io_log@[old(adapter).io_log@.len() + 2 * j + 1], E1000_STATUS) by {
                if j < i {
                    assert(adapter.io_log@[old(adapter).io_log@.len() + 2 * j] == before[old(
                        adapter,
                    ).io_log@.len() + 2 * j]);
                    assert(adapter.io_log@[old(adapter).io_log@.len() + 2 * j + 1] == before[old(
                        adapter,
                    ).io_log@.len() + 2 * j + 1]);
                }
            }
        }
        i = i + 1;
    }
}

/// Sets the transmit descriptor write-back of queue 0 to full-descriptor
/// mode (read, then write).
fn set_full_desc_wb<P: Platform>(adapter: &mut Adapter<P>)
    ensures
        final(adapter).same_state(old(adapter)),
        final(adapter).logged(
            old(adapter),
            seq![
                IoOp::Read { reg: 0x03828, value: final(adapter).read_at(old(adapter), 0) },
                IoOp::Write {
                    reg: 0x03828,
                    value: final(adapter).read_at(old(adapter), 0) & !E1000_TXDCTL_WTHRESH
                        | E1000_TXDCTL_FULL_TX_DESC_WB,
                },
            ],
        ),
{
    let reg = E1000_TXDCTL(0);
    let mut txdctl = do_read_register(adapter, reg);
    txdctl = txdctl & !E1000_TXDCTL_WTHRESH | E1000_TXDCTL_FULL_TX_DESC_WB;
    do_write_register(adapter, reg, txdctl);
}

/// The closing steps of MAC initialisation: full-descriptor write-back
/// for transmit queue 0, then the statistics counters cleared by reading.
#[verifier::spinoff_prover]
fn init_hw_tail<P: Platform>(adapter: &mut Adapter<P>)
    ensures
        final(adapter).same_state(old(adapter)),
        final(adapter).log_extends(old(adapter)),
        ({
            let n = base_counter_regs().len() + counter_regs_8254x().len();
            let l = final(adapter).io_log@;
            let t = l.len() - n;
            &&& final(adapter).new_ops(old(adapter)).len() == n + 2
            &&& l[t - 2] == (IoOp::Read { reg: 0x03828, value: read_value(l[t - 2]) })
            &&& l[t - 1] == (IoOp::Write {
                reg: 0x03828,
                value: read_value(l[t - 2]) & !E1000_TXDCTL_WTHRESH | E1000_TXDCTL_FULL_TX_DESC_WB,
            })
            &&& forall|k: int|
                0 <= k < n ==> is_read_of(
                    #[trigger] l[t + k],
                    (base_counter_regs() + counter_regs_8254x())[k],
                )
        }),
{
    let ghost s2 = *adapter;
    set_full_desc_wb(adapter);
    let ghost s3 = *adapter;
    let _ = clear_hw_cntrs(adapter);
    proof {
        let n = base_counter_regs().len() + counter_regs_8254x().len();
        let l = adapter.io_log@;
        assert(l.len() == s3.io_log@.len() + n);
        assert(l[l.len() - n - 2] == s3.io_log@[s2.io_log@.len() as int]);
        assert(l[l.len() - n - 1] == s3.io_log@[s2.io_log@.len() + 1int]);
        assert forall|k: int| 0 <= k < n implies is_read_of(
            #[trigger] l[l.len() - n + k],
            (base_counter_regs() + counter_regs_8254x())[k],
        ) by {
            assert(l[l.len() - n + k] == adapter.new_ops(&s3)[k]);
        }
    }
}

/// The opening steps of MAC initialisation: VLAN filtering cleared, the
/// receive addresses set up, the multicast table cleared and, before the
/// 82545 rev 3, the PCI-X workaround. Refused without a receive-address
/// routine.
#[verifier::spinoff_prover]
fn init_hw_head<P: Platform>(adapter: &mut Adapter<P>) -> (r: AdResult)
    ensures
        final(adapter).same_except_hw(old(adapter)),
        final(adapter).log_extends(old(adapter)),
        !old(adapter).hw.mac.ops.rar_set ==> r.is_err() && final(adapter).hw == old(adapter).hw,
        r.is_ok() ==> old(adapter).hw.mac.ops.rar_set,
        final(adapter).hw.mac.ops == old(adapter).hw.mac.ops,
{
    if adapter.hw.mac.mac_type.rank() < 6 {
        do_write_register(adapter, E1000_VET, 0);
    }
    if adapter.hw.mac.ops.clear_vfta {
        clear_vfta_generic(adapter);
    }
    let rar_entry_count = adapter.hw.mac.rar_entry_count as usize;
    let res = init_rx_addrs_generic(adapter, rar_entry_count);
    if res.is_err() {
        return res;
    }
    let cnt = adapter.hw.mac.mta_reg_count;
    zero_mta(adapter, cnt);
    if adapter.hw.mac.mac_type.rank() < 6 {
        pcix_mmrbc_workaround_generic(adapter);
    }
    Ok(())
}

/// Initialises the MAC: clears VLAN filtering (the VLAN ethertype before
/// the 82545 rev 3, then the filter table when a routine is installed),
/// sets up the receive addresses, clears the multicast table, sets up
/// link and flow control with the installed routine, turns on
/// full-descriptor write-back for transmit queue 0, and clears the
/// statistics counters. Refused without a receive-address routine, or when
/// link set-up fails.
#[verifier::spinoff_prover]
pub fn init_hw<P: Platform>(adapter: &mut Adapter<P>) -> (r: AdResult)
    ensures
        final(adapter).same_except_hw(old(adapter)),
        final(adapter).log_extends(old(adapter)),
        !old(adapter).hw.mac.ops.rar_set ==> r.is_err() && final(adapter).hw == old(adapter).hw,
        r.is_ok() ==> old(adapter).hw.mac.ops.rar_set,
        r.is_ok() ==> ({
            let n = base_counter_regs().len() + counter_regs_8254x().len();
            let l = final(adapter).io_log@;
            let t = l.len() - n;
            &&& final(adapter).new_ops(old(adapter)).len() >= n + 2
            &&& l[t - 2] == (IoOp::Read { reg: 0x03828, value: read_value(l[t - 2]) })
            &&& l[t - 1] == (IoOp::Write {
                reg: 0x03828,
                value: read_value(l[t - 2]) & !E1000_TXDCTL_WTHRESH | E1000_TXDCTL_FULL_TX_DESC_WB,
            })
            &&& forall|k: int|
                0 <= k < n ==> is_read_of(
                    #[trigger] l[t + k],
                    (base_counter_regs() + counter_regs_8254x())[k],
                )
        }),
{
    let ghost s0 = *adapter;
    let res = init_hw_head(adapter);
    if res.is_err() {
        return res;
    }
    let ghost s1 = *adapter;
    if adapter.hw.mac.ops.setup_link {
        let res = setup_link_generic(adapter);
        if res.is_err() {
            proof {
                lemma_same_except_hw_trans(&s0, &s1, adapter);
            }
            return res;
        }
    }
    let ghost s2 = *adapter;
    init_hw_tail(adapter);
    proof {
        lemma_same_except_hw_trans(&s0, &s1, &s2);
        lemma_same_except_hw_trans(&s0, &s2, adapter);
    }
    Ok(())
}

// ------------------------------------------------------------ reset

/// The trace of a MAC reset of type `t`, given the values read from the
/// status register, the control register, `MANC` and the interrupt cause
/// register.
pub open spec fn reset_ops_8254x(t: MacType, status: u32, ctrl: u32, manc: u32, icr: u32) -> Seq<IoOp> {
    let rst = if t == MacType::Mac_82545_rev_3 || t == MacType::Mac_82546 {
        IoOp::Write { reg: E1000_CTRL_DUP, value: ctrl | E1000_CTRL_RST }
    } else {
        IoOp::WriteIo { reg: E1000_CTRL, value: ctrl | E1000_CTRL_RST }
    };
    seq![
        IoOp::Write { reg: E1000_IMC, value: 0xffffffff },
        IoOp::Write { reg: E1000_RCTL, value: 0 },
        IoOp::Write { reg: E1000_TCTL, value: E1000_TCTL_PSP },
        IoOp::Read { reg: E1000_STATUS, value: status },
        IoOp::Delay { usecs: 10000 },
        IoOp::Read { reg: E1000_CTRL, value: ctrl },
        rst,
        IoOp::Delay { usecs: 5000 },
        IoOp::Read { reg: E1000_MANC, value: manc },
        IoOp::Write { reg: E1000_MANC, value: manc & !E1000_MANC_ARP_EN },
        IoOp::Write { reg: E1000_IMC, value: 0xffffffff },
        IoOp::Read { reg: E1000_ICR, value: icr },
    ]
}

/// Resets the MAC (`reset_ops_8254x`): masks all interrupts, stops receive
/// and transmit, flushes, waits 10 ms, issues the global reset through the
/// duplicate control register (82545 rev 3 and 82546) or the I/O window
/// (others), waits 5 ms for the EEPROM reload, disables hardware ARP, masks
/// all interrupts again and clears the interrupt cause.
pub fn reset_hw<P: Platform>(adapter: &mut Adapter<P>) -> (r: AdResult)
    ensures
        r.is_ok(),
        final(adapter).same_state(old(adapter)),
        final(adapter).logged(
            old(adapter),
            reset_ops_8254x(
                old(adapter).hw.mac.mac_type,
                final(adapter).read_at(old(adapter), 3),
                final(adapter).read_at(old(adapter), 5),
                final(adapter).read_at(old(adapter), 8),
                final(adapter).read_at(old(adapter), 11),
            ),
        ),
{
    do_write_register(adapter, E1000_IMC, 0xffffffff);
    do_write_register(adapter, E1000_RCTL, 0);
    do_write_register(adapter, E1000_TCTL, E1000_TCTL_PSP);
    do_write_flush(adapter);
    do_msec_delay(adapter, 10);
    let ctrl: u32 = do_read_register(adapter, E1000_CTRL);
    match adapter.hw.mac.mac_type {
        MacType::Mac_82545_rev_3 | MacType::Mac_82546 => {
            do_write_register(adapter, E1000_CTRL_DUP, ctrl | E1000_CTRL_RST);
        },
        _ => {
            do_write_register_io(adapter, E1000_CTRL, ctrl | E1000_CTRL_RST);
        },
    }
    do_msec_delay(adapter, 5);
    let mut manc: u32 = do_read_register(adapter, E1000_MANC);
    manc = manc & !E1000_MANC_ARP_EN;
    do_write_register(adapter, E1000_MANC, manc);
    do_write_register(adapter, E1000_IMC, 0xffffffff);
    do_read_register(adapter, E1000_ICR);
    Ok(())
}

// ------------------------------------------------------------ counters

/// The statistics registers the family clears beyond the base ones, in
/// reading order.
pub open spec fn counter_regs_8254x() -> Seq<u32> {
    seq![
        E1000_PRC64,
        E1000_PRC127,
        E1000_PRC255,
        E1000_PRC511,
        E1000_PRC1023,
        E1000_PRC1522,
        E1000_PTC64,
        E1000_PTC127,
        E1000_PTC255,
        E1000_PTC511,
        E1000_PTC1023,
        E1000_PTC1522,
        E1000_ALGNERRC,
        E1000_RXERRC,
        E1000_TNCRS,
        E1000_CEXTERR,
        E1000_TSCTC,
        E1000_TSCTFC,
        E1000_MGTPRC,
        E1000_MGTPDC,
        E1000_MGTPTC,
    ]
}

/// Clears the statistics counters by reading them: the base counters, then
/// `counter_regs_8254x`.
#[verifier::spinoff_prover]
pub fn clear_hw_cntrs<P: Platform>(adapter: &mut Adapter<P>) -> (r: AdResult)
    ensures
        r.is_ok(),
        final(adapter).same_state(old(adapter)),
        final(adapter).log_extends(old(adapter)),
        final(adapter).new_ops(old(adapter)).len() == base_counter_regs().len()
            + counter_regs_8254x().len(),
        forall|k: int|
            0 <= k < base_counter_regs().len() + counter_regs_8254x().len() ==> is_read_of(
                #[trigger] final(adapter).new_ops(old(adapter))[k],
                (base_counter_regs() + counter_regs_8254x())[k],
            ),
{
    clear_hw_cntrs_base_generic(adapter);
    let ghost mid = *adapter;
    let regs: [u32; 21] = [
        E1000_PRC64,
        E1000_PRC127,
        E1000_PRC255,
        E1000_PRC511,
        E1000_PRC1023,
        E1000_PRC1522,
        E1000_PTC64,
        E1000_PTC127,
        E1000_PTC255,
        E1000_PTC511,
        E1000_PTC1023,
        E1000_PTC1522,
        E1000_ALGNERRC,
        E1000_RXERRC,
        E1000_TNCRS,
        E1000_CEXTERR,
        E1000_TSCTC,
        E1000_TSCTFC,
        E1000_MGTPRC,
        E1000_MGTPDC,
        E1000_MGTPTC,
    ];
    assert(regs@ =~= counter_regs_8254x());
    let mut k: usize = 0;
    while k < 21
        invariant
            k <= 21,
            regs@ == counter_regs_8254x(),
            mid.same_state(old(adapter)),
            mid.log_extends(old(adapter)),
            mid.new_ops(old(adapter)).len() == base_counter_regs().len(),
            forall|j: int|
                0 <= j < base_counter_regs().len() ==> is_read_of(
                    #[trigger] mid.new_ops(old(adapter))[j],
                    base_counter_regs()[j],
                ),
            adapter.same_state(&mid),
            adapter.log_extends(&mid),
            adapter.io_log@.len() == mid.io_log@.len() + k,
            forall|j: int|
                0 <= j < k ==> is_read_of(#[trigger] adapter.io_log@[mid.io_log@.len() + j], regs@[j]),
        decreases 21 - k,
    {
        do_read_register(adapter, regs[k]);
        k = k + 1;
    }
    proof {
        let all = adapter.new_ops(old(adapter));
        let b = base_counter_regs().len() as int;
        assert forall|j: int| 0 <= j < b + 21 implies is_read_of(
            #[trigger] all[j],
            (base_counter_regs() + counter_regs_8254x())[j],
        ) by {
            assert(all[j] == adapter.io_log@[old(adapter).io_log@.len() + j]);
            if j < b {
                assert(mid.new_ops(old(adapter))[j] == mid.io_log@[old(adapter).io_log@.len() + j]);
            } else {
                assert(adapter.io_log@[old(adapter).io_log@.len() + j] == adapter.io_log@[mid.io_log@.len()
                    + (j - b)]);
            }
        }
    }
    Ok(())
}

/// Powering the copper PHY down is not implemented by this driver: does
/// nothing.
pub fn power_down_phy_copper<P: Platform>(adapter: &mut Adapter<P>)
    ensures
        final(adapter).same_state(old(adapter)),
        final(adapter).io_log@ == old(adapter).io_log@,
{
}

// ------------------------------------------------------------ 82541, 82543

/// Records whether the 82541 initialisation script should run; only IGP
/// PHYs use it.
pub fn init_script_state<P: Platform>(adapter: &mut Adapter<P>, state: bool)
    ensures
        final(adapter).same_except_hw(old(adapter)),
        final(adapter).io_log@ == old(adapter).io_log@,
        old(adapter).hw.phy.phy_type != PhyType::Type_igp ==> final(adapter).hw == old(adapter).hw,
        old(adapter).hw.phy.phy_type == PhyType::Type_igp ==> final(adapter).hw == (Hardware {
            dev_spec: final(adapter).hw.dev_spec,
            ..old(adapter).hw
        }),
        old(adapter).hw.phy.phy_type == PhyType::Type_igp ==> final(adapter).hw.dev_spec == (DevSpec {
            _82541: final(adapter).hw.dev_spec._82541,
            ..old(adapter).hw.dev_spec
        }),
        old(adapter).hw.phy.phy_type == PhyType::Type_igp ==> final(adapter).hw.dev_spec._82541.phy_init_script
            == state,
{
    if adapter.hw.phy.phy_type != PhyType::Type_igp {
        return;
    }
    adapter.hw.dev_spec._82541.phy_init_script = state;
}

/// TBI compatibility only concerns the 82543, which this driver does not
/// support: does nothing.
pub fn set_tbi_compatibility<P: Platform>(adapter: &mut Adapter<P>, state: bool)
    ensures
        final(adapter).same_state(old(adapter)),
        final(adapter).io_log@ == old(adapter).io_log@,
{
}

} // verus!
