//! PHY register access through the MDI control register, and the PHY
//! routines built on it.
use vstd::prelude::*;
use crate::adapter::{
    AdResult, Adapter, do_msec_delay, do_read_register, do_usec_delay, do_write_register,
};
use crate::consts::{
    ADVERTISE_1000_FULL, ADVERTISE_100_FULL, ADVERTISE_100_HALF, ADVERTISE_10_FULL,
    ADVERTISE_10_HALF, BME1000_E_PHY_ID, BME1000_E_PHY_ID_R2, BM_PORT_CTRL_PAGE,
    BM_WUC_ADDRESS_OPCODE, BM_WUC_DATA_OPCODE, BM_WUC_ENABLE_BIT, BM_WUC_ENABLE_REG,
    BM_WUC_HOST_WU_BIT, BM_WUC_ME_WU_BIT, BM_WUC_PAGE, CR_1000T_FD_CAPS, CR_1000T_HD_CAPS,
    CR_1000T_MS_ENABLE, CR_1000T_MS_VALUE, E1000_ALL_100_SPEED, E1000_ALL_HALF_DUPLEX,
    E1000_CABLE_LENGTH_UNDEFINED, E1000_CTRL, E1000_CTRL_ASDE, E1000_CTRL_FD, E1000_CTRL_FRCDPX,
    E1000_CTRL_FRCSPD, E1000_CTRL_PHY_RST, E1000_CTRL_SPD_100, E1000_CTRL_SPD_1000,
    E1000_CTRL_SPD_SEL, E1000_GEN_POLL_TIMEOUT, E1000_KMRNCTRLSTA, E1000_KMRNCTRLSTA_OFFSET,
    E1000_KMRNCTRLSTA_OFFSET_SHIFT, E1000_KMRNCTRLSTA_REN, E1000_MDIC, E1000_MDIC_ERROR,
    E1000_MDIC_OP_READ, E1000_MDIC_OP_WRITE, E1000_MDIC_PHY_SHIFT, E1000_MDIC_READY,
    E1000_MDIC_REG_MASK, E1000_MDIC_REG_SHIFT, E1000_STATUS, GG82563_E_PHY_ID,
    HV_INTC_FC_PAGE_START, I210_I_PHY_ID, I217_E_PHY_ID, I347AT4_E_PHY_ID, I82577_ADDR_REG,
    I82577_CFG_ASSERT_CRS_ON_TX, I82577_CFG_ENABLE_DOWNSHIFT, I82577_CFG_REG,
    I82577_DSTATUS_CABLE_LENGTH, I82577_DSTATUS_CABLE_LENGTH_SHIFT, I82577_E_PHY_ID,
    I82577_PHY_CTRL2_AUTO_MDI_MDIX, I82577_PHY_CTRL2_MANUAL_MDIX,
    I82577_PHY_CTRL2_MDIX_CFG_MASK, I82577_PHY_CTRL_2, I82577_PHY_DIAG_STATUS,
    I82577_PHY_STATUS2_MDIX, I82577_PHY_STATUS2_REV_POLARITY, I82577_PHY_STATUS2_SPEED_1000MBPS,
    I82577_PHY_STATUS2_SPEED_MASK, I82577_PHY_STATUS_2, I82578_ADDR_REG, I82578_E_PHY_ID,
    I82579_E_PHY_ID, I82580_I_PHY_ID, IFE_C_E_PHY_ID, IFE_E_PHY_ID, IFE_PLUS_E_PHY_ID,
    IGP01E1000_I_PHY_ID, IGP01E1000_PHY_PAGE_SELECT, IGP03E1000_E_PHY_ID, IGP_PAGE_SHIFT,
    M88E1000_E_PHY_ID, M88E1000_I_PHY_ID, M88E1000_PHY_SPEC_CTRL, M88E1000_PHY_SPEC_STATUS,
    M88E1000_PSCR_POLARITY_REVERSAL, M88E1000_PSSR_1000MBS, M88E1000_PSSR_DOWNSHIFT,
    M88E1000_PSSR_MDIX, M88E1000_PSSR_REV_POLARITY, M88E1000_PSSR_SPEED, M88E1011_I_PHY_ID,
    M88E1111_I_PHY_ID, M88E1112_E_PHY_ID, M88E1340M_E_PHY_ID, M88E1512_E_PHY_ID,
    M88E1543_E_PHY_ID, MAX_PHY_MULTI_PAGE_REG, MAX_PHY_REG_ADDRESS, MII_CR_AUTO_NEG_EN,
    MII_CR_FULL_DUPLEX, MII_CR_RESET, MII_CR_RESTART_AUTO_NEG, MII_CR_SPEED_100,
    MII_CR_SPEED_1000, MII_SR_AUTONEG_COMPLETE, MII_SR_LINK_STATUS, NWAY_AR_100TX_FD_CAPS,
    NWAY_AR_100TX_HD_CAPS, NWAY_AR_10T_FD_CAPS, NWAY_AR_10T_HD_CAPS, NWAY_AR_ASM_DIR,
    NWAY_AR_PAUSE, PHY_1000T_CTRL, PHY_1000T_STATUS, PHY_AUTONEG_ADV, PHY_AUTO_NEG_LIMIT,
    PHY_CONTROL, PHY_FORCE_LIMIT, PHY_ID1, PHY_ID2, PHY_PAGE_SHIFT, PHY_REVISION_MASK,
    PHY_STATUS, PHY_UPPER_SHIFT, SR_1000T_LOCAL_RX_STATUS, SR_1000T_REMOTE_RX_STATUS,
};
use crate::hw::{
    FcInfo, FcMode, GbRxStatus, Hardware, MacInfo, MacType, MediaType, MsType, PhyInfo,
    PhyModel, PhyRegAccess, PhyType, RevPolarity,
};
use crate::link::{lemma_read_gave, lemma_read_gave_widen, phy_read_gave};
use crate::mac::{config_collision_dist_generic};
use crate::platform::{IoOp, Platform, is_read_of, read_value};
use crate::regs::{BM_PHY_REG_NUM, BM_PHY_REG_PAGE};

verus! {

// ------------------------------------------------------------ MDI control

/// The MDI control command that reads PHY register `offset` of the PHY at
/// `addr`.
pub open spec fn mdic_read_cmd(offset: u32, addr: u32) -> u32 {
    (offset << E1000_MDIC_REG_SHIFT) | (addr << E1000_MDIC_PHY_SHIFT) | E1000_MDIC_OP_READ
}

/// The MDI control command that writes `data` to PHY register `offset` of
/// the PHY at `addr`.
pub open spec fn mdic_write_cmd(offset: u32, addr: u32, data: u16) -> u32 {
    (data as u32) | (offset << E1000_MDIC_REG_SHIFT) | (addr << E1000_MDIC_PHY_SHIFT)
        | E1000_MDIC_OP_WRITE
}

/// The ready bit of an MDI control value.
pub open spec fn mdic_ready(v: u32) -> bool {
    v & E1000_MDIC_READY != 0
}

/// The register number an MDI control value reports.
pub open spec fn mdic_reg(v: u32) -> u32 {
    (v & E1000_MDIC_REG_MASK) >> E1000_MDIC_REG_SHIFT
}

/// A completed transaction reports: ready, no error, the requested register.
pub open spec fn mdic_ok(v: u32, offset: u32) -> bool {
    &&& mdic_ready(v)
    &&& v & E1000_MDIC_ERROR == 0
    &&& mdic_reg(v) == offset
}

/// `s` is a polling of the MDI control register: pairs of a 50 us wait and a
/// read, that stops at the first read showing the ready bit, or after
/// `3 * E1000_GEN_POLL_TIMEOUT` reads.
#[verifier::opaque]
pub open spec fn mdic_polls(s: Seq<IoOp>) -> bool {
    &&& s.len() % 2 == 0
    &&& 2 <= s.len() <= 6 * E1000_GEN_POLL_TIMEOUT
    &&& forall|k: int|
        0 <= k < s.len() ==> if k % 2 == 0 {
            #[trigger] s[k] == IoOp::Delay { usecs: 50 }
        } else {
            is_read_of(s[k], E1000_MDIC)
        }
    &&& forall|k: int|
        0 <= k < s.len() - 1 && k % 2 == 1 ==> !mdic_ready(read_value(#[trigger] s[k]))
    &&& mdic_ready(read_value(s[s.len() - 1])) || s.len() == 6 * E1000_GEN_POLL_TIMEOUT
}

/// `ops` is one MDI transaction: the command, the polling, and, when
/// `settle`, a final 100 us wait.
#[verifier::opaque]
pub open spec fn mdic_transaction(ops: Seq<IoOp>, cmd: u32, settle: bool) -> bool {
    &&& ops.len() >= 1
    &&& ops[0] == IoOp::Write { reg: E1000_MDIC, value: cmd }
    &&& if settle {
        &&& ops.len() >= 2
        &&& ops[ops.len() - 1] == IoOp::Delay { usecs: 100 }
        &&& mdic_polls(ops.subrange(1, ops.len() - 1))
    } else {
        mdic_polls(ops.subrange(1, ops.len() as int))
    }
}

/// The last MDI control value read in a transaction.
pub open spec fn mdic_final(ops: Seq<IoOp>, settle: bool) -> u32 {
    if settle {
        read_value(ops[ops.len() - 2])
    } else {
        read_value(ops[ops.len() - 1])
    }
}

/// The hardware description with only the PHY address taken from `addr`.
pub open spec fn with_phy_addr(hw: Hardware, addr: u32) -> Hardware {
    Hardware { phy: PhyInfo { addr: addr, ..hw.phy }, ..hw }
}

/// Polls the MDI control register until it shows the ready bit, at most
/// `3 * E1000_GEN_POLL_TIMEOUT` times, 50 us apart; returns the last value.
fn poll_mdic<P: Platform>(adapter: &mut Adapter<P>) -> (mdic: u32)
    ensures
        final(adapter).same_state(old(adapter)),
        final(adapter).log_extends(old(adapter)),
        mdic_polls(final(adapter).new_ops(old(adapter))),
        mdic == read_value(final(adapter).io_log@.last()),
{
    let ghost start = adapter.io_log@.len();
    let mut i: u32 = 0;
    let mut mdic: u32;
    loop
        invariant_except_break
            i < 3 * E1000_GEN_POLL_TIMEOUT,
            forall|k: int|
                start <= k < adapter.io_log@.len() && (k - start) % 2 == 1 ==> !mdic_ready(
                    read_value(#[trigger] adapter.io_log@[k]),
                ),
        invariant
            i <= 3 * E1000_GEN_POLL_TIMEOUT,
            start == old(adapter).io_log@.len(),
            adapter.same_state(old(adapter)),
            adapter.log_extends(old(adapter)),
            adapter.io_log@.len() == start + 2 * i,
            forall|k: int|
                start <= k < adapter.io_log@.len() ==> if (k - start) % 2 == 0 {
                    #[trigger] adapter.io_log@[k] == IoOp::Delay { usecs: 50 }
                } else {
                    is_read_of(adapter.io_log@[k], E1000_MDIC)
                },
        ensures
            1 <= i <= 3 * E1000_GEN_POLL_TIMEOUT,
            adapter.same_state(old(adapter)),
            adapter.log_extends(old(adapter)),
            adapter.io_log@.len() == start + 2 * i,
            forall|k: int|
                start <= k < adapter.io_log@.len() ==> if (k - start) % 2 == 0 {
                    #[trigger] adapter.io_log@[k] == IoOp::Delay { usecs: 50 }
                } else {
                    is_read_of(adapter.io_log@[k], E1000_MDIC)
                },
            forall|k: int|
                start <= k < adapter.io_log@.len() - 1 && (k - start) % 2 == 1 ==> !mdic_ready(
                    read_value(#[trigger] adapter.io_log@[k]),
                ),
            mdic == read_value(adapter.io_log@.last()),
            mdic_ready(mdic) || i == 3 * E1000_GEN_POLL_TIMEOUT,
        decreases 3 * E1000_GEN_POLL_TIMEOUT - i,
    {
        do_usec_delay(adapter, 50);
        mdic = do_read_register(adapter, E1000_MDIC);
        i = i + 1;
        if mdic & E1000_MDIC_READY != 0 || i >= 3 * E1000_GEN_POLL_TIMEOUT {
            break;
        }
    }
    proof {
        reveal(mdic_polls);
        let s = adapter.new_ops(old(adapter));
        assert forall|k: int| 0 <= k < s.len() implies if k % 2 == 0 {
            #[trigger] s[k] == IoOp::Delay { usecs: 50 }
        } else {
            is_read_of(s[k], E1000_MDIC)
        } by {
            assert(s[k] == adapter.io_log@[start + k]);
        }
        assert forall|k: int| 0 <= k < s.len() - 1 && k % 2 == 1 implies !mdic_ready(
            read_value(#[trigger] s[k]),
        ) by {
            assert(s[k] == adapter.io_log@[start + k]);
        }
    }
    mdic
}

/// Reads PHY register `offset` through the MDI control register. Offsets
/// above `MAX_PHY_REG_ADDRESS` are refused before any access.
pub fn read_phy_reg_mdic<P: Platform>(adapter: &mut Adapter<P>, offset: u32, data: &mut u16) -> (r: AdResult)
    ensures
        final(adapter).same_state(old(adapter)),
        final(adapter).log_extends(old(adapter)),
        offset > MAX_PHY_REG_ADDRESS ==> r.is_err() && final(adapter).io_log@ == old(adapter).io_log@,
        offset <= MAX_PHY_REG_ADDRESS ==> mdic_transaction(
            final(adapter).new_ops(old(adapter)),
            mdic_read_cmd(offset, old(adapter).hw.phy.addr),
            r.is_ok() && old(adapter).hw.mac.mac_type == MacType::Mac_pch2lan,
        ),
        offset <= MAX_PHY_REG_ADDRESS ==> (r.is_ok() <==> mdic_ok(
            mdic_final(
                final(adapter).new_ops(old(adapter)),
                r.is_ok() && old(adapter).hw.mac.mac_type == MacType::Mac_pch2lan,
            ),
            offset,
        )),
        r.is_ok() ==> *final(data) == mdic_final(
            final(adapter).new_ops(old(adapter)),
            old(adapter).hw.mac.mac_type == MacType::Mac_pch2lan,
        ) as u16,
        r.is_err() ==> *final(data) == *old(data),
{
    proof {
        reveal(mdic_transaction);
    }
    if offset > MAX_PHY_REG_ADDRESS {
        return Err("PHY address is out of range".to_string());
    }
    let cmd: u32 = (offset << E1000_MDIC_REG_SHIFT) | (adapter.hw.phy.addr << E1000_MDIC_PHY_SHIFT)
        | E1000_MDIC_OP_READ;
    do_write_register(adapter, E1000_MDIC, cmd);
    let ghost mid = *adapter;
    let mdic = poll_mdic(adapter);
    proof {
        let all = adapter.new_ops(old(adapter));
        assert(all.subrange(1, all.len() as int) =~= adapter.new_ops(&mid));
    }
    if mdic & E1000_MDIC_READY == 0 {
        return Err("MDI read did not complete".to_string());
    }
    if mdic & E1000_MDIC_ERROR != 0 {
        return Err("MDI error".to_string());
    }
    if (mdic & E1000_MDIC_REG_MASK) >> E1000_MDIC_REG_SHIFT != offset {
        return Err("MDI read offset error".to_string());
    }
    *data = mdic as u16;
    if adapter.hw.mac.mac_type == MacType::Mac_pch2lan {
        let ghost before = *adapter;
        do_usec_delay(adapter, 100);
        proof {
            let all = adapter.new_ops(old(adapter));
            assert(all.subrange(1, all.len() - 1) =~= before.new_ops(&mid));
        }
    }
    Ok(())
}

/// Writes `data` to PHY register `offset` through the MDI control register.
/// Offsets above `MAX_PHY_REG_ADDRESS` are refused before any access.
pub fn write_phy_reg_mdic<P: Platform>(adapter: &mut Adapter<P>, offset: u32, data: u16) -> (r: AdResult)
    ensures
        final(adapter).same_state(old(adapter)),
        final(adapter).log_extends(old(adapter)),
        offset > MAX_PHY_REG_ADDRESS ==> r.is_err() && final(adapter).io_log@ == old(adapter).io_log@,
        offset <= MAX_PHY_REG_ADDRESS ==> mdic_transaction(
            final(adapter).new_ops(old(adapter)),
            mdic_write_cmd(offset, old(adapter).hw.phy.addr, data),
            r.is_ok() && old(adapter).hw.mac.mac_type == MacType::Mac_pch2lan,
        ),
        offset <= MAX_PHY_REG_ADDRESS ==> (r.is_ok() <==> mdic_ok(
            mdic_final(
                final(adapter).new_ops(old(adapter)),
                r.is_ok() && old(adapter).hw.mac.mac_type == MacType::Mac_pch2lan,
            ),
            offset,
        )),
{
    proof {
        reveal(mdic_transaction);
    }
    if offset > MAX_PHY_REG_ADDRESS {
        return Err("PHY address is out of range".to_string());
    }
    let cmd: u32 = (data as u32) | (offset << E1000_MDIC_REG_SHIFT) | (adapter.hw.phy.addr
        << E1000_MDIC_PHY_SHIFT) | E1000_MDIC_OP_WRITE;
    do_write_register(adapter, E1000_MDIC, cmd);
    let ghost mid = *adapter;
    let mdic = poll_mdic(adapter);
    proof {
        let all = adapter.new_ops(old(adapter));
        assert(all.subrange(1, all.len() as int) =~= adapter.new_ops(&mid));
    }
    if mdic & E1000_MDIC_READY == 0 {
        return Err("MDI write did not complete".to_string());
    }
    if mdic & E1000_MDIC_ERROR != 0 {
        return Err("MDI error".to_string());
    }
    if (mdic & E1000_MDIC_REG_MASK) >> E1000_MDIC_REG_SHIFT != offset {
        return Err("MDI write offset error".to_string());
    }
    if adapter.hw.mac.mac_type == MacType::Mac_pch2lan {
        let ghost before = *adapter;
        do_usec_delay(adapter, 100);
        proof {
            let all = adapter.new_ops(old(adapter));
            assert(all.subrange(1, all.len() - 1) =~= before.new_ops(&mid));
        }
    }
    Ok(())
}


/// The outcome of an MDI read of PHY register `offset` between adapter
/// states `o` and `f`: the transaction was made, succeeded exactly when the
/// last control value reports ready, no error and the register, and then
/// delivered that value's low half.
#[verifier::opaque]
pub open spec fn mdic_read_outcome<P: Platform>(
    o: &Adapter<P>,
    f: &Adapter<P>,
    offset: u32,
    ok: bool,
    data_before: u16,
    data_after: u16,
) -> bool {
    let settle = o.hw.mac.mac_type == MacType::Mac_pch2lan;
    &&& f.same_state(o)
    &&& f.log_extends(o)
    &&& mdic_transaction(f.new_ops(o), mdic_read_cmd(offset, o.hw.phy.addr), ok && settle)
    &&& ok <==> mdic_ok(mdic_final(f.new_ops(o), ok && settle), offset)
    &&& ok ==> data_after == mdic_final(f.new_ops(o), settle) as u16
    &&& !ok ==> data_after == data_before
}

proof fn lemma_low_bits(offset: u32)
    ensures
        MAX_PHY_REG_ADDRESS & offset <= MAX_PHY_REG_ADDRESS,
        offset & MAX_PHY_REG_ADDRESS <= MAX_PHY_REG_ADDRESS,
{
    assert(0x1Fu32 & offset <= 0x1Fu32) by (bit_vector);
    assert(offset & 0x1Fu32 <= 0x1Fu32) by (bit_vector);
}

/// Reads an M88 PHY register: an MDI read of the low five bits of `offset`
/// (no semaphore routine is installed for this family).
pub fn read_phy_reg_m88<P: Platform>(adapter: &mut Adapter<P>, offset: u32, data: &mut u16) -> (r: AdResult)
    ensures
        mdic_read_outcome(
            old(adapter),
            final(adapter),
            MAX_PHY_REG_ADDRESS & offset,
            r.is_ok(),
            *old(data),
            *final(data),
        ),
{
    proof {
        lemma_low_bits(offset);
        reveal(mdic_read_outcome);
    }
    read_phy_reg_mdic(adapter, MAX_PHY_REG_ADDRESS & offset, data)
}

/// Writes an M88 PHY register. The write is made only under the semaphore
/// routines, which this family does not install: nothing is written.
pub fn write_phy_reg_m88<P: Platform>(adapter: &mut Adapter<P>, offset: u32, data: u16) -> (r: AdResult)
    ensures
        r.is_ok(),
        final(adapter).same_state(old(adapter)),
        final(adapter).io_log@ == old(adapter).io_log@,
{
    Ok(())
}

/// Selects PHY page `page` on an IGP-like PHY: switches to PHY address 1
/// and writes the page-select register.
pub fn set_page_igp<P: Platform>(adapter: &mut Adapter<P>, page: u16) -> (r: AdResult)
    ensures
        phy_access_frame(old(adapter), final(adapter)),
        final(adapter).hw.phy.addr == 1,
        mdic_transaction(
            final(adapter).new_ops(old(adapter)),
            mdic_write_cmd(IGP01E1000_PHY_PAGE_SELECT, 1, page),
            r.is_ok() && old(adapter).hw.mac.mac_type == MacType::Mac_pch2lan,
        ),
        r.is_ok() <==> mdic_ok(
            mdic_final(
                final(adapter).new_ops(old(adapter)),
                r.is_ok() && old(adapter).hw.mac.mac_type == MacType::Mac_pch2lan,
            ),
            IGP01E1000_PHY_PAGE_SELECT,
        ),
{
    adapter.hw.phy.addr = 1;
    let ghost mid = *adapter;
    let r = write_phy_reg_mdic(adapter, IGP01E1000_PHY_PAGE_SELECT, page);
    proof {
        lemma_frame_of_addr(old(adapter), &mid);
        lemma_frame_of_same(&mid, adapter);
        lemma_frame_trans(old(adapter), &mid, adapter);
        reveal(phy_access_frame);
    }
    r
}

/// The PHY address that serves page `page` on HV PHYs.
pub open spec fn hv_page_addr(page: u32) -> u32 {
    if page >= HV_INTC_FC_PAGE_START {
        1
    } else {
        2
    }
}

/// The PHY address that serves page `page` on HV PHYs: 1 from the
/// interrupt/flow-control page on, 2 below it.
pub fn get_phy_addr_for_hv_page(page: u32) -> (r: u32)
    ensures
        r == hv_page_addr(page),
{
    let mut phy_addr: u32 = 2;
    if page >= HV_INTC_FC_PAGE_START {
        phy_addr = 1;
    }
    phy_addr
}

/// The PHY type an identifier names.
pub open spec fn phy_type_of_id(phy_id: u32) -> PhyType {
    if phy_id == M88E1000_I_PHY_ID || phy_id == M88E1000_E_PHY_ID || phy_id == M88E1111_I_PHY_ID
        || phy_id == M88E1011_I_PHY_ID || phy_id == M88E1543_E_PHY_ID || phy_id
        == M88E1512_E_PHY_ID || phy_id == I347AT4_E_PHY_ID || phy_id == M88E1112_E_PHY_ID
        || phy_id == M88E1340M_E_PHY_ID {
        PhyType::Type_m88
    } else if phy_id == IGP01E1000_I_PHY_ID {
        PhyType::Type_igp_2
    } else if phy_id == GG82563_E_PHY_ID {
        PhyType::Type_gg82563
    } else if phy_id == IGP03E1000_E_PHY_ID {
        PhyType::Type_igp_3
    } else if phy_id == IFE_E_PHY_ID || phy_id == IFE_PLUS_E_PHY_ID || phy_id == IFE_C_E_PHY_ID {
        PhyType::Type_ife
    } else if phy_id == BME1000_E_PHY_ID || phy_id == BME1000_E_PHY_ID_R2 {
        PhyType::Type_bm
    } else if phy_id == I82578_E_PHY_ID {
        PhyType::Type_82578
    } else if phy_id == I82577_E_PHY_ID {
        PhyType::Type_82577
    } else if phy_id == I82579_E_PHY_ID {
        PhyType::Type_82579
    } else if phy_id == I217_E_PHY_ID {
        PhyType::Type_i217
    } else if phy_id == I82580_I_PHY_ID {
        PhyType::Type_82580
    } else if phy_id == I210_I_PHY_ID {
        PhyType::Type_i210
    } else {
        PhyType::Type_unknown
    }
}

/// The PHY type an identifier read from the PHY names; unknown identifiers
/// give `Type_unknown`.
pub fn get_phy_type_from_id(phy_id: u32) -> (r: PhyType)
    ensures
        r == phy_type_of_id(phy_id),
{
    if phy_id == M88E1000_I_PHY_ID || phy_id == M88E1000_E_PHY_ID || phy_id == M88E1111_I_PHY_ID
        || phy_id == M88E1011_I_PHY_ID || phy_id == M88E1543_E_PHY_ID || phy_id
        == M88E1512_E_PHY_ID || phy_id == I347AT4_E_PHY_ID || phy_id == M88E1112_E_PHY_ID
        || phy_id == M88E1340M_E_PHY_ID {
        PhyType::Type_m88
    } else if phy_id == IGP01E1000_I_PHY_ID {
        PhyType::Type_igp_2
    } else if phy_id == GG82563_E_PHY_ID {
        PhyType::Type_gg82563
    } else if phy_id == IGP03E1000_E_PHY_ID {
        PhyType::Type_igp_3
    } else if phy_id == IFE_E_PHY_ID || phy_id == IFE_PLUS_E_PHY_ID || phy_id == IFE_C_E_PHY_ID {
        PhyType::Type_ife
    } else if phy_id == BME1000_E_PHY_ID || phy_id == BME1000_E_PHY_ID_R2 {
        PhyType::Type_bm
    } else if phy_id == I82578_E_PHY_ID {
        PhyType::Type_82578
    } else if phy_id == I82577_E_PHY_ID {
        PhyType::Type_82577
    } else if phy_id == I82579_E_PHY_ID {
        PhyType::Type_82579
    } else if phy_id == I217_E_PHY_ID {
        PhyType::Type_i217
    } else if phy_id == I82580_I_PHY_ID {
        PhyType::Type_82580
    } else if phy_id == I210_I_PHY_ID {
        PhyType::Type_i210
    } else {
        PhyType::Type_unknown
    }
}

/// Software PHY reset: reads the PHY control register and writes it back
/// with the reset bit set, then waits 1 us. Without a PHY reader there is
/// nothing to do.
pub fn phy_sw_reset_generic<P: Platform>(adapter: &mut Adapter<P>) -> (r: AdResult)
    ensures
        phy_access_frame(old(adapter), final(adapter)),
        old(adapter).hw.phy.ops.read_reg is None ==> r.is_ok() && final(adapter).same_state(old(adapter))
            && final(adapter).io_log@ == old(adapter).io_log@,
        old(adapter).hw.phy.ops.read_reg is Some && old(adapter).hw.phy.ops.write_reg is None
            ==> r.is_err(),
        old(adapter).hw.phy.ops.read_reg is Some && r.is_ok() ==> final(adapter).io_log@.len() > old(
            adapter).io_log@.len() && final(adapter).io_log@.last() == (IoOp::Delay { usecs: 1 }),
{
    if adapter.hw.phy.ops.read_reg.is_none() {
        proof {
            lemma_frame_of_same(old(adapter), adapter);
        }
        return Ok(());
    }
    let mut phy_ctrl: u16 = 0;
    let res = adapter.phy_read_reg(PHY_CONTROL, &mut phy_ctrl);
    proof {
        lemma_frame_keeps(old(adapter), adapter);
    }
    if res.is_err() {
        return res;
    }
    let ghost s1 = *adapter;
    let res = adapter.phy_write_reg(PHY_CONTROL, phy_ctrl | MII_CR_RESET);
    proof {
        lemma_frame_trans(old(adapter), &s1, adapter);
    }
    if res.is_err() {
        return res;
    }
    let ghost s2 = *adapter;
    do_usec_delay(adapter, 1);
    proof {
        assert(adapter.io_log@ == s2.io_log@ + seq![IoOp::Delay { usecs: 1 }]);
        assert(adapter.io_log@.last() == (IoOp::Delay { usecs: 1 }));
        lemma_frame_facts(old(adapter), &s2);
        lemma_frame_of_same(&s2, adapter);
        lemma_frame_trans(old(adapter), &s2, adapter);
    }
    Ok(())
}

/// M88 cable length: not implemented by this driver; refuses.
pub fn get_cable_length_m88<P: Platform>(adapter: &mut Adapter<P>) -> (r: AdResult)
    ensures
        r.is_err(),
        final(adapter).same_state(old(adapter)),
        final(adapter).io_log@ == old(adapter).io_log@,
{
    Err("incomplete function - returning error".to_string())
}

/// M88 forced speed/duplex: not implemented by this driver; refuses.
pub fn phy_force_speed_duplex_m88<P: Platform>(adapter: &mut Adapter<P>) -> (r: AdResult)
    ensures
        r.is_err(),
        final(adapter).same_state(old(adapter)),
        final(adapter).io_log@ == old(adapter).io_log@,
{
    Err("incomplete function - returning error".to_string())
}

/// The cable polarity an 82577 PHY status 2 value reports.
pub open spec fn polarity_82577(status: u16) -> RevPolarity {
    if status & I82577_PHY_STATUS2_REV_POLARITY != 0 {
        RevPolarity::Reversed
    } else {
        RevPolarity::Normal
    }
}

/// 82577 polarity: read from the polarity bit of PHY status register 2;
/// refused when the read fails, the polarity then unchanged.
#[verifier::spinoff_prover]
#[verifier::rlimit(30)]
pub fn check_polarity_82577<P: Platform>(adapter: &mut Adapter<P>) -> (r: AdResult)
    ensures
        only_phy_changed(old(adapter), final(adapter)),
        final(adapter).hw.phy == (PhyInfo {
            addr: final(adapter).hw.phy.addr,
            cable_polarity: final(adapter).hw.phy.cable_polarity,
            ..old(adapter).hw.phy
        }),
        old(adapter).hw.phy.ops.read_reg is None ==> r.is_err() && final(adapter).same_state(
            old(adapter),
        ) && final(adapter).io_log@ == old(adapter).io_log@,
        r.is_err() ==> final(adapter).hw.phy.cable_polarity == old(adapter).hw.phy.cable_polarity,
        old(adapter).hw.phy.ops.read_reg == Some(PhyRegAccess::M88) ==> (r.is_ok() <==> mdic_ok(
            mdic_final(
                final(adapter).new_ops(old(adapter)),
                r.is_ok() && old(adapter).hw.mac.mac_type == MacType::Mac_pch2lan,
            ),
            MAX_PHY_REG_ADDRESS & I82577_PHY_STATUS_2,
        )),
        old(adapter).hw.phy.ops.read_reg == Some(PhyRegAccess::M88) && r.is_ok()
            ==> final(adapter).hw.phy.cable_polarity == polarity_82577(
            mdic_final(
                final(adapter).new_ops(old(adapter)),
                old(adapter).hw.mac.mac_type == MacType::Mac_pch2lan,
            ) as u16,
        ),
        old(adapter).hw.phy.ops.read_reg == Some(PhyRegAccess::M88) ==> final(adapter).hw.phy.addr == old(
            adapter,
        ).hw.phy.addr,
{
    let mut data: u16 = 0;
    let res = adapter.phy_read_reg(I82577_PHY_STATUS_2, &mut data);
    proof {
        lemma_phy_start(old(adapter));
        lemma_phy_step(old(adapter), old(adapter), adapter);
        reveal(mdic_read_outcome);
    }
    if res.is_err() {
        return res;
    }
    let ghost sa = *adapter;
    adapter.hw.phy.cable_polarity = if data & I82577_PHY_STATUS2_REV_POLARITY != 0 {
        RevPolarity::Reversed
    } else {
        RevPolarity::Normal
    };
    proof {
        lemma_phy_assign(old(adapter), &sa, adapter);
    }
    Ok(())
}

/// The PHY control value that forces the speed and duplex chosen in
/// `fsd`: auto-negotiation off, half duplex when a half-duplex choice is
/// set (full otherwise), 100 Mb/s when a 100 Mb/s choice is set (10 Mb/s
/// otherwise).
pub open spec fn forced_phy_ctrl(pc: u16, fsd: u8) -> u16 {
    let a = pc & !MII_CR_AUTO_NEG_EN;
    let b = if fsd & E1000_ALL_HALF_DUPLEX != 0 {
        a & !MII_CR_FULL_DUPLEX
    } else {
        a | MII_CR_FULL_DUPLEX
    };
    if fsd & E1000_ALL_100_SPEED != 0 {
        (b | MII_CR_SPEED_100) & !MII_CR_SPEED_1000
    } else {
        b & !(MII_CR_SPEED_1000 | MII_CR_SPEED_100)
    }
}

/// The MAC control value that forces the speed and duplex chosen in
/// `fsd`: forced speed and duplex, speed selection and auto speed
/// detection off, then duplex and speed as in `forced_phy_ctrl`.
pub open spec fn forced_mac_ctrl(ctrl: u32, fsd: u8) -> u32 {
    let a = (ctrl | E1000_CTRL_FRCSPD | E1000_CTRL_FRCDPX) & !E1000_CTRL_SPD_SEL & !E1000_CTRL_ASDE;
    let b = if fsd & E1000_ALL_HALF_DUPLEX != 0 {
        a & !E1000_CTRL_FD
    } else {
        a | E1000_CTRL_FD
    };
    if fsd & E1000_ALL_100_SPEED != 0 {
        b | E1000_CTRL_SPD_100
    } else {
        b & !(E1000_CTRL_SPD_1000 | E1000_CTRL_SPD_100)
    }
}

fn forced_phy_ctrl_exec(pc: u16, fsd: u8) -> (r: u16)
    ensures
        r == forced_phy_ctrl(pc, fsd),
{
    let a = pc & !MII_CR_AUTO_NEG_EN;
    let b = if fsd & E1000_ALL_HALF_DUPLEX != 0 {
        a & !MII_CR_FULL_DUPLEX
    } else {
        a | MII_CR_FULL_DUPLEX
    };
    if fsd & E1000_ALL_100_SPEED != 0 {
        (b | MII_CR_SPEED_100) & !MII_CR_SPEED_1000
    } else {
        b & !(MII_CR_SPEED_1000 | MII_CR_SPEED_100)
    }
}

fn forced_mac_ctrl_exec(ctrl: u32, fsd: u8) -> (r: u32)
    ensures
        r == forced_mac_ctrl(ctrl, fsd),
{
    let a = (ctrl | E1000_CTRL_FRCSPD | E1000_CTRL_FRCDPX) & !E1000_CTRL_SPD_SEL & !E1000_CTRL_ASDE;
    let b = if fsd & E1000_ALL_HALF_DUPLEX != 0 {
        a & !E1000_CTRL_FD
    } else {
        a | E1000_CTRL_FD
    };
    if fsd & E1000_ALL_100_SPEED != 0 {
        b | E1000_CTRL_SPD_100
    } else {
        b & !(E1000_CTRL_SPD_1000 | E1000_CTRL_SPD_100)
    }
}

/// The MAC side of forcing speed and duplex: flow control off, the MAC
/// control register rewritten with `forced_mac_ctrl`, after the collision
/// distance is set when its routine is installed.
fn force_mac_speed_duplex<P: Platform>(adapter: &mut Adapter<P>)
    ensures
        final(adapter).same_except_hw(old(adapter)),
        final(adapter).log_extends(old(adapter)),
        final(adapter).hw == (Hardware {
            fc: FcInfo { current_mode: FcMode::NoPause, ..old(adapter).hw.fc },
            ..old(adapter).hw
        }),
        is_read_of(final(adapter).io_log@[old(adapter).io_log@.len() as int], E1000_CTRL),
        final(adapter).io_log@.last() == (IoOp::Write {
            reg: E1000_CTRL,
            value: forced_mac_ctrl(
                read_value(final(adapter).io_log@[old(adapter).io_log@.len() as int]),
                old(adapter).hw.mac.forced_speed_duplex,
            ),
        }),
{
    let ghost s0 = *adapter;
    adapter.hw.fc.current_mode = FcMode::NoPause;
    let ghost s1 = *adapter;
    let ctrl = adapter.read_register(E1000_CTRL);
    let ghost s2 = *adapter;
    let v = forced_mac_ctrl_exec(ctrl, adapter.hw.mac.forced_speed_duplex);
    if adapter.hw.mac.ops.config_collision_dist {
        config_collision_dist_generic(adapter);
    }
    adapter.write_register(E1000_CTRL, v);
    proof {
        assert(adapter.io_log@[s1.io_log@.len() as int] == s2.io_log@[s1.io_log@.len() as int]);
    }
}

/// 82577 forced speed/duplex: reads the PHY control register, forces the
/// MAC (`force_mac_speed_duplex`), writes the PHY control value of
/// `forced_phy_ctrl` and waits 1 us; when asked to wait for completion,
/// polls the link twice. Refused when a PHY access fails.
pub fn phy_force_speed_duplex_82577<P: Platform>(adapter: &mut Adapter<P>) -> (r: AdResult)
    ensures
        final(adapter).same_except_hw(old(adapter)),
        final(adapter).log_extends(old(adapter)),
        final(adapter).hw.mac == old(adapter).hw.mac,
        old(adapter).hw.phy.ops.read_reg is None ==> r.is_err() && final(adapter).same_state(
            old(adapter),
        ) && final(adapter).io_log@ == old(adapter).io_log@,
{
    let mut phy_data: u16 = 0;
    let res = adapter.phy_read_reg(PHY_CONTROL, &mut phy_data);
    proof {
        lemma_frame_keeps(old(adapter), adapter);
    }
    if res.is_err() {
        return res;
    }
    let pc = forced_phy_ctrl_exec(phy_data, adapter.hw.mac.forced_speed_duplex);
    let ghost s1 = *adapter;
    force_mac_speed_duplex(adapter);
    let ghost s2 = *adapter;
    let res = adapter.phy_write_reg(PHY_CONTROL, pc);
    proof {
        lemma_frame_keeps(&s2, adapter);
    }
    if res.is_err() {
        return res;
    }
    do_usec_delay(adapter, 1);
    if adapter.hw.phy.autoneg_wait_to_complete {
        let mut link: bool = false;
        let ghost s3 = *adapter;
        let res = has_link_generic(adapter, PHY_FORCE_LIMIT, 100000, &mut link);
        proof {
            lemma_frame_keeps(&s3, adapter);
        }
        if res.is_err() {
            return res;
        }
        let ghost s4 = *adapter;
        let res = has_link_generic(adapter, PHY_FORCE_LIMIT, 100000, &mut link);
        proof {
            lemma_frame_keeps(&s4, adapter);
        }
        return res;
    }
    Ok(())
}

/// The cable length an 82577 diagnostic status value reports.
pub open spec fn cable_length_82577(status: u16) -> u16 {
    ((status & I82577_DSTATUS_CABLE_LENGTH) >> I82577_DSTATUS_CABLE_LENGTH_SHIFT) as u16
}

/// 82577 cable length: reads the diagnostic status register and, when the
/// length it reports is defined, stores it; refused when the read fails or
/// the length is undefined, the stored length then unchanged.
#[verifier::spinoff_prover]
#[verifier::rlimit(30)]
pub fn get_cable_length_82577<P: Platform>(adapter: &mut Adapter<P>) -> (r: AdResult)
    ensures
        only_phy_changed(old(adapter), final(adapter)),
        final(adapter).hw.phy == (PhyInfo {
            addr: final(adapter).hw.phy.addr,
            cable_length: final(adapter).hw.phy.cable_length,
            ..old(adapter).hw.phy
        }),
        old(adapter).hw.phy.ops.read_reg is None ==> r.is_err() && final(adapter).same_state(
            old(adapter),
        ) && final(adapter).io_log@ == old(adapter).io_log@,
        r.is_err() ==> final(adapter).hw.phy.cable_length == old(adapter).hw.phy.cable_length,
        r.is_ok() ==> final(adapter).hw.phy.cable_length != E1000_CABLE_LENGTH_UNDEFINED,
        old(adapter).hw.phy.ops.read_reg == Some(PhyRegAccess::M88) && r.is_ok()
            ==> final(adapter).hw.phy.cable_length == cable_length_82577(
            mdic_final(
                final(adapter).new_ops(old(adapter)),
                old(adapter).hw.mac.mac_type == MacType::Mac_pch2lan,
            ) as u16,
        ),
        old(adapter).hw.phy.ops.read_reg == Some(PhyRegAccess::M88) ==> final(adapter).hw.phy.addr == old(
            adapter,
        ).hw.phy.addr,
{
    let mut data: u16 = 0;
    let res = adapter.phy_read_reg(I82577_PHY_DIAG_STATUS, &mut data);
    proof {
        lemma_phy_start(old(adapter));
        lemma_phy_step(old(adapter), old(adapter), adapter);
        reveal(mdic_read_outcome);
    }
    if res.is_err() {
        return res;
    }
    let length: u16 = (data & I82577_DSTATUS_CABLE_LENGTH) >> I82577_DSTATUS_CABLE_LENGTH_SHIFT;
    if length == E1000_CABLE_LENGTH_UNDEFINED {
        return Err("cable length undefined".to_string());
    }
    let ghost sa = *adapter;
    adapter.hw.phy.cable_length = length;
    proof {
        lemma_phy_assign(old(adapter), &sa, adapter);
    }
    Ok(())
}

/// The address port of the HV vendor-specific registers (the data port
/// follows it): the 82578's, or the 82577's for other PHYs.
pub open spec fn hv_debug_addr_reg(t: PhyType) -> u32 {
    if t == PhyType::Type_82578 {
        I82578_ADDR_REG
    } else {
        I82577_ADDR_REG
    }
}

/// Reads or writes an HV vendor-specific high register, the semaphore
/// already held: at PHY address 2 and without pages, writes the register
/// number (the low six bits of `offset`) to the address port, then reads
/// the data port into `data` or writes `data` to it. Refused when either
/// MDIC access fails.
pub fn access_phy_debug_regs_hv<P: Platform>(
    adapter: &mut Adapter<P>,
    offset: u32,
    data: &mut u16,
    read: bool,
) -> (r: AdResult)
    ensures
        phy_access_frame(old(adapter), final(adapter)),
        final(adapter).hw.phy.addr == 2,
        final(adapter).io_log@.len() > old(adapter).io_log@.len(),
        final(adapter).io_log@[old(adapter).io_log@.len() as int] == (IoOp::Write {
            reg: E1000_MDIC,
            value: mdic_write_cmd(hv_debug_addr_reg(old(adapter).hw.phy.phy_type), 2, (offset as u16) & 0x3F),
        }),
        !read || r.is_err() ==> *final(data) == *old(data),
{
    let addr_reg: u32 = if adapter.hw.phy.phy_type == PhyType::Type_82578 {
        I82578_ADDR_REG
    } else {
        I82577_ADDR_REG
    };
    adapter.hw.phy.addr = 2;
    proof {
        lemma_frame_of_addr(old(adapter), adapter);
    }
    let ghost s1 = *adapter;
    let res = write_phy_reg_mdic(adapter, addr_reg, (offset as u16) & 0x3F);
    proof {
        lemma_frame_of_same(&s1, adapter);
        lemma_frame_trans(old(adapter), &s1, adapter);
        reveal(mdic_transaction);
    }
    if res.is_err() {
        return res;
    }
    let ghost s2 = *adapter;
    let res = if read {
        read_phy_reg_mdic(adapter, addr_reg + 1, data)
    } else {
        write_phy_reg_mdic(adapter, addr_reg + 1, *data)
    };
    proof {
        lemma_frame_of_same(&s2, adapter);
        lemma_frame_trans(old(adapter), &s2, adapter);
        assert(adapter.io_log@[s1.io_log@.len() as int] == s2.io_log@[s1.io_log@.len() as int]);
    }
    res
}

/// Waits 10 ms for the PHY configuration to complete.
pub fn get_cfg_done_generic<P: Platform>(adapter: &mut Adapter<P>) -> (r: AdResult)
    ensures
        r.is_ok(),
        final(adapter).same_state(old(adapter)),
        final(adapter).logged(old(adapter), seq![IoOp::Delay { usecs: 10000 }]),
{
    do_msec_delay(adapter, 10);
    Ok(())
}

/// Powering the copper PHY up is not implemented by this driver: does
/// nothing.
pub fn power_up_phy_copper<P: Platform>(adapter: &mut Adapter<P>)
    ensures
        final(adapter).same_state(old(adapter)),
        final(adapter).io_log@ == old(adapter).io_log@,
{
}

// ------------------------------------------------------------ kumeran

/// The kumeran control word that addresses register `offset`.
pub open spec fn kmrn_offset_bits(offset: u32) -> u32 {
    (offset << E1000_KMRNCTRLSTA_OFFSET_SHIFT) & E1000_KMRNCTRLSTA_OFFSET
}

/// Reads a kumeran register: takes the semaphore when not `locked` and a
/// semaphore routine is installed (no family of this driver installs one,
/// so nothing is taken), writes the read request, flushes, waits 2 us and
/// reads the register, whose low half is the data.
pub fn __read_kmrn_reg<P: Platform>(
    adapter: &mut Adapter<P>,
    offset: u32,
    data: &mut u16,
    locked: bool,
) -> (r: AdResult)
    ensures
        r.is_ok(),
        final(adapter).same_state(old(adapter)),
        final(adapter).logged(
            old(adapter),
            seq![
                IoOp::Write {
                    reg: E1000_KMRNCTRLSTA,
                    value: kmrn_offset_bits(offset) | E1000_KMRNCTRLSTA_REN,
                },
                IoOp::Read { reg: E1000_STATUS, value: final(adapter).read_at(old(adapter), 1) },
                IoOp::Delay { usecs: 2 },
                IoOp::Read { reg: E1000_KMRNCTRLSTA, value: final(adapter).read_at(old(adapter), 3) },
            ],
        ),
        *final(data) == final(adapter).read_at(old(adapter), 3) as u16,
{
    let ctl: u32 = ((offset << E1000_KMRNCTRLSTA_OFFSET_SHIFT) & E1000_KMRNCTRLSTA_OFFSET)
        | E1000_KMRNCTRLSTA_REN;
    adapter.write_register(E1000_KMRNCTRLSTA, ctl);
    adapter.write_flush();
    do_usec_delay(adapter, 2);
    let v = adapter.read_register(E1000_KMRNCTRLSTA);
    *data = v as u16;
    Ok(())
}

/// Reads a kumeran register, taking the semaphore if a routine for it is
/// installed (`__read_kmrn_reg`).
pub fn read_kmrn_reg_generic<P: Platform>(adapter: &mut Adapter<P>, offset: u32, data: &mut u16) -> (r: AdResult)
    ensures
        r.is_ok(),
        final(adapter).same_state(old(adapter)),
        final(adapter).logged(
            old(adapter),
            seq![
                IoOp::Write {
                    reg: E1000_KMRNCTRLSTA,
                    value: kmrn_offset_bits(offset) | E1000_KMRNCTRLSTA_REN,
                },
                IoOp::Read { reg: E1000_STATUS, value: final(adapter).read_at(old(adapter), 1) },
                IoOp::Delay { usecs: 2 },
                IoOp::Read { reg: E1000_KMRNCTRLSTA, value: final(adapter).read_at(old(adapter), 3) },
            ],
        ),
        *final(data) == final(adapter).read_at(old(adapter), 3) as u16,
{
    __read_kmrn_reg(adapter, offset, data, false)
}

/// Reads a kumeran register, the semaphore already held.
pub fn read_kmrn_reg_locked<P: Platform>(adapter: &mut Adapter<P>, offset: u32, data: &mut u16) -> (r: AdResult)
    ensures
        r.is_ok(),
        final(adapter).same_state(old(adapter)),
        final(adapter).log_extends(old(adapter)),
        final(adapter).io_log@.len() == old(adapter).io_log@.len() + 4,
        final(adapter).io_log@[old(adapter).io_log@.len() as int] == (IoOp::Write {
            reg: E1000_KMRNCTRLSTA,
            value: kmrn_offset_bits(offset) | E1000_KMRNCTRLSTA_REN,
        }),
        is_read_of(final(adapter).io_log@.last(), E1000_KMRNCTRLSTA),
        *final(data) == read_value(final(adapter).io_log@.last()) as u16,
{
    __read_kmrn_reg(adapter, offset, data, true)
}

/// Writes a kumeran register: takes the semaphore when not `locked` and a
/// semaphore routine is installed (none is, in this driver), writes offset
/// and data, flushes and waits 2 us.
pub fn __write_kmrn_reg<P: Platform>(adapter: &mut Adapter<P>, offset: u32, data: u16, locked: bool) -> (r: AdResult)
    ensures
        r.is_ok(),
        final(adapter).same_state(old(adapter)),
        final(adapter).logged(
            old(adapter),
            seq![
                IoOp::Write { reg: E1000_KMRNCTRLSTA, value: kmrn_offset_bits(offset) | (data as u32) },
                IoOp::Read { reg: E1000_STATUS, value: final(adapter).read_at(old(adapter), 1) },
                IoOp::Delay { usecs: 2 },
            ],
        ),
{
    let ctl: u32 = ((offset << E1000_KMRNCTRLSTA_OFFSET_SHIFT) & E1000_KMRNCTRLSTA_OFFSET)
        | data as u32;
    adapter.write_register(E1000_KMRNCTRLSTA, ctl);
    adapter.write_flush();
    do_usec_delay(adapter, 2);
    Ok(())
}

/// Writes a kumeran register, taking the semaphore if a routine for it is
/// installed (`__write_kmrn_reg`).
pub fn write_kmrn_reg_generic<P: Platform>(adapter: &mut Adapter<P>, offset: u32, data: u16) -> (r: AdResult)
    ensures
        r.is_ok(),
        final(adapter).same_state(old(adapter)),
        final(adapter).logged(
            old(adapter),
            seq![
                IoOp::Write { reg: E1000_KMRNCTRLSTA, value: kmrn_offset_bits(offset) | (data as u32) },
                IoOp::Read { reg: E1000_STATUS, value: final(adapter).read_at(old(adapter), 1) },
                IoOp::Delay { usecs: 2 },
            ],
        ),
{
    __write_kmrn_reg(adapter, offset, data, false)
}

/// Writes a kumeran register, the semaphore already held.
pub fn write_kmrn_reg_locked<P: Platform>(adapter: &mut Adapter<P>, offset: u32, data: u16) -> (r: AdResult)
    ensures
        r.is_ok(),
        final(adapter).same_state(old(adapter)),
        final(adapter).log_extends(old(adapter)),
        final(adapter).io_log@.len() == old(adapter).io_log@.len() + 3,
        final(adapter).io_log@[old(adapter).io_log@.len() as int] == (IoOp::Write {
            reg: E1000_KMRNCTRLSTA,
            value: kmrn_offset_bits(offset) | (data as u32),
        }),
        final(adapter).io_log@.last() == (IoOp::Delay { usecs: 2 }),
{
    __write_kmrn_reg(adapter, offset, data, true)
}


// ------------------------------------------------------------ HV PHYs

/// The register access only moved the PHY address and extended the trace.
#[verifier::opaque]
pub open spec fn phy_access_frame<P: Platform>(o: &Adapter<P>, f: &Adapter<P>) -> bool {
    &&& f.same_except_hw(o)
    &&& f.hw == with_phy_addr(o.hw, f.hw.phy.addr)
    &&& f.log_extends(o)
}

/// An access that changed nothing but the trace, which it extended.
pub proof fn lemma_frame_of_same<P: Platform>(o: &Adapter<P>, f: &Adapter<P>)
    requires
        f.same_state(o),
        f.log_extends(o),
    ensures
        phy_access_frame(o, f),
{
    reveal(phy_access_frame);
}

/// Setting the PHY address alone.
pub proof fn lemma_frame_of_addr<P: Platform>(o: &Adapter<P>, f: &Adapter<P>)
    requires
        f.same_except_hw(o),
        f.hw == with_phy_addr(o.hw, f.hw.phy.addr),
        f.io_log@ == o.io_log@,
    ensures
        phy_access_frame(o, f),
{
    reveal(phy_access_frame);
}

/// Two accesses in a row make one.
pub proof fn lemma_frame_trans<P: Platform>(a: &Adapter<P>, b: &Adapter<P>, c: &Adapter<P>)
    requires
        phy_access_frame(a, b),
        phy_access_frame(b, c),
    ensures
        phy_access_frame(a, c),
{
    reveal(phy_access_frame);
}

/// What an access frame keeps of the adapter, in small pieces.
pub proof fn lemma_frame_keeps<P: Platform>(o: &Adapter<P>, f: &Adapter<P>)
    requires
        phy_access_frame(o, f),
    ensures
        f.same_except_hw(o),
        f.log_extends(o),
        f.hw.mac == o.hw.mac,
        f.hw.fc == o.hw.fc,
        f.hw.phy.autoneg_advertised == o.hw.phy.autoneg_advertised,
        f.hw.phy.autoneg_mask == o.hw.phy.autoneg_mask,
        f.hw.phy.autoneg_wait_to_complete == o.hw.phy.autoneg_wait_to_complete,
        f.hw.phy.ops == o.hw.phy.ops,
        f.hw.phy.media_type == o.hw.phy.media_type,
        f.hw.phy.phy_type == o.hw.phy.phy_type,
        f.hw.nvm == o.hw.nvm,
        f.hw.bus == o.hw.bus,
{
    reveal(phy_access_frame);
}

/// What an access frame says.
pub proof fn lemma_frame_facts<P: Platform>(o: &Adapter<P>, f: &Adapter<P>)
    requires
        phy_access_frame(o, f),
    ensures
        f.same_except_hw(o),
        f.hw == with_phy_addr(o.hw, f.hw.phy.addr),
        f.log_extends(o),
{
    reveal(phy_access_frame);
}

/// An access that went to the vendor debug registers: the PHY address is
/// 2 and the first operation writes the debug address command through the
/// MDI control register.
pub open spec fn hv_debug_access_begun<P: Platform>(o: &Adapter<P>, f: &Adapter<P>, offset: u32) -> bool {
    &&& f.hw.phy.addr == 2
    &&& f.io_log@.len() > o.io_log@.len()
    &&& f.io_log@[o.io_log@.len() as int] == (IoOp::Write {
        reg: E1000_MDIC,
        value: mdic_write_cmd(hv_debug_addr_reg(o.hw.phy.phy_type), 2, (offset as u16) & 0x3F),
    })
}

/// The page of an HV/BM PHY register offset.
pub open spec fn hv_page(offset: u32) -> u16 {
    ((offset >> PHY_PAGE_SHIFT) & 0xFFFF) as u16
}

/// Releases the PHY semaphore unless the caller holds it, then hands on
/// the access result.
fn release_if_unlocked<P: Platform>(adapter: &mut Adapter<P>, locked: bool, res: AdResult) -> (r: AdResult)
    ensures
        final(adapter).same_state(old(adapter)),
        final(adapter).io_log@ == old(adapter).io_log@,
        locked ==> r == res,
        !locked ==> r.is_err(),
{
    if !locked {
        let rel = adapter.phy_release();
        match rel {
            Ok(()) => res,
            Err(e) => Err(e),
        }
    } else {
        res
    }
}

/// The register number carried by an HV/BM PHY register offset.
pub open spec fn hv_reg(offset: u32) -> u16 {
    ((offset & MAX_PHY_REG_ADDRESS) | ((offset >> (PHY_UPPER_SHIFT - PHY_PAGE_SHIFT)) & !MAX_PHY_REG_ADDRESS)) as u16
}

/// A page that is neither the wakeup page nor one of the vendor debug
/// pages.
pub open spec fn hv_plain_page(offset: u32) -> bool {
    hv_page(offset) != BM_WUC_PAGE && !(0 < hv_page(offset) < HV_INTC_FC_PAGE_START)
}

/// From `o` to `f`, one read of PHY register `offset` through the MDI
/// control register at PHY address `addr`: the command, whether it
/// succeeded, and the data it gave (`after`; `before` kept on failure).
pub open spec fn mdic_read_at<P: Platform>(
    o: &Adapter<P>,
    f: &Adapter<P>,
    addr: u32,
    offset: u32,
    ok: bool,
    before: u16,
    after: u16,
) -> bool {
    let settle = o.hw.mac.mac_type == MacType::Mac_pch2lan;
    &&& f.log_extends(o)
    &&& mdic_transaction(f.new_ops(o), mdic_read_cmd(offset, addr), ok && settle)
    &&& ok <==> mdic_ok(mdic_final(f.new_ops(o), ok && settle), offset)
    &&& ok ==> after == mdic_final(f.new_ops(o), settle) as u16
    &&& !ok ==> after == before
}

/// From `o` to `f`, one write of `data` to PHY register `offset` through
/// the MDI control register at PHY address `addr`, and whether it
/// succeeded.
pub open spec fn mdic_write_at<P: Platform>(
    o: &Adapter<P>,
    f: &Adapter<P>,
    addr: u32,
    offset: u32,
    data: u16,
    ok: bool,
) -> bool {
    let settle = o.hw.mac.mac_type == MacType::Mac_pch2lan;
    &&& f.log_extends(o)
    &&& mdic_transaction(f.new_ops(o), mdic_write_cmd(offset, addr, data), ok && settle)
    &&& ok <==> mdic_ok(mdic_final(f.new_ops(o), ok && settle), offset)
}

/// An HV read of a plain page: selects the page first when needed (unless
/// `page_set`), then reads through the MDI control register at the page's
/// PHY address.
fn hv_read_plain<P: Platform>(adapter: &mut Adapter<P>, page_in: u16, reg: u16, data_in: u16, page_set: bool) -> (r: (AdResult, u16))
    ensures
        phy_access_frame(old(adapter), final(adapter)),
        page_set || reg as u32 <= MAX_PHY_MULTI_PAGE_REG ==> mdic_read_at(
            old(adapter),
            final(adapter),
            old(adapter).hw.phy.addr,
            (reg as u32) & MAX_PHY_REG_ADDRESS,
            r.0.is_ok(),
            data_in,
            r.1,
        ),
{
    let mut data: u16 = data_in;
    let mut page: u16 = page_in;
    let phy_addr: u32 = adapter.hw.phy.addr;
    proof {
        lemma_frame_of_same(old(adapter), adapter);
    }
    if !page_set {
        if page as u32 == HV_INTC_FC_PAGE_START {
            page = 0;
        }
        if reg as u32 > MAX_PHY_MULTI_PAGE_REG {
            let res = set_page_igp(adapter, page << IGP_PAGE_SHIFT);
            let ghost s1 = *adapter;
            adapter.hw.phy.addr = phy_addr;
            proof {
                lemma_frame_of_addr(&s1, adapter);
                lemma_frame_trans(old(adapter), &s1, adapter);
            }
            if res.is_err() {
                return (res, data);
            }
        }
    }
    let ghost mid = *adapter;
    proof {
        lemma_low_bits(reg as u32);
    }
    let ghost dmid = data;
    let res = read_phy_reg_mdic(adapter, (reg as u32) & MAX_PHY_REG_ADDRESS, &mut data);
    proof {
        lemma_frame_of_same(&mid, adapter);
        lemma_frame_trans(old(adapter), &mid, adapter);
        if page_set || reg as u32 <= MAX_PHY_MULTI_PAGE_REG {
            assert(mid == *old(adapter));
            assert(dmid == data_in);
        }
    }
    (res, data)
}

/// The part of an HV read after the semaphore: the wakeup page goes through
/// its own routine, the debug pages go through the vendor debug registers
/// at PHY address 2, and other pages are read by `hv_read_plain`.
fn hv_read_held<P: Platform>(adapter: &mut Adapter<P>, offset: u32, data_in: u16, page_set: bool) -> (r: (AdResult, u16))
    ensures
        phy_access_frame(old(adapter), final(adapter)),
        hv_page(offset) != BM_WUC_PAGE && 0 < hv_page(offset) < HV_INTC_FC_PAGE_START
            ==> hv_debug_access_begun(old(adapter), final(adapter), offset),
        hv_plain_page(offset) && (page_set || hv_reg(offset) as u32 <= MAX_PHY_MULTI_PAGE_REG)
            ==> mdic_read_at(
            old(adapter),
            final(adapter),
            old(adapter).hw.phy.addr,
            (hv_reg(offset) as u32) & MAX_PHY_REG_ADDRESS,
            r.0.is_ok(),
            data_in,
            r.1,
        ),
{
    let mut data: u16 = data_in;
    let page: u16 = BM_PHY_REG_PAGE(offset);
    let reg: u16 = BM_PHY_REG_NUM(offset);
    if page == BM_WUC_PAGE {
        let r = access_phy_wakeup_reg_bm(adapter, offset, &mut data, true, page_set);
        return (r, data);
    }
    if page > 0 && (page as u32) < HV_INTC_FC_PAGE_START {
        let r = access_phy_debug_regs_hv(adapter, offset, &mut data, true);
        return (r, data);
    }
    hv_read_plain(adapter, page, reg, data, page_set)
}

/// Reads an HV PHY register. The PHY address is chosen from the page; the
/// semaphore is taken unless `locked` (no family of this driver installs
/// that routine, so an unlocked read is refused), then the read proceeds as
/// `hv_read_held` says.
pub fn __read_phy_reg_hv<P: Platform>(
    adapter: &mut Adapter<P>,
    offset: u32,
    data: &mut u16,
    locked: bool,
    page_set: bool,
) -> (r: AdResult)
    ensures
        phy_access_frame(old(adapter), final(adapter)),
        !locked ==> r.is_err() && final(adapter).io_log@ == old(adapter).io_log@
            && final(adapter).hw.phy.addr == hv_page_addr(hv_page(offset) as u32)
            && *final(data) == *old(data),
        locked && hv_page(offset) != BM_WUC_PAGE && 0 < hv_page(offset)
            < HV_INTC_FC_PAGE_START ==> hv_debug_access_begun(old(adapter), final(adapter), offset),
        locked && hv_plain_page(offset) && (page_set || hv_reg(offset) as u32
            <= MAX_PHY_MULTI_PAGE_REG) ==> mdic_read_at(
            old(adapter),
            final(adapter),
            hv_page_addr(hv_page(offset) as u32),
            (hv_reg(offset) as u32) & MAX_PHY_REG_ADDRESS,
            r.is_ok(),
            *old(data),
            *final(data),
        ),
{
    let page: u16 = BM_PHY_REG_PAGE(offset);
    adapter.hw.phy.addr = get_phy_addr_for_hv_page(page as u32);
    proof {
        lemma_frame_of_addr(old(adapter), adapter);
    }
    if !locked {
        let ghost s0 = *adapter;
        let acq = adapter.phy_acquire();
        proof {
            lemma_frame_of_same(&s0, adapter);
            lemma_frame_trans(old(adapter), &s0, adapter);
        }
        return acq;
    }
    let ghost s0 = *adapter;
    let (r, d) = hv_read_held(adapter, offset, *data, page_set);
    *data = d;
    proof {
        lemma_frame_trans(old(adapter), &s0, adapter);
    }
    r
}

/// Reads an HV PHY register under the semaphore.
pub fn read_phy_reg_hv<P: Platform>(adapter: &mut Adapter<P>, offset: u32, data: &mut u16) -> (r: AdResult)
    ensures
        r.is_err(),
        phy_access_frame(old(adapter), final(adapter)),
        final(adapter).io_log@ == old(adapter).io_log@,
        final(adapter).hw.phy.addr == hv_page_addr(hv_page(offset) as u32),
        *final(data) == *old(data),
{
    __read_phy_reg_hv(adapter, offset, data, false, false)
}

/// Reads an HV PHY register, the semaphore already held.
pub fn read_phy_reg_hv_locked<P: Platform>(adapter: &mut Adapter<P>, offset: u32, data: &mut u16) -> (r: AdResult)
    ensures
        phy_access_frame(old(adapter), final(adapter)),
        hv_page(offset) != BM_WUC_PAGE && 0 < hv_page(offset) < HV_INTC_FC_PAGE_START
            ==> hv_debug_access_begun(old(adapter), final(adapter), offset),
        hv_plain_page(offset) && hv_reg(offset) as u32 <= MAX_PHY_MULTI_PAGE_REG ==> mdic_read_at(
            old(adapter),
            final(adapter),
            hv_page_addr(hv_page(offset) as u32),
            (hv_reg(offset) as u32) & MAX_PHY_REG_ADDRESS,
            r.is_ok(),
            *old(data),
            *final(data),
        ),
{
    __read_phy_reg_hv(adapter, offset, data, true, false)
}

/// Reads an HV PHY register, the semaphore held and the page already set.
pub fn read_phy_reg_page_hv<P: Platform>(adapter: &mut Adapter<P>, offset: u32, data: &mut u16) -> (r: AdResult)
    ensures
        phy_access_frame(old(adapter), final(adapter)),
        hv_page(offset) != BM_WUC_PAGE && 0 < hv_page(offset) < HV_INTC_FC_PAGE_START
            ==> hv_debug_access_begun(old(adapter), final(adapter), offset),
        hv_plain_page(offset) ==> mdic_read_at(
            old(adapter),
            final(adapter),
            hv_page_addr(hv_page(offset) as u32),
            (hv_reg(offset) as u32) & MAX_PHY_REG_ADDRESS,
            r.is_ok(),
            *old(data),
            *final(data),
        ),
{
    __read_phy_reg_hv(adapter, offset, data, true, true)
}

/// The part of an HV write after the semaphore: as for the read, plus the
/// 82578 workaround that, before a write with bit 11 set to a low register of
/// PHY address 2 on revision 1 and later, writes 0x7EFF to debug register 3
/// of page 1.
fn hv_write_held<P: Platform>(adapter: &mut Adapter<P>, offset: u32, data: u16, page_set: bool) -> (r: AdResult)
    ensures
        phy_access_frame(old(adapter), final(adapter)),
        hv_page(offset) != BM_WUC_PAGE && 0 < hv_page(offset) < HV_INTC_FC_PAGE_START
            ==> hv_debug_access_begun(old(adapter), final(adapter), offset),
        page_set && hv_plain_page(offset) ==> mdic_write_at(
            old(adapter),
            final(adapter),
            old(adapter).hw.phy.addr,
            (hv_reg(offset) as u32) & MAX_PHY_REG_ADDRESS,
            data,
            r.is_ok(),
        ),
{
    let mut data = data;
    let mut page: u16 = BM_PHY_REG_PAGE(offset);
    let reg: u16 = BM_PHY_REG_NUM(offset);
    let phy_addr: u32 = adapter.hw.phy.addr;
    if page == BM_WUC_PAGE {
        return access_phy_wakeup_reg_bm(adapter, offset, &mut data, false, page_set);
    }
    if page > 0 && (page as u32) < HV_INTC_FC_PAGE_START {
        let r = access_phy_debug_regs_hv(adapter, offset, &mut data, false);
        return r;
    }
    proof {
        lemma_frame_of_same(old(adapter), adapter);
    }
    if !page_set {
        if page as u32 == HV_INTC_FC_PAGE_START {
            page = 0;
        }
        if adapter.hw.phy.phy_type == PhyType::Type_82578 && adapter.hw.phy.revision >= 1
            && adapter.hw.phy.addr == 2 && (reg as u32) & MAX_PHY_REG_ADDRESS == 0 && data & (1u16
            << 11u16) != 0 {
            let mut data2: u16 = 0x7EFF;
            let ghost sw = *adapter;
            let res = access_phy_debug_regs_hv(adapter, (1u32 << 6u32) | 0x3, &mut data2, false);
            proof {
                lemma_frame_trans(old(adapter), &sw, adapter);
            }
            if res.is_err() {
                return res;
            }
        }
        if reg as u32 > MAX_PHY_MULTI_PAGE_REG {
            let ghost sp = *adapter;
            let res = set_page_igp(adapter, page << IGP_PAGE_SHIFT);
            let ghost s1 = *adapter;
            adapter.hw.phy.addr = phy_addr;
            proof {
                lemma_frame_of_addr(&s1, adapter);
                lemma_frame_trans(old(adapter), &sp, &s1);
                lemma_frame_trans(old(adapter), &s1, adapter);
            }
            if res.is_err() {
                return res;
            }
        }
    }
    proof {
        lemma_low_bits(reg as u32);
    }
    let ghost mid = *adapter;
    let res = write_phy_reg_mdic(adapter, (reg as u32) & MAX_PHY_REG_ADDRESS, data);
    proof {
        lemma_frame_of_same(&mid, adapter);
        lemma_frame_trans(old(adapter), &mid, adapter);
    }
    res
}

/// Writes an HV PHY register. The PHY address is chosen from the page; the
/// semaphore is taken unless `locked` (no family of this driver installs
/// that routine, so an unlocked write is refused), then the write proceeds as
/// `hv_write_held` says.
pub fn __write_phy_reg_hv<P: Platform>(
    adapter: &mut Adapter<P>,
    offset: u32,
    data: u16,
    locked: bool,
    page_set: bool,
) -> (r: AdResult)
    ensures
        phy_access_frame(old(adapter), final(adapter)),
        !locked ==> r.is_err() && final(adapter).io_log@ == old(adapter).io_log@
            && final(adapter).hw.phy.addr == hv_page_addr(hv_page(offset) as u32),
        locked && hv_page(offset) != BM_WUC_PAGE && 0 < hv_page(offset)
            < HV_INTC_FC_PAGE_START ==> hv_debug_access_begun(old(adapter), final(adapter), offset),
        locked && page_set && hv_plain_page(offset) ==> mdic_write_at(
            old(adapter),
            final(adapter),
            hv_page_addr(hv_page(offset) as u32),
            (hv_reg(offset) as u32) & MAX_PHY_REG_ADDRESS,
            data,
            r.is_ok(),
        ),
{
    let page: u16 = BM_PHY_REG_PAGE(offset);
    adapter.hw.phy.addr = get_phy_addr_for_hv_page(page as u32);
    proof {
        lemma_frame_of_addr(old(adapter), adapter);
    }
    if !locked {
        let ghost s0 = *adapter;
        let acq = adapter.phy_acquire();
        proof {
            lemma_frame_of_same(&s0, adapter);
            lemma_frame_trans(old(adapter), &s0, adapter);
        }
        return acq;
    }
    let ghost s0 = *adapter;
    let r = hv_write_held(adapter, offset, data, page_set);
    proof {
        lemma_frame_trans(old(adapter), &s0, adapter);
    }
    r
}

/// Writes an HV PHY register under the semaphore.
pub fn write_phy_reg_hv<P: Platform>(adapter: &mut Adapter<P>, offset: u32, data: u16) -> (r: AdResult)
    ensures
        r.is_err(),
        phy_access_frame(old(adapter), final(adapter)),
        final(adapter).io_log@ == old(adapter).io_log@,
        final(adapter).hw.phy.addr == hv_page_addr(hv_page(offset) as u32),
{
    __write_phy_reg_hv(adapter, offset, data, false, false)
}

/// Writes an HV PHY register, the semaphore already held.
pub fn write_phy_reg_hv_locked<P: Platform>(adapter: &mut Adapter<P>, offset: u32, data: u16) -> (r: AdResult)
    ensures
        phy_access_frame(old(adapter), final(adapter)),
        hv_page(offset) != BM_WUC_PAGE && 0 < hv_page(offset) < HV_INTC_FC_PAGE_START
            ==> hv_debug_access_begun(old(adapter), final(adapter), offset),
{
    __write_phy_reg_hv(adapter, offset, data, true, false)
}

/// Writes an HV PHY register, the semaphore held and the page already set.
pub fn write_phy_reg_page_hv<P: Platform>(adapter: &mut Adapter<P>, offset: u32, data: u16) -> (r: AdResult)
    ensures
        phy_access_frame(old(adapter), final(adapter)),
        hv_page(offset) != BM_WUC_PAGE && 0 < hv_page(offset) < HV_INTC_FC_PAGE_START
            ==> hv_debug_access_begun(old(adapter), final(adapter), offset),
        hv_plain_page(offset) ==> mdic_write_at(
            old(adapter),
            final(adapter),
            hv_page_addr(hv_page(offset) as u32),
            (hv_reg(offset) as u32) & MAX_PHY_REG_ADDRESS,
            data,
            r.is_ok(),
        ),
{
    __write_phy_reg_hv(adapter, offset, data, true, true)
}

/// Opens the BM wakeup register page: selects the port-control page, saves
/// the wakeup-control register in `phy_reg`, enables wakeup-page access
/// with the ME and host wakeup bits cleared, and selects the wakeup page.
/// All of it at PHY address 1.
pub fn enable_phy_wakeup_reg_access_bm<P: Platform>(adapter: &mut Adapter<P>, phy_reg: &mut u16) -> (r: AdResult)
    ensures
        phy_access_frame(old(adapter), final(adapter)),
        final(adapter).hw.phy.addr == 1,
{
    adapter.hw.phy.addr = 1;
    proof {
        lemma_frame_of_addr(old(adapter), adapter);
    }
    let ghost s0 = *adapter;
    let res = set_page_igp(adapter, (BM_PORT_CTRL_PAGE << IGP_PAGE_SHIFT) as u16);
    proof {
        lemma_frame_trans(old(adapter), &s0, adapter);
    }
    if res.is_err() {
        return res;
    }
    let ghost s1 = *adapter;
    let res = read_phy_reg_mdic(adapter, BM_WUC_ENABLE_REG, phy_reg);
    proof {
        lemma_frame_of_same(&s1, adapter);
        lemma_frame_trans(old(adapter), &s1, adapter);
    }
    if res.is_err() {
        return res;
    }
    let mut temp: u16 = *phy_reg;
    temp = temp | BM_WUC_ENABLE_BIT;
    temp = temp & !(BM_WUC_ME_WU_BIT | BM_WUC_HOST_WU_BIT);
    let ghost s2 = *adapter;
    let res = write_phy_reg_mdic(adapter, BM_WUC_ENABLE_REG, temp);
    proof {
        lemma_frame_of_same(&s2, adapter);
        lemma_frame_trans(old(adapter), &s2, adapter);
    }
    if res.is_err() {
        return res;
    }
    let ghost s3 = *adapter;
    let res = set_page_igp(adapter, (BM_WUC_PAGE << IGP_PAGE_SHIFT as u16));
    proof {
        lemma_frame_trans(old(adapter), &s3, adapter);
    }
    res
}

/// Closes the BM wakeup register page: selects the port-control page and
/// restores the wakeup-control register from `phy_reg`.
pub fn disable_phy_wakeup_reg_access_bm<P: Platform>(adapter: &mut Adapter<P>, phy_reg: &mut u16) -> (r: AdResult)
    ensures
        phy_access_frame(old(adapter), final(adapter)),
        final(adapter).hw.phy.addr == 1,
        *final(phy_reg) == *old(phy_reg),
{
    let res = set_page_igp(adapter, (BM_PORT_CTRL_PAGE << IGP_PAGE_SHIFT) as u16);
    if res.is_err() {
        return res;
    }
    let ghost s1 = *adapter;
    let res = write_phy_reg_mdic(adapter, BM_WUC_ENABLE_REG, *phy_reg);
    proof {
        lemma_frame_of_same(&s1, adapter);
        lemma_frame_trans(old(adapter), &s1, adapter);
    }
    res
}

/// Reads or writes a BM wakeup-page register: opens the page unless
/// `page_set`, writes the register number with the address opcode, reads
/// or writes the data with the data opcode, and closes the page again.
/// Refused on pchlan, which this driver does not implement.
pub fn access_phy_wakeup_reg_bm<P: Platform>(
    adapter: &mut Adapter<P>,
    offset: u32,
    data: &mut u16,
    read: bool,
    page_set: bool,
) -> (r: AdResult)
    ensures
        phy_access_frame(old(adapter), final(adapter)),
        old(adapter).hw.mac.mac_type == MacType::Mac_pchlan ==> r.is_err() && final(adapter).same_state(
            old(adapter),
        ) && final(adapter).io_log@ == old(adapter).io_log@,
        !read ==> *final(data) == *old(data),
{
    let reg: u16 = BM_PHY_REG_NUM(offset);
    let mut phy_reg: u16 = 0;
    proof {
        lemma_frame_of_addr(old(adapter), adapter);
    }
    if adapter.hw.mac.mac_type == MacType::Mac_pchlan {
        return Err("incomplete function - returning error".to_string());
    }
    if !page_set {
        let ghost s0 = *adapter;
        let res = enable_phy_wakeup_reg_access_bm(adapter, &mut phy_reg);
        proof {
            lemma_frame_trans(old(adapter), &s0, adapter);
        }
        if res.is_err() {
            return res;
        }
    }
    let ghost s1 = *adapter;
    let res = write_phy_reg_mdic(adapter, BM_WUC_ADDRESS_OPCODE, reg);
    proof {
        lemma_frame_of_same(&s1, adapter);
        lemma_frame_trans(old(adapter), &s1, adapter);
    }
    if res.is_err() {
        return res;
    }
    let ghost s2 = *adapter;
    if read {
        let res = read_phy_reg_mdic(adapter, BM_WUC_DATA_OPCODE, data);
        proof {
            lemma_frame_of_same(&s2, adapter);
            lemma_frame_trans(old(adapter), &s2, adapter);
        }
        if res.is_err() {
            return res;
        }
    } else {
        let res = write_phy_reg_mdic(adapter, BM_WUC_DATA_OPCODE, *data);
        proof {
            lemma_frame_of_same(&s2, adapter);
            lemma_frame_trans(old(adapter), &s2, adapter);
        }
        if res.is_err() {
            return res;
        }
    }
    if !page_set {
        let ghost s3 = *adapter;
        let res = disable_phy_wakeup_reg_access_bm(adapter, &mut phy_reg);
        proof {
            lemma_frame_trans(old(adapter), &s3, adapter);
        }
        if res.is_err() {
            return res;
        }
    }
    Ok(())
}

// ------------------------------------------------------------ dispatch

impl<P: Platform> Adapter<P> {
    /// Takes the PHY semaphore: no family of this driver installs the
    /// routine, so the request is refused.
    pub fn phy_acquire(&mut self) -> (r: AdResult)
        ensures
            r.is_err(),
            final(self).same_state(old(self)),
            final(self).io_log@ == old(self).io_log@,
    {
        Err("No function".to_string())
    }

    /// Releases the PHY semaphore: no family of this driver installs the
    /// routine, so the request is refused.
    pub fn phy_release(&mut self) -> (r: AdResult)
        ensures
            r.is_err(),
            final(self).same_state(old(self)),
            final(self).io_log@ == old(self).io_log@,
    {
        Err("No function".to_string())
    }

    /// Asks whether a PHY reset is blocked: no family of this driver
    /// installs the routine, so the request is refused.
    pub fn check_reset_block(&mut self) -> (r: Result<bool, String>)
        ensures
            r.is_err(),
            final(self).same_state(old(self)),
            final(self).io_log@ == old(self).io_log@,
    {
        Err("No function".to_string())
    }

    /// Reads a PHY register with the installed reader; refused when none is
    /// installed.
    pub fn phy_read_reg(&mut self, offset: u32, data: &mut u16) -> (r: AdResult)
        ensures
            phy_access_frame(old(self), final(self)),
            old(self).hw.phy.ops.read_reg is None ==> r.is_err() && final(self).same_state(old(self))
                && final(self).io_log@ == old(self).io_log@ && *final(data) == *old(data),
            old(self).hw.phy.ops.read_reg == Some(PhyRegAccess::M88) ==> mdic_read_outcome(
                old(self),
                final(self),
                MAX_PHY_REG_ADDRESS & offset,
                r.is_ok(),
                *old(data),
                *final(data),
            ),
    {
        match self.hw.phy.ops.read_reg {
            None => {
                proof {
                    lemma_frame_of_same(old(self), self);
                }
                Err("No function".to_string())
            },
            Some(PhyRegAccess::M88) => {
                let r = read_phy_reg_m88(self, offset, data);
                proof {
                    reveal(mdic_read_outcome);
                    lemma_frame_of_same(old(self), self);
                }
                r
            },
            Some(PhyRegAccess::Hv) => read_phy_reg_hv(self, offset, data),
            Some(PhyRegAccess::HvLocked) => read_phy_reg_hv_locked(self, offset, data),
            Some(PhyRegAccess::PageHv) => read_phy_reg_page_hv(self, offset, data),
            Some(PhyRegAccess::KmrnGeneric) => {
                let r = read_kmrn_reg_generic(self, offset, data);
                proof {
                    lemma_frame_of_same(old(self), self);
                }
                r
            },
            Some(PhyRegAccess::KmrnLocked) => {
                let r = read_kmrn_reg_locked(self, offset, data);
                proof {
                    lemma_frame_of_same(old(self), self);
                }
                r
            },
        }
    }

    /// Reads a PHY register with the installed locked reader; refused when
    /// none is installed.
    pub fn phy_read_reg_locked(&mut self, offset: u32, data: &mut u16) -> (r: AdResult)
        ensures
            phy_access_frame(old(self), final(self)),
            old(self).hw.phy.ops.read_reg_locked is None ==> r.is_err() && final(self).same_state(
                old(self),
            ) && final(self).io_log@ == old(self).io_log@ && *final(data) == *old(data),
            old(self).hw.phy.ops.read_reg_locked == Some(PhyRegAccess::M88) ==> mdic_read_outcome(
                old(self),
                final(self),
                MAX_PHY_REG_ADDRESS & offset,
                r.is_ok(),
                *old(data),
                *final(data),
            ),
    {
        match self.hw.phy.ops.read_reg_locked {
            None => {
                proof {
                    lemma_frame_of_same(old(self), self);
                }
                Err("No function".to_string())
            },
            Some(PhyRegAccess::M88) => {
                let r = read_phy_reg_m88(self, offset, data);
                proof {
                    reveal(mdic_read_outcome);
                    lemma_frame_of_same(old(self), self);
                }
                r
            },
            Some(PhyRegAccess::Hv) => read_phy_reg_hv(self, offset, data),
            Some(PhyRegAccess::HvLocked) => read_phy_reg_hv_locked(self, offset, data),
            Some(PhyRegAccess::PageHv) => read_phy_reg_page_hv(self, offset, data),
            Some(PhyRegAccess::KmrnGeneric) => {
                let r = read_kmrn_reg_generic(self, offset, data);
                proof {
                    lemma_frame_of_same(old(self), self);
                }
                r
            },
            Some(PhyRegAccess::KmrnLocked) => {
                let r = read_kmrn_reg_locked(self, offset, data);
                proof {
                    lemma_frame_of_same(old(self), self);
                }
                r
            },
        }
    }

    /// Writes a PHY register with the installed writer; refused when none is
    /// installed. The M88 writer writes nothing.
    pub fn phy_write_reg(&mut self, offset: u32, data: u16) -> (r: AdResult)
        ensures
            phy_access_frame(old(self), final(self)),
            old(self).hw.phy.ops.write_reg is None ==> r.is_err() && final(self).same_state(old(self))
                && final(self).io_log@ == old(self).io_log@,
            old(self).hw.phy.ops.write_reg == Some(PhyRegAccess::M88) ==> r.is_ok()
                && final(self).same_state(old(self)) && final(self).io_log@ == old(self).io_log@,
    {
        match self.hw.phy.ops.write_reg {
            None => {
                proof {
                    lemma_frame_of_same(old(self), self);
                }
                Err("No function".to_string())
            },
            Some(PhyRegAccess::M88) => {
                let r = write_phy_reg_m88(self, offset, data);
                proof {
                    lemma_frame_of_same(old(self), self);
                }
                r
            },
            Some(PhyRegAccess::Hv) => write_phy_reg_hv(self, offset, data),
            Some(PhyRegAccess::HvLocked) => write_phy_reg_hv_locked(self, offset, data),
            Some(PhyRegAccess::PageHv) => write_phy_reg_page_hv(self, offset, data),
            Some(PhyRegAccess::KmrnGeneric) => {
                let r = write_kmrn_reg_generic(self, offset, data);
                proof {
                    lemma_frame_of_same(old(self), self);
                }
                r
            },
            Some(PhyRegAccess::KmrnLocked) => {
                let r = write_kmrn_reg_locked(self, offset, data);
                proof {
                    lemma_frame_of_same(old(self), self);
                }
                r
            },
        }
    }

    /// Writes a PHY register with the installed locked writer; refused when
    /// none is installed.
    pub fn phy_write_reg_locked(&mut self, offset: u32, data: u16) -> (r: AdResult)
        ensures
            phy_access_frame(old(self), final(self)),
            old(self).hw.phy.ops.write_reg_locked is None ==> r.is_err() && final(self).same_state(
                old(self),
            ) && final(self).io_log@ == old(self).io_log@,
            old(self).hw.phy.ops.write_reg_locked == Some(PhyRegAccess::M88) ==> r.is_ok()
                && final(self).same_state(old(self)) && final(self).io_log@ == old(self).io_log@,
    {
        match self.hw.phy.ops.write_reg_locked {
            None => {
                proof {
                    lemma_frame_of_same(old(self), self);
                }
                Err("No function".to_string())
            },
            Some(PhyRegAccess::M88) => {
                let r = write_phy_reg_m88(self, offset, data);
                proof {
                    lemma_frame_of_same(old(self), self);
                }
                r
            },
            Some(PhyRegAccess::Hv) => write_phy_reg_hv(self, offset, data),
            Some(PhyRegAccess::HvLocked) => write_phy_reg_hv_locked(self, offset, data),
            Some(PhyRegAccess::PageHv) => write_phy_reg_page_hv(self, offset, data),
            Some(PhyRegAccess::KmrnGeneric) => {
                let r = write_kmrn_reg_generic(self, offset, data);
                proof {
                    lemma_frame_of_same(old(self), self);
                }
                r
            },
            Some(PhyRegAccess::KmrnLocked) => {
                let r = write_kmrn_reg_locked(self, offset, data);
                proof {
                    lemma_frame_of_same(old(self), self);
                }
                r
            },
        }
    }
}


// ------------------------------------------------------------ link setup

/// Only the PHY description changed (and the trace grew).
#[verifier::opaque]
pub open spec fn only_phy_changed<P: Platform>(o: &Adapter<P>, f: &Adapter<P>) -> bool {
    &&& f.same_except_hw(o)
    &&& f.log_extends(o)
    &&& f.hw == Hardware { phy: f.hw.phy, ..o.hw }
}

/// The PHY description with only the address and the advertised speeds
/// taken from the arguments.
pub open spec fn phy_with_adv(p: PhyInfo, addr: u32, adv: u16) -> PhyInfo {
    PhyInfo { addr: addr, autoneg_advertised: adv, ..p }
}

/// The auto-negotiation advertisement register value: the 10/100 speed bits
/// replaced by those `advertised` asks for, and the pause bits set by the
/// flow-control mode; `None` for the "default" mode, which has no setting.
#[verifier::opaque]
pub open spec fn autoneg_adv_value(reg: u16, advertised: u16, fc: FcMode) -> Option<u16> {
    let cleared = reg & !(NWAY_AR_100TX_FD_CAPS | NWAY_AR_100TX_HD_CAPS | NWAY_AR_10T_FD_CAPS
        | NWAY_AR_10T_HD_CAPS);
    let a1 = if advertised & ADVERTISE_10_HALF != 0 {
        cleared | NWAY_AR_10T_HD_CAPS
    } else {
        cleared
    };
    let a2 = if advertised & ADVERTISE_10_FULL != 0 {
        a1 | NWAY_AR_10T_FD_CAPS
    } else {
        a1
    };
    let a3 = if advertised & ADVERTISE_100_HALF != 0 {
        a2 | NWAY_AR_100TX_HD_CAPS
    } else {
        a2
    };
    let a4 = if advertised & ADVERTISE_100_FULL != 0 {
        a3 | NWAY_AR_100TX_FD_CAPS
    } else {
        a3
    };
    match fc {
        FcMode::NoPause => Some(a4 & !(NWAY_AR_ASM_DIR | NWAY_AR_PAUSE)),
        FcMode::RxPause => Some(a4 | (NWAY_AR_ASM_DIR | NWAY_AR_PAUSE)),
        FcMode::TxPause => Some((a4 | NWAY_AR_ASM_DIR) & !NWAY_AR_PAUSE),
        FcMode::Full => Some(a4 | (NWAY_AR_ASM_DIR | NWAY_AR_PAUSE)),
        FcMode::Default => None,
    }
}

/// The 1000BASE-T control register value: both gigabit speed bits cleared,
/// full duplex set when `advertised` asks for it (half duplex is never
/// advertised).
#[verifier::opaque]
pub open spec fn autoneg_1000t_value(reg: u16, advertised: u16) -> u16 {
    let cleared = reg & !(CR_1000T_HD_CAPS | CR_1000T_FD_CAPS);
    if advertised & ADVERTISE_1000_FULL != 0 {
        cleared | CR_1000T_FD_CAPS
    } else {
        cleared
    }
}

/// Computes the advertisement register value.
fn compute_autoneg_adv(reg: u16, advertised: u16, fc: FcMode) -> (r: Option<u16>)
    ensures
        r == autoneg_adv_value(reg, advertised, fc),
        r is None <==> fc == FcMode::Default,
{
    reveal(autoneg_adv_value);
    let mut adv: u16 = reg & !(NWAY_AR_100TX_FD_CAPS | NWAY_AR_100TX_HD_CAPS | NWAY_AR_10T_FD_CAPS
        | NWAY_AR_10T_HD_CAPS);
    if advertised & ADVERTISE_10_HALF != 0 {
        adv = adv | NWAY_AR_10T_HD_CAPS;
    }
    if advertised & ADVERTISE_10_FULL != 0 {
        adv = adv | NWAY_AR_10T_FD_CAPS;
    }
    if advertised & ADVERTISE_100_HALF != 0 {
        adv = adv | NWAY_AR_100TX_HD_CAPS;
    }
    if advertised & ADVERTISE_100_FULL != 0 {
        adv = adv | NWAY_AR_100TX_FD_CAPS;
    }
    match fc {
        FcMode::NoPause => Some(adv & !(NWAY_AR_ASM_DIR | NWAY_AR_PAUSE)),
        FcMode::RxPause => Some(adv | (NWAY_AR_ASM_DIR | NWAY_AR_PAUSE)),
        FcMode::TxPause => Some((adv | NWAY_AR_ASM_DIR) & !NWAY_AR_PAUSE),
        FcMode::Full => Some(adv | (NWAY_AR_ASM_DIR | NWAY_AR_PAUSE)),
        FcMode::Default => None,
    }
}

/// Computes the 1000BASE-T control register value.
fn compute_autoneg_1000t(reg: u16, advertised: u16) -> (r: u16)
    ensures
        r == autoneg_1000t_value(reg, advertised),
{
    reveal(autoneg_1000t_value);
    let cleared = reg & !(CR_1000T_HD_CAPS | CR_1000T_FD_CAPS);
    if advertised & ADVERTISE_1000_FULL != 0 {
        cleared | CR_1000T_FD_CAPS
    } else {
        cleared
    }
}

proof fn lemma_adv_step<P: Platform>(o: &Adapter<P>, s: &Adapter<P>, f: &Adapter<P>, adv: u16)
    requires
        only_phy_changed(o, s),
        s.hw.phy == phy_with_adv(o.hw.phy, s.hw.phy.addr, adv),
        phy_access_frame(s, f),
    ensures
        only_phy_changed(o, f),
        f.hw.phy == phy_with_adv(o.hw.phy, f.hw.phy.addr, adv),
{
    reveal(phy_access_frame);
    reveal(only_phy_changed);
}

proof fn lemma_phy_assign<P: Platform>(o: &Adapter<P>, s: &Adapter<P>, f: &Adapter<P>)
    requires
        only_phy_changed(o, s),
        *f == (Adapter { hw: Hardware { phy: f.hw.phy, ..s.hw }, ..*s }),
    ensures
        only_phy_changed(o, f),
{
    reveal(only_phy_changed);
}

/// What an only-PHY change keeps, in small pieces.
pub proof fn lemma_only_phy_keeps<P: Platform>(o: &Adapter<P>, f: &Adapter<P>)
    requires
        only_phy_changed(o, f),
    ensures
        f.same_except_hw(o),
        f.log_extends(o),
        f.hw.mac == o.hw.mac,
        f.hw.fc == o.hw.fc,
{
    reveal(only_phy_changed);
}

/// What an only-PHY change says.
pub proof fn lemma_only_phy_facts<P: Platform>(o: &Adapter<P>, f: &Adapter<P>)
    requires
        only_phy_changed(o, f),
    ensures
        f.same_except_hw(o),
        f.log_extends(o),
        f.hw == (Hardware { phy: f.hw.phy, ..o.hw }),
{
    reveal(only_phy_changed);
}

/// Programs the auto-negotiation advertisement: masks the advertised speeds
/// with the PHY's capabilities, reads the advertisement register (and the
/// 1000BASE-T control register when gigabit full duplex is possible), and
/// writes back the values `autoneg_adv_value` and `autoneg_1000t_value`
/// give. Refused without a PHY reader or writer, and in the "default"
/// flow-control mode.
#[verifier::spinoff_prover]
#[verifier::rlimit(40)]
pub fn setup_autoneg<P: Platform>(adapter: &mut Adapter<P>) -> (r: AdResult)
    ensures
        only_phy_changed(old(adapter), final(adapter)),
        final(adapter).hw.phy == phy_with_adv(
            old(adapter).hw.phy,
            final(adapter).hw.phy.addr,
            old(adapter).hw.phy.autoneg_advertised & old(adapter).hw.phy.autoneg_mask,
        ),
        old(adapter).hw.phy.ops.read_reg is None || old(adapter).hw.phy.ops.write_reg is None
            ==> r.is_err() && final(adapter).io_log@ == old(adapter).io_log@,
        old(adapter).hw.fc.current_mode == FcMode::Default ==> r.is_err(),
{
    let ghost adv_mask = (old(adapter).hw.phy.autoneg_advertised & old(adapter).hw.phy.autoneg_mask) as u16;
    adapter.hw.phy.autoneg_advertised = adapter.hw.phy.autoneg_advertised & adapter.hw.phy.autoneg_mask;
    proof {
        lemma_phy_start(old(adapter));
        lemma_phy_assign(old(adapter), old(adapter), adapter);
    }
    if adapter.hw.phy.ops.read_reg.is_none() || adapter.hw.phy.ops.write_reg.is_none() {
        return Err("No function".to_string());
    }
    let mut adv_reg: u16 = 0;
    let ghost s0 = *adapter;
    let res = adapter.phy_read_reg(PHY_AUTONEG_ADV, &mut adv_reg);
    proof {
        lemma_adv_step(old(adapter), &s0, adapter, adv_mask);
    }
    if res.is_err() {
        return res;
    }
    let mut ctrl_reg: u16 = 0;
    if adapter.hw.phy.autoneg_mask & ADVERTISE_1000_FULL != 0 {
        let ghost s1 = *adapter;
        let res = adapter.phy_read_reg(PHY_1000T_CTRL, &mut ctrl_reg);
        proof {
            lemma_adv_step(old(adapter), &s1, adapter, adv_mask);
        }
        if res.is_err() {
            return res;
        }
    }
    proof {
        lemma_only_phy_facts(old(adapter), adapter);
    }
    let adv = match compute_autoneg_adv(adv_reg, adapter.hw.phy.autoneg_advertised, adapter.hw.fc.current_mode) {
        Some(v) => v,
        None => return Err("Flow control param set incorrectly".to_string()),
    };
    let ctrl = compute_autoneg_1000t(ctrl_reg, adapter.hw.phy.autoneg_advertised);
    let ghost s2 = *adapter;
    let res = adapter.phy_write_reg(PHY_AUTONEG_ADV, adv);
    proof {
        lemma_adv_step(old(adapter), &s2, adapter, adv_mask);
    }
    if res.is_err() {
        return res;
    }
    if adapter.hw.phy.autoneg_mask & ADVERTISE_1000_FULL != 0 {
        let ghost s3 = *adapter;
        let res = adapter.phy_write_reg(PHY_1000T_CTRL, ctrl);
        proof {
            lemma_adv_step(old(adapter), &s3, adapter, adv_mask);
        }
        if res.is_err() {
            return res;
        }
    }
    Ok(())
}


proof fn lemma_phy_step<P: Platform>(o: &Adapter<P>, s: &Adapter<P>, f: &Adapter<P>)
    requires
        only_phy_changed(o, s),
        phy_access_frame(s, f),
    ensures
        only_phy_changed(o, f),
        f.hw.phy == (PhyInfo { addr: f.hw.phy.addr, ..s.hw.phy }),
{
    reveal(phy_access_frame);
    reveal(only_phy_changed);
}

proof fn lemma_phy_start<P: Platform>(o: &Adapter<P>)
    ensures
        only_phy_changed(o, o),
{
    reveal(only_phy_changed);
}

/// Waits for auto-negotiation to complete: up to `PHY_AUTO_NEG_LIMIT` times,
/// reads the PHY status register twice and stops when it reports
/// completion, waiting 100 ms otherwise. Succeeds whether or not
/// negotiation completed; a failed read is handed on. Without a PHY reader
/// nothing is done.
#[verifier::spinoff_prover]
pub fn wait_autoneg<P: Platform>(adapter: &mut Adapter<P>) -> (r: AdResult)
    ensures
        phy_access_frame(old(adapter), final(adapter)),
        old(adapter).hw.phy.ops.read_reg is None ==> r.is_ok() && final(adapter).io_log@ == old(adapter).io_log@,
{
    proof {
        lemma_frame_of_same(old(adapter), adapter);
    }
    if adapter.hw.phy.ops.read_reg.is_none() {
        return Ok(());
    }
    let mut phy_status: u16 = 0;
    let mut i: u32 = 0;
    while i < PHY_AUTO_NEG_LIMIT
        invariant
            phy_access_frame(old(adapter), adapter),
            old(adapter).hw.phy.ops.read_reg is Some,
        decreases PHY_AUTO_NEG_LIMIT - i,
    {
        let ghost s0 = *adapter;
        let res = adapter.phy_read_reg(PHY_STATUS, &mut phy_status);
        proof {
            lemma_frame_trans(old(adapter), &s0, adapter);
        }
        if res.is_err() {
            return res;
        }
        let ghost s1 = *adapter;
        let res = adapter.phy_read_reg(PHY_STATUS, &mut phy_status);
        proof {
            lemma_frame_trans(old(adapter), &s1, adapter);
        }
        if res.is_err() {
            return res;
        }
        if phy_status & MII_SR_AUTONEG_COMPLETE != 0 {
            break;
        }
        let ghost s2 = *adapter;
        do_msec_delay(adapter, 100);
        proof {
            lemma_frame_of_same(&s2, adapter);
            lemma_frame_trans(old(adapter), &s2, adapter);
        }
        i = i + 1;
    }
    Ok(())
}

/// The advertised speeds restart auto-negotiation with: the requested ones
/// within the PHY's capabilities, or all of them when none is left.
pub open spec fn restart_adv(advertised: u16, mask: u16) -> u16 {
    if advertised & mask == 0 {
        mask
    } else {
        (advertised & mask) as u16
    }
}

/// Sets the enable and restart bits of the PHY control register and waits
/// for completion when asked to.
fn restart_autoneg<P: Platform>(adapter: &mut Adapter<P>) -> (r: AdResult)
    ensures
        phy_access_frame(old(adapter), final(adapter)),
{
    let mut phy_ctrl: u16 = 0;
    let res = adapter.phy_read_reg(PHY_CONTROL, &mut phy_ctrl);
    if res.is_err() {
        return res;
    }
    phy_ctrl = phy_ctrl | (MII_CR_AUTO_NEG_EN | MII_CR_RESTART_AUTO_NEG);
    let ghost s2 = *adapter;
    let res = adapter.phy_write_reg(PHY_CONTROL, phy_ctrl);
    proof {
        lemma_frame_trans(old(adapter), &s2, adapter);
    }
    if res.is_err() {
        return res;
    }
    if adapter.hw.phy.autoneg_wait_to_complete {
        let ghost s3 = *adapter;
        let res = wait_autoneg(adapter);
        proof {
            lemma_frame_trans(old(adapter), &s3, adapter);
        }
        return res;
    }
    Ok(())
}

/// Restarts auto-negotiation: settles the advertised speeds
/// (`restart_adv`), programs the advertisement (`setup_autoneg`), sets the
/// enable and restart bits of the PHY control register, waits for
/// completion when asked to, and asks for a link check. Refused without a
/// PHY reader or writer.
#[verifier::spinoff_prover]
#[verifier::rlimit(100)]
pub fn copper_link_autoneg<P: Platform>(adapter: &mut Adapter<P>) -> (r: AdResult)
    ensures
        final(adapter).same_except_hw(old(adapter)),
        final(adapter).log_extends(old(adapter)),
        old(adapter).hw.phy.ops.read_reg is None || old(adapter).hw.phy.ops.write_reg is None
            ==> r.is_err() && final(adapter).same_state(old(adapter)) && final(adapter).io_log@
            == old(adapter).io_log@,
        old(adapter).hw.fc.current_mode == FcMode::Default ==> r.is_err(),
        r.is_ok() ==> final(adapter).hw.mac.get_link_status,
        r.is_err() ==> final(adapter).hw.mac.get_link_status == old(adapter).hw.mac.get_link_status,
{
    if adapter.hw.phy.ops.read_reg.is_none() || adapter.hw.phy.ops.write_reg.is_none() {
        return Err("No function".to_string());
    }
    mask_advertised(&mut adapter.hw.phy);
    let ghost s0 = *adapter;
    let res = setup_autoneg(adapter);
    proof {
        lemma_only_phy_keeps(&s0, adapter);
    }
    if res.is_err() {
        return res;
    }
    let ghost s1 = *adapter;
    let res = restart_autoneg(adapter);
    proof {
        lemma_frame_keeps(&s1, adapter);
    }
    if res.is_err() {
        return res;
    }
    mark_link_stale(&mut adapter.hw.mac);
    Ok(())
}

/// Limits the advertised speeds to those the PHY can do, all of them when
/// none is left.
fn mask_advertised(phy: &mut PhyInfo)
    ensures
        *final(phy) == (PhyInfo {
            autoneg_advertised: if old(phy).autoneg_advertised & old(phy).autoneg_mask == 0 {
                old(phy).autoneg_mask
            } else {
                old(phy).autoneg_advertised & old(phy).autoneg_mask
            },
            ..*old(phy)
        }),
{
    let a = phy.autoneg_advertised & phy.autoneg_mask;
    phy.autoneg_advertised = if a == 0 {
        phy.autoneg_mask
    } else {
        a
    };
}

/// Marks the link status as stale: it must be read again.
fn mark_link_stale(mac: &mut MacInfo)
    ensures
        *final(mac) == (MacInfo { get_link_status: true, ..*old(mac) }),
{
    mac.get_link_status = true;
}

/// The PHY identifier made of the two identifier register values: ID1 the
/// upper half, the non-revision bits of ID2 the lower half.
pub open spec fn phy_id_of(id1: u16, id2: u16) -> u32 {
    ((id1 as u32) << 16u32) | ((id2 as u32) & PHY_REVISION_MASK)
}

/// The PHY revision carried by an ID2 register value.
pub open spec fn phy_revision_of(id2: u16) -> u32 {
    (id2 as u32) & !PHY_REVISION_MASK
}

/// Reads the PHY identifier: register ID1 gives the upper half, the
/// non-revision bits of ID2 the lower half, and ID2's low four bits the
/// revision. Tried twice while ID2 reads zero. Without a PHY reader nothing
/// is done.
#[verifier::spinoff_prover]
#[verifier::rlimit(100)]
pub fn get_phy_id<P: Platform>(adapter: &mut Adapter<P>) -> (r: AdResult)
    ensures
        only_phy_changed(old(adapter), final(adapter)),
        final(adapter).hw.phy == (PhyInfo {
            addr: final(adapter).hw.phy.addr,
            id: final(adapter).hw.phy.id,
            revision: final(adapter).hw.phy.revision,
            ..old(adapter).hw.phy
        }),
        old(adapter).hw.phy.ops.read_reg is None ==> r.is_ok() && final(adapter).same_state(
            old(adapter),
        ) && final(adapter).io_log@ == old(adapter).io_log@,
        r.is_ok() && old(adapter).hw.phy.ops.read_reg == Some(PhyRegAccess::M88) ==> exists|
            id1: u16,
            id2: u16,
        |
            phy_read_gave(old(adapter), final(adapter), MAX_PHY_REG_ADDRESS & PHY_ID1, id1)
                && phy_read_gave(old(adapter), final(adapter), MAX_PHY_REG_ADDRESS & PHY_ID2, id2)
                && final(adapter).hw.phy.id == #[trigger] phy_id_of(id1, id2)
                && final(adapter).hw.phy.revision == phy_revision_of(id2),
{
    proof {
        lemma_phy_start(old(adapter));
    }
    if adapter.hw.phy.ops.read_reg.is_none() {
        return Ok(());
    }
    let mut retry_count: u32 = 0;
    let mut phy_id: u16 = 0;
    while retry_count < 2
        invariant
            old(adapter).hw.phy.ops.read_reg is Some,
            only_phy_changed(old(adapter), adapter),
            adapter.hw.phy == (PhyInfo {
                addr: adapter.hw.phy.addr,
                id: adapter.hw.phy.id,
                revision: adapter.hw.phy.revision,
                ..old(adapter).hw.phy
            }),
            old(adapter).hw.phy.ops.read_reg == Some(PhyRegAccess::M88) ==> adapter.hw.phy.addr == old(
                adapter,
            ).hw.phy.addr,
            retry_count > 0 && old(adapter).hw.phy.ops.read_reg == Some(PhyRegAccess::M88) ==> exists|
                id1: u16,
                id2: u16,
            |
                phy_read_gave(old(adapter), adapter, MAX_PHY_REG_ADDRESS & PHY_ID1, id1)
                    && phy_read_gave(old(adapter), adapter, MAX_PHY_REG_ADDRESS & PHY_ID2, id2)
                    && adapter.hw.phy.id == #[trigger] phy_id_of(id1, id2)
                    && adapter.hw.phy.revision == phy_revision_of(id2),
        decreases 2 - retry_count,
    {
        let ghost s0 = *adapter;
        let ghost before1 = phy_id;
        let res = adapter.phy_read_reg(PHY_ID1, &mut phy_id);
        proof {
            lemma_phy_step(old(adapter), &s0, adapter);
        }
        if res.is_err() {
            return res;
        }
        let ghost id1 = phy_id;
        let ghost sa = *adapter;
        adapter.hw.phy.id = (phy_id as u32) << 16u32;
        proof {
            lemma_phy_assign(old(adapter), &sa, adapter);
        }
        let ghost s1 = *adapter;
        do_usec_delay(adapter, 20);
        proof {
            lemma_frame_of_same(&s1, adapter);
            lemma_phy_step(old(adapter), &s1, adapter);
        }
        let ghost s2 = *adapter;
        let ghost before2 = phy_id;
        let res = adapter.phy_read_reg(PHY_ID2, &mut phy_id);
        proof {
            lemma_phy_step(old(adapter), &s2, adapter);
        }
        if res.is_err() {
            return res;
        }
        let ghost sb = *adapter;
        adapter.hw.phy.id = adapter.hw.phy.id | ((phy_id as u32) & PHY_REVISION_MASK);
        adapter.hw.phy.revision = (phy_id as u32) & !PHY_REVISION_MASK;
        proof {
            lemma_phy_assign(old(adapter), &sb, adapter);
            if old(adapter).hw.phy.ops.read_reg == Some(PhyRegAccess::M88) {
                reveal(mdic_read_outcome);
                lemma_only_phy_facts(old(adapter), &s0);
                lemma_only_phy_facts(old(adapter), &s2);
                lemma_read_gave(old(adapter), &s0, &sa, adapter, MAX_PHY_REG_ADDRESS & PHY_ID1, before1, id1);
                lemma_read_gave(old(adapter), &s2, &sb, adapter, MAX_PHY_REG_ADDRESS & PHY_ID2, before2, phy_id);
                assert(adapter.hw.phy.id == phy_id_of(id1, phy_id));
            }
        }
        if phy_id != 0 && phy_id as u32 != PHY_REVISION_MASK {
            return Ok(());
        }
        retry_count = retry_count + 1;
    }
    Ok(())
}

/// The cable polarity a PHY-specific status value reports.
pub open spec fn m88_polarity(status: u16) -> RevPolarity {
    if status & M88E1000_PSSR_REV_POLARITY != 0 {
        RevPolarity::Reversed
    } else {
        RevPolarity::Normal
    }
}

/// Reads the cable polarity from the M88 PHY-specific status register.
#[verifier::spinoff_prover]
pub fn check_polarity_m88<P: Platform>(adapter: &mut Adapter<P>) -> (r: AdResult)
    ensures
        only_phy_changed(old(adapter), final(adapter)),
        final(adapter).hw.phy == (PhyInfo {
            addr: final(adapter).hw.phy.addr,
            cable_polarity: final(adapter).hw.phy.cable_polarity,
            ..old(adapter).hw.phy
        }),
        old(adapter).hw.phy.ops.read_reg is None ==> r.is_err() && final(adapter).same_state(
            old(adapter),
        ) && final(adapter).io_log@ == old(adapter).io_log@,
        r.is_err() ==> final(adapter).hw.phy.cable_polarity == old(adapter).hw.phy.cable_polarity,
        old(adapter).hw.phy.ops.read_reg == Some(PhyRegAccess::M88) && r.is_ok() ==> final(adapter).hw.phy.cable_polarity == m88_polarity(
            mdic_final(
                final(adapter).new_ops(old(adapter)),
                old(adapter).hw.mac.mac_type == MacType::Mac_pch2lan,
            ) as u16,
        ),
{
    let mut data: u16 = 0;
    let res = adapter.phy_read_reg(M88E1000_PHY_SPEC_STATUS, &mut data);
    proof {
        lemma_phy_start(old(adapter));
        lemma_phy_step(old(adapter), old(adapter), adapter);
        reveal(mdic_read_outcome);
    }
    if res.is_err() {
        return res;
    }
    let ghost sa = *adapter;
    adapter.hw.phy.cable_polarity = if data & M88E1000_PSSR_REV_POLARITY != 0 {
        RevPolarity::Reversed
    } else {
        RevPolarity::Normal
    };
    proof {
        lemma_phy_assign(old(adapter), &sa, adapter);
    }
    Ok(())
}

/// Waits `usec_interval` microseconds (in whole milliseconds from 1000 up).
fn link_poll_wait<P: Platform>(adapter: &mut Adapter<P>, usec_interval: u32)
    ensures
        final(adapter).same_state(old(adapter)),
        final(adapter).log_extends(old(adapter)),
{
    if usec_interval >= 1000 {
        do_msec_delay(adapter, (usec_interval / 1000) as usize);
    } else {
        do_usec_delay(adapter, usec_interval as usize);
    }
}

/// Polls the PHY status register for link, up to `iterations` times,
/// `usec_interval` apart: each round reads the register twice (the link bit
/// latches), waiting once more when the first read fails, and stops at the
/// link bit or at a failed second read. `success` then tells whether the
/// polling stopped early. Without a PHY reader nothing is done.
#[verifier::spinoff_prover]
pub fn has_link_generic<P: Platform>(
    adapter: &mut Adapter<P>,
    iterations: u32,
    usec_interval: u32,
    success: &mut bool,
) -> (r: AdResult)
    ensures
        phy_access_frame(old(adapter), final(adapter)),
        old(adapter).hw.phy.ops.read_reg is None ==> r.is_ok() && *final(success) == *old(success)
            && final(adapter).io_log@ == old(adapter).io_log@,
        old(adapter).hw.phy.ops.read_reg is Some && iterations == 0 ==> r.is_ok() && !*final(success) && final(adapter).io_log@ == old(adapter).io_log@,
        old(adapter).hw.phy.ops.read_reg is Some && r.is_err() ==> *final(success),
        old(adapter).hw.phy.ops.read_reg == Some(PhyRegAccess::M88) ==> final(adapter).same_state(
            old(adapter),
        ),
{
    proof {
        lemma_frame_of_same(old(adapter), adapter);
    }
    if adapter.hw.phy.ops.read_reg.is_none() {
        return Ok(());
    }
    let mut i: u32 = 0;
    let mut phy_status: u16 = 0;
    let mut res: AdResult = Ok(());
    while i < iterations
        invariant_except_break
            res.is_ok(),
        invariant
            i <= iterations,
            phy_access_frame(old(adapter), adapter),
            iterations == 0 ==> adapter.io_log@ == old(adapter).io_log@,
            old(adapter).hw.phy.ops.read_reg == Some(PhyRegAccess::M88) ==> adapter.same_state(old(adapter)),
        ensures
            i <= iterations,
            phy_access_frame(old(adapter), adapter),
            old(adapter).hw.phy.ops.read_reg == Some(PhyRegAccess::M88) ==> adapter.same_state(old(adapter)),
            iterations == 0 ==> adapter.io_log@ == old(adapter).io_log@ && res.is_ok(),
            res.is_err() ==> i < iterations,
        decreases iterations - i,
    {
        let ghost s0 = *adapter;
        let first = adapter.phy_read_reg(PHY_STATUS, &mut phy_status);
        proof {
            lemma_frame_trans(old(adapter), &s0, adapter);
            reveal(mdic_read_outcome);
        }
        if first.is_err() {
            let ghost s1 = *adapter;
            link_poll_wait(adapter, usec_interval);
            proof {
                lemma_frame_of_same(&s1, adapter);
                lemma_frame_trans(old(adapter), &s1, adapter);
            }
        }
        let ghost s2 = *adapter;
        res = adapter.phy_read_reg(PHY_STATUS, &mut phy_status);
        proof {
            lemma_frame_trans(old(adapter), &s2, adapter);
            reveal(mdic_read_outcome);
        }
        if res.is_err() {
            break;
        }
        if phy_status & MII_SR_LINK_STATUS != 0 {
            break;
        }
        let ghost s3 = *adapter;
        link_poll_wait(adapter, usec_interval);
        proof {
            lemma_frame_of_same(&s3, adapter);
            lemma_frame_trans(old(adapter), &s3, adapter);
        }
        i = i + 1;
    }
    *success = i < iterations;
    res
}



/// The PHY types whose downshift status is in the M88 PHY-specific status
/// register.
pub open spec fn downshift_in_m88_status(t: PhyType) -> bool {
    t == PhyType::Type_i210 || t == PhyType::Type_m88 || t == PhyType::Type_gg82563 || t
        == PhyType::Type_bm || t == PhyType::Type_82578
}

/// The IGP PHY types, whose downshift check this driver does not implement.
pub open spec fn is_igp_phy(t: PhyType) -> bool {
    t == PhyType::Type_igp || t == PhyType::Type_igp_2 || t == PhyType::Type_igp_3
}

/// Checks whether the PHY downshifted the link speed. M88-like PHYs report
/// it in the PHY-specific status register; IGP PHYs are refused; other PHYs
/// never downshift.
#[verifier::spinoff_prover]
#[verifier::rlimit(100)]
pub fn check_downshift_generic<P: Platform>(adapter: &mut Adapter<P>) -> (r: AdResult)
    ensures
        final(adapter).same_except_hw(old(adapter)),
        final(adapter).log_extends(old(adapter)),
        final(adapter).hw.mac == old(adapter).hw.mac,
        !downshift_in_m88_status(old(adapter).hw.phy.phy_type) && !is_igp_phy(
            old(adapter).hw.phy.phy_type,
        ) ==> r.is_ok() && !final(adapter).hw.phy.speed_downgraded && final(adapter).io_log@ == old(adapter).io_log@,
        is_igp_phy(old(adapter).hw.phy.phy_type) ==> r.is_err() && final(adapter).same_state(
            old(adapter),
        ) && final(adapter).io_log@ == old(adapter).io_log@,
        downshift_in_m88_status(old(adapter).hw.phy.phy_type) && old(adapter).hw.phy.ops.read_reg
            == Some(PhyRegAccess::M88) && r.is_ok() ==> final(adapter).hw.phy.speed_downgraded == (
        mdic_final(
            final(adapter).new_ops(old(adapter)),
            old(adapter).hw.mac.mac_type == MacType::Mac_pch2lan,
        ) as u16 & M88E1000_PSSR_DOWNSHIFT != 0),
{
    let t = adapter.hw.phy.phy_type;
    if t == PhyType::Type_i210 || t == PhyType::Type_m88 || t == PhyType::Type_gg82563 || t
        == PhyType::Type_bm || t == PhyType::Type_82578 {
        let mut phy_data: u16 = 0;
        let res = adapter.phy_read_reg(M88E1000_PHY_SPEC_STATUS, &mut phy_data);
        proof {
            lemma_frame_keeps(old(adapter), adapter);
            reveal(mdic_read_outcome);
        }
        if res.is_err() {
            return res;
        }
        adapter.hw.phy.speed_downgraded = phy_data & M88E1000_PSSR_DOWNSHIFT != 0;
        Ok(())
    } else if t == PhyType::Type_igp || t == PhyType::Type_igp_2 || t == PhyType::Type_igp_3 {
        Err("incomplete function - returning error".to_string())
    } else {
        adapter.hw.phy.speed_downgraded = false;
        Ok(())
    }
}

/// Reads the PHY-specific information of an M88 PHY with link: polarity
/// correction, cable polarity, MDI-X, and at gigabit speed the cable length
/// and the receiver status, otherwise an undefined cable length and
/// receiver status. Refused without a PHY reader, off copper, and without
/// link.
#[verifier::spinoff_prover]
#[verifier::rlimit(100)]
pub fn get_phy_info_m88<P: Platform>(adapter: &mut Adapter<P>) -> (r: AdResult)
    ensures
        final(adapter).same_except_hw(old(adapter)),
        final(adapter).log_extends(old(adapter)),
        final(adapter).hw.mac == old(adapter).hw.mac,
        old(adapter).hw.phy.ops.read_reg is None ==> r.is_err() && final(adapter).io_log@ == old(adapter).io_log@,
        old(adapter).hw.phy.media_type != MediaType::Copper ==> r.is_err() && final(adapter).io_log@
            == old(adapter).io_log@,
{
    if adapter.hw.phy.ops.read_reg.is_none() {
        return Err("No function".to_string());
    }
    if adapter.hw.phy.media_type != MediaType::Copper {
        return Err("Phy info is only valid for copper media".to_string());
    }
    let mut link: bool = false;
    let res = has_link_generic(adapter, 1, 0, &mut link);
    proof {
        lemma_frame_keeps(old(adapter), adapter);
    }
    if res.is_err() {
        return res;
    }
    if !link {
        return Err("Phy info is only valid if link is up".to_string());
    }
    let mut phy_data: u16 = 0;
    let ghost s1 = *adapter;
    let res = adapter.phy_read_reg(M88E1000_PHY_SPEC_CTRL, &mut phy_data);
    proof {
        lemma_frame_keeps(&s1, adapter);
    }
    if res.is_err() {
        return res;
    }
    adapter.hw.phy.polarity_correction = phy_data & M88E1000_PSCR_POLARITY_REVERSAL != 0;
    let ghost s2 = *adapter;
    let res = check_polarity_m88(adapter);
    proof {
        lemma_only_phy_keeps(&s2, adapter);
    }
    if res.is_err() {
        return res;
    }
    let ghost s3 = *adapter;
    let res = adapter.phy_read_reg(M88E1000_PHY_SPEC_STATUS, &mut phy_data);
    proof {
        lemma_frame_keeps(&s3, adapter);
    }
    if res.is_err() {
        return res;
    }
    adapter.hw.phy.is_mdix = phy_data & M88E1000_PSSR_MDIX != 0;
    if phy_data & M88E1000_PSSR_SPEED == M88E1000_PSSR_1000MBS {
        let ghost s4 = *adapter;
        let res = adapter.phy_get_cable_length();
        proof {
            lemma_only_phy_keeps(&s4, adapter);
        }
        if res.is_err() {
            return res;
        }
        let ghost s5 = *adapter;
        let res = adapter.phy_read_reg(PHY_1000T_STATUS, &mut phy_data);
        proof {
            lemma_frame_keeps(&s5, adapter);
        }
        if res.is_err() {
            return res;
        }
        adapter.hw.phy.local_rx = if phy_data & SR_1000T_LOCAL_RX_STATUS != 0 {
            GbRxStatus::Good
        } else {
            GbRxStatus::NotOk
        };
        adapter.hw.phy.remote_rx = if phy_data & SR_1000T_REMOTE_RX_STATUS != 0 {
            GbRxStatus::Good
        } else {
            GbRxStatus::NotOk
        };
    } else {
        adapter.hw.phy.cable_length = E1000_CABLE_LENGTH_UNDEFINED;
        adapter.hw.phy.local_rx = GbRxStatus::Undefined;
        adapter.hw.phy.remote_rx = GbRxStatus::Undefined;
    }
    Ok(())
}

/// A trace that extends one that extends a third extends the third.
pub proof fn lemma_log_extends_trans<P: Platform>(a: &Adapter<P>, b: &Adapter<P>, c: &Adapter<P>)
    requires
        b.log_extends(a),
        c.log_extends(b),
    ensures
        c.log_extends(a),
{
    assert forall|i: int| 0 <= i < a.io_log@.len() implies c.io_log@[i] == a.io_log@[i] by {
        assert(c.io_log@[i] == b.io_log@[i]);
    }
}

/// The receiver state a 1000BASE-T status bit reports.
pub open spec fn gb_rx_of(bit_set: bool) -> GbRxStatus {
    if bit_set {
        GbRxStatus::Good
    } else {
        GbRxStatus::NotOk
    }
}

/// Reads the PHY information of an 82577 PHY with link: refused without
/// link; otherwise polarity correction is marked on, the polarity is read
/// (`check_polarity_82577`), then PHY status register 2 gives the MDI-X
/// state and, at 1000 Mb/s, the cable length is read and the 1000BASE-T
/// status gives the local and remote receiver states; at other speeds the
/// cable length and receiver states are undefined.
#[verifier::spinoff_prover]
#[verifier::rlimit(50)]
pub fn get_phy_info_82577<P: Platform>(adapter: &mut Adapter<P>) -> (r: AdResult)
    ensures
        final(adapter).same_except_hw(old(adapter)),
        final(adapter).log_extends(old(adapter)),
        final(adapter).hw.mac == old(adapter).hw.mac,
        final(adapter).hw.fc == old(adapter).hw.fc,
        r.is_ok() ==> final(adapter).hw.phy.polarity_correction,
        r.is_ok() ==> (final(adapter).hw.phy.local_rx == GbRxStatus::Undefined) == (final(
            adapter).hw.phy.remote_rx == GbRxStatus::Undefined),
        r.is_ok() && final(adapter).hw.phy.local_rx == GbRxStatus::Undefined ==> final(
            adapter).hw.phy.cable_length == E1000_CABLE_LENGTH_UNDEFINED,
        r.is_ok() && old(adapter).hw.phy.ops.read_reg == Some(PhyRegAccess::M88) ==> exists|s2: u16|
            #[trigger] phy_read_gave(old(adapter), final(adapter), MAX_PHY_REG_ADDRESS & I82577_PHY_STATUS_2, s2)
                && final(adapter).hw.phy.is_mdix == (s2 & I82577_PHY_STATUS2_MDIX != 0) && (s2
                & I82577_PHY_STATUS2_SPEED_MASK == I82577_PHY_STATUS2_SPEED_1000MBPS) == (final(
                adapter).hw.phy.local_rx != GbRxStatus::Undefined),
        r.is_ok() && old(adapter).hw.phy.ops.read_reg == Some(PhyRegAccess::M88) && final(
            adapter).hw.phy.local_rx != GbRxStatus::Undefined ==> exists|g: u16|
            #[trigger] phy_read_gave(old(adapter), final(adapter), MAX_PHY_REG_ADDRESS & PHY_1000T_STATUS, g)
                && final(adapter).hw.phy.local_rx == gb_rx_of(g & SR_1000T_LOCAL_RX_STATUS != 0)
                && final(adapter).hw.phy.remote_rx == gb_rx_of(g & SR_1000T_REMOTE_RX_STATUS != 0),
{
    let mut link: bool = false;
    let res = has_link_generic(adapter, 1, 0, &mut link);
    let ghost sl = *adapter;
    proof {
        lemma_frame_keeps(old(adapter), adapter);
    }
    if res.is_err() {
        return res;
    }
    if !link {
        return Err("Phy info is only valid if link is up".to_string());
    }
    adapter.hw.phy.polarity_correction = true;
    let ghost s1 = *adapter;
    let res = check_polarity_82577(adapter);
    proof {
        lemma_only_phy_keeps(&s1, adapter);
    }
    if res.is_err() {
        return res;
    }
    let mut data: u16 = 0;
    let ghost s2 = *adapter;
    let res = adapter.phy_read_reg(I82577_PHY_STATUS_2, &mut data);
    proof {
        lemma_frame_keeps(&s2, adapter);
        lemma_frame_facts(&s2, adapter);
        assert(adapter.hw.phy.polarity_correction);
    }
    if res.is_err() {
        return res;
    }
    let ghost t2 = *adapter;
    let ghost st2 = data;
    proof {
        if old(adapter).hw.phy.ops.read_reg == Some(PhyRegAccess::M88) {
            lemma_frame_facts(old(adapter), &sl);
            lemma_only_phy_facts(&s1, &s2);
            lemma_log_extends_trans(old(adapter), &s1, &s2);
            lemma_read_gave(old(adapter), &s2, &t2, &t2, MAX_PHY_REG_ADDRESS & I82577_PHY_STATUS_2, 0, st2);
        }
    }
    adapter.hw.phy.is_mdix = data & I82577_PHY_STATUS2_MDIX != 0;
    if data & I82577_PHY_STATUS2_SPEED_MASK == I82577_PHY_STATUS2_SPEED_1000MBPS {
        let ghost s3 = *adapter;
        let res = adapter.phy_get_cable_length();
        proof {
            lemma_only_phy_keeps(&s3, adapter);
        }
        if res.is_err() {
            return res;
        }
        let ghost s4 = *adapter;
        let res = adapter.phy_read_reg(PHY_1000T_STATUS, &mut data);
        proof {
            lemma_frame_keeps(&s4, adapter);
            lemma_frame_facts(&s4, adapter);
        }
        if res.is_err() {
            return res;
        }
        let ghost t4 = *adapter;
        proof {
            if old(adapter).hw.phy.ops.read_reg == Some(PhyRegAccess::M88) {
                reveal(mdic_read_outcome);
                lemma_frame_facts(&s2, &t2);
                lemma_only_phy_facts(&s3, &s4);
                assert(t2.hw.phy.addr == s2.hw.phy.addr);
                assert(s4.hw.phy.addr == s3.hw.phy.addr);
                lemma_log_extends_trans(old(adapter), &t2, &s4);
                lemma_read_gave(old(adapter), &s4, &t4, &t4, MAX_PHY_REG_ADDRESS & PHY_1000T_STATUS, st2, data);
            }
        }
        adapter.hw.phy.local_rx = if data & SR_1000T_LOCAL_RX_STATUS != 0 {
            GbRxStatus::Good
        } else {
            GbRxStatus::NotOk
        };
        adapter.hw.phy.remote_rx = if data & SR_1000T_REMOTE_RX_STATUS != 0 {
            GbRxStatus::Good
        } else {
            GbRxStatus::NotOk
        };
        proof {
            if old(adapter).hw.phy.ops.read_reg == Some(PhyRegAccess::M88) {
                lemma_log_extends_trans(&t2, &s4, &t4);
                lemma_read_gave_widen(old(adapter), old(adapter), &t2, adapter, MAX_PHY_REG_ADDRESS & I82577_PHY_STATUS_2, st2);
                lemma_read_gave_widen(old(adapter), old(adapter), &t4, adapter, MAX_PHY_REG_ADDRESS & PHY_1000T_STATUS, data);
            }
        }
    } else {
        adapter.hw.phy.cable_length = E1000_CABLE_LENGTH_UNDEFINED;
        adapter.hw.phy.local_rx = GbRxStatus::Undefined;
        adapter.hw.phy.remote_rx = GbRxStatus::Undefined;
        proof {
            if old(adapter).hw.phy.ops.read_reg == Some(PhyRegAccess::M88) {
                lemma_read_gave_widen(old(adapter), old(adapter), &t2, adapter, MAX_PHY_REG_ADDRESS & I82577_PHY_STATUS_2, st2);
            }
        }
    }
    Ok(())
}

/// The master/slave setting a 1000BASE-T control value holds.
pub open spec fn ms_type_of(ctrl: u16) -> MsType {
    if ctrl & CR_1000T_MS_ENABLE != 0 {
        if ctrl & CR_1000T_MS_VALUE != 0 {
            MsType::ForceMaster
        } else {
            MsType::ForceSlave
        }
    } else {
        MsType::Auto
    }
}

/// Sets up the PHY master/slave mode: remembers the setting the 1000BASE-T
/// control register held, then writes it back adjusted to the requested
/// mode (unchanged for the hardware default).
#[verifier::spinoff_prover]
pub fn set_master_slave_mode<P: Platform>(adapter: &mut Adapter<P>) -> (r: AdResult)
    ensures
        final(adapter).same_except_hw(old(adapter)),
        final(adapter).log_extends(old(adapter)),
        final(adapter).hw.mac == old(adapter).hw.mac,
        old(adapter).hw.phy.ops.read_reg is None ==> r.is_err() && final(adapter).io_log@ == old(adapter).io_log@,
        old(adapter).hw.phy.ops.read_reg == Some(PhyRegAccess::M88) && old(adapter).hw.phy.ops.write_reg
            == Some(PhyRegAccess::M88) ==> (r.is_ok() ==> final(adapter).hw.phy.original_ms_type == ms_type_of(
            mdic_final(
                final(adapter).new_ops(old(adapter)),
                old(adapter).hw.mac.mac_type == MacType::Mac_pch2lan,
            ) as u16,
        )),
{
    let mut phy_data: u16 = 0;
    let res = adapter.phy_read_reg(PHY_1000T_CTRL, &mut phy_data);
    proof {
        lemma_frame_keeps(old(adapter), adapter);
        reveal(mdic_read_outcome);
    }
    if res.is_err() {
        return res;
    }
    adapter.hw.phy.original_ms_type = if phy_data & CR_1000T_MS_ENABLE != 0 {
        if phy_data & CR_1000T_MS_VALUE != 0 {
            MsType::ForceMaster
        } else {
            MsType::ForceSlave
        }
    } else {
        MsType::Auto
    };
    match adapter.hw.phy.ms_type {
        MsType::ForceMaster => phy_data = phy_data | (CR_1000T_MS_ENABLE | CR_1000T_MS_VALUE),
        MsType::ForceSlave => {
            phy_data = phy_data | CR_1000T_MS_ENABLE;
            phy_data = phy_data & !CR_1000T_MS_VALUE;
        },
        MsType::Auto => phy_data = phy_data & !CR_1000T_MS_ENABLE,
        _ => {},
    }
    let ghost s1 = *adapter;
    let res = adapter.phy_write_reg(PHY_1000T_CTRL, phy_data);
    proof {
        lemma_frame_keeps(&s1, adapter);
        if old(adapter).hw.phy.ops.write_reg == Some(PhyRegAccess::M88) {
            assert(adapter.io_log@ == s1.io_log@);
        }
    }
    res
}

/// Sets up an 82577 PHY for copper: resets an 82580 PHY first, turns on
/// carrier sense on transmit and downshift, selects the MDI/MDI-X mode
/// (1: MDI, 2: MDI-X, otherwise automatic), then sets up master/slave mode.
#[verifier::spinoff_prover]
#[verifier::rlimit(100)]
pub fn copper_link_setup_82577<P: Platform>(adapter: &mut Adapter<P>) -> (r: AdResult)
    ensures
        final(adapter).same_except_hw(old(adapter)),
        final(adapter).log_extends(old(adapter)),
        final(adapter).hw.mac == old(adapter).hw.mac,
        old(adapter).hw.phy.phy_type == PhyType::Type_82580 && !old(adapter).hw.phy.ops.reset
            ==> r.is_err() && final(adapter).io_log@ == old(adapter).io_log@,
        old(adapter).hw.phy.phy_type != PhyType::Type_82580 && old(adapter).hw.phy.ops.read_reg
            is None ==> r.is_err() && final(adapter).io_log@ == old(adapter).io_log@,
{
    if adapter.hw.phy.phy_type == PhyType::Type_82580 {
        let res = adapter.phy_reset();
        if res.is_err() {
            return res;
        }
    }
    let mut phy_data: u16 = 0;
    let ghost s1 = *adapter;
    let res = adapter.phy_read_reg(I82577_CFG_REG, &mut phy_data);
    proof {
        lemma_frame_keeps(&s1, adapter);
    }
    if res.is_err() {
        return res;
    }
    phy_data = phy_data | I82577_CFG_ASSERT_CRS_ON_TX;
    phy_data = phy_data | I82577_CFG_ENABLE_DOWNSHIFT;
    let ghost s2 = *adapter;
    let res = adapter.phy_write_reg(I82577_CFG_REG, phy_data);
    proof {
        lemma_frame_keeps(&s2, adapter);
    }
    if res.is_err() {
        return res;
    }
    let ghost s3 = *adapter;
    let res = adapter.phy_read_reg(I82577_PHY_CTRL_2, &mut phy_data);
    proof {
        lemma_frame_keeps(&s3, adapter);
    }
    if res.is_err() {
        return res;
    }
    phy_data = phy_data & !I82577_PHY_CTRL2_MDIX_CFG_MASK;
    match adapter.hw.phy.mdix {
        1 => {},
        2 => phy_data = phy_data | I82577_PHY_CTRL2_MANUAL_MDIX,
        _ => phy_data = phy_data | I82577_PHY_CTRL2_AUTO_MDI_MDIX,
    }
    let ghost s4 = *adapter;
    let res = adapter.phy_write_reg(I82577_PHY_CTRL_2, phy_data);
    proof {
        lemma_frame_keeps(&s4, adapter);
    }
    if res.is_err() {
        return res;
    }
    set_master_slave_mode(adapter)
}

/// Resets the PHY by hardware: skipped when the reset is blocked; takes the
/// semaphore, pulses the PHY reset bit of the device control register and
/// waits for the configuration. No family of this driver installs the
/// reset-block check or the semaphore routine, so the reset is refused at
/// the semaphore.
pub fn phy_hw_reset_generic<P: Platform>(adapter: &mut Adapter<P>) -> (r: AdResult)
    ensures
        r.is_err(),
        final(adapter).same_state(old(adapter)),
        final(adapter).io_log@ == old(adapter).io_log@,
{
    match adapter.check_reset_block() {
        Ok(true) => return Ok(()),
        _ => {},
    }
    let acq = adapter.phy_acquire();
    if acq.is_err() {
        return acq;
    }
    adapter.set_register_bit(E1000_CTRL, E1000_CTRL_PHY_RST);
    adapter.write_flush();
    let delay = adapter.hw.phy.reset_delay_us as usize;
    do_usec_delay(adapter, delay);
    adapter.clear_register_bit(E1000_CTRL, E1000_CTRL_PHY_RST);
    adapter.write_flush();
    do_usec_delay(adapter, 150);
    let rel = adapter.phy_release();
    if rel.is_err() {
        return rel;
    }
    if adapter.hw.phy.ops.get_cfg_done {
        get_cfg_done_generic(adapter)
    } else {
        Err("No function".to_string())
    }
}

impl<P: Platform> Adapter<P> {
    /// Resets the PHY with the installed routine; refused when none is
    /// installed.
    pub fn phy_reset(&mut self) -> (r: AdResult)
        ensures
            r.is_err(),
            final(self).same_state(old(self)),
            final(self).io_log@ == old(self).io_log@,
    {
        if self.hw.phy.ops.reset {
            phy_hw_reset_generic(self)
        } else {
            Err("No function".to_string())
        }
    }

    /// Measures the cable length with the installed routine (the 82577 one
    /// reads its diagnostic register; the M88 one is not implemented by this
    /// driver and refuses); refused when none is installed.
    pub fn phy_get_cable_length(&mut self) -> (r: AdResult)
        ensures
            only_phy_changed(old(self), final(self)),
            final(self).hw.phy == (PhyInfo {
                addr: final(self).hw.phy.addr,
                cable_length: final(self).hw.phy.cable_length,
                ..old(self).hw.phy
            }),
            old(self).hw.phy.ops.get_cable_length != Some(PhyModel::I82577) ==> r.is_err()
                && final(self).same_state(old(self)) && final(self).io_log@ == old(self).io_log@,
            old(self).hw.phy.ops.read_reg == Some(PhyRegAccess::M88) ==> final(self).hw.phy.addr == old(
                self,
            ).hw.phy.addr,
    {
        proof {
            lemma_phy_start(old(self));
        }
        match self.hw.phy.ops.get_cable_length {
            None => Err("No function".to_string()),
            Some(PhyModel::M88) => {
                let r = get_cable_length_m88(self);
                proof {
                    reveal(only_phy_changed);
                }
                r
            },
            Some(PhyModel::I82577) => get_cable_length_82577(self),
        }
    }

    /// Forces speed and duplex with the installed routine (the M88 one is
    /// not implemented by this driver and refuses); refused when none is
    /// installed.
    pub fn phy_force_speed_duplex(&mut self) -> (r: AdResult)
        ensures
            final(self).same_except_hw(old(self)),
            final(self).log_extends(old(self)),
            final(self).hw.mac == old(self).hw.mac,
            old(self).hw.phy.ops.force_speed_duplex != Some(PhyModel::I82577) ==> r.is_err()
                && final(self).same_state(old(self)) && final(self).io_log@ == old(self).io_log@,
    {
        match self.hw.phy.ops.force_speed_duplex {
            None => Err("No function".to_string()),
            Some(PhyModel::M88) => phy_force_speed_duplex_m88(self),
            Some(PhyModel::I82577) => phy_force_speed_duplex_82577(self),
        }
    }

    /// Reads the PHY information with the installed routine; refused when
    /// none is installed.
    pub fn phy_get_info(&mut self) -> (r: AdResult)
        ensures
            final(self).same_except_hw(old(self)),
            final(self).log_extends(old(self)),
            final(self).hw.mac == old(self).hw.mac,
            old(self).hw.phy.ops.get_info is None ==> r.is_err() && final(self).same_state(old(self))
                && final(self).io_log@ == old(self).io_log@,
    {
        match self.hw.phy.ops.get_info {
            None => Err("No function".to_string()),
            Some(PhyModel::M88) => get_phy_info_m88(self),
            Some(PhyModel::I82577) => get_phy_info_82577(self),
        }
    }
}

} // verus!
