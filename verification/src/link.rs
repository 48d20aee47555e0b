//! Link setup and flow-control resolution: what the driver does once the
//! PHY has a link, and how it settles the pause-frame mode with the link
//! partner.
use vstd::prelude::*;
use crate::adapter::{AdResult, Adapter, do_write_register};
use crate::consts::{
    COPPER_LINK_UP_LIMIT, E1000_CTRL, E1000_FCAH, E1000_FCAL, E1000_FCT, E1000_FCTTV,
    FLOW_CONTROL_ADDRESS_HIGH, FLOW_CONTROL_ADDRESS_LOW, FLOW_CONTROL_TYPE, HALF_DUPLEX,
    MAX_PHY_REG_ADDRESS, MII_SR_AUTONEG_COMPLETE, NWAY_AR_ASM_DIR, NWAY_AR_PAUSE,
    NWAY_LPAR_ASM_DIR, NWAY_LPAR_PAUSE, PHY_AUTONEG_ADV, PHY_LP_ABILITY, PHY_STATUS,
};
use crate::hw::{FcInfo, FcMode, MacType, MediaFn, MediaType, PhyModel, PhyRegAccess};
use crate::mac::{
    check_for_fiber_link_generic, check_for_serdes_link_generic, cleanup_led_generic,
    config_collision_dist_generic, fc_ctrl, force_mac_fc_generic,
    get_speed_and_duplex_copper_generic, get_speed_and_duplex_fiber_serdes_generic,
    led_off_generic, set_fc_watermarks_generic, setup_fiber_serdes_link_generic,
};
use crate::phy::{
    check_downshift_generic, copper_link_autoneg, has_link_generic, lemma_frame_keeps,
    lemma_frame_trans, mdic_final, mdic_ok, mdic_read_cmd, mdic_read_outcome, mdic_transaction,
    phy_access_frame,
};
use crate::platform::{IoOp, Platform, is_read_of};

verus! {

// ------------------------------------------------------------ resolution

/// The flow-control mode negotiated from the local advertisement `adv` and
/// the link partner's ability `lp` (IEEE 802.3 pause resolution): both
/// symmetric gives full flow control, or receive-only when only that was
/// requested; local asymmetric-only against a symmetric-and-asymmetric
/// partner gives transmit-only; local symmetric-and-asymmetric against an
/// asymmetric-only partner gives receive-only; anything else none.
pub open spec fn fc_resolve(adv: u16, lp: u16, requested: FcMode) -> FcMode {
    if adv & NWAY_AR_PAUSE != 0 && lp & NWAY_LPAR_PAUSE != 0 {
        if requested == FcMode::Full {
            FcMode::Full
        } else {
            FcMode::RxPause
        }
    } else if adv & NWAY_AR_PAUSE == 0 && adv & NWAY_AR_ASM_DIR != 0 && lp & NWAY_LPAR_PAUSE != 0
        && lp & NWAY_LPAR_ASM_DIR != 0 {
        FcMode::TxPause
    } else if adv & NWAY_AR_PAUSE != 0 && adv & NWAY_AR_ASM_DIR != 0 && lp & NWAY_LPAR_PAUSE == 0
        && lp & NWAY_LPAR_ASM_DIR != 0 {
        FcMode::RxPause
    } else {
        FcMode::NoPause
    }
}

/// The flow-control mode after link-up: the resolved mode, or none on a
/// half-duplex link.
pub open spec fn fc_after_link_up(adv: u16, lp: u16, requested: FcMode, duplex: u16) -> FcMode {
    if duplex == HALF_DUPLEX {
        FcMode::NoPause
    } else {
        fc_resolve(adv, lp, requested)
    }
}

/// Resolves the flow-control mode from the two advertisements.
pub fn resolve_fc(adv: u16, lp: u16, requested: FcMode) -> (r: FcMode)
    ensures
        r == fc_resolve(adv, lp, requested),
{
    if adv & NWAY_AR_PAUSE != 0 && lp & NWAY_LPAR_PAUSE != 0 {
        if requested == FcMode::Full {
            FcMode::Full
        } else {
            FcMode::RxPause
        }
    } else if adv & NWAY_AR_PAUSE == 0 && adv & NWAY_AR_ASM_DIR > 0 && lp & NWAY_LPAR_PAUSE > 0
        && lp & NWAY_LPAR_ASM_DIR > 0 {
        FcMode::TxPause
    } else if adv & NWAY_AR_PAUSE > 0 && adv & NWAY_AR_ASM_DIR > 0 && lp & NWAY_LPAR_PAUSE == 0
        && lp & NWAY_LPAR_ASM_DIR > 0 {
        FcMode::RxPause
    } else {
        FcMode::NoPause
    }
}

/// The pause resolution never enables transmitting pause frames unless the
/// link partner can receive them (its pause bit is set), and never enables
/// receiving them unless this end advertised pause.
pub proof fn lemma_fc_resolve_needs_partner(adv: u16, lp: u16, requested: FcMode)
    ensures
        (fc_resolve(adv, lp, requested) == FcMode::TxPause || fc_resolve(adv, lp, requested)
            == FcMode::Full) ==> lp & NWAY_LPAR_PAUSE != 0,
        (fc_resolve(adv, lp, requested) == FcMode::RxPause || fc_resolve(adv, lp, requested)
            == FcMode::Full) ==> adv & NWAY_AR_PAUSE != 0,
        fc_resolve(adv, lp, requested) == FcMode::Full ==> requested == FcMode::Full,
        fc_resolve(adv, lp, requested) != FcMode::Default,
{
}

/// The pause resolution of IEEE 802.3 (Annex 28B), mode by mode:
/// transmit-only pause exactly when this end advertised asymmetric pause
/// without symmetric pause and the partner advertised both; full flow
/// control exactly when both ends advertised symmetric pause and full was
/// requested; receive-only pause exactly when both advertised symmetric
/// pause and something else was requested, or this end advertised both
/// and the partner only asymmetric pause; no pause in every other case.
pub proof fn lemma_fc_resolve_table(adv: u16, lp: u16, requested: FcMode)
    ensures
        fc_resolve(adv, lp, requested) == FcMode::TxPause <==> (adv & NWAY_AR_PAUSE == 0 && adv
            & NWAY_AR_ASM_DIR != 0 && lp & NWAY_LPAR_PAUSE != 0 && lp & NWAY_LPAR_ASM_DIR != 0),
        fc_resolve(adv, lp, requested) == FcMode::Full <==> (adv & NWAY_AR_PAUSE != 0 && lp
            & NWAY_LPAR_PAUSE != 0 && requested == FcMode::Full),
        fc_resolve(adv, lp, requested) == FcMode::RxPause <==> ((adv & NWAY_AR_PAUSE != 0 && lp
            & NWAY_LPAR_PAUSE != 0 && requested != FcMode::Full) || (adv & NWAY_AR_PAUSE != 0 && adv
            & NWAY_AR_ASM_DIR != 0 && lp & NWAY_LPAR_PAUSE == 0 && lp & NWAY_LPAR_ASM_DIR != 0)),
        fc_resolve(adv, lp, requested) == FcMode::NoPause || fc_resolve(adv, lp, requested)
            == FcMode::TxPause || fc_resolve(adv, lp, requested) == FcMode::Full || fc_resolve(
            adv,
            lp,
            requested,
        ) == FcMode::RxPause,
{
}

/// A half-duplex link never uses flow control.
pub proof fn lemma_half_duplex_no_pause(adv: u16, lp: u16, requested: FcMode)
    ensures
        fc_after_link_up(adv, lp, requested, HALF_DUPLEX) == FcMode::NoPause,
{
}

// ------------------------------------------------------------ dispatch

/// Reads the link speed and duplex with the installed routine; refused
/// when none is installed.
fn mac_get_link_up_info<P: Platform>(adapter: &mut Adapter<P>) -> (r: (AdResult, u16, u16))
    ensures
        final(adapter).same_state(old(adapter)),
        final(adapter).log_extends(old(adapter)),
        old(adapter).hw.mac.ops.get_link_up_info is None ==> r.0.is_err(),
{
    let mut speed: u16 = 0;
    let mut duplex: u16 = 0;
    let res = match adapter.hw.mac.ops.get_link_up_info {
        None => Err("No function".to_string()),
        Some(MediaFn::Copper) => get_speed_and_duplex_copper_generic(adapter, &mut speed, &mut duplex),
        Some(_) => get_speed_and_duplex_fiber_serdes_generic(adapter, &mut speed, &mut duplex),
    };
    (res, speed, duplex)
}

/// Sets the collision distance with the installed routine; refused when
/// none is installed.
fn mac_config_collision_dist<P: Platform>(adapter: &mut Adapter<P>) -> (r: AdResult)
    ensures
        final(adapter).same_state(old(adapter)),
        final(adapter).log_extends(old(adapter)),
        r.is_ok() == old(adapter).hw.mac.ops.config_collision_dist,
        !old(adapter).hw.mac.ops.config_collision_dist ==> final(adapter).io_log@ == old(
            adapter).io_log@,
{
    if adapter.hw.mac.ops.config_collision_dist {
        config_collision_dist_generic(adapter);
        Ok(())
    } else {
        Err("No function".to_string())
    }
}

// ------------------------------------------------------------ after link-up

/// `ops` is a successful MDI read of PHY register `offset` at PHY address
/// `addr` that gave `value` (on a MAC of type `mac`, which decides whether
/// the read ends with a settling wait).
#[verifier::opaque]
pub open spec fn mdic_read_gave(ops: Seq<IoOp>, offset: u32, addr: u32, mac: MacType, value: u16) -> bool {
    let settle = mac == MacType::Mac_pch2lan;
    &&& mdic_transaction(ops, mdic_read_cmd(offset, addr), settle)
    &&& mdic_ok(mdic_final(ops, settle), offset)
    &&& mdic_final(ops, settle) as u16 == value
}

/// Somewhere in the trace written since `o`, PHY register `offset` was read
/// through the MDI control register at the PHY address of `o` and gave
/// `value`.
#[verifier::opaque]
pub open spec fn phy_read_gave<P: Platform>(o: &Adapter<P>, f: &Adapter<P>, offset: u32, value: u16) -> bool {
    exists|i: int, j: int|
        o.io_log@.len() <= i <= j <= f.io_log@.len() && #[trigger] mdic_read_gave(
            f.io_log@.subrange(i, j),
            offset,
            o.hw.phy.addr,
            o.hw.mac.mac_type,
            value,
        )
}

/// A successful read from `s` to `t`, after `o` and before `f`, is a read
/// since `o`.
pub proof fn lemma_read_gave<P: Platform>(
    o: &Adapter<P>,
    s: &Adapter<P>,
    t: &Adapter<P>,
    f: &Adapter<P>,
    offset: u32,
    before: u16,
    value: u16,
)
    requires
        s.log_extends(o),
        mdic_read_outcome(s, t, offset, true, before, value),
        f.log_extends(t),
        s.hw.phy.addr == o.hw.phy.addr,
        s.hw.mac.mac_type == o.hw.mac.mac_type,
    ensures
        phy_read_gave(o, f, offset, value),
{
    reveal(mdic_read_outcome);
    reveal(mdic_read_gave);
    reveal(phy_read_gave);
    let i = s.io_log@.len() as int;
    let j = t.io_log@.len() as int;
    assert forall|k: int| 0 <= k < j - i implies #[trigger] f.io_log@.subrange(i, j)[k] == t.new_ops(s)[k] by {
        assert(f.io_log@[i + k] == t.io_log@[i + k]);
    }
    assert(f.io_log@.subrange(i, j) =~= t.new_ops(s));
    assert(mdic_read_gave(f.io_log@.subrange(i, j), offset, o.hw.phy.addr, o.hw.mac.mac_type, value));
}

/// A read since `m` is a read since an earlier `o` with the same PHY address
/// and MAC type, and stays one as the trace grows.
pub proof fn lemma_read_gave_widen<P: Platform>(
    o: &Adapter<P>,
    m: &Adapter<P>,
    f: &Adapter<P>,
    g: &Adapter<P>,
    offset: u32,
    value: u16,
)
    requires
        phy_read_gave(m, f, offset, value),
        m.log_extends(o),
        g.log_extends(f),
        m.hw.phy.addr == o.hw.phy.addr,
        m.hw.mac.mac_type == o.hw.mac.mac_type,
    ensures
        phy_read_gave(o, g, offset, value),
{
    reveal(phy_read_gave);
    let (i, j) = choose|i: int, j: int|
        m.io_log@.len() <= i <= j <= f.io_log@.len() && #[trigger] mdic_read_gave(
            f.io_log@.subrange(i, j),
            offset,
            m.hw.phy.addr,
            m.hw.mac.mac_type,
            value,
        );
    assert(g.io_log@.subrange(i, j) =~= f.io_log@.subrange(i, j));
}


/// Reads what flow control is resolved from: the PHY status (twice, the
/// bits latch), which must show auto-negotiation complete, then this end's
/// advertisement and the link partner's ability.
#[verifier::spinoff_prover]
fn read_fc_abilities<P: Platform>(adapter: &mut Adapter<P>) -> (r: (AdResult, u16, u16))
    ensures
        phy_access_frame(old(adapter), final(adapter)),
        old(adapter).hw.phy.ops.read_reg == Some(PhyRegAccess::M88) && r.0.is_ok() ==> phy_read_gave(
            old(adapter),
            final(adapter),
            MAX_PHY_REG_ADDRESS & PHY_AUTONEG_ADV,
            r.1,
        ) && phy_read_gave(old(adapter), final(adapter), MAX_PHY_REG_ADDRESS & PHY_LP_ABILITY, r.2),
{
    let mut mii_status_reg: u16 = 0;
    let mut adv: u16 = 0;
    let mut lp: u16 = 0;
    let ghost s0 = *adapter;
    let res = adapter.phy_read_reg(PHY_STATUS, &mut mii_status_reg);
    if res.is_err() {
        return (res, adv, lp);
    }
    let ghost s1 = *adapter;
    let res = adapter.phy_read_reg(PHY_STATUS, &mut mii_status_reg);
    proof {
        lemma_frame_trans(&s0, &s1, adapter);
    }
    if res.is_err() {
        return (res, adv, lp);
    }
    if mii_status_reg & MII_SR_AUTONEG_COMPLETE == 0 {
        return (Err("Copper PHY and Auto Neg has not completed".to_string()), adv, lp);
    }
    let ghost s2 = *adapter;
    let res = adapter.phy_read_reg(PHY_AUTONEG_ADV, &mut adv);
    proof {
        lemma_frame_trans(&s0, &s2, adapter);
    }
    if res.is_err() {
        return (res, adv, lp);
    }
    let ghost s3 = *adapter;
    let res = adapter.phy_read_reg(PHY_LP_ABILITY, &mut lp);
    proof {
        lemma_frame_trans(&s0, &s3, adapter);
        if s0.hw.phy.ops.read_reg == Some(PhyRegAccess::M88) && res.is_ok() {
            reveal(mdic_read_outcome);
            lemma_read_gave(&s0, &s2, &s3, adapter, MAX_PHY_REG_ADDRESS & PHY_AUTONEG_ADV, 0, adv);
            lemma_read_gave(&s0, &s3, adapter, adapter, MAX_PHY_REG_ADDRESS & PHY_LP_ABILITY, 0, lp);
        }
    }
    (res, adv, lp)
}

/// The auto-negotiated part of settling flow control: the PHY status must
/// show completion (read twice, the bits latch), the two advertisements are
/// read and resolved with the duplex the link reports, and the MAC is
/// forced to the result.
#[verifier::spinoff_prover]
#[verifier::rlimit(100)]
fn fc_from_autoneg<P: Platform>(adapter: &mut Adapter<P>) -> (r: AdResult)
    ensures
        final(adapter).same_except_hw(old(adapter)),
        final(adapter).log_extends(old(adapter)),
        final(adapter).hw.mac == old(adapter).hw.mac,
        final(adapter).hw.fc == (FcInfo { current_mode: final(adapter).hw.fc.current_mode, ..old(adapter).hw.fc }),
        final(adapter).hw.phy.media_type == old(adapter).hw.phy.media_type,
        r.is_ok() && old(adapter).hw.phy.ops.read_reg == Some(PhyRegAccess::M88) ==> exists|
            adv: u16,
            lp: u16,
            duplex: u16,
        |
            phy_read_gave(old(adapter), final(adapter), MAX_PHY_REG_ADDRESS & PHY_AUTONEG_ADV, adv)
                && phy_read_gave(old(adapter), final(adapter), MAX_PHY_REG_ADDRESS & PHY_LP_ABILITY, lp)
                && final(adapter).hw.fc.current_mode == #[trigger] fc_after_link_up(
                adv,
                lp,
                old(adapter).hw.fc.requested_mode,
                duplex,
            ),
{
    let (res, adv, lp) = read_fc_abilities(adapter);
    let ghost sr = *adapter;
    proof {
        lemma_frame_keeps(old(adapter), adapter);
    }
    if res.is_err() {
        return res;
    }
    adapter.hw.fc.current_mode = resolve_fc(adv, lp, adapter.hw.fc.requested_mode);
    let (res, _speed, duplex) = mac_get_link_up_info(adapter);
    if res.is_err() {
        return res;
    }
    if duplex == HALF_DUPLEX {
        adapter.hw.fc.current_mode = FcMode::NoPause;
    }
    assert(adapter.hw.fc.current_mode == fc_after_link_up(
        adv,
        lp,
        old(adapter).hw.fc.requested_mode,
        duplex,
    ));
    let r = force_mac_fc_generic(adapter);
    proof {
        if old(adapter).hw.phy.ops.read_reg == Some(PhyRegAccess::M88) && r.is_ok() {
            lemma_read_gave_widen(old(adapter), old(adapter), &sr, adapter, MAX_PHY_REG_ADDRESS & PHY_AUTONEG_ADV, adv);
            lemma_read_gave_widen(old(adapter), old(adapter), &sr, adapter, MAX_PHY_REG_ADDRESS & PHY_LP_ABILITY, lp);
        }
    }
    r
}

/// Settles flow control once the link is up. With copper media the MAC is
/// first forced to the current mode; with copper and auto-negotiation the
/// mode is then resolved from the two advertisements (`fc_from_autoneg`).
/// Refused after a failed auto-negotiation and for auto-negotiated internal
/// SerDes, which this driver does not implement.
#[verifier::spinoff_prover]
#[verifier::rlimit(100)]
pub fn config_fc_after_link_up_generic<P: Platform>(adapter: &mut Adapter<P>) -> (r: AdResult)
    ensures
        final(adapter).same_except_hw(old(adapter)),
        final(adapter).log_extends(old(adapter)),
        final(adapter).hw.mac == old(adapter).hw.mac,
        final(adapter).hw.fc == (FcInfo { current_mode: final(adapter).hw.fc.current_mode, ..old(adapter).hw.fc }),
        old(adapter).hw.mac.autoneg_failed ==> r.is_err() && final(adapter).same_state(old(adapter))
            && final(adapter).io_log@ == old(adapter).io_log@,
        !(old(adapter).hw.phy.media_type == MediaType::Copper && old(adapter).hw.mac.autoneg)
            ==> final(adapter).hw.fc.current_mode == old(adapter).hw.fc.current_mode,
        old(adapter).hw.phy.media_type == MediaType::InternalSerdes && old(adapter).hw.mac.autoneg
            ==> r.is_err(),
        !old(adapter).hw.mac.autoneg_failed && old(adapter).hw.phy.media_type != MediaType::Copper
            && !(old(adapter).hw.phy.media_type == MediaType::InternalSerdes && old(adapter).hw.mac.autoneg)
            ==> r.is_ok() && final(adapter).same_state(old(adapter)) && final(adapter).io_log@ == old(
            adapter).io_log@,
        !old(adapter).hw.mac.autoneg_failed && old(adapter).hw.phy.media_type == MediaType::Copper
            ==> final(adapter).io_log@.len() > old(adapter).io_log@.len() && is_read_of(
            final(adapter).io_log@[old(adapter).io_log@.len() as int],
            E1000_CTRL,
        ),
        !old(adapter).hw.mac.autoneg_failed && old(adapter).hw.phy.media_type == MediaType::Copper
            && old(adapter).hw.fc.current_mode == FcMode::Default ==> r.is_err() && final(
            adapter).same_state(old(adapter)) && final(adapter).io_log@.len() == old(adapter).io_log@.len() + 1,
        !old(adapter).hw.mac.autoneg_failed && old(adapter).hw.phy.media_type == MediaType::Copper
            && old(adapter).hw.fc.current_mode != FcMode::Default ==> final(adapter).io_log@.len() > old(
            adapter).io_log@.len() + 1 && final(adapter).io_log@[old(adapter).io_log@.len() + 1int] == (
        IoOp::Write {
            reg: E1000_CTRL,
            value: fc_ctrl(final(adapter).read_at(old(adapter), 0), old(adapter).hw.fc.current_mode),
        }),
        !old(adapter).hw.mac.autoneg_failed && old(adapter).hw.phy.media_type == MediaType::Copper
            && !old(adapter).hw.mac.autoneg && old(adapter).hw.fc.current_mode != FcMode::Default ==> r.is_ok()
            && final(adapter).same_state(old(adapter)) && final(adapter).io_log@.len() == old(
            adapter).io_log@.len() + 2,
        r.is_ok() && old(adapter).hw.phy.media_type == MediaType::Copper && old(adapter).hw.mac.autoneg
            && old(adapter).hw.phy.ops.read_reg == Some(PhyRegAccess::M88) ==> exists|
            adv: u16,
            lp: u16,
            duplex: u16,
        |
            phy_read_gave(old(adapter), final(adapter), MAX_PHY_REG_ADDRESS & PHY_AUTONEG_ADV, adv)
                && phy_read_gave(old(adapter), final(adapter), MAX_PHY_REG_ADDRESS & PHY_LP_ABILITY, lp)
                && final(adapter).hw.fc.current_mode == #[trigger] fc_after_link_up(
                adv,
                lp,
                old(adapter).hw.fc.requested_mode,
                duplex,
            ),
{
    if adapter.hw.mac.autoneg_failed {
        return Err("incomplete function - returning error".to_string());
    }
    if adapter.hw.phy.media_type == MediaType::Copper {
        let res = force_mac_fc_generic(adapter);
        if res.is_err() {
            return res;
        }
    }
    if adapter.hw.phy.media_type == MediaType::Copper && adapter.hw.mac.autoneg {
        let ghost sf = *adapter;
        proof {
            assert(sf.log_extends(old(adapter)));
        }
        let res = fc_from_autoneg(adapter);
        if res.is_err() {
            return res;
        }
        proof {
            if sf.hw.phy.ops.read_reg == Some(PhyRegAccess::M88) {
                let (adv, lp, duplex) = choose|adv: u16, lp: u16, duplex: u16|
                    phy_read_gave(&sf, adapter, MAX_PHY_REG_ADDRESS & PHY_AUTONEG_ADV, adv)
                        && phy_read_gave(&sf, adapter, MAX_PHY_REG_ADDRESS & PHY_LP_ABILITY, lp)
                        && adapter.hw.fc.current_mode == #[trigger] fc_after_link_up(
                        adv,
                        lp,
                        sf.hw.fc.requested_mode,
                        duplex,
                    );
                lemma_read_gave_widen(old(adapter), &sf, adapter, adapter, MAX_PHY_REG_ADDRESS & PHY_AUTONEG_ADV, adv);
                lemma_read_gave_widen(old(adapter), &sf, adapter, adapter, MAX_PHY_REG_ADDRESS & PHY_LP_ABILITY, lp);
                assert(adapter.hw.fc.current_mode == fc_after_link_up(adv, lp, old(adapter).hw.fc.requested_mode, duplex));
            }
        }
    }
    if adapter.hw.phy.media_type == MediaType::InternalSerdes && adapter.hw.mac.autoneg {
        return Err("incomplete function - returning error".to_string());
    }
    Ok(())
}

/// Checks a copper link after a link-status change: nothing to do unless a
/// check was asked for; polls the PHY for link once; on link, clears the
/// request, checks for a downshift, and (with auto-negotiation) sets the
/// collision distance and settles flow control. Refused when the speed and
/// duplex are forced.
#[verifier::spinoff_prover]
#[verifier::rlimit(100)]
pub fn check_for_copper_link_generic<P: Platform>(adapter: &mut Adapter<P>) -> (r: AdResult)
    ensures
        final(adapter).same_except_hw(old(adapter)),
        final(adapter).log_extends(old(adapter)),
        !old(adapter).hw.mac.get_link_status ==> r.is_ok() && final(adapter).same_state(old(adapter))
            && final(adapter).io_log@ == old(adapter).io_log@,
        final(adapter).hw.mac.get_link_status != old(adapter).hw.mac.get_link_status ==> old(
            adapter).hw.mac.get_link_status,
{
    if !adapter.hw.mac.get_link_status {
        return Ok(());
    }
    let mut link: bool = false;
    let ghost s0 = *adapter;
    let res = has_link_generic(adapter, 1, 0, &mut link);
    proof {
        lemma_frame_keeps(&s0, adapter);
    }
    if res.is_err() {
        return res;
    }
    if !link {
        return Ok(());
    }
    adapter.hw.mac.get_link_status = false;
    let res = check_downshift_generic(adapter);
    if res.is_err() {
        return res;
    }
    if !adapter.hw.mac.autoneg {
        return Err("Config error".to_string());
    }
    let res = mac_config_collision_dist(adapter);
    if res.is_err() {
        return res;
    }
    config_fc_after_link_up_generic(adapter)
}

/// Sets up a copper link: restarts auto-negotiation (or forces speed and
/// duplex when it is off), polls the PHY for link up to
/// `COPPER_LINK_UP_LIMIT` times 10 us apart, and with a link sets the
/// collision distance and settles flow control.
#[verifier::spinoff_prover]
#[verifier::rlimit(100)]
pub fn setup_copper_link_generic<P: Platform>(adapter: &mut Adapter<P>) -> (r: AdResult)
    ensures
        final(adapter).same_except_hw(old(adapter)),
        final(adapter).log_extends(old(adapter)),
        !old(adapter).hw.mac.autoneg && old(adapter).hw.phy.ops.force_speed_duplex != Some(
            PhyModel::I82577,
        ) ==> r.is_err() && final(adapter).same_state(old(adapter)) && final(adapter).io_log@
            == old(adapter).io_log@,
        old(adapter).hw.mac.autoneg && old(adapter).hw.fc.current_mode == FcMode::Default ==> r.is_err(),
{
    if adapter.hw.mac.autoneg {
        let res = copper_link_autoneg(adapter);
        if res.is_err() {
            return res;
        }
    } else {
        let res = adapter.phy_force_speed_duplex();
        if res.is_err() {
            return res;
        }
    }
    let mut link: bool = false;
    let ghost s0 = *adapter;
    let res = has_link_generic(adapter, COPPER_LINK_UP_LIMIT, 10, &mut link);
    proof {
        lemma_frame_keeps(&s0, adapter);
    }
    if res.is_err() {
        return res;
    }
    if link {
        let res = mac_config_collision_dist(adapter);
        if res.is_err() {
            return res;
        }
        config_fc_after_link_up_generic(adapter)
    } else {
        Ok(())
    }
}

/// Sets up the link: refuses the "default" requested flow-control mode
/// (reading it from the NVM is not implemented by this driver), makes the
/// requested mode current, sets up the physical interface with the
/// installed routine, then programs the flow-control address, type, pause
/// time and watermark registers.
#[verifier::spinoff_prover]
#[verifier::rlimit(100)]
pub fn setup_link_generic<P: Platform>(adapter: &mut Adapter<P>) -> (r: AdResult)
    ensures
        final(adapter).same_except_hw(old(adapter)),
        final(adapter).log_extends(old(adapter)),
        old(adapter).hw.fc.requested_mode == FcMode::Default ==> r.is_err() && final(adapter).same_state(
            old(adapter),
        ) && final(adapter).io_log@ == old(adapter).io_log@,
        old(adapter).hw.fc.requested_mode != FcMode::Default && old(adapter).hw.mac.ops.setup_physical_interface
            is None ==> r.is_err() && final(adapter).io_log@ == old(adapter).io_log@
            && final(adapter).hw.fc.current_mode == old(adapter).hw.fc.requested_mode,
        r.is_ok() ==> final(adapter).new_ops(old(adapter)).len() >= 6
            && final(adapter).io_log@[final(adapter).io_log@.len() - 6] == (IoOp::Write {
            reg: E1000_FCT,
            value: FLOW_CONTROL_TYPE,
        }) && final(adapter).io_log@[final(adapter).io_log@.len() - 5] == (IoOp::Write {
            reg: E1000_FCAH,
            value: FLOW_CONTROL_ADDRESS_HIGH,
        }) && final(adapter).io_log@[final(adapter).io_log@.len() - 4] == (IoOp::Write {
            reg: E1000_FCAL,
            value: FLOW_CONTROL_ADDRESS_LOW,
        }) && final(adapter).io_log@[final(adapter).io_log@.len() - 3] == (IoOp::Write {
            reg: E1000_FCTTV,
            value: final(adapter).hw.fc.pause_time as u32,
        }),
{
    match adapter.check_reset_block() {
        Ok(true) => return Ok(()),
        _ => {},
    }
    if adapter.hw.fc.requested_mode == FcMode::Default {
        return Err("incomplete function - returning error".to_string());
    }
    adapter.hw.fc.current_mode = adapter.hw.fc.requested_mode;
    let res = match adapter.hw.mac.ops.setup_physical_interface {
        None => Err("Missing setup_physical_interface() function".to_string()),
        Some(MediaFn::Copper) => setup_copper_link_generic(adapter),
        Some(_) => setup_fiber_serdes_link_generic(adapter),
    };
    if res.is_err() {
        return res;
    }
    do_write_register(adapter, E1000_FCT, FLOW_CONTROL_TYPE);
    do_write_register(adapter, E1000_FCAH, FLOW_CONTROL_ADDRESS_HIGH);
    do_write_register(adapter, E1000_FCAL, FLOW_CONTROL_ADDRESS_LOW);
    let pause = adapter.hw.fc.pause_time as u32;
    do_write_register(adapter, E1000_FCTTV, pause);
    set_fc_watermarks_generic(adapter);
    Ok(())
}

// ------------------------------------------------------------ adapter entry points

impl<P: Platform> Adapter<P> {
    /// Checks the link with the installed routine; whatever it reports
    /// (including a missing routine) is ignored and the call succeeds.
    pub fn mac_check_for_link(&mut self) -> (r: AdResult)
        ensures
            r.is_ok(),
            final(self).same_except_hw(old(self)),
            final(self).log_extends(old(self)),
            old(self).hw.mac.ops.check_for_link is None ==> final(self).same_state(old(self))
                && final(self).io_log@ == old(self).io_log@,
    {
        let _ = match self.hw.mac.ops.check_for_link {
            None => Err("No function".to_string()),
            Some(MediaFn::Copper) => check_for_copper_link_generic(self),
            Some(MediaFn::Fiber) => check_for_fiber_link_generic(self),
            Some(MediaFn::Serdes) => check_for_serdes_link_generic(self),
        };
        Ok(())
    }

    /// Reads the link speed and duplex with the installed routine into the
    /// adapter; refused, leaving them, when none is installed or it fails.
    pub fn get_speed_and_duplex(&mut self) -> (r: AdResult)
        ensures
            final(self).log_extends(old(self)),
            final(self).hw == old(self).hw,
            old(self).hw.mac.ops.get_link_up_info is None ==> r.is_err(),
            r.is_err() ==> final(self).same_state(old(self)),
            r.is_ok() ==> *final(self) == (Adapter {
                plat: final(self).plat,
                io_log: final(self).io_log,
                link_speed: final(self).link_speed,
                link_duplex: final(self).link_duplex,
                ..*old(self)
            }),
    {
        let (res, speed, duplex) = mac_get_link_up_info(self);
        if res.is_err() {
            return res;
        }
        self.link_speed = speed;
        self.link_duplex = duplex;
        Ok(())
    }

    /// Runs the PHY's link-up configuration: no family of this driver
    /// installs one, so nothing is done.
    pub fn cfg_on_link_up(&mut self) -> (r: AdResult)
        ensures
            r.is_ok(),
            final(self).same_state(old(self)),
            final(self).io_log@ == old(self).io_log@,
    {
        Ok(())
    }

    /// Turns the LED off with the installed routine, if any.
    pub fn led_off(&mut self) -> (r: AdResult)
        ensures
            final(self).same_state(old(self)),
            final(self).log_extends(old(self)),
            !old(self).hw.mac.ops.led_off ==> r.is_ok() && final(self).io_log@ == old(self).io_log@,
    {
        if self.hw.mac.ops.led_off {
            let res = led_off_generic(self);
            if res.is_err() {
                return res;
            }
        }
        Ok(())
    }

    /// Restores the LED configuration with the installed routine, if any.
    pub fn cleanup_led(&mut self) -> (r: AdResult)
        ensures
            final(self).same_state(old(self)),
            final(self).log_extends(old(self)),
            !old(self).hw.mac.ops.cleanup_led ==> r.is_ok() && final(self).io_log@ == old(self).io_log@,
    {
        if self.hw.mac.ops.cleanup_led {
            let res = cleanup_led_generic(self);
            if res.is_err() {
                return res;
            }
        }
        Ok(())
    }
}

} // verus!
