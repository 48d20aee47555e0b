//! The life of an adapter as the network stack drives it: attaching,
//! queue allocation, reset, initialisation, the periodic administrative
//! task, interrupts, counters, media status, stopping and detaching.
use vstd::prelude::*;
use crate::adapter::{
    AdResult, Adapter, do_msec_delay, do_write_register, lemma_same_except_hw_trans,
};
use crate::consts::{
    ADVERTISE_1000_FULL, CR_1000T_MS_ENABLE, E1000_CTRL_EXT, E1000_CTRL_EXT_DRV_LOAD, E1000_IMC,
    E1000_IMS, E1000_IMS_LSC, E1000_PBA, E1000_PBA_26K, E1000_PBA_40K, E1000_PBA_48K, E1000_VET,
    E1000_WUFC, EM_FC_PAUSE_TIME, EM_MSIX_LINK, EM_SMARTSPEED_DOWNSHIFT, EM_SMARTSPEED_MAX,
    ETHERMTU, ETHERTYPE_VLAN, FULL_DUPLEX, I210_I_PHY_ID, IFM_1000_T, IFM_100_TX, IFM_10_T,
    IFM_ACTIVE, IFM_AVALID, IFM_ETHER, IFM_FDX, IFM_HDX, IMS_ENABLE_MASK, LINK_STATE_DOWN,
    LINK_STATE_UP, MAX_PHY_REG_ADDRESS, MII_CR_AUTO_NEG_EN, MII_CR_RESTART_AUTO_NEG,
    PHY_1000T_CTRL, PHY_1000T_STATUS, PHY_CONTROL, QIDX_INVALID, SPEED_1000,
    SR_1000T_MS_CONFIG_FAULT,
};
use crate::hw::{
    EM_MAC_MIN_RANK, FcInfo, FcMode, Hardware, IGB_MAC_MIN_RANK, MacType, MediaType,
    PhyRegAccess, PhyType,
};
use crate::iflib::{IfLibShared, IfMedia, IfMediaReq, IfNet, IftCounter, counter_index};
use crate::link::{lemma_read_gave, lemma_read_gave_widen, phy_read_gave};
use crate::phy::{
    copper_link_autoneg, lemma_frame_facts, lemma_log_extends_trans, mdic_read_outcome,
    phy_access_frame,
};
use crate::platform::{IoOp, Platform, is_read_of};
use crate::rings::{RxDesc, RxDescExtended, RxQueue, RxRing, TxDesc, TxQueue, TxRing};

verus! {

// ------------------------------------------------------------ queues

/// A fresh transmit queue `i` whose ring of `ntxd` descriptors lives at
/// bus address `paddr`.
pub open spec fn fresh_txq(q: TxQueue, i: int, ntxd: int, paddr: u64) -> bool {
    &&& q.me == i as u32
    &&& q.msix == 0
    &&& q.eims == 0
    &&& q.txr.me == i as u8
    &&& q.txr.tx_paddr == paddr
    &&& q.txr.tx_base@ == Seq::new(ntxd as nat, |k: int| TxDesc { buffer_addr: 0, lower: 0, upper: 0 })
    &&& q.txr.tx_rsq@ == Seq::new(ntxd as nat, |k: int| QIDX_INVALID)
    &&& !q.txr.tx_tso
    &&& q.txr.tx_rs_cidx == 0 && q.txr.tx_rs_pidx == 0 && q.txr.tx_cidx_processed == 0
    &&& q.txr.tx_irq == 0
    &&& q.txr.csum_flags == 0 && q.txr.csum_lhlen == 0 && q.txr.csum_iphlen == 0 && q.txr.csum_thlen == 0
    &&& q.txr.csum_mss == 0 && q.txr.csum_pktlen == 0 && q.txr.csum_txd_upper == 0 && q.txr.csum_txd_lower == 0
}

/// A fresh receive queue `i` whose ring of `nrxd` descriptors lives at
/// bus address `paddr`.
pub open spec fn fresh_rxq(q: RxQueue, i: int, nrxd: int, paddr: u64) -> bool {
    &&& q.me == i as u32
    &&& q.msix == 0
    &&& q.eims == 0
    &&& q.irqs == 0
    &&& q.rxr.me == i as u32
    &&& q.rxr.rx_paddr == paddr
    &&& q.rxr.rx_base@ == Seq::new(nrxd as nat, |k: int| RxDescExtended { lower: 0, status_error: 0, length: 0, vlan: 0 })
    &&& q.rxr.rx_base_legacy@ == Seq::new(
        nrxd as nat,
        |k: int| RxDesc { buffer_addr: 0, length: 0, csum: 0, status: 0, errors: 0, special: 0 },
    )
    &&& q.rxr.payload == 0 && !q.rxr.discard && q.rxr.rx_irq == 0
    &&& q.rxr.rx_discarded == 0 && q.rxr.rx_packets == 0 && q.rxr.rx_bytes == 0
}

/// A transmit queue `i` with an empty ring of `ntxd` descriptors at `paddr`.
fn new_txq(i: usize, ntxd: usize, paddr: u64) -> (q: TxQueue)
    ensures
        fresh_txq(q, i as int, ntxd as int, paddr),
{
    let mut base: Vec<TxDesc> = Vec::new();
    let mut rsq: Vec<u16> = Vec::new();
    let mut k: usize = 0;
    while k < ntxd
        invariant
            k <= ntxd,
            base@ == Seq::new(k as nat, |j: int| TxDesc { buffer_addr: 0, lower: 0, upper: 0 }),
            rsq@ == Seq::new(k as nat, |j: int| QIDX_INVALID),
        decreases ntxd - k,
    {
        base.push(TxDesc { buffer_addr: 0, lower: 0, upper: 0 });
        rsq.push(QIDX_INVALID);
        k = k + 1;
        proof {
            assert(base@ =~= Seq::new(k as nat, |j: int| TxDesc { buffer_addr: 0, lower: 0, upper: 0 }));
            assert(rsq@ =~= Seq::new(k as nat, |j: int| QIDX_INVALID));
        }
    }
    TxQueue {
        msix: 0,
        eims: 0,
        me: i as u32,
        txr: TxRing {
            tx_base: base,
            tx_paddr: paddr,
            tx_rsq: rsq,
            tx_tso: false,
            me: i as u8,
            tx_rs_cidx: 0,
            tx_rs_pidx: 0,
            tx_cidx_processed: 0,
            tx_irq: 0,
            csum_flags: 0,
            csum_lhlen: 0,
            csum_iphlen: 0,
            csum_thlen: 0,
            csum_mss: 0,
            csum_pktlen: 0,
            csum_txd_upper: 0,
            csum_txd_lower: 0,
        },
    }
}

/// A receive queue `i` with an empty ring of `nrxd` descriptors at `paddr`.
fn new_rxq(i: usize, nrxd: usize, paddr: u64) -> (q: RxQueue)
    ensures
        fresh_rxq(q, i as int, nrxd as int, paddr),
{
    let mut base: Vec<RxDescExtended> = Vec::new();
    let mut legacy: Vec<RxDesc> = Vec::new();
    let mut k: usize = 0;
    while k < nrxd
        invariant
            k <= nrxd,
            base@ == Seq::new(k as nat, |j: int| RxDescExtended { lower: 0, status_error: 0, length: 0, vlan: 0 }),
            legacy@ == Seq::new(
                k as nat,
                |j: int| RxDesc { buffer_addr: 0, length: 0, csum: 0, status: 0, errors: 0, special: 0 },
            ),
        decreases nrxd - k,
    {
        base.push(RxDescExtended { lower: 0, status_error: 0, length: 0, vlan: 0 });
        legacy.push(RxDesc { buffer_addr: 0, length: 0, csum: 0, status: 0, errors: 0, special: 0 });
        k = k + 1;
        proof {
            assert(base@ =~= Seq::new(k as nat, |j: int| RxDescExtended { lower: 0, status_error: 0, length: 0, vlan: 0 }));
            assert(legacy@ =~= Seq::new(
                k as nat,
                |j: int| RxDesc { buffer_addr: 0, length: 0, csum: 0, status: 0, errors: 0, special: 0 },
            ));
        }
    }
    RxQueue {
        me: i as u32,
        msix: 0,
        eims: 0,
        rxr: RxRing {
            me: i as u32,
            payload: 0,
            rx_base: base,
            rx_base_legacy: legacy,
            rx_paddr: paddr,
            discard: false,
            rx_irq: 0,
            rx_discarded: 0,
            rx_packets: 0,
            rx_bytes: 0,
        },
        irqs: 0,
    }
}

impl<P: Platform> Adapter<P> {
    /// Takes the shared context, the media list and the interface the
    /// stack hands over before attaching.
    pub fn init_pre(&mut self, iflib_shared: IfLibShared, media: IfMedia, ifnet: IfNet) -> (r: AdResult)
        ensures
            r.is_ok(),
            *final(self) == (Adapter { iflib_shared, ifmedia: media, ifnet, ..*old(self) }),
    {
        self.iflib_shared = iflib_shared;
        self.ifmedia = media;
        self.ifnet = ifnet;
        Ok(())
    }

    /// Sets up the `ntxqsets` transmit queues; queue `i` gets the ring at
    /// `paddrs[i * ntxqs]` (`fresh_txq`), with room for the configured
    /// number of descriptors.
    pub fn tx_queues_alloc(&mut self, paddrs: &[u64], ntxqs: usize, ntxqsets: usize) -> (r: AdResult)
        requires
            old(self).iflib_shared.isc_ntxqsets > 0,
            old(self).iflib_shared.isc_ntxqsets == ntxqsets as i32,
            ntxqs > 0,
            ntxqsets * ntxqs <= paddrs@.len(),
            old(self).iflib_shared.isc_ntxd0 >= 0,
        ensures
            r.is_ok(),
            *final(self) == (Adapter { tx_queues: final(self).tx_queues, ..*old(self) }),
            final(self).tx_queues@.len() == ntxqsets,
            forall|i: int|
                0 <= i < ntxqsets ==> fresh_txq(
                    #[trigger] final(self).tx_queues@[i],
                    i,
                    old(self).iflib_shared.isc_ntxd0 as int,
                    paddrs@[i * ntxqs],
                ),
    {
        let ntxd = self.iflib_shared.isc_ntxd0 as usize;
        let _plen = paddrs.len();
        let mut queues: Vec<TxQueue> = Vec::new();
        let mut i: usize = 0;
        while i < ntxqsets
            invariant
                i <= ntxqsets,
                ntxqs > 0,
                ntxqsets * ntxqs <= paddrs@.len(),
                paddrs@.len() <= usize::MAX,
                queues@.len() == i,
                forall|k: int| 0 <= k < i ==> fresh_txq(#[trigger] queues@[k], k, ntxd as int, paddrs@[k * ntxqs]),
            decreases ntxqsets - i,
        {
            proof {
                assert(i * ntxqs < ntxqsets * ntxqs) by (nonlinear_arith)
                    requires
                        i < ntxqsets,
                        ntxqs > 0,
                ;
            }
            let paddr = paddrs[i * ntxqs];
            queues.push(new_txq(i, ntxd, paddr));
            i = i + 1;
        }
        self.tx_queues = queues;
        Ok(())
    }
}

impl<P: Platform> Adapter<P> {
    /// Sets up the `nrxqsets` receive queues; queue `i` gets the ring at
    /// `paddrs[i * nrxqs]` (`fresh_rxq`), with room for the configured
    /// number of descriptors.
    pub fn rx_queues_alloc(&mut self, paddrs: &[u64], nrxqs: usize, nrxqsets: usize) -> (r: AdResult)
        requires
            old(self).iflib_shared.isc_nrxqsets > 0,
            old(self).iflib_shared.isc_nrxqsets == nrxqsets as i32,
            nrxqs > 0,
            nrxqsets * nrxqs <= paddrs@.len(),
            old(self).iflib_shared.isc_nrxd0 >= 0,
        ensures
            r.is_ok(),
            *final(self) == (Adapter { rx_queues: final(self).rx_queues, ..*old(self) }),
            final(self).rx_queues@.len() == nrxqsets,
            forall|i: int|
                0 <= i < nrxqsets ==> fresh_rxq(
                    #[trigger] final(self).rx_queues@[i],
                    i,
                    old(self).iflib_shared.isc_nrxd0 as int,
                    paddrs@[i * nrxqs],
                ),
    {
        let nrxd = self.iflib_shared.isc_nrxd0 as usize;
        let _plen = paddrs.len();
        let mut queues: Vec<RxQueue> = Vec::new();
        let mut i: usize = 0;
        while i < nrxqsets
            invariant
                i <= nrxqsets,
                nrxqs > 0,
                nrxqsets * nrxqs <= paddrs@.len(),
                paddrs@.len() <= usize::MAX,
                queues@.len() == i,
                forall|k: int| 0 <= k < i ==> fresh_rxq(#[trigger] queues@[k], k, nrxd as int, paddrs@[k * nrxqs]),
            decreases nrxqsets - i,
        {
            proof {
                assert(i * nrxqs < nrxqsets * nrxqs) by (nonlinear_arith)
                    requires
                        i < nrxqsets,
                        nrxqs > 0,
                ;
            }
            let paddr = paddrs[i * nrxqs];
            queues.push(new_rxq(i, nrxd, paddr));
            i = i + 1;
        }
        self.rx_queues = queues;
        Ok(())
    }

    /// Enables the interrupts of the legacy mode (MSI-X and the 82574 are
    /// not implemented; the same mask is written).
    pub fn enable_intr(&mut self)
        ensures
            final(self).same_state(old(self)),
            final(self).logged(old(self), seq![IoOp::Write { reg: E1000_IMS, value: IMS_ENABLE_MASK }]),
    {
        do_write_register(self, E1000_IMS, IMS_ENABLE_MASK);
    }

    /// Masks every interrupt.
    pub fn disable_intr(&mut self)
        ensures
            final(self).same_state(old(self)),
            final(self).logged(old(self), seq![IoOp::Write { reg: E1000_IMC, value: 0xffffffff }]),
    {
        do_write_register(self, E1000_IMC, 0xffffffff);
    }

    /// The periodic timer: for queue 0, asks for the administrative task.
    pub fn timer(&mut self, qid: u16)
        ensures
            final(self).same_state(old(self)),
            qid != 0 ==> final(self).io_log@ == old(self).io_log@,
            qid == 0 ==> final(self).logged(old(self), seq![IoOp::AdminIntr]),
    {
        if qid != 0 {
            return;
        }
        self.admin_intr_deferred();
    }

    /// The value of an interface counter: collisions from the statistics;
    /// input errors as the dropped packets plus receive, CRC, alignment,
    /// undersize, oversize, missed and carrier-extension errors; output
    /// errors as excessive and late collisions plus watchdog events; any
    /// other from the stack's own counters.
    pub fn get_counter(&mut self, cnt: IftCounter) -> (r: u64)
        requires
            cnt == IftCounter::IERRORS ==> old(self).dropped_pkts + old(self).stats.rxerrc + old(self).stats.crcerrs
                + old(self).stats.algnerrc + old(self).stats.ruc + old(self).stats.roc + old(self).stats.mpc
                + old(self).stats.cexterr <= u64::MAX,
            cnt == IftCounter::OERRORS ==> old(self).stats.ecol + old(self).stats.latecol
                + old(self).watchdog_events <= u64::MAX,
        ensures
            *final(self) == *old(self),
            r == match cnt {
                IftCounter::COLLISIONS => old(self).stats.colc as int,
                IftCounter::IERRORS => old(self).dropped_pkts + old(self).stats.rxerrc + old(self).stats.crcerrs
                    + old(self).stats.algnerrc + old(self).stats.ruc + old(self).stats.roc + old(self).stats.mpc
                    + old(self).stats.cexterr,
                IftCounter::OERRORS => old(self).stats.ecol + old(self).stats.latecol + old(self).watchdog_events,
                _ => if counter_index(cnt) < old(self).ifnet.counters@.len() {
                    old(self).ifnet.counters@[counter_index(cnt)] as int
                } else {
                    0
                },
            },
    {
        match cnt {
            IftCounter::COLLISIONS => self.stats.colc,
            IftCounter::IERRORS => self.dropped_pkts + self.stats.rxerrc + self.stats.crcerrs
                + self.stats.algnerrc + self.stats.ruc + self.stats.roc + self.stats.mpc
                + self.stats.cexterr,
            IftCounter::OERRORS => self.stats.ecol + self.stats.latecol + self.watchdog_events,
            _ => self.ifnet.counter_default(cnt),
        }
    }

    /// Reports the media status: asks for the administrative task, then
    /// reports a valid Ethernet medium, active with its speed (10, 100 or
    /// 1000 Mb/s twisted pair) and duplex when the link is up.
    pub fn media_status(&mut self, ifmr: &mut IfMediaReq)
        ensures
            final(self).same_state(old(self)),
            final(self).logged(old(self), seq![IoOp::AdminIntr]),
            !old(self).link_active ==> *final(ifmr) == (IfMediaReq {
                ifm_status: IFM_AVALID as i32,
                ifm_active: IFM_ETHER as i32,
            }),
            old(self).link_active ==> *final(ifmr) == (IfMediaReq {
                ifm_status: (IFM_AVALID as i32) | (IFM_ACTIVE as i32),
                ifm_active: {
                    let s = old(self).link_speed;
                    let a1 = if s == 10 {
                        (IFM_ETHER as i32) | (IFM_10_T as i32)
                    } else if s == 100 {
                        (IFM_ETHER as i32) | (IFM_100_TX as i32)
                    } else if s == 1000 {
                        (IFM_ETHER as i32) | (IFM_1000_T as i32)
                    } else {
                        IFM_ETHER as i32
                    };
                    if old(self).link_duplex == FULL_DUPLEX {
                        a1 | (IFM_FDX as i32)
                    } else {
                        a1 | (IFM_HDX as i32)
                    }
                },
            }),
    {
        self.admin_intr_deferred();
        ifmr.ifm_status = IFM_AVALID as i32;
        ifmr.ifm_active = IFM_ETHER as i32;
        if !self.link_active {
            return;
        }
        ifmr.ifm_status = ifmr.ifm_status | (IFM_ACTIVE as i32);
        if self.link_speed == 10 {
            ifmr.ifm_active = ifmr.ifm_active | (IFM_10_T as i32);
        } else if self.link_speed == 100 {
            ifmr.ifm_active = ifmr.ifm_active | (IFM_100_TX as i32);
        } else if self.link_speed == 1000 {
            ifmr.ifm_active = ifmr.ifm_active | (IFM_1000_T as i32);
        }
        if self.link_duplex == FULL_DUPLEX {
            ifmr.ifm_active = ifmr.ifm_active | (IFM_FDX as i32);
        } else {
            ifmr.ifm_active = ifmr.ifm_active | (IFM_HDX as i32);
        }
    }

    /// Stops the adapter: resets the MAC, turns the LED off and restores
    /// its configuration, each with its installed routine; refused when
    /// the reset has no routine or a LED routine fails.
    pub fn stop(&mut self) -> (r: AdResult)
        ensures
            final(self).same_state(old(self)),
            final(self).log_extends(old(self)),
            !old(self).hw.mac.ops.reset_hw ==> r.is_err() && final(self).io_log@ == old(self).io_log@,
            r.is_ok() ==> old(self).hw.mac.ops.reset_hw,
    {
        let ghost s0 = *self;
        let res = self.mac_reset_hw();
        if res.is_err() {
            return res;
        }
        let ghost s1 = *self;
        let res = self.led_off();
        if res.is_err() {
            return res;
        }
        self.cleanup_led()
    }

    /// Detaching needs no work of its own.
    pub fn detach(&mut self) -> (r: AdResult)
        ensures
            r.is_ok(),
            *final(self) == *old(self),
    {
        Ok(())
    }
}

// ------------------------------------------------------------ reset

/// `x` rounded up to a multiple of 1024.
pub open spec fn roundup_1k(x: u32) -> u32 {
    ((x + 1023) as u32) & !1023u32
}

/// The packet buffer allocation of MAC type `t` for frames of `mfs`
/// bytes: 40 or 48 KB on the 82545 (by frame size), 26 KB on the LPT and
/// SPT PCH; `None` for other MACs.
pub open spec fn pba_for(t: MacType, mfs: u32) -> Option<u32> {
    if t == MacType::Mac_82545 {
        Some(if mfs > 8192 { E1000_PBA_40K } else { E1000_PBA_48K })
    } else if t == MacType::Mac_pch_lpt || t == MacType::Mac_pch_spt {
        Some(E1000_PBA_26K)
    } else {
        None
    }
}

/// Whether the flow-control watermarks of a reset can be computed: the
/// frame size rounded up, plus 1500, fits the receive buffer.
pub open spec fn reset_water_ok(t: MacType, mfs: u32) -> bool {
    pba_for(t, mfs) matches Some(pba) ==> mfs <= u32::MAX - 1023 && roundup_1k(mfs) + 1500 <= (
    (pba & 0xffff) << 10u32)
}

/// Whether the flow-control watermarks of a reset can be computed
/// (`reset_water_ok`).
pub fn reset_water_ok_exec(t: MacType, mfs: u32) -> (r: bool)
    ensures
        r == reset_water_ok(t, mfs),
{
    let pba: u32 = if t == MacType::Mac_82545 {
        if mfs > 8192 {
            E1000_PBA_40K
        } else {
            E1000_PBA_48K
        }
    } else if t == MacType::Mac_pch_lpt || t == MacType::Mac_pch_spt {
        E1000_PBA_26K
    } else {
        return true;
    };
    if mfs > u32::MAX - 1023 {
        return false;
    }
    let rounded: u32 = (mfs + 1023) & !1023u32;
    let buf: u32 = (pba & 0xffff) << 10u32;
    rounded as u64 + 1500 <= buf as u64
}

/// The flow-control settings of a reset: high watermark two frames below
/// the receive buffer, low watermark 1500 bytes below it, the configured
/// mode (full when none), the pause time, XON on; the PCH parts use fixed
/// values.
pub open spec fn fc_after_reset(fc: FcInfo, mode: FcMode, t: MacType, pba: u32, mfs: u32) -> FcInfo {
    let rx = (pba & 0xffff) << 10u32;
    let high = (rx - roundup_1k(mfs)) as u32;
    let pch = t == MacType::Mac_pch_lpt || t == MacType::Mac_pch_spt;
    FcInfo {
        high_water: if pch { 0x5c20 } else { high },
        low_water: if pch { 0x5048 } else { (high - 1500) as u32 },
        requested_mode: if mode != FcMode::NoPause { mode } else { FcMode::Full },
        pause_time: if pch { 0x0650 } else if t == MacType::Mac_80003es2lan { 0xFFFF } else { EM_FC_PAUSE_TIME },
        refresh_time: if pch { 0x0400 } else { fc.refresh_time },
        send_xon: true,
        ..fc
    }
}

/// Sets the flow-control settings of a reset (`fc_after_reset`).
fn setup_reset_fc<P: Platform>(adapter: &mut Adapter<P>, pba: u32)
    requires
        pba_for(old(adapter).hw.mac.mac_type, old(adapter).hw.mac.max_frame_size) == Some(pba),
        reset_water_ok(old(adapter).hw.mac.mac_type, old(adapter).hw.mac.max_frame_size),
    ensures
        final(adapter).same_except_hw(old(adapter)),
        final(adapter).io_log@ == old(adapter).io_log@,
        final(adapter).hw == (Hardware {
            fc: fc_after_reset(
                old(adapter).hw.fc,
                old(adapter).fc,
                old(adapter).hw.mac.mac_type,
                pba,
                old(adapter).hw.mac.max_frame_size,
            ),
            ..old(adapter).hw
        }),
{
    let t = adapter.hw.mac.mac_type;
    let mfs = adapter.hw.mac.max_frame_size;
    let rx_buffer_size: u32 = (pba & 0xffff) << 10u32;
    let mut fc = adapter.hw.fc;
    fc.high_water = rx_buffer_size - ((mfs + 1023) & !1023u32);
    fc.low_water = fc.high_water - 1500;
    fc.requested_mode = if adapter.fc != FcMode::NoPause {
        adapter.fc
    } else {
        FcMode::Full
    };
    fc.pause_time = if t == MacType::Mac_80003es2lan {
        0xFFFF
    } else {
        EM_FC_PAUSE_TIME
    };
    fc.send_xon = true;
    if t == MacType::Mac_pch_lpt || t == MacType::Mac_pch_spt {
        fc.high_water = 0x5c20;
        fc.low_water = 0x5048;
        fc.pause_time = 0x0650;
        fc.refresh_time = 0x0400;
    }
    adapter.hw.fc = fc;
}

/// The second half of a reset: the MAC reset, wake-up filters cleared,
/// ASPM off, the MAC initialised, the VLAN ether type set, the PHY
/// information read and the link checked.
#[verifier::spinoff_prover]
fn reset_tail<P: Platform>(adapter: &mut Adapter<P>) -> (r: AdResult)
    requires
        old(adapter).hw.mac.mac_type != MacType::Mac_82573 && old(adapter).hw.mac.mac_type
            != MacType::Mac_82574 && old(adapter).hw.mac.mac_type != MacType::Mac_82583,
    ensures
        final(adapter).same_except_hw(old(adapter)),
        final(adapter).log_extends(old(adapter)),
        r.is_ok() ==> old(adapter).hw.mac.ops.reset_hw && old(adapter).hw.mac.ops.init_hw
            && old(adapter).hw.mac.ops.rar_set,
        !old(adapter).hw.mac.ops.reset_hw ==> r.is_err() && final(adapter).hw == old(adapter).hw,
{
    let ghost s4 = *adapter;
    let res = adapter.mac_reset_hw();
    if res.is_err() {
        return res;
    }
    let ghost s5 = *adapter;
    do_write_register(adapter, E1000_WUFC, 0);
    adapter.disable_aspm();
    let ghost s6 = *adapter;
    let res = adapter.mac_init_hw();
    if res.is_err() {
        proof {
            lemma_same_except_hw_trans(&s4, &s6, adapter);
        }
        return res;
    }
    let ghost s7 = *adapter;
    do_write_register(adapter, E1000_VET, ETHERTYPE_VLAN);
    let _ = adapter.phy_get_info();
    let ghost s8 = *adapter;
    let _ = adapter.mac_check_for_link();
    proof {
        lemma_same_except_hw_trans(&s4, &s6, &s7);
        lemma_same_except_hw_trans(&s4, &s7, &s8);
        lemma_same_except_hw_trans(&s4, &s8, adapter);
    }
    Ok(())
}

impl<P: Platform> Adapter<P> {
    /// Resets the adapter: takes control from the firmware, sizes the
    /// packet buffer (`pba_for`, written to `PBA` before the igb
    /// generation), sets flow control (`fc_after_reset`; the PCH parts
    /// then shrink the buffer to 12 or 26 KB by MTU), resets the MAC,
    /// clears wake-up, initialises the MAC, sets the VLAN ethertype, and
    /// refreshes PHY and link information (their failures are ignored).
    /// Refused for MACs without a buffer size, and when the MAC reset or
    /// initialisation is refused.
    #[verifier::spinoff_prover]
    #[verifier::rlimit(50)]
    pub fn reset(&mut self) -> (r: AdResult)
        requires
            old(self).vf_ifp == 0 ==> old(self).hw.mac.mac_type != MacType::Mac_82573,
            reset_water_ok(old(self).hw.mac.mac_type, old(self).hw.mac.max_frame_size),
        ensures
            final(self).same_except_hw(old(self)),
            final(self).log_extends(old(self)),
            pba_for(old(self).hw.mac.mac_type, old(self).hw.mac.max_frame_size) is None ==> r.is_err()
                && final(self).hw == old(self).hw,
            r.is_ok() ==> old(self).hw.mac.ops.reset_hw && old(self).hw.mac.ops.init_hw
                && old(self).hw.mac.ops.rar_set,
            ({
                let t = old(self).hw.mac.mac_type;
                let k: int = if old(self).vf_ifp == 0 { 2 } else { 0 };
                let o = old(self).io_log@.len() as int;
                let l = final(self).io_log@;
                pba_for(t, old(self).hw.mac.max_frame_size) matches Some(pba) ==> {
                    &&& l.len() >= o + k + 1
                    &&& l[o + k] == IoOp::Write { reg: E1000_PBA, value: pba }
                    &&& (t == MacType::Mac_pch_lpt || t == MacType::Mac_pch_spt) ==> l.len() >= o + k + 2
                        && l[o + k + 1] == IoOp::Write {
                        reg: E1000_PBA,
                        value: if old(self).ifnet.mtu > ETHERMTU as i32 { 12 } else { 26 },
                    }
                }
            }),
            old(self).vf_ifp == 0 ==> final(self).io_log@.len() >= old(self).io_log@.len() + 2
                && is_read_of(final(self).io_log@[old(self).io_log@.len() as int], E1000_CTRL_EXT)
                && final(self).io_log@[old(self).io_log@.len() + 1int] == (IoOp::Write {
                reg: E1000_CTRL_EXT,
                value: final(self).read_at(old(self), 0) | E1000_CTRL_EXT_DRV_LOAD,
            }),
            pba_for(old(self).hw.mac.mac_type, old(self).hw.mac.max_frame_size) matches Some(pba)
                ==> !old(self).hw.mac.ops.reset_hw ==> r.is_err() && final(self).hw == (Hardware {
                fc: fc_after_reset(
                    old(self).hw.fc,
                    old(self).fc,
                    old(self).hw.mac.mac_type,
                    pba,
                    old(self).hw.mac.max_frame_size,
                ),
                ..old(self).hw
            }),
    {
        let ghost s0 = *self;
        self.get_hw_control();
        let ghost s1 = *self;
        proof {
            if s0.vf_ifp == 0 {
                assert(s1.io_log@[s0.io_log@.len() as int] == s1.new_ops(&s0)[0]);
                assert(s1.io_log@[s0.io_log@.len() + 1int] == s1.new_ops(&s0)[1]);
            }
        }
        let t = self.hw.mac.mac_type;
        if t == MacType::Mac_82571 || t == MacType::Mac_82572 {
            return Err("Unsupported hardware".to_string());
        }
        let pba: u32 = if t == MacType::Mac_82545 {
            if self.hw.mac.max_frame_size > 8192 {
                E1000_PBA_40K
            } else {
                E1000_PBA_48K
            }
        } else if t == MacType::Mac_pch_lpt || t == MacType::Mac_pch_spt {
            E1000_PBA_26K
        } else {
            return Err("Unsupported hardware".to_string());
        };
        do_write_register(self, E1000_PBA, pba);
        let ghost s2 = *self;
        setup_reset_fc(self, pba);
        let ghost s3 = *self;
        if t == MacType::Mac_pch_lpt || t == MacType::Mac_pch_spt {
            let v: u32 = if self.ifnet.mtu() > ETHERMTU as i32 {
                12
            } else {
                26
            };
            do_write_register(self, E1000_PBA, v);
        }
        let ghost s4 = *self;
        proof {
            lemma_same_except_hw_trans(&s0, &s3, self);
        }
        let res = reset_tail(self);
        proof {
            lemma_same_except_hw_trans(&s0, &s4, self);
            if s0.vf_ifp == 0 {
                let o = s0.io_log@.len() as int;
                assert(s4.io_log@[o] == s1.io_log@[o]);
                assert(s4.io_log@[o + 1] == s1.io_log@[o + 1]);
                assert(self.io_log@[o] == s4.io_log@[o]);
                assert(self.io_log@[o + 1] == s4.io_log@[o + 1]);
            }
        }
        res
    }
}

// ------------------------------------------------------------ smart speed

/// Between `o` and `f` only the machine description, the smart-speed
/// counter and the trace (which grew) changed.
#[verifier::opaque]
pub open spec fn smart_frame<P: Platform>(o: &Adapter<P>, f: &Adapter<P>) -> bool {
    &&& *f == Adapter { plat: f.plat, io_log: f.io_log, hw: f.hw, smartspeed: f.smartspeed, ..*o }
    &&& f.log_extends(o)
}

/// A change of the machine description alone is a smart-speed frame.
proof fn lemma_smart_of_hw<P: Platform>(o: &Adapter<P>, f: &Adapter<P>)
    requires
        f.same_except_hw(o),
        f.log_extends(o),
    ensures
        smart_frame(o, f),
        f.smartspeed == o.smartspeed,
{
    reveal(smart_frame);
}

/// Nothing changed is a smart-speed frame.
proof fn lemma_smart_refl<P: Platform>(o: &Adapter<P>)
    ensures
        smart_frame(o, o),
{
    reveal(smart_frame);
}

/// A PHY register access is a smart-speed frame.
proof fn lemma_smart_of_access<P: Platform>(o: &Adapter<P>, f: &Adapter<P>)
    requires
        phy_access_frame(o, f),
    ensures
        smart_frame(o, f),
        f.smartspeed == o.smartspeed,
{
    lemma_frame_facts(o, f);
    reveal(smart_frame);
}

/// Smart-speed frames compose.
proof fn lemma_smart_trans<P: Platform>(a: &Adapter<P>, b: &Adapter<P>, c: &Adapter<P>)
    requires
        smart_frame(a, b),
        smart_frame(b, c),
    ensures
        smart_frame(a, c),
{
    reveal(smart_frame);
}

/// What a smart-speed frame keeps.
proof fn lemma_smart_facts<P: Platform>(o: &Adapter<P>, f: &Adapter<P>)
    requires
        smart_frame(o, f),
    ensures
        *f == (Adapter { plat: f.plat, io_log: f.io_log, hw: f.hw, smartspeed: f.smartspeed, ..*o }),
        f.log_extends(o),
{
    reveal(smart_frame);
}

/// Sets the smart-speed counter.
fn set_smartspeed<P: Platform>(adapter: &mut Adapter<P>, v: u32)
    ensures
        *final(adapter) == (Adapter { smartspeed: v, ..*old(adapter) }),
        smart_frame(old(adapter), final(adapter)),
{
    adapter.smartspeed = v;
    proof {
        reveal(smart_frame);
    }
}

/// Sets the bits `bits` of PHY register `reg` (read, then write).
fn phy_set_bits<P: Platform>(adapter: &mut Adapter<P>, reg: u32, bits: u16) -> (r: AdResult)
    ensures
        smart_frame(old(adapter), final(adapter)),
        final(adapter).smartspeed == old(adapter).smartspeed,
{
    let ghost s0 = *adapter;
    let mut phy_tmp: u16 = 0;
    let res = adapter.phy_read_reg(reg, &mut phy_tmp);
    proof {
        lemma_smart_of_access(&s0, adapter);
    }
    if res.is_err() {
        proof { lemma_smart_facts(&s0, adapter); }
        return res;
    }
    let ghost s1 = *adapter;
    phy_tmp = phy_tmp | bits;
    let res = adapter.phy_write_reg(reg, phy_tmp);
    proof {
        lemma_smart_of_access(&s1, adapter);
        lemma_smart_trans(&s0, &s1, adapter);
        lemma_smart_facts(&s0, adapter);
    }
    res
}

/// Restarts auto-negotiation, then, when the MAC auto-negotiates, sets the
/// enable and restart bits of the PHY control register.
fn renegotiate<P: Platform>(adapter: &mut Adapter<P>) -> (r: AdResult)
    ensures
        smart_frame(old(adapter), final(adapter)),
        final(adapter).smartspeed == old(adapter).smartspeed,
{
    let ghost s0 = *adapter;
    let res = copper_link_autoneg(adapter);
    proof {
        lemma_smart_of_hw(&s0, adapter);
    }
    if res.is_err() {
        proof { lemma_smart_facts(&s0, adapter); }
        return res;
    }
    if adapter.hw.mac.autoneg {
        let ghost s1 = *adapter;
        let res = phy_set_bits(adapter, PHY_CONTROL, MII_CR_AUTO_NEG_EN | MII_CR_RESTART_AUTO_NEG);
        proof {
            lemma_smart_trans(&s0, &s1, adapter);
            lemma_smart_facts(&s0, adapter);
            lemma_smart_facts(&s1, adapter);
        }
        return res;
    }
    proof { lemma_smart_facts(&s0, adapter); }
    Ok(())
}

/// Between `o` and `f` the 1000BASE-T status register was read showing a
/// master/slave configuration fault, and the 1000BASE-T control register
/// was read with the manual master/slave setting on.
pub open spec fn ms_fault_seen<P: Platform>(o: &Adapter<P>, f: &Adapter<P>) -> bool {
    &&& exists|v: u16|
        #[trigger] phy_read_gave(o, f, MAX_PHY_REG_ADDRESS & PHY_1000T_STATUS, v) && v & SR_1000T_MS_CONFIG_FAULT != 0
    &&& exists|c: u16|
        #[trigger] phy_read_gave(o, f, MAX_PHY_REG_ADDRESS & PHY_1000T_CTRL, c) && c & CR_1000T_MS_ENABLE != 0
}

/// With the PHY reporting a master/slave configuration fault twice, clears
/// the master/slave enable bit of the 1000BASE-T control register (when
/// set), counts a step and renegotiates; answers the steps counted.
fn clear_ms_enable<P: Platform>(adapter: &mut Adapter<P>) -> (r: Result<u32, String>)
    requires
        old(adapter).smartspeed == 0,
    ensures
        smart_frame(old(adapter), final(adapter)),
        final(adapter).smartspeed <= 1,
        r matches Ok(k) ==> k <= 1 && final(adapter).smartspeed == k,
        r.is_err() ==> final(adapter).smartspeed <= 1,
        old(adapter).hw.phy.ops.read_reg == Some(PhyRegAccess::M88) && final(adapter).smartspeed == 1
            ==> ms_fault_seen(old(adapter), final(adapter)),
{
    let ghost s0 = *adapter;
    let mut phy_tmp: u16 = 0;
    let ghost b0 = phy_tmp;
    let res = adapter.phy_read_reg(PHY_1000T_STATUS, &mut phy_tmp);
    proof { lemma_smart_of_access(&s0, adapter); lemma_smart_facts(&s0, adapter); }
    if res.is_err() {
        return Err("PHY read failed".to_string());
    }
    let ghost t0 = *adapter;
    let ghost v0 = phy_tmp;
    if phy_tmp & SR_1000T_MS_CONFIG_FAULT == 0 {
        return Ok(0);
    }
    let ghost s1 = *adapter;
    let res = adapter.phy_read_reg(PHY_1000T_STATUS, &mut phy_tmp);
    proof { lemma_smart_of_access(&s1, adapter); lemma_smart_trans(&s0, &s1, adapter); lemma_smart_facts(&s0, adapter); lemma_smart_facts(&s1, adapter); }
    if res.is_err() {
        return Err("PHY read failed".to_string());
    }
    if phy_tmp & SR_1000T_MS_CONFIG_FAULT == 0 {
        return Ok(0);
    }
    let ghost s2 = *adapter;
    let ghost b2 = phy_tmp;
    let res = adapter.phy_read_reg(PHY_1000T_CTRL, &mut phy_tmp);
    proof { lemma_smart_of_access(&s2, adapter); lemma_smart_trans(&s0, &s2, adapter); lemma_smart_facts(&s0, adapter); lemma_smart_facts(&s2, adapter); }
    if res.is_err() {
        return Err("PHY read failed".to_string());
    }
    let ghost t2 = *adapter;
    let ghost c2 = phy_tmp;
    if phy_tmp & CR_1000T_MS_ENABLE == 0 {
        return Ok(0);
    }
    let ghost s3 = *adapter;
    phy_tmp = phy_tmp & !CR_1000T_MS_ENABLE;
    let res = adapter.phy_write_reg(PHY_1000T_CTRL, phy_tmp);
    proof { lemma_smart_of_access(&s3, adapter); lemma_smart_trans(&s0, &s3, adapter); lemma_smart_facts(&s0, adapter); lemma_smart_facts(&s3, adapter); }
    if res.is_err() {
        return Err("PHY write failed".to_string());
    }
    let ghost s4 = *adapter;
    set_smartspeed(adapter, 1);
    let ghost s5 = *adapter;
    proof { lemma_smart_trans(&s0, &s4, &s5); }
    let res = renegotiate(adapter);
    proof {
        lemma_smart_trans(&s0, &s5, adapter);
        lemma_smart_facts(&s5, adapter);
        if s0.hw.phy.ops.read_reg == Some(PhyRegAccess::M88) {
            reveal(mdic_read_outcome);
            lemma_smart_facts(&s0, &s2);
            lemma_smart_facts(&s3, &s4);
            lemma_smart_facts(&s4, &s5);
            lemma_log_extends_trans(&s3, &s4, &s5);
            lemma_log_extends_trans(&t2, &s5, adapter);
            lemma_read_gave(&s0, &s0, &t0, &t0, MAX_PHY_REG_ADDRESS & PHY_1000T_STATUS, b0, v0);
            lemma_read_gave_widen(&s0, &s0, &t0, adapter, MAX_PHY_REG_ADDRESS & PHY_1000T_STATUS, v0);
            lemma_read_gave(&s0, &s2, &t2, &t2, MAX_PHY_REG_ADDRESS & PHY_1000T_CTRL, b2, c2);
            lemma_read_gave_widen(&s0, &s0, &t2, adapter, MAX_PHY_REG_ADDRESS & PHY_1000T_CTRL, c2);
        }
    }
    if res.is_err() {
        return Err("renegotiation failed".to_string());
    }
    Ok(1)
}

/// The next value of the smart-speed counter: back to 0 once it has
/// reached its maximum, one more otherwise (wrapping at the integer's
/// limit, which a counter kept within its maximum never reaches).
pub open spec fn smartspeed_next(s: u32) -> u32 {
    if s == EM_SMARTSPEED_MAX || s == u32::MAX { 0 } else { (s + 1) as u32 }
}

impl<P: Platform> Adapter<P> {
    /// The smart-speed workaround for IGP PHYs that cannot settle a
    /// gigabit master/slave configuration: nothing to do while the link is
    /// up, on other PHYs, without auto-negotiation or without gigabit full
    /// duplex advertised. Otherwise, at the start of a cycle (counter 0), a
    /// master/slave fault seen twice with the manual master/slave setting
    /// on clears that setting, renegotiates and moves the counter to 1;
    /// the cycle start ends there. At the downshift step the setting is
    /// restored and the link renegotiated. Past the cycle start the counter
    /// then advances, back to 0 after its maximum (`smartspeed_next`).
    pub fn lem_smartspeed(&mut self) -> (r: AdResult)
        ensures
            smart_frame(old(self), final(self)),
            ({
                let s = old(self).smartspeed;
                let idle = old(self).link_active || old(self).hw.phy.phy_type != PhyType::Type_igp
                    || !old(self).hw.mac.autoneg || old(self).hw.phy.autoneg_advertised & ADVERTISE_1000_FULL
                    == 0;
                &&& idle ==> r.is_ok() && *final(self) == *old(self)
                &&& !idle && s == 0 ==> final(self).smartspeed <= 1
                &&& !idle && s == 0 && old(self).hw.phy.ops.read_reg == Some(PhyRegAccess::M88)
                    && final(self).smartspeed == 1 ==> ms_fault_seen(old(self), final(self))
                &&& !idle && s != 0 && s != EM_SMARTSPEED_DOWNSHIFT ==> r.is_ok()
                    && *final(self) == (Adapter { smartspeed: smartspeed_next(s), ..*old(self) })
                &&& !idle && s == EM_SMARTSPEED_DOWNSHIFT && r.is_ok() ==> final(self).smartspeed
                    == smartspeed_next(s)
                &&& !idle && s == EM_SMARTSPEED_DOWNSHIFT && r.is_err() ==> final(self).smartspeed == s
            }),
    {
        if self.link_active || self.hw.phy.phy_type != PhyType::Type_igp || !self.hw.mac.autoneg
            || self.hw.phy.autoneg_advertised & ADVERTISE_1000_FULL == 0 {
            proof { reveal(smart_frame); }
            return Ok(());
        }
        let ghost s0 = *self;
        proof {
            lemma_smart_refl(&s0);
        }
        if self.smartspeed == 0 {
            let res = clear_ms_enable(self);
            return match res {
                Err(e) => Err(e),
                Ok(_) => Ok(()),
            };
        } else if self.smartspeed == EM_SMARTSPEED_DOWNSHIFT {
            let res = phy_set_bits(self, PHY_1000T_CTRL, CR_1000T_MS_ENABLE);
            proof { lemma_smart_facts(&s0, self); }
            if res.is_err() {
                return res;
            }
            let ghost s1 = *self;
            let res = renegotiate(self);
            proof { lemma_smart_trans(&s0, &s1, self); lemma_smart_facts(&s0, self); }
            if res.is_err() {
                return res;
            }
        }
        let ghost s2 = *self;
        let cur = self.smartspeed;
        let next = if cur == EM_SMARTSPEED_MAX {
            0
        } else {
            cur.wrapping_add(1)
        };
        set_smartspeed(self, next);
        proof { lemma_smart_trans(&s0, &s2, self); lemma_smart_facts(&s0, &s2); }
        Ok(())
    }
}

// ------------------------------------------------------------ administrative task

/// Between `o` and `f` only the machine description, the link state, the
/// smart-speed counter, the interface, the statistics and the pause-frame
/// count changed, and the trace grew.
#[verifier::opaque]
pub open spec fn admin_frame<P: Platform>(o: &Adapter<P>, f: &Adapter<P>) -> bool {
    &&& *f == Adapter {
        plat: f.plat,
        io_log: f.io_log,
        hw: f.hw,
        link_active: f.link_active,
        link_speed: f.link_speed,
        link_duplex: f.link_duplex,
        smartspeed: f.smartspeed,
        ifnet: f.ifnet,
        stats: f.stats,
        iflib_shared: IfLibShared { isc_pause_frames: f.iflib_shared.isc_pause_frames, ..o.iflib_shared },
        ..*o
    }
    &&& f.log_extends(o)
}

/// Administrative frames compose.
proof fn lemma_admin_trans<P: Platform>(a: &Adapter<P>, b: &Adapter<P>, c: &Adapter<P>)
    requires
        admin_frame(a, b),
        admin_frame(b, c),
    ensures
        admin_frame(a, c),
{
    reveal(admin_frame);
}

/// Nothing changed is an administrative frame.
proof fn lemma_admin_refl<P: Platform>(o: &Adapter<P>)
    ensures
        admin_frame(o, o),
{
    reveal(admin_frame);
}

/// A change of the machine description is an administrative frame.
proof fn lemma_admin_of_hw<P: Platform>(o: &Adapter<P>, f: &Adapter<P>)
    requires
        f.same_except_hw(o),
        f.log_extends(o),
    ensures
        admin_frame(o, f),
        f.link_active == o.link_active,
        f.smartspeed == o.smartspeed,
{
    reveal(admin_frame);
}

/// A smart-speed frame is an administrative frame.
proof fn lemma_admin_of_smart<P: Platform>(o: &Adapter<P>, f: &Adapter<P>)
    requires
        smart_frame(o, f),
    ensures
        admin_frame(o, f),
        f.link_active == o.link_active,
{
    reveal(smart_frame);
    reveal(admin_frame);
}

/// What an administrative frame keeps.
pub proof fn lemma_admin_facts<P: Platform>(o: &Adapter<P>, f: &Adapter<P>)
    requires
        admin_frame(o, f),
    ensures
        f.log_extends(o),
        f.tx_queues == o.tx_queues,
        f.rx_queues == o.rx_queues,
        f.mta == o.mta,
        f.iflib_shared == (IfLibShared { isc_pause_frames: f.iflib_shared.isc_pause_frames, ..o.iflib_shared }),
        f.has_manage == o.has_manage,
        f.has_amt == o.has_amt,
        f.vf_ifp == o.vf_ifp,
        f.rx_mbuf_sz == o.rx_mbuf_sz,
        f.fc == o.fc,
        f.ifmedia == o.ifmedia,
{
    reveal(admin_frame);
}

/// Marks the link up at the speed read: clears the smart-speed counter,
/// sets the interface baud rate, and tells the stack.
fn note_link_up<P: Platform>(adapter: &mut Adapter<P>)
    ensures
        admin_frame(old(adapter), final(adapter)),
        final(adapter).hw == old(adapter).hw,
        final(adapter).link_active,
        final(adapter).smartspeed == 0,
        final(adapter).link_speed == old(adapter).link_speed,
        final(adapter).link_duplex == old(adapter).link_duplex,
        final(adapter).ifnet.if_baudrate == old(adapter).link_speed as u64 * 1_000_000,
        final(adapter).logged(
            old(adapter),
            seq![IoOp::LinkState { state: LINK_STATE_UP, baudrate: (old(adapter).link_speed as u64 * 1_000_000) as u64 }],
        ),
{
    adapter.link_active = true;
    adapter.smartspeed = 0;
    let rate = adapter.link_speed as u64 * 1_000_000;
    adapter.ifnet.set_baudrate(rate);
    adapter.link_state_change(LINK_STATE_UP, rate);
    proof {
        reveal(admin_frame);
    }
}

/// Marks the link down: speed, duplex and baud rate cleared, and tells the
/// stack.
fn note_link_down<P: Platform>(adapter: &mut Adapter<P>)
    ensures
        admin_frame(old(adapter), final(adapter)),
        final(adapter).hw == old(adapter).hw,
        !final(adapter).link_active,
        final(adapter).smartspeed == old(adapter).smartspeed,
        final(adapter).link_speed == 0,
        final(adapter).link_duplex == 0,
        final(adapter).ifnet.if_baudrate == 0,
        final(adapter).logged(old(adapter), seq![IoOp::LinkState { state: LINK_STATE_DOWN, baudrate: 0 }]),
{
    adapter.ifnet.set_baudrate(0);
    adapter.link_speed = 0;
    adapter.link_duplex = 0;
    adapter.link_active = false;
    adapter.link_state_change(LINK_STATE_DOWN, 0);
    proof {
        reveal(admin_frame);
    }
}

/// Decides whether the link is up, refreshing the cached state from the
/// PHY when it is stale (after a 50 ms wait on the SPT PCH); a copper link
/// found up is configured. `None` for media other than copper or unknown.
fn check_link<P: Platform>(adapter: &mut Adapter<P>) -> (r: Result<bool, String>)
    ensures
        final(adapter).same_except_hw(old(adapter)),
        final(adapter).log_extends(old(adapter)),
        old(adapter).hw.phy.media_type != MediaType::Copper && old(adapter).hw.phy.media_type
            != MediaType::Unknown ==> r.is_err() && *final(adapter) == *old(adapter),
        old(adapter).hw.phy.media_type == MediaType::Copper && !old(adapter).hw.mac.get_link_status
            ==> r == Ok::<bool, String>(true) && *final(adapter) == *old(adapter),
{
    match adapter.hw.phy.media_type {
        MediaType::Copper => {
            if adapter.hw.mac.get_link_status {
                let ghost s0 = *adapter;
                if adapter.hw.mac.mac_type == MacType::Mac_pch_spt {
                    do_msec_delay(adapter, 50);
                }
                let ghost s1 = *adapter;
                let _ = adapter.mac_check_for_link();
                proof {
                    lemma_same_except_hw_trans(&s0, &s1, adapter);
                }
                let up = !adapter.hw.mac.get_link_status;
                if up {
                    let res = adapter.cfg_on_link_up();
                    if res.is_err() {
                        return Err("link configuration failed".to_string());
                    }
                }
                Ok(up)
            } else {
                Ok(true)
            }
        },
        MediaType::Unknown => {
            let _ = adapter.mac_check_for_link();
            Ok(!adapter.hw.mac.get_link_status)
        },
        _ => Err("Unsupported hardware".to_string()),
    }
}

/// The end of the administrative task: statistics, smart speed on the
/// older MACs, and the link interrupt re-enabled.
#[verifier::spinoff_prover]
fn admin_tail<P: Platform>(adapter: &mut Adapter<P>)
    requires
    ensures
        admin_frame(old(adapter), final(adapter)),
        final(adapter).link_active == old(adapter).link_active,
        final(adapter).link_speed == old(adapter).link_speed,
        final(adapter).link_duplex == old(adapter).link_duplex,
        final(adapter).ifnet == old(adapter).ifnet,
        old(adapter).link_active ==> final(adapter).smartspeed == old(adapter).smartspeed,
        final(adapter).io_log@.len() > old(adapter).io_log@.len(),
        final(adapter).io_log@.last() == (IoOp::Write { reg: E1000_IMS, value: EM_MSIX_LINK | E1000_IMS_LSC }),
{
    let ghost s0 = *adapter;
    adapter.update_stats_counters();
    let ghost s5 = *adapter;
    proof {
        reveal(admin_frame);
        assert(admin_frame(&s0, &s5));
    }
    if adapter.hw.mac.mac_type.rank() < EM_MAC_MIN_RANK {
        let _ = adapter.lem_smartspeed();
        proof { lemma_admin_of_smart(&s5, adapter); lemma_smart_facts(&s5, adapter); }
    } else {
        proof { lemma_admin_refl(adapter); lemma_smart_refl(adapter); }
    }
    let ghost s6 = *adapter;
    proof { lemma_admin_trans(&s0, &s5, &s6); lemma_smart_facts(&s5, &s6); }
    do_write_register(adapter, E1000_IMS, EM_MSIX_LINK | E1000_IMS_LSC);
    proof {
        lemma_admin_of_hw(&s6, adapter);
        lemma_admin_trans(&s0, &s6, adapter);
    }
}

/// Acts on the link state found: a new link gets its speed and duplex
/// read and is announced; a lost link is cleared and announced. Refused on
/// the MACs and PHYs whose link handling is not implemented.
#[verifier::spinoff_prover]
fn admin_transition<P: Platform>(adapter: &mut Adapter<P>, link_check: bool) -> (r: AdResult)
    ensures
        admin_frame(old(adapter), final(adapter)),
        final(adapter).smartspeed == old(adapter).smartspeed || final(adapter).smartspeed == 0,
        !(link_check && !old(adapter).link_active) && !(!link_check && old(adapter).link_active) ==> r.is_ok()
            && *final(adapter) == *old(adapter),
        r.is_ok() ==> final(adapter).link_active == link_check,
        r.is_ok() && old(adapter).link_active && !link_check ==> final(adapter).link_speed == 0
            && final(adapter).link_duplex == 0 && final(adapter).ifnet.if_baudrate == 0
            && final(adapter).io_log@.contains(IoOp::LinkState { state: LINK_STATE_DOWN, baudrate: 0 }),
        r.is_ok() && !old(adapter).link_active && link_check ==> final(adapter).smartspeed == 0
            && final(adapter).ifnet.if_baudrate == final(adapter).link_speed as u64 * 1_000_000
            && final(adapter).io_log@.contains(
            IoOp::LinkState { state: LINK_STATE_UP, baudrate: (final(adapter).link_speed as u64 * 1_000_000) as u64 },
        ),
{
    let ghost s0 = *adapter;
    if link_check && !adapter.link_active {
        let res = adapter.get_speed_and_duplex();
        proof { reveal(admin_frame); }
        if res.is_err() {
            return res;
        }
        let ghost s2 = *adapter;
        let t = adapter.hw.mac.mac_type;
        if adapter.link_speed != SPEED_1000 && (t == MacType::Mac_82571 || t == MacType::Mac_82572) {
            return Err("incomplete function - returning error".to_string());
        }
        note_link_up(adapter);
        proof {
            lemma_admin_trans(&s0, &s2, adapter);
            assert(adapter.io_log@[s2.io_log@.len() as int] == IoOp::LinkState {
                state: LINK_STATE_UP,
                baudrate: (adapter.link_speed as u64 * 1_000_000) as u64,
            });
        }
        if (t == MacType::Mac_i210 || t == MacType::Mac_i211) && adapter.hw.phy.id == I210_I_PHY_ID {
            return Err("incomplete function - returning error".to_string());
        }
        if t.rank() >= IGB_MAC_MIN_RANK {
            return Err("incomplete function - returning error".to_string());
        }
        Ok(())
    } else if !link_check && adapter.link_active {
        note_link_down(adapter);
        proof {
            assert(adapter.io_log@[s0.io_log@.len() as int] == IoOp::LinkState { state: LINK_STATE_DOWN, baudrate: 0 });
        }
        Ok(())
    } else {
        proof { lemma_admin_refl(adapter); }
        Ok(())
    }
}

impl<P: Platform> Adapter<P> {
    /// The administrative task: finds whether the link is up (copper or
    /// unknown media only), on a new link reads its speed and duplex and
    /// tells the stack (with the baud rate), on a lost link clears them and
    /// tells the stack; then accumulates the statistics, runs the
    /// smart-speed workaround on the older MACs, and re-enables the link
    /// interrupt. Refused for other media and on the MACs or PHYs whose
    /// link handling is not implemented.
    #[verifier::spinoff_prover]
    #[verifier::rlimit(50)]
    pub fn update_admin_status(&mut self) -> (r: AdResult)
        requires
        ensures
            admin_frame(old(self), final(self)),
            old(self).hw.phy.media_type != MediaType::Copper && old(self).hw.phy.media_type
                != MediaType::Unknown ==> r.is_err() && *final(self) == *old(self),
            r.is_ok() ==> final(self).io_log@.last() == (IoOp::Write {
                reg: E1000_IMS,
                value: EM_MSIX_LINK | E1000_IMS_LSC,
            }),
            r.is_ok() && old(self).link_active && !final(self).link_active ==> final(self).link_speed == 0
                && final(self).link_duplex == 0 && final(self).ifnet.if_baudrate == 0
                && final(self).io_log@.contains(IoOp::LinkState { state: LINK_STATE_DOWN, baudrate: 0 }),
            r.is_ok() && !old(self).link_active && final(self).link_active ==> final(self).smartspeed == 0
                && final(self).ifnet.if_baudrate == final(self).link_speed as u64 * 1_000_000
                && final(self).io_log@.contains(
                IoOp::LinkState {
                    state: LINK_STATE_UP,
                    baudrate: (final(self).link_speed as u64 * 1_000_000) as u64,
                },
            ),
            r.is_ok() && old(self).hw.phy.media_type == MediaType::Copper
                && !old(self).hw.mac.get_link_status ==> final(self).link_active,
            old(self).hw.phy.media_type == MediaType::Copper && !old(self).hw.mac.get_link_status
                && old(self).link_active && old(self).hw.mac.mac_type != MacType::Mac_i350 ==> r.is_ok(),
            old(self).hw.phy.media_type == MediaType::Copper && !old(self).hw.mac.get_link_status
                && old(self).hw.mac.mac_type == MacType::Mac_i350 ==> r.is_err(),
    {
        let ghost s0 = *self;
        let lc = check_link(self);
        proof { lemma_admin_of_hw(&s0, self); }
        let link_check = match lc {
            Ok(b) => b,
            Err(e) => {
                return Err(e);
            },
        };
        if self.hw.mac.mac_type == MacType::Mac_i350 {
            return Err("Unsupported hardware".to_string());
        }
        let ghost s1 = *self;
        let res = admin_transition(self, link_check);
        proof { lemma_admin_trans(&s0, &s1, self); }
        if res.is_err() {
            return res;
        }
        let ghost s4 = *self;
        admin_tail(self);
        proof {
            lemma_admin_trans(&s0, &s4, self);
            lemma_admin_facts(&s4, self);
            if s4.io_log@.contains(IoOp::LinkState { state: LINK_STATE_DOWN, baudrate: 0 }) {
                let k = choose|k: int| 0 <= k < s4.io_log@.len() && s4.io_log@[k] == IoOp::LinkState { state: LINK_STATE_DOWN, baudrate: 0 };
                assert(self.io_log@[k] == s4.io_log@[k]);
            }
            let up = IoOp::LinkState { state: LINK_STATE_UP, baudrate: (s4.link_speed as u64 * 1_000_000) as u64 };
            if s4.io_log@.contains(up) {
                let k = choose|k: int| 0 <= k < s4.io_log@.len() && s4.io_log@[k] == up;
                assert(self.io_log@[k] == s4.io_log@[k]);
            }
        }
        Ok(())
    }
}
} // verus!
