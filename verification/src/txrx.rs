//! The transmit and receive paths: checksum and segmentation offload
//! contexts, packet encapsulation into descriptors, completion tracking,
//! receive-ring scanning, packet extraction and refill, and the interrupt
//! filter.
use vstd::prelude::*;
use crate::adapter::{Adapter, do_read_register, do_write_register, lemma_same_except_hw_trans};
use crate::consts::{
    CSUM_DATA_VALID, CSUM_IP, CSUM_IP_CHECKED, CSUM_IP_VALID, CSUM_PSEUDO_HDR, CSUM_TCP,
    CSUM_TSO, CSUM_UDP, E1000_ICR, E1000_ICR_INT_ASSERTED, E1000_ICR_LSC, E1000_ICR_RXO,
    E1000_ICR_RXSEQ, E1000_IMS, E1000_RXDADV_RSSTYPE_IPV4, E1000_RXDADV_RSSTYPE_IPV4_TCP,
    E1000_RXDADV_RSSTYPE_IPV6, E1000_RXDADV_RSSTYPE_IPV6_EX, E1000_RXDADV_RSSTYPE_IPV6_TCP,
    E1000_RXDADV_RSSTYPE_IPV6_TCP_EX, E1000_RXDADV_RSSTYPE_MASK,
    E1000_RXDEXT_ERR_FRAME_ERR_MASK, E1000_RXDEXT_STATERR_IPE, E1000_RXDEXT_STATERR_TCPE,
    E1000_RXD_ERR_FRAME_ERR_MASK, E1000_RXD_ERR_IPE, E1000_RXD_ERR_TCPE, E1000_RXD_STAT_DD,
    E1000_RXD_STAT_EOP, E1000_RXD_STAT_IPCS, E1000_RXD_STAT_IXSM, E1000_RXD_STAT_TCPCS,
    E1000_RXD_STAT_UDPCS, E1000_RXD_STAT_VP, E1000_TXD_CMD_DEXT, E1000_TXD_CMD_EOP,
    E1000_TXD_CMD_IFCS, E1000_TXD_CMD_IP, E1000_TXD_CMD_RS, E1000_TXD_CMD_TCP,
    E1000_TXD_CMD_TSE, E1000_TXD_CMD_VLE, E1000_TXD_DTYP_D, E1000_TXD_POPTS_IXSM,
    E1000_TXD_POPTS_TXSM, E1000_TXD_STAT_DD, EM_CSUM_OFFLOAD, FILTER_SCHEDULE_THREAD,
    FILTER_STRAY, IPI_TX_INTR, M_HASHTYPE_OPAQUE, M_HASHTYPE_RSS_IPV4, M_HASHTYPE_RSS_IPV6,
    M_HASHTYPE_RSS_IPV6_EX, M_HASHTYPE_RSS_TCP_IPV4, M_HASHTYPE_RSS_TCP_IPV6,
    M_HASHTYPE_RSS_TCP_IPV6_EX, M_VLANTAG,
};
use crate::headers::{ip};
use crate::hw::{Hardware, MacInfo, MacType, mac_rank};
use crate::iflib::{
    BusDmaSegment, IfPacketInfo, IfRxdFrag, IfRxdInfo, IfRxdUpdate, iflib_intr_mode_t,
};
use crate::platform::{IoOp, Platform};
use crate::regs::{E1000_RDT, E1000_TDT, queue_reg};
use crate::rings::{RxDesc, RxDescExtended, RxQueue, RxRing, TxDesc, TxQueue, TxRing};

verus! {

// ------------------------------------------------------------ checksums

/// The checksum flags an extended receive status reports: none when the
/// checksum was ignored; IP checked and valid when the IP checksum was
/// computed without error; data valid with pseudo header when the TCP
/// checksum was computed without error, or a UDP checksum was computed.
pub open spec fn em_csum_flags(status: u32) -> u32 {
    if status & E1000_RXD_STAT_IXSM != 0 {
        0
    } else {
        let ip = if status & (E1000_RXD_STAT_IPCS | E1000_RXDEXT_STATERR_IPE) == E1000_RXD_STAT_IPCS {
            CSUM_IP_CHECKED | CSUM_IP_VALID
        } else {
            0
        };
        let tcp = if status & (E1000_RXD_STAT_TCPCS | E1000_RXDEXT_STATERR_TCPE)
            == E1000_RXD_STAT_TCPCS {
            ip | CSUM_DATA_VALID | CSUM_PSEUDO_HDR
        } else {
            ip
        };
        if status & E1000_RXD_STAT_UDPCS != 0 {
            tcp | CSUM_DATA_VALID | CSUM_PSEUDO_HDR
        } else {
            tcp
        }
    }
}

/// Whether an extended receive status reports a valid data checksum (the
/// checksum data is then all ones).
pub open spec fn em_csum_data_valid(status: u32) -> bool {
    status & E1000_RXD_STAT_IXSM == 0 && (status & (E1000_RXD_STAT_TCPCS
        | E1000_RXDEXT_STATERR_TCPE) == E1000_RXD_STAT_TCPCS || status & E1000_RXD_STAT_UDPCS != 0)
}

/// Records the checksum verdict of an extended receive descriptor status
/// (`em_csum_flags`); the checksum data becomes all ones when the data
/// checksum is valid.
pub fn em_receive_checksum(status: u32, ri: &mut IfRxdInfo)
    ensures
        *final(ri) == (IfRxdInfo {
            iri_csum_flags: em_csum_flags(status),
            iri_csum_data: if em_csum_data_valid(status) {
                0xffff
            } else {
                old(ri).iri_csum_data
            },
            ..*old(ri)
        }),
{
    ri.iri_csum_flags = 0;
    if status & E1000_RXD_STAT_IXSM != 0 {
        return;
    }
    if status & (E1000_RXD_STAT_IPCS | E1000_RXDEXT_STATERR_IPE) == E1000_RXD_STAT_IPCS {
        ri.iri_csum_flags = CSUM_IP_CHECKED | CSUM_IP_VALID;
    }
    if status & (E1000_RXD_STAT_TCPCS | E1000_RXDEXT_STATERR_TCPE) == E1000_RXD_STAT_TCPCS {
        ri.iri_csum_flags = ri.iri_csum_flags | CSUM_DATA_VALID | CSUM_PSEUDO_HDR;
        ri.iri_csum_data = 0xffff;
    }
    if status & E1000_RXD_STAT_UDPCS != 0 {
        ri.iri_csum_flags = ri.iri_csum_flags | CSUM_DATA_VALID | CSUM_PSEUDO_HDR;
        ri.iri_csum_data = 0xffff;
    }
}

/// Records the checksum verdict of a legacy receive descriptor: IP checked
/// and valid (replacing the flags) when the IP checksum was computed
/// without error; data valid with pseudo header added, and all-ones data,
/// when the TCP checksum was computed without error.
pub fn lem_receive_checksum(status: u32, errors: u32, ri: &mut IfRxdInfo)
    ensures
        ({
            let f1 = if status & E1000_RXD_STAT_IPCS != 0 && errors & E1000_RXD_ERR_IPE == 0 {
                CSUM_IP_CHECKED | CSUM_IP_VALID
            } else {
                old(ri).iri_csum_flags
            };
            let tcp = status & E1000_RXD_STAT_TCPCS != 0 && errors & E1000_RXD_ERR_TCPE == 0;
            *final(ri) == (IfRxdInfo {
                iri_csum_flags: if tcp {
                    f1 | CSUM_DATA_VALID | CSUM_PSEUDO_HDR
                } else {
                    f1
                },
                iri_csum_data: if tcp {
                    0xffff
                } else {
                    old(ri).iri_csum_data
                },
                ..*old(ri)
            })
        }),
{
    if status & E1000_RXD_STAT_IPCS != 0 && errors & E1000_RXD_ERR_IPE == 0 {
        ri.iri_csum_flags = CSUM_IP_CHECKED | CSUM_IP_VALID;
    }
    if status & E1000_RXD_STAT_TCPCS != 0 {
        if errors & E1000_RXD_ERR_TCPE == 0 {
            ri.iri_csum_flags = ri.iri_csum_flags | CSUM_DATA_VALID | CSUM_PSEUDO_HDR;
            ri.iri_csum_data = 0xffff;
        }
    }
}

/// The hash type of a received packet from the RSS type of its packet
/// information.
pub open spec fn rsstype_of(pkt_info: u32) -> u32 {
    let t = pkt_info & E1000_RXDADV_RSSTYPE_MASK;
    if t == E1000_RXDADV_RSSTYPE_IPV4_TCP {
        M_HASHTYPE_RSS_TCP_IPV4
    } else if t == E1000_RXDADV_RSSTYPE_IPV4 {
        M_HASHTYPE_RSS_IPV4
    } else if t == E1000_RXDADV_RSSTYPE_IPV6_TCP {
        M_HASHTYPE_RSS_TCP_IPV6
    } else if t == E1000_RXDADV_RSSTYPE_IPV6_EX {
        M_HASHTYPE_RSS_IPV6_EX
    } else if t == E1000_RXDADV_RSSTYPE_IPV6 {
        M_HASHTYPE_RSS_IPV6
    } else if t == E1000_RXDADV_RSSTYPE_IPV6_TCP_EX {
        M_HASHTYPE_RSS_TCP_IPV6_EX
    } else {
        M_HASHTYPE_OPAQUE
    }
}

/// The hash type of a received packet (`rsstype_of`).
pub fn em_determine_rsstype(pkt_info: u32) -> (r: u32)
    ensures
        r == rsstype_of(pkt_info),
{
    let t = pkt_info & E1000_RXDADV_RSSTYPE_MASK;
    if t == E1000_RXDADV_RSSTYPE_IPV4_TCP {
        M_HASHTYPE_RSS_TCP_IPV4
    } else if t == E1000_RXDADV_RSSTYPE_IPV4 {
        M_HASHTYPE_RSS_IPV4
    } else if t == E1000_RXDADV_RSSTYPE_IPV6_TCP {
        M_HASHTYPE_RSS_TCP_IPV6
    } else if t == E1000_RXDADV_RSSTYPE_IPV6_EX {
        M_HASHTYPE_RSS_IPV6_EX
    } else if t == E1000_RXDADV_RSSTYPE_IPV6 {
        M_HASHTYPE_RSS_IPV6
    } else if t == E1000_RXDADV_RSSTYPE_IPV6_TCP_EX {
        M_HASHTYPE_RSS_TCP_IPV6_EX
    } else {
        M_HASHTYPE_OPAQUE
    }
}

// ------------------------------------------------------------ interrupts

impl<P: Platform> Adapter<P> {
    /// Enables the interrupt of receive queue `rxqid` (writes its mask to
    /// `IMS`).
    pub fn rx_queue_intr_enable(&mut self, rxqid: u16)
        requires
            rxqid < old(self).rx_queues@.len(),
        ensures
            final(self).same_state(old(self)),
            final(self).logged(
                old(self),
                seq![IoOp::Write { reg: E1000_IMS, value: old(self).rx_queues@[rxqid as int].eims }],
            ),
    {
        let eims = self.rx_queues[rxqid as usize].eims;
        do_write_register(self, E1000_IMS, eims);
    }

    /// Enables the interrupt of transmit queue `txqid` (writes its mask to
    /// `IMS`).
    pub fn tx_queue_intr_enable(&mut self, txqid: u16)
        requires
            txqid < old(self).tx_queues@.len(),
        ensures
            final(self).same_state(old(self)),
            final(self).logged(
                old(self),
                seq![IoOp::Write { reg: E1000_IMS, value: old(self).tx_queues@[txqid as int].eims }],
            ),
    {
        let eims = self.tx_queues[txqid as usize].eims;
        do_write_register(self, E1000_IMS, eims);
    }

    /// Hands the descriptors up to `pidx` of transmit queue `txqid` to the
    /// hardware (writes its tail register).
    pub fn em_txd_flush(&mut self, txqid: u16, pidx: u16)
        requires
            txqid < old(self).tx_queues@.len(),
        ensures
            final(self).same_state(old(self)),
            final(self).logged(
                old(self),
                seq![
                    IoOp::Write {
                        reg: queue_reg(old(self).tx_queues@[txqid as int].txr.me as int, 0x03818, 0x0E018) as u32,
                        value: pidx as u32,
                    },
                ],
            ),
    {
        let me = self.tx_queues[txqid as usize].txr.me as usize;
        do_write_register(self, E1000_TDT(me), pidx as u32);
    }

    /// Hands the descriptors up to `pidx` of receive queue `rxqid` to the
    /// hardware (writes its tail register).
    pub fn em_rxd_flush(&mut self, rxqid: u16, flid: u8, pidx: u16)
        requires
            rxqid < old(self).rx_queues@.len(),
            old(self).rx_queues@[rxqid as int].rxr.me < 0x100_0000,
        ensures
            final(self).same_state(old(self)),
            final(self).logged(
                old(self),
                seq![
                    IoOp::Write {
                        reg: queue_reg(old(self).rx_queues@[rxqid as int].rxr.me as int, 0x02818, 0x0C018) as u32,
                        value: pidx as u32,
                    },
                ],
            ),
    {
        let me = self.rx_queues[rxqid as usize].rxr.me as usize;
        do_write_register(self, E1000_RDT(me), pidx as u32);
    }
}

/// Whether an interrupt cause read in legacy mode is not this device's:
/// all ones (the device is gone), zero, or, from the 82571 on, without the
/// asserted bit.
pub open spec fn stray_icr(icr: u32, t: MacType) -> bool {
    icr == 0xffffffff || icr == 0 || (mac_rank(t) >= 13 && icr & E1000_ICR_INT_ASSERTED == 0)
}

/// Whether an interrupt cause is stray (`stray_icr`).
fn is_stray_icr(icr: u32, t: MacType) -> (r: bool)
    ensures
        r == stray_icr(icr, t),
{
    icr == 0xffffffff || icr == 0 || (t.rank() >= 13 && icr & E1000_ICR_INT_ASSERTED == 0)
}

/// Records a link event: the link status must be read again.
fn note_link_event<P: Platform>(adapter: &mut Adapter<P>)
    ensures
        final(adapter).same_except_hw(old(adapter)),
        final(adapter).io_log@ == old(adapter).io_log@,
        final(adapter).hw == (Hardware {
            mac: MacInfo { get_link_status: true, ..old(adapter).hw.mac },
            ..old(adapter).hw
        }),
{
    adapter.hw.mac.get_link_status = true;
}

/// The effects of a non-stray interrupt cause `icr` from `o` to `f`: the
/// link status marked stale on a sequence error or link change, an overrun
/// counted, nothing else of the driver state changed.
#[verifier::opaque]
pub open spec fn icr_effects<P: Platform>(o: &Adapter<P>, f: &Adapter<P>, icr: u32) -> bool {
    &&& *f == Adapter {
        plat: f.plat,
        io_log: f.io_log,
        hw: f.hw,
        rx_overruns: f.rx_overruns,
        ..*o
    }
    &&& f.hw == if icr & (E1000_ICR_RXSEQ | E1000_ICR_LSC) != 0 {
        Hardware { mac: MacInfo { get_link_status: true, ..o.hw.mac }, ..o.hw }
    } else {
        o.hw
    }
    &&& f.rx_overruns == if icr & E1000_ICR_RXO != 0 {
        (o.rx_overruns + 1) as u64
    } else {
        o.rx_overruns
    }
}

/// Counts a receive overrun.
fn count_overrun<P: Platform>(adapter: &mut Adapter<P>)
    requires
        old(adapter).rx_overruns < u64::MAX,
    ensures
        *final(adapter) == (Adapter { rx_overruns: (old(adapter).rx_overruns + 1) as u64, ..*old(adapter) }),
{
    adapter.rx_overruns = adapter.rx_overruns + 1;
}

/// Marks the link status stale and asks for the administrative task when
/// `icr` reports a sequence error or a link change.
#[verifier::spinoff_prover]
fn link_part<P: Platform>(adapter: &mut Adapter<P>, icr: u32)
    ensures
        final(adapter).same_except_hw(old(adapter)),
        final(adapter).hw == if icr & (E1000_ICR_RXSEQ | E1000_ICR_LSC) != 0 {
            Hardware { mac: MacInfo { get_link_status: true, ..old(adapter).hw.mac }, ..old(adapter).hw }
        } else {
            old(adapter).hw
        },
        final(adapter).logged(
            old(adapter),
            if icr & (E1000_ICR_RXSEQ | E1000_ICR_LSC) != 0 {
                seq![IoOp::AdminIntr]
            } else {
                Seq::<IoOp>::empty()
            },
        ),
{
    if icr & (E1000_ICR_RXSEQ | E1000_ICR_LSC) != 0 {
        let ghost s0 = *adapter;
        note_link_event(adapter);
        let ghost s1 = *adapter;
        adapter.admin_intr_deferred();
        proof {
            lemma_same_except_hw_trans(&s0, &s1, adapter);
        }
    } else {
        proof {
            assert(adapter.io_log@ =~= old(adapter).io_log@ + Seq::<IoOp>::empty());
        }
    }
}

/// Counts a receive overrun when `icr` reports one.
fn overrun_part<P: Platform>(adapter: &mut Adapter<P>, icr: u32)
    requires
        old(adapter).rx_overruns < u64::MAX,
    ensures
        *final(adapter) == (Adapter {
            rx_overruns: if icr & E1000_ICR_RXO != 0 {
                (old(adapter).rx_overruns + 1) as u64
            } else {
                old(adapter).rx_overruns
            },
            ..*old(adapter)
        }),
{
    if icr & E1000_ICR_RXO != 0 {
        count_overrun(adapter);
    }
}

/// The two parts of acting on a cause make its effects.
proof fn lemma_icr_parts<P: Platform>(s0: &Adapter<P>, s1: &Adapter<P>, s2: &Adapter<P>, icr: u32)
    requires
        s1.same_except_hw(s0),
        s1.hw == if icr & (E1000_ICR_RXSEQ | E1000_ICR_LSC) != 0 {
            Hardware { mac: MacInfo { get_link_status: true, ..s0.hw.mac }, ..s0.hw }
        } else {
            s0.hw
        },
        *s2 == (Adapter {
            rx_overruns: if icr & E1000_ICR_RXO != 0 {
                (s1.rx_overruns + 1) as u64
            } else {
                s1.rx_overruns
            },
            ..*s1
        }),
    ensures
        icr_effects(s0, s2, icr),
{
    reveal(icr_effects);
}

/// The effects of a cause are the same from any state with the same
/// driver state.
proof fn lemma_icr_from_same<P: Platform>(o: &Adapter<P>, s1: &Adapter<P>, f: &Adapter<P>, icr: u32)
    requires
        s1.same_state(o),
        icr_effects(s1, f, icr),
    ensures
        icr_effects(o, f, icr),
{
    reveal(icr_effects);
}

/// Acts on an interrupt cause that is not stray (`icr_effects`).
#[verifier::spinoff_prover]
fn act_on_icr<P: Platform>(adapter: &mut Adapter<P>, icr: u32)
    requires
        old(adapter).rx_overruns < u64::MAX,
    ensures
        icr_effects(old(adapter), final(adapter), icr),
        final(adapter).logged(
            old(adapter),
            if icr & (E1000_ICR_RXSEQ | E1000_ICR_LSC) != 0 {
                seq![IoOp::AdminIntr]
            } else {
                Seq::<IoOp>::empty()
            },
        ),
{
    let ghost s1 = *adapter;
    link_part(adapter, icr);
    let ghost s2 = *adapter;
    overrun_part(adapter, icr);
    proof {
        lemma_icr_parts(&s1, &s2, adapter, icr);
    }
}

impl<P: Platform> Adapter<P> {
    /// The interrupt filter: reads the interrupt cause. In legacy mode a
    /// stray cause (`stray_icr`) is left to others. Otherwise a receive
    /// sequence error or link change marks the link status stale and asks
    /// for the administrative task, a receive overrun is counted
    /// (`icr_effects`), and the interrupt thread is scheduled.
    #[verifier::spinoff_prover]
    #[verifier::rlimit(50)]
    pub fn em_intr(&mut self) -> (r: i32)
        requires
            old(self).rx_overruns < u64::MAX,
        ensures
            ({
                let icr = final(self).read_at(old(self), 0);
                let stray = old(self).iflib_shared.isc_intr == iflib_intr_mode_t::IFLIB_INTR_LEGACY
                    && stray_icr(icr, old(self).hw.mac.mac_type);
                let link = icr & (E1000_ICR_RXSEQ | E1000_ICR_LSC) != 0;
                &&& stray ==> r == FILTER_STRAY && final(self).same_state(old(self))
                    && final(self).logged(old(self), seq![IoOp::Read { reg: E1000_ICR, value: icr }])
                &&& !stray ==> r == FILTER_SCHEDULE_THREAD
                &&& !stray ==> final(self).logged(
                    old(self),
                    if link {
                        seq![IoOp::Read { reg: E1000_ICR, value: icr }, IoOp::AdminIntr]
                    } else {
                        seq![IoOp::Read { reg: E1000_ICR, value: icr }]
                    },
                )
                &&& !stray ==> icr_effects(old(self), final(self), icr)
            }),
    {
        let reg_icr: u32 = do_read_register(self, E1000_ICR);
        let legacy = self.iflib_shared.isc_intr == iflib_intr_mode_t::IFLIB_INTR_LEGACY;
        let stray = is_stray_icr(reg_icr, self.hw.mac.mac_type);
        if legacy && stray {
            return FILTER_STRAY;
        }
        let ghost s1 = *self;
        act_on_icr(self, reg_icr);
        proof {
            lemma_icr_from_same(old(self), &s1, self, reg_icr);
            if reg_icr & (E1000_ICR_RXSEQ | E1000_ICR_LSC) != 0 {
                assert(self.io_log@ =~= old(self).io_log@ + seq![
                    IoOp::Read { reg: E1000_ICR, value: reg_icr },
                    IoOp::AdminIntr,
                ]);
            } else {
                assert(self.io_log@ =~= old(self).io_log@ + seq![IoOp::Read { reg: E1000_ICR, value: reg_icr }]);
            }
        }
        FILTER_SCHEDULE_THREAD
    }
}

// ------------------------------------------------------------ refill

/// The extended receive ring `ring` after `count` buffers `paddrs` were
/// handed to the descriptors from `pidx` on (wrapping at `nrxd`): each
/// gets its buffer address and a cleared status.
pub open spec fn em_refilled(
    ring: Seq<RxDescExtended>,
    pidx: int,
    paddrs: Seq<u64>,
    count: int,
    nrxd: int,
) -> Seq<RxDescExtended> {
    Seq::new(
        ring.len(),
        |k: int|
            {
                let j = if k >= pidx { k - pidx } else { k - pidx + nrxd };
                if k < nrxd && j < count {
                    RxDescExtended { lower: paddrs[j], status_error: 0, ..ring[k] }
                } else {
                    ring[k]
                }
            },
    )
}

/// The legacy receive ring `ring` after `count` buffers `paddrs` were
/// handed to the descriptors from `pidx` on (wrapping at `nrxd`).
pub open spec fn lem_refilled(
    ring: Seq<RxDesc>,
    pidx: int,
    paddrs: Seq<u64>,
    count: int,
    nrxd: int,
) -> Seq<RxDesc> {
    Seq::new(
        ring.len(),
        |k: int|
            {
                let j = if k >= pidx { k - pidx } else { k - pidx + nrxd };
                if k < nrxd && j < count {
                    RxDesc { buffer_addr: paddrs[j], status: 0, ..ring[k] }
                } else {
                    ring[k]
                }
            },
    )
}

/// Hands `count` buffers to the extended ring from `pidx` on.
fn refill_em_ring(ring: &mut Vec<RxDescExtended>, pidx: usize, paddrs: &Vec<u64>, count: usize, nrxd: usize)
    requires
        pidx < nrxd <= old(ring)@.len(),
        count <= nrxd,
        count <= paddrs@.len(),
    ensures
        final(ring)@ == em_refilled(old(ring)@, pidx as int, paddrs@, count as int, nrxd as int),
{
    let mut next = pidx;
    let mut i: usize = 0;
    while i < count
        invariant
            pidx < nrxd <= old(ring)@.len(),
            count <= nrxd,
            count <= paddrs@.len(),
            i <= count,
            next < nrxd,
            next == if pidx + i < nrxd { pidx + i } else { pidx + i - nrxd },
            ring@ == em_refilled(old(ring)@, pidx as int, paddrs@, i as int, nrxd as int),
        decreases count - i,
    {
        let d = ring[next];
        ring.set(next, RxDescExtended { lower: paddrs[i], status_error: 0, ..d });
        proof {
            assert(ring@ =~= em_refilled(old(ring)@, pidx as int, paddrs@, (i + 1) as int, nrxd as int));
        }
        next = next + 1;
        if next == nrxd {
            next = 0;
        }
        i = i + 1;
    }
}

/// Hands `count` buffers to the legacy ring from `pidx` on.
fn refill_lem_ring(ring: &mut Vec<RxDesc>, pidx: usize, paddrs: &Vec<u64>, count: usize, nrxd: usize)
    requires
        pidx < nrxd <= old(ring)@.len(),
        count <= nrxd,
        count <= paddrs@.len(),
    ensures
        final(ring)@ == lem_refilled(old(ring)@, pidx as int, paddrs@, count as int, nrxd as int),
{
    let mut next = pidx;
    let mut i: usize = 0;
    while i < count
        invariant
            pidx < nrxd <= old(ring)@.len(),
            count <= nrxd,
            count <= paddrs@.len(),
            i <= count,
            next < nrxd,
            next == if pidx + i < nrxd { pidx + i } else { pidx + i - nrxd },
            ring@ == lem_refilled(old(ring)@, pidx as int, paddrs@, i as int, nrxd as int),
        decreases count - i,
    {
        let d = ring[next];
        ring.set(next, RxDesc { buffer_addr: paddrs[i], status: 0, ..d });
        proof {
            assert(ring@ =~= lem_refilled(old(ring)@, pidx as int, paddrs@, (i + 1) as int, nrxd as int));
        }
        next = next + 1;
        if next == nrxd {
            next = 0;
        }
        i = i + 1;
    }
}

impl<P: Platform> Adapter<P> {
    /// Refills the extended receive ring of queue `iru_qsidx`: the
    /// `iru_count` descriptors from `iru_pidx` on (wrapping at the ring
    /// size) get the new buffer addresses and a cleared status.
    pub fn em_rxd_refill(&mut self, iru: &mut IfRxdUpdate)
        requires
            old(iru).iru_qsidx < old(self).rx_queues@.len(),
            0 <= old(self).iflib_shared.isc_nrxd0,
            old(iru).iru_pidx < old(self).iflib_shared.isc_nrxd0,
            old(self).iflib_shared.isc_nrxd0 <= old(self).rx_queues@[old(iru).iru_qsidx as int].rxr.rx_base@.len(),
            old(iru).iru_count <= old(self).iflib_shared.isc_nrxd0,
            old(iru).iru_count <= old(iru).iru_paddrs@.len(),
        ensures
            *final(iru) == *old(iru),
            *final(self) == (Adapter { rx_queues: final(self).rx_queues, ..*old(self) }),
            ({
                let q = old(iru).iru_qsidx as int;
                let oq = old(self).rx_queues@[q];
                let nq = final(self).rx_queues@[q];
                &&& final(self).rx_queues@.len() == old(self).rx_queues@.len()
                &&& forall|k: int|
                    0 <= k < old(self).rx_queues@.len() && k != q ==> #[trigger] final(self).rx_queues@[k]
                        == old(self).rx_queues@[k]
                &&& nq == (RxQueue { rxr: RxRing { rx_base: nq.rxr.rx_base, ..oq.rxr }, ..oq })
                &&& nq.rxr.rx_base@ == em_refilled(
                    oq.rxr.rx_base@,
                    old(iru).iru_pidx as int,
                    old(iru).iru_paddrs@,
                    old(iru).iru_count as int,
                    old(self).iflib_shared.isc_nrxd0 as int,
                )
            }),
    {
        let qid = iru.iru_qsidx as usize;
        let nrxd = self.iflib_shared.isc_nrxd0 as usize;
        let mut rq = self.rx_queues.remove(qid);
        refill_em_ring(&mut rq.rxr.rx_base, iru.iru_pidx as usize, &iru.iru_paddrs, iru.iru_count as usize, nrxd);
        self.rx_queues.insert(qid, rq);
        proof {
            assert forall|k: int|
                0 <= k < old(self).rx_queues@.len() && k != qid as int implies #[trigger] self.rx_queues@[k]
                    == old(self).rx_queues@[k] by {
                if k < qid as int {
                } else {
                }
            }
        }
    }

    /// Refills the legacy receive ring of queue `iru_qsidx`: the
    /// `iru_count` descriptors from `iru_pidx` on (wrapping at the ring
    /// size) get the new buffer addresses and a cleared status.
    pub fn lem_rxd_refill(&mut self, iru: &mut IfRxdUpdate)
        requires
            old(iru).iru_qsidx < old(self).rx_queues@.len(),
            0 <= old(self).iflib_shared.isc_nrxd0,
            old(iru).iru_pidx < old(self).iflib_shared.isc_nrxd0,
            old(self).iflib_shared.isc_nrxd0 <= old(self).rx_queues@[old(iru).iru_qsidx as int].rxr.rx_base_legacy@.len(),
            old(iru).iru_count <= old(self).iflib_shared.isc_nrxd0,
            old(iru).iru_count <= old(iru).iru_paddrs@.len(),
        ensures
            *final(iru) == *old(iru),
            *final(self) == (Adapter { rx_queues: final(self).rx_queues, ..*old(self) }),
            ({
                let q = old(iru).iru_qsidx as int;
                let oq = old(self).rx_queues@[q];
                let nq = final(self).rx_queues@[q];
                &&& final(self).rx_queues@.len() == old(self).rx_queues@.len()
                &&& forall|k: int|
                    0 <= k < old(self).rx_queues@.len() && k != q ==> #[trigger] final(self).rx_queues@[k]
                        == old(self).rx_queues@[k]
                &&& nq == (RxQueue {
                    rxr: RxRing { rx_base_legacy: nq.rxr.rx_base_legacy, ..oq.rxr },
                    ..oq
                })
                &&& nq.rxr.rx_base_legacy@ == lem_refilled(
                    oq.rxr.rx_base_legacy@,
                    old(iru).iru_pidx as int,
                    old(iru).iru_paddrs@,
                    old(iru).iru_count as int,
                    old(self).iflib_shared.isc_nrxd0 as int,
                )
            }),
    {
        let qid = iru.iru_qsidx as usize;
        let nrxd = self.iflib_shared.isc_nrxd0 as usize;
        let mut rq = self.rx_queues.remove(qid);
        refill_lem_ring(&mut rq.rxr.rx_base_legacy, iru.iru_pidx as usize, &iru.iru_paddrs, iru.iru_count as usize, nrxd);
        self.rx_queues.insert(qid, rq);
        proof {
            assert forall|k: int|
                0 <= k < old(self).rx_queues@.len() && k != qid as int implies #[trigger] self.rx_queues@[k]
                    == old(self).rx_queues@[k] by {
                if k < qid as int {
                } else {
                }
            }
        }
    }
}

// ------------------------------------------------------------ receive scan

/// The slot after `i` in a ring of `n` slots.
pub open spec fn ring_next(i: int, n: int) -> int {
    if i + 1 == n {
        0
    } else {
        i + 1
    }
}

/// The slot reached after `t` steps from `idx` in a ring of `n` slots.
pub open spec fn ring_pos(idx: int, t: nat, n: int) -> int
    decreases t,
{
    if t == 0 {
        idx
    } else {
        ring_next(ring_pos(idx, (t - 1) as nat, n), n)
    }
}

/// Number of end-of-packet statuses among the first `t` slots scanned
/// from `idx`.
pub open spec fn eops_in(st: Seq<u32>, idx: int, n: int, t: nat) -> int
    decreases t,
{
    if t == 0 {
        0
    } else {
        eops_in(st, idx, n, (t - 1) as nat) + if st[ring_pos(idx, (t - 1) as nat, n)] & E1000_RXD_STAT_EOP != 0 {
            1int
        } else {
            0
        }
    }
}

/// Whether the scan from `idx` stops before slot `t`: enough packets were
/// counted (the ring size, or one more than the budget), or the slot was
/// not written back by the hardware.
pub open spec fn scan_stops(st: Seq<u32>, idx: int, n: int, budget: int, t: nat) -> bool {
    let c = eops_in(st, idx, n, t);
    !(c < n && c <= budget) || st[ring_pos(idx, t, n)] & E1000_RXD_STAT_DD == 0
}

/// `r` is the number of packets the scan from `idx` finds: the count of
/// end-of-packet slots when it first stops.
pub open spec fn scan_result(st: Seq<u32>, idx: int, n: int, budget: int, r: int) -> bool {
    exists|t: nat|
        #![trigger eops_in(st, idx, n, t)]
        scan_stops(st, idx, n, budget, t) && (forall|u: nat| u < t ==> !scan_stops(st, idx, n, budget, u))
            && r == eops_in(st, idx, n, t)
}

/// The distance from slot `i` forward to slot `k`.
pub open spec fn ring_dist(i: int, k: int, n: int) -> int {
    if k >= i {
        k - i
    } else {
        k - i + n
    }
}

/// Some slot of the ring ends the scan: not written back, or an end of
/// packet (a ring whose every slot is a written-back middle fragment would
/// be scanned forever).
pub open spec fn scan_bounded(st: Seq<u32>, n: int) -> bool {
    exists|k: int| 0 <= k < n && (st[k] & E1000_RXD_STAT_DD == 0 || st[k] & E1000_RXD_STAT_EOP != 0)
}

/// The statuses of an extended ring.
pub open spec fn em_statuses(ring: Seq<RxDescExtended>) -> Seq<u32> {
    ring.map_values(|d: RxDescExtended| d.status_error)
}

/// The statuses of a legacy ring.
pub open spec fn lem_statuses(ring: Seq<RxDesc>) -> Seq<u32> {
    ring.map_values(|d: RxDesc| d.status as u32)
}

/// Counts the packets ready in a ring from `idx` (`scan_result`).
fn scan_ring(st: &Vec<u32>, idx: usize, n: usize, budget: u16) -> (r: usize)
    requires
        idx < n <= st@.len(),
        scan_bounded(st@, n as int),
    ensures
        scan_result(st@, idx as int, n as int, budget as int, r as int),
        r <= n,
{
    let ghost k: int = choose|k: int|
        0 <= k < n && (st@[k] & E1000_RXD_STAT_DD == 0 || st@[k] & E1000_RXD_STAT_EOP != 0);
    let mut i: usize = idx;
    let mut cnt: usize = 0;
    let ghost mut t: nat = 0;
    while cnt < n && cnt <= budget as usize
        invariant_except_break
            idx < n <= st@.len(),
            0 <= k < n,
            st@[k] & E1000_RXD_STAT_DD == 0 || st@[k] & E1000_RXD_STAT_EOP != 0,
            i < n,
            i == ring_pos(idx as int, t, n as int),
            cnt == eops_in(st@, idx as int, n as int, t),
            cnt <= n,
            forall|u: nat| u < t ==> !scan_stops(st@, idx as int, n as int, budget as int, u),
        ensures
            cnt <= n,
            scan_stops(st@, idx as int, n as int, budget as int, t),
            forall|u: nat| u < t ==> !scan_stops(st@, idx as int, n as int, budget as int, u),
            cnt == eops_in(st@, idx as int, n as int, t),
        decreases n + 1 - cnt, ring_dist(i as int, k, n as int),
    {
        let staterr = st[i];
        if staterr & E1000_RXD_STAT_DD == 0 {
            break;
        }
        proof {
            assert(!scan_stops(st@, idx as int, n as int, budget as int, t));
        }
        i = i + 1;
        if i == n {
            i = 0;
        }
        if staterr & E1000_RXD_STAT_EOP != 0 {
            cnt = cnt + 1;
        }
        proof {
            t = t + 1;
            assert(forall|u: nat| u < t ==> !scan_stops(st@, idx as int, n as int, budget as int, u)) by {
                assert forall|u: nat| u < t implies !scan_stops(st@, idx as int, n as int, budget as int, u) by {
                    if u < t - 1 {
                    }
                }
            }
        }
    }
    proof {
        assert(scan_stops(st@, idx as int, n as int, budget as int, t));
    }
    cnt
}

/// The statuses of the first `n` slots of an extended ring.
fn em_status_vec(ring: &Vec<RxDescExtended>, n: usize) -> (v: Vec<u32>)
    requires
        n <= ring@.len(),
    ensures
        v@ == em_statuses(ring@).subrange(0, n as int),
{
    let mut v: Vec<u32> = Vec::new();
    let mut i: usize = 0;
    while i < n
        invariant
            n <= ring@.len(),
            i <= n,
            v@ == em_statuses(ring@).subrange(0, i as int),
        decreases n - i,
    {
        v.push(ring[i].status_error);
        i = i + 1;
        proof {
            assert(v@ =~= em_statuses(ring@).subrange(0, i as int));
        }
    }
    v
}

/// The statuses of the first `n` slots of a legacy ring.
fn lem_status_vec(ring: &Vec<RxDesc>, n: usize) -> (v: Vec<u32>)
    requires
        n <= ring@.len(),
    ensures
        v@ == lem_statuses(ring@).subrange(0, n as int),
{
    let mut v: Vec<u32> = Vec::new();
    let mut i: usize = 0;
    while i < n
        invariant
            n <= ring@.len(),
            i <= n,
            v@ == lem_statuses(ring@).subrange(0, i as int),
        decreases n - i,
    {
        v.push(ring[i].status as u32);
        i = i + 1;
        proof {
            assert(v@ =~= lem_statuses(ring@).subrange(0, i as int));
        }
    }
    v
}

impl<P: Platform> Adapter<P> {
    /// How many received packets are ready in the extended ring of queue
    /// `rxqid` from slot `idx`: with a budget of one, whether slot `idx`
    /// is written back; otherwise the count of packets the scan finds
    /// (`scan_result`).
    pub fn em_rxd_available(&mut self, rxqid: u16, idx: u16, budget: u16) -> (r: i32)
        requires
            rxqid < old(self).rx_queues@.len(),
            0 < old(self).iflib_shared.isc_nrxd0,
            idx < old(self).iflib_shared.isc_nrxd0,
            old(self).iflib_shared.isc_nrxd0 <= old(self).rx_queues@[rxqid as int].rxr.rx_base@.len(),
            budget != 1 ==> scan_bounded(
                em_statuses(old(self).rx_queues@[rxqid as int].rxr.rx_base@),
                old(self).iflib_shared.isc_nrxd0 as int,
            ),
        ensures
            *final(self) == *old(self),
            ({
                let st = em_statuses(old(self).rx_queues@[rxqid as int].rxr.rx_base@);
                let n = old(self).iflib_shared.isc_nrxd0 as int;
                &&& budget == 1 ==> r == (st[idx as int] & E1000_RXD_STAT_DD) as i32
                &&& budget != 1 ==> scan_result(st, idx as int, n, budget as int, r as int)
            }),
    {
        let n = self.iflib_shared.isc_nrxd0 as usize;
        if budget == 1 {
            let s = self.rx_queues[rxqid as usize].rxr.rx_base[idx as usize].status_error;
            return (s & E1000_RXD_STAT_DD) as i32;
        }
        let v = em_status_vec(&self.rx_queues[rxqid as usize].rxr.rx_base, n);
        proof {
            let st = em_statuses(old(self).rx_queues@[rxqid as int].rxr.rx_base@);
            assert forall|j: int| 0 <= j < n implies v@[j] == st[j] by {}
            let k = choose|k: int|
                0 <= k < n && (st[k] & E1000_RXD_STAT_DD == 0 || st[k] & E1000_RXD_STAT_EOP != 0);
            assert(v@[k] == st[k]);
        }
        let c = scan_ring(&v, idx as usize, n, budget);
        proof {
            lemma_scan_result_prefix(v@, em_statuses(old(self).rx_queues@[rxqid as int].rxr.rx_base@), idx as int, n as int, budget as int, c as int);
        }
        c as i32
    }

    /// How many received packets are ready in the legacy ring of queue
    /// `rxqid` from slot `idx` (as `em_rxd_available`, on the legacy
    /// statuses).
    pub fn lem_rxd_available(&mut self, rxqid: u16, idx: u16, budget: u16) -> (r: i32)
        requires
            rxqid < old(self).rx_queues@.len(),
            0 < old(self).iflib_shared.isc_nrxd0,
            idx < old(self).iflib_shared.isc_nrxd0,
            old(self).iflib_shared.isc_nrxd0 <= old(self).rx_queues@[rxqid as int].rxr.rx_base_legacy@.len(),
            budget != 1 ==> scan_bounded(
                lem_statuses(old(self).rx_queues@[rxqid as int].rxr.rx_base_legacy@),
                old(self).iflib_shared.isc_nrxd0 as int,
            ),
        ensures
            *final(self) == *old(self),
            ({
                let st = lem_statuses(old(self).rx_queues@[rxqid as int].rxr.rx_base_legacy@);
                let n = old(self).iflib_shared.isc_nrxd0 as int;
                &&& budget == 1 ==> r == (st[idx as int] & E1000_RXD_STAT_DD) as i32
                &&& budget != 1 ==> scan_result(st, idx as int, n, budget as int, r as int)
            }),
    {
        let n = self.iflib_shared.isc_nrxd0 as usize;
        if budget == 1 {
            let s = self.rx_queues[rxqid as usize].rxr.rx_base_legacy[idx as usize].status as u32;
            return (s & E1000_RXD_STAT_DD) as i32;
        }
        let v = lem_status_vec(&self.rx_queues[rxqid as usize].rxr.rx_base_legacy, n);
        proof {
            let st = lem_statuses(old(self).rx_queues@[rxqid as int].rxr.rx_base_legacy@);
            assert forall|j: int| 0 <= j < n implies v@[j] == st[j] by {}
            let k = choose|k: int|
                0 <= k < n && (st[k] & E1000_RXD_STAT_DD == 0 || st[k] & E1000_RXD_STAT_EOP != 0);
            assert(v@[k] == st[k]);
        }
        let c = scan_ring(&v, idx as usize, n, budget);
        proof {
            lemma_scan_result_prefix(v@, lem_statuses(old(self).rx_queues@[rxqid as int].rxr.rx_base_legacy@), idx as int, n as int, budget as int, c as int);
        }
        c as i32
    }
}

/// A slot reached from a slot of the ring is a slot of the ring.
proof fn lemma_pos_in_ring(idx: int, t: nat, n: int)
    requires
        0 <= idx < n,
    ensures
        0 <= ring_pos(idx, t, n) < n,
    decreases t,
{
    if t > 0 {
        lemma_pos_in_ring(idx, (t - 1) as nat, n);
    }
}

/// Two status sequences that agree on the ring count the same packets.
proof fn lemma_eops_agree(a: Seq<u32>, b: Seq<u32>, idx: int, n: int, t: nat)
    requires
        0 <= idx < n,
        forall|j: int| 0 <= j < n ==> a[j] == b[j],
    ensures
        eops_in(a, idx, n, t) == eops_in(b, idx, n, t),
    decreases t,
{
    if t > 0 {
        lemma_eops_agree(a, b, idx, n, (t - 1) as nat);
        lemma_pos_in_ring(idx, (t - 1) as nat, n);
    }
}

/// Two status sequences that agree on the ring give the same scan.
proof fn lemma_scan_result_prefix(a: Seq<u32>, b: Seq<u32>, idx: int, n: int, budget: int, r: int)
    requires
        0 <= idx < n,
        forall|j: int| 0 <= j < n ==> a[j] == b[j],
        scan_result(a, idx, n, budget, r),
    ensures
        scan_result(b, idx, n, budget, r),
{
    let t = choose|t: nat|
        #![trigger eops_in(a, idx, n, t)]
        scan_stops(a, idx, n, budget, t) && (forall|u: nat| u < t ==> !scan_stops(a, idx, n, budget, u))
            && r == eops_in(a, idx, n, t);
    assert forall|u: nat| u <= t implies scan_stops(a, idx, n, budget, u) == scan_stops(
        b,
        idx,
        n,
        budget,
        u,
    ) by {
        lemma_eops_agree(a, b, idx, n, u);
        lemma_pos_in_ring(idx, u, n);
    }
    lemma_eops_agree(a, b, idx, n, t);
    assert(scan_stops(b, idx, n, budget, t) && (forall|u: nat| u < t ==> !scan_stops(b, idx, n, budget, u))
        && r == eops_in(b, idx, n, t));
}

// ------------------------------------------------------------ packet extraction

/// The slot reached after `t` steps from `idx`, in closed form.
proof fn lemma_pos_closed(idx: int, t: nat, n: int)
    requires
        0 <= idx < n,
        t <= n,
    ensures
        ring_pos(idx, t, n) == if idx + t < n { idx + t } else { idx + t - n },
    decreases t,
{
    if t > 0 {
        lemma_pos_closed(idx, (t - 1) as nat, n);
    }
}

/// `a + b` wrapped to 16 bits.
pub open spec fn wadd16(a: u16, b: u16) -> u16 {
    if a + b > u16::MAX {
        (a + b - 65536) as u16
    } else {
        (a + b) as u16
    }
}

/// The extended descriptor at slot `t` of the scan from `idx`.
pub open spec fn em_at(r0: Seq<RxDescExtended>, idx: int, n: int, t: nat) -> RxDescExtended {
    r0[ring_pos(idx, t, n)]
}

/// Whether scan slot `t` ends the packet: not written back, in error, or
/// its last fragment.
pub open spec fn em_ends(r0: Seq<RxDescExtended>, idx: int, n: int, t: nat) -> bool {
    let s = em_at(r0, idx, n, t).status_error;
    s & E1000_RXD_STAT_DD == 0 || s & E1000_RXDEXT_ERR_FRAME_ERR_MASK != 0 || s & E1000_RXD_STAT_EOP != 0
}

/// Slot `t` is the first of the scan that ends the packet.
pub open spec fn em_first_end(r0: Seq<RxDescExtended>, idx: int, n: int, t: nat) -> bool {
    t < n && em_ends(r0, idx, n, t) && forall|u: nat| u < t ==> !em_ends(r0, idx, n, u)
}

/// The packet from `idx` is whole and good: its first ending slot `t` is
/// written back without error and is the last fragment.
pub open spec fn em_good_end(r0: Seq<RxDescExtended>, idx: int, n: int, t: nat) -> bool {
    let s = em_at(r0, idx, n, t).status_error;
    em_first_end(r0, idx, n, t) && s & E1000_RXD_STAT_DD != 0 && s & E1000_RXDEXT_ERR_FRAME_ERR_MASK == 0
}

/// The packet from `idx` ends in a frame error at its first ending slot.
pub open spec fn em_frame_error(r0: Seq<RxDescExtended>, idx: int, n: int) -> bool {
    exists|t: nat|
        em_first_end(r0, idx, n, t) && #[trigger] em_at(r0, idx, n, t).status_error & E1000_RXD_STAT_DD != 0
            && em_at(r0, idx, n, t).status_error & E1000_RXDEXT_ERR_FRAME_ERR_MASK != 0
}

/// The extended ring with the status byte of the first `i` scanned slots
/// cleared.
pub open spec fn em_cleared(r0: Seq<RxDescExtended>, idx: int, n: int, i: int) -> Seq<RxDescExtended> {
    Seq::new(
        r0.len(),
        |k: int|
            if 0 <= k < n && ring_dist(idx, k, n) < i {
                RxDescExtended { status_error: r0[k].status_error & !0xFFu32, ..r0[k] }
            } else {
                r0[k]
            },
    )
}

/// The packet length after adding the first `i` fragment lengths to `base`.
pub open spec fn em_len_sum(r0: Seq<RxDescExtended>, idx: int, n: int, i: nat, base: u16) -> u16
    decreases i,
{
    if i == 0 {
        base
    } else {
        wadd16(em_len_sum(r0, idx, n, (i - 1) as nat, base), em_at(r0, idx, n, (i - 1) as nat).length)
    }
}

/// The fragment recorded for scan slot `t`.
pub open spec fn em_frag(r0: Seq<RxDescExtended>, idx: int, n: int, t: nat) -> IfRxdFrag {
    IfRxdFrag { irf_flid: 0, irf_idx: ring_pos(idx, t, n) as u16, irf_len: em_at(r0, idx, n, t).length }
}

/// The outcome of scanning one extended packet from `cidx`.
pub struct EmScan {
    pub ok: bool,
    pub frame_error: bool,
    pub nfrags: usize,
    pub last: usize,
    pub staterr: u32,
}

/// Walks the fragments of the packet at `cidx` in `ring`: records each
/// fragment, adds its length, clears its status byte, until the last
/// fragment (or a slot not written back, or in error).
fn em_scan_packet(ring: &mut Vec<RxDescExtended>, cidx: usize, n: usize, ri: &mut IfRxdInfo) -> (r: EmScan)
    requires
        cidx < n <= old(ring)@.len(),
        n < 0x1_0000,
        old(ri).iri_frags@.len() >= n,
    ensures
        final(ring)@.len() == old(ring)@.len(),
        final(ri).iri_frags@.len() == old(ri).iri_frags@.len(),
        *final(ri) == (IfRxdInfo {
            iri_frags: final(ri).iri_frags,
            iri_len: final(ri).iri_len,
            ..*old(ri)
        }),
        r.ok ==> ({
            let t = (r.nfrags - 1) as nat;
            &&& 1 <= r.nfrags <= n
            &&& r.last < n
            &&& em_good_end(old(ring)@, cidx as int, n as int, t)
            &&& r.last == ring_pos(cidx as int, t, n as int)
            &&& r.staterr == em_at(old(ring)@, cidx as int, n as int, t).status_error
            &&& final(ring)@ == em_cleared(old(ring)@, cidx as int, n as int, r.nfrags as int)
            &&& final(ri).iri_len == em_len_sum(old(ring)@, cidx as int, n as int, r.nfrags as nat, old(ri).iri_len)
            &&& forall|u: int| 0 <= u < r.nfrags ==> #[trigger] final(ri).iri_frags@[u] == em_frag(
                old(ring)@,
                cidx as int,
                n as int,
                u as nat,
            )
            &&& forall|u: int| r.nfrags <= u < final(ri).iri_frags@.len() ==> #[trigger] final(ri).iri_frags@[u]
                == old(ri).iri_frags@[u]
        }),
        !r.ok <==> !exists|t: nat| em_good_end(old(ring)@, cidx as int, n as int, t),
        r.frame_error <==> em_frame_error(old(ring)@, cidx as int, n as int),
{
    let ghost r0 = ring@;
    let ghost idx = cidx as int;
    let mut c = cidx;
    let mut i: usize = 0;
    loop
        invariant
            cidx < n <= r0.len(),
            n < 0x1_0000,
            r0 == old(ring)@,
            idx == cidx,
            i < n || (i == n && c == cidx),
            i <= n,
            c < n,
            c == ring_pos(idx, i as nat, n as int),
            ring@ == em_cleared(r0, idx, n as int, i as int),
            forall|u: nat| u < i ==> !em_ends(r0, idx, n as int, u),
            ri.iri_frags@.len() == old(ri).iri_frags@.len(),
            old(ri).iri_frags@.len() >= n,
            *ri == (IfRxdInfo { iri_frags: ri.iri_frags, iri_len: ri.iri_len, ..*old(ri) }),
            ri.iri_len == em_len_sum(r0, idx, n as int, i as nat, old(ri).iri_len),
            forall|u: int| 0 <= u < i ==> #[trigger] ri.iri_frags@[u] == em_frag(r0, idx, n as int, u as nat),
            forall|u: int| i <= u < ri.iri_frags@.len() ==> #[trigger] ri.iri_frags@[u] == old(ri).iri_frags@[u],
        decreases n - i,
    {
        proof {
            lemma_pos_closed(idx, i as nat, n as int);
        }
        let d = ring[c];
        let staterr = d.status_error;
        if i == n {
            proof {
                assert(ring_dist(idx, c as int, n as int) == 0);
                let x = r0[c as int].status_error;
                assert(staterr == x & !0xFFu32);
                assert(staterr & E1000_RXD_STAT_DD == 0) by (bit_vector)
                    requires
                        staterr == x & !0xFFu32,
                ;
                assert forall|t: nat| !em_good_end(r0, idx, n as int, t) by {}
                assert forall|t: nat| !em_first_end(r0, idx, n as int, t) by {}
            }
            return EmScan { ok: false, frame_error: false, nfrags: i, last: c, staterr };
        }
        proof {
            assert(ring_dist(idx, c as int, n as int) == i);
            assert(d == r0[c as int]);
        }
        if staterr & E1000_RXD_STAT_DD == 0 {
            proof {
                assert(em_first_end(r0, idx, n as int, i as nat));
                assert forall|t: nat| !em_good_end(r0, idx, n as int, t) by {
                    if t < i { } else if t > i { assert(em_ends(r0, idx, n as int, i as nat)); }
                }
                assert forall|t: nat| !(em_first_end(r0, idx, n as int, t) && #[trigger] em_at(r0, idx, n as int, t).status_error & E1000_RXD_STAT_DD != 0) by {
                    if t < i { } else if t > i { assert(em_ends(r0, idx, n as int, i as nat)); }
                }
            }
            return EmScan { ok: false, frame_error: false, nfrags: i, last: c, staterr };
        }
        let len = d.length;
        ri.iri_len = ri.iri_len.wrapping_add(len);
        let eop = staterr & E1000_RXD_STAT_EOP != 0;
        if staterr & E1000_RXDEXT_ERR_FRAME_ERR_MASK != 0 {
            proof {
                assert(em_first_end(r0, idx, n as int, i as nat));
                assert forall|t: nat| !em_good_end(r0, idx, n as int, t) by {
                    if t < i { } else if t > i { assert(em_ends(r0, idx, n as int, i as nat)); }
                }
                assert(em_at(r0, idx, n as int, i as nat).status_error & E1000_RXD_STAT_DD != 0);
            }
            return EmScan { ok: false, frame_error: true, nfrags: i, last: c, staterr };
        }
        ri.iri_frags.set(i, IfRxdFrag { irf_flid: 0, irf_idx: c as u16, irf_len: len });
        ring.set(c, RxDescExtended { status_error: staterr & !0xFFu32, ..d });
        proof {
            assert(ring@ =~= em_cleared(r0, idx, n as int, (i + 1) as int)) by {
                assert forall|k: int| 0 <= k < r0.len() implies ring@[k] == em_cleared(r0, idx, n as int, (i + 1) as int)[k] by {
                    if k == c as int {
                    } else if 0 <= k < n {
                        assert(ring_dist(idx, k, n as int) != i);
                    }
                }
            }
        }
        let last = c;
        c = c + 1;
        if c == n {
            c = 0;
        }
        i = i + 1;
        proof {
            lemma_pos_closed(idx, i as nat, n as int);
        }
        if eop {
            proof {
                let t = (i - 1) as nat;
                assert(em_good_end(r0, idx, n as int, t));
                assert forall|u: nat| !(em_first_end(r0, idx, n as int, u) && #[trigger] em_at(r0, idx, n as int, u).status_error & E1000_RXD_STAT_DD != 0 && em_at(r0, idx, n as int, u).status_error & E1000_RXDEXT_ERR_FRAME_ERR_MASK != 0) by {
                    if u < t { } else if u > t { assert(em_ends(r0, idx, n as int, t)); }
                }
            }
            return EmScan { ok: true, frame_error: false, nfrags: i, last, staterr };
        }
    }
}


/// Puts a receive queue back at position `q`.
fn put_back_rx_queue(queues: &mut Vec<RxQueue>, q: usize, rq: RxQueue)
    requires
        q <= old(queues)@.len(),
    ensures
        final(queues)@ == old(queues)@.insert(q as int, rq),
{
    queues.insert(q, rq);
}

/// Counts a dropped packet.
fn count_drop<P: Platform>(adapter: &mut Adapter<P>)
    requires
        old(adapter).dropped_pkts < u64::MAX,
    ensures
        *final(adapter) == (Adapter { dropped_pkts: (old(adapter).dropped_pkts + 1) as u64, ..*old(adapter) }),
{
    adapter.dropped_pkts = adapter.dropped_pkts + 1;
}

/// What a good extended packet whose last slot is `t` gives the packet
/// description `ri` (from `o`), with `v` the `ri` before the checksum and
/// tag are recorded.
pub open spec fn em_pkt_info_ok(r0: Seq<RxDescExtended>, idx: int, n: int, t: nat, o: IfRxdInfo, f: IfRxdInfo, t_mac: MacType) -> bool {
    let d = em_at(r0, idx, n, t);
    let s = d.status_error;
    let vtag: u16 = if s & E1000_RXD_STAT_VP != 0 { d.vlan } else { 0 };
    let m = t + 1;
    &&& f.iri_nfrags == m as u8
    &&& f.iri_len == em_len_sum(r0, idx, n, m as nat, o.iri_len)
    &&& f.iri_frags@.len() == o.iri_frags@.len()
    &&& forall|u: int| 0 <= u < m ==> #[trigger] f.iri_frags@[u] == em_frag(r0, idx, n, u as nat)
    &&& forall|u: int| m <= u < f.iri_frags@.len() ==> #[trigger] f.iri_frags@[u] == o.iri_frags@[u]
    &&& f.iri_flowid == (d.lower >> 32u64) as u32
    &&& f.iri_rsstype == rsstype_of(d.lower as u32) as u8
    &&& f.iri_vtag == vtag
    &&& f.iri_flags == if vtag != 0 { o.iri_flags | M_VLANTAG } else { o.iri_flags }
    &&& f.iri_csum_flags == if mac_rank(t_mac) >= 2 { em_csum_flags(s) } else { o.iri_csum_flags }
    &&& f.iri_csum_data == if mac_rank(t_mac) >= 2 && em_csum_data_valid(s) { 0xffff } else { o.iri_csum_data }
    &&& f.iri_qsidx == o.iri_qsidx
    &&& f.iri_cidx == o.iri_cidx
}

impl<P: Platform> Adapter<P> {
    /// Takes the packet at slot `iri_cidx` of the extended ring of queue
    /// `iri_qsidx`: walks its fragments up to the last one, recording each
    /// (`em_frag`), adding up the length and clearing each status byte;
    /// then records the flow id, hash type, VLAN tag and (on the 82543 and
    /// later) the checksum verdict of the last fragment (`em_pkt_info_ok`).
    /// Answers 0, or 89 (bad message) when a slot was not written back or
    /// the packet has a frame error (counted as dropped).
    #[verifier::spinoff_prover]
    #[verifier::rlimit(50)]
    pub fn em_rxd_pkt_get(&mut self, ri: &mut IfRxdInfo) -> (r: i32)
        requires
            old(ri).iri_qsidx < old(self).rx_queues@.len(),
            0 < old(self).iflib_shared.isc_nrxd0 < 0x1_0000,
            old(ri).iri_cidx < old(self).iflib_shared.isc_nrxd0,
            old(self).iflib_shared.isc_nrxd0 <= old(self).rx_queues@[old(ri).iri_qsidx as int].rxr.rx_base@.len(),
            old(ri).iri_frags@.len() >= old(self).iflib_shared.isc_nrxd0,
            old(self).dropped_pkts < u64::MAX,
        ensures
            ({
                let q = old(ri).iri_qsidx as int;
                let r0 = old(self).rx_queues@[q].rxr.rx_base@;
                let idx = old(ri).iri_cidx as int;
                let n = old(self).iflib_shared.isc_nrxd0 as int;
                let fe = em_frame_error(r0, idx, n);
                &&& r == 0 || r == 89
                &&& (r == 0 <==> exists|t: nat| em_good_end(r0, idx, n, t))
                &&& *final(self) == (Adapter {
                    rx_queues: final(self).rx_queues,
                    dropped_pkts: if fe { (old(self).dropped_pkts + 1) as u64 } else { old(self).dropped_pkts },
                    ..*old(self)
                })
                &&& final(self).rx_queues@.len() == old(self).rx_queues@.len()
                &&& forall|k: int| 0 <= k < old(self).rx_queues@.len() && k != q ==> #[trigger] final(self).rx_queues@[k] == old(self).rx_queues@[k]
                &&& r == 0 ==> forall|t: nat| em_good_end(r0, idx, n, t) ==> {
                    &&& final(self).rx_queues@[q] == (RxQueue {
                        rxr: RxRing { rx_base: final(self).rx_queues@[q].rxr.rx_base, ..old(self).rx_queues@[q].rxr },
                        ..old(self).rx_queues@[q]
                    })
                    &&& final(self).rx_queues@[q].rxr.rx_base@ == em_cleared(r0, idx, n, t + 1int)
                    &&& em_pkt_info_ok(r0, idx, n, t, *old(ri), *final(ri), old(self).hw.mac.mac_type)
                }
            }),
    {
        let q = ri.iri_qsidx as usize;
        let n = self.iflib_shared.isc_nrxd0 as usize;
        let cidx = ri.iri_cidx as usize;
        let mut rq = self.rx_queues.remove(q);
        let ghost rq0 = rq;
        let sc = em_scan_packet(&mut rq.rxr.rx_base, cidx, n, ri);
        if !sc.ok {
            put_back_rx_queue(&mut self.rx_queues, q, rq);
            if sc.frame_error {
                count_drop(self);
            }
            proof {
                assert forall|k: int| 0 <= k < old(self).rx_queues@.len() && k != q implies #[trigger] self.rx_queues@[k] == old(self).rx_queues@[k] by {
                    if k < q { } else { }
                }
            }
            return 89;
        }
        let d = rq.rxr.rx_base[sc.last];
        proof {
            lemma_pos_in_ring(cidx as int, (sc.nfrags - 1) as nat, n as int);
        }
        let ghost ri1 = *ri;
        ri.iri_flowid = (d.lower >> 32u64) as u32;
        ri.iri_rsstype = em_determine_rsstype(d.lower as u32) as u8;
        let vtag: u16 = if sc.staterr & E1000_RXD_STAT_VP != 0 {
            d.vlan
        } else {
            0
        };
        put_back_rx_queue(&mut self.rx_queues, q, rq);
        if self.hw.mac.mac_type.rank() >= 2 {
            em_receive_checksum(sc.staterr, ri);
        }
        ri.iri_vtag = vtag;
        if vtag != 0 {
            ri.iri_flags = ri.iri_flags | M_VLANTAG;
        }
        ri.iri_nfrags = sc.nfrags as u8;
        proof {
            assert forall|k: int| 0 <= k < old(self).rx_queues@.len() && k != q implies #[trigger] self.rx_queues@[k] == old(self).rx_queues@[k] by {
                if k < q { } else { }
            }
            assert(!em_frame_error(rq0.rxr.rx_base@, cidx as int, n as int));
            assert forall|t: nat| em_good_end(rq0.rxr.rx_base@, cidx as int, n as int, t) implies t == (sc.nfrags - 1) as nat by {
                let t0 = (sc.nfrags - 1) as nat;
                if t < t0 {
                    assert(em_ends(rq0.rxr.rx_base@, cidx as int, n as int, t));
                } else if t > t0 {
                    assert(em_ends(rq0.rxr.rx_base@, cidx as int, n as int, t0));
                }
            }
        }
        0
    }
}
/// The legacy descriptor at slot `t` of the scan from `idx`.
pub open spec fn lem_at(r0: Seq<RxDesc>, idx: int, n: int, t: nat) -> RxDesc {
    r0[ring_pos(idx, t, n)]
}

/// Whether scan slot `t` ends the packet: not written back, in error, or
/// its last fragment.
pub open spec fn lem_ends(r0: Seq<RxDesc>, idx: int, n: int, t: nat) -> bool {
    let d = lem_at(r0, idx, n, t);
    (d.status as u32) & E1000_RXD_STAT_DD == 0 || (d.errors as u32) & E1000_RXD_ERR_FRAME_ERR_MASK != 0 || (d.status as u32) & E1000_RXD_STAT_EOP != 0
}

/// Slot `t` is the first of the scan that ends the packet.
pub open spec fn lem_first_end(r0: Seq<RxDesc>, idx: int, n: int, t: nat) -> bool {
    t < n && lem_ends(r0, idx, n, t) && forall|u: nat| u < t ==> !lem_ends(r0, idx, n, u)
}

/// The packet from `idx` is whole and good: its first ending slot `t` is
/// written back without error and is the last fragment.
pub open spec fn lem_good_end(r0: Seq<RxDesc>, idx: int, n: int, t: nat) -> bool {
    let d = lem_at(r0, idx, n, t);
    lem_first_end(r0, idx, n, t) && (d.status as u32) & E1000_RXD_STAT_DD != 0 && (d.errors as u32) & E1000_RXD_ERR_FRAME_ERR_MASK == 0
}

/// The packet from `idx` ends in a frame error at its first ending slot.
pub open spec fn lem_frame_error(r0: Seq<RxDesc>, idx: int, n: int) -> bool {
    exists|t: nat|
        lem_first_end(r0, idx, n, t) && (#[trigger] lem_at(r0, idx, n, t).status as u32) & E1000_RXD_STAT_DD != 0
            && (lem_at(r0, idx, n, t).errors as u32) & E1000_RXD_ERR_FRAME_ERR_MASK != 0
}

/// The legacy ring with the status byte of the first `i` scanned slots
/// cleared.
pub open spec fn lem_cleared(r0: Seq<RxDesc>, idx: int, n: int, i: int) -> Seq<RxDesc> {
    Seq::new(
        r0.len(),
        |k: int|
            if 0 <= k < n && ring_dist(idx, k, n) < i {
                RxDesc { status: 0, ..r0[k] }
            } else {
                r0[k]
            },
    )
}

/// The packet length after adding the first `i` fragment lengths to `base`.
pub open spec fn lem_len_sum(r0: Seq<RxDesc>, idx: int, n: int, i: nat, base: u16) -> u16
    decreases i,
{
    if i == 0 {
        base
    } else {
        wadd16(lem_len_sum(r0, idx, n, (i - 1) as nat, base), lem_at(r0, idx, n, (i - 1) as nat).length)
    }
}

/// The fragment recorded for scan slot `t`.
pub open spec fn lem_frag(r0: Seq<RxDesc>, idx: int, n: int, t: nat) -> IfRxdFrag {
    IfRxdFrag { irf_flid: 0, irf_idx: ring_pos(idx, t, n) as u16, irf_len: lem_at(r0, idx, n, t).length }
}

/// The outcome of scanning one legacy packet from `cidx`.
pub struct LemScan {
    pub ok: bool,
    pub frame_error: bool,
    pub nfrags: usize,
    pub last: usize,
    pub status: u32,
    pub errors: u32,
}

/// Walks the fragments of the packet at `cidx` in `ring`: records each
/// fragment, adds its length, clears its status byte, until the last
/// fragment (or a slot not written back, or in error).
fn lem_scan_packet(ring: &mut Vec<RxDesc>, cidx: usize, n: usize, ri: &mut IfRxdInfo) -> (r: LemScan)
    requires
        cidx < n <= old(ring)@.len(),
        n < 0x1_0000,
        old(ri).iri_frags@.len() >= n,
    ensures
        final(ring)@.len() == old(ring)@.len(),
        final(ri).iri_frags@.len() == old(ri).iri_frags@.len(),
        *final(ri) == (IfRxdInfo {
            iri_frags: final(ri).iri_frags,
            iri_len: final(ri).iri_len,
            ..*old(ri)
        }),
        r.ok ==> ({
            let t = (r.nfrags - 1) as nat;
            &&& 1 <= r.nfrags <= n
            &&& r.last < n
            &&& lem_good_end(old(ring)@, cidx as int, n as int, t)
            &&& r.last == ring_pos(cidx as int, t, n as int)
            &&& r.status == lem_at(old(ring)@, cidx as int, n as int, t).status as u32
            &&& r.errors == lem_at(old(ring)@, cidx as int, n as int, t).errors as u32
            &&& final(ring)@ == lem_cleared(old(ring)@, cidx as int, n as int, r.nfrags as int)
            &&& final(ri).iri_len == lem_len_sum(old(ring)@, cidx as int, n as int, r.nfrags as nat, old(ri).iri_len)
            &&& forall|u: int| 0 <= u < r.nfrags ==> #[trigger] final(ri).iri_frags@[u] == lem_frag(
                old(ring)@,
                cidx as int,
                n as int,
                u as nat,
            )
            &&& forall|u: int| r.nfrags <= u < final(ri).iri_frags@.len() ==> #[trigger] final(ri).iri_frags@[u]
                == old(ri).iri_frags@[u]
        }),
        !r.ok <==> !exists|t: nat| lem_good_end(old(ring)@, cidx as int, n as int, t),
        r.frame_error <==> lem_frame_error(old(ring)@, cidx as int, n as int),
{
    let ghost r0 = ring@;
    let ghost idx = cidx as int;
    let mut c = cidx;
    let mut i: usize = 0;
    loop
        invariant
            cidx < n <= r0.len(),
            n < 0x1_0000,
            r0 == old(ring)@,
            idx == cidx,
            i < n || (i == n && c == cidx),
            i <= n,
            c < n,
            c == ring_pos(idx, i as nat, n as int),
            ring@ == lem_cleared(r0, idx, n as int, i as int),
            forall|u: nat| u < i ==> !lem_ends(r0, idx, n as int, u),
            ri.iri_frags@.len() == old(ri).iri_frags@.len(),
            old(ri).iri_frags@.len() >= n,
            *ri == (IfRxdInfo { iri_frags: ri.iri_frags, iri_len: ri.iri_len, ..*old(ri) }),
            ri.iri_len == lem_len_sum(r0, idx, n as int, i as nat, old(ri).iri_len),
            forall|u: int| 0 <= u < i ==> #[trigger] ri.iri_frags@[u] == lem_frag(r0, idx, n as int, u as nat),
            forall|u: int| i <= u < ri.iri_frags@.len() ==> #[trigger] ri.iri_frags@[u] == old(ri).iri_frags@[u],
        decreases n - i,
    {
        proof {
            lemma_pos_closed(idx, i as nat, n as int);
        }
        let d = ring[c];
        let status = d.status as u32;
        let errors = d.errors as u32;
        if i == n {
            proof {
                assert(ring_dist(idx, c as int, n as int) == 0);
                assert(status == 0);
                assert forall|t: nat| !lem_good_end(r0, idx, n as int, t) by {}
                assert forall|t: nat| !lem_first_end(r0, idx, n as int, t) by {}
            }
            return LemScan { ok: false, frame_error: false, nfrags: i, last: c, status, errors };
        }
        proof {
            assert(ring_dist(idx, c as int, n as int) == i);
            assert(d == r0[c as int]);
        }
        if status & E1000_RXD_STAT_DD == 0 {
            proof {
                assert(lem_first_end(r0, idx, n as int, i as nat));
                assert forall|t: nat| !lem_good_end(r0, idx, n as int, t) by {
                    if t < i { } else if t > i { assert(lem_ends(r0, idx, n as int, i as nat)); }
                }
                assert forall|t: nat| !(lem_first_end(r0, idx, n as int, t) && (#[trigger] lem_at(r0, idx, n as int, t).status as u32) & E1000_RXD_STAT_DD != 0) by {
                    if t < i { } else if t > i { assert(lem_ends(r0, idx, n as int, i as nat)); }
                }
            }
            return LemScan { ok: false, frame_error: false, nfrags: i, last: c, status, errors };
        }
        let len = d.length;
        ri.iri_len = ri.iri_len.wrapping_add(len);
        let eop = status & E1000_RXD_STAT_EOP != 0;
        if errors & E1000_RXD_ERR_FRAME_ERR_MASK != 0 {
            proof {
                assert(lem_first_end(r0, idx, n as int, i as nat));
                assert forall|t: nat| !lem_good_end(r0, idx, n as int, t) by {
                    if t < i { } else if t > i { assert(lem_ends(r0, idx, n as int, i as nat)); }
                }
                assert((lem_at(r0, idx, n as int, i as nat).status as u32) & E1000_RXD_STAT_DD != 0);
            }
            return LemScan { ok: false, frame_error: true, nfrags: i, last: c, status, errors };
        }
        ri.iri_frags.set(i, IfRxdFrag { irf_flid: 0, irf_idx: c as u16, irf_len: len });
        ring.set(c, RxDesc { status: 0, ..d });
        proof {
            assert(ring@ =~= lem_cleared(r0, idx, n as int, (i + 1) as int)) by {
                assert forall|k: int| 0 <= k < r0.len() implies ring@[k] == lem_cleared(r0, idx, n as int, (i + 1) as int)[k] by {
                    if k == c as int {
                    } else if 0 <= k < n {
                        assert(ring_dist(idx, k, n as int) != i);
                    }
                }
            }
        }
        let last = c;
        c = c + 1;
        if c == n {
            c = 0;
        }
        i = i + 1;
        proof {
            lemma_pos_closed(idx, i as nat, n as int);
        }
        if eop {
            proof {
                let t = (i - 1) as nat;
                assert(lem_good_end(r0, idx, n as int, t));
                assert forall|u: nat| !(lem_first_end(r0, idx, n as int, u) && (#[trigger] lem_at(r0, idx, n as int, u).status as u32) & E1000_RXD_STAT_DD != 0 && (lem_at(r0, idx, n as int, u).errors as u32) & E1000_RXD_ERR_FRAME_ERR_MASK != 0) by {
                    if u < t { } else if u > t { assert(lem_ends(r0, idx, n as int, t)); }
                }
            }
            return LemScan { ok: true, frame_error: false, nfrags: i, last, status, errors };
        }
    }
}



/// What a good legacy packet whose last slot is `t` gives the packet
/// description (from `o` to `f`).
pub open spec fn lem_pkt_info_ok(r0: Seq<RxDesc>, idx: int, n: int, t: nat, o: IfRxdInfo, f: IfRxdInfo, t_mac: MacType) -> bool {
    let d = lem_at(r0, idx, n, t);
    let s = d.status as u32;
    let e = d.errors as u32;
    let vp = s & E1000_RXD_STAT_VP != 0;
    let m = t + 1;
    let csum = mac_rank(t_mac) >= 2 && s & E1000_RXD_STAT_IXSM == 0;
    let f1 = if s & E1000_RXD_STAT_IPCS != 0 && e & E1000_RXD_ERR_IPE == 0 {
        CSUM_IP_CHECKED | CSUM_IP_VALID
    } else {
        o.iri_csum_flags
    };
    let tcp = s & E1000_RXD_STAT_TCPCS != 0 && e & E1000_RXD_ERR_TCPE == 0;
    &&& f.iri_nfrags == m as u8
    &&& f.iri_len == lem_len_sum(r0, idx, n, m as nat, o.iri_len)
    &&& f.iri_frags@.len() == o.iri_frags@.len()
    &&& forall|u: int| 0 <= u < m ==> #[trigger] f.iri_frags@[u] == lem_frag(r0, idx, n, u as nat)
    &&& forall|u: int| m <= u < f.iri_frags@.len() ==> #[trigger] f.iri_frags@[u] == o.iri_frags@[u]
    &&& f.iri_vtag == if vp { d.special } else { o.iri_vtag }
    &&& f.iri_flags == if vp { o.iri_flags | M_VLANTAG } else { o.iri_flags }
    &&& f.iri_csum_flags == if csum {
        if tcp { f1 | CSUM_DATA_VALID | CSUM_PSEUDO_HDR } else { f1 }
    } else {
        o.iri_csum_flags
    }
    &&& f.iri_csum_data == if csum && tcp { 0xffff } else { o.iri_csum_data }
    &&& f.iri_flowid == o.iri_flowid
    &&& f.iri_rsstype == o.iri_rsstype
    &&& f.iri_qsidx == o.iri_qsidx
    &&& f.iri_cidx == o.iri_cidx
}

impl<P: Platform> Adapter<P> {
    /// Takes the packet at slot `iri_cidx` of the legacy ring of queue
    /// `iri_qsidx` (as `em_rxd_pkt_get`, on legacy descriptors): walks its
    /// fragments, clearing each status; records the VLAN tag and (on the
    /// 82543 and later, unless the checksum was ignored) the checksum
    /// verdict of the last fragment (`lem_pkt_info_ok`). Answers 0, or 89
    /// when a slot was not written back or the packet has a frame error
    /// (counted as dropped).
    #[verifier::spinoff_prover]
    #[verifier::rlimit(50)]
    pub fn lem_rxd_pkt_get(&mut self, ri: &mut IfRxdInfo) -> (r: i32)
        requires
            old(ri).iri_qsidx < old(self).rx_queues@.len(),
            0 < old(self).iflib_shared.isc_nrxd0 < 0x1_0000,
            old(ri).iri_cidx < old(self).iflib_shared.isc_nrxd0,
            old(self).iflib_shared.isc_nrxd0 <= old(self).rx_queues@[old(ri).iri_qsidx as int].rxr.rx_base_legacy@.len(),
            old(ri).iri_frags@.len() >= old(self).iflib_shared.isc_nrxd0,
            old(self).dropped_pkts < u64::MAX,
        ensures
            ({
                let q = old(ri).iri_qsidx as int;
                let r0 = old(self).rx_queues@[q].rxr.rx_base_legacy@;
                let idx = old(ri).iri_cidx as int;
                let n = old(self).iflib_shared.isc_nrxd0 as int;
                let fe = lem_frame_error(r0, idx, n);
                &&& r == 0 || r == 89
                &&& (r == 0 <==> exists|t: nat| lem_good_end(r0, idx, n, t))
                &&& *final(self) == (Adapter {
                    rx_queues: final(self).rx_queues,
                    dropped_pkts: if fe { (old(self).dropped_pkts + 1) as u64 } else { old(self).dropped_pkts },
                    ..*old(self)
                })
                &&& final(self).rx_queues@.len() == old(self).rx_queues@.len()
                &&& forall|k: int| 0 <= k < old(self).rx_queues@.len() && k != q ==> #[trigger] final(self).rx_queues@[k] == old(self).rx_queues@[k]
                &&& r == 0 ==> forall|t: nat| lem_good_end(r0, idx, n, t) ==> {
                    &&& final(self).rx_queues@[q] == (RxQueue {
                        rxr: RxRing { rx_base_legacy: final(self).rx_queues@[q].rxr.rx_base_legacy, ..old(self).rx_queues@[q].rxr },
                        ..old(self).rx_queues@[q]
                    })
                    &&& final(self).rx_queues@[q].rxr.rx_base_legacy@ == lem_cleared(r0, idx, n, t + 1int)
                    &&& lem_pkt_info_ok(r0, idx, n, t, *old(ri), *final(ri), old(self).hw.mac.mac_type)
                }
            }),
    {
        let q = ri.iri_qsidx as usize;
        let n = self.iflib_shared.isc_nrxd0 as usize;
        let cidx = ri.iri_cidx as usize;
        let mut rq = self.rx_queues.remove(q);
        let ghost rq0 = rq;
        let sc = lem_scan_packet(&mut rq.rxr.rx_base_legacy, cidx, n, ri);
        if !sc.ok {
            put_back_rx_queue(&mut self.rx_queues, q, rq);
            if sc.frame_error {
                count_drop(self);
            }
            proof {
                assert forall|k: int| 0 <= k < old(self).rx_queues@.len() && k != q implies #[trigger] self.rx_queues@[k] == old(self).rx_queues@[k] by {
                    if k < q { } else { }
                }
            }
            return 89;
        }
        let d = rq.rxr.rx_base_legacy[sc.last];
        if sc.status & E1000_RXD_STAT_VP != 0 {
            ri.iri_vtag = d.special;
            ri.iri_flags = ri.iri_flags | M_VLANTAG;
        }
        put_back_rx_queue(&mut self.rx_queues, q, rq);
        if self.hw.mac.mac_type.rank() >= 2 && sc.status & E1000_RXD_STAT_IXSM == 0 {
            lem_receive_checksum(sc.status, sc.errors, ri);
        }
        ri.iri_nfrags = sc.nfrags as u8;
        proof {
            assert forall|k: int| 0 <= k < old(self).rx_queues@.len() && k != q implies #[trigger] self.rx_queues@[k] == old(self).rx_queues@[k] by {
                if k < q { } else { }
            }
            assert(!lem_frame_error(rq0.rxr.rx_base_legacy@, cidx as int, n as int));
            assert forall|t: nat| lem_good_end(rq0.rxr.rx_base_legacy@, cidx as int, n as int, t) implies t == (sc.nfrags - 1) as nat by {
                let t0 = (sc.nfrags - 1) as nat;
                if t < t0 {
                    assert(lem_ends(rq0.rxr.rx_base_legacy@, cidx as int, n as int, t));
                } else if t > t0 {
                    assert(lem_ends(rq0.rxr.rx_base_legacy@, cidx as int, n as int, t0));
                }
            }
        }
        0
    }
}

// ------------------------------------------------------------ transmit completion

/// The status byte of a transmit descriptor.
pub open spec fn txd_status(d: TxDesc) -> u8 {
    (d.upper & 0xff) as u8
}

/// Whether the transmit descriptor at `cur` was written back (done).
pub open spec fn txd_done(ring: Seq<TxDesc>, cur: int) -> bool {
    txd_status(ring[cur]) & E1000_TXD_STAT_DD != 0
}

/// A ring size is a power of two (below 2^16).
pub open spec fn pow2_ring(n: int) -> bool {
    exists|k: u16| k < 16 && n == (1u16 << k) as int
}

/// The descriptors cleaned from `prev` to `cur` on a ring of `n`.
pub open spec fn credit_delta(cur: int, prev: int, n: int) -> int {
    if cur - prev < 0 {
        cur - prev + n
    } else {
        cur - prev
    }
}

/// The report-status walk from entry `j` (whose descriptor is known done)
/// with `prev` the last cleaned index: answers the descriptors cleaned,
/// the next entry to look at and the new last cleaned index. The walk
/// stops at the producer entry `pidx` or at the first entry whose
/// descriptor is not done.
pub open spec fn credit_walk(rsq: Seq<u16>, ring: Seq<TxDesc>, j: int, prev: int, pidx: int, n: int) -> (
    int,
    int,
    int,
)
    decreases ring_dist(j, pidx, n),
    when 0 <= j < n && 0 <= pidx < n && j != pidx
{
    let cur = rsq[j] as int;
    let d = credit_delta(cur, prev, n);
    let j2 = ring_next(j, n);
    if j2 == pidx || !txd_done(ring, rsq[j2] as int) {
        (d, j2, cur)
    } else {
        let r = credit_walk(rsq, ring, j2, cur, pidx, n);
        (d + r.0, r.1, r.2)
    }
}

/// On a power-of-two ring, masking the incremented index wraps it.
proof fn lemma_mask_next(j: u16, n: u16)
    requires
        pow2_ring(n as int),
        j < n,
    ensures
        ((j + 1) as u16) & ((n - 1) as u16) == ring_next(j as int, n as int),
{
    let k = choose|k: u16| k < 16 && n as int == (1u16 << k) as int;
    assert(((j + 1) as u16) & ((n - 1) as u16) == if j + 1 == n { 0u16 } else { (j + 1) as u16 }) by (bit_vector)
        requires
            k < 16,
            n == 1u16 << k,
            j < n,
    ;
}

/// A power-of-two ring has at most 2^15 slots.
proof fn lemma_pow2_bound(n: u16)
    requires
        pow2_ring(n as int),
    ensures
        1 <= n <= 0x8000,
{
    let k = choose|k: u16| k < 16 && n as int == (1u16 << k) as int;
    assert(1 <= n <= 0x8000) by (bit_vector)
        requires
            k < 16,
            n == 1u16 << k,
    ;
}

/// The set of report-status entries from `c` up to `p` (exclusive) on a
/// ring of `n`.
pub open spec fn in_rs_range(k: int, c: int, p: int, n: int) -> bool {
    0 <= k < n && ring_dist(c, k, n) < ring_dist(c, p, n)
}

/// The report-status entries awaiting completion name descriptors of the
/// ring, and each differs from the one cleaned before it (unless that was
/// index 0).
pub open spec fn rs_queue_ok(txr: TxRing, n: int) -> bool {
    let c = txr.tx_rs_cidx as int;
    let p = txr.tx_rs_pidx as int;
    &&& forall|k: int| #[trigger] in_rs_range(k, c, p, n) ==> (txr.tx_rsq@[k] as int) < n
    &&& c != p ==> (txr.tx_cidx_processed == 0 || txr.tx_rsq@[c] != txr.tx_cidx_processed)
    &&& forall|k: int|
        #[trigger] in_rs_range(k, c, p, n) && k != c ==> {
            let pk = if k == 0 { n - 1 } else { k - 1 };
            txr.tx_rsq@[pk] == 0 || txr.tx_rsq@[k] != txr.tx_rsq@[pk]
        }
}

/// Walks the report-status queue of a ring (`credit_walk`), answering the
/// cleaned count (wrapped to 16 bits), the next entry and the last cleaned
/// index.
fn walk_credits(txr: &TxRing, n: u16) -> (r: (u16, u16, u16))
    requires
        pow2_ring(n as int),
        txr.tx_rs_cidx < n,
        txr.tx_rs_pidx < n,
        txr.tx_rs_cidx != txr.tx_rs_pidx,
        txr.tx_cidx_processed < n,
        n <= txr.tx_base@.len(),
        n <= txr.tx_rsq@.len(),
        rs_queue_ok(*txr, n as int),
    ensures
        ({
            let w = credit_walk(
                txr.tx_rsq@,
                txr.tx_base@,
                txr.tx_rs_cidx as int,
                txr.tx_cidx_processed as int,
                txr.tx_rs_pidx as int,
                n as int,
            );
            &&& r.0 as int == w.0 % 0x1_0000
            &&& r.1 as int == w.1
            &&& r.2 as int == w.2
        }),
{
    let ghost rsq = txr.tx_rsq@;
    let ghost ring = txr.tx_base@;
    let ghost c0 = txr.tx_rs_cidx as int;
    let ghost p = txr.tx_rs_pidx as int;
    let ghost w0 = credit_walk(rsq, ring, c0, txr.tx_cidx_processed as int, p, n as int);
    let mut j = txr.tx_rs_cidx;
    let mut prev = txr.tx_cidx_processed;
    let mut cur = txr.tx_rsq[j as usize];
    let mut processed: u16 = 0;
    proof {
        lemma_pow2_bound(n);
        assert(in_rs_range(j as int, c0, p, n as int));
        assert((rsq[j as int] as int) < n);
    }
    let ghost mut acc: int = 0;
    loop
        invariant_except_break
            pow2_ring(n as int),
            j < n,
            0 <= p < n,
            j != p,
            n <= ring.len(),
            n <= rsq.len(),
            rsq == txr.tx_rsq@,
            ring == txr.tx_base@,
            p == txr.tx_rs_pidx,
            c0 == txr.tx_rs_cidx,
            rs_queue_ok(*txr, n as int),
            1 <= n <= 0x8000,
            in_rs_range(j as int, c0, p, n as int),
            cur == rsq[j as int],
            (cur as int) < n,
            prev < n,
            processed as int == acc % 0x1_0000,
            acc >= 0,
            ({
                let w = credit_walk(rsq, ring, j as int, prev as int, p, n as int);
                w0 == (acc + w.0, w.1, w.2)
            }),
        ensures
            processed as int == w0.0 % 0x1_0000,
            j as int == w0.1,
            prev as int == w0.2,
        decreases ring_dist(j as int, p, n as int),
    {
        let ghost wj = credit_walk(rsq, ring, j as int, prev as int, p, n as int);
        let delta: u16 = if cur < prev {
            cur + n - prev
        } else {
            cur - prev
        };
        processed = processed.wrapping_add(delta);
        proof {
            acc = acc + credit_delta(cur as int, prev as int, n as int);
            lemma_mask_next(j, n);
        }
        prev = cur;
        j = (j + 1) & (n - 1);
        if j == txr.tx_rs_pidx {
            break;
        }
        cur = txr.tx_rsq[j as usize];
        proof {
            assert(in_rs_range(j as int, c0, p, n as int));
            assert((rsq[j as int] as int) < n);
        }
        if !txd_is_done(&txr.tx_base[cur as usize]) {
            break;
        }
    }
    (processed, j, prev)
}

/// Whether a transmit descriptor was written back (`txd_done`).
fn txd_is_done(d: &TxDesc) -> (r: bool)
    ensures
        r == (txd_status(*d) & E1000_TXD_STAT_DD != 0),
{
    ((d.upper & 0xff) as u8) & E1000_TXD_STAT_DD != 0
}

/// Records the new report-status position and last cleaned index of
/// transmit queue `q`.
fn set_rs_progress(queues: &mut Vec<TxQueue>, q: usize, cidx: u16, processed: u16)
    requires
        q < old(queues)@.len(),
    ensures
        final(queues)@ == old(queues)@.update(
            q as int,
            TxQueue {
                txr: TxRing {
                    tx_rs_cidx: cidx,
                    tx_cidx_processed: processed,
                    ..old(queues)@[q as int].txr
                },
                ..old(queues)@[q as int]
            },
        ),
{
    let mut tq = queues.remove(q);
    tq.txr.tx_rs_cidx = cidx;
    tq.txr.tx_cidx_processed = processed;
    queues.insert(q, tq);
    proof {
        assert(queues@ =~= old(queues)@.update(
            q as int,
            TxQueue {
                txr: TxRing {
                    tx_rs_cidx: cidx,
                    tx_cidx_processed: processed,
                    ..old(queues)@[q as int].txr
                },
                ..old(queues)@[q as int]
            },
        ));
    }
}

impl<P: Platform> Adapter<P> {
    /// Reports transmit completion on queue `txqid`: with nothing awaiting
    /// completion, 0; otherwise whether the oldest awaited descriptor is
    /// done. When `clear` is set and it is, walks the report-status queue
    /// (`credit_walk`) and answers the number of descriptors cleaned,
    /// recording the new report-status position and last cleaned index.
    pub fn em_txd_credits_update(&mut self, txqid: u16, clear: bool) -> (r: i32)
        requires
            txqid < old(self).tx_queues@.len(),
            0 < old(self).iflib_shared.isc_ntxd0 < 0x1_0000,
            pow2_ring(old(self).iflib_shared.isc_ntxd0 as int),
            ({
                let txr = old(self).tx_queues@[txqid as int].txr;
                let n = old(self).iflib_shared.isc_ntxd0 as int;
                &&& txr.tx_rs_cidx < n
                &&& txr.tx_rs_pidx < n
                &&& txr.tx_cidx_processed < n
                &&& n <= txr.tx_base@.len()
                &&& n <= txr.tx_rsq@.len()
                &&& rs_queue_ok(txr, n)
            }),
        ensures
            ({
                let txr = old(self).tx_queues@[txqid as int].txr;
                let n = old(self).iflib_shared.isc_ntxd0 as int;
                let c = txr.tx_rs_cidx as int;
                let upd = txd_done(txr.tx_base@, txr.tx_rsq@[c] as int);
                let w = credit_walk(
                    txr.tx_rsq@,
                    txr.tx_base@,
                    c,
                    txr.tx_cidx_processed as int,
                    txr.tx_rs_pidx as int,
                    n,
                );
                &&& txr.tx_rs_cidx == txr.tx_rs_pidx ==> r == 0 && *final(self) == *old(self)
                &&& txr.tx_rs_cidx != txr.tx_rs_pidx && (!clear || !upd) ==> r == (if upd { 1i32 } else { 0 })
                    && *final(self) == *old(self)
                &&& txr.tx_rs_cidx != txr.tx_rs_pidx && clear && upd ==> r == w.0 % 0x1_0000
                    && *final(self) == (Adapter { tx_queues: final(self).tx_queues, ..*old(self) })
                    && final(self).tx_queues@ == old(self).tx_queues@.update(
                    txqid as int,
                    TxQueue {
                        txr: TxRing {
                            tx_rs_cidx: w.1 as u16,
                            tx_cidx_processed: w.2 as u16,
                            ..txr
                        },
                        ..old(self).tx_queues@[txqid as int]
                    },
                )
            }),
    {
        let n = self.iflib_shared.isc_ntxd0 as u16;
        let q = txqid as usize;
        if self.tx_queues[q].txr.tx_rs_cidx == self.tx_queues[q].txr.tx_rs_pidx {
            return 0;
        }
        let c = self.tx_queues[q].txr.tx_rs_cidx as usize;
        let cur = self.tx_queues[q].txr.tx_rsq[c] as usize;
        proof {
            assert(in_rs_range(c as int, c as int, self.tx_queues@[q as int].txr.tx_rs_pidx as int, n as int));
        }
        let upd = txd_is_done(&self.tx_queues[q].txr.tx_base[cur]);
        if !clear || !upd {
            return if upd {
                1
            } else {
                0
            };
        }
        let (processed, j, prev) = walk_credits(&self.tx_queues[q].txr, n);
        set_rs_progress(&mut self.tx_queues, q, j, prev);
        processed as i32
    }
}

// ------------------------------------------------------------ offload contexts

/// The checksum setup word of a context descriptor: start, offset of the
/// checksum, end.
pub open spec fn csum_setup(start: u8, off: u8, end: u16) -> u32 {
    start as u32 | ((off as u32) << 8u32) | ((end as u32) << 16u32)
}

/// The checksum setup word of a context descriptor (`csum_setup`).
fn make_csum_setup(start: u8, off: u8, end: u16) -> (r: u32)
    ensures
        r == csum_setup(start, off, end),
{
    start as u32 | ((off as u32) << 8u32) | ((end as u32) << 16u32)
}

/// The address word of a context descriptor with the IP setup `ip` in the
/// low half and the TCP/UDP setup `tu` in the high half.
pub open spec fn ctx_addr(ip: u32, tu: u32) -> u64 {
    ip as u64 | ((tu as u64) << 32u64)
}

/// The address word with its low half replaced by `ip`.
pub open spec fn with_ip_setup(a: u64, ip: u32) -> u64 {
    (a & 0xffff_ffff_0000_0000u64) | ip as u64
}

/// The address word with its high half replaced by `tu`.
pub open spec fn with_tu_setup(a: u64, tu: u32) -> u64 {
    (a & 0xffff_ffffu64) | ((tu as u64) << 32u64)
}

/// The segmentation setup word: status kept from `old`, header length and
/// MSS.
pub open spec fn seg_setup(old: u32, hdr_len: u8, mss: u16) -> u32 {
    (old & 0xff) | ((hdr_len as u32) << 8u32) | ((mss as u32) << 16u32)
}

/// The TSO context descriptor of a packet (`old` is the slot's previous
/// content, `cmd` the transmit command).
pub open spec fn tso_ctx(pi: IfPacketInfo, old: TxDesc, cmd: u32) -> TxDesc {
    let e = pi.ipi_ehdrlen;
    let ip = pi.ipi_ip_hlen;
    let hdr_len = (e + ip + pi.ipi_tcp_hlen) as u8;
    TxDesc {
        buffer_addr: ctx_addr(
            csum_setup(e, (e + 10) as u8, (e + ip - 1) as u16),
            csum_setup((e + ip) as u8, (e + ip + 16) as u8, 0),
        ),
        lower: cmd | E1000_TXD_CMD_DEXT | E1000_TXD_CMD_TSE | E1000_TXD_CMD_IP | E1000_TXD_CMD_TCP | (
        pi.ipi_len - hdr_len) as u32,
        upper: seg_setup(old.upper, hdr_len, pi.ipi_tso_segsz),
    }
}

/// The headers of a packet fit the descriptor fields of a TSO context.
pub open spec fn tso_fits(pi: IfPacketInfo) -> bool {
    &&& pi.ipi_ehdrlen + pi.ipi_ip_hlen + pi.ipi_tcp_hlen + 16 <= 255
    &&& pi.ipi_ehdrlen + pi.ipi_ip_hlen >= 1
    &&& pi.ipi_len >= pi.ipi_ehdrlen + pi.ipi_ip_hlen + pi.ipi_tcp_hlen
}

/// Replaces slot `i` of the ring of transmit queue `q`.
fn set_tx_desc(queues: &mut Vec<TxQueue>, q: usize, i: usize, d: TxDesc)
    requires
        q < old(queues)@.len(),
        i < old(queues)@[q as int].txr.tx_base@.len(),
    ensures
        final(queues)@.len() == old(queues)@.len(),
        forall|k: int| 0 <= k < old(queues)@.len() && k != q ==> #[trigger] final(queues)@[k] == old(queues)@[k],
        final(queues)@[q as int] == (TxQueue {
            txr: TxRing { tx_base: final(queues)@[q as int].txr.tx_base, ..old(queues)@[q as int].txr },
            ..old(queues)@[q as int]
        }),
        final(queues)@[q as int].txr.tx_base@ == old(queues)@[q as int].txr.tx_base@.update(i as int, d),
{
    let mut tq = queues.remove(q);
    tq.txr.tx_base.set(i, d);
    queues.insert(q, tq);
    proof {
        assert forall|k: int| 0 <= k < old(queues)@.len() && k != q implies #[trigger] queues@[k] == old(queues)@[k] by {
            if k < q { } else { }
        }
    }
}

/// Marks whether transmit queue `q` is in a TSO burst.
fn set_tx_tso(queues: &mut Vec<TxQueue>, q: usize, v: bool)
    requires
        q < old(queues)@.len(),
    ensures
        final(queues)@ == old(queues)@.update(
            q as int,
            TxQueue { txr: TxRing { tx_tso: v, ..old(queues)@[q as int].txr }, ..old(queues)@[q as int] },
        ),
{
    let mut tq = queues.remove(q);
    tq.txr.tx_tso = v;
    queues.insert(q, tq);
    proof {
        assert(queues@ =~= old(queues)@.update(
            q as int,
            TxQueue { txr: TxRing { tx_tso: v, ..old(queues)@[q as int].txr }, ..old(queues)@[q as int] },
        ));
    }
}

impl<P: Platform> Adapter<P> {
    /// Writes the TSO context descriptor of packet `pi` (`tso_ctx`) at its
    /// producer slot, sets the data-descriptor command and options for
    /// segmentation with IP and TCP checksum insertion, marks the queue as
    /// in a TSO burst, and answers the next slot.
    pub fn tso_setup(&mut self, pi: &IfPacketInfo, txd_upper: &mut u32, txd_lower: &mut u32) -> (r: u16)
        requires
            pi.ipi_qsidx < old(self).tx_queues@.len(),
            0 < old(self).iflib_shared.isc_ntxd0 < 0x1_0000,
            pi.ipi_pidx < old(self).iflib_shared.isc_ntxd0,
            old(self).iflib_shared.isc_ntxd0 <= old(self).tx_queues@[pi.ipi_qsidx as int].txr.tx_base@.len(),
            tso_fits(*pi),
        ensures
            ({
                let q = pi.ipi_qsidx as int;
                let oq = old(self).tx_queues@[q];
                let ring = oq.txr.tx_base@;
                let i = pi.ipi_pidx as int;
                &&& r as int == ring_next(i, old(self).iflib_shared.isc_ntxd0 as int)
                &&& *final(txd_lower) == E1000_TXD_CMD_DEXT | E1000_TXD_DTYP_D | E1000_TXD_CMD_TSE
                &&& *final(txd_upper) == (E1000_TXD_POPTS_IXSM | E1000_TXD_POPTS_TXSM) << 8u32
                &&& *final(self) == (Adapter { tx_queues: final(self).tx_queues, ..*old(self) })
                &&& final(self).tx_queues@.len() == old(self).tx_queues@.len()
                &&& forall|k: int| 0 <= k < old(self).tx_queues@.len() && k != q ==> #[trigger] final(self).tx_queues@[k] == old(self).tx_queues@[k]
                &&& final(self).tx_queues@[q] == (TxQueue {
                    txr: TxRing { tx_base: final(self).tx_queues@[q].txr.tx_base, tx_tso: true, ..oq.txr },
                    ..oq
                })
                &&& final(self).tx_queues@[q].txr.tx_base@ == ring.update(i, tso_ctx(*pi, ring[i], old(self).txd_cmd))
            }),
    {
        let q = pi.ipi_qsidx as usize;
        let cur = pi.ipi_pidx as usize;
        let e = pi.ipi_ehdrlen;
        let ip = pi.ipi_ip_hlen;
        let hdr_len: u8 = e + ip + pi.ipi_tcp_hlen;
        *txd_lower = E1000_TXD_CMD_DEXT | E1000_TXD_DTYP_D | E1000_TXD_CMD_TSE;
        *txd_upper = (E1000_TXD_POPTS_IXSM | E1000_TXD_POPTS_TXSM) << 8u32;
        let old_d = self.tx_queues[q].txr.tx_base[cur];
        let ip_setup = make_csum_setup(e, e + 10, (e + ip - 1) as u16);
        let tu_setup = make_csum_setup(e + ip, e + ip + 16, 0);
        let d = TxDesc {
            buffer_addr: ip_setup as u64 | ((tu_setup as u64) << 32u64),
            lower: self.txd_cmd | E1000_TXD_CMD_DEXT | E1000_TXD_CMD_TSE | E1000_TXD_CMD_IP
                | E1000_TXD_CMD_TCP | (pi.ipi_len - hdr_len as u32),
            upper: (old_d.upper & 0xff) | ((hdr_len as u32) << 8u32) | ((pi.ipi_tso_segsz as u32) << 16u32),
        };
        set_tx_desc(&mut self.tx_queues, q, cur, d);
        let ghost mid = self.tx_queues@;
        set_tx_tso(&mut self.tx_queues, q, true);
        proof {
            assert forall|k: int| 0 <= k < old(self).tx_queues@.len() && k != q implies #[trigger] self.tx_queues@[k] == old(self).tx_queues@[k] by {
                assert(self.tx_queues@[k] == mid[k]);
            }
        }
        let mut next: u16 = pi.ipi_pidx + 1;
        if next as i32 == self.iflib_shared.isc_ntxd0 {
            next = 0;
        }
        next
    }
}

/// The checksum context descriptor of a packet with checksum flags `f`:
/// the IP setup when IP checksumming is asked, the TCP/UDP setup when TCP
/// or UDP checksumming is, segmentation word cleared, and the command.
pub open spec fn csum_ctx(pi: IfPacketInfo, old: TxDesc, cmd: u32) -> TxDesc {
    let f = pi.ipi_csum_flags;
    let e = pi.ipi_ehdrlen;
    let hdr_len = (e + pi.ipi_ip_hlen) as u8;
    let a1 = if f & CSUM_IP != 0 {
        with_ip_setup(old.buffer_addr, csum_setup(e, (e + 10) as u8, hdr_len as u16))
    } else {
        old.buffer_addr
    };
    let a2 = if f & (CSUM_TCP | CSUM_UDP) != 0 {
        with_tu_setup(a1, csum_setup(hdr_len, if f & CSUM_TCP != 0 { (hdr_len + 16) as u8 } else { (hdr_len + 6) as u8 }, 0))
    } else {
        a1
    };
    let c1 = if f & CSUM_IP != 0 { cmd | E1000_TXD_CMD_IP } else { cmd };
    let c2 = if f & (CSUM_TCP | CSUM_UDP) != 0 && f & CSUM_TCP != 0 { c1 | E1000_TXD_CMD_TCP } else { c1 };
    TxDesc { buffer_addr: a2, lower: E1000_TXD_CMD_IFCS | E1000_TXD_CMD_DEXT | c2, upper: 0 }
}

/// The data-descriptor options of a checksum context: IP and/or TCP/UDP
/// checksum insertion added to `upper`.
pub open spec fn csum_upper(f: u32, upper: u32) -> u32 {
    let u1 = if f & CSUM_IP != 0 { upper | (E1000_TXD_POPTS_IXSM << 8u32) } else { upper };
    if f & (CSUM_TCP | CSUM_UDP) != 0 { u1 | (E1000_TXD_POPTS_TXSM << 8u32) } else { u1 }
}

/// The data-descriptor command of a checksum context.
pub open spec fn csum_lower(f: u32, lower: u32) -> u32 {
    if f & (CSUM_TCP | CSUM_UDP) != 0 { E1000_TXD_CMD_DEXT | E1000_TXD_DTYP_D } else { lower }
}

/// Whether queue `txr` already holds the checksum context packet `pi`
/// needs (only checked with a single transmit queue).
pub open spec fn csum_ctx_reusable(txr: TxRing, pi: IfPacketInfo, ntxqsets: i32) -> bool {
    ntxqsets == 1 && txr.csum_lhlen == pi.ipi_ehdrlen as i32 && txr.csum_iphlen == pi.ipi_ip_hlen as i32
        && txr.csum_flags == pi.ipi_csum_flags as i32
}

/// Records the checksum context programmed in transmit queue `q`.
fn remember_csum(queues: &mut Vec<TxQueue>, q: usize, pi: &IfPacketInfo, upper: u32, lower: u32)
    requires
        q < old(queues)@.len(),
    ensures
        final(queues)@ == old(queues)@.update(
            q as int,
            TxQueue {
                txr: TxRing {
                    csum_lhlen: pi.ipi_ehdrlen as i32,
                    csum_iphlen: pi.ipi_ip_hlen as i32,
                    csum_flags: pi.ipi_csum_flags as i32,
                    csum_txd_upper: upper,
                    csum_txd_lower: lower,
                    ..old(queues)@[q as int].txr
                },
                ..old(queues)@[q as int]
            },
        ),
{
    let mut tq = queues.remove(q);
    tq.txr.csum_lhlen = pi.ipi_ehdrlen as i32;
    tq.txr.csum_iphlen = pi.ipi_ip_hlen as i32;
    tq.txr.csum_flags = pi.ipi_csum_flags as i32;
    tq.txr.csum_txd_upper = upper;
    tq.txr.csum_txd_lower = lower;
    queues.insert(q, tq);
    proof {
        assert(queues@ =~= old(queues)@.update(
            q as int,
            TxQueue {
                txr: TxRing {
                    csum_lhlen: pi.ipi_ehdrlen as i32,
                    csum_iphlen: pi.ipi_ip_hlen as i32,
                    csum_flags: pi.ipi_csum_flags as i32,
                    csum_txd_upper: upper,
                    csum_txd_lower: lower,
                    ..old(queues)@[q as int].txr
                },
                ..old(queues)@[q as int]
            },
        ));
    }
}

impl<P: Platform> Adapter<P> {
    /// Sets up checksum offload for packet `pi`. With a single transmit
    /// queue whose last context matches the packet (`csum_ctx_reusable`),
    /// reuses that context's options and answers the producer slot.
    /// Otherwise writes the checksum context descriptor (`csum_ctx`) at the
    /// producer slot, adds the options (`csum_upper`, `csum_lower`),
    /// remembers the context, and answers the next slot.
    pub fn transmit_checksum_setup(&mut self, pi: &IfPacketInfo, txd_upper: &mut u32, txd_lower: &mut u32) -> (r: u16)
        requires
            pi.ipi_qsidx < old(self).tx_queues@.len(),
            0 < old(self).iflib_shared.isc_ntxd0 < 0x1_0000,
            pi.ipi_pidx < old(self).iflib_shared.isc_ntxd0,
            old(self).iflib_shared.isc_ntxd0 <= old(self).tx_queues@[pi.ipi_qsidx as int].txr.tx_base@.len(),
            pi.ipi_ehdrlen + pi.ipi_ip_hlen + 16 <= 255,
        ensures
            ({
                let q = pi.ipi_qsidx as int;
                let oq = old(self).tx_queues@[q];
                let ring = oq.txr.tx_base@;
                let i = pi.ipi_pidx as int;
                let f = pi.ipi_csum_flags;
                let reuse = csum_ctx_reusable(oq.txr, *pi, old(self).iflib_shared.isc_ntxqsets);
                &&& reuse ==> r == pi.ipi_pidx && *final(self) == *old(self)
                    && *final(txd_upper) == oq.txr.csum_txd_upper && *final(txd_lower) == oq.txr.csum_txd_lower
                &&& !reuse ==> {
                    let up = csum_upper(f, *old(txd_upper));
                    let lo = csum_lower(f, *old(txd_lower));
                    &&& r as int == ring_next(i, old(self).iflib_shared.isc_ntxd0 as int)
                    &&& *final(txd_upper) == up
                    &&& *final(txd_lower) == lo
                    &&& *final(self) == (Adapter { tx_queues: final(self).tx_queues, ..*old(self) })
                    &&& final(self).tx_queues@.len() == old(self).tx_queues@.len()
                    &&& forall|k: int| 0 <= k < old(self).tx_queues@.len() && k != q ==> #[trigger] final(self).tx_queues@[k] == old(self).tx_queues@[k]
                    &&& final(self).tx_queues@[q] == (TxQueue {
                        txr: TxRing {
                            tx_base: final(self).tx_queues@[q].txr.tx_base,
                            csum_lhlen: pi.ipi_ehdrlen as i32,
                            csum_iphlen: pi.ipi_ip_hlen as i32,
                            csum_flags: f as i32,
                            csum_txd_upper: up,
                            csum_txd_lower: lo,
                            ..oq.txr
                        },
                        ..oq
                    })
                    &&& final(self).tx_queues@[q].txr.tx_base@ == ring.update(i, csum_ctx(*pi, ring[i], old(self).txd_cmd))
                }
            }),
    {
        let q = pi.ipi_qsidx as usize;
        let cur = pi.ipi_pidx as usize;
        let f = pi.ipi_csum_flags;
        let e = pi.ipi_ehdrlen;
        let hdr_len: u8 = e + pi.ipi_ip_hlen;
        let mut cmd = self.txd_cmd;
        if self.iflib_shared.isc_ntxqsets == 1 && self.tx_queues[q].txr.csum_lhlen == e as i32
            && self.tx_queues[q].txr.csum_iphlen == pi.ipi_ip_hlen as i32
            && self.tx_queues[q].txr.csum_flags == f as i32 {
            *txd_upper = self.tx_queues[q].txr.csum_txd_upper;
            *txd_lower = self.tx_queues[q].txr.csum_txd_lower;
            return pi.ipi_pidx;
        }
        let old_d = self.tx_queues[q].txr.tx_base[cur];
        let mut addr = old_d.buffer_addr;
        if f & CSUM_IP != 0 {
            *txd_upper = *txd_upper | (E1000_TXD_POPTS_IXSM << 8u32);
            let ip_setup = make_csum_setup(e, e + 10, hdr_len as u16);
            addr = (addr & 0xffff_ffff_0000_0000u64) | ip_setup as u64;
            cmd = cmd | E1000_TXD_CMD_IP;
        }
        if f & (CSUM_TCP | CSUM_UDP) != 0 {
            *txd_upper = *txd_upper | (E1000_TXD_POPTS_TXSM << 8u32);
            *txd_lower = E1000_TXD_CMD_DEXT | E1000_TXD_DTYP_D;
            let tucso: u8 = if f & CSUM_TCP != 0 {
                cmd = cmd | E1000_TXD_CMD_TCP;
                hdr_len + 16
            } else {
                hdr_len + 6
            };
            let tu_setup = make_csum_setup(hdr_len, tucso, 0);
            addr = (addr & 0xffff_ffffu64) | ((tu_setup as u64) << 32u64);
        }
        let d = TxDesc { buffer_addr: addr, lower: E1000_TXD_CMD_IFCS | E1000_TXD_CMD_DEXT | cmd, upper: 0 };
        set_tx_desc(&mut self.tx_queues, q, cur, d);
        let ghost mid = self.tx_queues@;
        remember_csum(&mut self.tx_queues, q, pi, *txd_upper, *txd_lower);
        proof {
            assert forall|k: int| 0 <= k < old(self).tx_queues@.len() && k != q implies #[trigger] self.tx_queues@[k] == old(self).tx_queues@[k] by {
                assert(self.tx_queues@[k] == mid[k]);
            }
        }
        let mut next: u16 = pi.ipi_pidx + 1;
        if next as i32 == self.iflib_shared.isc_ntxd0 {
            next = 0;
        }
        next
    }
}

// ------------------------------------------------------------ encapsulation

/// The ring with the descriptors `ds` written from slot `i0` on (wrapping
/// at `n`).
pub open spec fn ring_written(r: Seq<TxDesc>, i0: int, n: int, ds: Seq<TxDesc>) -> Seq<TxDesc> {
    Seq::new(
        r.len(),
        |k: int|
            if 0 <= k < n && ring_dist(i0, k, n) < ds.len() {
                ds[ring_dist(i0, k, n)]
            } else {
                r[k]
            },
    )
}

/// The data descriptor of a DMA segment.
pub open spec fn seg_desc(s: BusDmaSegment, cmd: u32, lower: u32, upper: u32) -> TxDesc {
    TxDesc { buffer_addr: s.ds_addr, lower: cmd | lower | s.ds_len as u32, upper }
}

/// The data descriptors of the first `nsegs` segments. With the TSO
/// sentinel workaround, a last segment longer than 8 bytes is split so
/// that its final 4 bytes go in a descriptor of their own.
pub open spec fn seg_descs(segs: Seq<BusDmaSegment>, nsegs: int, cmd: u32, lower: u32, upper: u32, sentinel: bool) -> Seq<TxDesc> {
    let plain = Seq::new(nsegs as nat, |j: int| seg_desc(segs[j], cmd, lower, upper));
    if sentinel && nsegs > 0 && segs[nsegs - 1].ds_len > 8 {
        let s = segs[nsegs - 1];
        let len = (s.ds_len - 4) as u64;
        plain.drop_last() + seq![
            TxDesc { buffer_addr: s.ds_addr, lower: cmd | lower | len as u32, upper },
            TxDesc { buffer_addr: (s.ds_addr + len) as u64, lower: cmd | lower | 4u32, upper },
        ]
    } else {
        plain
    }
}

/// Builds the data descriptors of a packet (`seg_descs`).
fn build_seg_descs(segs: &Vec<BusDmaSegment>, nsegs: usize, cmd: u32, lower: u32, upper: u32, sentinel: bool) -> (ds: Vec<TxDesc>)
    requires
        nsegs <= segs@.len(),
        forall|j: int| 0 <= j < nsegs ==> segs@[j].ds_addr + segs@[j].ds_len <= u64::MAX,
    ensures
        ds@ == seg_descs(segs@, nsegs as int, cmd, lower, upper, sentinel),
{
    let mut ds: Vec<TxDesc> = Vec::new();
    let mut j: usize = 0;
    while j < nsegs
        invariant
            nsegs <= segs@.len(),
            forall|k: int| 0 <= k < nsegs ==> segs@[k].ds_addr + segs@[k].ds_len <= u64::MAX,
            j <= nsegs,
            ds@ == Seq::new(j as nat, |k: int| seg_desc(segs@[k], cmd, lower, upper)),
        decreases nsegs - j,
    {
        let s = segs[j];
        ds.push(TxDesc { buffer_addr: s.ds_addr, lower: cmd | lower | s.ds_len as u32, upper });
        j = j + 1;
        proof {
            assert(ds@ =~= Seq::new(j as nat, |k: int| seg_desc(segs@[k], cmd, lower, upper)));
        }
    }
    if sentinel && nsegs > 0 && segs[nsegs - 1].ds_len > 8 {
        let s = segs[nsegs - 1];
        let len: u64 = s.ds_len - 4;
        let _ = ds.pop();
        ds.push(TxDesc { buffer_addr: s.ds_addr, lower: cmd | lower | len as u32, upper });
        ds.push(TxDesc { buffer_addr: s.ds_addr + len, lower: cmd | lower | 4u32, upper });
        proof {
            assert(ds@ =~= seg_descs(segs@, nsegs as int, cmd, lower, upper, sentinel));
        }
    }
    ds
}

/// Writes `ds` into the ring from slot `i0` on (`ring_written`); answers
/// the slot after the last one written.
fn write_ring(ring: &mut Vec<TxDesc>, i0: usize, n: usize, ds: &Vec<TxDesc>) -> (next: usize)
    requires
        i0 < n <= old(ring)@.len(),
        ds@.len() <= n,
    ensures
        final(ring)@ == ring_written(old(ring)@, i0 as int, n as int, ds@),
        next as int == ring_pos(i0 as int, ds@.len(), n as int),
        next < n,
{
    let ghost r0 = ring@;
    let mut i = i0;
    let mut t: usize = 0;
    while t < ds.len()
        invariant
            i0 < n <= r0.len(),
            r0 == old(ring)@,
            ds@.len() <= n,
            t <= ds@.len(),
            i < n,
            i as int == ring_pos(i0 as int, t as nat, n as int),
            ring@ == ring_written(r0, i0 as int, n as int, ds@.subrange(0, t as int)),
        decreases ds@.len() - t,
    {
        proof {
            lemma_pos_closed(i0 as int, t as nat, n as int);
        }
        ring.set(i, ds[t]);
        proof {
            assert(ring_dist(i0 as int, i as int, n as int) == t);
            assert(ring@ =~= ring_written(r0, i0 as int, n as int, ds@.subrange(0, t + 1))) by {
                assert forall|k: int| 0 <= k < r0.len() implies ring@[k] == ring_written(r0, i0 as int, n as int, ds@.subrange(0, t + 1))[k] by {
                    if k == i as int {
                    } else if 0 <= k < n {
                        assert(ring_dist(i0 as int, k, n as int) != t);
                    }
                }
            }
        }
        i = i + 1;
        if i == n {
            i = 0;
        }
        t = t + 1;
    }
    proof {
        assert(ds@.subrange(0, t as int) =~= ds@);
    }
    i
}

/// Marks descriptor `k` as the end of the packet, with the command bits
/// `flags` added.
fn mark_eop(ring: &mut Vec<TxDesc>, k: usize, flags: u32)
    requires
        k < old(ring)@.len(),
    ensures
        final(ring)@ == old(ring)@.update(
            k as int,
            TxDesc { lower: old(ring)@[k as int].lower | E1000_TXD_CMD_EOP | flags, ..old(ring)@[k as int] },
        ),
{
    let d = ring[k];
    ring.set(k, TxDesc { lower: d.lower | E1000_TXD_CMD_EOP | flags, ..d });
}

/// The ring after the data descriptors `ds` of a packet are written from
/// `i0` and the last one (`first` when there are none) is marked as the
/// end of the packet with `flags`.
pub open spec fn encap_ring(r: Seq<TxDesc>, first: int, i0: int, n: int, ds: Seq<TxDesc>, flags: u32) -> Seq<TxDesc> {
    let w = ring_written(r, i0, n, ds);
    let last = encap_last(first, i0, n, ds.len());
    w.update(last, TxDesc { lower: w[last].lower | E1000_TXD_CMD_EOP | flags, ..w[last] })
}

/// The slot of the last descriptor of a packet of `m` data descriptors
/// written from `i0` (`first` when there are none).
pub open spec fn encap_last(first: int, i0: int, n: int, m: nat) -> int {
    if m == 0 {
        first
    } else {
        ring_pos(i0, (m - 1) as nat, n)
    }
}

/// The data descriptors and end-of-packet mark of one packet, written
/// into a transmit ring; answers the slot of the last descriptor and the
/// slot after it.
fn write_packet(ring: &mut Vec<TxDesc>, first: usize, i0: usize, n: usize, ds: &Vec<TxDesc>, flags: u32) -> (r: (usize, usize))
    requires
        first < n,
        i0 < n <= old(ring)@.len(),
        ds@.len() <= n,
    ensures
        final(ring)@ == encap_ring(old(ring)@, first as int, i0 as int, n as int, ds@, flags),
        r.0 as int == encap_last(first as int, i0 as int, n as int, ds@.len()),
        r.1 as int == ring_pos(i0 as int, ds@.len(), n as int),
        r.0 < n,
{
    let next = write_ring(ring, i0, n, ds);
    let last = if ds.len() == 0 {
        first
    } else {
        proof {
            lemma_pos_closed(i0 as int, (ds@.len() - 1) as nat, n as int);
            lemma_pos_closed(i0 as int, ds@.len(), n as int);
        }
        ring_prev(next, n)
    };
    proof {
        if ds@.len() > 0 {
            lemma_pos_closed(i0 as int, (ds@.len() - 1) as nat, n as int);
            lemma_pos_closed(i0 as int, ds@.len(), n as int);
        }
    }
    mark_eop(ring, last, flags);
    (last, next)
}

/// The slot before `c` in a ring of `n` slots.
fn ring_prev(c: usize, n: usize) -> (r: usize)
    requires
        c < n,
    ensures
        r == if c == 0 { n - 1 } else { c - 1 },
{
    if c == 0 {
        n - 1
    } else {
        c - 1
    }
}

/// The transmit ring after the offload context of packet `pi` is set up
/// (before its data descriptors), but for its descriptors (`ctx_base`): a
/// pending TSO burst ends for a non-TSO packet; a TSO packet starts one; a
/// checksum-offload packet whose context is written has it remembered.
pub open spec fn ctx_ring(txr: TxRing, pi: IfPacketInfo, ntxqsets: i32) -> TxRing {
    let f = pi.ipi_csum_flags;
    let t1 = if f & CSUM_TSO == 0 && txr.tx_tso { TxRing { tx_tso: false, ..txr } } else { txr };
    if f & CSUM_TSO != 0 {
        TxRing { tx_tso: true, ..t1 }
    } else if f & EM_CSUM_OFFLOAD != 0 && !csum_ctx_reusable(t1, pi, ntxqsets) {
        TxRing {
            csum_lhlen: pi.ipi_ehdrlen as i32,
            csum_iphlen: pi.ipi_ip_hlen as i32,
            csum_flags: f as i32,
            csum_txd_upper: csum_upper(f, 0),
            csum_txd_lower: csum_lower(f, 0),
            ..t1
        }
    } else {
        t1
    }
}

/// The descriptors after the offload context of packet `pi` is written:
/// the TSO context (`tso_ctx`) or the checksum context (`csum_ctx`, unless
/// the last one can be reused) at the producer slot.
pub open spec fn ctx_base(txr: TxRing, pi: IfPacketInfo, ntxqsets: i32, cmd: u32) -> Seq<TxDesc> {
    let f = pi.ipi_csum_flags;
    let i = pi.ipi_pidx as int;
    let t1 = if f & CSUM_TSO == 0 && txr.tx_tso { TxRing { tx_tso: false, ..txr } } else { txr };
    if f & CSUM_TSO != 0 {
        txr.tx_base@.update(i, tso_ctx(pi, txr.tx_base@[i], cmd))
    } else if f & EM_CSUM_OFFLOAD != 0 && !csum_ctx_reusable(t1, pi, ntxqsets) {
        txr.tx_base@.update(i, csum_ctx(pi, txr.tx_base@[i], cmd))
    } else {
        txr.tx_base@
    }
}

/// The data-descriptor options (upper word) of packet `pi` after its
/// context is set up, before the VLAN tag.
pub open spec fn ctx_upper(txr: TxRing, pi: IfPacketInfo, ntxqsets: i32) -> u32 {
    let f = pi.ipi_csum_flags;
    let t1 = if f & CSUM_TSO == 0 && txr.tx_tso { TxRing { tx_tso: false, ..txr } } else { txr };
    if f & CSUM_TSO != 0 {
        (E1000_TXD_POPTS_IXSM | E1000_TXD_POPTS_TXSM) << 8u32
    } else if f & EM_CSUM_OFFLOAD != 0 {
        if csum_ctx_reusable(t1, pi, ntxqsets) { t1.csum_txd_upper } else { csum_upper(f, 0) }
    } else {
        0
    }
}

/// The data-descriptor command bits (lower word) of packet `pi` after its
/// context is set up, before the VLAN tag.
pub open spec fn ctx_lower(txr: TxRing, pi: IfPacketInfo, ntxqsets: i32) -> u32 {
    let f = pi.ipi_csum_flags;
    let t1 = if f & CSUM_TSO == 0 && txr.tx_tso { TxRing { tx_tso: false, ..txr } } else { txr };
    if f & CSUM_TSO != 0 {
        E1000_TXD_CMD_DEXT | E1000_TXD_DTYP_D | E1000_TXD_CMD_TSE
    } else if f & EM_CSUM_OFFLOAD != 0 {
        if csum_ctx_reusable(t1, pi, ntxqsets) { t1.csum_txd_lower } else { csum_lower(f, 0) }
    } else {
        0
    }
}

/// The slot of the first data descriptor of packet `pi`: after its
/// context descriptor when one is written.
pub open spec fn data_start(txr: TxRing, pi: IfPacketInfo, ntxqsets: i32, n: int) -> int {
    let f = pi.ipi_csum_flags;
    let t1 = if f & CSUM_TSO == 0 && txr.tx_tso { TxRing { tx_tso: false, ..txr } } else { txr };
    if f & CSUM_TSO != 0 || (f & EM_CSUM_OFFLOAD != 0 && !csum_ctx_reusable(t1, pi, ntxqsets)) {
        ring_next(pi.ipi_pidx as int, n)
    } else {
        pi.ipi_pidx as int
    }
}

/// Whether the last data segment is split with a sentinel: for TSO
/// packets, and for a one-segment packet right after a TSO burst.
pub open spec fn uses_sentinel(txr: TxRing, pi: IfPacketInfo) -> bool {
    pi.ipi_csum_flags & CSUM_TSO != 0 || (txr.tx_tso && pi.ipi_nsegs == 1)
}

/// The data descriptors of packet `pi` (`seg_descs` with the options of
/// its context and VLAN tag).
pub open spec fn packet_descs(txr: TxRing, pi: IfPacketInfo, ntxqsets: i32, cmd: u32) -> Seq<TxDesc> {
    let vlan = pi.ipi_mflags & M_VLANTAG != 0;
    let up0 = ctx_upper(txr, pi, ntxqsets);
    let lo0 = ctx_lower(txr, pi, ntxqsets);
    let up = if vlan { up0 | ((pi.ipi_vtag as u32) << 16u32) } else { up0 };
    let lo = if vlan { lo0 | E1000_TXD_CMD_VLE } else { lo0 };
    seg_descs(pi.ipi_segs@, pi.ipi_nsegs as int, E1000_TXD_CMD_IFCS | cmd, lo, up, uses_sentinel(txr, pi))
}

/// Records descriptor `last` in the report-status queue of `tq` and
/// advances its producer index (wrapping on a power-of-two ring).
fn push_rs(tq: &mut TxQueue, last: u16, n: u16)
    requires
        pow2_ring(n as int),
        old(tq).txr.tx_rs_pidx < n,
        (old(tq).txr.tx_rs_pidx as int) < old(tq).txr.tx_rsq@.len(),
    ensures
        *final(tq) == (TxQueue {
            txr: TxRing {
                tx_rsq: final(tq).txr.tx_rsq,
                tx_rs_pidx: ring_next(old(tq).txr.tx_rs_pidx as int, n as int) as u16,
                ..old(tq).txr
            },
            ..*old(tq)
        }),
        final(tq).txr.tx_rsq@ == old(tq).txr.tx_rsq@.update(old(tq).txr.tx_rs_pidx as int, last),
{
    let p = tq.txr.tx_rs_pidx;
    tq.txr.tx_rsq.set(p as usize, last);
    proof {
        lemma_mask_next(p, n);
    }
    tq.txr.tx_rs_pidx = (p + 1) & (n - 1);
}

impl<P: Platform> Adapter<P> {
    /// Encapsulates packet `pi` into its transmit ring: sets up its offload
    /// context (`ctx_ring`), writes its data descriptors (`packet_descs`)
    /// from `data_start`, marks the last as the end of the packet (with
    /// report status when the packet asks for an interrupt), records it in
    /// the report-status queue in that case, and stores the next producer
    /// slot in `ipi_new_pidx`. Answers 0.
    #[verifier::spinoff_prover]
    #[verifier::rlimit(50)]
    pub fn em_txd_encap(&mut self, pi: &mut IfPacketInfo) -> (r: i32)
        requires
            old(pi).ipi_qsidx < old(self).tx_queues@.len(),
            0 < old(self).iflib_shared.isc_ntxd0 < 0x1_0000,
            pow2_ring(old(self).iflib_shared.isc_ntxd0 as int),
            ({
                let txr = old(self).tx_queues@[old(pi).ipi_qsidx as int].txr;
                let n = old(self).iflib_shared.isc_ntxd0 as int;
                let f = old(pi).ipi_csum_flags;
                &&& old(pi).ipi_pidx < n
                &&& n <= txr.tx_base@.len()
                &&& old(pi).ipi_nsegs <= old(pi).ipi_segs@.len()
                &&& old(pi).ipi_nsegs + 2 <= n
                &&& forall|j: int| 0 <= j < old(pi).ipi_nsegs ==> old(pi).ipi_segs@[j].ds_addr + old(pi).ipi_segs@[j].ds_len <= u64::MAX
                &&& f & CSUM_TSO != 0 ==> tso_fits(*old(pi))
                &&& f & CSUM_TSO == 0 && f & EM_CSUM_OFFLOAD != 0 ==> old(pi).ipi_ehdrlen + old(pi).ipi_ip_hlen + 16 <= 255
                &&& old(pi).ipi_flags & IPI_TX_INTR != 0 && old(pi).ipi_nsegs != 0 ==> txr.tx_rs_pidx < n
                    && (txr.tx_rs_pidx as int) < txr.tx_rsq@.len()
            }),
        ensures
            r == 0,
            ({
                let q = old(pi).ipi_qsidx as int;
                let oq = old(self).tx_queues@[q];
                let n = old(self).iflib_shared.isc_ntxd0 as int;
                let nq = old(self).iflib_shared.isc_ntxqsets;
                let cmd = old(self).txd_cmd;
                let t2 = ctx_ring(oq.txr, *old(pi), nq);
                let ds = packet_descs(oq.txr, *old(pi), nq, cmd);
                let i0 = data_start(oq.txr, *old(pi), nq, n);
                let flags: u32 = if old(pi).ipi_flags & IPI_TX_INTR != 0 { E1000_TXD_CMD_RS } else { 0 };
                let first = old(pi).ipi_pidx as int;
                let last = encap_last(first, i0, n, ds.len());
                let rs = flags != 0 && old(pi).ipi_nsegs != 0;
                let fq = final(self).tx_queues@[q];
                &&& *final(pi) == (IfPacketInfo { ipi_new_pidx: ring_pos(i0, ds.len(), n) as u16, ..*old(pi) })
                &&& *final(self) == (Adapter { tx_queues: final(self).tx_queues, ..*old(self) })
                &&& final(self).tx_queues@.len() == old(self).tx_queues@.len()
                &&& forall|k: int| 0 <= k < old(self).tx_queues@.len() && k != q ==> #[trigger] final(self).tx_queues@[k] == old(self).tx_queues@[k]
                &&& fq == (TxQueue {
                    txr: TxRing {
                        tx_base: fq.txr.tx_base,
                        tx_rsq: fq.txr.tx_rsq,
                        tx_rs_pidx: if rs { ring_next(t2.tx_rs_pidx as int, n) as u16 } else { t2.tx_rs_pidx },
                        ..t2
                    },
                    ..oq
                })
                &&& fq.txr.tx_base@ == encap_ring(ctx_base(oq.txr, *old(pi), nq, cmd), first, i0, n, ds, flags)
                &&& fq.txr.tx_rsq@ == if rs { t2.tx_rsq@.update(t2.tx_rs_pidx as int, last as u16) } else { t2.tx_rsq@ }
            }),
    {
        let q = pi.ipi_qsidx as usize;
        let nsegs = pi.ipi_nsegs as usize;
        let f = pi.ipi_csum_flags;
        let flags: u32 = if pi.ipi_flags & IPI_TX_INTR != 0 {
            E1000_TXD_CMD_RS
        } else {
            0
        };
        let first = pi.ipi_pidx;
        let n = self.iflib_shared.isc_ntxd0 as u16;
        let do_tso = f & CSUM_TSO != 0;
        let mut sentinel = false;
        let mut txd_upper: u32 = 0;
        let mut txd_lower: u32 = 0;
        let ghost oq = self.tx_queues@[q as int];
        if !do_tso && self.tx_queues[q].txr.tx_tso {
            if nsegs == 1 {
                sentinel = true;
            }
            set_tx_tso(&mut self.tx_queues, q, false);
        }
        let ghost s1 = self.tx_queues@;
        let mut i = first;
        if do_tso {
            i = self.tso_setup(pi, &mut txd_upper, &mut txd_lower);
            sentinel = true;
        } else if f & EM_CSUM_OFFLOAD != 0 {
            i = self.transmit_checksum_setup(pi, &mut txd_upper, &mut txd_lower);
        }
        if pi.ipi_mflags & M_VLANTAG != 0 {
            txd_upper = txd_upper | ((pi.ipi_vtag as u32) << 16u32);
            txd_lower = txd_lower | E1000_TXD_CMD_VLE;
        }
        let cmd = E1000_TXD_CMD_IFCS | self.txd_cmd;
        let ds = build_seg_descs(&pi.ipi_segs, nsegs, cmd, txd_lower, txd_upper, sentinel);
        let mut tq = self.tx_queues.remove(q);
        let ghost t2 = tq.txr;
        proof {
            assert(t2 == TxRing { tx_base: t2.tx_base, ..ctx_ring(oq.txr, *old(pi), old(self).iflib_shared.isc_ntxqsets) });
            assert(t2.tx_base@ == ctx_base(oq.txr, *old(pi), old(self).iflib_shared.isc_ntxqsets, old(self).txd_cmd));
            assert(ds@ == packet_descs(oq.txr, *old(pi), old(self).iflib_shared.isc_ntxqsets, old(self).txd_cmd));
        }
        let (last, next) = write_packet(&mut tq.txr.tx_base, first as usize, i as usize, n as usize, &ds, flags);
        if flags != 0 && nsegs != 0 {
            push_rs(&mut tq, last as u16, n);
        }
        self.tx_queues.insert(q, tq);
        pi.ipi_new_pidx = next as u16;
        proof {
            assert forall|k: int| 0 <= k < old(self).tx_queues@.len() && k != q implies #[trigger] self.tx_queues@[k] == old(self).tx_queues@[k] by {
                if k < q { } else { }
            }
        }
        0
    }
}

} // verus!
