//! Programming the transmit and receive units: descriptor rings,
//! interrupt moderation, inter-packet gap, and the transmit and receive
//! control registers.
use vstd::prelude::*;
use crate::adapter::{AdResult, Adapter, do_read_register, do_write_register};
use crate::consts::{
    DEFAULT_82543_TIPG_IPGR1, DEFAULT_82543_TIPG_IPGR2, DEFAULT_82543_TIPG_IPGT_COPPER,
    E1000_COLLISION_THRESHOLD, E1000_CT_SHIFT, E1000_IOSFPC, E1000_ITR, E1000_RADV, E1000_RCTL,
    E1000_RCTL_BAM, E1000_RCTL_EN, E1000_RCTL_LBM_NO, E1000_RCTL_LPE, E1000_RCTL_MO_SHIFT,
    E1000_RCTL_RDMTS_HALF, E1000_RCTL_RDMTS_HEX, E1000_RCTL_SBP, E1000_RCTL_SZ_2048,
    E1000_RCTL_VFE, E1000_RDTR, E1000_RFCTL, E1000_RFCTL_EXTEN, E1000_RXCSUM,
    E1000_RXCSUM_CRCOFL, E1000_RXCSUM_IPOFL, E1000_RXCSUM_IPPCSE, E1000_RXCSUM_TUOFL,
    E1000_TADV, E1000_TARC0_CB_MULTIQ_2_REQ, E1000_TARC0_CB_MULTIQ_3_REQ, E1000_TCTL,
    E1000_TCTL_CT, E1000_TCTL_EN, E1000_TCTL_PSP, E1000_TCTL_RTLC, E1000_TIDV, E1000_TIPG,
    E1000_TIPG_IPGR1_SHIFT, E1000_TIPG_IPGR2_SHIFT, E1000_TXDCTL_GRAN, E1000_TXD_CMD_IDE,
    ETHERMTU, IFCAP_RXCSUM, MCLBYTES,
};
use crate::hw::{IGB_MAC_MIN_RANK, MacType, MediaType, mac_rank};
use crate::platform::{IoOp, Platform, is_read_of, read_value};
use crate::regs::{
    E1000_RDBAH, E1000_RDBAL, E1000_RDH, E1000_RDLEN, E1000_RDT, E1000_TARC, E1000_TDBAH,
    E1000_TDBAL, E1000_TDH, E1000_TDLEN, E1000_TDT, E1000_TXDCTL, queue_reg,
};
use crate::rings::{TxQueue, TxRing};

verus! {

/// Interrupt throttling interval: at most 8000 interrupts a second, in
/// units of 256 ns.
pub const DEFAULT_ITR: u32 = 488;

/// Size of a transmit descriptor in bytes.
pub const TX_DESC_SIZE: u32 = 16;

/// Size of an extended receive descriptor in bytes.
pub const RX_DESC_SIZE: u32 = 16;

// ------------------------------------------------------------ transmit

/// The transmit queue with its checksum-offload context forgotten.
pub open spec fn csum_cleared(q: TxQueue) -> TxQueue {
    TxQueue {
        txr: TxRing {
            csum_flags: 0,
            csum_iphlen: 0,
            csum_lhlen: 0,
            csum_mss: 0,
            csum_pktlen: 0,
            csum_thlen: 0,
            csum_txd_lower: 0,
            csum_txd_upper: 0,
            ..q.txr
        },
        ..q
    }
}

/// The transmit descriptor control value: prefetch 31, host 1, write-back
/// 1, reserved bit 22, descriptor granularity, low threshold 1.
pub open spec fn txdctl_value() -> u32 {
    0x1f | (1u32 << 8u32) | (1u32 << 16u32) | (1u32 << 22u32) | E1000_TXDCTL_GRAN | (1u32
        << 25u32)
}

/// The eight operations that set up transmit queue `q` start at `base` in
/// `l`: ring length, base address high and low, tail and head, the two
/// reads of base and length, and the descriptor control.
pub open spec fn tx_queue_logged(l: Seq<IoOp>, base: int, q: int, ntxd: i32, paddr: u64) -> bool {
    &&& l[base] == IoOp::Write {
        reg: queue_reg(q, 0x03808, 0x0E008) as u32,
        value: (ntxd as u32 * TX_DESC_SIZE) as u32,
    }
    &&& l[base + 1] == IoOp::Write {
        reg: queue_reg(q, 0x03804, 0x0E004) as u32,
        value: (paddr >> 32u64) as u32,
    }
    &&& l[base + 2] == IoOp::Write { reg: queue_reg(q, 0x03800, 0x0E000) as u32, value: paddr as u32 }
    &&& l[base + 3] == IoOp::Write { reg: queue_reg(q, 0x03818, 0x0E018) as u32, value: 0 }
    &&& l[base + 4] == IoOp::Write { reg: queue_reg(q, 0x03810, 0x0E010) as u32, value: 0 }
    &&& is_read_of(l[base + 5], queue_reg(q, 0x03800, 0x0E000) as u32)
    &&& is_read_of(l[base + 6], queue_reg(q, 0x03808, 0x0E008) as u32)
    &&& l[base + 7] == IoOp::Write {
        reg: queue_reg(q, 0x03828, 0x0E028) as u32,
        value: txdctl_value(),
    }
}

/// The set-up of a queue stays recorded when the trace grows.
proof fn lemma_tx_logged_kept(l1: Seq<IoOp>, l2: Seq<IoOp>, base: int, q: int, ntxd: i32, paddr: u64)
    requires
        0 <= base,
        base + 8 <= l1.len() <= l2.len(),
        forall|k: int| 0 <= k < l1.len() ==> l2[k] == l1[k],
        tx_queue_logged(l1, base, q, ntxd, paddr),
    ensures
        tx_queue_logged(l2, base, q, ntxd, paddr),
{
    assert(l2[base] == l1[base]);
    assert(l2[base + 1] == l1[base + 1]);
    assert(l2[base + 2] == l1[base + 2]);
    assert(l2[base + 3] == l1[base + 3]);
    assert(l2[base + 4] == l1[base + 4]);
    assert(l2[base + 5] == l1[base + 5]);
    assert(l2[base + 6] == l1[base + 6]);
    assert(l2[base + 7] == l1[base + 7]);
}

/// Forgets the checksum context of queue `i`.
fn clear_queue_csum(queues: &mut Vec<TxQueue>, i: usize)
    requires
        i < old(queues)@.len(),
    ensures
        final(queues)@ == old(queues)@.update(i as int, csum_cleared(old(queues)@[i as int])),
{
    let mut q = queues.remove(i);
    q.txr.csum_flags = 0;
    q.txr.csum_iphlen = 0;
    q.txr.csum_lhlen = 0;
    q.txr.csum_mss = 0;
    q.txr.csum_pktlen = 0;
    q.txr.csum_thlen = 0;
    q.txr.csum_txd_lower = 0;
    q.txr.csum_txd_upper = 0;
    queues.insert(i, q);
    proof {
        assert(queues@ =~= old(queues)@.update(i as int, csum_cleared(old(queues)@[i as int])));
    }
}

/// Writes the registers of transmit queue `i` (`tx_queue_logged`).
fn program_tx_queue<P: Platform>(adapter: &mut Adapter<P>, i: usize, ntxd: i32, paddr: u64)
    requires
        i < 0x100_0000,
        ntxd as u32 * TX_DESC_SIZE <= u32::MAX,
    ensures
        final(adapter).same_state(old(adapter)),
        final(adapter).log_extends(old(adapter)),
        final(adapter).io_log@.len() == old(adapter).io_log@.len() + 8,
        tx_queue_logged(final(adapter).io_log@, old(adapter).io_log@.len() as int, i as int, ntxd, paddr),
{
    let ghost o = old(adapter).io_log@.len() as int;
    let tdlen = E1000_TDLEN(i);
    let tdbal = E1000_TDBAL(i);
    do_write_register(adapter, tdlen, ntxd as u32 * TX_DESC_SIZE);
    do_write_register(adapter, E1000_TDBAH(i), (bus_addr_high(paddr)));
    do_write_register(adapter, tdbal, paddr as u32);
    do_write_register(adapter, E1000_TDT(i), 0);
    do_write_register(adapter, E1000_TDH(i), 0);
    do_read_register(adapter, tdbal);
    do_read_register(adapter, tdlen);
    let mut txdctl: u32 = 0;
    txdctl = txdctl | 0x1f;
    txdctl = txdctl | (1u32 << 8u32);
    txdctl = txdctl | (1u32 << 16u32);
    txdctl = txdctl | (1u32 << 22u32);
    txdctl = txdctl | E1000_TXDCTL_GRAN;
    txdctl = txdctl | (1u32 << 25u32);
    proof {
        assert(txdctl == txdctl_value()) by (bit_vector)
            requires
                txdctl == (((((0u32 | 0x1f) | (1u32 << 8u32)) | (1u32 << 16u32)) | (1u32
                    << 22u32)) | E1000_TXDCTL_GRAN) | (1u32 << 25u32),
        ;
    }
    do_write_register(adapter, E1000_TXDCTL(i), txdctl);
}

/// The upper 32 bits of a bus address.
fn bus_addr_high(a: u64) -> (r: u32)
    ensures
        r == (a >> 32u64) as u32,
{
    (a >> 32u64) as u32
}

/// The inter-packet gap of a copper MAC (transmit, receive part 1 and 2).
pub open spec fn tipg_copper() -> u32 {
    DEFAULT_82543_TIPG_IPGT_COPPER | (DEFAULT_82543_TIPG_IPGR1 << E1000_TIPG_IPGR1_SHIFT) | (
    DEFAULT_82543_TIPG_IPGR2 << E1000_TIPG_IPGR2_SHIFT)
}

/// The transmit control value built from `tctl`: collision threshold
/// replaced, pad short packets, retransmit on late collision, enabled.
pub open spec fn tctl_value(tctl: u32) -> u32 {
    tctl & !E1000_TCTL_CT | (E1000_TCTL_PSP | E1000_TCTL_RTLC | E1000_TCTL_EN | (
    E1000_COLLISION_THRESHOLD << E1000_CT_SHIFT))
}

/// The operations after the queues: gap, interrupt delays, transmit
/// control and, on the SPT PCH, the errata workarounds; `tctl`, `iosfpc`
/// and `tarc` are the values read.
pub open spec fn tx_tail_ops(
    t: MacType,
    tidv: u32,
    tadv: u32,
    tctl: u32,
    iosfpc: u32,
    tarc: u32,
) -> Seq<IoOp> {
    let delays = if mac_rank(t) >= 4 {
        seq![
            IoOp::Write { reg: E1000_TIPG, value: tipg_copper() },
            IoOp::Write { reg: E1000_TIDV, value: tidv },
            IoOp::Write { reg: E1000_TADV, value: tadv },
        ]
    } else {
        seq![
            IoOp::Write { reg: E1000_TIPG, value: tipg_copper() },
            IoOp::Write { reg: E1000_TIDV, value: tidv },
        ]
    };
    let ctl = seq![
        IoOp::Read { reg: E1000_TCTL, value: tctl },
        IoOp::Write { reg: E1000_TCTL, value: tctl_value(tctl) },
    ];
    let spt = if t == MacType::Mac_pch_spt {
        seq![
            IoOp::Read { reg: E1000_IOSFPC, value: iosfpc },
            IoOp::Write { reg: E1000_IOSFPC, value: iosfpc | E1000_RCTL_RDMTS_HEX },
            IoOp::Read { reg: 0x3840, value: tarc },
            IoOp::Write {
                reg: 0x3840,
                value: tarc & !E1000_TARC0_CB_MULTIQ_3_REQ | E1000_TARC0_CB_MULTIQ_2_REQ,
            },
        ]
    } else {
        Seq::<IoOp>::empty()
    };
    delays + ctl + spt
}

/// The MAC types whose transmit set-up this driver does not implement.
pub open spec fn tx_unsupported_mac(t: MacType) -> bool {
    t == MacType::Mac_80003es2lan || t == MacType::Mac_82542 || t == MacType::Mac_82571 || t
        == MacType::Mac_82572 || t == MacType::Mac_82574
}

/// Writes the transmit registers that follow the queues (`tx_tail_ops`).
#[verifier::spinoff_prover]
fn program_tx_tail<P: Platform>(adapter: &mut Adapter<P>)
    ensures
        final(adapter).same_state(old(adapter)),
        ({
            let n: int = if mac_rank(old(adapter).hw.mac.mac_type) >= 4 { 3 } else { 2 };
            final(adapter).logged(
                old(adapter),
                tx_tail_ops(
                    old(adapter).hw.mac.mac_type,
                    old(adapter).tx_int_delay.value,
                    old(adapter).tx_abs_int_delay.value,
                    final(adapter).read_at(old(adapter), n),
                    final(adapter).read_at(old(adapter), n + 2),
                    final(adapter).read_at(old(adapter), n + 4),
                ),
            )
        }),
{
    let ghost s0 = *adapter;
    let tipg: u32 = DEFAULT_82543_TIPG_IPGT_COPPER | (DEFAULT_82543_TIPG_IPGR1
        << E1000_TIPG_IPGR1_SHIFT) | (DEFAULT_82543_TIPG_IPGR2 << E1000_TIPG_IPGR2_SHIFT);
    do_write_register(adapter, E1000_TIPG, tipg);
    let tidv = adapter.tx_int_delay.value;
    do_write_register(adapter, E1000_TIDV, tidv);
    if adapter.hw.mac.mac_type.rank() >= 4 {
        let tadv = adapter.tx_abs_int_delay.value;
        do_write_register(adapter, E1000_TADV, tadv);
    }
    let ghost s1 = *adapter;
    let mut tctl = do_read_register(adapter, E1000_TCTL);
    tctl = tctl & !E1000_TCTL_CT;
    tctl = tctl | (E1000_TCTL_PSP | E1000_TCTL_RTLC | E1000_TCTL_EN | (E1000_COLLISION_THRESHOLD
        << E1000_CT_SHIFT));
    do_write_register(adapter, E1000_TCTL, tctl);
    let ghost s2 = *adapter;
    if adapter.hw.mac.mac_type == MacType::Mac_pch_spt {
        let mut reg: u32 = do_read_register(adapter, E1000_IOSFPC);
        reg = reg | E1000_RCTL_RDMTS_HEX;
        do_write_register(adapter, E1000_IOSFPC, reg);
        let tarc0 = E1000_TARC(0);
        reg = do_read_register(adapter, tarc0);
        reg = reg & !E1000_TARC0_CB_MULTIQ_3_REQ;
        reg = reg | E1000_TARC0_CB_MULTIQ_2_REQ;
        do_write_register(adapter, tarc0, reg);
    }
    proof {
        let n: int = if mac_rank(s0.hw.mac.mac_type) >= 4 { 3 } else { 2 };
        assert(s1.io_log@.len() == s0.io_log@.len() + n);
        assert(adapter.io_log@[s0.io_log@.len() + n] == s2.io_log@[s1.io_log@.len() as int]);
        assert(adapter.io_log@ =~= s0.io_log@ + tx_tail_ops(
            s0.hw.mac.mac_type,
            s0.tx_int_delay.value,
            s0.tx_abs_int_delay.value,
            adapter.read_at(&s0, n),
            adapter.read_at(&s0, n + 2),
            adapter.read_at(&s0, n + 4),
        ));
    }
}

/// Sets the interrupt-delay-enable bit of the transmit command when a
/// transmit interrupt delay is configured.
fn set_txd_cmd_ide<P: Platform>(adapter: &mut Adapter<P>)
    ensures
        *final(adapter) == (Adapter {
            txd_cmd: if old(adapter).tx_int_delay.value > 0 {
                old(adapter).txd_cmd | E1000_TXD_CMD_IDE
            } else {
                old(adapter).txd_cmd
            },
            ..*old(adapter)
        }),
{
    if adapter.tx_int_delay.value > 0 {
        adapter.txd_cmd = adapter.txd_cmd | E1000_TXD_CMD_IDE;
    }
}

impl<P: Platform> Adapter<P> {
    /// Programs the transmit unit: for each of the first `isc_ntxqsets`
    /// transmit queues, forgets its checksum context and writes its ring
    /// registers (`tx_queue_logged`); then the inter-packet gap and
    /// interrupt delays, the transmit control register, and the SPT errata
    /// workarounds (`tx_tail_ops`). Sets the interrupt-delay bit of the
    /// transmit command when a delay is configured. Only copper MACs other
    /// than those of `tx_unsupported_mac` are handled.
    #[verifier::spinoff_prover]
    #[verifier::rlimit(50)]
    pub fn initialize_transmit_unit(&mut self)
        requires
            !tx_unsupported_mac(old(self).hw.mac.mac_type),
            old(self).hw.phy.media_type != MediaType::Fiber,
            old(self).hw.phy.media_type != MediaType::InternalSerdes,
            0 <= old(self).iflib_shared.isc_ntxqsets <= old(self).tx_queues@.len(),
            old(self).iflib_shared.isc_ntxqsets < 0x100_0000,
            old(self).iflib_shared.isc_ntxd0 as u32 * TX_DESC_SIZE <= u32::MAX,
        ensures
            ({
                let n = old(self).iflib_shared.isc_ntxqsets as int;
                let o = old(self).io_log@.len() as int;
                let l = final(self).io_log@;
                let k: int = if mac_rank(old(self).hw.mac.mac_type) >= 4 { 3 } else { 2 };
                &&& *final(self) == (Adapter {
                    plat: final(self).plat,
                    io_log: final(self).io_log,
                    tx_queues: final(self).tx_queues,
                    txd_cmd: final(self).txd_cmd,
                    ..*old(self)
                })
                &&& final(self).tx_queues@.len() == old(self).tx_queues@.len()
                &&& forall|q: int|
                    0 <= q < final(self).tx_queues@.len() ==> #[trigger] final(self).tx_queues@[q]
                        == if q < n {
                        csum_cleared(old(self).tx_queues@[q])
                    } else {
                        old(self).tx_queues@[q]
                    }
                &&& final(self).txd_cmd == if old(self).tx_int_delay.value > 0 {
                    old(self).txd_cmd | E1000_TXD_CMD_IDE
                } else {
                    old(self).txd_cmd
                }
                &&& final(self).log_extends(old(self))
                &&& forall|q: int|
                    0 <= q < n ==> #[trigger] tx_queue_logged(
                        l,
                        o + 8 * q,
                        q,
                        old(self).iflib_shared.isc_ntxd0,
                        old(self).tx_queues@[q].txr.tx_paddr,
                    )
                &&& l.subrange(o + 8 * n, l.len() as int) == tx_tail_ops(
                    old(self).hw.mac.mac_type,
                    old(self).tx_int_delay.value,
                    old(self).tx_abs_int_delay.value,
                    read_value(l[o + 8 * n + k]),
                    read_value(l[o + 8 * n + k + 2]),
                    read_value(l[o + 8 * n + k + 4]),
                )
            }),
    {
        let n = self.iflib_shared.isc_ntxqsets as usize;
        let ntxd = self.iflib_shared.isc_ntxd0;
        let ghost o = old(self).io_log@.len() as int;
        let mut i: usize = 0;
        while i < n
            invariant
                n == old(self).iflib_shared.isc_ntxqsets as int,
                n <= old(self).tx_queues@.len(),
                n < 0x100_0000,
                ntxd == old(self).iflib_shared.isc_ntxd0,
                ntxd as u32 * TX_DESC_SIZE <= u32::MAX,
                i <= n,
                o == old(self).io_log@.len(),
                *self == (Adapter {
                    plat: self.plat,
                    io_log: self.io_log,
                    tx_queues: self.tx_queues,
                    ..*old(self)
                }),
                self.tx_queues@.len() == old(self).tx_queues@.len(),
                forall|q: int|
                    0 <= q < self.tx_queues@.len() ==> #[trigger] self.tx_queues@[q] == if q < i {
                        csum_cleared(old(self).tx_queues@[q])
                    } else {
                        old(self).tx_queues@[q]
                    },
                self.log_extends(old(self)),
                self.io_log@.len() == o + 8 * i,
                forall|q: int|
                    0 <= q < i ==> #[trigger] tx_queue_logged(
                        self.io_log@,
                        o + 8 * q,
                        q,
                        ntxd,
                        old(self).tx_queues@[q].txr.tx_paddr,
                    ),
            decreases n - i,
        {
            let paddr = self.tx_queues[i].txr.tx_paddr;
            let ghost before = *self;
            clear_queue_csum(&mut self.tx_queues, i);
            let ghost mid = *self;
            program_tx_queue(self, i, ntxd, paddr);
            proof {
                assert forall|q: int| 0 <= q < i + 1 implies #[trigger] tx_queue_logged(
                    self.io_log@,
                    o + 8 * q,
                    q,
                    ntxd,
                    old(self).tx_queues@[q].txr.tx_paddr,
                ) by {
                    if q < i {
                        assert(tx_queue_logged(
                            before.io_log@,
                            o + 8 * q,
                            q,
                            ntxd,
                            old(self).tx_queues@[q].txr.tx_paddr,
                        ));
                        lemma_tx_logged_kept(
                            before.io_log@,
                            self.io_log@,
                            o + 8 * q,
                            q,
                            ntxd,
                            old(self).tx_queues@[q].txr.tx_paddr,
                        );
                    } else {
                        assert(paddr == old(self).tx_queues@[q].txr.tx_paddr);
                    }
                }
                assert forall|q: int| 0 <= q < self.tx_queues@.len() implies #[trigger] self.tx_queues@[q]
                    == if q < i + 1 {
                    csum_cleared(old(self).tx_queues@[q])
                } else {
                    old(self).tx_queues@[q]
                } by {
                    assert(self.tx_queues@[q] == mid.tx_queues@[q]);
                }
            }
            i = i + 1;
        }
        let ghost s1 = *self;
        program_tx_tail(self);
        let ghost s2 = *self;
        set_txd_cmd_ide(self);
        proof {
            let l = self.io_log@;
            assert forall|q: int| 0 <= q < n implies #[trigger] tx_queue_logged(
                l,
                o + 8 * q,
                q,
                ntxd,
                old(self).tx_queues@[q].txr.tx_paddr,
            ) by {
                assert(tx_queue_logged(s1.io_log@, o + 8 * q, q, ntxd, old(self).tx_queues@[q].txr.tx_paddr));
                lemma_tx_logged_kept(s1.io_log@, l, o + 8 * q, q, ntxd, old(self).tx_queues@[q].txr.tx_paddr);
            }
            assert(l.subrange(o + 8 * n, l.len() as int) =~= s2.new_ops(&s1));
        }
    }
}

// ------------------------------------------------------------ receive

/// The five writes that set up receive queue `q` start at `base` in `l`:
/// ring length, base address high and low, head and tail.
pub open spec fn rx_queue_logged(l: Seq<IoOp>, base: int, q: int, nrxd: i32, paddr: u64) -> bool {
    &&& l[base] == IoOp::Write {
        reg: queue_reg(q, 0x02808, 0x0C008) as u32,
        value: (nrxd as u32 * RX_DESC_SIZE) as u32,
    }
    &&& l[base + 1] == IoOp::Write {
        reg: queue_reg(q, 0x02804, 0x0C004) as u32,
        value: (paddr >> 32u64) as u32,
    }
    &&& l[base + 2] == IoOp::Write { reg: queue_reg(q, 0x02800, 0x0C000) as u32, value: paddr as u32 }
    &&& l[base + 3] == IoOp::Write { reg: queue_reg(q, 0x02810, 0x0C010) as u32, value: 0 }
    &&& l[base + 4] == IoOp::Write { reg: queue_reg(q, 0x02818, 0x0C018) as u32, value: 0 }
}

/// The set-up of a receive queue stays recorded when the trace grows.
proof fn lemma_rx_logged_kept(l1: Seq<IoOp>, l2: Seq<IoOp>, base: int, q: int, nrxd: i32, paddr: u64)
    requires
        0 <= base,
        base + 5 <= l1.len() <= l2.len(),
        forall|k: int| 0 <= k < l1.len() ==> l2[k] == l1[k],
        rx_queue_logged(l1, base, q, nrxd, paddr),
    ensures
        rx_queue_logged(l2, base, q, nrxd, paddr),
{
    assert(l2[base] == l1[base]);
    assert(l2[base + 1] == l1[base + 1]);
    assert(l2[base + 2] == l1[base + 2]);
    assert(l2[base + 3] == l1[base + 3]);
    assert(l2[base + 4] == l1[base + 4]);
}

/// Writes the registers of receive queue `i` (`rx_queue_logged`).
fn program_rx_queue<P: Platform>(adapter: &mut Adapter<P>, i: usize, nrxd: i32, paddr: u64)
    requires
        i < 0x100_0000,
        nrxd as u32 * RX_DESC_SIZE <= u32::MAX,
    ensures
        final(adapter).same_state(old(adapter)),
        final(adapter).log_extends(old(adapter)),
        final(adapter).io_log@.len() == old(adapter).io_log@.len() + 5,
        rx_queue_logged(final(adapter).io_log@, old(adapter).io_log@.len() as int, i as int, nrxd, paddr),
{
    do_write_register(adapter, E1000_RDLEN(i), nrxd as u32 * RX_DESC_SIZE);
    do_write_register(adapter, E1000_RDBAH(i), bus_addr_high(paddr));
    do_write_register(adapter, E1000_RDBAL(i), paddr as u32);
    do_write_register(adapter, E1000_RDH(i), 0);
    do_write_register(adapter, E1000_RDT(i), 0);
}

/// Writes the ring registers of every receive queue, in order.
fn program_rx_queues<P: Platform>(adapter: &mut Adapter<P>)
    requires
        old(adapter).rx_queues@.len() < 0x100_0000,
        old(adapter).iflib_shared.isc_nrxd0 as u32 * RX_DESC_SIZE <= u32::MAX,
    ensures
        final(adapter).same_state(old(adapter)),
        final(adapter).log_extends(old(adapter)),
        final(adapter).io_log@.len() == old(adapter).io_log@.len() + 5 * old(adapter).rx_queues@.len(),
        forall|q: int|
            0 <= q < old(adapter).rx_queues@.len() ==> #[trigger] rx_queue_logged(
                final(adapter).io_log@,
                old(adapter).io_log@.len() + 5 * q,
                q,
                old(adapter).iflib_shared.isc_nrxd0,
                old(adapter).rx_queues@[q].rxr.rx_paddr,
            ),
{
    let n = adapter.rx_queues.len();
    let nrxd = adapter.iflib_shared.isc_nrxd0;
    let ghost o = old(adapter).io_log@.len() as int;
    let mut i: usize = 0;
    while i < n
        invariant
            n == old(adapter).rx_queues@.len(),
            n < 0x100_0000,
            nrxd == old(adapter).iflib_shared.isc_nrxd0,
            nrxd as u32 * RX_DESC_SIZE <= u32::MAX,
            o == old(adapter).io_log@.len(),
            i <= n,
            adapter.same_state(old(adapter)),
            adapter.log_extends(old(adapter)),
            adapter.io_log@.len() == o + 5 * i,
            forall|q: int|
                0 <= q < i ==> #[trigger] rx_queue_logged(
                    adapter.io_log@,
                    o + 5 * q,
                    q,
                    nrxd,
                    old(adapter).rx_queues@[q].rxr.rx_paddr,
                ),
        decreases n - i,
    {
        let paddr = adapter.rx_queues[i].rxr.rx_paddr;
        let ghost before = *adapter;
        program_rx_queue(adapter, i, nrxd, paddr);
        proof {
            assert forall|q: int| 0 <= q < i + 1 implies #[trigger] rx_queue_logged(
                adapter.io_log@,
                o + 5 * q,
                q,
                nrxd,
                old(adapter).rx_queues@[q].rxr.rx_paddr,
            ) by {
                if q < i {
                    lemma_rx_logged_kept(
                        before.io_log@,
                        adapter.io_log@,
                        o + 5 * q,
                        q,
                        nrxd,
                        old(adapter).rx_queues@[q].rxr.rx_paddr,
                    );
                }
            }
        }
        i = i + 1;
    }
}

/// The receive control value built from `rctl`: multicast offset from the
/// filter type, enabled, broadcast accepted, no loopback, descriptor
/// minimum threshold half, bad packets not stored, long packets as the MTU
/// asks, VLAN filtering off, 2 KB buffers for 2 KB clusters, and the buffer
/// size extension bits cleared.
pub open spec fn rctl_value(rctl: u32, mc_filter_type: u32, mtu: i32, mbuf_sz: u32) -> u32 {
    let r1 = rctl & !(3u32 << E1000_RCTL_MO_SHIFT);
    let r2 = r1 | (E1000_RCTL_EN | E1000_RCTL_BAM | E1000_RCTL_LBM_NO | E1000_RCTL_RDMTS_HALF | (
    mc_filter_type << E1000_RCTL_MO_SHIFT));
    let r3 = r2 & !E1000_RCTL_SBP;
    let r4 = if mtu > ETHERMTU as i32 {
        r3 | E1000_RCTL_LPE
    } else {
        r3 & !E1000_RCTL_LPE
    };
    let r5 = r4 & !E1000_RCTL_VFE;
    let r6 = if mbuf_sz == MCLBYTES {
        r5 | E1000_RCTL_SZ_2048
    } else {
        r5
    };
    r6 & !0x00000C00u32
}

/// The receive checksum control value built from `rxcsum`: TCP/UDP and IP
/// offload (IP payload checksum on the igb generation, CRC offload after
/// the 82575) when receive checksumming is enabled on an 82543 or later,
/// TCP/UDP offload cleared otherwise.
pub open spec fn rxcsum_value(rxcsum: u32, capenable: u32, t: MacType) -> u32 {
    if capenable & IFCAP_RXCSUM != 0 && mac_rank(t) >= 2 {
        let r1 = if mac_rank(t) >= IGB_MAC_MIN_RANK {
            rxcsum | E1000_RXCSUM_IPPCSE
        } else {
            rxcsum | E1000_RXCSUM_TUOFL | E1000_RXCSUM_IPOFL
        };
        if mac_rank(t) > 27 {
            r1 | E1000_RXCSUM_CRCOFL
        } else {
            r1
        }
    } else {
        rxcsum & !E1000_RXCSUM_TUOFL
    }
}

/// Whether the receive unit of this configuration can be programmed: not
/// an 82574 or 82573, at most one queue of each kind when checksumming,
/// one receive queue, no jumbo frames on the ICH9/ICH10/PCH2, and a MAC
/// before the PCH2 (the later PCH parts need the jumbo-frame workaround of
/// their family, which this library does not hold).
pub open spec fn rx_unit_supported(
    t: MacType,
    capenable: u32,
    ntxqsets: i32,
    nrxqsets: i32,
    mtu: i32,
) -> bool {
    &&& t != MacType::Mac_82574
    &&& !(capenable & IFCAP_RXCSUM != 0 && mac_rank(t) >= 2 && ntxqsets as usize > 1)
    &&& nrxqsets as usize <= 1
    &&& t != MacType::Mac_82573
    &&& !((t == MacType::Mac_ich9lan || t == MacType::Mac_pch2lan || t == MacType::Mac_ich10lan)
        && mtu > ETHERMTU as i32)
    &&& mac_rank(t) < 23
}

/// The operations before the queues: receive disabled while programming
/// (except on the 82574/82583), interrupt delays, extended descriptors,
/// checksum offload; `rctl`, `rfctl` and `rxcsum` are the values read.
pub open spec fn rx_head_ops(
    t: MacType,
    radv: u32,
    rdtr: u32,
    capenable: u32,
    rctl: u32,
    rfctl: u32,
    rxcsum: u32,
) -> Seq<IoOp> {
    let off = if t != MacType::Mac_82574 && t != MacType::Mac_82583 {
        seq![IoOp::Write { reg: E1000_RCTL, value: rctl & !E1000_RCTL_EN }]
    } else {
        Seq::<IoOp>::empty()
    };
    let delays = if mac_rank(t) >= 4 {
        seq![
            IoOp::Write { reg: E1000_RADV, value: radv },
            IoOp::Write { reg: E1000_ITR, value: DEFAULT_ITR },
            IoOp::Write { reg: E1000_RDTR, value: rdtr },
        ]
    } else {
        seq![IoOp::Write { reg: E1000_RDTR, value: rdtr }]
    };
    seq![IoOp::Read { reg: E1000_RCTL, value: rctl }] + off + delays + seq![
        IoOp::Read { reg: E1000_RFCTL, value: rfctl },
        IoOp::Write { reg: E1000_RFCTL, value: rfctl | E1000_RFCTL_EXTEN },
        IoOp::Read { reg: E1000_RXCSUM, value: rxcsum },
        IoOp::Write { reg: E1000_RXCSUM, value: rxcsum_value(rxcsum, capenable, t) },
    ]
}

/// Number of operations of `rx_head_ops` before the `RFCTL` read.
pub open spec fn rx_head_pre(t: MacType) -> int {
    1 + (if t != MacType::Mac_82574 && t != MacType::Mac_82583 {
        1int
    } else {
        0
    }) + (if mac_rank(t) >= 4 {
        3int
    } else {
        1
    })
}

/// Reads `RCTL`, turns receive off (except on the 82574/82583), writes
/// the interrupt delays and reads `RFCTL`; answers the two values read.
#[verifier::spinoff_prover]
fn rx_head_start<P: Platform>(adapter: &mut Adapter<P>) -> (r: (u32, u32))
    ensures
        final(adapter).same_state(old(adapter)),
        ({
            let t = old(adapter).hw.mac.mac_type;
            let full = rx_head_ops(
                t,
                old(adapter).rx_abs_int_delay.value,
                old(adapter).rx_int_delay.value,
                old(adapter).ifnet.capenable,
                r.0,
                r.1,
                0,
            );
            final(adapter).logged(old(adapter), full.subrange(0, rx_head_pre(t) + 1))
        }),
{
    let ghost s0 = *adapter;
    let t = adapter.hw.mac.mac_type;
    let rctl = do_read_register(adapter, E1000_RCTL);
    if t != MacType::Mac_82574 && t != MacType::Mac_82583 {
        do_write_register(adapter, E1000_RCTL, rctl & !E1000_RCTL_EN);
    }
    if t.rank() >= 4 {
        let radv = adapter.rx_abs_int_delay.value;
        do_write_register(adapter, E1000_RADV, radv);
        do_write_register(adapter, E1000_ITR, DEFAULT_ITR);
    }
    let rdtr = adapter.rx_int_delay.value;
    do_write_register(adapter, E1000_RDTR, rdtr);
    let rfctl = do_read_register(adapter, E1000_RFCTL);
    proof {
        let full = rx_head_ops(
            t,
            s0.rx_abs_int_delay.value,
            s0.rx_int_delay.value,
            s0.ifnet.capenable,
            rctl,
            rfctl,
            0,
        );
        assert(adapter.io_log@ =~= s0.io_log@ + full.subrange(0, rx_head_pre(t) + 1));
    }
    (rctl, rfctl)
}

/// Turns on extended descriptors (writes `RFCTL` from `rfctl`), reads
/// `RXCSUM` and, unless checksumming is asked with several transmit
/// queues, writes it back as `rxcsum_value` makes it; answers whether it
/// did.
#[verifier::spinoff_prover]
fn rx_csum_step<P: Platform>(adapter: &mut Adapter<P>, rfctl: u32) -> (ok: bool)
    ensures
        final(adapter).same_state(old(adapter)),
        final(adapter).log_extends(old(adapter)),
        ({
            let t = old(adapter).hw.mac.mac_type;
            let c = old(adapter).ifnet.capenable;
            let v = final(adapter).read_at(old(adapter), 1);
            &&& ok <==> !(c & IFCAP_RXCSUM != 0 && mac_rank(t) >= 2
                && old(adapter).iflib_shared.isc_ntxqsets as usize > 1)
            &&& ok ==> final(adapter).logged(
                old(adapter),
                seq![
                    IoOp::Write { reg: E1000_RFCTL, value: rfctl | E1000_RFCTL_EXTEN },
                    IoOp::Read { reg: E1000_RXCSUM, value: v },
                    IoOp::Write { reg: E1000_RXCSUM, value: rxcsum_value(v, c, t) },
                ],
            )
        }),
{
    do_write_register(adapter, E1000_RFCTL, rfctl | E1000_RFCTL_EXTEN);
    let mut rxcsum = do_read_register(adapter, E1000_RXCSUM);
    let capenable = adapter.ifnet.capenable();
    let rank = adapter.hw.mac.mac_type.rank();
    if capenable & IFCAP_RXCSUM != 0 && rank >= 2 {
        if adapter.tx_num_queues() > 1 {
            return false;
        }
        if rank >= IGB_MAC_MIN_RANK {
            rxcsum = rxcsum | E1000_RXCSUM_IPPCSE;
        } else {
            rxcsum = rxcsum | E1000_RXCSUM_TUOFL | E1000_RXCSUM_IPOFL;
        }
        if rank > 27 {
            rxcsum = rxcsum | E1000_RXCSUM_CRCOFL;
        }
    } else {
        rxcsum = rxcsum & !E1000_RXCSUM_TUOFL;
    }
    do_write_register(adapter, E1000_RXCSUM, rxcsum);
    true
}

/// The receive control value computed from what was read.
fn rctl_for(rctl: u32, mc_filter_type: u32, mtu: i32, mbuf_sz: u32) -> (r: u32)
    ensures
        r == rctl_value(rctl, mc_filter_type, mtu, mbuf_sz),
{
    let mut v = rctl & !(3u32 << E1000_RCTL_MO_SHIFT);
    v = v | (E1000_RCTL_EN | E1000_RCTL_BAM | E1000_RCTL_LBM_NO | E1000_RCTL_RDMTS_HALF | (
    mc_filter_type << E1000_RCTL_MO_SHIFT));
    v = v & !E1000_RCTL_SBP;
    if mtu > ETHERMTU as i32 {
        v = v | E1000_RCTL_LPE;
    } else {
        v = v & !E1000_RCTL_LPE;
    }
    v = v & !E1000_RCTL_VFE;
    if mbuf_sz == MCLBYTES {
        v = v | E1000_RCTL_SZ_2048;
    }
    v & !0x00000C00u32
}

impl<P: Platform> Adapter<P> {
    /// Programs the receive unit (`rx_unit_supported` says when it can):
    /// receive off while programming, interrupt delays, extended
    /// descriptors and checksum offload (`rx_head_ops`), the ring registers
    /// of every receive queue (`rx_queue_logged`), and finally the receive
    /// control register (`rctl_value`). Refused, after the part that
    /// precedes the unsupported feature, otherwise.
    #[verifier::spinoff_prover]
    #[verifier::rlimit(50)]
    pub fn initialize_receive_unit(&mut self) -> (r: AdResult)
        requires
            old(self).rx_queues@.len() < 0x100_0000,
            old(self).iflib_shared.isc_nrxd0 as u32 * RX_DESC_SIZE <= u32::MAX,
        ensures
            final(self).same_state(old(self)),
            final(self).log_extends(old(self)),
            (r.is_ok() <==> rx_unit_supported(
                old(self).hw.mac.mac_type,
                old(self).ifnet.capenable,
                old(self).iflib_shared.isc_ntxqsets,
                old(self).iflib_shared.isc_nrxqsets,
                old(self).ifnet.mtu,
            )),
            r.is_ok() ==> ({
                let t = old(self).hw.mac.mac_type;
                let o = old(self).io_log@.len() as int;
                let l = final(self).io_log@;
                let k = rx_head_pre(t);
                let h = k + 4;
                let n = old(self).rx_queues@.len() as int;
                let rctl = read_value(l[o]);
                &&& l.len() == o + h + 5 * n + 1
                &&& l.subrange(o, o + h) == rx_head_ops(
                    t,
                    old(self).rx_abs_int_delay.value,
                    old(self).rx_int_delay.value,
                    old(self).ifnet.capenable,
                    rctl,
                    read_value(l[o + k]),
                    read_value(l[o + k + 2]),
                )
                &&& forall|q: int|
                    0 <= q < n ==> #[trigger] rx_queue_logged(
                        l,
                        o + h + 5 * q,
                        q,
                        old(self).iflib_shared.isc_nrxd0,
                        old(self).rx_queues@[q].rxr.rx_paddr,
                    )
                &&& l[o + h + 5 * n] == IoOp::Write {
                    reg: E1000_RCTL,
                    value: rctl_value(
                        rctl,
                        old(self).hw.mac.mc_filter_type,
                        old(self).ifnet.mtu,
                        old(self).rx_mbuf_sz,
                    ),
                }
            }),
    {
        let t = self.hw.mac.mac_type;
        let ghost s0 = *self;
        let (rctl, rfctl) = rx_head_start(self);
        if t == MacType::Mac_82574 {
            return Err("incomplete function - returning error".to_string());
        }
        let ghost s1 = *self;
        if !rx_csum_step(self, rfctl) {
            return Err("incomplete function - returning error".to_string());
        }
        let ghost s2 = *self;
        if self.rx_num_queues() > 1 || t == MacType::Mac_82573 {
            return Err("incomplete function - returning error".to_string());
        }
        program_rx_queues(self);
        let ghost s3 = *self;
        let mtu = self.ifnet.mtu();
        let rank = t.rank();
        if (t == MacType::Mac_ich9lan || t == MacType::Mac_pch2lan || t == MacType::Mac_ich10lan)
            && mtu > ETHERMTU as i32 {
            return Err("incomplete function - returning error".to_string());
        }
        if rank >= IGB_MAC_MIN_RANK {
            return Err("incomplete function - returning error".to_string());
        }
        if rank >= 23 {
            return Err("jumbo frame workaround of the PCH family is not available".to_string());
        }
        let v = rctl_for(rctl, self.hw.mac.mc_filter_type, mtu, self.rx_mbuf_sz);
        do_write_register(self, E1000_RCTL, v);
        proof {
            let o = s0.io_log@.len() as int;
            let l = self.io_log@;
            let k = rx_head_pre(t);
            let h = k + 4;
            let n = s0.rx_queues@.len() as int;
            assert(s1.io_log@.len() == o + k + 1);
            assert(l[o] == s1.io_log@[o]);
            assert(read_value(l[o]) == rctl);
            assert(l[o + k] == s1.io_log@[o + k]);
            assert(read_value(l[o + k]) == rfctl);
            assert(l[o + k + 2] == s2.io_log@[o + k + 2]);
            assert(l.subrange(o, o + h) =~= rx_head_ops(
                t,
                s0.rx_abs_int_delay.value,
                s0.rx_int_delay.value,
                s0.ifnet.capenable,
                rctl,
                rfctl,
                read_value(l[o + k + 2]),
            ));
            assert forall|q: int| 0 <= q < n implies #[trigger] rx_queue_logged(
                l,
                o + h + 5 * q,
                q,
                s0.iflib_shared.isc_nrxd0,
                s0.rx_queues@[q].rxr.rx_paddr,
            ) by {
                assert(rx_queue_logged(
                    s3.io_log@,
                    s2.io_log@.len() + 5 * q,
                    q,
                    s0.iflib_shared.isc_nrxd0,
                    s0.rx_queues@[q].rxr.rx_paddr,
                ));
                lemma_rx_logged_kept(
                    s3.io_log@,
                    l,
                    o + h + 5 * q,
                    q,
                    s0.iflib_shared.isc_nrxd0,
                    s0.rx_queues@[q].rxr.rx_paddr,
                );
            }
        }
        Ok(())
    }
}

} // verus!
