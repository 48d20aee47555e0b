//! The driver's view of the network-stack objects it configures: the
//! interface (`IfNet`), its media list, the shared iflib context and the
//! per-call packet descriptions.
use vstd::prelude::*;
use crate::consts::{
    CSUM_IP_TSO, CSUM_TCP, CSUM_UDP, EM_CAPS, EM_DBA_ALIGN, EM_MAX_SCATTER, EM_MSIX_BAR,
    EM_TSO_SEG_SIZE, EM_TSO_SIZE, IFCAP_TSO4, IFCAP_VLAN_HWTSO, LEM_CAPS, PCIR_BARS,
};
use crate::hw::{EM_MAC_MIN_RANK, IGB_MAC_MIN_RANK, MacType, mac_rank};

verus! {

/// Interrupt delivery mode chosen by iflib.
#[derive(Debug, Clone, Copy, PartialEq, Eq, Structural)]
pub enum iflib_intr_mode_t {
    IFLIB_INTR_LEGACY,
    IFLIB_INTR_MSI,
    IFLIB_INTR_MSIX,
}

/// Interface counters the stack may ask for.
#[derive(Debug, Clone, Copy, PartialEq, Eq, Structural)]
pub enum IftCounter {
    IPACKETS,
    IERRORS,
    OPACKETS,
    OERRORS,
    COLLISIONS,
    IBYTES,
    OBYTES,
    IMCASTS,
    OMCASTS,
    IQDROPS,
    OQDROPS,
    NOPROTO,
    IFCOUNTERS,
}

/// The stack's own numbering of the interface counters.
#[derive(Debug, Clone, Copy, PartialEq, Eq, Structural)]
pub enum ift_counter {
    IFCOUNTER_IPACKETS,
    IFCOUNTER_IERRORS,
    IFCOUNTER_OPACKETS,
    IFCOUNTER_OERRORS,
    IFCOUNTER_COLLISIONS,
    IFCOUNTER_IBYTES,
    IFCOUNTER_OBYTES,
    IFCOUNTER_IMCASTS,
    IFCOUNTER_OMCASTS,
    IFCOUNTER_IQDROPS,
    IFCOUNTER_OQDROPS,
    IFCOUNTER_NOPROTO,
    IFCOUNTERS,
}

/// Position of a counter in the interface's counter table.
pub open spec fn counter_index(c: IftCounter) -> int {
    match c {
        IftCounter::IPACKETS => 0,
        IftCounter::IERRORS => 1,
        IftCounter::OPACKETS => 2,
        IftCounter::OERRORS => 3,
        IftCounter::COLLISIONS => 4,
        IftCounter::IBYTES => 5,
        IftCounter::OBYTES => 6,
        IftCounter::IMCASTS => 7,
        IftCounter::OMCASTS => 8,
        IftCounter::IQDROPS => 9,
        IftCounter::OQDROPS => 10,
        IftCounter::NOPROTO => 11,
        IftCounter::IFCOUNTERS => 12,
    }
}

/// Position of a stack counter in the interface's counter table.
pub open spec fn ift_counter_index(c: ift_counter) -> int {
    match c {
        ift_counter::IFCOUNTER_IPACKETS => 0,
        ift_counter::IFCOUNTER_IERRORS => 1,
        ift_counter::IFCOUNTER_OPACKETS => 2,
        ift_counter::IFCOUNTER_OERRORS => 3,
        ift_counter::IFCOUNTER_COLLISIONS => 4,
        ift_counter::IFCOUNTER_IBYTES => 5,
        ift_counter::IFCOUNTER_OBYTES => 6,
        ift_counter::IFCOUNTER_IMCASTS => 7,
        ift_counter::IFCOUNTER_OMCASTS => 8,
        ift_counter::IFCOUNTER_IQDROPS => 9,
        ift_counter::IFCOUNTER_OQDROPS => 10,
        ift_counter::IFCOUNTER_NOPROTO => 11,
        ift_counter::IFCOUNTERS => 12,
    }
}

impl ift_counter {
    /// The stack counter that corresponds to a driver counter.
    pub fn from(cnt: IftCounter) -> (r: ift_counter)
        ensures
            ift_counter_index(r) == counter_index(cnt),
    {
        match cnt {
            IftCounter::IPACKETS => ift_counter::IFCOUNTER_IPACKETS,
            IftCounter::IERRORS => ift_counter::IFCOUNTER_IERRORS,
            IftCounter::OPACKETS => ift_counter::IFCOUNTER_OPACKETS,
            IftCounter::OERRORS => ift_counter::IFCOUNTER_OERRORS,
            IftCounter::COLLISIONS => ift_counter::IFCOUNTER_COLLISIONS,
            IftCounter::IBYTES => ift_counter::IFCOUNTER_IBYTES,
            IftCounter::OBYTES => ift_counter::IFCOUNTER_OBYTES,
            IftCounter::IMCASTS => ift_counter::IFCOUNTER_IMCASTS,
            IftCounter::OMCASTS => ift_counter::IFCOUNTER_OMCASTS,
            IftCounter::IQDROPS => ift_counter::IFCOUNTER_IQDROPS,
            IftCounter::OQDROPS => ift_counter::IFCOUNTER_OQDROPS,
            IftCounter::NOPROTO => ift_counter::IFCOUNTER_NOPROTO,
            IftCounter::IFCOUNTERS => ift_counter::IFCOUNTERS,
        }
    }
}

/// The network interface as the driver sees and configures it. The glue
/// that owns the real interface copies these values in and out.
#[derive(Debug, Clone)]
pub struct IfNet {
    pub mtu: i32,
    pub capenable: u32,
    pub capabilities: u32,
    pub flags: u32,
    pub lladdr: [u8; 6],
    /// The multicast groups the interface has joined.
    pub multiaddrs: Vec<[u8; 6]>,
    /// The stack's own counters, indexed by [`counter_index`].
    pub counters: Vec<u64>,
    pub if_baudrate: u64,
    pub hwtsomax: u32,
    pub hwtsomaxsegcount: u32,
    pub hwtsomaxsegsize: u32,
    pub sendqlen: i32,
    pub sendqready: bool,
    pub ifheaderlen: i32,
}

impl IfNet {
    pub fn set_hwtsomax(&mut self, v: u32)
        ensures
            *final(self) == (IfNet { hwtsomax: v, ..*old(self) }),
    {
        self.hwtsomax = v;
    }

    pub fn set_hwtsomax_segcount(&mut self, v: u32)
        ensures
            *final(self) == (IfNet { hwtsomaxsegcount: v, ..*old(self) }),
    {
        self.hwtsomaxsegcount = v;
    }

    pub fn set_hwtsomax_segsize(&mut self, v: u32)
        ensures
            *final(self) == (IfNet { hwtsomaxsegsize: v, ..*old(self) }),
    {
        self.hwtsomaxsegsize = v;
    }

    pub fn set_sendqlen(&mut self, v: i32)
        ensures
            *final(self) == (IfNet { sendqlen: v, ..*old(self) }),
    {
        self.sendqlen = v;
    }

    pub fn set_sendqready(&mut self)
        ensures
            *final(self) == (IfNet { sendqready: true, ..*old(self) }),
    {
        self.sendqready = true;
    }

    pub fn set_ifheaderlen(&mut self, len: i32)
        ensures
            *final(self) == (IfNet { ifheaderlen: len, ..*old(self) }),
    {
        self.ifheaderlen = len;
    }

    /// Sets the bits of `setbit` and then clears those of `clearbit` in the
    /// interface capabilities.
    pub fn set_capabilitiesbit(&mut self, setbit: u32, clearbit: u32)
        ensures
            *final(self) == (IfNet {
                capabilities: (old(self).capabilities | setbit) & !clearbit,
                ..*old(self)
            }),
    {
        self.capabilities = (self.capabilities | setbit) & !clearbit;
    }

    /// Sets the bits of `setcap` and then clears those of `clearcap` in the
    /// enabled capabilities; answers the new enabled set.
    pub fn set_capenablebit(&mut self, setcap: u32, clearcap: u32) -> (r: u32)
        ensures
            *final(self) == (IfNet {
                capenable: (old(self).capenable | setcap) & !clearcap,
                ..*old(self)
            }),
            r == final(self).capenable,
    {
        self.capenable = (self.capenable | setcap) & !clearcap;
        self.capenable
    }

    pub fn set_baudrate(&mut self, rate: u64)
        ensures
            *final(self) == (IfNet { if_baudrate: rate, ..*old(self) }),
    {
        self.if_baudrate = rate;
    }

    /// The stack's own value of a counter (zero when the table lacks it).
    pub fn counter_default(&self, cnt: IftCounter) -> (r: u64)
        ensures
            r == (if counter_index(cnt) < self.counters@.len() {
                self.counters@[counter_index(cnt)]
            } else {
                0
            }),
    {
        let i: usize = match cnt {
            IftCounter::IPACKETS => 0,
            IftCounter::IERRORS => 1,
            IftCounter::OPACKETS => 2,
            IftCounter::OERRORS => 3,
            IftCounter::COLLISIONS => 4,
            IftCounter::IBYTES => 5,
            IftCounter::OBYTES => 6,
            IftCounter::IMCASTS => 7,
            IftCounter::OMCASTS => 8,
            IftCounter::IQDROPS => 9,
            IftCounter::OQDROPS => 10,
            IftCounter::NOPROTO => 11,
            IftCounter::IFCOUNTERS => 12,
        };
        if i < self.counters.len() {
            self.counters[i]
        } else {
            0
        }
    }

    pub fn lladdr(&self) -> (r: [u8; 6])
        ensures
            r == self.lladdr,
    {
        self.lladdr
    }

    pub fn mtu(&self) -> (r: i32)
        ensures
            r == self.mtu,
    {
        self.mtu
    }

    pub fn capenable(&self) -> (r: u32)
        ensures
            r == self.capenable,
    {
        self.capenable
    }

    pub fn flags(&self) -> (r: u32)
        ensures
            r == self.flags,
    {
        self.flags
    }

    /// Number of joined multicast groups, counting no further than `max`.
    pub fn multiaddr_count(&self, max: u32) -> (r: u32)
        ensures
            r as int == if self.multiaddrs@.len() < max { self.multiaddrs@.len() as int } else {
                max as int
            },
    {
        if self.multiaddrs.len() < max as usize {
            self.multiaddrs.len() as u32
        } else {
            max
        }
    }

    /// Copies the first `max` (at most) multicast addresses into `mta`,
    /// six bytes each, and answers how many were copied.
    pub fn multiaddr_array(&self, mta: &mut Vec<u8>, max: u32) -> (mcnt: u32)
        requires
            old(mta)@.len() >= 6 * max,
        ensures
            mcnt == (if self.multiaddrs@.len() < max { self.multiaddrs@.len() as u32 } else {
                max
            }),
            final(mta)@.len() == old(mta)@.len(),
            forall|i: int, j: int|
                #![trigger final(mta)@[6 * i + j]]
                0 <= i < mcnt && 0 <= j < 6 ==> final(mta)@[6 * i + j]
                    == self.multiaddrs@[i][j],
            forall|k: int|
                6 * mcnt <= k < final(mta)@.len() ==> final(mta)@[k] == old(mta)@[k],
    {
        let n: usize = if self.multiaddrs.len() < max as usize {
            self.multiaddrs.len()
        } else {
            max as usize
        };
        let mut i: usize = 0;
        while i < n
            invariant
                n <= self.multiaddrs@.len(),
                n <= max,
                i <= n,
                old(mta)@.len() >= 6 * max,
                mta@.len() == old(mta)@.len(),
                forall|a: int, b: int|
                    #![trigger mta@[6 * a + b]]
                    0 <= a < i && 0 <= b < 6 ==> mta@[6 * a + b] == self.multiaddrs@[a][b],
                forall|k: int| 6 * i <= k < mta@.len() ==> mta@[k] == old(mta)@[k],
            decreases n - i,
        {
            let addr: [u8; 6] = self.multiaddrs[i];
            let mut j: usize = 0;
            while j < 6
                invariant
                    i < n,
                    n <= max,
                    old(mta)@.len() >= 6 * max,
                    mta@.len() == old(mta)@.len(),
                    j <= 6,
                    addr == self.multiaddrs@[i as int],
                    forall|a: int, b: int|
                        #![trigger mta@[6 * a + b]]
                        0 <= a < i && 0 <= b < 6 ==> mta@[6 * a + b] == self.multiaddrs@[a][b],
                    forall|b: int| 0 <= b < j ==> mta@[6 * i + b] == addr[b],
                    forall|k: int| 6 * i + j <= k < mta@.len() ==> mta@[k] == old(mta)@[k],
                decreases 6 - j,
            {
                assert(6 * i + j < 6 * max) by (nonlinear_arith)
                    requires
                        i < max,
                        j < 6,
                ;
                let mlen = mta.len();
                assert(6 * i + j < mlen);
                mta.set(6 * i + j, addr[j]);
                j = j + 1;
            }
            i = i + 1;
        }
        n as u32
    }
}

/// The media list of the interface: each entry is a media word and its
/// driver data; `current` is the selected word.
#[derive(Debug, Clone)]
pub struct IfMedia {
    pub entries: Vec<(i32, i32)>,
    pub current: i32,
}

impl IfMedia {
    /// Adds a media word to the list.
    pub fn add(&mut self, mword: i32, data: i32)
        ensures
            final(self).entries@ == old(self).entries@.push((mword, data)),
            final(self).current == old(self).current,
    {
        self.entries.push((mword, data));
    }

    /// Selects the current media word.
    pub fn set(&mut self, mword: i32)
        ensures
            final(self).entries@ == old(self).entries@,
            final(self).current == mword,
    {
        self.current = mword;
    }
}

/// Which descriptor format the transmit/receive callbacks use.
#[derive(Debug, Clone, Copy, PartialEq, Eq, Structural)]
pub enum TxRxKind {
    Unset,
    Em,
    Lem,
}

/// The iflib shared context (the `if_softc_ctx` fields the driver uses).
/// Only the first entry of iflib's per-queue-type arrays is used; it is
/// kept as a plain field (`isc_ntxd0`, ...).
#[derive(Debug, Clone, Copy, PartialEq, Eq, Structural)]
pub struct IfLibShared {
    pub isc_ntxqsets: i32,
    pub isc_nrxqsets: i32,
    pub isc_ntxqsets_max: i32,
    pub isc_nrxqsets_max: i32,
    pub isc_ntxd0: i32,
    pub isc_nrxd0: i32,
    pub isc_txqsizes0: u32,
    pub isc_rxqsizes0: u32,
    pub isc_txd_size0: u8,
    pub isc_rxd_size0: u8,
    pub isc_msix_bar: i32,
    pub isc_tx_nsegments: i32,
    pub isc_tx_tso_segments_max: i32,
    pub isc_tx_tso_size_max: i32,
    pub isc_tx_tso_segsize_max: i32,
    pub isc_tx_csum_flags: i32,
    pub isc_capabilities: i32,
    pub isc_capenable: i32,
    pub isc_intr: iflib_intr_mode_t,
    pub isc_max_frame_size: u16,
    pub isc_pause_frames: u32,
    pub isc_txrx: TxRxKind,
}

/// Size of a transmit or receive descriptor, in bytes.
pub const DESC_SIZE: u32 = 16;

/// `x` rounded up to a multiple of the descriptor-ring alignment.
pub open spec fn roundup_dba(x: u32) -> u32 {
    ((x + (EM_DBA_ALIGN - 1)) as u32) & !((EM_DBA_ALIGN - 1) as u32)
}

impl IfLibShared {
    /// Number of queue sets supported by a MAC type: one for every type.
    pub fn num_queues(&self, mactype: MacType) -> (r: i32)
        ensures
            r == 1,
    {
        match mactype {
            MacType::Mac_82545 => 1,
            MacType::Mac_pch_lpt => 1,
            MacType::Mac_pch_spt => 1,
            _ => 1,
        }
    }

    pub fn tx_process_limit(&self) -> (r: i32)
        ensures
            r == self.isc_ntxd0,
    {
        self.isc_ntxd0
    }

    pub fn rx_process_limit(&self) -> (r: i32)
        ensures
            r == self.isc_nrxd0,
    {
        self.isc_nrxd0
    }

    /// Fills in the queue geometry and offload capabilities for a MAC type.
    /// igb-class MACs and MACs older than the 82543 are refused (after the
    /// common fields are set).
    pub fn setup(&mut self, mactype: MacType) -> (r: Result<(), String>)
        requires
            0 <= old(self).isc_ntxd0 < 0x0800_0000,
            0 <= old(self).isc_nrxd0 < 0x0800_0000,
        ensures
            final(self).isc_ntxqsets_max == 1,
            final(self).isc_nrxqsets_max == 1,
            final(self).isc_tx_nsegments == EM_MAX_SCATTER,
            r.is_err() <==> (mac_rank(mactype) >= IGB_MAC_MIN_RANK || mac_rank(mactype) < 2),
            mac_rank(mactype) >= IGB_MAC_MIN_RANK ==> final(self).isc_msix_bar
                == PCIR_BARS + EM_MSIX_BAR * 4 && final(self).isc_txrx == old(self).isc_txrx,
            EM_MAC_MIN_RANK <= mac_rank(mactype) < IGB_MAC_MIN_RANK ==> {
                &&& final(self).isc_txqsizes0 == roundup_dba(
                    ((old(self).isc_ntxd0 + 1) * DESC_SIZE) as u32,
                )
                &&& final(self).isc_rxqsizes0 == roundup_dba(
                    ((old(self).isc_nrxd0 + 1) * DESC_SIZE) as u32,
                )
                &&& final(self).isc_txd_size0 == DESC_SIZE
                &&& final(self).isc_rxd_size0 == DESC_SIZE
                &&& final(self).isc_capabilities == EM_CAPS as i32
                &&& final(self).isc_capenable == (EM_CAPS & !(IFCAP_TSO4 | IFCAP_VLAN_HWTSO)) as i32
                &&& final(self).isc_tx_tso_segments_max == EM_MAX_SCATTER
                &&& final(self).isc_tx_tso_size_max == EM_TSO_SIZE
                &&& final(self).isc_tx_tso_segsize_max == EM_TSO_SEG_SIZE
                &&& final(self).isc_tx_csum_flags == (CSUM_TCP | CSUM_UDP | CSUM_IP_TSO) as i32
                &&& final(self).isc_msix_bar == PCIR_BARS + EM_MSIX_BAR * 4
                &&& final(self).isc_txrx == TxRxKind::Em
            },
            mac_rank(mactype) < EM_MAC_MIN_RANK ==> {
                &&& final(self).isc_txqsizes0 == roundup_dba(
                    ((old(self).isc_ntxd0 + 1) * DESC_SIZE) as u32,
                )
                &&& final(self).isc_rxqsizes0 == roundup_dba(
                    ((old(self).isc_nrxd0 + 1) * DESC_SIZE) as u32,
                )
                &&& final(self).isc_txd_size0 == DESC_SIZE
                &&& final(self).isc_rxd_size0 == DESC_SIZE
                &&& final(self).isc_capabilities == LEM_CAPS as i32
                &&& final(self).isc_capenable == LEM_CAPS as i32
                &&& (mac_rank(mactype) >= 2 ==> {
                    &&& final(self).isc_tx_csum_flags == (CSUM_TCP | CSUM_UDP) as i32
                    &&& final(self).isc_msix_bar == 0
                    &&& final(self).isc_txrx == TxRxKind::Lem
                })
            },
            final(self).isc_ntxd0 == old(self).isc_ntxd0,
            final(self).isc_nrxd0 == old(self).isc_nrxd0,
            final(self).isc_ntxqsets == old(self).isc_ntxqsets,
            final(self).isc_nrxqsets == old(self).isc_nrxqsets,
            final(self).isc_intr == old(self).isc_intr,
            final(self).isc_max_frame_size == old(self).isc_max_frame_size,
            final(self).isc_pause_frames == old(self).isc_pause_frames,
    {
        self.isc_msix_bar = (PCIR_BARS + EM_MSIX_BAR * 4) as i32;
        self.isc_tx_nsegments = EM_MAX_SCATTER as i32;
        let nqs = self.num_queues(mactype);
        self.isc_nrxqsets_max = nqs;
        self.isc_ntxqsets_max = nqs;
        let rank = mactype.rank();
        if rank >= IGB_MAC_MIN_RANK {
            return Err("incomplete function - returning error".to_string());
        } else if rank >= EM_MAC_MIN_RANK {
            let t: u32 = (self.isc_ntxd0 + 1) as u32 * DESC_SIZE;
            self.isc_txqsizes0 = (t + (EM_DBA_ALIGN - 1)) & !(EM_DBA_ALIGN - 1);
            let r: u32 = (self.isc_nrxd0 + 1) as u32 * DESC_SIZE;
            self.isc_rxqsizes0 = (r + (EM_DBA_ALIGN - 1)) & !(EM_DBA_ALIGN - 1);
            self.isc_txd_size0 = DESC_SIZE as u8;
            self.isc_rxd_size0 = DESC_SIZE as u8;
            self.isc_capabilities = EM_CAPS as i32;
            self.isc_capenable = EM_CAPS as i32;
            self.isc_tx_tso_segments_max = EM_MAX_SCATTER as i32;
            self.isc_tx_tso_size_max = EM_TSO_SIZE as i32;
            self.isc_tx_tso_segsize_max = EM_TSO_SEG_SIZE as i32;
            self.isc_capenable = (EM_CAPS & !(IFCAP_TSO4 | IFCAP_VLAN_HWTSO)) as i32;
            self.isc_tx_csum_flags = (CSUM_TCP | CSUM_UDP | CSUM_IP_TSO) as i32;
            self.isc_txrx = TxRxKind::Em;
        } else {
            let t: u32 = (self.isc_ntxd0 + 1) as u32 * DESC_SIZE;
            self.isc_txqsizes0 = (t + (EM_DBA_ALIGN - 1)) & !(EM_DBA_ALIGN - 1);
            let r: u32 = (self.isc_nrxd0 + 1) as u32 * DESC_SIZE;
            self.isc_rxqsizes0 = (r + (EM_DBA_ALIGN - 1)) & !(EM_DBA_ALIGN - 1);
            self.isc_txd_size0 = DESC_SIZE as u8;
            self.isc_rxd_size0 = DESC_SIZE as u8;
            self.isc_capenable = LEM_CAPS as i32;
            self.isc_capabilities = LEM_CAPS as i32;
            if rank < 2 {
                return Err("incomplete function - returning error".to_string());
            }
            self.isc_tx_csum_flags = (CSUM_TCP | CSUM_UDP) as i32;
            self.isc_msix_bar = 0;
            self.isc_txrx = TxRxKind::Lem;
        }
        Ok(())
    }
}

/// Media status reported to the stack.
#[derive(Debug, Clone, Copy, PartialEq, Eq, Structural)]
pub struct IfMediaReq {
    pub ifm_status: i32,
    pub ifm_active: i32,
}

/// A DMA segment of an outgoing packet.
#[derive(Debug, Clone, Copy, PartialEq, Eq, Structural)]
pub struct BusDmaSegment {
    pub ds_addr: u64,
    pub ds_len: u64,
}

/// Description of an outgoing packet handed to the transmit callback.
#[derive(Debug, Clone)]
pub struct IfPacketInfo {
    pub ipi_len: u32,
    pub ipi_qsidx: u16,
    pub ipi_nsegs: u16,
    pub ipi_ndescs: u16,
    pub ipi_flags: u16,
    pub ipi_pidx: u16,
    pub ipi_new_pidx: u16,
    pub ipi_ehdrlen: u8,
    pub ipi_ip_hlen: u8,
    pub ipi_tcp_hlen: u8,
    pub ipi_ipproto: u8,
    pub ipi_csum_flags: u32,
    pub ipi_tso_segsz: u16,
    pub ipi_vtag: u16,
    pub ipi_etype: u16,
    pub ipi_mflags: u8,
    pub ipi_segs: Vec<BusDmaSegment>,
}

/// A received fragment: free-list id, descriptor index and length.
#[derive(Debug, Clone, Copy, PartialEq, Eq, Structural)]
pub struct IfRxdFrag {
    pub irf_flid: u8,
    pub irf_idx: u16,
    pub irf_len: u16,
}

/// Description of a received packet filled in by the receive callback.
#[derive(Debug, Clone)]
pub struct IfRxdInfo {
    pub iri_qsidx: u16,
    pub iri_vtag: u16,
    pub iri_len: u16,
    pub iri_cidx: u16,
    pub iri_flowid: u32,
    pub iri_flags: u8,
    pub iri_csum_flags: u32,
    pub iri_csum_data: u32,
    pub iri_nfrags: u8,
    pub iri_rsstype: u8,
    pub iri_frags: Vec<IfRxdFrag>,
}

/// A receive-ring refill request: the new buffer addresses for `count`
/// descriptors starting at `pidx`.
#[derive(Debug, Clone)]
pub struct IfRxdUpdate {
    pub iru_qsidx: u16,
    pub iru_count: u16,
    pub iru_pidx: u16,
    pub iru_paddrs: Vec<u64>,
}

} // verus!
