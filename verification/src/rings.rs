//! Descriptor rings of the transmit and receive queues, and the
//! statistics the driver accumulates.
use vstd::prelude::*;

verus! {

/// A transmit descriptor slot (16 bytes). A slot holds either a data
/// descriptor (buffer address, `lower` = length/cso/cmd, `upper` =
/// status/css/special) or a context descriptor (`buffer_addr` = the IP and
/// TCP/UDP checksum setup words, `lower` = command and length, `upper` =
/// status, header length and MSS).
#[derive(Debug, Clone, Copy, PartialEq, Eq, Structural)]
pub struct TxDesc {
    pub buffer_addr: u64,
    pub lower: u32,
    pub upper: u32,
}

/// An extended receive descriptor slot: `lower` holds the buffer address
/// when handed to the hardware and the (mrq, rss) words after write-back.
#[derive(Debug, Clone, Copy, PartialEq, Eq, Structural)]
pub struct RxDescExtended {
    pub lower: u64,
    pub status_error: u32,
    pub length: u16,
    pub vlan: u16,
}

/// A legacy receive descriptor slot.
#[derive(Debug, Clone, Copy, PartialEq, Eq, Structural)]
pub struct RxDesc {
    pub buffer_addr: u64,
    pub length: u16,
    pub csum: u16,
    pub status: u8,
    pub errors: u8,
    pub special: u16,
}

/// A transmit ring: its descriptors, the report-status queue and the
/// checksum-offload context last programmed.
#[derive(Debug, Clone)]
pub struct TxRing {
    pub tx_base: Vec<TxDesc>,
    pub tx_paddr: u64,
    pub tx_rsq: Vec<u16>,
    pub tx_tso: bool,
    pub me: u8,
    pub tx_rs_cidx: u16,
    pub tx_rs_pidx: u16,
    pub tx_cidx_processed: u16,
    pub tx_irq: u64,
    pub csum_flags: i32,
    pub csum_lhlen: i32,
    pub csum_iphlen: i32,
    pub csum_thlen: i32,
    pub csum_mss: i32,
    pub csum_pktlen: i32,
    pub csum_txd_upper: u32,
    pub csum_txd_lower: u32,
}

impl TxRing {
    /// Forgets the checksum-offload context: every field from the flags to
    /// the descriptor words is cleared.
    pub fn clear_checksum(&mut self)
        ensures
            final(self).csum_flags == 0,
            final(self).csum_iphlen == 0,
            final(self).csum_lhlen == 0,
            final(self).csum_mss == 0,
            final(self).csum_pktlen == 0,
            final(self).csum_txd_lower == 0,
            final(self).csum_txd_upper == 0,
            final(self).csum_thlen == 0,
            final(self).tx_base@ == old(self).tx_base@,
            final(self).tx_rsq@ == old(self).tx_rsq@,
            final(self).tx_paddr == old(self).tx_paddr,
            final(self).tx_tso == old(self).tx_tso,
            final(self).me == old(self).me,
            final(self).tx_rs_cidx == old(self).tx_rs_cidx,
            final(self).tx_rs_pidx == old(self).tx_rs_pidx,
            final(self).tx_cidx_processed == old(self).tx_cidx_processed,
            final(self).tx_irq == old(self).tx_irq,
    {
        self.csum_flags = 0;
        self.csum_iphlen = 0;
        self.csum_lhlen = 0;
        self.csum_mss = 0;
        self.csum_pktlen = 0;
        self.csum_thlen = 0;
        self.csum_txd_lower = 0;
        self.csum_txd_upper = 0;
    }
}

#[derive(Debug, Clone)]
pub struct TxQueue {
    pub msix: u32,
    pub eims: u32,
    pub me: u32,
    pub txr: TxRing,
}

/// A receive ring. The descriptors are kept in the extended format (`em`
/// MACs) or in the legacy format (`lem` MACs); only one of the two is used
/// for a given device.
#[derive(Debug, Clone)]
pub struct RxRing {
    pub me: u32,
    pub payload: u32,
    pub rx_base: Vec<RxDescExtended>,
    pub rx_base_legacy: Vec<RxDesc>,
    pub rx_paddr: u64,
    pub discard: bool,
    pub rx_irq: u64,
    pub rx_discarded: u64,
    pub rx_packets: u64,
    pub rx_bytes: u64,
}

#[derive(Debug, Clone)]
pub struct RxQueue {
    pub me: u32,
    pub msix: u32,
    pub eims: u32,
    pub rxr: RxRing,
    pub irqs: u64,
}

/// Interrupt moderation setting: register offset and value.
#[derive(Debug, Clone, Copy, PartialEq, Eq, Structural)]
pub struct IntDelayInfo {
    pub offset: i32,
    pub value: u32,
}

/// Hardware statistics accumulated from the clear-on-read counters.
#[derive(Debug, Clone, Copy, PartialEq, Eq, Structural)]
pub struct HwStats {
    pub crcerrs: u64,
    pub algnerrc: u64,
    pub symerrs: u64,
    pub rxerrc: u64,
    pub mpc: u64,
    pub scc: u64,
    pub ecol: u64,
    pub mcc: u64,
    pub latecol: u64,
    pub colc: u64,
    pub dc: u64,
    pub tncrs: u64,
    pub sec: u64,
    pub cexterr: u64,
    pub rlec: u64,
    pub xonrxc: u64,
    pub xontxc: u64,
    pub xoffrxc: u64,
    pub xofftxc: u64,
    pub fcruc: u64,
    pub prc64: u64,
    pub prc127: u64,
    pub prc255: u64,
    pub prc511: u64,
    pub prc1023: u64,
    pub prc1522: u64,
    pub gprc: u64,
    pub bprc: u64,
    pub mprc: u64,
    pub gptc: u64,
    pub gorc: u64,
    pub gotc: u64,
    pub rnbc: u64,
    pub ruc: u64,
    pub rfc: u64,
    pub roc: u64,
    pub rjc: u64,
    pub mgprc: u64,
    pub mgpdc: u64,
    pub mgptc: u64,
    pub tor: u64,
    pub tot: u64,
    pub tpr: u64,
    pub tpt: u64,
    pub ptc64: u64,
    pub ptc127: u64,
    pub ptc255: u64,
    pub ptc511: u64,
    pub ptc1023: u64,
    pub ptc1522: u64,
    pub mptc: u64,
    pub bptc: u64,
    pub tsctc: u64,
    pub tsctfc: u64,
    pub iac: u64,
    pub icrxptc: u64,
    pub icrxatc: u64,
    pub ictxptc: u64,
    pub ictxatc: u64,
    pub ictxqec: u64,
    pub ictxqmtc: u64,
    pub icrxdmtc: u64,
    pub icrxoc: u64,
    pub cbtmpc: u64,
    pub htdpmc: u64,
    pub cbrdpc: u64,
    pub cbrmpc: u64,
    pub rpthc: u64,
    pub hgptc: u64,
    pub htcbdpc: u64,
    pub hgorc: u64,
    pub hgotc: u64,
    pub lenerrs: u64,
    pub scvpc: u64,
    pub hrmpc: u64,
    pub doosync: u64,
    pub o2bgptc: u64,
    pub o2bspc: u64,
    pub b2ospc: u64,
    pub b2ogprc: u64,
}

} // verus!
