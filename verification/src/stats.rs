//! Accumulating the hardware statistics from the clear-on-read counter
//! registers, and the interface counters derived from them.
use vstd::prelude::*;
use crate::adapter::{Adapter, do_read_register};
use crate::consts::{
    E1000_ALGNERRC, E1000_BPRC, E1000_BPTC, E1000_CEXTERR, E1000_COLC, E1000_CRCERRS, E1000_DC,
    E1000_ECOL, E1000_FCRUC, E1000_GORCH, E1000_GORCL, E1000_GOTCH, E1000_GOTCL, E1000_GPRC,
    E1000_GPTC, E1000_IAC, E1000_ICRXATC, E1000_ICRXDMTC, E1000_ICRXOC, E1000_ICRXPTC,
    E1000_ICTXATC, E1000_ICTXPTC, E1000_ICTXQEC, E1000_ICTXQMTC, E1000_LATECOL, E1000_MCC,
    E1000_MPC, E1000_MPRC, E1000_MPTC, E1000_PRC1023, E1000_PRC127, E1000_PRC1522, E1000_PRC255,
    E1000_PRC511, E1000_PRC64, E1000_PTC1023, E1000_PTC127, E1000_PTC1522, E1000_PTC255,
    E1000_PTC511, E1000_PTC64, E1000_RFC, E1000_RJC, E1000_RLEC, E1000_RNBC, E1000_ROC,
    E1000_RUC, E1000_RXERRC, E1000_SCC, E1000_SEC, E1000_STATUS, E1000_STATUS_LU, E1000_SYMERRS,
    E1000_TNCRS, E1000_TORH, E1000_TOTH, E1000_TPR, E1000_TPT, E1000_TSCTC, E1000_TSCTFC,
    E1000_XOFFRXC, E1000_XOFFTXC, E1000_XONRXC, E1000_XONTXC,
};
use crate::hw::{MediaType, mac_rank};
use crate::iflib::{IfLibShared};
use crate::platform::{IoOp, Platform, is_read_of, read_value};
use crate::rings::{HwStats};

verus! {

/// `a + b` wrapped to 64 bits, as the counters accumulate.
pub open spec fn wadd(a: u64, b: u64) -> u64 {
    if a + b > u64::MAX {
        (a + b - (u64::MAX + 1)) as u64
    } else {
        (a + b) as u64
    }
}

/// Adds `b` to `a`, wrapping to 64 bits.
fn acc(a: u64, b: u64) -> (r: u64)
    ensures
        r == wadd(a, b),
{
    a.wrapping_add(b)
}

/// The statistics registers read on every update, in reading order (the
/// 64-bit octet counters as low, then high word).
pub open spec fn main_stat_regs() -> Seq<u32> {
    seq![
        E1000_CRCERRS,
        E1000_MPC,
        E1000_SCC,
        E1000_ECOL,
        E1000_MCC,
        E1000_LATECOL,
        E1000_COLC,
        E1000_DC,
        E1000_RLEC,
        E1000_XONRXC,
        E1000_XONTXC,
        E1000_XOFFRXC,
        E1000_XOFFTXC,
        E1000_FCRUC,
        E1000_PRC64,
        E1000_PRC127,
        E1000_PRC255,
        E1000_PRC511,
        E1000_PRC1023,
        E1000_PRC1522,
        E1000_GPRC,
        E1000_BPRC,
        E1000_MPRC,
        E1000_GPTC,
        E1000_GORCL,
        E1000_GORCH,
        E1000_GOTCL,
        E1000_GOTCH,
        E1000_RNBC,
        E1000_RUC,
        E1000_RFC,
        E1000_ROC,
        E1000_RJC,
        E1000_TORH,
        E1000_TOTH,
        E1000_TPR,
        E1000_TPT,
        E1000_PTC64,
        E1000_PTC127,
        E1000_PTC255,
        E1000_PTC511,
        E1000_PTC1023,
        E1000_PTC1522,
        E1000_MPTC,
        E1000_BPTC,
        E1000_IAC,
        E1000_ICRXPTC,
        E1000_ICRXATC,
        E1000_ICTXPTC,
        E1000_ICTXATC,
        E1000_ICTXQEC,
        E1000_ICTXQMTC,
        E1000_ICRXDMTC,
        E1000_ICRXOC,
    ]
}

/// The statistics registers read on the 82543 and later, in reading order.
pub open spec fn late_stat_regs() -> Seq<u32> {
    seq![
        E1000_ALGNERRC,
        E1000_RXERRC,
        E1000_TNCRS,
        E1000_CEXTERR,
        E1000_TSCTC,
        E1000_TSCTFC,
    ]
}

/// Number of registers of `main_stat_regs`.
pub const MAIN_STAT_COUNT: usize = 54;

/// The statistics with the values `v` of `main_stat_regs` added.
#[verifier::opaque]
pub open spec fn add_main_stats(s: HwStats, v: Seq<u64>) -> HwStats {
    HwStats {
        crcerrs: wadd(s.crcerrs, v[0]),
        mpc: wadd(s.mpc, v[1]),
        scc: wadd(s.scc, v[2]),
        ecol: wadd(s.ecol, v[3]),
        mcc: wadd(s.mcc, v[4]),
        latecol: wadd(s.latecol, v[5]),
        colc: wadd(s.colc, v[6]),
        dc: wadd(s.dc, v[7]),
        rlec: wadd(s.rlec, v[8]),
        xonrxc: wadd(s.xonrxc, v[9]),
        xontxc: wadd(s.xontxc, v[10]),
        xoffrxc: wadd(s.xoffrxc, v[11]),
        xofftxc: wadd(s.xofftxc, v[12]),
        fcruc: wadd(s.fcruc, v[13]),
        prc64: wadd(s.prc64, v[14]),
        prc127: wadd(s.prc127, v[15]),
        prc255: wadd(s.prc255, v[16]),
        prc511: wadd(s.prc511, v[17]),
        prc1023: wadd(s.prc1023, v[18]),
        prc1522: wadd(s.prc1522, v[19]),
        gprc: wadd(s.gprc, v[20]),
        bprc: wadd(s.bprc, v[21]),
        mprc: wadd(s.mprc, v[22]),
        gptc: wadd(s.gptc, v[23]),
        gorc: wadd(s.gorc, (v[24] + v[25] * 0x1_0000_0000) as u64),
        gotc: wadd(s.gotc, (v[26] + v[27] * 0x1_0000_0000) as u64),
        rnbc: wadd(s.rnbc, v[28]),
        ruc: wadd(s.ruc, v[29]),
        rfc: wadd(s.rfc, v[30]),
        roc: wadd(s.roc, v[31]),
        rjc: wadd(s.rjc, v[32]),
        tor: wadd(s.tor, v[33]),
        tot: wadd(s.tot, v[34]),
        tpr: wadd(s.tpr, v[35]),
        tpt: wadd(s.tpt, v[36]),
        ptc64: wadd(s.ptc64, v[37]),
        ptc127: wadd(s.ptc127, v[38]),
        ptc255: wadd(s.ptc255, v[39]),
        ptc511: wadd(s.ptc511, v[40]),
        ptc1023: wadd(s.ptc1023, v[41]),
        ptc1522: wadd(s.ptc1522, v[42]),
        mptc: wadd(s.mptc, v[43]),
        bptc: wadd(s.bptc, v[44]),
        iac: wadd(s.iac, v[45]),
        icrxptc: wadd(s.icrxptc, v[46]),
        icrxatc: wadd(s.icrxatc, v[47]),
        ictxptc: wadd(s.ictxptc, v[48]),
        ictxatc: wadd(s.ictxatc, v[49]),
        ictxqec: wadd(s.ictxqec, v[50]),
        ictxqmtc: wadd(s.ictxqmtc, v[51]),
        icrxdmtc: wadd(s.icrxdmtc, v[52]),
        icrxoc: wadd(s.icrxoc, v[53]),
        ..s
    }
}

/// The statistics with the values `v` of `late_stat_regs` added.
#[verifier::opaque]
pub open spec fn add_late_stats(s: HwStats, v: Seq<u64>) -> HwStats {
    HwStats {
        algnerrc: wadd(s.algnerrc, v[0]),
        rxerrc: wadd(s.rxerrc, v[1]),
        tncrs: wadd(s.tncrs, v[2]),
        cexterr: wadd(s.cexterr, v[3]),
        tsctc: wadd(s.tsctc, v[4]),
        tsctfc: wadd(s.tsctfc, v[5]),
        ..s
    }
}

/// The counter of `s` that statistics register `reg` accumulates into: the
/// one named after the register (the transmit and receive octet totals for
/// their high words); 0 for other registers.
pub open spec fn stat_counter(s: HwStats, reg: u32) -> u64 {
    if reg == E1000_CRCERRS {
        s.crcerrs
    } else if reg == E1000_MPC {
        s.mpc
    } else if reg == E1000_SCC {
        s.scc
    } else if reg == E1000_ECOL {
        s.ecol
    } else if reg == E1000_MCC {
        s.mcc
    } else if reg == E1000_LATECOL {
        s.latecol
    } else if reg == E1000_COLC {
        s.colc
    } else if reg == E1000_DC {
        s.dc
    } else if reg == E1000_RLEC {
        s.rlec
    } else if reg == E1000_XONRXC {
        s.xonrxc
    } else if reg == E1000_XONTXC {
        s.xontxc
    } else if reg == E1000_XOFFRXC {
        s.xoffrxc
    } else if reg == E1000_XOFFTXC {
        s.xofftxc
    } else if reg == E1000_FCRUC {
        s.fcruc
    } else if reg == E1000_PRC64 {
        s.prc64
    } else if reg == E1000_PRC127 {
        s.prc127
    } else if reg == E1000_PRC255 {
        s.prc255
    } else if reg == E1000_PRC511 {
        s.prc511
    } else if reg == E1000_PRC1023 {
        s.prc1023
    } else if reg == E1000_PRC1522 {
        s.prc1522
    } else if reg == E1000_GPRC {
        s.gprc
    } else if reg == E1000_BPRC {
        s.bprc
    } else if reg == E1000_MPRC {
        s.mprc
    } else if reg == E1000_GPTC {
        s.gptc
    } else if reg == E1000_RNBC {
        s.rnbc
    } else if reg == E1000_RUC {
        s.ruc
    } else if reg == E1000_RFC {
        s.rfc
    } else if reg == E1000_ROC {
        s.roc
    } else if reg == E1000_RJC {
        s.rjc
    } else if reg == E1000_TORH {
        s.tor
    } else if reg == E1000_TOTH {
        s.tot
    } else if reg == E1000_TPR {
        s.tpr
    } else if reg == E1000_TPT {
        s.tpt
    } else if reg == E1000_PTC64 {
        s.ptc64
    } else if reg == E1000_PTC127 {
        s.ptc127
    } else if reg == E1000_PTC255 {
        s.ptc255
    } else if reg == E1000_PTC511 {
        s.ptc511
    } else if reg == E1000_PTC1023 {
        s.ptc1023
    } else if reg == E1000_PTC1522 {
        s.ptc1522
    } else if reg == E1000_MPTC {
        s.mptc
    } else if reg == E1000_BPTC {
        s.bptc
    } else if reg == E1000_IAC {
        s.iac
    } else if reg == E1000_ICRXPTC {
        s.icrxptc
    } else if reg == E1000_ICRXATC {
        s.icrxatc
    } else if reg == E1000_ICTXPTC {
        s.ictxptc
    } else if reg == E1000_ICTXATC {
        s.ictxatc
    } else if reg == E1000_ICTXQEC {
        s.ictxqec
    } else if reg == E1000_ICTXQMTC {
        s.ictxqmtc
    } else if reg == E1000_ICRXDMTC {
        s.icrxdmtc
    } else if reg == E1000_ICRXOC {
        s.icrxoc
    } else if reg == E1000_ALGNERRC {
        s.algnerrc
    } else if reg == E1000_RXERRC {
        s.rxerrc
    } else if reg == E1000_TNCRS {
        s.tncrs
    } else if reg == E1000_CEXTERR {
        s.cexterr
    } else if reg == E1000_TSCTC {
        s.tsctc
    } else if reg == E1000_TSCTFC {
        s.tsctfc
    } else {
        0
    }
}

/// The registers read on every update hold, in reading order, the values
/// listed in `main_stat_regs`.
proof fn lemma_main_stat_regs_at()
    ensures
        main_stat_regs()[0] == E1000_CRCERRS,
        main_stat_regs()[1] == E1000_MPC,
        main_stat_regs()[2] == E1000_SCC,
        main_stat_regs()[3] == E1000_ECOL,
        main_stat_regs()[4] == E1000_MCC,
        main_stat_regs()[5] == E1000_LATECOL,
        main_stat_regs()[6] == E1000_COLC,
        main_stat_regs()[7] == E1000_DC,
        main_stat_regs()[8] == E1000_RLEC,
        main_stat_regs()[9] == E1000_XONRXC,
        main_stat_regs()[10] == E1000_XONTXC,
        main_stat_regs()[11] == E1000_XOFFRXC,
        main_stat_regs()[12] == E1000_XOFFTXC,
        main_stat_regs()[13] == E1000_FCRUC,
        main_stat_regs()[14] == E1000_PRC64,
        main_stat_regs()[15] == E1000_PRC127,
        main_stat_regs()[16] == E1000_PRC255,
        main_stat_regs()[17] == E1000_PRC511,
        main_stat_regs()[18] == E1000_PRC1023,
        main_stat_regs()[19] == E1000_PRC1522,
        main_stat_regs()[20] == E1000_GPRC,
        main_stat_regs()[21] == E1000_BPRC,
        main_stat_regs()[22] == E1000_MPRC,
        main_stat_regs()[23] == E1000_GPTC,
        main_stat_regs()[24] == E1000_GORCL,
        main_stat_regs()[25] == E1000_GORCH,
        main_stat_regs()[26] == E1000_GOTCL,
        main_stat_regs()[27] == E1000_GOTCH,
        main_stat_regs()[28] == E1000_RNBC,
        main_stat_regs()[29] == E1000_RUC,
        main_stat_regs()[30] == E1000_RFC,
        main_stat_regs()[31] == E1000_ROC,
        main_stat_regs()[32] == E1000_RJC,
        main_stat_regs()[33] == E1000_TORH,
        main_stat_regs()[34] == E1000_TOTH,
        main_stat_regs()[35] == E1000_TPR,
        main_stat_regs()[36] == E1000_TPT,
        main_stat_regs()[37] == E1000_PTC64,
        main_stat_regs()[38] == E1000_PTC127,
        main_stat_regs()[39] == E1000_PTC255,
        main_stat_regs()[40] == E1000_PTC511,
        main_stat_regs()[41] == E1000_PTC1023,
        main_stat_regs()[42] == E1000_PTC1522,
        main_stat_regs()[43] == E1000_MPTC,
        main_stat_regs()[44] == E1000_BPTC,
        main_stat_regs()[45] == E1000_IAC,
        main_stat_regs()[46] == E1000_ICRXPTC,
        main_stat_regs()[47] == E1000_ICRXATC,
        main_stat_regs()[48] == E1000_ICTXPTC,
        main_stat_regs()[49] == E1000_ICTXATC,
        main_stat_regs()[50] == E1000_ICTXQEC,
        main_stat_regs()[51] == E1000_ICTXQMTC,
        main_stat_regs()[52] == E1000_ICRXDMTC,
        main_stat_regs()[53] == E1000_ICRXOC,
        main_stat_regs().len() == 54,
{
}

/// Each register read on every update adds its value to its own counter:
/// for the register at position `k` of the reading order (other than the
/// two words of the 64-bit octet counters), the counter named after it
/// grows by the value read at `k`, wrapping at 64 bits.
pub proof fn lemma_main_stats_by_register(s: HwStats, v: Seq<u64>, k: int)
    requires
        v.len() == 54,
        0 <= k < 54,
        k < 24 || k > 27,
    ensures
        stat_counter(add_main_stats(s, v), main_stat_regs()[k]) == wadd(
            stat_counter(s, main_stat_regs()[k]),
            v[k],
        ),
{
    reveal(add_main_stats);
    lemma_main_stat_regs_at();
    if k == 0 {
        assert(main_stat_regs()[0] == E1000_CRCERRS);
    } else if k == 1 {
        assert(main_stat_regs()[1] == E1000_MPC);
    } else if k == 2 {
        assert(main_stat_regs()[2] == E1000_SCC);
    } else if k == 3 {
        assert(main_stat_regs()[3] == E1000_ECOL);
    } else if k == 4 {
        assert(main_stat_regs()[4] == E1000_MCC);
    } else if k == 5 {
        assert(main_stat_regs()[5] == E1000_LATECOL);
    } else if k == 6 {
        assert(main_stat_regs()[6] == E1000_COLC);
    } else if k == 7 {
        assert(main_stat_regs()[7] == E1000_DC);
    } else if k == 8 {
        assert(main_stat_regs()[8] == E1000_RLEC);
    } else if k == 9 {
        assert(main_stat_regs()[9] == E1000_XONRXC);
    } else if k == 10 {
        assert(main_stat_regs()[10] == E1000_XONTXC);
    } else if k == 11 {
        assert(main_stat_regs()[11] == E1000_XOFFRXC);
    } else if k == 12 {
        assert(main_stat_regs()[12] == E1000_XOFFTXC);
    } else if k == 13 {
        assert(main_stat_regs()[13] == E1000_FCRUC);
    } else if k == 14 {
        assert(main_stat_regs()[14] == E1000_PRC64);
    } else if k == 15 {
        assert(main_stat_regs()[15] == E1000_PRC127);
    } else if k == 16 {
        assert(main_stat_regs()[16] == E1000_PRC255);
    } else if k == 17 {
        assert(main_stat_regs()[17] == E1000_PRC511);
    } else if k == 18 {
        assert(main_stat_regs()[18] == E1000_PRC1023);
    } else if k == 19 {
        assert(main_stat_regs()[19] == E1000_PRC1522);
    } else if k == 20 {
        assert(main_stat_regs()[20] == E1000_GPRC);
    } else if k == 21 {
        assert(main_stat_regs()[21] == E1000_BPRC);
    } else if k == 22 {
        assert(main_stat_regs()[22] == E1000_MPRC);
    } else if k == 23 {
        assert(main_stat_regs()[23] == E1000_GPTC);
    } else if k == 28 {
        assert(main_stat_regs()[28] == E1000_RNBC);
    } else if k == 29 {
        assert(main_stat_regs()[29] == E1000_RUC);
    } else if k == 30 {
        assert(main_stat_regs()[30] == E1000_RFC);
    } else if k == 31 {
        assert(main_stat_regs()[31] == E1000_ROC);
    } else if k == 32 {
        assert(main_stat_regs()[32] == E1000_RJC);
    } else if k == 33 {
        assert(main_stat_regs()[33] == E1000_TORH);
    } else if k == 34 {
        assert(main_stat_regs()[34] == E1000_TOTH);
    } else if k == 35 {
        assert(main_stat_regs()[35] == E1000_TPR);
    } else if k == 36 {
        assert(main_stat_regs()[36] == E1000_TPT);
    } else if k == 37 {
        assert(main_stat_regs()[37] == E1000_PTC64);
    } else if k == 38 {
        assert(main_stat_regs()[38] == E1000_PTC127);
    } else if k == 39 {
        assert(main_stat_regs()[39] == E1000_PTC255);
    } else if k == 40 {
        assert(main_stat_regs()[40] == E1000_PTC511);
    } else if k == 41 {
        assert(main_stat_regs()[41] == E1000_PTC1023);
    } else if k == 42 {
        assert(main_stat_regs()[42] == E1000_PTC1522);
    } else if k == 43 {
        assert(main_stat_regs()[43] == E1000_MPTC);
    } else if k == 44 {
        assert(main_stat_regs()[44] == E1000_BPTC);
    } else if k == 45 {
        assert(main_stat_regs()[45] == E1000_IAC);
    } else if k == 46 {
        assert(main_stat_regs()[46] == E1000_ICRXPTC);
    } else if k == 47 {
        assert(main_stat_regs()[47] == E1000_ICRXATC);
    } else if k == 48 {
        assert(main_stat_regs()[48] == E1000_ICTXPTC);
    } else if k == 49 {
        assert(main_stat_regs()[49] == E1000_ICTXATC);
    } else if k == 50 {
        assert(main_stat_regs()[50] == E1000_ICTXQEC);
    } else if k == 51 {
        assert(main_stat_regs()[51] == E1000_ICTXQMTC);
    } else if k == 52 {
        assert(main_stat_regs()[52] == E1000_ICRXDMTC);
    } else if k == 53 {
        assert(main_stat_regs()[53] == E1000_ICRXOC);
    }
}

/// The 64-bit octet counters add the low word read plus the high word read
/// times 2^32: good octets received from GORCL/GORCH, good octets
/// transmitted from GOTCL/GOTCH.
pub proof fn lemma_main_stats_octets(s: HwStats, v: Seq<u64>, kl: int, kh: int, tl: int, th: int)
    requires
        v.len() == 54,
        0 <= kl < 54 && 0 <= kh < 54 && 0 <= tl < 54 && 0 <= th < 54,
        main_stat_regs()[kl] == E1000_GORCL,
        main_stat_regs()[kh] == E1000_GORCH,
        main_stat_regs()[tl] == E1000_GOTCL,
        main_stat_regs()[th] == E1000_GOTCH,
    ensures
        add_main_stats(s, v).gorc == wadd(s.gorc, (v[kl] + v[kh] * 0x1_0000_0000) as u64),
        add_main_stats(s, v).gotc == wadd(s.gotc, (v[tl] + v[th] * 0x1_0000_0000) as u64),
{
    reveal(add_main_stats);
    lemma_main_stat_regs_at();
    lemma_main_reg_position(kl);
    lemma_main_reg_position(kh);
    lemma_main_reg_position(tl);
    lemma_main_reg_position(th);
}

/// The position of an octet-counter word in the reading order.
proof fn lemma_main_reg_position(k: int)
    requires
        0 <= k < 54,
    ensures
        main_stat_regs()[k] == E1000_GORCL ==> k == 24,
        main_stat_regs()[k] == E1000_GORCH ==> k == 25,
        main_stat_regs()[k] == E1000_GOTCL ==> k == 26,
        main_stat_regs()[k] == E1000_GOTCH ==> k == 27,
{
    lemma_main_stat_regs_at();
    if k == 0 {
    } else if k == 1 {
    } else if k == 2 {
    } else if k == 3 {
    } else if k == 4 {
    } else if k == 5 {
    } else if k == 6 {
    } else if k == 7 {
    } else if k == 8 {
    } else if k == 9 {
    } else if k == 10 {
    } else if k == 11 {
    } else if k == 12 {
    } else if k == 13 {
    } else if k == 14 {
    } else if k == 15 {
    } else if k == 16 {
    } else if k == 17 {
    } else if k == 18 {
    } else if k == 19 {
    } else if k == 20 {
    } else if k == 21 {
    } else if k == 22 {
    } else if k == 23 {
    } else if k == 24 {
    } else if k == 25 {
    } else if k == 26 {
    } else if k == 27 {
    } else if k == 28 {
    } else if k == 29 {
    } else if k == 30 {
    } else if k == 31 {
    } else if k == 32 {
    } else if k == 33 {
    } else if k == 34 {
    } else if k == 35 {
    } else if k == 36 {
    } else if k == 37 {
    } else if k == 38 {
    } else if k == 39 {
    } else if k == 40 {
    } else if k == 41 {
    } else if k == 42 {
    } else if k == 43 {
    } else if k == 44 {
    } else if k == 45 {
    } else if k == 46 {
    } else if k == 47 {
    } else if k == 48 {
    } else if k == 49 {
    } else if k == 50 {
    } else if k == 51 {
    } else if k == 52 {
    } else if k == 53 {
    }
}

/// Each register read on the 82543 and later adds its value to its own
/// counter: the counter named after the register at position `k` of that
/// reading order grows by the value read at `k`, wrapping at 64 bits.
pub proof fn lemma_late_stats_by_register(s: HwStats, v: Seq<u64>, k: int)
    requires
        v.len() == 6,
        0 <= k < 6,
    ensures
        stat_counter(add_late_stats(s, v), late_stat_regs()[k]) == wadd(
            stat_counter(s, late_stat_regs()[k]),
            v[k],
        ),
{
    reveal(add_late_stats);
    if k == 0 {
        assert(late_stat_regs()[0] == E1000_ALGNERRC);
    } else if k == 1 {
        assert(late_stat_regs()[1] == E1000_RXERRC);
    } else if k == 2 {
        assert(late_stat_regs()[2] == E1000_TNCRS);
    } else if k == 3 {
        assert(late_stat_regs()[3] == E1000_CEXTERR);
    } else if k == 4 {
        assert(late_stat_regs()[4] == E1000_TSCTC);
    } else if k == 5 {
        assert(late_stat_regs()[5] == E1000_TSCTFC);
    }
}

/// Adds the values `v` of `main_stat_regs` to `s`.
fn apply_main_stats(s: HwStats, v: &Vec<u64>) -> (r: HwStats)
    requires
        v@.len() == MAIN_STAT_COUNT,
        forall|i: int| 0 <= i < v@.len() ==> v@[i] <= u32::MAX,
    ensures
        r == add_main_stats(s, v@),
{
    reveal(add_main_stats);
    let mut t = s;
    t.crcerrs = acc(t.crcerrs, v[0]);
    t.mpc = acc(t.mpc, v[1]);
    t.scc = acc(t.scc, v[2]);
    t.ecol = acc(t.ecol, v[3]);
    t.mcc = acc(t.mcc, v[4]);
    t.latecol = acc(t.latecol, v[5]);
    t.colc = acc(t.colc, v[6]);
    t.dc = acc(t.dc, v[7]);
    t.rlec = acc(t.rlec, v[8]);
    t.xonrxc = acc(t.xonrxc, v[9]);
    t.xontxc = acc(t.xontxc, v[10]);
    t.xoffrxc = acc(t.xoffrxc, v[11]);
    t.xofftxc = acc(t.xofftxc, v[12]);
    t.fcruc = acc(t.fcruc, v[13]);
    t.prc64 = acc(t.prc64, v[14]);
    t.prc127 = acc(t.prc127, v[15]);
    t.prc255 = acc(t.prc255, v[16]);
    t.prc511 = acc(t.prc511, v[17]);
    t.prc1023 = acc(t.prc1023, v[18]);
    t.prc1522 = acc(t.prc1522, v[19]);
    t.gprc = acc(t.gprc, v[20]);
    t.bprc = acc(t.bprc, v[21]);
    t.mprc = acc(t.mprc, v[22]);
    t.gptc = acc(t.gptc, v[23]);
    proof {
        let hi = v@[25];
        assert(hi << 32u64 == hi * 0x1_0000_0000) by (bit_vector)
            requires
                hi <= 0xffff_ffff,
        ;
    }
    t.gorc = acc(t.gorc, v[24] + (v[25] << 32u64));
    proof {
        let hi = v@[27];
        assert(hi << 32u64 == hi * 0x1_0000_0000) by (bit_vector)
            requires
                hi <= 0xffff_ffff,
        ;
    }
    t.gotc = acc(t.gotc, v[26] + (v[27] << 32u64));
    t.rnbc = acc(t.rnbc, v[28]);
    t.ruc = acc(t.ruc, v[29]);
    t.rfc = acc(t.rfc, v[30]);
    t.roc = acc(t.roc, v[31]);
    t.rjc = acc(t.rjc, v[32]);
    t.tor = acc(t.tor, v[33]);
    t.tot = acc(t.tot, v[34]);
    t.tpr = acc(t.tpr, v[35]);
    t.tpt = acc(t.tpt, v[36]);
    t.ptc64 = acc(t.ptc64, v[37]);
    t.ptc127 = acc(t.ptc127, v[38]);
    t.ptc255 = acc(t.ptc255, v[39]);
    t.ptc511 = acc(t.ptc511, v[40]);
    t.ptc1023 = acc(t.ptc1023, v[41]);
    t.ptc1522 = acc(t.ptc1522, v[42]);
    t.mptc = acc(t.mptc, v[43]);
    t.bptc = acc(t.bptc, v[44]);
    t.iac = acc(t.iac, v[45]);
    t.icrxptc = acc(t.icrxptc, v[46]);
    t.icrxatc = acc(t.icrxatc, v[47]);
    t.ictxptc = acc(t.ictxptc, v[48]);
    t.ictxatc = acc(t.ictxatc, v[49]);
    t.ictxqec = acc(t.ictxqec, v[50]);
    t.ictxqmtc = acc(t.ictxqmtc, v[51]);
    t.icrxdmtc = acc(t.icrxdmtc, v[52]);
    t.icrxoc = acc(t.icrxoc, v[53]);
    t
}

/// Adds the values `v` of `late_stat_regs` to `s`.
fn apply_late_stats(s: HwStats, v: &Vec<u64>) -> (r: HwStats)
    requires
        v@.len() == 6,
    ensures
        r == add_late_stats(s, v@),
{
    reveal(add_late_stats);
    let mut t = s;
    t.algnerrc = acc(t.algnerrc, v[0]);
    t.rxerrc = acc(t.rxerrc, v[1]);
    t.tncrs = acc(t.tncrs, v[2]);
    t.cexterr = acc(t.cexterr, v[3]);
    t.tsctc = acc(t.tsctc, v[4]);
    t.tsctfc = acc(t.tsctfc, v[5]);
    t
}

/// Reads the registers `regs` in order; answers the values read.
fn read_regs<P: Platform>(adapter: &mut Adapter<P>, regs: &[u32]) -> (v: Vec<u64>)
    ensures
        final(adapter).same_state(old(adapter)),
        v@.len() == regs@.len(),
        forall|i: int| 0 <= i < v@.len() ==> v@[i] <= u32::MAX,
        final(adapter).logged(
            old(adapter),
            Seq::new(regs@.len(), |i: int| IoOp::Read { reg: regs@[i], value: v@[i] as u32 }),
        ),
{
    let mut v: Vec<u64> = Vec::new();
    let mut i: usize = 0;
    while i < regs.len()
        invariant
            i <= regs@.len(),
            v@.len() == i,
            forall|k: int| 0 <= k < i ==> v@[k] <= u32::MAX,
            adapter.same_state(old(adapter)),
            adapter.io_log@ =~= old(adapter).io_log@ + Seq::new(
                i as nat,
                |k: int| IoOp::Read { reg: regs@[k], value: v@[k] as u32 },
            ),
        decreases regs@.len() - i,
    {
        let x = do_read_register(adapter, regs[i]);
        v.push(x as u64);
        i = i + 1;
        proof {
            assert(adapter.io_log@ =~= old(adapter).io_log@ + Seq::new(
                i as nat,
                |k: int| IoOp::Read { reg: regs@[k], value: v@[k] as u32 },
            ));
        }
    }
    v
}

/// Stores the accumulated statistics and the pause-frame count derived
/// from them.
fn store_stats<P: Platform>(adapter: &mut Adapter<P>, st: HwStats)
    ensures
        *final(adapter) == (Adapter {
            stats: st,
            iflib_shared: IfLibShared { isc_pause_frames: st.xoffrxc as u32, ..old(adapter).iflib_shared },
            ..*old(adapter)
        }),
{
    adapter.stats = st;
    adapter.iflib_shared.isc_pause_frames = st.xoffrxc as u32;
}

/// The value read `k` operations after `o` in `l`, widened.
pub open spec fn val_at(l: Seq<IoOp>, o: int, k: int) -> u64 {
    read_value(l[o + k]) as u64
}

/// Accumulates the symbol and sequence error counters.
fn accumulate_link<P: Platform>(adapter: &mut Adapter<P>, st: HwStats) -> (r: HwStats)
    ensures
        final(adapter).same_state(old(adapter)),
        final(adapter).log_extends(old(adapter)),
        ({
            let l = final(adapter).io_log@;
            let o = old(adapter).io_log@.len() as int;
            &&& l.len() == o + 2
            &&& is_read_of(l[o], E1000_SYMERRS)
            &&& is_read_of(l[o + 1], E1000_SEC)
            &&& r == (HwStats {
                symerrs: wadd(st.symerrs, val_at(l, o, 0)),
                sec: wadd(st.sec, val_at(l, o, 1)),
                ..st
            })
        }),
{
    let regs: [u32; 2] = [E1000_SYMERRS, E1000_SEC];
    let v = read_regs(adapter, &regs);
    let mut t = st;
    t.symerrs = acc(t.symerrs, v[0]);
    t.sec = acc(t.sec, v[1]);
    t
}

/// Accumulates the counters of `main_stat_regs`, read in that order.
#[verifier::spinoff_prover]
fn accumulate_main<P: Platform>(adapter: &mut Adapter<P>, st: HwStats) -> (r: HwStats)
    ensures
        final(adapter).same_state(old(adapter)),
        final(adapter).log_extends(old(adapter)),
        ({
            let l = final(adapter).io_log@;
            let o = old(adapter).io_log@.len() as int;
            &&& l.len() == o + MAIN_STAT_COUNT
            &&& forall|i: int|
                0 <= i < MAIN_STAT_COUNT ==> #[trigger] is_read_of(l[o + i], main_stat_regs()[i])
            &&& r == add_main_stats(st, Seq::new(MAIN_STAT_COUNT as nat, |i: int| val_at(l, o, i)))
        }),
{
        let main: [u32; MAIN_STAT_COUNT] = [
        E1000_CRCERRS,
        E1000_MPC,
        E1000_SCC,
        E1000_ECOL,
        E1000_MCC,
        E1000_LATECOL,
        E1000_COLC,
        E1000_DC,
        E1000_RLEC,
        E1000_XONRXC,
        E1000_XONTXC,
        E1000_XOFFRXC,
        E1000_XOFFTXC,
        E1000_FCRUC,
        E1000_PRC64,
        E1000_PRC127,
        E1000_PRC255,
        E1000_PRC511,
        E1000_PRC1023,
        E1000_PRC1522,
        E1000_GPRC,
        E1000_BPRC,
        E1000_MPRC,
        E1000_GPTC,
        E1000_GORCL,
        E1000_GORCH,
        E1000_GOTCL,
        E1000_GOTCH,
        E1000_RNBC,
        E1000_RUC,
        E1000_RFC,
        E1000_ROC,
        E1000_RJC,
        E1000_TORH,
        E1000_TOTH,
        E1000_TPR,
        E1000_TPT,
        E1000_PTC64,
        E1000_PTC127,
        E1000_PTC255,
        E1000_PTC511,
        E1000_PTC1023,
        E1000_PTC1522,
        E1000_MPTC,
        E1000_BPTC,
        E1000_IAC,
        E1000_ICRXPTC,
        E1000_ICRXATC,
        E1000_ICTXPTC,
        E1000_ICTXATC,
        E1000_ICTXQEC,
        E1000_ICTXQMTC,
        E1000_ICRXDMTC,
        E1000_ICRXOC,
        ];
        assert(main@ =~= main_stat_regs());
        let ghost s0 = *adapter;
        let vm = read_regs(adapter, &main);
        proof {
            let l = adapter.io_log@;
            let o = s0.io_log@.len() as int;
            assert(vm@ =~= Seq::new(MAIN_STAT_COUNT as nat, |i: int| val_at(l, o, i)));
            assert forall|i: int| 0 <= i < MAIN_STAT_COUNT implies #[trigger] is_read_of(
                l[o + i],
                main_stat_regs()[i],
            ) by {
                assert(l[o + i] == IoOp::Read { reg: main@[i], value: vm@[i] as u32 });
            }
        }
        apply_main_stats(st, &vm)
}

/// Accumulates the counters of `late_stat_regs`, read in that order.
fn accumulate_late<P: Platform>(adapter: &mut Adapter<P>, st: HwStats) -> (r: HwStats)
    ensures
        final(adapter).same_state(old(adapter)),
        final(adapter).log_extends(old(adapter)),
        ({
            let l = final(adapter).io_log@;
            let o = old(adapter).io_log@.len() as int;
            &&& l.len() == o + 6
            &&& forall|i: int| 0 <= i < 6 ==> #[trigger] is_read_of(l[o + i], late_stat_regs()[i])
            &&& r == add_late_stats(st, Seq::new(6, |i: int| val_at(l, o, i)))
        }),
{
    let lregs: [u32; 6] = [
        E1000_ALGNERRC,
        E1000_RXERRC,
        E1000_TNCRS,
        E1000_CEXTERR,
        E1000_TSCTC,
        E1000_TSCTFC,
    ];
    assert(lregs@ =~= late_stat_regs());
    let ghost s0 = *adapter;
    let vl = read_regs(adapter, &lregs);
    proof {
        let l = adapter.io_log@;
        let o = s0.io_log@.len() as int;
        assert(vl@ =~= Seq::new(6, |i: int| val_at(l, o, i)));
        assert forall|i: int| 0 <= i < 6 implies #[trigger] is_read_of(l[o + i], late_stat_regs()[i]) by {
            assert(l[o + i] == IoOp::Read { reg: lregs@[i], value: vl@[i] as u32 });
        }
    }
    apply_late_stats(st, &vl)
}

impl<P: Platform> Adapter<P> {
    /// Accumulates the statistics counters: the symbol and sequence errors
    /// when the media is copper or the link is up (the status register is
    /// read to tell, for other media), the counters of `main_stat_regs`,
    /// and those of `late_stat_regs` on the 82543 and later; every sum
    /// wraps at 64 bits. The pause-frame count of the shared context
    /// follows the XOFF-received counter.
    #[verifier::spinoff_prover]
    #[verifier::rlimit(100)]
    pub fn update_stats_counters(&mut self)
        ensures
            *final(self) == (Adapter {
                plat: final(self).plat,
                io_log: final(self).io_log,
                stats: final(self).stats,
                iflib_shared: IfLibShared {
                    isc_pause_frames: final(self).stats.xoffrxc as u32,
                    ..old(self).iflib_shared
                },
                ..*old(self)
            }),
            final(self).log_extends(old(self)),
            ({
                let l = final(self).io_log@;
                let o = old(self).io_log@.len() as int;
                let copper = old(self).hw.phy.media_type == MediaType::Copper;
                let a: int = if copper { 0 } else { 1 };
                let lu = copper || read_value(l[o]) & E1000_STATUS_LU > 0;
                let b: int = a + if lu { 2int } else { 0 };
                let late = mac_rank(old(self).hw.mac.mac_type) >= 2;
                let s1 = if lu {
                    HwStats {
                        symerrs: wadd(old(self).stats.symerrs, val_at(l, o, a)),
                        sec: wadd(old(self).stats.sec, val_at(l, o, a + 1)),
                        ..old(self).stats
                    }
                } else {
                    old(self).stats
                };
                let s2 = add_main_stats(
                    s1,
                    Seq::new(MAIN_STAT_COUNT as nat, |i: int| val_at(l, o, b + i)),
                );
                let c = b + MAIN_STAT_COUNT;
                &&& l.len() == c + o + if late { 6int } else { 0 }
                &&& !copper ==> is_read_of(l[o], E1000_STATUS)
                &&& lu ==> is_read_of(l[o + a], E1000_SYMERRS) && is_read_of(l[o + a + 1], E1000_SEC)
                &&& forall|i: int|
                    0 <= i < MAIN_STAT_COUNT ==> #[trigger] is_read_of(l[o + b + i], main_stat_regs()[i])
                &&& late ==> forall|i: int|
                    0 <= i < 6 ==> #[trigger] is_read_of(l[o + c + i], late_stat_regs()[i])
                &&& final(self).stats == if late {
                    add_late_stats(s2, Seq::new(6, |i: int| val_at(l, o, c + i)))
                } else {
                    s2
                }
            }),
    {
        let ghost s0 = *self;
        let copper = self.hw.phy.media_type == MediaType::Copper;
        let lu = if copper {
            true
        } else {
            do_read_register(self, E1000_STATUS) & E1000_STATUS_LU > 0
        };
        let ghost sa = *self;
        let mut st = self.stats;
        if lu {
            st = accumulate_link(self, st);
        }
        let ghost sb = *self;
        st = accumulate_main(self, st);
        let ghost sc = *self;
        let late = self.hw.mac.mac_type.rank() >= 2;
        if late {
            st = accumulate_late(self, st);
        }
        let ghost sd = *self;
        store_stats(self, st);
        proof {
            let l = self.io_log@;
            let o = s0.io_log@.len() as int;
            let b = sb.io_log@.len() as int;
            let c = sc.io_log@.len() as int;
            assert(Seq::new(MAIN_STAT_COUNT as nat, |i: int| val_at(sc.io_log@, b, i)) =~= Seq::new(
                MAIN_STAT_COUNT as nat,
                |i: int| val_at(l, o, (b - o) + i),
            ));
            if late {
                assert(Seq::new(6, |i: int| val_at(sd.io_log@, c, i)) =~= Seq::new(
                    6,
                    |i: int| val_at(l, o, (c - o) + i),
                ));
            }
            if !copper {
                assert(l[o] == sa.io_log@[o]);
            }
            if lu {
                let a = sa.io_log@.len() as int;
                assert(l[a] == sb.io_log@[a]);
                assert(l[a + 1] == sb.io_log@[a + 1]);
            }
            assert forall|i: int| 0 <= i < MAIN_STAT_COUNT implies #[trigger] is_read_of(
                l[o + (b - o) + i],
                main_stat_regs()[i],
            ) by {
                assert(l[b + i] == sc.io_log@[b + i]);
            }
        }
    }
}

} // verus!
