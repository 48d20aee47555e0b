//! Register offsets that depend on a queue or entry index, and the
//! encoding of BM/HV PHY register addresses (page + register number).
use vstd::prelude::*;
use crate::consts::{BM_WUC_PAGE, MAX_PHY_REG_ADDRESS, PHY_PAGE_SHIFT, PHY_UPPER_SHIFT};

verus! {

/// Receive Address Low register of receive-address entry `i`.
pub fn E1000_RAL(i: usize) -> (r: u32)
    requires
        i < 0x1000_0000,
    ensures
        r == (if i <= 15 { 0x05400 + i * 8 } else { 0x054E0 + (i - 16) * 8 }),
{
    let i = i as u32;
    if i <= 15 {
        0x05400 + i * 8
    } else {
        0x054E0 + (i - 16) * 8
    }
}

/// Receive Address High register of receive-address entry `i`.
pub fn E1000_RAH(i: usize) -> (r: u32)
    requires
        i < 0x1000_0000,
    ensures
        r == (if i <= 15 { 0x05404 + i * 8 } else { 0x054E4 + (i - 16) * 8 }),
{
    let i = i as u32;
    if i <= 15 {
        0x05404 + i * 8
    } else {
        0x054E4 + (i - 16) * 8
    }
}

/// The offset of a per-queue register: queues 0..3 live at `low + n*0x100`,
/// the others at `high + n*0x40`.
pub open spec fn queue_reg(n: int, low: int, high: int) -> int {
    if n < 4 { low + n * 0x100 } else { high + n * 0x40 }
}

/// Transmit Descriptor Base Address Low of queue `n`.
pub fn E1000_TDBAL(n: usize) -> (r: u32)
    requires n < 0x100_0000,
    ensures r == queue_reg(n as int, 0x03800, 0x0E000),
{
    let n = n as u32;
    if n < 4 { 0x03800 + n * 0x100 } else { 0x0E000 + n * 0x40 }
}

/// Transmit Descriptor Base Address High of queue `n`.
pub fn E1000_TDBAH(n: usize) -> (r: u32)
    requires n < 0x100_0000,
    ensures r == queue_reg(n as int, 0x03804, 0x0E004),
{
    let n = n as u32;
    if n < 4 { 0x03804 + n * 0x100 } else { 0x0E004 + n * 0x40 }
}

/// Transmit Descriptor Length of queue `n`.
pub fn E1000_TDLEN(n: usize) -> (r: u32)
    requires n < 0x100_0000,
    ensures r == queue_reg(n as int, 0x03808, 0x0E008),
{
    let n = n as u32;
    if n < 4 { 0x03808 + n * 0x100 } else { 0x0E008 + n * 0x40 }
}

/// Transmit Descriptor Head of queue `n`.
pub fn E1000_TDH(n: usize) -> (r: u32)
    requires n < 0x100_0000,
    ensures r == queue_reg(n as int, 0x03810, 0x0E010),
{
    let n = n as u32;
    if n < 4 { 0x03810 + n * 0x100 } else { 0x0E010 + n * 0x40 }
}

/// Transmit control (TXCTL) register of queue `n`.
pub fn E1000_TXCTL(n: usize) -> (r: u32)
    requires n < 0x100_0000,
    ensures r == queue_reg(n as int, 0x03814, 0x0E014),
{
    let n = n as u32;
    if n < 4 { 0x03814 + n * 0x100 } else { 0x0E014 + n * 0x40 }
}

/// Transmit Descriptor Tail of queue `n`.
pub fn E1000_TDT(n: usize) -> (r: u32)
    requires n < 0x100_0000,
    ensures r == queue_reg(n as int, 0x03818, 0x0E018),
{
    let n = n as u32;
    if n < 4 { 0x03818 + n * 0x100 } else { 0x0E018 + n * 0x40 }
}

/// Transmit Descriptor Control of queue `n`.
pub fn E1000_TXDCTL(n: usize) -> (r: u32)
    requires n < 0x100_0000,
    ensures r == queue_reg(n as int, 0x03828, 0x0E028),
{
    let n = n as u32;
    if n < 4 { 0x03828 + n * 0x100 } else { 0x0E028 + n * 0x40 }
}

/// Receive Descriptor Base Address Low of queue `n`.
pub fn E1000_RDBAL(n: usize) -> (r: u32)
    requires n < 0x100_0000,
    ensures r == queue_reg(n as int, 0x02800, 0x0C000),
{
    let n = n as u32;
    if n < 4 { 0x02800 + n * 0x100 } else { 0x0C000 + n * 0x40 }
}

/// Receive Descriptor Base Address High of queue `n`.
pub fn E1000_RDBAH(n: usize) -> (r: u32)
    requires n < 0x100_0000,
    ensures r == queue_reg(n as int, 0x02804, 0x0C004),
{
    let n = n as u32;
    if n < 4 { 0x02804 + n * 0x100 } else { 0x0C004 + n * 0x40 }
}

/// Receive Descriptor Length of queue `n`.
pub fn E1000_RDLEN(n: usize) -> (r: u32)
    requires n < 0x100_0000,
    ensures r == queue_reg(n as int, 0x02808, 0x0C008),
{
    let n = n as u32;
    if n < 4 { 0x02808 + n * 0x100 } else { 0x0C008 + n * 0x40 }
}

/// Receive Descriptor Head of queue `n`.
pub fn E1000_RDH(n: usize) -> (r: u32)
    requires n < 0x100_0000,
    ensures r == queue_reg(n as int, 0x02810, 0x0C010),
{
    let n = n as u32;
    if n < 4 { 0x02810 + n * 0x100 } else { 0x0C010 + n * 0x40 }
}

/// Receive control (RXCTL) register of queue `n`.
pub fn E1000_RXCTL(n: usize) -> (r: u32)
    requires n < 0x100_0000,
    ensures r == queue_reg(n as int, 0x02814, 0x0C014),
{
    let n = n as u32;
    if n < 4 { 0x02814 + n * 0x100 } else { 0x0C014 + n * 0x40 }
}

/// Receive Descriptor Tail of queue `n`.
pub fn E1000_RDT(n: usize) -> (r: u32)
    requires n < 0x100_0000,
    ensures r == queue_reg(n as int, 0x02818, 0x0C018),
{
    let n = n as u32;
    if n < 4 { 0x02818 + n * 0x100 } else { 0x0C018 + n * 0x40 }
}

/// Receive Descriptor Control of queue `n`.
pub fn E1000_RXDCTL(n: usize) -> (r: u32)
    requires n < 0x100_0000,
    ensures r == queue_reg(n as int, 0x02828, 0x0C028),
{
    let n = n as u32;
    if n < 4 { 0x02828 + n * 0x100 } else { 0x0C028 + n * 0x40 }
}

/// Transmit Arbitration Count register of queue `n`.
pub fn E1000_TARC(n: usize) -> (r: u32)
    requires n < 0x10_0000,
    ensures r == 0x3840 + n * 0x100,
{
    0x3840 + n as u32 * 0x100
}

/// Encodes a (page, register) pair into the flat BM/HV PHY register address:
/// the low five register bits, the page above them, and the register's upper
/// bits moved up to `PHY_UPPER_SHIFT`.
pub open spec fn spec_bm_phy_reg(page: u16, reg: u32) -> u32 {
    ((reg & MAX_PHY_REG_ADDRESS) | ((page as u32) << PHY_PAGE_SHIFT)
        | ((reg & !MAX_PHY_REG_ADDRESS) << (PHY_UPPER_SHIFT - PHY_PAGE_SHIFT))) as u32
}

/// Encodes a (page, register) pair into a BM/HV PHY register address.
pub fn BM_PHY_REG(page: u16, reg: u32) -> (r: u32)
    ensures
        r == spec_bm_phy_reg(page, reg),
{
    (reg & MAX_PHY_REG_ADDRESS) | ((page as u32) << PHY_PAGE_SHIFT)
        | ((reg & !MAX_PHY_REG_ADDRESS) << (PHY_UPPER_SHIFT - PHY_PAGE_SHIFT))
}

/// The page number carried by a BM/HV PHY register address.
pub fn BM_PHY_REG_PAGE(offset: u32) -> (r: u16)
    ensures
        r == ((offset >> PHY_PAGE_SHIFT) & 0xFFFF) as u16,
{
    ((offset >> PHY_PAGE_SHIFT) & 0xFFFF) as u16
}

/// The register number carried by a BM/HV PHY register address.
pub fn BM_PHY_REG_NUM(offset: u32) -> (r: u16)
    ensures
        r == ((offset & MAX_PHY_REG_ADDRESS)
            | ((offset >> (PHY_UPPER_SHIFT - PHY_PAGE_SHIFT)) & !MAX_PHY_REG_ADDRESS)) as u16,
{
    ((offset & MAX_PHY_REG_ADDRESS) | ((offset >> (PHY_UPPER_SHIFT - PHY_PAGE_SHIFT))
        & !MAX_PHY_REG_ADDRESS)) as u16
}

/// Multicast table register `i` on the BM wakeup page.
pub fn BM_MTA(i: usize) -> (r: u32)
    requires
        i < 0x1000,
    ensures
        r == spec_bm_phy_reg(BM_WUC_PAGE, (128 + 2 * i) as u32),
{
    assert(((i as u32) << 1) == 2 * i) by (bit_vector)
        requires
            i < 0x1000;
    let reg: u32 = 128 + ((i as u32) << 1);
    BM_PHY_REG(BM_WUC_PAGE, reg)
}

/// Shared Receive Address Low register `i` (PCH LPT).
pub fn E1000_SHRAL_PCH_LPT(i: usize) -> (r: u32)
    requires i < 0x1000_0000,
    ensures r == 0x05408 + i * 8,
{
    let i = i as u32;
    0x05408 + (i * 8)
}

/// Shared Receive Address High register `i` (PCH LPT).
pub fn E1000_SHRAH_PCH_LPT(i: usize) -> (r: u32)
    requires i < 0x1000_0000,
    ensures r == 0x0540C + i * 8,
{
    let i = i as u32;
    0x0540C + (i * 8)
}

/// Encoding a page and an in-range register number and decoding it again
/// gives back both.
pub proof fn lemma_bm_phy_reg_roundtrip(page: u16, reg: u32)
    requires
        reg <= MAX_PHY_REG_ADDRESS,
    ensures
        ((spec_bm_phy_reg(page, reg) >> PHY_PAGE_SHIFT) & 0xFFFF) as u16 == page,
        ((spec_bm_phy_reg(page, reg) & MAX_PHY_REG_ADDRESS)
            | ((spec_bm_phy_reg(page, reg) >> (PHY_UPPER_SHIFT - PHY_PAGE_SHIFT))
            & !MAX_PHY_REG_ADDRESS)) as u16 == reg as u16,
{
    assert(((((reg & 0x1F) | ((page as u32) << 5u32) | ((reg & !0x1Fu32) << 16u32)) >> 5u32)
        & 0xFFFF) as u16 == page) by (bit_vector)
        requires
            reg <= 0x1F;
    assert(((((reg & 0x1F) | ((page as u32) << 5u32) | ((reg & !0x1Fu32) << 16u32)) & 0x1F)
        | ((((reg & 0x1F) | ((page as u32) << 5u32) | ((reg & !0x1Fu32) << 16u32)) >> 16u32)
        & !0x1Fu32)) as u16 == reg as u16) by (bit_vector)
        requires
            reg <= 0x1F;
}

} // verus!
