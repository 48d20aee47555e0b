//! Bit-field views of the ICH8 flash registers and of the IPv4 and TCP
//! headers: each field is a run of bits of one word, read by masking and
//! shifting and written without disturbing the other fields.
use vstd::prelude::*;

verus! {

/// The field under `mask` of a 16-bit word, shifted down by `shift`.
pub open spec fn get_bits16(bits: u16, shift: u16, mask: u16) -> u16 {
    ((bits & mask) >> shift) as u16
}

/// A 16-bit word with the field under `mask` replaced by `v` shifted up by
/// `shift` (bits of `v` beyond the field are dropped).
pub open spec fn set_bits16(bits: u16, shift: u16, mask: u16, v: u16) -> u16 {
    ((bits & !mask) | (((v << shift) as u16) & mask)) as u16
}

/// The field under `mask` of a byte, shifted down by `shift`.
pub open spec fn get_bits8(bits: u8, shift: u8, mask: u8) -> u8 {
    ((bits & mask) >> shift) as u8
}

/// A byte with the field under `mask` replaced by `v` shifted up by
/// `shift`.
pub open spec fn set_bits8(bits: u8, shift: u8, mask: u8, v: u8) -> u8 {
    ((bits & !mask) | (((v << shift) as u8) & mask)) as u8
}

fn get16(bits: u16, shift: u16, mask: u16) -> (r: u16)
    requires
        shift < 16,
    ensures
        r == get_bits16(bits, shift, mask),
{
    (bits & mask) >> shift
}

fn set16(bits: u16, shift: u16, mask: u16, v: u16) -> (r: u16)
    requires
        shift < 16,
    ensures
        r == set_bits16(bits, shift, mask, v),
{
    (bits & !mask) | ((v << shift) & mask)
}

fn get8(bits: u8, shift: u8, mask: u8) -> (r: u8)
    requires
        shift < 8,
    ensures
        r == get_bits8(bits, shift, mask),
{
    (bits & mask) >> shift
}

fn set8(bits: u8, shift: u8, mask: u8, v: u8) -> (r: u8)
    requires
        shift < 8,
    ensures
        r == set_bits8(bits, shift, mask, v),
{
    (bits & !mask) | ((v << shift) & mask)
}

/// Reading a field just written gives the value written, cut to the
/// field's width; the fields under disjoint masks keep their values.
pub proof fn lemma_bits16_roundtrip(bits: u16, shift: u16, mask: u16, v: u16, shift2: u16, mask2: u16)
    requires
        shift < 16,
        shift2 < 16,
        mask & mask2 == 0,
    ensures
        get_bits16(set_bits16(bits, shift, mask, v), shift, mask) == ((((v << shift) as u16) & mask) >> shift),
        get_bits16(set_bits16(bits, shift, mask, v), shift2, mask2) == get_bits16(bits, shift2, mask2),
{
    assert(((((bits & !mask) | (((v << shift) as u16) & mask)) as u16) & mask) >> shift
        == ((((v << shift) as u16) & mask) >> shift)) by (bit_vector)
        requires shift < 16;
    assert(((((bits & !mask) | (((v << shift) as u16) & mask)) as u16) & mask2) >> shift2
        == ((bits & mask2) >> shift2)) by (bit_vector)
        requires shift < 16, shift2 < 16, mask & mask2 == 0;
}

/// The byte-sized counterpart of `lemma_bits16_roundtrip`.
pub proof fn lemma_bits8_roundtrip(bits: u8, shift: u8, mask: u8, v: u8, shift2: u8, mask2: u8)
    requires
        shift < 8,
        shift2 < 8,
        mask & mask2 == 0,
    ensures
        get_bits8(set_bits8(bits, shift, mask, v), shift, mask) == ((((v << shift) as u8) & mask) >> shift),
        get_bits8(set_bits8(bits, shift, mask, v), shift2, mask2) == get_bits8(bits, shift2, mask2),
{
    assert(((((bits & !mask) | (((v << shift) as u8) & mask)) as u8) & mask) >> shift
        == ((((v << shift) as u8) & mask) >> shift)) by (bit_vector)
        requires shift < 8;
    assert(((((bits & !mask) | (((v << shift) as u8) & mask)) as u8) & mask2) >> shift2
        == ((bits & mask2) >> shift2)) by (bit_vector)
        requires shift < 8, shift2 < 8, mask & mask2 == 0;
}

/// The ICH8 flash status register.
#[derive(Debug, Clone, Copy, PartialEq, Eq, Structural, Default)]
pub struct Ich8HsfStatus {
    /// The packed bit fields.
    pub bits: u16,
}

impl Ich8HsfStatus {
    /// The `flcdone` field (bits under 0x1).
    pub fn flcdone(&self) -> (r: u16)
        ensures
            r == get_bits16(self.bits, 0, 0x1),
    {
        get16(self.bits, 0, 0x1)
    }

    /// Writes the `flcdone` field, leaving the others as they are.
    pub fn set_flcdone(&mut self, val: u16)
        ensures
            *final(self) == (Ich8HsfStatus { bits: set_bits16(old(self).bits, 0, 0x1, val), ..*old(self) }),
    {
        self.bits = set16(self.bits, 0, 0x1, val);
    }

    /// The `flcerr` field (bits under 0x2).
    pub fn flcerr(&self) -> (r: u16)
        ensures
            r == get_bits16(self.bits, 1, 0x2),
    {
        get16(self.bits, 1, 0x2)
    }

    /// Writes the `flcerr` field, leaving the others as they are.
    pub fn set_flcerr(&mut self, val: u16)
        ensures
            *final(self) == (Ich8HsfStatus { bits: set_bits16(old(self).bits, 1, 0x2, val), ..*old(self) }),
    {
        self.bits = set16(self.bits, 1, 0x2, val);
    }

    /// The `dael` field (bits under 0x4).
    pub fn dael(&self) -> (r: u16)
        ensures
            r == get_bits16(self.bits, 2, 0x4),
    {
        get16(self.bits, 2, 0x4)
    }

    /// Writes the `dael` field, leaving the others as they are.
    pub fn set_dael(&mut self, val: u16)
        ensures
            *final(self) == (Ich8HsfStatus { bits: set_bits16(old(self).bits, 2, 0x4, val), ..*old(self) }),
    {
        self.bits = set16(self.bits, 2, 0x4, val);
    }

    /// The `berasesz` field (bits under 0x18).
    pub fn berasesz(&self) -> (r: u16)
        ensures
            r == get_bits16(self.bits, 3, 0x18),
    {
        get16(self.bits, 3, 0x18)
    }

    /// Writes the `berasesz` field, leaving the others as they are.
    pub fn set_berasesz(&mut self, val: u16)
        ensures
            *final(self) == (Ich8HsfStatus { bits: set_bits16(old(self).bits, 3, 0x18, val), ..*old(self) }),
    {
        self.bits = set16(self.bits, 3, 0x18, val);
    }

    /// The `flcinprog` field (bits under 0x20).
    pub fn flcinprog(&self) -> (r: u16)
        ensures
            r == get_bits16(self.bits, 5, 0x20),
    {
        get16(self.bits, 5, 0x20)
    }

    /// Writes the `flcinprog` field, leaving the others as they are.
    pub fn set_flcinprog(&mut self, val: u16)
        ensures
            *final(self) == (Ich8HsfStatus { bits: set_bits16(old(self).bits, 5, 0x20, val), ..*old(self) }),
    {
        self.bits = set16(self.bits, 5, 0x20, val);
    }

    /// The `reserved1` field (bits under 0xc0).
    pub fn reserved1(&self) -> (r: u16)
        ensures
            r == get_bits16(self.bits, 6, 0xc0),
    {
        get16(self.bits, 6, 0xc0)
    }

    /// Writes the `reserved1` field, leaving the others as they are.
    pub fn set_reserved1(&mut self, val: u16)
        ensures
            *final(self) == (Ich8HsfStatus { bits: set_bits16(old(self).bits, 6, 0xc0, val), ..*old(self) }),
    {
        self.bits = set16(self.bits, 6, 0xc0, val);
    }

    /// The `reserved2` field (bits under 0x3f00).
    pub fn reserved2(&self) -> (r: u16)
        ensures
            r == get_bits16(self.bits, 8, 0x3f00),
    {
        get16(self.bits, 8, 0x3f00)
    }

    /// Writes the `reserved2` field, leaving the others as they are.
    pub fn set_reserved2(&mut self, val: u16)
        ensures
            *final(self) == (Ich8HsfStatus { bits: set_bits16(old(self).bits, 8, 0x3f00, val), ..*old(self) }),
    {
        self.bits = set16(self.bits, 8, 0x3f00, val);
    }

    /// The `fldesvalid` field (bits under 0x4000).
    pub fn fldesvalid(&self) -> (r: u16)
        ensures
            r == get_bits16(self.bits, 14, 0x4000),
    {
        get16(self.bits, 14, 0x4000)
    }

    /// Writes the `fldesvalid` field, leaving the others as they are.
    pub fn set_fldesvalid(&mut self, val: u16)
        ensures
            *final(self) == (Ich8HsfStatus { bits: set_bits16(old(self).bits, 14, 0x4000, val), ..*old(self) }),
    {
        self.bits = set16(self.bits, 14, 0x4000, val);
    }

    /// The `flockdn` field (bits under 0x8000).
    pub fn flockdn(&self) -> (r: u16)
        ensures
            r == get_bits16(self.bits, 15, 0x8000),
    {
        get16(self.bits, 15, 0x8000)
    }

    /// Writes the `flockdn` field, leaving the others as they are.
    pub fn set_flockdn(&mut self, val: u16)
        ensures
            *final(self) == (Ich8HsfStatus { bits: set_bits16(old(self).bits, 15, 0x8000, val), ..*old(self) }),
    {
        self.bits = set16(self.bits, 15, 0x8000, val);
    }

    /// The packed bits holding the given field values: reading each field
    /// back gives its value cut to the field's width.
    pub fn new_bitfield_1(flcdone: u16, flcerr: u16, dael: u16, berasesz: u16, flcinprog: u16, reserved1: u16, reserved2: u16, fldesvalid: u16, flockdn: u16) -> (r: u16)
        ensures
            get_bits16(r, 0, 0x1) == (((flcdone << 0u16) as u16) & 0x1) >> 0u16,
            get_bits16(r, 1, 0x2) == (((flcerr << 1u16) as u16) & 0x2) >> 1u16,
            get_bits16(r, 2, 0x4) == (((dael << 2u16) as u16) & 0x4) >> 2u16,
            get_bits16(r, 3, 0x18) == (((berasesz << 3u16) as u16) & 0x18) >> 3u16,
            get_bits16(r, 5, 0x20) == (((flcinprog << 5u16) as u16) & 0x20) >> 5u16,
            get_bits16(r, 6, 0xc0) == (((reserved1 << 6u16) as u16) & 0xc0) >> 6u16,
            get_bits16(r, 8, 0x3f00) == (((reserved2 << 8u16) as u16) & 0x3f00) >> 8u16,
            get_bits16(r, 14, 0x4000) == (((fldesvalid << 14u16) as u16) & 0x4000) >> 14u16,
            get_bits16(r, 15, 0x8000) == (((flockdn << 15u16) as u16) & 0x8000) >> 15u16,
    {
        let r: u16 = 0 | ((flcdone << 0u16) & 0x1u16) | ((flcerr << 1u16) & 0x2u16) | ((dael << 2u16) & 0x4u16) | ((berasesz << 3u16) & 0x18u16) | ((flcinprog << 5u16) & 0x20u16) | ((reserved1 << 6u16) & 0xc0u16) | ((reserved2 << 8u16) & 0x3f00u16) | ((fldesvalid << 14u16) & 0x4000u16) | ((flockdn << 15u16) & 0x8000u16);
        assert((((r & 0x1u16) >> 0u16) == (((flcdone << 0u16) as u16) & 0x1u16) >> 0u16) && (((r & 0x2u16) >> 1u16) == (((flcerr << 1u16) as u16) & 0x2u16) >> 1u16) && (((r & 0x4u16) >> 2u16) == (((dael << 2u16) as u16) & 0x4u16) >> 2u16) && (((r & 0x18u16) >> 3u16) == (((berasesz << 3u16) as u16) & 0x18u16) >> 3u16) && (((r & 0x20u16) >> 5u16) == (((flcinprog << 5u16) as u16) & 0x20u16) >> 5u16) && (((r & 0xc0u16) >> 6u16) == (((reserved1 << 6u16) as u16) & 0xc0u16) >> 6u16) && (((r & 0x3f00u16) >> 8u16) == (((reserved2 << 8u16) as u16) & 0x3f00u16) >> 8u16) && (((r & 0x4000u16) >> 14u16) == (((fldesvalid << 14u16) as u16) & 0x4000u16) >> 14u16) && (((r & 0x8000u16) >> 15u16) == (((flockdn << 15u16) as u16) & 0x8000u16) >> 15u16)) by (bit_vector)
            requires
                r == 0 | ((flcdone << 0u16) & 0x1u16) | ((flcerr << 1u16) & 0x2u16) | ((dael << 2u16) & 0x4u16) | ((berasesz << 3u16) & 0x18u16) | ((flcinprog << 5u16) & 0x20u16) | ((reserved1 << 6u16) & 0xc0u16) | ((reserved2 << 8u16) & 0x3f00u16) | ((fldesvalid << 14u16) & 0x4000u16) | ((flockdn << 15u16) & 0x8000u16);
        r
    }
}

/// The ICH8 flash control register.
#[derive(Debug, Clone, Copy, PartialEq, Eq, Structural, Default)]
pub struct Ich8HsflCtrl {
    /// The packed bit fields.
    pub bits: u16,
}

impl Ich8HsflCtrl {
    /// The `flcgo` field (bits under 0x1).
    pub fn flcgo(&self) -> (r: u16)
        ensures
            r == get_bits16(self.bits, 0, 0x1),
    {
        get16(self.bits, 0, 0x1)
    }

    /// Writes the `flcgo` field, leaving the others as they are.
    pub fn set_flcgo(&mut self, val: u16)
        ensures
            *final(self) == (Ich8HsflCtrl { bits: set_bits16(old(self).bits, 0, 0x1, val), ..*old(self) }),
    {
        self.bits = set16(self.bits, 0, 0x1, val);
    }

    /// The `flcycle` field (bits under 0x6).
    pub fn flcycle(&self) -> (r: u16)
        ensures
            r == get_bits16(self.bits, 1, 0x6),
    {
        get16(self.bits, 1, 0x6)
    }

    /// Writes the `flcycle` field, leaving the others as they are.
    pub fn set_flcycle(&mut self, val: u16)
        ensures
            *final(self) == (Ich8HsflCtrl { bits: set_bits16(old(self).bits, 1, 0x6, val), ..*old(self) }),
    {
        self.bits = set16(self.bits, 1, 0x6, val);
    }

    /// The `reserved` field (bits under 0xf8).
    pub fn reserved(&self) -> (r: u16)
        ensures
            r == get_bits16(self.bits, 3, 0xf8),
    {
        get16(self.bits, 3, 0xf8)
    }

    /// Writes the `reserved` field, leaving the others as they are.
    pub fn set_reserved(&mut self, val: u16)
        ensures
            *final(self) == (Ich8HsflCtrl { bits: set_bits16(old(self).bits, 3, 0xf8, val), ..*old(self) }),
    {
        self.bits = set16(self.bits, 3, 0xf8, val);
    }

    /// The `fldbcount` field (bits under 0x300).
    pub fn fldbcount(&self) -> (r: u16)
        ensures
            r == get_bits16(self.bits, 8, 0x300),
    {
        get16(self.bits, 8, 0x300)
    }

    /// Writes the `fldbcount` field, leaving the others as they are.
    pub fn set_fldbcount(&mut self, val: u16)
        ensures
            *final(self) == (Ich8HsflCtrl { bits: set_bits16(old(self).bits, 8, 0x300, val), ..*old(self) }),
    {
        self.bits = set16(self.bits, 8, 0x300, val);
    }

    /// The `flockdn` field (bits under 0xfc00).
    pub fn flockdn(&self) -> (r: u16)
        ensures
            r == get_bits16(self.bits, 10, 0xfc00),
    {
        get16(self.bits, 10, 0xfc00)
    }

    /// Writes the `flockdn` field, leaving the others as they are.
    pub fn set_flockdn(&mut self, val: u16)
        ensures
            *final(self) == (Ich8HsflCtrl { bits: set_bits16(old(self).bits, 10, 0xfc00, val), ..*old(self) }),
    {
        self.bits = set16(self.bits, 10, 0xfc00, val);
    }

    /// The packed bits holding the given field values: reading each field
    /// back gives its value cut to the field's width.
    pub fn new_bitfield_1(flcgo: u16, flcycle: u16, reserved: u16, fldbcount: u16, flockdn: u16) -> (r: u16)
        ensures
            get_bits16(r, 0, 0x1) == (((flcgo << 0u16) as u16) & 0x1) >> 0u16,
            get_bits16(r, 1, 0x6) == (((flcycle << 1u16) as u16) & 0x6) >> 1u16,
            get_bits16(r, 3, 0xf8) == (((reserved << 3u16) as u16) & 0xf8) >> 3u16,
            get_bits16(r, 8, 0x300) == (((fldbcount << 8u16) as u16) & 0x300) >> 8u16,
            get_bits16(r, 10, 0xfc00) == (((flockdn << 10u16) as u16) & 0xfc00) >> 10u16,
    {
        let r: u16 = 0 | ((flcgo << 0u16) & 0x1u16) | ((flcycle << 1u16) & 0x6u16) | ((reserved << 3u16) & 0xf8u16) | ((fldbcount << 8u16) & 0x300u16) | ((flockdn << 10u16) & 0xfc00u16);
        assert((((r & 0x1u16) >> 0u16) == (((flcgo << 0u16) as u16) & 0x1u16) >> 0u16) && (((r & 0x6u16) >> 1u16) == (((flcycle << 1u16) as u16) & 0x6u16) >> 1u16) && (((r & 0xf8u16) >> 3u16) == (((reserved << 3u16) as u16) & 0xf8u16) >> 3u16) && (((r & 0x300u16) >> 8u16) == (((fldbcount << 8u16) as u16) & 0x300u16) >> 8u16) && (((r & 0xfc00u16) >> 10u16) == (((flockdn << 10u16) as u16) & 0xfc00u16) >> 10u16)) by (bit_vector)
            requires
                r == 0 | ((flcgo << 0u16) & 0x1u16) | ((flcycle << 1u16) & 0x6u16) | ((reserved << 3u16) & 0xf8u16) | ((fldbcount << 8u16) & 0x300u16) | ((flockdn << 10u16) & 0xfc00u16);
        r
    }
}

/// An IPv4 address in network byte order.
#[derive(Debug, Clone, Copy, PartialEq, Eq, Structural, Default)]
pub struct in_addr {
    pub s_addr: u32,
}

/// An IPv4 header; the first byte packs the header length (in words) and the version.
#[derive(Debug, Clone, Copy, PartialEq, Eq, Structural, Default)]
pub struct ip {
    /// The packed bit fields.
    pub bits: u8,
    pub ip_tos: u8,
    pub ip_len: u16,
    pub ip_id: u16,
    pub ip_off: u16,
    pub ip_ttl: u8,
    pub ip_p: u8,
    pub ip_sum: u16,
    pub ip_src: in_addr,
    pub ip_dst: in_addr,
}

impl ip {
    /// The `ip_hl` field (bits under 0xf).
    pub fn ip_hl(&self) -> (r: u8)
        ensures
            r == get_bits8(self.bits, 0, 0xf),
    {
        get8(self.bits, 0, 0xf)
    }

    /// Writes the `ip_hl` field, leaving the others as they are.
    pub fn set_ip_hl(&mut self, val: u8)
        ensures
            *final(self) == (ip { bits: set_bits8(old(self).bits, 0, 0xf, val), ..*old(self) }),
    {
        self.bits = set8(self.bits, 0, 0xf, val);
    }

    /// The `ip_v` field (bits under 0xf0).
    pub fn ip_v(&self) -> (r: u8)
        ensures
            r == get_bits8(self.bits, 4, 0xf0),
    {
        get8(self.bits, 4, 0xf0)
    }

    /// Writes the `ip_v` field, leaving the others as they are.
    pub fn set_ip_v(&mut self, val: u8)
        ensures
            *final(self) == (ip { bits: set_bits8(old(self).bits, 4, 0xf0, val), ..*old(self) }),
    {
        self.bits = set8(self.bits, 4, 0xf0, val);
    }

    /// The packed bits holding the given field values: reading each field
    /// back gives its value cut to the field's width.
    pub fn new_bitfield_1(ip_hl: u8, ip_v: u8) -> (r: u8)
        ensures
            get_bits8(r, 0, 0xf) == (((ip_hl << 0u8) as u8) & 0xf) >> 0u8,
            get_bits8(r, 4, 0xf0) == (((ip_v << 4u8) as u8) & 0xf0) >> 4u8,
    {
        let r: u8 = 0 | ((ip_hl << 0u8) & 0xfu8) | ((ip_v << 4u8) & 0xf0u8);
        assert((((r & 0xfu8) >> 0u8) == (((ip_hl << 0u8) as u8) & 0xfu8) >> 0u8) && (((r & 0xf0u8) >> 4u8) == (((ip_v << 4u8) as u8) & 0xf0u8) >> 4u8)) by (bit_vector)
            requires
                r == 0 | ((ip_hl << 0u8) & 0xfu8) | ((ip_v << 4u8) & 0xf0u8);
        r
    }
}

/// A UDP header.
#[derive(Debug, Clone, Copy, PartialEq, Eq, Structural, Default)]
pub struct udphdr {
    pub uh_sport: u16,
    pub uh_dport: u16,
    pub uh_ulen: u16,
    pub uh_sum: u16,
}

/// A TCP header; one byte packs the reserved bits and the data offset (in words).
#[derive(Debug, Clone, Copy, PartialEq, Eq, Structural, Default)]
pub struct tcphdr {
    /// The packed bit fields.
    pub bits: u8,
    pub th_sport: u16,
    pub th_dport: u16,
    pub th_seq: u32,
    pub th_ack: u32,
    pub th_flags: u8,
    pub th_win: u16,
    pub th_sum: u16,
    pub th_urp: u16,
}

impl tcphdr {
    /// The `th_x2` field (bits under 0xf).
    pub fn th_x2(&self) -> (r: u8)
        ensures
            r == get_bits8(self.bits, 0, 0xf),
    {
        get8(self.bits, 0, 0xf)
    }

    /// Writes the `th_x2` field, leaving the others as they are.
    pub fn set_th_x2(&mut self, val: u8)
        ensures
            *final(self) == (tcphdr { bits: set_bits8(old(self).bits, 0, 0xf, val), ..*old(self) }),
    {
        self.bits = set8(self.bits, 0, 0xf, val);
    }

    /// The `th_off` field (bits under 0xf0).
    pub fn th_off(&self) -> (r: u8)
        ensures
            r == get_bits8(self.bits, 4, 0xf0),
    {
        get8(self.bits, 4, 0xf0)
    }

    /// Writes the `th_off` field, leaving the others as they are.
    pub fn set_th_off(&mut self, val: u8)
        ensures
            *final(self) == (tcphdr { bits: set_bits8(old(self).bits, 4, 0xf0, val), ..*old(self) }),
    {
        self.bits = set8(self.bits, 4, 0xf0, val);
    }

    /// The packed bits holding the given field values: reading each field
    /// back gives its value cut to the field's width.
    pub fn new_bitfield_1(th_x2: u8, th_off: u8) -> (r: u8)
        ensures
            get_bits8(r, 0, 0xf) == (((th_x2 << 0u8) as u8) & 0xf) >> 0u8,
            get_bits8(r, 4, 0xf0) == (((th_off << 4u8) as u8) & 0xf0) >> 4u8,
    {
        let r: u8 = 0 | ((th_x2 << 0u8) & 0xfu8) | ((th_off << 4u8) & 0xf0u8);
        assert((((r & 0xfu8) >> 0u8) == (((th_x2 << 0u8) as u8) & 0xfu8) >> 0u8) && (((r & 0xf0u8) >> 4u8) == (((th_off << 4u8) as u8) & 0xf0u8) >> 4u8)) by (bit_vector)
            requires
                r == 0 | ((th_x2 << 0u8) & 0xfu8) | ((th_off << 4u8) & 0xf0u8);
        r
    }
}

} // verus!
