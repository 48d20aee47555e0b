//! The NVM (EEPROM) access routines: the Microwire bit-banging protocol over
//! the EEPROM control register, the semaphore, and the checksum.
use vstd::prelude::*;
use crate::adapter::{
    AdResult, Adapter, do_read_register, do_usec_delay, do_write_flush, do_write_register,
};
use crate::consts::{
    E1000_EECD, E1000_EECD_CS, E1000_EECD_DI, E1000_EECD_DO, E1000_EECD_GNT, E1000_EECD_REQ,
    E1000_EECD_SK, E1000_NVM_GRANT_ATTEMPTS, E1000_STATUS, NVM_CHECKSUM_REG,
    NVM_READ_OPCODE_MICROWIRE, NVM_SUM,
};
use crate::hw::{Hardware, MacInfo, NvmType};
use crate::mac::{rar_high, rar_low};
use crate::platform::{IoOp, Platform, is_read_of, read_value};
use crate::regs::{E1000_RAH, E1000_RAL};

verus! {

// ------------------------------------------------------------ clocking

/// Raises the EEPROM clock: sets the clock bit in `eecd`, writes it,
/// flushes and waits the EEPROM delay.
pub fn raise_eec_clk<P: Platform>(adapter: &mut Adapter<P>, eecd: &mut u32)
    ensures
        *final(eecd) == *old(eecd) | E1000_EECD_SK,
        final(adapter).same_state(old(adapter)),
        final(adapter).logged(
            old(adapter),
            seq![
                IoOp::Write { reg: E1000_EECD, value: *old(eecd) | E1000_EECD_SK },
                IoOp::Read { reg: E1000_STATUS, value: final(adapter).read_at(old(adapter), 1) },
                IoOp::Delay { usecs: old(adapter).hw.nvm.delay_usec as usize },
            ],
        ),
{
    *eecd = *eecd | E1000_EECD_SK;
    do_write_register(adapter, E1000_EECD, *eecd);
    do_write_flush(adapter);
    let d = adapter.hw.nvm.delay_usec as usize;
    do_usec_delay(adapter, d);
}

/// Lowers the EEPROM clock: clears the clock bit in `eecd`, writes it,
/// flushes and waits the EEPROM delay.
pub fn lower_eec_clk<P: Platform>(adapter: &mut Adapter<P>, eecd: &mut u32)
    ensures
        *final(eecd) == *old(eecd) & !E1000_EECD_SK,
        final(adapter).same_state(old(adapter)),
        final(adapter).logged(
            old(adapter),
            seq![
                IoOp::Write { reg: E1000_EECD, value: *old(eecd) & !E1000_EECD_SK },
                IoOp::Read { reg: E1000_STATUS, value: final(adapter).read_at(old(adapter), 1) },
                IoOp::Delay { usecs: old(adapter).hw.nvm.delay_usec as usize },
            ],
        ),
{
    *eecd = *eecd & !E1000_EECD_SK;
    do_write_register(adapter, E1000_EECD, *eecd);
    do_write_flush(adapter);
    let d = adapter.hw.nvm.delay_usec as usize;
    do_usec_delay(adapter, d);
}

// ------------------------------------------------------------ shifting

/// `op` writes the EEPROM control register with the data-in bit as `bit`.
pub open spec fn eecd_di_write(op: IoOp, bit: bool) -> bool {
    &&& op matches IoOp::Write { reg, value }
    &&& op->Write_reg == E1000_EECD
    &&& (op->Write_value & E1000_EECD_DI != 0) == bit
}

/// Bit `k` (counted from the most significant of `count` bits) of `data`.
pub open spec fn out_bit(data: u16, count: u16, k: int) -> bool {
    data & ((1u32 << ((count - 1 - k) as u32)) as u16) != 0
}

/// Shifts the `count` low bits of `data` out to the EEPROM, most
/// significant first: for each bit, a write of the control register with
/// the data-in bit set to it (plus a flush and the EEPROM delay), then a
/// clock pulse; finally the data-in bit is cleared.
#[verifier::spinoff_prover]
#[verifier::rlimit(100)]
pub fn shift_out_eec_bits<P: Platform>(adapter: &mut Adapter<P>, data: u16, count: u16)
    requires
        1 <= count <= 16,
    ensures
        final(adapter).same_state(old(adapter)),
        final(adapter).log_extends(old(adapter)),
        final(adapter).io_log@.len() == old(adapter).io_log@.len() + 2 + 9 * count,
        is_read_of(final(adapter).io_log@[old(adapter).io_log@.len() as int], E1000_EECD),
        forall|k: int|
            0 <= k < count ==> eecd_di_write(
                #[trigger] final(adapter).io_log@[old(adapter).io_log@.len() + 1 + 9 * k],
                out_bit(data, count, k),
            ),
{
    let ghost start = adapter.io_log@.len();
    let mut eecd: u32 = do_read_register(adapter, E1000_EECD);
    let mut mask: u32 = 1u32 << ((count - 1) as u32);
    if adapter.hw.nvm.nvm_type == NvmType::EepromMicrowire {
        eecd = eecd & !E1000_EECD_DO;
    }
    let mut k: u16 = 0;
    loop
        invariant_except_break
            k < count,
            mask == 1u32 << ((count - 1 - k) as u32),
        invariant
            1 <= count <= 16,
            k <= count,
            start == old(adapter).io_log@.len(),
            adapter.same_state(old(adapter)),
            adapter.log_extends(old(adapter)),
            adapter.io_log@.len() == start + 1 + 9 * k,
            is_read_of(adapter.io_log@[start as int], E1000_EECD),
            forall|j: int|
                0 <= j < k ==> eecd_di_write(
                    #[trigger] adapter.io_log@[start + 1 + 9 * j],
                    out_bit(data, count, j),
                ),
        ensures
            k == count,
            adapter.same_state(old(adapter)),
            adapter.log_extends(old(adapter)),
            adapter.io_log@.len() == start + 1 + 9 * count,
            is_read_of(adapter.io_log@[start as int], E1000_EECD),
            forall|j: int|
                0 <= j < count ==> eecd_di_write(
                    #[trigger] adapter.io_log@[start + 1 + 9 * j],
                    out_bit(data, count, j),
                ),
        decreases count - k,
    {
        let prev: u32 = eecd;
        let base: u32 = prev & !E1000_EECD_DI;
        let bitv: bool = data & (mask as u16) != 0;
        eecd = if bitv {
            base | E1000_EECD_DI
        } else {
            base
        };
        proof {
            let e0 = base;
            let p0 = prev;
            assert((e0 | E1000_EECD_DI) & E1000_EECD_DI != 0) by (bit_vector);
            assert((p0 & !E1000_EECD_DI) & E1000_EECD_DI == 0) by (bit_vector);
        }
        let ghost widx = adapter.io_log@.len();
        let ghost wval = eecd;
        let ghost bit = data & (mask as u16) != 0;
        do_write_register(adapter, E1000_EECD, eecd);
        do_write_flush(adapter);
        let d = adapter.hw.nvm.delay_usec as usize;
        do_usec_delay(adapter, d);
        raise_eec_clk(adapter, &mut eecd);
        lower_eec_clk(adapter, &mut eecd);
        mask = mask >> 1u32;
        proof {
            assert(adapter.io_log@[widx as int] == IoOp::Write { reg: E1000_EECD, value: wval });
            assert((wval & E1000_EECD_DI != 0) == bit);
            assert(bit == out_bit(data, count, k as int));
            assert(widx == start + 1 + 9 * k);
            assert(eecd_di_write(adapter.io_log@[start + 1 + 9 * k], out_bit(data, count, k as int)));
            let kk = k;
            let c = count;
            assert(kk < c && c <= 16 ==> (1u32 << ((c - 1 - kk) as u32)) >> 1u32 == if kk + 1 < c {
                1u32 << ((c - 1 - (kk + 1)) as u32)
            } else {
                0u32
            }) by (bit_vector);
            assert(kk + 1 < c && c <= 16 ==> (1u32 << ((c - 1 - (kk + 1)) as u32)) != 0u32) by (bit_vector);
        }
        k = k + 1;
        if mask == 0 {
            break;
        }
    }
    eecd = eecd & !E1000_EECD_DI;
    do_write_register(adapter, E1000_EECD, eecd);
}

/// The word shifted in from the EEPROM: bit after bit, most significant
/// first, each the data-out bit of the control register read during the
/// `k`-th clock pulse, which is operation `4 + 7 * k` after the first.
pub open spec fn shifted_in(ops: Seq<IoOp>, n: nat) -> u16
    decreases n,
{
    if n == 0 {
        0
    } else {
        let prev = shifted_in(ops, (n - 1) as nat);
        let bit: u16 = if read_value(ops[4 + 7 * (n - 1)]) & E1000_EECD_DO != 0 {
            1
        } else {
            0
        };
        (((prev as u32) << 1u32) as u16) | bit
    }
}

/// Shifts `count` bits in from the EEPROM, most significant first: for each
/// bit, raises the clock, reads the control register's data-out bit, and
/// lowers the clock.
#[verifier::spinoff_prover]
#[verifier::rlimit(100)]
pub fn shift_in_eec_bits<P: Platform>(adapter: &mut Adapter<P>, count: u16) -> (r: u16)
    requires
        count <= 16,
    ensures
        final(adapter).same_state(old(adapter)),
        final(adapter).log_extends(old(adapter)),
        final(adapter).io_log@.len() == old(adapter).io_log@.len() + 1 + 7 * count,
        forall|k: int|
            0 <= k < count ==> is_read_of(
                #[trigger] final(adapter).new_ops(old(adapter))[4 + 7 * k],
                E1000_EECD,
            ),
        r == shifted_in(final(adapter).new_ops(old(adapter)), count as nat),
{
    let ghost start = adapter.io_log@.len();
    let mut eecd: u32 = do_read_register(adapter, E1000_EECD);
    eecd = eecd & !(E1000_EECD_DO | E1000_EECD_DI);
    let mut data: u16 = 0;
    let mut i: u16 = 0;
    while i < count
        invariant
            count <= 16,
            i <= count,
            start == old(adapter).io_log@.len(),
            adapter.same_state(old(adapter)),
            adapter.log_extends(old(adapter)),
            adapter.io_log@.len() == start + 1 + 7 * i,
            forall|k: int|
                0 <= k < i ==> is_read_of(#[trigger] adapter.io_log@[start + 4 + 7 * k], E1000_EECD),
            data == shifted_in(adapter.io_log@.subrange(start as int, adapter.io_log@.len() as int), i as nat),
        decreases count - i,
    {
        let ghost prev_log = adapter.io_log@;
        let ghost before_data = data;
        data = ((data as u32) << 1u32) as u16;
        raise_eec_clk(adapter, &mut eecd);
        eecd = do_read_register(adapter, E1000_EECD);
        eecd = eecd & !E1000_EECD_DI;
        let sampled = eecd & E1000_EECD_DO != 0;
        proof {
            let v = read_value(adapter.io_log@.last());
            let e = eecd;
            assert(e == v & !E1000_EECD_DI);
            assert((v & !E1000_EECD_DI) & E1000_EECD_DO == v & E1000_EECD_DO) by (bit_vector);
        }
        if sampled {
            data = data | 1;
        }
        lower_eec_clk(adapter, &mut eecd);
        proof {
            let all = adapter.io_log@.subrange(start as int, adapter.io_log@.len() as int);
            let before = prev_log.subrange(start as int, prev_log.len() as int);
            assert forall|j: int| 0 <= j < 1 + 7 * i implies all[j] == before[j] by {
                assert(all[j] == adapter.io_log@[start + j]);
            }
            lemma_shifted_in_prefix(all, before, i as nat);
            assert(all[4 + 7 * i] == adapter.io_log@[start + 4 + 7 * i]);
            let x = ((before_data as u32) << 1u32) as u16;
            assert(x | 0u16 == x) by (bit_vector);
        }
        i = i + 1;
    }
    proof {
        assert(adapter.new_ops(old(adapter)) =~= adapter.io_log@.subrange(
            start as int,
            adapter.io_log@.len() as int,
        ));
        assert forall|k: int| 0 <= k < count implies is_read_of(
            #[trigger] adapter.new_ops(old(adapter))[4 + 7 * k],
            E1000_EECD,
        ) by {
            assert(adapter.new_ops(old(adapter))[4 + 7 * k] == adapter.io_log@[start + 4 + 7 * k]);
        }
    }
    data
}

/// The shifted-in value of the first `n` bits depends only on the
/// operations that carry them.
proof fn lemma_shifted_in_prefix(a: Seq<IoOp>, b: Seq<IoOp>, n: nat)
    requires
        forall|j: int| 0 <= j < 7 * n - 2 ==> a[j] == b[j],
    ensures
        shifted_in(a, n) == shifted_in(b, n),
    decreases n,
{
    if n > 0 {
        lemma_shifted_in_prefix(a, b, (n - 1) as nat);
        assert(a[4 + 7 * (n - 1)] == b[4 + 7 * (n - 1)]);
    }
}


// ------------------------------------------------------------ chip select

/// Readies the EEPROM: on Microwire, clears clock and data-in, then sets
/// chip select; other types only read the control register.
pub fn ready_nvm_eeprom<P: Platform>(adapter: &mut Adapter<P>) -> (r: AdResult)
    ensures
        r.is_ok(),
        final(adapter).same_state(old(adapter)),
        old(adapter).hw.nvm.nvm_type == NvmType::EepromMicrowire ==> final(adapter).logged(
            old(adapter),
            seq![
                IoOp::Read { reg: E1000_EECD, value: final(adapter).read_at(old(adapter), 0) },
                IoOp::Write {
                    reg: E1000_EECD,
                    value: final(adapter).read_at(old(adapter), 0) & !(E1000_EECD_DI | E1000_EECD_SK),
                },
                IoOp::Write {
                    reg: E1000_EECD,
                    value: (final(adapter).read_at(old(adapter), 0) & !(E1000_EECD_DI | E1000_EECD_SK))
                        | E1000_EECD_CS,
                },
            ],
        ),
        old(adapter).hw.nvm.nvm_type != NvmType::EepromMicrowire ==> final(adapter).logged(
            old(adapter),
            seq![IoOp::Read { reg: E1000_EECD, value: final(adapter).read_at(old(adapter), 0) }],
        ),
{
    let mut eecd: u32 = do_read_register(adapter, E1000_EECD);
    if adapter.hw.nvm.nvm_type == NvmType::EepromMicrowire {
        eecd = eecd & !(E1000_EECD_DI | E1000_EECD_SK);
        do_write_register(adapter, E1000_EECD, eecd);
        eecd = eecd | E1000_EECD_CS;
        do_write_register(adapter, E1000_EECD, eecd);
    }
    Ok(())
}

/// Ends an EEPROM command: on Microwire, drops chip select and data-in and
/// pulses the clock; on SPI, raises chip select and lowers the clock.
pub fn stop_nvm<P: Platform>(adapter: &mut Adapter<P>)
    ensures
        final(adapter).same_state(old(adapter)),
        final(adapter).log_extends(old(adapter)),
        is_read_of(final(adapter).io_log@[old(adapter).io_log@.len() as int], E1000_EECD),
        old(adapter).hw.nvm.nvm_type == NvmType::EepromMicrowire ==> final(adapter).io_log@.len()
            == old(adapter).io_log@.len() + 8 && final(adapter).io_log@[old(adapter).io_log@.len()
            + 1int] == (IoOp::Write {
            reg: E1000_EECD,
            value: final(adapter).read_at(old(adapter), 0) & !(E1000_EECD_CS | E1000_EECD_DI),
        }),
        old(adapter).hw.nvm.nvm_type == NvmType::EepromSpi ==> final(adapter).io_log@.len() == old(adapter).io_log@.len() + 4 && final(adapter).io_log@[old(adapter).io_log@.len() + 1int] == (
        IoOp::Write {
            reg: E1000_EECD,
            value: (final(adapter).read_at(old(adapter), 0) | E1000_EECD_CS) & !E1000_EECD_SK,
        }),
        old(adapter).hw.nvm.nvm_type != NvmType::EepromMicrowire && old(adapter).hw.nvm.nvm_type
            != NvmType::EepromSpi ==> final(adapter).io_log@.len() == old(adapter).io_log@.len() + 1,
{
    let mut eecd: u32 = do_read_register(adapter, E1000_EECD);
    if adapter.hw.nvm.nvm_type == NvmType::EepromSpi {
        eecd = eecd | E1000_EECD_CS;
        lower_eec_clk(adapter, &mut eecd);
    } else if adapter.hw.nvm.nvm_type == NvmType::EepromMicrowire {
        eecd = eecd & !(E1000_EECD_CS | E1000_EECD_DI);
        do_write_register(adapter, E1000_EECD, eecd);
        raise_eec_clk(adapter, &mut eecd);
        lower_eec_clk(adapter, &mut eecd);
    }
}

/// Puts a Microwire EEPROM in standby between words: drops chip select and
/// clock, raises the clock, selects the EEPROM again and lowers the clock,
/// flushing and waiting after each write. Other types only read the
/// control register.
pub fn standby_nvm<P: Platform>(adapter: &mut Adapter<P>)
    ensures
        final(adapter).same_state(old(adapter)),
        final(adapter).log_extends(old(adapter)),
        is_read_of(final(adapter).io_log@[old(adapter).io_log@.len() as int], E1000_EECD),
        old(adapter).hw.nvm.nvm_type == NvmType::EepromMicrowire ==> final(adapter).io_log@.len()
            == old(adapter).io_log@.len() + 13 && final(adapter).io_log@[old(adapter).io_log@.len()
            + 1int] == (IoOp::Write {
            reg: E1000_EECD,
            value: final(adapter).read_at(old(adapter), 0) & !(E1000_EECD_CS | E1000_EECD_SK),
        }),
        old(adapter).hw.nvm.nvm_type != NvmType::EepromMicrowire ==> final(adapter).io_log@.len()
            == old(adapter).io_log@.len() + 1,
{
    let mut eecd: u32 = do_read_register(adapter, E1000_EECD);
    if adapter.hw.nvm.nvm_type == NvmType::EepromMicrowire {
        eecd = eecd & !(E1000_EECD_CS | E1000_EECD_SK);
        do_write_register(adapter, E1000_EECD, eecd);
        do_write_flush(adapter);
        let d = adapter.hw.nvm.delay_usec as usize;
        do_usec_delay(adapter, d);
        raise_eec_clk(adapter, &mut eecd);
        eecd = eecd | E1000_EECD_CS;
        do_write_register(adapter, E1000_EECD, eecd);
        do_write_flush(adapter);
        do_usec_delay(adapter, d);
        lower_eec_clk(adapter, &mut eecd);
    }
}

// ------------------------------------------------------------ semaphore

/// Requests the EEPROM: sets the request bit, then reads the control
/// register until it shows the grant bit, at most
/// `E1000_NVM_GRANT_ATTEMPTS` more times 5 us apart. Without the grant the
/// request is withdrawn and the call refused (also when the grant shows on
/// the very last read).
#[verifier::spinoff_prover]
pub fn acquire_nvm_generic<P: Platform>(adapter: &mut Adapter<P>) -> (r: AdResult)
    ensures
        final(adapter).same_state(old(adapter)),
        final(adapter).log_extends(old(adapter)),
        final(adapter).io_log@.len() >= old(adapter).io_log@.len() + 3,
        final(adapter).io_log@[old(adapter).io_log@.len() + 1int] == (IoOp::Write {
            reg: E1000_EECD,
            value: final(adapter).read_at(old(adapter), 0) | E1000_EECD_REQ,
        }),
        r.is_ok() ==> is_read_of(final(adapter).io_log@.last(), E1000_EECD) && read_value(
            final(adapter).io_log@.last(),
        ) & E1000_EECD_GNT != 0,
        r.is_err() ==> (final(adapter).io_log@.last() matches IoOp::Write { reg, value } && reg
            == E1000_EECD),
{
    let ghost start = adapter.io_log@.len();
    let mut eecd: u32 = do_read_register(adapter, E1000_EECD);
    do_write_register(adapter, E1000_EECD, eecd | E1000_EECD_REQ);
    eecd = do_read_register(adapter, E1000_EECD);
    let mut timeout: i32 = E1000_NVM_GRANT_ATTEMPTS as i32;
    while timeout > 0
        invariant
            0 <= timeout <= E1000_NVM_GRANT_ATTEMPTS,
            start == old(adapter).io_log@.len(),
            adapter.same_state(old(adapter)),
            adapter.log_extends(old(adapter)),
            adapter.io_log@.len() >= start + 3,
            adapter.io_log@[start + 1int] == (IoOp::Write {
                reg: E1000_EECD,
                value: read_value(adapter.io_log@[start as int]) | E1000_EECD_REQ,
            }),
            is_read_of(adapter.io_log@.last(), E1000_EECD),
            eecd == read_value(adapter.io_log@.last()),
        ensures
            timeout > 0 ==> eecd & E1000_EECD_GNT > 0,
            adapter.same_state(old(adapter)),
            adapter.log_extends(old(adapter)),
            adapter.io_log@.len() >= start + 3,
            adapter.io_log@[start + 1int] == (IoOp::Write {
                reg: E1000_EECD,
                value: read_value(adapter.io_log@[start as int]) | E1000_EECD_REQ,
            }),
            is_read_of(adapter.io_log@.last(), E1000_EECD),
            eecd == read_value(adapter.io_log@.last()),
        decreases timeout,
    {
        if eecd & E1000_EECD_GNT > 0 {
            break;
        }
        do_usec_delay(adapter, 5);
        eecd = do_read_register(adapter, E1000_EECD);
        timeout = timeout - 1;
    }
    if timeout == 0 {
        eecd = eecd & !E1000_EECD_REQ;
        do_write_register(adapter, E1000_EECD, eecd);
        Err("Could not acquire NVM grant".to_string())
    } else {
        Ok(())
    }
}

/// Releases the EEPROM: ends the command and withdraws the request bit.
pub fn release_nvm_generic<P: Platform>(adapter: &mut Adapter<P>)
    ensures
        final(adapter).same_state(old(adapter)),
        final(adapter).log_extends(old(adapter)),
        final(adapter).io_log@.len() >= 2,
        is_read_of(final(adapter).io_log@[final(adapter).io_log@.len() - 2], E1000_EECD),
        final(adapter).io_log@.last() == (IoOp::Write {
            reg: E1000_EECD,
            value: read_value(final(adapter).io_log@[final(adapter).io_log@.len() - 2]) & !E1000_EECD_REQ,
        }),
{
    stop_nvm(adapter);
    let mut eecd: u32 = do_read_register(adapter, E1000_EECD);
    eecd = eecd & !E1000_EECD_REQ;
    do_write_register(adapter, E1000_EECD, eecd);
}

// ------------------------------------------------------------ words

/// `ops` reads one word of a Microwire EEPROM: the read opcode shifted
/// out in `ob` bits, then the address `addr` in `ab` bits, then the sixteen
/// bits of `value` shifted in.
pub open spec fn microwire_word_read(ops: Seq<IoOp>, ob: u16, ab: u16, addr: u16, value: u16) -> bool {
    let a = 2 + 9 * ob;
    let b = a + 2 + 9 * ab;
    &&& ops.len() == b + 1 + 7 * 16
    &&& forall|k: int|
        0 <= k < ob ==> eecd_di_write(#[trigger] ops[1 + 9 * k], out_bit(NVM_READ_OPCODE_MICROWIRE, ob, k))
    &&& forall|k: int| 0 <= k < ab ==> eecd_di_write(#[trigger] ops[a + 1 + 9 * k], out_bit(addr, ab, k))
    &&& value == shifted_in(ops.subrange(b, ops.len() as int), 16)
}

/// Somewhere in the trace written since `o`, the EEPROM word at `addr` was
/// read (with the opcode and address widths of `o`) and gave `value`.
pub open spec fn nvm_word_read_since<P: Platform>(o: &Adapter<P>, f: &Adapter<P>, addr: u16, value: u16) -> bool {
    exists|i: int, j: int|
        o.io_log@.len() <= i <= j <= f.io_log@.len() && #[trigger] microwire_word_read(
            f.io_log@.subrange(i, j),
            o.hw.nvm.opcode_bits,
            o.hw.nvm.address_bits,
            addr,
            value,
        )
}

/// A word read since `m` is one since an earlier `o` with the same widths,
/// and stays one as the trace grows.
pub proof fn lemma_word_read_widen<P: Platform>(
    o: &Adapter<P>,
    m: &Adapter<P>,
    f: &Adapter<P>,
    g: &Adapter<P>,
    addr: u16,
    value: u16,
)
    requires
        nvm_word_read_since(m, f, addr, value),
        m.log_extends(o),
        g.log_extends(f),
        m.hw.nvm.opcode_bits == o.hw.nvm.opcode_bits,
        m.hw.nvm.address_bits == o.hw.nvm.address_bits,
    ensures
        nvm_word_read_since(o, g, addr, value),
{
    let (i, j) = choose|i: int, j: int|
        m.io_log@.len() <= i <= j <= f.io_log@.len() && #[trigger] microwire_word_read(
            f.io_log@.subrange(i, j),
            m.hw.nvm.opcode_bits,
            m.hw.nvm.address_bits,
            addr,
            value,
        );
    assert(g.io_log@.subrange(i, j) =~= f.io_log@.subrange(i, j));
}

/// The opcode, the address and the sixteen bits shifted between `s0` and
/// `s3` make a word read, seen from any later `f`.
proof fn lemma_word_read_step<P: Platform>(
    s0: &Adapter<P>,
    s1: &Adapter<P>,
    s2: &Adapter<P>,
    s3: &Adapter<P>,
    f: &Adapter<P>,
    ob: u16,
    ab: u16,
    addr: u16,
    value: u16,
)
    requires
        1 <= ob <= 16,
        1 <= ab <= 16,
        s1.log_extends(s0),
        s2.log_extends(s1),
        s3.log_extends(s2),
        f.log_extends(s3),
        s1.io_log@.len() == s0.io_log@.len() + 2 + 9 * ob,
        forall|k: int|
            0 <= k < ob ==> eecd_di_write(
                #[trigger] s1.io_log@[s0.io_log@.len() + 1 + 9 * k],
                out_bit(NVM_READ_OPCODE_MICROWIRE, ob, k),
            ),
        s2.io_log@.len() == s1.io_log@.len() + 2 + 9 * ab,
        forall|k: int|
            0 <= k < ab ==> eecd_di_write(#[trigger] s2.io_log@[s1.io_log@.len() + 1 + 9 * k], out_bit(addr, ab, k)),
        s3.io_log@.len() == s2.io_log@.len() + 1 + 7 * 16,
        value == shifted_in(s3.new_ops(s2), 16),
    ensures
        microwire_word_read(f.io_log@.subrange(s0.io_log@.len() as int, s3.io_log@.len() as int), ob, ab, addr, value),
{
    let p = s0.io_log@.len() as int;
    let q = s3.io_log@.len() as int;
    let ops = f.io_log@.subrange(p, q);
    let a = 2 + 9 * ob;
    let b = a + 2 + 9 * ab;
    assert forall|k: int| 0 <= k < ob implies eecd_di_write(
        #[trigger] ops[1 + 9 * k],
        out_bit(NVM_READ_OPCODE_MICROWIRE, ob, k),
    ) by {
        assert(ops[1 + 9 * k] == f.io_log@[p + 1 + 9 * k]);
        assert(f.io_log@[p + 1 + 9 * k] == s3.io_log@[p + 1 + 9 * k]);
        assert(s3.io_log@[p + 1 + 9 * k] == s2.io_log@[p + 1 + 9 * k]);
        assert(s2.io_log@[p + 1 + 9 * k] == s1.io_log@[p + 1 + 9 * k]);
        assert(eecd_di_write(
            s1.io_log@[s0.io_log@.len() + 1 + 9 * k],
            out_bit(NVM_READ_OPCODE_MICROWIRE, ob, k),
        ));
    }
    let p1 = s1.io_log@.len() as int;
    assert forall|k: int| 0 <= k < ab implies eecd_di_write(#[trigger] ops[a + 1 + 9 * k], out_bit(addr, ab, k)) by {
        assert(ops[a + 1 + 9 * k] == f.io_log@[p1 + 1 + 9 * k]);
        assert(f.io_log@[p1 + 1 + 9 * k] == s3.io_log@[p1 + 1 + 9 * k]);
        assert(s3.io_log@[p1 + 1 + 9 * k] == s2.io_log@[p1 + 1 + 9 * k]);
        assert(eecd_di_write(s2.io_log@[s1.io_log@.len() + 1 + 9 * k], out_bit(addr, ab, k)));
        assert(ops[a + 1 + 9 * k] == s2.io_log@[s1.io_log@.len() + 1 + 9 * k]);
    }
    let p2 = s2.io_log@.len() as int;
    assert(ops.subrange(b, ops.len() as int) =~= s3.new_ops(s2)) by {
        assert forall|k: int| 0 <= k < q - p2 implies #[trigger] ops.subrange(b, ops.len() as int)[k]
            == s3.new_ops(s2)[k] by {
            assert(f.io_log@[p2 + k] == s3.io_log@[p2 + k]);
        }
    }
}

/// The read parameters are within the EEPROM: the offset is inside it, and
/// between one word and the words left after it are asked for.
pub open spec fn nvm_range_ok(word_size: u16, offset: u16, words: u16) -> bool {
    &&& offset < word_size
    &&& words <= word_size - offset
    &&& words != 0
}

/// Reads `words` words from a Microwire EEPROM starting at `offset` into
/// `data`: under the semaphore, for each word sends the read opcode and the
/// address, shifts in sixteen bits and returns the EEPROM to standby.
/// Refused when the range is outside the EEPROM, when the semaphore
/// routines are missing, and when the semaphore is not granted.
#[verifier::spinoff_prover]
#[verifier::rlimit(100)]
pub fn read_nvm_microwire<P: Platform>(
    adapter: &mut Adapter<P>,
    offset: u16,
    words: u16,
    data: &mut [u16],
) -> (r: AdResult)
    requires
        nvm_range_ok(old(adapter).hw.nvm.word_size, offset, words) && old(adapter).hw.nvm.ops.acquire
            && old(adapter).hw.nvm.ops.release ==> old(data)@.len() >= words,
        1 <= old(adapter).hw.nvm.opcode_bits <= 16,
        1 <= old(adapter).hw.nvm.address_bits <= 16,
    ensures
        final(adapter).same_state(old(adapter)),
        final(adapter).log_extends(old(adapter)),
        final(data)@.len() == old(data)@.len(),
        !nvm_range_ok(old(adapter).hw.nvm.word_size, offset, words) ==> r.is_err()
            && final(adapter).io_log@ == old(adapter).io_log@ && final(data)@ == old(data)@,
        !old(adapter).hw.nvm.ops.acquire || !old(adapter).hw.nvm.ops.release ==> r.is_err()
            && final(adapter).io_log@ == old(adapter).io_log@ && final(data)@ == old(data)@,
        forall|k: int| words <= k < old(data)@.len() ==> final(data)@[k] == old(data)@[k],
        r.is_ok() ==> forall|k: int|
            0 <= k < words ==> #[trigger] nvm_word_read_since(
                old(adapter),
                final(adapter),
                (offset + k) as u16,
                final(data)@[k],
            ),
{
    let word_size = adapter.hw.nvm.word_size;
    if offset >= word_size || words > word_size - offset || words == 0 {
        return Err("nvm parameter out of bounds".to_string());
    }
    if !adapter.hw.nvm.ops.acquire || !adapter.hw.nvm.ops.release {
        return Err("No function".to_string());
    }
    let res = acquire_nvm_generic(adapter);
    if res.is_err() {
        return res;
    }
    let _ = ready_nvm_eeprom(adapter);
    let opcode_bits = adapter.hw.nvm.opcode_bits;
    let address_bits = adapter.hw.nvm.address_bits;
    let mut i: u16 = 0;
    while i < words
        invariant
            i <= words,
            offset < word_size,
            words <= word_size - offset,
            data@.len() == old(data)@.len(),
            data@.len() >= words,
            1 <= opcode_bits <= 16,
            1 <= address_bits <= 16,
            adapter.same_state(old(adapter)),
            adapter.log_extends(old(adapter)),
            forall|k: int| words <= k < old(data)@.len() ==> data@[k] == old(data)@[k],
            opcode_bits == old(adapter).hw.nvm.opcode_bits,
            address_bits == old(adapter).hw.nvm.address_bits,
            forall|k: int|
                0 <= k < i ==> #[trigger] nvm_word_read_since(old(adapter), adapter, (offset + k) as u16, data@[k]),
        decreases words - i,
    {
        let ghost s0 = *adapter;
        let ghost d0 = data@;
        shift_out_eec_bits(adapter, NVM_READ_OPCODE_MICROWIRE, opcode_bits);
        let ghost s1 = *adapter;
        shift_out_eec_bits(adapter, offset + i, address_bits);
        let ghost s2 = *adapter;
        let value: u16 = shift_in_eec_bits(adapter, 16);
        let ghost s3 = *adapter;
        data[i as usize] = value;
        standby_nvm(adapter);
        proof {
            lemma_word_read_step(&s0, &s1, &s2, &s3, adapter, opcode_bits, address_bits, (offset + i) as u16, value);
            assert(nvm_word_read_since(&s0, adapter, (offset + i) as u16, value));
            lemma_word_read_widen(old(adapter), &s0, adapter, adapter, (offset + i) as u16, value);
            assert forall|k: int| 0 <= k < i + 1 implies #[trigger] nvm_word_read_since(
                old(adapter),
                adapter,
                (offset + k) as u16,
                data@[k],
            ) by {
                if k < i {
                    assert(data@[k] == d0[k]);
                    lemma_word_read_widen(old(adapter), old(adapter), &s0, adapter, (offset + k) as u16, d0[k]);
                }
            }
        }
        i = i + 1;
    }
    let ghost sl = *adapter;
    release_nvm_generic(adapter);
    proof {
        assert forall|k: int| 0 <= k < words implies #[trigger] nvm_word_read_since(
            old(adapter),
            adapter,
            (offset + k) as u16,
            data@[k],
        ) by {
            lemma_word_read_widen(old(adapter), old(adapter), &sl, adapter, (offset + k) as u16, data@[k]);
        }
    }
    Ok(())
}

/// The 16-bit wrapping sum of the first `n` words of `w`.
pub open spec fn word_sum(w: Seq<u16>, n: nat) -> u16
    decreases n,
{
    if n == 0 {
        0
    } else {
        let s = word_sum(w, (n - 1) as nat) + w[n - 1];
        if s > 0xFFFF {
            (s - 0x10000) as u16
        } else {
            s as u16
        }
    }
}

proof fn lemma_word_sum_prefix(a: Seq<u16>, b: Seq<u16>, n: nat)
    requires
        n <= a.len(),
        n <= b.len(),
        forall|k: int| 0 <= k < n ==> a[k] == b[k],
    ensures
        word_sum(a, n) == word_sum(b, n),
    decreases n,
{
    if n > 0 {
        lemma_word_sum_prefix(a, b, (n - 1) as nat);
    }
}

/// Validates the EEPROM checksum: reads the words at addresses 0 up to and
/// including the checksum word, whose 16-bit wrapping sum must be
/// `NVM_SUM`. Refused without a word reader, when a read fails, and when
/// the sum differs.
#[verifier::spinoff_prover]
pub fn validate_nvm_checksum_generic<P: Platform>(adapter: &mut Adapter<P>) -> (r: AdResult)
    requires
        1 <= old(adapter).hw.nvm.opcode_bits <= 16,
        1 <= old(adapter).hw.nvm.address_bits <= 16,
    ensures
        final(adapter).same_state(old(adapter)),
        final(adapter).log_extends(old(adapter)),
        !old(adapter).hw.nvm.ops.read ==> r.is_err() && final(adapter).io_log@ == old(adapter).io_log@,
        r.is_ok() ==> exists|w: Seq<u16>|
            w.len() == NVM_CHECKSUM_REG + 1 && #[trigger] word_sum(w, (NVM_CHECKSUM_REG + 1) as nat)
                == NVM_SUM && forall|k: int|
                0 <= k <= NVM_CHECKSUM_REG ==> #[trigger] nvm_word_read_since(
                    old(adapter),
                    final(adapter),
                    k as u16,
                    w[k],
                ),
{
    if !adapter.hw.nvm.ops.read {
        return Err("No function".to_string());
    }
    let mut nvm_data: [u16; 1] = [0u16; 1];
    let mut checksum: u16 = 0;
    let mut i: u16 = 0;
    let ghost mut words: Seq<u16> = Seq::empty();
    while i < NVM_CHECKSUM_REG + 1
        invariant
            old(adapter).hw.nvm.ops.read,
            i <= NVM_CHECKSUM_REG + 1,
            1 <= adapter.hw.nvm.opcode_bits <= 16,
            1 <= adapter.hw.nvm.address_bits <= 16,
            adapter.hw.nvm.ops == old(adapter).hw.nvm.ops,
            adapter.same_state(old(adapter)),
            adapter.log_extends(old(adapter)),
            words.len() == i,
            checksum == word_sum(words, i as nat),
            nvm_data@.len() == 1,
            forall|k: int| 0 <= k < i ==> #[trigger] nvm_word_read_since(old(adapter), adapter, k as u16, words[k]),
        decreases NVM_CHECKSUM_REG + 1 - i,
    {
        let ghost s0 = *adapter;
        let res = adapter.nvm_read(i, 1, &mut nvm_data);
        if res.is_err() {
            return res;
        }
        let w = nvm_data[0];
        proof {
            assert(nvm_word_read_since(&s0, adapter, (i + 0int) as u16, nvm_data@[0]));
            lemma_word_read_widen(old(adapter), &s0, adapter, adapter, i, w);
            assert forall|k: int| 0 <= k < i implies #[trigger] nvm_word_read_since(old(adapter), adapter, k as u16, words[k]) by {
                lemma_word_read_widen(old(adapter), old(adapter), &s0, adapter, k as u16, words[k]);
            }
            lemma_word_sum_prefix(words.push(w), words, i as nat);
            words = words.push(w);
        }
        checksum = checksum.wrapping_add(w);
        i = i + 1;
    }
    if checksum != NVM_SUM {
        return Err("NVM checksum error".to_string());
    }
    assert(word_sum(words, (NVM_CHECKSUM_REG + 1) as nat) == NVM_SUM);
    assert(forall|k: int| 0 <= k <= NVM_CHECKSUM_REG ==> #[trigger] nvm_word_read_since(old(adapter), adapter, k as u16, words[k]));
    Ok(())
}

/// Reads the permanent MAC address from receive-address entry 0 (four bytes
/// from the low register, two from the high register, least significant
/// first) and makes it the current address.
#[verifier::spinoff_prover]
pub fn read_mac_addr_generic<P: Platform>(adapter: &mut Adapter<P>) -> (r: AdResult)
    ensures
        r.is_ok(),
        final(adapter).same_except_hw(old(adapter)),
        final(adapter).logged(
            old(adapter),
            seq![
                IoOp::Read { reg: 0x05404, value: final(adapter).read_at(old(adapter), 0) },
                IoOp::Read { reg: 0x05400, value: final(adapter).read_at(old(adapter), 1) },
            ],
        ),
        final(adapter).hw == (Hardware {
            mac: MacInfo {
                perm_addr: final(adapter).hw.mac.perm_addr,
                addr: final(adapter).hw.mac.perm_addr,
                ..old(adapter).hw.mac
            },
            ..old(adapter).hw
        }),
        final(adapter).hw.mac.perm_addr@ == rar_bytes(
            final(adapter).read_at(old(adapter), 1),
            final(adapter).read_at(old(adapter), 0),
        ),
{
    let rar_high: u32 = do_read_register(adapter, E1000_RAH(0));
    let rar_low: u32 = do_read_register(adapter, E1000_RAL(0));
    let mut perm: [u8; 6] = adapter.hw.mac.perm_addr;
    let mut i: usize = 0;
    while i < 4
        invariant
            i <= 4,
            perm@.len() == 6,
            forall|k: int| 0 <= k < i ==> perm@[k] == ((rar_low >> (8 * k) as u32) & 0xFF) as u8,
        decreases 4 - i,
    {
        perm[i] = (rar_low >> ((i * 8) as u32)) as u8;
        proof {
            let v = rar_low;
            let sh = (i * 8) as u32;
            assert((v >> sh) as u8 == ((v >> sh) & 0xFF) as u8) by (bit_vector);
        }
        i = i + 1;
    }
    let mut j: usize = 0;
    while j < 2
        invariant
            j <= 2,
            perm@.len() == 6,
            forall|k: int| 0 <= k < 4 ==> perm@[k] == ((rar_low >> (8 * k) as u32) & 0xFF) as u8,
            forall|k: int| 4 <= k < 4 + j ==> perm@[k] == ((rar_high >> (8 * (k - 4)) as u32) & 0xFF) as u8,
        decreases 2 - j,
    {
        perm[j + 4] = (rar_high >> ((j * 8) as u32)) as u8;
        proof {
            let v = rar_high;
            let sh = (j * 8) as u32;
            assert((v >> sh) as u8 == ((v >> sh) & 0xFF) as u8) by (bit_vector);
        }
        j = j + 1;
    }
    adapter.hw.mac.perm_addr = perm;
    adapter.hw.mac.addr = perm;
    proof {
        assert(perm@ =~= rar_bytes(rar_low, rar_high));
    }
    Ok(())
}

/// The MAC address stored in a receive-address entry: the four bytes of the
/// low register and the two low bytes of the high register, least
/// significant first.
pub open spec fn rar_bytes(low: u32, high: u32) -> Seq<u8> {
    Seq::new(
        6,
        |k: int|
            if k < 4 {
                ((low >> (8 * k) as u32) & 0xFF) as u8
            } else {
                ((high >> (8 * (k - 4)) as u32) & 0xFF) as u8
            },
    )
}

/// Reloading the EEPROM is not implemented by this driver: does nothing.
pub fn reload_nvm_generic<P: Platform>(adapter: &mut Adapter<P>)
    ensures
        final(adapter).same_state(old(adapter)),
        final(adapter).io_log@ == old(adapter).io_log@,
{
}

/// Updating the EEPROM checksum is not implemented by this driver: does
/// nothing and succeeds.
pub fn update_nvm_checksum_generic<P: Platform>(adapter: &mut Adapter<P>) -> (r: AdResult)
    ensures
        r.is_ok(),
        final(adapter).same_state(old(adapter)),
        final(adapter).io_log@ == old(adapter).io_log@,
{
    Ok(())
}

/// Writing the EEPROM is not implemented by this driver: refuses.
pub fn write_nvm_microcode<P: Platform>(adapter: &mut Adapter<P>, offset: u16, words: u16, data: &[u16]) -> (r: AdResult)
    ensures
        r.is_err(),
        final(adapter).same_state(old(adapter)),
        final(adapter).io_log@ == old(adapter).io_log@,
{
    Err("incomplete function - returning error".to_string())
}

// ------------------------------------------------------------ dispatch

impl<P: Platform> Adapter<P> {
    /// Reads EEPROM words with the installed reader; refused when none is
    /// installed.
    pub fn nvm_read(&mut self, offset: u16, count: u16, data: &mut [u16]) -> (r: AdResult)
        requires
            old(self).hw.nvm.ops.read ==> 1 <= old(self).hw.nvm.opcode_bits <= 16 && 1 <= old(self).hw.nvm.address_bits <= 16,
            old(self).hw.nvm.ops.read && nvm_range_ok(old(self).hw.nvm.word_size, offset, count)
                && old(self).hw.nvm.ops.acquire && old(self).hw.nvm.ops.release ==> old(data)@.len()
                >= count,
        ensures
            final(self).same_state(old(self)),
            final(self).log_extends(old(self)),
            final(data)@.len() == old(data)@.len(),
            !old(self).hw.nvm.ops.read ==> r.is_err() && final(self).io_log@ == old(self).io_log@
                && final(data)@ == old(data)@,
            old(self).hw.nvm.ops.read && !nvm_range_ok(old(self).hw.nvm.word_size, offset, count)
                ==> r.is_err() && final(self).io_log@ == old(self).io_log@ && final(data)@ == old(data)@,
            r.is_ok() ==> forall|k: int|
                0 <= k < count ==> #[trigger] nvm_word_read_since(
                    old(self),
                    final(self),
                    (offset + k) as u16,
                    final(data)@[k],
                ),
    {
        if self.hw.nvm.ops.read {
            read_nvm_microwire(self, offset, count, data)
        } else {
            Err("No function".to_string())
        }
    }

    /// Writes EEPROM words with the installed writer (none that this driver
    /// implements succeeds); refused when none is installed.
    pub fn nvm_write(&mut self, offset: u16, count: u16, data: &mut [u16]) -> (r: AdResult)
        ensures
            r.is_err(),
            final(self).same_state(old(self)),
            final(self).io_log@ == old(self).io_log@,
            final(data)@ == old(data)@,
    {
        if self.hw.nvm.ops.write {
            write_nvm_microcode(self, offset, count, data)
        } else {
            Err("No function".to_string())
        }
    }

    /// Validates the EEPROM checksum with the installed routine; refused
    /// when none is installed.
    pub fn validate_nvm_checksum(&mut self) -> (r: AdResult)
        requires
            1 <= old(self).hw.nvm.opcode_bits <= 16,
            1 <= old(self).hw.nvm.address_bits <= 16,
        ensures
            final(self).same_state(old(self)),
            final(self).log_extends(old(self)),
            !old(self).hw.nvm.ops.validate ==> r.is_err() && final(self).io_log@ == old(self).io_log@,
    {
        if self.hw.nvm.ops.validate {
            validate_nvm_checksum_generic(self)
        } else {
            Err("No function".to_string())
        }
    }
}

} // verus!
