//! Register primitives of the Cortex-M core.
//!
//! Hardware registers are reached through volatile loads and stores, which
//! live outside the verified code.  What is verified here is the value
//! arithmetic of a read-modify-write and the description of every register
//! access as a [`RegOp`], so that a device routine is a verified list of
//! accesses that the executor performs in order.

use vstd::prelude::*;

verus! {

/// Memory barrier flavours offered by the Cortex-M core.
#[derive(PartialEq, Eq, Structural, Debug, Clone, Copy)]
pub enum SyncMethod {
    /// `dmb`: data memory barrier.
    Memory,
    /// `dsb`: data synchronisation barrier.
    MemoryFlush,
    /// `isb`: instruction synchronisation barrier.
    InstructionFlush,
}

/// One access to a memory-mapped register or to RAM shared with a peripheral.
#[allow(inconsistent_fields)]
#[derive(PartialEq, Eq, Structural, Debug, Clone, Copy)]
pub enum RegOp {
    /// Volatile store of a byte.
    Write8 { addr: u32, value: u8 },
    /// Volatile store of a word.
    Write32 { addr: u32, value: u32 },
    /// Read-modify-write of a byte register that sets the bits of `mask`
    /// (the value written is [`set_bits`] of the value read).
    Set8 { addr: u32, mask: u8 },
    /// Read-modify-write of a word register that sets the bits of `mask`.
    Set32 { addr: u32, mask: u32 },
    /// Read-modify-write of a byte register that clears the bits of `mask`
    /// (the value written is [`clear_bits`] of the value read).
    Clear8 { addr: u32, mask: u8 },
    /// Read-modify-write of a word register that clears the bits of `mask`
    /// (the value written is [`clear_bits`] of the value read).
    Clear32 { addr: u32, mask: u32 },
    /// Spin until the byte register at `addr` satisfies [`bits_match`]
    /// with `mask` and `value`.
    WaitFor8 { addr: u32, mask: u8, value: u8 },
    /// Fill `len` bytes of RAM starting at `addr` with zero.
    Zero { addr: u32, len: u32 },
    /// Load the word at `addr` and halt the device when any bit of `mask`
    /// is set in it.
    HaltIfSet32 { addr: u32, mask: u32 },
}

/// The value a read-modify-write "set" stores: `value` with every bit of
/// `mask` set.
pub fn set_bits(value: u32, mask: u32) -> (r: u32)
    ensures
        r == value | mask,
{
    value | mask
}

/// The value a read-modify-write "clear" stores: `value` with every bit of
/// `mask` cleared.
pub fn clear_bits(value: u32, mask: u32) -> (r: u32)
    ensures
        r == value & !mask,
{
    value & !mask
}

/// Whether a register value read while waiting satisfies the wait:
/// the bits selected by `mask` equal `expected`.
pub fn bits_match(value: u32, mask: u32, expected: u32) -> (r: bool)
    ensures
        r == (value & mask == expected),
{
    value & mask == expected
}

/// After a set, every bit of the mask is set and every other bit is as it
/// was; a byte register stays a byte.
pub proof fn lemma_set_bits(value: u32, mask: u32)
    ensures
        (value | mask) & mask == mask,
        (value | mask) & !mask == value & !mask,
        (value | mask) | mask == value | mask,
        value < 256 && mask < 256 ==> value | mask < 256,
{
    assert((value | mask) & mask == mask) by (bit_vector);
    assert((value | mask) & !mask == value & !mask) by (bit_vector);
    assert((value | mask) | mask == value | mask) by (bit_vector);
    assert(value < 256 && mask < 256 ==> value | mask < 256) by (bit_vector);
}

/// After a clear, every bit of the mask is clear and every other bit is as
/// it was; a byte register stays a byte.
pub proof fn lemma_clear_bits(value: u32, mask: u32)
    ensures
        (value & !mask) & mask == 0,
        (value & !mask) & !mask == value & !mask,
        value < 256 ==> value & !mask < 256,
{
    assert((value & !mask) & mask == 0) by (bit_vector);
    assert((value & !mask) & !mask == value & !mask) by (bit_vector);
    assert(value < 256 ==> value & !mask < 256) by (bit_vector);
}

/// A clear undoes a set of the same mask as far as the register's other
/// bits go, and a set undoes a clear: whichever came last decides the bits
/// of the mask.
pub proof fn lemma_set_clear_last_wins(value: u32, mask: u32)
    ensures
        (value | mask) & !mask == value & !mask,
        (value & !mask) | mask == value | mask,
{
    assert((value | mask) & !mask == value & !mask) by (bit_vector);
    assert((value & !mask) | mask == value | mask) by (bit_vector);
}

} // verus!
