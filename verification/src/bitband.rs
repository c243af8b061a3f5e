//! Bit-band address transform.
//!
//! On parts with bit-banding, each bit of a word inside two hardware-fixed
//! 1 MiB windows is mapped to a full word of its own in a separate alias
//! region: writing 0 or 1 through the bit's alias word clears or sets
//! exactly that bit of the target, atomically from the hardware's
//! perspective. This module computes those alias addresses; the single
//! ordered write through the alias is the caller's.
//!
//! Two readings of the alias offset are in circulation: one places the bit
//! index in the lowest bits of the alias, one shifts it left by two first.
//! This crate shifts it left by two, so that consecutive bit indexes land
//! on consecutive *words* of the alias region — the reading under which
//! every alias the transform produces is word-aligned over the whole legal
//! input domain, which [`lemma_alias_word_aligned`] proves.

use vstd::prelude::*;
use crate::bme::AliasedWrite;

verus! {

/// Lowest address of the first bit-band window.
pub const WINDOW1_LO: u32 = 0x2000_0000;

/// Highest address of the first bit-band window.
pub const WINDOW1_HI: u32 = 0x200F_FFFF;

/// Lowest address of the second bit-band window.
pub const WINDOW2_LO: u32 = 0x4000_0000;

/// Highest address of the second bit-band window.
pub const WINDOW2_HI: u32 = 0x400F_FFFF;

/// Why a bit-band alias could not be formed.
#[derive(Clone, Copy, Debug, PartialEq, Eq, Structural)]
pub enum BitBandError {
    /// The target address lies in neither bit-band window.
    AddressOutOfWindow { address: u32 },
    /// The bit index does not fit the bit-width of the target's type.
    BitIndexOutOfRange { bit_index: u32, bit_width: u32 },
    /// A single-bit write was asked to write a value other than 0 or 1.
    NotABit { value: u32 },
}

/// Whether the target address lies in one of the two bit-band windows —
/// bit-banding is only wired for these regions.
pub open spec fn in_window(address: u32) -> bool {
    (WINDOW1_LO <= address && address <= WINDOW1_HI) || (WINDOW2_LO <= address
        && address <= WINDOW2_HI)
}

/// The alias address of bit `bit_index` of the word at `address`: the
/// window's top nibble is kept, the alias region's marker bit is added,
/// and the offset gives every bit of every target byte a word of its own.
pub open spec fn alias_of(address: u32, bit_index: u32) -> u32 {
    (address & 0xF000_0000) | 0x0200_0000 | ((address & 0xF_FFFF) << 5) | ((bit_index & 0x1F) << 2)
}

/// What `alias` returns: the address is checked against the windows first,
/// the bit index against the target's bit-width second, and only then is
/// the alias formed.
pub open spec fn spec_alias(address: u32, bit_index: u32, bit_width: u32) -> Result<
    u32,
    BitBandError,
> {
    if !in_window(address) {
        Err(BitBandError::AddressOutOfWindow { address })
    } else if bit_index >= bit_width {
        Err(BitBandError::BitIndexOutOfRange { bit_index, bit_width })
    } else {
        Ok(alias_of(address, bit_index))
    }
}

/// Computes the alias address whose word stands for bit `bit_index` of the
/// value at `address`, a value `bit_width` bits wide. Bit-banding addresses
/// bits within one 32-bit word, so the target's bit-width is at most 32.
///
/// Succeeds if and only if the address lies in one of the two bit-band
/// windows and the bit index fits the target's bit-width; the alias is
/// then exactly `alias_of(address, bit_index)`.
pub fn alias(address: u32, bit_index: u32, bit_width: u32) -> (r: Result<u32, BitBandError>)
    requires
        bit_width <= 32,
    ensures
        r == spec_alias(address, bit_index, bit_width),
        r is Ok <==> in_window(address) && bit_index < bit_width,
{
    let in_first: bool = WINDOW1_LO <= address && address <= WINDOW1_HI;
    let in_second: bool = WINDOW2_LO <= address && address <= WINDOW2_HI;
    if !(in_first || in_second) {
        return Err(BitBandError::AddressOutOfWindow { address });
    }
    if bit_index >= bit_width {
        return Err(BitBandError::BitIndexOutOfRange { bit_index, bit_width });
    }
    Ok((address & 0xF000_0000) | 0x0200_0000 | ((address & 0xF_FFFF) << 5u32) | ((bit_index & 0x1F)
        << 2u32))
}

/// What `set_bit` returns: the value must be exactly 0 or 1, and the alias
/// must be formable; the plan is then one write of that value, widened to
/// a word, through the bit's alias.
pub open spec fn spec_set_bit(address: u32, bit_index: u32, bit_width: u32, value: u32) -> Result<
    AliasedWrite,
    BitBandError,
> {
    if value > 1 {
        Err(BitBandError::NotABit { value })
    } else {
        match spec_alias(address, bit_index, bit_width) {
            Ok(a) => Ok(AliasedWrite { address: a, value }),
            Err(e) => Err(e),
        }
    }
}

/// Plans the write that sets (`value == 1`) or clears (`value == 0`) bit
/// `bit_index` of the value at `address` without disturbing its other
/// bits: one write of `value` through the bit's alias word. Any value
/// other than 0 or 1 is refused before any address is formed.
pub fn set_bit(address: u32, bit_index: u32, bit_width: u32, value: u32) -> (r: Result<
    AliasedWrite,
    BitBandError,
>)
    requires
        bit_width <= 32,
    ensures
        r == spec_set_bit(address, bit_index, bit_width, value),
        r is Ok <==> value <= 1 && in_window(address) && bit_index < bit_width,
{
    if value > 1 {
        return Err(BitBandError::NotABit { value });
    }
    match alias(address, bit_index, bit_width) {
        Ok(a) => Ok(AliasedWrite { address: a, value }),
        Err(e) => Err(e),
    }
}

/// Every alias the transform produces is word-aligned: for every address
/// in either bit-band window and every bit index in `[0, 31]`, the alias's
/// low two bits are zero.
pub proof fn lemma_alias_word_aligned(address: u32, bit_index: u32)
    requires
        in_window(address),
        bit_index <= 31,
    ensures
        alias_of(address, bit_index) & 0x3 == 0,
{
    assert(((address & 0xF000_0000) | 0x0200_0000 | ((address & 0xF_FFFF) << 5) | ((bit_index
        & 0x1F) << 2)) & 0x3 == 0) by (bit_vector);
}

} // verus!
