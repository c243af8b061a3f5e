//! Bit-manipulation-engine (BME) address transform.
//!
//! On parts with a BME, a write through a specially-encoded alias address is
//! intercepted by hardware logic and *combined* into the real target word
//! with a boolean or field operation, instead of overwriting it. This module
//! computes those alias addresses; the combine itself is the hardware's work,
//! triggered by one ordered write through the alias.
//!
//! An operation's encoding lives in the top bits of the address, so the
//! transform is only legal for target addresses whose own bits stay inside a
//! hardware-fixed window: a wider one for the three boolean operations, a
//! narrower one for SET-FIELD, whose encoding also carries a bit offset and
//! a field width. An address or parameter outside its window is a
//! programming error, reported as an error value before any alias is formed
//! — writing through a mis-formed alias would reach arbitrary memory.

use vstd::prelude::*;

verus! {

/// The four combine operations a BME write can request.
#[derive(Clone, Copy, Debug, PartialEq, Eq, Structural)]
pub enum BmeOp {
    /// The written word is AND-combined into the target.
    And,
    /// The written word is OR-combined into the target.
    Or,
    /// The written word is XOR-combined into the target.
    Xor,
    /// The `bit_count` bits of the target starting at `first_bit` are
    /// replaced by the written value. `first_bit` must lie in `[0, 31]`
    /// and `bit_count` in `[1, 16]`.
    SetField { first_bit: u32, bit_count: u32 },
}

/// Why a BME alias could not be formed.
#[derive(Clone, Copy, Debug, PartialEq, Eq, Structural)]
pub enum BmeError {
    /// SET-FIELD was asked for with a bit offset or a field width outside
    /// its legal range.
    FieldOutOfRange { first_bit: u32, bit_count: u32 },
    /// The target address has bits set outside the window the requested
    /// operation is wired for.
    AddressOutOfWindow { address: u32, op: BmeOp },
}

/// One aliased write, ready to be issued: the address to write through and
/// the word to write. It carries no state of its own — it is produced and
/// consumed within a single operation.
#[derive(Clone, Copy, Debug, PartialEq, Eq, Structural)]
pub struct AliasedWrite {
    /// The computed alias address.
    pub address: u32,
    /// The operand word the hardware will combine into the target.
    pub value: u32,
}

/// Whether the operation's own parameters are legal: SET-FIELD needs
/// `first_bit` in `[0, 31]` and `bit_count` in `[1, 16]`; the other three
/// operations carry none.
pub open spec fn params_ok(op: BmeOp) -> bool {
    match op {
        BmeOp::SetField { first_bit, bit_count } => first_bit <= 31 && 1 <= bit_count
            && bit_count <= 16,
        _ => true,
    }
}

/// The 32-bit encoding the operation adds into the top bits of an address.
pub open spec fn op_encoding(op: BmeOp) -> u32 {
    match op {
        BmeOp::And => 0x0400_0000u32,
        BmeOp::Or => 0x0800_0000u32,
        BmeOp::Xor => 0x0C00_0000u32,
        BmeOp::SetField { first_bit, bit_count } => (0x1000_0000u32 | ((first_bit & 0x1F) << 23)
            | ((((bit_count - 1) as u32) & 0xF) << 19)),
    }
}

/// The address bits an operation's target window allows: SET-FIELD's
/// encoding needs more room, so its window is the narrower one.
pub open spec fn addr_mask(op: BmeOp) -> u32 {
    match op {
        BmeOp::SetField { .. } => 0x6007_FFFFu32,
        _ => 0x600F_FFFFu32,
    }
}

/// Whether the target address lies inside the window the operation is wired
/// for: no bit outside the window's mask may be set.
pub open spec fn addr_ok(address: u32, op: BmeOp) -> bool {
    address & addr_mask(op) == address
}

/// What `alias` returns: the operation's parameters are checked first, the
/// address against the operation's window second, and only then is the
/// alias formed, as the target address with the encoding OR-ed in.
pub open spec fn spec_alias(address: u32, op: BmeOp) -> Result<u32, BmeError> {
    match op {
        BmeOp::SetField { first_bit, bit_count } => if !(first_bit <= 31 && 1 <= bit_count
            && bit_count <= 16) {
            Err(BmeError::FieldOutOfRange { first_bit, bit_count })
        } else if !addr_ok(address, op) {
            Err(BmeError::AddressOutOfWindow { address, op })
        } else {
            Ok(address | op_encoding(op))
        },
        _ => if !addr_ok(address, op) {
            Err(BmeError::AddressOutOfWindow { address, op })
        } else {
            Ok(address | op_encoding(op))
        },
    }
}

/// Computes the alias address through which a write is combined into
/// `address` with the operation `op`.
///
/// Succeeds if and only if the operation's parameters are legal and the
/// address lies inside the operation's window; the alias is then exactly
/// `address | op_encoding(op)`.
pub fn alias(address: u32, op: BmeOp) -> (r: Result<u32, BmeError>)
    ensures
        r == spec_alias(address, op),
        r is Ok <==> params_ok(op) && addr_ok(address, op),
{
    let encoding: u32 = match op {
        BmeOp::And => 0x0400_0000,
        BmeOp::Or => 0x0800_0000,
        BmeOp::Xor => 0x0C00_0000,
        BmeOp::SetField { first_bit, bit_count } => {
            if !(first_bit <= 31 && 1 <= bit_count && bit_count <= 16) {
                return Err(BmeError::FieldOutOfRange { first_bit, bit_count });
            }
            0x1000_0000 | ((first_bit & 0x1F) << 23u32) | (((bit_count - 1) & 0xF) << 19u32)
        },
    };
    let mask: u32 = match op {
        BmeOp::SetField { .. } => 0x6007_FFFF,
        _ => 0x600F_FFFF,
    };
    if address & mask != address {
        return Err(BmeError::AddressOutOfWindow { address, op });
    }
    Ok(address | encoding)
}

/// What the write plan of a derived operation is: the alias for `op` over
/// `address`, carrying `value` as the word to write through it.
pub open spec fn spec_plan(address: u32, op: BmeOp, value: u32) -> Result<AliasedWrite, BmeError> {
    match spec_alias(address, op) {
        Ok(a) => Ok(AliasedWrite { address: a, value }),
        Err(e) => Err(e),
    }
}

/// Plans the write that sets the bits of `mask` in the word at `address`:
/// one OR-combined write of `mask` through the OR alias.
pub fn set_bits(address: u32, mask: u32) -> (r: Result<AliasedWrite, BmeError>)
    ensures
        r == spec_plan(address, BmeOp::Or, mask),
{
    match alias(address, BmeOp::Or) {
        Ok(a) => Ok(AliasedWrite { address: a, value: mask }),
        Err(e) => Err(e),
    }
}

/// Plans the write that clears the bits of `mask` in the word at `address`:
/// the hardware AND-combines, so the complement of `mask` is what gets
/// written through the AND alias.
pub fn clear_bits(address: u32, mask: u32) -> (r: Result<AliasedWrite, BmeError>)
    ensures
        r == spec_plan(address, BmeOp::And, !mask),
{
    match alias(address, BmeOp::And) {
        Ok(a) => Ok(AliasedWrite { address: a, value: !mask }),
        Err(e) => Err(e),
    }
}

/// Plans the write that inverts the bits of `mask` in the word at `address`:
/// one XOR-combined write of `mask` through the XOR alias.
pub fn invert_bits(address: u32, mask: u32) -> (r: Result<AliasedWrite, BmeError>)
    ensures
        r == spec_plan(address, BmeOp::Xor, mask),
{
    match alias(address, BmeOp::Xor) {
        Ok(a) => Ok(AliasedWrite { address: a, value: mask }),
        Err(e) => Err(e),
    }
}

/// Plans the write that replaces the `bit_count`-bit field at `first_bit`
/// of the word at `address` with `value`, through the SET-FIELD alias.
pub fn set_field(address: u32, first_bit: u32, bit_count: u32, value: u32) -> (r: Result<
    AliasedWrite,
    BmeError,
>)
    ensures
        r == spec_plan(address, BmeOp::SetField { first_bit, bit_count }, value),
{
    match alias(address, BmeOp::SetField { first_bit, bit_count }) {
        Ok(a) => Ok(AliasedWrite { address: a, value }),
        Err(e) => Err(e),
    }
}

/// The SET-FIELD encoding's fixed marker bits: for every legal parameter
/// pair, masking the encoding with `0xF007_FFFF` leaves exactly
/// `0x1000_0000` — offset and width live entirely in bits 19 to 27.
pub proof fn lemma_set_field_marker(first_bit: u32, bit_count: u32)
    requires
        first_bit <= 31,
        1 <= bit_count <= 16,
    ensures
        op_encoding(BmeOp::SetField { first_bit, bit_count }) & 0xF007_FFFF == 0x1000_0000,
{
    assert((0x1000_0000u32 | ((first_bit & 0x1F) << 23) | ((((bit_count - 1) as u32) & 0xF) << 19))
        & 0xF007_FFFF == 0x1000_0000) by (bit_vector);
}

/// Address masking decides the outcome: inside the operation's window the
/// alias is exactly the address with the encoding OR-ed in; any bit outside
/// the window's mask makes the transform refuse the address.
pub proof fn lemma_alias_masking(address: u32, op: BmeOp)
    requires
        params_ok(op),
    ensures
        addr_ok(address, op) ==> spec_alias(address, op) == Ok::<u32, BmeError>(
            address | op_encoding(op),
        ),
        !addr_ok(address, op) ==> spec_alias(address, op) == Err::<u32, BmeError>(
            BmeError::AddressOutOfWindow { address, op },
        ),
{
}

} // verus!
