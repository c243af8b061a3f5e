//! The plain-word register: the ground instantiation of the register
//! traits, for a register read and written as one raw 32-bit word, with a
//! proxy pair that exposes the word and its single bits. A register
//! definition layer refines this pattern per register; the impls here show
//! what every such layer owes the traits, and give the defaults a verified
//! implementor.

use vstd::prelude::*;
use crate::cell::VolatileCell;
use crate::reg::{
    BitR,
    BitW,
    ModifyRegister,
    ReadRegister,
    ResetRegister,
    ResetRegisterWithZero,
    ResetValue,
    WriteRegisterWithReset,
    WriteRegisterWithZero,
};

verus! {

/// A register holding one raw 32-bit word, whose reset value is all-zero.
pub struct WordRegister {
    cell: VolatileCell<u32>,
}

/// Read proxy of a [`WordRegister`]: the raw word one ordered read returned.
pub struct WordR {
    bits: u32,
}

/// Writer proxy of a [`WordRegister`]: the raw word one ordered write will
/// store.
pub struct WordW {
    bits: u32,
}

/// Read proxy for a single bit of a [`WordR`].
pub struct WordBitR {
    set: bool,
}

/// Write proxy for a single bit of a [`WordW`]; consumed by the write, it
/// hands the writer back with that one bit applied.
pub struct WordBitW {
    bits: u32,
    mask: u32,
}

impl WordRegister {
    /// The word the register holds, as the specification sees it.
    pub closed spec fn spec_value(&self) -> u32 {
        self.cell@
    }

    /// Creates a register holding the given word.
    pub fn new(value: u32) -> (r: Self)
        ensures
            r.spec_value() == value,
    {
        WordRegister { cell: VolatileCell::new(value) }
    }
}

impl WordR {
    /// The raw word the proxy carries, as the specification sees it.
    pub closed spec fn spec_bits(&self) -> u32 {
        self.bits
    }

    /// The raw word the proxy carries.
    pub fn bits(&self) -> (r: u32)
        ensures
            r == self.spec_bits(),
    {
        self.bits
    }

    /// Read proxy for bit `index` of the word.
    pub fn bit(&self, index: u32) -> (r: WordBitR)
        requires
            index < 32,
        ensures
            r.spec_bit() <==> (self.spec_bits() >> index) & 1 == 1,
    {
        WordBitR { set: (self.bits >> index) & 1 == 1 }
    }
}

impl WordW {
    /// The raw word the proxy carries, as the specification sees it.
    pub closed spec fn spec_bits(&self) -> u32 {
        self.bits
    }

    /// Write proxy for bit `index` of the word; consumes the writer, which
    /// the bit write hands back with only that bit changed.
    pub fn bit(self, index: u32) -> (p: WordBitW)
        requires
            index < 32,
        ensures
            p.spec_bit(true).spec_bits() == self.spec_bits() | (1u32 << index),
            p.spec_bit(false).spec_bits() == self.spec_bits() & !(1u32 << index),
    {
        WordBitW { bits: self.bits, mask: 1u32 << index }
    }
}

impl BitR for WordBitR {
    closed spec fn spec_bit(&self) -> bool {
        self.set
    }

    fn bit(&self) -> (b: bool) {
        self.set
    }
}

impl BitW<WordW> for WordBitW {
    closed spec fn spec_bit(self, value: bool) -> WordW {
        if value {
            WordW { bits: self.bits | self.mask }
        } else {
            WordW { bits: self.bits & !self.mask }
        }
    }

    fn bit(self, value: bool) -> (w: WordW) {
        if value {
            WordW { bits: self.bits | self.mask }
        } else {
            WordW { bits: self.bits & !self.mask }
        }
    }
}

impl ResetValue for WordW {
    closed spec fn spec_reset_value() -> WordW {
        WordW { bits: 0 }
    }

    fn reset_value() -> (r: WordW) {
        WordW { bits: 0 }
    }
}

impl ReadRegister<WordR, u32> for WordRegister {
    closed spec fn spec_cell(&self) -> VolatileCell<u32> {
        self.cell
    }

    closed spec fn spec_to_read(raw: u32) -> WordR {
        WordR { bits: raw }
    }

    fn cell(&self) -> (c: &VolatileCell<u32>) {
        &self.cell
    }

    fn to_read(raw: u32) -> (r: WordR) {
        WordR { bits: raw }
    }
}

impl WriteRegisterWithReset<WordW, u32> for WordRegister {
    closed spec fn spec_cell(&self) -> VolatileCell<u32> {
        self.cell
    }

    closed spec fn spec_w_raw(w: WordW) -> u32 {
        w.bits
    }

    fn w_raw(w: &WordW) -> (raw: u32) {
        w.bits
    }

    fn set_raw(&mut self, raw: u32) {
        self.cell.set(raw);
    }
}

impl WriteRegisterWithZero<WordW, u32> for WordRegister {
    closed spec fn spec_cell(&self) -> VolatileCell<u32> {
        self.cell
    }

    closed spec fn spec_w_raw(w: WordW) -> u32 {
        w.bits
    }

    closed spec fn spec_zero() -> u32 {
        0
    }

    closed spec fn spec_to_w(raw: u32) -> WordW {
        WordW { bits: raw }
    }

    fn zero() -> (raw: u32) {
        0
    }

    fn to_w(raw: u32) -> (w: WordW) {
        WordW { bits: raw }
    }

    fn w_raw(w: &WordW) -> (raw: u32) {
        w.bits
    }

    fn set_raw(&mut self, raw: u32) {
        self.cell.set(raw);
    }
}

impl ResetRegister<WordW, u32> for WordRegister {

}

impl ResetRegisterWithZero<WordW, u32> for WordRegister {

}

/// What the word register's trait instantiation means, stated over the
/// public specification views: every proxy carries the raw word unchanged,
/// the write basis values are all-zero, and every trait sees the one cell
/// whose word is [`WordRegister::spec_value`]. With these, the contracts of
/// the trait methods compose into facts about the stored word itself.
pub proof fn lemma_word_register_trait_specs()
    ensures
        forall|raw: u32| (#[trigger] <WordRegister as ReadRegister<WordR, u32>>::spec_to_read(
            raw,
        )).spec_bits() == raw,
        forall|reg: WordRegister| (#[trigger] <WordRegister as ReadRegister<
            WordR,
            u32,
        >>::spec_cell(&reg))@ == reg.spec_value(),
        forall|w: WordW| #[trigger] <WordRegister as WriteRegisterWithReset<
            WordW,
            u32,
        >>::spec_w_raw(w) == w.spec_bits(),
        forall|reg: WordRegister| (#[trigger] <WordRegister as WriteRegisterWithReset<
            WordW,
            u32,
        >>::spec_cell(&reg))@ == reg.spec_value(),
        forall|w: WordW| #[trigger] <WordRegister as WriteRegisterWithZero<
            WordW,
            u32,
        >>::spec_w_raw(w) == w.spec_bits(),
        forall|raw: u32| (#[trigger] <WordRegister as WriteRegisterWithZero<
            WordW,
            u32,
        >>::spec_to_w(raw)).spec_bits() == raw,
        forall|reg: WordRegister| (#[trigger] <WordRegister as WriteRegisterWithZero<
            WordW,
            u32,
        >>::spec_cell(&reg))@ == reg.spec_value(),
        <WordRegister as WriteRegisterWithZero<WordW, u32>>::spec_zero() == 0,
        forall|raw: u32| (#[trigger] <WordRegister as ModifyRegister<
            WordR,
            WordW,
            u32,
        >>::spec_to_read(raw)).spec_bits() == raw,
        forall|raw: u32| (#[trigger] <WordRegister as ModifyRegister<
            WordR,
            WordW,
            u32,
        >>::spec_to_w(raw)).spec_bits() == raw,
        forall|w: WordW| #[trigger] <WordRegister as ModifyRegister<
            WordR,
            WordW,
            u32,
        >>::spec_w_raw(w) == w.spec_bits(),
        forall|reg: WordRegister| (#[trigger] <WordRegister as ModifyRegister<
            WordR,
            WordW,
            u32,
        >>::spec_cell(&reg))@ == reg.spec_value(),
        <WordW as ResetValue>::spec_reset_value().spec_bits() == 0,
{
}

impl ModifyRegister<WordR, WordW, u32> for WordRegister {
    closed spec fn spec_cell(&self) -> VolatileCell<u32> {
        self.cell
    }

    closed spec fn spec_to_read(raw: u32) -> WordR {
        WordR { bits: raw }
    }

    closed spec fn spec_to_w(raw: u32) -> WordW {
        WordW { bits: raw }
    }

    closed spec fn spec_w_raw(w: WordW) -> u32 {
        w.bits
    }

    fn cell(&self) -> (c: &VolatileCell<u32>) {
        &self.cell
    }

    fn to_read(raw: u32) -> (r: WordR) {
        WordR { bits: raw }
    }

    fn to_w(raw: u32) -> (w: WordW) {
        WordW { bits: raw }
    }

    fn w_raw(w: &WordW) -> (raw: u32) {
        w.bits
    }

    fn set_raw(&mut self, raw: u32) {
        self.cell.set(raw);
    }
}

} // verus!
