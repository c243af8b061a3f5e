//! Register access traits.
//!
//! A register definition layer wraps each hardware register in a type of
//! its own and gives it typed read and write proxies. These traits are what
//! such a layer implements on top of [`VolatileCell`]: each trait asks the
//! implementor for the few primitives it cannot know — where the cell is,
//! how raw bits turn into a proxy and back — as pairs of a specification
//! function and an executable function held to it, and pays with verified
//! default methods for the access patterns built from them.

use vstd::prelude::*;
use crate::cell::VolatileCell;

verus! {

/// Reset value of the register.
pub trait ResetValue: Sized {
    /// The reset value, as the specification sees it.
    spec fn spec_reset_value() -> Self;

    /// Reset value of the register.
    fn reset_value() -> (r: Self)
        ensures
            r == Self::spec_reset_value(),
    ;
}

/// Reads the contents of the register through a typed read proxy `R`.
pub trait ReadRegister<R, T: Copy>: Sized {
    /// The register's cell, as the specification sees it.
    spec fn spec_cell(&self) -> VolatileCell<T>;

    /// How raw bits turn into the read proxy.
    spec fn spec_to_read(raw: T) -> R;

    /// Grants the register's cell.
    fn cell(&self) -> (c: &VolatileCell<T>)
        ensures
            *c == self.spec_cell(),
    ;

    /// Turns raw bits into the read proxy.
    fn to_read(raw: T) -> (r: R)
        ensures
            r == Self::spec_to_read(raw),
    ;

    /// Reads the contents of the register: one ordered read of the cell,
    /// handed back as the read proxy.
    fn read(&self) -> (r: R)
        ensures
            r == Self::spec_to_read(self.spec_cell()@),
    {
        let raw = self.cell().get();
        Self::to_read(raw)
    }
}

/// Writes to the register using the reset value as basis.
pub trait WriteRegisterWithReset<W: ResetValue, T: Copy>: Sized {
    /// The register's cell, as the specification sees it.
    spec fn spec_cell(&self) -> VolatileCell<T>;

    /// The raw bits a writer proxy carries.
    spec fn spec_w_raw(w: W) -> T;

    /// Reads the raw bits out of a writer proxy.
    fn w_raw(w: &W) -> (raw: T)
        ensures
            raw == Self::spec_w_raw(*w),
    ;

    /// Stores raw bits into the register's cell: one ordered write.
    fn set_raw(&mut self, raw: T)
        ensures
            final(self).spec_cell()@ == raw,
    ;

    /// Writes to the register: the writer proxy starts from the reset
    /// value, `f` shapes it, and the bits it carries are stored with one
    /// ordered write.
    fn write<F: FnOnce(W) -> W>(&mut self, f: F)
        requires
            call_requires(f, (W::spec_reset_value(),)),
        ensures
            exists|w: W|
                call_ensures(f, (W::spec_reset_value(),), w) && final(self).spec_cell()@
                    == Self::spec_w_raw(w),
    {
        let w0 = W::reset_value();
        let w = f(w0);
        let raw = Self::w_raw(&w);
        self.set_raw(raw);
    }
}

/// Writes to the register using all-zero bits as basis.
pub trait WriteRegisterWithZero<W, T: Copy>: Sized {
    /// The register's cell, as the specification sees it.
    spec fn spec_cell(&self) -> VolatileCell<T>;

    /// The raw bits a writer proxy carries.
    spec fn spec_w_raw(w: W) -> T;

    /// The all-zero raw value writes start from.
    spec fn spec_zero() -> T;

    /// How raw bits turn into the writer proxy.
    spec fn spec_to_w(raw: T) -> W;

    /// The all-zero raw value.
    fn zero() -> (raw: T)
        ensures
            raw == Self::spec_zero(),
    ;

    /// Turns raw bits into the writer proxy.
    fn to_w(raw: T) -> (w: W)
        ensures
            w == Self::spec_to_w(raw),
    ;

    /// Reads the raw bits out of a writer proxy.
    fn w_raw(w: &W) -> (raw: T)
        ensures
            raw == Self::spec_w_raw(*w),
    ;

    /// Stores raw bits into the register's cell: one ordered write.
    fn set_raw(&mut self, raw: T)
        ensures
            final(self).spec_cell()@ == raw,
    ;

    /// Writes to the register: the writer proxy starts from all-zero
    /// bits, `f` shapes it, and the bits it carries are stored with one
    /// ordered write.
    fn write<F: FnOnce(W) -> W>(&mut self, f: F)
        requires
            call_requires(f, (Self::spec_to_w(Self::spec_zero()),)),
        ensures
            exists|w: W|
                call_ensures(f, (Self::spec_to_w(Self::spec_zero()),), w)
                    && final(self).spec_cell()@ == Self::spec_w_raw(w),
    {
        let raw0 = Self::zero();
        let w0 = Self::to_w(raw0);
        let w = f(w0);
        let raw = Self::w_raw(&w);
        self.set_raw(raw);
    }
}

/// Writes the reset value to the register.
pub trait ResetRegister<W: ResetValue, T: Copy>: WriteRegisterWithReset<W, T> {
    /// Writes the reset value to the register.
    fn reset(&mut self)
        ensures
            final(self).spec_cell()@ == Self::spec_w_raw(W::spec_reset_value()),
    {
        let keep = (|w: W| -> (r: W)
            ensures
                r == w,
            {
                w
            });
        self.write(keep);
    }
}

/// Writes all-zero-based bits to the register.
pub trait ResetRegisterWithZero<W, T: Copy>: WriteRegisterWithZero<W, T> {
    /// Writes the untouched all-zero-based writer to the register.
    fn reset(&mut self)
        ensures
            final(self).spec_cell()@ == Self::spec_w_raw(Self::spec_to_w(Self::spec_zero())),
    {
        let keep = (|w: W| -> (r: W)
            ensures
                r == w,
            {
                w
            });
        self.write(keep);
    }
}

/// Modifies the contents of the register through the proxies.
pub trait ModifyRegister<R, W, T: Copy>: Sized {
    /// The register's cell, as the specification sees it.
    spec fn spec_cell(&self) -> VolatileCell<T>;

    /// How raw bits turn into the read proxy.
    spec fn spec_to_read(raw: T) -> R;

    /// How raw bits turn into the writer proxy.
    spec fn spec_to_w(raw: T) -> W;

    /// The raw bits a writer proxy carries.
    spec fn spec_w_raw(w: W) -> T;

    /// Grants the register's cell.
    fn cell(&self) -> (c: &VolatileCell<T>)
        ensures
            *c == self.spec_cell(),
    ;

    /// Turns raw bits into the read proxy.
    fn to_read(raw: T) -> (r: R)
        ensures
            r == Self::spec_to_read(raw),
    ;

    /// Turns raw bits into the writer proxy.
    fn to_w(raw: T) -> (w: W)
        ensures
            w == Self::spec_to_w(raw),
    ;

    /// Reads the raw bits out of a writer proxy.
    fn w_raw(w: &W) -> (raw: T)
        ensures
            raw == Self::spec_w_raw(*w),
    ;

    /// Stores raw bits into the register's cell: one ordered write.
    fn set_raw(&mut self, raw: T)
        ensures
            final(self).spec_cell()@ == raw,
    ;

    /// Modifies the contents of the register: one ordered read of the raw
    /// bits, which prime both the read proxy and the writer handed to `f`,
    /// then one ordered write of the bits `f`'s result carries.
    fn modify<F: FnOnce(R, W) -> W>(&mut self, f: F)
        requires
            call_requires(
                f,
                (
                    Self::spec_to_read(old(self).spec_cell()@),
                    Self::spec_to_w(old(self).spec_cell()@),
                ),
            ),
        ensures
            exists|w: W|
                call_ensures(
                    f,
                    (
                        Self::spec_to_read(old(self).spec_cell()@),
                        Self::spec_to_w(old(self).spec_cell()@),
                    ),
                    w,
                ) && final(self).spec_cell()@ == Self::spec_w_raw(w),
    {
        let raw0 = self.cell().get();
        let r = Self::to_read(raw0);
        let w0 = Self::to_w(raw0);
        let w = f(r, w0);
        let raw = Self::w_raw(&w);
        self.set_raw(raw);
    }
}

/// Single bit read access proxy.
pub trait BitR {
    /// The bit's current state, as the specification sees it.
    spec fn spec_bit(&self) -> bool;

    /// Returns the current state of the bit as boolean.
    fn bit(&self) -> (b: bool)
        ensures
            b == self.spec_bit(),
    ;

    /// Returns `true` if the bit is clear (0).
    fn bit_is_clear(&self) -> (b: bool)
        ensures
            b == !self.spec_bit(),
    {
        !self.bit()
    }

    /// Returns `true` if the bit is set (1).
    fn bit_is_set(&self) -> (b: bool)
        ensures
            b == self.spec_bit(),
    {
        self.bit()
    }
}

/// Single bit write access proxy: consumed by the write, it hands back the
/// writer `W` with the bit applied.
pub trait BitW<W>: Sized {
    /// The writer the proxy leaves behind when the bit is written.
    spec fn spec_bit(self, value: bool) -> W;

    /// Writes a raw bit to the field.
    fn bit(self, value: bool) -> (w: W)
        ensures
            w == self.spec_bit(value),
    ;

    /// Sets the field bit.
    fn set_bit(self) -> (w: W)
        ensures
            w == self.spec_bit(true),
    {
        self.bit(true)
    }

    /// Clears the field bit.
    fn clear_bit(self) -> (w: W)
        ensures
            w == self.spec_bit(false),
    {
        self.bit(false)
    }
}

} // verus!
