use vcell::reg::{
    BitR, BitW, ModifyRegister, ReadRegister, ResetRegister, ResetRegisterWithZero, ResetValue,
    WriteRegisterWithReset, WriteRegisterWithZero,
};
use vcell::word::{WordRegister, WordW};

#[test]
fn read_returns_the_stored_word() {
    let r = WordRegister::new(0x0000_0005);
    assert_eq!(r.read().bits(), 0x0000_0005);
}

#[test]
fn write_with_reset_starts_from_the_reset_value() {
    let mut r = WordRegister::new(0xFFFF_FFFF);
    // The writer starts from the all-zero reset value; setting one bit
    // leaves exactly that bit.
    WriteRegisterWithReset::write(&mut r, |w: WordW| w.bit(3).set_bit());
    assert_eq!(r.read().bits(), 0x0000_0008);
}

#[test]
fn write_with_zero_starts_from_zero() {
    let mut r = WordRegister::new(0xFFFF_FFFF);
    WriteRegisterWithZero::write(&mut r, |w: WordW| w.bit(0).set_bit());
    assert_eq!(r.read().bits(), 0x0000_0001);
}

#[test]
fn reset_writes_the_reset_value() {
    let mut r = WordRegister::new(0x1234_5678);
    ResetRegister::reset(&mut r);
    assert_eq!(r.read().bits(), 0);
}

#[test]
fn reset_with_zero_writes_zero() {
    let mut r = WordRegister::new(0x1234_5678);
    ResetRegisterWithZero::reset(&mut r);
    assert_eq!(r.read().bits(), 0);
}

#[test]
fn modify_keeps_untouched_bits() {
    let mut r = WordRegister::new(0x0000_00F0);
    // The writer is primed with the current bits, so setting bit 0 and
    // clearing bit 4 touches nothing else.
    r.modify(|_cur, w: WordW| w.bit(0).set_bit().bit(4).clear_bit());
    assert_eq!(r.read().bits(), 0x0000_00E1);
}

#[test]
fn modify_sees_the_current_value() {
    let mut r = WordRegister::new(0x0000_0001);
    r.modify(|cur, w: WordW| {
        assert_eq!(cur.bits(), 0x0000_0001);
        w
    });
    assert_eq!(r.read().bits(), 0x0000_0001);
}

#[test]
fn bit_read_proxy_reports_the_bit() {
    let r = WordRegister::new(0b10);
    let read = r.read();
    assert!(read.bit(1).bit_is_set());
    assert!(!read.bit(0).bit_is_set());
    assert!(read.bit(0).bit_is_clear());
    assert!(read.bit(1).bit());
}

#[test]
fn bit_write_proxy_sets_and_clears_one_bit() {
    let w = WordW::reset_value();
    let w = w.bit(7).bit(true);
    let w = w.bit(7).bit(true);
    // Setting twice is setting once.
    let mut r = WordRegister::new(0);
    WriteRegisterWithReset::write(&mut r, move |_| w);
    assert_eq!(r.read().bits(), 0x0000_0080);

    let mut r2 = WordRegister::new(0);
    WriteRegisterWithReset::write(&mut r2, |w: WordW| w.bit(7).set_bit().bit(7).clear_bit());
    assert_eq!(r2.read().bits(), 0);
}
