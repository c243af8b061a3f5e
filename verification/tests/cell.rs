use vcell::cell::VolatileCell;

#[test]
fn new_then_get_returns_initial_value() {
    let c: VolatileCell<u32> = VolatileCell::new(0xDEAD_BEEF);
    assert_eq!(c.get(), 0xDEAD_BEEF);
}

#[test]
fn set_then_get_round_trips_u32() {
    let mut c: VolatileCell<u32> = VolatileCell::new(0);
    for v in [0u32, 1, 0x8000_0000, 0xFFFF_FFFF, 0x1234_5678] {
        c.set(v);
        assert_eq!(c.get(), v);
    }
}

#[test]
fn set_then_get_round_trips_u8_exhaustively() {
    let mut c: VolatileCell<u8> = VolatileCell::new(0);
    for v in 0..=255u8 {
        c.set(v);
        assert_eq!(c.get(), v);
    }
}

#[test]
fn set_then_get_round_trips_u16_edges() {
    let mut c: VolatileCell<u16> = VolatileCell::new(7);
    for v in [0u16, 1, 0x7FFF, 0x8000, 0xFFFF] {
        c.set(v);
        assert_eq!(c.get(), v);
    }
}

#[test]
fn set_then_get_round_trips_bool() {
    let mut c: VolatileCell<bool> = VolatileCell::new(false);
    c.set(true);
    assert!(c.get());
    c.set(false);
    assert!(!c.get());
}

#[test]
fn as_ptr_sees_the_contained_value() {
    let mut c: VolatileCell<u32> = VolatileCell::new(11);
    assert_eq!(*c.as_ptr(), 11);
    c.set(22);
    assert_eq!(*c.as_ptr(), 22);
}
