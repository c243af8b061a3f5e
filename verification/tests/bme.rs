use vcell::bme::{self, AliasedWrite, BmeError, BmeOp};

#[test]
fn or_alias_exact() {
    // 0x4004_8000 lies fully inside the wide window, so the alias is the
    // address with the OR encoding folded in.
    assert_eq!(bme::alias(0x4004_8000, BmeOp::Or), Ok(0x4804_8000));
}

#[test]
fn and_alias_exact() {
    assert_eq!(bme::alias(0x4004_8000, BmeOp::And), Ok(0x4404_8000));
}

#[test]
fn xor_alias_exact() {
    assert_eq!(bme::alias(0x4004_8000, BmeOp::Xor), Ok(0x4C04_8000));
}

#[test]
fn set_field_alias_exact() {
    let op = BmeOp::SetField { first_bit: 3, bit_count: 4 };
    assert_eq!(bme::alias(0x4000_0000, op), Ok(0x5198_0000));
}

#[test]
fn set_field_marker_bits_hold_over_whole_domain() {
    // Every legal (first_bit, bit_count) pair: the encoding's fixed marker
    // bits survive the 0xF007_FFFF mask as exactly 0x1000_0000. At address
    // zero the alias is the bare encoding.
    for first_bit in 0..32u32 {
        for bit_count in 1..17u32 {
            let a = bme::alias(0, BmeOp::SetField { first_bit, bit_count }).unwrap();
            assert_eq!(a & 0xF007_FFFF, 0x1000_0000);
        }
    }
}

#[test]
fn set_field_bit_count_zero_faults() {
    let op = BmeOp::SetField { first_bit: 0, bit_count: 0 };
    assert_eq!(
        bme::alias(0x4000_0000, op),
        Err(BmeError::FieldOutOfRange { first_bit: 0, bit_count: 0 })
    );
}

#[test]
fn set_field_bit_count_seventeen_faults() {
    let op = BmeOp::SetField { first_bit: 0, bit_count: 17 };
    assert_eq!(
        bme::alias(0x4000_0000, op),
        Err(BmeError::FieldOutOfRange { first_bit: 0, bit_count: 17 })
    );
}

#[test]
fn set_field_large_bit_count_faults() {
    let op = BmeOp::SetField { first_bit: 0, bit_count: 255 };
    assert!(bme::alias(0x4000_0000, op).is_err());
}

#[test]
fn set_field_first_bit_thirty_two_faults() {
    let op = BmeOp::SetField { first_bit: 32, bit_count: 1 };
    assert_eq!(
        bme::alias(0x4000_0000, op),
        Err(BmeError::FieldOutOfRange { first_bit: 32, bit_count: 1 })
    );
}

#[test]
fn address_outside_wide_window_faults() {
    // Bit 31 can never be part of a BME target address.
    assert_eq!(
        bme::alias(0x8000_0000, BmeOp::Or),
        Err(BmeError::AddressOutOfWindow { address: 0x8000_0000, op: BmeOp::Or })
    );
    // Bit 20 is outside the wide window's low part.
    assert!(bme::alias(0x0010_0000, BmeOp::And).is_err());
}

#[test]
fn address_in_wide_but_not_narrow_window_faults_for_set_field() {
    // 0x0008_0000 passes the wide 0x600F_FFFF mask but not the narrow
    // 0x6007_FFFF one: the boolean operations accept it, SET-FIELD must not.
    let address = 0x4008_0000;
    assert!(bme::alias(address, BmeOp::Or).is_ok());
    let op = BmeOp::SetField { first_bit: 0, bit_count: 1 };
    assert_eq!(bme::alias(address, op), Err(BmeError::AddressOutOfWindow { address, op }));
}

#[test]
fn in_mask_address_gets_exact_encoding() {
    // An address fully within the mask aliases to address | encoding, bit
    // for bit.
    for &address in &[0u32, 0x2000_0000, 0x4000_0000, 0x600F_FFFF, 0x000F_FFFF] {
        assert_eq!(bme::alias(address, BmeOp::And), Ok(address | 0x0400_0000));
        assert_eq!(bme::alias(address, BmeOp::Or), Ok(address | 0x0800_0000));
        assert_eq!(bme::alias(address, BmeOp::Xor), Ok(address | 0x0C00_0000));
    }
}

#[test]
fn set_bits_plans_or_write() {
    assert_eq!(
        bme::set_bits(0x4000_0000, 0x0000_00F0),
        Ok(AliasedWrite { address: 0x4800_0000, value: 0x0000_00F0 })
    );
}

#[test]
fn clear_bits_writes_complement_through_and_alias() {
    assert_eq!(
        bme::clear_bits(0x4000_0000, 0x0000_00F0),
        Ok(AliasedWrite { address: 0x4400_0000, value: 0xFFFF_FF0F })
    );
}

#[test]
fn invert_bits_plans_xor_write() {
    assert_eq!(
        bme::invert_bits(0x4000_0000, 0x8000_0001),
        Ok(AliasedWrite { address: 0x4C00_0000, value: 0x8000_0001 })
    );
}

#[test]
fn set_field_plans_write_through_set_field_alias() {
    assert_eq!(
        bme::set_field(0x4000_0000, 3, 4, 0xA),
        Ok(AliasedWrite { address: 0x5198_0000, value: 0xA })
    );
}

#[test]
fn derived_operations_pass_faults_through() {
    assert!(bme::set_bits(0x8000_0000, 1).is_err());
    assert!(bme::clear_bits(0x8000_0000, 1).is_err());
    assert!(bme::invert_bits(0x8000_0000, 1).is_err());
    assert_eq!(
        bme::set_field(0x4000_0000, 0, 0, 0),
        Err(BmeError::FieldOutOfRange { first_bit: 0, bit_count: 0 })
    );
}
