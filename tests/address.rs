use lib8086::{DecodeError, Displacement, EffectiveAddr, Mode, Register};

#[test]
fn address_test_with_memory_mode_success() {
    assert_eq!(
        EffectiveAddr::new(0b000, Displacement::Empty),
        EffectiveAddr::RegPair {
            base: Register::BX,
            index: Register::SI
        }
    );

    assert_eq!(
        EffectiveAddr::new(0b001, Displacement::Empty),
        EffectiveAddr::RegPair {
            base: Register::BX,
            index: Register::DI
        }
    );

    assert_eq!(
        EffectiveAddr::new(0b001, Displacement::NoneDirect(0xFF)),
        EffectiveAddr::RegPair {
            base: Register::BX,
            index: Register::DI
        }
    );

    assert_eq!(
        EffectiveAddr::new(0b110, Displacement::NoneDirect(0xFF)),
        EffectiveAddr::Direct(0xFF)
    );
}

#[test]
fn address_test_with_memory_mode8_success() {
    assert_eq!(
        EffectiveAddr::new(0b110, Displacement::Byte(0xFFu8 as i8)),
        EffectiveAddr::RegDisp {
            base: Register::BP,
            disp: Displacement::Byte(0xFFu8 as i8)
        }
    );
}

#[test]
fn address_test_with_memory16_success() {
    assert_eq!(
        EffectiveAddr::new(0b110, Displacement::Word(0xFFi16)),
        EffectiveAddr::RegDisp {
            base: Register::BP,
            disp: Displacement::Word(0xFFi16)
        }
    );

    let val = i16::from_le_bytes([0xFF, 0xFF]);
    assert_eq!(
        EffectiveAddr::new(0b110, Displacement::Word(val)),
        EffectiveAddr::RegDisp {
            base: Register::BP,
            disp: Displacement::Word(val)
        }
    );
}

#[test]
fn displacement_reading() {
    let bytes = [0x34, 0x12];
    assert_eq!(
        Displacement::new(&Mode::Memory, 0b110, &bytes).unwrap(),
        (Displacement::NoneDirect(0x1234), 2)
    );
    assert_eq!(Displacement::new(&Mode::Memory, 0b000, &bytes).unwrap(), (Displacement::Empty, 0));
    assert_eq!(Displacement::new(&Mode::Memory8, 0b000, &[0xFC]).unwrap(), (Displacement::Byte(-4), 1));
    assert_eq!(
        Displacement::new(&Mode::Memory16, 0b000, &[0x13, 0x87]).unwrap(),
        (Displacement::Word(0x8713u16 as i16), 2)
    );
    assert_eq!(Displacement::new(&Mode::Register, 0b000, &bytes), Err(DecodeError::Displacement));
    assert_eq!(Displacement::new(&Mode::Memory16, 0b000, &[0x13]), Err(DecodeError::Incomplete));
}

#[test]
fn displacement_values() {
    assert_eq!(Displacement::Empty.value(), Some(0));
    assert_eq!(Displacement::NoneDirect(7).value(), None);
    assert_eq!(Displacement::Byte(-3).value(), Some(-3));
    assert_eq!(Displacement::Word(300).value(), Some(300));
}

#[test]
fn effective_address_all_rm_codes() {
    let d = Displacement::Byte(4);
    assert_eq!(
        EffectiveAddr::new(0b010, d),
        EffectiveAddr::RegPairDisp { base: Register::BP, index: Register::SI, disp: d }
    );
    assert_eq!(
        EffectiveAddr::new(0b011, Displacement::Empty),
        EffectiveAddr::RegPair { base: Register::BP, index: Register::DI }
    );
    assert_eq!(EffectiveAddr::new(0b100, Displacement::Empty), EffectiveAddr::Reg(Register::SI));
    assert_eq!(EffectiveAddr::new(0b101, Displacement::Empty), EffectiveAddr::Reg(Register::DI));
    assert_eq!(
        EffectiveAddr::new(0b111, d),
        EffectiveAddr::RegDisp { base: Register::BX, disp: d }
    );
}
