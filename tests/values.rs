use lib8086::{Flags, Value};
use std::cmp::Ordering;

#[test]
fn value_constructors() {
    assert_eq!(Value::word([0x11, 0x44]), Value::Word(0x4411));
    assert_eq!(Value::word([0xff, 0xff]), Value::Word(-1));
    assert_eq!(Value::byte(0xf4), Value::Byte(-12));
}

#[test]
fn value_predicates() {
    assert!(Value::Word(0).is_zero());
    assert!(!Value::Byte(3).is_zero());
    assert!(Value::Byte(-3).is_negative());
    assert!(Value::Word(5).is_positive());
    assert!(!Value::Word(0).is_positive());
    assert!(Value::Word(-4).is_even());
    assert!(!Value::Byte(-3).is_even());
    assert_eq!(Value::Word(-1).as_u16(), 0xffff);
    assert_eq!(Value::Byte(-1).as_u16(), 0xffff);
    assert_eq!(Value::Byte(5).as_u16(), 5);
}

#[test]
fn flagged_add_examples() {
    assert_eq!(Value::Word(1).flagged_add(&Value::Word(2)), (Value::Word(3), false, false, false));
    assert_eq!(
        Value::Word(0x7fff).flagged_add(&Value::Word(1)),
        (Value::Word(-32768), true, false, true)
    );
    assert_eq!(Value::Word(-1).flagged_add(&Value::Word(1)), (Value::Word(0), false, true, true));
    assert_eq!(
        Value::Word(-32768).flagged_add(&Value::Word(-1)),
        (Value::Word(32767), true, true, false)
    );
    assert_eq!(Value::Word(90).flagged_add(&Value::Word(-90)), (Value::Word(0), false, true, true));
}

#[test]
fn flagged_sub_examples() {
    assert_eq!(Value::Word(5).flagged_sub(&Value::Word(3)), (Value::Word(2), false, false, false));
    assert_eq!(Value::Word(0).flagged_sub(&Value::Word(5)), (Value::Word(-5), false, true, true));
    assert_eq!(
        Value::Word(-32768).flagged_sub(&Value::Word(1)),
        (Value::Word(32767), true, false, true)
    );
    assert_eq!(
        Value::Word(0x10).flagged_sub(&Value::Word(0x01)),
        (Value::Word(0x0f), false, false, true)
    );
}

#[test]
fn carrying_arithmetic() {
    assert_eq!(
        Value::Word(-1).flagged_carrying_add(&Value::Word(0), true),
        (Value::Word(0), false, true, true)
    );
    assert_eq!(
        Value::Word(1).flagged_carrying_add(&Value::Word(1), false),
        (Value::Word(2), false, false, false)
    );
    assert_eq!(
        Value::Word(0).flagged_carrying_sub(&Value::Word(0), true),
        (Value::Word(-1), false, true, true)
    );
    assert_eq!(
        Value::Word(10).flagged_carrying_sub(&Value::Word(3), true),
        (Value::Word(6), false, false, false)
    );
}

#[test]
fn comparison_sign_extends_bytes() {
    assert_eq!(Value::Byte(-1).cmp(&Value::Word(-1)), Ordering::Equal);
    assert_eq!(Value::Byte(-1).cmp(&Value::Word(0)), Ordering::Less);
    assert_eq!(Value::Word(300).cmp(&Value::Byte(127)), Ordering::Greater);
}

#[test]
fn flag_setters() {
    let mut f = Flags::default();
    f.set_from_value(&Value::Word(0));
    assert!(f.zero && f.parity && !f.sign);
    f.set_from_value(&Value::Word(-3));
    assert!(!f.zero && !f.parity && f.sign);
    f.set_overflow_aux_carry(true, false, true);
    assert!(f.overflow && !f.carry && f.aux_carry);
    f.set_zero_sign_parity(false, false, true);
    assert!(!f.zero && !f.sign && f.parity);
    f.set_zero_sign(true, true);
    assert!(f.zero && f.sign);
    f.set_positive();
    assert!(!f.zero && !f.sign);
    f.set_negative();
    assert!(!f.zero && f.sign);
    f.set_odd();
    assert!(!f.parity);
    f.set_even();
    assert!(f.parity);
    f.set_zero();
    assert!(f.zero && f.parity && !f.sign);
}
