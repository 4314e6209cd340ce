use cpu_state::Register;

#[test]
fn fresh_register_is_zero() {
    let r = Register::new();
    assert_eq!(r.get(), 0);
    assert_eq!(r.get_low(), 0);
    assert_eq!(r.get_high(), 0);
}

#[test]
fn word_round_trip() {
    let mut r = Register::new();
    r.set(0xBEEF);
    assert_eq!(r.get(), 0xBEEF);
    r.set(0);
    assert_eq!(r.get(), 0);
    r.set(0xFFFF);
    assert_eq!(r.get(), 0xFFFF);
    r.set(1);
    assert_eq!(r.get(), 1);
}

#[test]
fn byte_views_decompose_the_word() {
    let mut r = Register::new();
    r.set(0xABCD);
    assert_eq!(r.get_low(), 0xCD);
    assert_eq!(r.get_high(), 0xAB);
}

#[test]
fn set_low_preserves_high_byte() {
    let mut r = Register::new();
    r.set(0x1234);
    r.set_low(0xAB);
    assert_eq!(r.get(), 0x12AB);
    assert_eq!(r.get_high(), 0x12);
    assert_eq!(r.get_low(), 0xAB);
}

#[test]
fn set_high_preserves_low_byte() {
    let mut r = Register::new();
    r.set(0x1234);
    r.set_high(0xCD);
    assert_eq!(r.get(), 0xCD34);
    assert_eq!(r.get_low(), 0x34);
    assert_eq!(r.get_high(), 0xCD);
}

#[test]
fn alternating_byte_writes_stay_independent() {
    let mut r = Register::new();
    r.set_low(0xFF);
    assert_eq!(r.get(), 0x00FF);
    r.set_high(0xFF);
    assert_eq!(r.get(), 0xFFFF);
    r.set_low(0x00);
    assert_eq!(r.get(), 0xFF00);
    r.set_high(0x00);
    assert_eq!(r.get(), 0x0000);
}
