use cpu_state::CpuError;
use cpu_state::CpuState;
use cpu_state::RegName;
use cpu_state::state::resolve_register;

const WORD_NAMES: [&str; 8] = ["ax", "bx", "cx", "dx", "si", "di", "bp", "sp"];
const BYTE_NAMES: [&str; 8] = ["al", "ah", "bl", "bh", "cl", "ch", "dl", "dh"];

#[test]
fn fresh_state_is_fully_reset() {
    let s = CpuState::new();
    for name in WORD_NAMES {
        assert_eq!(s.get_register_value(name), Ok(0));
    }
    for name in BYTE_NAMES {
        assert_eq!(s.get_register_value(name), Ok(0));
    }
    assert_eq!(s.get_ip(), 0);
    assert!(!s.sign_flag);
    assert!(!s.zero_flag);
}

#[test]
fn word_names_round_trip() {
    let mut s = CpuState::new();
    let values: [u16; 8] = [0xBEEF, 1, 0xFFFF, 0x8000, 0x1234, 0, 0x7FFF, 0xA5A5];
    for (name, v) in WORD_NAMES.iter().zip(values.iter()) {
        assert_eq!(s.set_new_register_value(name, *v), Ok(()));
        assert_eq!(s.get_register_value(name), Ok(*v));
    }
}

#[test]
fn byte_reads_never_exceed_a_byte() {
    let mut s = CpuState::new();
    for name in WORD_NAMES {
        s.set_new_register_value(name, 0xFFFF).unwrap();
    }
    for name in BYTE_NAMES {
        let v = s.get_register_value(name).unwrap();
        assert!(v <= 0xFF);
        assert_eq!(v, 0xFF);
    }
}

#[test]
fn byte_write_truncates_instead_of_rejecting() {
    let mut s = CpuState::new();
    assert_eq!(s.set_new_register_value("al", 0x1FF), Ok(()));
    assert_eq!(s.get_register_value("al"), Ok(0xFF));
    assert_eq!(s.get_register_value("ax"), Ok(0x00FF));
    assert_eq!(s.get_register_value("ah"), Ok(0));
}

#[test]
fn byte_write_keeps_the_sibling_byte() {
    let mut s = CpuState::new();
    s.set_new_register_value("bx", 0xABCD).unwrap();
    s.set_new_register_value("bl", 0x42).unwrap();
    assert_eq!(s.get_register_value("bx"), Ok(0xAB42));
    s.set_new_register_value("bh", 0x99).unwrap();
    assert_eq!(s.get_register_value("bx"), Ok(0x9942));
    assert_eq!(s.get_register_value("bl"), Ok(0x42));
}

#[test]
fn high_byte_write_widens_correctly() {
    let mut s = CpuState::new();
    s.set_new_register_value("ah", 0x12).unwrap();
    assert_eq!(s.get_register_value("ax"), Ok(0x1200));
    assert_eq!(s.get_register_value("ah"), Ok(0x12));
    assert_eq!(s.get_register_value("al"), Ok(0));
}

#[test]
fn unknown_register_read_is_reported() {
    let s = CpuState::new();
    assert_eq!(s.get_register_value("zz"), Err(CpuError::UnknownRegister));
    assert_eq!(s.get_register_value(""), Err(CpuError::UnknownRegister));
    assert_eq!(s.get_register_value("AL"), Err(CpuError::UnknownRegister));
    assert_eq!(s.get_register_value("ip"), Err(CpuError::UnknownRegister));
}

#[test]
fn unknown_register_write_is_reported_and_harmless() {
    let mut s = CpuState::new();
    s.set_new_register_value("ax", 5).unwrap();
    assert_eq!(s.set_new_register_value("qq", 7), Err(CpuError::UnknownRegister));
    assert_eq!(s.get_register_value("ax"), Ok(5));
    assert_eq!(s.get_ip(), 0);
}

#[test]
fn writing_ip_through_register_path_is_rejected() {
    let mut s = CpuState::new();
    assert_eq!(s.set_new_register_value("ip", 5), Err(CpuError::InvalidOperation));
    assert_eq!(s.get_ip(), 0);
}

#[test]
fn unknown_flag_is_reported() {
    let mut s = CpuState::new();
    assert_eq!(s.set_flag("carry", true), Err(CpuError::UnknownFlag));
    assert!(!s.sign_flag);
    assert!(!s.zero_flag);
}

#[test]
fn flags_are_set_independently() {
    let mut s = CpuState::new();
    assert_eq!(s.set_flag("sign", true), Ok(()));
    assert!(s.sign_flag);
    assert!(!s.zero_flag);
    assert_eq!(s.set_flag("zero", true), Ok(()));
    assert!(s.sign_flag);
    assert!(s.zero_flag);
    assert_eq!(s.set_flag("sign", false), Ok(()));
    assert!(!s.sign_flag);
    assert!(s.zero_flag);
}

#[test]
fn ip_wraps_at_the_positive_boundary() {
    let mut s = CpuState::new();
    s.modify_ip(i16::MAX);
    assert_eq!(s.get_ip(), i16::MAX);
    s.modify_ip(1);
    assert_eq!(s.get_ip(), i16::MIN);
}

#[test]
fn ip_wraps_at_the_negative_boundary() {
    let mut s = CpuState::new();
    s.modify_ip(i16::MIN);
    assert_eq!(s.get_ip(), i16::MIN);
    s.modify_ip(-1);
    assert_eq!(s.get_ip(), i16::MAX);
}

#[test]
fn ip_moves_relatively() {
    let mut s = CpuState::new();
    s.modify_ip(10);
    s.modify_ip(-3);
    assert_eq!(s.get_ip(), 7);
    s.modify_ip(-14);
    assert_eq!(s.get_ip(), -7);
}

#[test]
fn names_resolve_to_their_tags() {
    assert_eq!(resolve_register("al"), Some(RegName::Al));
    assert_eq!(resolve_register("ah"), Some(RegName::Ah));
    assert_eq!(resolve_register("ax"), Some(RegName::Ax));
    assert_eq!(resolve_register("bl"), Some(RegName::Bl));
    assert_eq!(resolve_register("bh"), Some(RegName::Bh));
    assert_eq!(resolve_register("bx"), Some(RegName::Bx));
    assert_eq!(resolve_register("cl"), Some(RegName::Cl));
    assert_eq!(resolve_register("ch"), Some(RegName::Ch));
    assert_eq!(resolve_register("cx"), Some(RegName::Cx));
    assert_eq!(resolve_register("dl"), Some(RegName::Dl));
    assert_eq!(resolve_register("dh"), Some(RegName::Dh));
    assert_eq!(resolve_register("dx"), Some(RegName::Dx));
    assert_eq!(resolve_register("si"), Some(RegName::Si));
    assert_eq!(resolve_register("di"), Some(RegName::Di));
    assert_eq!(resolve_register("bp"), Some(RegName::Bp));
    assert_eq!(resolve_register("sp"), Some(RegName::Sp));
    assert_eq!(resolve_register("ip"), None);
    assert_eq!(resolve_register("sp "), None);
    assert_eq!(resolve_register("a"), None);
}
