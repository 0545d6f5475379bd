use rustikgb::registers::Register;
use rustikgb::cpu::RegBank;

#[test]
fn register_read_write() {
    let mut r: Register<u8> = Register::new(0xAB);
    assert_eq!(r.r(), 0xAB);
    r.w(0x5C);
    assert_eq!(r.r(), 0x5C);
}

#[test]
fn register_bits_u8() {
    let mut r: Register<u8> = Register::new(0);
    r.set_bit(7, true);
    assert!(r.is_bit_set(7));
    assert_eq!(r.r(), 0x80);
    r.set_bit(7, false);
    assert_eq!(r.r(), 0x00);
}

#[test]
fn register_bits_u16() {
    let mut r: Register<u16> = Register::new(0);
    r.set_bit(15, true);
    r.set_bit(0, true);
    assert!(r.is_bit_set(15));
    assert!(r.is_bit_set(0));
    assert_eq!(r.value(), 0x8001);
}

#[test]
fn register_halves() {
    let mut r: Register<u16> = Register::new(0x1234);
    assert_eq!(r.r_hi(), 0x12);
    assert_eq!(r.r_lo(), 0x34);
    r.w_hi(0xAB);
    assert_eq!(r.value(), 0xAB34);
    r.w_lo(0xCD);
    assert_eq!(r.value(), 0xABCD);
    r.increase_by(3);
    assert_eq!(r.value(), 0xABD0);
}

#[test]
fn bit_set_then_clear_restores() {
    // The low bit of 0x7E starts clear: setting then clearing it is the
    // identity.
    let mut r: Register<u8> = Register::new(0x7E);
    r.set_bit(0, true);
    r.set_bit(0, false);
    assert_eq!(r.r(), 0x7E);
}

#[test]
fn pair_views_match_shift_formula() {
    let mut bank: RegBank = Default::default();
    bank.b = Register::new(0x12);
    bank.c = Register::new(0x34);
    bank.d = Register::new(0x56);
    bank.e = Register::new(0x78);
    bank.h = Register::new(0x9A);
    bank.l = Register::new(0xBC);
    bank.a = Register::new(0xDE);
    bank.f = Register::new(0xF0);
    assert_eq!(bank.bc(), (0x12u16 << 8) | 0x34);
    assert_eq!(bank.de(), (0x56u16 << 8) | 0x78);
    assert_eq!(bank.hl(), (0x9Au16 << 8) | 0xBC);
    assert_eq!(bank.af(), (0xDEu16 << 8) | 0xF0);
}

#[test]
fn af_write_masks_low_nibble() {
    let mut bank: RegBank = Default::default();
    bank.af_w(0x12FF);
    assert_eq!(bank.a.r(), 0x12);
    assert_eq!(bank.f.r(), 0xF0);
}
