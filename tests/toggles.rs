use subnormal_guard::fpcr::read;
use subnormal_guard::{disable_subnormal, enable_subnormal, Arch, Fpcr, RoundingMode};

const SUBNORMALS_F32: [f32; 2] = [1.0e-40, -1.0e-40];
const SUBNORMALS_F64: [f64; 2] = [1.0e-308, -1.0e-308];

fn f32_is_subnormal(f: f32) -> bool {
    f.to_bits() & 0x7f800000 == 0
}

fn f64_is_subnormal(f: f64) -> bool {
    f.to_bits() & 0x7ff0000000000000 == 0
}

fn seen_f32(reg: &Fpcr, f: f32) -> f32 {
    f32::from_bits(reg.operand_f32(f.to_bits()))
}

fn seen_f64(reg: &Fpcr, f: f64) -> f64 {
    f64::from_bits(reg.operand_f64(f.to_bits()))
}

#[test]
fn can_disable_and_enable_subnormal() {
    for arch in [Arch::X86_64, Arch::Aarch64] {
        let mut reg = Fpcr::new(arch, 0);
        for f in SUBNORMALS_F32 {
            assert!(f32_is_subnormal(f));
            disable_subnormal(&mut reg);
            assert_eq!(seen_f32(&reg, f), 0.);
            enable_subnormal(&mut reg);
            assert_ne!(seen_f32(&reg, f), 0.);
        }
        for f in SUBNORMALS_F64 {
            assert!(f64_is_subnormal(f));
            disable_subnormal(&mut reg);
            assert_eq!(seen_f64(&reg, f), 0.);
            enable_subnormal(&mut reg);
            assert_ne!(seen_f64(&reg, f), 0.);
        }
    }
}

#[test]
fn flushed_subnormal_keeps_its_sign() {
    let mut reg = Fpcr::new(Arch::X86_64, 0x1f80);
    disable_subnormal(&mut reg);
    assert_eq!(reg.operand_f32((-1.0e-40f32).to_bits()), 0x8000_0000);
    assert_eq!(reg.operand_f64((1.0e-308f64).to_bits()), 0);
}

#[test]
fn normal_values_are_never_flushed() {
    let mut reg = Fpcr::new(Arch::Aarch64, 0);
    disable_subnormal(&mut reg);
    assert_eq!(seen_f32(&reg, 1.5), 1.5);
    assert_eq!(seen_f64(&reg, -2.0e-300), -2.0e-300);
}

#[test]
fn flush_masks_have_their_exact_bits() {
    assert_eq!(Arch::X86_64.flush_mask(), 0x8040);
    assert_eq!(Arch::Aarch64.flush_mask(), 0x0108_0003);
    assert_eq!(Arch::X86_64.rounding_field(), 0x6000);
    assert_eq!(Arch::Aarch64.rounding_field(), 0x00c0_0000);
}

#[test]
fn toggles_keep_every_other_bit() {
    let mut reg = Fpcr::new(Arch::X86_64, 0x1f80);
    disable_subnormal(&mut reg);
    assert_eq!(read(&reg), 0x9fc0);
    enable_subnormal(&mut reg);
    assert_eq!(read(&reg), 0x1f80);

    let mut reg = Fpcr::new(Arch::Aarch64, 0xffff_ffff);
    enable_subnormal(&mut reg);
    assert_eq!(reg.bits, 0xfef7_fffc);
    assert!(!reg.flushes_subnormals());
    disable_subnormal(&mut reg);
    assert_eq!(reg.bits, 0xffff_ffff);
    assert!(reg.flushes_subnormals());
}

#[test]
fn toggles_are_idempotent() {
    for arch in [Arch::X86_64, Arch::Aarch64] {
        let mut once = Fpcr::new(arch, 0x1234_5678);
        disable_subnormal(&mut once);
        let mut twice = Fpcr::new(arch, 0x1234_5678);
        disable_subnormal(&mut twice);
        disable_subnormal(&mut twice);
        assert_eq!(once, twice);

        enable_subnormal(&mut once);
        enable_subnormal(&mut twice);
        enable_subnormal(&mut twice);
        assert_eq!(once, twice);
    }
}

#[test]
fn write_sets_exactly_the_given_bits() {
    let mut reg = Fpcr::new(Arch::Aarch64, 0xffff_ffff);
    subnormal_guard::fpcr::write(&mut reg, 0x0000_0001);
    assert_eq!(read(&reg), 1);
    assert_eq!(reg.arch, Arch::Aarch64);
}

#[test]
fn rounding_modes_have_their_encodings() {
    assert_eq!(RoundingMode::Nearest.mask(Arch::X86_64), 0);
    assert_eq!(RoundingMode::PlusInf.mask(Arch::X86_64), 0x4000);
    assert_eq!(RoundingMode::MinusInf.mask(Arch::X86_64), 0x2000);
    assert_eq!(RoundingMode::ToZero.mask(Arch::X86_64), 0x6000);
    assert_eq!(RoundingMode::Nearest.mask(Arch::Aarch64), 0);
    assert_eq!(RoundingMode::PlusInf.mask(Arch::Aarch64), 0x0040_0000);
    assert_eq!(RoundingMode::MinusInf.mask(Arch::Aarch64), 0x0080_0000);
    assert_eq!(RoundingMode::ToZero.mask(Arch::Aarch64), 0x00c0_0000);
}

#[test]
fn setting_a_rounding_mode_replaces_the_earlier_one() {
    let mut reg = Fpcr::new(Arch::X86_64, 0x1f80);
    RoundingMode::ToZero.set(&mut reg);
    assert_eq!(reg.bits, 0x7f80);
    assert_eq!(reg.rounding_mode(), RoundingMode::ToZero);
    RoundingMode::Nearest.set(&mut reg);
    assert_eq!(reg.bits, 0x1f80);
    assert_eq!(reg.rounding_mode(), RoundingMode::Nearest);
    RoundingMode::PlusInf.set(&mut reg);
    RoundingMode::MinusInf.set(&mut reg);
    assert_eq!(reg.bits, 0x3f80);
    assert_eq!(reg.rounding_mode(), RoundingMode::MinusInf);
}

#[test]
fn to_zero_and_nearest_select_different_fields() {
    for arch in [Arch::X86_64, Arch::Aarch64] {
        let mut zero = Fpcr::new(arch, 0);
        RoundingMode::ToZero.set(&mut zero);
        let mut near = Fpcr::new(arch, 0);
        RoundingMode::Nearest.set(&mut near);
        assert_ne!(zero.bits, near.bits);
        assert_eq!(zero.rounding_mode(), RoundingMode::ToZero);
        assert_eq!(near.rounding_mode(), RoundingMode::Nearest);
    }
}
