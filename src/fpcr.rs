//! The register image, its two layouts and the unscoped toggles.
use vstd::prelude::*;

verus! {

/// The two register layouts: x86-64's MXCSR and AArch64's FPCR.
#[derive(Clone, Copy, Debug, PartialEq, Eq, Structural)]
pub enum Arch {
    X86_64,
    Aarch64,
}

/// MXCSR, rounding control (bits 13 and 14): to nearest.
pub const X86_RN: u32 = 0b00 << 13;
/// MXCSR, rounding control: toward plus infinity.
pub const X86_RP: u32 = 0b10 << 13;
/// MXCSR, rounding control: toward minus infinity.
pub const X86_RM: u32 = 0b01 << 13;
/// MXCSR, rounding control: toward zero.
pub const X86_RZ: u32 = 0b11 << 13;
/// MXCSR, flush to zero.
pub const X86_FTZ: u32 = 1 << 15;
/// MXCSR, denormals are zero.
pub const X86_DAZ: u32 = 1 << 6;
/// MXCSR has no auxiliary bit.
pub const X86_AUX: u32 = 0;

/// FPCR, rounding mode (bits 22 and 23): to nearest.
pub const A64_RN: u32 = 0b00 << 22;
/// FPCR, rounding mode: toward plus infinity.
pub const A64_RP: u32 = 0b01 << 22;
/// FPCR, rounding mode: toward minus infinity.
pub const A64_RM: u32 = 0b10 << 22;
/// FPCR, rounding mode: toward zero.
pub const A64_RZ: u32 = 0b11 << 22;
/// FPCR, flush inputs to zero.
pub const A64_FTZ: u32 = 1 << 0;
/// FPCR, flush to zero for single and double precision, and for half precision.
pub const A64_DAZ: u32 = (1 << 24) | (1 << 19);
/// FPCR, alternate handling.
pub const A64_AUX: u32 = 1 << 1;

/// The bits that select the rounding mode, in a layout.
pub open spec fn rounding_field(arch: Arch) -> u32 {
    match arch {
        Arch::X86_64 => X86_RZ,
        Arch::Aarch64 => A64_RZ,
    }
}

/// The denormals-are-zero bits of a layout.
pub open spec fn daz_mask(arch: Arch) -> u32 {
    match arch {
        Arch::X86_64 => X86_DAZ,
        Arch::Aarch64 => A64_DAZ,
    }
}

/// Every bit that must be set for subnormal values to be flushed to zero.
pub open spec fn flush_mask(arch: Arch) -> u32 {
    match arch {
        Arch::X86_64 => X86_FTZ | X86_DAZ | X86_AUX,
        Arch::Aarch64 => A64_FTZ | A64_DAZ | A64_AUX,
    }
}

impl Arch {
    /// The mask that [`disable_subnormal`] sets and [`enable_subnormal`] clears.
    pub fn flush_mask(self) -> (m: u32)
        ensures
            m == flush_mask(self),
    {
        match self {
            Arch::X86_64 => X86_FTZ | X86_DAZ | X86_AUX,
            Arch::Aarch64 => A64_FTZ | A64_DAZ | A64_AUX,
        }
    }

    /// The bits that hold the rounding mode.
    pub fn rounding_field(self) -> (m: u32)
        ensures
            m == rounding_field(self),
    {
        match self {
            Arch::X86_64 => X86_RZ,
            Arch::Aarch64 => A64_RZ,
        }
    }
}

/// An image of the floating-point control register of one core: the layout
/// it follows and its bits.
#[derive(Clone, Copy, Debug, PartialEq, Eq, Structural)]
pub struct Fpcr {
    pub arch: Arch,
    pub bits: u32,
}

impl Fpcr {
    pub fn new(arch: Arch, bits: u32) -> (r: Fpcr)
        ensures
            r.arch == arch,
            r.bits == bits,
    {
        Fpcr { arch, bits }
    }
}

/// The register after [`disable_subnormal`]: the flush mask OR-ed in.
pub open spec fn with_flushing(reg: Fpcr) -> Fpcr {
    Fpcr { arch: reg.arch, bits: reg.bits | flush_mask(reg.arch) }
}

/// The register after [`enable_subnormal`]: the flush mask cleared.
pub open spec fn without_flushing(reg: Fpcr) -> Fpcr {
    Fpcr { arch: reg.arch, bits: reg.bits & !flush_mask(reg.arch) }
}

/// The register flushes subnormal values: every bit of the flush mask is set.
pub open spec fn flushes_subnormals(reg: Fpcr) -> bool {
    reg.bits & flush_mask(reg.arch) == flush_mask(reg.arch)
}

proof fn lemma_or_sets(a: u32, m: u32)
    ensures
        (a | m) & m == m,
{
    assert((a | m) & m == m) by (bit_vector);
}

proof fn lemma_and_not_clears(a: u32, m: u32)
    ensures
        (a & !m) & m == 0,
{
    assert((a & !m) & m == 0) by (bit_vector);
}

/// The current bits of the register.
pub fn read(reg: &Fpcr) -> (r: u32)
    ensures
        r == reg.bits,
{
    reg.bits
}

/// Sets the register to exactly `val`; no bit is masked.
pub fn write(reg: &mut Fpcr, val: u32)
    ensures
        final(reg).bits == val,
        final(reg).arch == old(reg).arch,
{
    reg.bits = val;
}

/// Turns flushing of subnormal values on, for good: the flush mask is OR-ed
/// into the register and every other bit is kept. Nothing turns it back but
/// [`enable_subnormal`].
pub fn disable_subnormal(reg: &mut Fpcr)
    ensures
        *final(reg) == with_flushing(*old(reg)),
        flushes_subnormals(*final(reg)),
{
    let v = read(reg) | reg.arch.flush_mask();
    write(reg, v);
    proof {
        lemma_or_sets(old(reg).bits, flush_mask(reg.arch));
    }
}

/// Turns flushing of subnormal values off, for good: the flush mask is
/// cleared from the register and every other bit is kept.
pub fn enable_subnormal(reg: &mut Fpcr)
    ensures
        *final(reg) == without_flushing(*old(reg)),
        final(reg).bits & flush_mask(old(reg).arch) == 0,
{
    let v = read(reg) & !reg.arch.flush_mask();
    write(reg, v);
    proof {
        lemma_and_not_clears(old(reg).bits, flush_mask(reg.arch));
    }
}

/// One of the four IEEE-754 rounding policies.
#[derive(Clone, Copy, Debug, PartialEq, Eq, Structural)]
pub enum RoundingMode {
    Nearest,
    PlusInf,
    MinusInf,
    ToZero,
}

/// The encoding of a rounding mode in a layout's rounding field.
pub open spec fn mode_bits(mode: RoundingMode, arch: Arch) -> u32 {
    match arch {
        Arch::X86_64 => match mode {
            RoundingMode::Nearest => X86_RN,
            RoundingMode::PlusInf => X86_RP,
            RoundingMode::MinusInf => X86_RM,
            RoundingMode::ToZero => X86_RZ,
        },
        Arch::Aarch64 => match mode {
            RoundingMode::Nearest => A64_RN,
            RoundingMode::PlusInf => A64_RP,
            RoundingMode::MinusInf => A64_RM,
            RoundingMode::ToZero => A64_RZ,
        },
    }
}

/// `bits` with the rounding field of `arch` set to the encoding of `mode`;
/// the field is cleared first, so an earlier mode leaves nothing behind.
pub open spec fn with_mode_bits(bits: u32, mode: RoundingMode, arch: Arch) -> u32 {
    (bits & !rounding_field(arch)) | mode_bits(mode, arch)
}

/// The rounding mode that the register selects.
pub open spec fn rounding_of(reg: Fpcr) -> RoundingMode {
    let f = reg.bits & rounding_field(reg.arch);
    if f == mode_bits(RoundingMode::Nearest, reg.arch) {
        RoundingMode::Nearest
    } else if f == mode_bits(RoundingMode::PlusInf, reg.arch) {
        RoundingMode::PlusInf
    } else if f == mode_bits(RoundingMode::MinusInf, reg.arch) {
        RoundingMode::MinusInf
    } else {
        RoundingMode::ToZero
    }
}

proof fn lemma_field_holds(a: u32, f: u32, b: u32)
    requires
        b & !f == 0,
    ensures
        with_field(a, f, b) & f == b,
        with_field(a, f, b) & !f == a & !f,
{
    assert(((a & !f) | b) & f == b && ((a & !f) | b) & !f == a & !f) by (bit_vector)
        requires
            b & !f == 0,
    ;
}

spec fn with_field(a: u32, f: u32, b: u32) -> u32 {
    (a & !f) | b
}

/// Setting a mode writes its encoding into the rounding field, which then
/// reads back as that mode, and keeps every bit outside the field.
pub proof fn lemma_mode_selected(bits: u32, mode: RoundingMode, arch: Arch)
    ensures
        with_mode_bits(bits, mode, arch) & rounding_field(arch) == mode_bits(mode, arch),
        with_mode_bits(bits, mode, arch) & !rounding_field(arch) == bits & !rounding_field(arch),
        rounding_of(Fpcr { arch, bits: with_mode_bits(bits, mode, arch) }) == mode,
{
    assert(X86_RP & !X86_RZ == 0 && X86_RM & !X86_RZ == 0 && X86_RZ & !X86_RZ == 0
        && X86_RN & !X86_RZ == 0) by (bit_vector);
    assert(A64_RP & !A64_RZ == 0 && A64_RM & !A64_RZ == 0 && A64_RZ & !A64_RZ == 0
        && A64_RN & !A64_RZ == 0) by (bit_vector);
    assert(X86_RN == 0 && X86_RP == 0x4000 && X86_RM == 0x2000 && X86_RZ == 0x6000)
        by (bit_vector);
    assert(A64_RN == 0 && A64_RP == 0x40_0000 && A64_RM == 0x80_0000 && A64_RZ == 0xC0_0000)
        by (bit_vector);
    lemma_field_holds(bits, rounding_field(arch), mode_bits(mode, arch));
}

impl RoundingMode {
    /// The encoding of this mode in the rounding field of `arch`.
    pub fn mask(self, arch: Arch) -> (m: u32)
        ensures
            m == mode_bits(self, arch),
    {
        match arch {
            Arch::X86_64 => match self {
                RoundingMode::Nearest => X86_RN,
                RoundingMode::PlusInf => X86_RP,
                RoundingMode::MinusInf => X86_RM,
                RoundingMode::ToZero => X86_RZ,
            },
            Arch::Aarch64 => match self {
                RoundingMode::Nearest => A64_RN,
                RoundingMode::PlusInf => A64_RP,
                RoundingMode::MinusInf => A64_RM,
                RoundingMode::ToZero => A64_RZ,
            },
        }
    }

    /// Selects this mode in the register, unscoped. The rounding field is
    /// cleared before the mode's bits are OR-ed in, so a mode set earlier
    /// leaves no bit behind; every bit outside the field is kept.
    pub fn set(self, reg: &mut Fpcr)
        ensures
            final(reg).arch == old(reg).arch,
            final(reg).bits == with_mode_bits(old(reg).bits, self, old(reg).arch),
            rounding_of(*final(reg)) == self,
    {
        let v = (read(reg) & !reg.arch.rounding_field()) | self.mask(reg.arch);
        write(reg, v);
        proof {
            lemma_mode_selected(old(reg).bits, self, reg.arch);
        }
    }
}

impl Fpcr {
    /// The rounding mode that the register selects.
    pub fn rounding_mode(&self) -> (r: RoundingMode)
        ensures
            r == rounding_of(*self),
    {
        let f = self.bits & self.arch.rounding_field();
        if f == RoundingMode::Nearest.mask(self.arch) {
            RoundingMode::Nearest
        } else if f == RoundingMode::PlusInf.mask(self.arch) {
            RoundingMode::PlusInf
        } else if f == RoundingMode::MinusInf.mask(self.arch) {
            RoundingMode::MinusInf
        } else {
            RoundingMode::ToZero
        }
    }

    /// Whether every bit of the flush mask is set.
    pub fn flushes_subnormals(&self) -> (r: bool)
        ensures
            r == flushes_subnormals(*self),
    {
        let m = self.arch.flush_mask();
        self.bits & m == m
    }
}

/// Exponent field of a single-precision encoding.
pub const F32_EXP: u32 = 0x7f80_0000;
/// Sign bit of a single-precision encoding.
pub const F32_SIGN: u32 = 0x8000_0000;
/// Exponent field of a double-precision encoding.
pub const F64_EXP: u64 = 0x7ff0_0000_0000_0000;
/// Sign bit of a double-precision encoding.
pub const F64_SIGN: u64 = 0x8000_0000_0000_0000;

/// A single-precision encoding of a subnormal value: zero exponent, nonzero
/// fraction.
pub open spec fn is_subnormal_f32(b: u32) -> bool {
    b & F32_EXP == 0 && b & !F32_SIGN != 0
}

/// A double-precision encoding of a subnormal value.
pub open spec fn is_subnormal_f64(b: u64) -> bool {
    b & F64_EXP == 0 && b & !F64_SIGN != 0
}

/// Every denormals-are-zero bit of the layout is set.
pub open spec fn denormals_are_zero(reg: Fpcr) -> bool {
    reg.bits & daz_mask(reg.arch) == daz_mask(reg.arch)
}

/// The single-precision operand that the unit uses for the encoding `b`:
/// with denormals-are-zero on, one with a zero exponent is a zero of its sign.
pub open spec fn operand_f32(reg: Fpcr, b: u32) -> u32 {
    if denormals_are_zero(reg) && b & F32_EXP == 0 {
        b & F32_SIGN
    } else {
        b
    }
}

/// The double-precision operand that the unit uses for the encoding `b`.
pub open spec fn operand_f64(reg: Fpcr, b: u64) -> u64 {
    if denormals_are_zero(reg) && b & F64_EXP == 0 {
        b & F64_SIGN
    } else {
        b
    }
}

impl Fpcr {
    /// Whether every denormals-are-zero bit is set.
    pub fn denormals_are_zero(&self) -> (r: bool)
        ensures
            r == denormals_are_zero(*self),
    {
        let m = match self.arch {
            Arch::X86_64 => X86_DAZ,
            Arch::Aarch64 => A64_DAZ,
        };
        self.bits & m == m
    }

    /// The single-precision operand that the unit uses for the encoding `b`.
    pub fn operand_f32(&self, b: u32) -> (r: u32)
        ensures
            r == operand_f32(*self, b),
    {
        if self.denormals_are_zero() && b & F32_EXP == 0 {
            b & F32_SIGN
        } else {
            b
        }
    }

    /// The double-precision operand that the unit uses for the encoding `b`.
    pub fn operand_f64(&self, b: u64) -> (r: u64)
        ensures
            r == operand_f64(*self, b),
    {
        if self.denormals_are_zero() && b & F64_EXP == 0 {
            b & F64_SIGN
        } else {
            b
        }
    }
}

proof fn lemma_daz_in_flush(arch: Arch)
    ensures
        daz_mask(arch) & flush_mask(arch) == daz_mask(arch),
        daz_mask(arch) != 0,
{
    assert(X86_DAZ & (X86_FTZ | X86_DAZ | X86_AUX) == X86_DAZ && X86_DAZ != 0) by (bit_vector);
    assert(A64_DAZ & (A64_FTZ | A64_DAZ | A64_AUX) == A64_DAZ && A64_DAZ != 0) by (bit_vector);
}

/// After [`disable_subnormal`] every subnormal encoding, of either precision,
/// is used as a zero of its sign; after an [`enable_subnormal`] that follows,
/// it is used as it is, which is no zero.
pub proof fn lemma_subnormals_flushed_then_kept(reg: Fpcr, s: u32, d: u64)
    requires
        is_subnormal_f32(s),
        is_subnormal_f64(d),
    ensures
        operand_f32(with_flushing(reg), s) == s & F32_SIGN,
        operand_f64(with_flushing(reg), d) == d & F64_SIGN,
        operand_f32(without_flushing(with_flushing(reg)), s) == s,
        operand_f64(without_flushing(with_flushing(reg)), d) == d,
        s & !F32_SIGN != 0,
        d & !F64_SIGN != 0,
{
    let f = flush_mask(reg.arch);
    let z = daz_mask(reg.arch);
    let a = reg.bits;
    lemma_daz_in_flush(reg.arch);
    assert((a | f) & z == z && ((a | f) & !f) & z != z) by (bit_vector)
        requires
            z & f == z,
            z != 0,
    ;
}

/// Once the flush mask is set, the register flushes subnormal values and
/// uses every subnormal operand as zero.
pub proof fn lemma_flushing_sets_daz(reg: Fpcr)
    ensures
        flushes_subnormals(with_flushing(reg)),
        denormals_are_zero(with_flushing(reg)),
{
    let f = flush_mask(reg.arch);
    let z = daz_mask(reg.arch);
    let a = reg.bits;
    lemma_daz_in_flush(reg.arch);
    assert((a | f) & f == f && (a | f) & z == z) by (bit_vector)
        requires
            z & f == z,
    ;
}

/// Two calls of [`disable_subnormal`] leave the register as one does, and so
/// do two calls of [`enable_subnormal`].
pub proof fn lemma_toggles_idempotent(reg: Fpcr)
    ensures
        with_flushing(with_flushing(reg)) == with_flushing(reg),
        without_flushing(without_flushing(reg)) == without_flushing(reg),
{
    let a = reg.bits;
    let m = flush_mask(reg.arch);
    assert((a | m) | m == a | m) by (bit_vector);
    assert((a & !m) & !m == a & !m) by (bit_vector);
}

} // verus!
