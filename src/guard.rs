//! A guard that captures the register, collects changes to it, applies them
//! on request and gives the captured bits back at the end of its scope.
use vstd::prelude::*;

use crate::fpcr::{
    denormals_are_zero, flush_mask, flushes_subnormals, is_subnormal_f32, is_subnormal_f64,
    lemma_flushing_sets_daz, lemma_mode_selected, operand_f32, operand_f64, rounding_of,
    with_flushing, with_mode_bits, Arch, Fpcr, RoundingMode, F32_SIGN, F64_SIGN,
};

verus! {

/// What a guard holds: the layout of the register it was made from, the
/// bits captured then, and the bits its configuration asks for.
pub struct GuardView {
    pub arch: Arch,
    pub snapshot: u32,
    pub pending: u32,
}

/// A guard just made from `reg`: it has captured the bits, and asks for no
/// change yet.
pub open spec fn captured(reg: Fpcr) -> GuardView {
    GuardView { arch: reg.arch, snapshot: reg.bits, pending: reg.bits }
}

/// The guard once it also asks for subnormal values to be flushed.
pub open spec fn asks_without_subnormal(g: GuardView) -> GuardView {
    GuardView { pending: g.pending | flush_mask(g.arch), ..g }
}

/// The guard once it also asks for the rounding mode `mode`.
pub open spec fn asks_rounding(g: GuardView, mode: RoundingMode) -> GuardView {
    GuardView { pending: with_mode_bits(g.pending, mode, g.arch), ..g }
}

/// The register once the guard's configuration is applied.
pub open spec fn committed(g: GuardView) -> Fpcr {
    Fpcr { arch: g.arch, bits: g.pending }
}

/// The register once the guard has given its captured bits back.
pub open spec fn restored(g: GuardView) -> Fpcr {
    Fpcr { arch: g.arch, bits: g.snapshot }
}

/// Captures the register once, when it is made, and gives those bits back
/// verbatim by [`SubnormalGuard::restore`], whether or not
/// [`SubnormalGuard::set`] was called. Only the pending bits change while it is
/// configured; the captured ones never do. Guards of one core are restored in
/// the reverse order of their making.
pub struct SubnormalGuard {
    arch: Arch,
    snapshot: u32,
    pending: u32,
}

impl View for SubnormalGuard {
    type V = GuardView;

    closed spec fn view(&self) -> GuardView {
        GuardView { arch: self.arch, snapshot: self.snapshot, pending: self.pending }
    }
}

impl SubnormalGuard {
    /// Captures the register's bits, as the snapshot and as the pending bits.
    /// Nothing is written.
    pub fn new(reg: &Fpcr) -> (g: SubnormalGuard)
        ensures
            g@ == captured(*reg),
    {
        let bits = crate::fpcr::read(reg);
        SubnormalGuard { arch: reg.arch, snapshot: bits, pending: bits }
    }

    /// Adds the flags that flush subnormal values to zero to the pending bits.
    pub fn without_subnormal(self) -> (g: SubnormalGuard)
        ensures
            g@ == asks_without_subnormal(self@),
    {
        SubnormalGuard {
            arch: self.arch,
            snapshot: self.snapshot,
            pending: self.pending | self.arch.flush_mask(),
        }
    }

    /// Selects the rounding mode `rounding` in the pending bits: the rounding
    /// field is cleared, then the mode's bits are OR-ed in.
    pub fn with_rounding(self, rounding: RoundingMode) -> (g: SubnormalGuard)
        ensures
            g@ == asks_rounding(self@, rounding),
    {
        let f = self.arch.rounding_field();
        let m = rounding.mask(self.arch);
        SubnormalGuard {
            arch: self.arch,
            snapshot: self.snapshot,
            pending: (self.pending & !f) | m,
        }
    }

    /// Writes the pending bits to the register, and hands the guard back.
    pub fn set(self, reg: &mut Fpcr) -> (g: SubnormalGuard)
        requires
            old(reg).arch == self@.arch,
        ensures
            g@ == self@,
            *final(reg) == committed(self@),
    {
        crate::fpcr::write(reg, self.pending);
        self
    }

    /// Ends the guard: writes the captured bits back to the register,
    /// whatever it holds now.
    pub fn restore(self, reg: &mut Fpcr)
        requires
            old(reg).arch == self@.arch,
        ensures
            *final(reg) == restored(self@),
    {
        crate::fpcr::write(reg, self.snapshot);
    }

    /// The layout of the register the guard was made from.
    pub fn arch(&self) -> (r: Arch)
        ensures
            r == self@.arch,
    {
        self.arch
    }

    /// The bits captured when the guard was made.
    pub fn snapshot(&self) -> (r: u32)
        ensures
            r == self@.snapshot,
    {
        self.snapshot
    }

    /// The bits that [`SubnormalGuard::set`] writes.
    pub fn pending(&self) -> (r: u32)
        ensures
            r == self@.pending,
    {
        self.pending
    }
}

/// Configuring a guard changes its pending bits only: the layout and the
/// captured bits stay as they were.
pub proof fn lemma_configuring_keeps_snapshot(g: GuardView, mode: RoundingMode)
    ensures
        asks_without_subnormal(g).arch == g.arch,
        asks_without_subnormal(g).snapshot == g.snapshot,
        asks_rounding(g, mode).arch == g.arch,
        asks_rounding(g, mode).snapshot == g.snapshot,
{
}

/// A guard made from `s0` that flushes subnormal values: once applied, the
/// register uses every subnormal operand of either precision as a zero of its
/// sign; at the end of the scope the register is `s0` again, bit for bit.
pub proof fn lemma_guard_round_trip(s0: Fpcr)
    ensures
        flushes_subnormals(committed(asks_without_subnormal(captured(s0)))),
        denormals_are_zero(committed(asks_without_subnormal(captured(s0)))),
        forall|b: u32|
            is_subnormal_f32(b) ==> #[trigger] operand_f32(
                committed(asks_without_subnormal(captured(s0))),
                b,
            ) == b & F32_SIGN,
        forall|b: u64|
            is_subnormal_f64(b) ==> #[trigger] operand_f64(
                committed(asks_without_subnormal(captured(s0))),
                b,
            ) == b & F64_SIGN,
        restored(asks_without_subnormal(captured(s0))) == s0,
{
    assert(committed(asks_without_subnormal(captured(s0))) == with_flushing(s0));
    lemma_flushing_sets_daz(s0);
}

/// Guard `b`, made inside the scope of guard `a` once `a` was applied and
/// configured in any way, gives back at its end the register that `a`
/// applied; `a` then gives back the register it was made from.
pub proof fn lemma_nested_guards(s0: Fpcr, a: GuardView, b: GuardView)
    requires
        a.arch == captured(s0).arch,
        a.snapshot == captured(s0).snapshot,
        b.arch == captured(committed(a)).arch,
        b.snapshot == captured(committed(a)).snapshot,
    ensures
        restored(b) == committed(a),
        restored(a) == s0,
{
}

/// After [`crate::disable_subnormal`], a guard that is made and ended with no
/// configuration leaves the register flushing subnormal values.
pub proof fn lemma_idle_guard_keeps_toggle(reg: Fpcr)
    ensures
        restored(captured(with_flushing(reg))) == with_flushing(reg),
        flushes_subnormals(restored(captured(with_flushing(reg)))),
{
    lemma_flushing_sets_daz(reg);
}

/// A guard that asks for a rounding mode, once applied, makes the register
/// select that mode.
pub proof fn lemma_guard_selects_rounding(g: GuardView, mode: RoundingMode)
    ensures
        rounding_of(committed(asks_rounding(g, mode))) == mode,
{
    lemma_mode_selected(g.pending, mode, g.arch);
}

} // verus!
