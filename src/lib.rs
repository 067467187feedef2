//! Control of the floating-point control register: flushing of subnormal
//! values and the IEEE-754 rounding mode, as an unscoped toggle and as a
//! guard that captures the register and gives it back.
//!
//! The register is handled as a value, [`Fpcr`]: its layout and its bits.
//! Every rule on the bits is proved here; moving the bits to and from the
//! hardware of the executing core is left to the caller.

pub mod fpcr;
pub mod guard;

pub use fpcr::{disable_subnormal, enable_subnormal, Arch, Fpcr, RoundingMode};
pub use guard::{GuardView, SubnormalGuard};
