//! The build-time choice of the one backend that performs the trap.
use vstd::prelude::*;
use crate::arch::Arch;

verus! {

/// A way of performing the privilege transition.
#[derive(Clone, Copy, Debug, PartialEq, Eq, Structural)]
pub enum Backend {
    /// The trap instruction, embedded in the code.
    Inline,
    /// The trap instruction, in precompiled out-of-line routines with the
    /// same surface and contracts.
    Outline,
    /// A kernel-provided helper routine mapped into the process.
    FastPathHelper,
}

/// The backend chosen for `arch`, where embedded instruction sequences are
/// available exactly when `inline_asm` holds.
pub open spec fn backend_spec(arch: Arch, inline_asm: bool) -> Backend {
    if arch == Arch::X86 {
        Backend::FastPathHelper
    } else if inline_asm {
        Backend::Inline
    } else {
        Backend::Outline
    }
}

/// Picks the backend for a build target: 32-bit x86 always goes through the
/// fast-path helper; every other architecture traps directly, inline where
/// the target can embed instructions and out of line otherwise.
pub fn select_backend(arch: Arch, inline_asm: bool) -> (r: Backend)
    ensures
        r == backend_spec(arch, inline_asm),
{
    match arch {
        Arch::X86 => Backend::FastPathHelper,
        _ => if inline_asm {
            Backend::Inline
        } else {
            Backend::Outline
        },
    }
}

} // verus!
