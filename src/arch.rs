//! Per-architecture calling conventions for the raw call instruction, as
//! declarative data, and the normalisation of the result word.
use vstd::prelude::*;
use crate::reg::{word_modulus, RetReg};

verus! {

/// A target architecture.
#[allow(non_camel_case_types)]
#[derive(Clone, Copy, Debug, PartialEq, Eq, Structural)]
pub enum Arch {
    X86,
    X86_64,
    Arm,
    Aarch64,
    Mips,
    Mips64,
    Powerpc64,
    Riscv32,
    Riscv64,
}

/// Where one value of a call is placed: a general-purpose register, by its
/// hardware number, or a word slot counted from the stack pointer.
#[derive(Clone, Copy, Debug, PartialEq, Eq, Structural)]
pub enum Location {
    Register(u8),
    Stack(u8),
}

/// How the kernel signals an error in the result.
#[derive(Clone, Copy, Debug, PartialEq, Eq, Structural)]
pub enum ErrorSignal {
    /// The result register holds the negated error identifier.
    NegatedResult,
    /// A general-purpose register (by number) is non-zero on error, and the
    /// result register then holds the positive error identifier.
    FlagRegister(u8),
    /// The summary-overflow bit of condition field 0 is set on error, and the
    /// result register then holds the positive error identifier.
    ConditionSummaryOverflow,
}

/// The register that carries the operation number.
pub open spec fn number_register_spec(a: Arch) -> u8 {
    match a {
        Arch::X86 => 0,
        Arch::X86_64 => 0,
        Arch::Arm => 7,
        Arch::Aarch64 => 8,
        Arch::Mips => 2,
        Arch::Mips64 => 2,
        Arch::Powerpc64 => 0,
        Arch::Riscv32 => 17,
        Arch::Riscv64 => 17,
    }
}

/// The register that holds the result after the trap.
pub open spec fn result_register_spec(a: Arch) -> u8 {
    match a {
        Arch::X86 => 0,
        Arch::X86_64 => 0,
        Arch::Arm => 0,
        Arch::Aarch64 => 0,
        Arch::Mips => 2,
        Arch::Mips64 => 2,
        Arch::Powerpc64 => 3,
        Arch::Riscv32 => 10,
        Arch::Riscv64 => 10,
    }
}

/// The largest number of arguments one call can carry.
pub open spec fn max_arity_spec(a: Arch) -> nat {
    match a {
        Arch::Mips => 7,
        _ => 6,
    }
}

/// Where argument `i` goes, for `i < max_arity_spec(a)`.
pub open spec fn arg_location_spec(a: Arch, i: nat) -> Location {
    match a {
        Arch::X86 => Location::Register(seq![3u8, 1, 2, 6, 7, 5][i as int]),
        Arch::X86_64 => Location::Register(seq![7u8, 6, 2, 10, 8, 9][i as int]),
        Arch::Arm => Location::Register(i as u8),
        Arch::Aarch64 => Location::Register(i as u8),
        Arch::Mips => if i < 4 {
            Location::Register((4 + i) as u8)
        } else {
            Location::Stack(i as u8)
        },
        Arch::Mips64 => Location::Register((4 + i) as u8),
        Arch::Powerpc64 => Location::Register((3 + i) as u8),
        Arch::Riscv32 => Location::Register((10 + i) as u8),
        Arch::Riscv64 => Location::Register((10 + i) as u8),
    }
}

/// How errors are signalled.
pub open spec fn error_signal_spec(a: Arch) -> ErrorSignal {
    match a {
        Arch::Mips => ErrorSignal::FlagRegister(7),
        Arch::Mips64 => ErrorSignal::FlagRegister(7),
        Arch::Powerpc64 => ErrorSignal::ConditionSummaryOverflow,
        _ => ErrorSignal::NegatedResult,
    }
}

/// The word `w` negated modulo the word size.
pub open spec fn negated_word(w: int) -> int {
    if w == 0 {
        0
    } else {
        word_modulus() - w
    }
}

/// The result word in the common convention, from the result register `r`
/// and the error indication `failed`.
pub open spec fn normalized_spec(a: Arch, r: int, failed: bool) -> int {
    match error_signal_spec(a) {
        ErrorSignal::NegatedResult => r,
        _ => if failed {
            negated_word(r)
        } else {
            r
        },
    }
}

impl Arch {
    pub fn number_register(self) -> (r: u8)
        ensures
            r == number_register_spec(self),
    {
        match self {
            Arch::X86 => 0,
            Arch::X86_64 => 0,
            Arch::Arm => 7,
            Arch::Aarch64 => 8,
            Arch::Mips => 2,
            Arch::Mips64 => 2,
            Arch::Powerpc64 => 0,
            Arch::Riscv32 => 17,
            Arch::Riscv64 => 17,
        }
    }

    pub fn result_register(self) -> (r: u8)
        ensures
            r == result_register_spec(self),
    {
        match self {
            Arch::X86 => 0,
            Arch::X86_64 => 0,
            Arch::Arm => 0,
            Arch::Aarch64 => 0,
            Arch::Mips => 2,
            Arch::Mips64 => 2,
            Arch::Powerpc64 => 3,
            Arch::Riscv32 => 10,
            Arch::Riscv64 => 10,
        }
    }

    pub fn max_arity(self) -> (r: usize)
        ensures
            r as nat == max_arity_spec(self),
    {
        match self {
            Arch::Mips => 7,
            _ => 6,
        }
    }

    /// Where argument `i` goes, or `None` where the architecture carries no
    /// argument `i`.
    pub fn arg_location(self, i: usize) -> (r: Option<Location>)
        ensures
            r == (if (i as nat) < max_arity_spec(self) {
                Some(arg_location_spec(self, i as nat))
            } else {
                None
            }),
    {
        if i >= self.max_arity() {
            return None;
        }
        let loc = match self {
            Arch::X86 => {
                let t: [u8; 6] = [3, 1, 2, 6, 7, 5];
                assert(t@ =~= seq![3u8, 1, 2, 6, 7, 5]);
                Location::Register(t[i])
            },
            Arch::X86_64 => {
                let t: [u8; 6] = [7, 6, 2, 10, 8, 9];
                assert(t@ =~= seq![7u8, 6, 2, 10, 8, 9]);
                Location::Register(t[i])
            },
            Arch::Arm => Location::Register(i as u8),
            Arch::Aarch64 => Location::Register(i as u8),
            Arch::Mips => if i < 4 {
                Location::Register((4 + i) as u8)
            } else {
                Location::Stack(i as u8)
            },
            Arch::Mips64 => Location::Register((4 + i) as u8),
            Arch::Powerpc64 => Location::Register((3 + i) as u8),
            Arch::Riscv32 => Location::Register((10 + i) as u8),
            Arch::Riscv64 => Location::Register((10 + i) as u8),
        };
        Some(loc)
    }

    pub fn error_signal(self) -> (r: ErrorSignal)
        ensures
            r == error_signal_spec(self),
    {
        match self {
            Arch::Mips => ErrorSignal::FlagRegister(7),
            Arch::Mips64 => ErrorSignal::FlagRegister(7),
            Arch::Powerpc64 => ErrorSignal::ConditionSummaryOverflow,
            _ => ErrorSignal::NegatedResult,
        }
    }

    /// Brings the result register `r`, with the architecture's error
    /// indication `failed`, into the common convention, where an error is a
    /// negated identifier in the result word.
    pub fn normalize_result(self, r: usize, failed: bool) -> (res: RetReg)
        ensures
            res.word() == normalized_spec(self, r as int, failed),
    {
        match self.error_signal() {
            ErrorSignal::NegatedResult => RetReg::from_word(r),
            _ => if failed && r != 0 {
                RetReg::from_word(usize::MAX - r + 1)
            } else {
                RetReg::from_word(r)
            },
        }
    }
}

} // verus!
