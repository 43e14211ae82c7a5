use linux_raw_sys::general as g;
use rawcall::arch::{Arch, ErrorSignal, Location};
use rawcall::dispatch::{Classification, Invocation, Placement, ShapeError, SyscallNumber};
use rawcall::ops::Operation;
use rawcall::reg::{ArgReg, Errno};
use rawcall::select::{select_backend, Backend};

#[test]
fn riscv32_places_number_in_a7_and_arguments_in_a0_up() {
    let inv = Invocation::syscall3(
        SyscallNumber::new(56),
        ArgReg::from_i32(-100),
        ArgReg::from_usize(0x1000),
        ArgReg::from_usize(0x80000),
    );
    let p = inv.placements(Arch::Riscv32).unwrap();
    assert_eq!(
        p,
        vec![
            Placement { loc: Location::Register(17), word: 56 },
            Placement { loc: Location::Register(10), word: usize::MAX - 99 },
            Placement { loc: Location::Register(11), word: 0x1000 },
            Placement { loc: Location::Register(12), word: 0x80000 },
        ]
    );
    assert_eq!(Arch::Riscv32.result_register(), 10);
}

#[test]
fn x86_64_fourth_argument_goes_to_r10() {
    assert_eq!(Arch::X86_64.arg_location(3), Some(Location::Register(10)));
    assert_eq!(Arch::X86_64.arg_location(0), Some(Location::Register(7)));
    assert_eq!(Arch::X86_64.arg_location(6), None);
    assert_eq!(Arch::X86.arg_location(5), Some(Location::Register(5)));
    assert_eq!(Arch::Aarch64.number_register(), 8);
}

#[test]
fn mips_carries_seven_arguments_through_the_stack() {
    assert_eq!(Arch::Mips.max_arity(), 7);
    assert_eq!(Arch::Mips.arg_location(3), Some(Location::Register(7)));
    assert_eq!(Arch::Mips.arg_location(4), Some(Location::Stack(4)));
    assert_eq!(Arch::Mips.arg_location(6), Some(Location::Stack(6)));
    let inv = Invocation::syscall7_readonly(
        SyscallNumber::new(1),
        ArgReg::from_usize(0),
        ArgReg::from_usize(1),
        ArgReg::from_usize(2),
        ArgReg::from_usize(3),
        ArgReg::from_usize(4),
        ArgReg::from_usize(5),
        ArgReg::from_usize(6),
    );
    assert_eq!(inv.arity(), 7);
    assert_eq!(inv.class(), Classification::ReadOnly);
    assert!(inv.placements(Arch::Riscv64).is_none());
    let p = inv.placements(Arch::Mips).unwrap();
    assert_eq!(p.len(), 8);
    assert_eq!(p[7], Placement { loc: Location::Stack(6), word: 6 });
}

#[test]
fn flag_conventions_are_normalized() {
    assert_eq!(Arch::Mips.error_signal(), ErrorSignal::FlagRegister(7));
    assert_eq!(Arch::Mips.normalize_result(2, true).decode(), Err(Errno { code: 2 }));
    assert_eq!(Arch::Mips.normalize_result(2, false).decode(), Ok(2));
    assert_eq!(Arch::Powerpc64.normalize_result(9, true).decode(), Err(Errno { code: 9 }));
    assert_eq!(Arch::X86_64.normalize_result(9, true).decode(), Ok(9));
    assert_eq!(Arch::X86_64.normalize_result(usize::MAX, false).decode(), Err(Errno { code: 1 }));
}

#[test]
fn backend_selection() {
    assert_eq!(select_backend(Arch::X86, true), Backend::FastPathHelper);
    assert_eq!(select_backend(Arch::X86, false), Backend::FastPathHelper);
    assert_eq!(select_backend(Arch::Riscv32, true), Backend::Inline);
    assert_eq!(select_backend(Arch::Aarch64, false), Backend::Outline);
}

#[test]
fn shapes_are_checked() {
    let nr = SyscallNumber::new(5);
    assert_eq!(
        Invocation::new(nr, vec![0; 8], Classification::Plain).err(),
        Some(ShapeError::TooManyArgs)
    );
    assert_eq!(
        Invocation::new(nr, vec![0, 1], Classification::NoReturn).err(),
        Some(ShapeError::NoReturnArity)
    );
    assert_eq!(
        Invocation::new(nr, vec![], Classification::NoReturn).err(),
        Some(ShapeError::NoReturnArity)
    );
    let inv = Invocation::new(nr, vec![9, 8, 7], Classification::ReadOnly).unwrap();
    assert_eq!((inv.nr(), inv.arity(), inv.arg(2)), (5, 3, 7));
    let inv = Invocation::syscall1_noreturn(nr, ArgReg::from_i32(0));
    assert_eq!(inv.class(), Classification::NoReturn);
    assert_eq!(Invocation::syscall0_readonly(nr).arity(), 0);
}

#[test]
fn operation_numbers_come_from_the_kernel_headers() {
    assert_eq!(Operation::Getpid.number().nr, g::__NR_getpid);
    assert_eq!(Operation::Gettid.number().nr, g::__NR_gettid);
    assert_eq!(Operation::Openat.number().nr, g::__NR_openat);
    assert_eq!(Operation::Close.number().nr, g::__NR_close);
    assert_eq!(Operation::Getdents64.number().nr, g::__NR_getdents64);
    assert_eq!(Operation::ExitGroup.number().nr, g::__NR_exit_group);
    assert_ne!(Operation::Getpid.number(), Operation::Openat.number());
}
