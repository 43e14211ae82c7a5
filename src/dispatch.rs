//! Dispatch: an operation number, its marshaled arguments and its
//! classification, gathered into one invocation, and the placement of each
//! word in the registers or stack slots of an architecture.
use vstd::prelude::*;
use crate::arch::{arg_location_spec, max_arity_spec, number_register_spec, Arch, Location};
use crate::reg::ArgReg;

verus! {

/// The compiler-visible contract of a call.
#[derive(Clone, Copy, Debug, PartialEq, Eq, Structural)]
pub enum Classification {
    /// May have observable effects; orders all memory accesses around it.
    Plain,
    /// Asserted to be a pure query; may be reordered, merged or dropped.
    ReadOnly,
    /// Never returns control to the caller.
    NoReturn,
}

/// The number of an operation, in the caller's architecture.
#[derive(Clone, Copy, Debug, PartialEq, Eq, Structural)]
pub struct SyscallNumber {
    pub nr: u32,
}

impl SyscallNumber {
    pub fn new(nr: u32) -> (r: Self)
        ensures
            r.nr == nr,
    {
        SyscallNumber { nr }
    }
}

/// Why a call shape is refused.
#[derive(Clone, Copy, Debug, PartialEq, Eq, Structural)]
pub enum ShapeError {
    /// More arguments than any call carries.
    TooManyArgs,
    /// A call that never returns takes exactly one argument.
    NoReturnArity,
}

/// The largest arity of any call shape.
pub const MAX_ARGS: usize = 7;

/// The error of a call shape of `arity` arguments under `class`, if any.
pub open spec fn shape_error_spec(arity: nat, class: Classification) -> Option<ShapeError> {
    match class {
        Classification::NoReturn => if arity == 1 {
            None
        } else {
            Some(ShapeError::NoReturnArity)
        },
        _ => if arity <= MAX_ARGS {
            None
        } else {
            Some(ShapeError::TooManyArgs)
        },
    }
}

/// One word placed at one location.
#[derive(Clone, Copy, Debug, PartialEq, Eq, Structural)]
pub struct Placement {
    pub loc: Location,
    pub word: usize,
}

/// What the placements of a call with number `nr` and argument words `args`
/// are on `arch`: the number in its register, then each argument at its place.
pub open spec fn placements_spec(arch: Arch, nr: u32, args: Seq<usize>) -> Seq<Placement> {
    seq![Placement { loc: Location::Register(number_register_spec(arch)), word: nr as usize }]
        + Seq::new(args.len(), |i: int| Placement { loc: arg_location_spec(arch, i as nat), word: args[i] })
}

/// One call: an operation number, its argument words in slot order, and its
/// classification.
pub struct Invocation {
    nr: u32,
    args: [usize; 7],
    len: usize,
    class: Classification,
}

impl Invocation {
    /// The argument count never exceeds the slots that hold the words.
    #[verifier::type_invariant]
    closed spec fn inv(&self) -> bool {
        self.len <= MAX_ARGS
    }

    pub closed spec fn number(&self) -> u32 {
        self.nr
    }

    pub closed spec fn words(&self) -> Seq<usize> {
        self.args@.take(self.len as int)
    }

    pub closed spec fn classification(&self) -> Classification {
        self.class
    }

    /// Whether the shape is one that some backend provides.
    pub open spec fn wf(&self) -> bool {
        shape_error_spec(self.words().len(), self.classification()) is None
    }

    pub fn nr(&self) -> (r: u32)
        ensures
            r == self.number(),
    {
        self.nr
    }

    pub fn class(&self) -> (r: Classification)
        ensures
            r == self.classification(),
    {
        self.class
    }

    pub fn arity(&self) -> (r: usize)
        ensures
            r == self.words().len(),
    {
        proof {
            use_type_invariant(self);
        }
        self.len
    }

    /// The word of argument `i`.
    pub fn arg(&self, i: usize) -> (r: usize)
        requires
            i < self.words().len(),
        ensures
            r == self.words()[i as int],
    {
        proof {
            use_type_invariant(self);
        }
        self.args[i]
    }

    /// Gathers a call of any arity, refusing shapes that no backend provides.
    pub fn new(nr: SyscallNumber, args: Vec<usize>, class: Classification) -> (r: Result<
        Invocation,
        ShapeError,
    >)
        ensures
            shape_error_spec(args@.len(), class) is Some ==> r == Err::<Invocation, ShapeError>(
                shape_error_spec(args@.len(), class)->Some_0,
            ),
            shape_error_spec(args@.len(), class) is None ==> r is Ok,
            r matches Ok(inv) ==> inv.number() == nr.nr && inv.words() == args@
                && inv.classification() == class && inv.wf(),
    {
        match class {
            Classification::NoReturn => if args.len() != 1 {
                return Err(ShapeError::NoReturnArity);
            },
            _ => if args.len() > MAX_ARGS {
                return Err(ShapeError::TooManyArgs);
            },
        }
        let mut words: [usize; 7] = [0; 7];
        let mut i: usize = 0;
        while i < args.len()
            invariant
                args@.len() <= MAX_ARGS,
                i <= args@.len(),
                words@.len() == 7,
                words@.take(i as int) == args@.take(i as int),
            decreases args@.len() - i,
        {
            words[i] = args[i];
            proof {
                assert(words@.take(i + 1) =~= args@.take(i + 1));
            }
            i = i + 1;
        }
        proof {
            assert(args@.take(i as int) =~= args@);
        }
        Ok(Invocation { nr: nr.nr, args: words, len: args.len(), class })
    }

    /// The placement of every word of the call on `arch`, or `None` where
    /// the architecture carries fewer arguments than the call has.
    pub fn placements(&self, arch: Arch) -> (r: Option<Vec<Placement>>)
        ensures
            r is Some <==> self.words().len() <= max_arity_spec(arch),
            r matches Some(p) ==> p@ == placements_spec(arch, self.number(), self.words()),
    {
        proof {
            use_type_invariant(self);
        }
        if self.len > arch.max_arity() {
            return None;
        }
        let mut out: Vec<Placement> = Vec::new();
        out.push(Placement { loc: Location::Register(arch.number_register()), word: self.nr as usize });
        let mut i: usize = 0;
        while i < self.len
            invariant
                i <= self.words().len() <= max_arity_spec(arch),
                self.words().len() == self.len,
                self.len <= 7,
                out@ == placements_spec(arch, self.nr, self.words().take(i as int)),
            decreases self.words().len() - i,
        {
            let loc = match arch.arg_location(i) {
                Some(l) => l,
                None => return None,
            };
            out.push(Placement { loc, word: self.args[i] });
            proof {
                assert(self.words().take(i + 1) =~= self.words().take(i as int).push(self.words()[i as int]));
                assert(placements_spec(arch, self.nr, self.words().take(i + 1)) =~= placements_spec(
                    arch,
                    self.nr,
                    self.words().take(i as int),
                ).push(Placement { loc, word: self.words()[i as int] }));
            }
            i = i + 1;
        }
        proof {
            assert(self.words().take(i as int) =~= self.words());
        }
        Some(out)
    }

    /// A call of 0 arguments that may have observable effects.
    pub fn syscall0(nr: SyscallNumber) -> (r: Invocation)
        ensures
            r.number() == nr.nr,
            r.words() == Seq::<usize>::empty(),
            r.classification() == Classification::Plain,
            r.wf(),
    {
        let args: [usize; 7] = [0, 0, 0, 0, 0, 0, 0];
        proof {
            assert(args@.take(0) =~= Seq::<usize>::empty());
        }
        Invocation { nr: nr.nr, args, len: 0, class: Classification::Plain }
    }

    /// A pure query of 0 arguments.
    pub fn syscall0_readonly(nr: SyscallNumber) -> (r: Invocation)
        ensures
            r.number() == nr.nr,
            r.words() == Seq::<usize>::empty(),
            r.classification() == Classification::ReadOnly,
            r.wf(),
    {
        let args: [usize; 7] = [0, 0, 0, 0, 0, 0, 0];
        proof {
            assert(args@.take(0) =~= Seq::<usize>::empty());
        }
        Invocation { nr: nr.nr, args, len: 0, class: Classification::ReadOnly }
    }

    /// A call of 1 argument that may have observable effects.
    pub fn syscall1(nr: SyscallNumber, a0: ArgReg<0>) -> (r: Invocation)
        ensures
            r.number() == nr.nr,
            r.words() == seq![a0.word() as usize],
            r.classification() == Classification::Plain,
            r.wf(),
    {
        let args: [usize; 7] = [a0.raw(), 0, 0, 0, 0, 0, 0];
        proof {
            assert(args@.take(1) =~= seq![a0.word() as usize]);
        }
        Invocation { nr: nr.nr, args, len: 1, class: Classification::Plain }
    }

    /// A pure query of 1 argument.
    pub fn syscall1_readonly(nr: SyscallNumber, a0: ArgReg<0>) -> (r: Invocation)
        ensures
            r.number() == nr.nr,
            r.words() == seq![a0.word() as usize],
            r.classification() == Classification::ReadOnly,
            r.wf(),
    {
        let args: [usize; 7] = [a0.raw(), 0, 0, 0, 0, 0, 0];
        proof {
            assert(args@.take(1) =~= seq![a0.word() as usize]);
        }
        Invocation { nr: nr.nr, args, len: 1, class: Classification::ReadOnly }
    }

    /// A call of 1 argument that never returns.
    pub fn syscall1_noreturn(nr: SyscallNumber, a0: ArgReg<0>) -> (r: Invocation)
        ensures
            r.number() == nr.nr,
            r.words() == seq![a0.word() as usize],
            r.classification() == Classification::NoReturn,
            r.wf(),
    {
        let args: [usize; 7] = [a0.raw(), 0, 0, 0, 0, 0, 0];
        proof {
            assert(args@.take(1) =~= seq![a0.word() as usize]);
        }
        Invocation { nr: nr.nr, args, len: 1, class: Classification::NoReturn }
    }

    /// A call of 2 arguments that may have observable effects.
    pub fn syscall2(nr: SyscallNumber, a0: ArgReg<0>, a1: ArgReg<1>) -> (r: Invocation)
        ensures
            r.number() == nr.nr,
            r.words() == seq![a0.word() as usize, a1.word() as usize],
            r.classification() == Classification::Plain,
            r.wf(),
    {
        let args: [usize; 7] = [a0.raw(), a1.raw(), 0, 0, 0, 0, 0];
        proof {
            assert(args@.take(2) =~= seq![a0.word() as usize, a1.word() as usize]);
        }
        Invocation { nr: nr.nr, args, len: 2, class: Classification::Plain }
    }

    /// A pure query of 2 arguments.
    pub fn syscall2_readonly(nr: SyscallNumber, a0: ArgReg<0>, a1: ArgReg<1>) -> (r: Invocation)
        ensures
            r.number() == nr.nr,
            r.words() == seq![a0.word() as usize, a1.word() as usize],
            r.classification() == Classification::ReadOnly,
            r.wf(),
    {
        let args: [usize; 7] = [a0.raw(), a1.raw(), 0, 0, 0, 0, 0];
        proof {
            assert(args@.take(2) =~= seq![a0.word() as usize, a1.word() as usize]);
        }
        Invocation { nr: nr.nr, args, len: 2, class: Classification::ReadOnly }
    }

    /// A call of 3 arguments that may have observable effects.
    pub fn syscall3(nr: SyscallNumber, a0: ArgReg<0>, a1: ArgReg<1>, a2: ArgReg<2>) -> (r: Invocation)
        ensures
            r.number() == nr.nr,
            r.words() == seq![a0.word() as usize, a1.word() as usize, a2.word() as usize],
            r.classification() == Classification::Plain,
            r.wf(),
    {
        let args: [usize; 7] = [a0.raw(), a1.raw(), a2.raw(), 0, 0, 0, 0];
        proof {
            assert(args@.take(3) =~= seq![a0.word() as usize, a1.word() as usize, a2.word() as usize]);
        }
        Invocation { nr: nr.nr, args, len: 3, class: Classification::Plain }
    }

    /// A pure query of 3 arguments.
    pub fn syscall3_readonly(nr: SyscallNumber, a0: ArgReg<0>, a1: ArgReg<1>, a2: ArgReg<2>) -> (r: Invocation)
        ensures
            r.number() == nr.nr,
            r.words() == seq![a0.word() as usize, a1.word() as usize, a2.word() as usize],
            r.classification() == Classification::ReadOnly,
            r.wf(),
    {
        let args: [usize; 7] = [a0.raw(), a1.raw(), a2.raw(), 0, 0, 0, 0];
        proof {
            assert(args@.take(3) =~= seq![a0.word() as usize, a1.word() as usize, a2.word() as usize]);
        }
        Invocation { nr: nr.nr, args, len: 3, class: Classification::ReadOnly }
    }

    /// A call of 4 arguments that may have observable effects.
    pub fn syscall4(nr: SyscallNumber, a0: ArgReg<0>, a1: ArgReg<1>, a2: ArgReg<2>, a3: ArgReg<3>) -> (r: Invocation)
        ensures
            r.number() == nr.nr,
            r.words() == seq![a0.word() as usize, a1.word() as usize, a2.word() as usize, a3.word() as usize],
            r.classification() == Classification::Plain,
            r.wf(),
    {
        let args: [usize; 7] = [a0.raw(), a1.raw(), a2.raw(), a3.raw(), 0, 0, 0];
        proof {
            assert(args@.take(4) =~= seq![a0.word() as usize, a1.word() as usize, a2.word() as usize, a3.word() as usize]);
        }
        Invocation { nr: nr.nr, args, len: 4, class: Classification::Plain }
    }

    /// A pure query of 4 arguments.
    pub fn syscall4_readonly(nr: SyscallNumber, a0: ArgReg<0>, a1: ArgReg<1>, a2: ArgReg<2>, a3: ArgReg<3>) -> (r: Invocation)
        ensures
            r.number() == nr.nr,
            r.words() == seq![a0.word() as usize, a1.word() as usize, a2.word() as usize, a3.word() as usize],
            r.classification() == Classification::ReadOnly,
            r.wf(),
    {
        let args: [usize; 7] = [a0.raw(), a1.raw(), a2.raw(), a3.raw(), 0, 0, 0];
        proof {
            assert(args@.take(4) =~= seq![a0.word() as usize, a1.word() as usize, a2.word() as usize, a3.word() as usize]);
        }
        Invocation { nr: nr.nr, args, len: 4, class: Classification::ReadOnly }
    }

    /// A call of 5 arguments that may have observable effects.
    pub fn syscall5(nr: SyscallNumber, a0: ArgReg<0>, a1: ArgReg<1>, a2: ArgReg<2>, a3: ArgReg<3>, a4: ArgReg<4>) -> (r: Invocation)
        ensures
            r.number() == nr.nr,
            r.words() == seq![a0.word() as usize, a1.word() as usize, a2.word() as usize, a3.word() as usize, a4.word() as usize],
            r.classification() == Classification::Plain,
            r.wf(),
    {
        let args: [usize; 7] = [a0.raw(), a1.raw(), a2.raw(), a3.raw(), a4.raw(), 0, 0];
        proof {
            assert(args@.take(5) =~= seq![a0.word() as usize, a1.word() as usize, a2.word() as usize, a3.word() as usize, a4.word() as usize]);
        }
        Invocation { nr: nr.nr, args, len: 5, class: Classification::Plain }
    }

    /// A pure query of 5 arguments.
    pub fn syscall5_readonly(nr: SyscallNumber, a0: ArgReg<0>, a1: ArgReg<1>, a2: ArgReg<2>, a3: ArgReg<3>, a4: ArgReg<4>) -> (r: Invocation)
        ensures
            r.number() == nr.nr,
            r.words() == seq![a0.word() as usize, a1.word() as usize, a2.word() as usize, a3.word() as usize, a4.word() as usize],
            r.classification() == Classification::ReadOnly,
            r.wf(),
    {
        let args: [usize; 7] = [a0.raw(), a1.raw(), a2.raw(), a3.raw(), a4.raw(), 0, 0];
        proof {
            assert(args@.take(5) =~= seq![a0.word() as usize, a1.word() as usize, a2.word() as usize, a3.word() as usize, a4.word() as usize]);
        }
        Invocation { nr: nr.nr, args, len: 5, class: Classification::ReadOnly }
    }

    /// A call of 6 arguments that may have observable effects.
    pub fn syscall6(nr: SyscallNumber, a0: ArgReg<0>, a1: ArgReg<1>, a2: ArgReg<2>, a3: ArgReg<3>, a4: ArgReg<4>, a5: ArgReg<5>) -> (r: Invocation)
        ensures
            r.number() == nr.nr,
            r.words() == seq![a0.word() as usize, a1.word() as usize, a2.word() as usize, a3.word() as usize, a4.word() as usize, a5.word() as usize],
            r.classification() == Classification::Plain,
            r.wf(),
    {
        let args: [usize; 7] = [a0.raw(), a1.raw(), a2.raw(), a3.raw(), a4.raw(), a5.raw(), 0];
        proof {
            assert(args@.take(6) =~= seq![a0.word() as usize, a1.word() as usize, a2.word() as usize, a3.word() as usize, a4.word() as usize, a5.word() as usize]);
        }
        Invocation { nr: nr.nr, args, len: 6, class: Classification::Plain }
    }

    /// A pure query of 6 arguments.
    pub fn syscall6_readonly(nr: SyscallNumber, a0: ArgReg<0>, a1: ArgReg<1>, a2: ArgReg<2>, a3: ArgReg<3>, a4: ArgReg<4>, a5: ArgReg<5>) -> (r: Invocation)
        ensures
            r.number() == nr.nr,
            r.words() == seq![a0.word() as usize, a1.word() as usize, a2.word() as usize, a3.word() as usize, a4.word() as usize, a5.word() as usize],
            r.classification() == Classification::ReadOnly,
            r.wf(),
    {
        let args: [usize; 7] = [a0.raw(), a1.raw(), a2.raw(), a3.raw(), a4.raw(), a5.raw(), 0];
        proof {
            assert(args@.take(6) =~= seq![a0.word() as usize, a1.word() as usize, a2.word() as usize, a3.word() as usize, a4.word() as usize, a5.word() as usize]);
        }
        Invocation { nr: nr.nr, args, len: 6, class: Classification::ReadOnly }
    }

    /// A call of 7 arguments that may have observable effects.
    pub fn syscall7(nr: SyscallNumber, a0: ArgReg<0>, a1: ArgReg<1>, a2: ArgReg<2>, a3: ArgReg<3>, a4: ArgReg<4>, a5: ArgReg<5>, a6: ArgReg<6>) -> (r: Invocation)
        ensures
            r.number() == nr.nr,
            r.words() == seq![a0.word() as usize, a1.word() as usize, a2.word() as usize, a3.word() as usize, a4.word() as usize, a5.word() as usize, a6.word() as usize],
            r.classification() == Classification::Plain,
            r.wf(),
    {
        let args: [usize; 7] = [a0.raw(), a1.raw(), a2.raw(), a3.raw(), a4.raw(), a5.raw(), a6.raw()];
        proof {
            assert(args@.take(7) =~= seq![a0.word() as usize, a1.word() as usize, a2.word() as usize, a3.word() as usize, a4.word() as usize, a5.word() as usize, a6.word() as usize]);
        }
        Invocation { nr: nr.nr, args, len: 7, class: Classification::Plain }
    }

    /// A pure query of 7 arguments.
    pub fn syscall7_readonly(nr: SyscallNumber, a0: ArgReg<0>, a1: ArgReg<1>, a2: ArgReg<2>, a3: ArgReg<3>, a4: ArgReg<4>, a5: ArgReg<5>, a6: ArgReg<6>) -> (r: Invocation)
        ensures
            r.number() == nr.nr,
            r.words() == seq![a0.word() as usize, a1.word() as usize, a2.word() as usize, a3.word() as usize, a4.word() as usize, a5.word() as usize, a6.word() as usize],
            r.classification() == Classification::ReadOnly,
            r.wf(),
    {
        let args: [usize; 7] = [a0.raw(), a1.raw(), a2.raw(), a3.raw(), a4.raw(), a5.raw(), a6.raw()];
        proof {
            assert(args@.take(7) =~= seq![a0.word() as usize, a1.word() as usize, a2.word() as usize, a3.word() as usize, a4.word() as usize, a5.word() as usize, a6.word() as usize]);
        }
        Invocation { nr: nr.nr, args, len: 7, class: Classification::ReadOnly }
    }
}

/// No two words of a call share a location: the operation number and every
/// argument of a call that the architecture carries each have a register or
/// stack slot of their own.
pub proof fn lemma_placements_disjoint(arch: Arch, nr: u32, args: Seq<usize>, i: int, j: int)
    requires
        args.len() <= max_arity_spec(arch),
        0 <= i < j <= args.len(),
    ensures
        placements_spec(arch, nr, args)[i].loc != placements_spec(arch, nr, args)[j].loc,
{
    let p = placements_spec(arch, nr, args);
    assert(p[j].loc == arg_location_spec(arch, (j - 1) as nat));
    if i > 0 {
        assert(p[i].loc == arg_location_spec(arch, (i - 1) as nat));
    }
    match arch {
        Arch::X86 => {
            assert(seq![3u8, 1, 2, 6, 7, 5].len() == 6);
        },
        Arch::X86_64 => {
            assert(seq![7u8, 6, 2, 10, 8, 9].len() == 6);
        },
        _ => {},
    }
}

} // verus!
