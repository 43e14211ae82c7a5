//! Register marshaling: logical values to machine words and back.
use vstd::prelude::*;

verus! {

/// The number of distinct values of a machine word.
pub open spec fn word_modulus() -> int {
    usize::MAX as int + 1
}

/// The machine word that holds the integer `i` in two's complement.
pub open spec fn word_of(i: int) -> int {
    if i < 0 {
        i + word_modulus()
    } else {
        i
    }
}

/// The signed reading of the machine word `w`.
pub open spec fn signed_of(w: int) -> int {
    if w > isize::MAX {
        w - word_modulus()
    } else {
        w
    }
}

/// One argument, bound to the positional slot `SLOT` (0 to 6).
pub struct ArgReg<const SLOT: usize> {
    raw: usize,
}

impl<const SLOT: usize> ArgReg<SLOT> {
    pub closed spec fn word(self) -> int {
        self.raw as int
    }

    /// The word of an unsigned machine-width value (a length, an address).
    pub fn from_usize(v: usize) -> (r: Self)
        ensures
            r.word() == v as int,
    {
        ArgReg { raw: v }
    }

    /// The word of a 32-bit unsigned value (a bitmask of flags, a mode).
    pub fn from_u32(v: u32) -> (r: Self)
        ensures
            r.word() == v as int,
    {
        ArgReg { raw: v as usize }
    }

    /// The word of a signed machine-width value.
    pub fn from_isize(v: isize) -> (r: Self)
        ensures
            r.word() == word_of(v as int),
    {
        if v >= 0 {
            ArgReg { raw: v as usize }
        } else {
            ArgReg { raw: usize::MAX - ((-(v + 1)) as usize) }
        }
    }

    /// The word of a 32-bit signed value (a descriptor number, a C `int`).
    pub fn from_i32(v: i32) -> (r: Self)
        ensures
            r.word() == word_of(v as int),
    {
        if v >= 0 {
            ArgReg { raw: v as usize }
        } else {
            ArgReg { raw: usize::MAX - ((-(v + 1)) as usize) }
        }
    }

    pub fn raw(&self) -> (r: usize)
        ensures
            r as int == self.word(),
    {
        self.raw
    }
}

/// The largest error identifier that the kernel reports through the result word.
pub const MAX_ERRNO: u16 = 4095;

/// Whether the result word `w` lies in the error band: its signed reading is
/// in `[-MAX_ERRNO, -1]`.
pub open spec fn in_error_band(w: int) -> bool {
    -(MAX_ERRNO as int) <= signed_of(w) <= -1
}

/// An error identifier reported by the kernel, in `1..=MAX_ERRNO`.
#[derive(Clone, Copy, Debug, PartialEq, Eq, Structural)]
pub struct Errno {
    pub code: u16,
}

/// What the result word `w` reports under the raw-call convention.
pub open spec fn decode_spec(w: int) -> Result<usize, Errno> {
    if in_error_band(w) {
        Err(Errno { code: (-signed_of(w)) as u16 })
    } else {
        Ok(w as usize)
    }
}

/// The payload word `w` read as a 32-bit signed value, where it is one.
pub open spec fn i32_of_word(w: int) -> Option<i32> {
    if i32::MIN <= signed_of(w) <= i32::MAX {
        Some(signed_of(w) as i32)
    } else {
        None
    }
}

/// The single raw word that the kernel left in the result register.
pub struct RetReg {
    raw: usize,
}

impl RetReg {
    pub closed spec fn word(self) -> int {
        self.raw as int
    }

    /// Tags the word read from the result register.
    pub fn from_word(w: usize) -> (r: Self)
        ensures
            r.word() == w as int,
    {
        RetReg { raw: w }
    }

    /// The word as it was read, with no interpretation.
    pub fn raw(&self) -> (r: usize)
        ensures
            r as int == self.word(),
    {
        self.raw
    }

    /// The word read as a signed machine-width value.
    pub fn raw_signed(&self) -> (r: isize)
        ensures
            r as int == signed_of(self.word()),
    {
        if self.raw <= isize::MAX as usize {
            self.raw as isize
        } else {
            let d: usize = usize::MAX - self.raw;
            -(d as isize) - 1
        }
    }

    /// Whether the word reports an error.
    pub fn is_error(&self) -> (r: bool)
        ensures
            r == in_error_band(self.word()),
    {
        self.raw > usize::MAX - MAX_ERRNO as usize
    }

    /// Splits the word into a successful payload or an error identifier.
    pub fn decode(self) -> (r: Result<usize, Errno>)
        ensures
            r == decode_spec(self.word()),
            r is Err ==> 1 <= r->Err_0.code <= MAX_ERRNO,
    {
        if self.is_error() {
            Err(Errno { code: (usize::MAX - self.raw + 1) as u16 })
        } else {
            Ok(self.raw)
        }
    }

    /// The word read as a 32-bit signed value (a descriptor number), where
    /// its signed reading fits one.
    pub fn to_i32(&self) -> (r: Option<i32>)
        ensures
            r == i32_of_word(self.word()),
    {
        let s: isize = self.raw_signed();
        if i32::MIN as isize <= s && s <= i32::MAX as isize {
            Some(s as i32)
        } else {
            None
        }
    }
}

/// A signed machine-width value survives being written into a word and read
/// back as a signed word: `signed_of(word_of(v)) == v`.
pub proof fn lemma_round_trip_isize(v: isize)
    ensures
        0 <= word_of(v as int) < word_modulus(),
        signed_of(word_of(v as int)) == v as int,
{
}

/// A 32-bit signed value (a descriptor number) survives being written into a
/// word and read back as a 32-bit value.
pub proof fn lemma_round_trip_i32(v: i32)
    ensures
        0 <= word_of(v as int) < word_modulus(),
        i32_of_word(word_of(v as int)) == Some(v),
{
}

/// An unsigned machine-width value (a length, an address) comes back as the
/// payload of the decoded result word, unless its word lies in the error band.
pub proof fn lemma_round_trip_usize(v: usize)
    requires
        !in_error_band(v as int),
    ensures
        decode_spec(v as int) == Ok::<usize, Errno>(v),
{
}

/// The error band: a word whose signed reading lies in `[-MAX_ERRNO, -1]`
/// decodes to an error whose identifier is the magnitude of that reading; any
/// other word decodes to a success whose payload is the word itself.
pub proof fn lemma_error_band(w: usize)
    ensures
        (-4095 <= signed_of(w as int) <= -1) ==> decode_spec(w as int) == Err::<usize, Errno>(
            Errno { code: (-signed_of(w as int)) as u16 },
        ),
        (-4095 <= signed_of(w as int) <= -1) ==> 1 <= -signed_of(w as int) <= 4095,
        !(-4095 <= signed_of(w as int) <= -1) ==> decode_spec(w as int) == Ok::<usize, Errno>(w),
{
}

} // verus!
