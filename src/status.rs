//! The processor status register: eight one-bit flags packed into a byte.
use vstd::prelude::*;

verus! {

/// Carry, or the complement of a borrow after a subtraction.
pub const CARRY: u8 = 0x01;

/// The last result was zero.
pub const ZERO: u8 = 0x02;

/// Maskable interrupts are disabled.
pub const INTERRUPT_DISABLE: u8 = 0x04;

/// Decimal mode (recorded, never honoured by the arithmetic).
pub const DECIMAL: u8 = 0x08;

/// Marks a status byte pushed by software (PHP or BRK).
pub const BREAK: u8 = 0x10;

/// Unused bit, conventionally 1.
pub const UNUSED: u8 = 0x20;

/// Signed overflow.
pub const OVERFLOW: u8 = 0x40;

/// Negative: bit 7 of the last result.
pub const NEGATIVE: u8 = 0x80;

/// Status after reset: `UNUSED` and `INTERRUPT_DISABLE` set.
pub const INITIAL_STATUS: u8 = 0x24;

/// One of the eight single-bit flags.
pub open spec fn is_flag(flag: u8) -> bool {
    flag == CARRY || flag == ZERO || flag == INTERRUPT_DISABLE || flag == DECIMAL || flag
        == BREAK || flag == UNUSED || flag == OVERFLOW || flag == NEGATIVE
}

/// Every bit of `flag` is set in `bits`.
pub open spec fn has_flag(bits: u8, flag: u8) -> bool {
    bits & flag == flag
}

/// `bits` with the bits of `flag` set (`on`) or cleared.
pub open spec fn with_flag(bits: u8, flag: u8, on: bool) -> u8 {
    if on {
        bits | flag
    } else {
        bits & !flag
    }
}

/// `bits` with Z and N taken from the result byte `value`.
pub open spec fn with_nz(bits: u8, value: u8) -> u8 {
    with_flag(with_flag(bits, ZERO, value == 0), NEGATIVE, value & 0x80 != 0)
}

proof fn lemma_bits_of_flags(b: u8, f: u8, g: u8)
    by (bit_vector)
    requires
        f == 1 || f == 2 || f == 4 || f == 8 || f == 16 || f == 32 || f == 64 || f == 128,
        g == 1 || g == 2 || g == 4 || g == 8 || g == 16 || g == 32 || g == 64 || g == 128,
    ensures
        (b | f) & f == f,
        (b & !f) & f != f,
        f != g ==> ((b | f) & g == g) == (b & g == g),
        f != g ==> ((b & !f) & g == g) == (b & g == g),
{
}

/// Setting or clearing one flag decides that flag and leaves every other flag as it was.
pub proof fn lemma_with_flag(bits: u8, flag: u8, on: bool)
    requires
        is_flag(flag),
    ensures
        has_flag(with_flag(bits, flag, on), flag) == on,
        forall|other: u8|
            is_flag(other) && other != flag ==> #[trigger] has_flag(with_flag(bits, flag, on), other)
                == has_flag(bits, other),
{
    lemma_bits_of_flags(bits, flag, flag);
    assert forall|other: u8| is_flag(other) && other != flag implies #[trigger] has_flag(
        with_flag(bits, flag, on),
        other,
    ) == has_flag(bits, other) by {
        lemma_bits_of_flags(bits, flag, other);
    }
}

/// After `with_nz`, Z says whether the byte is zero and N gives its bit 7; other flags are kept.
pub proof fn lemma_with_nz(bits: u8, value: u8)
    ensures
        has_flag(with_nz(bits, value), ZERO) == (value == 0),
        has_flag(with_nz(bits, value), NEGATIVE) == (value & 0x80 != 0),
        forall|other: u8|
            is_flag(other) && other != ZERO && other != NEGATIVE ==> #[trigger] has_flag(
                with_nz(bits, value),
                other,
            ) == has_flag(bits, other),
{
    let z = with_flag(bits, ZERO, value == 0);
    lemma_with_flag(bits, ZERO, value == 0);
    lemma_with_flag(z, NEGATIVE, value & 0x80 != 0);
}

/// The status register.
#[derive(Clone, Copy, Debug, PartialEq, Eq)]
pub struct StatusFlags {
    pub bits: u8,
}

impl StatusFlags {
    /// The register holding exactly `bits`.
    pub fn from_bits(bits: u8) -> (r: StatusFlags)
        ensures
            r.bits == bits,
    {
        StatusFlags { bits }
    }

    /// The packed byte.
    pub fn bits(&self) -> (r: u8)
        ensures
            r == self.bits,
    {
        self.bits
    }

    /// Whether every bit of `flag` is set.
    pub fn contains(&self, flag: u8) -> (r: bool)
        ensures
            r == has_flag(self.bits, flag),
    {
        self.bits & flag == flag
    }

    /// Sets the bits of `flag`.
    pub fn insert(&mut self, flag: u8)
        ensures
            final(self).bits == with_flag(old(self).bits, flag, true),
    {
        self.bits = self.bits | flag;
    }

    /// Clears the bits of `flag`.
    pub fn remove(&mut self, flag: u8)
        ensures
            final(self).bits == with_flag(old(self).bits, flag, false),
    {
        self.bits = self.bits & !flag;
    }

    /// Sets the bits of `flag` when `on`, clears them otherwise.
    pub fn set(&mut self, flag: u8, on: bool)
        ensures
            final(self).bits == with_flag(old(self).bits, flag, on),
    {
        if on {
            self.insert(flag);
        } else {
            self.remove(flag);
        }
    }
}

} // verus!
