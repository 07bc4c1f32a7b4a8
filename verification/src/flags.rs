use vstd::prelude::*;

verus! {

/// The 6502 processor status register.
///
/// ```text
///  7 6 5 4 3 2 1 0
///  N V _ B D I Z C
///  | |   | | | | +--- Carry Flag
///  | |   | | | +----- Zero Flag
///  | |   | | +------- Interrupt Disable
///  | |   | +--------- Decimal Mode (not used on NES)
///  | |   +----------- Break Command
///  | +--------------- Overflow Flag
///  +----------------- Negative Flag
/// ```
///
/// Each flag is named by a one-bit mask; every bit of the byte is a named
/// flag, so any byte is a valid register value.
pub struct CpuFlags {
    bits: u8,
}

/// `status` with the bits of `mask` set when `on` holds and cleared otherwise.
pub open spec fn with_flag(status: u8, mask: u8, on: bool) -> u8 {
    if on {
        status | mask
    } else {
        status & !mask
    }
}

/// Whether every bit of `mask` is set in `status`.
pub open spec fn has_flag(status: u8, mask: u8) -> bool {
    status & mask == mask
}

impl View for CpuFlags {
    type V = u8;

    closed spec fn view(&self) -> u8 {
        self.bits
    }
}

impl CpuFlags {
    pub const CARRY: u8 = 0b0000_0001;
    pub const ZERO: u8 = 0b0000_0010;
    pub const INTERRUPT_DISABLE: u8 = 0b0000_0100;
    pub const DECIMAL_MODE: u8 = 0b0000_1000;
    pub const BREAK: u8 = 0b0001_0000;
    pub const BREAK2: u8 = 0b0010_0000;
    pub const OVERFLOW: u8 = 0b0100_0000;
    pub const NEGATIVE: u8 = 0b1000_0000;

    /// The register holding `bits`; no bit is dropped since every bit is a flag.
    pub fn from_bits_truncate(bits: u8) -> (r: CpuFlags)
        ensures
            r@ == bits,
    {
        CpuFlags { bits }
    }

    /// The raw byte of the register.
    pub fn bits(&self) -> (r: u8)
        ensures
            r == self@,
    {
        self.bits
    }

    /// Whether all the flags of `mask` are set.
    pub fn contains(&self, mask: u8) -> (r: bool)
        ensures
            r == has_flag(self@, mask),
    {
        self.bits & mask == mask
    }

    /// Sets the flags of `mask`.
    pub fn insert(&mut self, mask: u8)
        ensures
            final(self)@ == old(self)@ | mask,
    {
        self.bits = self.bits | mask;
    }

    /// Clears the flags of `mask`.
    pub fn remove(&mut self, mask: u8)
        ensures
            final(self)@ == old(self)@ & !mask,
    {
        self.bits = self.bits & !mask;
    }

    /// Sets the flags of `mask` when `value` holds, clears them otherwise.
    pub fn set(&mut self, mask: u8, value: bool)
        ensures
            final(self)@ == with_flag(old(self)@, mask, value),
    {
        if value {
            self.insert(mask);
        } else {
            self.remove(mask);
        }
    }
}

/// After `insert`, the inserted flags are set; after `remove`, they are clear;
/// the flags outside the mask keep their value either way.
pub proof fn lemma_insert_remove(status: u8, mask: u8, other: u8)
    requires
        mask & other == 0,
    ensures
        has_flag(status | mask, mask),
        mask != 0 ==> !has_flag(status & !mask, mask),
        has_flag(status | mask, other) == has_flag(status, other),
        has_flag(status & !mask, other) == has_flag(status, other),
{
    assert(has_flag(status | mask, mask) && (mask != 0 ==> (status & !mask) & mask != mask) && (mask & other
        == 0 ==> (((status | mask) & other == other) == (status & other == other)) && (((status & !mask)
        & other == other) == (status & other == other)))) by (bit_vector);
}

/// `with_flag` sets the bits of `mask` when `on` holds and clears them
/// otherwise, keeping every other bit; `has_flag` tells whether all the bits
/// of `mask` are set.
pub proof fn lemma_with_flag(status: u8, mask: u8, on: bool)
    ensures
        with_flag(status, mask, on) & mask == (if on { mask } else { 0 }),
        with_flag(status, mask, on) & !mask == status & !mask,
        has_flag(status, mask) == (status & mask == mask),
{
    assert(with_flag(status, mask, on) & mask == (if on { mask } else { 0 }) && with_flag(status, mask, on)
        & !mask == status & !mask) by (bit_vector);
}

} // verus!
