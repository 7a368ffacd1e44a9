//! What a log writes, as a set of flags.

use vstd::prelude::*;

verus! {

/// Errors are written.
pub const WRITE_ERROR: u8 = 0x01;

/// Warnings are written.
pub const WRITE_WARNING: u8 = 0x02;

/// Messages are written.
pub const WRITE_MESSAGE: u8 = 0x04;

/// What is written goes to the console too.
pub const WRITE_TO_CONSOLE: u8 = 0x08;

/// A set of flags, one bit each.
#[derive(Clone, Copy, Debug, PartialEq, Eq, Structural)]
pub struct LogFlags {
    pub bits: u8,
}

impl LogFlags {
    /// Whether every flag of `flags` is set.
    pub open spec fn has(self, flags: u8) -> bool {
        self.bits & flags == flags
    }

    /// The set that holds exactly the flags of `bits`.
    pub fn from_bits(bits: u8) -> (flags: LogFlags)
        ensures
            flags.bits == bits,
    {
        LogFlags { bits }
    }

    /// The set without a flag.
    pub fn empty() -> (flags: LogFlags)
        ensures
            flags.bits == 0,
    {
        LogFlags { bits: 0 }
    }

    /// The set of all four flags.
    pub fn all() -> (flags: LogFlags)
        ensures
            flags.bits == WRITE_ERROR | WRITE_WARNING | WRITE_MESSAGE | WRITE_TO_CONSOLE,
            flags.has(WRITE_ERROR),
            flags.has(WRITE_WARNING),
            flags.has(WRITE_MESSAGE),
            flags.has(WRITE_TO_CONSOLE),
    {
        let bits = WRITE_ERROR | WRITE_WARNING | WRITE_MESSAGE | WRITE_TO_CONSOLE;
        assert(bits == 0x0F && 0x0Fu8 & 0x01 == 0x01 && 0x0Fu8 & 0x02 == 0x02 && 0x0Fu8 & 0x04
            == 0x04 && 0x0Fu8 & 0x08 == 0x08) by (bit_vector)
            requires
                bits == 0x01u8 | 0x02u8 | 0x04u8 | 0x08u8,
        ;
        LogFlags { bits }
    }

    /// Whether every flag of `flags` is set.
    pub fn contains(&self, flags: u8) -> (found: bool)
        ensures
            found == self.has(flags),
    {
        self.bits & flags == flags
    }

    /// The set with the flags of `flags` added.
    pub fn insert(&mut self, flags: u8)
        ensures
            final(self).bits == old(self).bits | flags,
    {
        self.bits = self.bits | flags;
    }

    /// The set with the flags of `flags` taken away.
    pub fn remove(&mut self, flags: u8)
        ensures
            final(self).bits == old(self).bits & !flags,
    {
        self.bits = self.bits & !flags;
    }
}

/// A flag that was added is set and one that was taken away is not; the
/// other flags stay as they were.
pub proof fn lemma_flags_insert_remove(bits: u8, flag: u8, other: u8)
    requires
        flag == WRITE_ERROR || flag == WRITE_WARNING || flag == WRITE_MESSAGE || flag
            == WRITE_TO_CONSOLE,
        other == WRITE_ERROR || other == WRITE_WARNING || other == WRITE_MESSAGE || other
            == WRITE_TO_CONSOLE,
        other != flag,
    ensures
        (LogFlags { bits: bits | flag }).has(flag),
        !(LogFlags { bits: bits & !flag }).has(flag),
        (LogFlags { bits: bits | flag }).has(other) == (LogFlags { bits }).has(other),
        (LogFlags { bits: bits & !flag }).has(other) == (LogFlags { bits }).has(other),
{
    assert((bits | flag) & flag == flag) by (bit_vector);
    assert((bits & !flag) & flag != flag) by (bit_vector)
        requires
            flag == 1u8 || flag == 2u8 || flag == 4u8 || flag == 8u8,
    ;
    assert(((bits | flag) & other == other) == (bits & other == other)) by (bit_vector)
        requires
            flag == 1u8 || flag == 2u8 || flag == 4u8 || flag == 8u8,
            other == 1u8 || other == 2u8 || other == 4u8 || other == 8u8,
            other != flag,
    ;
    assert(((bits & !flag) & other == other) == (bits & other == other)) by (bit_vector)
        requires
            flag == 1u8 || flag == 2u8 || flag == 4u8 || flag == 8u8,
            other == 1u8 || other == 2u8 || other == 4u8 || other == 8u8,
            other != flag,
    ;
}

} // verus!
