//! The bit widths a session can be played with.

use vstd::arithmetic::power2::{lemma2_to64, pow2};
use vstd::prelude::*;

verus! {

/// Nanoseconds in one second; every duration in this library is a whole
/// number of nanoseconds.
pub const NANOS_PER_SECOND: u64 = 1_000_000_000;

/// The number of bits of the number to guess. It fixes the range of the
/// candidates, how many of them are shown and how long a round lasts.
#[derive(Clone, Copy, Debug, PartialEq, Eq, Structural)]
pub enum Bits {
    Four,
    Eight,
    Twelve,
    Sixteen,
}

impl Bits {
    /// The width as a number.
    pub open spec fn width(self) -> nat {
        match self {
            Bits::Four => 4,
            Bits::Eight => 8,
            Bits::Twelve => 12,
            Bits::Sixteen => 16,
        }
    }

    /// The largest number that fits in the width: `2^width - 1`.
    pub open spec fn max_value(self) -> nat {
        (pow2(self.width()) - 1) as nat
    }

    /// How many candidates a round shows.
    pub open spec fn candidates(self) -> nat {
        match self {
            Bits::Four => 3,
            Bits::Eight => 4,
            Bits::Twelve => 5,
            Bits::Sixteen => 6,
        }
    }

    /// The time a round lasts before any streak penalty, in nanoseconds.
    pub open spec fn base_nanos(self) -> nat {
        match self {
            Bits::Four => 8_000_000_000,
            Bits::Eight => 12_000_000_000,
            Bits::Twelve => 16_000_000_000,
            Bits::Sixteen => 20_000_000_000,
        }
    }

    /// The largest value is 15, 255, 4095 or 65535, and there are always
    /// at least as many values in range as candidates to show.
    pub proof fn lemma_range(self)
        ensures
            self.max_value() == match self {
                Bits::Four => 15nat,
                Bits::Eight => 255nat,
                Bits::Twelve => 4095nat,
                Bits::Sixteen => 65535nat,
            },
            self.candidates() <= self.max_value() + 1,
            3 <= self.candidates() <= 6,
    {
        lemma2_to64();
    }

    /// The width that has `width` bits, if there is one: 4, 8, 12 and 16
    /// are the widths a session can be played with.
    pub fn from_width(width: u32) -> (bits: Option<Bits>)
        ensures
            match bits {
                Some(b) => b.width() == width,
                None => width != 4 && width != 8 && width != 12 && width != 16,
            },
    {
        if width == 4 {
            Some(Bits::Four)
        } else if width == 8 {
            Some(Bits::Eight)
        } else if width == 12 {
            Some(Bits::Twelve)
        } else if width == 16 {
            Some(Bits::Sixteen)
        } else {
            None
        }
    }

    /// The width as a number: 4, 8, 12 or 16.
    pub fn to_int(&self) -> (w: u32)
        ensures
            w == self.width(),
    {
        match self {
            Bits::Four => 4,
            Bits::Eight => 8,
            Bits::Twelve => 12,
            Bits::Sixteen => 16,
        }
    }

    /// The largest number that fits in the width: `2^width - 1`.
    pub fn upper_bound(&self) -> (bound: u32)
        ensures
            bound == self.max_value(),
    {
        proof {
            self.lemma_range();
        }
        match self {
            Bits::Four => 15,
            Bits::Eight => 255,
            Bits::Twelve => 4095,
            Bits::Sixteen => 65535,
        }
    }

    /// How many candidates a round shows: three for four bits, and one
    /// more for each wider width.
    pub fn suggestion_count(&self) -> (count: usize)
        ensures
            count == self.candidates(),
    {
        match self {
            Bits::Four => 3,
            Bits::Eight => 4,
            Bits::Twelve => 5,
            Bits::Sixteen => 6,
        }
    }

    /// The time a round lasts before any streak penalty, in nanoseconds:
    /// 8, 12, 16 or 20 seconds.
    pub fn base_time(&self) -> (nanos: u64)
        ensures
            nanos == self.base_nanos(),
    {
        match self {
            Bits::Four => 8 * NANOS_PER_SECOND,
            Bits::Eight => 12 * NANOS_PER_SECOND,
            Bits::Twelve => 16 * NANOS_PER_SECOND,
            Bits::Sixteen => 20 * NANOS_PER_SECOND,
        }
    }
}

} // verus!
