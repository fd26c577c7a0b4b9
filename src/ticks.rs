//! Raw counter timestamps and the intervals between them.

use vstd::prelude::*;

verus! {

/// Width of the free-running hardware counter that stamps each tooth edge.
#[derive(Clone, Copy, Debug, PartialEq, Eq, Structural)]
pub enum CounterWidth {
    Bits16,
    Bits32,
}

impl CounterWidth {
    /// Number of distinct counter values: the counter wraps modulo this.
    pub open spec fn modulus(self) -> nat {
        match self {
            CounterWidth::Bits16 => 0x1_0000,
            CounterWidth::Bits32 => 0x1_0000_0000,
        }
    }

    pub open spec fn spec_bits(self) -> u8 {
        match self {
            CounterWidth::Bits16 => 16,
            CounterWidth::Bits32 => 32,
        }
    }

    /// The width for a counter of `bits` bits; only 16 and 32 are supported.
    pub fn from_bits(bits: u8) -> (r: Option<CounterWidth>)
        ensures
            r is Some <==> (bits == 16 || bits == 32),
            r matches Some(w) ==> w.spec_bits() == bits,
    {
        if bits == 16 {
            Some(CounterWidth::Bits16)
        } else if bits == 32 {
            Some(CounterWidth::Bits32)
        } else {
            None
        }
    }

    /// Number of bits of the counter.
    pub fn bits(&self) -> (r: u8)
        ensures
            r == self.spec_bits(),
    {
        match self {
            CounterWidth::Bits16 => 16,
            CounterWidth::Bits32 => 32,
        }
    }
}

/// Ticks elapsed from `earlier` to `later` on a counter that wraps modulo
/// the width's modulus.
pub open spec fn spec_interval(width: CounterWidth, earlier: int, later: int) -> int {
    (later - earlier) % (width.modulus() as int)
}

/// Interval in ticks from `earlier` to `later`, by modular subtraction, so
/// that a wraparound of the counter between the two stamps still gives the
/// small positive interval.
pub fn tick_interval(width: CounterWidth, earlier: u32, later: u32) -> (r: u32)
    ensures
        r as int == spec_interval(width, earlier as int, later as int),
        (r as nat) < width.modulus(),
{
    let diff = later.wrapping_sub(earlier);
    assert(diff as int == (later as int - earlier as int) % 0x1_0000_0000);
    match width {
        CounterWidth::Bits16 => {
            proof {
                vstd::arithmetic::div_mod::lemma_mod_mod(
                    later as int - earlier as int,
                    0x1_0000,
                    0x1_0000,
                );
            }
            diff % 0x1_0000
        },
        CounterWidth::Bits32 => diff,
    }
}

/// A counter stamp taken `elapsed` ticks after `start` reads
/// `(start + elapsed) mod 2^W`; the interval computed from the two stamps is
/// exactly `elapsed`, also where the counter wrapped in between.
pub proof fn lemma_interval_recovers_elapsed(width: CounterWidth, start: int, elapsed: int)
    requires
        0 <= start < width.modulus(),
        0 <= elapsed < width.modulus(),
    ensures
        spec_interval(width, start, (start + elapsed) % (width.modulus() as int)) == elapsed,
{
    let m = width.modulus() as int;
    let later = (start + elapsed) % m;
    if start + elapsed < m {
        assert(later == start + elapsed);
    } else {
        assert(later == start + elapsed - m);
        assert(later - start == elapsed - m);
    }
}

} // verus!
