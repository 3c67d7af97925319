//! A seed-derivable pseudo-random generator.
//!
//! Every simulated actor draws from its own generator, and a child generator
//! can be split off deterministically from a parent's current state, so a
//! whole simulation run is a pure function of the root seed.

use vstd::prelude::*;

verus! {

/// A 64-bit splitmix generator. The next state is the old state plus a fixed
/// odd increment (mod 2^64); the output mixes the new state through
/// xor-shifts and multiplications. Both are pure functions of the state, so
/// two generators with equal states produce equal output streams.
#[derive(Clone, Copy, Debug, PartialEq, Eq, Structural)]
pub struct SeedRng {
    pub state: u64,
}

/// The splitmix output mixing function.
pub open spec fn spec_mix(z0: u64) -> u64 {
    let z1 = vstd::wrapping::u64_specs::wrapping_mul(z0 ^ (z0 >> 30), 0xBF58476D1CE4E5B9);
    let z2 = vstd::wrapping::u64_specs::wrapping_mul(z1 ^ (z1 >> 27), 0x94D049BB133111EB);
    z2 ^ (z2 >> 31)
}

impl SeedRng {
    /// The generator state after one draw.
    pub open spec fn spec_next_state(self) -> u64 {
        vstd::wrapping::u64_specs::wrapping_add(self.state, 0x9E3779B97F4A7C15)
    }

    /// The value produced by the next draw.
    pub open spec fn spec_output(self) -> u64 {
        spec_mix(self.spec_next_state())
    }

    pub fn new(seed: u64) -> (r: Self)
        ensures
            r.state == seed,
    {
        SeedRng { state: seed }
    }

    /// Draws the next pseudo-random value and advances the state.
    pub fn next_u64(&mut self) -> (r: u64)
        ensures
            final(self).state == old(self).spec_next_state(),
            r == old(self).spec_output(),
    {
        self.state = self.state.wrapping_add(0x9E3779B97F4A7C15);
        let z0: u64 = self.state;
        let z1: u64 = (z0 ^ (z0 >> 30)).wrapping_mul(0xBF58476D1CE4E5B9);
        let z2: u64 = (z1 ^ (z1 >> 27)).wrapping_mul(0x94D049BB133111EB);
        z2 ^ (z2 >> 31)
    }

    /// Splits off an independent child generator. The child's entire output
    /// stream is a pure deterministic function of the parent's state at the
    /// moment of the call; the parent advances by one draw.
    pub fn seeded_clone(&mut self) -> (child: Self)
        ensures
            final(self).state == old(self).spec_next_state(),
            child.state == old(self).spec_output(),
    {
        let seed = self.next_u64();
        SeedRng { state: seed }
    }
}

} // verus!
