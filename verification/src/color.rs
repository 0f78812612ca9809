//! A deterministic colorizer: a seeded pseudo-random generator whose byte
//! stream is a pure function of the seed, reset to the same seed at the
//! start of every frame so that the N-th color drawn is the same on every
//! frame.

use vstd::prelude::*;

verus! {

#[verifier::external_type_specification]
#[verifier::external_body]
pub struct ExStdRng(rand::rngs::StdRng);

/// The seed a generator was created from.
pub uninterp spec fn rng_seed(r: rand::rngs::StdRng) -> u64;

/// How many bytes have been drawn from a generator since it was seeded.
pub uninterp spec fn rng_taken(r: rand::rngs::StdRng) -> nat;

/// The `idx`-th byte of the stream that a generator seeded with `seed`
/// yields: the result of an outside draw, a pure function of seed and
/// position alone.
pub uninterp spec fn stream_byte(seed: u64, idx: nat) -> u8;

/// Relies on rand's `SeedableRng::seed_from_u64` for `StdRng`: seeding is
/// deterministic, and a freshly seeded generator stands at the start of
/// that seed's byte stream.
#[verifier::external_body]
fn rng_from_seed(seed: u64) -> (r: rand::rngs::StdRng)
    ensures
        rng_seed(r) == seed,
        rng_taken(r) == 0,
{
    <rand::rngs::StdRng as rand::SeedableRng>::seed_from_u64(seed)
}

/// Relies on rand's `Rng::gen_range` over the full byte range `0..=255`
/// (never empty, so it never panics): the draw is deterministic, a pure
/// function of the generator's seed and of how many bytes were drawn
/// before it, and it advances the generator by one draw.
#[verifier::external_body]
fn rng_next_byte(r: &mut rand::rngs::StdRng) -> (b: u8)
    ensures
        rng_seed(*final(r)) == rng_seed(*old(r)),
        rng_taken(*final(r)) == rng_taken(*old(r)) + 1,
        b == stream_byte(rng_seed(*old(r)), rng_taken(*old(r))),
{
    rand::Rng::gen_range(r, 0..=255u8)
}

/// One color: three independent channel values, each in `0..=255` by type.
#[derive(Clone, Copy, Debug, PartialEq, Eq, Structural)]
pub struct ColorRgb {
    pub r: u8,
    pub g: u8,
    pub b: u8,
}

/// The color issued at traversal step `step` (counted from zero) by a
/// colorizer seeded with `seed`: the next three bytes of the seed's stream.
pub open spec fn color_at(seed: u64, step: nat) -> ColorRgb {
    ColorRgb {
        r: stream_byte(seed, 3 * step),
        g: stream_byte(seed, 3 * step + 1),
        b: stream_byte(seed, 3 * step + 2),
    }
}

/// Supplies one color per traversal step, reproducibly: after a `reset`,
/// the sequence of colors depends on the seed alone.
pub struct Colorizer {
    rng: rand::rngs::StdRng,
    seed: u64,
}

impl Colorizer {
    /// The generator matches the stored seed and stands on a whole-color
    /// boundary of the stream.
    pub closed spec fn inv(&self) -> bool {
        &&& rng_seed(self.rng) == self.seed
        &&& rng_taken(self.rng) % 3 == 0
    }

    /// The fixed seed this colorizer replays on every reset.
    pub closed spec fn seed(&self) -> u64 {
        self.seed
    }

    /// How many colors have been issued since the last reset.
    pub closed spec fn issued(&self) -> nat {
        rng_taken(self.rng) / 3
    }

    pub fn new(seed: u64) -> (c: Colorizer)
        ensures
            c.inv(),
            c.seed() == seed,
            c.issued() == 0,
    {
        Colorizer { rng: rng_from_seed(seed), seed }
    }

    /// Reinitialize the generator to the fixed seed. Called at the start of
    /// every frame; afterwards the colorizer stands at step zero whatever
    /// its earlier state was.
    pub fn reset(&mut self)
        ensures
            final(self).inv(),
            final(self).seed() == old(self).seed(),
            final(self).issued() == 0,
    {
        self.rng = rng_from_seed(self.seed);
    }

    /// Issue the color of the current step and advance by one step. The
    /// result is a pure function of the seed and the step, so repeated
    /// reset-and-traverse cycles see identical colors at each step.
    pub fn next_color(&mut self) -> (c: ColorRgb)
        requires
            old(self).inv(),
        ensures
            final(self).inv(),
            final(self).seed() == old(self).seed(),
            final(self).issued() == old(self).issued() + 1,
            c == color_at(old(self).seed(), old(self).issued()),
    {
        proof {
            assert(3 * (rng_taken(self.rng) / 3) == rng_taken(self.rng));
        }
        let r = rng_next_byte(&mut self.rng);
        let g = rng_next_byte(&mut self.rng);
        let b = rng_next_byte(&mut self.rng);
        ColorRgb { r, g, b }
    }
}

} // verus!
