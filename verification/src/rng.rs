//! The game's random numbers: a seeded generator, and the pair of streams
//! that world generation and play draw from.

use vstd::prelude::*;

verus! {

pub const LCG_MULTIPLIER: u64 = 6364136223846793005;

pub const LCG_INCREMENT: u64 = 1442695040888963407;

/// The generator's state after `state`.
pub open spec fn lcg_next(state: u64) -> u64 {
    state.wrapping_mul(LCG_MULTIPLIER).wrapping_add(LCG_INCREMENT)
}

/// The number that a state hands out: its upper half.
pub open spec fn lcg_output(state: u64) -> u32 {
    (state >> 32) as u32
}

/// A linear congruential generator over 64 bits.
#[derive(Clone, Copy, Debug, PartialEq, Eq, Structural)]
pub struct Rng {
    pub state: u64,
}

impl Rng {
    /// A generator whose whole future is fixed by `seed`.
    pub fn new_from_seed(seed: u32) -> (rng: Rng)
        ensures
            rng.state == seed,
    {
        Rng { state: seed as u64 }
    }

    /// Advances the generator and returns the next number.
    pub fn next(&mut self) -> (value: u32)
        ensures
            final(self).state == lcg_next(old(self).state),
            value == lcg_output(final(self).state),
    {
        let state: u64 = self.state.wrapping_mul(LCG_MULTIPLIER).wrapping_add(LCG_INCREMENT);
        self.state = state;
        let upper: u64 = state >> 32;
        assert(upper <= 0xffff_ffff) by (bit_vector)
            requires
                upper == state >> 32,
        ;
        upper as u32
    }

    /// The generator after `n` draws.
    pub open spec fn advanced(self, n: nat) -> Rng
        decreases n,
    {
        if n == 0 {
            self
        } else {
            Rng { state: lcg_next(self.advanced((n - 1) as nat).state) }
        }
    }

    /// The `i`-th number that the generator will hand out, counting from zero.
    pub open spec fn nth(self, i: nat) -> u32 {
        lcg_output(self.advanced(i + 1).state)
    }
}

/// The two draw sequences of the game. In a random run both read one shared
/// stream; in a seeded run each has a stream of its own.
#[derive(Clone, Copy, Debug, PartialEq, Eq, Structural)]
pub enum GameRng {
    Random(Rng),
    FixedSeed(Rng, Rng),
}

impl GameRng {
    /// The generators of a seeded run: both streams start from `seed`.
    pub fn new_fixed_seed(seed: u32) -> (rng: GameRng)
        ensures
            rng == GameRng::FixedSeed(Rng { state: seed as u64 }, Rng { state: seed as u64 }),
    {
        GameRng::FixedSeed(Rng::new_from_seed(seed), Rng::new_from_seed(seed))
    }

    /// The generator that world generation reads.
    pub open spec fn worldgen_stream(self) -> Rng {
        match self {
            GameRng::Random(shared) => shared,
            GameRng::FixedSeed(world, _) => world,
        }
    }

    /// The generator that play reads.
    pub open spec fn input_stream(self) -> Rng {
        match self {
            GameRng::Random(shared) => shared,
            GameRng::FixedSeed(_, input) => input,
        }
    }

    /// The pair after `n` draws for world generation.
    pub open spec fn after_worldgen(self, n: nat) -> GameRng {
        match self {
            GameRng::Random(shared) => GameRng::Random(shared.advanced(n)),
            GameRng::FixedSeed(world, input) => GameRng::FixedSeed(world.advanced(n), input),
        }
    }

    /// The pair after `n` draws for play.
    pub open spec fn after_input(self, n: nat) -> GameRng {
        match self {
            GameRng::Random(shared) => GameRng::Random(shared.advanced(n)),
            GameRng::FixedSeed(world, input) => GameRng::FixedSeed(world, input.advanced(n)),
        }
    }

    /// The `i`-th number that world generation will draw, counting from zero.
    pub open spec fn worldgen_value(self, i: nat) -> u32 {
        self.worldgen_stream().nth(i)
    }

    /// The `i`-th number that play will draw, counting from zero.
    pub open spec fn input_value(self, i: nat) -> u32 {
        self.input_stream().nth(i)
    }

    /// Draws the next number for world generation.
    pub fn next_for_worldgen(&mut self) -> (value: u32)
        ensures
            *final(self) == old(self).after_worldgen(1),
            value == old(self).worldgen_value(0),
    {
        reveal_with_fuel(Rng::advanced, 2);
        match self {
            GameRng::Random(shared) => shared.next(),
            GameRng::FixedSeed(world, _) => world.next(),
        }
    }

    /// Draws the next number for play.
    pub fn next_for_input(&mut self) -> (value: u32)
        ensures
            *final(self) == old(self).after_input(1),
            value == old(self).input_value(0),
    {
        reveal_with_fuel(Rng::advanced, 2);
        match self {
            GameRng::Random(shared) => shared.next(),
            GameRng::FixedSeed(_, input) => input.next(),
        }
    }
}

/// Drawing `a` numbers and then `b` more leaves a generator where `a + b` draws do.
pub proof fn lemma_advanced_adds(rng: Rng, a: nat, b: nat)
    ensures
        rng.advanced(a).advanced(b) == rng.advanced(a + b),
        rng.advanced(a).nth(b) == rng.nth(a + b),
    decreases b,
{
    if b > 0 {
        lemma_advanced_adds(rng, a, (b - 1) as nat);
    }
    lemma_advanced_adds_one(rng, a, b);
}

proof fn lemma_advanced_adds_one(rng: Rng, a: nat, b: nat)
    ensures
        rng.advanced(a).advanced(b + 1) == rng.advanced(a + b + 1),
    decreases b,
{
    if b > 0 {
        lemma_advanced_adds_one(rng, a, (b - 1) as nat);
    }
    reveal_with_fuel(Rng::advanced, 2);
}

/// World generation that draws `a` numbers and then `b` more has drawn `a + b`,
/// and its next draws are those that follow the first `a`. The stream for
/// play is left alone unless the two share one generator.
pub proof fn lemma_worldgen_adds(rng: GameRng, a: nat, b: nat)
    ensures
        rng.after_worldgen(a).after_worldgen(b) == rng.after_worldgen(a + b),
        rng.after_worldgen(a).worldgen_value(b) == rng.worldgen_value(a + b),
        rng is FixedSeed ==> rng.after_worldgen(a).input_stream() == rng.input_stream(),
{
    lemma_advanced_adds(rng.worldgen_stream(), a, b);
}

/// Play that draws `a` numbers and then `b` more has drawn `a + b`, and its
/// next draws are those that follow the first `a`.
pub proof fn lemma_input_adds(rng: GameRng, a: nat, b: nat)
    ensures
        rng.after_input(a).after_input(b) == rng.after_input(a + b),
        rng.after_input(a).input_value(b) == rng.input_value(a + b),
        rng is FixedSeed ==> rng.after_input(a).worldgen_stream() == rng.worldgen_stream(),
{
    lemma_advanced_adds(rng.input_stream(), a, b);
}

/// Two seeded runs with one seed draw the same numbers, in both streams,
/// however the draws of the two streams are interleaved.
pub proof fn lemma_seeded_runs_agree(seed: u32, world_draws: nat, input_draws: nat, i: nat)
    ensures
        ({
            let first = GameRng::FixedSeed(Rng { state: seed as u64 }, Rng { state: seed as u64 });
            let second = GameRng::FixedSeed(Rng { state: seed as u64 }, Rng { state: seed as u64 });
            let a = first.after_worldgen(world_draws).after_input(input_draws);
            let b = second.after_input(input_draws).after_worldgen(world_draws);
            &&& a == b
            &&& a.worldgen_value(i) == Rng { state: seed as u64 }.nth(world_draws + i)
            &&& a.input_value(i) == Rng { state: seed as u64 }.nth(input_draws + i)
        }),
{
    let start = Rng { state: seed as u64 };
    lemma_advanced_adds(start, world_draws, i);
    lemma_advanced_adds(start, input_draws, i);
}

} // verus!
