//! The seeded random stream that every rule draws from.
//!
//! The stream is a 64-bit linear congruential generator. A draw advances the
//! state once and reduces the high 31 bits of the new state into the range
//! asked for, so every outcome of a rule is a function of the state before
//! the call.
use vstd::prelude::*;

verus! {

/// Multiplier of the generator.
pub const LCG_MUL: u64 = 6364136223846793005;
/// Increment of the generator.
pub const LCG_INC: u64 = 1442695040888963407;

/// First multiplier of the seed scrambler.
pub const MIX_MUL_1: u64 = 0xbf58476d1ce4e5b9;
/// Second multiplier of the seed scrambler.
pub const MIX_MUL_2: u64 = 0x94d049bb133111eb;

/// The starting state for `seed`: the seed's bits are spread by two rounds
/// of shifting, xoring and multiplying.
#[verifier::opaque]
pub open spec fn seed_mix(seed: u64) -> u64 {
    let a = seed ^ (seed >> 30u64);
    let b = ((a as int * MIX_MUL_1 as int) % 0x1_0000_0000_0000_0000) as u64;
    let c = b ^ (b >> 27u64);
    let d = ((c as int * MIX_MUL_2 as int) % 0x1_0000_0000_0000_0000) as u64;
    d ^ (d >> 31u64)
}

/// The state that follows `s`.
#[verifier::opaque]
pub open spec fn rng_next(s: u64) -> u64 {
    ((s as int * LCG_MUL as int + LCG_INC as int) % 0x1_0000_0000_0000_0000) as u64
}

/// The raw 31-bit output produced when the state `s` is advanced.
#[verifier::opaque]
pub open spec fn rng_out(s: u64) -> int {
    rng_next(s) as int / 0x2_0000_0000
}

/// The value in `0..x` drawn from the state `s`.
#[verifier::opaque]
pub open spec fn rng_roll(s: u64, x: int) -> int {
    rng_out(s) % x
}

/// The state after `n` draws from `s`.
pub open spec fn rng_after(s: u64, n: nat) -> u64
    decreases n,
{
    if n == 0 {
        s
    } else {
        rng_next(rng_after(s, (n - 1) as nat))
    }
}

/// The total of `n` dice of `sides` faces rolled from the state `s`.
pub open spec fn dice_total(s: u64, n: nat, sides: int) -> int
    decreases n,
{
    if n == 0 {
        0
    } else {
        dice_total(s, (n - 1) as nat, sides) + rng_roll(rng_after(s, (n - 1) as nat), sides) + 1
    }
}

/// A draw `roll` from `0..x` moved by `luck`: good luck lowers it toward
/// zero, bad luck raises it, never past `x - 1`.
pub open spec fn luck_roll(roll: int, x: int, luck: int) -> int {
    let a = if luck > 0 && roll != 0 {
        roll - (if luck < roll { luck } else { roll })
    } else {
        roll
    };
    let b = if luck < 0 {
        if a - luck >= x { x - 1 } else { a - luck }
    } else {
        a
    };
    if b < 0 { 0 } else { b }
}

/// A draw from `0..x` lies in `0..x`.
pub proof fn lemma_roll_range(s: u64, x: int)
    requires
        x > 0,
    ensures
        0 <= rng_roll(s, x) < x,
{
    reveal(rng_roll);
}

/// One die of `sides` faces is a single draw plus one.
pub proof fn lemma_one_die(s: u64, sides: int)
    ensures
        dice_total(s, 1, sides) == rng_roll(s, sides) + 1,
        rng_after(s, 1) == rng_next(s),
{
    reveal_with_fuel(dice_total, 2);
    reveal_with_fuel(rng_after, 2);
}

/// A seeded random stream.
#[derive(Debug)]
pub struct NetHackRng {
    state: u64,
}

impl View for NetHackRng {
    type V = u64;

    closed spec fn view(&self) -> u64 {
        self.state
    }
}

impl NetHackRng {
    /// A stream seeded with `seed`: the seed is scrambled first, so that
    /// nearby seeds start far apart.
    pub fn new(seed: u64) -> (r: NetHackRng)
        ensures
            r@ == seed_mix(seed),
    {
        reveal(seed_mix);
        let a: u64 = seed ^ (seed >> 30u64);
        assert((a as int) * (MIX_MUL_1 as int) < 0x1_0000_0000_0000_0000_0000_0000_0000_0000int)
            by (nonlinear_arith)
            requires
                a <= 0xffff_ffff_ffff_ffff,
        ;
        let b: u64 = ((a as u128) * (MIX_MUL_1 as u128) % 0x1_0000_0000_0000_0000u128) as u64;
        let c: u64 = b ^ (b >> 27u64);
        assert((c as int) * (MIX_MUL_2 as int) < 0x1_0000_0000_0000_0000_0000_0000_0000_0000int)
            by (nonlinear_arith)
            requires
                c <= 0xffff_ffff_ffff_ffff,
        ;
        let d: u64 = ((c as u128) * (MIX_MUL_2 as u128) % 0x1_0000_0000_0000_0000u128) as u64;
        NetHackRng { state: d ^ (d >> 31u64) }
    }

    fn advance(&mut self) -> (out: u64)
        ensures
            final(self)@ == rng_next(old(self)@),
            out as int == rng_out(old(self)@),
            out < 0x8000_0000,
    {
        reveal(rng_next);
        reveal(rng_out);
        let s = self.state;
        assert((s as int) * (LCG_MUL as int) + (LCG_INC as int) < 0x1_0000_0000_0000_0000_0000_0000_0000_0000int)
            by (nonlinear_arith)
            requires
                s <= 0xffff_ffff_ffff_ffff,
        ;
        let t: u128 = (s as u128) * (LCG_MUL as u128) + (LCG_INC as u128);
        let n: u64 = (t % 0x1_0000_0000_0000_0000u128) as u64;
        self.state = n;
        n / 0x2_0000_0000u64
    }

    /// A value drawn uniformly from `0..x`.
    pub fn rn2(&mut self, x: i32) -> (r: i32)
        requires
            x > 0,
        ensures
            r == rng_roll(old(self)@, x as int),
            final(self)@ == rng_next(old(self)@),
            0 <= r < x,
    {
        let out = self.advance();
        let r = out % (x as u64);
        reveal(rng_roll);
        r as i32
    }

    /// A value drawn uniformly from `1..=x`.
    pub fn rnd(&mut self, x: i32) -> (r: i32)
        requires
            x > 0,
        ensures
            r == rng_roll(old(self)@, x as int) + 1,
            final(self)@ == rng_next(old(self)@),
            1 <= r <= x,
    {
        let r = self.rn2(x);
        r + 1
    }

    /// A value drawn uniformly from `y..y + x`.
    pub fn rn1(&mut self, x: i32, y: i32) -> (r: i32)
        requires
            x > 0,
            y + x <= i32::MAX,
        ensures
            r == rng_roll(old(self)@, x as int) + y,
            final(self)@ == rng_next(old(self)@),
            y <= r < y + x,
    {
        let r = self.rn2(x);
        r + y
    }

    /// The total of `n` dice of `sides` faces.
    pub fn d(&mut self, n: i32, sides: i32) -> (r: i32)
        requires
            n >= 0,
            sides > 0,
            n * sides <= i32::MAX,
        ensures
            r == dice_total(old(self)@, n as nat, sides as int),
            final(self)@ == rng_after(old(self)@, n as nat),
            n <= r <= n * sides,
    {
        let mut total: i32 = 0;
        let mut k: i32 = 0;
        while k < n
            invariant
                0 <= k <= n,
                sides > 0,
                n * sides <= i32::MAX,
                total == dice_total(old(self)@, k as nat, sides as int),
                self@ == rng_after(old(self)@, k as nat),
                k <= total <= k * sides,
            decreases n - k,
        {
            let ghost s0 = self@;
            let roll = self.rnd(sides);
            assert((k + 1) * sides <= n * sides) by (nonlinear_arith)
                requires
                    k + 1 <= n,
                    sides > 0,
            ;
            assert((k + 1) * sides == k * sides + sides) by (nonlinear_arith);
            total = total + roll;
            k = k + 1;
            assert(rng_after(old(self)@, k as nat) == rng_next(s0));
        }
        total
    }

    /// A draw from `0..x` moved by `luck`; 0 without a draw when `x <= 0`.
    pub fn rnl(&mut self, x: i32, luck: i32) -> (r: i32)
        requires
            luck >= x - 1 - i32::MAX,
        ensures
            x <= 0 ==> r == 0 && final(self)@ == old(self)@,
            x > 0 ==> {
                &&& final(self)@ == rng_next(old(self)@)
                &&& r == luck_roll(rng_roll(old(self)@, x as int), x as int, luck as int)
                &&& 0 <= r < x
            },
    {
        if x <= 0 {
            return 0;
        }
        let mut result = self.rn2(x);
        if luck > 0 && result != 0 {
            result = result - (if luck < result { luck } else { result });
        }
        if luck < 0 {
            result = result - luck;
            if result >= x {
                result = x - 1;
            }
        }
        if result < 0 { 0 } else { result }
    }
}

} // verus!