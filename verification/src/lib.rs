//! A small, dependency-free pseudorandom number generator.
//!
//! A [`Rng`] owns a 128-bit state that is always odd. Every draw advances the
//! state once by a fixed multiplicative recurrence modulo `2^128` and derives
//! the output from the high 64 bits of the new state. The generator is fast
//! and non-cryptographic: it must never be used where unpredictability
//! against an adversary is required.

use std::hash::BuildHasher;
use std::hash::Hasher;
use vstd::prelude::*;

verus! {

/// The fixed odd multiplier of the recurrence `state := state * MULT mod 2^128`.
pub const MULT: u128 = 0x12e15e35b500f16e2e714eb2b37916a5;

/// Mask selecting the low 32 bits of a 64-bit output.
const MASK_LOW: u64 = 0x0000_0000_ffff_ffff;

/// Mask selecting the high 32 bits of a 64-bit output.
const MASK_HIGH: u64 = 0xffff_ffff_0000_0000;

/// One application of the state transition: multiply by [`MULT`] modulo `2^128`.
pub open spec fn step(s: u128) -> u128 {
    (((s as int) * (MULT as int)) % 0x1_0000_0000_0000_0000_0000_0000_0000_0000int) as u128
}

/// The state after `n` applications of the transition to `s`.
pub open spec fn step_n(s: u128, n: nat) -> u128
    decreases n,
{
    if n == 0 {
        s
    } else {
        step(step_n(s, (n - 1) as nat))
    }
}

/// The 64-bit output derived from a state: its high 64 bits, unmodified.
/// The low bits are never emitted, since the lowest bit is fixed at one.
pub open spec fn out_u64(s: u128) -> u64 {
    (s >> 64) as u64
}

/// The 32-bit output derived from a 64-bit output: the high 32 bits XORed
/// with the low 32 bits. Folding keeps entropy from the full 64 bits,
/// unlike truncation.
pub open spec fn fold_u32(g: u64) -> u32 {
    ((g >> 32) as u32) ^ ((g & 0xffff_ffff) as u32)
}

/// The 16-bit output: the upper half of the folded 32-bit value.
pub open spec fn out_u16(g: u64) -> u16 {
    (fold_u32(g) >> 16) as u16
}

/// The 8-bit output: the top byte of the folded 32-bit value.
pub open spec fn out_u8(g: u64) -> u8 {
    (fold_u32(g) >> 24) as u8
}

/// The bit pattern of a `u64` read as a two's-complement `i64`.
pub open spec fn to_signed_64(g: u64) -> i64 {
    if g >= 0x8000_0000_0000_0000 {
        (g - 0x1_0000_0000_0000_0000) as i64
    } else {
        g as i64
    }
}

/// The bit pattern of a `u32` read as a two's-complement `i32`.
pub open spec fn to_signed_32(g: u32) -> i32 {
    if g >= 0x8000_0000 {
        (g - 0x1_0000_0000) as i32
    } else {
        g as i32
    }
}

/// The bit pattern of a `u16` read as a two's-complement `i16`.
pub open spec fn to_signed_16(g: u16) -> i16 {
    if g >= 0x8000 {
        (g - 0x1_0000) as i16
    } else {
        g as i16
    }
}

/// The bit pattern of a `u8` read as a two's-complement `i8`.
pub open spec fn to_signed_8(g: u8) -> i8 {
    if g >= 0x80 {
        (g - 0x100) as i8
    } else {
        g as i8
    }
}

/// The bit pattern of an `i64` read back as a `u64`.
pub open spec fn to_unsigned_64(v: i64) -> u64 {
    if v < 0 {
        (v + 0x1_0000_0000_0000_0000) as u64
    } else {
        v as u64
    }
}

/// The bit pattern of an `i32` read back as a `u32`.
pub open spec fn to_unsigned_32(v: i32) -> u32 {
    if v < 0 {
        (v + 0x1_0000_0000) as u32
    } else {
        v as u32
    }
}

/// The bit pattern of an `i16` read back as a `u16`.
pub open spec fn to_unsigned_16(v: i16) -> u16 {
    if v < 0 {
        (v + 0x1_0000) as u16
    } else {
        v as u16
    }
}

/// The bit pattern of an `i8` read back as a `u8`.
pub open spec fn to_unsigned_8(v: i8) -> u8 {
    if v < 0 {
        (v + 0x100) as u8
    } else {
        v as u8
    }
}

/// The initial state produced from an explicit seed: the seed is shifted left
/// by one and its low bit forced to one, so every seed yields an odd state.
pub open spec fn seed_state(seed: u128) -> u128 {
    (seed << 1) | 1
}

/// A random number generator holding a 128-bit state that is always odd.
///
/// The state is exclusively owned: every draw takes `&mut self` and advances
/// the state exactly once before deriving its output.
#[derive(Debug)]
pub struct Rng {
    state: u128,
}

impl View for Rng {
    type V = u128;

    closed spec fn view(&self) -> u128 {
        self.state
    }
}

/// Relies on std::time::SystemTime::now and
/// std::collections::hash_map::RandomState: the current wall-clock reading is
/// hashed with a freshly keyed hasher, giving a 64-bit value used only as
/// best-effort-unique entropy for automatic seeding. Nothing is promised of
/// the value; uniqueness across constructions is probabilistic, not
/// guaranteed.
#[verifier::external_body]
fn ambient_entropy() -> u64 {
    let mut h = std::collections::hash_map::RandomState::new().build_hasher();
    match std::time::SystemTime::now().duration_since(std::time::UNIX_EPOCH) {
        Ok(d) => h.write_u128(d.as_nanos()),
        Err(e) => h.write_u128(e.duration().as_nanos()),
    }
    h.finish()
}

impl Rng {
    /// Well-formedness: the state is odd. Construction establishes this and
    /// every transition preserves it.
    pub open spec fn wf(self) -> bool {
        self@ % 2 == 1
    }

    /// Builds a generator with automatic seeding.
    ///
    /// An auxiliary seed-source generator is seeded from a 64-bit ambient
    /// entropy value (shifted left by one and ORed with one so its state is
    /// odd) and advanced once; the advanced state, which is already odd,
    /// becomes the new generator's initial state. Distinct entropy values
    /// give distinct initial states, so two constructions are different with
    /// overwhelming probability, though never certainly.
    pub fn new() -> (r: Rng)
        ensures
            r.wf(),
    {
        let e: u64 = ambient_entropy();
        let s0: u64 = (e << 1) | 1;
        proof {
            assert(((e << 1) | 1) % 2 == 1) by (bit_vector);
        }
        let mut source = Rng { state: s0 as u128 };
        let seed: u128 = source.next_state();
        Rng { state: seed }
    }

    /// Builds a generator from an explicit 128-bit seed.
    ///
    /// The seed is normalized to an odd state by `(seed << 1) | 1`: the
    /// seed's top bit is shifted out and lost, and the state's low bit is
    /// forced to one, so the seed is not preserved exactly. Any seed is
    /// accepted, and a fixed seed reproduces a fixed output sequence.
    pub fn with_seed(seed: u128) -> (r: Rng)
        ensures
            r@ == seed_state(seed),
            r.wf(),
    {
        let s: u128 = (seed << 1) | 1;
        proof {
            lemma_or_one_odd(seed << 1);
        }
        Rng { state: s }
    }

    /// Advances the state once and returns the new state.
    pub fn next_state(&mut self) -> (r: u128)
        requires
            old(self).wf(),
        ensures
            final(self)@ == step(old(self)@),
            r == final(self)@,
            final(self).wf(),
    {
        proof {
            lemma_step_preserves_odd(self.state);
        }
        self.state = self.state.wrapping_mul(MULT);
        self.state
    }

    /// Advances the state once and returns the high 64 bits of the new state.
    pub fn gen_u64(&mut self) -> (r: u64)
        requires
            old(self).wf(),
        ensures
            final(self)@ == step(old(self)@),
            r == out_u64(final(self)@),
            final(self).wf(),
    {
        let s: u128 = self.next_state();
        proof {
            assert((s >> 64) <= 0xffff_ffff_ffff_ffffu128) by (bit_vector);
        }
        (s >> 64) as u64
    }

    /// Draws a random `u64`: one transition, then the high 64 bits of the
    /// new state.
    pub fn u64(&mut self) -> (r: u64)
        requires
            old(self).wf(),
        ensures
            final(self)@ == step(old(self)@),
            r == out_u64(final(self)@),
            final(self).wf(),
    {
        self.gen_u64()
    }

    /// Draws a random `u32`: one transition, then the two halves of the
    /// 64-bit output folded together by XOR.
    pub fn u32(&mut self) -> (r: u32)
        requires
            old(self).wf(),
        ensures
            final(self)@ == step(old(self)@),
            r == fold_u32(out_u64(final(self)@)),
            final(self).wf(),
    {
        let g: u64 = self.gen_u64();
        let low: u32 = (g & MASK_LOW) as u32;
        let high: u32 = ((g & MASK_HIGH) >> 32) as u32;
        proof {
            assert(((g & 0xffff_ffff_0000_0000u64) >> 32) as u32 ^ ((g
                & 0x0000_0000_ffff_ffffu64) as u32) == fold_u32(g)) by (bit_vector);
        }
        high ^ low
    }

    /// Draws a random `u16`: the upper half of the folded 32-bit output of
    /// one transition.
    pub fn u16(&mut self) -> (r: u16)
        requires
            old(self).wf(),
        ensures
            final(self)@ == step(old(self)@),
            r == out_u16(out_u64(final(self)@)),
            final(self).wf(),
    {
        let h: u32 = self.u32();
        proof {
            assert((h >> 16) <= 0xffffu32) by (bit_vector);
        }
        (h >> 16) as u16
    }

    /// Draws a random `u8`: the top byte of the folded 32-bit output of one
    /// transition.
    pub fn u8(&mut self) -> (r: u8)
        requires
            old(self).wf(),
        ensures
            final(self)@ == step(old(self)@),
            r == out_u8(out_u64(final(self)@)),
            final(self).wf(),
    {
        let h: u32 = self.u32();
        proof {
            assert((h >> 24) <= 0xffu32) by (bit_vector);
        }
        (h >> 24) as u8
    }

    /// Draws a random `i64`: the bit pattern of the `u64` draw of the same
    /// transition, reinterpreted as signed.
    pub fn i64(&mut self) -> (r: i64)
        requires
            old(self).wf(),
        ensures
            final(self)@ == step(old(self)@),
            r == to_signed_64(out_u64(final(self)@)),
            final(self).wf(),
    {
        let g: u64 = self.gen_u64();
        proof {
            assert(g as i64 == to_signed_64(g)) by (bit_vector);
        }
        #[verifier::truncate] (g as i64)
    }

    /// Draws a random `i32`: the bit pattern of the `u32` draw of the same
    /// transition, reinterpreted as signed.
    pub fn i32(&mut self) -> (r: i32)
        requires
            old(self).wf(),
        ensures
            final(self)@ == step(old(self)@),
            r == to_signed_32(fold_u32(out_u64(final(self)@))),
            final(self).wf(),
    {
        let h: u32 = self.u32();
        proof {
            assert(h as i32 == to_signed_32(h)) by (bit_vector);
        }
        #[verifier::truncate] (h as i32)
    }

    /// Draws a random `i16`: the bit pattern of the `u16` draw of the same
    /// transition, reinterpreted as signed.
    pub fn i16(&mut self) -> (r: i16)
        requires
            old(self).wf(),
        ensures
            final(self)@ == step(old(self)@),
            r == to_signed_16(out_u16(out_u64(final(self)@))),
            final(self).wf(),
    {
        let w: u16 = self.u16();
        proof {
            assert(w as i16 == to_signed_16(w)) by (bit_vector);
        }
        #[verifier::truncate] (w as i16)
    }

    /// Draws a random `i8`: the bit pattern of the `u8` draw of the same
    /// transition, reinterpreted as signed.
    pub fn i8(&mut self) -> (r: i8)
        requires
            old(self).wf(),
        ensures
            final(self)@ == step(old(self)@),
            r == to_signed_8(out_u8(out_u64(final(self)@))),
            final(self).wf(),
    {
        let b: u8 = self.u8();
        proof {
            assert(b as i8 == to_signed_8(b)) by (bit_vector);
        }
        #[verifier::truncate] (b as i8)
    }

    /// Duplicates the generator into a second, decorrelated one.
    ///
    /// Duplication first advances this generator's state, consuming one draw
    /// from it, and gives the duplicate that advanced state verbatim (it is
    /// already odd). Source and duplicate therefore hold the same state after
    /// the call — their future sequences coincide — but neither continues the
    /// sequence the source would have produced had it not been duplicated,
    /// and the duplicate is not a verbatim copy of the pre-call state.
    pub fn duplicate(&mut self) -> (r: Rng)
        requires
            old(self).wf(),
        ensures
            final(self)@ == step(old(self)@),
            r@ == final(self)@,
            r.wf(),
            final(self).wf(),
    {
        let s: u128 = self.next_state();
        Rng { state: s }
    }

    /// The current state. The low bit is always one.
    pub fn state(&self) -> (r: u128)
        ensures
            r == self@,
    {
        self.state
    }
}

impl Default for Rng {
    /// Equivalent to [`Rng::new`]: a generator with automatic seeding.
    fn default() -> (r: Rng)
        ensures
            r.wf(),
    {
        Rng::new()
    }
}

/// Any value with its low bit forced to one is odd.
proof fn lemma_or_one_odd(x: u128)
    by (bit_vector)
    ensures
        (x | 1) % 2 == 1,
{
}

/// The transition maps odd states to odd states: an odd multiple of the odd
/// [`MULT`] is odd, and reduction modulo the even `2^128` keeps the parity.
pub proof fn lemma_step_preserves_odd(s: u128)
    requires
        s % 2 == 1,
    ensures
        step(s) % 2 == 1,
{
    let p: int = (s as int) * (MULT as int);
    vstd::arithmetic::div_mod::lemma_mul_mod_noop(s as int, MULT as int, 2);
    assert(p % 2 == 1);
    vstd::arithmetic::div_mod::lemma_mod_mod(p, 2, 0x8000_0000_0000_0000_0000_0000_0000_0000int);
    assert((p % 0x1_0000_0000_0000_0000_0000_0000_0000_0000int) % 2 == 1);
}

/// The state stays odd forever: after any number of transitions from an odd
/// state, the state is still odd.
pub proof fn lemma_state_stays_odd(s: u128, n: nat)
    requires
        s % 2 == 1,
    ensures
        step_n(s, n) % 2 == 1,
    decreases n,
{
    if n > 0 {
        lemma_state_stays_odd(s, (n - 1) as nat);
        lemma_step_preserves_odd(step_n(s, (n - 1) as nat));
    }
}

/// Runs of transitions compose: `m + n` transitions from `s` reach the same
/// state as `n` transitions from the state that `m` transitions reach. Hence
/// any sequence of draws, however the calls are split up, advances the state
/// as one run of that many transitions does.
pub proof fn lemma_step_n_add(s: u128, m: nat, n: nat)
    ensures
        step_n(s, m + n) == step_n(step_n(s, m), n),
    decreases n,
{
    if n > 0 {
        lemma_step_n_add(s, m, (n - 1) as nat);
    }
}

/// Width-folding consistency: the folded 32-bit output is the XOR of the low
/// and high 32-bit halves of the 64-bit output of the same transition, the
/// 16-bit output is bits 31..16 of that folded value, and the 8-bit output
/// is bits 31..24 of it.
pub proof fn lemma_width_folding(g: u64)
    by (bit_vector)
    ensures
        fold_u32(g) == ((g / 0x1_0000_0000) as u32) ^ ((g % 0x1_0000_0000) as u32),
        out_u16(g) == fold_u32(g) / 0x1_0000,
        out_u8(g) == fold_u32(g) / 0x100_0000,
{
}

/// Signed/unsigned bit-pattern equivalence: for every width, reading the
/// signed output's bit pattern back as unsigned recovers exactly the unsigned
/// output of the same draw, and the reinterpretation loses nothing in the
/// other direction either.
pub proof fn lemma_signed_bits_roundtrip(g: u64, h: u32, w: u16, b: u8)
    ensures
        to_unsigned_64(to_signed_64(g)) == g,
        to_unsigned_32(to_signed_32(h)) == h,
        to_unsigned_16(to_signed_16(w)) == w,
        to_unsigned_8(to_signed_8(b)) == b,
        to_signed_64(to_unsigned_64(to_signed_64(g))) == to_signed_64(g),
        to_signed_32(to_unsigned_32(to_signed_32(h))) == to_signed_32(h),
        to_signed_16(to_unsigned_16(to_signed_16(w))) == to_signed_16(w),
        to_signed_8(to_unsigned_8(to_signed_8(b))) == to_signed_8(b),
{
}

} // verus!
