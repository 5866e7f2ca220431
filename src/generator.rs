use vstd::prelude::*;
use crate::ambient::{clock_nanos_now, CLOCK_NANOS_LIMIT, hash_u128, subsec_nanos_now, u128_hash};
use crate::bits::{rotl128, rotr64, rotate_left_u128, rotate_right_u64};
use crate::entropy::{secret_byte, secret_byte_of, seed_from_signals, seed_of, AmbientSignals};

verus! {

/// Odd multiplier of the linear-congruential advance.
pub const MULTIPLIER: u128 = 6364136223846793005;

/// Odd increment of the linear-congruential advance.
pub const INCREMENT: u128 = 1442695040888963407;

/// Folds secret byte `b` at position `i` into the state; the position modulo 3
/// picks one of three ways.
pub open spec fn fold_byte(state: u128, b: u8, i: int) -> u128 {
    if i % 3 == 0 {
        state ^ ((b as u128) << (((i * 11) % 121) as u128))
    } else if i % 3 == 1 {
        rotl128(state, (b % 61) as u32)
    } else {
        state.wrapping_add((b as u128) << 42u128)
    }
}

/// The state after the first `n` secret bytes have been folded in, in order.
pub open spec fn fold_secret(state: u128, secret: Seq<u8>, n: nat) -> u128
    decreases n,
{
    if n == 0 {
        state
    } else {
        let prev = fold_secret(state, secret, (n - 1) as nat);
        fold_byte(prev, secret[n - 1], n - 1)
    }
}

/// One advance of the state: multiply-add (wrapping), fold in all sixteen
/// secret bytes, then XOR in the clock reading.
pub open spec fn advance_of(state: u128, secret: Seq<u8>, clock_nanos: u128) -> u128 {
    fold_secret(state.wrapping_mul(MULTIPLIER).wrapping_add(INCREMENT), secret, 16) ^ clock_nanos
}

/// The three-step xorshift avalanche over 128 bits.
pub open spec fn avalanche_of(x: u128) -> u128 {
    let a = x ^ (x >> 12u128);
    let b = a ^ (a << 25u128);
    b ^ (b >> 27u128)
}

/// The working value that is hashed: the avalanched state XOR the counter
/// rotated left by 33 bits.
pub open spec fn premix_of(state: u128, counter: u64) -> u128 {
    avalanche_of(state) ^ rotl128(counter as u128, 33)
}

/// The output from the working value `x`, its digest and the counter: digest
/// XOR high half XOR low half, rotated right by `counter % 63 + 1`.
pub open spec fn mix_output_of(x: u128, hash_val: u64, counter: u64) -> u64 {
    rotr64(hash_val ^ ((x >> 64u128) as u64) ^ (x as u64), ((counter % 63) + 1) as u32)
}

/// The value a draw returns once state and counter have been advanced.
pub open spec fn output_of(state: u128, counter: u64) -> u64 {
    let x = premix_of(state, counter);
    mix_output_of(x, u128_hash(x), counter)
}

/// The counter after one more draw: it wraps to zero past `u64::MAX`.
pub open spec fn bumped(counter: u64) -> u64 {
    counter.wrapping_add(1)
}

/// `v` mapped into `[min, max]` by remainder; a range with `max <= min` gives
/// `min`.
pub open spec fn range_of(min: u64, max: u64, v: u64) -> u64 {
    if max <= min {
        min
    } else {
        (min as int + (v as int) % (max as int - min as int + 1)) as u64
    }
}

/// What the generator holds: the mixing register, the draw counter and the
/// sixteen secret bytes.
pub struct GeneratorView {
    pub state: u128,
    pub counter: u64,
    pub secret: Seq<u8>,
}

/// One draw took `pre` to `post` and returned `out`, for some clock reading
/// below `CLOCK_NANOS_LIMIT`.
pub open spec fn is_draw(pre: GeneratorView, post: GeneratorView, out: u64) -> bool {
    &&& post.counter == bumped(pre.counter)
    &&& post.secret == pre.secret
    &&& exists|t: u128|
        t < CLOCK_NANOS_LIMIT && #[trigger] advance_of(pre.state, pre.secret, t) == post.state
    &&& out == output_of(post.state, post.counter)
}

/// Advances a state by one step with the given clock reading.
pub fn advance_state(state: u128, secret: &[u8; 16], clock_nanos: u128) -> (r: u128)
    ensures
        r == advance_of(state, secret@, clock_nanos),
{
    let start = state.wrapping_mul(MULTIPLIER).wrapping_add(INCREMENT);
    let mut s = start;
    let mut i: usize = 0;
    while i < 16
        invariant
            i <= 16,
            s == fold_secret(start, secret@, i as nat),
        decreases 16 - i,
    {
        let b = secret[i];
        if i % 3 == 0 {
            s = s ^ ((b as u128) << ((i * 11) % 121));
        } else if i % 3 == 1 {
            s = rotate_left_u128(s, (b as u32) % 61);
        } else {
            s = s.wrapping_add((b as u128) << 42u32);
        }
        i = i + 1;
    }
    s ^ clock_nanos
}

/// The three-step xorshift avalanche: `x ^= x >> 12; x ^= x << 25;
/// x ^= x >> 27`, within 128 bits.
pub fn avalanche(x: u128) -> (r: u128)
    ensures
        r == avalanche_of(x),
{
    let a = x ^ (x >> 12u32);
    let b = a ^ (a << 25u32);
    b ^ (b >> 27u32)
}

/// Turns the working value, its digest and the counter into the output.
pub fn mix_output(x: u128, hash_val: u64, counter: u64) -> (r: u64)
    ensures
        r == mix_output_of(x, hash_val, counter),
{
    let folded = hash_val ^ ((x >> 64u32) as u64) ^ (x as u64);
    rotate_right_u64(folded, ((counter % 63) + 1) as u32)
}

/// Maps `v` into the inclusive range `[min, max]` by remainder (biased where
/// the span does not divide 2^64); a range with `max <= min` gives `min`.
pub fn fit_to_range(min: u64, max: u64, v: u64) -> (r: u64)
    ensures
        r == range_of(min, max, v),
        min < max ==> min <= r <= max,
{
    if max <= min {
        min
    } else if max - min == u64::MAX {
        // the span is all of u64: min is 0 and every value is in range
        v
    } else {
        let span = max - min + 1;
        proof {
            assert(v % span < span) by (nonlinear_arith)
                requires
                    span > 0,
            ;
        }
        min + v % span
    }
}

/// A self-seeded generator of 64-bit values. The state is written only by a
/// draw; the secret never changes after construction.
pub struct NahodaGenerator {
    state: u128,
    counter: u64,
    tajemstvi: [u8; 16],
}

impl View for NahodaGenerator {
    type V = GeneratorView;

    closed spec fn view(&self) -> GeneratorView {
        GeneratorView { state: self.state, counter: self.counter, secret: self.tajemstvi@ }
    }
}

impl NahodaGenerator {
    /// Seeds a generator from ambient signals, with `ticks[i]` as the clock
    /// tick mixed into secret byte `i`.
    pub fn from_signals_and_ticks(signals: &AmbientSignals, ticks: &[u32; 16]) -> (g: Self)
        ensures
            g@.state == seed_of(*signals),
            g@.counter == 0,
            g@.secret.len() == 16,
            forall|i: int|
                0 <= i < 16 ==> #[trigger] g@.secret[i] == secret_byte_of(g@.state, i, ticks@[i]),
    {
        let seed = seed_from_signals(signals);
        let mut tajemstvi = [0u8; 16];
        let mut i: usize = 0;
        while i < 16
            invariant
                i <= 16,
                tajemstvi@.len() == 16,
                forall|j: int|
                    0 <= j < i ==> #[trigger] tajemstvi@[j] == secret_byte_of(seed, j, ticks@[j]),
            decreases 16 - i,
        {
            tajemstvi[i] = secret_byte(seed, i, ticks[i]);
            i = i + 1;
        }
        NahodaGenerator { state: seed, counter: 0, tajemstvi }
    }

    /// Seeds a generator from ambient signals, reading a fresh clock tick for
    /// each of the sixteen secret bytes. Which ticks come back is up to the
    /// clock, so only the state and counter are fixed here; the secret is
    /// `from_signals_and_ticks`'s for the ticks read.
    pub fn from_signals(signals: &AmbientSignals) -> (g: Self)
        ensures
            g@.state == seed_of(*signals),
            g@.counter == 0,
            g@.secret.len() == 16,
    {
        let mut ticks = [0u32; 16];
        let mut i: usize = 0;
        while i < 16
            invariant
                i <= 16,
            decreases 16 - i,
        {
            ticks[i] = subsec_nanos_now();
            i = i + 1;
        }
        Self::from_signals_and_ticks(signals, &ticks)
    }

    /// A generator with a given seed and secret, and a counter of zero.
    pub fn from_seed(seed: u128, secret: [u8; 16]) -> (g: Self)
        ensures
            g@.state == seed,
            g@.counter == 0,
            g@.secret == secret@,
    {
        NahodaGenerator { state: seed, counter: 0, tajemstvi: secret }
    }

    /// The mixing register.
    pub fn state(&self) -> (r: u128)
        ensures
            r == self@.state,
    {
        self.state
    }

    /// The number of draws so far, modulo 2^64.
    pub fn counter(&self) -> (r: u64)
        ensures
            r == self@.counter,
    {
        self.counter
    }

    /// The sixteen secret bytes.
    pub fn secret(&self) -> (r: [u8; 16])
        ensures
            r@ == self@.secret,
    {
        self.tajemstvi
    }

    /// One draw with a given clock reading: bump the counter, advance the
    /// state, then scramble state and counter into the output.
    pub fn dalsi_cislo_at(&mut self, clock_nanos: u128) -> (r: u64)
        ensures
            final(self)@.counter == bumped(old(self)@.counter),
            final(self)@.secret == old(self)@.secret,
            final(self)@.state == advance_of(old(self)@.state, old(self)@.secret, clock_nanos),
            r == output_of(final(self)@.state, final(self)@.counter),
    {
        self.counter = self.counter.wrapping_add(1);
        self.state = advance_state(self.state, &self.tajemstvi, clock_nanos);
        let x = avalanche(self.state) ^ rotate_left_u128(self.counter as u128, 33);
        let hash_val = hash_u128(x);
        mix_output(x, hash_val, self.counter)
    }

    /// Draws the next 64-bit value, reading the clock for this draw.
    pub fn dalsi_cislo(&mut self) -> (r: u64)
        ensures
            is_draw(old(self)@, final(self)@, r),
    {
        let clock_nanos = clock_nanos_now();
        let r = self.dalsi_cislo_at(clock_nanos);
        assert(advance_of(old(self)@.state, old(self)@.secret, clock_nanos) == self@.state);
        r
    }

    /// A value in the inclusive range `[min, max]`. Where `max <= min` it is
    /// `min` and the generator is left as it was; otherwise one draw `v` is
    /// made and `min + v % (max - min + 1)` returned.
    pub fn cislo_v_rozsahu(&mut self, min: u64, max: u64) -> (r: u64)
        ensures
            max <= min ==> r == min && final(self)@ == old(self)@,
            min < max ==> exists|v: u64| #[trigger] is_draw(old(self)@, final(self)@, v)
                && r == range_of(min, max, v),
            min < max ==> min <= r <= max,
    {
        if max <= min {
            return min;
        }
        let v = self.dalsi_cislo();
        let r = fit_to_range(min, max, v);
        assert(is_draw(old(self)@, self@, v));
        r
    }
}

/// The counter of a fresh generator after `k` draws.
pub open spec fn counter_after(k: nat) -> u64
    decreases k,
{
    if k == 0 {
        0
    } else {
        bumped(counter_after((k - 1) as nat))
    }
}

/// After `k` draws (through `dalsi_cislo`, `dalsi_cislo_at`, or
/// `cislo_v_rozsahu` with `min < max`), a generator's counter is
/// `k mod 2^64`: it wraps and never fails.
pub proof fn lemma_counter_after_draws(k: nat)
    ensures
        counter_after(k) == k % 0x1_0000_0000_0000_0000,
    decreases k,
{
    if k > 0 {
        lemma_counter_after_draws((k - 1) as nat);
        let m: int = 0x1_0000_0000_0000_0000;
        let p = (k - 1) as int;
        assert(p % m + 1 == m ==> (k as int) % m == 0) by {
            vstd::arithmetic::div_mod::lemma_fundamental_div_mod(p, m);
            if p % m + 1 == m {
                vstd::arithmetic::div_mod::lemma_mod_multiples_basic(p / m + 1, m);
                assert(k as int == (p / m + 1) * m) by (nonlinear_arith)
                    requires
                        p == m * (p / m) + p % m,
                        p % m + 1 == m,
                        k as int == p + 1,
                ;
            }
        }
        assert(p % m + 1 < m ==> (k as int) % m == p % m + 1) by {
            if p % m + 1 < m {
                vstd::arithmetic::div_mod::lemma_add_mod_noop(p, 1, m);
                vstd::arithmetic::div_mod::lemma_small_mod((p % m + 1) as nat, m as nat);
            }
        }
    }
}

/// Every generator holds exactly sixteen secret bytes.
pub proof fn lemma_secret_len(g: NahodaGenerator)
    ensures
        g@.secret.len() == 16,
{
}

} // verus!
