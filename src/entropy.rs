use vstd::prelude::*;
use crate::ambient::{env_pair_hash, hash_env_pair};
use crate::bits::{rotl8, rotate_left_u8};

verus! {

/// The ambient values that seeding folds together. Addresses are taken as
/// opaque integers and never dereferenced.
pub struct AmbientSignals {
    /// Wall-clock time in nanoseconds since the epoch (zero if unreadable).
    pub clock_nanos: u128,
    /// Address of a local variable.
    pub local_addr: usize,
    /// Address of a second, distinct local variable.
    pub second_local_addr: usize,
    /// Identifier of the current process.
    pub process_id: u32,
    /// Address associated with the calling thread's handle.
    pub thread_addr: usize,
    /// Every environment variable visible to the process, as name and value.
    pub env_vars: Vec<(String, String)>,
    /// Address of a stack-allocated byte.
    pub stack_byte_addr: usize,
    /// Address of a heap buffer that was released right after.
    pub heap_addr: usize,
}

/// XOR of the digests of the first `n` environment pairs; each pair is hashed
/// on its own, so the order of the pairs does not matter to the result.
pub open spec fn env_fold(vars: Seq<(String, String)>, n: nat) -> u128
    decreases n,
{
    if n == 0 {
        0
    } else {
        env_fold(vars, (n - 1) as nat) ^ (env_pair_hash(vars[n - 1].0@, vars[n - 1].1@) as u128)
    }
}

/// Clock, the two local addresses (the second shifted left by 37), process id
/// and thread address, combined before the environment is folded in.
pub open spec fn base_seed(s: AmbientSignals) -> u128 {
    s.clock_nanos ^ (s.local_addr as u128) ^ ((s.second_local_addr as u128) << 37u128)
        ^ (s.process_id as u128) ^ (s.thread_addr as u128)
}

/// The initial generator state: every signal XORed in, none skipped.
pub open spec fn seed_of(s: AmbientSignals) -> u128 {
    (base_seed(s) ^ env_fold(s.env_vars@, s.env_vars@.len())) ^ (s.stack_byte_addr as u128)
        ^ (s.heap_addr as u128)
}

/// Secret byte `i`: bits `7i .. 7i + 8` of the seed, rotated left by 3, plus
/// `i`, plus the low byte of a clock tick (all additions wrap).
pub open spec fn secret_byte_of(seed: u128, i: int, tick: u32) -> u8 {
    let b = ((seed >> ((i * 7) as u128)) & 0xffu128) as u8;
    rotl8(b, 3).wrapping_add(i as u8).wrapping_add((tick & 0xffu32) as u8)
}

proof fn lemma_xor_assoc(a: u128, b: u128, c: u128)
    ensures
        (a ^ b) ^ c == a ^ (b ^ c),
{
    assert((a ^ b) ^ c == a ^ (b ^ c)) by (bit_vector);
}

/// Folds the ambient signals into the initial 128-bit state.
pub fn seed_from_signals(s: &AmbientSignals) -> (r: u128)
    ensures
        r == seed_of(*s),
{
    let mut state: u128 = s.clock_nanos ^ (s.local_addr as u128) ^ ((s.second_local_addr as u128)
        << 37u32);
    state = state ^ (s.process_id as u128);
    state = state ^ (s.thread_addr as u128);
    let ghost base = state;
    assert(base == base_seed(*s)) by {
        assert(37u32 as u128 == 37u128);
    }
    assert(state == state ^ 0u128) by (bit_vector);
    let mut i: usize = 0;
    while i < s.env_vars.len()
        invariant
            i <= s.env_vars@.len(),
            state == base ^ env_fold(s.env_vars@, i as nat),
        decreases s.env_vars@.len() - i,
    {
        let h = hash_env_pair(&s.env_vars[i].0, &s.env_vars[i].1);
        proof {
            lemma_xor_assoc(base, env_fold(s.env_vars@, i as nat), h as u128);
        }
        state = state ^ (h as u128);
        i = i + 1;
    }
    state = state ^ (s.stack_byte_addr as u128);
    state = state ^ (s.heap_addr as u128);
    state
}

/// Derives one byte of the secret from the seed, its position and a clock
/// tick taken for this byte alone.
pub fn secret_byte(seed: u128, i: usize, tick: u32) -> (r: u8)
    requires
        i < 16,
    ensures
        r == secret_byte_of(seed, i as int, tick),
{
    let b = ((seed >> (i * 7)) & 0xff) as u8;
    let rotated = rotate_left_u8(b, 3);
    rotated.wrapping_add(i as u8).wrapping_add((tick & 0xff) as u8)
}

} // verus!
