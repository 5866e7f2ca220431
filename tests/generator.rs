use std::collections::hash_map::DefaultHasher;
use std::hash::{Hash, Hasher};
use std::time::{SystemTime, UNIX_EPOCH};

use nahoda::generator::{INCREMENT, MULTIPLIER};
use nahoda::{
    advance_state, avalanche, clamp_count, fit_to_range, mix_output, AmbientSignals,
    NahodaGenerator,
};

const SECRET: [u8; 16] = [3, 141, 59, 26, 53, 58, 97, 93, 238, 46, 26, 43, 38, 32, 79, 50];

/// The draw written out with std's own operations.
fn expected_draw(state: u128, counter: u64, secret: &[u8; 16], clock: u128) -> (u128, u64, u64) {
    let counter = counter.wrapping_add(1);
    let mut s = state.wrapping_mul(6364136223846793005).wrapping_add(1442695040888963407);
    for (i, &b) in secret.iter().enumerate() {
        if i % 3 == 0 {
            s ^= (b as u128) << ((i * 11) % 121);
        } else if i % 3 == 1 {
            s = s.rotate_left((b as u32) % 61);
        } else {
            s = s.wrapping_add((b as u128) << 42);
        }
    }
    s ^= clock;
    let mut x = s;
    x ^= x >> 12;
    x ^= x << 25;
    x ^= x >> 27;
    x ^= (counter as u128).rotate_left(33);
    let mut hasher = DefaultHasher::new();
    x.hash(&mut hasher);
    let h = hasher.finish();
    let out = (h ^ ((x >> 64) as u64) ^ (x as u64)).rotate_right(((counter % 63) + 1) as u32);
    (s, counter, out)
}

fn live_signals(local_addr: usize) -> AmbientSignals {
    AmbientSignals {
        clock_nanos: SystemTime::now().duration_since(UNIX_EPOCH).unwrap_or_default().as_nanos(),
        local_addr,
        second_local_addr: local_addr + 8,
        process_id: 4242,
        thread_addr: 0x7f00_0000_1000,
        env_vars: Vec::new(),
        stack_byte_addr: 0x7ffd_0000_2000,
        heap_addr: 0x5555_0000_3000,
    }
}

#[test]
fn advance_with_zero_secret_is_multiply_add_then_clock() {
    assert_eq!(advance_state(1, &[0u8; 16], 0), MULTIPLIER + INCREMENT);
    assert_eq!(advance_state(0, &[0u8; 16], 5), INCREMENT ^ 5);
    assert_eq!(MULTIPLIER, 6364136223846793005);
    assert_eq!(INCREMENT, 1442695040888963407);
}

#[test]
fn advance_folds_the_secret() {
    for clock in [0u128, 1, 123_456_789_000] {
        for state in [0u128, 1, u128::MAX, 0xdead_beef] {
            let (s, _, _) = expected_draw(state, 0, &SECRET, clock);
            assert_eq!(advance_state(state, &SECRET, clock), s);
        }
    }
}

#[test]
fn avalanche_values() {
    assert_eq!(avalanche(0), 0);
    assert_eq!(avalanche(1), 1 | (1u128 << 25));
    let x: u128 = 0x0123_4567_89ab_cdef_0011_2233_4455_6677;
    let mut y = x;
    y ^= y >> 12;
    y ^= y << 25;
    y ^= y >> 27;
    assert_eq!(avalanche(x), y);
}

#[test]
fn mix_output_values() {
    // counter 0 rotates right by one
    assert_eq!(mix_output(0, 1, 0), 1u64 << 63);
    // the two halves cancel
    assert_eq!(mix_output((5u128 << 64) | 5, 0, 0), 0);
    // counter 62 rotates by 63, counter 63 by one again
    assert_eq!(mix_output(0, 2, 62), 4);
    assert_eq!(mix_output(0, 2, 63), 1);
}

#[test]
fn draw_matches_written_out_algorithm() {
    let mut g = NahodaGenerator::from_seed(0x0f0e_0d0c_0b0a_0908_0706_0504_0302_0100, SECRET);
    let mut state = g.state();
    let mut counter = 0u64;
    for step in 0..20u128 {
        let clock = 1_700_000_000_000_000_000 + step * 977;
        let (s, c, out) = expected_draw(state, counter, &SECRET, clock);
        assert_eq!(g.dalsi_cislo_at(clock), out);
        assert_eq!(g.state(), s);
        assert_eq!(g.counter(), c);
        assert_eq!(g.secret(), SECRET);
        state = s;
        counter = c;
    }
}

#[test]
fn single_bit_flip_scatters_output() {
    let seed: u128 = 0x9e37_79b9_7f4a_7c15_f39c_c060_5ced_c834;
    let clock: u128 = 1_700_000_000_123_456_789;
    let mut base = NahodaGenerator::from_seed(seed, SECRET);
    let first = base.dalsi_cislo_at(clock);
    let mut total = 0u32;
    for bit in 0..128u32 {
        let mut flipped = NahodaGenerator::from_seed(seed ^ (1u128 << bit), SECRET);
        let diff = (first ^ flipped.dalsi_cislo_at(clock)).count_ones();
        assert!(diff > 0);
        total += diff;
    }
    let average = total / 128;
    assert!((24..=40).contains(&average));
}

#[test]
fn draws_return_many_values() {
    let mut g = NahodaGenerator::from_seed(42, SECRET);
    let values: Vec<u64> = (0..1000).map(|_| g.dalsi_cislo()).collect();
    assert_eq!(values.len(), 1000);
    let mut sorted = values.clone();
    sorted.sort();
    sorted.dedup();
    assert!(sorted.len() > 990);
}

#[test]
fn range_with_max_below_min_returns_min() {
    let mut g = NahodaGenerator::from_seed(7, SECRET);
    for _ in 0..100 {
        assert_eq!(g.cislo_v_rozsahu(10, 5), 10);
    }
    assert_eq!(g.counter(), 0);
    assert_eq!(g.state(), 7);
}

#[test]
fn range_with_equal_bounds_returns_it() {
    let mut g = NahodaGenerator::from_seed(7, SECRET);
    for _ in 0..100 {
        assert_eq!(g.cislo_v_rozsahu(7, 7), 7);
    }
}

#[test]
fn range_zero_to_nine_stays_inclusive() {
    let mut g = NahodaGenerator::from_seed(99, SECRET);
    let mut seen = [false; 10];
    for _ in 0..2000 {
        let v = g.cislo_v_rozsahu(0, 9);
        assert!(v <= 9);
        seen[v as usize] = true;
    }
    assert!(seen.iter().all(|&s| s));
}

#[test]
fn range_full_width_and_offsets() {
    let mut g = NahodaGenerator::from_seed(5, SECRET);
    let _ = g.cislo_v_rozsahu(0, u64::MAX);
    for _ in 0..200 {
        let v = g.cislo_v_rozsahu(u64::MAX - 3, u64::MAX);
        assert!(v >= u64::MAX - 3);
        let w = g.cislo_v_rozsahu(1000, 1010);
        assert!((1000..=1010).contains(&w));
    }
}

#[test]
fn fit_to_range_values() {
    assert_eq!(fit_to_range(10, 5, 12345), 10);
    assert_eq!(fit_to_range(7, 7, 12345), 7);
    assert_eq!(fit_to_range(0, 9, 123), 3);
    assert_eq!(fit_to_range(5, 10, 7), 6);
    assert_eq!(fit_to_range(0, u64::MAX, 987654321), 987654321);
    assert_eq!(fit_to_range(1, u64::MAX, u64::MAX), 1);
    assert_eq!(fit_to_range(u64::MAX - 1, u64::MAX, 3), u64::MAX);
}

#[test]
fn counter_counts_draws() {
    let mut g = NahodaGenerator::from_seed(1, SECRET);
    assert_eq!(g.counter(), 0);
    for k in 1..=60u64 {
        if k % 2 == 0 {
            let _ = g.dalsi_cislo();
        } else {
            let _ = g.cislo_v_rozsahu(0, 9);
        }
        assert_eq!(g.counter(), k);
    }
}

#[test]
fn successive_generators_differ() {
    let local = 0x7ffd_1234_5670usize;
    let mut differ = 0;
    for _ in 0..20 {
        let mut a = NahodaGenerator::from_signals(&live_signals(local));
        let mut b = NahodaGenerator::from_signals(&live_signals(local));
        if a.dalsi_cislo() != b.dalsi_cislo() {
            differ += 1;
        }
    }
    assert!(differ >= 18);
}

#[test]
fn count_is_clamped() {
    assert_eq!(clamp_count(0), 1);
    assert_eq!(clamp_count(1), 1);
    assert_eq!(clamp_count(55), 55);
    assert_eq!(clamp_count(100), 100);
    assert_eq!(clamp_count(101), 100);
    assert_eq!(clamp_count(usize::MAX), 100);
}
