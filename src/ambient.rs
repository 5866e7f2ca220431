use vstd::prelude::*;

verus! {

/// Nanoseconds in 2^64 seconds: no reading of the clock reaches it.
pub const CLOCK_NANOS_LIMIT: u128 = 18_446_744_073_709_551_616_000_000_000;

/// The 64-bit digest that std's `DefaultHasher`, freshly made with `new`,
/// gives for one `u128` written into it.
pub uninterp spec fn u128_hash(x: u128) -> u64;

/// The 64-bit digest that std's `DefaultHasher`, freshly made with `new`,
/// gives for a key string followed by a value string.
pub uninterp spec fn env_pair_hash(key: Seq<char>, value: Seq<char>) -> u64;

/// Relies on `SystemTime::now`, `duration_since(UNIX_EPOCH)` and
/// `Duration::as_nanos`: the current wall-clock time in nanoseconds since the
/// epoch, or zero where the clock reads earlier than the epoch. A `Duration`
/// holds `u64` whole seconds and under one billion nanoseconds, which bounds
/// the value; nothing else is known of it.
#[verifier::external_body]
pub(crate) fn clock_nanos_now() -> (r: u128)
    ensures
        r < CLOCK_NANOS_LIMIT,
{
    std::time::SystemTime::now().duration_since(std::time::UNIX_EPOCH).unwrap_or_default().as_nanos()
}

/// Relies on `SystemTime::now`, `duration_since(UNIX_EPOCH)` and
/// `Duration::subsec_nanos`: the fractional second of the current wall-clock
/// time in nanoseconds (zero where the clock reads earlier than the epoch),
/// which std documents as less than one billion.
#[verifier::external_body]
pub(crate) fn subsec_nanos_now() -> (r: u32)
    ensures
        r < 1_000_000_000,
{
    std::time::SystemTime::now().duration_since(std::time::UNIX_EPOCH).unwrap_or_default().subsec_nanos()
}

/// Relies on `DefaultHasher::new`, `Hash::hash` for `u128` and
/// `Hasher::finish`: std documents every hasher made by `new` as the same as
/// every other made by `new`, so the digest depends on `x` alone.
#[verifier::external_body]
pub(crate) fn hash_u128(x: u128) -> (r: u64)
    ensures
        r == u128_hash(x),
{
    let mut hasher = std::collections::hash_map::DefaultHasher::new();
    std::hash::Hash::hash(&x, &mut hasher);
    std::hash::Hasher::finish(&hasher)
}

/// Relies on `DefaultHasher::new`, `Hash::hash` for `String` and
/// `Hasher::finish`: the key is written, then the value, into a fresh hasher
/// made by `new`; std documents every such hasher as the same, so the digest
/// depends on the two strings alone.
#[verifier::external_body]
pub(crate) fn hash_env_pair(key: &String, value: &String) -> (r: u64)
    ensures
        r == env_pair_hash(key@, value@),
{
    let mut hasher = std::collections::hash_map::DefaultHasher::new();
    std::hash::Hash::hash(key, &mut hasher);
    std::hash::Hash::hash(value, &mut hasher);
    std::hash::Hasher::finish(&hasher)
}

} // verus!
