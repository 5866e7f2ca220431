use vstd::prelude::*;

verus! {

/// Fewest values the command line may ask for.
pub const MIN_COUNT: usize = 1;

/// Most values the command line may ask for.
pub const MAX_COUNT: usize = 100;

/// A requested count of values, clamped into `[MIN_COUNT, MAX_COUNT]`.
pub fn clamp_count(n: usize) -> (r: usize)
    ensures
        MIN_COUNT <= r <= MAX_COUNT,
        MIN_COUNT <= n <= MAX_COUNT ==> r == n,
        n < MIN_COUNT ==> r == MIN_COUNT,
        n > MAX_COUNT ==> r == MAX_COUNT,
{
    if n < MIN_COUNT {
        MIN_COUNT
    } else if n > MAX_COUNT {
        MAX_COUNT
    } else {
        n
    }
}

} // verus!
