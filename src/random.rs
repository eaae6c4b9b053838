use vstd::prelude::*;

verus! {

/// The value that `seed` picks in the range from `lo` to `hi`, both included.
pub open spec fn roll_spec(lo: int, hi: int, seed: int) -> int {
    lo + seed % (hi - lo + 1)
}

/// Maps a random seed onto the range from `lo` to `hi`, both included. The
/// seed comes from the host; the mapping is deterministic, so that a battle
/// or a species draw can be replayed from its seed.
pub fn random_in_range(lo: u64, hi: u64, seed: u64) -> (r: u64)
    requires
        lo <= hi,
    ensures
        r as int == roll_spec(lo as int, hi as int, seed as int),
        lo <= r <= hi,
{
    let span: u128 = (hi - lo) as u128 + 1;
    let offset: u128 = seed as u128 % span;
    (lo as u128 + offset) as u64
}

} // verus!
