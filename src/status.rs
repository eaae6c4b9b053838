use vstd::prelude::*;

verus! {

/// One minute of block time, in nanoseconds.
pub const MINUTE: u128 = 60_000_000_000;

/// One hour of block time, in nanoseconds.
pub const HOUR: u128 = 3_600_000_000_000;

/// One day of block time, in nanoseconds.
pub const DAY: u128 = 86_400_000_000_000;

/// Health of a pet, derived from its starving deadline and the current time.
#[derive(Debug, Clone, Copy, PartialEq, Eq, Structural)]
pub enum Status {
    HAPPY,
    HUNGRY,
    STARVING,
    DYING,
}

/// The health classification: a deadline strictly more than 16 hours ahead is
/// happy, one strictly between 12 and 16 hours ahead is hungry, one strictly
/// between 8 and 12 hours ahead is starving; everything else, a deadline
/// already past included, is dying.
pub open spec fn status_spec(deadline: int, now: int) -> Status {
    if deadline > now + 16 * HOUR {
        Status::HAPPY
    } else if deadline > now + 12 * HOUR && deadline < now + 16 * HOUR {
        Status::HUNGRY
    } else if deadline > now + 8 * HOUR && deadline < now + 12 * HOUR {
        Status::STARVING
    } else {
        Status::DYING
    }
}

/// Classifies a starving deadline against the current time.
pub fn status_at(deadline: u128, now: u64) -> (r: Status)
    ensures
        r == status_spec(deadline as int, now as int),
{
    let now = now as u128;
    if deadline > now + 16 * HOUR {
        Status::HAPPY
    } else if deadline > now + 12 * HOUR && deadline < now + 16 * HOUR {
        Status::HUNGRY
    } else if deadline > now + 8 * HOUR && deadline < now + 12 * HOUR {
        Status::STARVING
    } else {
        Status::DYING
    }
}

/// The classification yields exactly one of the four states for every pair
/// of deadline and time, and a deadline already behind the current time
/// always yields `DYING`.
pub proof fn lemma_status_total(deadline: int, now: int)
    ensures
        status_spec(deadline, now) == Status::HAPPY || status_spec(deadline, now)
            == Status::HUNGRY || status_spec(deadline, now) == Status::STARVING
            || status_spec(deadline, now) == Status::DYING,
        deadline < now ==> status_spec(deadline, now) == Status::DYING,
{
}

} // verus!
