use vstd::prelude::*;

use crate::pet::PetEvolution;

verus! {

/// The phase that a pet at `level` reaches from `phase`: while a next stage
/// exists and the level meets the current stage's threshold, it advances.
pub open spec fn advanced_phase(stages: Seq<PetEvolution>, level: int, phase: int) -> int
    decreases stages.len() - phase,
{
    if 1 <= phase < stages.len() && level >= stages[phase - 1].next_evolution_level {
        advanced_phase(stages, level, phase + 1)
    } else {
        phase
    }
}

/// Evolution only moves forward, and from a phase within the track it stays
/// within the track.
pub proof fn lemma_advance_bounds(stages: Seq<PetEvolution>, level: int, phase: int)
    ensures
        advanced_phase(stages, level, phase) >= phase,
        1 <= phase <= stages.len() ==> advanced_phase(stages, level, phase) <= stages.len(),
    decreases stages.len() - phase,
{
    if 1 <= phase < stages.len() && level >= stages[phase - 1].next_evolution_level {
        lemma_advance_bounds(stages, level, phase + 1);
    }
}

/// Walks the track from `phase` as `advanced_phase` says.
pub fn advance_phase(stages: &Vec<PetEvolution>, level: u128, phase: u128) -> (r: u128)
    ensures
        r as int == advanced_phase(stages@, level as int, phase as int),
{
    let mut p = phase;
    while 1 <= p && p < stages.len() as u128 && level >= stages[(p - 1) as usize].next_evolution_level
        invariant
            p >= phase,
            advanced_phase(stages@, level as int, p as int) == advanced_phase(
                stages@,
                level as int,
                phase as int,
            ),
        decreases stages.len() - p,
    {
        p = p + 1;
    }
    p
}

} // verus!
