//! Which upgrade markers a tower shows.
use vstd::prelude::*;

verus! {

/// What the markers of a tower depend on: its level, whether it is specialized, and its
/// specialization level (0 if none).
#[derive(Debug, Clone, Copy, PartialEq, Eq, Hash, Structural)]
pub struct IndicatorState(pub u8, pub bool, pub u8);

/// The markers a tower shows.
#[derive(Debug, Clone, Copy, PartialEq, Eq, Structural)]
pub struct IndicatorSet {
    /// A single pennant (level 1).
    pub pennant: bool,
    /// Two cones and a ground ring (top level, not specialized).
    pub twin_cones: bool,
    /// The element's crown with a wide ring (specialized).
    pub crown: bool,
    /// Orbiting particles, one per specialization level.
    pub orbiters: u8,
}

/// The markers for a tower state. `spec_level` is `Some` when the tower has a
/// specialization level.
pub fn indicator_set(level: u8, specialized: bool, spec_level: Option<u8>) -> (r: IndicatorSet)
    ensures
        r.pennant == (level == 1),
        r.twin_cones == (level >= 2 && !specialized),
        r.crown == spec_level is Some,
        r.orbiters == match spec_level {
            Some(n) => n,
            None => 0,
        },
{
    let (crown, orbiters) = match spec_level {
        Some(n) => (true, n),
        None => (false, 0),
    };
    IndicatorSet { pennant: level == 1, twin_cones: level >= 2 && !specialized, crown, orbiters }
}

/// Whether a tower's markers must be rebuilt: its state changed since the last frame (or
/// it has none recorded yet).
pub fn indicators_need_refresh(previous: Option<IndicatorState>, current: IndicatorState) -> (r: bool)
    ensures
        r == (previous != Some(current)),
{
    match previous {
        Some(p) => !(p.0 == current.0 && p.1 == current.1 && p.2 == current.2),
        None => true,
    }
}

} // verus!
