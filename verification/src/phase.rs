//! The four-element phase domain and its join.
//!
//! A phase records *why* a result holds: `ALIVE` means directly computed with
//! no failure or memory involved; `JAM` means a hard boundary or failure was
//! crossed and is sticky; `MEM` means the value was recovered from, or forced
//! into, persisted memory; `VAC` means vacuous, no determinate value exists.

use vstd::prelude::*;

verus! {

/// A phase tag. Immutable; forms a lattice under [`Phase::join`], with `JAM`
/// absorbing.
#[derive(Debug, Clone, Copy, PartialEq, Eq, Structural)]
pub enum Phase {
    ALIVE,
    JAM,
    MEM,
    VAC,
}

/// The join of two phases, under the dominance order
/// `JAM > MEM > VAC > ALIVE`: the result is the more dominant of the two.
///
/// `JAM` dominates unconditionally. Among the rest, one consistent total
/// order had to be fixed; this library takes memory recovery (`MEM`) as more
/// significant than vacuity (`VAC`), and vacuity as more significant than a
/// plain computed result (`ALIVE`), and applies that order everywhere a
/// binary connector combines the phases of its operands.
pub open spec fn spec_join(a: Phase, b: Phase) -> Phase {
    if a == Phase::JAM || b == Phase::JAM {
        Phase::JAM
    } else if a == Phase::MEM || b == Phase::MEM {
        Phase::MEM
    } else if a == Phase::VAC || b == Phase::VAC {
        Phase::VAC
    } else {
        Phase::ALIVE
    }
}

impl Phase {
    /// Combines two phases; see [`spec_join`] for the dominance order.
    pub fn join(self, other: Phase) -> (r: Phase)
        ensures
            r == spec_join(self, other),
            self == Phase::JAM || other == Phase::JAM ==> r == Phase::JAM,
    {
        match (self, other) {
            (Phase::JAM, _) | (_, Phase::JAM) => Phase::JAM,
            (Phase::MEM, _) | (_, Phase::MEM) => Phase::MEM,
            (Phase::VAC, _) | (_, Phase::VAC) => Phase::VAC,
            _ => Phase::ALIVE,
        }
    }
}

/// The spelling of each phase tag, as adapters print it.
pub open spec fn spec_phase_name(p: Phase) -> Seq<char> {
    match p {
        Phase::ALIVE => "ALIVE"@,
        Phase::JAM => "JAM"@,
        Phase::MEM => "MEM"@,
        Phase::VAC => "VAC"@,
    }
}

/// The printable name of a phase tag.
pub fn phase_to_str(p: &Phase) -> (r: &'static str)
    ensures
        r@ == spec_phase_name(*p),
{
    match p {
        Phase::ALIVE => "ALIVE",
        Phase::JAM => "JAM",
        Phase::MEM => "MEM",
        Phase::VAC => "VAC",
    }
}

} // verus!
