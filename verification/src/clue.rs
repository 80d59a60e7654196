//! Difficulty tiers of the clue-scroll activity, in hiscores column order.

use vstd::prelude::*;

verus! {

#[derive(Debug, Clone, Copy, PartialEq, Eq, Hash, Structural)]
pub enum ClueTier {
    Beginner,
    Easy,
    Medium,
    Hard,
    Elite,
    Master,
}

/// The position of each variant in declaration order; this order fixes the
/// column layout of the hiscores feed.
pub open spec fn clue_tier_index_spec(x: ClueTier) -> int {
    match x {
        ClueTier::Beginner => 0,
        ClueTier::Easy => 1,
        ClueTier::Medium => 2,
        ClueTier::Hard => 3,
        ClueTier::Elite => 4,
        ClueTier::Master => 5,
    }
}

/// The variant at a given declaration-order position.
pub open spec fn clue_tier_at_index_spec(i: int) -> ClueTier {
    if i == 0 { ClueTier::Beginner }
    else if i == 1 { ClueTier::Easy }
    else if i == 2 { ClueTier::Medium }
    else if i == 3 { ClueTier::Hard }
    else if i == 4 { ClueTier::Elite }
    else { ClueTier::Master }
}

impl ClueTier {
    /// This variant's position in declaration order.
    pub fn index(&self) -> (r: usize)
        ensures
            r == clue_tier_index_spec(*self),
            0 <= clue_tier_index_spec(*self) < 6,
            clue_tier_at_index_spec(clue_tier_index_spec(*self)) == *self,
    {
        match self {
        ClueTier::Beginner => 0,
        ClueTier::Easy => 1,
        ClueTier::Medium => 2,
        ClueTier::Hard => 3,
        ClueTier::Elite => 4,
        ClueTier::Master => 5,
        }
    }
}

/// Positions and variants correspond one to one.
pub proof fn lemma_clue_tier_index_inverse(x: ClueTier, i: int)
    ensures
        clue_tier_at_index_spec(clue_tier_index_spec(x)) == x,
        0 <= i < 6 ==> clue_tier_index_spec(clue_tier_at_index_spec(i)) == i,
{
}

} // verus!
