//! The closed catalog of skills, in hiscores column order.

use vstd::prelude::*;

verus! {

#[derive(Debug, Clone, Copy, PartialEq, Eq, Hash, Structural)]
pub enum Skill {
    Attack,
    Defence,
    Strength,
    Hitpoints,
    Ranged,
    Prayer,
    Magic,
    Cooking,
    Woodcutting,
    Fletching,
    Fishing,
    Firemaking,
    Crafting,
    Smithing,
    Mining,
    Herblore,
    Agility,
    Thieving,
    Slayer,
    Farming,
    Runecraft,
    Hunter,
    Construction,
    Sailing,
}

/// The position of each variant in declaration order; this order fixes the
/// column layout of the hiscores feed.
pub open spec fn skill_index_spec(x: Skill) -> int {
    match x {
        Skill::Attack => 0,
        Skill::Defence => 1,
        Skill::Strength => 2,
        Skill::Hitpoints => 3,
        Skill::Ranged => 4,
        Skill::Prayer => 5,
        Skill::Magic => 6,
        Skill::Cooking => 7,
        Skill::Woodcutting => 8,
        Skill::Fletching => 9,
        Skill::Fishing => 10,
        Skill::Firemaking => 11,
        Skill::Crafting => 12,
        Skill::Smithing => 13,
        Skill::Mining => 14,
        Skill::Herblore => 15,
        Skill::Agility => 16,
        Skill::Thieving => 17,
        Skill::Slayer => 18,
        Skill::Farming => 19,
        Skill::Runecraft => 20,
        Skill::Hunter => 21,
        Skill::Construction => 22,
        Skill::Sailing => 23,
    }
}

/// The variant at a given declaration-order position.
pub open spec fn skill_at_index_spec(i: int) -> Skill {
    if i == 0 { Skill::Attack }
    else if i == 1 { Skill::Defence }
    else if i == 2 { Skill::Strength }
    else if i == 3 { Skill::Hitpoints }
    else if i == 4 { Skill::Ranged }
    else if i == 5 { Skill::Prayer }
    else if i == 6 { Skill::Magic }
    else if i == 7 { Skill::Cooking }
    else if i == 8 { Skill::Woodcutting }
    else if i == 9 { Skill::Fletching }
    else if i == 10 { Skill::Fishing }
    else if i == 11 { Skill::Firemaking }
    else if i == 12 { Skill::Crafting }
    else if i == 13 { Skill::Smithing }
    else if i == 14 { Skill::Mining }
    else if i == 15 { Skill::Herblore }
    else if i == 16 { Skill::Agility }
    else if i == 17 { Skill::Thieving }
    else if i == 18 { Skill::Slayer }
    else if i == 19 { Skill::Farming }
    else if i == 20 { Skill::Runecraft }
    else if i == 21 { Skill::Hunter }
    else if i == 22 { Skill::Construction }
    else { Skill::Sailing }
}

impl Skill {
    /// This variant's position in declaration order.
    pub fn index(&self) -> (r: usize)
        ensures
            r == skill_index_spec(*self),
            0 <= skill_index_spec(*self) < 24,
            skill_at_index_spec(skill_index_spec(*self)) == *self,
    {
        match self {
        Skill::Attack => 0,
        Skill::Defence => 1,
        Skill::Strength => 2,
        Skill::Hitpoints => 3,
        Skill::Ranged => 4,
        Skill::Prayer => 5,
        Skill::Magic => 6,
        Skill::Cooking => 7,
        Skill::Woodcutting => 8,
        Skill::Fletching => 9,
        Skill::Fishing => 10,
        Skill::Firemaking => 11,
        Skill::Crafting => 12,
        Skill::Smithing => 13,
        Skill::Mining => 14,
        Skill::Herblore => 15,
        Skill::Agility => 16,
        Skill::Thieving => 17,
        Skill::Slayer => 18,
        Skill::Farming => 19,
        Skill::Runecraft => 20,
        Skill::Hunter => 21,
        Skill::Construction => 22,
        Skill::Sailing => 23,
        }
    }
}

/// Positions and variants correspond one to one.
pub proof fn lemma_skill_index_inverse(x: Skill, i: int)
    ensures
        skill_at_index_spec(skill_index_spec(x)) == x,
        0 <= i < 24 ==> skill_index_spec(skill_at_index_spec(i)) == i,
{
}

} // verus!
