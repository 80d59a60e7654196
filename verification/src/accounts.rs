//! Account state and the levels derived from it: per-skill level, total
//! level and combat level.

use vstd::prelude::*;
use crate::{Level, Xp};
use crate::diaries::DiaryId;
use crate::quests::QuestId;
use crate::skill::Skill;
use crate::xp::{level_from_xp, level_from_xp_spec, lemma_level_from_xp_props};

verus! {

/// A derived single-number summary of an account's combat-relevant levels.
#[derive(Debug, Clone, Copy, PartialEq, Eq, Structural)]
pub struct CombatLevel(pub i32);

/// The cumulative experience an account holds in each tracked skill. The
/// aggregate tracks the twenty-three long-standing skills; a skill without
/// a tracked value here reads as zero experience.
#[derive(Debug, Clone)]
pub struct Skills {
    pub attack: Xp,
    pub defence: Xp,
    pub strength: Xp,
    pub hitpoints: Xp,
    pub ranged: Xp,
    pub prayer: Xp,
    pub magic: Xp,
    pub cooking: Xp,
    pub woodcutting: Xp,
    pub fletching: Xp,
    pub fishing: Xp,
    pub firemaking: Xp,
    pub crafting: Xp,
    pub smithing: Xp,
    pub mining: Xp,
    pub herblore: Xp,
    pub agility: Xp,
    pub thieving: Xp,
    pub slayer: Xp,
    pub farming: Xp,
    pub runecraft: Xp,
    pub hunter: Xp,
    pub construction: Xp,
}

/// The experience an account holds in a skill; zero for a skill the
/// aggregate does not track.
pub open spec fn skill_xp_spec(skills: Skills, skill: Skill) -> int {
    match skill {
        Skill::Attack => skills.attack.0 as int,
        Skill::Defence => skills.defence.0 as int,
        Skill::Strength => skills.strength.0 as int,
        Skill::Hitpoints => skills.hitpoints.0 as int,
        Skill::Ranged => skills.ranged.0 as int,
        Skill::Prayer => skills.prayer.0 as int,
        Skill::Magic => skills.magic.0 as int,
        Skill::Cooking => skills.cooking.0 as int,
        Skill::Woodcutting => skills.woodcutting.0 as int,
        Skill::Fletching => skills.fletching.0 as int,
        Skill::Fishing => skills.fishing.0 as int,
        Skill::Firemaking => skills.firemaking.0 as int,
        Skill::Crafting => skills.crafting.0 as int,
        Skill::Smithing => skills.smithing.0 as int,
        Skill::Mining => skills.mining.0 as int,
        Skill::Herblore => skills.herblore.0 as int,
        Skill::Agility => skills.agility.0 as int,
        Skill::Thieving => skills.thieving.0 as int,
        Skill::Slayer => skills.slayer.0 as int,
        Skill::Farming => skills.farming.0 as int,
        Skill::Runecraft => skills.runecraft.0 as int,
        Skill::Hunter => skills.hunter.0 as int,
        Skill::Construction => skills.construction.0 as int,
        Skill::Sailing => 0,
    }
}

/// The level an account has reached in a skill.
pub open spec fn skill_level_spec(skills: Skills, skill: Skill) -> int {
    level_from_xp_spec(skill_xp_spec(skills, skill))
}

/// The sum of the levels of the twenty-three tracked skills.
pub open spec fn total_level_spec(skills: Skills) -> int {
    skill_level_spec(skills, Skill::Attack) + skill_level_spec(skills, Skill::Defence)
        + skill_level_spec(skills, Skill::Strength) + skill_level_spec(skills, Skill::Hitpoints)
        + skill_level_spec(skills, Skill::Ranged) + skill_level_spec(skills, Skill::Prayer)
        + skill_level_spec(skills, Skill::Magic) + skill_level_spec(skills, Skill::Cooking)
        + skill_level_spec(skills, Skill::Woodcutting) + skill_level_spec(skills, Skill::Fletching)
        + skill_level_spec(skills, Skill::Fishing) + skill_level_spec(skills, Skill::Firemaking)
        + skill_level_spec(skills, Skill::Crafting) + skill_level_spec(skills, Skill::Smithing)
        + skill_level_spec(skills, Skill::Mining) + skill_level_spec(skills, Skill::Herblore)
        + skill_level_spec(skills, Skill::Agility) + skill_level_spec(skills, Skill::Thieving)
        + skill_level_spec(skills, Skill::Slayer) + skill_level_spec(skills, Skill::Farming)
        + skill_level_spec(skills, Skill::Runecraft) + skill_level_spec(skills, Skill::Hunter)
        + skill_level_spec(skills, Skill::Construction)
}

/// The combat-level formula over the combat skills' levels, computed in
/// exact arithmetic over a common denominator of eighty: the base term
/// weighs defence, hitpoints and half the prayer level (floored); the
/// ranged and magic terms floor three halves of their level before
/// scaling; the best of the melee, ranged and magic terms is added; the
/// floor of the sum is the combat level.
pub open spec fn combat_level_spec(skills: Skills) -> int {
    let defence = skill_level_spec(skills, Skill::Defence);
    let hitpoints = skill_level_spec(skills, Skill::Hitpoints);
    let prayer = skill_level_spec(skills, Skill::Prayer);
    let attack = skill_level_spec(skills, Skill::Attack);
    let strength = skill_level_spec(skills, Skill::Strength);
    let ranged = skill_level_spec(skills, Skill::Ranged);
    let magic = skill_level_spec(skills, Skill::Magic);
    let base80 = 20 * (defence + hitpoints + prayer / 2);
    let melee80 = 26 * (attack + strength);
    let range80 = 26 * (3 * ranged / 2);
    let mage80 = 26 * (3 * magic / 2);
    let best80 = if melee80 >= range80 && melee80 >= mage80 {
        melee80
    } else if range80 >= mage80 {
        range80
    } else {
        mage80
    };
    (base80 + best80) / 80
}

impl Skills {
    /// The total level: the standard arithmetic sum of the per-skill
    /// levels of the twenty-three tracked skills.
    pub fn total_level(&self) -> (r: Level)
        ensures
            r.0 == total_level_spec(*self),
    {
        proof {
            lemma_all_levels_bounded(*self);
        }
        let mut sum: i32 = 0;
        sum = sum + level_from_xp(self.attack).0;
        sum = sum + level_from_xp(self.defence).0;
        sum = sum + level_from_xp(self.strength).0;
        sum = sum + level_from_xp(self.hitpoints).0;
        sum = sum + level_from_xp(self.ranged).0;
        sum = sum + level_from_xp(self.prayer).0;
        sum = sum + level_from_xp(self.magic).0;
        sum = sum + level_from_xp(self.cooking).0;
        sum = sum + level_from_xp(self.woodcutting).0;
        sum = sum + level_from_xp(self.fletching).0;
        sum = sum + level_from_xp(self.fishing).0;
        sum = sum + level_from_xp(self.firemaking).0;
        sum = sum + level_from_xp(self.crafting).0;
        sum = sum + level_from_xp(self.smithing).0;
        sum = sum + level_from_xp(self.mining).0;
        sum = sum + level_from_xp(self.herblore).0;
        sum = sum + level_from_xp(self.agility).0;
        sum = sum + level_from_xp(self.thieving).0;
        sum = sum + level_from_xp(self.slayer).0;
        sum = sum + level_from_xp(self.farming).0;
        sum = sum + level_from_xp(self.runecraft).0;
        sum = sum + level_from_xp(self.hunter).0;
        sum = sum + level_from_xp(self.construction).0;
        Level(sum)
    }

    /// The combat level, per `combat_level_spec`: exact rational
    /// arithmetic over a common denominator, floored once at the end.
    pub fn combat_level(&self) -> (r: CombatLevel)
        ensures
            r.0 == combat_level_spec(*self),
    {
        proof {
            lemma_all_levels_bounded(*self);
        }
        let defence = level_from_xp(self.defence).0;
        let hitpoints = level_from_xp(self.hitpoints).0;
        let prayer = level_from_xp(self.prayer).0;
        let attack = level_from_xp(self.attack).0;
        let strength = level_from_xp(self.strength).0;
        let ranged = level_from_xp(self.ranged).0;
        let magic = level_from_xp(self.magic).0;
        let base80 = 20 * (defence + hitpoints + prayer / 2);
        let melee80 = 26 * (attack + strength);
        let range80 = 26 * (3 * ranged / 2);
        let mage80 = 26 * (3 * magic / 2);
        let best80 = if melee80 >= range80 && melee80 >= mage80 {
            melee80
        } else if range80 >= mage80 {
            range80
        } else {
            mage80
        };
        CombatLevel((base80 + best80) / 80)
    }
}

/// Every derived skill level lies between 1 and 99.
proof fn lemma_all_levels_bounded(skills: Skills)
    ensures
        forall|skill: Skill| 1 <= #[trigger] skill_level_spec(skills, skill) <= 99,
{
    assert forall|skill: Skill| 1 <= #[trigger] skill_level_spec(skills, skill) <= 99 by {
        lemma_level_from_xp_props(skill_xp_spec(skills, skill));
    }
}

/// One player's state: display name, per-skill experience, and the quests
/// and diaries completed so far.
#[derive(Debug, Clone)]
pub struct Account {
    pub display_name: String,
    pub skills: Skills,
    pub completed_quests: Vec<QuestId>,
    pub completed_diaries: Vec<DiaryId>,
}

impl Account {
    /// The level this account has reached in a skill; a skill the
    /// aggregate does not track reads as level 1.
    pub fn get_level(&self, skill: &Skill) -> (r: Level)
        ensures
            r.0 == skill_level_spec(self.skills, *skill),
    {
        let xp = match skill {
            Skill::Attack => self.skills.attack,
            Skill::Defence => self.skills.defence,
            Skill::Strength => self.skills.strength,
            Skill::Hitpoints => self.skills.hitpoints,
            Skill::Ranged => self.skills.ranged,
            Skill::Prayer => self.skills.prayer,
            Skill::Magic => self.skills.magic,
            Skill::Cooking => self.skills.cooking,
            Skill::Woodcutting => self.skills.woodcutting,
            Skill::Fletching => self.skills.fletching,
            Skill::Fishing => self.skills.fishing,
            Skill::Firemaking => self.skills.firemaking,
            Skill::Crafting => self.skills.crafting,
            Skill::Smithing => self.skills.smithing,
            Skill::Mining => self.skills.mining,
            Skill::Herblore => self.skills.herblore,
            Skill::Agility => self.skills.agility,
            Skill::Thieving => self.skills.thieving,
            Skill::Slayer => self.skills.slayer,
            Skill::Farming => self.skills.farming,
            Skill::Runecraft => self.skills.runecraft,
            Skill::Hunter => self.skills.hunter,
            Skill::Construction => self.skills.construction,
            Skill::Sailing => Xp(0),
        };
        level_from_xp(xp)
    }

    /// The total level of this account's skills.
    pub fn total_level(&self) -> (r: Level)
        ensures
            r.0 == total_level_spec(self.skills),
    {
        self.skills.total_level()
    }

    /// The combat level of this account's skills.
    pub fn combat_level(&self) -> (r: CombatLevel)
        ensures
            r.0 == combat_level_spec(self.skills),
    {
        self.skills.combat_level()
    }
}

} // verus!
