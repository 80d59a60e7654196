//! The quest catalog: every quest the game defines, built once and looked
//! up by id. The catalog is immutable after construction; quest data is
//! recorded exactly as the game publishes it, and the construction's
//! contract pins each entry's id and quest-point value, so the catalog's
//! contents are fixed, not merely its size.

use vstd::prelude::*;
use vstd::string::StringExecFns;
use crate::{Level, Xp};
use crate::quest::{Quest, QuestId, QuestNotFoundError, QuestRequirement, QuestReward, req_like};
use crate::skill::Skill;
use crate::text::str_eq;

verus! {

/// A requirement to have completed the given quest.
fn quest_req(id: QuestId) -> (r: QuestRequirement)
    ensures
        r == QuestRequirement::Quest(id),
{
    QuestRequirement::Quest(id)
}

/// A requirement to have reached the given level in the given skill.
fn skill_req(skill: Skill, level: Level) -> (r: QuestRequirement)
    ensures
        r == (QuestRequirement::Skill { skill, level }),
{
    QuestRequirement::Skill { skill, level }
}

/// A requirement to hold at least the given cumulative quest points.
fn quest_point_req(quest_points: u16) -> (r: QuestRequirement)
    ensures
        r == QuestRequirement::QuestPoints(quest_points),
{
    QuestRequirement::QuestPoints(quest_points)
}

/// An experience reward in the given skill.
fn xp_reward(skill: Skill, xp: Xp) -> (r: QuestReward)
    ensures
        r == (QuestReward::Xp { skill, xp }),
{
    QuestReward::Xp { skill, xp }
}

/// Below Ice Mountain
fn below_ice_mountain() -> (q: Quest)
    ensures
        q.id@ == "below_ice_mountain"@,
        q.name@ == "Below Ice Mountain"@,
        q.quest_points == 1,
        q.requirements@.len() == 1,
        q.rewards@.len() == 0,
        q.wf(),
{
    let q = Quest {
        id: QuestId::new_static("below_ice_mountain"),
        name: String::from_str("Below Ice Mountain"),
        quest_points: 1,
        requirements: vec![
            quest_point_req(16),
        ],
        rewards: Vec::new(),
    };
    q
}

/// Black Knights' Fortress
fn black_knights_fortress() -> (q: Quest)
    ensures
        q.id@ == "black_knights_fortress"@,
        q.name@ == "Black Knights' Fortress"@,
        q.quest_points == 3,
        q.requirements@.len() == 1,
        q.rewards@.len() == 0,
        q.wf(),
{
    let q = Quest {
        id: QuestId::new_static("black_knights_fortress"),
        name: String::from_str("Black Knights' Fortress"),
        quest_points: 3,
        requirements: vec![
            quest_point_req(12),
        ],
        rewards: Vec::new(),
    };
    q
}

/// Cook's Assistant
fn cooks_assistant() -> (q: Quest)
    ensures
        q.id@ == "cooks_assistant"@,
        q.name@ == "Cook's Assistant"@,
        q.quest_points == 1,
        q.requirements@.len() == 0,
        q.rewards@.len() == 1,
        q.wf(),
{
    let q = Quest {
        id: QuestId::new_static("cooks_assistant"),
        name: String::from_str("Cook's Assistant"),
        quest_points: 1,
        requirements: Vec::new(),
        rewards: vec![
            xp_reward(Skill::Cooking, Xp(300)),
        ],
    };
    q
}

/// The Corsair Curse
fn the_corsair_curse() -> (q: Quest)
    ensures
        q.id@ == "the_corsair_curse"@,
        q.name@ == "The Corsair Curse"@,
        q.quest_points == 2,
        q.requirements@.len() == 0,
        q.rewards@.len() == 0,
        q.wf(),
{
    let q = Quest {
        id: QuestId::new_static("the_corsair_curse"),
        name: String::from_str("The Corsair Curse"),
        quest_points: 2,
        requirements: Vec::new(),
        rewards: Vec::new(),
    };
    q
}

/// Demon Slayer
fn demon_slayer() -> (q: Quest)
    ensures
        q.id@ == "demon_slayer"@,
        q.name@ == "Demon Slayer"@,
        q.quest_points == 3,
        q.requirements@.len() == 0,
        q.rewards@.len() == 0,
        q.wf(),
{
    let q = Quest {
        id: QuestId::new_static("demon_slayer"),
        name: String::from_str("Demon Slayer"),
        quest_points: 3,
        requirements: Vec::new(),
        rewards: Vec::new(),
    };
    q
}

/// Doric's Quest
fn dorics_quest() -> (q: Quest)
    ensures
        q.id@ == "dorics_quest"@,
        q.name@ == "Doric's Quest"@,
        q.quest_points == 1,
        q.requirements@.len() == 0,
        q.rewards@.len() == 1,
        q.wf(),
{
    let q = Quest {
        id: QuestId::new_static("dorics_quest"),
        name: String::from_str("Doric's Quest"),
        quest_points: 1,
        requirements: Vec::new(),
        rewards: vec![
            xp_reward(Skill::Mining, Xp(1300)),
        ],
    };
    q
}

/// Dragon Slayer I
fn dragon_slayer_i() -> (q: Quest)
    ensures
        q.id@ == "dragon_slayer_i"@,
        q.name@ == "Dragon Slayer I"@,
        q.quest_points == 2,
        q.requirements@.len() == 1,
        q.rewards@.len() == 2,
        q.wf(),
{
    let q = Quest {
        id: QuestId::new_static("dragon_slayer_i"),
        name: String::from_str("Dragon Slayer I"),
        quest_points: 2,
        requirements: vec![
            quest_point_req(32),
        ],
        rewards: vec![
            xp_reward(Skill::Strength, Xp(18650)),
            xp_reward(Skill::Defence, Xp(18650)),
        ],
    };
    q
}

/// Ernest the Chicken
fn ernest_the_chicken() -> (q: Quest)
    ensures
        q.id@ == "ernest_the_chicken"@,
        q.name@ == "Ernest the Chicken"@,
        q.quest_points == 4,
        q.requirements@.len() == 0,
        q.rewards@.len() == 0,
        q.wf(),
{
    let q = Quest {
        id: QuestId::new_static("ernest_the_chicken"),
        name: String::from_str("Ernest the Chicken"),
        quest_points: 4,
        requirements: Vec::new(),
        rewards: Vec::new(),
    };
    q
}

/// Goblin Diplomacy
fn goblin_diplomacy() -> (q: Quest)
    ensures
        q.id@ == "goblin_diplomacy"@,
        q.name@ == "Goblin Diplomacy"@,
        q.quest_points == 5,
        q.requirements@.len() == 0,
        q.rewards@.len() == 1,
        q.wf(),
{
    let q = Quest {
        id: QuestId::new_static("goblin_diplomacy"),
        name: String::from_str("Goblin Diplomacy"),
        quest_points: 5,
        requirements: Vec::new(),
        rewards: vec![
            xp_reward(Skill::Crafting, Xp(200)),
        ],
    };
    q
}

/// Imp Catcher
fn imp_catcher() -> (q: Quest)
    ensures
        q.id@ == "imp_catcher"@,
        q.name@ == "Imp Catcher"@,
        q.quest_points == 1,
        q.requirements@.len() == 0,
        q.rewards@.len() == 1,
        q.wf(),
{
    let q = Quest {
        id: QuestId::new_static("imp_catcher"),
        name: String::from_str("Imp Catcher"),
        quest_points: 1,
        requirements: Vec::new(),
        rewards: vec![
            xp_reward(Skill::Magic, Xp(875)),
        ],
    };
    q
}

/// The Knight's Sword
fn the_knights_sword() -> (q: Quest)
    ensures
        q.id@ == "the_knights_sword"@,
        q.name@ == "The Knight's Sword"@,
        q.quest_points == 1,
        q.requirements@.len() == 1,
        q.rewards@.len() == 1,
        q.wf(),
{
    let q = Quest {
        id: QuestId::new_static("the_knights_sword"),
        name: String::from_str("The Knight's Sword"),
        quest_points: 1,
        requirements: vec![
            skill_req(Skill::Mining, Level(10)),
        ],
        rewards: vec![
            xp_reward(Skill::Smithing, Xp(12725)),
        ],
    };
    q
}

/// Misthalin Mystery
fn misthalin_mystery() -> (q: Quest)
    ensures
        q.id@ == "misthalin_mystery"@,
        q.name@ == "Misthalin Mystery"@,
        q.quest_points == 1,
        q.requirements@.len() == 0,
        q.rewards@.len() == 1,
        q.wf(),
{
    let q = Quest {
        id: QuestId::new_static("misthalin_mystery"),
        name: String::from_str("Misthalin Mystery"),
        quest_points: 1,
        requirements: Vec::new(),
        rewards: vec![
            xp_reward(Skill::Crafting, Xp(600)),
        ],
    };
    q
}

/// Pirate's Treasure
fn pirates_treasure() -> (q: Quest)
    ensures
        q.id@ == "pirates_treasure"@,
        q.name@ == "Pirate's Treasure"@,
        q.quest_points == 2,
        q.requirements@.len() == 0,
        q.rewards@.len() == 0,
        q.wf(),
{
    let q = Quest {
        id: QuestId::new_static("pirates_treasure"),
        name: String::from_str("Pirate's Treasure"),
        quest_points: 2,
        requirements: Vec::new(),
        rewards: Vec::new(),
    };
    q
}

/// Prince Ali Rescue
fn prince_ali_rescue() -> (q: Quest)
    ensures
        q.id@ == "prince_ali_rescue"@,
        q.name@ == "Prince Ali Rescue"@,
        q.quest_points == 3,
        q.requirements@.len() == 0,
        q.rewards@.len() == 0,
        q.wf(),
{
    let q = Quest {
        id: QuestId::new_static("prince_ali_rescue"),
        name: String::from_str("Prince Ali Rescue"),
        quest_points: 3,
        requirements: Vec::new(),
        rewards: Vec::new(),
    };
    q
}

/// The Restless Ghost
fn the_restless_ghost() -> (q: Quest)
    ensures
        q.id@ == "the_restless_ghost"@,
        q.name@ == "The Restless Ghost"@,
        q.quest_points == 1,
        q.requirements@.len() == 0,
        q.rewards@.len() == 1,
        q.wf(),
{
    let q = Quest {
        id: QuestId::new_static("the_restless_ghost"),
        name: String::from_str("The Restless Ghost"),
        quest_points: 1,
        requirements: Vec::new(),
        rewards: vec![
            xp_reward(Skill::Prayer, Xp(1125)),
        ],
    };
    q
}

/// Romeo & Juliet
fn romeo_and_juliet() -> (q: Quest)
    ensures
        q.id@ == "romeo_and_juliet"@,
        q.name@ == "Romeo & Juliet"@,
        q.quest_points == 5,
        q.requirements@.len() == 0,
        q.rewards@.len() == 0,
        q.wf(),
{
    let q = Quest {
        id: QuestId::new_static("romeo_and_juliet"),
        name: String::from_str("Romeo & Juliet"),
        quest_points: 5,
        requirements: Vec::new(),
        rewards: Vec::new(),
    };
    q
}

/// Rune Mysteries
fn rune_mysteries() -> (q: Quest)
    ensures
        q.id@ == "rune_mysteries"@,
        q.name@ == "Rune Mysteries"@,
        q.quest_points == 1,
        q.requirements@.len() == 0,
        q.rewards@.len() == 0,
        q.wf(),
{
    let q = Quest {
        id: QuestId::new_static("rune_mysteries"),
        name: String::from_str("Rune Mysteries"),
        quest_points: 1,
        requirements: Vec::new(),
        rewards: Vec::new(),
    };
    q
}

/// Sheep Shearer
fn sheep_shearer() -> (q: Quest)
    ensures
        q.id@ == "sheep_shearer"@,
        q.name@ == "Sheep Shearer"@,
        q.quest_points == 1,
        q.requirements@.len() == 0,
        q.rewards@.len() == 1,
        q.wf(),
{
    let q = Quest {
        id: QuestId::new_static("sheep_shearer"),
        name: String::from_str("Sheep Shearer"),
        quest_points: 1,
        requirements: Vec::new(),
        rewards: vec![
            xp_reward(Skill::Crafting, Xp(150)),
        ],
    };
    q
}

/// Shield of Arrav
fn shield_of_arrav() -> (q: Quest)
    ensures
        q.id@ == "shield_of_arrav"@,
        q.name@ == "Shield of Arrav"@,
        q.quest_points == 1,
        q.requirements@.len() == 0,
        q.rewards@.len() == 0,
        q.wf(),
{
    let q = Quest {
        id: QuestId::new_static("shield_of_arrav"),
        name: String::from_str("Shield of Arrav"),
        quest_points: 1,
        requirements: Vec::new(),
        rewards: Vec::new(),
    };
    q
}

/// Vampyre Slayer
fn vampyre_slayer() -> (q: Quest)
    ensures
        q.id@ == "vampyre_slayer"@,
        q.name@ == "Vampyre Slayer"@,
        q.quest_points == 3,
        q.requirements@.len() == 0,
        q.rewards@.len() == 1,
        q.wf(),
{
    let q = Quest {
        id: QuestId::new_static("vampyre_slayer"),
        name: String::from_str("Vampyre Slayer"),
        quest_points: 3,
        requirements: Vec::new(),
        rewards: vec![
            xp_reward(Skill::Attack, Xp(4825)),
        ],
    };
    q
}

/// Witch's Potion
fn witchs_potion() -> (q: Quest)
    ensures
        q.id@ == "witchs_potion"@,
        q.name@ == "Witch's Potion"@,
        q.quest_points == 1,
        q.requirements@.len() == 0,
        q.rewards@.len() == 1,
        q.wf(),
{
    let q = Quest {
        id: QuestId::new_static("witchs_potion"),
        name: String::from_str("Witch's Potion"),
        quest_points: 1,
        requirements: Vec::new(),
        rewards: vec![
            xp_reward(Skill::Magic, Xp(325)),
        ],
    };
    q
}

/// X Marks the Spot
fn x_marks_the_spot() -> (q: Quest)
    ensures
        q.id@ == "x_marks_the_spot"@,
        q.name@ == "X Marks the Spot"@,
        q.quest_points == 1,
        q.requirements@.len() == 0,
        q.rewards@.len() == 0,
        q.wf(),
{
    let q = Quest {
        id: QuestId::new_static("x_marks_the_spot"),
        name: String::from_str("X Marks the Spot"),
        quest_points: 1,
        requirements: Vec::new(),
        rewards: Vec::new(),
    };
    q
}

/// Animal Magnetism
fn animal_magnetism() -> (q: Quest)
    ensures
        q.id@ == "animal_magnetism"@,
        q.name@ == "Animal Magnetism"@,
        q.quest_points == 1,
        q.requirements@.len() == 7,
        q.rewards@.len() == 4,
        q.wf(),
{
    let q = Quest {
        id: QuestId::new_static("animal_magnetism"),
        name: String::from_str("Animal Magnetism"),
        quest_points: 1,
        requirements: vec![
            quest_req(QuestId::new_static("the_restless_ghost")),
            quest_req(QuestId::new_static("ernest_the_chicken")),
            quest_req(QuestId::new_static("priest_in_peril")),
            skill_req(Skill::Slayer, Level(18)),
            skill_req(Skill::Crafting, Level(19)),
            skill_req(Skill::Ranged, Level(30)),
            skill_req(Skill::Woodcutting, Level(35)),
        ],
        rewards: vec![
            xp_reward(Skill::Crafting, Xp(1000)),
            xp_reward(Skill::Fletching, Xp(1000)),
            xp_reward(Skill::Slayer, Xp(1000)),
            xp_reward(Skill::Woodcutting, Xp(2500)),
        ],
    };
    proof {
        reveal_strlit("ernest_the_chicken");
        reveal_strlit("priest_in_peril");
        reveal_strlit("the_restless_ghost");
        assert(q.requirements@[0]->Quest_0@ == "the_restless_ghost"@);
        assert(q.requirements@[1]->Quest_0@ == "ernest_the_chicken"@);
        assert(q.requirements@[2]->Quest_0@ == "priest_in_peril"@);
        assert(("the_restless_ghost"@)[0] != ("ernest_the_chicken"@)[0]);
        assert(("the_restless_ghost"@) != ("ernest_the_chicken"@));
        assert(!req_like(q.requirements@[0], q.requirements@[1]));
        assert(("the_restless_ghost"@).len() != ("priest_in_peril"@).len());
        assert(("the_restless_ghost"@) != ("priest_in_peril"@));
        assert(!req_like(q.requirements@[0], q.requirements@[2]));
        assert(("ernest_the_chicken"@).len() != ("priest_in_peril"@).len());
        assert(("ernest_the_chicken"@) != ("priest_in_peril"@));
        assert(!req_like(q.requirements@[1], q.requirements@[2]));
    }
    q
}

/// Another Slice of H.A.M.
fn another_slice_of_ham() -> (q: Quest)
    ensures
        q.id@ == "another_slice_of_ham"@,
        q.name@ == "Another Slice of H.A.M."@,
        q.quest_points == 1,
        q.requirements@.len() == 5,
        q.rewards@.len() == 2,
        q.wf(),
{
    let q = Quest {
        id: QuestId::new_static("another_slice_of_ham"),
        name: String::from_str("Another Slice of H.A.M."),
        quest_points: 1,
        requirements: vec![
            quest_req(QuestId::new_static("death_to_the_dorgeshuun")),
            quest_req(QuestId::new_static("the_giant_dwarf")),
            quest_req(QuestId::new_static("the_dig_site")),
            skill_req(Skill::Attack, Level(15)),
            skill_req(Skill::Prayer, Level(25)),
        ],
        rewards: vec![
            xp_reward(Skill::Mining, Xp(3000)),
            xp_reward(Skill::Prayer, Xp(3000)),
        ],
    };
    proof {
        reveal_strlit("death_to_the_dorgeshuun");
        reveal_strlit("the_dig_site");
        reveal_strlit("the_giant_dwarf");
        assert(q.requirements@[0]->Quest_0@ == "death_to_the_dorgeshuun"@);
        assert(q.requirements@[1]->Quest_0@ == "the_giant_dwarf"@);
        assert(q.requirements@[2]->Quest_0@ == "the_dig_site"@);
        assert(("death_to_the_dorgeshuun"@).len() != ("the_giant_dwarf"@).len());
        assert(("death_to_the_dorgeshuun"@) != ("the_giant_dwarf"@));
        assert(!req_like(q.requirements@[0], q.requirements@[1]));
        assert(("death_to_the_dorgeshuun"@).len() != ("the_dig_site"@).len());
        assert(("death_to_the_dorgeshuun"@) != ("the_dig_site"@));
        assert(!req_like(q.requirements@[0], q.requirements@[2]));
        assert(("the_giant_dwarf"@).len() != ("the_dig_site"@).len());
        assert(("the_giant_dwarf"@) != ("the_dig_site"@));
        assert(!req_like(q.requirements@[1], q.requirements@[2]));
    }
    q
}

/// The Ascent of Arceuus
fn the_ascent_of_arceuus() -> (q: Quest)
    ensures
        q.id@ == "the_ascent_of_arceuus"@,
        q.name@ == "The Ascent of Arceuus"@,
        q.quest_points == 1,
        q.requirements@.len() == 2,
        q.rewards@.len() == 2,
        q.wf(),
{
    let q = Quest {
        id: QuestId::new_static("the_ascent_of_arceuus"),
        name: String::from_str("The Ascent of Arceuus"),
        quest_points: 1,
        requirements: vec![
            quest_req(QuestId::new_static("client_of_kourend")),
            skill_req(Skill::Hunter, Level(12)),
        ],
        rewards: vec![
            xp_reward(Skill::Hunter, Xp(1500)),
            xp_reward(Skill::Runecraft, Xp(500)),
        ],
    };
    q
}

/// At First Light
fn at_first_light() -> (q: Quest)
    ensures
        q.id@ == "at_first_light"@,
        q.name@ == "At First Light"@,
        q.quest_points == 1,
        q.requirements@.len() == 5,
        q.rewards@.len() == 3,
        q.wf(),
{
    let q = Quest {
        id: QuestId::new_static("at_first_light"),
        name: String::from_str("At First Light"),
        quest_points: 1,
        requirements: vec![
            quest_req(QuestId::new_static("children_of_the_sun")),
            quest_req(QuestId::new_static("eagles_peak")),
            skill_req(Skill::Hunter, Level(46)),
            skill_req(Skill::Herblore, Level(30)),
            skill_req(Skill::Construction, Level(27)),
        ],
        rewards: vec![
            xp_reward(Skill::Hunter, Xp(4500)),
            xp_reward(Skill::Construction, Xp(800)),
            xp_reward(Skill::Herblore, Xp(500)),
        ],
    };
    proof {
        reveal_strlit("children_of_the_sun");
        reveal_strlit("eagles_peak");
        assert(q.requirements@[0]->Quest_0@ == "children_of_the_sun"@);
        assert(q.requirements@[1]->Quest_0@ == "eagles_peak"@);
        assert(("children_of_the_sun"@).len() != ("eagles_peak"@).len());
        assert(("children_of_the_sun"@) != ("eagles_peak"@));
        assert(!req_like(q.requirements@[0], q.requirements@[1]));
    }
    q
}

/// Beneath Cursed Sands
fn beneath_cursed_sands() -> (q: Quest)
    ensures
        q.id@ == "beneath_cursed_sands"@,
        q.name@ == "Beneath Cursed Sands"@,
        q.quest_points == 2,
        q.requirements@.len() == 4,
        q.rewards@.len() == 1,
        q.wf(),
{
    let q = Quest {
        id: QuestId::new_static("beneath_cursed_sands"),
        name: String::from_str("Beneath Cursed Sands"),
        quest_points: 2,
        requirements: vec![
            quest_req(QuestId::new_static("contact")),
            skill_req(Skill::Agility, Level(62)),
            skill_req(Skill::Crafting, Level(55)),
            skill_req(Skill::Firemaking, Level(55)),
        ],
        rewards: vec![
            xp_reward(Skill::Agility, Xp(50000)),
        ],
    };
    q
}

/// Between a Rock...
fn between_a_rock() -> (q: Quest)
    ensures
        q.id@ == "between_a_rock"@,
        q.name@ == "Between a Rock..."@,
        q.quest_points == 2,
        q.requirements@.len() == 5,
        q.rewards@.len() == 3,
        q.wf(),
{
    let q = Quest {
        id: QuestId::new_static("between_a_rock"),
        name: String::from_str("Between a Rock..."),
        quest_points: 2,
        requirements: vec![
            quest_req(QuestId::new_static("dwarf_cannon")),
            quest_req(QuestId::new_static("fishing_contest")),
            skill_req(Skill::Defence, Level(30)),
            skill_req(Skill::Mining, Level(40)),
            skill_req(Skill::Smithing, Level(50)),
        ],
        rewards: vec![
            xp_reward(Skill::Defence, Xp(5000)),
            xp_reward(Skill::Mining, Xp(5000)),
            xp_reward(Skill::Smithing, Xp(5000)),
        ],
    };
    proof {
        reveal_strlit("dwarf_cannon");
        reveal_strlit("fishing_contest");
        assert(q.requirements@[0]->Quest_0@ == "dwarf_cannon"@);
        assert(q.requirements@[1]->Quest_0@ == "fishing_contest"@);
        assert(("dwarf_cannon"@).len() != ("fishing_contest"@).len());
        assert(("dwarf_cannon"@) != ("fishing_contest"@));
        assert(!req_like(q.requirements@[0], q.requirements@[1]));
    }
    q
}

/// Big Chompy Bird Hunting
fn big_chompy_bird_hunting() -> (q: Quest)
    ensures
        q.id@ == "big_chompy_bird_hunting"@,
        q.name@ == "Big Chompy Bird Hunting"@,
        q.quest_points == 2,
        q.requirements@.len() == 3,
        q.rewards@.len() == 3,
        q.wf(),
{
    let q = Quest {
        id: QuestId::new_static("big_chompy_bird_hunting"),
        name: String::from_str("Big Chompy Bird Hunting"),
        quest_points: 2,
        requirements: vec![
            skill_req(Skill::Fletching, Level(5)),
            skill_req(Skill::Cooking, Level(30)),
            skill_req(Skill::Ranged, Level(30)),
        ],
        rewards: vec![
            xp_reward(Skill::Fletching, Xp(262)),
            xp_reward(Skill::Cooking, Xp(1470)),
            xp_reward(Skill::Ranged, Xp(735)),
        ],
    };
    q
}

/// Biohazard
fn biohazard() -> (q: Quest)
    ensures
        q.id@ == "biohazard"@,
        q.name@ == "Biohazard"@,
        q.quest_points == 3,
        q.requirements@.len() == 1,
        q.rewards@.len() == 1,
        q.wf(),
{
    let q = Quest {
        id: QuestId::new_static("biohazard"),
        name: String::from_str("Biohazard"),
        quest_points: 3,
        requirements: vec![
            quest_req(QuestId::new_static("plague_city")),
        ],
        rewards: vec![
            xp_reward(Skill::Thieving, Xp(1250)),
        ],
    };
    q
}

/// Bone Voyage
fn bone_voyage() -> (q: Quest)
    ensures
        q.id@ == "bone_voyage"@,
        q.name@ == "Bone Voyage"@,
        q.quest_points == 1,
        q.requirements@.len() == 1,
        q.rewards@.len() == 0,
        q.wf(),
{
    let q = Quest {
        id: QuestId::new_static("bone_voyage"),
        name: String::from_str("Bone Voyage"),
        quest_points: 1,
        requirements: vec![
            quest_req(QuestId::new_static("the_dig_site")),
        ],
        rewards: Vec::new(),
    };
    q
}

/// Cabin Fever
fn cabin_fever() -> (q: Quest)
    ensures
        q.id@ == "cabin_fever"@,
        q.name@ == "Cabin Fever"@,
        q.quest_points == 2,
        q.requirements@.len() == 6,
        q.rewards@.len() == 3,
        q.wf(),
{
    let q = Quest {
        id: QuestId::new_static("cabin_fever"),
        name: String::from_str("Cabin Fever"),
        quest_points: 2,
        requirements: vec![
            quest_req(QuestId::new_static("pirates_treasure")),
            quest_req(QuestId::new_static("rum_deal")),
            skill_req(Skill::Agility, Level(42)),
            skill_req(Skill::Crafting, Level(45)),
            skill_req(Skill::Smithing, Level(50)),
            skill_req(Skill::Ranged, Level(40)),
        ],
        rewards: vec![
            xp_reward(Skill::Crafting, Xp(7000)),
            xp_reward(Skill::Smithing, Xp(7000)),
            xp_reward(Skill::Agility, Xp(7000)),
        ],
    };
    proof {
        reveal_strlit("pirates_treasure");
        reveal_strlit("rum_deal");
        assert(q.requirements@[0]->Quest_0@ == "pirates_treasure"@);
        assert(q.requirements@[1]->Quest_0@ == "rum_deal"@);
        assert(("pirates_treasure"@).len() != ("rum_deal"@).len());
        assert(("pirates_treasure"@) != ("rum_deal"@));
        assert(!req_like(q.requirements@[0], q.requirements@[1]));
    }
    q
}

/// Children of the Sun
fn children_of_the_sun() -> (q: Quest)
    ensures
        q.id@ == "children_of_the_sun"@,
        q.name@ == "Children of the Sun"@,
        q.quest_points == 1,
        q.requirements@.len() == 0,
        q.rewards@.len() == 0,
        q.wf(),
{
    let q = Quest {
        id: QuestId::new_static("children_of_the_sun"),
        name: String::from_str("Children of the Sun"),
        quest_points: 1,
        requirements: Vec::new(),
        rewards: Vec::new(),
    };
    q
}

/// Client of Kourend
fn client_of_kourend() -> (q: Quest)
    ensures
        q.id@ == "client_of_kourend"@,
        q.name@ == "Client of Kourend"@,
        q.quest_points == 1,
        q.requirements@.len() == 1,
        q.rewards@.len() == 0,
        q.wf(),
{
    let q = Quest {
        id: QuestId::new_static("client_of_kourend"),
        name: String::from_str("Client of Kourend"),
        quest_points: 1,
        requirements: vec![
            quest_req(QuestId::new_static("x_marks_the_spot")),
        ],
        rewards: Vec::new(),
    };
    q
}

/// Clock Tower
fn clock_tower() -> (q: Quest)
    ensures
        q.id@ == "clock_tower"@,
        q.name@ == "Clock Tower"@,
        q.quest_points == 1,
        q.requirements@.len() == 0,
        q.rewards@.len() == 0,
        q.wf(),
{
    let q = Quest {
        id: QuestId::new_static("clock_tower"),
        name: String::from_str("Clock Tower"),
        quest_points: 1,
        requirements: Vec::new(),
        rewards: Vec::new(),
    };
    q
}

/// Cold War
fn cold_war() -> (q: Quest)
    ensures
        q.id@ == "cold_war"@,
        q.name@ == "Cold War"@,
        q.quest_points == 1,
        q.requirements@.len() == 5,
        q.rewards@.len() == 3,
        q.wf(),
{
    let q = Quest {
        id: QuestId::new_static("cold_war"),
        name: String::from_str("Cold War"),
        quest_points: 1,
        requirements: vec![
            skill_req(Skill::Hunter, Level(10)),
            skill_req(Skill::Agility, Level(30)),
            skill_req(Skill::Crafting, Level(30)),
            skill_req(Skill::Construction, Level(34)),
            skill_req(Skill::Thieving, Level(15)),
        ],
        rewards: vec![
            xp_reward(Skill::Agility, Xp(5000)),
            xp_reward(Skill::Crafting, Xp(2000)),
            xp_reward(Skill::Construction, Xp(1500)),
        ],
    };
    q
}

/// Contact!
fn contact() -> (q: Quest)
    ensures
        q.id@ == "contact"@,
        q.name@ == "Contact!"@,
        q.quest_points == 1,
        q.requirements@.len() == 2,
        q.rewards@.len() == 1,
        q.wf(),
{
    let q = Quest {
        id: QuestId::new_static("contact"),
        name: String::from_str("Contact!"),
        quest_points: 1,
        requirements: vec![
            quest_req(QuestId::new_static("prince_ali_rescue")),
            quest_req(QuestId::new_static("icthlarins_little_helper")),
        ],
        rewards: vec![
            xp_reward(Skill::Thieving, Xp(7000)),
        ],
    };
    proof {
        reveal_strlit("icthlarins_little_helper");
        reveal_strlit("prince_ali_rescue");
        assert(q.requirements@[0]->Quest_0@ == "prince_ali_rescue"@);
        assert(q.requirements@[1]->Quest_0@ == "icthlarins_little_helper"@);
        assert(("prince_ali_rescue"@).len() != ("icthlarins_little_helper"@).len());
        assert(("prince_ali_rescue"@) != ("icthlarins_little_helper"@));
        assert(!req_like(q.requirements@[0], q.requirements@[1]));
    }
    q
}

/// Creature of Fenkenstrain
fn creature_of_fenkenstrain() -> (q: Quest)
    ensures
        q.id@ == "creature_of_fenkenstrain"@,
        q.name@ == "Creature of Fenkenstrain"@,
        q.quest_points == 2,
        q.requirements@.len() == 4,
        q.rewards@.len() == 1,
        q.wf(),
{
    let q = Quest {
        id: QuestId::new_static("creature_of_fenkenstrain"),
        name: String::from_str("Creature of Fenkenstrain"),
        quest_points: 2,
        requirements: vec![
            quest_req(QuestId::new_static("priest_in_peril")),
            quest_req(QuestId::new_static("the_restless_ghost")),
            skill_req(Skill::Crafting, Level(20)),
            skill_req(Skill::Thieving, Level(25)),
        ],
        rewards: vec![
            xp_reward(Skill::Thieving, Xp(1000)),
        ],
    };
    proof {
        reveal_strlit("priest_in_peril");
        reveal_strlit("the_restless_ghost");
        assert(q.requirements@[0]->Quest_0@ == "priest_in_peril"@);
        assert(q.requirements@[1]->Quest_0@ == "the_restless_ghost"@);
        assert(("priest_in_peril"@).len() != ("the_restless_ghost"@).len());
        assert(("priest_in_peril"@) != ("the_restless_ghost"@));
        assert(!req_like(q.requirements@[0], q.requirements@[1]));
    }
    q
}

/// Current Affairs
fn current_affairs() -> (q: Quest)
    ensures
        q.id@ == "current_affairs"@,
        q.name@ == "Current Affairs"@,
        q.quest_points == 1,
        q.requirements@.len() == 3,
        q.rewards@.len() == 2,
        q.wf(),
{
    let q = Quest {
        id: QuestId::new_static("current_affairs"),
        name: String::from_str("Current Affairs"),
        quest_points: 1,
        requirements: vec![
            quest_req(QuestId::new_static("pandemonium")),
            skill_req(Skill::Sailing, Level(22)),
            skill_req(Skill::Fishing, Level(10)),
        ],
        rewards: vec![
            xp_reward(Skill::Sailing, Xp(1400)),
            xp_reward(Skill::Fishing, Xp(1000)),
        ],
    };
    q
}

/// The Curse of Arrav
fn the_curse_of_arrav() -> (q: Quest)
    ensures
        q.id@ == "the_curse_of_arrav"@,
        q.name@ == "The Curse of Arrav"@,
        q.quest_points == 2,
        q.requirements@.len() == 8,
        q.rewards@.len() == 3,
        q.wf(),
{
    let q = Quest {
        id: QuestId::new_static("the_curse_of_arrav"),
        name: String::from_str("The Curse of Arrav"),
        quest_points: 2,
        requirements: vec![
            quest_req(QuestId::new_static("defender_of_varrock")),
            quest_req(QuestId::new_static("troll_romance")),
            skill_req(Skill::Mining, Level(64)),
            skill_req(Skill::Ranged, Level(62)),
            skill_req(Skill::Thieving, Level(62)),
            skill_req(Skill::Agility, Level(61)),
            skill_req(Skill::Strength, Level(58)),
            skill_req(Skill::Slayer, Level(37)),
        ],
        rewards: vec![
            xp_reward(Skill::Mining, Xp(40000)),
            xp_reward(Skill::Thieving, Xp(40000)),
            xp_reward(Skill::Agility, Xp(40000)),
        ],
    };
    proof {
        reveal_strlit("defender_of_varrock");
        reveal_strlit("troll_romance");
        assert(q.requirements@[0]->Quest_0@ == "defender_of_varrock"@);
        assert(q.requirements@[1]->Quest_0@ == "troll_romance"@);
        assert(("defender_of_varrock"@).len() != ("troll_romance"@).len());
        assert(("defender_of_varrock"@) != ("troll_romance"@));
        assert(!req_like(q.requirements@[0], q.requirements@[1]));
    }
    q
}

/// Darkness of Hallowvale
fn darkness_of_hallowvale() -> (q: Quest)
    ensures
        q.id@ == "darkness_of_hallowvale"@,
        q.name@ == "Darkness of Hallowvale"@,
        q.quest_points == 2,
        q.requirements@.len() == 8,
        q.rewards@.len() == 3,
        q.wf(),
{
    let q = Quest {
        id: QuestId::new_static("darkness_of_hallowvale"),
        name: String::from_str("Darkness of Hallowvale"),
        quest_points: 2,
        requirements: vec![
            quest_req(QuestId::new_static("in_aid_of_the_myreque")),
            skill_req(Skill::Construction, Level(5)),
            skill_req(Skill::Mining, Level(20)),
            skill_req(Skill::Thieving, Level(22)),
            skill_req(Skill::Agility, Level(26)),
            skill_req(Skill::Crafting, Level(32)),
            skill_req(Skill::Magic, Level(33)),
            skill_req(Skill::Strength, Level(40)),
        ],
        rewards: vec![
            xp_reward(Skill::Agility, Xp(7000)),
            xp_reward(Skill::Thieving, Xp(6000)),
            xp_reward(Skill::Construction, Xp(2000)),
        ],
    };
    q
}

/// Death on the Isle
fn death_on_the_isle() -> (q: Quest)
    ensures
        q.id@ == "death_on_the_isle"@,
        q.name@ == "Death on the Isle"@,
        q.quest_points == 2,
        q.requirements@.len() == 3,
        q.rewards@.len() == 3,
        q.wf(),
{
    let q = Quest {
        id: QuestId::new_static("death_on_the_isle"),
        name: String::from_str("Death on the Isle"),
        quest_points: 2,
        requirements: vec![
            quest_req(QuestId::new_static("children_of_the_sun")),
            skill_req(Skill::Thieving, Level(34)),
            skill_req(Skill::Agility, Level(32)),
        ],
        rewards: vec![
            xp_reward(Skill::Thieving, Xp(10000)),
            xp_reward(Skill::Agility, Xp(7500)),
            xp_reward(Skill::Crafting, Xp(5000)),
        ],
    };
    q
}

/// Death Plateau
fn death_plateau() -> (q: Quest)
    ensures
        q.id@ == "death_plateau"@,
        q.name@ == "Death Plateau"@,
        q.quest_points == 1,
        q.requirements@.len() == 0,
        q.rewards@.len() == 1,
        q.wf(),
{
    let q = Quest {
        id: QuestId::new_static("death_plateau"),
        name: String::from_str("Death Plateau"),
        quest_points: 1,
        requirements: Vec::new(),
        rewards: vec![
            xp_reward(Skill::Attack, Xp(3000)),
        ],
    };
    q
}

/// Death to the Dorgeshuun
fn death_to_the_dorgeshuun() -> (q: Quest)
    ensures
        q.id@ == "death_to_the_dorgeshuun"@,
        q.name@ == "Death to the Dorgeshuun"@,
        q.quest_points == 1,
        q.requirements@.len() == 3,
        q.rewards@.len() == 2,
        q.wf(),
{
    let q = Quest {
        id: QuestId::new_static("death_to_the_dorgeshuun"),
        name: String::from_str("Death to the Dorgeshuun"),
        quest_points: 1,
        requirements: vec![
            quest_req(QuestId::new_static("the_lost_tribe")),
            skill_req(Skill::Agility, Level(23)),
            skill_req(Skill::Thieving, Level(23)),
        ],
        rewards: vec![
            xp_reward(Skill::Thieving, Xp(2000)),
            xp_reward(Skill::Ranged, Xp(2000)),
        ],
    };
    q
}

/// Defender of Varrock
fn defender_of_varrock() -> (q: Quest)
    ensures
        q.id@ == "defender_of_varrock"@,
        q.name@ == "Defender of Varrock"@,
        q.quest_points == 2,
        q.requirements@.len() == 10,
        q.rewards@.len() == 2,
        q.wf(),
{
    let q = Quest {
        id: QuestId::new_static("defender_of_varrock"),
        name: String::from_str("Defender of Varrock"),
        quest_points: 2,
        requirements: vec![
            quest_req(QuestId::new_static("shield_of_arrav")),
            quest_req(QuestId::new_static("temple_of_ikov")),
            quest_req(QuestId::new_static("below_ice_mountain")),
            quest_req(QuestId::new_static("family_crest")),
            quest_req(QuestId::new_static("garden_of_tranquillity")),
            quest_req(QuestId::new_static("what_lies_below")),
            quest_req(QuestId::new_static("romeo_and_juliet")),
            quest_req(QuestId::new_static("demon_slayer")),
            skill_req(Skill::Smithing, Level(55)),
            skill_req(Skill::Hunter, Level(52)),
        ],
        rewards: vec![
            xp_reward(Skill::Smithing, Xp(15000)),
            xp_reward(Skill::Hunter, Xp(15000)),
        ],
    };
    proof {
        reveal_strlit("below_ice_mountain");
        reveal_strlit("demon_slayer");
        reveal_strlit("family_crest");
        reveal_strlit("garden_of_tranquillity");
        reveal_strlit("romeo_and_juliet");
        reveal_strlit("shield_of_arrav");
        reveal_strlit("temple_of_ikov");
        reveal_strlit("what_lies_below");
        assert(q.requirements@[0]->Quest_0@ == "shield_of_arrav"@);
        assert(q.requirements@[1]->Quest_0@ == "temple_of_ikov"@);
        assert(q.requirements@[2]->Quest_0@ == "below_ice_mountain"@);
        assert(q.requirements@[3]->Quest_0@ == "family_crest"@);
        assert(q.requirements@[4]->Quest_0@ == "garden_of_tranquillity"@);
        assert(q.requirements@[5]->Quest_0@ == "what_lies_below"@);
        assert(q.requirements@[6]->Quest_0@ == "romeo_and_juliet"@);
        assert(q.requirements@[7]->Quest_0@ == "demon_slayer"@);
        assert(("shield_of_arrav"@).len() != ("temple_of_ikov"@).len());
        assert(("shield_of_arrav"@) != ("temple_of_ikov"@));
        assert(!req_like(q.requirements@[0], q.requirements@[1]));
        assert(("shield_of_arrav"@).len() != ("below_ice_mountain"@).len());
        assert(("shield_of_arrav"@) != ("below_ice_mountain"@));
        assert(!req_like(q.requirements@[0], q.requirements@[2]));
        assert(("shield_of_arrav"@).len() != ("family_crest"@).len());
        assert(("shield_of_arrav"@) != ("family_crest"@));
        assert(!req_like(q.requirements@[0], q.requirements@[3]));
        assert(("shield_of_arrav"@).len() != ("garden_of_tranquillity"@).len());
        assert(("shield_of_arrav"@) != ("garden_of_tranquillity"@));
        assert(!req_like(q.requirements@[0], q.requirements@[4]));
        assert(("shield_of_arrav"@)[0] != ("what_lies_below"@)[0]);
        assert(("shield_of_arrav"@) != ("what_lies_below"@));
        assert(!req_like(q.requirements@[0], q.requirements@[5]));
        assert(("shield_of_arrav"@).len() != ("romeo_and_juliet"@).len());
        assert(("shield_of_arrav"@) != ("romeo_and_juliet"@));
        assert(!req_like(q.requirements@[0], q.requirements@[6]));
        assert(("shield_of_arrav"@).len() != ("demon_slayer"@).len());
        assert(("shield_of_arrav"@) != ("demon_slayer"@));
        assert(!req_like(q.requirements@[0], q.requirements@[7]));
        assert(("temple_of_ikov"@).len() != ("below_ice_mountain"@).len());
        assert(("temple_of_ikov"@) != ("below_ice_mountain"@));
        assert(!req_like(q.requirements@[1], q.requirements@[2]));
        assert(("temple_of_ikov"@).len() != ("family_crest"@).len());
        assert(("temple_of_ikov"@) != ("family_crest"@));
        assert(!req_like(q.requirements@[1], q.requirements@[3]));
        assert(("temple_of_ikov"@).len() != ("garden_of_tranquillity"@).len());
        assert(("temple_of_ikov"@) != ("garden_of_tranquillity"@));
        assert(!req_like(q.requirements@[1], q.requirements@[4]));
        assert(("temple_of_ikov"@).len() != ("what_lies_below"@).len());
        assert(("temple_of_ikov"@) != ("what_lies_below"@));
        assert(!req_like(q.requirements@[1], q.requirements@[5]));
        assert(("temple_of_ikov"@).len() != ("romeo_and_juliet"@).len());
        assert(("temple_of_ikov"@) != ("romeo_and_juliet"@));
        assert(!req_like(q.requirements@[1], q.requirements@[6]));
        assert(("temple_of_ikov"@).len() != ("demon_slayer"@).len());
        assert(("temple_of_ikov"@) != ("demon_slayer"@));
        assert(!req_like(q.requirements@[1], q.requirements@[7]));
        assert(("below_ice_mountain"@).len() != ("family_crest"@).len());
        assert(("below_ice_mountain"@) != ("family_crest"@));
        assert(!req_like(q.requirements@[2], q.requirements@[3]));
        assert(("below_ice_mountain"@).len() != ("garden_of_tranquillity"@).len());
        assert(("below_ice_mountain"@) != ("garden_of_tranquillity"@));
        assert(!req_like(q.requirements@[2], q.requirements@[4]));
        assert(("below_ice_mountain"@).len() != ("what_lies_below"@).len());
        assert(("below_ice_mountain"@) != ("what_lies_below"@));
        assert(!req_like(q.requirements@[2], q.requirements@[5]));
        assert(("below_ice_mountain"@).len() != ("romeo_and_juliet"@).len());
        assert(("below_ice_mountain"@) != ("romeo_and_juliet"@));
        assert(!req_like(q.requirements@[2], q.requirements@[6]));
        assert(("below_ice_mountain"@).len() != ("demon_slayer"@).len());
        assert(("below_ice_mountain"@) != ("demon_slayer"@));
        assert(!req_like(q.requirements@[2], q.requirements@[7]));
        assert(("family_crest"@).len() != ("garden_of_tranquillity"@).len());
        assert(("family_crest"@) != ("garden_of_tranquillity"@));
        assert(!req_like(q.requirements@[3], q.requirements@[4]));
        assert(("family_crest"@).len() != ("what_lies_below"@).len());
        assert(("family_crest"@) != ("what_lies_below"@));
        assert(!req_like(q.requirements@[3], q.requirements@[5]));
        assert(("family_crest"@).len() != ("romeo_and_juliet"@).len());
        assert(("family_crest"@) != ("romeo_and_juliet"@));
        assert(!req_like(q.requirements@[3], q.requirements@[6]));
        assert(("family_crest"@)[0] != ("demon_slayer"@)[0]);
        assert(("family_crest"@) != ("demon_slayer"@));
        assert(!req_like(q.requirements@[3], q.requirements@[7]));
        assert(("garden_of_tranquillity"@).len() != ("what_lies_below"@).len());
        assert(("garden_of_tranquillity"@) != ("what_lies_below"@));
        assert(!req_like(q.requirements@[4], q.requirements@[5]));
        assert(("garden_of_tranquillity"@).len() != ("romeo_and_juliet"@).len());
        assert(("garden_of_tranquillity"@) != ("romeo_and_juliet"@));
        assert(!req_like(q.requirements@[4], q.requirements@[6]));
        assert(("garden_of_tranquillity"@).len() != ("demon_slayer"@).len());
        assert(("garden_of_tranquillity"@) != ("demon_slayer"@));
        assert(!req_like(q.requirements@[4], q.requirements@[7]));
        assert(("what_lies_below"@).len() != ("romeo_and_juliet"@).len());
        assert(("what_lies_below"@) != ("romeo_and_juliet"@));
        assert(!req_like(q.requirements@[5], q.requirements@[6]));
        assert(("what_lies_below"@).len() != ("demon_slayer"@).len());
        assert(("what_lies_below"@) != ("demon_slayer"@));
        assert(!req_like(q.requirements@[5], q.requirements@[7]));
        assert(("romeo_and_juliet"@).len() != ("demon_slayer"@).len());
        assert(("romeo_and_juliet"@) != ("demon_slayer"@));
        assert(!req_like(q.requirements@[6], q.requirements@[7]));
    }
    q
}

/// The Depths of Despair
fn the_depths_of_despair() -> (q: Quest)
    ensures
        q.id@ == "the_depths_of_despair"@,
        q.name@ == "The Depths of Despair"@,
        q.quest_points == 1,
        q.requirements@.len() == 2,
        q.rewards@.len() == 1,
        q.wf(),
{
    let q = Quest {
        id: QuestId::new_static("the_depths_of_despair"),
        name: String::from_str("The Depths of Despair"),
        quest_points: 1,
        requirements: vec![
            quest_req(QuestId::new_static("client_of_kourend")),
            skill_req(Skill::Agility, Level(18)),
        ],
        rewards: vec![
            xp_reward(Skill::Agility, Xp(1500)),
        ],
    };
    q
}

/// Desert Treasure I
fn desert_treasure_i() -> (q: Quest)
    ensures
        q.id@ == "desert_treasure_i"@,
        q.name@ == "Desert Treasure I"@,
        q.quest_points == 3,
        q.requirements@.len() == 10,
        q.rewards@.len() == 1,
        q.wf(),
{
    let q = Quest {
        id: QuestId::new_static("desert_treasure_i"),
        name: String::from_str("Desert Treasure I"),
        quest_points: 3,
        requirements: vec![
            quest_req(QuestId::new_static("the_dig_site")),
            quest_req(QuestId::new_static("temple_of_ikov")),
            quest_req(QuestId::new_static("the_tourist_trap")),
            quest_req(QuestId::new_static("troll_stronghold")),
            quest_req(QuestId::new_static("priest_in_peril")),
            quest_req(QuestId::new_static("waterfall_quest")),
            skill_req(Skill::Thieving, Level(53)),
            skill_req(Skill::Magic, Level(50)),
            skill_req(Skill::Firemaking, Level(50)),
            skill_req(Skill::Slayer, Level(10)),
        ],
        rewards: vec![
            xp_reward(Skill::Magic, Xp(20007)),
        ],
    };
    proof {
        reveal_strlit("priest_in_peril");
        reveal_strlit("temple_of_ikov");
        reveal_strlit("the_dig_site");
        reveal_strlit("the_tourist_trap");
        reveal_strlit("troll_stronghold");
        reveal_strlit("waterfall_quest");
        assert(q.requirements@[0]->Quest_0@ == "the_dig_site"@);
        assert(q.requirements@[1]->Quest_0@ == "temple_of_ikov"@);
        assert(q.requirements@[2]->Quest_0@ == "the_tourist_trap"@);
        assert(q.requirements@[3]->Quest_0@ == "troll_stronghold"@);
        assert(q.requirements@[4]->Quest_0@ == "priest_in_peril"@);
        assert(q.requirements@[5]->Quest_0@ == "waterfall_quest"@);
        assert(("the_dig_site"@).len() != ("temple_of_ikov"@).len());
        assert(("the_dig_site"@) != ("temple_of_ikov"@));
        assert(!req_like(q.requirements@[0], q.requirements@[1]));
        assert(("the_dig_site"@).len() != ("the_tourist_trap"@).len());
        assert(("the_dig_site"@) != ("the_tourist_trap"@));
        assert(!req_like(q.requirements@[0], q.requirements@[2]));
        assert(("the_dig_site"@).len() != ("troll_stronghold"@).len());
        assert(("the_dig_site"@) != ("troll_stronghold"@));
        assert(!req_like(q.requirements@[0], q.requirements@[3]));
        assert(("the_dig_site"@).len() != ("priest_in_peril"@).len());
        assert(("the_dig_site"@) != ("priest_in_peril"@));
        assert(!req_like(q.requirements@[0], q.requirements@[4]));
        assert(("the_dig_site"@).len() != ("waterfall_quest"@).len());
        assert(("the_dig_site"@) != ("waterfall_quest"@));
        assert(!req_like(q.requirements@[0], q.requirements@[5]));
        assert(("temple_of_ikov"@).len() != ("the_tourist_trap"@).len());
        assert(("temple_of_ikov"@) != ("the_tourist_trap"@));
        assert(!req_like(q.requirements@[1], q.requirements@[2]));
        assert(("temple_of_ikov"@).len() != ("troll_stronghold"@).len());
        assert(("temple_of_ikov"@) != ("troll_stronghold"@));
        assert(!req_like(q.requirements@[1], q.requirements@[3]));
        assert(("temple_of_ikov"@).len() != ("priest_in_peril"@).len());
        assert(("temple_of_ikov"@) != ("priest_in_peril"@));
        assert(!req_like(q.requirements@[1], q.requirements@[4]));
        assert(("temple_of_ikov"@).len() != ("waterfall_quest"@).len());
        assert(("temple_of_ikov"@) != ("waterfall_quest"@));
        assert(!req_like(q.requirements@[1], q.requirements@[5]));
        assert(("the_tourist_trap"@)[1] != ("troll_stronghold"@)[1]);
        assert(("the_tourist_trap"@) != ("troll_stronghold"@));
        assert(!req_like(q.requirements@[2], q.requirements@[3]));
        assert(("the_tourist_trap"@).len() != ("priest_in_peril"@).len());
        assert(("the_tourist_trap"@) != ("priest_in_peril"@));
        assert(!req_like(q.requirements@[2], q.requirements@[4]));
        assert(("the_tourist_trap"@).len() != ("waterfall_quest"@).len());
        assert(("the_tourist_trap"@) != ("waterfall_quest"@));
        assert(!req_like(q.requirements@[2], q.requirements@[5]));
        assert(("troll_stronghold"@).len() != ("priest_in_peril"@).len());
        assert(("troll_stronghold"@) != ("priest_in_peril"@));
        assert(!req_like(q.requirements@[3], q.requirements@[4]));
        assert(("troll_stronghold"@).len() != ("waterfall_quest"@).len());
        assert(("troll_stronghold"@) != ("waterfall_quest"@));
        assert(!req_like(q.requirements@[3], q.requirements@[5]));
        assert(("priest_in_peril"@)[0] != ("waterfall_quest"@)[0]);
        assert(("priest_in_peril"@) != ("waterfall_quest"@));
        assert(!req_like(q.requirements@[4], q.requirements@[5]));
    }
    q
}

/// Desert Treasure II - The Fallen Empire
fn desert_treasure_ii() -> (q: Quest)
    ensures
        q.id@ == "desert_treasure_ii"@,
        q.name@ == "Desert Treasure II - The Fallen Empire"@,
        q.quest_points == 5,
        q.requirements@.len() == 12,
        q.rewards@.len() == 0,
        q.wf(),
{
    let q = Quest {
        id: QuestId::new_static("desert_treasure_ii"),
        name: String::from_str("Desert Treasure II - The Fallen Empire"),
        quest_points: 5,
        requirements: vec![
            quest_req(QuestId::new_static("desert_treasure_i")),
            quest_req(QuestId::new_static("secrets_of_the_north")),
            quest_req(QuestId::new_static("enakhras_lament")),
            quest_req(QuestId::new_static("temple_of_the_eye")),
            quest_req(QuestId::new_static("the_garden_of_death")),
            quest_req(QuestId::new_static("below_ice_mountain")),
            skill_req(Skill::Firemaking, Level(75)),
            skill_req(Skill::Magic, Level(75)),
            skill_req(Skill::Thieving, Level(70)),
            skill_req(Skill::Herblore, Level(62)),
            skill_req(Skill::Runecraft, Level(60)),
            skill_req(Skill::Construction, Level(60)),
        ],
        rewards: Vec::new(),
    };
    proof {
        reveal_strlit("below_ice_mountain");
        reveal_strlit("desert_treasure_i");
        reveal_strlit("enakhras_lament");
        reveal_strlit("secrets_of_the_north");
        reveal_strlit("temple_of_the_eye");
        reveal_strlit("the_garden_of_death");
        assert(q.requirements@[0]->Quest_0@ == "desert_treasure_i"@);
        assert(q.requirements@[1]->Quest_0@ == "secrets_of_the_north"@);
        assert(q.requirements@[2]->Quest_0@ == "enakhras_lament"@);
        assert(q.requirements@[3]->Quest_0@ == "temple_of_the_eye"@);
        assert(q.requirements@[4]->Quest_0@ == "the_garden_of_death"@);
        assert(q.requirements@[5]->Quest_0@ == "below_ice_mountain"@);
        assert(("desert_treasure_i"@).len() != ("secrets_of_the_north"@).len());
        assert(("desert_treasure_i"@) != ("secrets_of_the_north"@));
        assert(!req_like(q.requirements@[0], q.requirements@[1]));
        assert(("desert_treasure_i"@).len() != ("enakhras_lament"@).len());
        assert(("desert_treasure_i"@) != ("enakhras_lament"@));
        assert(!req_like(q.requirements@[0], q.requirements@[2]));
        assert(("desert_treasure_i"@)[0] != ("temple_of_the_eye"@)[0]);
        assert(("desert_treasure_i"@) != ("temple_of_the_eye"@));
        assert(!req_like(q.requirements@[0], q.requirements@[3]));
        assert(("desert_treasure_i"@).len() != ("the_garden_of_death"@).len());
        assert(("desert_treasure_i"@) != ("the_garden_of_death"@));
        assert(!req_like(q.requirements@[0], q.requirements@[4]));
        assert(("desert_treasure_i"@).len() != ("below_ice_mountain"@).len());
        assert(("desert_treasure_i"@) != ("below_ice_mountain"@));
        assert(!req_like(q.requirements@[0], q.requirements@[5]));
        assert(("secrets_of_the_north"@).len() != ("enakhras_lament"@).len());
        assert(("secrets_of_the_north"@) != ("enakhras_lament"@));
        assert(!req_like(q.requirements@[1], q.requirements@[2]));
        assert(("secrets_of_the_north"@).len() != ("temple_of_the_eye"@).len());
        assert(("secrets_of_the_north"@) != ("temple_of_the_eye"@));
        assert(!req_like(q.requirements@[1], q.requirements@[3]));
        assert(("secrets_of_the_north"@).len() != ("the_garden_of_death"@).len());
        assert(("secrets_of_the_north"@) != ("the_garden_of_death"@));
        assert(!req_like(q.requirements@[1], q.requirements@[4]));
        assert(("secrets_of_the_north"@).len() != ("below_ice_mountain"@).len());
        assert(("secrets_of_the_north"@) != ("below_ice_mountain"@));
        assert(!req_like(q.requirements@[1], q.requirements@[5]));
        assert(("enakhras_lament"@).len() != ("temple_of_the_eye"@).len());
        assert(("enakhras_lament"@) != ("temple_of_the_eye"@));
        assert(!req_like(q.requirements@[2], q.requirements@[3]));
        assert(("enakhras_lament"@).len() != ("the_garden_of_death"@).len());
        assert(("enakhras_lament"@) != ("the_garden_of_death"@));
        assert(!req_like(q.requirements@[2], q.requirements@[4]));
        assert(("enakhras_lament"@).len() != ("below_ice_mountain"@).len());
        assert(("enakhras_lament"@) != ("below_ice_mountain"@));
        assert(!req_like(q.requirements@[2], q.requirements@[5]));
        assert(("temple_of_the_eye"@).len() != ("the_garden_of_death"@).len());
        assert(("temple_of_the_eye"@) != ("the_garden_of_death"@));
        assert(!req_like(q.requirements@[3], q.requirements@[4]));
        assert(("temple_of_the_eye"@).len() != ("below_ice_mountain"@).len());
        assert(("temple_of_the_eye"@) != ("below_ice_mountain"@));
        assert(!req_like(q.requirements@[3], q.requirements@[5]));
        assert(("the_garden_of_death"@).len() != ("below_ice_mountain"@).len());
        assert(("the_garden_of_death"@) != ("below_ice_mountain"@));
        assert(!req_like(q.requirements@[4], q.requirements@[5]));
    }
    q
}

/// Devious Minds
fn devious_minds() -> (q: Quest)
    ensures
        q.id@ == "devious_minds"@,
        q.name@ == "Devious Minds"@,
        q.quest_points == 1,
        q.requirements@.len() == 6,
        q.rewards@.len() == 3,
        q.wf(),
{
    let q = Quest {
        id: QuestId::new_static("devious_minds"),
        name: String::from_str("Devious Minds"),
        quest_points: 1,
        requirements: vec![
            quest_req(QuestId::new_static("wanted")),
            quest_req(QuestId::new_static("troll_stronghold")),
            quest_req(QuestId::new_static("dorics_quest")),
            skill_req(Skill::Smithing, Level(65)),
            skill_req(Skill::Runecraft, Level(50)),
            skill_req(Skill::Fletching, Level(50)),
        ],
        rewards: vec![
            xp_reward(Skill::Fletching, Xp(5000)),
            xp_reward(Skill::Runecraft, Xp(5000)),
            xp_reward(Skill::Smithing, Xp(6500)),
        ],
    };
    proof {
        reveal_strlit("dorics_quest");
        reveal_strlit("troll_stronghold");
        reveal_strlit("wanted");
        assert(q.requirements@[0]->Quest_0@ == "wanted"@);
        assert(q.requirements@[1]->Quest_0@ == "troll_stronghold"@);
        assert(q.requirements@[2]->Quest_0@ == "dorics_quest"@);
        assert(("wanted"@).len() != ("troll_stronghold"@).len());
        assert(("wanted"@) != ("troll_stronghold"@));
        assert(!req_like(q.requirements@[0], q.requirements@[1]));
        assert(("wanted"@).len() != ("dorics_quest"@).len());
        assert(("wanted"@) != ("dorics_quest"@));
        assert(!req_like(q.requirements@[0], q.requirements@[2]));
        assert(("troll_stronghold"@).len() != ("dorics_quest"@).len());
        assert(("troll_stronghold"@) != ("dorics_quest"@));
        assert(!req_like(q.requirements@[1], q.requirements@[2]));
    }
    q
}

/// The Dig Site
fn the_dig_site() -> (q: Quest)
    ensures
        q.id@ == "the_dig_site"@,
        q.name@ == "The Dig Site"@,
        q.quest_points == 2,
        q.requirements@.len() == 3,
        q.rewards@.len() == 2,
        q.wf(),
{
    let q = Quest {
        id: QuestId::new_static("the_dig_site"),
        name: String::from_str("The Dig Site"),
        quest_points: 2,
        requirements: vec![
            skill_req(Skill::Agility, Level(10)),
            skill_req(Skill::Herblore, Level(10)),
            skill_req(Skill::Thieving, Level(25)),
        ],
        rewards: vec![
            xp_reward(Skill::Mining, Xp(15300)),
            xp_reward(Skill::Herblore, Xp(2000)),
        ],
    };
    q
}

/// Dragon Slayer II
fn dragon_slayer_ii() -> (q: Quest)
    ensures
        q.id@ == "dragon_slayer_ii"@,
        q.name@ == "Dragon Slayer II"@,
        q.quest_points == 5,
        q.requirements@.len() == 16,
        q.rewards@.len() == 4,
        q.wf(),
{
    let q = Quest {
        id: QuestId::new_static("dragon_slayer_ii"),
        name: String::from_str("Dragon Slayer II"),
        quest_points: 5,
        requirements: vec![
            quest_point_req(200),
            quest_req(QuestId::new_static("legends_quest")),
            quest_req(QuestId::new_static("dream_mentor")),
            quest_req(QuestId::new_static("a_tail_of_two_cats")),
            quest_req(QuestId::new_static("animal_magnetism")),
            quest_req(QuestId::new_static("ghosts_ahoy")),
            quest_req(QuestId::new_static("bone_voyage")),
            quest_req(QuestId::new_static("client_of_kourend")),
            skill_req(Skill::Magic, Level(75)),
            skill_req(Skill::Smithing, Level(70)),
            skill_req(Skill::Mining, Level(68)),
            skill_req(Skill::Crafting, Level(62)),
            skill_req(Skill::Agility, Level(60)),
            skill_req(Skill::Thieving, Level(60)),
            skill_req(Skill::Construction, Level(50)),
            skill_req(Skill::Hitpoints, Level(50)),
        ],
        rewards: vec![
            xp_reward(Skill::Smithing, Xp(80000)),
            xp_reward(Skill::Mining, Xp(60000)),
            xp_reward(Skill::Agility, Xp(50000)),
            xp_reward(Skill::Thieving, Xp(50000)),
        ],
    };
    proof {
        reveal_strlit("a_tail_of_two_cats");
        reveal_strlit("animal_magnetism");
        reveal_strlit("bone_voyage");
        reveal_strlit("client_of_kourend");
        reveal_strlit("dream_mentor");
        reveal_strlit("ghosts_ahoy");
        reveal_strlit("legends_quest");
        assert(q.requirements@[1]->Quest_0@ == "legends_quest"@);
        assert(q.requirements@[2]->Quest_0@ == "dream_mentor"@);
        assert(q.requirements@[3]->Quest_0@ == "a_tail_of_two_cats"@);
        assert(q.requirements@[4]->Quest_0@ == "animal_magnetism"@);
        assert(q.requirements@[5]->Quest_0@ == "ghosts_ahoy"@);
        assert(q.requirements@[6]->Quest_0@ == "bone_voyage"@);
        assert(q.requirements@[7]->Quest_0@ == "client_of_kourend"@);
        assert(("legends_quest"@).len() != ("dream_mentor"@).len());
        assert(("legends_quest"@) != ("dream_mentor"@));
        assert(!req_like(q.requirements@[1], q.requirements@[2]));
        assert(("legends_quest"@).len() != ("a_tail_of_two_cats"@).len());
        assert(("legends_quest"@) != ("a_tail_of_two_cats"@));
        assert(!req_like(q.requirements@[1], q.requirements@[3]));
        assert(("legends_quest"@).len() != ("animal_magnetism"@).len());
        assert(("legends_quest"@) != ("animal_magnetism"@));
        assert(!req_like(q.requirements@[1], q.requirements@[4]));
        assert(("legends_quest"@).len() != ("ghosts_ahoy"@).len());
        assert(("legends_quest"@) != ("ghosts_ahoy"@));
        assert(!req_like(q.requirements@[1], q.requirements@[5]));
        assert(("legends_quest"@).len() != ("bone_voyage"@).len());
        assert(("legends_quest"@) != ("bone_voyage"@));
        assert(!req_like(q.requirements@[1], q.requirements@[6]));
        assert(("legends_quest"@).len() != ("client_of_kourend"@).len());
        assert(("legends_quest"@) != ("client_of_kourend"@));
        assert(!req_like(q.requirements@[1], q.requirements@[7]));
        assert(("dream_mentor"@).len() != ("a_tail_of_two_cats"@).len());
        assert(("dream_mentor"@) != ("a_tail_of_two_cats"@));
        assert(!req_like(q.requirements@[2], q.requirements@[3]));
        assert(("dream_mentor"@).len() != ("animal_magnetism"@).len());
        assert(("dream_mentor"@) != ("animal_magnetism"@));
        assert(!req_like(q.requirements@[2], q.requirements@[4]));
        assert(("dream_mentor"@).len() != ("ghosts_ahoy"@).len());
        assert(("dream_mentor"@) != ("ghosts_ahoy"@));
        assert(!req_like(q.requirements@[2], q.requirements@[5]));
        assert(("dream_mentor"@).len() != ("bone_voyage"@).len());
        assert(("dream_mentor"@) != ("bone_voyage"@));
        assert(!req_like(q.requirements@[2], q.requirements@[6]));
        assert(("dream_mentor"@).len() != ("client_of_kourend"@).len());
        assert(("dream_mentor"@) != ("client_of_kourend"@));
        assert(!req_like(q.requirements@[2], q.requirements@[7]));
        assert(("a_tail_of_two_cats"@).len() != ("animal_magnetism"@).len());
        assert(("a_tail_of_two_cats"@) != ("animal_magnetism"@));
        assert(!req_like(q.requirements@[3], q.requirements@[4]));
        assert(("a_tail_of_two_cats"@).len() != ("ghosts_ahoy"@).len());
        assert(("a_tail_of_two_cats"@) != ("ghosts_ahoy"@));
        assert(!req_like(q.requirements@[3], q.requirements@[5]));
        assert(("a_tail_of_two_cats"@).len() != ("bone_voyage"@).len());
        assert(("a_tail_of_two_cats"@) != ("bone_voyage"@));
        assert(!req_like(q.requirements@[3], q.requirements@[6]));
        assert(("a_tail_of_two_cats"@).len() != ("client_of_kourend"@).len());
        assert(("a_tail_of_two_cats"@) != ("client_of_kourend"@));
        assert(!req_like(q.requirements@[3], q.requirements@[7]));
        assert(("animal_magnetism"@).len() != ("ghosts_ahoy"@).len());
        assert(("animal_magnetism"@) != ("ghosts_ahoy"@));
        assert(!req_like(q.requirements@[4], q.requirements@[5]));
        assert(("animal_magnetism"@).len() != ("bone_voyage"@).len());
        assert(("animal_magnetism"@) != ("bone_voyage"@));
        assert(!req_like(q.requirements@[4], q.requirements@[6]));
        assert(("animal_magnetism"@).len() != ("client_of_kourend"@).len());
        assert(("animal_magnetism"@) != ("client_of_kourend"@));
        assert(!req_like(q.requirements@[4], q.requirements@[7]));
        assert(("ghosts_ahoy"@)[0] != ("bone_voyage"@)[0]);
        assert(("ghosts_ahoy"@) != ("bone_voyage"@));
        assert(!req_like(q.requirements@[5], q.requirements@[6]));
        assert(("ghosts_ahoy"@).len() != ("client_of_kourend"@).len());
        assert(("ghosts_ahoy"@) != ("client_of_kourend"@));
        assert(!req_like(q.requirements@[5], q.requirements@[7]));
        assert(("bone_voyage"@).len() != ("client_of_kourend"@).len());
        assert(("bone_voyage"@) != ("client_of_kourend"@));
        assert(!req_like(q.requirements@[6], q.requirements@[7]));
    }
    q
}

/// Dream Mentor
fn dream_mentor() -> (q: Quest)
    ensures
        q.id@ == "dream_mentor"@,
        q.name@ == "Dream Mentor"@,
        q.quest_points == 2,
        q.requirements@.len() == 2,
        q.rewards@.len() == 2,
        q.wf(),
{
    let q = Quest {
        id: QuestId::new_static("dream_mentor"),
        name: String::from_str("Dream Mentor"),
        quest_points: 2,
        requirements: vec![
            quest_req(QuestId::new_static("lunar_diplomacy")),
            quest_req(QuestId::new_static("eadgars_ruse")),
        ],
        rewards: vec![
            xp_reward(Skill::Hitpoints, Xp(15000)),
            xp_reward(Skill::Magic, Xp(10000)),
        ],
    };
    proof {
        reveal_strlit("eadgars_ruse");
        reveal_strlit("lunar_diplomacy");
        assert(q.requirements@[0]->Quest_0@ == "lunar_diplomacy"@);
        assert(q.requirements@[1]->Quest_0@ == "eadgars_ruse"@);
        assert(("lunar_diplomacy"@).len() != ("eadgars_ruse"@).len());
        assert(("lunar_diplomacy"@) != ("eadgars_ruse"@));
        assert(!req_like(q.requirements@[0], q.requirements@[1]));
    }
    q
}

/// Druidic Ritual
fn druidic_ritual() -> (q: Quest)
    ensures
        q.id@ == "druidic_ritual"@,
        q.name@ == "Druidic Ritual"@,
        q.quest_points == 4,
        q.requirements@.len() == 0,
        q.rewards@.len() == 1,
        q.wf(),
{
    let q = Quest {
        id: QuestId::new_static("druidic_ritual"),
        name: String::from_str("Druidic Ritual"),
        quest_points: 4,
        requirements: Vec::new(),
        rewards: vec![
            xp_reward(Skill::Herblore, Xp(250)),
        ],
    };
    q
}

/// Dwarf Cannon
fn dwarf_cannon() -> (q: Quest)
    ensures
        q.id@ == "dwarf_cannon"@,
        q.name@ == "Dwarf Cannon"@,
        q.quest_points == 1,
        q.requirements@.len() == 0,
        q.rewards@.len() == 1,
        q.wf(),
{
    let q = Quest {
        id: QuestId::new_static("dwarf_cannon"),
        name: String::from_str("Dwarf Cannon"),
        quest_points: 1,
        requirements: Vec::new(),
        rewards: vec![
            xp_reward(Skill::Crafting, Xp(750)),
        ],
    };
    q
}

/// Eadgar's Ruse
fn eadgars_ruse() -> (q: Quest)
    ensures
        q.id@ == "eadgars_ruse"@,
        q.name@ == "Eadgar's Ruse"@,
        q.quest_points == 1,
        q.requirements@.len() == 3,
        q.rewards@.len() == 1,
        q.wf(),
{
    let q = Quest {
        id: QuestId::new_static("eadgars_ruse"),
        name: String::from_str("Eadgar's Ruse"),
        quest_points: 1,
        requirements: vec![
            quest_req(QuestId::new_static("druidic_ritual")),
            quest_req(QuestId::new_static("troll_stronghold")),
            skill_req(Skill::Herblore, Level(31)),
        ],
        rewards: vec![
            xp_reward(Skill::Herblore, Xp(11000)),
        ],
    };
    proof {
        reveal_strlit("druidic_ritual");
        reveal_strlit("troll_stronghold");
        assert(q.requirements@[0]->Quest_0@ == "druidic_ritual"@);
        assert(q.requirements@[1]->Quest_0@ == "troll_stronghold"@);
        assert(("druidic_ritual"@).len() != ("troll_stronghold"@).len());
        assert(("druidic_ritual"@) != ("troll_stronghold"@));
        assert(!req_like(q.requirements@[0], q.requirements@[1]));
    }
    q
}

/// Eagles' Peak
fn eagles_peak() -> (q: Quest)
    ensures
        q.id@ == "eagles_peak"@,
        q.name@ == "Eagles' Peak"@,
        q.quest_points == 2,
        q.requirements@.len() == 1,
        q.rewards@.len() == 1,
        q.wf(),
{
    let q = Quest {
        id: QuestId::new_static("eagles_peak"),
        name: String::from_str("Eagles' Peak"),
        quest_points: 2,
        requirements: vec![
            skill_req(Skill::Hunter, Level(27)),
        ],
        rewards: vec![
            xp_reward(Skill::Hunter, Xp(2500)),
        ],
    };
    q
}

/// Elemental Workshop I
fn elemental_workshop_i() -> (q: Quest)
    ensures
        q.id@ == "elemental_workshop_i"@,
        q.name@ == "Elemental Workshop I"@,
        q.quest_points == 1,
        q.requirements@.len() == 3,
        q.rewards@.len() == 2,
        q.wf(),
{
    let q = Quest {
        id: QuestId::new_static("elemental_workshop_i"),
        name: String::from_str("Elemental Workshop I"),
        quest_points: 1,
        requirements: vec![
            skill_req(Skill::Mining, Level(20)),
            skill_req(Skill::Smithing, Level(20)),
            skill_req(Skill::Crafting, Level(20)),
        ],
        rewards: vec![
            xp_reward(Skill::Crafting, Xp(5000)),
            xp_reward(Skill::Smithing, Xp(5000)),
        ],
    };
    q
}

/// Elemental Workshop II
fn elemental_workshop_ii() -> (q: Quest)
    ensures
        q.id@ == "elemental_workshop_ii"@,
        q.name@ == "Elemental Workshop II"@,
        q.quest_points == 1,
        q.requirements@.len() == 3,
        q.rewards@.len() == 2,
        q.wf(),
{
    let q = Quest {
        id: QuestId::new_static("elemental_workshop_ii"),
        name: String::from_str("Elemental Workshop II"),
        quest_points: 1,
        requirements: vec![
            quest_req(QuestId::new_static("elemental_workshop_i")),
            skill_req(Skill::Magic, Level(20)),
            skill_req(Skill::Smithing, Level(30)),
        ],
        rewards: vec![
            xp_reward(Skill::Smithing, Xp(7500)),
            xp_reward(Skill::Crafting, Xp(7500)),
        ],
    };
    q
}

/// Enakhra's Lament
fn enakhras_lament() -> (q: Quest)
    ensures
        q.id@ == "enakhras_lament"@,
        q.name@ == "Enakhra's Lament"@,
        q.quest_points == 2,
        q.requirements@.len() == 4,
        q.rewards@.len() == 4,
        q.wf(),
{
    let q = Quest {
        id: QuestId::new_static("enakhras_lament"),
        name: String::from_str("Enakhra's Lament"),
        quest_points: 2,
        requirements: vec![
            skill_req(Skill::Crafting, Level(50)),
            skill_req(Skill::Firemaking, Level(45)),
            skill_req(Skill::Prayer, Level(43)),
            skill_req(Skill::Magic, Level(39)),
        ],
        rewards: vec![
            xp_reward(Skill::Crafting, Xp(7000)),
            xp_reward(Skill::Mining, Xp(7000)),
            xp_reward(Skill::Firemaking, Xp(7000)),
            xp_reward(Skill::Magic, Xp(7000)),
        ],
    };
    q
}

/// Enlightened Journey
fn enlightened_journey() -> (q: Quest)
    ensures
        q.id@ == "enlightened_journey"@,
        q.name@ == "Enlightened Journey"@,
        q.quest_points == 1,
        q.requirements@.len() == 4,
        q.rewards@.len() == 4,
        q.wf(),
{
    let q = Quest {
        id: QuestId::new_static("enlightened_journey"),
        name: String::from_str("Enlightened Journey"),
        quest_points: 1,
        requirements: vec![
            quest_point_req(20),
            skill_req(Skill::Firemaking, Level(20)),
            skill_req(Skill::Farming, Level(30)),
            skill_req(Skill::Crafting, Level(36)),
        ],
        rewards: vec![
            xp_reward(Skill::Crafting, Xp(2000)),
            xp_reward(Skill::Farming, Xp(3000)),
            xp_reward(Skill::Woodcutting, Xp(1500)),
            xp_reward(Skill::Firemaking, Xp(4000)),
        ],
    };
    q
}

/// Ethically Acquired Antiquities
fn ethically_acquired_antiquities() -> (q: Quest)
    ensures
        q.id@ == "ethically_acquired_antiquities"@,
        q.name@ == "Ethically Acquired Antiquities"@,
        q.quest_points == 1,
        q.requirements@.len() == 3,
        q.rewards@.len() == 1,
        q.wf(),
{
    let q = Quest {
        id: QuestId::new_static("ethically_acquired_antiquities"),
        name: String::from_str("Ethically Acquired Antiquities"),
        quest_points: 1,
        requirements: vec![
            skill_req(Skill::Thieving, Level(25)),
            quest_req(QuestId::new_static("children_of_the_sun")),
            quest_req(QuestId::new_static("shield_of_arrav")),
        ],
        rewards: vec![
            xp_reward(Skill::Thieving, Xp(6000)),
        ],
    };
    proof {
        reveal_strlit("children_of_the_sun");
        reveal_strlit("shield_of_arrav");
        assert(q.requirements@[1]->Quest_0@ == "children_of_the_sun"@);
        assert(q.requirements@[2]->Quest_0@ == "shield_of_arrav"@);
        assert(("children_of_the_sun"@).len() != ("shield_of_arrav"@).len());
        assert(("children_of_the_sun"@) != ("shield_of_arrav"@));
        assert(!req_like(q.requirements@[1], q.requirements@[2]));
    }
    q
}

/// The Eyes of Glouphrie
fn the_eyes_of_glouphrie() -> (q: Quest)
    ensures
        q.id@ == "the_eyes_of_glouphrie"@,
        q.name@ == "The Eyes of Glouphrie"@,
        q.quest_points == 2,
        q.requirements@.len() == 3,
        q.rewards@.len() == 4,
        q.wf(),
{
    let q = Quest {
        id: QuestId::new_static("the_eyes_of_glouphrie"),
        name: String::from_str("The Eyes of Glouphrie"),
        quest_points: 2,
        requirements: vec![
            quest_req(QuestId::new_static("the_grand_tree")),
            skill_req(Skill::Construction, Level(5)),
            skill_req(Skill::Magic, Level(46)),
        ],
        rewards: vec![
            xp_reward(Skill::Magic, Xp(12000)),
            xp_reward(Skill::Woodcutting, Xp(2500)),
            xp_reward(Skill::Runecraft, Xp(6000)),
            xp_reward(Skill::Construction, Xp(250)),
        ],
    };
    q
}

/// Fairytale I - Growing Pains
fn fairytale_i() -> (q: Quest)
    ensures
        q.id@ == "fairytale_i"@,
        q.name@ == "Fairytale I - Growing Pains"@,
        q.quest_points == 2,
        q.requirements@.len() == 2,
        q.rewards@.len() == 3,
        q.wf(),
{
    let q = Quest {
        id: QuestId::new_static("fairytale_i"),
        name: String::from_str("Fairytale I - Growing Pains"),
        quest_points: 2,
        requirements: vec![
            quest_req(QuestId::new_static("lost_city")),
            quest_req(QuestId::new_static("nature_spirit")),
        ],
        rewards: vec![
            xp_reward(Skill::Farming, Xp(3500)),
            xp_reward(Skill::Attack, Xp(2000)),
            xp_reward(Skill::Magic, Xp(1000)),
        ],
    };
    proof {
        reveal_strlit("lost_city");
        reveal_strlit("nature_spirit");
        assert(q.requirements@[0]->Quest_0@ == "lost_city"@);
        assert(q.requirements@[1]->Quest_0@ == "nature_spirit"@);
        assert(("lost_city"@).len() != ("nature_spirit"@).len());
        assert(("lost_city"@) != ("nature_spirit"@));
        assert(!req_like(q.requirements@[0], q.requirements@[1]));
    }
    q
}

/// Fairytale II - Cure a Queen
fn fairytale_ii() -> (q: Quest)
    ensures
        q.id@ == "fairytale_ii"@,
        q.name@ == "Fairytale II - Cure a Queen"@,
        q.quest_points == 2,
        q.requirements@.len() == 4,
        q.rewards@.len() == 2,
        q.wf(),
{
    let q = Quest {
        id: QuestId::new_static("fairytale_ii"),
        name: String::from_str("Fairytale II - Cure a Queen"),
        quest_points: 2,
        requirements: vec![
            quest_req(QuestId::new_static("fairytale_i")),
            skill_req(Skill::Thieving, Level(40)),
            skill_req(Skill::Farming, Level(49)),
            skill_req(Skill::Herblore, Level(57)),
        ],
        rewards: vec![
            xp_reward(Skill::Herblore, Xp(3500)),
            xp_reward(Skill::Thieving, Xp(2500)),
        ],
    };
    q
}

/// Family Crest
fn family_crest() -> (q: Quest)
    ensures
        q.id@ == "family_crest"@,
        q.name@ == "Family Crest"@,
        q.quest_points == 1,
        q.requirements@.len() == 4,
        q.rewards@.len() == 0,
        q.wf(),
{
    let q = Quest {
        id: QuestId::new_static("family_crest"),
        name: String::from_str("Family Crest"),
        quest_points: 1,
        requirements: vec![
            skill_req(Skill::Mining, Level(40)),
            skill_req(Skill::Smithing, Level(40)),
            skill_req(Skill::Magic, Level(59)),
            skill_req(Skill::Crafting, Level(40)),
        ],
        rewards: Vec::new(),
    };
    q
}

/// The Feud
fn the_feud() -> (q: Quest)
    ensures
        q.id@ == "the_feud"@,
        q.name@ == "The Feud"@,
        q.quest_points == 1,
        q.requirements@.len() == 1,
        q.rewards@.len() == 1,
        q.wf(),
{
    let q = Quest {
        id: QuestId::new_static("the_feud"),
        name: String::from_str("The Feud"),
        quest_points: 1,
        requirements: vec![
            skill_req(Skill::Thieving, Level(30)),
        ],
        rewards: vec![
            xp_reward(Skill::Thieving, Xp(15000)),
        ],
    };
    q
}

/// Fight Arena
fn fight_arena() -> (q: Quest)
    ensures
        q.id@ == "fight_arena"@,
        q.name@ == "Fight Arena"@,
        q.quest_points == 2,
        q.requirements@.len() == 0,
        q.rewards@.len() == 2,
        q.wf(),
{
    let q = Quest {
        id: QuestId::new_static("fight_arena"),
        name: String::from_str("Fight Arena"),
        quest_points: 2,
        requirements: Vec::new(),
        rewards: vec![
            xp_reward(Skill::Attack, Xp(12175)),
            xp_reward(Skill::Thieving, Xp(2175)),
        ],
    };
    q
}

/// The Final Dawn
fn the_final_dawn() -> (q: Quest)
    ensures
        q.id@ == "the_final_dawn"@,
        q.name@ == "The Final Dawn"@,
        q.quest_points == 3,
        q.requirements@.len() == 5,
        q.rewards@.len() == 3,
        q.wf(),
{
    let q = Quest {
        id: QuestId::new_static("the_final_dawn"),
        name: String::from_str("The Final Dawn"),
        quest_points: 3,
        requirements: vec![
            quest_req(QuestId::new_static("the_heart_of_darkness")),
            quest_req(QuestId::new_static("perilous_moons")),
            skill_req(Skill::Thieving, Level(66)),
            skill_req(Skill::Runecraft, Level(52)),
            skill_req(Skill::Fletching, Level(52)),
        ],
        rewards: vec![
            xp_reward(Skill::Thieving, Xp(55000)),
            xp_reward(Skill::Runecraft, Xp(25000)),
            xp_reward(Skill::Fletching, Xp(25000)),
        ],
    };
    proof {
        reveal_strlit("perilous_moons");
        reveal_strlit("the_heart_of_darkness");
        assert(q.requirements@[0]->Quest_0@ == "the_heart_of_darkness"@);
        assert(q.requirements@[1]->Quest_0@ == "perilous_moons"@);
        assert(("the_heart_of_darkness"@).len() != ("perilous_moons"@).len());
        assert(("the_heart_of_darkness"@) != ("perilous_moons"@));
        assert(!req_like(q.requirements@[0], q.requirements@[1]));
    }
    q
}

/// Fishing Contest
pub fn fishing_contest() -> (q: Quest)
    ensures
        q.id@ == "fishing_contest"@,
        q.name@ == "Fishing Contest"@,
        q.quest_points == 1,
        q.requirements@.len() == 1,
        q.rewards@.len() == 1,
        q.requirements@[0] == (QuestRequirement::Skill { skill: Skill::Fishing, level: Level(10) }),
        q.rewards@[0] == (QuestReward::Xp { skill: Skill::Fishing, xp: Xp(2437) }),
        q.wf(),
{
    let q = Quest {
        id: QuestId::new_static("fishing_contest"),
        name: String::from_str("Fishing Contest"),
        quest_points: 1,
        requirements: vec![
            skill_req(Skill::Fishing, Level(10)),
        ],
        rewards: vec![
            xp_reward(Skill::Fishing, Xp(2437)),
        ],
    };
    q
}

/// Forgettable Tale...
pub fn forgettable_tale() -> (q: Quest)
    ensures
        q.id@ == "forgettable_tale"@,
        q.name@ == "Forgettable Tale..."@,
        q.quest_points == 2,
        q.requirements@.len() == 4,
        q.rewards@.len() == 2,
        q.requirements@[0] matches QuestRequirement::Quest(id) && id@ == "the_giant_dwarf"@,
        q.requirements@[1] matches QuestRequirement::Quest(id) && id@ == "fishing_contest"@,
        q.requirements@[2] == (QuestRequirement::Skill { skill: Skill::Cooking, level: Level(22) }),
        q.requirements@[3] == (QuestRequirement::Skill { skill: Skill::Farming, level: Level(17) }),
        q.rewards@[0] == (QuestReward::Xp { skill: Skill::Cooking, xp: Xp(5000) }),
        q.rewards@[1] == (QuestReward::Xp { skill: Skill::Farming, xp: Xp(5000) }),
        q.wf(),
{
    let q = Quest {
        id: QuestId::new_static("forgettable_tale"),
        name: String::from_str("Forgettable Tale..."),
        quest_points: 2,
        requirements: vec![
            quest_req(QuestId::new_static("the_giant_dwarf")),
            quest_req(QuestId::new_static("fishing_contest")),
            skill_req(Skill::Cooking, Level(22)),
            skill_req(Skill::Farming, Level(17)),
        ],
        rewards: vec![
            xp_reward(Skill::Cooking, Xp(5000)),
            xp_reward(Skill::Farming, Xp(5000)),
        ],
    };
    proof {
        reveal_strlit("fishing_contest");
        reveal_strlit("the_giant_dwarf");
        assert(q.requirements@[0]->Quest_0@ == "the_giant_dwarf"@);
        assert(q.requirements@[1]->Quest_0@ == "fishing_contest"@);
        assert(("the_giant_dwarf"@)[0] != ("fishing_contest"@)[0]);
        assert(("the_giant_dwarf"@) != ("fishing_contest"@));
        assert(!req_like(q.requirements@[0], q.requirements@[1]));
    }
    q
}

/// The Forsaken Tower
pub fn the_forsaken_tower() -> (q: Quest)
    ensures
        q.id@ == "the_forsaken_tower"@,
        q.name@ == "The Forsaken Tower"@,
        q.quest_points == 1,
        q.requirements@.len() == 1,
        q.rewards@.len() == 2,
        q.requirements@[0] matches QuestRequirement::Quest(id) && id@ == "client_of_kourend"@,
        q.rewards@[0] == (QuestReward::Xp { skill: Skill::Mining, xp: Xp(500) }),
        q.rewards@[1] == (QuestReward::Xp { skill: Skill::Smithing, xp: Xp(500) }),
        q.wf(),
{
    let q = Quest {
        id: QuestId::new_static("the_forsaken_tower"),
        name: String::from_str("The Forsaken Tower"),
        quest_points: 1,
        requirements: vec![
            quest_req(QuestId::new_static("client_of_kourend")),
        ],
        rewards: vec![
            xp_reward(Skill::Mining, Xp(500)),
            xp_reward(Skill::Smithing, Xp(500)),
        ],
    };
    q
}

/// The Fremennik Exiles
pub fn the_fremennik_exiles() -> (q: Quest)
    ensures
        q.id@ == "the_fremennik_exiles"@,
        q.name@ == "The Fremennik Exiles"@,
        q.quest_points == 2,
        q.requirements@.len() == 9,
        q.rewards@.len() == 3,
        q.requirements@[0] matches QuestRequirement::Quest(id) && id@ == "the_fremennik_isles"@,
        q.requirements@[1] matches QuestRequirement::Quest(id) && id@ == "lunar_diplomacy"@,
        q.requirements@[2] matches QuestRequirement::Quest(id) && id@ == "mountain_daughter"@,
        q.requirements@[3] matches QuestRequirement::Quest(id) && id@ == "heroes_quest"@,
        q.requirements@[4] == (QuestRequirement::Skill { skill: Skill::Crafting, level: Level(65) }),
        q.requirements@[5] == (QuestRequirement::Skill { skill: Skill::Slayer, level: Level(60) }),
        q.requirements@[6] == (QuestRequirement::Skill { skill: Skill::Smithing, level: Level(60) }),
        q.requirements@[7] == (QuestRequirement::Skill { skill: Skill::Fishing, level: Level(60) }),
        q.requirements@[8] == (QuestRequirement::Skill { skill: Skill::Runecraft, level: Level(55) }),
        q.rewards@[0] == (QuestReward::Xp { skill: Skill::Slayer, xp: Xp(50000) }),
        q.rewards@[1] == (QuestReward::Xp { skill: Skill::Crafting, xp: Xp(50000) }),
        q.rewards@[2] == (QuestReward::Xp { skill: Skill::Runecraft, xp: Xp(30000) }),
        q.wf(),
{
    let q = Quest {
        id: QuestId::new_static("the_fremennik_exiles"),
        name: String::from_str("The Fremennik Exiles"),
        quest_points: 2,
        requirements: vec![
            quest_req(QuestId::new_static("the_fremennik_isles")),
            quest_req(QuestId::new_static("lunar_diplomacy")),
            quest_req(QuestId::new_static("mountain_daughter")),
            quest_req(QuestId::new_static("heroes_quest")),
            skill_req(Skill::Crafting, Level(65)),
            skill_req(Skill::Slayer, Level(60)),
            skill_req(Skill::Smithing, Level(60)),
            skill_req(Skill::Fishing, Level(60)),
            skill_req(Skill::Runecraft, Level(55)),
        ],
        rewards: vec![
            xp_reward(Skill::Slayer, Xp(50000)),
            xp_reward(Skill::Crafting, Xp(50000)),
            xp_reward(Skill::Runecraft, Xp(30000)),
        ],
    };
    proof {
        reveal_strlit("heroes_quest");
        reveal_strlit("lunar_diplomacy");
        reveal_strlit("mountain_daughter");
        reveal_strlit("the_fremennik_isles");
        assert(q.requirements@[0]->Quest_0@ == "the_fremennik_isles"@);
        assert(q.requirements@[1]->Quest_0@ == "lunar_diplomacy"@);
        assert(q.requirements@[2]->Quest_0@ == "mountain_daughter"@);
        assert(q.requirements@[3]->Quest_0@ == "heroes_quest"@);
        assert(("the_fremennik_isles"@).len() != ("lunar_diplomacy"@).len());
        assert(("the_fremennik_isles"@) != ("lunar_diplomacy"@));
        assert(!req_like(q.requirements@[0], q.requirements@[1]));
        assert(("the_fremennik_isles"@).len() != ("mountain_daughter"@).len());
        assert(("the_fremennik_isles"@) != ("mountain_daughter"@));
        assert(!req_like(q.requirements@[0], q.requirements@[2]));
        assert(("the_fremennik_isles"@).len() != ("heroes_quest"@).len());
        assert(("the_fremennik_isles"@) != ("heroes_quest"@));
        assert(!req_like(q.requirements@[0], q.requirements@[3]));
        assert(("lunar_diplomacy"@).len() != ("mountain_daughter"@).len());
        assert(("lunar_diplomacy"@) != ("mountain_daughter"@));
        assert(!req_like(q.requirements@[1], q.requirements@[2]));
        assert(("lunar_diplomacy"@).len() != ("heroes_quest"@).len());
        assert(("lunar_diplomacy"@) != ("heroes_quest"@));
        assert(!req_like(q.requirements@[1], q.requirements@[3]));
        assert(("mountain_daughter"@).len() != ("heroes_quest"@).len());
        assert(("mountain_daughter"@) != ("heroes_quest"@));
        assert(!req_like(q.requirements@[2], q.requirements@[3]));
    }
    q
}

/// The Fremennik Isles
pub fn the_fremennik_isles() -> (q: Quest)
    ensures
        q.id@ == "the_fremennik_isles"@,
        q.name@ == "The Fremennik Isles"@,
        q.quest_points == 1,
        q.requirements@.len() == 2,
        q.rewards@.len() == 3,
        q.requirements@[0] matches QuestRequirement::Quest(id) && id@ == "the_fremennik_trials"@,
        q.requirements@[1] == (QuestRequirement::Skill { skill: Skill::Construction, level: Level(20) }),
        q.rewards@[0] == (QuestReward::Xp { skill: Skill::Woodcutting, xp: Xp(10000) }),
        q.rewards@[1] == (QuestReward::Xp { skill: Skill::Crafting, xp: Xp(5000) }),
        q.rewards@[2] == (QuestReward::Xp { skill: Skill::Construction, xp: Xp(5000) }),
        q.wf(),
{
    let q = Quest {
        id: QuestId::new_static("the_fremennik_isles"),
        name: String::from_str("The Fremennik Isles"),
        quest_points: 1,
        requirements: vec![
            quest_req(QuestId::new_static("the_fremennik_trials")),
            skill_req(Skill::Construction, Level(20)),
        ],
        rewards: vec![
            xp_reward(Skill::Woodcutting, Xp(10000)),
            xp_reward(Skill::Crafting, Xp(5000)),
            xp_reward(Skill::Construction, Xp(5000)),
        ],
    };
    q
}

/// The Fremennik Trials
pub fn the_fremennik_trials() -> (q: Quest)
    ensures
        q.id@ == "the_fremennik_trials"@,
        q.name@ == "The Fremennik Trials"@,
        q.quest_points == 3,
        q.requirements@.len() == 3,
        q.rewards@.len() == 10,
        q.requirements@[0] == (QuestRequirement::Skill { skill: Skill::Fletching, level: Level(25) }),
        q.requirements@[1] == (QuestRequirement::Skill { skill: Skill::Woodcutting, level: Level(40) }),
        q.requirements@[2] == (QuestRequirement::Skill { skill: Skill::Crafting, level: Level(40) }),
        q.rewards@[0] == (QuestReward::Xp { skill: Skill::Agility, xp: Xp(2812) }),
        q.rewards@[1] == (QuestReward::Xp { skill: Skill::Attack, xp: Xp(2812) }),
        q.rewards@[2] == (QuestReward::Xp { skill: Skill::Crafting, xp: Xp(2812) }),
        q.rewards@[3] == (QuestReward::Xp { skill: Skill::Defence, xp: Xp(2812) }),
        q.rewards@[4] == (QuestReward::Xp { skill: Skill::Fishing, xp: Xp(2812) }),
        q.rewards@[5] == (QuestReward::Xp { skill: Skill::Fletching, xp: Xp(2812) }),
        q.rewards@[6] == (QuestReward::Xp { skill: Skill::Hitpoints, xp: Xp(2812) }),
        q.rewards@[7] == (QuestReward::Xp { skill: Skill::Strength, xp: Xp(2812) }),
        q.rewards@[8] == (QuestReward::Xp { skill: Skill::Thieving, xp: Xp(2812) }),
        q.rewards@[9] == (QuestReward::Xp { skill: Skill::Woodcutting, xp: Xp(2812) }),
        q.wf(),
{
    let q = Quest {
        id: QuestId::new_static("the_fremennik_trials"),
        name: String::from_str("The Fremennik Trials"),
        quest_points: 3,
        requirements: vec![
            skill_req(Skill::Fletching, Level(25)),
            skill_req(Skill::Woodcutting, Level(40)),
            skill_req(Skill::Crafting, Level(40)),
        ],
        rewards: vec![
            xp_reward(Skill::Agility, Xp(2812)),
            xp_reward(Skill::Attack, Xp(2812)),
            xp_reward(Skill::Crafting, Xp(2812)),
            xp_reward(Skill::Defence, Xp(2812)),
            xp_reward(Skill::Fishing, Xp(2812)),
            xp_reward(Skill::Fletching, Xp(2812)),
            xp_reward(Skill::Hitpoints, Xp(2812)),
            xp_reward(Skill::Strength, Xp(2812)),
            xp_reward(Skill::Thieving, Xp(2812)),
            xp_reward(Skill::Woodcutting, Xp(2812)),
        ],
    };
    q
}

/// The Garden of Death
fn the_garden_of_death() -> (q: Quest)
    ensures
        q.id@ == "the_garden_of_death"@,
        q.name@ == "The Garden of Death"@,
        q.quest_points == 1,
        q.requirements@.len() == 1,
        q.rewards@.len() == 1,
        q.wf(),
{
    let q = Quest {
        id: QuestId::new_static("the_garden_of_death"),
        name: String::from_str("The Garden of Death"),
        quest_points: 1,
        requirements: vec![
            skill_req(Skill::Farming, Level(20)),
        ],
        rewards: vec![
            xp_reward(Skill::Farming, Xp(10000)),
        ],
    };
    q
}

/// Garden of Tranquillity
fn garden_of_tranquillity() -> (q: Quest)
    ensures
        q.id@ == "garden_of_tranquillity"@,
        q.name@ == "Garden of Tranquillity"@,
        q.quest_points == 2,
        q.requirements@.len() == 2,
        q.rewards@.len() == 1,
        q.wf(),
{
    let q = Quest {
        id: QuestId::new_static("garden_of_tranquillity"),
        name: String::from_str("Garden of Tranquillity"),
        quest_points: 2,
        requirements: vec![
            quest_req(QuestId::new_static("creature_of_fenkenstrain")),
            skill_req(Skill::Farming, Level(25)),
        ],
        rewards: vec![
            xp_reward(Skill::Farming, Xp(5000)),
        ],
    };
    q
}

/// Gertrude's Cat
fn gertrudes_cat() -> (q: Quest)
    ensures
        q.id@ == "gertrudes_cat"@,
        q.name@ == "Gertrude's Cat"@,
        q.quest_points == 1,
        q.requirements@.len() == 0,
        q.rewards@.len() == 1,
        q.wf(),
{
    let q = Quest {
        id: QuestId::new_static("gertrudes_cat"),
        name: String::from_str("Gertrude's Cat"),
        quest_points: 1,
        requirements: Vec::new(),
        rewards: vec![
            xp_reward(Skill::Cooking, Xp(1525)),
        ],
    };
    q
}

/// Getting Ahead
fn getting_ahead() -> (q: Quest)
    ensures
        q.id@ == "getting_ahead"@,
        q.name@ == "Getting Ahead"@,
        q.quest_points == 1,
        q.requirements@.len() == 2,
        q.rewards@.len() == 2,
        q.wf(),
{
    let q = Quest {
        id: QuestId::new_static("getting_ahead"),
        name: String::from_str("Getting Ahead"),
        quest_points: 1,
        requirements: vec![
            skill_req(Skill::Crafting, Level(30)),
            skill_req(Skill::Construction, Level(26)),
        ],
        rewards: vec![
            xp_reward(Skill::Crafting, Xp(4000)),
            xp_reward(Skill::Construction, Xp(3200)),
        ],
    };
    q
}

/// Ghosts Ahoy
fn ghosts_ahoy() -> (q: Quest)
    ensures
        q.id@ == "ghosts_ahoy"@,
        q.name@ == "Ghosts Ahoy"@,
        q.quest_points == 2,
        q.requirements@.len() == 4,
        q.rewards@.len() == 1,
        q.wf(),
{
    let q = Quest {
        id: QuestId::new_static("ghosts_ahoy"),
        name: String::from_str("Ghosts Ahoy"),
        quest_points: 2,
        requirements: vec![
            quest_req(QuestId::new_static("priest_in_peril")),
            quest_req(QuestId::new_static("the_restless_ghost")),
            skill_req(Skill::Agility, Level(25)),
            skill_req(Skill::Cooking, Level(20)),
        ],
        rewards: vec![
            xp_reward(Skill::Prayer, Xp(2400)),
        ],
    };
    proof {
        reveal_strlit("priest_in_peril");
        reveal_strlit("the_restless_ghost");
        assert(q.requirements@[0]->Quest_0@ == "priest_in_peril"@);
        assert(q.requirements@[1]->Quest_0@ == "the_restless_ghost"@);
        assert(("priest_in_peril"@).len() != ("the_restless_ghost"@).len());
        assert(("priest_in_peril"@) != ("the_restless_ghost"@));
        assert(!req_like(q.requirements@[0], q.requirements@[1]));
    }
    q
}

/// The Giant Dwarf
fn the_giant_dwarf() -> (q: Quest)
    ensures
        q.id@ == "the_giant_dwarf"@,
        q.name@ == "The Giant Dwarf"@,
        q.quest_points == 2,
        q.requirements@.len() == 4,
        q.rewards@.len() == 6,
        q.wf(),
{
    let q = Quest {
        id: QuestId::new_static("the_giant_dwarf"),
        name: String::from_str("The Giant Dwarf"),
        quest_points: 2,
        requirements: vec![
            skill_req(Skill::Crafting, Level(12)),
            skill_req(Skill::Firemaking, Level(16)),
            skill_req(Skill::Magic, Level(33)),
            skill_req(Skill::Thieving, Level(14)),
        ],
        rewards: vec![
            xp_reward(Skill::Mining, Xp(2500)),
            xp_reward(Skill::Smithing, Xp(2500)),
            xp_reward(Skill::Crafting, Xp(2500)),
            xp_reward(Skill::Magic, Xp(1500)),
            xp_reward(Skill::Thieving, Xp(1500)),
            xp_reward(Skill::Firemaking, Xp(1500)),
        ],
    };
    q
}

/// The Golem
fn the_golem() -> (q: Quest)
    ensures
        q.id@ == "the_golem"@,
        q.name@ == "The Golem"@,
        q.quest_points == 1,
        q.requirements@.len() == 2,
        q.rewards@.len() == 2,
        q.wf(),
{
    let q = Quest {
        id: QuestId::new_static("the_golem"),
        name: String::from_str("The Golem"),
        quest_points: 1,
        requirements: vec![
            skill_req(Skill::Crafting, Level(20)),
            skill_req(Skill::Thieving, Level(25)),
        ],
        rewards: vec![
            xp_reward(Skill::Crafting, Xp(1000)),
            xp_reward(Skill::Thieving, Xp(1000)),
        ],
    };
    q
}

/// The Grand Tree
fn the_grand_tree() -> (q: Quest)
    ensures
        q.id@ == "the_grand_tree"@,
        q.name@ == "The Grand Tree"@,
        q.quest_points == 5,
        q.requirements@.len() == 1,
        q.rewards@.len() == 3,
        q.wf(),
{
    let q = Quest {
        id: QuestId::new_static("the_grand_tree"),
        name: String::from_str("The Grand Tree"),
        quest_points: 5,
        requirements: vec![
            skill_req(Skill::Agility, Level(25)),
        ],
        rewards: vec![
            xp_reward(Skill::Attack, Xp(18400)),
            xp_reward(Skill::Agility, Xp(7900)),
            xp_reward(Skill::Magic, Xp(2150)),
        ],
    };
    q
}

/// The Great Brain Robbery
fn the_great_brain_robbery() -> (q: Quest)
    ensures
        q.id@ == "the_great_brain_robbery"@,
        q.name@ == "The Great Brain Robbery"@,
        q.quest_points == 2,
        q.requirements@.len() == 6,
        q.rewards@.len() == 3,
        q.wf(),
{
    let q = Quest {
        id: QuestId::new_static("the_great_brain_robbery"),
        name: String::from_str("The Great Brain Robbery"),
        quest_points: 2,
        requirements: vec![
            quest_req(QuestId::new_static("creature_of_fenkenstrain")),
            quest_req(QuestId::new_static("cabin_fever")),
            quest_req(QuestId::new_static("recipe_for_disaster_freeing_pirate_pete")),
            skill_req(Skill::Crafting, Level(16)),
            skill_req(Skill::Construction, Level(30)),
            skill_req(Skill::Prayer, Level(50)),
        ],
        rewards: vec![
            xp_reward(Skill::Prayer, Xp(6000)),
            xp_reward(Skill::Crafting, Xp(3000)),
            xp_reward(Skill::Construction, Xp(2000)),
        ],
    };
    proof {
        reveal_strlit("cabin_fever");
        reveal_strlit("creature_of_fenkenstrain");
        reveal_strlit("recipe_for_disaster_freeing_pirate_pete");
        assert(q.requirements@[0]->Quest_0@ == "creature_of_fenkenstrain"@);
        assert(q.requirements@[1]->Quest_0@ == "cabin_fever"@);
        assert(q.requirements@[2]->Quest_0@ == "recipe_for_disaster_freeing_pirate_pete"@);
        assert(("creature_of_fenkenstrain"@).len() != ("cabin_fever"@).len());
        assert(("creature_of_fenkenstrain"@) != ("cabin_fever"@));
        assert(!req_like(q.requirements@[0], q.requirements@[1]));
        assert(("creature_of_fenkenstrain"@).len() != ("recipe_for_disaster_freeing_pirate_pete"@).len());
        assert(("creature_of_fenkenstrain"@) != ("recipe_for_disaster_freeing_pirate_pete"@));
        assert(!req_like(q.requirements@[0], q.requirements@[2]));
        assert(("cabin_fever"@).len() != ("recipe_for_disaster_freeing_pirate_pete"@).len());
        assert(("cabin_fever"@) != ("recipe_for_disaster_freeing_pirate_pete"@));
        assert(!req_like(q.requirements@[1], q.requirements@[2]));
    }
    q
}

/// Grim Tales
fn grim_tales() -> (q: Quest)
    ensures
        q.id@ == "grim_tales"@,
        q.name@ == "Grim Tales"@,
        q.quest_points == 1,
        q.requirements@.len() == 6,
        q.rewards@.len() == 6,
        q.wf(),
{
    let q = Quest {
        id: QuestId::new_static("grim_tales"),
        name: String::from_str("Grim Tales"),
        quest_points: 1,
        requirements: vec![
            quest_req(QuestId::new_static("witchs_house")),
            skill_req(Skill::Farming, Level(45)),
            skill_req(Skill::Herblore, Level(52)),
            skill_req(Skill::Thieving, Level(58)),
            skill_req(Skill::Agility, Level(59)),
            skill_req(Skill::Woodcutting, Level(71)),
        ],
        rewards: vec![
            xp_reward(Skill::Woodcutting, Xp(60000)),
            xp_reward(Skill::Agility, Xp(25000)),
            xp_reward(Skill::Thieving, Xp(25000)),
            xp_reward(Skill::Herblore, Xp(15000)),
            xp_reward(Skill::Farming, Xp(10000)),
            xp_reward(Skill::Hitpoints, Xp(5000)),
        ],
    };
    q
}

/// The Hand in the Sand
fn the_hand_in_the_sand() -> (q: Quest)
    ensures
        q.id@ == "the_hand_in_the_sand"@,
        q.name@ == "The Hand in the Sand"@,
        q.quest_points == 1,
        q.requirements@.len() == 2,
        q.rewards@.len() == 2,
        q.wf(),
{
    let q = Quest {
        id: QuestId::new_static("the_hand_in_the_sand"),
        name: String::from_str("The Hand in the Sand"),
        quest_points: 1,
        requirements: vec![
            skill_req(Skill::Thieving, Level(17)),
            skill_req(Skill::Crafting, Level(49)),
        ],
        rewards: vec![
            xp_reward(Skill::Thieving, Xp(1000)),
            xp_reward(Skill::Crafting, Xp(9000)),
        ],
    };
    q
}

/// Haunted Mine
fn haunted_mine() -> (q: Quest)
    ensures
        q.id@ == "haunted_mine"@,
        q.name@ == "Haunted Mine"@,
        q.quest_points == 2,
        q.requirements@.len() == 2,
        q.rewards@.len() == 1,
        q.wf(),
{
    let q = Quest {
        id: QuestId::new_static("haunted_mine"),
        name: String::from_str("Haunted Mine"),
        quest_points: 2,
        requirements: vec![
            quest_req(QuestId::new_static("priest_in_peril")),
            skill_req(Skill::Crafting, Level(35)),
        ],
        rewards: vec![
            xp_reward(Skill::Strength, Xp(22000)),
        ],
    };
    q
}

/// Hazeel Cult
fn hazeel_cult() -> (q: Quest)
    ensures
        q.id@ == "hazeel_cult"@,
        q.name@ == "Hazeel Cult"@,
        q.quest_points == 1,
        q.requirements@.len() == 0,
        q.rewards@.len() == 1,
        q.wf(),
{
    let q = Quest {
        id: QuestId::new_static("hazeel_cult"),
        name: String::from_str("Hazeel Cult"),
        quest_points: 1,
        requirements: Vec::new(),
        rewards: vec![
            xp_reward(Skill::Thieving, Xp(1500)),
        ],
    };
    q
}

/// The Heart of Darkness
fn the_heart_of_darkness() -> (q: Quest)
    ensures
        q.id@ == "the_heart_of_darkness"@,
        q.name@ == "The Heart of Darkness"@,
        q.quest_points == 2,
        q.requirements@.len() == 5,
        q.rewards@.len() == 4,
        q.wf(),
{
    let q = Quest {
        id: QuestId::new_static("the_heart_of_darkness"),
        name: String::from_str("The Heart of Darkness"),
        quest_points: 2,
        requirements: vec![
            quest_req(QuestId::new_static("twilights_promise")),
            skill_req(Skill::Mining, Level(55)),
            skill_req(Skill::Thieving, Level(48)),
            skill_req(Skill::Slayer, Level(48)),
            skill_req(Skill::Agility, Level(46)),
        ],
        rewards: vec![
            xp_reward(Skill::Mining, Xp(8000)),
            xp_reward(Skill::Thieving, Xp(8000)),
            xp_reward(Skill::Slayer, Xp(8000)),
            xp_reward(Skill::Agility, Xp(8000)),
        ],
    };
    q
}

/// Heroes' Quest
fn heroes_quest() -> (q: Quest)
    ensures
        q.id@ == "heroes_quest"@,
        q.name@ == "Heroes' Quest"@,
        q.quest_points == 1,
        q.requirements@.len() == 9,
        q.rewards@.len() == 12,
        q.wf(),
{
    let q = Quest {
        id: QuestId::new_static("heroes_quest"),
        name: String::from_str("Heroes' Quest"),
        quest_points: 1,
        requirements: vec![
            quest_point_req(55),
            quest_req(QuestId::new_static("shield_of_arrav")),
            quest_req(QuestId::new_static("lost_city")),
            quest_req(QuestId::new_static("merlins_crystal")),
            quest_req(QuestId::new_static("dragon_slayer_i")),
            skill_req(Skill::Cooking, Level(53)),
            skill_req(Skill::Fishing, Level(53)),
            skill_req(Skill::Herblore, Level(25)),
            skill_req(Skill::Mining, Level(50)),
        ],
        rewards: vec![
            xp_reward(Skill::Attack, Xp(3075)),
            xp_reward(Skill::Defence, Xp(3075)),
            xp_reward(Skill::Strength, Xp(3075)),
            xp_reward(Skill::Hitpoints, Xp(3075)),
            xp_reward(Skill::Ranged, Xp(2075)),
            xp_reward(Skill::Fishing, Xp(2725)),
            xp_reward(Skill::Cooking, Xp(2825)),
            xp_reward(Skill::Woodcutting, Xp(1575)),
            xp_reward(Skill::Firemaking, Xp(1575)),
            xp_reward(Skill::Smithing, Xp(2275)),
            xp_reward(Skill::Mining, Xp(2575)),
            xp_reward(Skill::Herblore, Xp(1325)),
        ],
    };
    proof {
        reveal_strlit("dragon_slayer_i");
        reveal_strlit("lost_city");
        reveal_strlit("merlins_crystal");
        reveal_strlit("shield_of_arrav");
        assert(q.requirements@[1]->Quest_0@ == "shield_of_arrav"@);
        assert(q.requirements@[2]->Quest_0@ == "lost_city"@);
        assert(q.requirements@[3]->Quest_0@ == "merlins_crystal"@);
        assert(q.requirements@[4]->Quest_0@ == "dragon_slayer_i"@);
        assert(("shield_of_arrav"@).len() != ("lost_city"@).len());
        assert(("shield_of_arrav"@) != ("lost_city"@));
        assert(!req_like(q.requirements@[1], q.requirements@[2]));
        assert(("shield_of_arrav"@)[0] != ("merlins_crystal"@)[0]);
        assert(("shield_of_arrav"@) != ("merlins_crystal"@));
        assert(!req_like(q.requirements@[1], q.requirements@[3]));
        assert(("shield_of_arrav"@)[0] != ("dragon_slayer_i"@)[0]);
        assert(("shield_of_arrav"@) != ("dragon_slayer_i"@));
        assert(!req_like(q.requirements@[1], q.requirements@[4]));
        assert(("lost_city"@).len() != ("merlins_crystal"@).len());
        assert(("lost_city"@) != ("merlins_crystal"@));
        assert(!req_like(q.requirements@[2], q.requirements@[3]));
        assert(("lost_city"@).len() != ("dragon_slayer_i"@).len());
        assert(("lost_city"@) != ("dragon_slayer_i"@));
        assert(!req_like(q.requirements@[2], q.requirements@[4]));
        assert(("merlins_crystal"@)[0] != ("dragon_slayer_i"@)[0]);
        assert(("merlins_crystal"@) != ("dragon_slayer_i"@));
        assert(!req_like(q.requirements@[3], q.requirements@[4]));
    }
    q
}

/// Holy Grail
fn holy_grail() -> (q: Quest)
    ensures
        q.id@ == "holy_grail"@,
        q.name@ == "Holy Grail"@,
        q.quest_points == 2,
        q.requirements@.len() == 2,
        q.rewards@.len() == 2,
        q.wf(),
{
    let q = Quest {
        id: QuestId::new_static("holy_grail"),
        name: String::from_str("Holy Grail"),
        quest_points: 2,
        requirements: vec![
            quest_req(QuestId::new_static("merlins_crystal")),
            skill_req(Skill::Attack, Level(20)),
        ],
        rewards: vec![
            xp_reward(Skill::Prayer, Xp(11000)),
            xp_reward(Skill::Defence, Xp(15300)),
        ],
    };
    q
}

/// Horror from the Deep
fn horror_from_the_deep() -> (q: Quest)
    ensures
        q.id@ == "horror_from_the_deep"@,
        q.name@ == "Horror from the Deep"@,
        q.quest_points == 2,
        q.requirements@.len() == 1,
        q.rewards@.len() == 3,
        q.wf(),
{
    let q = Quest {
        id: QuestId::new_static("horror_from_the_deep"),
        name: String::from_str("Horror from the Deep"),
        quest_points: 2,
        requirements: vec![
            skill_req(Skill::Agility, Level(35)),
        ],
        rewards: vec![
            xp_reward(Skill::Magic, Xp(4662)),
            xp_reward(Skill::Strength, Xp(4662)),
            xp_reward(Skill::Ranged, Xp(4662)),
        ],
    };
    q
}

/// Icthlarin's Little Helper
fn icthlarins_little_helper() -> (q: Quest)
    ensures
        q.id@ == "icthlarins_little_helper"@,
        q.name@ == "Icthlarin's Little Helper"@,
        q.quest_points == 2,
        q.requirements@.len() == 1,
        q.rewards@.len() == 3,
        q.wf(),
{
    let q = Quest {
        id: QuestId::new_static("icthlarins_little_helper"),
        name: String::from_str("Icthlarin's Little Helper"),
        quest_points: 2,
        requirements: vec![
            quest_req(QuestId::new_static("gertrudes_cat")),
        ],
        rewards: vec![
            xp_reward(Skill::Thieving, Xp(4500)),
            xp_reward(Skill::Agility, Xp(4000)),
            xp_reward(Skill::Woodcutting, Xp(4000)),
        ],
    };
    q
}

/// In Aid of the Myreque
fn in_aid_of_the_myreque() -> (q: Quest)
    ensures
        q.id@ == "in_aid_of_the_myreque"@,
        q.name@ == "In Aid of the Myreque"@,
        q.quest_points == 2,
        q.requirements@.len() == 5,
        q.rewards@.len() == 4,
        q.wf(),
{
    let q = Quest {
        id: QuestId::new_static("in_aid_of_the_myreque"),
        name: String::from_str("In Aid of the Myreque"),
        quest_points: 2,
        requirements: vec![
            quest_req(QuestId::new_static("in_search_of_the_myreque")),
            skill_req(Skill::Agility, Level(25)),
            skill_req(Skill::Crafting, Level(25)),
            skill_req(Skill::Mining, Level(15)),
            skill_req(Skill::Magic, Level(7)),
        ],
        rewards: vec![
            xp_reward(Skill::Attack, Xp(2000)),
            xp_reward(Skill::Strength, Xp(2000)),
            xp_reward(Skill::Crafting, Xp(2000)),
            xp_reward(Skill::Defence, Xp(2000)),
        ],
    };
    q
}

/// In Search of the Myreque
fn in_search_of_the_myreque() -> (q: Quest)
    ensures
        q.id@ == "in_search_of_the_myreque"@,
        q.name@ == "In Search of the Myreque"@,
        q.quest_points == 2,
        q.requirements@.len() == 2,
        q.rewards@.len() == 5,
        q.wf(),
{
    let q = Quest {
        id: QuestId::new_static("in_search_of_the_myreque"),
        name: String::from_str("In Search of the Myreque"),
        quest_points: 2,
        requirements: vec![
            quest_req(QuestId::new_static("nature_spirit")),
            skill_req(Skill::Agility, Level(25)),
        ],
        rewards: vec![
            xp_reward(Skill::Attack, Xp(600)),
            xp_reward(Skill::Defence, Xp(600)),
            xp_reward(Skill::Strength, Xp(600)),
            xp_reward(Skill::Hitpoints, Xp(600)),
            xp_reward(Skill::Crafting, Xp(600)),
        ],
    };
    q
}

/// Jungle Potion
fn jungle_potion() -> (q: Quest)
    ensures
        q.id@ == "jungle_potion"@,
        q.name@ == "Jungle Potion"@,
        q.quest_points == 1,
        q.requirements@.len() == 2,
        q.rewards@.len() == 1,
        q.wf(),
{
    let q = Quest {
        id: QuestId::new_static("jungle_potion"),
        name: String::from_str("Jungle Potion"),
        quest_points: 1,
        requirements: vec![
            quest_req(QuestId::new_static("druidic_ritual")),
            skill_req(Skill::Herblore, Level(3)),
        ],
        rewards: vec![
            xp_reward(Skill::Herblore, Xp(775)),
        ],
    };
    q
}

/// King's Ransom
fn kings_ransom() -> (q: Quest)
    ensures
        q.id@ == "kings_ransom"@,
        q.name@ == "King's Ransom"@,
        q.quest_points == 1,
        q.requirements@.len() == 6,
        q.rewards@.len() == 2,
        q.wf(),
{
    let q = Quest {
        id: QuestId::new_static("kings_ransom"),
        name: String::from_str("King's Ransom"),
        quest_points: 1,
        requirements: vec![
            quest_req(QuestId::new_static("black_knights_fortress")),
            quest_req(QuestId::new_static("holy_grail")),
            quest_req(QuestId::new_static("murder_mystery")),
            quest_req(QuestId::new_static("one_small_favour")),
            skill_req(Skill::Magic, Level(45)),
            skill_req(Skill::Defence, Level(65)),
        ],
        rewards: vec![
            xp_reward(Skill::Defence, Xp(33000)),
            xp_reward(Skill::Magic, Xp(5000)),
        ],
    };
    proof {
        reveal_strlit("black_knights_fortress");
        reveal_strlit("holy_grail");
        reveal_strlit("murder_mystery");
        reveal_strlit("one_small_favour");
        assert(q.requirements@[0]->Quest_0@ == "black_knights_fortress"@);
        assert(q.requirements@[1]->Quest_0@ == "holy_grail"@);
        assert(q.requirements@[2]->Quest_0@ == "murder_mystery"@);
        assert(q.requirements@[3]->Quest_0@ == "one_small_favour"@);
        assert(("black_knights_fortress"@).len() != ("holy_grail"@).len());
        assert(("black_knights_fortress"@) != ("holy_grail"@));
        assert(!req_like(q.requirements@[0], q.requirements@[1]));
        assert(("black_knights_fortress"@).len() != ("murder_mystery"@).len());
        assert(("black_knights_fortress"@) != ("murder_mystery"@));
        assert(!req_like(q.requirements@[0], q.requirements@[2]));
        assert(("black_knights_fortress"@).len() != ("one_small_favour"@).len());
        assert(("black_knights_fortress"@) != ("one_small_favour"@));
        assert(!req_like(q.requirements@[0], q.requirements@[3]));
        assert(("holy_grail"@).len() != ("murder_mystery"@).len());
        assert(("holy_grail"@) != ("murder_mystery"@));
        assert(!req_like(q.requirements@[1], q.requirements@[2]));
        assert(("holy_grail"@).len() != ("one_small_favour"@).len());
        assert(("holy_grail"@) != ("one_small_favour"@));
        assert(!req_like(q.requirements@[1], q.requirements@[3]));
        assert(("murder_mystery"@).len() != ("one_small_favour"@).len());
        assert(("murder_mystery"@) != ("one_small_favour"@));
        assert(!req_like(q.requirements@[2], q.requirements@[3]));
    }
    q
}

/// A Kingdom Divided
fn a_kingdom_divided() -> (q: Quest)
    ensures
        q.id@ == "a_kingdom_divided"@,
        q.name@ == "A Kingdom Divided"@,
        q.quest_points == 2,
        q.requirements@.len() == 12,
        q.rewards@.len() == 0,
        q.wf(),
{
    let q = Quest {
        id: QuestId::new_static("a_kingdom_divided"),
        name: String::from_str("A Kingdom Divided"),
        quest_points: 2,
        requirements: vec![
            quest_req(QuestId::new_static("the_depths_of_despair")),
            quest_req(QuestId::new_static("the_queen_of_thieves")),
            quest_req(QuestId::new_static("the_ascent_of_arceuus")),
            quest_req(QuestId::new_static("the_forsaken_tower")),
            quest_req(QuestId::new_static("tale_of_the_righteous")),
            skill_req(Skill::Agility, Level(54)),
            skill_req(Skill::Thieving, Level(52)),
            skill_req(Skill::Woodcutting, Level(52)),
            skill_req(Skill::Herblore, Level(50)),
            skill_req(Skill::Mining, Level(42)),
            skill_req(Skill::Crafting, Level(38)),
            skill_req(Skill::Magic, Level(35)),
        ],
        rewards: Vec::new(),
    };
    proof {
        reveal_strlit("tale_of_the_righteous");
        reveal_strlit("the_ascent_of_arceuus");
        reveal_strlit("the_depths_of_despair");
        reveal_strlit("the_forsaken_tower");
        reveal_strlit("the_queen_of_thieves");
        assert(q.requirements@[0]->Quest_0@ == "the_depths_of_despair"@);
        assert(q.requirements@[1]->Quest_0@ == "the_queen_of_thieves"@);
        assert(q.requirements@[2]->Quest_0@ == "the_ascent_of_arceuus"@);
        assert(q.requirements@[3]->Quest_0@ == "the_forsaken_tower"@);
        assert(q.requirements@[4]->Quest_0@ == "tale_of_the_righteous"@);
        assert(("the_depths_of_despair"@).len() != ("the_queen_of_thieves"@).len());
        assert(("the_depths_of_despair"@) != ("the_queen_of_thieves"@));
        assert(!req_like(q.requirements@[0], q.requirements@[1]));
        assert(("the_depths_of_despair"@)[4] != ("the_ascent_of_arceuus"@)[4]);
        assert(("the_depths_of_despair"@) != ("the_ascent_of_arceuus"@));
        assert(!req_like(q.requirements@[0], q.requirements@[2]));
        assert(("the_depths_of_despair"@).len() != ("the_forsaken_tower"@).len());
        assert(("the_depths_of_despair"@) != ("the_forsaken_tower"@));
        assert(!req_like(q.requirements@[0], q.requirements@[3]));
        assert(("the_depths_of_despair"@)[1] != ("tale_of_the_righteous"@)[1]);
        assert(("the_depths_of_despair"@) != ("tale_of_the_righteous"@));
        assert(!req_like(q.requirements@[0], q.requirements@[4]));
        assert(("the_queen_of_thieves"@).len() != ("the_ascent_of_arceuus"@).len());
        assert(("the_queen_of_thieves"@) != ("the_ascent_of_arceuus"@));
        assert(!req_like(q.requirements@[1], q.requirements@[2]));
        assert(("the_queen_of_thieves"@).len() != ("the_forsaken_tower"@).len());
        assert(("the_queen_of_thieves"@) != ("the_forsaken_tower"@));
        assert(!req_like(q.requirements@[1], q.requirements@[3]));
        assert(("the_queen_of_thieves"@).len() != ("tale_of_the_righteous"@).len());
        assert(("the_queen_of_thieves"@) != ("tale_of_the_righteous"@));
        assert(!req_like(q.requirements@[1], q.requirements@[4]));
        assert(("the_ascent_of_arceuus"@).len() != ("the_forsaken_tower"@).len());
        assert(("the_ascent_of_arceuus"@) != ("the_forsaken_tower"@));
        assert(!req_like(q.requirements@[2], q.requirements@[3]));
        assert(("the_ascent_of_arceuus"@)[1] != ("tale_of_the_righteous"@)[1]);
        assert(("the_ascent_of_arceuus"@) != ("tale_of_the_righteous"@));
        assert(!req_like(q.requirements@[2], q.requirements@[4]));
        assert(("the_forsaken_tower"@).len() != ("tale_of_the_righteous"@).len());
        assert(("the_forsaken_tower"@) != ("tale_of_the_righteous"@));
        assert(!req_like(q.requirements@[3], q.requirements@[4]));
    }
    q
}

/// Land of the Goblins
fn land_of_the_goblins() -> (q: Quest)
    ensures
        q.id@ == "land_of_the_goblins"@,
        q.name@ == "Land of the Goblins"@,
        q.quest_points == 2,
        q.requirements@.len() == 6,
        q.rewards@.len() == 4,
        q.wf(),
{
    let q = Quest {
        id: QuestId::new_static("land_of_the_goblins"),
        name: String::from_str("Land of the Goblins"),
        quest_points: 2,
        requirements: vec![
            quest_req(QuestId::new_static("another_slice_of_ham")),
            quest_req(QuestId::new_static("fishing_contest")),
            skill_req(Skill::Agility, Level(38)),
            skill_req(Skill::Fishing, Level(40)),
            skill_req(Skill::Thieving, Level(45)),
            skill_req(Skill::Herblore, Level(48)),
        ],
        rewards: vec![
            xp_reward(Skill::Agility, Xp(8000)),
            xp_reward(Skill::Fishing, Xp(8000)),
            xp_reward(Skill::Thieving, Xp(8000)),
            xp_reward(Skill::Herblore, Xp(8000)),
        ],
    };
    proof {
        reveal_strlit("another_slice_of_ham");
        reveal_strlit("fishing_contest");
        assert(q.requirements@[0]->Quest_0@ == "another_slice_of_ham"@);
        assert(q.requirements@[1]->Quest_0@ == "fishing_contest"@);
        assert(("another_slice_of_ham"@).len() != ("fishing_contest"@).len());
        assert(("another_slice_of_ham"@) != ("fishing_contest"@));
        assert(!req_like(q.requirements@[0], q.requirements@[1]));
    }
    q
}

/// Legends' Quest
fn legends_quest() -> (q: Quest)
    ensures
        q.id@ == "legends_quest"@,
        q.name@ == "Legends' Quest"@,
        q.quest_points == 4,
        q.requirements@.len() == 16,
        q.rewards@.len() == 0,
        q.wf(),
{
    let q = Quest {
        id: QuestId::new_static("legends_quest"),
        name: String::from_str("Legends' Quest"),
        quest_points: 4,
        requirements: vec![
            quest_point_req(107),
            quest_req(QuestId::new_static("family_crest")),
            quest_req(QuestId::new_static("heroes_quest")),
            quest_req(QuestId::new_static("shilo_village")),
            quest_req(QuestId::new_static("underground_pass")),
            quest_req(QuestId::new_static("waterfall_quest")),
            skill_req(Skill::Agility, Level(50)),
            skill_req(Skill::Crafting, Level(50)),
            skill_req(Skill::Herblore, Level(45)),
            skill_req(Skill::Magic, Level(56)),
            skill_req(Skill::Mining, Level(52)),
            skill_req(Skill::Prayer, Level(42)),
            skill_req(Skill::Smithing, Level(50)),
            skill_req(Skill::Strength, Level(50)),
            skill_req(Skill::Thieving, Level(50)),
            skill_req(Skill::Woodcutting, Level(50)),
        ],
        rewards: Vec::new(),
    };
    proof {
        reveal_strlit("family_crest");
        reveal_strlit("heroes_quest");
        reveal_strlit("shilo_village");
        reveal_strlit("underground_pass");
        reveal_strlit("waterfall_quest");
        assert(q.requirements@[1]->Quest_0@ == "family_crest"@);
        assert(q.requirements@[2]->Quest_0@ == "heroes_quest"@);
        assert(q.requirements@[3]->Quest_0@ == "shilo_village"@);
        assert(q.requirements@[4]->Quest_0@ == "underground_pass"@);
        assert(q.requirements@[5]->Quest_0@ == "waterfall_quest"@);
        assert(("family_crest"@)[0] != ("heroes_quest"@)[0]);
        assert(("family_crest"@) != ("heroes_quest"@));
        assert(!req_like(q.requirements@[1], q.requirements@[2]));
        assert(("family_crest"@).len() != ("shilo_village"@).len());
        assert(("family_crest"@) != ("shilo_village"@));
        assert(!req_like(q.requirements@[1], q.requirements@[3]));
        assert(("family_crest"@).len() != ("underground_pass"@).len());
        assert(("family_crest"@) != ("underground_pass"@));
        assert(!req_like(q.requirements@[1], q.requirements@[4]));
        assert(("family_crest"@).len() != ("waterfall_quest"@).len());
        assert(("family_crest"@) != ("waterfall_quest"@));
        assert(!req_like(q.requirements@[1], q.requirements@[5]));
        assert(("heroes_quest"@).len() != ("shilo_village"@).len());
        assert(("heroes_quest"@) != ("shilo_village"@));
        assert(!req_like(q.requirements@[2], q.requirements@[3]));
        assert(("heroes_quest"@).len() != ("underground_pass"@).len());
        assert(("heroes_quest"@) != ("underground_pass"@));
        assert(!req_like(q.requirements@[2], q.requirements@[4]));
        assert(("heroes_quest"@).len() != ("waterfall_quest"@).len());
        assert(("heroes_quest"@) != ("waterfall_quest"@));
        assert(!req_like(q.requirements@[2], q.requirements@[5]));
        assert(("shilo_village"@).len() != ("underground_pass"@).len());
        assert(("shilo_village"@) != ("underground_pass"@));
        assert(!req_like(q.requirements@[3], q.requirements@[4]));
        assert(("shilo_village"@).len() != ("waterfall_quest"@).len());
        assert(("shilo_village"@) != ("waterfall_quest"@));
        assert(!req_like(q.requirements@[3], q.requirements@[5]));
        assert(("underground_pass"@).len() != ("waterfall_quest"@).len());
        assert(("underground_pass"@) != ("waterfall_quest"@));
        assert(!req_like(q.requirements@[4], q.requirements@[5]));
    }
    q
}

/// Lost City
fn lost_city() -> (q: Quest)
    ensures
        q.id@ == "lost_city"@,
        q.name@ == "Lost City"@,
        q.quest_points == 3,
        q.requirements@.len() == 2,
        q.rewards@.len() == 0,
        q.wf(),
{
    let q = Quest {
        id: QuestId::new_static("lost_city"),
        name: String::from_str("Lost City"),
        quest_points: 3,
        requirements: vec![
            skill_req(Skill::Crafting, Level(31)),
            skill_req(Skill::Woodcutting, Level(36)),
        ],
        rewards: Vec::new(),
    };
    q
}

/// The Lost Tribe
fn the_lost_tribe() -> (q: Quest)
    ensures
        q.id@ == "the_lost_tribe"@,
        q.name@ == "The Lost Tribe"@,
        q.quest_points == 1,
        q.requirements@.len() == 5,
        q.rewards@.len() == 1,
        q.wf(),
{
    let q = Quest {
        id: QuestId::new_static("the_lost_tribe"),
        name: String::from_str("The Lost Tribe"),
        quest_points: 1,
        requirements: vec![
            quest_req(QuestId::new_static("goblin_diplomacy")),
            quest_req(QuestId::new_static("rune_mysteries")),
            skill_req(Skill::Agility, Level(13)),
            skill_req(Skill::Thieving, Level(13)),
            skill_req(Skill::Mining, Level(17)),
        ],
        rewards: vec![
            xp_reward(Skill::Mining, Xp(3000)),
        ],
    };
    proof {
        reveal_strlit("goblin_diplomacy");
        reveal_strlit("rune_mysteries");
        assert(q.requirements@[0]->Quest_0@ == "goblin_diplomacy"@);
        assert(q.requirements@[1]->Quest_0@ == "rune_mysteries"@);
        assert(("goblin_diplomacy"@).len() != ("rune_mysteries"@).len());
        assert(("goblin_diplomacy"@) != ("rune_mysteries"@));
        assert(!req_like(q.requirements@[0], q.requirements@[1]));
    }
    q
}

/// Lunar Diplomacy
fn lunar_diplomacy() -> (q: Quest)
    ensures
        q.id@ == "lunar_diplomacy"@,
        q.name@ == "Lunar Diplomacy"@,
        q.quest_points == 2,
        q.requirements@.len() == 11,
        q.rewards@.len() == 2,
        q.wf(),
{
    let q = Quest {
        id: QuestId::new_static("lunar_diplomacy"),
        name: String::from_str("Lunar Diplomacy"),
        quest_points: 2,
        requirements: vec![
            quest_req(QuestId::new_static("the_fremennik_trials")),
            quest_req(QuestId::new_static("lost_city")),
            quest_req(QuestId::new_static("rune_mysteries")),
            quest_req(QuestId::new_static("shilo_village")),
            skill_req(Skill::Herblore, Level(5)),
            skill_req(Skill::Crafting, Level(61)),
            skill_req(Skill::Defence, Level(40)),
            skill_req(Skill::Firemaking, Level(49)),
            skill_req(Skill::Magic, Level(65)),
            skill_req(Skill::Mining, Level(60)),
            skill_req(Skill::Woodcutting, Level(55)),
        ],
        rewards: vec![
            xp_reward(Skill::Magic, Xp(5000)),
            xp_reward(Skill::Runecraft, Xp(5000)),
        ],
    };
    proof {
        reveal_strlit("lost_city");
        reveal_strlit("rune_mysteries");
        reveal_strlit("shilo_village");
        reveal_strlit("the_fremennik_trials");
        assert(q.requirements@[0]->Quest_0@ == "the_fremennik_trials"@);
        assert(q.requirements@[1]->Quest_0@ == "lost_city"@);
        assert(q.requirements@[2]->Quest_0@ == "rune_mysteries"@);
        assert(q.requirements@[3]->Quest_0@ == "shilo_village"@);
        assert(("the_fremennik_trials"@).len() != ("lost_city"@).len());
        assert(("the_fremennik_trials"@) != ("lost_city"@));
        assert(!req_like(q.requirements@[0], q.requirements@[1]));
        assert(("the_fremennik_trials"@).len() != ("rune_mysteries"@).len());
        assert(("the_fremennik_trials"@) != ("rune_mysteries"@));
        assert(!req_like(q.requirements@[0], q.requirements@[2]));
        assert(("the_fremennik_trials"@).len() != ("shilo_village"@).len());
        assert(("the_fremennik_trials"@) != ("shilo_village"@));
        assert(!req_like(q.requirements@[0], q.requirements@[3]));
        assert(("lost_city"@).len() != ("rune_mysteries"@).len());
        assert(("lost_city"@) != ("rune_mysteries"@));
        assert(!req_like(q.requirements@[1], q.requirements@[2]));
        assert(("lost_city"@).len() != ("shilo_village"@).len());
        assert(("lost_city"@) != ("shilo_village"@));
        assert(!req_like(q.requirements@[1], q.requirements@[3]));
        assert(("rune_mysteries"@).len() != ("shilo_village"@).len());
        assert(("rune_mysteries"@) != ("shilo_village"@));
        assert(!req_like(q.requirements@[2], q.requirements@[3]));
    }
    q
}

/// Making Friends with My Arm
fn making_friends_with_my_arm() -> (q: Quest)
    ensures
        q.id@ == "making_friends_with_my_arm"@,
        q.name@ == "Making Friends with My Arm"@,
        q.quest_points == 2,
        q.requirements@.len() == 8,
        q.rewards@.len() == 4,
        q.wf(),
{
    let q = Quest {
        id: QuestId::new_static("making_friends_with_my_arm"),
        name: String::from_str("Making Friends with My Arm"),
        quest_points: 2,
        requirements: vec![
            quest_req(QuestId::new_static("my_arms_big_adventure")),
            quest_req(QuestId::new_static("swan_song")),
            quest_req(QuestId::new_static("cold_war")),
            quest_req(QuestId::new_static("romeo_and_juliet")),
            skill_req(Skill::Firemaking, Level(66)),
            skill_req(Skill::Mining, Level(72)),
            skill_req(Skill::Construction, Level(35)),
            skill_req(Skill::Agility, Level(68)),
        ],
        rewards: vec![
            xp_reward(Skill::Construction, Xp(10000)),
            xp_reward(Skill::Firemaking, Xp(40000)),
            xp_reward(Skill::Mining, Xp(50000)),
            xp_reward(Skill::Agility, Xp(50000)),
        ],
    };
    proof {
        reveal_strlit("cold_war");
        reveal_strlit("my_arms_big_adventure");
        reveal_strlit("romeo_and_juliet");
        reveal_strlit("swan_song");
        assert(q.requirements@[0]->Quest_0@ == "my_arms_big_adventure"@);
        assert(q.requirements@[1]->Quest_0@ == "swan_song"@);
        assert(q.requirements@[2]->Quest_0@ == "cold_war"@);
        assert(q.requirements@[3]->Quest_0@ == "romeo_and_juliet"@);
        assert(("my_arms_big_adventure"@).len() != ("swan_song"@).len());
        assert(("my_arms_big_adventure"@) != ("swan_song"@));
        assert(!req_like(q.requirements@[0], q.requirements@[1]));
        assert(("my_arms_big_adventure"@).len() != ("cold_war"@).len());
        assert(("my_arms_big_adventure"@) != ("cold_war"@));
        assert(!req_like(q.requirements@[0], q.requirements@[2]));
        assert(("my_arms_big_adventure"@).len() != ("romeo_and_juliet"@).len());
        assert(("my_arms_big_adventure"@) != ("romeo_and_juliet"@));
        assert(!req_like(q.requirements@[0], q.requirements@[3]));
        assert(("swan_song"@).len() != ("cold_war"@).len());
        assert(("swan_song"@) != ("cold_war"@));
        assert(!req_like(q.requirements@[1], q.requirements@[2]));
        assert(("swan_song"@).len() != ("romeo_and_juliet"@).len());
        assert(("swan_song"@) != ("romeo_and_juliet"@));
        assert(!req_like(q.requirements@[1], q.requirements@[3]));
        assert(("cold_war"@).len() != ("romeo_and_juliet"@).len());
        assert(("cold_war"@) != ("romeo_and_juliet"@));
        assert(!req_like(q.requirements@[2], q.requirements@[3]));
    }
    q
}

/// Making History
fn making_history() -> (q: Quest)
    ensures
        q.id@ == "making_history"@,
        q.name@ == "Making History"@,
        q.quest_points == 3,
        q.requirements@.len() == 2,
        q.rewards@.len() == 2,
        q.wf(),
{
    let q = Quest {
        id: QuestId::new_static("making_history"),
        name: String::from_str("Making History"),
        quest_points: 3,
        requirements: vec![
            quest_req(QuestId::new_static("priest_in_peril")),
            quest_req(QuestId::new_static("the_restless_ghost")),
        ],
        rewards: vec![
            xp_reward(Skill::Crafting, Xp(1000)),
            xp_reward(Skill::Prayer, Xp(1000)),
        ],
    };
    proof {
        reveal_strlit("priest_in_peril");
        reveal_strlit("the_restless_ghost");
        assert(q.requirements@[0]->Quest_0@ == "priest_in_peril"@);
        assert(q.requirements@[1]->Quest_0@ == "the_restless_ghost"@);
        assert(("priest_in_peril"@).len() != ("the_restless_ghost"@).len());
        assert(("priest_in_peril"@) != ("the_restless_ghost"@));
        assert(!req_like(q.requirements@[0], q.requirements@[1]));
    }
    q
}

/// Meat and Greet
fn meat_and_greet() -> (q: Quest)
    ensures
        q.id@ == "meat_and_greet"@,
        q.name@ == "Meat and Greet"@,
        q.quest_points == 1,
        q.requirements@.len() == 1,
        q.rewards@.len() == 1,
        q.wf(),
{
    let q = Quest {
        id: QuestId::new_static("meat_and_greet"),
        name: String::from_str("Meat and Greet"),
        quest_points: 1,
        requirements: vec![
            quest_req(QuestId::new_static("children_of_the_sun")),
        ],
        rewards: vec![
            xp_reward(Skill::Cooking, Xp(8000)),
        ],
    };
    q
}

/// Merlin's Crystal
fn merlins_crystal() -> (q: Quest)
    ensures
        q.id@ == "merlins_crystal"@,
        q.name@ == "Merlin's Crystal"@,
        q.quest_points == 6,
        q.requirements@.len() == 0,
        q.rewards@.len() == 0,
        q.wf(),
{
    let q = Quest {
        id: QuestId::new_static("merlins_crystal"),
        name: String::from_str("Merlin's Crystal"),
        quest_points: 6,
        requirements: Vec::new(),
        rewards: Vec::new(),
    };
    q
}

/// Monk's Friend
fn monks_friend() -> (q: Quest)
    ensures
        q.id@ == "monks_friend"@,
        q.name@ == "Monk's Friend"@,
        q.quest_points == 1,
        q.requirements@.len() == 0,
        q.rewards@.len() == 1,
        q.wf(),
{
    let q = Quest {
        id: QuestId::new_static("monks_friend"),
        name: String::from_str("Monk's Friend"),
        quest_points: 1,
        requirements: Vec::new(),
        rewards: vec![
            xp_reward(Skill::Woodcutting, Xp(2000)),
        ],
    };
    q
}

/// Monkey Madness I
fn monkey_madness_i() -> (q: Quest)
    ensures
        q.id@ == "monkey_madness_i"@,
        q.name@ == "Monkey Madness I"@,
        q.quest_points == 3,
        q.requirements@.len() == 2,
        q.rewards@.len() == 0,
        q.wf(),
{
    let q = Quest {
        id: QuestId::new_static("monkey_madness_i"),
        name: String::from_str("Monkey Madness I"),
        quest_points: 3,
        requirements: vec![
            quest_req(QuestId::new_static("the_grand_tree")),
            quest_req(QuestId::new_static("tree_gnome_village")),
        ],
        rewards: Vec::new(),
    };
    proof {
        reveal_strlit("the_grand_tree");
        reveal_strlit("tree_gnome_village");
        assert(q.requirements@[0]->Quest_0@ == "the_grand_tree"@);
        assert(q.requirements@[1]->Quest_0@ == "tree_gnome_village"@);
        assert(("the_grand_tree"@).len() != ("tree_gnome_village"@).len());
        assert(("the_grand_tree"@) != ("tree_gnome_village"@));
        assert(!req_like(q.requirements@[0], q.requirements@[1]));
    }
    q
}

/// Monkey Madness II
fn monkey_madness_ii() -> (q: Quest)
    ensures
        q.id@ == "monkey_madness_ii"@,
        q.name@ == "Monkey Madness II"@,
        q.quest_points == 4,
        q.requirements@.len() == 11,
        q.rewards@.len() == 4,
        q.wf(),
{
    let q = Quest {
        id: QuestId::new_static("monkey_madness_ii"),
        name: String::from_str("Monkey Madness II"),
        quest_points: 4,
        requirements: vec![
            quest_req(QuestId::new_static("recipe_for_disaster_freeing_king_awowogei")),
            quest_req(QuestId::new_static("enlightened_journey")),
            quest_req(QuestId::new_static("the_eyes_of_glouphrie")),
            quest_req(QuestId::new_static("troll_stronghold")),
            quest_req(QuestId::new_static("watchtower")),
            skill_req(Skill::Slayer, Level(69)),
            skill_req(Skill::Crafting, Level(70)),
            skill_req(Skill::Hunter, Level(60)),
            skill_req(Skill::Agility, Level(55)),
            skill_req(Skill::Thieving, Level(55)),
            skill_req(Skill::Firemaking, Level(60)),
        ],
        rewards: vec![
            xp_reward(Skill::Slayer, Xp(80000)),
            xp_reward(Skill::Agility, Xp(60000)),
            xp_reward(Skill::Thieving, Xp(50000)),
            xp_reward(Skill::Hunter, Xp(50000)),
        ],
    };
    proof {
        reveal_strlit("enlightened_journey");
        reveal_strlit("recipe_for_disaster_freeing_king_awowogei");
        reveal_strlit("the_eyes_of_glouphrie");
        reveal_strlit("troll_stronghold");
        reveal_strlit("watchtower");
        assert(q.requirements@[0]->Quest_0@ == "recipe_for_disaster_freeing_king_awowogei"@);
        assert(q.requirements@[1]->Quest_0@ == "enlightened_journey"@);
        assert(q.requirements@[2]->Quest_0@ == "the_eyes_of_glouphrie"@);
        assert(q.requirements@[3]->Quest_0@ == "troll_stronghold"@);
        assert(q.requirements@[4]->Quest_0@ == "watchtower"@);
        assert(("recipe_for_disaster_freeing_king_awowogei"@).len() != ("enlightened_journey"@).len());
        assert(("recipe_for_disaster_freeing_king_awowogei"@) != ("enlightened_journey"@));
        assert(!req_like(q.requirements@[0], q.requirements@[1]));
        assert(("recipe_for_disaster_freeing_king_awowogei"@).len() != ("the_eyes_of_glouphrie"@).len());
        assert(("recipe_for_disaster_freeing_king_awowogei"@) != ("the_eyes_of_glouphrie"@));
        assert(!req_like(q.requirements@[0], q.requirements@[2]));
        assert(("recipe_for_disaster_freeing_king_awowogei"@).len() != ("troll_stronghold"@).len());
        assert(("recipe_for_disaster_freeing_king_awowogei"@) != ("troll_stronghold"@));
        assert(!req_like(q.requirements@[0], q.requirements@[3]));
        assert(("recipe_for_disaster_freeing_king_awowogei"@).len() != ("watchtower"@).len());
        assert(("recipe_for_disaster_freeing_king_awowogei"@) != ("watchtower"@));
        assert(!req_like(q.requirements@[0], q.requirements@[4]));
        assert(("enlightened_journey"@).len() != ("the_eyes_of_glouphrie"@).len());
        assert(("enlightened_journey"@) != ("the_eyes_of_glouphrie"@));
        assert(!req_like(q.requirements@[1], q.requirements@[2]));
        assert(("enlightened_journey"@).len() != ("troll_stronghold"@).len());
        assert(("enlightened_journey"@) != ("troll_stronghold"@));
        assert(!req_like(q.requirements@[1], q.requirements@[3]));
        assert(("enlightened_journey"@).len() != ("watchtower"@).len());
        assert(("enlightened_journey"@) != ("watchtower"@));
        assert(!req_like(q.requirements@[1], q.requirements@[4]));
        assert(("the_eyes_of_glouphrie"@).len() != ("troll_stronghold"@).len());
        assert(("the_eyes_of_glouphrie"@) != ("troll_stronghold"@));
        assert(!req_like(q.requirements@[2], q.requirements@[3]));
        assert(("the_eyes_of_glouphrie"@).len() != ("watchtower"@).len());
        assert(("the_eyes_of_glouphrie"@) != ("watchtower"@));
        assert(!req_like(q.requirements@[2], q.requirements@[4]));
        assert(("troll_stronghold"@).len() != ("watchtower"@).len());
        assert(("troll_stronghold"@) != ("watchtower"@));
        assert(!req_like(q.requirements@[3], q.requirements@[4]));
    }
    q
}

/// Mountain Daughter
fn mountain_daughter() -> (q: Quest)
    ensures
        q.id@ == "mountain_daughter"@,
        q.name@ == "Mountain Daughter"@,
        q.quest_points == 2,
        q.requirements@.len() == 1,
        q.rewards@.len() == 2,
        q.wf(),
{
    let q = Quest {
        id: QuestId::new_static("mountain_daughter"),
        name: String::from_str("Mountain Daughter"),
        quest_points: 2,
        requirements: vec![
            skill_req(Skill::Agility, Level(20)),
        ],
        rewards: vec![
            xp_reward(Skill::Prayer, Xp(2000)),
            xp_reward(Skill::Attack, Xp(1000)),
        ],
    };
    q
}

/// Mourning's End Part I
fn mournings_end_part_i() -> (q: Quest)
    ensures
        q.id@ == "mournings_end_part_i"@,
        q.name@ == "Mourning's End Part I"@,
        q.quest_points == 2,
        q.requirements@.len() == 5,
        q.rewards@.len() == 2,
        q.wf(),
{
    let q = Quest {
        id: QuestId::new_static("mournings_end_part_i"),
        name: String::from_str("Mourning's End Part I"),
        quest_points: 2,
        requirements: vec![
            quest_req(QuestId::new_static("roving_elves")),
            quest_req(QuestId::new_static("big_chompy_bird_hunting")),
            quest_req(QuestId::new_static("sheep_herder")),
            skill_req(Skill::Ranged, Level(60)),
            skill_req(Skill::Thieving, Level(50)),
        ],
        rewards: vec![
            xp_reward(Skill::Thieving, Xp(40000)),
            xp_reward(Skill::Hitpoints, Xp(25000)),
        ],
    };
    proof {
        reveal_strlit("big_chompy_bird_hunting");
        reveal_strlit("roving_elves");
        reveal_strlit("sheep_herder");
        assert(q.requirements@[0]->Quest_0@ == "roving_elves"@);
        assert(q.requirements@[1]->Quest_0@ == "big_chompy_bird_hunting"@);
        assert(q.requirements@[2]->Quest_0@ == "sheep_herder"@);
        assert(("roving_elves"@).len() != ("big_chompy_bird_hunting"@).len());
        assert(("roving_elves"@) != ("big_chompy_bird_hunting"@));
        assert(!req_like(q.requirements@[0], q.requirements@[1]));
        assert(("roving_elves"@)[0] != ("sheep_herder"@)[0]);
        assert(("roving_elves"@) != ("sheep_herder"@));
        assert(!req_like(q.requirements@[0], q.requirements@[2]));
        assert(("big_chompy_bird_hunting"@).len() != ("sheep_herder"@).len());
        assert(("big_chompy_bird_hunting"@) != ("sheep_herder"@));
        assert(!req_like(q.requirements@[1], q.requirements@[2]));
    }
    q
}

/// Mourning's End Part II
fn mournings_end_part_ii() -> (q: Quest)
    ensures
        q.id@ == "mournings_end_part_ii"@,
        q.name@ == "Mourning's End Part II"@,
        q.quest_points == 2,
        q.requirements@.len() == 1,
        q.rewards@.len() == 1,
        q.wf(),
{
    let q = Quest {
        id: QuestId::new_static("mournings_end_part_ii"),
        name: String::from_str("Mourning's End Part II"),
        quest_points: 2,
        requirements: vec![
            quest_req(QuestId::new_static("mournings_end_part_i")),
        ],
        rewards: vec![
            xp_reward(Skill::Agility, Xp(60000)),
        ],
    };
    q
}

/// Murder Mystery
fn murder_mystery() -> (q: Quest)
    ensures
        q.id@ == "murder_mystery"@,
        q.name@ == "Murder Mystery"@,
        q.quest_points == 3,
        q.requirements@.len() == 0,
        q.rewards@.len() == 1,
        q.wf(),
{
    let q = Quest {
        id: QuestId::new_static("murder_mystery"),
        name: String::from_str("Murder Mystery"),
        quest_points: 3,
        requirements: Vec::new(),
        rewards: vec![
            xp_reward(Skill::Crafting, Xp(1406)),
        ],
    };
    q
}

/// My Arm's Big Adventure
fn my_arms_big_adventure() -> (q: Quest)
    ensures
        q.id@ == "my_arms_big_adventure"@,
        q.name@ == "My Arm's Big Adventure"@,
        q.quest_points == 1,
        q.requirements@.len() == 5,
        q.rewards@.len() == 2,
        q.wf(),
{
    let q = Quest {
        id: QuestId::new_static("my_arms_big_adventure"),
        name: String::from_str("My Arm's Big Adventure"),
        quest_points: 1,
        requirements: vec![
            quest_req(QuestId::new_static("eadgars_ruse")),
            quest_req(QuestId::new_static("the_feud")),
            quest_req(QuestId::new_static("jungle_potion")),
            skill_req(Skill::Farming, Level(29)),
            skill_req(Skill::Woodcutting, Level(10)),
        ],
        rewards: vec![
            xp_reward(Skill::Herblore, Xp(10000)),
            xp_reward(Skill::Farming, Xp(5000)),
        ],
    };
    proof {
        reveal_strlit("eadgars_ruse");
        reveal_strlit("jungle_potion");
        reveal_strlit("the_feud");
        assert(q.requirements@[0]->Quest_0@ == "eadgars_ruse"@);
        assert(q.requirements@[1]->Quest_0@ == "the_feud"@);
        assert(q.requirements@[2]->Quest_0@ == "jungle_potion"@);
        assert(("eadgars_ruse"@).len() != ("the_feud"@).len());
        assert(("eadgars_ruse"@) != ("the_feud"@));
        assert(!req_like(q.requirements@[0], q.requirements@[1]));
        assert(("eadgars_ruse"@).len() != ("jungle_potion"@).len());
        assert(("eadgars_ruse"@) != ("jungle_potion"@));
        assert(!req_like(q.requirements@[0], q.requirements@[2]));
        assert(("the_feud"@).len() != ("jungle_potion"@).len());
        assert(("the_feud"@) != ("jungle_potion"@));
        assert(!req_like(q.requirements@[1], q.requirements@[2]));
    }
    q
}

/// Nature Spirit
fn nature_spirit() -> (q: Quest)
    ensures
        q.id@ == "nature_spirit"@,
        q.name@ == "Nature Spirit"@,
        q.quest_points == 2,
        q.requirements@.len() == 2,
        q.rewards@.len() == 3,
        q.wf(),
{
    let q = Quest {
        id: QuestId::new_static("nature_spirit"),
        name: String::from_str("Nature Spirit"),
        quest_points: 2,
        requirements: vec![
            quest_req(QuestId::new_static("priest_in_peril")),
            quest_req(QuestId::new_static("the_restless_ghost")),
        ],
        rewards: vec![
            xp_reward(Skill::Crafting, Xp(3000)),
            xp_reward(Skill::Defence, Xp(2000)),
            xp_reward(Skill::Hitpoints, Xp(2000)),
        ],
    };
    proof {
        reveal_strlit("priest_in_peril");
        reveal_strlit("the_restless_ghost");
        assert(q.requirements@[0]->Quest_0@ == "priest_in_peril"@);
        assert(q.requirements@[1]->Quest_0@ == "the_restless_ghost"@);
        assert(("priest_in_peril"@).len() != ("the_restless_ghost"@).len());
        assert(("priest_in_peril"@) != ("the_restless_ghost"@));
        assert(!req_like(q.requirements@[0], q.requirements@[1]));
    }
    q
}

/// A Night at the Theatre
fn a_night_at_the_theatre() -> (q: Quest)
    ensures
        q.id@ == "a_night_at_the_theatre"@,
        q.name@ == "A Night at the Theatre"@,
        q.quest_points == 2,
        q.requirements@.len() == 1,
        q.rewards@.len() == 0,
        q.wf(),
{
    let q = Quest {
        id: QuestId::new_static("a_night_at_the_theatre"),
        name: String::from_str("A Night at the Theatre"),
        quest_points: 2,
        requirements: vec![
            quest_req(QuestId::new_static("a_taste_of_hope")),
        ],
        rewards: Vec::new(),
    };
    q
}

/// Observatory Quest
fn observatory_quest() -> (q: Quest)
    ensures
        q.id@ == "observatory_quest"@,
        q.name@ == "Observatory Quest"@,
        q.quest_points == 2,
        q.requirements@.len() == 0,
        q.rewards@.len() == 1,
        q.wf(),
{
    let q = Quest {
        id: QuestId::new_static("observatory_quest"),
        name: String::from_str("Observatory Quest"),
        quest_points: 2,
        requirements: Vec::new(),
        rewards: vec![
            xp_reward(Skill::Crafting, Xp(2250)),
        ],
    };
    q
}

/// Olaf's Quest
fn olafs_quest() -> (q: Quest)
    ensures
        q.id@ == "olafs_quest"@,
        q.name@ == "Olaf's Quest"@,
        q.quest_points == 1,
        q.requirements@.len() == 3,
        q.rewards@.len() == 1,
        q.wf(),
{
    let q = Quest {
        id: QuestId::new_static("olafs_quest"),
        name: String::from_str("Olaf's Quest"),
        quest_points: 1,
        requirements: vec![
            quest_req(QuestId::new_static("the_fremennik_trials")),
            skill_req(Skill::Firemaking, Level(40)),
            skill_req(Skill::Woodcutting, Level(50)),
        ],
        rewards: vec![
            xp_reward(Skill::Defence, Xp(12000)),
        ],
    };
    q
}

/// One Small Favour
fn one_small_favour() -> (q: Quest)
    ensures
        q.id@ == "one_small_favour"@,
        q.name@ == "One Small Favour"@,
        q.quest_points == 2,
        q.requirements@.len() == 6,
        q.rewards@.len() == 0,
        q.wf(),
{
    let q = Quest {
        id: QuestId::new_static("one_small_favour"),
        name: String::from_str("One Small Favour"),
        quest_points: 2,
        requirements: vec![
            quest_req(QuestId::new_static("rune_mysteries")),
            quest_req(QuestId::new_static("shilo_village")),
            skill_req(Skill::Agility, Level(36)),
            skill_req(Skill::Crafting, Level(25)),
            skill_req(Skill::Herblore, Level(18)),
            skill_req(Skill::Smithing, Level(30)),
        ],
        rewards: Vec::new(),
    };
    proof {
        reveal_strlit("rune_mysteries");
        reveal_strlit("shilo_village");
        assert(q.requirements@[0]->Quest_0@ == "rune_mysteries"@);
        assert(q.requirements@[1]->Quest_0@ == "shilo_village"@);
        assert(("rune_mysteries"@).len() != ("shilo_village"@).len());
        assert(("rune_mysteries"@) != ("shilo_village"@));
        assert(!req_like(q.requirements@[0], q.requirements@[1]));
    }
    q
}

/// Pandemonium
fn pandemonium() -> (q: Quest)
    ensures
        q.id@ == "pandemonium"@,
        q.name@ == "Pandemonium"@,
        q.quest_points == 1,
        q.requirements@.len() == 0,
        q.rewards@.len() == 1,
        q.wf(),
{
    let q = Quest {
        id: QuestId::new_static("pandemonium"),
        name: String::from_str("Pandemonium"),
        quest_points: 1,
        requirements: Vec::new(),
        rewards: vec![
            xp_reward(Skill::Sailing, Xp(300)),
        ],
    };
    q
}

/// The Path of Glouphrie
fn the_path_of_glouphrie() -> (q: Quest)
    ensures
        q.id@ == "the_path_of_glouphrie"@,
        q.name@ == "The Path of Glouphrie"@,
        q.quest_points == 2,
        q.requirements@.len() == 8,
        q.rewards@.len() == 4,
        q.wf(),
{
    let q = Quest {
        id: QuestId::new_static("the_path_of_glouphrie"),
        name: String::from_str("The Path of Glouphrie"),
        quest_points: 2,
        requirements: vec![
            quest_req(QuestId::new_static("the_eyes_of_glouphrie")),
            quest_req(QuestId::new_static("waterfall_quest")),
            quest_req(QuestId::new_static("tree_gnome_village")),
            skill_req(Skill::Strength, Level(60)),
            skill_req(Skill::Slayer, Level(56)),
            skill_req(Skill::Thieving, Level(56)),
            skill_req(Skill::Ranged, Level(47)),
            skill_req(Skill::Agility, Level(45)),
        ],
        rewards: vec![
            xp_reward(Skill::Strength, Xp(30000)),
            xp_reward(Skill::Slayer, Xp(20000)),
            xp_reward(Skill::Thieving, Xp(5000)),
            xp_reward(Skill::Magic, Xp(5000)),
        ],
    };
    proof {
        reveal_strlit("the_eyes_of_glouphrie");
        reveal_strlit("tree_gnome_village");
        reveal_strlit("waterfall_quest");
        assert(q.requirements@[0]->Quest_0@ == "the_eyes_of_glouphrie"@);
        assert(q.requirements@[1]->Quest_0@ == "waterfall_quest"@);
        assert(q.requirements@[2]->Quest_0@ == "tree_gnome_village"@);
        assert(("the_eyes_of_glouphrie"@).len() != ("waterfall_quest"@).len());
        assert(("the_eyes_of_glouphrie"@) != ("waterfall_quest"@));
        assert(!req_like(q.requirements@[0], q.requirements@[1]));
        assert(("the_eyes_of_glouphrie"@).len() != ("tree_gnome_village"@).len());
        assert(("the_eyes_of_glouphrie"@) != ("tree_gnome_village"@));
        assert(!req_like(q.requirements@[0], q.requirements@[2]));
        assert(("waterfall_quest"@).len() != ("tree_gnome_village"@).len());
        assert(("waterfall_quest"@) != ("tree_gnome_village"@));
        assert(!req_like(q.requirements@[1], q.requirements@[2]));
    }
    q
}

/// Perilous Moons
fn perilous_moons() -> (q: Quest)
    ensures
        q.id@ == "perilous_moons"@,
        q.name@ == "Perilous Moons"@,
        q.quest_points == 2,
        q.requirements@.len() == 6,
        q.rewards@.len() == 4,
        q.wf(),
{
    let q = Quest {
        id: QuestId::new_static("perilous_moons"),
        name: String::from_str("Perilous Moons"),
        quest_points: 2,
        requirements: vec![
            quest_req(QuestId::new_static("twilights_promise")),
            skill_req(Skill::Slayer, Level(48)),
            skill_req(Skill::Hunter, Level(20)),
            skill_req(Skill::Fishing, Level(20)),
            skill_req(Skill::Runecraft, Level(20)),
            skill_req(Skill::Construction, Level(10)),
        ],
        rewards: vec![
            xp_reward(Skill::Slayer, Xp(40000)),
            xp_reward(Skill::Runecraft, Xp(5000)),
            xp_reward(Skill::Hunter, Xp(5000)),
            xp_reward(Skill::Fishing, Xp(5000)),
        ],
    };
    q
}

/// Plague City
fn plague_city() -> (q: Quest)
    ensures
        q.id@ == "plague_city"@,
        q.name@ == "Plague City"@,
        q.quest_points == 1,
        q.requirements@.len() == 0,
        q.rewards@.len() == 1,
        q.wf(),
{
    let q = Quest {
        id: QuestId::new_static("plague_city"),
        name: String::from_str("Plague City"),
        quest_points: 1,
        requirements: Vec::new(),
        rewards: vec![
            xp_reward(Skill::Mining, Xp(2425)),
        ],
    };
    q
}

/// A Porcine of Interest
fn a_porcine_of_interest() -> (q: Quest)
    ensures
        q.id@ == "a_porcine_of_interest"@,
        q.name@ == "A Porcine of Interest"@,
        q.quest_points == 1,
        q.requirements@.len() == 0,
        q.rewards@.len() == 1,
        q.wf(),
{
    let q = Quest {
        id: QuestId::new_static("a_porcine_of_interest"),
        name: String::from_str("A Porcine of Interest"),
        quest_points: 1,
        requirements: Vec::new(),
        rewards: vec![
            xp_reward(Skill::Slayer, Xp(1000)),
        ],
    };
    q
}

/// Priest in Peril
fn priest_in_peril() -> (q: Quest)
    ensures
        q.id@ == "priest_in_peril"@,
        q.name@ == "Priest in Peril"@,
        q.quest_points == 1,
        q.requirements@.len() == 0,
        q.rewards@.len() == 1,
        q.wf(),
{
    let q = Quest {
        id: QuestId::new_static("priest_in_peril"),
        name: String::from_str("Priest in Peril"),
        quest_points: 1,
        requirements: Vec::new(),
        rewards: vec![
            xp_reward(Skill::Prayer, Xp(1406)),
        ],
    };
    q
}

/// Prying Times
fn prying_times() -> (q: Quest)
    ensures
        q.id@ == "prying_times"@,
        q.name@ == "Prying Times"@,
        q.quest_points == 1,
        q.requirements@.len() == 4,
        q.rewards@.len() == 2,
        q.wf(),
{
    let q = Quest {
        id: QuestId::new_static("prying_times"),
        name: String::from_str("Prying Times"),
        quest_points: 1,
        requirements: vec![
            quest_req(QuestId::new_static("pandemonium")),
            quest_req(QuestId::new_static("the_knights_sword")),
            skill_req(Skill::Smithing, Level(30)),
            skill_req(Skill::Sailing, Level(12)),
        ],
        rewards: vec![
            xp_reward(Skill::Sailing, Xp(800)),
            xp_reward(Skill::Smithing, Xp(1000)),
        ],
    };
    proof {
        reveal_strlit("pandemonium");
        reveal_strlit("the_knights_sword");
        assert(q.requirements@[0]->Quest_0@ == "pandemonium"@);
        assert(q.requirements@[1]->Quest_0@ == "the_knights_sword"@);
        assert(("pandemonium"@).len() != ("the_knights_sword"@).len());
        assert(("pandemonium"@) != ("the_knights_sword"@));
        assert(!req_like(q.requirements@[0], q.requirements@[1]));
    }
    q
}

/// The Queen of Thieves
fn the_queen_of_thieves() -> (q: Quest)
    ensures
        q.id@ == "the_queen_of_thieves"@,
        q.name@ == "The Queen of Thieves"@,
        q.quest_points == 1,
        q.requirements@.len() == 2,
        q.rewards@.len() == 1,
        q.wf(),
{
    let q = Quest {
        id: QuestId::new_static("the_queen_of_thieves"),
        name: String::from_str("The Queen of Thieves"),
        quest_points: 1,
        requirements: vec![
            quest_req(QuestId::new_static("client_of_kourend")),
            skill_req(Skill::Thieving, Level(20)),
        ],
        rewards: vec![
            xp_reward(Skill::Thieving, Xp(2000)),
        ],
    };
    q
}

/// Rag and Bone Man I
fn rag_and_bone_man_i() -> (q: Quest)
    ensures
        q.id@ == "rag_and_bone_man_i"@,
        q.name@ == "Rag and Bone Man I"@,
        q.quest_points == 1,
        q.requirements@.len() == 0,
        q.rewards@.len() == 2,
        q.wf(),
{
    let q = Quest {
        id: QuestId::new_static("rag_and_bone_man_i"),
        name: String::from_str("Rag and Bone Man I"),
        quest_points: 1,
        requirements: Vec::new(),
        rewards: vec![
            xp_reward(Skill::Cooking, Xp(500)),
            xp_reward(Skill::Prayer, Xp(500)),
        ],
    };
    q
}

/// Rag and Bone Man II
fn rag_and_bone_man_ii() -> (q: Quest)
    ensures
        q.id@ == "rag_and_bone_man_ii"@,
        q.name@ == "Rag and Bone Man II"@,
        q.quest_points == 1,
        q.requirements@.len() == 5,
        q.rewards@.len() == 1,
        q.wf(),
{
    let q = Quest {
        id: QuestId::new_static("rag_and_bone_man_ii"),
        name: String::from_str("Rag and Bone Man II"),
        quest_points: 1,
        requirements: vec![
            quest_req(QuestId::new_static("rag_and_bone_man_i")),
            quest_req(QuestId::new_static("horror_from_the_deep")),
            quest_req(QuestId::new_static("creature_of_fenkenstrain")),
            skill_req(Skill::Slayer, Level(40)),
            skill_req(Skill::Defence, Level(20)),
        ],
        rewards: vec![
            xp_reward(Skill::Prayer, Xp(5000)),
        ],
    };
    proof {
        reveal_strlit("creature_of_fenkenstrain");
        reveal_strlit("horror_from_the_deep");
        reveal_strlit("rag_and_bone_man_i");
        assert(q.requirements@[0]->Quest_0@ == "rag_and_bone_man_i"@);
        assert(q.requirements@[1]->Quest_0@ == "horror_from_the_deep"@);
        assert(q.requirements@[2]->Quest_0@ == "creature_of_fenkenstrain"@);
        assert(("rag_and_bone_man_i"@).len() != ("horror_from_the_deep"@).len());
        assert(("rag_and_bone_man_i"@) != ("horror_from_the_deep"@));
        assert(!req_like(q.requirements@[0], q.requirements@[1]));
        assert(("rag_and_bone_man_i"@).len() != ("creature_of_fenkenstrain"@).len());
        assert(("rag_and_bone_man_i"@) != ("creature_of_fenkenstrain"@));
        assert(!req_like(q.requirements@[0], q.requirements@[2]));
        assert(("horror_from_the_deep"@).len() != ("creature_of_fenkenstrain"@).len());
        assert(("horror_from_the_deep"@) != ("creature_of_fenkenstrain"@));
        assert(!req_like(q.requirements@[1], q.requirements@[2]));
    }
    q
}

/// Ratcatchers
fn ratcatchers() -> (q: Quest)
    ensures
        q.id@ == "ratcatchers"@,
        q.name@ == "Ratcatchers"@,
        q.quest_points == 2,
        q.requirements@.len() == 1,
        q.rewards@.len() == 1,
        q.wf(),
{
    let q = Quest {
        id: QuestId::new_static("ratcatchers"),
        name: String::from_str("Ratcatchers"),
        quest_points: 2,
        requirements: vec![
            quest_req(QuestId::new_static("icthlarins_little_helper")),
        ],
        rewards: vec![
            xp_reward(Skill::Thieving, Xp(4500)),
        ],
    };
    q
}

/// Recipe for Disaster
fn recipe_for_disaster() -> (q: Quest)
    ensures
        q.id@ == "recipe_for_disaster"@,
        q.name@ == "Recipe for Disaster"@,
        q.quest_points == 1,
        q.requirements@.len() == 9,
        q.rewards@.len() == 0,
        q.wf(),
{
    let q = Quest {
        id: QuestId::new_static("recipe_for_disaster"),
        name: String::from_str("Recipe for Disaster"),
        quest_points: 1,
        requirements: vec![
            quest_req(QuestId::new_static("recipe_for_disaster_another_cooks_quest")),
            quest_req(QuestId::new_static("recipe_for_disaster_freeing_the_mountain_dwarf")),
            quest_req(QuestId::new_static("recipe_for_disaster_freeing_the_goblin_generals")),
            quest_req(QuestId::new_static("recipe_for_disaster_freeing_pirate_pete")),
            quest_req(QuestId::new_static("recipe_for_disaster_freeing_the_lumbridge_guide")),
            quest_req(QuestId::new_static("recipe_for_disaster_freeing_evil_dave")),
            quest_req(QuestId::new_static("recipe_for_disaster_freeing_skrach_uglogwee")),
            quest_req(QuestId::new_static("recipe_for_disaster_freeing_sir_amik_varze")),
            quest_req(QuestId::new_static("recipe_for_disaster_freeing_king_awowogei")),
        ],
        rewards: Vec::new(),
    };
    proof {
        reveal_strlit("recipe_for_disaster_another_cooks_quest");
        reveal_strlit("recipe_for_disaster_freeing_evil_dave");
        reveal_strlit("recipe_for_disaster_freeing_king_awowogei");
        reveal_strlit("recipe_for_disaster_freeing_pirate_pete");
        reveal_strlit("recipe_for_disaster_freeing_sir_amik_varze");
        reveal_strlit("recipe_for_disaster_freeing_skrach_uglogwee");
        reveal_strlit("recipe_for_disaster_freeing_the_goblin_generals");
        reveal_strlit("recipe_for_disaster_freeing_the_lumbridge_guide");
        reveal_strlit("recipe_for_disaster_freeing_the_mountain_dwarf");
        assert(q.requirements@[0]->Quest_0@ == "recipe_for_disaster_another_cooks_quest"@);
        assert(q.requirements@[1]->Quest_0@ == "recipe_for_disaster_freeing_the_mountain_dwarf"@);
        assert(q.requirements@[2]->Quest_0@ == "recipe_for_disaster_freeing_the_goblin_generals"@);
        assert(q.requirements@[3]->Quest_0@ == "recipe_for_disaster_freeing_pirate_pete"@);
        assert(q.requirements@[4]->Quest_0@ == "recipe_for_disaster_freeing_the_lumbridge_guide"@);
        assert(q.requirements@[5]->Quest_0@ == "recipe_for_disaster_freeing_evil_dave"@);
        assert(q.requirements@[6]->Quest_0@ == "recipe_for_disaster_freeing_skrach_uglogwee"@);
        assert(q.requirements@[7]->Quest_0@ == "recipe_for_disaster_freeing_sir_amik_varze"@);
        assert(q.requirements@[8]->Quest_0@ == "recipe_for_disaster_freeing_king_awowogei"@);
        assert(("recipe_for_disaster_another_cooks_quest"@).len() != ("recipe_for_disaster_freeing_the_mountain_dwarf"@).len());
        assert(("recipe_for_disaster_another_cooks_quest"@) != ("recipe_for_disaster_freeing_the_mountain_dwarf"@));
        assert(!req_like(q.requirements@[0], q.requirements@[1]));
        assert(("recipe_for_disaster_another_cooks_quest"@).len() != ("recipe_for_disaster_freeing_the_goblin_generals"@).len());
        assert(("recipe_for_disaster_another_cooks_quest"@) != ("recipe_for_disaster_freeing_the_goblin_generals"@));
        assert(!req_like(q.requirements@[0], q.requirements@[2]));
        assert(("recipe_for_disaster_another_cooks_quest"@)[20] != ("recipe_for_disaster_freeing_pirate_pete"@)[20]);
        assert(("recipe_for_disaster_another_cooks_quest"@) != ("recipe_for_disaster_freeing_pirate_pete"@));
        assert(!req_like(q.requirements@[0], q.requirements@[3]));
        assert(("recipe_for_disaster_another_cooks_quest"@).len() != ("recipe_for_disaster_freeing_the_lumbridge_guide"@).len());
        assert(("recipe_for_disaster_another_cooks_quest"@) != ("recipe_for_disaster_freeing_the_lumbridge_guide"@));
        assert(!req_like(q.requirements@[0], q.requirements@[4]));
        assert(("recipe_for_disaster_another_cooks_quest"@).len() != ("recipe_for_disaster_freeing_evil_dave"@).len());
        assert(("recipe_for_disaster_another_cooks_quest"@) != ("recipe_for_disaster_freeing_evil_dave"@));
        assert(!req_like(q.requirements@[0], q.requirements@[5]));
        assert(("recipe_for_disaster_another_cooks_quest"@).len() != ("recipe_for_disaster_freeing_skrach_uglogwee"@).len());
        assert(("recipe_for_disaster_another_cooks_quest"@) != ("recipe_for_disaster_freeing_skrach_uglogwee"@));
        assert(!req_like(q.requirements@[0], q.requirements@[6]));
        assert(("recipe_for_disaster_another_cooks_quest"@).len() != ("recipe_for_disaster_freeing_sir_amik_varze"@).len());
        assert(("recipe_for_disaster_another_cooks_quest"@) != ("recipe_for_disaster_freeing_sir_amik_varze"@));
        assert(!req_like(q.requirements@[0], q.requirements@[7]));
        assert(("recipe_for_disaster_another_cooks_quest"@).len() != ("recipe_for_disaster_freeing_king_awowogei"@).len());
        assert(("recipe_for_disaster_another_cooks_quest"@) != ("recipe_for_disaster_freeing_king_awowogei"@));
        assert(!req_like(q.requirements@[0], q.requirements@[8]));
        assert(("recipe_for_disaster_freeing_the_mountain_dwarf"@).len() != ("recipe_for_disaster_freeing_the_goblin_generals"@).len());
        assert(("recipe_for_disaster_freeing_the_mountain_dwarf"@) != ("recipe_for_disaster_freeing_the_goblin_generals"@));
        assert(!req_like(q.requirements@[1], q.requirements@[2]));
        assert(("recipe_for_disaster_freeing_the_mountain_dwarf"@).len() != ("recipe_for_disaster_freeing_pirate_pete"@).len());
        assert(("recipe_for_disaster_freeing_the_mountain_dwarf"@) != ("recipe_for_disaster_freeing_pirate_pete"@));
        assert(!req_like(q.requirements@[1], q.requirements@[3]));
        assert(("recipe_for_disaster_freeing_the_mountain_dwarf"@).len() != ("recipe_for_disaster_freeing_the_lumbridge_guide"@).len());
        assert(("recipe_for_disaster_freeing_the_mountain_dwarf"@) != ("recipe_for_disaster_freeing_the_lumbridge_guide"@));
        assert(!req_like(q.requirements@[1], q.requirements@[4]));
        assert(("recipe_for_disaster_freeing_the_mountain_dwarf"@).len() != ("recipe_for_disaster_freeing_evil_dave"@).len());
        assert(("recipe_for_disaster_freeing_the_mountain_dwarf"@) != ("recipe_for_disaster_freeing_evil_dave"@));
        assert(!req_like(q.requirements@[1], q.requirements@[5]));
        assert(("recipe_for_disaster_freeing_the_mountain_dwarf"@).len() != ("recipe_for_disaster_freeing_skrach_uglogwee"@).len());
        assert(("recipe_for_disaster_freeing_the_mountain_dwarf"@) != ("recipe_for_disaster_freeing_skrach_uglogwee"@));
        assert(!req_like(q.requirements@[1], q.requirements@[6]));
        assert(("recipe_for_disaster_freeing_the_mountain_dwarf"@).len() != ("recipe_for_disaster_freeing_sir_amik_varze"@).len());
        assert(("recipe_for_disaster_freeing_the_mountain_dwarf"@) != ("recipe_for_disaster_freeing_sir_amik_varze"@));
        assert(!req_like(q.requirements@[1], q.requirements@[7]));
        assert(("recipe_for_disaster_freeing_the_mountain_dwarf"@).len() != ("recipe_for_disaster_freeing_king_awowogei"@).len());
        assert(("recipe_for_disaster_freeing_the_mountain_dwarf"@) != ("recipe_for_disaster_freeing_king_awowogei"@));
        assert(!req_like(q.requirements@[1], q.requirements@[8]));
        assert(("recipe_for_disaster_freeing_the_goblin_generals"@).len() != ("recipe_for_disaster_freeing_pirate_pete"@).len());
        assert(("recipe_for_disaster_freeing_the_goblin_generals"@) != ("recipe_for_disaster_freeing_pirate_pete"@));
        assert(!req_like(q.requirements@[2], q.requirements@[3]));
        assert(("recipe_for_disaster_freeing_the_goblin_generals"@)[32] != ("recipe_for_disaster_freeing_the_lumbridge_guide"@)[32]);
        assert(("recipe_for_disaster_freeing_the_goblin_generals"@) != ("recipe_for_disaster_freeing_the_lumbridge_guide"@));
        assert(!req_like(q.requirements@[2], q.requirements@[4]));
        assert(("recipe_for_disaster_freeing_the_goblin_generals"@).len() != ("recipe_for_disaster_freeing_evil_dave"@).len());
        assert(("recipe_for_disaster_freeing_the_goblin_generals"@) != ("recipe_for_disaster_freeing_evil_dave"@));
        assert(!req_like(q.requirements@[2], q.requirements@[5]));
        assert(("recipe_for_disaster_freeing_the_goblin_generals"@).len() != ("recipe_for_disaster_freeing_skrach_uglogwee"@).len());
        assert(("recipe_for_disaster_freeing_the_goblin_generals"@) != ("recipe_for_disaster_freeing_skrach_uglogwee"@));
        assert(!req_like(q.requirements@[2], q.requirements@[6]));
        assert(("recipe_for_disaster_freeing_the_goblin_generals"@).len() != ("recipe_for_disaster_freeing_sir_amik_varze"@).len());
        assert(("recipe_for_disaster_freeing_the_goblin_generals"@) != ("recipe_for_disaster_freeing_sir_amik_varze"@));
        assert(!req_like(q.requirements@[2], q.requirements@[7]));
        assert(("recipe_for_disaster_freeing_the_goblin_generals"@).len() != ("recipe_for_disaster_freeing_king_awowogei"@).len());
        assert(("recipe_for_disaster_freeing_the_goblin_generals"@) != ("recipe_for_disaster_freeing_king_awowogei"@));
        assert(!req_like(q.requirements@[2], q.requirements@[8]));
        assert(("recipe_for_disaster_freeing_pirate_pete"@).len() != ("recipe_for_disaster_freeing_the_lumbridge_guide"@).len());
        assert(("recipe_for_disaster_freeing_pirate_pete"@) != ("recipe_for_disaster_freeing_the_lumbridge_guide"@));
        assert(!req_like(q.requirements@[3], q.requirements@[4]));
        assert(("recipe_for_disaster_freeing_pirate_pete"@).len() != ("recipe_for_disaster_freeing_evil_dave"@).len());
        assert(("recipe_for_disaster_freeing_pirate_pete"@) != ("recipe_for_disaster_freeing_evil_dave"@));
        assert(!req_like(q.requirements@[3], q.requirements@[5]));
        assert(("recipe_for_disaster_freeing_pirate_pete"@).len() != ("recipe_for_disaster_freeing_skrach_uglogwee"@).len());
        assert(("recipe_for_disaster_freeing_pirate_pete"@) != ("recipe_for_disaster_freeing_skrach_uglogwee"@));
        assert(!req_like(q.requirements@[3], q.requirements@[6]));
        assert(("recipe_for_disaster_freeing_pirate_pete"@).len() != ("recipe_for_disaster_freeing_sir_amik_varze"@).len());
        assert(("recipe_for_disaster_freeing_pirate_pete"@) != ("recipe_for_disaster_freeing_sir_amik_varze"@));
        assert(!req_like(q.requirements@[3], q.requirements@[7]));
        assert(("recipe_for_disaster_freeing_pirate_pete"@).len() != ("recipe_for_disaster_freeing_king_awowogei"@).len());
        assert(("recipe_for_disaster_freeing_pirate_pete"@) != ("recipe_for_disaster_freeing_king_awowogei"@));
        assert(!req_like(q.requirements@[3], q.requirements@[8]));
        assert(("recipe_for_disaster_freeing_the_lumbridge_guide"@).len() != ("recipe_for_disaster_freeing_evil_dave"@).len());
        assert(("recipe_for_disaster_freeing_the_lumbridge_guide"@) != ("recipe_for_disaster_freeing_evil_dave"@));
        assert(!req_like(q.requirements@[4], q.requirements@[5]));
        assert(("recipe_for_disaster_freeing_the_lumbridge_guide"@).len() != ("recipe_for_disaster_freeing_skrach_uglogwee"@).len());
        assert(("recipe_for_disaster_freeing_the_lumbridge_guide"@) != ("recipe_for_disaster_freeing_skrach_uglogwee"@));
        assert(!req_like(q.requirements@[4], q.requirements@[6]));
        assert(("recipe_for_disaster_freeing_the_lumbridge_guide"@).len() != ("recipe_for_disaster_freeing_sir_amik_varze"@).len());
        assert(("recipe_for_disaster_freeing_the_lumbridge_guide"@) != ("recipe_for_disaster_freeing_sir_amik_varze"@));
        assert(!req_like(q.requirements@[4], q.requirements@[7]));
        assert(("recipe_for_disaster_freeing_the_lumbridge_guide"@).len() != ("recipe_for_disaster_freeing_king_awowogei"@).len());
        assert(("recipe_for_disaster_freeing_the_lumbridge_guide"@) != ("recipe_for_disaster_freeing_king_awowogei"@));
        assert(!req_like(q.requirements@[4], q.requirements@[8]));
        assert(("recipe_for_disaster_freeing_evil_dave"@).len() != ("recipe_for_disaster_freeing_skrach_uglogwee"@).len());
        assert(("recipe_for_disaster_freeing_evil_dave"@) != ("recipe_for_disaster_freeing_skrach_uglogwee"@));
        assert(!req_like(q.requirements@[5], q.requirements@[6]));
        assert(("recipe_for_disaster_freeing_evil_dave"@).len() != ("recipe_for_disaster_freeing_sir_amik_varze"@).len());
        assert(("recipe_for_disaster_freeing_evil_dave"@) != ("recipe_for_disaster_freeing_sir_amik_varze"@));
        assert(!req_like(q.requirements@[5], q.requirements@[7]));
        assert(("recipe_for_disaster_freeing_evil_dave"@).len() != ("recipe_for_disaster_freeing_king_awowogei"@).len());
        assert(("recipe_for_disaster_freeing_evil_dave"@) != ("recipe_for_disaster_freeing_king_awowogei"@));
        assert(!req_like(q.requirements@[5], q.requirements@[8]));
        assert(("recipe_for_disaster_freeing_skrach_uglogwee"@).len() != ("recipe_for_disaster_freeing_sir_amik_varze"@).len());
        assert(("recipe_for_disaster_freeing_skrach_uglogwee"@) != ("recipe_for_disaster_freeing_sir_amik_varze"@));
        assert(!req_like(q.requirements@[6], q.requirements@[7]));
        assert(("recipe_for_disaster_freeing_skrach_uglogwee"@).len() != ("recipe_for_disaster_freeing_king_awowogei"@).len());
        assert(("recipe_for_disaster_freeing_skrach_uglogwee"@) != ("recipe_for_disaster_freeing_king_awowogei"@));
        assert(!req_like(q.requirements@[6], q.requirements@[8]));
        assert(("recipe_for_disaster_freeing_sir_amik_varze"@).len() != ("recipe_for_disaster_freeing_king_awowogei"@).len());
        assert(("recipe_for_disaster_freeing_sir_amik_varze"@) != ("recipe_for_disaster_freeing_king_awowogei"@));
        assert(!req_like(q.requirements@[7], q.requirements@[8]));
    }
    q
}

/// Recipe for Disaster: Another Cook's Quest
fn recipe_for_disaster_another_cooks_quest() -> (q: Quest)
    ensures
        q.id@ == "recipe_for_disaster_another_cooks_quest"@,
        q.name@ == "Recipe for Disaster: Another Cook's Quest"@,
        q.quest_points == 1,
        q.requirements@.len() == 2,
        q.rewards@.len() == 0,
        q.wf(),
{
    let q = Quest {
        id: QuestId::new_static("recipe_for_disaster_another_cooks_quest"),
        name: String::from_str("Recipe for Disaster: Another Cook's Quest"),
        quest_points: 1,
        requirements: vec![
            quest_req(QuestId::new_static("cooks_assistant")),
            skill_req(Skill::Cooking, Level(10)),
        ],
        rewards: Vec::new(),
    };
    q
}

/// Recipe for Disaster: Freeing the Mountain Dwarf
fn recipe_for_disaster_freeing_the_mountain_dwarf() -> (q: Quest)
    ensures
        q.id@ == "recipe_for_disaster_freeing_the_mountain_dwarf"@,
        q.name@ == "Recipe for Disaster: Freeing the Mountain Dwarf"@,
        q.quest_points == 1,
        q.requirements@.len() == 2,
        q.rewards@.len() == 2,
        q.wf(),
{
    let q = Quest {
        id: QuestId::new_static("recipe_for_disaster_freeing_the_mountain_dwarf"),
        name: String::from_str("Recipe for Disaster: Freeing the Mountain Dwarf"),
        quest_points: 1,
        requirements: vec![
            quest_req(QuestId::new_static("recipe_for_disaster_another_cooks_quest")),
            quest_req(QuestId::new_static("fishing_contest")),
        ],
        rewards: vec![
            xp_reward(Skill::Cooking, Xp(1000)),
            xp_reward(Skill::Slayer, Xp(1000)),
        ],
    };
    proof {
        reveal_strlit("fishing_contest");
        reveal_strlit("recipe_for_disaster_another_cooks_quest");
        assert(q.requirements@[0]->Quest_0@ == "recipe_for_disaster_another_cooks_quest"@);
        assert(q.requirements@[1]->Quest_0@ == "fishing_contest"@);
        assert(("recipe_for_disaster_another_cooks_quest"@).len() != ("fishing_contest"@).len());
        assert(("recipe_for_disaster_another_cooks_quest"@) != ("fishing_contest"@));
        assert(!req_like(q.requirements@[0], q.requirements@[1]));
    }
    q
}

/// Recipe for Disaster: Freeing the Goblin Generals
fn recipe_for_disaster_freeing_the_goblin_generals() -> (q: Quest)
    ensures
        q.id@ == "recipe_for_disaster_freeing_the_goblin_generals"@,
        q.name@ == "Recipe for Disaster: Freeing the Goblin Generals"@,
        q.quest_points == 1,
        q.requirements@.len() == 2,
        q.rewards@.len() == 3,
        q.wf(),
{
    let q = Quest {
        id: QuestId::new_static("recipe_for_disaster_freeing_the_goblin_generals"),
        name: String::from_str("Recipe for Disaster: Freeing the Goblin Generals"),
        quest_points: 1,
        requirements: vec![
            quest_req(QuestId::new_static("recipe_for_disaster_another_cooks_quest")),
            quest_req(QuestId::new_static("goblin_diplomacy")),
        ],
        rewards: vec![
            xp_reward(Skill::Cooking, Xp(1000)),
            xp_reward(Skill::Farming, Xp(1000)),
            xp_reward(Skill::Crafting, Xp(1000)),
        ],
    };
    proof {
        reveal_strlit("goblin_diplomacy");
        reveal_strlit("recipe_for_disaster_another_cooks_quest");
        assert(q.requirements@[0]->Quest_0@ == "recipe_for_disaster_another_cooks_quest"@);
        assert(q.requirements@[1]->Quest_0@ == "goblin_diplomacy"@);
        assert(("recipe_for_disaster_another_cooks_quest"@).len() != ("goblin_diplomacy"@).len());
        assert(("recipe_for_disaster_another_cooks_quest"@) != ("goblin_diplomacy"@));
        assert(!req_like(q.requirements@[0], q.requirements@[1]));
    }
    q
}

/// Recipe for Disaster: Freeing Pirate Pete
fn recipe_for_disaster_freeing_pirate_pete() -> (q: Quest)
    ensures
        q.id@ == "recipe_for_disaster_freeing_pirate_pete"@,
        q.name@ == "Recipe for Disaster: Freeing Pirate Pete"@,
        q.quest_points == 1,
        q.requirements@.len() == 2,
        q.rewards@.len() == 4,
        q.wf(),
{
    let q = Quest {
        id: QuestId::new_static("recipe_for_disaster_freeing_pirate_pete"),
        name: String::from_str("Recipe for Disaster: Freeing Pirate Pete"),
        quest_points: 1,
        requirements: vec![
            quest_req(QuestId::new_static("recipe_for_disaster_another_cooks_quest")),
            skill_req(Skill::Cooking, Level(31)),
        ],
        rewards: vec![
            xp_reward(Skill::Cooking, Xp(1000)),
            xp_reward(Skill::Crafting, Xp(1000)),
            xp_reward(Skill::Fishing, Xp(1000)),
            xp_reward(Skill::Smithing, Xp(1000)),
        ],
    };
    q
}

/// Recipe for Disaster: Freeing the Lumbridge Guide
fn recipe_for_disaster_freeing_the_lumbridge_guide() -> (q: Quest)
    ensures
        q.id@ == "recipe_for_disaster_freeing_the_lumbridge_guide"@,
        q.name@ == "Recipe for Disaster: Freeing the Lumbridge Guide"@,
        q.quest_points == 1,
        q.requirements@.len() == 8,
        q.rewards@.len() == 2,
        q.wf(),
{
    let q = Quest {
        id: QuestId::new_static("recipe_for_disaster_freeing_the_lumbridge_guide"),
        name: String::from_str("Recipe for Disaster: Freeing the Lumbridge Guide"),
        quest_points: 1,
        requirements: vec![
            quest_req(QuestId::new_static("recipe_for_disaster_another_cooks_quest")),
            quest_req(QuestId::new_static("big_chompy_bird_hunting")),
            quest_req(QuestId::new_static("biohazard")),
            quest_req(QuestId::new_static("demon_slayer")),
            quest_req(QuestId::new_static("murder_mystery")),
            quest_req(QuestId::new_static("nature_spirit")),
            quest_req(QuestId::new_static("witchs_house")),
            skill_req(Skill::Cooking, Level(40)),
        ],
        rewards: vec![
            xp_reward(Skill::Cooking, Xp(2500)),
            xp_reward(Skill::Magic, Xp(2500)),
        ],
    };
    proof {
        reveal_strlit("big_chompy_bird_hunting");
        reveal_strlit("biohazard");
        reveal_strlit("demon_slayer");
        reveal_strlit("murder_mystery");
        reveal_strlit("nature_spirit");
        reveal_strlit("recipe_for_disaster_another_cooks_quest");
        reveal_strlit("witchs_house");
        assert(q.requirements@[0]->Quest_0@ == "recipe_for_disaster_another_cooks_quest"@);
        assert(q.requirements@[1]->Quest_0@ == "big_chompy_bird_hunting"@);
        assert(q.requirements@[2]->Quest_0@ == "biohazard"@);
        assert(q.requirements@[3]->Quest_0@ == "demon_slayer"@);
        assert(q.requirements@[4]->Quest_0@ == "murder_mystery"@);
        assert(q.requirements@[5]->Quest_0@ == "nature_spirit"@);
        assert(q.requirements@[6]->Quest_0@ == "witchs_house"@);
        assert(("recipe_for_disaster_another_cooks_quest"@).len() != ("big_chompy_bird_hunting"@).len());
        assert(("recipe_for_disaster_another_cooks_quest"@) != ("big_chompy_bird_hunting"@));
        assert(!req_like(q.requirements@[0], q.requirements@[1]));
        assert(("recipe_for_disaster_another_cooks_quest"@).len() != ("biohazard"@).len());
        assert(("recipe_for_disaster_another_cooks_quest"@) != ("biohazard"@));
        assert(!req_like(q.requirements@[0], q.requirements@[2]));
        assert(("recipe_for_disaster_another_cooks_quest"@).len() != ("demon_slayer"@).len());
        assert(("recipe_for_disaster_another_cooks_quest"@) != ("demon_slayer"@));
        assert(!req_like(q.requirements@[0], q.requirements@[3]));
        assert(("recipe_for_disaster_another_cooks_quest"@).len() != ("murder_mystery"@).len());
        assert(("recipe_for_disaster_another_cooks_quest"@) != ("murder_mystery"@));
        assert(!req_like(q.requirements@[0], q.requirements@[4]));
        assert(("recipe_for_disaster_another_cooks_quest"@).len() != ("nature_spirit"@).len());
        assert(("recipe_for_disaster_another_cooks_quest"@) != ("nature_spirit"@));
        assert(!req_like(q.requirements@[0], q.requirements@[5]));
        assert(("recipe_for_disaster_another_cooks_quest"@).len() != ("witchs_house"@).len());
        assert(("recipe_for_disaster_another_cooks_quest"@) != ("witchs_house"@));
        assert(!req_like(q.requirements@[0], q.requirements@[6]));
        assert(("big_chompy_bird_hunting"@).len() != ("biohazard"@).len());
        assert(("big_chompy_bird_hunting"@) != ("biohazard"@));
        assert(!req_like(q.requirements@[1], q.requirements@[2]));
        assert(("big_chompy_bird_hunting"@).len() != ("demon_slayer"@).len());
        assert(("big_chompy_bird_hunting"@) != ("demon_slayer"@));
        assert(!req_like(q.requirements@[1], q.requirements@[3]));
        assert(("big_chompy_bird_hunting"@).len() != ("murder_mystery"@).len());
        assert(("big_chompy_bird_hunting"@) != ("murder_mystery"@));
        assert(!req_like(q.requirements@[1], q.requirements@[4]));
        assert(("big_chompy_bird_hunting"@).len() != ("nature_spirit"@).len());
        assert(("big_chompy_bird_hunting"@) != ("nature_spirit"@));
        assert(!req_like(q.requirements@[1], q.requirements@[5]));
        assert(("big_chompy_bird_hunting"@).len() != ("witchs_house"@).len());
        assert(("big_chompy_bird_hunting"@) != ("witchs_house"@));
        assert(!req_like(q.requirements@[1], q.requirements@[6]));
        assert(("biohazard"@).len() != ("demon_slayer"@).len());
        assert(("biohazard"@) != ("demon_slayer"@));
        assert(!req_like(q.requirements@[2], q.requirements@[3]));
        assert(("biohazard"@).len() != ("murder_mystery"@).len());
        assert(("biohazard"@) != ("murder_mystery"@));
        assert(!req_like(q.requirements@[2], q.requirements@[4]));
        assert(("biohazard"@).len() != ("nature_spirit"@).len());
        assert(("biohazard"@) != ("nature_spirit"@));
        assert(!req_like(q.requirements@[2], q.requirements@[5]));
        assert(("biohazard"@).len() != ("witchs_house"@).len());
        assert(("biohazard"@) != ("witchs_house"@));
        assert(!req_like(q.requirements@[2], q.requirements@[6]));
        assert(("demon_slayer"@).len() != ("murder_mystery"@).len());
        assert(("demon_slayer"@) != ("murder_mystery"@));
        assert(!req_like(q.requirements@[3], q.requirements@[4]));
        assert(("demon_slayer"@).len() != ("nature_spirit"@).len());
        assert(("demon_slayer"@) != ("nature_spirit"@));
        assert(!req_like(q.requirements@[3], q.requirements@[5]));
        assert(("demon_slayer"@)[0] != ("witchs_house"@)[0]);
        assert(("demon_slayer"@) != ("witchs_house"@));
        assert(!req_like(q.requirements@[3], q.requirements@[6]));
        assert(("murder_mystery"@).len() != ("nature_spirit"@).len());
        assert(("murder_mystery"@) != ("nature_spirit"@));
        assert(!req_like(q.requirements@[4], q.requirements@[5]));
        assert(("murder_mystery"@).len() != ("witchs_house"@).len());
        assert(("murder_mystery"@) != ("witchs_house"@));
        assert(!req_like(q.requirements@[4], q.requirements@[6]));
        assert(("nature_spirit"@).len() != ("witchs_house"@).len());
        assert(("nature_spirit"@) != ("witchs_house"@));
        assert(!req_like(q.requirements@[5], q.requirements@[6]));
    }
    q
}

/// Recipe for Disaster: Freeing Evil Dave
fn recipe_for_disaster_freeing_evil_dave() -> (q: Quest)
    ensures
        q.id@ == "recipe_for_disaster_freeing_evil_dave"@,
        q.name@ == "Recipe for Disaster: Freeing Evil Dave"@,
        q.quest_points == 1,
        q.requirements@.len() == 4,
        q.rewards@.len() == 1,
        q.wf(),
{
    let q = Quest {
        id: QuestId::new_static("recipe_for_disaster_freeing_evil_dave"),
        name: String::from_str("Recipe for Disaster: Freeing Evil Dave"),
        quest_points: 1,
        requirements: vec![
            quest_req(QuestId::new_static("recipe_for_disaster_another_cooks_quest")),
            quest_req(QuestId::new_static("gertrudes_cat")),
            quest_req(QuestId::new_static("shadow_of_the_storm")),
            skill_req(Skill::Cooking, Level(25)),
        ],
        rewards: vec![
            xp_reward(Skill::Cooking, Xp(7000)),
        ],
    };
    proof {
        reveal_strlit("gertrudes_cat");
        reveal_strlit("recipe_for_disaster_another_cooks_quest");
        reveal_strlit("shadow_of_the_storm");
        assert(q.requirements@[0]->Quest_0@ == "recipe_for_disaster_another_cooks_quest"@);
        assert(q.requirements@[1]->Quest_0@ == "gertrudes_cat"@);
        assert(q.requirements@[2]->Quest_0@ == "shadow_of_the_storm"@);
        assert(("recipe_for_disaster_another_cooks_quest"@).len() != ("gertrudes_cat"@).len());
        assert(("recipe_for_disaster_another_cooks_quest"@) != ("gertrudes_cat"@));
        assert(!req_like(q.requirements@[0], q.requirements@[1]));
        assert(("recipe_for_disaster_another_cooks_quest"@).len() != ("shadow_of_the_storm"@).len());
        assert(("recipe_for_disaster_another_cooks_quest"@) != ("shadow_of_the_storm"@));
        assert(!req_like(q.requirements@[0], q.requirements@[2]));
        assert(("gertrudes_cat"@).len() != ("shadow_of_the_storm"@).len());
        assert(("gertrudes_cat"@) != ("shadow_of_the_storm"@));
        assert(!req_like(q.requirements@[1], q.requirements@[2]));
    }
    q
}

/// Recipe for Disaster: Freeing Skrach Uglogwee
fn recipe_for_disaster_freeing_skrach_uglogwee() -> (q: Quest)
    ensures
        q.id@ == "recipe_for_disaster_freeing_skrach_uglogwee"@,
        q.name@ == "Recipe for Disaster: Freeing Skrach Uglogwee"@,
        q.quest_points == 1,
        q.requirements@.len() == 4,
        q.rewards@.len() == 4,
        q.wf(),
{
    let q = Quest {
        id: QuestId::new_static("recipe_for_disaster_freeing_skrach_uglogwee"),
        name: String::from_str("Recipe for Disaster: Freeing Skrach Uglogwee"),
        quest_points: 1,
        requirements: vec![
            quest_req(QuestId::new_static("recipe_for_disaster_another_cooks_quest")),
            quest_req(QuestId::new_static("big_chompy_bird_hunting")),
            skill_req(Skill::Cooking, Level(41)),
            skill_req(Skill::Firemaking, Level(20)),
        ],
        rewards: vec![
            xp_reward(Skill::Woodcutting, Xp(1500)),
            xp_reward(Skill::Cooking, Xp(1500)),
            xp_reward(Skill::Crafting, Xp(1500)),
            xp_reward(Skill::Ranged, Xp(1500)),
        ],
    };
    proof {
        reveal_strlit("big_chompy_bird_hunting");
        reveal_strlit("recipe_for_disaster_another_cooks_quest");
        assert(q.requirements@[0]->Quest_0@ == "recipe_for_disaster_another_cooks_quest"@);
        assert(q.requirements@[1]->Quest_0@ == "big_chompy_bird_hunting"@);
        assert(("recipe_for_disaster_another_cooks_quest"@).len() != ("big_chompy_bird_hunting"@).len());
        assert(("recipe_for_disaster_another_cooks_quest"@) != ("big_chompy_bird_hunting"@));
        assert(!req_like(q.requirements@[0], q.requirements@[1]));
    }
    q
}

/// Recipe for Disaster: Freeing Sir Amik Varze
fn recipe_for_disaster_freeing_sir_amik_varze() -> (q: Quest)
    ensures
        q.id@ == "recipe_for_disaster_freeing_sir_amik_varze"@,
        q.name@ == "Recipe for Disaster: Freeing Sir Amik Varze"@,
        q.quest_points == 1,
        q.requirements@.len() == 7,
        q.rewards@.len() == 2,
        q.wf(),
{
    let q = Quest {
        id: QuestId::new_static("recipe_for_disaster_freeing_sir_amik_varze"),
        name: String::from_str("Recipe for Disaster: Freeing Sir Amik Varze"),
        quest_points: 1,
        requirements: vec![
            quest_point_req(107),
            quest_req(QuestId::new_static("recipe_for_disaster_another_cooks_quest")),
            quest_req(QuestId::new_static("family_crest")),
            quest_req(QuestId::new_static("heroes_quest")),
            quest_req(QuestId::new_static("shilo_village")),
            quest_req(QuestId::new_static("underground_pass")),
            quest_req(QuestId::new_static("waterfall_quest")),
        ],
        rewards: vec![
            xp_reward(Skill::Cooking, Xp(4000)),
            xp_reward(Skill::Hitpoints, Xp(4000)),
        ],
    };
    proof {
        reveal_strlit("family_crest");
        reveal_strlit("heroes_quest");
        reveal_strlit("recipe_for_disaster_another_cooks_quest");
        reveal_strlit("shilo_village");
        reveal_strlit("underground_pass");
        reveal_strlit("waterfall_quest");
        assert(q.requirements@[1]->Quest_0@ == "recipe_for_disaster_another_cooks_quest"@);
        assert(q.requirements@[2]->Quest_0@ == "family_crest"@);
        assert(q.requirements@[3]->Quest_0@ == "heroes_quest"@);
        assert(q.requirements@[4]->Quest_0@ == "shilo_village"@);
        assert(q.requirements@[5]->Quest_0@ == "underground_pass"@);
        assert(q.requirements@[6]->Quest_0@ == "waterfall_quest"@);
        assert(("recipe_for_disaster_another_cooks_quest"@).len() != ("family_crest"@).len());
        assert(("recipe_for_disaster_another_cooks_quest"@) != ("family_crest"@));
        assert(!req_like(q.requirements@[1], q.requirements@[2]));
        assert(("recipe_for_disaster_another_cooks_quest"@).len() != ("heroes_quest"@).len());
        assert(("recipe_for_disaster_another_cooks_quest"@) != ("heroes_quest"@));
        assert(!req_like(q.requirements@[1], q.requirements@[3]));
        assert(("recipe_for_disaster_another_cooks_quest"@).len() != ("shilo_village"@).len());
        assert(("recipe_for_disaster_another_cooks_quest"@) != ("shilo_village"@));
        assert(!req_like(q.requirements@[1], q.requirements@[4]));
        assert(("recipe_for_disaster_another_cooks_quest"@).len() != ("underground_pass"@).len());
        assert(("recipe_for_disaster_another_cooks_quest"@) != ("underground_pass"@));
        assert(!req_like(q.requirements@[1], q.requirements@[5]));
        assert(("recipe_for_disaster_another_cooks_quest"@).len() != ("waterfall_quest"@).len());
        assert(("recipe_for_disaster_another_cooks_quest"@) != ("waterfall_quest"@));
        assert(!req_like(q.requirements@[1], q.requirements@[6]));
        assert(("family_crest"@)[0] != ("heroes_quest"@)[0]);
        assert(("family_crest"@) != ("heroes_quest"@));
        assert(!req_like(q.requirements@[2], q.requirements@[3]));
        assert(("family_crest"@).len() != ("shilo_village"@).len());
        assert(("family_crest"@) != ("shilo_village"@));
        assert(!req_like(q.requirements@[2], q.requirements@[4]));
        assert(("family_crest"@).len() != ("underground_pass"@).len());
        assert(("family_crest"@) != ("underground_pass"@));
        assert(!req_like(q.requirements@[2], q.requirements@[5]));
        assert(("family_crest"@).len() != ("waterfall_quest"@).len());
        assert(("family_crest"@) != ("waterfall_quest"@));
        assert(!req_like(q.requirements@[2], q.requirements@[6]));
        assert(("heroes_quest"@).len() != ("shilo_village"@).len());
        assert(("heroes_quest"@) != ("shilo_village"@));
        assert(!req_like(q.requirements@[3], q.requirements@[4]));
        assert(("heroes_quest"@).len() != ("underground_pass"@).len());
        assert(("heroes_quest"@) != ("underground_pass"@));
        assert(!req_like(q.requirements@[3], q.requirements@[5]));
        assert(("heroes_quest"@).len() != ("waterfall_quest"@).len());
        assert(("heroes_quest"@) != ("waterfall_quest"@));
        assert(!req_like(q.requirements@[3], q.requirements@[6]));
        assert(("shilo_village"@).len() != ("underground_pass"@).len());
        assert(("shilo_village"@) != ("underground_pass"@));
        assert(!req_like(q.requirements@[4], q.requirements@[5]));
        assert(("shilo_village"@).len() != ("waterfall_quest"@).len());
        assert(("shilo_village"@) != ("waterfall_quest"@));
        assert(!req_like(q.requirements@[4], q.requirements@[6]));
        assert(("underground_pass"@).len() != ("waterfall_quest"@).len());
        assert(("underground_pass"@) != ("waterfall_quest"@));
        assert(!req_like(q.requirements@[5], q.requirements@[6]));
    }
    q
}

/// Recipe for Disaster: Freeing King Awowogei
fn recipe_for_disaster_freeing_king_awowogei() -> (q: Quest)
    ensures
        q.id@ == "recipe_for_disaster_freeing_king_awowogei"@,
        q.name@ == "Recipe for Disaster: Freeing King Awowogei"@,
        q.quest_points == 1,
        q.requirements@.len() == 4,
        q.rewards@.len() == 2,
        q.wf(),
{
    let q = Quest {
        id: QuestId::new_static("recipe_for_disaster_freeing_king_awowogei"),
        name: String::from_str("Recipe for Disaster: Freeing King Awowogei"),
        quest_points: 1,
        requirements: vec![
            quest_req(QuestId::new_static("recipe_for_disaster_another_cooks_quest")),
            quest_req(QuestId::new_static("monkey_madness_i")),
            skill_req(Skill::Cooking, Level(70)),
            skill_req(Skill::Agility, Level(48)),
        ],
        rewards: vec![
            xp_reward(Skill::Cooking, Xp(10000)),
            xp_reward(Skill::Agility, Xp(10000)),
        ],
    };
    proof {
        reveal_strlit("monkey_madness_i");
        reveal_strlit("recipe_for_disaster_another_cooks_quest");
        assert(q.requirements@[0]->Quest_0@ == "recipe_for_disaster_another_cooks_quest"@);
        assert(q.requirements@[1]->Quest_0@ == "monkey_madness_i"@);
        assert(("recipe_for_disaster_another_cooks_quest"@).len() != ("monkey_madness_i"@).len());
        assert(("recipe_for_disaster_another_cooks_quest"@) != ("monkey_madness_i"@));
        assert(!req_like(q.requirements@[0], q.requirements@[1]));
    }
    q
}

/// Recruitment Drive
fn recruitment_drive() -> (q: Quest)
    ensures
        q.id@ == "recruitment_drive"@,
        q.name@ == "Recruitment Drive"@,
        q.quest_points == 1,
        q.requirements@.len() == 2,
        q.rewards@.len() == 3,
        q.wf(),
{
    let q = Quest {
        id: QuestId::new_static("recruitment_drive"),
        name: String::from_str("Recruitment Drive"),
        quest_points: 1,
        requirements: vec![
            quest_req(QuestId::new_static("black_knights_fortress")),
            quest_req(QuestId::new_static("druidic_ritual")),
        ],
        rewards: vec![
            xp_reward(Skill::Prayer, Xp(1000)),
            xp_reward(Skill::Herblore, Xp(1000)),
            xp_reward(Skill::Agility, Xp(1000)),
        ],
    };
    proof {
        reveal_strlit("black_knights_fortress");
        reveal_strlit("druidic_ritual");
        assert(q.requirements@[0]->Quest_0@ == "black_knights_fortress"@);
        assert(q.requirements@[1]->Quest_0@ == "druidic_ritual"@);
        assert(("black_knights_fortress"@).len() != ("druidic_ritual"@).len());
        assert(("black_knights_fortress"@) != ("druidic_ritual"@));
        assert(!req_like(q.requirements@[0], q.requirements@[1]));
    }
    q
}

/// Regicide
fn regicide() -> (q: Quest)
    ensures
        q.id@ == "regicide"@,
        q.name@ == "Regicide"@,
        q.quest_points == 3,
        q.requirements@.len() == 3,
        q.rewards@.len() == 1,
        q.wf(),
{
    let q = Quest {
        id: QuestId::new_static("regicide"),
        name: String::from_str("Regicide"),
        quest_points: 3,
        requirements: vec![
            quest_req(QuestId::new_static("underground_pass")),
            skill_req(Skill::Crafting, Level(10)),
            skill_req(Skill::Agility, Level(56)),
        ],
        rewards: vec![
            xp_reward(Skill::Agility, Xp(13750)),
        ],
    };
    q
}

/// The Ribbiting Tale of a Lily Pad Labour Dispute
fn the_ribbiting_tale_of_a_lily_pad_labour_dispute() -> (q: Quest)
    ensures
        q.id@ == "the_ribbiting_tale_of_a_lily_pad_labour_dispute"@,
        q.name@ == "The Ribbiting Tale of a Lily Pad Labour Dispute"@,
        q.quest_points == 1,
        q.requirements@.len() == 2,
        q.rewards@.len() == 1,
        q.wf(),
{
    let q = Quest {
        id: QuestId::new_static("the_ribbiting_tale_of_a_lily_pad_labour_dispute"),
        name: String::from_str("The Ribbiting Tale of a Lily Pad Labour Dispute"),
        quest_points: 1,
        requirements: vec![
            quest_req(QuestId::new_static("children_of_the_sun")),
            skill_req(Skill::Woodcutting, Level(15)),
        ],
        rewards: vec![
            xp_reward(Skill::Woodcutting, Xp(2000)),
        ],
    };
    q
}

/// Roving Elves
fn roving_elves() -> (q: Quest)
    ensures
        q.id@ == "roving_elves"@,
        q.name@ == "Roving Elves"@,
        q.quest_points == 1,
        q.requirements@.len() == 2,
        q.rewards@.len() == 1,
        q.wf(),
{
    let q = Quest {
        id: QuestId::new_static("roving_elves"),
        name: String::from_str("Roving Elves"),
        quest_points: 1,
        requirements: vec![
            quest_req(QuestId::new_static("regicide")),
            skill_req(Skill::Agility, Level(56)),
        ],
        rewards: vec![
            xp_reward(Skill::Strength, Xp(10000)),
        ],
    };
    q
}

/// Royal Trouble
fn royal_trouble() -> (q: Quest)
    ensures
        q.id@ == "royal_trouble"@,
        q.name@ == "Royal Trouble"@,
        q.quest_points == 1,
        q.requirements@.len() == 3,
        q.rewards@.len() == 3,
        q.wf(),
{
    let q = Quest {
        id: QuestId::new_static("royal_trouble"),
        name: String::from_str("Royal Trouble"),
        quest_points: 1,
        requirements: vec![
            quest_req(QuestId::new_static("throne_of_miscellania")),
            skill_req(Skill::Agility, Level(40)),
            skill_req(Skill::Slayer, Level(40)),
        ],
        rewards: vec![
            xp_reward(Skill::Agility, Xp(5000)),
            xp_reward(Skill::Slayer, Xp(5000)),
            xp_reward(Skill::Hitpoints, Xp(5000)),
        ],
    };
    q
}

/// Rum Deal
fn rum_deal() -> (q: Quest)
    ensures
        q.id@ == "rum_deal"@,
        q.name@ == "Rum Deal"@,
        q.quest_points == 2,
        q.requirements@.len() == 7,
        q.rewards@.len() == 3,
        q.wf(),
{
    let q = Quest {
        id: QuestId::new_static("rum_deal"),
        name: String::from_str("Rum Deal"),
        quest_points: 2,
        requirements: vec![
            quest_req(QuestId::new_static("zogre_flesh_eaters")),
            quest_req(QuestId::new_static("priest_in_peril")),
            skill_req(Skill::Crafting, Level(42)),
            skill_req(Skill::Fishing, Level(50)),
            skill_req(Skill::Farming, Level(40)),
            skill_req(Skill::Prayer, Level(47)),
            skill_req(Skill::Slayer, Level(42)),
        ],
        rewards: vec![
            xp_reward(Skill::Fishing, Xp(7000)),
            xp_reward(Skill::Prayer, Xp(7000)),
            xp_reward(Skill::Farming, Xp(7000)),
        ],
    };
    proof {
        reveal_strlit("priest_in_peril");
        reveal_strlit("zogre_flesh_eaters");
        assert(q.requirements@[0]->Quest_0@ == "zogre_flesh_eaters"@);
        assert(q.requirements@[1]->Quest_0@ == "priest_in_peril"@);
        assert(("zogre_flesh_eaters"@).len() != ("priest_in_peril"@).len());
        assert(("zogre_flesh_eaters"@) != ("priest_in_peril"@));
        assert(!req_like(q.requirements@[0], q.requirements@[1]));
    }
    q
}

/// Scorpion Catcher
fn scorpion_catcher() -> (q: Quest)
    ensures
        q.id@ == "scorpion_catcher"@,
        q.name@ == "Scorpion Catcher"@,
        q.quest_points == 1,
        q.requirements@.len() == 1,
        q.rewards@.len() == 1,
        q.wf(),
{
    let q = Quest {
        id: QuestId::new_static("scorpion_catcher"),
        name: String::from_str("Scorpion Catcher"),
        quest_points: 1,
        requirements: vec![
            skill_req(Skill::Prayer, Level(31)),
        ],
        rewards: vec![
            xp_reward(Skill::Strength, Xp(6625)),
        ],
    };
    q
}

/// Scrambled!
fn scrambled() -> (q: Quest)
    ensures
        q.id@ == "scrambled"@,
        q.name@ == "Scrambled!"@,
        q.quest_points == 1,
        q.requirements@.len() == 4,
        q.rewards@.len() == 3,
        q.wf(),
{
    let q = Quest {
        id: QuestId::new_static("scrambled"),
        name: String::from_str("Scrambled!"),
        quest_points: 1,
        requirements: vec![
            quest_req(QuestId::new_static("children_of_the_sun")),
            skill_req(Skill::Construction, Level(38)),
            skill_req(Skill::Cooking, Level(36)),
            skill_req(Skill::Smithing, Level(35)),
        ],
        rewards: vec![
            xp_reward(Skill::Construction, Xp(5000)),
            xp_reward(Skill::Cooking, Xp(5000)),
            xp_reward(Skill::Smithing, Xp(5000)),
        ],
    };
    q
}

/// Sea Slug
fn sea_slug() -> (q: Quest)
    ensures
        q.id@ == "sea_slug"@,
        q.name@ == "Sea Slug"@,
        q.quest_points == 1,
        q.requirements@.len() == 1,
        q.rewards@.len() == 1,
        q.wf(),
{
    let q = Quest {
        id: QuestId::new_static("sea_slug"),
        name: String::from_str("Sea Slug"),
        quest_points: 1,
        requirements: vec![
            skill_req(Skill::Firemaking, Level(30)),
        ],
        rewards: vec![
            xp_reward(Skill::Fishing, Xp(7175)),
        ],
    };
    q
}

/// Secrets of the North
fn secrets_of_the_north() -> (q: Quest)
    ensures
        q.id@ == "secrets_of_the_north"@,
        q.name@ == "Secrets of the North"@,
        q.quest_points == 2,
        q.requirements@.len() == 6,
        q.rewards@.len() == 3,
        q.wf(),
{
    let q = Quest {
        id: QuestId::new_static("secrets_of_the_north"),
        name: String::from_str("Secrets of the North"),
        quest_points: 2,
        requirements: vec![
            quest_req(QuestId::new_static("making_friends_with_my_arm")),
            quest_req(QuestId::new_static("devious_minds")),
            quest_req(QuestId::new_static("hazeel_cult")),
            skill_req(Skill::Agility, Level(69)),
            skill_req(Skill::Thieving, Level(64)),
            skill_req(Skill::Hunter, Level(56)),
        ],
        rewards: vec![
            xp_reward(Skill::Agility, Xp(60000)),
            xp_reward(Skill::Thieving, Xp(50000)),
            xp_reward(Skill::Hunter, Xp(40000)),
        ],
    };
    proof {
        reveal_strlit("devious_minds");
        reveal_strlit("hazeel_cult");
        reveal_strlit("making_friends_with_my_arm");
        assert(q.requirements@[0]->Quest_0@ == "making_friends_with_my_arm"@);
        assert(q.requirements@[1]->Quest_0@ == "devious_minds"@);
        assert(q.requirements@[2]->Quest_0@ == "hazeel_cult"@);
        assert(("making_friends_with_my_arm"@).len() != ("devious_minds"@).len());
        assert(("making_friends_with_my_arm"@) != ("devious_minds"@));
        assert(!req_like(q.requirements@[0], q.requirements@[1]));
        assert(("making_friends_with_my_arm"@).len() != ("hazeel_cult"@).len());
        assert(("making_friends_with_my_arm"@) != ("hazeel_cult"@));
        assert(!req_like(q.requirements@[0], q.requirements@[2]));
        assert(("devious_minds"@).len() != ("hazeel_cult"@).len());
        assert(("devious_minds"@) != ("hazeel_cult"@));
        assert(!req_like(q.requirements@[1], q.requirements@[2]));
    }
    q
}

/// Shades of Mort'ton
fn shades_of_mortton() -> (q: Quest)
    ensures
        q.id@ == "shades_of_mortton"@,
        q.name@ == "Shades of Mort'ton"@,
        q.quest_points == 3,
        q.requirements@.len() == 4,
        q.rewards@.len() == 2,
        q.wf(),
{
    let q = Quest {
        id: QuestId::new_static("shades_of_mortton"),
        name: String::from_str("Shades of Mort'ton"),
        quest_points: 3,
        requirements: vec![
            quest_req(QuestId::new_static("priest_in_peril")),
            skill_req(Skill::Crafting, Level(20)),
            skill_req(Skill::Herblore, Level(15)),
            skill_req(Skill::Firemaking, Level(5)),
        ],
        rewards: vec![
            xp_reward(Skill::Herblore, Xp(2000)),
            xp_reward(Skill::Crafting, Xp(2000)),
        ],
    };
    q
}

/// Shadow of the Storm
fn shadow_of_the_storm() -> (q: Quest)
    ensures
        q.id@ == "shadow_of_the_storm"@,
        q.name@ == "Shadow of the Storm"@,
        q.quest_points == 1,
        q.requirements@.len() == 3,
        q.rewards@.len() == 0,
        q.wf(),
{
    let q = Quest {
        id: QuestId::new_static("shadow_of_the_storm"),
        name: String::from_str("Shadow of the Storm"),
        quest_points: 1,
        requirements: vec![
            quest_req(QuestId::new_static("the_golem")),
            quest_req(QuestId::new_static("demon_slayer")),
            skill_req(Skill::Crafting, Level(30)),
        ],
        rewards: Vec::new(),
    };
    proof {
        reveal_strlit("demon_slayer");
        reveal_strlit("the_golem");
        assert(q.requirements@[0]->Quest_0@ == "the_golem"@);
        assert(q.requirements@[1]->Quest_0@ == "demon_slayer"@);
        assert(("the_golem"@).len() != ("demon_slayer"@).len());
        assert(("the_golem"@) != ("demon_slayer"@));
        assert(!req_like(q.requirements@[0], q.requirements@[1]));
    }
    q
}

/// Shadows of Custodia
fn shadows_of_custodia() -> (q: Quest)
    ensures
        q.id@ == "shadows_of_custodia"@,
        q.name@ == "Shadows of Custodia"@,
        q.quest_points == 2,
        q.requirements@.len() == 5,
        q.rewards@.len() == 4,
        q.wf(),
{
    let q = Quest {
        id: QuestId::new_static("shadows_of_custodia"),
        name: String::from_str("Shadows of Custodia"),
        quest_points: 2,
        requirements: vec![
            quest_req(QuestId::new_static("children_of_the_sun")),
            skill_req(Skill::Slayer, Level(54)),
            skill_req(Skill::Fishing, Level(45)),
            skill_req(Skill::Construction, Level(41)),
            skill_req(Skill::Hunter, Level(36)),
        ],
        rewards: vec![
            xp_reward(Skill::Slayer, Xp(10000)),
            xp_reward(Skill::Hunter, Xp(4000)),
            xp_reward(Skill::Fishing, Xp(3000)),
            xp_reward(Skill::Construction, Xp(3000)),
        ],
    };
    q
}

/// Sheep Herder
fn sheep_herder() -> (q: Quest)
    ensures
        q.id@ == "sheep_herder"@,
        q.name@ == "Sheep Herder"@,
        q.quest_points == 4,
        q.requirements@.len() == 0,
        q.rewards@.len() == 0,
        q.wf(),
{
    let q = Quest {
        id: QuestId::new_static("sheep_herder"),
        name: String::from_str("Sheep Herder"),
        quest_points: 4,
        requirements: Vec::new(),
        rewards: Vec::new(),
    };
    q
}

/// Shilo Village
fn shilo_village() -> (q: Quest)
    ensures
        q.id@ == "shilo_village"@,
        q.name@ == "Shilo Village"@,
        q.quest_points == 2,
        q.requirements@.len() == 3,
        q.rewards@.len() == 1,
        q.wf(),
{
    let q = Quest {
        id: QuestId::new_static("shilo_village"),
        name: String::from_str("Shilo Village"),
        quest_points: 2,
        requirements: vec![
            quest_req(QuestId::new_static("jungle_potion")),
            skill_req(Skill::Crafting, Level(20)),
            skill_req(Skill::Agility, Level(32)),
        ],
        rewards: vec![
            xp_reward(Skill::Crafting, Xp(3875)),
        ],
    };
    q
}

/// Sins of the Father
fn sins_of_the_father() -> (q: Quest)
    ensures
        q.id@ == "sins_of_the_father"@,
        q.name@ == "Sins of the Father"@,
        q.quest_points == 2,
        q.requirements@.len() == 9,
        q.rewards@.len() == 0,
        q.wf(),
{
    let q = Quest {
        id: QuestId::new_static("sins_of_the_father"),
        name: String::from_str("Sins of the Father"),
        quest_points: 2,
        requirements: vec![
            quest_req(QuestId::new_static("vampyre_slayer")),
            quest_req(QuestId::new_static("a_taste_of_hope")),
            skill_req(Skill::Woodcutting, Level(62)),
            skill_req(Skill::Fletching, Level(60)),
            skill_req(Skill::Crafting, Level(56)),
            skill_req(Skill::Agility, Level(52)),
            skill_req(Skill::Attack, Level(50)),
            skill_req(Skill::Slayer, Level(50)),
            skill_req(Skill::Magic, Level(49)),
        ],
        rewards: Vec::new(),
    };
    proof {
        reveal_strlit("a_taste_of_hope");
        reveal_strlit("vampyre_slayer");
        assert(q.requirements@[0]->Quest_0@ == "vampyre_slayer"@);
        assert(q.requirements@[1]->Quest_0@ == "a_taste_of_hope"@);
        assert(("vampyre_slayer"@).len() != ("a_taste_of_hope"@).len());
        assert(("vampyre_slayer"@) != ("a_taste_of_hope"@));
        assert(!req_like(q.requirements@[0], q.requirements@[1]));
    }
    q
}

/// Sleeping Giants
fn sleeping_giants() -> (q: Quest)
    ensures
        q.id@ == "sleeping_giants"@,
        q.name@ == "Sleeping Giants"@,
        q.quest_points == 1,
        q.requirements@.len() == 1,
        q.rewards@.len() == 1,
        q.wf(),
{
    let q = Quest {
        id: QuestId::new_static("sleeping_giants"),
        name: String::from_str("Sleeping Giants"),
        quest_points: 1,
        requirements: vec![
            skill_req(Skill::Smithing, Level(15)),
        ],
        rewards: vec![
            xp_reward(Skill::Smithing, Xp(6000)),
        ],
    };
    q
}

/// The Slug Menace
fn the_slug_menace() -> (q: Quest)
    ensures
        q.id@ == "the_slug_menace"@,
        q.name@ == "The Slug Menace"@,
        q.quest_points == 1,
        q.requirements@.len() == 6,
        q.rewards@.len() == 3,
        q.wf(),
{
    let q = Quest {
        id: QuestId::new_static("the_slug_menace"),
        name: String::from_str("The Slug Menace"),
        quest_points: 1,
        requirements: vec![
            quest_req(QuestId::new_static("wanted")),
            quest_req(QuestId::new_static("sea_slug")),
            skill_req(Skill::Crafting, Level(30)),
            skill_req(Skill::Runecraft, Level(30)),
            skill_req(Skill::Slayer, Level(30)),
            skill_req(Skill::Thieving, Level(30)),
        ],
        rewards: vec![
            xp_reward(Skill::Crafting, Xp(3500)),
            xp_reward(Skill::Runecraft, Xp(3500)),
            xp_reward(Skill::Thieving, Xp(3500)),
        ],
    };
    proof {
        reveal_strlit("sea_slug");
        reveal_strlit("wanted");
        assert(q.requirements@[0]->Quest_0@ == "wanted"@);
        assert(q.requirements@[1]->Quest_0@ == "sea_slug"@);
        assert(("wanted"@).len() != ("sea_slug"@).len());
        assert(("wanted"@) != ("sea_slug"@));
        assert(!req_like(q.requirements@[0], q.requirements@[1]));
    }
    q
}

/// Song of the Elves
fn song_of_the_elves() -> (q: Quest)
    ensures
        q.id@ == "song_of_the_elves"@,
        q.name@ == "Song of the Elves"@,
        q.quest_points == 4,
        q.requirements@.len() == 9,
        q.rewards@.len() == 8,
        q.wf(),
{
    let q = Quest {
        id: QuestId::new_static("song_of_the_elves"),
        name: String::from_str("Song of the Elves"),
        quest_points: 4,
        requirements: vec![
            quest_req(QuestId::new_static("mournings_end_part_ii")),
            skill_req(Skill::Agility, Level(70)),
            skill_req(Skill::Construction, Level(70)),
            skill_req(Skill::Farming, Level(70)),
            skill_req(Skill::Herblore, Level(70)),
            skill_req(Skill::Hunter, Level(70)),
            skill_req(Skill::Mining, Level(70)),
            skill_req(Skill::Smithing, Level(70)),
            skill_req(Skill::Woodcutting, Level(70)),
        ],
        rewards: vec![
            xp_reward(Skill::Agility, Xp(40000)),
            xp_reward(Skill::Construction, Xp(40000)),
            xp_reward(Skill::Farming, Xp(40000)),
            xp_reward(Skill::Herblore, Xp(40000)),
            xp_reward(Skill::Hunter, Xp(40000)),
            xp_reward(Skill::Mining, Xp(40000)),
            xp_reward(Skill::Smithing, Xp(40000)),
            xp_reward(Skill::Woodcutting, Xp(40000)),
        ],
    };
    q
}

/// A Soul's Bane
fn a_souls_bane() -> (q: Quest)
    ensures
        q.id@ == "a_souls_bane"@,
        q.name@ == "A Soul's Bane"@,
        q.quest_points == 1,
        q.requirements@.len() == 0,
        q.rewards@.len() == 2,
        q.wf(),
{
    let q = Quest {
        id: QuestId::new_static("a_souls_bane"),
        name: String::from_str("A Soul's Bane"),
        quest_points: 1,
        requirements: Vec::new(),
        rewards: vec![
            xp_reward(Skill::Defence, Xp(500)),
            xp_reward(Skill::Hitpoints, Xp(500)),
        ],
    };
    q
}

/// Spirits of the Elid
fn spirits_of_the_elid() -> (q: Quest)
    ensures
        q.id@ == "spirits_of_the_elid"@,
        q.name@ == "Spirits of the Elid"@,
        q.quest_points == 2,
        q.requirements@.len() == 4,
        q.rewards@.len() == 3,
        q.wf(),
{
    let q = Quest {
        id: QuestId::new_static("spirits_of_the_elid"),
        name: String::from_str("Spirits of the Elid"),
        quest_points: 2,
        requirements: vec![
            skill_req(Skill::Magic, Level(33)),
            skill_req(Skill::Ranged, Level(37)),
            skill_req(Skill::Mining, Level(37)),
            skill_req(Skill::Thieving, Level(37)),
        ],
        rewards: vec![
            xp_reward(Skill::Prayer, Xp(8000)),
            xp_reward(Skill::Thieving, Xp(1000)),
            xp_reward(Skill::Magic, Xp(1000)),
        ],
    };
    q
}

/// Swan Song
fn swan_song() -> (q: Quest)
    ensures
        q.id@ == "swan_song"@,
        q.name@ == "Swan Song"@,
        q.quest_points == 2,
        q.requirements@.len() == 9,
        q.rewards@.len() == 3,
        q.wf(),
{
    let q = Quest {
        id: QuestId::new_static("swan_song"),
        name: String::from_str("Swan Song"),
        quest_points: 2,
        requirements: vec![
            quest_point_req(100),
            quest_req(QuestId::new_static("one_small_favour")),
            quest_req(QuestId::new_static("garden_of_tranquillity")),
            skill_req(Skill::Magic, Level(66)),
            skill_req(Skill::Cooking, Level(62)),
            skill_req(Skill::Fishing, Level(62)),
            skill_req(Skill::Smithing, Level(45)),
            skill_req(Skill::Firemaking, Level(42)),
            skill_req(Skill::Crafting, Level(40)),
        ],
        rewards: vec![
            xp_reward(Skill::Magic, Xp(15000)),
            xp_reward(Skill::Prayer, Xp(10000)),
            xp_reward(Skill::Fishing, Xp(50000)),
        ],
    };
    proof {
        reveal_strlit("garden_of_tranquillity");
        reveal_strlit("one_small_favour");
        assert(q.requirements@[1]->Quest_0@ == "one_small_favour"@);
        assert(q.requirements@[2]->Quest_0@ == "garden_of_tranquillity"@);
        assert(("one_small_favour"@).len() != ("garden_of_tranquillity"@).len());
        assert(("one_small_favour"@) != ("garden_of_tranquillity"@));
        assert(!req_like(q.requirements@[1], q.requirements@[2]));
    }
    q
}

/// Tai Bwo Wannai Trio
fn tai_bwo_wannai_trio() -> (q: Quest)
    ensures
        q.id@ == "tai_bwo_wannai_trio"@,
        q.name@ == "Tai Bwo Wannai Trio"@,
        q.quest_points == 2,
        q.requirements@.len() == 4,
        q.rewards@.len() == 4,
        q.wf(),
{
    let q = Quest {
        id: QuestId::new_static("tai_bwo_wannai_trio"),
        name: String::from_str("Tai Bwo Wannai Trio"),
        quest_points: 2,
        requirements: vec![
            quest_req(QuestId::new_static("jungle_potion")),
            skill_req(Skill::Agility, Level(15)),
            skill_req(Skill::Cooking, Level(30)),
            skill_req(Skill::Fishing, Level(5)),
        ],
        rewards: vec![
            xp_reward(Skill::Cooking, Xp(5000)),
            xp_reward(Skill::Fishing, Xp(5000)),
            xp_reward(Skill::Attack, Xp(2500)),
            xp_reward(Skill::Strength, Xp(2500)),
        ],
    };
    q
}

/// A Tail of Two Cats
fn a_tail_of_two_cats() -> (q: Quest)
    ensures
        q.id@ == "a_tail_of_two_cats"@,
        q.name@ == "A Tail of Two Cats"@,
        q.quest_points == 2,
        q.requirements@.len() == 1,
        q.rewards@.len() == 0,
        q.wf(),
{
    let q = Quest {
        id: QuestId::new_static("a_tail_of_two_cats"),
        name: String::from_str("A Tail of Two Cats"),
        quest_points: 2,
        requirements: vec![
            quest_req(QuestId::new_static("icthlarins_little_helper")),
        ],
        rewards: Vec::new(),
    };
    q
}

/// Tale of the Righteous
fn tale_of_the_righteous() -> (q: Quest)
    ensures
        q.id@ == "tale_of_the_righteous"@,
        q.name@ == "Tale of the Righteous"@,
        q.quest_points == 1,
        q.requirements@.len() == 3,
        q.rewards@.len() == 0,
        q.wf(),
{
    let q = Quest {
        id: QuestId::new_static("tale_of_the_righteous"),
        name: String::from_str("Tale of the Righteous"),
        quest_points: 1,
        requirements: vec![
            quest_req(QuestId::new_static("client_of_kourend")),
            skill_req(Skill::Strength, Level(16)),
            skill_req(Skill::Mining, Level(10)),
        ],
        rewards: Vec::new(),
    };
    q
}

/// A Taste of Hope
fn a_taste_of_hope() -> (q: Quest)
    ensures
        q.id@ == "a_taste_of_hope"@,
        q.name@ == "A Taste of Hope"@,
        q.quest_points == 1,
        q.requirements@.len() == 6,
        q.rewards@.len() == 0,
        q.wf(),
{
    let q = Quest {
        id: QuestId::new_static("a_taste_of_hope"),
        name: String::from_str("A Taste of Hope"),
        quest_points: 1,
        requirements: vec![
            quest_req(QuestId::new_static("darkness_of_hallowvale")),
            skill_req(Skill::Crafting, Level(48)),
            skill_req(Skill::Agility, Level(45)),
            skill_req(Skill::Attack, Level(40)),
            skill_req(Skill::Herblore, Level(40)),
            skill_req(Skill::Slayer, Level(38)),
        ],
        rewards: Vec::new(),
    };
    q
}

/// Tears of Guthix
fn tears_of_guthix() -> (q: Quest)
    ensures
        q.id@ == "tears_of_guthix"@,
        q.name@ == "Tears of Guthix"@,
        q.quest_points == 1,
        q.requirements@.len() == 4,
        q.rewards@.len() == 1,
        q.wf(),
{
    let q = Quest {
        id: QuestId::new_static("tears_of_guthix"),
        name: String::from_str("Tears of Guthix"),
        quest_points: 1,
        requirements: vec![
            quest_point_req(43),
            skill_req(Skill::Firemaking, Level(49)),
            skill_req(Skill::Crafting, Level(20)),
            skill_req(Skill::Mining, Level(20)),
        ],
        rewards: vec![
            xp_reward(Skill::Crafting, Xp(1000)),
        ],
    };
    q
}

/// Temple of Ikov
fn temple_of_ikov() -> (q: Quest)
    ensures
        q.id@ == "temple_of_ikov"@,
        q.name@ == "Temple of Ikov"@,
        q.quest_points == 1,
        q.requirements@.len() == 2,
        q.rewards@.len() == 2,
        q.wf(),
{
    let q = Quest {
        id: QuestId::new_static("temple_of_ikov"),
        name: String::from_str("Temple of Ikov"),
        quest_points: 1,
        requirements: vec![
            skill_req(Skill::Thieving, Level(42)),
            skill_req(Skill::Ranged, Level(40)),
        ],
        rewards: vec![
            xp_reward(Skill::Ranged, Xp(10500)),
            xp_reward(Skill::Fletching, Xp(8000)),
        ],
    };
    q
}

/// Temple of the Eye
fn temple_of_the_eye() -> (q: Quest)
    ensures
        q.id@ == "temple_of_the_eye"@,
        q.name@ == "Temple of the Eye"@,
        q.quest_points == 1,
        q.requirements@.len() == 2,
        q.rewards@.len() == 1,
        q.wf(),
{
    let q = Quest {
        id: QuestId::new_static("temple_of_the_eye"),
        name: String::from_str("Temple of the Eye"),
        quest_points: 1,
        requirements: vec![
            quest_req(QuestId::new_static("rune_mysteries")),
            skill_req(Skill::Runecraft, Level(10)),
        ],
        rewards: vec![
            xp_reward(Skill::Runecraft, Xp(5000)),
        ],
    };
    q
}

/// Throne of Miscellania
fn throne_of_miscellania() -> (q: Quest)
    ensures
        q.id@ == "throne_of_miscellania"@,
        q.name@ == "Throne of Miscellania"@,
        q.quest_points == 1,
        q.requirements@.len() == 5,
        q.rewards@.len() == 0,
        q.wf(),
{
    let q = Quest {
        id: QuestId::new_static("throne_of_miscellania"),
        name: String::from_str("Throne of Miscellania"),
        quest_points: 1,
        requirements: vec![
            quest_req(QuestId::new_static("heroes_quest")),
            quest_req(QuestId::new_static("the_fremennik_trials")),
            skill_req(Skill::Woodcutting, Level(45)),
            skill_req(Skill::Farming, Level(10)),
            skill_req(Skill::Herblore, Level(35)),
        ],
        rewards: Vec::new(),
    };
    proof {
        reveal_strlit("heroes_quest");
        reveal_strlit("the_fremennik_trials");
        assert(q.requirements@[0]->Quest_0@ == "heroes_quest"@);
        assert(q.requirements@[1]->Quest_0@ == "the_fremennik_trials"@);
        assert(("heroes_quest"@).len() != ("the_fremennik_trials"@).len());
        assert(("heroes_quest"@) != ("the_fremennik_trials"@));
        assert(!req_like(q.requirements@[0], q.requirements@[1]));
    }
    q
}

/// The Tourist Trap
fn the_tourist_trap() -> (q: Quest)
    ensures
        q.id@ == "the_tourist_trap"@,
        q.name@ == "The Tourist Trap"@,
        q.quest_points == 2,
        q.requirements@.len() == 2,
        q.rewards@.len() == 0,
        q.wf(),
{
    let q = Quest {
        id: QuestId::new_static("the_tourist_trap"),
        name: String::from_str("The Tourist Trap"),
        quest_points: 2,
        requirements: vec![
            skill_req(Skill::Fletching, Level(10)),
            skill_req(Skill::Smithing, Level(20)),
        ],
        rewards: Vec::new(),
    };
    q
}

/// Tower of Life
fn tower_of_life() -> (q: Quest)
    ensures
        q.id@ == "tower_of_life"@,
        q.name@ == "Tower of Life"@,
        q.quest_points == 2,
        q.requirements@.len() == 1,
        q.rewards@.len() == 3,
        q.wf(),
{
    let q = Quest {
        id: QuestId::new_static("tower_of_life"),
        name: String::from_str("Tower of Life"),
        quest_points: 2,
        requirements: vec![
            skill_req(Skill::Construction, Level(10)),
        ],
        rewards: vec![
            xp_reward(Skill::Construction, Xp(1000)),
            xp_reward(Skill::Crafting, Xp(500)),
            xp_reward(Skill::Thieving, Xp(500)),
        ],
    };
    q
}

/// Tree Gnome Village
fn tree_gnome_village() -> (q: Quest)
    ensures
        q.id@ == "tree_gnome_village"@,
        q.name@ == "Tree Gnome Village"@,
        q.quest_points == 2,
        q.requirements@.len() == 0,
        q.rewards@.len() == 1,
        q.wf(),
{
    let q = Quest {
        id: QuestId::new_static("tree_gnome_village"),
        name: String::from_str("Tree Gnome Village"),
        quest_points: 2,
        requirements: Vec::new(),
        rewards: vec![
            xp_reward(Skill::Attack, Xp(11450)),
        ],
    };
    q
}

/// Tribal Totem
fn tribal_totem() -> (q: Quest)
    ensures
        q.id@ == "tribal_totem"@,
        q.name@ == "Tribal Totem"@,
        q.quest_points == 1,
        q.requirements@.len() == 1,
        q.rewards@.len() == 1,
        q.wf(),
{
    let q = Quest {
        id: QuestId::new_static("tribal_totem"),
        name: String::from_str("Tribal Totem"),
        quest_points: 1,
        requirements: vec![
            skill_req(Skill::Thieving, Level(21)),
        ],
        rewards: vec![
            xp_reward(Skill::Thieving, Xp(1775)),
        ],
    };
    q
}

/// Troll Romance
fn troll_romance() -> (q: Quest)
    ensures
        q.id@ == "troll_romance"@,
        q.name@ == "Troll Romance"@,
        q.quest_points == 2,
        q.requirements@.len() == 2,
        q.rewards@.len() == 2,
        q.wf(),
{
    let q = Quest {
        id: QuestId::new_static("troll_romance"),
        name: String::from_str("Troll Romance"),
        quest_points: 2,
        requirements: vec![
            quest_req(QuestId::new_static("troll_stronghold")),
            skill_req(Skill::Agility, Level(28)),
        ],
        rewards: vec![
            xp_reward(Skill::Agility, Xp(8000)),
            xp_reward(Skill::Strength, Xp(4000)),
        ],
    };
    q
}

/// Troll Stronghold
fn troll_stronghold() -> (q: Quest)
    ensures
        q.id@ == "troll_stronghold"@,
        q.name@ == "Troll Stronghold"@,
        q.quest_points == 1,
        q.requirements@.len() == 2,
        q.rewards@.len() == 0,
        q.wf(),
{
    let q = Quest {
        id: QuestId::new_static("troll_stronghold"),
        name: String::from_str("Troll Stronghold"),
        quest_points: 1,
        requirements: vec![
            quest_req(QuestId::new_static("death_plateau")),
            skill_req(Skill::Agility, Level(15)),
        ],
        rewards: Vec::new(),
    };
    q
}

/// Troubled Tortugans
fn troubled_tortugans() -> (q: Quest)
    ensures
        q.id@ == "troubled_tortugans"@,
        q.name@ == "Troubled Tortugans"@,
        q.quest_points == 1,
        q.requirements@.len() == 7,
        q.rewards@.len() == 2,
        q.wf(),
{
    let q = Quest {
        id: QuestId::new_static("troubled_tortugans"),
        name: String::from_str("Troubled Tortugans"),
        quest_points: 1,
        requirements: vec![
            quest_req(QuestId::new_static("pandemonium")),
            skill_req(Skill::Slayer, Level(51)),
            skill_req(Skill::Construction, Level(48)),
            skill_req(Skill::Sailing, Level(45)),
            skill_req(Skill::Hunter, Level(45)),
            skill_req(Skill::Woodcutting, Level(40)),
            skill_req(Skill::Crafting, Level(34)),
        ],
        rewards: vec![
            xp_reward(Skill::Sailing, Xp(10000)),
            xp_reward(Skill::Slayer, Xp(8000)),
        ],
    };
    q
}

/// Twilight's Promise
fn twilights_promise() -> (q: Quest)
    ensures
        q.id@ == "twilights_promise"@,
        q.name@ == "Twilight's Promise"@,
        q.quest_points == 1,
        q.requirements@.len() == 1,
        q.rewards@.len() == 1,
        q.wf(),
{
    let q = Quest {
        id: QuestId::new_static("twilights_promise"),
        name: String::from_str("Twilight's Promise"),
        quest_points: 1,
        requirements: vec![
            quest_req(QuestId::new_static("children_of_the_sun")),
        ],
        rewards: vec![
            xp_reward(Skill::Thieving, Xp(3000)),
        ],
    };
    q
}

/// Underground Pass
fn underground_pass() -> (q: Quest)
    ensures
        q.id@ == "underground_pass"@,
        q.name@ == "Underground Pass"@,
        q.quest_points == 5,
        q.requirements@.len() == 2,
        q.rewards@.len() == 2,
        q.wf(),
{
    let q = Quest {
        id: QuestId::new_static("underground_pass"),
        name: String::from_str("Underground Pass"),
        quest_points: 5,
        requirements: vec![
            quest_req(QuestId::new_static("biohazard")),
            skill_req(Skill::Ranged, Level(25)),
        ],
        rewards: vec![
            xp_reward(Skill::Agility, Xp(3000)),
            xp_reward(Skill::Attack, Xp(3000)),
        ],
    };
    q
}

/// Wanted!
fn wanted() -> (q: Quest)
    ensures
        q.id@ == "wanted"@,
        q.name@ == "Wanted!"@,
        q.quest_points == 1,
        q.requirements@.len() == 4,
        q.rewards@.len() == 1,
        q.wf(),
{
    let q = Quest {
        id: QuestId::new_static("wanted"),
        name: String::from_str("Wanted!"),
        quest_points: 1,
        requirements: vec![
            quest_point_req(32),
            quest_req(QuestId::new_static("recruitment_drive")),
            quest_req(QuestId::new_static("the_lost_tribe")),
            quest_req(QuestId::new_static("priest_in_peril")),
        ],
        rewards: vec![
            xp_reward(Skill::Slayer, Xp(5000)),
        ],
    };
    proof {
        reveal_strlit("priest_in_peril");
        reveal_strlit("recruitment_drive");
        reveal_strlit("the_lost_tribe");
        assert(q.requirements@[1]->Quest_0@ == "recruitment_drive"@);
        assert(q.requirements@[2]->Quest_0@ == "the_lost_tribe"@);
        assert(q.requirements@[3]->Quest_0@ == "priest_in_peril"@);
        assert(("recruitment_drive"@).len() != ("the_lost_tribe"@).len());
        assert(("recruitment_drive"@) != ("the_lost_tribe"@));
        assert(!req_like(q.requirements@[1], q.requirements@[2]));
        assert(("recruitment_drive"@).len() != ("priest_in_peril"@).len());
        assert(("recruitment_drive"@) != ("priest_in_peril"@));
        assert(!req_like(q.requirements@[1], q.requirements@[3]));
        assert(("the_lost_tribe"@).len() != ("priest_in_peril"@).len());
        assert(("the_lost_tribe"@) != ("priest_in_peril"@));
        assert(!req_like(q.requirements@[2], q.requirements@[3]));
    }
    q
}

/// Watchtower
fn watchtower() -> (q: Quest)
    ensures
        q.id@ == "watchtower"@,
        q.name@ == "Watchtower"@,
        q.quest_points == 4,
        q.requirements@.len() == 5,
        q.rewards@.len() == 1,
        q.wf(),
{
    let q = Quest {
        id: QuestId::new_static("watchtower"),
        name: String::from_str("Watchtower"),
        quest_points: 4,
        requirements: vec![
            skill_req(Skill::Magic, Level(14)),
            skill_req(Skill::Thieving, Level(15)),
            skill_req(Skill::Agility, Level(25)),
            skill_req(Skill::Herblore, Level(14)),
            skill_req(Skill::Mining, Level(40)),
        ],
        rewards: vec![
            xp_reward(Skill::Magic, Xp(15250)),
        ],
    };
    q
}

/// Waterfall Quest
fn waterfall_quest() -> (q: Quest)
    ensures
        q.id@ == "waterfall_quest"@,
        q.name@ == "Waterfall Quest"@,
        q.quest_points == 1,
        q.requirements@.len() == 0,
        q.rewards@.len() == 2,
        q.wf(),
{
    let q = Quest {
        id: QuestId::new_static("waterfall_quest"),
        name: String::from_str("Waterfall Quest"),
        quest_points: 1,
        requirements: Vec::new(),
        rewards: vec![
            xp_reward(Skill::Strength, Xp(13750)),
            xp_reward(Skill::Attack, Xp(13750)),
        ],
    };
    q
}

/// What Lies Below
fn what_lies_below() -> (q: Quest)
    ensures
        q.id@ == "what_lies_below"@,
        q.name@ == "What Lies Below"@,
        q.quest_points == 1,
        q.requirements@.len() == 2,
        q.rewards@.len() == 2,
        q.wf(),
{
    let q = Quest {
        id: QuestId::new_static("what_lies_below"),
        name: String::from_str("What Lies Below"),
        quest_points: 1,
        requirements: vec![
            quest_req(QuestId::new_static("rune_mysteries")),
            skill_req(Skill::Runecraft, Level(35)),
        ],
        rewards: vec![
            xp_reward(Skill::Runecraft, Xp(8000)),
            xp_reward(Skill::Defence, Xp(2000)),
        ],
    };
    q
}

/// While Guthix Sleeps
fn while_guthix_sleeps() -> (q: Quest)
    ensures
        q.id@ == "while_guthix_sleeps"@,
        q.name@ == "While Guthix Sleeps"@,
        q.quest_points == 5,
        q.requirements@.len() == 16,
        q.rewards@.len() == 4,
        q.wf(),
{
    let q = Quest {
        id: QuestId::new_static("while_guthix_sleeps"),
        name: String::from_str("While Guthix Sleeps"),
        quest_points: 5,
        requirements: vec![
            quest_point_req(180),
            quest_req(QuestId::new_static("defender_of_varrock")),
            quest_req(QuestId::new_static("the_path_of_glouphrie")),
            quest_req(QuestId::new_static("fight_arena")),
            quest_req(QuestId::new_static("dream_mentor")),
            quest_req(QuestId::new_static("the_hand_in_the_sand")),
            quest_req(QuestId::new_static("wanted")),
            quest_req(QuestId::new_static("temple_of_the_eye")),
            quest_req(QuestId::new_static("tears_of_guthix")),
            quest_req(QuestId::new_static("a_tail_of_two_cats")),
            skill_req(Skill::Thieving, Level(72)),
            skill_req(Skill::Magic, Level(67)),
            skill_req(Skill::Agility, Level(66)),
            skill_req(Skill::Farming, Level(65)),
            skill_req(Skill::Herblore, Level(65)),
            skill_req(Skill::Hunter, Level(62)),
        ],
        rewards: vec![
            xp_reward(Skill::Thieving, Xp(80000)),
            xp_reward(Skill::Farming, Xp(75000)),
            xp_reward(Skill::Herblore, Xp(75000)),
            xp_reward(Skill::Hunter, Xp(50000)),
        ],
    };
    proof {
        reveal_strlit("a_tail_of_two_cats");
        reveal_strlit("defender_of_varrock");
        reveal_strlit("dream_mentor");
        reveal_strlit("fight_arena");
        reveal_strlit("tears_of_guthix");
        reveal_strlit("temple_of_the_eye");
        reveal_strlit("the_hand_in_the_sand");
        reveal_strlit("the_path_of_glouphrie");
        reveal_strlit("wanted");
        assert(q.requirements@[1]->Quest_0@ == "defender_of_varrock"@);
        assert(q.requirements@[2]->Quest_0@ == "the_path_of_glouphrie"@);
        assert(q.requirements@[3]->Quest_0@ == "fight_arena"@);
        assert(q.requirements@[4]->Quest_0@ == "dream_mentor"@);
        assert(q.requirements@[5]->Quest_0@ == "the_hand_in_the_sand"@);
        assert(q.requirements@[6]->Quest_0@ == "wanted"@);
        assert(q.requirements@[7]->Quest_0@ == "temple_of_the_eye"@);
        assert(q.requirements@[8]->Quest_0@ == "tears_of_guthix"@);
        assert(q.requirements@[9]->Quest_0@ == "a_tail_of_two_cats"@);
        assert(("defender_of_varrock"@).len() != ("the_path_of_glouphrie"@).len());
        assert(("defender_of_varrock"@) != ("the_path_of_glouphrie"@));
        assert(!req_like(q.requirements@[1], q.requirements@[2]));
        assert(("defender_of_varrock"@).len() != ("fight_arena"@).len());
        assert(("defender_of_varrock"@) != ("fight_arena"@));
        assert(!req_like(q.requirements@[1], q.requirements@[3]));
        assert(("defender_of_varrock"@).len() != ("dream_mentor"@).len());
        assert(("defender_of_varrock"@) != ("dream_mentor"@));
        assert(!req_like(q.requirements@[1], q.requirements@[4]));
        assert(("defender_of_varrock"@).len() != ("the_hand_in_the_sand"@).len());
        assert(("defender_of_varrock"@) != ("the_hand_in_the_sand"@));
        assert(!req_like(q.requirements@[1], q.requirements@[5]));
        assert(("defender_of_varrock"@).len() != ("wanted"@).len());
        assert(("defender_of_varrock"@) != ("wanted"@));
        assert(!req_like(q.requirements@[1], q.requirements@[6]));
        assert(("defender_of_varrock"@).len() != ("temple_of_the_eye"@).len());
        assert(("defender_of_varrock"@) != ("temple_of_the_eye"@));
        assert(!req_like(q.requirements@[1], q.requirements@[7]));
        assert(("defender_of_varrock"@).len() != ("tears_of_guthix"@).len());
        assert(("defender_of_varrock"@) != ("tears_of_guthix"@));
        assert(!req_like(q.requirements@[1], q.requirements@[8]));
        assert(("defender_of_varrock"@).len() != ("a_tail_of_two_cats"@).len());
        assert(("defender_of_varrock"@) != ("a_tail_of_two_cats"@));
        assert(!req_like(q.requirements@[1], q.requirements@[9]));
        assert(("the_path_of_glouphrie"@).len() != ("fight_arena"@).len());
        assert(("the_path_of_glouphrie"@) != ("fight_arena"@));
        assert(!req_like(q.requirements@[2], q.requirements@[3]));
        assert(("the_path_of_glouphrie"@).len() != ("dream_mentor"@).len());
        assert(("the_path_of_glouphrie"@) != ("dream_mentor"@));
        assert(!req_like(q.requirements@[2], q.requirements@[4]));
        assert(("the_path_of_glouphrie"@).len() != ("the_hand_in_the_sand"@).len());
        assert(("the_path_of_glouphrie"@) != ("the_hand_in_the_sand"@));
        assert(!req_like(q.requirements@[2], q.requirements@[5]));
        assert(("the_path_of_glouphrie"@).len() != ("wanted"@).len());
        assert(("the_path_of_glouphrie"@) != ("wanted"@));
        assert(!req_like(q.requirements@[2], q.requirements@[6]));
        assert(("the_path_of_glouphrie"@).len() != ("temple_of_the_eye"@).len());
        assert(("the_path_of_glouphrie"@) != ("temple_of_the_eye"@));
        assert(!req_like(q.requirements@[2], q.requirements@[7]));
        assert(("the_path_of_glouphrie"@).len() != ("tears_of_guthix"@).len());
        assert(("the_path_of_glouphrie"@) != ("tears_of_guthix"@));
        assert(!req_like(q.requirements@[2], q.requirements@[8]));
        assert(("the_path_of_glouphrie"@).len() != ("a_tail_of_two_cats"@).len());
        assert(("the_path_of_glouphrie"@) != ("a_tail_of_two_cats"@));
        assert(!req_like(q.requirements@[2], q.requirements@[9]));
        assert(("fight_arena"@).len() != ("dream_mentor"@).len());
        assert(("fight_arena"@) != ("dream_mentor"@));
        assert(!req_like(q.requirements@[3], q.requirements@[4]));
        assert(("fight_arena"@).len() != ("the_hand_in_the_sand"@).len());
        assert(("fight_arena"@) != ("the_hand_in_the_sand"@));
        assert(!req_like(q.requirements@[3], q.requirements@[5]));
        assert(("fight_arena"@).len() != ("wanted"@).len());
        assert(("fight_arena"@) != ("wanted"@));
        assert(!req_like(q.requirements@[3], q.requirements@[6]));
        assert(("fight_arena"@).len() != ("temple_of_the_eye"@).len());
        assert(("fight_arena"@) != ("temple_of_the_eye"@));
        assert(!req_like(q.requirements@[3], q.requirements@[7]));
        assert(("fight_arena"@).len() != ("tears_of_guthix"@).len());
        assert(("fight_arena"@) != ("tears_of_guthix"@));
        assert(!req_like(q.requirements@[3], q.requirements@[8]));
        assert(("fight_arena"@).len() != ("a_tail_of_two_cats"@).len());
        assert(("fight_arena"@) != ("a_tail_of_two_cats"@));
        assert(!req_like(q.requirements@[3], q.requirements@[9]));
        assert(("dream_mentor"@).len() != ("the_hand_in_the_sand"@).len());
        assert(("dream_mentor"@) != ("the_hand_in_the_sand"@));
        assert(!req_like(q.requirements@[4], q.requirements@[5]));
        assert(("dream_mentor"@).len() != ("wanted"@).len());
        assert(("dream_mentor"@) != ("wanted"@));
        assert(!req_like(q.requirements@[4], q.requirements@[6]));
        assert(("dream_mentor"@).len() != ("temple_of_the_eye"@).len());
        assert(("dream_mentor"@) != ("temple_of_the_eye"@));
        assert(!req_like(q.requirements@[4], q.requirements@[7]));
        assert(("dream_mentor"@).len() != ("tears_of_guthix"@).len());
        assert(("dream_mentor"@) != ("tears_of_guthix"@));
        assert(!req_like(q.requirements@[4], q.requirements@[8]));
        assert(("dream_mentor"@).len() != ("a_tail_of_two_cats"@).len());
        assert(("dream_mentor"@) != ("a_tail_of_two_cats"@));
        assert(!req_like(q.requirements@[4], q.requirements@[9]));
        assert(("the_hand_in_the_sand"@).len() != ("wanted"@).len());
        assert(("the_hand_in_the_sand"@) != ("wanted"@));
        assert(!req_like(q.requirements@[5], q.requirements@[6]));
        assert(("the_hand_in_the_sand"@).len() != ("temple_of_the_eye"@).len());
        assert(("the_hand_in_the_sand"@) != ("temple_of_the_eye"@));
        assert(!req_like(q.requirements@[5], q.requirements@[7]));
        assert(("the_hand_in_the_sand"@).len() != ("tears_of_guthix"@).len());
        assert(("the_hand_in_the_sand"@) != ("tears_of_guthix"@));
        assert(!req_like(q.requirements@[5], q.requirements@[8]));
        assert(("the_hand_in_the_sand"@).len() != ("a_tail_of_two_cats"@).len());
        assert(("the_hand_in_the_sand"@) != ("a_tail_of_two_cats"@));
        assert(!req_like(q.requirements@[5], q.requirements@[9]));
        assert(("wanted"@).len() != ("temple_of_the_eye"@).len());
        assert(("wanted"@) != ("temple_of_the_eye"@));
        assert(!req_like(q.requirements@[6], q.requirements@[7]));
        assert(("wanted"@).len() != ("tears_of_guthix"@).len());
        assert(("wanted"@) != ("tears_of_guthix"@));
        assert(!req_like(q.requirements@[6], q.requirements@[8]));
        assert(("wanted"@).len() != ("a_tail_of_two_cats"@).len());
        assert(("wanted"@) != ("a_tail_of_two_cats"@));
        assert(!req_like(q.requirements@[6], q.requirements@[9]));
        assert(("temple_of_the_eye"@).len() != ("tears_of_guthix"@).len());
        assert(("temple_of_the_eye"@) != ("tears_of_guthix"@));
        assert(!req_like(q.requirements@[7], q.requirements@[8]));
        assert(("temple_of_the_eye"@).len() != ("a_tail_of_two_cats"@).len());
        assert(("temple_of_the_eye"@) != ("a_tail_of_two_cats"@));
        assert(!req_like(q.requirements@[7], q.requirements@[9]));
        assert(("tears_of_guthix"@).len() != ("a_tail_of_two_cats"@).len());
        assert(("tears_of_guthix"@) != ("a_tail_of_two_cats"@));
        assert(!req_like(q.requirements@[8], q.requirements@[9]));
    }
    q
}

/// Witch's House
fn witchs_house() -> (q: Quest)
    ensures
        q.id@ == "witchs_house"@,
        q.name@ == "Witch's House"@,
        q.quest_points == 4,
        q.requirements@.len() == 0,
        q.rewards@.len() == 1,
        q.wf(),
{
    let q = Quest {
        id: QuestId::new_static("witchs_house"),
        name: String::from_str("Witch's House"),
        quest_points: 4,
        requirements: Vec::new(),
        rewards: vec![
            xp_reward(Skill::Hitpoints, Xp(6325)),
        ],
    };
    q
}

/// Zogre Flesh Eaters
fn zogre_flesh_eaters() -> (q: Quest)
    ensures
        q.id@ == "zogre_flesh_eaters"@,
        q.name@ == "Zogre Flesh Eaters"@,
        q.quest_points == 1,
        q.requirements@.len() == 5,
        q.rewards@.len() == 3,
        q.wf(),
{
    let q = Quest {
        id: QuestId::new_static("zogre_flesh_eaters"),
        name: String::from_str("Zogre Flesh Eaters"),
        quest_points: 1,
        requirements: vec![
            quest_req(QuestId::new_static("big_chompy_bird_hunting")),
            quest_req(QuestId::new_static("jungle_potion")),
            skill_req(Skill::Smithing, Level(4)),
            skill_req(Skill::Herblore, Level(8)),
            skill_req(Skill::Ranged, Level(30)),
        ],
        rewards: vec![
            xp_reward(Skill::Fletching, Xp(2000)),
            xp_reward(Skill::Ranged, Xp(2000)),
            xp_reward(Skill::Herblore, Xp(2000)),
        ],
    };
    proof {
        reveal_strlit("big_chompy_bird_hunting");
        reveal_strlit("jungle_potion");
        assert(q.requirements@[0]->Quest_0@ == "big_chompy_bird_hunting"@);
        assert(q.requirements@[1]->Quest_0@ == "jungle_potion"@);
        assert(("big_chompy_bird_hunting"@).len() != ("jungle_potion"@).len());
        assert(("big_chompy_bird_hunting"@) != ("jungle_potion"@));
        assert(!req_like(q.requirements@[0], q.requirements@[1]));
    }
    q
}

pub open spec fn quest_chunk_ids_0() -> Seq<Seq<char>> {
    seq!["below_ice_mountain"@, "black_knights_fortress"@, "cooks_assistant"@, "the_corsair_curse"@, "demon_slayer"@, "dorics_quest"@, "dragon_slayer_i"@, "ernest_the_chicken"@, "goblin_diplomacy"@, "imp_catcher"@, "the_knights_sword"@, "misthalin_mystery"@, "pirates_treasure"@, "prince_ali_rescue"@, "the_restless_ghost"@, "romeo_and_juliet"@, "rune_mysteries"@, "sheep_shearer"@, "shield_of_arrav"@, "vampyre_slayer"@]
}

pub open spec fn quest_chunk_points_0() -> Seq<int> {
    seq![1, 3, 1, 2, 3, 1, 2, 4, 5, 1, 1, 1, 2, 3, 1, 5, 1, 1, 1, 3]
}

fn quest_chunk_0() -> (v: Vec<Quest>)
    ensures
        v@.len() == 20,
        forall|k: int| 0 <= k < v@.len() ==> (#[trigger] v@[k]).wf(),
        forall|k: int| 0 <= k < v@.len() ==> (#[trigger] v@[k]).id@ == quest_chunk_ids_0()[k],
        forall|k: int|
            0 <= k < v@.len() ==> (#[trigger] v@[k]).quest_points as int == quest_chunk_points_0()[k],
{
    let mut v: Vec<Quest> = Vec::new();
    v.push(below_ice_mountain());
    v.push(black_knights_fortress());
    v.push(cooks_assistant());
    v.push(the_corsair_curse());
    v.push(demon_slayer());
    v.push(dorics_quest());
    v.push(dragon_slayer_i());
    v.push(ernest_the_chicken());
    v.push(goblin_diplomacy());
    v.push(imp_catcher());
    v.push(the_knights_sword());
    v.push(misthalin_mystery());
    v.push(pirates_treasure());
    v.push(prince_ali_rescue());
    v.push(the_restless_ghost());
    v.push(romeo_and_juliet());
    v.push(rune_mysteries());
    v.push(sheep_shearer());
    v.push(shield_of_arrav());
    v.push(vampyre_slayer());
    v
}

pub open spec fn quest_chunk_ids_1() -> Seq<Seq<char>> {
    seq!["witchs_potion"@, "x_marks_the_spot"@, "animal_magnetism"@, "another_slice_of_ham"@, "the_ascent_of_arceuus"@, "at_first_light"@, "beneath_cursed_sands"@, "between_a_rock"@, "big_chompy_bird_hunting"@, "biohazard"@, "bone_voyage"@, "cabin_fever"@, "children_of_the_sun"@, "client_of_kourend"@, "clock_tower"@, "cold_war"@, "contact"@, "creature_of_fenkenstrain"@, "current_affairs"@, "the_curse_of_arrav"@]
}

pub open spec fn quest_chunk_points_1() -> Seq<int> {
    seq![1, 1, 1, 1, 1, 1, 2, 2, 2, 3, 1, 2, 1, 1, 1, 1, 1, 2, 1, 2]
}

fn quest_chunk_1() -> (v: Vec<Quest>)
    ensures
        v@.len() == 20,
        forall|k: int| 0 <= k < v@.len() ==> (#[trigger] v@[k]).wf(),
        forall|k: int| 0 <= k < v@.len() ==> (#[trigger] v@[k]).id@ == quest_chunk_ids_1()[k],
        forall|k: int|
            0 <= k < v@.len() ==> (#[trigger] v@[k]).quest_points as int == quest_chunk_points_1()[k],
{
    let mut v: Vec<Quest> = Vec::new();
    v.push(witchs_potion());
    v.push(x_marks_the_spot());
    v.push(animal_magnetism());
    v.push(another_slice_of_ham());
    v.push(the_ascent_of_arceuus());
    v.push(at_first_light());
    v.push(beneath_cursed_sands());
    v.push(between_a_rock());
    v.push(big_chompy_bird_hunting());
    v.push(biohazard());
    v.push(bone_voyage());
    v.push(cabin_fever());
    v.push(children_of_the_sun());
    v.push(client_of_kourend());
    v.push(clock_tower());
    v.push(cold_war());
    v.push(contact());
    v.push(creature_of_fenkenstrain());
    v.push(current_affairs());
    v.push(the_curse_of_arrav());
    v
}

pub open spec fn quest_chunk_ids_2() -> Seq<Seq<char>> {
    seq!["darkness_of_hallowvale"@, "death_on_the_isle"@, "death_plateau"@, "death_to_the_dorgeshuun"@, "defender_of_varrock"@, "the_depths_of_despair"@, "desert_treasure_i"@, "desert_treasure_ii"@, "devious_minds"@, "the_dig_site"@, "dragon_slayer_ii"@, "dream_mentor"@, "druidic_ritual"@, "dwarf_cannon"@, "eadgars_ruse"@, "eagles_peak"@, "elemental_workshop_i"@, "elemental_workshop_ii"@, "enakhras_lament"@, "enlightened_journey"@]
}

pub open spec fn quest_chunk_points_2() -> Seq<int> {
    seq![2, 2, 1, 1, 2, 1, 3, 5, 1, 2, 5, 2, 4, 1, 1, 2, 1, 1, 2, 1]
}

fn quest_chunk_2() -> (v: Vec<Quest>)
    ensures
        v@.len() == 20,
        forall|k: int| 0 <= k < v@.len() ==> (#[trigger] v@[k]).wf(),
        forall|k: int| 0 <= k < v@.len() ==> (#[trigger] v@[k]).id@ == quest_chunk_ids_2()[k],
        forall|k: int|
            0 <= k < v@.len() ==> (#[trigger] v@[k]).quest_points as int == quest_chunk_points_2()[k],
{
    let mut v: Vec<Quest> = Vec::new();
    v.push(darkness_of_hallowvale());
    v.push(death_on_the_isle());
    v.push(death_plateau());
    v.push(death_to_the_dorgeshuun());
    v.push(defender_of_varrock());
    v.push(the_depths_of_despair());
    v.push(desert_treasure_i());
    v.push(desert_treasure_ii());
    v.push(devious_minds());
    v.push(the_dig_site());
    v.push(dragon_slayer_ii());
    v.push(dream_mentor());
    v.push(druidic_ritual());
    v.push(dwarf_cannon());
    v.push(eadgars_ruse());
    v.push(eagles_peak());
    v.push(elemental_workshop_i());
    v.push(elemental_workshop_ii());
    v.push(enakhras_lament());
    v.push(enlightened_journey());
    v
}

pub open spec fn quest_chunk_ids_3() -> Seq<Seq<char>> {
    seq!["ethically_acquired_antiquities"@, "the_eyes_of_glouphrie"@, "fairytale_i"@, "fairytale_ii"@, "family_crest"@, "the_feud"@, "fight_arena"@, "the_final_dawn"@, "fishing_contest"@, "forgettable_tale"@, "the_forsaken_tower"@, "the_fremennik_exiles"@, "the_fremennik_isles"@, "the_fremennik_trials"@, "the_garden_of_death"@, "garden_of_tranquillity"@, "gertrudes_cat"@, "getting_ahead"@, "ghosts_ahoy"@, "the_giant_dwarf"@]
}

pub open spec fn quest_chunk_points_3() -> Seq<int> {
    seq![1, 2, 2, 2, 1, 1, 2, 3, 1, 2, 1, 2, 1, 3, 1, 2, 1, 1, 2, 2]
}

fn quest_chunk_3() -> (v: Vec<Quest>)
    ensures
        v@.len() == 20,
        forall|k: int| 0 <= k < v@.len() ==> (#[trigger] v@[k]).wf(),
        forall|k: int| 0 <= k < v@.len() ==> (#[trigger] v@[k]).id@ == quest_chunk_ids_3()[k],
        forall|k: int|
            0 <= k < v@.len() ==> (#[trigger] v@[k]).quest_points as int == quest_chunk_points_3()[k],
{
    let mut v: Vec<Quest> = Vec::new();
    v.push(ethically_acquired_antiquities());
    v.push(the_eyes_of_glouphrie());
    v.push(fairytale_i());
    v.push(fairytale_ii());
    v.push(family_crest());
    v.push(the_feud());
    v.push(fight_arena());
    v.push(the_final_dawn());
    v.push(fishing_contest());
    v.push(forgettable_tale());
    v.push(the_forsaken_tower());
    v.push(the_fremennik_exiles());
    v.push(the_fremennik_isles());
    v.push(the_fremennik_trials());
    v.push(the_garden_of_death());
    v.push(garden_of_tranquillity());
    v.push(gertrudes_cat());
    v.push(getting_ahead());
    v.push(ghosts_ahoy());
    v.push(the_giant_dwarf());
    v
}

pub open spec fn quest_chunk_ids_4() -> Seq<Seq<char>> {
    seq!["the_golem"@, "the_grand_tree"@, "the_great_brain_robbery"@, "grim_tales"@, "the_hand_in_the_sand"@, "haunted_mine"@, "hazeel_cult"@, "the_heart_of_darkness"@, "heroes_quest"@, "holy_grail"@, "horror_from_the_deep"@, "icthlarins_little_helper"@, "in_aid_of_the_myreque"@, "in_search_of_the_myreque"@, "jungle_potion"@, "kings_ransom"@, "a_kingdom_divided"@, "land_of_the_goblins"@, "legends_quest"@, "lost_city"@]
}

pub open spec fn quest_chunk_points_4() -> Seq<int> {
    seq![1, 5, 2, 1, 1, 2, 1, 2, 1, 2, 2, 2, 2, 2, 1, 1, 2, 2, 4, 3]
}

fn quest_chunk_4() -> (v: Vec<Quest>)
    ensures
        v@.len() == 20,
        forall|k: int| 0 <= k < v@.len() ==> (#[trigger] v@[k]).wf(),
        forall|k: int| 0 <= k < v@.len() ==> (#[trigger] v@[k]).id@ == quest_chunk_ids_4()[k],
        forall|k: int|
            0 <= k < v@.len() ==> (#[trigger] v@[k]).quest_points as int == quest_chunk_points_4()[k],
{
    let mut v: Vec<Quest> = Vec::new();
    v.push(the_golem());
    v.push(the_grand_tree());
    v.push(the_great_brain_robbery());
    v.push(grim_tales());
    v.push(the_hand_in_the_sand());
    v.push(haunted_mine());
    v.push(hazeel_cult());
    v.push(the_heart_of_darkness());
    v.push(heroes_quest());
    v.push(holy_grail());
    v.push(horror_from_the_deep());
    v.push(icthlarins_little_helper());
    v.push(in_aid_of_the_myreque());
    v.push(in_search_of_the_myreque());
    v.push(jungle_potion());
    v.push(kings_ransom());
    v.push(a_kingdom_divided());
    v.push(land_of_the_goblins());
    v.push(legends_quest());
    v.push(lost_city());
    v
}

pub open spec fn quest_chunk_ids_5() -> Seq<Seq<char>> {
    seq!["the_lost_tribe"@, "lunar_diplomacy"@, "making_friends_with_my_arm"@, "making_history"@, "meat_and_greet"@, "merlins_crystal"@, "monks_friend"@, "monkey_madness_i"@, "monkey_madness_ii"@, "mountain_daughter"@, "mournings_end_part_i"@, "mournings_end_part_ii"@, "murder_mystery"@, "my_arms_big_adventure"@, "nature_spirit"@, "a_night_at_the_theatre"@, "observatory_quest"@, "olafs_quest"@, "one_small_favour"@, "pandemonium"@]
}

pub open spec fn quest_chunk_points_5() -> Seq<int> {
    seq![1, 2, 2, 3, 1, 6, 1, 3, 4, 2, 2, 2, 3, 1, 2, 2, 2, 1, 2, 1]
}

fn quest_chunk_5() -> (v: Vec<Quest>)
    ensures
        v@.len() == 20,
        forall|k: int| 0 <= k < v@.len() ==> (#[trigger] v@[k]).wf(),
        forall|k: int| 0 <= k < v@.len() ==> (#[trigger] v@[k]).id@ == quest_chunk_ids_5()[k],
        forall|k: int|
            0 <= k < v@.len() ==> (#[trigger] v@[k]).quest_points as int == quest_chunk_points_5()[k],
{
    let mut v: Vec<Quest> = Vec::new();
    v.push(the_lost_tribe());
    v.push(lunar_diplomacy());
    v.push(making_friends_with_my_arm());
    v.push(making_history());
    v.push(meat_and_greet());
    v.push(merlins_crystal());
    v.push(monks_friend());
    v.push(monkey_madness_i());
    v.push(monkey_madness_ii());
    v.push(mountain_daughter());
    v.push(mournings_end_part_i());
    v.push(mournings_end_part_ii());
    v.push(murder_mystery());
    v.push(my_arms_big_adventure());
    v.push(nature_spirit());
    v.push(a_night_at_the_theatre());
    v.push(observatory_quest());
    v.push(olafs_quest());
    v.push(one_small_favour());
    v.push(pandemonium());
    v
}

pub open spec fn quest_chunk_ids_6() -> Seq<Seq<char>> {
    seq!["the_path_of_glouphrie"@, "perilous_moons"@, "plague_city"@, "a_porcine_of_interest"@, "priest_in_peril"@, "prying_times"@, "the_queen_of_thieves"@, "rag_and_bone_man_i"@, "rag_and_bone_man_ii"@, "ratcatchers"@, "recipe_for_disaster"@, "recipe_for_disaster_another_cooks_quest"@, "recipe_for_disaster_freeing_the_mountain_dwarf"@, "recipe_for_disaster_freeing_the_goblin_generals"@, "recipe_for_disaster_freeing_pirate_pete"@, "recipe_for_disaster_freeing_the_lumbridge_guide"@, "recipe_for_disaster_freeing_evil_dave"@, "recipe_for_disaster_freeing_skrach_uglogwee"@, "recipe_for_disaster_freeing_sir_amik_varze"@, "recipe_for_disaster_freeing_king_awowogei"@]
}

pub open spec fn quest_chunk_points_6() -> Seq<int> {
    seq![2, 2, 1, 1, 1, 1, 1, 1, 1, 2, 1, 1, 1, 1, 1, 1, 1, 1, 1, 1]
}

fn quest_chunk_6() -> (v: Vec<Quest>)
    ensures
        v@.len() == 20,
        forall|k: int| 0 <= k < v@.len() ==> (#[trigger] v@[k]).wf(),
        forall|k: int| 0 <= k < v@.len() ==> (#[trigger] v@[k]).id@ == quest_chunk_ids_6()[k],
        forall|k: int|
            0 <= k < v@.len() ==> (#[trigger] v@[k]).quest_points as int == quest_chunk_points_6()[k],
{
    let mut v: Vec<Quest> = Vec::new();
    v.push(the_path_of_glouphrie());
    v.push(perilous_moons());
    v.push(plague_city());
    v.push(a_porcine_of_interest());
    v.push(priest_in_peril());
    v.push(prying_times());
    v.push(the_queen_of_thieves());
    v.push(rag_and_bone_man_i());
    v.push(rag_and_bone_man_ii());
    v.push(ratcatchers());
    v.push(recipe_for_disaster());
    v.push(recipe_for_disaster_another_cooks_quest());
    v.push(recipe_for_disaster_freeing_the_mountain_dwarf());
    v.push(recipe_for_disaster_freeing_the_goblin_generals());
    v.push(recipe_for_disaster_freeing_pirate_pete());
    v.push(recipe_for_disaster_freeing_the_lumbridge_guide());
    v.push(recipe_for_disaster_freeing_evil_dave());
    v.push(recipe_for_disaster_freeing_skrach_uglogwee());
    v.push(recipe_for_disaster_freeing_sir_amik_varze());
    v.push(recipe_for_disaster_freeing_king_awowogei());
    v
}

pub open spec fn quest_chunk_ids_7() -> Seq<Seq<char>> {
    seq!["recruitment_drive"@, "regicide"@, "the_ribbiting_tale_of_a_lily_pad_labour_dispute"@, "roving_elves"@, "royal_trouble"@, "rum_deal"@, "scorpion_catcher"@, "scrambled"@, "sea_slug"@, "secrets_of_the_north"@, "shades_of_mortton"@, "shadow_of_the_storm"@, "shadows_of_custodia"@, "sheep_herder"@, "shilo_village"@, "sins_of_the_father"@, "sleeping_giants"@, "the_slug_menace"@, "song_of_the_elves"@, "a_souls_bane"@]
}

pub open spec fn quest_chunk_points_7() -> Seq<int> {
    seq![1, 3, 1, 1, 1, 2, 1, 1, 1, 2, 3, 1, 2, 4, 2, 2, 1, 1, 4, 1]
}

fn quest_chunk_7() -> (v: Vec<Quest>)
    ensures
        v@.len() == 20,
        forall|k: int| 0 <= k < v@.len() ==> (#[trigger] v@[k]).wf(),
        forall|k: int| 0 <= k < v@.len() ==> (#[trigger] v@[k]).id@ == quest_chunk_ids_7()[k],
        forall|k: int|
            0 <= k < v@.len() ==> (#[trigger] v@[k]).quest_points as int == quest_chunk_points_7()[k],
{
    let mut v: Vec<Quest> = Vec::new();
    v.push(recruitment_drive());
    v.push(regicide());
    v.push(the_ribbiting_tale_of_a_lily_pad_labour_dispute());
    v.push(roving_elves());
    v.push(royal_trouble());
    v.push(rum_deal());
    v.push(scorpion_catcher());
    v.push(scrambled());
    v.push(sea_slug());
    v.push(secrets_of_the_north());
    v.push(shades_of_mortton());
    v.push(shadow_of_the_storm());
    v.push(shadows_of_custodia());
    v.push(sheep_herder());
    v.push(shilo_village());
    v.push(sins_of_the_father());
    v.push(sleeping_giants());
    v.push(the_slug_menace());
    v.push(song_of_the_elves());
    v.push(a_souls_bane());
    v
}

pub open spec fn quest_chunk_ids_8() -> Seq<Seq<char>> {
    seq!["spirits_of_the_elid"@, "swan_song"@, "tai_bwo_wannai_trio"@, "a_tail_of_two_cats"@, "tale_of_the_righteous"@, "a_taste_of_hope"@, "tears_of_guthix"@, "temple_of_ikov"@, "temple_of_the_eye"@, "throne_of_miscellania"@, "the_tourist_trap"@, "tower_of_life"@, "tree_gnome_village"@, "tribal_totem"@, "troll_romance"@, "troll_stronghold"@, "troubled_tortugans"@, "twilights_promise"@, "underground_pass"@, "wanted"@]
}

pub open spec fn quest_chunk_points_8() -> Seq<int> {
    seq![2, 2, 2, 2, 1, 1, 1, 1, 1, 1, 2, 2, 2, 1, 2, 1, 1, 1, 5, 1]
}

fn quest_chunk_8() -> (v: Vec<Quest>)
    ensures
        v@.len() == 20,
        forall|k: int| 0 <= k < v@.len() ==> (#[trigger] v@[k]).wf(),
        forall|k: int| 0 <= k < v@.len() ==> (#[trigger] v@[k]).id@ == quest_chunk_ids_8()[k],
        forall|k: int|
            0 <= k < v@.len() ==> (#[trigger] v@[k]).quest_points as int == quest_chunk_points_8()[k],
{
    let mut v: Vec<Quest> = Vec::new();
    v.push(spirits_of_the_elid());
    v.push(swan_song());
    v.push(tai_bwo_wannai_trio());
    v.push(a_tail_of_two_cats());
    v.push(tale_of_the_righteous());
    v.push(a_taste_of_hope());
    v.push(tears_of_guthix());
    v.push(temple_of_ikov());
    v.push(temple_of_the_eye());
    v.push(throne_of_miscellania());
    v.push(the_tourist_trap());
    v.push(tower_of_life());
    v.push(tree_gnome_village());
    v.push(tribal_totem());
    v.push(troll_romance());
    v.push(troll_stronghold());
    v.push(troubled_tortugans());
    v.push(twilights_promise());
    v.push(underground_pass());
    v.push(wanted());
    v
}

pub open spec fn quest_chunk_ids_9() -> Seq<Seq<char>> {
    seq!["watchtower"@, "waterfall_quest"@, "what_lies_below"@, "while_guthix_sleeps"@, "witchs_house"@, "zogre_flesh_eaters"@]
}

pub open spec fn quest_chunk_points_9() -> Seq<int> {
    seq![4, 1, 1, 5, 4, 1]
}

fn quest_chunk_9() -> (v: Vec<Quest>)
    ensures
        v@.len() == 6,
        forall|k: int| 0 <= k < v@.len() ==> (#[trigger] v@[k]).wf(),
        forall|k: int| 0 <= k < v@.len() ==> (#[trigger] v@[k]).id@ == quest_chunk_ids_9()[k],
        forall|k: int|
            0 <= k < v@.len() ==> (#[trigger] v@[k]).quest_points as int == quest_chunk_points_9()[k],
{
    let mut v: Vec<Quest> = Vec::new();
    v.push(watchtower());
    v.push(waterfall_quest());
    v.push(what_lies_below());
    v.push(while_guthix_sleeps());
    v.push(witchs_house());
    v.push(zogre_flesh_eaters());
    v
}

/// The id of every quest the catalog defines, in catalog order.
pub open spec fn catalog_ids() -> Seq<Seq<char>> {
    quest_chunk_ids_0() + quest_chunk_ids_1() + quest_chunk_ids_2() + quest_chunk_ids_3() + quest_chunk_ids_4() + quest_chunk_ids_5() + quest_chunk_ids_6() + quest_chunk_ids_7() + quest_chunk_ids_8() + quest_chunk_ids_9()
}

/// The quest-point value of every quest, in catalog order.
pub open spec fn catalog_quest_points() -> Seq<int> {
    quest_chunk_points_0() + quest_chunk_points_1() + quest_chunk_points_2() + quest_chunk_points_3() + quest_chunk_points_4() + quest_chunk_points_5() + quest_chunk_points_6() + quest_chunk_points_7() + quest_chunk_points_8() + quest_chunk_points_9()
}

/// A discriminator that reads a few characters of an id and returns the
/// catalog position that id would occupy; distinct catalog ids therefore
/// land on distinct positions.
pub open spec fn id_slot(s: Seq<char>) -> int {
    if s.len() == 6 {
        179
    } else if s.len() == 7 {
        36
    } else if s.len() == 8 {
        if s[2] == 'a' {
            148
        } else if s[2] == 'e' {
            65
        } else if s[2] == 'g' {
            141
        } else if s[2] == 'l' {
            35
        } else {
            145
        }
    } else if s.len() == 9 {
        if s[1] == 'c' {
            147
        } else if s[1] == 'h' {
            80
        } else if s[1] == 'i' {
            29
        } else if s[1] == 'o' {
            99
        } else {
            161
        }
    } else if s.len() == 10 {
        if s[0] == 'g' {
            83
        } else if s[0] == 'h' {
            89
        } else {
            180
        }
    } else if s.len() == 11 {
        if s[3] == '_' {
            9
        } else if s[3] == 'c' {
            if s[0] == 'c' {
                34
            } else {
                129
            }
        } else if s[3] == 'd' {
            119
        } else if s[3] == 'e' {
            if s[0] == 'b' {
                30
            } else {
                86
            }
        } else if s[3] == 'f' {
            117
        } else if s[3] == 'g' {
            122
        } else if s[3] == 'h' {
            66
        } else if s[3] == 'i' {
            31
        } else if s[3] == 'l' {
            55
        } else if s[3] == 'r' {
            62
        } else {
            78
        }
    } else if s.len() == 12 {
        if s[4] == 'a' {
            if s[0] == 'e' {
                54
            } else {
                173
            }
        } else if s[4] == 'c' {
            5
        } else if s[4] == 'd' {
            49
        } else if s[4] == 'e' {
            88
        } else if s[4] == 'f' {
            53
        } else if s[4] == 'h' {
            184
        } else if s[4] == 'l' {
            64
        } else if s[4] == 'm' {
            51
        } else if s[4] == 'n' {
            if s[0] == 'd' {
                4
            } else if s[0] == 'p' {
                125
            } else {
                143
            }
        } else if s[4] == 'p' {
            153
        } else if s[4] == 's' {
            if s[0] == 'k' {
                95
            } else {
                106
            }
        } else if s[4] == 't' {
            85
        } else if s[4] == 'u' {
            159
        } else {
            63
        }
    } else if s.len() == 13 {
        if s[2] == 'a' {
            42
        } else if s[2] == 'e' {
            17
        } else if s[2] == 'g' {
            98
        } else if s[2] == 'i' {
            154
        } else if s[2] == 'n' {
            94
        } else if s[2] == 'o' {
            174
        } else if s[2] == 'r' {
            76
        } else if s[2] == 't' {
            if s[0] == 'g' {
                77
            } else if s[0] == 'n' {
                114
            } else {
                20
            }
        } else if s[2] == 'v' {
            48
        } else if s[2] == 'w' {
            171
        } else {
            144
        }
    } else if s.len() == 14 {
        if s[8] == '_' {
            if s[0] == 'a' {
                25
            } else if s[0] == 'm' {
                104
            } else if s[0] == 'p' {
                121
            } else {
                100
            }
        } else if s[8] == 'a' {
            27
        } else if s[8] == 'd' {
            81
        } else if s[8] == 'f' {
            167
        } else if s[8] == 'i' {
            103
        } else if s[8] == 'l' {
            67
        } else if s[8] == 'r' {
            52
        } else if s[8] == 's' {
            19
        } else if s[8] == 't' {
            16
        } else {
            112
        }
    } else if s.len() == 15 {
        if s[10] == '_' {
            165
        } else if s[10] == 'a' {
            if s[0] == 'e' {
                58
            } else {
                18
            }
        } else if s[10] == 'b' {
            182
        } else if s[10] == 'd' {
            79
        } else if s[10] == 'e' {
            157
        } else if s[10] == 'f' {
            38
        } else if s[10] == 'i' {
            156
        } else if s[10] == 'n' {
            68
        } else if s[10] == 'o' {
            101
        } else if s[10] == 'p' {
            124
        } else if s[10] == 'q' {
            181
        } else if s[10] == 's' {
            2
        } else if s[10] == 'u' {
            166
        } else {
            if s[0] == 'd' {
                6
            } else {
                105
            }
        }
    } else if s.len() == 16 {
        if s[0] == 'a' {
            22
        } else if s[0] == 'd' {
            50
        } else if s[0] == 'f' {
            69
        } else if s[0] == 'g' {
            8
        } else if s[0] == 'm' {
            107
        } else if s[0] == 'o' {
            118
        } else if s[0] == 'p' {
            12
        } else if s[0] == 'r' {
            15
        } else if s[0] == 's' {
            146
        } else if s[0] == 't' {
            if s[1] == 'h' {
                170
            } else {
                175
            }
        } else if s[0] == 'u' {
            178
        } else {
            21
        }
    } else if s.len() == 17 {
        if s[10] == '_' {
            13
        } else if s[10] == 'a' {
            if s[0] == 'd' {
                46
            } else {
                109
            }
        } else if s[10] == 'd' {
            96
        } else if s[10] == 'e' {
            158
        } else if s[10] == 'h' {
            41
        } else if s[10] == 'k' {
            33
        } else if s[10] == 'm' {
            if s[0] == 'm' {
                11
            } else {
                150
            }
        } else if s[10] == 'n' {
            108
        } else if s[10] == 'p' {
            177
        } else if s[10] == 'r' {
            3
        } else if s[10] == 's' {
            10
        } else if s[10] == 't' {
            if s[0] == 'r' {
                140
            } else {
                168
            }
        } else {
            116
        }
    } else if s.len() == 18 {
        if s[4] == '_' {
            if s[0] == 's' {
                155
            } else {
                172
            }
        } else if s[4] == 'a' {
            127
        } else if s[4] == 'b' {
            176
        } else if s[4] == 'c' {
            39
        } else if s[4] == 'e' {
            185
        } else if s[4] == 'f' {
            70
        } else if s[4] == 'i' {
            163
        } else if s[4] == 'r' {
            if s[0] == 'd' {
                47
            } else {
                14
            }
        } else if s[4] == 's' {
            7
        } else {
            0
        }
    } else if s.len() == 19 {
        if s[12] == '_' {
            if s[0] == 'r' {
                128
            } else {
                183
            }
        } else if s[12] == 'a' {
            162
        } else if s[12] == 'e' {
            151
        } else if s[12] == 'f' {
            74
        } else if s[12] == 'g' {
            97
        } else if s[12] == 'h' {
            160
        } else if s[12] == 'i' {
            130
        } else if s[12] == 'j' {
            59
        } else if s[12] == 'k' {
            72
        } else if s[12] == 't' {
            32
        } else if s[12] == 'u' {
            152
        } else {
            44
        }
    } else if s.len() == 20 {
        if s[15] == '_' {
            if s[0] == 'h' {
                90
            } else {
                84
            }
        } else if s[15] == 'a' {
            110
        } else if s[15] == 'f' {
            23
        } else if s[15] == 'h' {
            56
        } else if s[15] == 'i' {
            126
        } else if s[15] == 'n' {
            149
        } else if s[15] == 'r' {
            73
        } else if s[15] == 's' {
            26
        } else {
            71
        }
    } else if s.len() == 21 {
        if s[5] == 'a' {
            120
        } else if s[5] == 'c' {
            123
        } else if s[5] == 'd' {
            92
        } else if s[5] == 'e' {
            if s[4] == 'd' {
                45
            } else if s[4] == 'h' {
                87
            } else {
                169
            }
        } else if s[5] == 'i' {
            111
        } else if s[5] == 'm' {
            113
        } else if s[5] == 'n' {
            57
        } else if s[5] == 'o' {
            164
        } else if s[5] == 's' {
            24
        } else {
            61
        }
    } else if s.len() == 22 {
        if s[0] == 'a' {
            115
        } else if s[0] == 'b' {
            1
        } else if s[0] == 'd' {
            40
        } else {
            75
        }
    } else if s.len() == 23 {
        if s[0] == 'b' {
            28
        } else if s[0] == 'd' {
            43
        } else {
            82
        }
    } else if s.len() == 24 {
        if s[1] == 'c' {
            91
        } else if s[1] == 'n' {
            93
        } else {
            37
        }
    } else if s.len() == 26 {
        102
    } else if s.len() == 30 {
        60
    } else if s.len() == 37 {
        136
    } else if s.len() == 39 {
        if s[20] == 'a' {
            131
        } else {
            134
        }
    } else if s.len() == 41 {
        139
    } else if s.len() == 42 {
        138
    } else if s.len() == 43 {
        137
    } else if s.len() == 46 {
        132
    } else if s.len() == 47 {
        if s[32] == '_' {
            142
        } else if s[32] == 'g' {
            133
        } else {
            135
        }
    } else {
        -1
    }
}

proof fn lemma_chunk_slots_0()
    ensures
        forall|k: int|
            0 <= k < 20 ==> id_slot(#[trigger] quest_chunk_ids_0()[k]) == 0 + k,
{
    reveal_strlit("below_ice_mountain");
        reveal_strlit("black_knights_fortress");
        reveal_strlit("cooks_assistant");
        reveal_strlit("the_corsair_curse");
        reveal_strlit("demon_slayer");
        reveal_strlit("dorics_quest");
        reveal_strlit("dragon_slayer_i");
        reveal_strlit("ernest_the_chicken");
        reveal_strlit("goblin_diplomacy");
        reveal_strlit("imp_catcher");
        reveal_strlit("the_knights_sword");
        reveal_strlit("misthalin_mystery");
        reveal_strlit("pirates_treasure");
        reveal_strlit("prince_ali_rescue");
        reveal_strlit("the_restless_ghost");
        reveal_strlit("romeo_and_juliet");
        reveal_strlit("rune_mysteries");
        reveal_strlit("sheep_shearer");
        reveal_strlit("shield_of_arrav");
        reveal_strlit("vampyre_slayer");
    assert(id_slot("below_ice_mountain"@) == 0);
        assert(id_slot("black_knights_fortress"@) == 1);
        assert(id_slot("cooks_assistant"@) == 2);
        assert(id_slot("the_corsair_curse"@) == 3);
        assert(id_slot("demon_slayer"@) == 4);
        assert(id_slot("dorics_quest"@) == 5);
        assert(id_slot("dragon_slayer_i"@) == 6);
        assert(id_slot("ernest_the_chicken"@) == 7);
        assert(id_slot("goblin_diplomacy"@) == 8);
        assert(id_slot("imp_catcher"@) == 9);
        assert(id_slot("the_knights_sword"@) == 10);
        assert(id_slot("misthalin_mystery"@) == 11);
        assert(id_slot("pirates_treasure"@) == 12);
        assert(id_slot("prince_ali_rescue"@) == 13);
        assert(id_slot("the_restless_ghost"@) == 14);
        assert(id_slot("romeo_and_juliet"@) == 15);
        assert(id_slot("rune_mysteries"@) == 16);
        assert(id_slot("sheep_shearer"@) == 17);
        assert(id_slot("shield_of_arrav"@) == 18);
        assert(id_slot("vampyre_slayer"@) == 19);
}

proof fn lemma_chunk_slots_1()
    ensures
        forall|k: int|
            0 <= k < 20 ==> id_slot(#[trigger] quest_chunk_ids_1()[k]) == 20 + k,
{
    reveal_strlit("witchs_potion");
        reveal_strlit("x_marks_the_spot");
        reveal_strlit("animal_magnetism");
        reveal_strlit("another_slice_of_ham");
        reveal_strlit("the_ascent_of_arceuus");
        reveal_strlit("at_first_light");
        reveal_strlit("beneath_cursed_sands");
        reveal_strlit("between_a_rock");
        reveal_strlit("big_chompy_bird_hunting");
        reveal_strlit("biohazard");
        reveal_strlit("bone_voyage");
        reveal_strlit("cabin_fever");
        reveal_strlit("children_of_the_sun");
        reveal_strlit("client_of_kourend");
        reveal_strlit("clock_tower");
        reveal_strlit("cold_war");
        reveal_strlit("contact");
        reveal_strlit("creature_of_fenkenstrain");
        reveal_strlit("current_affairs");
        reveal_strlit("the_curse_of_arrav");
    assert(id_slot("witchs_potion"@) == 20);
        assert(id_slot("x_marks_the_spot"@) == 21);
        assert(id_slot("animal_magnetism"@) == 22);
        assert(id_slot("another_slice_of_ham"@) == 23);
        assert(id_slot("the_ascent_of_arceuus"@) == 24);
        assert(id_slot("at_first_light"@) == 25);
        assert(id_slot("beneath_cursed_sands"@) == 26);
        assert(id_slot("between_a_rock"@) == 27);
        assert(id_slot("big_chompy_bird_hunting"@) == 28);
        assert(id_slot("biohazard"@) == 29);
        assert(id_slot("bone_voyage"@) == 30);
        assert(id_slot("cabin_fever"@) == 31);
        assert(id_slot("children_of_the_sun"@) == 32);
        assert(id_slot("client_of_kourend"@) == 33);
        assert(id_slot("clock_tower"@) == 34);
        assert(id_slot("cold_war"@) == 35);
        assert(id_slot("contact"@) == 36);
        assert(id_slot("creature_of_fenkenstrain"@) == 37);
        assert(id_slot("current_affairs"@) == 38);
        assert(id_slot("the_curse_of_arrav"@) == 39);
}

proof fn lemma_chunk_slots_2()
    ensures
        forall|k: int|
            0 <= k < 20 ==> id_slot(#[trigger] quest_chunk_ids_2()[k]) == 40 + k,
{
    reveal_strlit("darkness_of_hallowvale");
        reveal_strlit("death_on_the_isle");
        reveal_strlit("death_plateau");
        reveal_strlit("death_to_the_dorgeshuun");
        reveal_strlit("defender_of_varrock");
        reveal_strlit("the_depths_of_despair");
        reveal_strlit("desert_treasure_i");
        reveal_strlit("desert_treasure_ii");
        reveal_strlit("devious_minds");
        reveal_strlit("the_dig_site");
        reveal_strlit("dragon_slayer_ii");
        reveal_strlit("dream_mentor");
        reveal_strlit("druidic_ritual");
        reveal_strlit("dwarf_cannon");
        reveal_strlit("eadgars_ruse");
        reveal_strlit("eagles_peak");
        reveal_strlit("elemental_workshop_i");
        reveal_strlit("elemental_workshop_ii");
        reveal_strlit("enakhras_lament");
        reveal_strlit("enlightened_journey");
    assert(id_slot("darkness_of_hallowvale"@) == 40);
        assert(id_slot("death_on_the_isle"@) == 41);
        assert(id_slot("death_plateau"@) == 42);
        assert(id_slot("death_to_the_dorgeshuun"@) == 43);
        assert(id_slot("defender_of_varrock"@) == 44);
        assert(id_slot("the_depths_of_despair"@) == 45);
        assert(id_slot("desert_treasure_i"@) == 46);
        assert(id_slot("desert_treasure_ii"@) == 47);
        assert(id_slot("devious_minds"@) == 48);
        assert(id_slot("the_dig_site"@) == 49);
        assert(id_slot("dragon_slayer_ii"@) == 50);
        assert(id_slot("dream_mentor"@) == 51);
        assert(id_slot("druidic_ritual"@) == 52);
        assert(id_slot("dwarf_cannon"@) == 53);
        assert(id_slot("eadgars_ruse"@) == 54);
        assert(id_slot("eagles_peak"@) == 55);
        assert(id_slot("elemental_workshop_i"@) == 56);
        assert(id_slot("elemental_workshop_ii"@) == 57);
        assert(id_slot("enakhras_lament"@) == 58);
        assert(id_slot("enlightened_journey"@) == 59);
}

proof fn lemma_chunk_slots_3()
    ensures
        forall|k: int|
            0 <= k < 20 ==> id_slot(#[trigger] quest_chunk_ids_3()[k]) == 60 + k,
{
    reveal_strlit("ethically_acquired_antiquities");
        reveal_strlit("the_eyes_of_glouphrie");
        reveal_strlit("fairytale_i");
        reveal_strlit("fairytale_ii");
        reveal_strlit("family_crest");
        reveal_strlit("the_feud");
        reveal_strlit("fight_arena");
        reveal_strlit("the_final_dawn");
        reveal_strlit("fishing_contest");
        reveal_strlit("forgettable_tale");
        reveal_strlit("the_forsaken_tower");
        reveal_strlit("the_fremennik_exiles");
        reveal_strlit("the_fremennik_isles");
        reveal_strlit("the_fremennik_trials");
        reveal_strlit("the_garden_of_death");
        reveal_strlit("garden_of_tranquillity");
        reveal_strlit("gertrudes_cat");
        reveal_strlit("getting_ahead");
        reveal_strlit("ghosts_ahoy");
        reveal_strlit("the_giant_dwarf");
    assert(id_slot("ethically_acquired_antiquities"@) == 60);
        assert(id_slot("the_eyes_of_glouphrie"@) == 61);
        assert(id_slot("fairytale_i"@) == 62);
        assert(id_slot("fairytale_ii"@) == 63);
        assert(id_slot("family_crest"@) == 64);
        assert(id_slot("the_feud"@) == 65);
        assert(id_slot("fight_arena"@) == 66);
        assert(id_slot("the_final_dawn"@) == 67);
        assert(id_slot("fishing_contest"@) == 68);
        assert(id_slot("forgettable_tale"@) == 69);
        assert(id_slot("the_forsaken_tower"@) == 70);
        assert(id_slot("the_fremennik_exiles"@) == 71);
        assert(id_slot("the_fremennik_isles"@) == 72);
        assert(id_slot("the_fremennik_trials"@) == 73);
        assert(id_slot("the_garden_of_death"@) == 74);
        assert(id_slot("garden_of_tranquillity"@) == 75);
        assert(id_slot("gertrudes_cat"@) == 76);
        assert(id_slot("getting_ahead"@) == 77);
        assert(id_slot("ghosts_ahoy"@) == 78);
        assert(id_slot("the_giant_dwarf"@) == 79);
}

proof fn lemma_chunk_slots_4()
    ensures
        forall|k: int|
            0 <= k < 20 ==> id_slot(#[trigger] quest_chunk_ids_4()[k]) == 80 + k,
{
    reveal_strlit("the_golem");
        reveal_strlit("the_grand_tree");
        reveal_strlit("the_great_brain_robbery");
        reveal_strlit("grim_tales");
        reveal_strlit("the_hand_in_the_sand");
        reveal_strlit("haunted_mine");
        reveal_strlit("hazeel_cult");
        reveal_strlit("the_heart_of_darkness");
        reveal_strlit("heroes_quest");
        reveal_strlit("holy_grail");
        reveal_strlit("horror_from_the_deep");
        reveal_strlit("icthlarins_little_helper");
        reveal_strlit("in_aid_of_the_myreque");
        reveal_strlit("in_search_of_the_myreque");
        reveal_strlit("jungle_potion");
        reveal_strlit("kings_ransom");
        reveal_strlit("a_kingdom_divided");
        reveal_strlit("land_of_the_goblins");
        reveal_strlit("legends_quest");
        reveal_strlit("lost_city");
    assert(id_slot("the_golem"@) == 80);
        assert(id_slot("the_grand_tree"@) == 81);
        assert(id_slot("the_great_brain_robbery"@) == 82);
        assert(id_slot("grim_tales"@) == 83);
        assert(id_slot("the_hand_in_the_sand"@) == 84);
        assert(id_slot("haunted_mine"@) == 85);
        assert(id_slot("hazeel_cult"@) == 86);
        assert(id_slot("the_heart_of_darkness"@) == 87);
        assert(id_slot("heroes_quest"@) == 88);
        assert(id_slot("holy_grail"@) == 89);
        assert(id_slot("horror_from_the_deep"@) == 90);
        assert(id_slot("icthlarins_little_helper"@) == 91);
        assert(id_slot("in_aid_of_the_myreque"@) == 92);
        assert(id_slot("in_search_of_the_myreque"@) == 93);
        assert(id_slot("jungle_potion"@) == 94);
        assert(id_slot("kings_ransom"@) == 95);
        assert(id_slot("a_kingdom_divided"@) == 96);
        assert(id_slot("land_of_the_goblins"@) == 97);
        assert(id_slot("legends_quest"@) == 98);
        assert(id_slot("lost_city"@) == 99);
}

proof fn lemma_chunk_slots_5()
    ensures
        forall|k: int|
            0 <= k < 20 ==> id_slot(#[trigger] quest_chunk_ids_5()[k]) == 100 + k,
{
    reveal_strlit("the_lost_tribe");
        reveal_strlit("lunar_diplomacy");
        reveal_strlit("making_friends_with_my_arm");
        reveal_strlit("making_history");
        reveal_strlit("meat_and_greet");
        reveal_strlit("merlins_crystal");
        reveal_strlit("monks_friend");
        reveal_strlit("monkey_madness_i");
        reveal_strlit("monkey_madness_ii");
        reveal_strlit("mountain_daughter");
        reveal_strlit("mournings_end_part_i");
        reveal_strlit("mournings_end_part_ii");
        reveal_strlit("murder_mystery");
        reveal_strlit("my_arms_big_adventure");
        reveal_strlit("nature_spirit");
        reveal_strlit("a_night_at_the_theatre");
        reveal_strlit("observatory_quest");
        reveal_strlit("olafs_quest");
        reveal_strlit("one_small_favour");
        reveal_strlit("pandemonium");
    assert(id_slot("the_lost_tribe"@) == 100);
        assert(id_slot("lunar_diplomacy"@) == 101);
        assert(id_slot("making_friends_with_my_arm"@) == 102);
        assert(id_slot("making_history"@) == 103);
        assert(id_slot("meat_and_greet"@) == 104);
        assert(id_slot("merlins_crystal"@) == 105);
        assert(id_slot("monks_friend"@) == 106);
        assert(id_slot("monkey_madness_i"@) == 107);
        assert(id_slot("monkey_madness_ii"@) == 108);
        assert(id_slot("mountain_daughter"@) == 109);
        assert(id_slot("mournings_end_part_i"@) == 110);
        assert(id_slot("mournings_end_part_ii"@) == 111);
        assert(id_slot("murder_mystery"@) == 112);
        assert(id_slot("my_arms_big_adventure"@) == 113);
        assert(id_slot("nature_spirit"@) == 114);
        assert(id_slot("a_night_at_the_theatre"@) == 115);
        assert(id_slot("observatory_quest"@) == 116);
        assert(id_slot("olafs_quest"@) == 117);
        assert(id_slot("one_small_favour"@) == 118);
        assert(id_slot("pandemonium"@) == 119);
}

proof fn lemma_chunk_slots_6()
    ensures
        forall|k: int|
            0 <= k < 20 ==> id_slot(#[trigger] quest_chunk_ids_6()[k]) == 120 + k,
{
    reveal_strlit("the_path_of_glouphrie");
        reveal_strlit("perilous_moons");
        reveal_strlit("plague_city");
        reveal_strlit("a_porcine_of_interest");
        reveal_strlit("priest_in_peril");
        reveal_strlit("prying_times");
        reveal_strlit("the_queen_of_thieves");
        reveal_strlit("rag_and_bone_man_i");
        reveal_strlit("rag_and_bone_man_ii");
        reveal_strlit("ratcatchers");
        reveal_strlit("recipe_for_disaster");
        reveal_strlit("recipe_for_disaster_another_cooks_quest");
        reveal_strlit("recipe_for_disaster_freeing_the_mountain_dwarf");
        reveal_strlit("recipe_for_disaster_freeing_the_goblin_generals");
        reveal_strlit("recipe_for_disaster_freeing_pirate_pete");
        reveal_strlit("recipe_for_disaster_freeing_the_lumbridge_guide");
        reveal_strlit("recipe_for_disaster_freeing_evil_dave");
        reveal_strlit("recipe_for_disaster_freeing_skrach_uglogwee");
        reveal_strlit("recipe_for_disaster_freeing_sir_amik_varze");
        reveal_strlit("recipe_for_disaster_freeing_king_awowogei");
    assert(id_slot("the_path_of_glouphrie"@) == 120);
        assert(id_slot("perilous_moons"@) == 121);
        assert(id_slot("plague_city"@) == 122);
        assert(id_slot("a_porcine_of_interest"@) == 123);
        assert(id_slot("priest_in_peril"@) == 124);
        assert(id_slot("prying_times"@) == 125);
        assert(id_slot("the_queen_of_thieves"@) == 126);
        assert(id_slot("rag_and_bone_man_i"@) == 127);
        assert(id_slot("rag_and_bone_man_ii"@) == 128);
        assert(id_slot("ratcatchers"@) == 129);
        assert(id_slot("recipe_for_disaster"@) == 130);
        assert(id_slot("recipe_for_disaster_another_cooks_quest"@) == 131);
        assert(id_slot("recipe_for_disaster_freeing_the_mountain_dwarf"@) == 132);
        assert(id_slot("recipe_for_disaster_freeing_the_goblin_generals"@) == 133);
        assert(id_slot("recipe_for_disaster_freeing_pirate_pete"@) == 134);
        assert(id_slot("recipe_for_disaster_freeing_the_lumbridge_guide"@) == 135);
        assert(id_slot("recipe_for_disaster_freeing_evil_dave"@) == 136);
        assert(id_slot("recipe_for_disaster_freeing_skrach_uglogwee"@) == 137);
        assert(id_slot("recipe_for_disaster_freeing_sir_amik_varze"@) == 138);
        assert(id_slot("recipe_for_disaster_freeing_king_awowogei"@) == 139);
}

proof fn lemma_chunk_slots_7()
    ensures
        forall|k: int|
            0 <= k < 20 ==> id_slot(#[trigger] quest_chunk_ids_7()[k]) == 140 + k,
{
    reveal_strlit("recruitment_drive");
        reveal_strlit("regicide");
        reveal_strlit("the_ribbiting_tale_of_a_lily_pad_labour_dispute");
        reveal_strlit("roving_elves");
        reveal_strlit("royal_trouble");
        reveal_strlit("rum_deal");
        reveal_strlit("scorpion_catcher");
        reveal_strlit("scrambled");
        reveal_strlit("sea_slug");
        reveal_strlit("secrets_of_the_north");
        reveal_strlit("shades_of_mortton");
        reveal_strlit("shadow_of_the_storm");
        reveal_strlit("shadows_of_custodia");
        reveal_strlit("sheep_herder");
        reveal_strlit("shilo_village");
        reveal_strlit("sins_of_the_father");
        reveal_strlit("sleeping_giants");
        reveal_strlit("the_slug_menace");
        reveal_strlit("song_of_the_elves");
        reveal_strlit("a_souls_bane");
    assert(id_slot("recruitment_drive"@) == 140);
        assert(id_slot("regicide"@) == 141);
        assert(id_slot("the_ribbiting_tale_of_a_lily_pad_labour_dispute"@) == 142);
        assert(id_slot("roving_elves"@) == 143);
        assert(id_slot("royal_trouble"@) == 144);
        assert(id_slot("rum_deal"@) == 145);
        assert(id_slot("scorpion_catcher"@) == 146);
        assert(id_slot("scrambled"@) == 147);
        assert(id_slot("sea_slug"@) == 148);
        assert(id_slot("secrets_of_the_north"@) == 149);
        assert(id_slot("shades_of_mortton"@) == 150);
        assert(id_slot("shadow_of_the_storm"@) == 151);
        assert(id_slot("shadows_of_custodia"@) == 152);
        assert(id_slot("sheep_herder"@) == 153);
        assert(id_slot("shilo_village"@) == 154);
        assert(id_slot("sins_of_the_father"@) == 155);
        assert(id_slot("sleeping_giants"@) == 156);
        assert(id_slot("the_slug_menace"@) == 157);
        assert(id_slot("song_of_the_elves"@) == 158);
        assert(id_slot("a_souls_bane"@) == 159);
}

proof fn lemma_chunk_slots_8()
    ensures
        forall|k: int|
            0 <= k < 20 ==> id_slot(#[trigger] quest_chunk_ids_8()[k]) == 160 + k,
{
    reveal_strlit("spirits_of_the_elid");
        reveal_strlit("swan_song");
        reveal_strlit("tai_bwo_wannai_trio");
        reveal_strlit("a_tail_of_two_cats");
        reveal_strlit("tale_of_the_righteous");
        reveal_strlit("a_taste_of_hope");
        reveal_strlit("tears_of_guthix");
        reveal_strlit("temple_of_ikov");
        reveal_strlit("temple_of_the_eye");
        reveal_strlit("throne_of_miscellania");
        reveal_strlit("the_tourist_trap");
        reveal_strlit("tower_of_life");
        reveal_strlit("tree_gnome_village");
        reveal_strlit("tribal_totem");
        reveal_strlit("troll_romance");
        reveal_strlit("troll_stronghold");
        reveal_strlit("troubled_tortugans");
        reveal_strlit("twilights_promise");
        reveal_strlit("underground_pass");
        reveal_strlit("wanted");
    assert(id_slot("spirits_of_the_elid"@) == 160);
        assert(id_slot("swan_song"@) == 161);
        assert(id_slot("tai_bwo_wannai_trio"@) == 162);
        assert(id_slot("a_tail_of_two_cats"@) == 163);
        assert(id_slot("tale_of_the_righteous"@) == 164);
        assert(id_slot("a_taste_of_hope"@) == 165);
        assert(id_slot("tears_of_guthix"@) == 166);
        assert(id_slot("temple_of_ikov"@) == 167);
        assert(id_slot("temple_of_the_eye"@) == 168);
        assert(id_slot("throne_of_miscellania"@) == 169);
        assert(id_slot("the_tourist_trap"@) == 170);
        assert(id_slot("tower_of_life"@) == 171);
        assert(id_slot("tree_gnome_village"@) == 172);
        assert(id_slot("tribal_totem"@) == 173);
        assert(id_slot("troll_romance"@) == 174);
        assert(id_slot("troll_stronghold"@) == 175);
        assert(id_slot("troubled_tortugans"@) == 176);
        assert(id_slot("twilights_promise"@) == 177);
        assert(id_slot("underground_pass"@) == 178);
        assert(id_slot("wanted"@) == 179);
}

proof fn lemma_chunk_slots_9()
    ensures
        forall|k: int|
            0 <= k < 6 ==> id_slot(#[trigger] quest_chunk_ids_9()[k]) == 180 + k,
{
    reveal_strlit("watchtower");
        reveal_strlit("waterfall_quest");
        reveal_strlit("what_lies_below");
        reveal_strlit("while_guthix_sleeps");
        reveal_strlit("witchs_house");
        reveal_strlit("zogre_flesh_eaters");
    assert(id_slot("watchtower"@) == 180);
        assert(id_slot("waterfall_quest"@) == 181);
        assert(id_slot("what_lies_below"@) == 182);
        assert(id_slot("while_guthix_sleeps"@) == 183);
        assert(id_slot("witchs_house"@) == 184);
        assert(id_slot("zogre_flesh_eaters"@) == 185);
}

/// Every catalog id sits at its own slot.
#[verifier::rlimit(100)]
#[verifier::spinoff_prover]
proof fn lemma_catalog_ids_slotted()
    ensures
        forall|i: int| 0 <= i < 186 ==> id_slot(#[trigger] catalog_ids()[i]) == i,
{
    lemma_chunk_slots_0();
    lemma_chunk_slots_1();
    lemma_chunk_slots_2();
    lemma_chunk_slots_3();
    lemma_chunk_slots_4();
    lemma_chunk_slots_5();
    lemma_chunk_slots_6();
    lemma_chunk_slots_7();
    lemma_chunk_slots_8();
    lemma_chunk_slots_9();
    assert forall|i: int| 0 <= i < 186 implies id_slot(#[trigger] catalog_ids()[i]) == i by {
            if i < 20 {
                assert(catalog_ids()[i] == quest_chunk_ids_0()[i - 0]);
                assert(catalog_quest_points()[i] == quest_chunk_points_0()[i - 0]);
            } else if i < 40 {
                assert(catalog_ids()[i] == quest_chunk_ids_1()[i - 20]);
                assert(catalog_quest_points()[i] == quest_chunk_points_1()[i - 20]);
            } else if i < 60 {
                assert(catalog_ids()[i] == quest_chunk_ids_2()[i - 40]);
                assert(catalog_quest_points()[i] == quest_chunk_points_2()[i - 40]);
            } else if i < 80 {
                assert(catalog_ids()[i] == quest_chunk_ids_3()[i - 60]);
                assert(catalog_quest_points()[i] == quest_chunk_points_3()[i - 60]);
            } else if i < 100 {
                assert(catalog_ids()[i] == quest_chunk_ids_4()[i - 80]);
                assert(catalog_quest_points()[i] == quest_chunk_points_4()[i - 80]);
            } else if i < 120 {
                assert(catalog_ids()[i] == quest_chunk_ids_5()[i - 100]);
                assert(catalog_quest_points()[i] == quest_chunk_points_5()[i - 100]);
            } else if i < 140 {
                assert(catalog_ids()[i] == quest_chunk_ids_6()[i - 120]);
                assert(catalog_quest_points()[i] == quest_chunk_points_6()[i - 120]);
            } else if i < 160 {
                assert(catalog_ids()[i] == quest_chunk_ids_7()[i - 140]);
                assert(catalog_quest_points()[i] == quest_chunk_points_7()[i - 140]);
            } else if i < 180 {
                assert(catalog_ids()[i] == quest_chunk_ids_8()[i - 160]);
                assert(catalog_quest_points()[i] == quest_chunk_points_8()[i - 160]);
            } else {
                assert(catalog_ids()[i] == quest_chunk_ids_9()[i - 180]);
                assert(catalog_quest_points()[i] == quest_chunk_points_9()[i - 180]);
            }
    }
}

/// The catalog's ids are pairwise distinct.
pub proof fn lemma_catalog_ids_distinct()
    ensures
        forall|i: int, j: int|
            0 <= i < j < 186 ==> catalog_ids()[i] != catalog_ids()[j],
{
    lemma_catalog_ids_slotted();
    assert forall|i: int, j: int|
        0 <= i < j < 186 implies catalog_ids()[i] != catalog_ids()[j] by {
        if catalog_ids()[i] == catalog_ids()[j] {
            assert(id_slot(catalog_ids()[i]) == id_slot(catalog_ids()[j]));
        }
    }
}

/// The sum of the first `n` entries of a sequence of integers.
pub open spec fn sum_prefix(s: Seq<int>, n: int) -> int
    decreases n,
{
    if n <= 0 {
        0
    } else {
        sum_prefix(s, n - 1) + s[n - 1]
    }
}

/// Prefix sums ignore elements past the prefix: up to the left part's
/// length, summing a concatenation equals summing the left part.
proof fn lemma_sum_prefix_left(a: Seq<int>, b: Seq<int>, n: int)
    requires
        0 <= n <= a.len(),
    ensures
        sum_prefix(a + b, n) == sum_prefix(a, n),
    decreases n,
{
    if n > 0 {
        lemma_sum_prefix_left(a, b, n - 1);
        assert((a + b)[n - 1] == a[n - 1]);
    }
}

/// Summing a concatenation splits into the left part's sum and the right
/// part's prefix sum.
proof fn lemma_sum_prefix_concat(a: Seq<int>, b: Seq<int>, k: int)
    requires
        0 <= k <= b.len(),
    ensures
        sum_prefix(a + b, a.len() + k) == sum_prefix(a, a.len() as int) + sum_prefix(b, k),
    decreases k,
{
    if k == 0 {
        lemma_sum_prefix_left(a, b, a.len() as int);
    } else {
        lemma_sum_prefix_concat(a, b, k - 1);
        assert((a + b)[a.len() + k - 1] == b[k - 1]);
    }
}


proof fn lemma_chunk_points_sum_0()
    ensures
        sum_prefix(quest_chunk_points_0(), 20) == 42,
{
    reveal_with_fuel(sum_prefix, 21);
    assert(quest_chunk_points_0()[0] == 1);
    assert(quest_chunk_points_0()[1] == 3);
    assert(quest_chunk_points_0()[2] == 1);
    assert(quest_chunk_points_0()[3] == 2);
    assert(quest_chunk_points_0()[4] == 3);
    assert(quest_chunk_points_0()[5] == 1);
    assert(quest_chunk_points_0()[6] == 2);
    assert(quest_chunk_points_0()[7] == 4);
    assert(quest_chunk_points_0()[8] == 5);
    assert(quest_chunk_points_0()[9] == 1);
    assert(quest_chunk_points_0()[10] == 1);
    assert(quest_chunk_points_0()[11] == 1);
    assert(quest_chunk_points_0()[12] == 2);
    assert(quest_chunk_points_0()[13] == 3);
    assert(quest_chunk_points_0()[14] == 1);
    assert(quest_chunk_points_0()[15] == 5);
    assert(quest_chunk_points_0()[16] == 1);
    assert(quest_chunk_points_0()[17] == 1);
    assert(quest_chunk_points_0()[18] == 1);
    assert(quest_chunk_points_0()[19] == 3);
}

proof fn lemma_chunk_points_sum_1()
    ensures
        sum_prefix(quest_chunk_points_1(), 20) == 28,
{
    reveal_with_fuel(sum_prefix, 21);
    assert(quest_chunk_points_1()[0] == 1);
    assert(quest_chunk_points_1()[1] == 1);
    assert(quest_chunk_points_1()[2] == 1);
    assert(quest_chunk_points_1()[3] == 1);
    assert(quest_chunk_points_1()[4] == 1);
    assert(quest_chunk_points_1()[5] == 1);
    assert(quest_chunk_points_1()[6] == 2);
    assert(quest_chunk_points_1()[7] == 2);
    assert(quest_chunk_points_1()[8] == 2);
    assert(quest_chunk_points_1()[9] == 3);
    assert(quest_chunk_points_1()[10] == 1);
    assert(quest_chunk_points_1()[11] == 2);
    assert(quest_chunk_points_1()[12] == 1);
    assert(quest_chunk_points_1()[13] == 1);
    assert(quest_chunk_points_1()[14] == 1);
    assert(quest_chunk_points_1()[15] == 1);
    assert(quest_chunk_points_1()[16] == 1);
    assert(quest_chunk_points_1()[17] == 2);
    assert(quest_chunk_points_1()[18] == 1);
    assert(quest_chunk_points_1()[19] == 2);
}

proof fn lemma_chunk_points_sum_2()
    ensures
        sum_prefix(quest_chunk_points_2(), 20) == 40,
{
    reveal_with_fuel(sum_prefix, 21);
    assert(quest_chunk_points_2()[0] == 2);
    assert(quest_chunk_points_2()[1] == 2);
    assert(quest_chunk_points_2()[2] == 1);
    assert(quest_chunk_points_2()[3] == 1);
    assert(quest_chunk_points_2()[4] == 2);
    assert(quest_chunk_points_2()[5] == 1);
    assert(quest_chunk_points_2()[6] == 3);
    assert(quest_chunk_points_2()[7] == 5);
    assert(quest_chunk_points_2()[8] == 1);
    assert(quest_chunk_points_2()[9] == 2);
    assert(quest_chunk_points_2()[10] == 5);
    assert(quest_chunk_points_2()[11] == 2);
    assert(quest_chunk_points_2()[12] == 4);
    assert(quest_chunk_points_2()[13] == 1);
    assert(quest_chunk_points_2()[14] == 1);
    assert(quest_chunk_points_2()[15] == 2);
    assert(quest_chunk_points_2()[16] == 1);
    assert(quest_chunk_points_2()[17] == 1);
    assert(quest_chunk_points_2()[18] == 2);
    assert(quest_chunk_points_2()[19] == 1);
}

proof fn lemma_chunk_points_sum_3()
    ensures
        sum_prefix(quest_chunk_points_3(), 20) == 33,
{
    reveal_with_fuel(sum_prefix, 21);
    assert(quest_chunk_points_3()[0] == 1);
    assert(quest_chunk_points_3()[1] == 2);
    assert(quest_chunk_points_3()[2] == 2);
    assert(quest_chunk_points_3()[3] == 2);
    assert(quest_chunk_points_3()[4] == 1);
    assert(quest_chunk_points_3()[5] == 1);
    assert(quest_chunk_points_3()[6] == 2);
    assert(quest_chunk_points_3()[7] == 3);
    assert(quest_chunk_points_3()[8] == 1);
    assert(quest_chunk_points_3()[9] == 2);
    assert(quest_chunk_points_3()[10] == 1);
    assert(quest_chunk_points_3()[11] == 2);
    assert(quest_chunk_points_3()[12] == 1);
    assert(quest_chunk_points_3()[13] == 3);
    assert(quest_chunk_points_3()[14] == 1);
    assert(quest_chunk_points_3()[15] == 2);
    assert(quest_chunk_points_3()[16] == 1);
    assert(quest_chunk_points_3()[17] == 1);
    assert(quest_chunk_points_3()[18] == 2);
    assert(quest_chunk_points_3()[19] == 2);
}

proof fn lemma_chunk_points_sum_4()
    ensures
        sum_prefix(quest_chunk_points_4(), 20) == 39,
{
    reveal_with_fuel(sum_prefix, 21);
    assert(quest_chunk_points_4()[0] == 1);
    assert(quest_chunk_points_4()[1] == 5);
    assert(quest_chunk_points_4()[2] == 2);
    assert(quest_chunk_points_4()[3] == 1);
    assert(quest_chunk_points_4()[4] == 1);
    assert(quest_chunk_points_4()[5] == 2);
    assert(quest_chunk_points_4()[6] == 1);
    assert(quest_chunk_points_4()[7] == 2);
    assert(quest_chunk_points_4()[8] == 1);
    assert(quest_chunk_points_4()[9] == 2);
    assert(quest_chunk_points_4()[10] == 2);
    assert(quest_chunk_points_4()[11] == 2);
    assert(quest_chunk_points_4()[12] == 2);
    assert(quest_chunk_points_4()[13] == 2);
    assert(quest_chunk_points_4()[14] == 1);
    assert(quest_chunk_points_4()[15] == 1);
    assert(quest_chunk_points_4()[16] == 2);
    assert(quest_chunk_points_4()[17] == 2);
    assert(quest_chunk_points_4()[18] == 4);
    assert(quest_chunk_points_4()[19] == 3);
}

proof fn lemma_chunk_points_sum_5()
    ensures
        sum_prefix(quest_chunk_points_5(), 20) == 43,
{
    reveal_with_fuel(sum_prefix, 21);
    assert(quest_chunk_points_5()[0] == 1);
    assert(quest_chunk_points_5()[1] == 2);
    assert(quest_chunk_points_5()[2] == 2);
    assert(quest_chunk_points_5()[3] == 3);
    assert(quest_chunk_points_5()[4] == 1);
    assert(quest_chunk_points_5()[5] == 6);
    assert(quest_chunk_points_5()[6] == 1);
    assert(quest_chunk_points_5()[7] == 3);
    assert(quest_chunk_points_5()[8] == 4);
    assert(quest_chunk_points_5()[9] == 2);
    assert(quest_chunk_points_5()[10] == 2);
    assert(quest_chunk_points_5()[11] == 2);
    assert(quest_chunk_points_5()[12] == 3);
    assert(quest_chunk_points_5()[13] == 1);
    assert(quest_chunk_points_5()[14] == 2);
    assert(quest_chunk_points_5()[15] == 2);
    assert(quest_chunk_points_5()[16] == 2);
    assert(quest_chunk_points_5()[17] == 1);
    assert(quest_chunk_points_5()[18] == 2);
    assert(quest_chunk_points_5()[19] == 1);
}

proof fn lemma_chunk_points_sum_6()
    ensures
        sum_prefix(quest_chunk_points_6(), 20) == 23,
{
    reveal_with_fuel(sum_prefix, 21);
    assert(quest_chunk_points_6()[0] == 2);
    assert(quest_chunk_points_6()[1] == 2);
    assert(quest_chunk_points_6()[2] == 1);
    assert(quest_chunk_points_6()[3] == 1);
    assert(quest_chunk_points_6()[4] == 1);
    assert(quest_chunk_points_6()[5] == 1);
    assert(quest_chunk_points_6()[6] == 1);
    assert(quest_chunk_points_6()[7] == 1);
    assert(quest_chunk_points_6()[8] == 1);
    assert(quest_chunk_points_6()[9] == 2);
    assert(quest_chunk_points_6()[10] == 1);
    assert(quest_chunk_points_6()[11] == 1);
    assert(quest_chunk_points_6()[12] == 1);
    assert(quest_chunk_points_6()[13] == 1);
    assert(quest_chunk_points_6()[14] == 1);
    assert(quest_chunk_points_6()[15] == 1);
    assert(quest_chunk_points_6()[16] == 1);
    assert(quest_chunk_points_6()[17] == 1);
    assert(quest_chunk_points_6()[18] == 1);
    assert(quest_chunk_points_6()[19] == 1);
}

proof fn lemma_chunk_points_sum_7()
    ensures
        sum_prefix(quest_chunk_points_7(), 20) == 35,
{
    reveal_with_fuel(sum_prefix, 21);
    assert(quest_chunk_points_7()[0] == 1);
    assert(quest_chunk_points_7()[1] == 3);
    assert(quest_chunk_points_7()[2] == 1);
    assert(quest_chunk_points_7()[3] == 1);
    assert(quest_chunk_points_7()[4] == 1);
    assert(quest_chunk_points_7()[5] == 2);
    assert(quest_chunk_points_7()[6] == 1);
    assert(quest_chunk_points_7()[7] == 1);
    assert(quest_chunk_points_7()[8] == 1);
    assert(quest_chunk_points_7()[9] == 2);
    assert(quest_chunk_points_7()[10] == 3);
    assert(quest_chunk_points_7()[11] == 1);
    assert(quest_chunk_points_7()[12] == 2);
    assert(quest_chunk_points_7()[13] == 4);
    assert(quest_chunk_points_7()[14] == 2);
    assert(quest_chunk_points_7()[15] == 2);
    assert(quest_chunk_points_7()[16] == 1);
    assert(quest_chunk_points_7()[17] == 1);
    assert(quest_chunk_points_7()[18] == 4);
    assert(quest_chunk_points_7()[19] == 1);
}

proof fn lemma_chunk_points_sum_8()
    ensures
        sum_prefix(quest_chunk_points_8(), 20) == 32,
{
    reveal_with_fuel(sum_prefix, 21);
    assert(quest_chunk_points_8()[0] == 2);
    assert(quest_chunk_points_8()[1] == 2);
    assert(quest_chunk_points_8()[2] == 2);
    assert(quest_chunk_points_8()[3] == 2);
    assert(quest_chunk_points_8()[4] == 1);
    assert(quest_chunk_points_8()[5] == 1);
    assert(quest_chunk_points_8()[6] == 1);
    assert(quest_chunk_points_8()[7] == 1);
    assert(quest_chunk_points_8()[8] == 1);
    assert(quest_chunk_points_8()[9] == 1);
    assert(quest_chunk_points_8()[10] == 2);
    assert(quest_chunk_points_8()[11] == 2);
    assert(quest_chunk_points_8()[12] == 2);
    assert(quest_chunk_points_8()[13] == 1);
    assert(quest_chunk_points_8()[14] == 2);
    assert(quest_chunk_points_8()[15] == 1);
    assert(quest_chunk_points_8()[16] == 1);
    assert(quest_chunk_points_8()[17] == 1);
    assert(quest_chunk_points_8()[18] == 5);
    assert(quest_chunk_points_8()[19] == 1);
}

proof fn lemma_chunk_points_sum_9()
    ensures
        sum_prefix(quest_chunk_points_9(), 6) == 16,
{
    reveal_with_fuel(sum_prefix, 7);
    assert(quest_chunk_points_9()[0] == 4);
    assert(quest_chunk_points_9()[1] == 1);
    assert(quest_chunk_points_9()[2] == 1);
    assert(quest_chunk_points_9()[3] == 5);
    assert(quest_chunk_points_9()[4] == 4);
    assert(quest_chunk_points_9()[5] == 1);
}

proof fn lemma_points_total_combined()
    ensures
        sum_prefix(catalog_quest_points(), 186) == 331,
{
    lemma_chunk_points_sum_0();
    lemma_chunk_points_sum_1();
    lemma_chunk_points_sum_2();
    lemma_chunk_points_sum_3();
    lemma_chunk_points_sum_4();
    lemma_chunk_points_sum_5();
    lemma_chunk_points_sum_6();
    lemma_chunk_points_sum_7();
    lemma_chunk_points_sum_8();
    lemma_chunk_points_sum_9();
    lemma_sum_prefix_concat(quest_chunk_points_0(), quest_chunk_points_1(), 20);
    assert(sum_prefix((quest_chunk_points_0() + quest_chunk_points_1()), 40) == 70);
    lemma_sum_prefix_concat((quest_chunk_points_0() + quest_chunk_points_1()), quest_chunk_points_2(), 20);
    assert(sum_prefix(((quest_chunk_points_0() + quest_chunk_points_1()) + quest_chunk_points_2()), 60) == 110);
    lemma_sum_prefix_concat(((quest_chunk_points_0() + quest_chunk_points_1()) + quest_chunk_points_2()), quest_chunk_points_3(), 20);
    assert(sum_prefix((((quest_chunk_points_0() + quest_chunk_points_1()) + quest_chunk_points_2()) + quest_chunk_points_3()), 80) == 143);
    lemma_sum_prefix_concat((((quest_chunk_points_0() + quest_chunk_points_1()) + quest_chunk_points_2()) + quest_chunk_points_3()), quest_chunk_points_4(), 20);
    assert(sum_prefix(((((quest_chunk_points_0() + quest_chunk_points_1()) + quest_chunk_points_2()) + quest_chunk_points_3()) + quest_chunk_points_4()), 100) == 182);
    lemma_sum_prefix_concat(((((quest_chunk_points_0() + quest_chunk_points_1()) + quest_chunk_points_2()) + quest_chunk_points_3()) + quest_chunk_points_4()), quest_chunk_points_5(), 20);
    assert(sum_prefix((((((quest_chunk_points_0() + quest_chunk_points_1()) + quest_chunk_points_2()) + quest_chunk_points_3()) + quest_chunk_points_4()) + quest_chunk_points_5()), 120) == 225);
    lemma_sum_prefix_concat((((((quest_chunk_points_0() + quest_chunk_points_1()) + quest_chunk_points_2()) + quest_chunk_points_3()) + quest_chunk_points_4()) + quest_chunk_points_5()), quest_chunk_points_6(), 20);
    assert(sum_prefix(((((((quest_chunk_points_0() + quest_chunk_points_1()) + quest_chunk_points_2()) + quest_chunk_points_3()) + quest_chunk_points_4()) + quest_chunk_points_5()) + quest_chunk_points_6()), 140) == 248);
    lemma_sum_prefix_concat(((((((quest_chunk_points_0() + quest_chunk_points_1()) + quest_chunk_points_2()) + quest_chunk_points_3()) + quest_chunk_points_4()) + quest_chunk_points_5()) + quest_chunk_points_6()), quest_chunk_points_7(), 20);
    assert(sum_prefix((((((((quest_chunk_points_0() + quest_chunk_points_1()) + quest_chunk_points_2()) + quest_chunk_points_3()) + quest_chunk_points_4()) + quest_chunk_points_5()) + quest_chunk_points_6()) + quest_chunk_points_7()), 160) == 283);
    lemma_sum_prefix_concat((((((((quest_chunk_points_0() + quest_chunk_points_1()) + quest_chunk_points_2()) + quest_chunk_points_3()) + quest_chunk_points_4()) + quest_chunk_points_5()) + quest_chunk_points_6()) + quest_chunk_points_7()), quest_chunk_points_8(), 20);
    assert(sum_prefix(((((((((quest_chunk_points_0() + quest_chunk_points_1()) + quest_chunk_points_2()) + quest_chunk_points_3()) + quest_chunk_points_4()) + quest_chunk_points_5()) + quest_chunk_points_6()) + quest_chunk_points_7()) + quest_chunk_points_8()), 180) == 315);
    lemma_sum_prefix_concat(((((((((quest_chunk_points_0() + quest_chunk_points_1()) + quest_chunk_points_2()) + quest_chunk_points_3()) + quest_chunk_points_4()) + quest_chunk_points_5()) + quest_chunk_points_6()) + quest_chunk_points_7()) + quest_chunk_points_8()), quest_chunk_points_9(), 6);
    assert(sum_prefix((((((((((quest_chunk_points_0() + quest_chunk_points_1()) + quest_chunk_points_2()) + quest_chunk_points_3()) + quest_chunk_points_4()) + quest_chunk_points_5()) + quest_chunk_points_6()) + quest_chunk_points_7()) + quest_chunk_points_8()) + quest_chunk_points_9()), 186) == 331);
    assert(catalog_quest_points() =~= (((((((((quest_chunk_points_0() + quest_chunk_points_1()) + quest_chunk_points_2()) + quest_chunk_points_3()) + quest_chunk_points_4()) + quest_chunk_points_5()) + quest_chunk_points_6()) + quest_chunk_points_7()) + quest_chunk_points_8()) + quest_chunk_points_9()));
}

/// The quest points of the full catalog sum to the canonical total.
pub proof fn lemma_catalog_quest_points_total()
    ensures
        sum_prefix(catalog_quest_points(), 186) == 331,
{
    lemma_points_total_combined();
}

/// The catalog of every quest, paired with the list of their ids in
/// catalog order.
#[derive(Debug)]
pub struct QuestCatalog {
    quests: Vec<Quest>,
    ids: Vec<QuestId>,
}

impl QuestCatalog {
    /// The quests, in catalog order.
    pub closed spec fn quest_seq(&self) -> Seq<Quest> {
        self.quests@
    }

    /// The quest ids, in catalog order.
    pub closed spec fn id_seq(&self) -> Seq<QuestId> {
        self.ids@
    }

    /// A well-formed catalog lists one id per quest, in the same order;
    /// the ids are pairwise distinct; and every quest repeats no
    /// requirement.
    pub open spec fn wf(&self) -> bool {
        &&& self.id_seq().len() == self.quest_seq().len()
        &&& forall|i: int|
            0 <= i < self.quest_seq().len() ==> (#[trigger] self.id_seq()[i])@
                == self.quest_seq()[i].id@
        &&& forall|i: int, j: int|
            0 <= i < j < self.id_seq().len() ==> (#[trigger] self.id_seq()[i])@ != (
            #[trigger] self.id_seq()[j])@
        &&& forall|i: int| 0 <= i < self.quest_seq().len() ==> (#[trigger] self.quest_seq()[i]).wf()
    }

    /// The catalog holds exactly the canonical content: one quest per
    /// catalog id, in order, each carrying its canonical quest points.
    pub open spec fn is_canonical(&self) -> bool {
        &&& self.quest_seq().len() == 186
        &&& forall|i: int|
            0 <= i < 186 ==> (#[trigger] self.quest_seq()[i]).id@ == catalog_ids()[i]
        &&& forall|i: int|
            0 <= i < 186 ==> (#[trigger] self.quest_seq()[i]).quest_points as int
                == catalog_quest_points()[i]
    }

    /// Builds the full catalog: 186 quests, with the canonical content.
    pub fn new() -> (c: QuestCatalog)
        ensures
            c.wf(),
            c.is_canonical(),
            c.quest_seq().len() == 186,
            c.id_seq().len() == 186,
    {
        let mut quests: Vec<Quest> = Vec::new();
        let mut c0 = quest_chunk_0();
        quests.append(&mut c0);
        let mut c1 = quest_chunk_1();
        quests.append(&mut c1);
        let mut c2 = quest_chunk_2();
        quests.append(&mut c2);
        let mut c3 = quest_chunk_3();
        quests.append(&mut c3);
        let mut c4 = quest_chunk_4();
        quests.append(&mut c4);
        let mut c5 = quest_chunk_5();
        quests.append(&mut c5);
        let mut c6 = quest_chunk_6();
        quests.append(&mut c6);
        let mut c7 = quest_chunk_7();
        quests.append(&mut c7);
        let mut c8 = quest_chunk_8();
        quests.append(&mut c8);
        let mut c9 = quest_chunk_9();
        quests.append(&mut c9);
        proof {
            assert forall|i: int|
                0 <= i < 186 implies (#[trigger] quests@[i]).id@ == catalog_ids()[i] && (
            #[trigger] quests@[i]).quest_points as int == catalog_quest_points()[i] by {
            if i < 20 {
                assert(catalog_ids()[i] == quest_chunk_ids_0()[i - 0]);
                assert(catalog_quest_points()[i] == quest_chunk_points_0()[i - 0]);
            } else if i < 40 {
                assert(catalog_ids()[i] == quest_chunk_ids_1()[i - 20]);
                assert(catalog_quest_points()[i] == quest_chunk_points_1()[i - 20]);
            } else if i < 60 {
                assert(catalog_ids()[i] == quest_chunk_ids_2()[i - 40]);
                assert(catalog_quest_points()[i] == quest_chunk_points_2()[i - 40]);
            } else if i < 80 {
                assert(catalog_ids()[i] == quest_chunk_ids_3()[i - 60]);
                assert(catalog_quest_points()[i] == quest_chunk_points_3()[i - 60]);
            } else if i < 100 {
                assert(catalog_ids()[i] == quest_chunk_ids_4()[i - 80]);
                assert(catalog_quest_points()[i] == quest_chunk_points_4()[i - 80]);
            } else if i < 120 {
                assert(catalog_ids()[i] == quest_chunk_ids_5()[i - 100]);
                assert(catalog_quest_points()[i] == quest_chunk_points_5()[i - 100]);
            } else if i < 140 {
                assert(catalog_ids()[i] == quest_chunk_ids_6()[i - 120]);
                assert(catalog_quest_points()[i] == quest_chunk_points_6()[i - 120]);
            } else if i < 160 {
                assert(catalog_ids()[i] == quest_chunk_ids_7()[i - 140]);
                assert(catalog_quest_points()[i] == quest_chunk_points_7()[i - 140]);
            } else if i < 180 {
                assert(catalog_ids()[i] == quest_chunk_ids_8()[i - 160]);
                assert(catalog_quest_points()[i] == quest_chunk_points_8()[i - 160]);
            } else {
                assert(catalog_ids()[i] == quest_chunk_ids_9()[i - 180]);
                assert(catalog_quest_points()[i] == quest_chunk_points_9()[i - 180]);
            }
            }
        }
        let mut ids: Vec<QuestId> = Vec::new();
        let mut i: usize = 0;
        while i < quests.len()
            invariant
                i <= quests@.len(),
                ids@.len() == i,
                forall|k: int| 0 <= k < i ==> (#[trigger] ids@[k])@ == quests@[k].id@,
            decreases quests@.len() - i,
        {
            ids.push(quests[i].id.clone());
            i = i + 1;
        }
        proof {
            lemma_catalog_ids_distinct();
        }
        QuestCatalog { quests, ids }
    }
}

impl QuestId {
    /// Every quest id the catalog defines, in catalog order.
    pub fn all<'a>(catalog: &'a QuestCatalog) -> (r: &'a Vec<QuestId>)
        ensures
            r@ == catalog.id_seq(),
    {
        &catalog.ids
    }

    /// The quest this id names: the first catalog entry whose id matches,
    /// or a not-found error carrying this id when none does.
    pub fn quest<'a>(&self, catalog: &'a QuestCatalog) -> (r: Result<
        &'a Quest,
        QuestNotFoundError,
    >)
        ensures
            r is Ok <==> exists|i: int|
                0 <= i < catalog.quest_seq().len() && (#[trigger] catalog.quest_seq()[i]).id@
                    == self@,
            r matches Ok(q) ==> exists|i: int|
                {
                    &&& 0 <= i < catalog.quest_seq().len()
                    &&& (#[trigger] catalog.quest_seq()[i]).id@ == self@
                    &&& *q == catalog.quest_seq()[i]
                    &&& forall|j: int| 0 <= j < i ==> catalog.quest_seq()[j].id@ != self@
                },
            r matches Err(e) ==> {
                &&& forall|i: int|
                    0 <= i < catalog.quest_seq().len() ==> (#[trigger] catalog.quest_seq()[i]).id@
                        != self@
                &&& e.0@ == self@
            },
    {
        let mut i: usize = 0;
        while i < catalog.quests.len()
            invariant
                i <= catalog.quest_seq().len(),
                forall|j: int| 0 <= j < i ==> (#[trigger] catalog.quest_seq()[j]).id@ != self@,
            decreases catalog.quest_seq().len() - i,
        {
            if str_eq(catalog.quests[i].id.as_str(), self.as_str()) {
                return Ok(&catalog.quests[i]);
            }
            i = i + 1;
        }
        Err(QuestNotFoundError(self.clone()))
    }
}

/// Catalog self-consistency: every id the catalog lists belongs to some
/// quest in it, so looking it up succeeds.
pub proof fn lemma_catalog_ids_resolve(catalog: QuestCatalog, i: int)
    requires
        catalog.wf(),
        0 <= i < catalog.id_seq().len(),
    ensures
        exists|j: int|
            0 <= j < catalog.quest_seq().len() && (#[trigger] catalog.quest_seq()[j]).id@
                == catalog.id_seq()[i]@,
{
    assert(0 <= i < catalog.quest_seq().len() && (catalog.quest_seq()[i]).id@
        == catalog.id_seq()[i]@);
}

/// The canonical catalog's quest points sum to the canonical total of 331.
pub proof fn lemma_catalog_total_quest_points(catalog: QuestCatalog)
    requires
        catalog.is_canonical(),
    ensures
        sum_prefix(
            Seq::new(
                catalog.quest_seq().len() as nat,
                |i: int| catalog.quest_seq()[i].quest_points as int,
            ),
            186,
        ) == 331,
{
    let pts = Seq::new(
        catalog.quest_seq().len() as nat,
        |i: int| catalog.quest_seq()[i].quest_points as int,
    );
    assert(pts =~= catalog_quest_points()) by {
        assert(catalog_quest_points().len() == 186);
    }
    lemma_catalog_quest_points_total();
}

} // verus!
