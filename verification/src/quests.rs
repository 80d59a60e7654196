//! The quest-guide content module: quests with their kind and the
//! requirement data the optimal quest guide's script draws on.

use vstd::prelude::*;
use vstd::string::StringExecFns;
use crate::Level;
use crate::skill::Skill;
use crate::text::str_eq;

pub use crate::quest::QuestId;

verus! {

/// Whether a quest is free to play, members-only, or a miniquest.
#[derive(Debug, Clone, Copy, PartialEq, Eq, Hash, Structural)]
pub enum QuestKind {
    Free,
    Members,
    Miniquest,
}

/// A skill-level prerequisite, with whether a temporary boost may meet it
/// and whether it binds ironman accounts only.
#[derive(Debug, Clone, Copy, PartialEq, Eq, Hash, Structural)]
pub struct SkillRequirement {
    pub skill: Skill,
    pub level: Level,
    pub boostable: bool,
    pub ironman_only: bool,
}

impl SkillRequirement {
    /// Starts building a requirement for the given level in the given
    /// skill; it is neither boostable nor ironman-only until said so.
    pub fn builder(level: Level, skill: Skill) -> (b: SkillRequirementBuilder)
        ensures
            b.0 == (SkillRequirement { skill, level, boostable: false, ironman_only: false }),
    {
        SkillRequirementBuilder(
            SkillRequirement { skill, level, boostable: false, ironman_only: false },
        )
    }
}

/// A fluent builder for `SkillRequirement`; each step returns the frozen
/// value so far.
#[derive(Debug, Clone, Copy)]
pub struct SkillRequirementBuilder(pub SkillRequirement);

impl SkillRequirementBuilder {
    /// Marks the requirement as satisfiable by a temporary boost.
    pub fn boostable(self) -> (b: Self)
        ensures
            b.0 == (SkillRequirement { boostable: true, ..self.0 }),
    {
        SkillRequirementBuilder(SkillRequirement { boostable: true, ..self.0 })
    }

    /// Marks the requirement as binding ironman accounts only.
    pub fn ironman_only(self) -> (b: Self)
        ensures
            b.0 == (SkillRequirement { ironman_only: true, ..self.0 }),
    {
        SkillRequirementBuilder(SkillRequirement { ironman_only: true, ..self.0 })
    }

    /// The finished requirement.
    pub fn build(self) -> (r: SkillRequirement)
        ensures
            r == self.0,
    {
        self.0
    }
}

/// One prerequisite of a quest in the guide's model.
#[derive(Debug)]
pub enum QuestRequirement {
    Skill(SkillRequirement),
    Quest(QuestId),
    QuestPoints(u32),
}

/// A quest as the guide models it: identity, display name, kind, and
/// prerequisites in display order.
#[derive(Debug)]
pub struct Quest {
    pub id: QuestId,
    pub name: String,
    pub kind: QuestKind,
    pub requirements: Vec<QuestRequirement>,
}

impl Quest {
    /// This quest's id.
    pub fn id(&self) -> (r: &QuestId)
        ensures
            r == &self.id,
    {
        &self.id
    }

    /// This quest's display name.
    pub fn name(&self) -> (r: &str)
        ensures
            r@ == self.name@,
    {
        self.name.as_str()
    }

    /// Whether this quest is free, members-only or a miniquest.
    pub fn kind(&self) -> (r: QuestKind)
        ensures
            r == self.kind,
    {
        self.kind
    }

    /// This quest's prerequisites, in display order.
    pub fn requirements(&self) -> (r: &Vec<QuestRequirement>)
        ensures
            r == &self.requirements,
    {
        &self.requirements
    }

    /// The id this quest was built with, as a spec value.
    pub closed spec fn id_spec(&self) -> Seq<char> {
        self.id@
    }
}

pub open spec fn quest_list_chunk_view_0() -> Seq<(Seq<char>, QuestKind)> {
    seq![("cooks_assistant"@, QuestKind::Free), ("demon_slayer"@, QuestKind::Free), ("the_restless_ghost"@, QuestKind::Free), ("romeo_and_juliet"@, QuestKind::Free), ("sheep_shearer"@, QuestKind::Free), ("shield_of_arrav"@, QuestKind::Free), ("ernest_the_chicken"@, QuestKind::Free), ("vampire_slayer"@, QuestKind::Free), ("imp_catcher"@, QuestKind::Free), ("prince_ali_rescue"@, QuestKind::Free), ("dorics_quest"@, QuestKind::Free), ("black_knights_fortress"@, QuestKind::Free), ("witchs_potion"@, QuestKind::Free), ("the_knights_sword"@, QuestKind::Free), ("goblin_diplomacy"@, QuestKind::Free), ("pirates_treasure"@, QuestKind::Free), ("dragon_slayer"@, QuestKind::Free), ("druidic_ritual"@, QuestKind::Members)]
}

fn guide_quest_chunk_0() -> (v: Vec<Quest>)
    ensures
        v@.len() == 18,
        forall|k: int|
            0 <= k < v@.len() ==> (#[trigger] v@[k]).id@ == quest_list_chunk_view_0()[k].0
                && v@[k].kind == quest_list_chunk_view_0()[k].1,
{
    let mut v: Vec<Quest> = Vec::new();
    v.push(
        Quest {
            id: QuestId::new_static("cooks_assistant"),
            name: String::from_str("Cook's Assistant"),
            kind: QuestKind::Free,
            requirements: Vec::new(),
        },
    );
    v.push(
        Quest {
            id: QuestId::new_static("demon_slayer"),
            name: String::from_str("Demon Slayer"),
            kind: QuestKind::Free,
            requirements: Vec::new(),
        },
    );
    v.push(
        Quest {
            id: QuestId::new_static("the_restless_ghost"),
            name: String::from_str("The Restless Ghost"),
            kind: QuestKind::Free,
            requirements: Vec::new(),
        },
    );
    v.push(
        Quest {
            id: QuestId::new_static("romeo_and_juliet"),
            name: String::from_str("Romeo & Juliet"),
            kind: QuestKind::Free,
            requirements: Vec::new(),
        },
    );
    v.push(
        Quest {
            id: QuestId::new_static("sheep_shearer"),
            name: String::from_str("Sheep Shearer"),
            kind: QuestKind::Free,
            requirements: Vec::new(),
        },
    );
    v.push(
        Quest {
            id: QuestId::new_static("shield_of_arrav"),
            name: String::from_str("Shield of Arrav"),
            kind: QuestKind::Free,
            requirements: Vec::new(),
        },
    );
    v.push(
        Quest {
            id: QuestId::new_static("ernest_the_chicken"),
            name: String::from_str("Ernest the Chicken"),
            kind: QuestKind::Free,
            requirements: Vec::new(),
        },
    );
    v.push(
        Quest {
            id: QuestId::new_static("vampire_slayer"),
            name: String::from_str("Vampire Slayer"),
            kind: QuestKind::Free,
            requirements: Vec::new(),
        },
    );
    v.push(
        Quest {
            id: QuestId::new_static("imp_catcher"),
            name: String::from_str("Imp Catcher"),
            kind: QuestKind::Free,
            requirements: Vec::new(),
        },
    );
    v.push(
        Quest {
            id: QuestId::new_static("prince_ali_rescue"),
            name: String::from_str("Prince Ali Rescue"),
            kind: QuestKind::Free,
            requirements: Vec::new(),
        },
    );
    v.push(
        Quest {
            id: QuestId::new_static("dorics_quest"),
            name: String::from_str("Doric's Quest"),
            kind: QuestKind::Free,
            requirements: Vec::new(),
        },
    );
    v.push(
        Quest {
            id: QuestId::new_static("black_knights_fortress"),
            name: String::from_str("Black Knights' Fortress"),
            kind: QuestKind::Free,
            requirements: vec![
                QuestRequirement::QuestPoints(12),
            ],
        },
    );
    v.push(
        Quest {
            id: QuestId::new_static("witchs_potion"),
            name: String::from_str("Witch's Potion"),
            kind: QuestKind::Free,
            requirements: Vec::new(),
        },
    );
    v.push(
        Quest {
            id: QuestId::new_static("the_knights_sword"),
            name: String::from_str("The Knight's Sword"),
            kind: QuestKind::Free,
            requirements: vec![
                QuestRequirement::Skill(SkillRequirement::builder(Level(10), Skill::Mining).build()),
            ],
        },
    );
    v.push(
        Quest {
            id: QuestId::new_static("goblin_diplomacy"),
            name: String::from_str("Goblin Diplomacy"),
            kind: QuestKind::Free,
            requirements: Vec::new(),
        },
    );
    v.push(
        Quest {
            id: QuestId::new_static("pirates_treasure"),
            name: String::from_str("Pirate's Treasure"),
            kind: QuestKind::Free,
            requirements: Vec::new(),
        },
    );
    v.push(
        Quest {
            id: QuestId::new_static("dragon_slayer"),
            name: String::from_str("Dragon Slayer"),
            kind: QuestKind::Free,
            requirements: vec![
                QuestRequirement::QuestPoints(32),
                QuestRequirement::Skill(SkillRequirement::builder(Level(8), Skill::Crafting).ironman_only().build()),
            ],
        },
    );
    v.push(
        Quest {
            id: QuestId::new_static("druidic_ritual"),
            name: String::from_str("Druidic Ritual"),
            kind: QuestKind::Members,
            requirements: Vec::new(),
        },
    );
    v
}

pub open spec fn quest_list_chunk_view_1() -> Seq<(Seq<char>, QuestKind)> {
    seq![("lost_city"@, QuestKind::Members), ("witchs_house"@, QuestKind::Members), ("merlins_crystal"@, QuestKind::Members), ("heroes_quest"@, QuestKind::Members), ("scorpion_catcher"@, QuestKind::Members), ("family_crest"@, QuestKind::Members), ("tribal_totem"@, QuestKind::Members), ("fishing_contest"@, QuestKind::Members), ("monks_friend"@, QuestKind::Members), ("temple_of_ikov"@, QuestKind::Members), ("clock_tower"@, QuestKind::Members), ("holy_grail"@, QuestKind::Members), ("tree_gnome_village"@, QuestKind::Members), ("fight_arena"@, QuestKind::Members), ("hazeel_cult"@, QuestKind::Members), ("sheep_herder"@, QuestKind::Members), ("plague_city"@, QuestKind::Members), ("sea_slug"@, QuestKind::Members)]
}

fn guide_quest_chunk_1() -> (v: Vec<Quest>)
    ensures
        v@.len() == 18,
        forall|k: int|
            0 <= k < v@.len() ==> (#[trigger] v@[k]).id@ == quest_list_chunk_view_1()[k].0
                && v@[k].kind == quest_list_chunk_view_1()[k].1,
{
    let mut v: Vec<Quest> = Vec::new();
    v.push(
        Quest {
            id: QuestId::new_static("lost_city"),
            name: String::from_str("Lost City"),
            kind: QuestKind::Members,
            requirements: vec![
                QuestRequirement::Skill(SkillRequirement::builder(Level(31), Skill::Crafting).boostable().build()),
                QuestRequirement::Skill(SkillRequirement::builder(Level(36), Skill::Woodcutting).build()),
            ],
        },
    );
    v.push(
        Quest {
            id: QuestId::new_static("witchs_house"),
            name: String::from_str("Witch's House"),
            kind: QuestKind::Members,
            requirements: Vec::new(),
        },
    );
    v.push(
        Quest {
            id: QuestId::new_static("merlins_crystal"),
            name: String::from_str("Merlin's Crystal"),
            kind: QuestKind::Members,
            requirements: Vec::new(),
        },
    );
    v.push(
        Quest {
            id: QuestId::new_static("heroes_quest"),
            name: String::from_str("Heroes' Quest"),
            kind: QuestKind::Members,
            requirements: vec![
                QuestRequirement::QuestPoints(55),
                QuestRequirement::Quest(QuestId::new_static("shield_of_arrav")),
                QuestRequirement::Quest(QuestId::new_static("lost_city")),
                QuestRequirement::Quest(QuestId::new_static("merlins_crystal")),
                QuestRequirement::Quest(QuestId::new_static("dragon_slayer")),
                QuestRequirement::Quest(QuestId::new_static("druidic_ritual")),
                QuestRequirement::Skill(SkillRequirement::builder(Level(53), Skill::Cooking).boostable().build()),
                QuestRequirement::Skill(SkillRequirement::builder(Level(53), Skill::Fishing).boostable().build()),
                QuestRequirement::Skill(SkillRequirement::builder(Level(25), Skill::Herblore).boostable().build()),
                QuestRequirement::Skill(SkillRequirement::builder(Level(50), Skill::Mining).boostable().build()),
            ],
        },
    );
    v.push(
        Quest {
            id: QuestId::new_static("scorpion_catcher"),
            name: String::from_str("Scorpion Catcher"),
            kind: QuestKind::Members,
            requirements: vec![
                QuestRequirement::Skill(SkillRequirement::builder(Level(31), Skill::Prayer).boostable().build()),
                QuestRequirement::Quest(QuestId::new_static("alfred_grimhands_barcrawl")),
            ],
        },
    );
    v.push(
        Quest {
            id: QuestId::new_static("family_crest"),
            name: String::from_str("Family Crest"),
            kind: QuestKind::Members,
            requirements: vec![
                QuestRequirement::Skill(SkillRequirement::builder(Level(40), Skill::Mining).boostable().build()),
                QuestRequirement::Skill(SkillRequirement::builder(Level(40), Skill::Smithing).boostable().build()),
                QuestRequirement::Skill(SkillRequirement::builder(Level(59), Skill::Magic).boostable().build()),
                QuestRequirement::Skill(SkillRequirement::builder(Level(40), Skill::Crafting).boostable().build()),
            ],
        },
    );
    v.push(
        Quest {
            id: QuestId::new_static("tribal_totem"),
            name: String::from_str("Tribal Totem"),
            kind: QuestKind::Members,
            requirements: vec![
                QuestRequirement::Skill(SkillRequirement::builder(Level(21), Skill::Thieving).build()),
            ],
        },
    );
    v.push(
        Quest {
            id: QuestId::new_static("fishing_contest"),
            name: String::from_str("Fishing Contest"),
            kind: QuestKind::Members,
            requirements: vec![
                QuestRequirement::Skill(SkillRequirement::builder(Level(10), Skill::Fishing).build()),
            ],
        },
    );
    v.push(
        Quest {
            id: QuestId::new_static("monks_friend"),
            name: String::from_str("Monk's Friend"),
            kind: QuestKind::Members,
            requirements: Vec::new(),
        },
    );
    v.push(
        Quest {
            id: QuestId::new_static("temple_of_ikov"),
            name: String::from_str("Temple of Ikov"),
            kind: QuestKind::Members,
            requirements: vec![
                QuestRequirement::Skill(SkillRequirement::builder(Level(42), Skill::Thieving).boostable().build()),
                QuestRequirement::Skill(SkillRequirement::builder(Level(40), Skill::Ranged).build()),
            ],
        },
    );
    v.push(
        Quest {
            id: QuestId::new_static("clock_tower"),
            name: String::from_str("Clock Tower"),
            kind: QuestKind::Members,
            requirements: Vec::new(),
        },
    );
    v.push(
        Quest {
            id: QuestId::new_static("holy_grail"),
            name: String::from_str("Holy Grail"),
            kind: QuestKind::Members,
            requirements: vec![
                QuestRequirement::Quest(QuestId::new_static("merlins_crystal")),
                QuestRequirement::Skill(SkillRequirement::builder(Level(20), Skill::Attack).build()),
            ],
        },
    );
    v.push(
        Quest {
            id: QuestId::new_static("tree_gnome_village"),
            name: String::from_str("Tree Gnome Village"),
            kind: QuestKind::Members,
            requirements: Vec::new(),
        },
    );
    v.push(
        Quest {
            id: QuestId::new_static("fight_arena"),
            name: String::from_str("Fight Arena"),
            kind: QuestKind::Members,
            requirements: Vec::new(),
        },
    );
    v.push(
        Quest {
            id: QuestId::new_static("hazeel_cult"),
            name: String::from_str("Hazeel Cult"),
            kind: QuestKind::Members,
            requirements: Vec::new(),
        },
    );
    v.push(
        Quest {
            id: QuestId::new_static("sheep_herder"),
            name: String::from_str("Sheep Herder"),
            kind: QuestKind::Members,
            requirements: Vec::new(),
        },
    );
    v.push(
        Quest {
            id: QuestId::new_static("plague_city"),
            name: String::from_str("Plague City"),
            kind: QuestKind::Members,
            requirements: Vec::new(),
        },
    );
    v.push(
        Quest {
            id: QuestId::new_static("sea_slug"),
            name: String::from_str("Sea Slug"),
            kind: QuestKind::Members,
            requirements: vec![
                QuestRequirement::Skill(SkillRequirement::builder(Level(30), Skill::Firemaking).build()),
            ],
        },
    );
    v
}

pub open spec fn quest_list_chunk_view_2() -> Seq<(Seq<char>, QuestKind)> {
    seq![("waterfall_quest"@, QuestKind::Members), ("biohazard"@, QuestKind::Members), ("jungle_potion"@, QuestKind::Members), ("the_grand_tree"@, QuestKind::Members), ("shilo_village"@, QuestKind::Members), ("underground_pass"@, QuestKind::Members), ("observatory_quest"@, QuestKind::Members), ("the_tourist_trap"@, QuestKind::Members), ("watchtower"@, QuestKind::Members), ("dwarf_cannon"@, QuestKind::Members), ("murder_mystery"@, QuestKind::Members), ("the_dig_site"@, QuestKind::Members), ("gertrudes_cat"@, QuestKind::Members), ("legends_quest"@, QuestKind::Members), ("rune_mysteries"@, QuestKind::Free), ("big_chompy_bird_hunting"@, QuestKind::Members), ("elemental_workshop_i"@, QuestKind::Members), ("priest_in_peril"@, QuestKind::Members)]
}

fn guide_quest_chunk_2() -> (v: Vec<Quest>)
    ensures
        v@.len() == 18,
        forall|k: int|
            0 <= k < v@.len() ==> (#[trigger] v@[k]).id@ == quest_list_chunk_view_2()[k].0
                && v@[k].kind == quest_list_chunk_view_2()[k].1,
{
    let mut v: Vec<Quest> = Vec::new();
    v.push(
        Quest {
            id: QuestId::new_static("waterfall_quest"),
            name: String::from_str("Waterfall Quest"),
            kind: QuestKind::Members,
            requirements: Vec::new(),
        },
    );
    v.push(
        Quest {
            id: QuestId::new_static("biohazard"),
            name: String::from_str("Biohazard"),
            kind: QuestKind::Members,
            requirements: vec![
                QuestRequirement::Quest(QuestId::new_static("plague_city")),
            ],
        },
    );
    v.push(
        Quest {
            id: QuestId::new_static("jungle_potion"),
            name: String::from_str("Jungle Potion"),
            kind: QuestKind::Members,
            requirements: vec![
                QuestRequirement::Quest(QuestId::new_static("druidic_ritual")),
            ],
        },
    );
    v.push(
        Quest {
            id: QuestId::new_static("the_grand_tree"),
            name: String::from_str("The Grand Tree"),
            kind: QuestKind::Members,
            requirements: vec![
                QuestRequirement::Skill(SkillRequirement::builder(Level(25), Skill::Agility).boostable().build()),
            ],
        },
    );
    v.push(
        Quest {
            id: QuestId::new_static("shilo_village"),
            name: String::from_str("Shilo Village"),
            kind: QuestKind::Members,
            requirements: vec![
                QuestRequirement::Quest(QuestId::new_static("jungle_potion")),
                QuestRequirement::Skill(SkillRequirement::builder(Level(20), Skill::Crafting).build()),
                QuestRequirement::Skill(SkillRequirement::builder(Level(32), Skill::Agility).boostable().build()),
                QuestRequirement::Skill(SkillRequirement::builder(Level(4), Skill::Smithing).ironman_only().boostable().build()),
            ],
        },
    );
    v.push(
        Quest {
            id: QuestId::new_static("underground_pass"),
            name: String::from_str("Underground Pass"),
            kind: QuestKind::Members,
            requirements: vec![
                QuestRequirement::Skill(SkillRequirement::builder(Level(25), Skill::Ranged).build()),
                QuestRequirement::Quest(QuestId::new_static("biohazard")),
            ],
        },
    );
    v.push(
        Quest {
            id: QuestId::new_static("observatory_quest"),
            name: String::from_str("Observatory Quest"),
            kind: QuestKind::Members,
            requirements: Vec::new(),
        },
    );
    v.push(
        Quest {
            id: QuestId::new_static("the_tourist_trap"),
            name: String::from_str("The Tourist Trap"),
            kind: QuestKind::Members,
            requirements: vec![
                QuestRequirement::Skill(SkillRequirement::builder(Level(10), Skill::Fletching).build()),
                QuestRequirement::Skill(SkillRequirement::builder(Level(20), Skill::Smithing).build()),
            ],
        },
    );
    v.push(
        Quest {
            id: QuestId::new_static("watchtower"),
            name: String::from_str("Watchtower"),
            kind: QuestKind::Members,
            requirements: vec![
                QuestRequirement::Skill(SkillRequirement::builder(Level(15), Skill::Magic).build()),
                QuestRequirement::Skill(SkillRequirement::builder(Level(15), Skill::Thieving).build()),
                QuestRequirement::Skill(SkillRequirement::builder(Level(25), Skill::Agility).build()),
                QuestRequirement::Skill(SkillRequirement::builder(Level(14), Skill::Herblore).build()),
                QuestRequirement::Skill(SkillRequirement::builder(Level(40), Skill::Mining).boostable().build()),
            ],
        },
    );
    v.push(
        Quest {
            id: QuestId::new_static("dwarf_cannon"),
            name: String::from_str("Dwarf Cannon"),
            kind: QuestKind::Members,
            requirements: Vec::new(),
        },
    );
    v.push(
        Quest {
            id: QuestId::new_static("murder_mystery"),
            name: String::from_str("Murder Mystery"),
            kind: QuestKind::Members,
            requirements: Vec::new(),
        },
    );
    v.push(
        Quest {
            id: QuestId::new_static("the_dig_site"),
            name: String::from_str("The Dig Site"),
            kind: QuestKind::Members,
            requirements: vec![
                QuestRequirement::Quest(QuestId::new_static("druidic_ritual")),
                QuestRequirement::Skill(SkillRequirement::builder(Level(10), Skill::Agility).build()),
                QuestRequirement::Skill(SkillRequirement::builder(Level(10), Skill::Herblore).build()),
                QuestRequirement::Skill(SkillRequirement::builder(Level(25), Skill::Thieving).build()),
            ],
        },
    );
    v.push(
        Quest {
            id: QuestId::new_static("gertrudes_cat"),
            name: String::from_str("Gertrude's Cat"),
            kind: QuestKind::Members,
            requirements: Vec::new(),
        },
    );
    v.push(
        Quest {
            id: QuestId::new_static("legends_quest"),
            name: String::from_str("Legends' Quest"),
            kind: QuestKind::Members,
            requirements: vec![
                QuestRequirement::QuestPoints(107),
                QuestRequirement::Skill(SkillRequirement::builder(Level(50), Skill::Agility).boostable().build()),
                QuestRequirement::Skill(SkillRequirement::builder(Level(50), Skill::Crafting).build()),
                QuestRequirement::Skill(SkillRequirement::builder(Level(45), Skill::Herblore).boostable().build()),
                QuestRequirement::Skill(SkillRequirement::builder(Level(56), Skill::Magic).build()),
                QuestRequirement::Skill(SkillRequirement::builder(Level(52), Skill::Mining).boostable().build()),
                QuestRequirement::Skill(SkillRequirement::builder(Level(42), Skill::Prayer).build()),
                QuestRequirement::Skill(SkillRequirement::builder(Level(50), Skill::Smithing).build()),
                QuestRequirement::Skill(SkillRequirement::builder(Level(50), Skill::Strength).boostable().build()),
                QuestRequirement::Skill(SkillRequirement::builder(Level(50), Skill::Thieving).build()),
                QuestRequirement::Skill(SkillRequirement::builder(Level(50), Skill::Woodcutting).boostable().build()),
                QuestRequirement::Quest(QuestId::new_static("family_crest")),
                QuestRequirement::Quest(QuestId::new_static("heroes_quest")),
                QuestRequirement::Quest(QuestId::new_static("shilo_village")),
                QuestRequirement::Quest(QuestId::new_static("underground_pass")),
                QuestRequirement::Quest(QuestId::new_static("waterfall_quest")),
            ],
        },
    );
    v.push(
        Quest {
            id: QuestId::new_static("rune_mysteries"),
            name: String::from_str("Rune Mysteries"),
            kind: QuestKind::Free,
            requirements: Vec::new(),
        },
    );
    v.push(
        Quest {
            id: QuestId::new_static("big_chompy_bird_hunting"),
            name: String::from_str("Big Chompy Bird Hunting"),
            kind: QuestKind::Members,
            requirements: vec![
                QuestRequirement::Skill(SkillRequirement::builder(Level(5), Skill::Fletching).build()),
                QuestRequirement::Skill(SkillRequirement::builder(Level(30), Skill::Cooking).boostable().build()),
                QuestRequirement::Skill(SkillRequirement::builder(Level(30), Skill::Ranged).build()),
            ],
        },
    );
    v.push(
        Quest {
            id: QuestId::new_static("elemental_workshop_i"),
            name: String::from_str("Elemental Workshop I"),
            kind: QuestKind::Members,
            requirements: vec![
                QuestRequirement::Skill(SkillRequirement::builder(Level(20), Skill::Mining).build()),
                QuestRequirement::Skill(SkillRequirement::builder(Level(20), Skill::Smithing).build()),
                QuestRequirement::Skill(SkillRequirement::builder(Level(20), Skill::Crafting).build()),
            ],
        },
    );
    v.push(
        Quest {
            id: QuestId::new_static("priest_in_peril"),
            name: String::from_str("Priest in Peril"),
            kind: QuestKind::Members,
            requirements: Vec::new(),
        },
    );
    v
}

pub open spec fn quest_list_chunk_view_3() -> Seq<(Seq<char>, QuestKind)> {
    seq![("nature_spirit"@, QuestKind::Members), ("death_plateau"@, QuestKind::Members), ("troll_stronghold"@, QuestKind::Members), ("tai_bwo_wannai_trio"@, QuestKind::Members), ("regicide"@, QuestKind::Members), ("eadgars_ruse"@, QuestKind::Members), ("shades_of_mortton"@, QuestKind::Members), ("the_fremennik_trials"@, QuestKind::Members), ("horror_from_the_deep"@, QuestKind::Members), ("throne_of_miscellania"@, QuestKind::Members), ("monkey_madness_i"@, QuestKind::Members), ("haunted_mine"@, QuestKind::Members), ("troll_romance"@, QuestKind::Members), ("in_search_of_the_myreque"@, QuestKind::Members), ("creature_of_fenkenstrain"@, QuestKind::Members), ("roving_elves"@, QuestKind::Members), ("ghosts_ahoy"@, QuestKind::Members), ("one_small_favour"@, QuestKind::Members)]
}

fn guide_quest_chunk_3() -> (v: Vec<Quest>)
    ensures
        v@.len() == 18,
        forall|k: int|
            0 <= k < v@.len() ==> (#[trigger] v@[k]).id@ == quest_list_chunk_view_3()[k].0
                && v@[k].kind == quest_list_chunk_view_3()[k].1,
{
    let mut v: Vec<Quest> = Vec::new();
    v.push(
        Quest {
            id: QuestId::new_static("nature_spirit"),
            name: String::from_str("Nature Spirit"),
            kind: QuestKind::Members,
            requirements: vec![
                QuestRequirement::Quest(QuestId::new_static("priest_in_peril")),
                QuestRequirement::Quest(QuestId::new_static("the_restless_ghost")),
                QuestRequirement::Skill(SkillRequirement::builder(Level(18), Skill::Crafting).ironman_only().build()),
            ],
        },
    );
    v.push(
        Quest {
            id: QuestId::new_static("death_plateau"),
            name: String::from_str("Death Plateau"),
            kind: QuestKind::Members,
            requirements: Vec::new(),
        },
    );
    v.push(
        Quest {
            id: QuestId::new_static("troll_stronghold"),
            name: String::from_str("Troll Stronghold"),
            kind: QuestKind::Members,
            requirements: vec![
                QuestRequirement::Quest(QuestId::new_static("death_plateau")),
                QuestRequirement::Skill(SkillRequirement::builder(Level(15), Skill::Agility).build()),
            ],
        },
    );
    v.push(
        Quest {
            id: QuestId::new_static("tai_bwo_wannai_trio"),
            name: String::from_str("Tai Bwo Wannai Trio"),
            kind: QuestKind::Members,
            requirements: vec![
                QuestRequirement::Skill(SkillRequirement::builder(Level(15), Skill::Agility).build()),
                QuestRequirement::Skill(SkillRequirement::builder(Level(30), Skill::Cooking).build()),
                QuestRequirement::Skill(SkillRequirement::builder(Level(5), Skill::Fishing).build()),
                QuestRequirement::Quest(QuestId::new_static("jungle_potion")),
            ],
        },
    );
    v.push(
        Quest {
            id: QuestId::new_static("regicide"),
            name: String::from_str("Regicide"),
            kind: QuestKind::Members,
            requirements: vec![
                QuestRequirement::Quest(QuestId::new_static("underground_pass")),
                QuestRequirement::Skill(SkillRequirement::builder(Level(56), Skill::Agility).boostable().build()),
                QuestRequirement::Skill(SkillRequirement::builder(Level(10), Skill::Crafting).build()),
            ],
        },
    );
    v.push(
        Quest {
            id: QuestId::new_static("eadgars_ruse"),
            name: String::from_str("Eadgar's Ruse"),
            kind: QuestKind::Members,
            requirements: vec![
                QuestRequirement::Quest(QuestId::new_static("druidic_ritual")),
                QuestRequirement::Quest(QuestId::new_static("troll_stronghold")),
                QuestRequirement::Skill(SkillRequirement::builder(Level(31), Skill::Herblore).boostable().build()),
            ],
        },
    );
    v.push(
        Quest {
            id: QuestId::new_static("shades_of_mortton"),
            name: String::from_str("Shades of Mort'ton"),
            kind: QuestKind::Members,
            requirements: vec![
                QuestRequirement::Skill(SkillRequirement::builder(Level(20), Skill::Crafting).build()),
                QuestRequirement::Skill(SkillRequirement::builder(Level(15), Skill::Herblore).build()),
                QuestRequirement::Skill(SkillRequirement::builder(Level(5), Skill::Firemaking).build()),
            ],
        },
    );
    v.push(
        Quest {
            id: QuestId::new_static("the_fremennik_trials"),
            name: String::from_str("The Fremennik Trials"),
            kind: QuestKind::Members,
            requirements: Vec::new(),
        },
    );
    v.push(
        Quest {
            id: QuestId::new_static("horror_from_the_deep"),
            name: String::from_str("Horror from the Deep"),
            kind: QuestKind::Members,
            requirements: vec![
                QuestRequirement::Skill(SkillRequirement::builder(Level(35), Skill::Agility).boostable().build()),
                QuestRequirement::Quest(QuestId::new_static("alfred_grimhands_barcrawl")),
            ],
        },
    );
    v.push(
        Quest {
            id: QuestId::new_static("throne_of_miscellania"),
            name: String::from_str("Throne of Miscellania"),
            kind: QuestKind::Members,
            requirements: vec![
                QuestRequirement::Quest(QuestId::new_static("heroes_quest")),
                QuestRequirement::Quest(QuestId::new_static("the_fremennik_trials")),
            ],
        },
    );
    v.push(
        Quest {
            id: QuestId::new_static("monkey_madness_i"),
            name: String::from_str("Monkey Madness"),
            kind: QuestKind::Members,
            requirements: vec![
                QuestRequirement::Quest(QuestId::new_static("the_grand_tree")),
                QuestRequirement::Quest(QuestId::new_static("tree_gnome_village")),
            ],
        },
    );
    v.push(
        Quest {
            id: QuestId::new_static("haunted_mine"),
            name: String::from_str("Haunted Mine"),
            kind: QuestKind::Members,
            requirements: vec![
                QuestRequirement::Skill(SkillRequirement::builder(Level(15), Skill::Agility).build()),
                QuestRequirement::Skill(SkillRequirement::builder(Level(35), Skill::Crafting).build()),
                QuestRequirement::Quest(QuestId::new_static("priest_in_peril")),
            ],
        },
    );
    v.push(
        Quest {
            id: QuestId::new_static("troll_romance"),
            name: String::from_str("Troll Romance"),
            kind: QuestKind::Members,
            requirements: vec![
                QuestRequirement::Skill(SkillRequirement::builder(Level(28), Skill::Agility).build()),
                QuestRequirement::Quest(QuestId::new_static("troll_stronghold")),
            ],
        },
    );
    v.push(
        Quest {
            id: QuestId::new_static("in_search_of_the_myreque"),
            name: String::from_str("In Search of the Myreque"),
            kind: QuestKind::Members,
            requirements: vec![
                QuestRequirement::Quest(QuestId::new_static("nature_spirit")),
                QuestRequirement::Skill(SkillRequirement::builder(Level(25), Skill::Agility).boostable().build()),
            ],
        },
    );
    v.push(
        Quest {
            id: QuestId::new_static("creature_of_fenkenstrain"),
            name: String::from_str("Creature of Fenkenstrain"),
            kind: QuestKind::Members,
            requirements: vec![
                QuestRequirement::Quest(QuestId::new_static("priest_in_peril")),
                QuestRequirement::Quest(QuestId::new_static("the_restless_ghost")),
                QuestRequirement::Skill(SkillRequirement::builder(Level(20), Skill::Crafting).build()),
                QuestRequirement::Skill(SkillRequirement::builder(Level(25), Skill::Thieving).build()),
            ],
        },
    );
    v.push(
        Quest {
            id: QuestId::new_static("roving_elves"),
            name: String::from_str("Roving Elves"),
            kind: QuestKind::Members,
            requirements: vec![
                QuestRequirement::Quest(QuestId::new_static("regicide")),
                QuestRequirement::Quest(QuestId::new_static("waterfall_quest")),
                QuestRequirement::Skill(SkillRequirement::builder(Level(56), Skill::Agility).boostable().build()),
            ],
        },
    );
    v.push(
        Quest {
            id: QuestId::new_static("ghosts_ahoy"),
            name: String::from_str("Ghosts Ahoy"),
            kind: QuestKind::Members,
            requirements: vec![
                QuestRequirement::Quest(QuestId::new_static("the_restless_ghost")),
                QuestRequirement::Quest(QuestId::new_static("priest_in_peril")),
                QuestRequirement::Skill(SkillRequirement::builder(Level(25), Skill::Agility).boostable().build()),
                QuestRequirement::Skill(SkillRequirement::builder(Level(20), Skill::Cooking).boostable().build()),
            ],
        },
    );
    v.push(
        Quest {
            id: QuestId::new_static("one_small_favour"),
            name: String::from_str("One Small Favour"),
            kind: QuestKind::Members,
            requirements: vec![
                QuestRequirement::Skill(SkillRequirement::builder(Level(36), Skill::Agility).boostable().build()),
                QuestRequirement::Skill(SkillRequirement::builder(Level(25), Skill::Crafting).build()),
                QuestRequirement::Skill(SkillRequirement::builder(Level(18), Skill::Herblore).boostable().build()),
                QuestRequirement::Skill(SkillRequirement::builder(Level(30), Skill::Smithing).boostable().build()),
                QuestRequirement::Quest(QuestId::new_static("rune_mysteries")),
                QuestRequirement::Quest(QuestId::new_static("shilo_village")),
            ],
        },
    );
    v
}

pub open spec fn quest_list_chunk_view_4() -> Seq<(Seq<char>, QuestKind)> {
    seq![("mountain_daughter"@, QuestKind::Members), ("between_a_rock"@, QuestKind::Members), ("the_feud"@, QuestKind::Members), ("the_golem"@, QuestKind::Members), ("desert_treasure"@, QuestKind::Members), ("icthlarins_little_helper"@, QuestKind::Members), ("tears_of_guthix"@, QuestKind::Members), ("zogre_flesh_eaters"@, QuestKind::Members), ("the_lost_tribe"@, QuestKind::Members), ("the_giant_dwarf"@, QuestKind::Members), ("recruitment_drive"@, QuestKind::Members), ("mournings_end_part_i"@, QuestKind::Members), ("forgettable_tale_of_a_drunken_dwarf"@, QuestKind::Members), ("garden_of_tranquillity"@, QuestKind::Members), ("a_tail_of_two_cats"@, QuestKind::Members), ("wanted"@, QuestKind::Members), ("mournings_end_part_ii"@, QuestKind::Members), ("rum_deal"@, QuestKind::Members)]
}

fn guide_quest_chunk_4() -> (v: Vec<Quest>)
    ensures
        v@.len() == 18,
        forall|k: int|
            0 <= k < v@.len() ==> (#[trigger] v@[k]).id@ == quest_list_chunk_view_4()[k].0
                && v@[k].kind == quest_list_chunk_view_4()[k].1,
{
    let mut v: Vec<Quest> = Vec::new();
    v.push(
        Quest {
            id: QuestId::new_static("mountain_daughter"),
            name: String::from_str("Mountain Daughter"),
            kind: QuestKind::Members,
            requirements: vec![
                QuestRequirement::Skill(SkillRequirement::builder(Level(20), Skill::Agility).boostable().build()),
            ],
        },
    );
    v.push(
        Quest {
            id: QuestId::new_static("between_a_rock"),
            name: String::from_str("Between a Rock..."),
            kind: QuestKind::Members,
            requirements: vec![
                QuestRequirement::Quest(QuestId::new_static("dwarf_cannon")),
                QuestRequirement::Quest(QuestId::new_static("fishing_contest")),
                QuestRequirement::Skill(SkillRequirement::builder(Level(30), Skill::Defence).build()),
                QuestRequirement::Skill(SkillRequirement::builder(Level(40), Skill::Mining).boostable().build()),
                QuestRequirement::Skill(SkillRequirement::builder(Level(50), Skill::Smithing).boostable().build()),
            ],
        },
    );
    v.push(
        Quest {
            id: QuestId::new_static("the_feud"),
            name: String::from_str("The Feud"),
            kind: QuestKind::Members,
            requirements: vec![
                QuestRequirement::Skill(SkillRequirement::builder(Level(30), Skill::Thieving).build()),
            ],
        },
    );
    v.push(
        Quest {
            id: QuestId::new_static("the_golem"),
            name: String::from_str("The Golem"),
            kind: QuestKind::Members,
            requirements: vec![
                QuestRequirement::Skill(SkillRequirement::builder(Level(20), Skill::Crafting).build()),
                QuestRequirement::Skill(SkillRequirement::builder(Level(25), Skill::Thieving).boostable().build()),
            ],
        },
    );
    v.push(
        Quest {
            id: QuestId::new_static("desert_treasure"),
            name: String::from_str("Desert Treasure"),
            kind: QuestKind::Members,
            requirements: vec![
                QuestRequirement::Skill(SkillRequirement::builder(Level(53), Skill::Thieving).build()),
                QuestRequirement::Skill(SkillRequirement::builder(Level(50), Skill::Firemaking).build()),
                QuestRequirement::Skill(SkillRequirement::builder(Level(10), Skill::Slayer).build()),
                QuestRequirement::Skill(SkillRequirement::builder(Level(50), Skill::Magic).build()),
                QuestRequirement::Quest(QuestId::new_static("the_dig_site")),
                QuestRequirement::Quest(QuestId::new_static("temple_of_ikov")),
                QuestRequirement::Quest(QuestId::new_static("the_tourist_trap")),
                QuestRequirement::Quest(QuestId::new_static("troll_stronghold")),
                QuestRequirement::Quest(QuestId::new_static("priest_in_peril")),
                QuestRequirement::Quest(QuestId::new_static("waterfall_quest")),
            ],
        },
    );
    v.push(
        Quest {
            id: QuestId::new_static("icthlarins_little_helper"),
            name: String::from_str("Icthlarin's Little Helper"),
            kind: QuestKind::Members,
            requirements: vec![
                QuestRequirement::Quest(QuestId::new_static("gertrudes_cat")),
            ],
        },
    );
    v.push(
        Quest {
            id: QuestId::new_static("tears_of_guthix"),
            name: String::from_str("Tears of Guthix"),
            kind: QuestKind::Members,
            requirements: vec![
                QuestRequirement::QuestPoints(43),
                QuestRequirement::Skill(SkillRequirement::builder(Level(49), Skill::Firemaking).build()),
                QuestRequirement::Skill(SkillRequirement::builder(Level(20), Skill::Crafting).build()),
                QuestRequirement::Skill(SkillRequirement::builder(Level(20), Skill::Mining).build()),
            ],
        },
    );
    v.push(
        Quest {
            id: QuestId::new_static("zogre_flesh_eaters"),
            name: String::from_str("Zogre Flesh Eaters"),
            kind: QuestKind::Members,
            requirements: vec![
                QuestRequirement::Quest(QuestId::new_static("big_chompy_bird_hunting")),
                QuestRequirement::Quest(QuestId::new_static("jungle_potion")),
                QuestRequirement::Skill(SkillRequirement::builder(Level(4), Skill::Smithing).build()),
                QuestRequirement::Skill(SkillRequirement::builder(Level(8), Skill::Herblore).build()),
                QuestRequirement::Skill(SkillRequirement::builder(Level(30), Skill::Ranged).build()),
                QuestRequirement::Skill(SkillRequirement::builder(Level(30), Skill::Fletching).ironman_only().build()),
            ],
        },
    );
    v.push(
        Quest {
            id: QuestId::new_static("the_lost_tribe"),
            name: String::from_str("The Lost Tribe"),
            kind: QuestKind::Members,
            requirements: vec![
                QuestRequirement::Quest(QuestId::new_static("goblin_diplomacy")),
                QuestRequirement::Quest(QuestId::new_static("rune_mysteries")),
                QuestRequirement::Skill(SkillRequirement::builder(Level(12), Skill::Agility).build()),
                QuestRequirement::Skill(SkillRequirement::builder(Level(13), Skill::Thieving).build()),
                QuestRequirement::Skill(SkillRequirement::builder(Level(17), Skill::Mining).build()),
            ],
        },
    );
    v.push(
        Quest {
            id: QuestId::new_static("the_giant_dwarf"),
            name: String::from_str("The Giant Dwarf"),
            kind: QuestKind::Members,
            requirements: vec![
                QuestRequirement::Skill(SkillRequirement::builder(Level(12), Skill::Crafting).build()),
                QuestRequirement::Skill(SkillRequirement::builder(Level(16), Skill::Firemaking).build()),
                QuestRequirement::Skill(SkillRequirement::builder(Level(33), Skill::Magic).build()),
                QuestRequirement::Skill(SkillRequirement::builder(Level(14), Skill::Thieving).build()),
            ],
        },
    );
    v.push(
        Quest {
            id: QuestId::new_static("recruitment_drive"),
            name: String::from_str("Recruitment Drive"),
            kind: QuestKind::Members,
            requirements: vec![
                QuestRequirement::QuestPoints(12),
                QuestRequirement::Quest(QuestId::new_static("black_knights_fortress")),
                QuestRequirement::Quest(QuestId::new_static("druidic_ritual")),
            ],
        },
    );
    v.push(
        Quest {
            id: QuestId::new_static("mournings_end_part_i"),
            name: String::from_str("Mourning's End Part I"),
            kind: QuestKind::Members,
            requirements: vec![
                QuestRequirement::Skill(SkillRequirement::builder(Level(60), Skill::Ranged).build()),
                QuestRequirement::Skill(SkillRequirement::builder(Level(50), Skill::Thieving).boostable().build()),
                QuestRequirement::Quest(QuestId::new_static("roving_elves")),
                QuestRequirement::Quest(QuestId::new_static("big_chompy_bird_hunting")),
                QuestRequirement::Quest(QuestId::new_static("sheep_herder")),
            ],
        },
    );
    v.push(
        Quest {
            id: QuestId::new_static("forgettable_tale_of_a_drunken_dwarf"),
            name: String::from_str("Forgettable Tale of a Drunken Dwarf"),
            kind: QuestKind::Members,
            requirements: vec![
                QuestRequirement::Skill(SkillRequirement::builder(Level(22), Skill::Cooking).build()),
                QuestRequirement::Skill(SkillRequirement::builder(Level(17), Skill::Farming).build()),
                QuestRequirement::Quest(QuestId::new_static("the_giant_dwarf")),
                QuestRequirement::Quest(QuestId::new_static("fishing_contest")),
            ],
        },
    );
    v.push(
        Quest {
            id: QuestId::new_static("garden_of_tranquillity"),
            name: String::from_str("Garden of Tranquillity"),
            kind: QuestKind::Members,
            requirements: vec![
                QuestRequirement::Skill(SkillRequirement::builder(Level(25), Skill::Farming).build()),
                QuestRequirement::Quest(QuestId::new_static("creature_of_fenkenstrain")),
            ],
        },
    );
    v.push(
        Quest {
            id: QuestId::new_static("a_tail_of_two_cats"),
            name: String::from_str("A Tail of Two Cats"),
            kind: QuestKind::Members,
            requirements: vec![
                QuestRequirement::Quest(QuestId::new_static("icthlarins_little_helper")),
            ],
        },
    );
    v.push(
        Quest {
            id: QuestId::new_static("wanted"),
            name: String::from_str("Wanted!"),
            kind: QuestKind::Members,
            requirements: vec![
                QuestRequirement::QuestPoints(32),
                QuestRequirement::Quest(QuestId::new_static("recruitment_drive")),
                QuestRequirement::Quest(QuestId::new_static("the_lost_tribe")),
                QuestRequirement::Quest(QuestId::new_static("priest_in_peril")),
                QuestRequirement::Quest(QuestId::new_static("enter_the_abyss")),
            ],
        },
    );
    v.push(
        Quest {
            id: QuestId::new_static("mournings_end_part_ii"),
            name: String::from_str("Mourning's End Part II"),
            kind: QuestKind::Members,
            requirements: vec![
                QuestRequirement::Quest(QuestId::new_static("mournings_end_part_i")),
            ],
        },
    );
    v.push(
        Quest {
            id: QuestId::new_static("rum_deal"),
            name: String::from_str("Rum Deal"),
            kind: QuestKind::Members,
            requirements: vec![
                QuestRequirement::Quest(QuestId::new_static("zogre_flesh_eaters")),
                QuestRequirement::Quest(QuestId::new_static("priest_in_peril")),
                QuestRequirement::Skill(SkillRequirement::builder(Level(42), Skill::Crafting).boostable().build()),
                QuestRequirement::Skill(SkillRequirement::builder(Level(50), Skill::Fishing).boostable().build()),
                QuestRequirement::Skill(SkillRequirement::builder(Level(40), Skill::Farming).boostable().build()),
                QuestRequirement::Skill(SkillRequirement::builder(Level(42), Skill::Slayer).build()),
            ],
        },
    );
    v
}

pub open spec fn quest_list_chunk_view_5() -> Seq<(Seq<char>, QuestKind)> {
    seq![("shadow_of_the_storm"@, QuestKind::Members), ("making_history"@, QuestKind::Members), ("ratcatchers"@, QuestKind::Members), ("spirits_of_the_elid"@, QuestKind::Members), ("devious_minds"@, QuestKind::Members), ("the_hand_in_the_sand"@, QuestKind::Members), ("enakhras_lament"@, QuestKind::Members), ("cabin_fever"@, QuestKind::Members), ("fairy_tale_i_growing_pains"@, QuestKind::Members), ("in_aid_of_the_myreque"@, QuestKind::Members), ("a_souls_bane"@, QuestKind::Members), ("rag_and_bone_man"@, QuestKind::Members), ("rag_and_bone_man_ii"@, QuestKind::Members), ("swan_song"@, QuestKind::Members), ("royal_trouble"@, QuestKind::Members), ("death_to_the_dorgeshuun"@, QuestKind::Members), ("fairy_tale_ii_cure_a_queen"@, QuestKind::Members), ("lunar_diplomacy"@, QuestKind::Members)]
}

fn guide_quest_chunk_5() -> (v: Vec<Quest>)
    ensures
        v@.len() == 18,
        forall|k: int|
            0 <= k < v@.len() ==> (#[trigger] v@[k]).id@ == quest_list_chunk_view_5()[k].0
                && v@[k].kind == quest_list_chunk_view_5()[k].1,
{
    let mut v: Vec<Quest> = Vec::new();
    v.push(
        Quest {
            id: QuestId::new_static("shadow_of_the_storm"),
            name: String::from_str("Shadow of the Storm"),
            kind: QuestKind::Members,
            requirements: vec![
                QuestRequirement::Skill(SkillRequirement::builder(Level(30), Skill::Crafting).boostable().build()),
                QuestRequirement::Quest(QuestId::new_static("the_golem")),
                QuestRequirement::Quest(QuestId::new_static("demon_slayer")),
            ],
        },
    );
    v.push(
        Quest {
            id: QuestId::new_static("making_history"),
            name: String::from_str("Making History"),
            kind: QuestKind::Members,
            requirements: vec![
                QuestRequirement::Quest(QuestId::new_static("priest_in_peril")),
                QuestRequirement::Quest(QuestId::new_static("the_restless_ghost")),
            ],
        },
    );
    v.push(
        Quest {
            id: QuestId::new_static("ratcatchers"),
            name: String::from_str("Ratcatchers"),
            kind: QuestKind::Members,
            requirements: vec![
                QuestRequirement::Quest(QuestId::new_static("icthlarins_little_helper")),
                QuestRequirement::Quest(QuestId::new_static("gertrudes_cat")),
            ],
        },
    );
    v.push(
        Quest {
            id: QuestId::new_static("spirits_of_the_elid"),
            name: String::from_str("Spirits of the Elid"),
            kind: QuestKind::Members,
            requirements: vec![
                QuestRequirement::Skill(SkillRequirement::builder(Level(33), Skill::Magic).boostable().build()),
                QuestRequirement::Skill(SkillRequirement::builder(Level(37), Skill::Ranged).boostable().build()),
                QuestRequirement::Skill(SkillRequirement::builder(Level(37), Skill::Mining).build()),
                QuestRequirement::Skill(SkillRequirement::builder(Level(37), Skill::Thieving).boostable().build()),
            ],
        },
    );
    v.push(
        Quest {
            id: QuestId::new_static("devious_minds"),
            name: String::from_str("Devious Minds"),
            kind: QuestKind::Members,
            requirements: vec![
                QuestRequirement::Skill(SkillRequirement::builder(Level(65), Skill::Smithing).boostable().build()),
                QuestRequirement::Skill(SkillRequirement::builder(Level(50), Skill::Runecraft).build()),
                QuestRequirement::Skill(SkillRequirement::builder(Level(50), Skill::Fletching).build()),
                QuestRequirement::Quest(QuestId::new_static("wanted")),
                QuestRequirement::Quest(QuestId::new_static("troll_stronghold")),
                QuestRequirement::Quest(QuestId::new_static("dorics_quest")),
                QuestRequirement::Quest(QuestId::new_static("enter_the_abyss")),
            ],
        },
    );
    v.push(
        Quest {
            id: QuestId::new_static("the_hand_in_the_sand"),
            name: String::from_str("The Hand in the Sand"),
            kind: QuestKind::Members,
            requirements: vec![
                QuestRequirement::Skill(SkillRequirement::builder(Level(17), Skill::Thieving).build()),
                QuestRequirement::Skill(SkillRequirement::builder(Level(49), Skill::Crafting).build()),
            ],
        },
    );
    v.push(
        Quest {
            id: QuestId::new_static("enakhras_lament"),
            name: String::from_str("Enakhra's Lament"),
            kind: QuestKind::Members,
            requirements: vec![
                QuestRequirement::Skill(SkillRequirement::builder(Level(50), Skill::Crafting).build()),
                QuestRequirement::Skill(SkillRequirement::builder(Level(45), Skill::Firemaking).build()),
                QuestRequirement::Skill(SkillRequirement::builder(Level(43), Skill::Prayer).build()),
                QuestRequirement::Skill(SkillRequirement::builder(Level(39), Skill::Magic).build()),
                QuestRequirement::Skill(SkillRequirement::builder(Level(45), Skill::Mining).ironman_only().build()),
            ],
        },
    );
    v.push(
        Quest {
            id: QuestId::new_static("cabin_fever"),
            name: String::from_str("Cabin Fever"),
            kind: QuestKind::Members,
            requirements: vec![
                QuestRequirement::Quest(QuestId::new_static("pirates_treasure")),
                QuestRequirement::Quest(QuestId::new_static("rum_deal")),
                QuestRequirement::Quest(QuestId::new_static("priest_in_peril")),
                QuestRequirement::Skill(SkillRequirement::builder(Level(42), Skill::Agility).build()),
                QuestRequirement::Skill(SkillRequirement::builder(Level(25), Skill::Crafting).build()),
                QuestRequirement::Skill(SkillRequirement::builder(Level(50), Skill::Smithing).build()),
                QuestRequirement::Skill(SkillRequirement::builder(Level(40), Skill::Ranged).build()),
            ],
        },
    );
    v.push(
        Quest {
            id: QuestId::new_static("fairy_tale_i_growing_pains"),
            name: String::from_str("Fairy Tail I - Growing Pains"),
            kind: QuestKind::Members,
            requirements: vec![
                QuestRequirement::Quest(QuestId::new_static("lost_city")),
                QuestRequirement::Quest(QuestId::new_static("nature_spirit")),
            ],
        },
    );
    v.push(
        Quest {
            id: QuestId::new_static("in_aid_of_the_myreque"),
            name: String::from_str("In Aid of the Myreque"),
            kind: QuestKind::Members,
            requirements: vec![
                QuestRequirement::Quest(QuestId::new_static("in_search_of_the_myreque")),
                QuestRequirement::Skill(SkillRequirement::builder(Level(25), Skill::Crafting).build()),
                QuestRequirement::Skill(SkillRequirement::builder(Level(15), Skill::Mining).build()),
                QuestRequirement::Skill(SkillRequirement::builder(Level(7), Skill::Magic).build()),
            ],
        },
    );
    v.push(
        Quest {
            id: QuestId::new_static("a_souls_bane"),
            name: String::from_str("A Soul's Bane"),
            kind: QuestKind::Members,
            requirements: Vec::new(),
        },
    );
    v.push(
        Quest {
            id: QuestId::new_static("rag_and_bone_man"),
            name: String::from_str("Rag and Bone Man"),
            kind: QuestKind::Members,
            requirements: Vec::new(),
        },
    );
    v.push(
        Quest {
            id: QuestId::new_static("rag_and_bone_man_ii"),
            name: String::from_str("Rag and Bone Man II"),
            kind: QuestKind::Members,
            requirements: vec![
                QuestRequirement::Skill(SkillRequirement::builder(Level(40), Skill::Slayer).build()),
                QuestRequirement::Quest(QuestId::new_static("rag_and_bone_man")),
            ],
        },
    );
    v.push(
        Quest {
            id: QuestId::new_static("swan_song"),
            name: String::from_str("Swan Song"),
            kind: QuestKind::Members,
            requirements: vec![
                QuestRequirement::QuestPoints(100),
                QuestRequirement::Skill(SkillRequirement::builder(Level(66), Skill::Magic).boostable().build()),
                QuestRequirement::Skill(SkillRequirement::builder(Level(62), Skill::Cooking).boostable().build()),
                QuestRequirement::Skill(SkillRequirement::builder(Level(62), Skill::Fishing).boostable().build()),
                QuestRequirement::Skill(SkillRequirement::builder(Level(45), Skill::Smithing).boostable().build()),
                QuestRequirement::Skill(SkillRequirement::builder(Level(42), Skill::Firemaking).build()),
                QuestRequirement::Skill(SkillRequirement::builder(Level(40), Skill::Crafting).build()),
                QuestRequirement::Quest(QuestId::new_static("one_small_favour")),
                QuestRequirement::Quest(QuestId::new_static("garden_of_tranquillity")),
            ],
        },
    );
    v.push(
        Quest {
            id: QuestId::new_static("royal_trouble"),
            name: String::from_str("Royal Trouble"),
            kind: QuestKind::Members,
            requirements: vec![
                QuestRequirement::Skill(SkillRequirement::builder(Level(40), Skill::Agility).boostable().build()),
                QuestRequirement::Skill(SkillRequirement::builder(Level(40), Skill::Slayer).boostable().build()),
                QuestRequirement::Quest(QuestId::new_static("throne_of_miscellania")),
            ],
        },
    );
    v.push(
        Quest {
            id: QuestId::new_static("death_to_the_dorgeshuun"),
            name: String::from_str("Death to the Dorgeshuun"),
            kind: QuestKind::Members,
            requirements: vec![
                QuestRequirement::Quest(QuestId::new_static("the_lost_tribe")),
                QuestRequirement::Skill(SkillRequirement::builder(Level(23), Skill::Agility).build()),
                QuestRequirement::Skill(SkillRequirement::builder(Level(23), Skill::Thieving).build()),
            ],
        },
    );
    v.push(
        Quest {
            id: QuestId::new_static("fairy_tale_ii_cure_a_queen"),
            name: String::from_str("Fairy Tale II - Cure a Queen"),
            kind: QuestKind::Members,
            requirements: vec![
                QuestRequirement::Quest(QuestId::new_static("fairy_tale_i_growing_pains")),
                QuestRequirement::Skill(SkillRequirement::builder(Level(40), Skill::Thieving).build()),
                QuestRequirement::Skill(SkillRequirement::builder(Level(49), Skill::Farming).boostable().build()),
                QuestRequirement::Skill(SkillRequirement::builder(Level(57), Skill::Herblore).boostable().build()),
            ],
        },
    );
    v.push(
        Quest {
            id: QuestId::new_static("lunar_diplomacy"),
            name: String::from_str("Lunar Diplomacy"),
            kind: QuestKind::Members,
            requirements: vec![
                QuestRequirement::Skill(SkillRequirement::builder(Level(61), Skill::Crafting).build()),
                QuestRequirement::Skill(SkillRequirement::builder(Level(40), Skill::Defence).build()),
                QuestRequirement::Skill(SkillRequirement::builder(Level(49), Skill::Firemaking).build()),
                QuestRequirement::Skill(SkillRequirement::builder(Level(65), Skill::Magic).build()),
                QuestRequirement::Skill(SkillRequirement::builder(Level(60), Skill::Mining).build()),
                QuestRequirement::Skill(SkillRequirement::builder(Level(55), Skill::Woodcutting).build()),
                QuestRequirement::Quest(QuestId::new_static("the_fremennik_trials")),
                QuestRequirement::Quest(QuestId::new_static("lost_city")),
                QuestRequirement::Quest(QuestId::new_static("rune_mysteries")),
                QuestRequirement::Quest(QuestId::new_static("shilo_village")),
            ],
        },
    );
    v
}

pub open spec fn quest_list_chunk_view_6() -> Seq<(Seq<char>, QuestKind)> {
    seq![("the_eyes_of_glouphrie"@, QuestKind::Members), ("darkness_of_hallowvale"@, QuestKind::Members), ("the_slug_menace"@, QuestKind::Members), ("elemental_workshop_ii"@, QuestKind::Members), ("my_arms_big_adventure"@, QuestKind::Members), ("enlightened_journey"@, QuestKind::Members), ("eagles_peak"@, QuestKind::Members), ("animal_magnetism"@, QuestKind::Members), ("contact"@, QuestKind::Members), ("cold_war"@, QuestKind::Members), ("the_fremennik_isles"@, QuestKind::Members), ("tower_of_life"@, QuestKind::Members), ("the_great_brain_robbery"@, QuestKind::Members), ("what_lies_below"@, QuestKind::Members), ("olafs_quest"@, QuestKind::Members), ("another_slice_of_ham"@, QuestKind::Members), ("dream_mentor"@, QuestKind::Members), ("grim_tales"@, QuestKind::Members)]
}

fn guide_quest_chunk_6() -> (v: Vec<Quest>)
    ensures
        v@.len() == 18,
        forall|k: int|
            0 <= k < v@.len() ==> (#[trigger] v@[k]).id@ == quest_list_chunk_view_6()[k].0
                && v@[k].kind == quest_list_chunk_view_6()[k].1,
{
    let mut v: Vec<Quest> = Vec::new();
    v.push(
        Quest {
            id: QuestId::new_static("the_eyes_of_glouphrie"),
            name: String::from_str("The Eyes of Glouphrie"),
            kind: QuestKind::Members,
            requirements: vec![
                QuestRequirement::Skill(SkillRequirement::builder(Level(5), Skill::Construction).build()),
                QuestRequirement::Skill(SkillRequirement::builder(Level(46), Skill::Magic).build()),
                QuestRequirement::Quest(QuestId::new_static("the_grand_tree")),
            ],
        },
    );
    v.push(
        Quest {
            id: QuestId::new_static("darkness_of_hallowvale"),
            name: String::from_str("Darkness of Hallowvale"),
            kind: QuestKind::Members,
            requirements: vec![
                QuestRequirement::Quest(QuestId::new_static("in_aid_of_the_myreque")),
                QuestRequirement::Skill(SkillRequirement::builder(Level(5), Skill::Construction).build()),
                QuestRequirement::Skill(SkillRequirement::builder(Level(20), Skill::Mining).build()),
                QuestRequirement::Skill(SkillRequirement::builder(Level(22), Skill::Thieving).build()),
                QuestRequirement::Skill(SkillRequirement::builder(Level(26), Skill::Agility).build()),
                QuestRequirement::Skill(SkillRequirement::builder(Level(32), Skill::Crafting).build()),
                QuestRequirement::Skill(SkillRequirement::builder(Level(33), Skill::Magic).build()),
                QuestRequirement::Skill(SkillRequirement::builder(Level(40), Skill::Strength).build()),
            ],
        },
    );
    v.push(
        Quest {
            id: QuestId::new_static("the_slug_menace"),
            name: String::from_str("The Slug Menace"),
            kind: QuestKind::Members,
            requirements: vec![
                QuestRequirement::Quest(QuestId::new_static("wanted")),
                QuestRequirement::Quest(QuestId::new_static("sea_slug")),
                QuestRequirement::Skill(SkillRequirement::builder(Level(30), Skill::Crafting).build()),
                QuestRequirement::Skill(SkillRequirement::builder(Level(30), Skill::Runecraft).build()),
                QuestRequirement::Skill(SkillRequirement::builder(Level(30), Skill::Slayer).build()),
                QuestRequirement::Skill(SkillRequirement::builder(Level(30), Skill::Thieving).build()),
            ],
        },
    );
    v.push(
        Quest {
            id: QuestId::new_static("elemental_workshop_ii"),
            name: String::from_str("Elemental Workshop II"),
            kind: QuestKind::Members,
            requirements: vec![
                QuestRequirement::Skill(SkillRequirement::builder(Level(30), Skill::Magic).build()),
                QuestRequirement::Skill(SkillRequirement::builder(Level(30), Skill::Smithing).build()),
                QuestRequirement::Quest(QuestId::new_static("elemental_workshop_i")),
            ],
        },
    );
    v.push(
        Quest {
            id: QuestId::new_static("my_arms_big_adventure"),
            name: String::from_str("My Arm's Big Adventure"),
            kind: QuestKind::Members,
            requirements: vec![
                QuestRequirement::Skill(SkillRequirement::builder(Level(10), Skill::Woodcutting).build()),
                QuestRequirement::Skill(SkillRequirement::builder(Level(29), Skill::Farming).boostable().build()),
                QuestRequirement::Quest(QuestId::new_static("eadgars_ruse")),
                QuestRequirement::Quest(QuestId::new_static("the_feud")),
                QuestRequirement::Quest(QuestId::new_static("jungle_potion")),
            ],
        },
    );
    v.push(
        Quest {
            id: QuestId::new_static("enlightened_journey"),
            name: String::from_str("Enlightened Journey"),
            kind: QuestKind::Members,
            requirements: vec![
                QuestRequirement::QuestPoints(20),
                QuestRequirement::Skill(SkillRequirement::builder(Level(20), Skill::Firemaking).build()),
                QuestRequirement::Skill(SkillRequirement::builder(Level(30), Skill::Farming).boostable().build()),
                QuestRequirement::Skill(SkillRequirement::builder(Level(36), Skill::Crafting).build()),
            ],
        },
    );
    v.push(
        Quest {
            id: QuestId::new_static("eagles_peak"),
            name: String::from_str("Eagles' Peak"),
            kind: QuestKind::Members,
            requirements: vec![
                QuestRequirement::Skill(SkillRequirement::builder(Level(27), Skill::Hunter).boostable().build()),
            ],
        },
    );
    v.push(
        Quest {
            id: QuestId::new_static("animal_magnetism"),
            name: String::from_str("Animal Magnetism"),
            kind: QuestKind::Members,
            requirements: vec![
                QuestRequirement::Quest(QuestId::new_static("the_restless_ghost")),
                QuestRequirement::Quest(QuestId::new_static("ernest_the_chicken")),
                QuestRequirement::Quest(QuestId::new_static("priest_in_peril")),
                QuestRequirement::Skill(SkillRequirement::builder(Level(18), Skill::Slayer).build()),
                QuestRequirement::Skill(SkillRequirement::builder(Level(19), Skill::Crafting).build()),
                QuestRequirement::Skill(SkillRequirement::builder(Level(30), Skill::Ranged).build()),
                QuestRequirement::Skill(SkillRequirement::builder(Level(35), Skill::Woodcutting).build()),
                QuestRequirement::Skill(SkillRequirement::builder(Level(31), Skill::Prayer).ironman_only().build()),
            ],
        },
    );
    v.push(
        Quest {
            id: QuestId::new_static("contact"),
            name: String::from_str("Contact!"),
            kind: QuestKind::Members,
            requirements: vec![
                QuestRequirement::Quest(QuestId::new_static("prince_ali_rescue")),
                QuestRequirement::Quest(QuestId::new_static("icthlarins_little_helper")),
            ],
        },
    );
    v.push(
        Quest {
            id: QuestId::new_static("cold_war"),
            name: String::from_str("Cold War"),
            kind: QuestKind::Members,
            requirements: vec![
                QuestRequirement::Skill(SkillRequirement::builder(Level(10), Skill::Hunter).build()),
                QuestRequirement::Skill(SkillRequirement::builder(Level(30), Skill::Agility).build()),
                QuestRequirement::Skill(SkillRequirement::builder(Level(30), Skill::Crafting).build()),
                QuestRequirement::Skill(SkillRequirement::builder(Level(34), Skill::Construction).build()),
                QuestRequirement::Skill(SkillRequirement::builder(Level(15), Skill::Thieving).build()),
            ],
        },
    );
    v.push(
        Quest {
            id: QuestId::new_static("the_fremennik_isles"),
            name: String::from_str("The Fremennik Isles"),
            kind: QuestKind::Members,
            requirements: vec![
                QuestRequirement::Quest(QuestId::new_static("the_fremennik_trials")),
                QuestRequirement::Skill(SkillRequirement::builder(Level(20), Skill::Construction).build()),
                QuestRequirement::Skill(SkillRequirement::builder(Level(40), Skill::Agility).boostable().build()),
                QuestRequirement::Skill(SkillRequirement::builder(Level(56), Skill::Woodcutting).ironman_only().build()),
                QuestRequirement::Skill(SkillRequirement::builder(Level(46), Skill::Crafting).ironman_only().build()),
            ],
        },
    );
    v.push(
        Quest {
            id: QuestId::new_static("tower_of_life"),
            name: String::from_str("Tower of Life"),
            kind: QuestKind::Members,
            requirements: vec![
                QuestRequirement::Skill(SkillRequirement::builder(Level(10), Skill::Construction).build()),
            ],
        },
    );
    v.push(
        Quest {
            id: QuestId::new_static("the_great_brain_robbery"),
            name: String::from_str("The Great Brain Robbery"),
            kind: QuestKind::Members,
            requirements: vec![
                QuestRequirement::Skill(SkillRequirement::builder(Level(16), Skill::Crafting).build()),
                QuestRequirement::Skill(SkillRequirement::builder(Level(30), Skill::Construction).build()),
                QuestRequirement::Skill(SkillRequirement::builder(Level(50), Skill::Prayer).build()),
                QuestRequirement::Quest(QuestId::new_static("creature_of_fenkenstrain")),
                QuestRequirement::Quest(QuestId::new_static("cabin_fever")),
            ],
        },
    );
    v.push(
        Quest {
            id: QuestId::new_static("what_lies_below"),
            name: String::from_str("What Lies Below"),
            kind: QuestKind::Members,
            requirements: vec![
                QuestRequirement::Quest(QuestId::new_static("rune_mysteries")),
                QuestRequirement::Skill(SkillRequirement::builder(Level(35), Skill::Runecraft).build()),
                QuestRequirement::Skill(SkillRequirement::builder(Level(42), Skill::Mining).build()),
            ],
        },
    );
    v.push(
        Quest {
            id: QuestId::new_static("olafs_quest"),
            name: String::from_str("Olaf's Quest"),
            kind: QuestKind::Members,
            requirements: vec![
                QuestRequirement::Quest(QuestId::new_static("the_fremennik_trials")),
                QuestRequirement::Skill(SkillRequirement::builder(Level(40), Skill::Firemaking).build()),
                QuestRequirement::Skill(SkillRequirement::builder(Level(50), Skill::Woodcutting).boostable().build()),
            ],
        },
    );
    v.push(
        Quest {
            id: QuestId::new_static("another_slice_of_ham"),
            name: String::from_str("Another Slice of H.A.M."),
            kind: QuestKind::Members,
            requirements: vec![
                QuestRequirement::Skill(SkillRequirement::builder(Level(15), Skill::Attack).build()),
                QuestRequirement::Skill(SkillRequirement::builder(Level(25), Skill::Prayer).build()),
                QuestRequirement::Quest(QuestId::new_static("death_to_the_dorgeshuun")),
                QuestRequirement::Quest(QuestId::new_static("the_giant_dwarf")),
                QuestRequirement::Quest(QuestId::new_static("the_dig_site")),
                QuestRequirement::Quest(QuestId::new_static("druidic_ritual")),
            ],
        },
    );
    v.push(
        Quest {
            id: QuestId::new_static("dream_mentor"),
            name: String::from_str("Dream Mentor"),
            kind: QuestKind::Members,
            requirements: vec![
                QuestRequirement::Quest(QuestId::new_static("lunar_diplomacy")),
                QuestRequirement::Quest(QuestId::new_static("eadgars_ruse")),
            ],
        },
    );
    v.push(
        Quest {
            id: QuestId::new_static("grim_tales"),
            name: String::from_str("Grim Tales"),
            kind: QuestKind::Members,
            requirements: vec![
                QuestRequirement::Quest(QuestId::new_static("witchs_house")),
                QuestRequirement::Skill(SkillRequirement::builder(Level(45), Skill::Farming).boostable().build()),
                QuestRequirement::Skill(SkillRequirement::builder(Level(52), Skill::Herblore).boostable().build()),
                QuestRequirement::Skill(SkillRequirement::builder(Level(58), Skill::Thieving).boostable().build()),
                QuestRequirement::Skill(SkillRequirement::builder(Level(59), Skill::Agility).boostable().build()),
                QuestRequirement::Skill(SkillRequirement::builder(Level(71), Skill::Woodcutting).boostable().build()),
            ],
        },
    );
    v
}

pub open spec fn quest_list_chunk_view_7() -> Seq<(Seq<char>, QuestKind)> {
    seq![("kings_ransom"@, QuestKind::Members), ("monkey_madness_ii"@, QuestKind::Members), ("misthalin_mystery"@, QuestKind::Free), ("client_of_kourend"@, QuestKind::Members), ("bone_voyage"@, QuestKind::Members), ("the_queen_of_thieves"@, QuestKind::Members), ("the_depths_of_despair"@, QuestKind::Members), ("the_corsair_curse"@, QuestKind::Members), ("dragon_slayer_ii"@, QuestKind::Members), ("tale_of_the_righteous"@, QuestKind::Members), ("a_taste_of_hope"@, QuestKind::Members), ("making_friends_with_my_arm"@, QuestKind::Members), ("the_forsaken_tower"@, QuestKind::Members), ("the_ascent_of_arceuus"@, QuestKind::Members), ("x_marks_the_spot"@, QuestKind::Free), ("song_of_the_elves"@, QuestKind::Members), ("the_fremennik_exiles"@, QuestKind::Members), ("alfred_grimhands_barcrawl"@, QuestKind::Miniquest)]
}

fn guide_quest_chunk_7() -> (v: Vec<Quest>)
    ensures
        v@.len() == 18,
        forall|k: int|
            0 <= k < v@.len() ==> (#[trigger] v@[k]).id@ == quest_list_chunk_view_7()[k].0
                && v@[k].kind == quest_list_chunk_view_7()[k].1,
{
    let mut v: Vec<Quest> = Vec::new();
    v.push(
        Quest {
            id: QuestId::new_static("kings_ransom"),
            name: String::from_str("King's Ransom"),
            kind: QuestKind::Members,
            requirements: vec![
                QuestRequirement::Skill(SkillRequirement::builder(Level(45), Skill::Magic).build()),
                QuestRequirement::Skill(SkillRequirement::builder(Level(65), Skill::Defence).build()),
                QuestRequirement::Quest(QuestId::new_static("black_knights_fortress")),
                QuestRequirement::Quest(QuestId::new_static("holy_grail")),
                QuestRequirement::Quest(QuestId::new_static("murder_mystery")),
                QuestRequirement::Quest(QuestId::new_static("one_small_favour")),
            ],
        },
    );
    v.push(
        Quest {
            id: QuestId::new_static("monkey_madness_ii"),
            name: String::from_str("Monkey Madness II"),
            kind: QuestKind::Members,
            requirements: vec![
                QuestRequirement::Quest(QuestId::new_static("enlightened_journey")),
                QuestRequirement::Quest(QuestId::new_static("the_eyes_of_glouphrie")),
                QuestRequirement::Quest(QuestId::new_static("troll_stronghold")),
                QuestRequirement::Quest(QuestId::new_static("watchtower")),
                QuestRequirement::Skill(SkillRequirement::builder(Level(69), Skill::Slayer).build()),
                QuestRequirement::Skill(SkillRequirement::builder(Level(70), Skill::Crafting).build()),
                QuestRequirement::Skill(SkillRequirement::builder(Level(60), Skill::Hunter).build()),
                QuestRequirement::Skill(SkillRequirement::builder(Level(55), Skill::Agility).build()),
                QuestRequirement::Skill(SkillRequirement::builder(Level(55), Skill::Thieving).build()),
            ],
        },
    );
    v.push(
        Quest {
            id: QuestId::new_static("misthalin_mystery"),
            name: String::from_str("Misthalin Mystery"),
            kind: QuestKind::Free,
            requirements: Vec::new(),
        },
    );
    v.push(
        Quest {
            id: QuestId::new_static("client_of_kourend"),
            name: String::from_str("Client of Kourend"),
            kind: QuestKind::Members,
            requirements: Vec::new(),
        },
    );
    v.push(
        Quest {
            id: QuestId::new_static("bone_voyage"),
            name: String::from_str("Bone Voyage"),
            kind: QuestKind::Members,
            requirements: vec![
                QuestRequirement::Quest(QuestId::new_static("the_dig_site")),
            ],
        },
    );
    v.push(
        Quest {
            id: QuestId::new_static("the_queen_of_thieves"),
            name: String::from_str("The Queen of Thieves"),
            kind: QuestKind::Members,
            requirements: vec![
                QuestRequirement::Skill(SkillRequirement::builder(Level(20), Skill::Thieving).build()),
                QuestRequirement::Quest(QuestId::new_static("client_of_kourend")),
            ],
        },
    );
    v.push(
        Quest {
            id: QuestId::new_static("the_depths_of_despair"),
            name: String::from_str("The Depths of Despair"),
            kind: QuestKind::Members,
            requirements: vec![
                QuestRequirement::Quest(QuestId::new_static("client_of_kourend")),
                QuestRequirement::Skill(SkillRequirement::builder(Level(18), Skill::Agility).build()),
            ],
        },
    );
    v.push(
        Quest {
            id: QuestId::new_static("the_corsair_curse"),
            name: String::from_str("The Corsair Curse"),
            kind: QuestKind::Members,
            requirements: Vec::new(),
        },
    );
    v.push(
        Quest {
            id: QuestId::new_static("dragon_slayer_ii"),
            name: String::from_str("Dragon Slayer II"),
            kind: QuestKind::Members,
            requirements: vec![
                QuestRequirement::QuestPoints(200),
                QuestRequirement::Quest(QuestId::new_static("legends_quest")),
                QuestRequirement::Quest(QuestId::new_static("dream_mentor")),
                QuestRequirement::Quest(QuestId::new_static("a_tail_of_two_cats")),
                QuestRequirement::Quest(QuestId::new_static("animal_magnetism")),
                QuestRequirement::Quest(QuestId::new_static("ghosts_ahoy")),
                QuestRequirement::Quest(QuestId::new_static("bone_voyage")),
                QuestRequirement::Quest(QuestId::new_static("client_of_kourend")),
                QuestRequirement::Skill(SkillRequirement::builder(Level(75), Skill::Magic).build()),
                QuestRequirement::Skill(SkillRequirement::builder(Level(70), Skill::Smithing).build()),
                QuestRequirement::Skill(SkillRequirement::builder(Level(68), Skill::Mining).build()),
                QuestRequirement::Skill(SkillRequirement::builder(Level(62), Skill::Crafting).build()),
                QuestRequirement::Skill(SkillRequirement::builder(Level(60), Skill::Agility).build()),
                QuestRequirement::Skill(SkillRequirement::builder(Level(60), Skill::Thieving).build()),
                QuestRequirement::Skill(SkillRequirement::builder(Level(50), Skill::Construction).build()),
                QuestRequirement::Skill(SkillRequirement::builder(Level(50), Skill::Hitpoints).build()),
            ],
        },
    );
    v.push(
        Quest {
            id: QuestId::new_static("tale_of_the_righteous"),
            name: String::from_str("Tale of the Righteous"),
            kind: QuestKind::Members,
            requirements: vec![
                QuestRequirement::Skill(SkillRequirement::builder(Level(16), Skill::Strength).build()),
                QuestRequirement::Skill(SkillRequirement::builder(Level(10), Skill::Mining).build()),
                QuestRequirement::Quest(QuestId::new_static("client_of_kourend")),
            ],
        },
    );
    v.push(
        Quest {
            id: QuestId::new_static("a_taste_of_hope"),
            name: String::from_str("A Taste of Hope"),
            kind: QuestKind::Members,
            requirements: vec![
                QuestRequirement::Quest(QuestId::new_static("darkness_of_hallowvale")),
                QuestRequirement::Skill(SkillRequirement::builder(Level(48), Skill::Crafting).build()),
                QuestRequirement::Skill(SkillRequirement::builder(Level(45), Skill::Agility).build()),
                QuestRequirement::Skill(SkillRequirement::builder(Level(40), Skill::Attack).build()),
                QuestRequirement::Skill(SkillRequirement::builder(Level(40), Skill::Herblore).build()),
                QuestRequirement::Skill(SkillRequirement::builder(Level(38), Skill::Slayer).build()),
            ],
        },
    );
    v.push(
        Quest {
            id: QuestId::new_static("making_friends_with_my_arm"),
            name: String::from_str("Making Friends with My Arm"),
            kind: QuestKind::Members,
            requirements: vec![
                QuestRequirement::Skill(SkillRequirement::builder(Level(66), Skill::Firemaking).build()),
                QuestRequirement::Skill(SkillRequirement::builder(Level(72), Skill::Mining).boostable().build()),
                QuestRequirement::Skill(SkillRequirement::builder(Level(35), Skill::Construction).boostable().build()),
                QuestRequirement::Skill(SkillRequirement::builder(Level(68), Skill::Agility).boostable().build()),
                QuestRequirement::Quest(QuestId::new_static("my_arms_big_adventure")),
                QuestRequirement::Quest(QuestId::new_static("swan_song")),
                QuestRequirement::Quest(QuestId::new_static("cold_war")),
                QuestRequirement::Quest(QuestId::new_static("romeo_and_juliet")),
            ],
        },
    );
    v.push(
        Quest {
            id: QuestId::new_static("the_forsaken_tower"),
            name: String::from_str("The Forsaken Tower"),
            kind: QuestKind::Members,
            requirements: vec![
                QuestRequirement::Quest(QuestId::new_static("client_of_kourend")),
            ],
        },
    );
    v.push(
        Quest {
            id: QuestId::new_static("the_ascent_of_arceuus"),
            name: String::from_str("The Ascent of Arceuus"),
            kind: QuestKind::Members,
            requirements: vec![
                QuestRequirement::Skill(SkillRequirement::builder(Level(12), Skill::Hunter).build()),
                QuestRequirement::Quest(QuestId::new_static("client_of_kourend")),
            ],
        },
    );
    v.push(
        Quest {
            id: QuestId::new_static("x_marks_the_spot"),
            name: String::from_str("X Marks the Spot"),
            kind: QuestKind::Free,
            requirements: Vec::new(),
        },
    );
    v.push(
        Quest {
            id: QuestId::new_static("song_of_the_elves"),
            name: String::from_str("Song of the Elves"),
            kind: QuestKind::Members,
            requirements: vec![
                QuestRequirement::Quest(QuestId::new_static("mournings_end_part_ii")),
                QuestRequirement::Quest(QuestId::new_static("making_history")),
                QuestRequirement::Skill(SkillRequirement::builder(Level(70), Skill::Agility).build()),
                QuestRequirement::Skill(SkillRequirement::builder(Level(70), Skill::Construction).build()),
                QuestRequirement::Skill(SkillRequirement::builder(Level(70), Skill::Farming).build()),
                QuestRequirement::Skill(SkillRequirement::builder(Level(70), Skill::Herblore).build()),
                QuestRequirement::Skill(SkillRequirement::builder(Level(70), Skill::Hunter).build()),
                QuestRequirement::Skill(SkillRequirement::builder(Level(70), Skill::Mining).build()),
                QuestRequirement::Skill(SkillRequirement::builder(Level(70), Skill::Smithing).build()),
                QuestRequirement::Skill(SkillRequirement::builder(Level(70), Skill::Woodcutting).build()),
            ],
        },
    );
    v.push(
        Quest {
            id: QuestId::new_static("the_fremennik_exiles"),
            name: String::from_str("The Fremennik Exiles"),
            kind: QuestKind::Members,
            requirements: vec![
                QuestRequirement::Skill(SkillRequirement::builder(Level(65), Skill::Crafting).build()),
                QuestRequirement::Skill(SkillRequirement::builder(Level(60), Skill::Slayer).build()),
                QuestRequirement::Skill(SkillRequirement::builder(Level(60), Skill::Smithing).build()),
                QuestRequirement::Skill(SkillRequirement::builder(Level(60), Skill::Fishing).build()),
                QuestRequirement::Skill(SkillRequirement::builder(Level(55), Skill::Runecraft).build()),
                QuestRequirement::Quest(QuestId::new_static("the_fremennik_isles")),
                QuestRequirement::Quest(QuestId::new_static("lunar_diplomacy")),
                QuestRequirement::Quest(QuestId::new_static("mountain_daughter")),
                QuestRequirement::Quest(QuestId::new_static("heroes_quest")),
            ],
        },
    );
    v.push(
        Quest {
            id: QuestId::new_static("alfred_grimhands_barcrawl"),
            name: String::from_str("Alfred Grimhand's Barcrawl"),
            kind: QuestKind::Miniquest,
            requirements: Vec::new(),
        },
    );
    v
}

pub open spec fn quest_list_chunk_view_8() -> Seq<(Seq<char>, QuestKind)> {
    seq![("architectural_alliance"@, QuestKind::Miniquest), ("bear_your_soul"@, QuestKind::Miniquest), ("curse_of_the_empty_lord"@, QuestKind::Miniquest), ("enchanted_key"@, QuestKind::Miniquest), ("enter_the_abyss"@, QuestKind::Miniquest), ("family_pest"@, QuestKind::Miniquest), ("the_generals_shadow"@, QuestKind::Miniquest), ("in_search_of_knowledge"@, QuestKind::Miniquest), ("lair_of_tarn_razorlor"@, QuestKind::Miniquest), ("the_mage_arena"@, QuestKind::Miniquest), ("the_mage_arena_ii"@, QuestKind::Miniquest), ("skippy_and_the_mogres"@, QuestKind::Miniquest)]
}

fn guide_quest_chunk_8() -> (v: Vec<Quest>)
    ensures
        v@.len() == 12,
        forall|k: int|
            0 <= k < v@.len() ==> (#[trigger] v@[k]).id@ == quest_list_chunk_view_8()[k].0
                && v@[k].kind == quest_list_chunk_view_8()[k].1,
{
    let mut v: Vec<Quest> = Vec::new();
    v.push(
        Quest {
            id: QuestId::new_static("architectural_alliance"),
            name: String::from_str("Architectural Alliance"),
            kind: QuestKind::Miniquest,
            requirements: vec![
                QuestRequirement::Skill(SkillRequirement::builder(Level(42), Skill::Mining).build()),
                QuestRequirement::Skill(SkillRequirement::builder(Level(45), Skill::Smithing).build()),
                QuestRequirement::Skill(SkillRequirement::builder(Level(15), Skill::Fishing).build()),
                QuestRequirement::Skill(SkillRequirement::builder(Level(30), Skill::Crafting).build()),
                QuestRequirement::Skill(SkillRequirement::builder(Level(15), Skill::Hunter).build()),
            ],
        },
    );
    v.push(
        Quest {
            id: QuestId::new_static("bear_your_soul"),
            name: String::from_str("Bear Your Soul"),
            kind: QuestKind::Miniquest,
            requirements: Vec::new(),
        },
    );
    v.push(
        Quest {
            id: QuestId::new_static("curse_of_the_empty_lord"),
            name: String::from_str("Curse of the Empty Lord"),
            kind: QuestKind::Miniquest,
            requirements: Vec::new(),
        },
    );
    v.push(
        Quest {
            id: QuestId::new_static("enchanted_key"),
            name: String::from_str("Enchanted Key"),
            kind: QuestKind::Miniquest,
            requirements: vec![
                QuestRequirement::Quest(QuestId::new_static("making_history")),
            ],
        },
    );
    v.push(
        Quest {
            id: QuestId::new_static("enter_the_abyss"),
            name: String::from_str("Enter the Abyss"),
            kind: QuestKind::Miniquest,
            requirements: vec![
                QuestRequirement::Quest(QuestId::new_static("rune_mysteries")),
            ],
        },
    );
    v.push(
        Quest {
            id: QuestId::new_static("family_pest"),
            name: String::from_str("Family Pest"),
            kind: QuestKind::Miniquest,
            requirements: vec![
                QuestRequirement::Quest(QuestId::new_static("family_crest")),
            ],
        },
    );
    v.push(
        Quest {
            id: QuestId::new_static("the_generals_shadow"),
            name: String::from_str("The General's Shadow"),
            kind: QuestKind::Miniquest,
            requirements: vec![
                QuestRequirement::Quest(QuestId::new_static("fight_arena")),
                QuestRequirement::Quest(QuestId::new_static("curse_of_the_empty_lord")),
            ],
        },
    );
    v.push(
        Quest {
            id: QuestId::new_static("in_search_of_knowledge"),
            name: String::from_str("In Search of Knowledge"),
            kind: QuestKind::Miniquest,
            requirements: Vec::new(),
        },
    );
    v.push(
        Quest {
            id: QuestId::new_static("lair_of_tarn_razorlor"),
            name: String::from_str("Lair of Tarn Razorlor"),
            kind: QuestKind::Miniquest,
            requirements: vec![
                QuestRequirement::Quest(QuestId::new_static("haunted_mine")),
                QuestRequirement::Skill(SkillRequirement::builder(Level(40), Skill::Slayer).build()),
            ],
        },
    );
    v.push(
        Quest {
            id: QuestId::new_static("the_mage_arena"),
            name: String::from_str("The Mage Arena"),
            kind: QuestKind::Miniquest,
            requirements: vec![
                QuestRequirement::Skill(SkillRequirement::builder(Level(60), Skill::Magic).build()),
            ],
        },
    );
    v.push(
        Quest {
            id: QuestId::new_static("the_mage_arena_ii"),
            name: String::from_str("The Mage Arena II"),
            kind: QuestKind::Miniquest,
            requirements: vec![
                QuestRequirement::Skill(SkillRequirement::builder(Level(75), Skill::Magic).build()),
            ],
        },
    );
    v.push(
        Quest {
            id: QuestId::new_static("skippy_and_the_mogres"),
            name: String::from_str("Skippy and the Mogres"),
            kind: QuestKind::Miniquest,
            requirements: Vec::new(),
        },
    );
    v
}

/// The id and kind of every quest in the list, in listing order.
pub open spec fn quest_list_view() -> Seq<(Seq<char>, QuestKind)> {
    quest_list_chunk_view_0() + quest_list_chunk_view_1() + quest_list_chunk_view_2() + quest_list_chunk_view_3() + quest_list_chunk_view_4() + quest_list_chunk_view_5() + quest_list_chunk_view_6() + quest_list_chunk_view_7() + quest_list_chunk_view_8()
}

/// Every quest the guide's content module defines, in its listing order:
/// 156 quests and miniquests, each entry pinned to its listed id and kind.
pub fn all_quests() -> (v: Vec<Quest>)
    ensures
        v@.len() == 156,
        forall|i: int|
            0 <= i < v@.len() ==> (#[trigger] v@[i]).id@ == quest_list_view()[i].0 && v@[i].kind
                == quest_list_view()[i].1,
{
    let mut v: Vec<Quest> = Vec::new();
    let mut c0 = guide_quest_chunk_0();
    v.append(&mut c0);
    let mut c1 = guide_quest_chunk_1();
    v.append(&mut c1);
    let mut c2 = guide_quest_chunk_2();
    v.append(&mut c2);
    let mut c3 = guide_quest_chunk_3();
    v.append(&mut c3);
    let mut c4 = guide_quest_chunk_4();
    v.append(&mut c4);
    let mut c5 = guide_quest_chunk_5();
    v.append(&mut c5);
    let mut c6 = guide_quest_chunk_6();
    v.append(&mut c6);
    let mut c7 = guide_quest_chunk_7();
    v.append(&mut c7);
    let mut c8 = guide_quest_chunk_8();
    v.append(&mut c8);
    proof {
        assert forall|i: int|
            0 <= i < v@.len() implies (#[trigger] v@[i]).id@ == quest_list_view()[i].0 && v@[i].kind
            == quest_list_view()[i].1 by {
            if i < 18 {
                assert(quest_list_view()[i] == quest_list_chunk_view_0()[i - 0]);
            } else if i < 36 {
                assert(quest_list_view()[i] == quest_list_chunk_view_1()[i - 18]);
            } else if i < 54 {
                assert(quest_list_view()[i] == quest_list_chunk_view_2()[i - 36]);
            } else if i < 72 {
                assert(quest_list_view()[i] == quest_list_chunk_view_3()[i - 54]);
            } else if i < 90 {
                assert(quest_list_view()[i] == quest_list_chunk_view_4()[i - 72]);
            } else if i < 108 {
                assert(quest_list_view()[i] == quest_list_chunk_view_5()[i - 90]);
            } else if i < 126 {
                assert(quest_list_view()[i] == quest_list_chunk_view_6()[i - 108]);
            } else if i < 144 {
                assert(quest_list_view()[i] == quest_list_chunk_view_7()[i - 126]);
            } else {
                assert(quest_list_view()[i] == quest_list_chunk_view_8()[i - 144]);
            }
        }
    }
    v
}

/// The quest with the given id, if the list holds one: the first entry
/// whose id matches.
pub fn find_quest<'a>(quests: &'a Vec<Quest>, id: &QuestId) -> (r: Option<&'a Quest>)
    ensures
        r is Some <==> exists|i: int|
            0 <= i < quests@.len() && (#[trigger] quests@[i]).id_spec() == id@,
        r matches Some(q) ==> exists|i: int|
            {
                &&& 0 <= i < quests@.len()
                &&& (#[trigger] quests@[i]).id_spec() == id@
                &&& q == &quests@[i]
                &&& forall|j: int| 0 <= j < i ==> quests@[j].id_spec() != id@
            },
        r is None ==> forall|i: int|
            0 <= i < quests@.len() ==> (#[trigger] quests@[i]).id_spec() != id@,
{
    let mut i: usize = 0;
    while i < quests.len()
        invariant
            i <= quests@.len(),
            forall|j: int| 0 <= j < i ==> (#[trigger] quests@[j]).id_spec() != id@,
        decreases quests@.len() - i,
    {
        if str_eq(quests[i].id().as_str(), id.as_str()) {
            proof {
                assert(0 <= i < quests@.len() && (quests@[i as int]).id_spec() == id@);
            }
            return Some(&quests[i]);
        }
        i = i + 1;
    }
    None
}

} // verus!
