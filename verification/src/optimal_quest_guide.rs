//! The optimal quest guide: a fixed, ordered script of quests, diaries
//! and training goals, and the scan that finds an account's next
//! incomplete step.

use vstd::prelude::*;
use crate::Level;
use crate::accounts::{Account, skill_level_spec};
use crate::diaries::DiaryId;
use crate::quests::QuestId;
use crate::skill::Skill;
use crate::text::str_eq;

verus! {

/// One step of the guide: complete a quest, finish a diary tier, or train
/// a skill from one level to another.
#[derive(Debug)]
pub enum OptimalQuestGuideStep {
    Quest(QuestId),
    Diary(DiaryId),
    Train { skill: Skill, from: Level, to: Level },
}

/// What one step of the script asks for, as a specification value: the
/// quest's or diary's id, or the skill-training target.
pub enum GuideStepView {
    Quest(Seq<char>),
    Diary(Seq<char>),
    Train { skill: Skill, from: int, to: int },
}

/// The specification view of a step.
pub open spec fn step_view(s: OptimalQuestGuideStep) -> GuideStepView {
    match s {
        OptimalQuestGuideStep::Quest(id) => GuideStepView::Quest(id@),
        OptimalQuestGuideStep::Diary(id) => GuideStepView::Diary(id@),
        OptimalQuestGuideStep::Train { skill, from, to } => GuideStepView::Train {
            skill,
            from: from.0 as int,
            to: to.0 as int,
        },
    }
}

/// Whether an account has already done a step: the quest or diary is among
/// its completed ones, or the skill has reached the training target.
pub open spec fn step_completed_spec(account: Account, step: OptimalQuestGuideStep) -> bool {
    match step {
        OptimalQuestGuideStep::Quest(id) => exists|i: int|
            0 <= i < account.completed_quests@.len() && (#[trigger] account.completed_quests@[i])@
                == id@,
        OptimalQuestGuideStep::Diary(id) => exists|i: int|
            0 <= i < account.completed_diaries@.len() && (#[trigger] account.completed_diaries@[i])@
                == id@,
        OptimalQuestGuideStep::Train { skill, from, to } => skill_level_spec(account.skills, skill)
            >= to.0,
    }
}

/// Whether the account's completed-quest list holds the given id.
fn contains_quest_id(completed: &Vec<QuestId>, id: &QuestId) -> (r: bool)
    ensures
        r == exists|i: int| 0 <= i < completed@.len() && (#[trigger] completed@[i])@ == id@,
{
    let mut i: usize = 0;
    while i < completed.len()
        invariant
            i <= completed@.len(),
            forall|j: int| 0 <= j < i ==> (#[trigger] completed@[j])@ != id@,
        decreases completed@.len() - i,
    {
        if str_eq(completed[i].as_str(), id.as_str()) {
            proof {
                assert(0 <= i < completed@.len() && (completed@[i as int])@ == id@);
            }
            return true;
        }
        i = i + 1;
    }
    false
}

/// Whether the account's completed-diary list holds the given id.
fn contains_diary_id(completed: &Vec<DiaryId>, id: &DiaryId) -> (r: bool)
    ensures
        r == exists|i: int| 0 <= i < completed@.len() && (#[trigger] completed@[i])@ == id@,
{
    let mut i: usize = 0;
    while i < completed.len()
        invariant
            i <= completed@.len(),
            forall|j: int| 0 <= j < i ==> (#[trigger] completed@[j])@ != id@,
        decreases completed@.len() - i,
    {
        if str_eq(completed[i].0, id.0) {
            proof {
                assert(0 <= i < completed@.len() && (completed@[i as int])@ == id@);
            }
            return true;
        }
        i = i + 1;
    }
    false
}

/// The guide for one account: it scans the script for the first step the
/// account has not done yet.
pub struct OptimalQuestGuide<'a> {
    pub account: &'a Account,
}

impl<'a> OptimalQuestGuide<'a> {
    /// A guide reading the given account.
    pub fn new(account: &'a Account) -> (r: Self)
        ensures
            r.account == account,
    {
        OptimalQuestGuide { account }
    }

    /// Whether the account has already done a step.
    fn step_completed(&self, step: &OptimalQuestGuideStep) -> (r: bool)
        ensures
            r == step_completed_spec(*self.account, *step),
    {
        match step {
            OptimalQuestGuideStep::Quest(id) => contains_quest_id(
                &self.account.completed_quests,
                id,
            ),
            OptimalQuestGuideStep::Diary(id) => contains_diary_id(
                &self.account.completed_diaries,
                id,
            ),
            OptimalQuestGuideStep::Train { skill, from, to } => {
                let level = self.account.get_level(skill);
                level.0 >= to.0
            },
        }
    }

    /// The first step of the given script that the account has not done:
    /// every step before it is done, and nothing is returned only when the
    /// whole script is.
    pub fn next_step<'b>(&self, guide: &'b Vec<OptimalQuestGuideStep>) -> (r: Option<
        &'b OptimalQuestGuideStep,
    >)
        ensures
            r is None <==> forall|i: int|
                0 <= i < guide@.len() ==> step_completed_spec(*self.account, #[trigger] guide@[i]),
            r matches Some(s) ==> exists|i: int|
                {
                    &&& 0 <= i < guide@.len()
                    &&& s == &guide@[i]
                    &&& !step_completed_spec(*self.account, #[trigger] guide@[i])
                    &&& forall|j: int|
                        0 <= j < i ==> step_completed_spec(*self.account, #[trigger] guide@[j])
                },
    {
        let mut i: usize = 0;
        while i < guide.len()
            invariant
                i <= guide@.len(),
                forall|j: int|
                    0 <= j < i ==> step_completed_spec(*self.account, #[trigger] guide@[j]),
            decreases guide@.len() - i,
        {
            if !self.step_completed(&guide[i]) {
                proof {
                    let w = i as int;
                    assert({
                        &&& 0 <= w < guide@.len()
                        &&& !step_completed_spec(*self.account, guide@[w])
                        &&& forall|j: int|
                            0 <= j < w ==> step_completed_spec(*self.account, #[trigger] guide@[j])
                    });
                }
                return Some(&guide[i]);
            }
            i = i + 1;
        }
        None
    }
}


pub open spec fn guide_chunk_view_0() -> Seq<GuideStepView> {
    seq![
        GuideStepView::Quest("cooks_assistant"@),
        GuideStepView::Quest("x_marks_the_spot"@),
        GuideStepView::Quest("the_restless_ghost"@),
        GuideStepView::Quest("rune_mysteries"@),
        GuideStepView::Quest("imp_catcher"@),
        GuideStepView::Quest("witchs_potion"@),
        GuideStepView::Quest("client_of_kourend"@),
        GuideStepView::Quest("dwarf_cannon"@),
        GuideStepView::Quest("waterfall_quest"@),
        GuideStepView::Quest("tree_gnome_village"@),
        GuideStepView::Quest("monks_friend"@),
        GuideStepView::Quest("hazeel_cult"@),
        GuideStepView::Quest("murder_mystery"@),
        GuideStepView::Quest("merlins_crystal"@),
        GuideStepView::Quest("holy_grail"@),
        GuideStepView::Quest("druidic_ritual"@),
        GuideStepView::Quest("witchs_house"@),
        GuideStepView::Quest("black_knights_fortress"@),
        GuideStepView::Quest("recruitment_drive"@),
        GuideStepView::Quest("observatory_quest"@),
        GuideStepView::Quest("priest_in_peril"@),
        GuideStepView::Quest("rag_and_bone_man"@),
        GuideStepView::Quest("nature_spirit"@),
        GuideStepView::Quest("alfred_grimhands_barcrawl"@),
        GuideStepView::Quest("scorpion_catcher"@),
    ]
}

fn guide_chunk_0() -> (v: Vec<OptimalQuestGuideStep>)
    ensures
        v@.len() == 25,
        forall|k: int| 0 <= k < v@.len() ==> step_view(#[trigger] v@[k]) == guide_chunk_view_0()[k],
{
    let mut v: Vec<OptimalQuestGuideStep> = Vec::new();
    v.push(OptimalQuestGuideStep::Quest(QuestId::new_static("cooks_assistant")));
    v.push(OptimalQuestGuideStep::Quest(QuestId::new_static("x_marks_the_spot")));
    v.push(OptimalQuestGuideStep::Quest(QuestId::new_static("the_restless_ghost")));
    v.push(OptimalQuestGuideStep::Quest(QuestId::new_static("rune_mysteries")));
    v.push(OptimalQuestGuideStep::Quest(QuestId::new_static("imp_catcher")));
    v.push(OptimalQuestGuideStep::Quest(QuestId::new_static("witchs_potion")));
    v.push(OptimalQuestGuideStep::Quest(QuestId::new_static("client_of_kourend")));
    v.push(OptimalQuestGuideStep::Quest(QuestId::new_static("dwarf_cannon")));
    v.push(OptimalQuestGuideStep::Quest(QuestId::new_static("waterfall_quest")));
    v.push(OptimalQuestGuideStep::Quest(QuestId::new_static("tree_gnome_village")));
    v.push(OptimalQuestGuideStep::Quest(QuestId::new_static("monks_friend")));
    v.push(OptimalQuestGuideStep::Quest(QuestId::new_static("hazeel_cult")));
    v.push(OptimalQuestGuideStep::Quest(QuestId::new_static("murder_mystery")));
    v.push(OptimalQuestGuideStep::Quest(QuestId::new_static("merlins_crystal")));
    v.push(OptimalQuestGuideStep::Quest(QuestId::new_static("holy_grail")));
    v.push(OptimalQuestGuideStep::Quest(QuestId::new_static("druidic_ritual")));
    v.push(OptimalQuestGuideStep::Quest(QuestId::new_static("witchs_house")));
    v.push(OptimalQuestGuideStep::Quest(QuestId::new_static("black_knights_fortress")));
    v.push(OptimalQuestGuideStep::Quest(QuestId::new_static("recruitment_drive")));
    v.push(OptimalQuestGuideStep::Quest(QuestId::new_static("observatory_quest")));
    v.push(OptimalQuestGuideStep::Quest(QuestId::new_static("priest_in_peril")));
    v.push(OptimalQuestGuideStep::Quest(QuestId::new_static("rag_and_bone_man")));
    v.push(OptimalQuestGuideStep::Quest(QuestId::new_static("nature_spirit")));
    v.push(OptimalQuestGuideStep::Quest(QuestId::new_static("alfred_grimhands_barcrawl")));
    v.push(OptimalQuestGuideStep::Quest(QuestId::new_static("scorpion_catcher")));
    v
}

pub open spec fn guide_chunk_view_1() -> Seq<GuideStepView> {
    seq![
        GuideStepView::Quest("plague_city"@),
        GuideStepView::Quest("biohazard"@),
        GuideStepView::Quest("fight_arena"@),
        GuideStepView::Quest("gertrudes_cat"@),
        GuideStepView::Quest("jungle_potion"@),
        GuideStepView::Quest("vampire_slayer"@),
        GuideStepView::Quest("death_plateau"@),
        GuideStepView::Quest("goblin_diplomacy"@),
        GuideStepView::Quest("the_queen_of_thieves"@),
        GuideStepView::Train { skill: Skill::Agility, from: 14, to: 18 },
        GuideStepView::Quest("the_depths_of_despair"@),
        GuideStepView::Quest("mountain_daughter"@),
        GuideStepView::Quest("icthlarins_little_helper"@),
        GuideStepView::Quest("the_grand_tree"@),
        GuideStepView::Quest("tribal_totem"@),
        GuideStepView::Quest("the_dig_site"@),
        GuideStepView::Quest("the_golem"@),
        GuideStepView::Quest("the_knights_sword"@),
        GuideStepView::Quest("elemental_workshop_i"@),
        GuideStepView::Quest("demon_slayer"@),
        GuideStepView::Quest("shadow_of_the_storm"@),
        GuideStepView::Quest("elemental_workshop_ii"@),
        GuideStepView::Train { skill: Skill::Woodcutting, from: 22, to: 36 },
        GuideStepView::Quest("lost_city"@),
        GuideStepView::Quest("fairy_tale_i_growing_pains"@),
    ]
}

fn guide_chunk_1() -> (v: Vec<OptimalQuestGuideStep>)
    ensures
        v@.len() == 25,
        forall|k: int| 0 <= k < v@.len() ==> step_view(#[trigger] v@[k]) == guide_chunk_view_1()[k],
{
    let mut v: Vec<OptimalQuestGuideStep> = Vec::new();
    v.push(OptimalQuestGuideStep::Quest(QuestId::new_static("plague_city")));
    v.push(OptimalQuestGuideStep::Quest(QuestId::new_static("biohazard")));
    v.push(OptimalQuestGuideStep::Quest(QuestId::new_static("fight_arena")));
    v.push(OptimalQuestGuideStep::Quest(QuestId::new_static("gertrudes_cat")));
    v.push(OptimalQuestGuideStep::Quest(QuestId::new_static("jungle_potion")));
    v.push(OptimalQuestGuideStep::Quest(QuestId::new_static("vampire_slayer")));
    v.push(OptimalQuestGuideStep::Quest(QuestId::new_static("death_plateau")));
    v.push(OptimalQuestGuideStep::Quest(QuestId::new_static("goblin_diplomacy")));
    v.push(OptimalQuestGuideStep::Quest(QuestId::new_static("the_queen_of_thieves")));
    v.push(OptimalQuestGuideStep::Train { skill: Skill::Agility, from: Level(14), to: Level(18) });
    v.push(OptimalQuestGuideStep::Quest(QuestId::new_static("the_depths_of_despair")));
    v.push(OptimalQuestGuideStep::Quest(QuestId::new_static("mountain_daughter")));
    v.push(OptimalQuestGuideStep::Quest(QuestId::new_static("icthlarins_little_helper")));
    v.push(OptimalQuestGuideStep::Quest(QuestId::new_static("the_grand_tree")));
    v.push(OptimalQuestGuideStep::Quest(QuestId::new_static("tribal_totem")));
    v.push(OptimalQuestGuideStep::Quest(QuestId::new_static("the_dig_site")));
    v.push(OptimalQuestGuideStep::Quest(QuestId::new_static("the_golem")));
    v.push(OptimalQuestGuideStep::Quest(QuestId::new_static("the_knights_sword")));
    v.push(OptimalQuestGuideStep::Quest(QuestId::new_static("elemental_workshop_i")));
    v.push(OptimalQuestGuideStep::Quest(QuestId::new_static("demon_slayer")));
    v.push(OptimalQuestGuideStep::Quest(QuestId::new_static("shadow_of_the_storm")));
    v.push(OptimalQuestGuideStep::Quest(QuestId::new_static("elemental_workshop_ii")));
    v.push(OptimalQuestGuideStep::Train { skill: Skill::Woodcutting, from: Level(22), to: Level(36) });
    v.push(OptimalQuestGuideStep::Quest(QuestId::new_static("lost_city")));
    v.push(OptimalQuestGuideStep::Quest(QuestId::new_static("fairy_tale_i_growing_pains")));
    v
}

pub open spec fn guide_chunk_view_2() -> Seq<GuideStepView> {
    seq![
        GuideStepView::Quest("shield_of_arrav"@),
        GuideStepView::Quest("creature_of_fenkenstrain"@),
        GuideStepView::Quest("a_souls_bane"@),
        GuideStepView::Quest("the_lost_tribe"@),
        GuideStepView::Quest("death_to_the_dorgeshuun"@),
        GuideStepView::Train { skill: Skill::Firemaking, from: 1, to: 16 },
        GuideStepView::Train { skill: Skill::Magic, from: 30, to: 33 },
        GuideStepView::Quest("the_giant_dwarf"@),
        GuideStepView::Quest("another_slice_of_ham"@),
        GuideStepView::Quest("making_history"@),
        GuideStepView::Quest("in_search_of_the_myreque"@),
        GuideStepView::Quest("shades_of_mortton"@),
        GuideStepView::Quest("in_aid_of_the_myreque"@),
        GuideStepView::Quest("bone_voyage"@),
        GuideStepView::Quest("enter_the_abyss"@),
        GuideStepView::Quest("wanted"@),
        GuideStepView::Quest("the_feud"@),
        GuideStepView::Quest("troll_stronghold"@),
        GuideStepView::Quest("troll_romance"@),
        GuideStepView::Quest("dragon_slayer"@),
        GuideStepView::Quest("horror_from_the_deep"@),
        GuideStepView::Train { skill: Skill::Ranged, from: 23, to: 30 },
        GuideStepView::Quest("ernest_the_chicken"@),
        GuideStepView::Quest("animal_magnetism"@),
        GuideStepView::Quest("shilo_village"@),
    ]
}

fn guide_chunk_2() -> (v: Vec<OptimalQuestGuideStep>)
    ensures
        v@.len() == 25,
        forall|k: int| 0 <= k < v@.len() ==> step_view(#[trigger] v@[k]) == guide_chunk_view_2()[k],
{
    let mut v: Vec<OptimalQuestGuideStep> = Vec::new();
    v.push(OptimalQuestGuideStep::Quest(QuestId::new_static("shield_of_arrav")));
    v.push(OptimalQuestGuideStep::Quest(QuestId::new_static("creature_of_fenkenstrain")));
    v.push(OptimalQuestGuideStep::Quest(QuestId::new_static("a_souls_bane")));
    v.push(OptimalQuestGuideStep::Quest(QuestId::new_static("the_lost_tribe")));
    v.push(OptimalQuestGuideStep::Quest(QuestId::new_static("death_to_the_dorgeshuun")));
    v.push(OptimalQuestGuideStep::Train { skill: Skill::Firemaking, from: Level(1), to: Level(16) });
    v.push(OptimalQuestGuideStep::Train { skill: Skill::Magic, from: Level(30), to: Level(33) });
    v.push(OptimalQuestGuideStep::Quest(QuestId::new_static("the_giant_dwarf")));
    v.push(OptimalQuestGuideStep::Quest(QuestId::new_static("another_slice_of_ham")));
    v.push(OptimalQuestGuideStep::Quest(QuestId::new_static("making_history")));
    v.push(OptimalQuestGuideStep::Quest(QuestId::new_static("in_search_of_the_myreque")));
    v.push(OptimalQuestGuideStep::Quest(QuestId::new_static("shades_of_mortton")));
    v.push(OptimalQuestGuideStep::Quest(QuestId::new_static("in_aid_of_the_myreque")));
    v.push(OptimalQuestGuideStep::Quest(QuestId::new_static("bone_voyage")));
    v.push(OptimalQuestGuideStep::Quest(QuestId::new_static("enter_the_abyss")));
    v.push(OptimalQuestGuideStep::Quest(QuestId::new_static("wanted")));
    v.push(OptimalQuestGuideStep::Quest(QuestId::new_static("the_feud")));
    v.push(OptimalQuestGuideStep::Quest(QuestId::new_static("troll_stronghold")));
    v.push(OptimalQuestGuideStep::Quest(QuestId::new_static("troll_romance")));
    v.push(OptimalQuestGuideStep::Quest(QuestId::new_static("dragon_slayer")));
    v.push(OptimalQuestGuideStep::Quest(QuestId::new_static("horror_from_the_deep")));
    v.push(OptimalQuestGuideStep::Train { skill: Skill::Ranged, from: Level(23), to: Level(30) });
    v.push(OptimalQuestGuideStep::Quest(QuestId::new_static("ernest_the_chicken")));
    v.push(OptimalQuestGuideStep::Quest(QuestId::new_static("animal_magnetism")));
    v.push(OptimalQuestGuideStep::Quest(QuestId::new_static("shilo_village")));
    v
}

pub open spec fn guide_chunk_view_3() -> Seq<GuideStepView> {
    seq![
        GuideStepView::Quest("dorics_quest"@),
        GuideStepView::Train { skill: Skill::Ranged, from: 30, to: 37 },
        GuideStepView::Quest("spirits_of_the_elid"@),
        GuideStepView::Train { skill: Skill::Construction, from: 1, to: 5 },
        GuideStepView::Quest("darkness_of_hallowvale"@),
        GuideStepView::Quest("tower_of_life"@),
        GuideStepView::Train { skill: Skill::Fishing, from: 1, to: 10 },
        GuideStepView::Quest("fishing_contest"@),
        GuideStepView::Train { skill: Skill::Cooking, from: 19, to: 20 },
        GuideStepView::Quest("ghosts_ahoy"@),
        GuideStepView::Train { skill: Skill::Cooking, from: 20, to: 22 },
        GuideStepView::Quest("forgettable_tale_of_a_drunken_dwarf"@),
        GuideStepView::Quest("garden_of_tranquillity"@),
        GuideStepView::Quest("enlightened_journey"@),
        GuideStepView::Quest("big_chompy_bird_hunting"@),
        GuideStepView::Quest("zogre_flesh_eaters"@),
        GuideStepView::Quest("tai_bwo_wannai_trio"@),
        GuideStepView::Quest("the_tourist_trap"@),
        GuideStepView::Train { skill: Skill::Herblore, from: 25, to: 31 },
        GuideStepView::Quest("eadgars_ruse"@),
        GuideStepView::Quest("my_arms_big_adventure"@),
        GuideStepView::Quest("the_fremennik_trials"@),
        GuideStepView::Train { skill: Skill::Construction, from: 17, to: 20 },
        GuideStepView::Quest("the_fremennik_isles"@),
        GuideStepView::Train { skill: Skill::Cooking, from: 36, to: 41 },
    ]
}

fn guide_chunk_3() -> (v: Vec<OptimalQuestGuideStep>)
    ensures
        v@.len() == 25,
        forall|k: int| 0 <= k < v@.len() ==> step_view(#[trigger] v@[k]) == guide_chunk_view_3()[k],
{
    let mut v: Vec<OptimalQuestGuideStep> = Vec::new();
    v.push(OptimalQuestGuideStep::Quest(QuestId::new_static("dorics_quest")));
    v.push(OptimalQuestGuideStep::Train { skill: Skill::Ranged, from: Level(30), to: Level(37) });
    v.push(OptimalQuestGuideStep::Quest(QuestId::new_static("spirits_of_the_elid")));
    v.push(OptimalQuestGuideStep::Train { skill: Skill::Construction, from: Level(1), to: Level(5) });
    v.push(OptimalQuestGuideStep::Quest(QuestId::new_static("darkness_of_hallowvale")));
    v.push(OptimalQuestGuideStep::Quest(QuestId::new_static("tower_of_life")));
    v.push(OptimalQuestGuideStep::Train { skill: Skill::Fishing, from: Level(1), to: Level(10) });
    v.push(OptimalQuestGuideStep::Quest(QuestId::new_static("fishing_contest")));
    v.push(OptimalQuestGuideStep::Train { skill: Skill::Cooking, from: Level(19), to: Level(20) });
    v.push(OptimalQuestGuideStep::Quest(QuestId::new_static("ghosts_ahoy")));
    v.push(OptimalQuestGuideStep::Train { skill: Skill::Cooking, from: Level(20), to: Level(22) });
    v.push(OptimalQuestGuideStep::Quest(QuestId::new_static("forgettable_tale_of_a_drunken_dwarf")));
    v.push(OptimalQuestGuideStep::Quest(QuestId::new_static("garden_of_tranquillity")));
    v.push(OptimalQuestGuideStep::Quest(QuestId::new_static("enlightened_journey")));
    v.push(OptimalQuestGuideStep::Quest(QuestId::new_static("big_chompy_bird_hunting")));
    v.push(OptimalQuestGuideStep::Quest(QuestId::new_static("zogre_flesh_eaters")));
    v.push(OptimalQuestGuideStep::Quest(QuestId::new_static("tai_bwo_wannai_trio")));
    v.push(OptimalQuestGuideStep::Quest(QuestId::new_static("the_tourist_trap")));
    v.push(OptimalQuestGuideStep::Train { skill: Skill::Herblore, from: Level(25), to: Level(31) });
    v.push(OptimalQuestGuideStep::Quest(QuestId::new_static("eadgars_ruse")));
    v.push(OptimalQuestGuideStep::Quest(QuestId::new_static("my_arms_big_adventure")));
    v.push(OptimalQuestGuideStep::Quest(QuestId::new_static("the_fremennik_trials")));
    v.push(OptimalQuestGuideStep::Train { skill: Skill::Construction, from: Level(17), to: Level(20) });
    v.push(OptimalQuestGuideStep::Quest(QuestId::new_static("the_fremennik_isles")));
    v.push(OptimalQuestGuideStep::Train { skill: Skill::Cooking, from: Level(36), to: Level(41) });
    v
}

pub open spec fn guide_chunk_view_4() -> Seq<GuideStepView> {
    seq![
        GuideStepView::Quest("haunted_mine"@),
        GuideStepView::Train { skill: Skill::Mining, from: 37, to: 40 },
        GuideStepView::Quest("watchtower"@),
        GuideStepView::Quest("prince_ali_rescue"@),
        GuideStepView::Quest("contact"@),
        GuideStepView::Train { skill: Skill::Magic, from: 42, to: 46 },
        GuideStepView::Quest("the_eyes_of_glouphrie"@),
        GuideStepView::Train { skill: Skill::Firemaking, from: 25, to: 30 },
        GuideStepView::Quest("sea_slug"@),
        GuideStepView::Train { skill: Skill::Firemaking, from: 30, to: 40 },
        GuideStepView::Train { skill: Skill::Woodcutting, from: 42, to: 50 },
        GuideStepView::Quest("olafs_quest"@),
        GuideStepView::Train { skill: Skill::Firemaking, from: 40, to: 50 },
        GuideStepView::Quest("tears_of_guthix"@),
        GuideStepView::Quest("ratcatchers"@),
        GuideStepView::Train { skill: Skill::Ranged, from: 38, to: 40 },
        GuideStepView::Quest("temple_of_ikov"@),
        GuideStepView::Quest("one_small_favour"@),
        GuideStepView::Quest("a_tail_of_two_cats"@),
        GuideStepView::Train { skill: Skill::Smithing, from: 45, to: 50 },
        GuideStepView::Quest("between_a_rock"@),
        GuideStepView::Train { skill: Skill::Slayer, from: 25, to: 30 },
        GuideStepView::Train { skill: Skill::Runecraft, from: 23, to: 30 },
        GuideStepView::Quest("the_slug_menace"@),
        GuideStepView::Quest("monkey_madness_i"@),
    ]
}

fn guide_chunk_4() -> (v: Vec<OptimalQuestGuideStep>)
    ensures
        v@.len() == 25,
        forall|k: int| 0 <= k < v@.len() ==> step_view(#[trigger] v@[k]) == guide_chunk_view_4()[k],
{
    let mut v: Vec<OptimalQuestGuideStep> = Vec::new();
    v.push(OptimalQuestGuideStep::Quest(QuestId::new_static("haunted_mine")));
    v.push(OptimalQuestGuideStep::Train { skill: Skill::Mining, from: Level(37), to: Level(40) });
    v.push(OptimalQuestGuideStep::Quest(QuestId::new_static("watchtower")));
    v.push(OptimalQuestGuideStep::Quest(QuestId::new_static("prince_ali_rescue")));
    v.push(OptimalQuestGuideStep::Quest(QuestId::new_static("contact")));
    v.push(OptimalQuestGuideStep::Train { skill: Skill::Magic, from: Level(42), to: Level(46) });
    v.push(OptimalQuestGuideStep::Quest(QuestId::new_static("the_eyes_of_glouphrie")));
    v.push(OptimalQuestGuideStep::Train { skill: Skill::Firemaking, from: Level(25), to: Level(30) });
    v.push(OptimalQuestGuideStep::Quest(QuestId::new_static("sea_slug")));
    v.push(OptimalQuestGuideStep::Train { skill: Skill::Firemaking, from: Level(30), to: Level(40) });
    v.push(OptimalQuestGuideStep::Train { skill: Skill::Woodcutting, from: Level(42), to: Level(50) });
    v.push(OptimalQuestGuideStep::Quest(QuestId::new_static("olafs_quest")));
    v.push(OptimalQuestGuideStep::Train { skill: Skill::Firemaking, from: Level(40), to: Level(50) });
    v.push(OptimalQuestGuideStep::Quest(QuestId::new_static("tears_of_guthix")));
    v.push(OptimalQuestGuideStep::Quest(QuestId::new_static("ratcatchers")));
    v.push(OptimalQuestGuideStep::Train { skill: Skill::Ranged, from: Level(38), to: Level(40) });
    v.push(OptimalQuestGuideStep::Quest(QuestId::new_static("temple_of_ikov")));
    v.push(OptimalQuestGuideStep::Quest(QuestId::new_static("one_small_favour")));
    v.push(OptimalQuestGuideStep::Quest(QuestId::new_static("a_tail_of_two_cats")));
    v.push(OptimalQuestGuideStep::Train { skill: Skill::Smithing, from: Level(45), to: Level(50) });
    v.push(OptimalQuestGuideStep::Quest(QuestId::new_static("between_a_rock")));
    v.push(OptimalQuestGuideStep::Train { skill: Skill::Slayer, from: Level(25), to: Level(30) });
    v.push(OptimalQuestGuideStep::Train { skill: Skill::Runecraft, from: Level(23), to: Level(30) });
    v.push(OptimalQuestGuideStep::Quest(QuestId::new_static("the_slug_menace")));
    v.push(OptimalQuestGuideStep::Quest(QuestId::new_static("monkey_madness_i")));
    v
}

pub open spec fn guide_chunk_view_5() -> Seq<GuideStepView> {
    seq![
        GuideStepView::Train { skill: Skill::Construction, from: 26, to: 34 },
        GuideStepView::Train { skill: Skill::Hunter, from: 9, to: 10 },
        GuideStepView::Quest("cold_war"@),
        GuideStepView::Train { skill: Skill::Hunter, from: 10, to: 12 },
        GuideStepView::Quest("the_ascent_of_arceuus"@),
        GuideStepView::Train { skill: Skill::Hunter, from: 16, to: 27 },
        GuideStepView::Quest("eagles_peak"@),
        GuideStepView::Quest("underground_pass"@),
        GuideStepView::Train { skill: Skill::Slayer, from: 30, to: 42 },
        GuideStepView::Quest("skippy_and_the_mogres"@),
        GuideStepView::Quest("rag_and_bone_man_ii"@),
        GuideStepView::Quest("lair_of_tarn_razorlor"@),
        GuideStepView::Train { skill: Skill::Fishing, from: 33, to: 50 },
        GuideStepView::Train { skill: Skill::Prayer, from: 39, to: 47 },
        GuideStepView::Train { skill: Skill::Farming, from: 35, to: 40 },
        GuideStepView::Quest("rum_deal"@),
        GuideStepView::Quest("sheep_shearer"@),
        GuideStepView::Quest("misthalin_mystery"@),
        GuideStepView::Train { skill: Skill::Crafting, from: 43, to: 45 },
        GuideStepView::Train { skill: Skill::Agility, from: 41, to: 42 },
        GuideStepView::Quest("pirates_treasure"@),
        GuideStepView::Quest("cabin_fever"@),
        GuideStepView::Train { skill: Skill::Prayer, from: 47, to: 50 },
        GuideStepView::Quest("the_great_brain_robbery"@),
        GuideStepView::Train { skill: Skill::Crafting, from: 46, to: 50 },
    ]
}

fn guide_chunk_5() -> (v: Vec<OptimalQuestGuideStep>)
    ensures
        v@.len() == 25,
        forall|k: int| 0 <= k < v@.len() ==> step_view(#[trigger] v@[k]) == guide_chunk_view_5()[k],
{
    let mut v: Vec<OptimalQuestGuideStep> = Vec::new();
    v.push(OptimalQuestGuideStep::Train { skill: Skill::Construction, from: Level(26), to: Level(34) });
    v.push(OptimalQuestGuideStep::Train { skill: Skill::Hunter, from: Level(9), to: Level(10) });
    v.push(OptimalQuestGuideStep::Quest(QuestId::new_static("cold_war")));
    v.push(OptimalQuestGuideStep::Train { skill: Skill::Hunter, from: Level(10), to: Level(12) });
    v.push(OptimalQuestGuideStep::Quest(QuestId::new_static("the_ascent_of_arceuus")));
    v.push(OptimalQuestGuideStep::Train { skill: Skill::Hunter, from: Level(16), to: Level(27) });
    v.push(OptimalQuestGuideStep::Quest(QuestId::new_static("eagles_peak")));
    v.push(OptimalQuestGuideStep::Quest(QuestId::new_static("underground_pass")));
    v.push(OptimalQuestGuideStep::Train { skill: Skill::Slayer, from: Level(30), to: Level(42) });
    v.push(OptimalQuestGuideStep::Quest(QuestId::new_static("skippy_and_the_mogres")));
    v.push(OptimalQuestGuideStep::Quest(QuestId::new_static("rag_and_bone_man_ii")));
    v.push(OptimalQuestGuideStep::Quest(QuestId::new_static("lair_of_tarn_razorlor")));
    v.push(OptimalQuestGuideStep::Train { skill: Skill::Fishing, from: Level(33), to: Level(50) });
    v.push(OptimalQuestGuideStep::Train { skill: Skill::Prayer, from: Level(39), to: Level(47) });
    v.push(OptimalQuestGuideStep::Train { skill: Skill::Farming, from: Level(35), to: Level(40) });
    v.push(OptimalQuestGuideStep::Quest(QuestId::new_static("rum_deal")));
    v.push(OptimalQuestGuideStep::Quest(QuestId::new_static("sheep_shearer")));
    v.push(OptimalQuestGuideStep::Quest(QuestId::new_static("misthalin_mystery")));
    v.push(OptimalQuestGuideStep::Train { skill: Skill::Crafting, from: Level(43), to: Level(45) });
    v.push(OptimalQuestGuideStep::Train { skill: Skill::Agility, from: Level(41), to: Level(42) });
    v.push(OptimalQuestGuideStep::Quest(QuestId::new_static("pirates_treasure")));
    v.push(OptimalQuestGuideStep::Quest(QuestId::new_static("cabin_fever")));
    v.push(OptimalQuestGuideStep::Train { skill: Skill::Prayer, from: Level(47), to: Level(50) });
    v.push(OptimalQuestGuideStep::Quest(QuestId::new_static("the_great_brain_robbery")));
    v.push(OptimalQuestGuideStep::Train { skill: Skill::Crafting, from: Level(46), to: Level(50) });
    v
}

pub open spec fn guide_chunk_view_6() -> Seq<GuideStepView> {
    seq![
        GuideStepView::Quest("the_hand_in_the_sand"@),
        GuideStepView::Train { skill: Skill::Mining, from: 41, to: 45 },
        GuideStepView::Quest("enakhras_lament"@),
        GuideStepView::Train { skill: Skill::Mining, from: 46, to: 50 },
        GuideStepView::Train { skill: Skill::Cooking, from: 41, to: 53 },
        GuideStepView::Train { skill: Skill::Fishing, from: 50, to: 53 },
        GuideStepView::Quest("heroes_quest"@),
        GuideStepView::Quest("throne_of_miscellania"@),
        GuideStepView::Quest("royal_trouble"@),
        GuideStepView::Train { skill: Skill::Magic, from: 48, to: 50 },
        GuideStepView::Train { skill: Skill::Thieving, from: 44, to: 53 },
        GuideStepView::Quest("desert_treasure"@),
        GuideStepView::Quest("curse_of_the_empty_lord"@),
        GuideStepView::Quest("the_generals_shadow"@),
        GuideStepView::Train { skill: Skill::Magic, from: 51, to: 59 },
        GuideStepView::Train { skill: Skill::Mining, from: 50, to: 52 },
        GuideStepView::Train { skill: Skill::Herblore, from: 39, to: 45 },
        GuideStepView::Train { skill: Skill::Agility, from: 44, to: 50 },
        GuideStepView::Quest("a_taste_of_hope"@),
        GuideStepView::Quest("family_crest"@),
        GuideStepView::Quest("legends_quest"@),
        GuideStepView::Diary("ardougne_easy"@),
        GuideStepView::Diary("desert_easy"@),
        GuideStepView::Diary("falador_easy"@),
        GuideStepView::Diary("fremennik_easy"@),
    ]
}

fn guide_chunk_6() -> (v: Vec<OptimalQuestGuideStep>)
    ensures
        v@.len() == 25,
        forall|k: int| 0 <= k < v@.len() ==> step_view(#[trigger] v@[k]) == guide_chunk_view_6()[k],
{
    let mut v: Vec<OptimalQuestGuideStep> = Vec::new();
    v.push(OptimalQuestGuideStep::Quest(QuestId::new_static("the_hand_in_the_sand")));
    v.push(OptimalQuestGuideStep::Train { skill: Skill::Mining, from: Level(41), to: Level(45) });
    v.push(OptimalQuestGuideStep::Quest(QuestId::new_static("enakhras_lament")));
    v.push(OptimalQuestGuideStep::Train { skill: Skill::Mining, from: Level(46), to: Level(50) });
    v.push(OptimalQuestGuideStep::Train { skill: Skill::Cooking, from: Level(41), to: Level(53) });
    v.push(OptimalQuestGuideStep::Train { skill: Skill::Fishing, from: Level(50), to: Level(53) });
    v.push(OptimalQuestGuideStep::Quest(QuestId::new_static("heroes_quest")));
    v.push(OptimalQuestGuideStep::Quest(QuestId::new_static("throne_of_miscellania")));
    v.push(OptimalQuestGuideStep::Quest(QuestId::new_static("royal_trouble")));
    v.push(OptimalQuestGuideStep::Train { skill: Skill::Magic, from: Level(48), to: Level(50) });
    v.push(OptimalQuestGuideStep::Train { skill: Skill::Thieving, from: Level(44), to: Level(53) });
    v.push(OptimalQuestGuideStep::Quest(QuestId::new_static("desert_treasure")));
    v.push(OptimalQuestGuideStep::Quest(QuestId::new_static("curse_of_the_empty_lord")));
    v.push(OptimalQuestGuideStep::Quest(QuestId::new_static("the_generals_shadow")));
    v.push(OptimalQuestGuideStep::Train { skill: Skill::Magic, from: Level(51), to: Level(59) });
    v.push(OptimalQuestGuideStep::Train { skill: Skill::Mining, from: Level(50), to: Level(52) });
    v.push(OptimalQuestGuideStep::Train { skill: Skill::Herblore, from: Level(39), to: Level(45) });
    v.push(OptimalQuestGuideStep::Train { skill: Skill::Agility, from: Level(44), to: Level(50) });
    v.push(OptimalQuestGuideStep::Quest(QuestId::new_static("a_taste_of_hope")));
    v.push(OptimalQuestGuideStep::Quest(QuestId::new_static("family_crest")));
    v.push(OptimalQuestGuideStep::Quest(QuestId::new_static("legends_quest")));
    v.push(OptimalQuestGuideStep::Diary(DiaryId("ardougne_easy")));
    v.push(OptimalQuestGuideStep::Diary(DiaryId("desert_easy")));
    v.push(OptimalQuestGuideStep::Diary(DiaryId("falador_easy")));
    v.push(OptimalQuestGuideStep::Diary(DiaryId("fremennik_easy")));
    v
}

pub open spec fn guide_chunk_view_7() -> Seq<GuideStepView> {
    seq![
        GuideStepView::Diary("kandarin_easy"@),
        GuideStepView::Diary("karamja_easy"@),
        GuideStepView::Diary("kourend_and_kebos_easy"@),
        GuideStepView::Diary("lumbridge_and_draynor_easy"@),
        GuideStepView::Diary("morytania_easy"@),
        GuideStepView::Diary("varrock_easy"@),
        GuideStepView::Diary("western_provinces_easy"@),
        GuideStepView::Diary("wilderness_easy"@),
        GuideStepView::Diary("ardougne_medium"@),
        GuideStepView::Diary("falador_medium"@),
        GuideStepView::Diary("varrock_medium"@),
        GuideStepView::Train { skill: Skill::Herblore, from: 45, to: 48 },
        GuideStepView::Train { skill: Skill::Fletching, from: 30, to: 50 },
        GuideStepView::Diary("kandarin_medium"@),
        GuideStepView::Train { skill: Skill::Herblore, from: 48, to: 53 },
        GuideStepView::Train { skill: Skill::Farming, from: 41, to: 46 },
        GuideStepView::Quest("fairy_tale_ii_cure_a_queen"@),
        GuideStepView::Train { skill: Skill::Cooking, from: 53, to: 65 },
        GuideStepView::Train { skill: Skill::Agility, from: 50, to: 56 },
        GuideStepView::Quest("regicide"@),
        GuideStepView::Quest("sheep_herder"@),
        GuideStepView::Quest("roving_elves"@),
        GuideStepView::Train { skill: Skill::Ranged, from: 42, to: 60 },
        GuideStepView::Quest("mournings_end_part_i"@),
        GuideStepView::Quest("mournings_end_part_ii"@),
    ]
}

fn guide_chunk_7() -> (v: Vec<OptimalQuestGuideStep>)
    ensures
        v@.len() == 25,
        forall|k: int| 0 <= k < v@.len() ==> step_view(#[trigger] v@[k]) == guide_chunk_view_7()[k],
{
    let mut v: Vec<OptimalQuestGuideStep> = Vec::new();
    v.push(OptimalQuestGuideStep::Diary(DiaryId("kandarin_easy")));
    v.push(OptimalQuestGuideStep::Diary(DiaryId("karamja_easy")));
    v.push(OptimalQuestGuideStep::Diary(DiaryId("kourend_and_kebos_easy")));
    v.push(OptimalQuestGuideStep::Diary(DiaryId("lumbridge_and_draynor_easy")));
    v.push(OptimalQuestGuideStep::Diary(DiaryId("morytania_easy")));
    v.push(OptimalQuestGuideStep::Diary(DiaryId("varrock_easy")));
    v.push(OptimalQuestGuideStep::Diary(DiaryId("western_provinces_easy")));
    v.push(OptimalQuestGuideStep::Diary(DiaryId("wilderness_easy")));
    v.push(OptimalQuestGuideStep::Diary(DiaryId("ardougne_medium")));
    v.push(OptimalQuestGuideStep::Diary(DiaryId("falador_medium")));
    v.push(OptimalQuestGuideStep::Diary(DiaryId("varrock_medium")));
    v.push(OptimalQuestGuideStep::Train { skill: Skill::Herblore, from: Level(45), to: Level(48) });
    v.push(OptimalQuestGuideStep::Train { skill: Skill::Fletching, from: Level(30), to: Level(50) });
    v.push(OptimalQuestGuideStep::Diary(DiaryId("kandarin_medium")));
    v.push(OptimalQuestGuideStep::Train { skill: Skill::Herblore, from: Level(48), to: Level(53) });
    v.push(OptimalQuestGuideStep::Train { skill: Skill::Farming, from: Level(41), to: Level(46) });
    v.push(OptimalQuestGuideStep::Quest(QuestId::new_static("fairy_tale_ii_cure_a_queen")));
    v.push(OptimalQuestGuideStep::Train { skill: Skill::Cooking, from: Level(53), to: Level(65) });
    v.push(OptimalQuestGuideStep::Train { skill: Skill::Agility, from: Level(50), to: Level(56) });
    v.push(OptimalQuestGuideStep::Quest(QuestId::new_static("regicide")));
    v.push(OptimalQuestGuideStep::Quest(QuestId::new_static("sheep_herder")));
    v.push(OptimalQuestGuideStep::Quest(QuestId::new_static("roving_elves")));
    v.push(OptimalQuestGuideStep::Train { skill: Skill::Ranged, from: Level(42), to: Level(60) });
    v.push(OptimalQuestGuideStep::Quest(QuestId::new_static("mournings_end_part_i")));
    v.push(OptimalQuestGuideStep::Quest(QuestId::new_static("mournings_end_part_ii")));
    v
}

pub open spec fn guide_chunk_view_8() -> Seq<GuideStepView> {
    seq![
        GuideStepView::Train { skill: Skill::Magic, from: 59, to: 65 },
        GuideStepView::Train { skill: Skill::Crafting, from: 50, to: 61 },
        GuideStepView::Train { skill: Skill::Mining, from: 52, to: 60 },
        GuideStepView::Train { skill: Skill::Woodcutting, from: 50, to: 55 },
        GuideStepView::Quest("lunar_diplomacy"@),
        GuideStepView::Quest("what_lies_below"@),
        GuideStepView::Train { skill: Skill::Defence, from: 49, to: 65 },
        GuideStepView::Quest("kings_ransom"@),
        GuideStepView::Train { skill: Skill::Magic, from: 65, to: 66 },
        GuideStepView::Train { skill: Skill::Fishing, from: 53, to: 57 },
        GuideStepView::Quest("swan_song"@),
        GuideStepView::Train { skill: Skill::Agility, from: 57, to: 59 },
        GuideStepView::Train { skill: Skill::Woodcutting, from: 55, to: 68 },
        GuideStepView::Train { skill: Skill::Thieving, from: 54, to: 58 },
        GuideStepView::Quest("grim_tales"@),
        GuideStepView::Quest("dream_mentor"@),
        GuideStepView::Quest("tale_of_the_righteous"@),
        GuideStepView::Quest("the_forsaken_tower"@),
        GuideStepView::Train { skill: Skill::Hunter, from: 29, to: 53 },
        GuideStepView::Diary("wilderness_medium"@),
        GuideStepView::Diary("karamja_medium"@),
        GuideStepView::Diary("kourend_and_kebos_medium"@),
        GuideStepView::Diary("lumbridge_and_draynor_medium"@),
        GuideStepView::Diary("morytania_medium"@),
        GuideStepView::Train { skill: Skill::Smithing, from: 51, to: 65 },
    ]
}

fn guide_chunk_8() -> (v: Vec<OptimalQuestGuideStep>)
    ensures
        v@.len() == 25,
        forall|k: int| 0 <= k < v@.len() ==> step_view(#[trigger] v@[k]) == guide_chunk_view_8()[k],
{
    let mut v: Vec<OptimalQuestGuideStep> = Vec::new();
    v.push(OptimalQuestGuideStep::Train { skill: Skill::Magic, from: Level(59), to: Level(65) });
    v.push(OptimalQuestGuideStep::Train { skill: Skill::Crafting, from: Level(50), to: Level(61) });
    v.push(OptimalQuestGuideStep::Train { skill: Skill::Mining, from: Level(52), to: Level(60) });
    v.push(OptimalQuestGuideStep::Train { skill: Skill::Woodcutting, from: Level(50), to: Level(55) });
    v.push(OptimalQuestGuideStep::Quest(QuestId::new_static("lunar_diplomacy")));
    v.push(OptimalQuestGuideStep::Quest(QuestId::new_static("what_lies_below")));
    v.push(OptimalQuestGuideStep::Train { skill: Skill::Defence, from: Level(49), to: Level(65) });
    v.push(OptimalQuestGuideStep::Quest(QuestId::new_static("kings_ransom")));
    v.push(OptimalQuestGuideStep::Train { skill: Skill::Magic, from: Level(65), to: Level(66) });
    v.push(OptimalQuestGuideStep::Train { skill: Skill::Fishing, from: Level(53), to: Level(57) });
    v.push(OptimalQuestGuideStep::Quest(QuestId::new_static("swan_song")));
    v.push(OptimalQuestGuideStep::Train { skill: Skill::Agility, from: Level(57), to: Level(59) });
    v.push(OptimalQuestGuideStep::Train { skill: Skill::Woodcutting, from: Level(55), to: Level(68) });
    v.push(OptimalQuestGuideStep::Train { skill: Skill::Thieving, from: Level(54), to: Level(58) });
    v.push(OptimalQuestGuideStep::Quest(QuestId::new_static("grim_tales")));
    v.push(OptimalQuestGuideStep::Quest(QuestId::new_static("dream_mentor")));
    v.push(OptimalQuestGuideStep::Quest(QuestId::new_static("tale_of_the_righteous")));
    v.push(OptimalQuestGuideStep::Quest(QuestId::new_static("the_forsaken_tower")));
    v.push(OptimalQuestGuideStep::Train { skill: Skill::Hunter, from: Level(29), to: Level(53) });
    v.push(OptimalQuestGuideStep::Diary(DiaryId("wilderness_medium")));
    v.push(OptimalQuestGuideStep::Diary(DiaryId("karamja_medium")));
    v.push(OptimalQuestGuideStep::Diary(DiaryId("kourend_and_kebos_medium")));
    v.push(OptimalQuestGuideStep::Diary(DiaryId("lumbridge_and_draynor_medium")));
    v.push(OptimalQuestGuideStep::Diary(DiaryId("morytania_medium")));
    v.push(OptimalQuestGuideStep::Train { skill: Skill::Smithing, from: Level(51), to: Level(65) });
    v
}

pub open spec fn guide_chunk_view_9() -> Seq<GuideStepView> {
    seq![
        GuideStepView::Train { skill: Skill::Runecraft, from: 39, to: 50 },
        GuideStepView::Quest("devious_minds"@),
        GuideStepView::Train { skill: Skill::Crafting, from: 61, to: 65 },
        GuideStepView::Train { skill: Skill::Slayer, from: 44, to: 60 },
        GuideStepView::Train { skill: Skill::Runecraft, from: 50, to: 55 },
        GuideStepView::Train { skill: Skill::Fishing, from: 57, to: 60 },
        GuideStepView::Quest("the_fremennik_exiles"@),
        GuideStepView::Train { skill: Skill::Hunter, from: 53, to: 60 },
        GuideStepView::Train { skill: Skill::Agility, from: 59, to: 68 },
        GuideStepView::Train { skill: Skill::Firemaking, from: 50, to: 66 },
        GuideStepView::Train { skill: Skill::Slayer, from: 60, to: 69 },
        GuideStepView::Train { skill: Skill::Crafting, from: 65, to: 70 },
        GuideStepView::Train { skill: Skill::Mining, from: 60, to: 71 },
        GuideStepView::Quest("romeo_and_juliet"@),
        GuideStepView::Quest("making_friends_with_my_arm"@),
        GuideStepView::Quest("monkey_madness_ii"@),
        GuideStepView::Train { skill: Skill::Construction, from: 36, to: 37 },
        GuideStepView::Diary("fremennik_medium"@),
        GuideStepView::Train { skill: Skill::Construction, from: 37, to: 50 },
        GuideStepView::Train { skill: Skill::Magic, from: 66, to: 75 },
        GuideStepView::Train { skill: Skill::Smithing, from: 65, to: 70 },
        GuideStepView::Train { skill: Skill::Thieving, from: 58, to: 60 },
        GuideStepView::Quest("dragon_slayer_ii"@),
        GuideStepView::Train { skill: Skill::Agility, from: 68, to: 70 },
        GuideStepView::Train { skill: Skill::Construction, from: 50, to: 70 },
    ]
}

fn guide_chunk_9() -> (v: Vec<OptimalQuestGuideStep>)
    ensures
        v@.len() == 25,
        forall|k: int| 0 <= k < v@.len() ==> step_view(#[trigger] v@[k]) == guide_chunk_view_9()[k],
{
    let mut v: Vec<OptimalQuestGuideStep> = Vec::new();
    v.push(OptimalQuestGuideStep::Train { skill: Skill::Runecraft, from: Level(39), to: Level(50) });
    v.push(OptimalQuestGuideStep::Quest(QuestId::new_static("devious_minds")));
    v.push(OptimalQuestGuideStep::Train { skill: Skill::Crafting, from: Level(61), to: Level(65) });
    v.push(OptimalQuestGuideStep::Train { skill: Skill::Slayer, from: Level(44), to: Level(60) });
    v.push(OptimalQuestGuideStep::Train { skill: Skill::Runecraft, from: Level(50), to: Level(55) });
    v.push(OptimalQuestGuideStep::Train { skill: Skill::Fishing, from: Level(57), to: Level(60) });
    v.push(OptimalQuestGuideStep::Quest(QuestId::new_static("the_fremennik_exiles")));
    v.push(OptimalQuestGuideStep::Train { skill: Skill::Hunter, from: Level(53), to: Level(60) });
    v.push(OptimalQuestGuideStep::Train { skill: Skill::Agility, from: Level(59), to: Level(68) });
    v.push(OptimalQuestGuideStep::Train { skill: Skill::Firemaking, from: Level(50), to: Level(66) });
    v.push(OptimalQuestGuideStep::Train { skill: Skill::Slayer, from: Level(60), to: Level(69) });
    v.push(OptimalQuestGuideStep::Train { skill: Skill::Crafting, from: Level(65), to: Level(70) });
    v.push(OptimalQuestGuideStep::Train { skill: Skill::Mining, from: Level(60), to: Level(71) });
    v.push(OptimalQuestGuideStep::Quest(QuestId::new_static("romeo_and_juliet")));
    v.push(OptimalQuestGuideStep::Quest(QuestId::new_static("making_friends_with_my_arm")));
    v.push(OptimalQuestGuideStep::Quest(QuestId::new_static("monkey_madness_ii")));
    v.push(OptimalQuestGuideStep::Train { skill: Skill::Construction, from: Level(36), to: Level(37) });
    v.push(OptimalQuestGuideStep::Diary(DiaryId("fremennik_medium")));
    v.push(OptimalQuestGuideStep::Train { skill: Skill::Construction, from: Level(37), to: Level(50) });
    v.push(OptimalQuestGuideStep::Train { skill: Skill::Magic, from: Level(66), to: Level(75) });
    v.push(OptimalQuestGuideStep::Train { skill: Skill::Smithing, from: Level(65), to: Level(70) });
    v.push(OptimalQuestGuideStep::Train { skill: Skill::Thieving, from: Level(58), to: Level(60) });
    v.push(OptimalQuestGuideStep::Quest(QuestId::new_static("dragon_slayer_ii")));
    v.push(OptimalQuestGuideStep::Train { skill: Skill::Agility, from: Level(68), to: Level(70) });
    v.push(OptimalQuestGuideStep::Train { skill: Skill::Construction, from: Level(50), to: Level(70) });
    v
}

pub open spec fn guide_chunk_view_10() -> Seq<GuideStepView> {
    seq![
        GuideStepView::Train { skill: Skill::Farming, from: 46, to: 70 },
        GuideStepView::Train { skill: Skill::Herblore, from: 53, to: 70 },
        GuideStepView::Train { skill: Skill::Hunter, from: 60, to: 70 },
        GuideStepView::Train { skill: Skill::Woodcutting, from: 68, to: 70 },
        GuideStepView::Quest("song_of_the_elves"@),
        GuideStepView::Quest("the_corsair_curse"@),
        GuideStepView::Quest("clock_tower"@),
    ]
}

fn guide_chunk_10() -> (v: Vec<OptimalQuestGuideStep>)
    ensures
        v@.len() == 7,
        forall|k: int| 0 <= k < v@.len() ==> step_view(#[trigger] v@[k]) == guide_chunk_view_10()[k],
{
    let mut v: Vec<OptimalQuestGuideStep> = Vec::new();
    v.push(OptimalQuestGuideStep::Train { skill: Skill::Farming, from: Level(46), to: Level(70) });
    v.push(OptimalQuestGuideStep::Train { skill: Skill::Herblore, from: Level(53), to: Level(70) });
    v.push(OptimalQuestGuideStep::Train { skill: Skill::Hunter, from: Level(60), to: Level(70) });
    v.push(OptimalQuestGuideStep::Train { skill: Skill::Woodcutting, from: Level(68), to: Level(70) });
    v.push(OptimalQuestGuideStep::Quest(QuestId::new_static("song_of_the_elves")));
    v.push(OptimalQuestGuideStep::Quest(QuestId::new_static("the_corsair_curse")));
    v.push(OptimalQuestGuideStep::Quest(QuestId::new_static("clock_tower")));
    v
}

/// The guide's fixed script, step by step: what each of the 257 steps
/// asks for, in order.
pub open spec fn guide_script() -> Seq<GuideStepView> {
    guide_chunk_view_0() + guide_chunk_view_1() + guide_chunk_view_2() + guide_chunk_view_3() + guide_chunk_view_4() + guide_chunk_view_5() + guide_chunk_view_6() + guide_chunk_view_7() + guide_chunk_view_8() + guide_chunk_view_9() + guide_chunk_view_10()
}

/// The guide's fixed script, in order: 257 steps, each pinned to the
/// script's step at its position; the script opens with the first cooking
/// quest.
pub fn optimal_quest_guide() -> (v: Vec<OptimalQuestGuideStep>)
    ensures
        v@.len() == 257,
        forall|i: int| 0 <= i < v@.len() ==> step_view(#[trigger] v@[i]) == guide_script()[i],
        step_view(v@[0]) == GuideStepView::Quest("cooks_assistant"@),
{
    let mut v: Vec<OptimalQuestGuideStep> = Vec::new();
    let mut c0 = guide_chunk_0();
    v.append(&mut c0);
    let mut c1 = guide_chunk_1();
    v.append(&mut c1);
    let mut c2 = guide_chunk_2();
    v.append(&mut c2);
    let mut c3 = guide_chunk_3();
    v.append(&mut c3);
    let mut c4 = guide_chunk_4();
    v.append(&mut c4);
    let mut c5 = guide_chunk_5();
    v.append(&mut c5);
    let mut c6 = guide_chunk_6();
    v.append(&mut c6);
    let mut c7 = guide_chunk_7();
    v.append(&mut c7);
    let mut c8 = guide_chunk_8();
    v.append(&mut c8);
    let mut c9 = guide_chunk_9();
    v.append(&mut c9);
    let mut c10 = guide_chunk_10();
    v.append(&mut c10);
    proof {
        assert forall|i: int|
            0 <= i < v@.len() implies step_view(#[trigger] v@[i]) == guide_script()[i] by {
            if i < 25 {
                assert(guide_script()[i] == guide_chunk_view_0()[i - 0]);
            } else if i < 50 {
                assert(guide_script()[i] == guide_chunk_view_1()[i - 25]);
            } else if i < 75 {
                assert(guide_script()[i] == guide_chunk_view_2()[i - 50]);
            } else if i < 100 {
                assert(guide_script()[i] == guide_chunk_view_3()[i - 75]);
            } else if i < 125 {
                assert(guide_script()[i] == guide_chunk_view_4()[i - 100]);
            } else if i < 150 {
                assert(guide_script()[i] == guide_chunk_view_5()[i - 125]);
            } else if i < 175 {
                assert(guide_script()[i] == guide_chunk_view_6()[i - 150]);
            } else if i < 200 {
                assert(guide_script()[i] == guide_chunk_view_7()[i - 175]);
            } else if i < 225 {
                assert(guide_script()[i] == guide_chunk_view_8()[i - 200]);
            } else if i < 250 {
                assert(guide_script()[i] == guide_chunk_view_9()[i - 225]);
            } else {
                assert(guide_script()[i] == guide_chunk_view_10()[i - 250]);
            }
        }
        assert(guide_script()[0] == guide_chunk_view_0()[0]);
    }
    v
}

} // verus!
