use oldschool::accounts::{Account, Skills};
use oldschool::diaries::{Diary, DiaryDifficulty, DiaryId};
use oldschool::optimal_quest_guide::{optimal_quest_guide, OptimalQuestGuide, OptimalQuestGuideStep};
use oldschool::quest::QuestId;
use oldschool::skill::Skill;
use oldschool::{Level, Xp};

fn fresh_account() -> Account {
    Account {
        display_name: "tester".to_string(),
        skills: Skills {
            attack: Xp(0),
            defence: Xp(0),
            strength: Xp(0),
            hitpoints: Xp::from_level(&Level(10)),
            ranged: Xp(0),
            prayer: Xp(0),
            magic: Xp(0),
            cooking: Xp(0),
            woodcutting: Xp(0),
            fletching: Xp(0),
            fishing: Xp(0),
            firemaking: Xp(0),
            crafting: Xp(0),
            smithing: Xp(0),
            mining: Xp(0),
            herblore: Xp(0),
            agility: Xp(0),
            thieving: Xp(0),
            slayer: Xp(0),
            farming: Xp(0),
            runecraft: Xp(0),
            hunter: Xp(0),
            construction: Xp(0),
        },
        completed_quests: Vec::new(),
        completed_diaries: Vec::new(),
    }
}

#[test]
fn test_guide_length() {
    assert_eq!(optimal_quest_guide().len(), 257);
}

#[test]
fn test_next_step_for_a_fresh_account() {
    let account = fresh_account();
    let guide = optimal_quest_guide();
    let step = OptimalQuestGuide::new(&account)
        .next_step(&guide)
        .expect("a fresh account has everything left to do");
    match step {
        OptimalQuestGuideStep::Quest(id) => assert_eq!(id.as_str(), "cooks_assistant"),
        other => panic!("expected the first step to be a quest, got {:?}", other),
    }
}

#[test]
fn test_next_step_skips_completed_quests() {
    let mut account = fresh_account();
    account
        .completed_quests
        .push(QuestId::new("cooks_assistant"));
    let guide = optimal_quest_guide();
    let step = OptimalQuestGuide::new(&account)
        .next_step(&guide)
        .expect("only one step is done");
    match step {
        OptimalQuestGuideStep::Quest(id) => assert_eq!(id.as_str(), "x_marks_the_spot"),
        other => panic!("expected the second step to be a quest, got {:?}", other),
    }
}

#[test]
fn test_get_level_reads_skills() {
    let account = fresh_account();
    assert_eq!(account.get_level(&Skill::Hitpoints), Level(10));
    assert_eq!(account.get_level(&Skill::Attack), Level(1));
    assert_eq!(account.total_level(), Level(32));
}

#[test]
fn test_diary_id_equality() {
    assert_eq!(DiaryId("ardougne_easy"), DiaryId("ardougne_easy"));
    assert_ne!(DiaryId("ardougne_easy"), DiaryId("ardougne_elite"));
}

#[test]
fn test_diary_new_and_id() {
    let diary = Diary::new(
        DiaryId("varrock_hard"),
        "Varrock Hard".to_string(),
        DiaryDifficulty::Hard,
    );
    assert_eq!(diary.id(), DiaryId("varrock_hard"));
    assert_eq!(diary.difficulty, DiaryDifficulty::Hard);
    assert!(diary.tasks.is_empty());
}

#[test]
fn test_next_step_skips_completed_diaries_and_training() {
    let mut account = fresh_account();
    // Complete everything: every quest and diary in the script, and every
    // skill trained to 99.
    for step in optimal_quest_guide() {
        match step {
            OptimalQuestGuideStep::Quest(id) => account.completed_quests.push(id),
            OptimalQuestGuideStep::Diary(id) => account.completed_diaries.push(id),
            OptimalQuestGuideStep::Train { .. } => {}
        }
    }
    let maxed = Xp::from_level(&Level(99));
    account.skills = Skills {
        attack: maxed,
        defence: maxed,
        strength: maxed,
        hitpoints: maxed,
        ranged: maxed,
        prayer: maxed,
        magic: maxed,
        cooking: maxed,
        woodcutting: maxed,
        fletching: maxed,
        fishing: maxed,
        firemaking: maxed,
        crafting: maxed,
        smithing: maxed,
        mining: maxed,
        herblore: maxed,
        agility: maxed,
        thieving: maxed,
        slayer: maxed,
        farming: maxed,
        runecraft: maxed,
        hunter: maxed,
        construction: maxed,
    };
    let guide = optimal_quest_guide();
    assert!(OptimalQuestGuide::new(&account).next_step(&guide).is_none());
}
