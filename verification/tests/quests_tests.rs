use oldschool::content::quests::QuestCatalog;
use oldschool::quest::QuestId;
use oldschool::quests::{all_quests, find_quest, QuestKind, SkillRequirement};
use oldschool::skill::Skill;
use oldschool::Level;

#[test]
fn test_all_quests_are_defined() {
    let quest_count: usize = 177;
    let rfd_quest_count: usize = 9;

    let catalog = QuestCatalog::new();
    assert_eq!(
        QuestId::all(&catalog).len(),
        quest_count + rfd_quest_count,
        "mismatched quest count"
    );

    for quest_id in QuestId::all(&catalog) {
        quest_id.quest(&catalog).unwrap();
    }
}

#[test]
fn test_total_quest_points() {
    let catalog = QuestCatalog::new();
    let mut total_quest_points: u32 = 0;
    for id in QuestId::all(&catalog) {
        total_quest_points += id.quest(&catalog).unwrap().quest_points as u32;
    }
    assert_eq!(total_quest_points, 331);
}

#[test]
fn test_quest_not_found_error() {
    let catalog = QuestCatalog::new();
    let quest_id = QuestId::new_static("non_existent_quest");
    let result = quest_id.quest(&catalog);
    assert_eq!(
        result.expect_err("expected quest to not exist").message(),
        r#"quest not found: QuestId("non_existent_quest")"#
    );
}

#[test]
fn test_quest_lookup_finds_data() {
    let catalog = QuestCatalog::new();
    let quest = QuestId::new("dragon_slayer_i").quest(&catalog).unwrap();
    assert_eq!(quest.name, "Dragon Slayer I");
    assert_eq!(quest.quest_points, 2);
    assert_eq!(quest.requirements.len(), 1);
    assert_eq!(quest.rewards.len(), 2);
}

#[test]
fn test_quest_id_round_trip() {
    let id = QuestId::new("cooks_assistant");
    assert_eq!(id.as_str(), "cooks_assistant");
    assert_eq!(id.clone(), id);
}

#[test]
fn test_guide_quest_list() {
    let quests = all_quests();
    assert_eq!(quests.len(), 156);

    let id = QuestId::new("dragon_slayer");
    let quest = find_quest(&quests, &id).expect("expected the quest list to hold it");
    assert_eq!(quest.name(), "Dragon Slayer");

    let unknown = QuestId::new("non_existent_quest");
    assert!(find_quest(&quests, &unknown).is_none());
}

#[test]
fn test_skill_requirement_builder() {
    let req = SkillRequirement::builder(Level(40), Skill::Slayer)
        .boostable()
        .build();
    assert_eq!(req.skill, Skill::Slayer);
    assert_eq!(req.level, Level(40));
    assert!(req.boostable);
    assert!(!req.ironman_only);

    let strict = SkillRequirement::builder(Level(60), Skill::Magic)
        .ironman_only()
        .build();
    assert!(!strict.boostable);
    assert!(strict.ironman_only);
}

#[test]
fn test_quest_kind_accessors() {
    let quests = all_quests();
    let quest = find_quest(&quests, &QuestId::new("cooks_assistant")).unwrap();
    assert_eq!(quest.kind(), QuestKind::Free);
    assert_eq!(quest.id().as_str(), "cooks_assistant");
    assert_eq!(quest.name(), "Cook's Assistant");
    assert_eq!(quest.requirements().len(), 0);
}
