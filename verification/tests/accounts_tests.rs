use oldschool::accounts::{CombatLevel, Skills};
use oldschool::{Level, Xp};

fn skills_at(level: i32, hitpoints: i32) -> Skills {
    Skills {
        attack: Xp::from_level(&Level(level)),
        defence: Xp::from_level(&Level(level)),
        strength: Xp::from_level(&Level(level)),
        hitpoints: Xp::from_level(&Level(hitpoints)),
        ranged: Xp::from_level(&Level(level)),
        prayer: Xp::from_level(&Level(level)),
        magic: Xp::from_level(&Level(level)),
        cooking: Xp::from_level(&Level(level)),
        woodcutting: Xp::from_level(&Level(level)),
        fletching: Xp::from_level(&Level(level)),
        fishing: Xp::from_level(&Level(level)),
        firemaking: Xp::from_level(&Level(level)),
        crafting: Xp::from_level(&Level(level)),
        smithing: Xp::from_level(&Level(level)),
        mining: Xp::from_level(&Level(level)),
        herblore: Xp::from_level(&Level(level)),
        agility: Xp::from_level(&Level(level)),
        thieving: Xp::from_level(&Level(level)),
        slayer: Xp::from_level(&Level(level)),
        farming: Xp::from_level(&Level(level)),
        runecraft: Xp::from_level(&Level(level)),
        hunter: Xp::from_level(&Level(level)),
        construction: Xp::from_level(&Level(level)),
    }
}

#[test]
fn test_new_account_total_level() {
    let new_account_skills = skills_at(1, 10);
    assert_eq!(new_account_skills.total_level(), Level(32));
}

#[test]
fn test_maxed_total_level() {
    let maxed_skills = skills_at(99, 99);
    assert_eq!(maxed_skills.total_level(), Level(2277));
}

#[test]
fn test_new_account_combat_level() {
    let new_account_skills = skills_at(1, 10);
    assert_eq!(new_account_skills.combat_level(), CombatLevel(3));
}

#[test]
fn test_maxed_combat_level() {
    let maxed_skills = skills_at(99, 99);
    assert_eq!(maxed_skills.combat_level(), CombatLevel(126));
}

#[test]
fn test_combat_level_floors_the_mage_term() {
    // Magic 99 gives floor(3*99/2) = 148 scaled, not 148.5: with defence 1,
    // hitpoints 2 and prayer 1 the combat level is 48, not 49.
    let mut skills = skills_at(1, 2);
    skills.magic = Xp::from_level(&Level(99));
    assert_eq!(skills.combat_level(), CombatLevel(48));
}
