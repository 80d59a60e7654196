use oldschool::wintertodt::Wintertodt;

#[test]
fn test_standard_attack_damage() {
    let wintertodt = Wintertodt {
        firemaking_level: 65,
        hitpoints_level: 57,
        warm_items_worn: 4,
        braziers_lit: 4,
    };

    assert_eq!(wintertodt.standard_attack_damage(), 3);
}

#[test]
fn test_brazier_attack_damage() {
    let wintertodt = Wintertodt {
        firemaking_level: 65,
        hitpoints_level: 57,
        warm_items_worn: 4,
        braziers_lit: 4,
    };

    assert_eq!(wintertodt.brazier_attack_damage(), 10);
}

#[test]
fn test_area_attack_damage() {
    let wintertodt = Wintertodt {
        firemaking_level: 65,
        hitpoints_level: 57,
        warm_items_worn: 4,
        braziers_lit: 4,
    };

    assert_eq!(wintertodt.area_attack_damage(), 16);
}
