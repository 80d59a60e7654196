use oldschool::xp::{level_from_xp, progress_towards_level, xp_til_level, LevelProgress};
use oldschool::{Level, Xp};

#[test]
fn test_level_from_xp_with_0_xp() {
    assert_eq!(level_from_xp(Xp(0)), Level(1));
}

#[test]
fn test_level_from_xp_with_negative_xp() {
    assert_eq!(level_from_xp(Xp(-200)), Level(1));
}

#[test]
fn test_level_from_xp_with_10_000xp() {
    assert_eq!(level_from_xp(Xp(10_000)), Level(27));
}

#[test]
fn test_level_from_xp_with_13_034_431xp() {
    assert_eq!(level_from_xp(Xp(13_034_431)), Level(99));
}

#[test]
fn test_xp_til_level() {
    assert_eq!(xp_til_level(Xp(1_000), &Level(10)), Xp(154));
}

#[test]
fn test_xp_til_level_with_passed_level() {
    assert_eq!(xp_til_level(Xp(1_629_200), &Level(30)), Xp(0));
}

#[test]
fn test_level_xp_round_trip_all_levels() {
    for level in 1..=99 {
        let threshold = Xp::from_level(&Level(level));
        assert_eq!(level_from_xp(threshold), Level(level));
    }
}

#[test]
fn test_level_one_xp_below_threshold_all_levels() {
    for level in 2..=99 {
        let threshold = Xp::from_level(&Level(level));
        assert_eq!(level_from_xp(Xp(threshold.0 - 1)), Level(level - 1));
    }
}

#[test]
fn test_xp_til_level_never_negative() {
    for level in 1..=99 {
        for xp in [-200, 0, 83, 1_154, 13_034_431] {
            assert!(xp_til_level(Xp(xp), &Level(level)).0 >= 0);
        }
    }
}

#[test]
fn test_xp_from_level_thresholds() {
    assert_eq!(Xp::from_level(&Level(1)), Xp(0));
    assert_eq!(Xp::from_level(&Level(2)), Xp(83));
    assert_eq!(Xp::from_level(&Level(10)), Xp(1_154));
    assert_eq!(Xp::from_level(&Level(99)), Xp(13_034_431));
}

#[test]
fn test_is_99() {
    assert!(Level(99).is_99());
    assert!(!Level(98).is_99());
}

#[test]
fn test_xp_max() {
    assert_eq!(Xp(5).max(&Xp(3)), Xp(5));
    assert_eq!(Xp(-5).max(&Xp(3)), Xp(3));
}

#[test]
fn test_defaults() {
    assert_eq!(Level::default(), Level(1));
    assert_eq!(Xp::default(), Xp(0));
}

#[test]
fn test_progress_towards_level_at_target() {
    let progress = progress_towards_level(Xp(83), &Level(2), None);
    assert_eq!(progress, LevelProgress::Complete);
}

#[test]
fn test_progress_towards_level_fraction() {
    let progress = progress_towards_level(Xp(50), &Level(2), None);
    assert_eq!(
        progress,
        LevelProgress::Toward {
            gained: Xp(50),
            goal: Xp(83)
        }
    );
}

#[test]
fn test_progress_towards_level_with_starting_level() {
    // Level 10 threshold is 1154; starting from level 5 (threshold 388).
    let progress = progress_towards_level(Xp(1_000), &Level(10), Some(&Level(5)));
    assert_eq!(
        progress,
        LevelProgress::Toward {
            gained: Xp(1_000 - 388),
            goal: Xp(1_154)
        }
    );
}

#[test]
fn test_progress_towards_level_starting_above_current() {
    // Current level for 100 xp is 2; a starting checkpoint of 5 is ignored.
    let progress = progress_towards_level(Xp(100), &Level(10), Some(&Level(5)));
    assert_eq!(
        progress,
        LevelProgress::Toward {
            gained: Xp(100),
            goal: Xp(1_154)
        }
    );
}
