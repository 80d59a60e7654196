use oldschool::boss::Boss;
use oldschool::clue::ClueTier;
use oldschool::hiscores::{
    AccountType, Hiscore, HiscoreEntryKind, KindFromIndexError, ParseHiscoreEntryError,
    ParseHiscoreError, ScalarHiscoreEntry, SkillHiscoreEntry,
};
use oldschool::skill::Skill;
use oldschool::text::parse_i32;

/// A well-formed 114-line response body with distinctive seed values.
fn fixture() -> String {
    let mut lines: Vec<String> = Vec::new();
    for position in 0..114 {
        let line = match position {
            0 => "5154,2376,424043990".to_string(),
            24 => "768,99,15437526".to_string(),
            p if (1..=23).contains(&p) => "100,50,101333".to_string(),
            p if (25..=32).contains(&p) => "-1,-1".to_string(),
            33 => "1000,500".to_string(),
            37 => "447040,50".to_string(),
            p if (34..=39).contains(&p) => "2,2".to_string(),
            p if (40..=42).contains(&p) => "-1,-1".to_string(),
            43 => "177649,220".to_string(),
            44 => "9,9".to_string(),
            45 => "-1,388".to_string(),
            113 => "430027,57".to_string(),
            _ => "5,5".to_string(),
        };
        lines.push(line);
    }
    lines.join("\n")
}

#[test]
fn test_parse_well_formed_fixture() {
    let hiscore = Hiscore::from_str(&fixture()).expect("fixture should parse");

    assert_eq!(
        hiscore.overall(),
        Some(SkillHiscoreEntry {
            rank: 5154,
            level: 2376,
            xp: 424043990
        })
    );
    assert_eq!(
        hiscore.skill(Skill::Sailing),
        Some(SkillHiscoreEntry {
            rank: 768,
            level: 99,
            xp: 15437526
        })
    );
    assert_eq!(
        hiscore.clue_scrolls(ClueTier::Hard),
        Some(ScalarHiscoreEntry {
            rank: 447040,
            amount: 50
        })
    );
    assert_eq!(
        hiscore.rifts_closed(),
        Some(ScalarHiscoreEntry {
            rank: 177649,
            amount: 220
        })
    );
    assert_eq!(
        hiscore.collections_logged(),
        Some(ScalarHiscoreEntry {
            rank: -1,
            amount: 388
        })
    );
    assert_eq!(
        hiscore.boss(Boss::Zulrah),
        Some(ScalarHiscoreEntry {
            rank: 430027,
            amount: 57
        })
    );
}

#[test]
fn test_parse_crlf_line_endings() {
    let body = fixture().replace('\n', "\r\n");
    let hiscore = Hiscore::from_str(&body).expect("fixture should parse with crlf endings");
    assert_eq!(
        hiscore.boss(Boss::Zulrah),
        Some(ScalarHiscoreEntry {
            rank: 430027,
            amount: 57
        })
    );
}

#[test]
fn test_parse_four_field_line_is_invalid_entry() {
    let mut body = fixture();
    body.push_str("\n1,2,3,4");
    // The bad line sits at position 114, but the field count is checked
    // before the position, so the entry error wins.
    let err = Hiscore::from_str(&body).expect_err("four fields should not parse");
    match err {
        ParseHiscoreError::InvalidEntry(ParseHiscoreEntryError::InvalidEntry { text }) => {
            assert_eq!(text, "1,2,3,4");
        }
        other => panic!("expected an invalid-entry error, got {:?}", other),
    }
}

#[test]
fn test_parse_non_numeric_field() {
    let err = Hiscore::from_str("12,abc").expect_err("a non-numeric field should not parse");
    match err {
        ParseHiscoreError::InvalidEntry(ParseHiscoreEntryError::ParseIntError { text }) => {
            assert_eq!(text, "abc");
        }
        other => panic!("expected a numeric-parse error, got {:?}", other),
    }
}

#[test]
fn test_parse_line_beyond_schema_is_index_out_of_range() {
    let mut body = fixture();
    body.push_str("\n7,7");
    let err = Hiscore::from_str(&body).expect_err("a 115th line should overflow the schema");
    match err {
        ParseHiscoreError::IndexOutOfRange(position) => assert_eq!(position, 114),
        other => panic!("expected an index-out-of-range error, got {:?}", other),
    }
}

#[test]
fn test_short_response_parses_and_reads_back() {
    // Only the overall line: every other lookup is empty.
    let hiscore = Hiscore::from_str("1,2,3").expect("one line should parse");
    assert_eq!(
        hiscore.overall(),
        Some(SkillHiscoreEntry {
            rank: 1,
            level: 2,
            xp: 3
        })
    );
    assert_eq!(hiscore.skill(Skill::Attack), None);
    assert_eq!(hiscore.boss(Boss::Zulrah), None);
    assert_eq!(hiscore.clue_scrolls_all(), None);
    assert_eq!(hiscore.colosseum_glory(), None);
}

#[test]
fn test_from_index_table() {
    assert_eq!(
        HiscoreEntryKind::from_index(0),
        Ok(HiscoreEntryKind::Overall)
    );
    assert_eq!(
        HiscoreEntryKind::from_index(1),
        Ok(HiscoreEntryKind::Skill(Skill::Attack))
    );
    assert_eq!(
        HiscoreEntryKind::from_index(24),
        Ok(HiscoreEntryKind::Skill(Skill::Sailing))
    );
    assert_eq!(
        HiscoreEntryKind::from_index(25),
        Err(KindFromIndexError::Ignore)
    );
    assert_eq!(
        HiscoreEntryKind::from_index(33),
        Ok(HiscoreEntryKind::ClueScrollsAll)
    );
    assert_eq!(
        HiscoreEntryKind::from_index(37),
        Ok(HiscoreEntryKind::ClueScrolls(ClueTier::Hard))
    );
    assert_eq!(
        HiscoreEntryKind::from_index(43),
        Ok(HiscoreEntryKind::RiftsClosed)
    );
    assert_eq!(
        HiscoreEntryKind::from_index(45),
        Ok(HiscoreEntryKind::CollectionsLogged)
    );
    assert_eq!(
        HiscoreEntryKind::from_index(46),
        Ok(HiscoreEntryKind::Boss(Boss::AbyssalSire))
    );
    assert_eq!(
        HiscoreEntryKind::from_index(113),
        Ok(HiscoreEntryKind::Boss(Boss::Zulrah))
    );
    assert_eq!(
        HiscoreEntryKind::from_index(114),
        Err(KindFromIndexError::OutOfRange(114))
    );
}

#[test]
fn test_parse_i32_values() {
    assert_eq!(parse_i32("0"), Some(0));
    assert_eq!(parse_i32("-1"), Some(-1));
    assert_eq!(parse_i32("+5"), Some(5));
    assert_eq!(parse_i32("2147483647"), Some(2147483647));
    assert_eq!(parse_i32("2147483648"), None);
    assert_eq!(parse_i32("-2147483648"), Some(-2147483648));
    assert_eq!(parse_i32("-2147483649"), None);
    assert_eq!(parse_i32(""), None);
    assert_eq!(parse_i32("-"), None);
    assert_eq!(parse_i32("1.5"), None);
    assert_eq!(parse_i32(" 1"), None);
    assert_eq!(parse_i32("99999999999999999999999"), None);
}

#[test]
fn test_url_string_for_each_account_type() {
    assert_eq!(
        Hiscore::url_string("bob", AccountType::Main),
        "https://secure.runescape.com/m=hiscore_oldschool/index_lite.ws?player=bob"
    );
    assert_eq!(
        Hiscore::url_string("bob", AccountType::Ironman),
        "https://secure.runescape.com/m=hiscore_oldschool_ironman/index_lite.ws?player=bob"
    );
    assert_eq!(
        Hiscore::url_string("bob", AccountType::UltimateIronman),
        "https://secure.runescape.com/m=hiscore_oldschool_ultimate/index_lite.ws?player=bob"
    );
    assert_eq!(
        Hiscore::url_string("bob", AccountType::HardcoreIronman),
        "https://secure.runescape.com/m=hiscore_oldschool_hardcore/index_lite.ws?player=bob"
    );
    assert_eq!(
        Hiscore::url_string("bob", AccountType::Leagues),
        "https://secure.runescape.com/m=hiscore_oldschool_seasonal/index_lite.ws?player=bob"
    );
}

#[test]
fn test_url_string_escapes_the_player_name() {
    assert_eq!(
        Hiscore::url_string("player one&two", AccountType::Main),
        "https://secure.runescape.com/m=hiscore_oldschool/index_lite.ws?player=player+one%26two"
    );
}

#[test]
fn test_url_parses() {
    let url = Hiscore::url("player one", AccountType::Main).expect("the url should parse");
    assert_eq!(
        url.as_str(),
        "https://secure.runescape.com/m=hiscore_oldschool/index_lite.ws?player=player+one"
    );
}
