//! The hiscores response parser and lookup-URL builder.
//!
//! The hiscores feed is a positional, newline-delimited text format: one
//! record per tracked statistic, each record a comma-separated list of
//! integers. A record's zero-based position alone decides what it means;
//! `HiscoreEntryKind::from_index` is the single explicit table that maps
//! positions to meanings. Positions inside known reserved runs are skipped
//! silently; positions beyond the known schema fail loudly, so that a feed
//! that has grown new columns is noticed rather than misread.

use vstd::prelude::*;
use crate::boss::{Boss, boss_at_index_spec, boss_index_spec};
use crate::clue::{ClueTier, clue_tier_at_index_spec, clue_tier_index_spec};
use crate::skill::{Skill, skill_at_index_spec, skill_index_spec};
use crate::text::{parse_i32, parse_i32_spec, spec_lines, spec_split, split_char, split_lines};

verus! {

/// The number of positions in the known hiscores schema.
pub const SCHEMA_LEN: usize = 114;

/// A rank/level/experience record, as reported for the overall total and
/// for each skill.
#[derive(Debug, Clone, Copy, PartialEq, Eq, Structural)]
pub struct SkillHiscoreEntry {
    pub rank: i32,
    pub level: i32,
    pub xp: i32,
}

/// A rank/amount record, as reported for bosses, clue scrolls and other
/// scalar trackables.
#[derive(Debug, Clone, Copy, PartialEq, Eq, Structural)]
pub struct ScalarHiscoreEntry {
    pub rank: i32,
    pub amount: i32,
}

/// One decoded hiscores record. The shape is inferred from the field count
/// alone: three fields make a skill-style record, two a scalar one.
#[derive(Debug, Clone, Copy, PartialEq, Eq, Structural)]
pub enum HiscoreEntry {
    Skill(SkillHiscoreEntry),
    Scalar(ScalarHiscoreEntry),
}

impl HiscoreEntry {
    /// The record as a skill-style entry, if it is one.
    pub fn as_skill(&self) -> (r: Option<SkillHiscoreEntry>)
        ensures
            r == match *self {
                HiscoreEntry::Skill(e) => Some(e),
                HiscoreEntry::Scalar(_) => None::<SkillHiscoreEntry>,
            },
    {
        match self {
            HiscoreEntry::Skill(e) => Some(*e),
            HiscoreEntry::Scalar(_) => None,
        }
    }

    /// The record as a scalar entry, if it is one.
    pub fn as_scalar(&self) -> (r: Option<ScalarHiscoreEntry>)
        ensures
            r == match *self {
                HiscoreEntry::Scalar(e) => Some(e),
                HiscoreEntry::Skill(_) => None::<ScalarHiscoreEntry>,
            },
    {
        match self {
            HiscoreEntry::Scalar(e) => Some(*e),
            HiscoreEntry::Skill(_) => None,
        }
    }
}

/// Why a single hiscores record failed to decode.
#[derive(Debug, Clone)]
pub enum ParseHiscoreEntryError {
    /// The record's comma-separated field count is neither two nor three;
    /// carries the offending record text.
    InvalidEntry { text: String },
    /// A field is not a well-formed 32-bit integer; carries the first
    /// offending field text.
    ParseIntError { text: String },
}

/// Why a whole hiscores response failed to decode.
#[derive(Debug, Clone)]
pub enum ParseHiscoreError {
    /// Some record failed to decode.
    InvalidEntry(ParseHiscoreEntryError),
    /// A record sits at a position beyond the known schema: the feed has
    /// more columns than this table knows about.
    IndexOutOfRange(u32),
}

/// What a hiscores record at a given position stands for.
#[derive(Debug, Clone, Copy, PartialEq, Eq, Hash, Structural)]
pub enum HiscoreEntryKind {
    Overall,
    Skill(Skill),
    ClueScrollsAll,
    ClueScrolls(ClueTier),
    RiftsClosed,
    ColosseumGlory,
    CollectionsLogged,
    Boss(Boss),
}

/// How a position fails to name a kind: it is a known reserved slot to be
/// skipped, or it lies beyond the schema altogether.
#[derive(Debug, Clone, Copy, PartialEq, Eq, Structural)]
pub enum KindFromIndexError {
    Ignore,
    OutOfRange(u32),
}

/// The positions inside the known schema that are reserved and carry no
/// tracked statistic.
pub open spec fn index_ignored(i: int) -> bool {
    (25 <= i && i <= 32) || (40 <= i && i <= 42)
}

/// The meaning of each mapped position: the overall total first, then one
/// position per skill, the clue-scroll group, three scalar trackables, and
/// one position per boss.
pub open spec fn kind_at_index_spec(i: int) -> HiscoreEntryKind {
    if i == 0 {
        HiscoreEntryKind::Overall
    } else if 1 <= i && i <= 24 {
        HiscoreEntryKind::Skill(skill_at_index_spec(i - 1))
    } else if i == 33 {
        HiscoreEntryKind::ClueScrollsAll
    } else if 34 <= i && i <= 39 {
        HiscoreEntryKind::ClueScrolls(clue_tier_at_index_spec(i - 34))
    } else if i == 43 {
        HiscoreEntryKind::RiftsClosed
    } else if i == 44 {
        HiscoreEntryKind::ColosseumGlory
    } else if i == 45 {
        HiscoreEntryKind::CollectionsLogged
    } else {
        HiscoreEntryKind::Boss(boss_at_index_spec(i - 46))
    }
}

/// The position that each kind occupies in the schema.
pub open spec fn index_of_kind_spec(k: HiscoreEntryKind) -> int {
    match k {
        HiscoreEntryKind::Overall => 0,
        HiscoreEntryKind::Skill(s) => 1 + skill_index_spec(s),
        HiscoreEntryKind::ClueScrollsAll => 33,
        HiscoreEntryKind::ClueScrolls(t) => 34 + clue_tier_index_spec(t),
        HiscoreEntryKind::RiftsClosed => 43,
        HiscoreEntryKind::ColosseumGlory => 44,
        HiscoreEntryKind::CollectionsLogged => 45,
        HiscoreEntryKind::Boss(b) => 46 + boss_index_spec(b),
    }
}

/// Every kind sits at a mapped, non-reserved position inside the schema,
/// and that position maps back to the kind.
pub proof fn lemma_kind_index_inverse(k: HiscoreEntryKind)
    ensures
        0 <= index_of_kind_spec(k) < SCHEMA_LEN as int,
        !index_ignored(index_of_kind_spec(k)),
        kind_at_index_spec(index_of_kind_spec(k)) == k,
{
    match k {
        HiscoreEntryKind::Skill(s) => {
            crate::skill::lemma_skill_index_inverse(s, 0);
        },
        HiscoreEntryKind::ClueScrolls(t) => {
            crate::clue::lemma_clue_tier_index_inverse(t, 0);
        },
        HiscoreEntryKind::Boss(b) => {
            crate::boss::lemma_boss_index_inverse(b, 0);
        },
        _ => {},
    }
}

impl HiscoreEntryKind {
    /// The single explicit table mapping a record's zero-based position to
    /// its meaning, mirroring the external feed's column layout.
    pub fn from_index(index: u32) -> (r: Result<HiscoreEntryKind, KindFromIndexError>)
        ensures
            index < SCHEMA_LEN && !index_ignored(index as int) ==> r == Ok::<
                HiscoreEntryKind,
                KindFromIndexError,
            >(kind_at_index_spec(index as int)),
            index_ignored(index as int) ==> r == Err::<HiscoreEntryKind, KindFromIndexError>(
                KindFromIndexError::Ignore,
            ),
            index >= SCHEMA_LEN ==> r == Err::<HiscoreEntryKind, KindFromIndexError>(
                KindFromIndexError::OutOfRange(index),
            ),
    {
        match index {
            0 => Ok(HiscoreEntryKind::Overall),
            1 => Ok(HiscoreEntryKind::Skill(Skill::Attack)),
            2 => Ok(HiscoreEntryKind::Skill(Skill::Defence)),
            3 => Ok(HiscoreEntryKind::Skill(Skill::Strength)),
            4 => Ok(HiscoreEntryKind::Skill(Skill::Hitpoints)),
            5 => Ok(HiscoreEntryKind::Skill(Skill::Ranged)),
            6 => Ok(HiscoreEntryKind::Skill(Skill::Prayer)),
            7 => Ok(HiscoreEntryKind::Skill(Skill::Magic)),
            8 => Ok(HiscoreEntryKind::Skill(Skill::Cooking)),
            9 => Ok(HiscoreEntryKind::Skill(Skill::Woodcutting)),
            10 => Ok(HiscoreEntryKind::Skill(Skill::Fletching)),
            11 => Ok(HiscoreEntryKind::Skill(Skill::Fishing)),
            12 => Ok(HiscoreEntryKind::Skill(Skill::Firemaking)),
            13 => Ok(HiscoreEntryKind::Skill(Skill::Crafting)),
            14 => Ok(HiscoreEntryKind::Skill(Skill::Smithing)),
            15 => Ok(HiscoreEntryKind::Skill(Skill::Mining)),
            16 => Ok(HiscoreEntryKind::Skill(Skill::Herblore)),
            17 => Ok(HiscoreEntryKind::Skill(Skill::Agility)),
            18 => Ok(HiscoreEntryKind::Skill(Skill::Thieving)),
            19 => Ok(HiscoreEntryKind::Skill(Skill::Slayer)),
            20 => Ok(HiscoreEntryKind::Skill(Skill::Farming)),
            21 => Ok(HiscoreEntryKind::Skill(Skill::Runecraft)),
            22 => Ok(HiscoreEntryKind::Skill(Skill::Hunter)),
            23 => Ok(HiscoreEntryKind::Skill(Skill::Construction)),
            24 => Ok(HiscoreEntryKind::Skill(Skill::Sailing)),
            25 | 26 | 27 | 28 | 29 | 30 | 31 | 32 => Err(KindFromIndexError::Ignore),
            33 => Ok(HiscoreEntryKind::ClueScrollsAll),
            34 => Ok(HiscoreEntryKind::ClueScrolls(ClueTier::Beginner)),
            35 => Ok(HiscoreEntryKind::ClueScrolls(ClueTier::Easy)),
            36 => Ok(HiscoreEntryKind::ClueScrolls(ClueTier::Medium)),
            37 => Ok(HiscoreEntryKind::ClueScrolls(ClueTier::Hard)),
            38 => Ok(HiscoreEntryKind::ClueScrolls(ClueTier::Elite)),
            39 => Ok(HiscoreEntryKind::ClueScrolls(ClueTier::Master)),
            40 | 41 | 42 => Err(KindFromIndexError::Ignore),
            43 => Ok(HiscoreEntryKind::RiftsClosed),
            44 => Ok(HiscoreEntryKind::ColosseumGlory),
            45 => Ok(HiscoreEntryKind::CollectionsLogged),
            46 => Ok(HiscoreEntryKind::Boss(Boss::AbyssalSire)),
            47 => Ok(HiscoreEntryKind::Boss(Boss::AlchemicalHydra)),
            48 => Ok(HiscoreEntryKind::Boss(Boss::Amoxliatl)),
            49 => Ok(HiscoreEntryKind::Boss(Boss::Araxxor)),
            50 => Ok(HiscoreEntryKind::Boss(Boss::Artio)),
            51 => Ok(HiscoreEntryKind::Boss(Boss::BarrowsChests)),
            52 => Ok(HiscoreEntryKind::Boss(Boss::Byrophyta)),
            53 => Ok(HiscoreEntryKind::Boss(Boss::Callisto)),
            54 => Ok(HiscoreEntryKind::Boss(Boss::Calvarion)),
            55 => Ok(HiscoreEntryKind::Boss(Boss::Cerberus)),
            56 => Ok(HiscoreEntryKind::Boss(Boss::ChambersOfXeric)),
            57 => Ok(HiscoreEntryKind::Boss(Boss::ChambersOfXericChallengeMode)),
            58 => Ok(HiscoreEntryKind::Boss(Boss::ChaosElemental)),
            59 => Ok(HiscoreEntryKind::Boss(Boss::ChaosFanatic)),
            60 => Ok(HiscoreEntryKind::Boss(Boss::CommanderZilyana)),
            61 => Ok(HiscoreEntryKind::Boss(Boss::CorporealBeast)),
            62 => Ok(HiscoreEntryKind::Boss(Boss::CrazyArchaeologist)),
            63 => Ok(HiscoreEntryKind::Boss(Boss::DagannothPrime)),
            64 => Ok(HiscoreEntryKind::Boss(Boss::DagannothRex)),
            65 => Ok(HiscoreEntryKind::Boss(Boss::DagannothSupreme)),
            66 => Ok(HiscoreEntryKind::Boss(Boss::DerangedArchaeologist)),
            67 => Ok(HiscoreEntryKind::Boss(Boss::DoomOfMokhaiotl)),
            68 => Ok(HiscoreEntryKind::Boss(Boss::DukeSucellus)),
            69 => Ok(HiscoreEntryKind::Boss(Boss::GeneralGraardor)),
            70 => Ok(HiscoreEntryKind::Boss(Boss::GiantMole)),
            71 => Ok(HiscoreEntryKind::Boss(Boss::GrotesqueGuardians)),
            72 => Ok(HiscoreEntryKind::Boss(Boss::Hespori)),
            73 => Ok(HiscoreEntryKind::Boss(Boss::KalphiteQueen)),
            74 => Ok(HiscoreEntryKind::Boss(Boss::KingBlackDragon)),
            75 => Ok(HiscoreEntryKind::Boss(Boss::Kraken)),
            76 => Ok(HiscoreEntryKind::Boss(Boss::Kreearra)),
            77 => Ok(HiscoreEntryKind::Boss(Boss::KrilTsutsaroth)),
            78 => Ok(HiscoreEntryKind::Boss(Boss::LunarChests)),
            79 => Ok(HiscoreEntryKind::Boss(Boss::Mimic)),
            80 => Ok(HiscoreEntryKind::Boss(Boss::Nex)),
            81 => Ok(HiscoreEntryKind::Boss(Boss::Nightmare)),
            82 => Ok(HiscoreEntryKind::Boss(Boss::PhosanisNightmare)),
            83 => Ok(HiscoreEntryKind::Boss(Boss::Obor)),
            84 => Ok(HiscoreEntryKind::Boss(Boss::PhantomMuspah)),
            85 => Ok(HiscoreEntryKind::Boss(Boss::Sarachnis)),
            86 => Ok(HiscoreEntryKind::Boss(Boss::Scorpia)),
            87 => Ok(HiscoreEntryKind::Boss(Boss::Scurrius)),
            88 => Ok(HiscoreEntryKind::Boss(Boss::ShellbaneGryphon)),
            89 => Ok(HiscoreEntryKind::Boss(Boss::Skotizo)),
            90 => Ok(HiscoreEntryKind::Boss(Boss::SolHeredit)),
            91 => Ok(HiscoreEntryKind::Boss(Boss::Spindel)),
            92 => Ok(HiscoreEntryKind::Boss(Boss::Tempoross)),
            93 => Ok(HiscoreEntryKind::Boss(Boss::TheGauntlet)),
            94 => Ok(HiscoreEntryKind::Boss(Boss::TheCorruptedGauntlet)),
            95 => Ok(HiscoreEntryKind::Boss(Boss::TheHueycoatl)),
            96 => Ok(HiscoreEntryKind::Boss(Boss::TheLeviathan)),
            97 => Ok(HiscoreEntryKind::Boss(Boss::TheRoyalTitans)),
            98 => Ok(HiscoreEntryKind::Boss(Boss::TheWhisperer)),
            99 => Ok(HiscoreEntryKind::Boss(Boss::TheatreOfBlood)),
            100 => Ok(HiscoreEntryKind::Boss(Boss::TheatreOfBloodHardMode)),
            101 => Ok(HiscoreEntryKind::Boss(Boss::ThermonuclearSmokeDevil)),
            102 => Ok(HiscoreEntryKind::Boss(Boss::TombsOfAmascut)),
            103 => Ok(HiscoreEntryKind::Boss(Boss::TombsOfAmascutExpertMode)),
            104 => Ok(HiscoreEntryKind::Boss(Boss::TzKalZuk)),
            105 => Ok(HiscoreEntryKind::Boss(Boss::TzTokJad)),
            106 => Ok(HiscoreEntryKind::Boss(Boss::Vardorvis)),
            107 => Ok(HiscoreEntryKind::Boss(Boss::Venenatis)),
            108 => Ok(HiscoreEntryKind::Boss(Boss::Vetion)),
            109 => Ok(HiscoreEntryKind::Boss(Boss::Vorkath)),
            110 => Ok(HiscoreEntryKind::Boss(Boss::Wintertodt)),
            111 => Ok(HiscoreEntryKind::Boss(Boss::Yama)),
            112 => Ok(HiscoreEntryKind::Boss(Boss::Zalcano)),
            113 => Ok(HiscoreEntryKind::Boss(Boss::Zulrah)),
            _ => Err(KindFromIndexError::OutOfRange(index)),        }
    }

    /// The position this kind occupies in the schema.
    pub fn index_of(&self) -> (r: usize)
        ensures
            r == index_of_kind_spec(*self),
            r < SCHEMA_LEN,
            !index_ignored(r as int),
            kind_at_index_spec(r as int) == *self,
    {
        proof {
            lemma_kind_index_inverse(*self);
        }
        match self {
            HiscoreEntryKind::Overall => 0,
            HiscoreEntryKind::Skill(s) => 1 + s.index(),
            HiscoreEntryKind::ClueScrollsAll => 33,
            HiscoreEntryKind::ClueScrolls(t) => 34 + t.index(),
            HiscoreEntryKind::RiftsClosed => 43,
            HiscoreEntryKind::ColosseumGlory => 44,
            HiscoreEntryKind::CollectionsLogged => 45,
            HiscoreEntryKind::Boss(b) => 46 + b.index(),
        }
    }
}

/// Whether a record's text decodes: two or three comma-separated fields,
/// each a well-formed 32-bit integer.
pub open spec fn entry_parses(line: Seq<char>) -> bool {
    let parts = spec_split(line, ',');
    ||| (parts.len() == 3 && parse_i32_spec(parts[0]) is Some && parse_i32_spec(parts[1]) is Some
        && parse_i32_spec(parts[2]) is Some)
    ||| (parts.len() == 2 && parse_i32_spec(parts[0]) is Some && parse_i32_spec(parts[1]) is Some)
}

/// The record a decodable line stands for: three fields make a skill-style
/// record, two a scalar one.
pub open spec fn spec_entry(line: Seq<char>) -> HiscoreEntry {
    let parts = spec_split(line, ',');
    if parts.len() == 3 {
        HiscoreEntry::Skill(
            SkillHiscoreEntry {
                rank: parse_i32_spec(parts[0]).unwrap(),
                level: parse_i32_spec(parts[1]).unwrap(),
                xp: parse_i32_spec(parts[2]).unwrap(),
            },
        )
    } else {
        HiscoreEntry::Scalar(
            ScalarHiscoreEntry {
                rank: parse_i32_spec(parts[0]).unwrap(),
                amount: parse_i32_spec(parts[1]).unwrap(),
            },
        )
    }
}

/// The error an undecodable line produces: the whole line for a wrong
/// field count, the first unparsable field otherwise.
pub open spec fn entry_err_spec(line: Seq<char>, e: ParseHiscoreEntryError) -> bool {
    let parts = spec_split(line, ',');
    if parts.len() == 3 {
        &&& e matches ParseHiscoreEntryError::ParseIntError { text }
        &&& text@ == if parse_i32_spec(parts[0]) is None {
            parts[0]
        } else if parse_i32_spec(parts[1]) is None {
            parts[1]
        } else {
            parts[2]
        }
    } else if parts.len() == 2 {
        &&& e matches ParseHiscoreEntryError::ParseIntError { text }
        &&& text@ == if parse_i32_spec(parts[0]) is None {
            parts[0]
        } else {
            parts[1]
        }
    } else {
        &&& e matches ParseHiscoreEntryError::InvalidEntry { text }
        &&& text@ == line
    }
}

impl HiscoreEntry {
    /// Decodes one hiscores record from its comma-separated text.
    pub fn from_str(text: &str) -> (r: Result<HiscoreEntry, ParseHiscoreEntryError>)
        ensures
            r is Ok <==> entry_parses(text@),
            r matches Ok(e) ==> e == spec_entry(text@),
            r matches Err(e) ==> entry_err_spec(text@, e),
    {
        let parts = split_char(text, ',');
        proof {
            assert(forall|k: int|
                0 <= k < parts@.len() ==> #[trigger] parts@[k]@ == spec_split(text@, ',')[k]);
        }
        if parts.len() == 3 {
            let rank = match parse_i32(parts[0].as_str()) {
                Some(v) => v,
                None => {
                    return Err(
                        ParseHiscoreEntryError::ParseIntError { text: parts[0].clone() },
                    );
                },
            };
            let level = match parse_i32(parts[1].as_str()) {
                Some(v) => v,
                None => {
                    return Err(
                        ParseHiscoreEntryError::ParseIntError { text: parts[1].clone() },
                    );
                },
            };
            let xp = match parse_i32(parts[2].as_str()) {
                Some(v) => v,
                None => {
                    return Err(
                        ParseHiscoreEntryError::ParseIntError { text: parts[2].clone() },
                    );
                },
            };
            Ok(HiscoreEntry::Skill(SkillHiscoreEntry { rank, level, xp }))
        } else if parts.len() == 2 {
            let rank = match parse_i32(parts[0].as_str()) {
                Some(v) => v,
                None => {
                    return Err(
                        ParseHiscoreEntryError::ParseIntError { text: parts[0].clone() },
                    );
                },
            };
            let amount = match parse_i32(parts[1].as_str()) {
                Some(v) => v,
                None => {
                    return Err(
                        ParseHiscoreEntryError::ParseIntError { text: parts[1].clone() },
                    );
                },
            };
            Ok(HiscoreEntry::Scalar(ScalarHiscoreEntry { rank, amount }))
        } else {
            Err(ParseHiscoreEntryError::InvalidEntry { text: text.to_owned() })
        }
    }
}

/// A decoded hiscores response: one optional record per schema position.
#[derive(Debug, Clone)]
pub struct Hiscore {
    entries: Vec<Option<HiscoreEntry>>,
}

impl View for Hiscore {
    type V = Seq<Option<HiscoreEntry>>;

    closed spec fn view(&self) -> Seq<Option<HiscoreEntry>> {
        self.entries@
    }
}

impl Hiscore {
    /// A well-formed response holds exactly one slot per schema position.
    pub open spec fn wf(&self) -> bool {
        self@.len() == SCHEMA_LEN as int
    }

    /// The record stored for a kind, at that kind's schema position.
    pub open spec fn entry_for_kind(&self, k: HiscoreEntryKind) -> Option<HiscoreEntry> {
        self@[index_of_kind_spec(k)]
    }

    /// Decodes a whole hiscores response body. Each line is decoded
    /// independently and recorded at its position's kind; reserved
    /// positions are skipped; a line beyond the schema is an error, as is
    /// the first line that does not decode.
    pub fn from_str(text: &str) -> (r: Result<Hiscore, ParseHiscoreError>)
        ensures
            ({
                let lines = spec_lines(text@);
                &&& (r is Ok <==> lines.len() <= SCHEMA_LEN && (forall|i: int|
                    0 <= i < lines.len() ==> entry_parses(#[trigger] lines[i])))
                &&& r matches Ok(h) ==> {
                    &&& h.wf()
                    &&& forall|p: int|
                        0 <= p < SCHEMA_LEN ==> h@[p] == (if p < lines.len() && !index_ignored(p) {
                            Some(spec_entry(lines[p]))
                        } else {
                            None::<HiscoreEntry>
                        })
                }
                &&& r matches Err(ParseHiscoreError::IndexOutOfRange(j)) ==> {
                    &&& j == SCHEMA_LEN
                    &&& lines.len() > SCHEMA_LEN
                    &&& forall|k: int| 0 <= k <= SCHEMA_LEN ==> entry_parses(#[trigger] lines[k])
                }
                &&& r matches Err(ParseHiscoreError::InvalidEntry(e)) ==> (exists|i: int|
                    {
                        &&& 0 <= i < lines.len()
                        &&& i <= SCHEMA_LEN
                        &&& !entry_parses(#[trigger] lines[i])
                        &&& entry_err_spec(lines[i], e)
                        &&& forall|k: int| 0 <= k < i ==> entry_parses(#[trigger] lines[k])
                    })
            }),
    {
        let lines = split_lines(text);
        let ghost lines_view = spec_lines(text@);
        proof {
            assert(forall|k: int|
                0 <= k < lines@.len() ==> #[trigger] lines@[k]@ == lines_view[k]);
        }
        let mut parsed: Vec<HiscoreEntry> = Vec::new();
        let mut i: usize = 0;
        while i < lines.len()
            invariant
                lines_view == spec_lines(text@),
                i <= lines@.len(),
                i <= SCHEMA_LEN,
                lines@.len() == lines_view.len(),
                forall|k: int| 0 <= k < lines@.len() ==> #[trigger] lines@[k]@ == lines_view[k],
                parsed@.len() == i,
                forall|k: int| 0 <= k < i ==> entry_parses(#[trigger] lines_view[k]),
                forall|k: int| 0 <= k < i ==> parsed@[k] == spec_entry(#[trigger] lines_view[k]),
            decreases lines@.len() - i,
        {
            let entry = match HiscoreEntry::from_str(lines[i].as_str()) {
                Ok(entry) => entry,
                Err(e) => {
                    proof {
                        assert(!entry_parses(spec_lines(text@)[i as int]));
                        assert({
                            let j = i as int;
                            &&& 0 <= j < spec_lines(text@).len()
                            &&& j <= SCHEMA_LEN
                            &&& !entry_parses(spec_lines(text@)[j])
                            &&& entry_err_spec(spec_lines(text@)[j], e)
                            &&& forall|k: int|
                                0 <= k < j ==> entry_parses(#[trigger] spec_lines(text@)[k])
                        });
                    }
                    return Err(ParseHiscoreError::InvalidEntry(e));
                },
            };
            if i >= SCHEMA_LEN {
                proof {
                    assert(entry_parses(lines_view[i as int]));
                    assert(forall|k: int|
                        0 <= k <= SCHEMA_LEN ==> entry_parses(#[trigger] lines_view[k]));
                }
                return Err(ParseHiscoreError::IndexOutOfRange(i as u32));
            }
            parsed.push(entry);
            i = i + 1;
        }
        let mut entries: Vec<Option<HiscoreEntry>> = Vec::new();
        let mut p: usize = 0;
        while p < SCHEMA_LEN
            invariant
                lines_view == spec_lines(text@),
                p <= SCHEMA_LEN,
                entries@.len() == p,
                parsed@.len() == lines_view.len(),
                parsed@.len() <= SCHEMA_LEN,
                forall|k: int| 0 <= k < parsed@.len() ==> parsed@[k] == spec_entry(
                    #[trigger] lines_view[k],
                ),
                forall|k: int|
                    0 <= k < p ==> #[trigger] entries@[k] == (if k < lines_view.len()
                        && !index_ignored(k) {
                        Some(spec_entry(lines_view[k]))
                    } else {
                        None::<HiscoreEntry>
                    }),
            decreases SCHEMA_LEN - p,
        {
            if p < parsed.len() && !is_ignored_index(p) {
                entries.push(Some(parsed[p]));
            } else {
                entries.push(None);
            }
            p = p + 1;
        }
        Ok(Hiscore { entries })
    }

    /// The overall rank/level/experience record, when present and
    /// skill-shaped.
    pub fn overall(&self) -> (r: Option<SkillHiscoreEntry>)
        requires
            self.wf(),
        ensures
            r == match self.entry_for_kind(HiscoreEntryKind::Overall) {
                Some(e) => e.as_skill_spec(),
                None => None::<SkillHiscoreEntry>,
            },
    {
        self.skill_shaped_at(HiscoreEntryKind::Overall.index_of())
    }

    /// The record for one skill, when present and skill-shaped.
    pub fn skill(&self, skill: Skill) -> (r: Option<SkillHiscoreEntry>)
        requires
            self.wf(),
        ensures
            r == match self.entry_for_kind(HiscoreEntryKind::Skill(skill)) {
                Some(e) => e.as_skill_spec(),
                None => None::<SkillHiscoreEntry>,
            },
    {
        self.skill_shaped_at(HiscoreEntryKind::Skill(skill).index_of())
    }

    /// The kill count record for one boss, when present and scalar-shaped.
    pub fn boss(&self, boss: Boss) -> (r: Option<ScalarHiscoreEntry>)
        requires
            self.wf(),
        ensures
            r == match self.entry_for_kind(HiscoreEntryKind::Boss(boss)) {
                Some(e) => e.as_scalar_spec(),
                None => None::<ScalarHiscoreEntry>,
            },
    {
        self.scalar_shaped_at(HiscoreEntryKind::Boss(boss).index_of())
    }

    /// The combined clue-scroll record, when present and scalar-shaped.
    pub fn clue_scrolls_all(&self) -> (r: Option<ScalarHiscoreEntry>)
        requires
            self.wf(),
        ensures
            r == match self.entry_for_kind(HiscoreEntryKind::ClueScrollsAll) {
                Some(e) => e.as_scalar_spec(),
                None => None::<ScalarHiscoreEntry>,
            },
    {
        self.scalar_shaped_at(HiscoreEntryKind::ClueScrollsAll.index_of())
    }

    /// The clue-scroll record for one tier, when present and scalar-shaped.
    pub fn clue_scrolls(&self, tier: ClueTier) -> (r: Option<ScalarHiscoreEntry>)
        requires
            self.wf(),
        ensures
            r == match self.entry_for_kind(HiscoreEntryKind::ClueScrolls(tier)) {
                Some(e) => e.as_scalar_spec(),
                None => None::<ScalarHiscoreEntry>,
            },
    {
        self.scalar_shaped_at(HiscoreEntryKind::ClueScrolls(tier).index_of())
    }

    /// The rifts-closed record, when present and scalar-shaped.
    pub fn rifts_closed(&self) -> (r: Option<ScalarHiscoreEntry>)
        requires
            self.wf(),
        ensures
            r == match self.entry_for_kind(HiscoreEntryKind::RiftsClosed) {
                Some(e) => e.as_scalar_spec(),
                None => None::<ScalarHiscoreEntry>,
            },
    {
        self.scalar_shaped_at(HiscoreEntryKind::RiftsClosed.index_of())
    }

    /// The colosseum-glory record, when present and scalar-shaped.
    pub fn colosseum_glory(&self) -> (r: Option<ScalarHiscoreEntry>)
        requires
            self.wf(),
        ensures
            r == match self.entry_for_kind(HiscoreEntryKind::ColosseumGlory) {
                Some(e) => e.as_scalar_spec(),
                None => None::<ScalarHiscoreEntry>,
            },
    {
        self.scalar_shaped_at(HiscoreEntryKind::ColosseumGlory.index_of())
    }

    /// The collections-logged record, when present and scalar-shaped.
    pub fn collections_logged(&self) -> (r: Option<ScalarHiscoreEntry>)
        requires
            self.wf(),
        ensures
            r == match self.entry_for_kind(HiscoreEntryKind::CollectionsLogged) {
                Some(e) => e.as_scalar_spec(),
                None => None::<ScalarHiscoreEntry>,
            },
    {
        self.scalar_shaped_at(HiscoreEntryKind::CollectionsLogged.index_of())
    }

    /// The skill-shaped record at a schema position, if any.
    fn skill_shaped_at(&self, p: usize) -> (r: Option<SkillHiscoreEntry>)
        requires
            self.wf(),
            p < SCHEMA_LEN,
        ensures
            r == match self@[p as int] {
                Some(e) => e.as_skill_spec(),
                None => None::<SkillHiscoreEntry>,
            },
    {
        match &self.entries[p] {
            Some(e) => e.as_skill(),
            None => None,
        }
    }

    /// The scalar-shaped record at a schema position, if any.
    fn scalar_shaped_at(&self, p: usize) -> (r: Option<ScalarHiscoreEntry>)
        requires
            self.wf(),
            p < SCHEMA_LEN,
        ensures
            r == match self@[p as int] {
                Some(e) => e.as_scalar_spec(),
                None => None::<ScalarHiscoreEntry>,
            },
    {
        match &self.entries[p] {
            Some(e) => e.as_scalar(),
            None => None,
        }
    }
}

impl HiscoreEntry {
    /// The skill-shaped view of a record, in specifications.
    pub open spec fn as_skill_spec(&self) -> Option<SkillHiscoreEntry> {
        match *self {
            HiscoreEntry::Skill(e) => Some(e),
            HiscoreEntry::Scalar(_) => None,
        }
    }

    /// The scalar-shaped view of a record, in specifications.
    pub open spec fn as_scalar_spec(&self) -> Option<ScalarHiscoreEntry> {
        match *self {
            HiscoreEntry::Scalar(e) => Some(e),
            HiscoreEntry::Skill(_) => None,
        }
    }
}

/// Exposes an ignored-position test to executable code.
fn is_ignored_index(p: usize) -> (r: bool)
    ensures
        r == index_ignored(p as int),
{
    (25 <= p && p <= 32) || (40 <= p && p <= 42)
}

/// The account variants the hiscores service tracks separately.
#[derive(Debug, Clone, Copy, PartialEq, Eq, PartialOrd, Ord, Hash, Structural)]
pub enum AccountType {
    Main,
    Ironman,
    UltimateIronman,
    HardcoreIronman,
    Leagues,
}

/// The path infix the hiscores service uses for each account variant.
pub open spec fn hiscores_suffix_spec(t: AccountType) -> Seq<char> {
    match t {
        AccountType::Main => ""@,
        AccountType::Ironman => "_ironman"@,
        AccountType::UltimateIronman => "_ultimate"@,
        AccountType::HardcoreIronman => "_hardcore"@,
        AccountType::Leagues => "_seasonal"@,
    }
}

impl AccountType {
    /// The path infix the hiscores service uses for this account variant.
    pub fn hiscores_suffix(&self) -> (r: &'static str)
        ensures
            r@ == hiscores_suffix_spec(*self),
    {
        match self {
            AccountType::Main => "",
            AccountType::Ironman => "_ironman",
            AccountType::UltimateIronman => "_ultimate",
            AccountType::HardcoreIronman => "_hardcore",
            AccountType::Leagues => "_seasonal",
        }
    }
}

#[verifier::external_type_specification]
#[verifier::external_body]
pub struct ExUrl(url::Url);

/// What the form-urlencoded byte serializer produces for a string: its
/// query-escaped form. The result depends on the characters alone.
pub uninterp spec fn player_query_encoded(name: Seq<char>) -> Seq<char>;

/// Relies on form_urlencoded::byte_serialize: serializes a string's bytes
/// under the application/x-www-form-urlencoded rules, a pure function of
/// its input.
#[verifier::external_body]
fn encode_query_value(name: &str) -> (r: String)
    ensures
        r@ == player_query_encoded(name@),
{
    form_urlencoded::byte_serialize(name.as_bytes()).collect()
}

/// Whether a text parses as an absolute URL; the outcome depends on the
/// characters alone.
pub uninterp spec fn url_parse_ok(s: Seq<char>) -> bool;

/// Relies on url::Url::parse: returns the parsed form of a well-formed
/// absolute URL, and nothing for text that does not parse as one; which of
/// the two happens is a function of the text alone.
#[verifier::external_body]
fn parse_url(s: &str) -> (r: Option<url::Url>)
    ensures
        r is Some <==> url_parse_ok(s@),
{
    url::Url::parse(s).ok()
}

/// The full text of the hiscores lookup URL for a player name and account
/// variant: the service address, the variant's path infix, and the
/// query-escaped player name.
pub open spec fn hiscores_url_spec(name: Seq<char>, t: AccountType) -> Seq<char> {
    "https://secure.runescape.com/m=hiscore_oldschool"@ + hiscores_suffix_spec(t)
        + "/index_lite.ws?player="@ + player_query_encoded(name)
}

impl Hiscore {
    /// The text of the hiscores lookup URL for the player with the given
    /// name and account variant.
    pub fn url_string(name: &str, account_type: AccountType) -> (r: String)
        ensures
            r@ == hiscores_url_spec(name@, account_type),
    {
        let mut out = String::new();
        out.append("https://secure.runescape.com/m=hiscore_oldschool");
        out.append(account_type.hiscores_suffix());
        out.append("/index_lite.ws?player=");
        let encoded = encode_query_value(name);
        out.append(encoded.as_str());
        out
    }

    /// The hiscores lookup URL for the player with the given name and
    /// account variant, in parsed form. The text handed to the URL parser
    /// is exactly what `url_string` describes; the parsed value itself is
    /// opaque to this library, and parsing succeeds exactly when that text
    /// parses as a URL.
    pub fn url(name: &str, account_type: AccountType) -> (r: Option<url::Url>)
        ensures
            r is Some <==> url_parse_ok(hiscores_url_spec(name@, account_type)),
    {
        let text = Hiscore::url_string(name, account_type);
        parse_url(text.as_str())
    }
}

} // verus!
