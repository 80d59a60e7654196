//! The closed catalog of tracked boss encounters, in hiscores column order.

use vstd::prelude::*;

verus! {

#[derive(Debug, Clone, Copy, PartialEq, Eq, Hash, Structural)]
pub enum Boss {
    AbyssalSire,
    AlchemicalHydra,
    Amoxliatl,
    Araxxor,
    Artio,
    BarrowsChests,
    Byrophyta,
    Callisto,
    Calvarion,
    Cerberus,
    ChambersOfXeric,
    ChambersOfXericChallengeMode,
    ChaosElemental,
    ChaosFanatic,
    CommanderZilyana,
    CorporealBeast,
    CrazyArchaeologist,
    DagannothPrime,
    DagannothRex,
    DagannothSupreme,
    DerangedArchaeologist,
    DoomOfMokhaiotl,
    DukeSucellus,
    GeneralGraardor,
    GiantMole,
    GrotesqueGuardians,
    Hespori,
    KalphiteQueen,
    KingBlackDragon,
    Kraken,
    Kreearra,
    KrilTsutsaroth,
    LunarChests,
    Mimic,
    Nex,
    Nightmare,
    PhosanisNightmare,
    Obor,
    PhantomMuspah,
    Sarachnis,
    Scorpia,
    Scurrius,
    ShellbaneGryphon,
    Skotizo,
    SolHeredit,
    Spindel,
    Tempoross,
    TheGauntlet,
    TheCorruptedGauntlet,
    TheHueycoatl,
    TheLeviathan,
    TheRoyalTitans,
    TheWhisperer,
    TheatreOfBlood,
    TheatreOfBloodHardMode,
    ThermonuclearSmokeDevil,
    TombsOfAmascut,
    TombsOfAmascutExpertMode,
    TzKalZuk,
    TzTokJad,
    Vardorvis,
    Venenatis,
    Vetion,
    Vorkath,
    Wintertodt,
    Yama,
    Zalcano,
    Zulrah,
}

/// The position of each variant in declaration order; this order fixes the
/// column layout of the hiscores feed.
pub open spec fn boss_index_spec(x: Boss) -> int {
    match x {
        Boss::AbyssalSire => 0,
        Boss::AlchemicalHydra => 1,
        Boss::Amoxliatl => 2,
        Boss::Araxxor => 3,
        Boss::Artio => 4,
        Boss::BarrowsChests => 5,
        Boss::Byrophyta => 6,
        Boss::Callisto => 7,
        Boss::Calvarion => 8,
        Boss::Cerberus => 9,
        Boss::ChambersOfXeric => 10,
        Boss::ChambersOfXericChallengeMode => 11,
        Boss::ChaosElemental => 12,
        Boss::ChaosFanatic => 13,
        Boss::CommanderZilyana => 14,
        Boss::CorporealBeast => 15,
        Boss::CrazyArchaeologist => 16,
        Boss::DagannothPrime => 17,
        Boss::DagannothRex => 18,
        Boss::DagannothSupreme => 19,
        Boss::DerangedArchaeologist => 20,
        Boss::DoomOfMokhaiotl => 21,
        Boss::DukeSucellus => 22,
        Boss::GeneralGraardor => 23,
        Boss::GiantMole => 24,
        Boss::GrotesqueGuardians => 25,
        Boss::Hespori => 26,
        Boss::KalphiteQueen => 27,
        Boss::KingBlackDragon => 28,
        Boss::Kraken => 29,
        Boss::Kreearra => 30,
        Boss::KrilTsutsaroth => 31,
        Boss::LunarChests => 32,
        Boss::Mimic => 33,
        Boss::Nex => 34,
        Boss::Nightmare => 35,
        Boss::PhosanisNightmare => 36,
        Boss::Obor => 37,
        Boss::PhantomMuspah => 38,
        Boss::Sarachnis => 39,
        Boss::Scorpia => 40,
        Boss::Scurrius => 41,
        Boss::ShellbaneGryphon => 42,
        Boss::Skotizo => 43,
        Boss::SolHeredit => 44,
        Boss::Spindel => 45,
        Boss::Tempoross => 46,
        Boss::TheGauntlet => 47,
        Boss::TheCorruptedGauntlet => 48,
        Boss::TheHueycoatl => 49,
        Boss::TheLeviathan => 50,
        Boss::TheRoyalTitans => 51,
        Boss::TheWhisperer => 52,
        Boss::TheatreOfBlood => 53,
        Boss::TheatreOfBloodHardMode => 54,
        Boss::ThermonuclearSmokeDevil => 55,
        Boss::TombsOfAmascut => 56,
        Boss::TombsOfAmascutExpertMode => 57,
        Boss::TzKalZuk => 58,
        Boss::TzTokJad => 59,
        Boss::Vardorvis => 60,
        Boss::Venenatis => 61,
        Boss::Vetion => 62,
        Boss::Vorkath => 63,
        Boss::Wintertodt => 64,
        Boss::Yama => 65,
        Boss::Zalcano => 66,
        Boss::Zulrah => 67,
    }
}

/// The variant at a given declaration-order position.
pub open spec fn boss_at_index_spec(i: int) -> Boss {
    if i == 0 { Boss::AbyssalSire }
    else if i == 1 { Boss::AlchemicalHydra }
    else if i == 2 { Boss::Amoxliatl }
    else if i == 3 { Boss::Araxxor }
    else if i == 4 { Boss::Artio }
    else if i == 5 { Boss::BarrowsChests }
    else if i == 6 { Boss::Byrophyta }
    else if i == 7 { Boss::Callisto }
    else if i == 8 { Boss::Calvarion }
    else if i == 9 { Boss::Cerberus }
    else if i == 10 { Boss::ChambersOfXeric }
    else if i == 11 { Boss::ChambersOfXericChallengeMode }
    else if i == 12 { Boss::ChaosElemental }
    else if i == 13 { Boss::ChaosFanatic }
    else if i == 14 { Boss::CommanderZilyana }
    else if i == 15 { Boss::CorporealBeast }
    else if i == 16 { Boss::CrazyArchaeologist }
    else if i == 17 { Boss::DagannothPrime }
    else if i == 18 { Boss::DagannothRex }
    else if i == 19 { Boss::DagannothSupreme }
    else if i == 20 { Boss::DerangedArchaeologist }
    else if i == 21 { Boss::DoomOfMokhaiotl }
    else if i == 22 { Boss::DukeSucellus }
    else if i == 23 { Boss::GeneralGraardor }
    else if i == 24 { Boss::GiantMole }
    else if i == 25 { Boss::GrotesqueGuardians }
    else if i == 26 { Boss::Hespori }
    else if i == 27 { Boss::KalphiteQueen }
    else if i == 28 { Boss::KingBlackDragon }
    else if i == 29 { Boss::Kraken }
    else if i == 30 { Boss::Kreearra }
    else if i == 31 { Boss::KrilTsutsaroth }
    else if i == 32 { Boss::LunarChests }
    else if i == 33 { Boss::Mimic }
    else if i == 34 { Boss::Nex }
    else if i == 35 { Boss::Nightmare }
    else if i == 36 { Boss::PhosanisNightmare }
    else if i == 37 { Boss::Obor }
    else if i == 38 { Boss::PhantomMuspah }
    else if i == 39 { Boss::Sarachnis }
    else if i == 40 { Boss::Scorpia }
    else if i == 41 { Boss::Scurrius }
    else if i == 42 { Boss::ShellbaneGryphon }
    else if i == 43 { Boss::Skotizo }
    else if i == 44 { Boss::SolHeredit }
    else if i == 45 { Boss::Spindel }
    else if i == 46 { Boss::Tempoross }
    else if i == 47 { Boss::TheGauntlet }
    else if i == 48 { Boss::TheCorruptedGauntlet }
    else if i == 49 { Boss::TheHueycoatl }
    else if i == 50 { Boss::TheLeviathan }
    else if i == 51 { Boss::TheRoyalTitans }
    else if i == 52 { Boss::TheWhisperer }
    else if i == 53 { Boss::TheatreOfBlood }
    else if i == 54 { Boss::TheatreOfBloodHardMode }
    else if i == 55 { Boss::ThermonuclearSmokeDevil }
    else if i == 56 { Boss::TombsOfAmascut }
    else if i == 57 { Boss::TombsOfAmascutExpertMode }
    else if i == 58 { Boss::TzKalZuk }
    else if i == 59 { Boss::TzTokJad }
    else if i == 60 { Boss::Vardorvis }
    else if i == 61 { Boss::Venenatis }
    else if i == 62 { Boss::Vetion }
    else if i == 63 { Boss::Vorkath }
    else if i == 64 { Boss::Wintertodt }
    else if i == 65 { Boss::Yama }
    else if i == 66 { Boss::Zalcano }
    else { Boss::Zulrah }
}

impl Boss {
    /// This variant's position in declaration order.
    pub fn index(&self) -> (r: usize)
        ensures
            r == boss_index_spec(*self),
            0 <= boss_index_spec(*self) < 68,
            boss_at_index_spec(boss_index_spec(*self)) == *self,
    {
        match self {
        Boss::AbyssalSire => 0,
        Boss::AlchemicalHydra => 1,
        Boss::Amoxliatl => 2,
        Boss::Araxxor => 3,
        Boss::Artio => 4,
        Boss::BarrowsChests => 5,
        Boss::Byrophyta => 6,
        Boss::Callisto => 7,
        Boss::Calvarion => 8,
        Boss::Cerberus => 9,
        Boss::ChambersOfXeric => 10,
        Boss::ChambersOfXericChallengeMode => 11,
        Boss::ChaosElemental => 12,
        Boss::ChaosFanatic => 13,
        Boss::CommanderZilyana => 14,
        Boss::CorporealBeast => 15,
        Boss::CrazyArchaeologist => 16,
        Boss::DagannothPrime => 17,
        Boss::DagannothRex => 18,
        Boss::DagannothSupreme => 19,
        Boss::DerangedArchaeologist => 20,
        Boss::DoomOfMokhaiotl => 21,
        Boss::DukeSucellus => 22,
        Boss::GeneralGraardor => 23,
        Boss::GiantMole => 24,
        Boss::GrotesqueGuardians => 25,
        Boss::Hespori => 26,
        Boss::KalphiteQueen => 27,
        Boss::KingBlackDragon => 28,
        Boss::Kraken => 29,
        Boss::Kreearra => 30,
        Boss::KrilTsutsaroth => 31,
        Boss::LunarChests => 32,
        Boss::Mimic => 33,
        Boss::Nex => 34,
        Boss::Nightmare => 35,
        Boss::PhosanisNightmare => 36,
        Boss::Obor => 37,
        Boss::PhantomMuspah => 38,
        Boss::Sarachnis => 39,
        Boss::Scorpia => 40,
        Boss::Scurrius => 41,
        Boss::ShellbaneGryphon => 42,
        Boss::Skotizo => 43,
        Boss::SolHeredit => 44,
        Boss::Spindel => 45,
        Boss::Tempoross => 46,
        Boss::TheGauntlet => 47,
        Boss::TheCorruptedGauntlet => 48,
        Boss::TheHueycoatl => 49,
        Boss::TheLeviathan => 50,
        Boss::TheRoyalTitans => 51,
        Boss::TheWhisperer => 52,
        Boss::TheatreOfBlood => 53,
        Boss::TheatreOfBloodHardMode => 54,
        Boss::ThermonuclearSmokeDevil => 55,
        Boss::TombsOfAmascut => 56,
        Boss::TombsOfAmascutExpertMode => 57,
        Boss::TzKalZuk => 58,
        Boss::TzTokJad => 59,
        Boss::Vardorvis => 60,
        Boss::Venenatis => 61,
        Boss::Vetion => 62,
        Boss::Vorkath => 63,
        Boss::Wintertodt => 64,
        Boss::Yama => 65,
        Boss::Zalcano => 66,
        Boss::Zulrah => 67,
        }
    }
}

/// Positions and variants correspond one to one.
pub proof fn lemma_boss_index_inverse(x: Boss, i: int)
    ensures
        boss_at_index_spec(boss_index_spec(x)) == x,
        0 <= i < 68 ==> boss_index_spec(boss_at_index_spec(i)) == i,
{
}

} // verus!
