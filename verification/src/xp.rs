//! The experience table and level/experience conversions.
//!
//! The table maps each level 1..=99 to the cumulative experience required to
//! reach it. It is strictly increasing; every derived computation here rests
//! on that monotonicity, which is proved below.

use vstd::prelude::*;
use crate::{Level, Xp};

verus! {

/// The canonical cumulative experience threshold for each level.
/// Levels at or below 1 share the level-1 threshold of 0; levels at or
/// above 99 share the level-99 threshold.
pub open spec fn xp_for_level_spec(level: int) -> int {
    if level <= 1 { 0 }
    else if level == 2 { 83 }
    else if level == 3 { 174 }
    else if level == 4 { 276 }
    else if level == 5 { 388 }
    else if level == 6 { 512 }
    else if level == 7 { 650 }
    else if level == 8 { 801 }
    else if level == 9 { 969 }
    else if level == 10 { 1154 }
    else if level == 11 { 1358 }
    else if level == 12 { 1584 }
    else if level == 13 { 1833 }
    else if level == 14 { 2107 }
    else if level == 15 { 2411 }
    else if level == 16 { 2746 }
    else if level == 17 { 3115 }
    else if level == 18 { 3523 }
    else if level == 19 { 3973 }
    else if level == 20 { 4470 }
    else if level == 21 { 5018 }
    else if level == 22 { 5624 }
    else if level == 23 { 6291 }
    else if level == 24 { 7028 }
    else if level == 25 { 7842 }
    else if level == 26 { 8740 }
    else if level == 27 { 9730 }
    else if level == 28 { 10824 }
    else if level == 29 { 12031 }
    else if level == 30 { 13363 }
    else if level == 31 { 14833 }
    else if level == 32 { 16456 }
    else if level == 33 { 18247 }
    else if level == 34 { 20224 }
    else if level == 35 { 22406 }
    else if level == 36 { 24815 }
    else if level == 37 { 27473 }
    else if level == 38 { 30408 }
    else if level == 39 { 33648 }
    else if level == 40 { 37224 }
    else if level == 41 { 41171 }
    else if level == 42 { 45529 }
    else if level == 43 { 50339 }
    else if level == 44 { 55649 }
    else if level == 45 { 61512 }
    else if level == 46 { 67983 }
    else if level == 47 { 75127 }
    else if level == 48 { 83014 }
    else if level == 49 { 91721 }
    else if level == 50 { 101333 }
    else if level == 51 { 111945 }
    else if level == 52 { 123660 }
    else if level == 53 { 136594 }
    else if level == 54 { 150872 }
    else if level == 55 { 166636 }
    else if level == 56 { 184040 }
    else if level == 57 { 203254 }
    else if level == 58 { 224466 }
    else if level == 59 { 247886 }
    else if level == 60 { 273742 }
    else if level == 61 { 302288 }
    else if level == 62 { 333804 }
    else if level == 63 { 368599 }
    else if level == 64 { 407015 }
    else if level == 65 { 449428 }
    else if level == 66 { 496254 }
    else if level == 67 { 547953 }
    else if level == 68 { 605032 }
    else if level == 69 { 668051 }
    else if level == 70 { 737627 }
    else if level == 71 { 814445 }
    else if level == 72 { 899257 }
    else if level == 73 { 992895 }
    else if level == 74 { 1096278 }
    else if level == 75 { 1210421 }
    else if level == 76 { 1336443 }
    else if level == 77 { 1475581 }
    else if level == 78 { 1629200 }
    else if level == 79 { 1798808 }
    else if level == 80 { 1986068 }
    else if level == 81 { 2192818 }
    else if level == 82 { 2421087 }
    else if level == 83 { 2673114 }
    else if level == 84 { 2951373 }
    else if level == 85 { 3258594 }
    else if level == 86 { 3597792 }
    else if level == 87 { 3972294 }
    else if level == 88 { 4385776 }
    else if level == 89 { 4842295 }
    else if level == 90 { 5346332 }
    else if level == 91 { 5902831 }
    else if level == 92 { 6517253 }
    else if level == 93 { 7195629 }
    else if level == 94 { 7944614 }
    else if level == 95 { 8771558 }
    else if level == 96 { 9684577 }
    else if level == 97 { 10692629 }
    else if level == 98 { 11805606 }
    else { 13034431 }
}

/// Executable lookup of the experience threshold for a level in 1..=99.
pub(crate) fn xp_threshold(level: i32) -> (r: i64)
    requires
        1 <= level <= 99,
    ensures
        r == xp_for_level_spec(level as int),
{
    if level <= 1 { 0 }
    else if level == 2 { 83 }
    else if level == 3 { 174 }
    else if level == 4 { 276 }
    else if level == 5 { 388 }
    else if level == 6 { 512 }
    else if level == 7 { 650 }
    else if level == 8 { 801 }
    else if level == 9 { 969 }
    else if level == 10 { 1154 }
    else if level == 11 { 1358 }
    else if level == 12 { 1584 }
    else if level == 13 { 1833 }
    else if level == 14 { 2107 }
    else if level == 15 { 2411 }
    else if level == 16 { 2746 }
    else if level == 17 { 3115 }
    else if level == 18 { 3523 }
    else if level == 19 { 3973 }
    else if level == 20 { 4470 }
    else if level == 21 { 5018 }
    else if level == 22 { 5624 }
    else if level == 23 { 6291 }
    else if level == 24 { 7028 }
    else if level == 25 { 7842 }
    else if level == 26 { 8740 }
    else if level == 27 { 9730 }
    else if level == 28 { 10824 }
    else if level == 29 { 12031 }
    else if level == 30 { 13363 }
    else if level == 31 { 14833 }
    else if level == 32 { 16456 }
    else if level == 33 { 18247 }
    else if level == 34 { 20224 }
    else if level == 35 { 22406 }
    else if level == 36 { 24815 }
    else if level == 37 { 27473 }
    else if level == 38 { 30408 }
    else if level == 39 { 33648 }
    else if level == 40 { 37224 }
    else if level == 41 { 41171 }
    else if level == 42 { 45529 }
    else if level == 43 { 50339 }
    else if level == 44 { 55649 }
    else if level == 45 { 61512 }
    else if level == 46 { 67983 }
    else if level == 47 { 75127 }
    else if level == 48 { 83014 }
    else if level == 49 { 91721 }
    else if level == 50 { 101333 }
    else if level == 51 { 111945 }
    else if level == 52 { 123660 }
    else if level == 53 { 136594 }
    else if level == 54 { 150872 }
    else if level == 55 { 166636 }
    else if level == 56 { 184040 }
    else if level == 57 { 203254 }
    else if level == 58 { 224466 }
    else if level == 59 { 247886 }
    else if level == 60 { 273742 }
    else if level == 61 { 302288 }
    else if level == 62 { 333804 }
    else if level == 63 { 368599 }
    else if level == 64 { 407015 }
    else if level == 65 { 449428 }
    else if level == 66 { 496254 }
    else if level == 67 { 547953 }
    else if level == 68 { 605032 }
    else if level == 69 { 668051 }
    else if level == 70 { 737627 }
    else if level == 71 { 814445 }
    else if level == 72 { 899257 }
    else if level == 73 { 992895 }
    else if level == 74 { 1096278 }
    else if level == 75 { 1210421 }
    else if level == 76 { 1336443 }
    else if level == 77 { 1475581 }
    else if level == 78 { 1629200 }
    else if level == 79 { 1798808 }
    else if level == 80 { 1986068 }
    else if level == 81 { 2192818 }
    else if level == 82 { 2421087 }
    else if level == 83 { 2673114 }
    else if level == 84 { 2951373 }
    else if level == 85 { 3258594 }
    else if level == 86 { 3597792 }
    else if level == 87 { 3972294 }
    else if level == 88 { 4385776 }
    else if level == 89 { 4842295 }
    else if level == 90 { 5346332 }
    else if level == 91 { 5902831 }
    else if level == 92 { 6517253 }
    else if level == 93 { 7195629 }
    else if level == 94 { 7944614 }
    else if level == 95 { 8771558 }
    else if level == 96 { 9684577 }
    else if level == 97 { 10692629 }
    else if level == 98 { 11805606 }
    else { 13034431 }
}

/// Adjacent thresholds are strictly increasing.
pub proof fn lemma_xp_table_adjacent(l: int)
    requires
        1 <= l < 99,
    ensures
        xp_for_level_spec(l) < xp_for_level_spec(l + 1),
{
    if l == 1 {
        assert(xp_for_level_spec(1) == 0);
        assert(xp_for_level_spec(2) == 83);
    } else if l == 2 {
        assert(xp_for_level_spec(2) == 83);
        assert(xp_for_level_spec(3) == 174);
    } else if l == 3 {
        assert(xp_for_level_spec(3) == 174);
        assert(xp_for_level_spec(4) == 276);
    } else if l == 4 {
        assert(xp_for_level_spec(4) == 276);
        assert(xp_for_level_spec(5) == 388);
    } else if l == 5 {
        assert(xp_for_level_spec(5) == 388);
        assert(xp_for_level_spec(6) == 512);
    } else if l == 6 {
        assert(xp_for_level_spec(6) == 512);
        assert(xp_for_level_spec(7) == 650);
    } else if l == 7 {
        assert(xp_for_level_spec(7) == 650);
        assert(xp_for_level_spec(8) == 801);
    } else if l == 8 {
        assert(xp_for_level_spec(8) == 801);
        assert(xp_for_level_spec(9) == 969);
    } else if l == 9 {
        assert(xp_for_level_spec(9) == 969);
        assert(xp_for_level_spec(10) == 1154);
    } else if l == 10 {
        assert(xp_for_level_spec(10) == 1154);
        assert(xp_for_level_spec(11) == 1358);
    } else if l == 11 {
        assert(xp_for_level_spec(11) == 1358);
        assert(xp_for_level_spec(12) == 1584);
    } else if l == 12 {
        assert(xp_for_level_spec(12) == 1584);
        assert(xp_for_level_spec(13) == 1833);
    } else if l == 13 {
        assert(xp_for_level_spec(13) == 1833);
        assert(xp_for_level_spec(14) == 2107);
    } else if l == 14 {
        assert(xp_for_level_spec(14) == 2107);
        assert(xp_for_level_spec(15) == 2411);
    } else if l == 15 {
        assert(xp_for_level_spec(15) == 2411);
        assert(xp_for_level_spec(16) == 2746);
    } else if l == 16 {
        assert(xp_for_level_spec(16) == 2746);
        assert(xp_for_level_spec(17) == 3115);
    } else if l == 17 {
        assert(xp_for_level_spec(17) == 3115);
        assert(xp_for_level_spec(18) == 3523);
    } else if l == 18 {
        assert(xp_for_level_spec(18) == 3523);
        assert(xp_for_level_spec(19) == 3973);
    } else if l == 19 {
        assert(xp_for_level_spec(19) == 3973);
        assert(xp_for_level_spec(20) == 4470);
    } else if l == 20 {
        assert(xp_for_level_spec(20) == 4470);
        assert(xp_for_level_spec(21) == 5018);
    } else if l == 21 {
        assert(xp_for_level_spec(21) == 5018);
        assert(xp_for_level_spec(22) == 5624);
    } else if l == 22 {
        assert(xp_for_level_spec(22) == 5624);
        assert(xp_for_level_spec(23) == 6291);
    } else if l == 23 {
        assert(xp_for_level_spec(23) == 6291);
        assert(xp_for_level_spec(24) == 7028);
    } else if l == 24 {
        assert(xp_for_level_spec(24) == 7028);
        assert(xp_for_level_spec(25) == 7842);
    } else if l == 25 {
        assert(xp_for_level_spec(25) == 7842);
        assert(xp_for_level_spec(26) == 8740);
    } else if l == 26 {
        assert(xp_for_level_spec(26) == 8740);
        assert(xp_for_level_spec(27) == 9730);
    } else if l == 27 {
        assert(xp_for_level_spec(27) == 9730);
        assert(xp_for_level_spec(28) == 10824);
    } else if l == 28 {
        assert(xp_for_level_spec(28) == 10824);
        assert(xp_for_level_spec(29) == 12031);
    } else if l == 29 {
        assert(xp_for_level_spec(29) == 12031);
        assert(xp_for_level_spec(30) == 13363);
    } else if l == 30 {
        assert(xp_for_level_spec(30) == 13363);
        assert(xp_for_level_spec(31) == 14833);
    } else if l == 31 {
        assert(xp_for_level_spec(31) == 14833);
        assert(xp_for_level_spec(32) == 16456);
    } else if l == 32 {
        assert(xp_for_level_spec(32) == 16456);
        assert(xp_for_level_spec(33) == 18247);
    } else if l == 33 {
        assert(xp_for_level_spec(33) == 18247);
        assert(xp_for_level_spec(34) == 20224);
    } else if l == 34 {
        assert(xp_for_level_spec(34) == 20224);
        assert(xp_for_level_spec(35) == 22406);
    } else if l == 35 {
        assert(xp_for_level_spec(35) == 22406);
        assert(xp_for_level_spec(36) == 24815);
    } else if l == 36 {
        assert(xp_for_level_spec(36) == 24815);
        assert(xp_for_level_spec(37) == 27473);
    } else if l == 37 {
        assert(xp_for_level_spec(37) == 27473);
        assert(xp_for_level_spec(38) == 30408);
    } else if l == 38 {
        assert(xp_for_level_spec(38) == 30408);
        assert(xp_for_level_spec(39) == 33648);
    } else if l == 39 {
        assert(xp_for_level_spec(39) == 33648);
        assert(xp_for_level_spec(40) == 37224);
    } else if l == 40 {
        assert(xp_for_level_spec(40) == 37224);
        assert(xp_for_level_spec(41) == 41171);
    } else if l == 41 {
        assert(xp_for_level_spec(41) == 41171);
        assert(xp_for_level_spec(42) == 45529);
    } else if l == 42 {
        assert(xp_for_level_spec(42) == 45529);
        assert(xp_for_level_spec(43) == 50339);
    } else if l == 43 {
        assert(xp_for_level_spec(43) == 50339);
        assert(xp_for_level_spec(44) == 55649);
    } else if l == 44 {
        assert(xp_for_level_spec(44) == 55649);
        assert(xp_for_level_spec(45) == 61512);
    } else if l == 45 {
        assert(xp_for_level_spec(45) == 61512);
        assert(xp_for_level_spec(46) == 67983);
    } else if l == 46 {
        assert(xp_for_level_spec(46) == 67983);
        assert(xp_for_level_spec(47) == 75127);
    } else if l == 47 {
        assert(xp_for_level_spec(47) == 75127);
        assert(xp_for_level_spec(48) == 83014);
    } else if l == 48 {
        assert(xp_for_level_spec(48) == 83014);
        assert(xp_for_level_spec(49) == 91721);
    } else if l == 49 {
        assert(xp_for_level_spec(49) == 91721);
        assert(xp_for_level_spec(50) == 101333);
    } else if l == 50 {
        assert(xp_for_level_spec(50) == 101333);
        assert(xp_for_level_spec(51) == 111945);
    } else if l == 51 {
        assert(xp_for_level_spec(51) == 111945);
        assert(xp_for_level_spec(52) == 123660);
    } else if l == 52 {
        assert(xp_for_level_spec(52) == 123660);
        assert(xp_for_level_spec(53) == 136594);
    } else if l == 53 {
        assert(xp_for_level_spec(53) == 136594);
        assert(xp_for_level_spec(54) == 150872);
    } else if l == 54 {
        assert(xp_for_level_spec(54) == 150872);
        assert(xp_for_level_spec(55) == 166636);
    } else if l == 55 {
        assert(xp_for_level_spec(55) == 166636);
        assert(xp_for_level_spec(56) == 184040);
    } else if l == 56 {
        assert(xp_for_level_spec(56) == 184040);
        assert(xp_for_level_spec(57) == 203254);
    } else if l == 57 {
        assert(xp_for_level_spec(57) == 203254);
        assert(xp_for_level_spec(58) == 224466);
    } else if l == 58 {
        assert(xp_for_level_spec(58) == 224466);
        assert(xp_for_level_spec(59) == 247886);
    } else if l == 59 {
        assert(xp_for_level_spec(59) == 247886);
        assert(xp_for_level_spec(60) == 273742);
    } else if l == 60 {
        assert(xp_for_level_spec(60) == 273742);
        assert(xp_for_level_spec(61) == 302288);
    } else if l == 61 {
        assert(xp_for_level_spec(61) == 302288);
        assert(xp_for_level_spec(62) == 333804);
    } else if l == 62 {
        assert(xp_for_level_spec(62) == 333804);
        assert(xp_for_level_spec(63) == 368599);
    } else if l == 63 {
        assert(xp_for_level_spec(63) == 368599);
        assert(xp_for_level_spec(64) == 407015);
    } else if l == 64 {
        assert(xp_for_level_spec(64) == 407015);
        assert(xp_for_level_spec(65) == 449428);
    } else if l == 65 {
        assert(xp_for_level_spec(65) == 449428);
        assert(xp_for_level_spec(66) == 496254);
    } else if l == 66 {
        assert(xp_for_level_spec(66) == 496254);
        assert(xp_for_level_spec(67) == 547953);
    } else if l == 67 {
        assert(xp_for_level_spec(67) == 547953);
        assert(xp_for_level_spec(68) == 605032);
    } else if l == 68 {
        assert(xp_for_level_spec(68) == 605032);
        assert(xp_for_level_spec(69) == 668051);
    } else if l == 69 {
        assert(xp_for_level_spec(69) == 668051);
        assert(xp_for_level_spec(70) == 737627);
    } else if l == 70 {
        assert(xp_for_level_spec(70) == 737627);
        assert(xp_for_level_spec(71) == 814445);
    } else if l == 71 {
        assert(xp_for_level_spec(71) == 814445);
        assert(xp_for_level_spec(72) == 899257);
    } else if l == 72 {
        assert(xp_for_level_spec(72) == 899257);
        assert(xp_for_level_spec(73) == 992895);
    } else if l == 73 {
        assert(xp_for_level_spec(73) == 992895);
        assert(xp_for_level_spec(74) == 1096278);
    } else if l == 74 {
        assert(xp_for_level_spec(74) == 1096278);
        assert(xp_for_level_spec(75) == 1210421);
    } else if l == 75 {
        assert(xp_for_level_spec(75) == 1210421);
        assert(xp_for_level_spec(76) == 1336443);
    } else if l == 76 {
        assert(xp_for_level_spec(76) == 1336443);
        assert(xp_for_level_spec(77) == 1475581);
    } else if l == 77 {
        assert(xp_for_level_spec(77) == 1475581);
        assert(xp_for_level_spec(78) == 1629200);
    } else if l == 78 {
        assert(xp_for_level_spec(78) == 1629200);
        assert(xp_for_level_spec(79) == 1798808);
    } else if l == 79 {
        assert(xp_for_level_spec(79) == 1798808);
        assert(xp_for_level_spec(80) == 1986068);
    } else if l == 80 {
        assert(xp_for_level_spec(80) == 1986068);
        assert(xp_for_level_spec(81) == 2192818);
    } else if l == 81 {
        assert(xp_for_level_spec(81) == 2192818);
        assert(xp_for_level_spec(82) == 2421087);
    } else if l == 82 {
        assert(xp_for_level_spec(82) == 2421087);
        assert(xp_for_level_spec(83) == 2673114);
    } else if l == 83 {
        assert(xp_for_level_spec(83) == 2673114);
        assert(xp_for_level_spec(84) == 2951373);
    } else if l == 84 {
        assert(xp_for_level_spec(84) == 2951373);
        assert(xp_for_level_spec(85) == 3258594);
    } else if l == 85 {
        assert(xp_for_level_spec(85) == 3258594);
        assert(xp_for_level_spec(86) == 3597792);
    } else if l == 86 {
        assert(xp_for_level_spec(86) == 3597792);
        assert(xp_for_level_spec(87) == 3972294);
    } else if l == 87 {
        assert(xp_for_level_spec(87) == 3972294);
        assert(xp_for_level_spec(88) == 4385776);
    } else if l == 88 {
        assert(xp_for_level_spec(88) == 4385776);
        assert(xp_for_level_spec(89) == 4842295);
    } else if l == 89 {
        assert(xp_for_level_spec(89) == 4842295);
        assert(xp_for_level_spec(90) == 5346332);
    } else if l == 90 {
        assert(xp_for_level_spec(90) == 5346332);
        assert(xp_for_level_spec(91) == 5902831);
    } else if l == 91 {
        assert(xp_for_level_spec(91) == 5902831);
        assert(xp_for_level_spec(92) == 6517253);
    } else if l == 92 {
        assert(xp_for_level_spec(92) == 6517253);
        assert(xp_for_level_spec(93) == 7195629);
    } else if l == 93 {
        assert(xp_for_level_spec(93) == 7195629);
        assert(xp_for_level_spec(94) == 7944614);
    } else if l == 94 {
        assert(xp_for_level_spec(94) == 7944614);
        assert(xp_for_level_spec(95) == 8771558);
    } else if l == 95 {
        assert(xp_for_level_spec(95) == 8771558);
        assert(xp_for_level_spec(96) == 9684577);
    } else if l == 96 {
        assert(xp_for_level_spec(96) == 9684577);
        assert(xp_for_level_spec(97) == 10692629);
    } else if l == 97 {
        assert(xp_for_level_spec(97) == 10692629);
        assert(xp_for_level_spec(98) == 11805606);
    } else if l == 98 {
        assert(xp_for_level_spec(98) == 11805606);
        assert(xp_for_level_spec(99) == 13034431);
    }
}

/// Thresholds never go below the level-1 threshold of 0.
pub proof fn lemma_xp_table_nonneg(l: int)
    ensures
        xp_for_level_spec(l) >= 0,
{
}

/// The experience table is strictly increasing over the modeled levels.
pub proof fn lemma_xp_table_mono(a: int, b: int)
    requires
        1 <= a < b <= 99,
    ensures
        xp_for_level_spec(a) < xp_for_level_spec(b),
    decreases b - a,
{
    if a + 1 == b {
        lemma_xp_table_adjacent(a);
    } else {
        lemma_xp_table_mono(a, b - 1);
        lemma_xp_table_adjacent(b - 1);
    }
}

/// The downward scan that backs `level_from_xp`: the highest level at or
/// below `l` whose threshold does not exceed `xp`, or 1 if none does.
pub open spec fn level_scan(xp: int, l: int) -> int
    decreases l,
{
    if l <= 1 {
        1
    } else if xp_for_level_spec(l) <= xp {
        l
    } else {
        level_scan(xp, l - 1)
    }
}

/// The level that a given amount of experience corresponds to: the highest
/// level in 1..=99 whose threshold does not exceed the experience, with a
/// floor of level 1 (negative experience behaves like 0).
pub open spec fn level_from_xp_spec(xp: int) -> int {
    level_scan(xp, 99)
}

proof fn lemma_level_scan_props(xp: int, l: int)
    requires
        1 <= l <= 99,
    ensures
        1 <= level_scan(xp, l) <= l,
        level_scan(xp, l) > 1 ==> xp_for_level_spec(level_scan(xp, l)) <= xp,
        forall|m: int| level_scan(xp, l) < m <= l ==> xp < xp_for_level_spec(m),
    decreases l,
{
    if l > 1 && xp_for_level_spec(l) > xp {
        lemma_level_scan_props(xp, l - 1);
    }
}

/// What `level_from_xp` returns, stated directly: a level in range whose
/// threshold is met, and below the first threshold that is not.
pub proof fn lemma_level_from_xp_props(xp: int)
    ensures
        1 <= level_from_xp_spec(xp) <= 99,
        xp >= 0 ==> xp_for_level_spec(level_from_xp_spec(xp)) <= xp,
        level_from_xp_spec(xp) < 99 ==> xp < xp_for_level_spec(level_from_xp_spec(xp) + 1),
        xp < 0 ==> level_from_xp_spec(xp) == 1,
{
    lemma_level_scan_props(xp, 99);
    let r = level_from_xp_spec(xp);
    if xp >= 0 && r == 1 {
        assert(xp_for_level_spec(1) == 0);
    }
    if xp < 0 && r > 1 {
        assert(xp_for_level_spec(r) <= xp);
        lemma_xp_table_mono(1, r);
    }
}

/// Converting a level's exact threshold back to a level returns that level.
pub proof fn lemma_level_xp_round_trip(l: int)
    requires
        1 <= l <= 99,
    ensures
        level_from_xp_spec(xp_for_level_spec(l)) == l,
{
    let xp = xp_for_level_spec(l);
    lemma_level_scan_props(xp, 99);
    let r = level_from_xp_spec(xp);
    if r < l {
        assert(xp < xp_for_level_spec(l));
    }
    if r > l {
        lemma_xp_table_mono(l, r);
        lemma_level_scan_props(xp, 99);
        assert(xp_for_level_spec(r) <= xp);
    }
}

/// One experience point below a level's threshold corresponds to the level
/// just beneath it.
pub proof fn lemma_level_one_below_threshold(l: int)
    requires
        2 <= l <= 99,
    ensures
        level_from_xp_spec(xp_for_level_spec(l) - 1) == l - 1,
{
    let xp = xp_for_level_spec(l) - 1;
    lemma_level_scan_props(xp, 99);
    let r = level_from_xp_spec(xp);
    lemma_xp_table_adjacent(l - 1);
    if r >= l {
        assert(xp_for_level_spec(r) <= xp);
        if r > l {
            lemma_xp_table_mono(l, r);
        }
    }
    if r < l - 1 {
        assert(xp < xp_for_level_spec(l - 1));
    }
    if r == 1 && l - 1 > 1 {
        assert(xp < xp_for_level_spec(l - 1));
    }
}

impl Xp {
    /// The exact canonical experience threshold for a level in 1..=99.
    pub fn from_level(level: &Level) -> (r: Xp)
        requires
            1 <= level.0 <= 99,
        ensures
            r.0 == xp_for_level_spec(level.0 as int),
    {
        Xp(xp_threshold(level.0))
    }
}

impl Level {
    /// The highest level whose threshold does not exceed the given
    /// experience, scanning the table from level 99 downward; level 1 if
    /// none qualifies (including for negative experience).
    pub fn from_xp(xp: &Xp) -> (r: Level)
        ensures
            r.0 == level_from_xp_spec(xp.0 as int),
            1 <= r.0 <= 99,
            xp.0 >= 0 ==> xp_for_level_spec(r.0 as int) <= xp.0,
            r.0 < 99 ==> xp.0 < xp_for_level_spec(r.0 + 1),
            xp.0 < 0 ==> r.0 == 1,
    {
        proof {
            lemma_level_from_xp_props(xp.0 as int);
        }
        let mut l: i32 = 99;
        while l >= 2
            invariant
                1 <= l <= 99,
                level_scan(xp.0 as int, 99) == level_scan(xp.0 as int, l as int),
            decreases l,
        {
            if xp_threshold(l) <= xp.0 {
                proof {
                    lemma_level_from_xp_props(xp.0 as int);
                }
                return Level(l);
            }
            l = l - 1;
        }
        proof {
            lemma_level_from_xp_props(xp.0 as int);
        }
        Level(1)
    }
}

/// The level that a given amount of experience corresponds to; never panics
/// and never goes below level 1, even for negative experience.
pub fn level_from_xp(xp: Xp) -> (r: Level)
    ensures
        r.0 == level_from_xp_spec(xp.0 as int),
        1 <= r.0 <= 99,
        xp.0 >= 0 ==> xp_for_level_spec(r.0 as int) <= xp.0,
        r.0 < 99 ==> xp.0 < xp_for_level_spec(r.0 + 1),
        xp.0 < 0 ==> r.0 == 1,
{
    Level::from_xp(&xp)
}

/// The experience still missing before the target level's threshold is
/// reached: zero once the threshold has been passed, never negative. If the
/// exact difference were to exceed the machine range (an extremely negative
/// experience value), the count saturates at the largest representable value.
pub fn xp_til_level(xp: Xp, target_level: &Level) -> (r: Xp)
    requires
        1 <= target_level.0 <= 99,
    ensures
        r.0 >= 0,
        xp.0 >= xp_for_level_spec(target_level.0 as int) ==> r.0 == 0,
        ({
            let diff = xp_for_level_spec(target_level.0 as int) - xp.0;
            r.0 == if diff <= 0 {
                0
            } else if diff <= i64::MAX {
                diff
            } else {
                i64::MAX as int
            }
        }),
{
    let threshold = xp_threshold(target_level.0);
    if xp.0 >= threshold {
        Xp(0)
    } else {
        match threshold.checked_sub(xp.0) {
            Some(diff) => Xp(diff),
            None => Xp(i64::MAX),
        }
    }
}

/// Progress from a starting checkpoint toward a target level, reported as an
/// exact ratio. `Complete` stands for full progress (the current level has
/// already reached the target); otherwise the progress is the fraction
/// `gained / goal`, where `goal` is the target level's threshold and
/// `gained` is the experience earned since the starting level's threshold
/// (since zero when no starting level is given, or when the current level
/// has dropped below the starting checkpoint).
#[derive(Debug, Clone, Copy, PartialEq, Eq, Structural)]
pub enum LevelProgress {
    Complete,
    Toward { gained: Xp, goal: Xp },
}

/// The experience baseline that progress is measured from: the starting
/// level's threshold when one is given and already reached, otherwise 0.
pub open spec fn progress_baseline_spec(xp: int, starting: Option<Level>) -> int {
    match starting {
        Some(s) => {
            if s.0 > level_from_xp_spec(xp) {
                0
            } else {
                xp_for_level_spec(s.0 as int)
            }
        },
        None => 0,
    }
}

/// Progress toward a target level as an exact ratio (see `LevelProgress`).
pub fn progress_towards_level(xp: Xp, target_level: &Level, starting_level: Option<&Level>) -> (r:
    LevelProgress)
    requires
        1 <= target_level.0 <= 99,
        match starting_level {
            Some(s) => 1 <= s.0 <= 99,
            None => true,
        },
    ensures
        level_from_xp_spec(xp.0 as int) >= target_level.0 ==> r == LevelProgress::Complete,
        level_from_xp_spec(xp.0 as int) < target_level.0 ==> {
            &&& r matches LevelProgress::Toward { gained, goal }
            &&& gained.0 == xp.0 - progress_baseline_spec(
                xp.0 as int,
                match starting_level {
                    Some(s) => Some(*s),
                    None => None,
                },
            )
            &&& goal.0 == xp_for_level_spec(target_level.0 as int)
        },
{
    let current_level = level_from_xp(xp);
    if current_level.0 >= target_level.0 {
        return LevelProgress::Complete;
    }
    proof {
        lemma_level_from_xp_props(xp.0 as int);
        lemma_xp_table_nonneg(target_level.0 as int);
    }
    let starting_xp: i64 = match starting_level {
        Some(s) => {
            if s.0 > current_level.0 {
                0
            } else {
                proof {
                    if s.0 > 1 {
                        lemma_xp_table_mono(1, s.0 as int);
                        if s.0 < current_level.0 {
                            lemma_xp_table_mono(s.0 as int, current_level.0 as int);
                        }
                    }
                }
                xp_threshold(s.0)
            }
        },
        None => 0,
    };
    LevelProgress::Toward { gained: Xp(xp.0 - starting_xp), goal: Xp(xp_threshold(target_level.0)) }
}

} // verus!
