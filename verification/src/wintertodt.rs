//! The Wintertodt encounter's damage formulas: isolated integer arithmetic
//! over a fighter's levels, warm clothing and lit braziers.

use vstd::prelude::*;
use vstd::arithmetic::div_mod::{lemma_div_nonincreasing, lemma_div_pos_is_pos};

verus! {

/// Truncating division (rounding toward zero), for a positive divisor.
pub open spec fn trunc_div(a: int, b: int) -> int {
    if a >= 0 {
        a / b
    } else {
        ((a * -1) / b) * -1
    }
}

/// For a positive divisor, truncating division never grows the
/// numerator's magnitude.
proof fn lemma_trunc_div_bound(a: int, b: int)
    requires
        b >= 1,
    ensures
        a >= 0 ==> 0 <= trunc_div(a, b) <= a,
        a < 0 ==> a <= trunc_div(a, b) <= 0,
{
    if a >= 0 {
        lemma_div_pos_is_pos(a, b);
        lemma_div_nonincreasing(a, b);
    } else {
        lemma_div_pos_is_pos(a * -1, b);
        lemma_div_nonincreasing(a * -1, b);
    }
}

/// The state the damage formulas read: the fighter's firemaking and
/// hitpoints levels, how many warm items are worn and how many of the
/// four braziers are lit.
#[derive(Debug, Clone, Copy, PartialEq, Eq, Structural)]
pub struct Wintertodt {
    pub firemaking_level: i32,
    pub hitpoints_level: i32,
    pub warm_items_worn: i32,
    pub braziers_lit: i32,
}

/// The bounds under which the formulas are defined: a present firemaking
/// level, and counts small enough that the arithmetic stays in range.
pub open spec fn wintertodt_in_range(w: Wintertodt) -> bool {
    &&& 1 <= w.firemaking_level <= 10000
    &&& 0 <= w.hitpoints_level <= 10000
    &&& 0 <= w.warm_items_worn <= 10000
    &&& 0 <= w.braziers_lit <= 10000
}

/// The damage-reduction term that worn warm items contribute.
pub open spec fn warm_items_mitigation_spec(w: Wintertodt) -> int {
    if w.warm_items_worn >= 4 {
        w.warm_items_worn as int
    } else {
        4
    }
}

/// The damage-reduction term that lit braziers contribute.
pub open spec fn lit_braziers_mitigation_spec(w: Wintertodt) -> int {
    if w.braziers_lit >= 3 {
        w.braziers_lit as int
    } else {
        3
    }
}

/// Damage of the standard attack: the base of sixteen less both
/// mitigation terms (braziers counted twice), scaled by hitpoints and
/// divided by the firemaking level.
pub open spec fn standard_attack_damage_spec(w: Wintertodt) -> int {
    trunc_div(
        (16 - warm_items_mitigation_spec(w) - 2 * lit_braziers_mitigation_spec(w)) * (
        w.hitpoints_level + 1),
        w.firemaking_level as int,
    )
}

/// Damage of the brazier attack: the base of ten less the warm-item
/// mitigation, scaled by hitpoints and doubled, divided by the firemaking
/// level.
pub open spec fn brazier_attack_damage_spec(w: Wintertodt) -> int {
    trunc_div(
        (10 - warm_items_mitigation_spec(w)) * (w.hitpoints_level + 1) * 2,
        w.firemaking_level as int,
    )
}

/// Damage of the area attack: as the brazier attack, but tripled instead
/// of doubled.
pub open spec fn area_attack_damage_spec(w: Wintertodt) -> int {
    trunc_div(
        (10 - warm_items_mitigation_spec(w)) * (w.hitpoints_level + 1) * 3,
        w.firemaking_level as int,
    )
}

impl Wintertodt {
    /// The warm-item mitigation term: the worn count, at least four.
    pub fn warm_items_mitigation(&self) -> (r: i32)
        ensures
            r == warm_items_mitigation_spec(*self),
    {
        if self.warm_items_worn >= 4 {
            self.warm_items_worn
        } else {
            4
        }
    }

    /// The lit-brazier mitigation term: the lit count, at least three.
    pub fn lit_braziers_mitigation(&self) -> (r: i32)
        ensures
            r == lit_braziers_mitigation_spec(*self),
    {
        if self.braziers_lit >= 3 {
            self.braziers_lit
        } else {
            3
        }
    }

    /// Damage taken from the standard attack.
    pub fn standard_attack_damage(&self) -> (r: i32)
        requires
            wintertodt_in_range(*self),
        ensures
            r == standard_attack_damage_spec(*self),
    {
        let factor = 16 - self.warm_items_mitigation() - 2 * self.lit_braziers_mitigation();
        proof {
            let m = factor as int;
            let h = self.hitpoints_level + 1;
            assert(-310000000 <= m * h && m * h <= 310000000) by (nonlinear_arith)
                requires
                    -30004 <= m <= 6,
                    1 <= h <= 10001,
            ;
        }
        let numerator = factor * (self.hitpoints_level + 1);
        match numerator.checked_div(self.firemaking_level) {
            Some(v) => v,
            None => 0,
        }
    }

    /// Damage taken from standing next to a brazier that explodes.
    pub fn brazier_attack_damage(&self) -> (r: i32)
        requires
            wintertodt_in_range(*self),
        ensures
            r == brazier_attack_damage_spec(*self),
    {
        let factor = 10 - self.warm_items_mitigation();
        proof {
            let m = factor as int;
            let h = self.hitpoints_level + 1;
            assert(-310000000 <= m * h && m * h <= 310000000) by (nonlinear_arith)
                requires
                    -9990 <= m <= 6,
                    1 <= h <= 10001,
            ;
        }
        let numerator = factor * (self.hitpoints_level + 1) * 2;
        match numerator.checked_div(self.firemaking_level) {
            Some(v) => v,
            None => 0,
        }
    }

    /// Damage taken from the area attack.
    pub fn area_attack_damage(&self) -> (r: i32)
        requires
            wintertodt_in_range(*self),
        ensures
            r == area_attack_damage_spec(*self),
    {
        let factor = 10 - self.warm_items_mitigation();
        proof {
            let m = factor as int;
            let h = self.hitpoints_level + 1;
            assert(-310000000 <= m * h && m * h <= 310000000) by (nonlinear_arith)
                requires
                    -9990 <= m <= 6,
                    1 <= h <= 10001,
            ;
        }
        let numerator = factor * (self.hitpoints_level + 1) * 3;
        match numerator.checked_div(self.firemaking_level) {
            Some(v) => v,
            None => 0,
        }
    }
}

} // verus!
