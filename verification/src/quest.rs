//! Quest identities and the quest entity model: point values, requirement
//! sets and reward lists.

use vstd::prelude::*;
use vstd::string::StringExecFns;
use crate::{Level, Xp};
use crate::skill::Skill;
use crate::text::str_eq;

verus! {

/// Identifies a quest by its canonical snake_case name.
#[derive(Debug)]
pub struct QuestId(String);

impl View for QuestId {
    type V = Seq<char>;

    closed spec fn view(&self) -> Seq<char> {
        self.0@
    }
}

impl QuestId {
    /// A quest id with the given name.
    pub fn new(name: &str) -> (r: QuestId)
        ensures
            r@ == name@,
    {
        QuestId(String::from_str(name))
    }

    /// A quest id from a string literal; behaves exactly like `new` and is
    /// kept as the spelling for compile-time-known names.
    pub fn new_static(name: &'static str) -> (r: QuestId)
        ensures
            r@ == name@,
    {
        QuestId(String::from_str(name))
    }

    /// The id's name.
    pub fn as_str(&self) -> (r: &str)
        ensures
            r@ == self@,
    {
        self.0.as_str()
    }
}

impl Clone for QuestId {
    /// An identical copy of the id.
    fn clone(&self) -> (r: Self)
        ensures
            r@ == self@,
    {
        QuestId(self.0.clone())
    }
}

impl PartialEq for QuestId {
    /// Two ids are equal when their names are.
    fn eq(&self, other: &Self) -> (r: bool) {
        str_eq(self.0.as_str(), other.0.as_str())
    }
}

impl vstd::std_specs::cmp::PartialEqSpecImpl for QuestId {
    open spec fn obeys_eq_spec() -> bool {
        true
    }

    open spec fn eq_spec(&self, other: &Self) -> bool {
        self@ == other@
    }
}

/// One prerequisite of a quest: a skill level to have reached, a quest to
/// have completed, or a cumulative quest-point total to hold.
#[derive(Debug)]
pub enum QuestRequirement {
    Skill { skill: Skill, level: Level },
    Quest(QuestId),
    QuestPoints(u16),
}

/// Whether two requirements say the same thing. Requirement lists are kept
/// free of such duplicates.
pub open spec fn req_like(a: QuestRequirement, b: QuestRequirement) -> bool {
    match (a, b) {
        (
            QuestRequirement::Skill { skill: s1, level: l1 },
            QuestRequirement::Skill { skill: s2, level: l2 },
        ) => s1 == s2 && l1 == l2,
        (QuestRequirement::Quest(q1), QuestRequirement::Quest(q2)) => q1@ == q2@,
        (QuestRequirement::QuestPoints(p1), QuestRequirement::QuestPoints(p2)) => p1 == p2,
        _ => false,
    }
}

/// One reward granted on completing a quest. Experience is recorded in
/// whole points; the few rewards the game defines with a fractional part
/// are rounded to the nearest point.
#[derive(Debug)]
pub enum QuestReward {
    Xp { skill: Skill, xp: Xp },
}

/// A quest: its identity, display name, quest-point value, prerequisites
/// and rewards. Requirements keep their insertion order and hold no
/// duplicates; rewards are an ordered list.
#[derive(Debug)]
pub struct Quest {
    pub id: QuestId,
    pub name: String,
    pub quest_points: u8,
    pub requirements: Vec<QuestRequirement>,
    pub rewards: Vec<QuestReward>,
}

impl Quest {
    /// A well-formed quest repeats no requirement.
    pub open spec fn wf(&self) -> bool {
        forall|i: int, j: int|
            0 <= i < j < self.requirements@.len() ==> !req_like(
                self.requirements@[i],
                self.requirements@[j],
            )
    }
}

/// The error a lookup of an unknown quest id returns; carries that id.
#[derive(Debug)]
pub struct QuestNotFoundError(pub QuestId);

impl QuestNotFoundError {
    /// A human-readable description naming the unknown id.
    pub fn message(&self) -> (r: String)
        ensures
            r@ == "quest not found: QuestId(\""@ + self.0@ + "\")"@,
    {
        let mut out = String::from_str("quest not found: QuestId(\"");
        out.append(self.0.as_str());
        out.append("\")");
        out
    }
}

} // verus!
