//! Regional achievement-diary identifiers. Diaries are modeled as
//! identity-only data: one id per region and difficulty tier, written
//! `"<region>_<difficulty>"`.

use vstd::prelude::*;
use crate::text::str_eq;

verus! {

/// Identifies one region's diary at one difficulty tier.
#[derive(Debug, Clone, Copy)]
pub struct DiaryId(pub &'static str);

impl View for DiaryId {
    type V = Seq<char>;

    open spec fn view(&self) -> Seq<char> {
        self.0@
    }
}

impl PartialEq for DiaryId {
    /// Two diary ids are equal when their names are.
    fn eq(&self, other: &Self) -> (r: bool) {
        str_eq(self.0, other.0)
    }
}

impl vstd::std_specs::cmp::PartialEqSpecImpl for DiaryId {
    open spec fn obeys_eq_spec() -> bool {
        true
    }

    open spec fn eq_spec(&self, other: &Self) -> bool {
        self@ == other@
    }
}

/// The difficulty tiers a regional diary comes in.
#[derive(Debug, Clone, Copy, PartialEq, Eq, Hash, Structural)]
pub enum DiaryDifficulty {
    Easy,
    Medium,
    Hard,
    Elite,
}

/// One diary task. Tasks are not yet modeled beyond their existence.
#[derive(Debug)]
pub struct Task {}

/// One regional diary tier: its id, display name, difficulty and tasks.
#[derive(Debug)]
pub struct Diary {
    pub id: DiaryId,
    pub name: String,
    pub difficulty: DiaryDifficulty,
    pub tasks: Vec<Task>,
}

impl Diary {
    /// A diary with the given identity and no recorded tasks.
    pub fn new(id: DiaryId, name: String, difficulty: DiaryDifficulty) -> (r: Diary)
        ensures
            r.id == id,
            r.name == name,
            r.difficulty == difficulty,
            r.tasks@.len() == 0,
    {
        Diary { id, name, difficulty, tasks: Vec::new() }
    }

    /// This diary's id.
    pub fn id(&self) -> (r: DiaryId)
        ensures
            r == self.id,
    {
        self.id
    }
}

} // verus!
