//! Static game-content catalogs.

pub mod quests;
