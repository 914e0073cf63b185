use vstd::prelude::*;

verus! {

/// Every failure the engine can report. All of them are values; none aborts the process.
#[derive(Debug, Clone, PartialEq, Eq)]
pub enum EngineError {
    /// A loadout request did not name exactly three tools.
    InvalidSlotCount,
    /// A loadout named a tool that the registry does not know.
    UnknownTool(String),
    /// A loadout named a tool that the profile has not unlocked.
    ToolLocked(String),
    /// The first tool cannot be combined with the second, already accepted one.
    IncompatibleTools(String, String),
    /// An experimental run was requested without a loadout.
    LoadoutRequired,
    /// A stored profile carries a schema version newer than the supported one.
    SchemaTooNew(u32),
    /// A collision was reported for a run that has already ended.
    AlreadyEnded,
    /// Every cell of the board is occupied, so no respawn cell exists.
    NoSafeRespawn,
    /// The loadout of a run cannot change while the run is in progress.
    LoadoutImmutable,
}

} // verus!
