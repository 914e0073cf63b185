use vstd::prelude::*;

use crate::error::EngineError;
use crate::tools::{id_before, ids_ascending, ToolDefinition, ToolRegistry};

verus! {

/// The profile schema version this library reads and writes.
pub const CURRENT_SCHEMA_VERSION: u32 = 2;

/// The unlock thresholds the engine uses unless told otherwise.
pub const DEFAULT_THRESHOLDS: [u64; 4] = [15, 40, 80, 140];

/// A profile as older versions stored it.
#[derive(Debug, Clone, PartialEq, Eq)]
pub struct LegacyProfile {
    pub best_score: u64,
    pub replay_on_death: Option<bool>,
    pub schema_version: Option<u32>,
}

/// Per-player progression and settings.
#[derive(Debug, Clone, PartialEq, Eq)]
pub struct Profile {
    pub schema_version: u32,
    pub replay_on_death: bool,
    pub invincible_cumulative_length: u64,
    /// Ids of the unlocked tools, in catalog order, each once.
    pub unlocked_tool_ids: Vec<String>,
    pub old_best_score: Option<u64>,
}

impl Default for Profile {
    fn default() -> (r: Self)
        ensures
            r.schema_version == CURRENT_SCHEMA_VERSION,
            !r.replay_on_death,
            r.invincible_cumulative_length == 0,
            r.unlocked_tool_ids@.len() == 0,
            r.old_best_score.is_none(),
    {
        Profile {
            schema_version: CURRENT_SCHEMA_VERSION,
            replay_on_death: false,
            invincible_cumulative_length: 0,
            unlocked_tool_ids: Vec::new(),
            old_best_score: None,
        }
    }
}

/// Whether `d` is unlocked by a cumulative length of `length` under `thresholds`: its
/// threshold is one of `thresholds` and `length` has reached it.
pub open spec fn unlock_qualifies(d: ToolDefinition, thresholds: Seq<u64>, length: u64) -> bool {
    match d.unlock_threshold {
        Some(t) => thresholds.contains(t) && length >= t,
        None => false,
    }
}

/// The ids of the definitions in `defs` that qualify, in order.
pub open spec fn unlocked_ids(defs: Seq<ToolDefinition>, thresholds: Seq<u64>, length: u64) -> Seq<String>
    decreases defs.len(),
{
    if defs.len() == 0 {
        Seq::empty()
    } else {
        let prev = unlocked_ids(defs.drop_last(), thresholds, length);
        if unlock_qualifies(defs.last(), thresholds, length) {
            prev.push(defs.last().id)
        } else {
            prev
        }
    }
}

/// Every unlocked id is the id of one of `defs`.
proof fn lemma_unlocked_from_defs(defs: Seq<ToolDefinition>, thresholds: Seq<u64>, length: u64)
    ensures
        forall|x: int|
            0 <= x < unlocked_ids(defs, thresholds, length).len() ==> exists|k: int|
                0 <= k < defs.len() && #[trigger] unlocked_ids(defs, thresholds, length)[x] == defs[k].id,
    decreases defs.len(),
{
    if defs.len() > 0 {
        let prev = defs.drop_last();
        lemma_unlocked_from_defs(prev, thresholds, length);
        let u = unlocked_ids(defs, thresholds, length);
        let pu = unlocked_ids(prev, thresholds, length);
        assert forall|x: int| 0 <= x < u.len() implies exists|k: int|
            0 <= k < defs.len() && #[trigger] u[x] == defs[k].id by {
            if x < pu.len() {
                assert(u[x] == pu[x]);
                let k = choose|k: int| 0 <= k < prev.len() && pu[x] == prev[k].id;
                assert(defs[k] == prev[k]);
            } else {
                assert(u[x] == defs[defs.len() - 1].id);
            }
        }
    }
}

/// With the catalog's ids strictly ascending, the unlocked ids are strictly ascending too,
/// so each is unlocked once.
pub proof fn lemma_unlocked_ascending(defs: Seq<ToolDefinition>, thresholds: Seq<u64>, length: u64)
    requires
        ids_ascending(defs),
    ensures
        ({
            let u = unlocked_ids(defs, thresholds, length);
            forall|i: int, j: int| 0 <= i < j < u.len() ==> id_before(#[trigger] u[i]@, #[trigger] u[j]@)
        }),
    decreases defs.len(),
{
    if defs.len() > 0 {
        let n = defs.len() - 1;
        let prev = defs.drop_last();
        assert forall|a: int, b: int| 0 <= a < b < prev.len() implies id_before(
            #[trigger] prev[a].id@,
            #[trigger] prev[b].id@,
        ) by {
            assert(prev[a] == defs[a] && prev[b] == defs[b]);
        }
        lemma_unlocked_ascending(prev, thresholds, length);
        lemma_unlocked_from_defs(prev, thresholds, length);
        let u = unlocked_ids(defs, thresholds, length);
        let pu = unlocked_ids(prev, thresholds, length);
        assert forall|i: int, j: int| 0 <= i < j < u.len() implies id_before(#[trigger] u[i]@, #[trigger] u[j]@) by {
            if j < pu.len() {
                assert(u[i] == pu[i] && u[j] == pu[j]);
            } else {
                assert(u[i] == pu[i]);
                let k = choose|k: int| 0 <= k < prev.len() && #[trigger] pu[i] == prev[k].id;
                assert(defs[k] == prev[k]);
                assert(u[j] == defs[n].id);
                assert(id_before(defs[k].id@, defs[n].id@));
            }
        }
    }
}

/// The profile that a migration of `p` yields when it succeeds.
pub open spec fn migrated(p: Profile, r: Profile) -> bool {
    &&& r.schema_version == CURRENT_SCHEMA_VERSION
    &&& r.replay_on_death == (p.replay_on_death && p.schema_version >= 1)
    &&& r.invincible_cumulative_length == p.invincible_cumulative_length
    &&& r.unlocked_tool_ids == p.unlocked_tool_ids
    &&& r.old_best_score == p.old_best_score
}

fn contains_u64(values: &[u64], v: u64) -> (r: bool)
    ensures
        r == values@.contains(v),
{
    let mut i: usize = 0;
    while i < values.len()
        invariant
            i <= values@.len(),
            forall|j: int| 0 <= j < i ==> values@[j] != v,
        decreases values@.len() - i,
    {
        if values[i] == v {
            return true;
        }
        i = i + 1;
    }
    false
}

impl Profile {
    /// Converts a legacy profile: a missing version reads as 1, a missing replay flag as
    /// false, and the best score is kept as `old_best_score`.
    pub fn from_legacy(legacy: LegacyProfile) -> (r: Result<Self, EngineError>)
        ensures
            ({
                let v = match legacy.schema_version {
                    Some(v) => v,
                    None => 1u32,
                };
                let flag = match legacy.replay_on_death {
                    Some(b) => b,
                    None => false,
                };
                if v > CURRENT_SCHEMA_VERSION {
                    r == Err::<Profile, EngineError>(EngineError::SchemaTooNew(v))
                } else {
                    &&& r is Ok
                    &&& r->Ok_0.schema_version == CURRENT_SCHEMA_VERSION
                    &&& r->Ok_0.replay_on_death == (flag && v >= 1)
                    &&& r->Ok_0.invincible_cumulative_length == 0
                    &&& r->Ok_0.unlocked_tool_ids@.len() == 0
                    &&& r->Ok_0.old_best_score == Some(legacy.best_score)
                }
            }),
    {
        let mut profile = Profile::default();
        profile.schema_version = match legacy.schema_version {
            Some(v) => v,
            None => 1,
        };
        if profile.schema_version > CURRENT_SCHEMA_VERSION {
            return Err(EngineError::SchemaTooNew(profile.schema_version));
        }
        profile.replay_on_death = match legacy.replay_on_death {
            Some(b) => b,
            None => false,
        };
        profile.old_best_score = Some(legacy.best_score);
        migrate_profile(profile)
    }

    /// The relation between a profile before and after `apply_threshold_unlocks`.
    pub open spec fn unlocks_applied(self, before: Profile, registry: ToolRegistry, thresholds: Seq<u64>) -> bool {
        &&& self.unlocked_tool_ids@ == unlocked_ids(
            registry.defs(),
            thresholds,
            before.invincible_cumulative_length,
        )
        &&& self.schema_version == before.schema_version
        &&& self.replay_on_death == before.replay_on_death
        &&& self.invincible_cumulative_length == before.invincible_cumulative_length
        &&& self.old_best_score == before.old_best_score
    }

    /// Recomputes the unlocked set from scratch: a tool is unlocked when its threshold is
    /// one of `thresholds` and the cumulative length has reached it.
    pub fn apply_threshold_unlocks(&mut self, registry: &ToolRegistry, thresholds: &[u64])
        ensures
            final(self).unlocks_applied(*old(self), *registry, thresholds@),
            registry.wf() ==> forall|i: int, j: int|
                0 <= i < j < final(self).unlocked_tool_ids@.len() ==> id_before(
                    #[trigger] final(self).unlocked_tool_ids@[i]@,
                    #[trigger] final(self).unlocked_tool_ids@[j]@,
                ),
    {
        proof {
            if registry.wf() {
                lemma_unlocked_ascending(registry.defs(), thresholds@, self.invincible_cumulative_length);
            }
        }
        let defs = registry.list();
        let mut next: Vec<String> = Vec::new();
        let mut i: usize = 0;
        while i < defs.len()
            invariant
                defs@ == registry.defs(),
                i <= defs@.len(),
                next@ == unlocked_ids(defs@.take(i as int), thresholds@, self.invincible_cumulative_length),
            decreases defs@.len() - i,
        {
            assert(defs@.take(i + 1).drop_last() =~= defs@.take(i as int));
            let tool = &defs[i];
            match tool.unlock_threshold {
                Some(t) => {
                    if contains_u64(thresholds, t) && self.invincible_cumulative_length >= t {
                        next.push(tool.id.clone());
                    }
                },
                None => {},
            }
            i = i + 1;
        }
        assert(defs@.take(defs@.len() as int) =~= defs@);
        self.unlocked_tool_ids = next;
    }
}

/// Raises a profile to the current schema. A replay flag is kept only where the source
/// schema was at least 1; a profile newer than supported is refused.
pub fn migrate_profile(profile: Profile) -> (r: Result<Profile, EngineError>)
    ensures
        profile.schema_version > CURRENT_SCHEMA_VERSION ==> r == Err::<Profile, EngineError>(
            EngineError::SchemaTooNew(profile.schema_version),
        ),
        profile.schema_version <= CURRENT_SCHEMA_VERSION ==> r is Ok && migrated(profile, r->Ok_0),
{
    let mut profile = profile;
    if profile.schema_version > CURRENT_SCHEMA_VERSION {
        return Err(EngineError::SchemaTooNew(profile.schema_version));
    }
    if profile.schema_version < CURRENT_SCHEMA_VERSION {
        profile.replay_on_death = profile.replay_on_death && profile.schema_version >= 1;
        profile.schema_version = CURRENT_SCHEMA_VERSION;
    }
    Ok(profile)
}

/// Applying the unlocks a second time, with the cumulative length unchanged, yields the
/// same unlocked set as the first time.
pub proof fn lemma_unlocks_idempotent(
    registry: ToolRegistry,
    thresholds: Seq<u64>,
    start: Profile,
    once: Profile,
    twice: Profile,
)
    requires
        once.unlocks_applied(start, registry, thresholds),
        twice.unlocks_applied(once, registry, thresholds),
    ensures
        twice.unlocked_tool_ids@ == once.unlocked_tool_ids@,
{
}

} // verus!
