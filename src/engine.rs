use vstd::prelude::*;

use crate::error::EngineError;
use crate::leaderboard::{insert_pos, LeaderboardEntry, Leaderboards};
use crate::policy::{
    effects_from_loadout, effects_of, outcome_of, policy_for, score_of, ActiveEffects,
    CollisionOutcome, GameMode, ModePolicy, RunEnd, RunMetrics,
};
use crate::profile::{
    migrate_profile, unlocked_ids, Profile, CURRENT_SCHEMA_VERSION, DEFAULT_THRESHOLDS,
};
use crate::tools::{ids_of, summary_text, ToolLoadout, ToolRegistry};

verus! {

/// The size of the playing field, in cells.
#[derive(Debug, Clone, Copy, PartialEq, Eq, Structural)]
pub struct Board {
    pub width: i32,
    pub height: i32,
}

/// A cell of the board.
#[derive(Debug, Clone, Copy, PartialEq, Eq, Structural, Hash)]
pub struct Point {
    pub x: i32,
    pub y: i32,
}

/// Whether `p` lies on `board`.
pub open spec fn in_bounds(p: Point, board: Board) -> bool {
    0 <= p.x < board.width && 0 <= p.y < board.height
}

/// Whether `q` comes before `p` in a row-major scan.
pub open spec fn row_major_before(q: Point, p: Point) -> bool {
    q.y < p.y || (q.y == p.y && q.x < p.x)
}

/// Every cell of `board` is occupied by `body`.
pub open spec fn board_full(board: Board, body: Seq<Point>) -> bool {
    forall|q: Point| in_bounds(q, board) ==> body.contains(q)
}

/// `p` is the first cell of `board`, in row-major order, that `body` does not occupy.
pub open spec fn first_free_cell(board: Board, body: Seq<Point>, p: Point) -> bool {
    &&& in_bounds(p, board)
    &&& !body.contains(p)
    &&& forall|q: Point| in_bounds(q, board) && row_major_before(q, p) ==> body.contains(q)
}

/// `p` is the cell a reposition chooses for `desired`: `desired` itself when it is on the
/// board and free, else the first free cell in row-major order.
pub open spec fn respawn_choice(board: Board, body: Seq<Point>, desired: Point, p: Point) -> bool {
    if in_bounds(desired, board) && !body.contains(desired) {
        p == desired
    } else {
        first_free_cell(board, body, p)
    }
}

impl Point {
    /// Whether this cell lies on `board`.
    pub fn within(self, board: Board) -> (r: bool)
        ensures
            r == in_bounds(self, board),
    {
        self.x >= 0 && self.y >= 0 && self.x < board.width && self.y < board.height
    }
}

/// Whether `body` holds the cell `p`.
pub fn body_contains(body: &[Point], p: Point) -> (r: bool)
    ensures
        r == body@.contains(p),
{
    let mut i: usize = 0;
    while i < body.len()
        invariant
            i <= body@.len(),
            forall|j: int| 0 <= j < i ==> body@[j] != p,
        decreases body@.len() - i,
    {
        if body[i] == p {
            return true;
        }
        i = i + 1;
    }
    false
}

/// The state of one run in progress.
#[derive(Debug, Clone, PartialEq, Eq)]
pub struct GameRun {
    pub mode: GameMode,
    pub board: Board,
    /// Body cells, head first.
    pub snake: Vec<Point>,
    pub metrics: RunMetrics,
    pub ended: bool,
    pub show_replay: bool,
    pub grace_ticks_remaining: u8,
    pub active_loadout: Option<ToolLoadout>,
    pub effects: ActiveEffects,
}

/// The three cells a run starts with, head first.
pub open spec fn start_body() -> Seq<Point> {
    seq![Point { x: 5, y: 5 }, Point { x: 4, y: 5 }, Point { x: 3, y: 5 }]
}

/// `run` is a freshly started run of `mode` on `board`.
pub open spec fn fresh_run(run: GameRun, mode: GameMode, board: Board) -> bool {
    &&& run.mode == mode
    &&& run.board == board
    &&& run.snake@ == start_body()
    &&& run.metrics == (RunMetrics { food_eaten: 0, growth_units: 0, survival_ticks: 0 })
    &&& !run.ended
    &&& !run.show_replay
    &&& run.grace_ticks_remaining == 0
    &&& run.effects == effects_of(run.active_loadout)
}

/// `after` is `before` one simulation step later: one more survival tick (saturating) and
/// a pending grace tick used up; nothing else changes.
pub open spec fn ticked(before: GameRun, after: GameRun) -> bool {
    after == (GameRun {
        metrics: RunMetrics {
            survival_ticks: before.metrics.survival_ticks.saturating_add(1),
            ..before.metrics
        },
        grace_ticks_remaining: if before.grace_ticks_remaining > 0 {
            (before.grace_ticks_remaining - 1) as u8
        } else {
            0
        },
        ..before
    })
}

/// How a collision reported with respawn candidate `candidate` leaves a run, and what it
/// returns, when the profile's replay setting is `replay_on_death`.
pub open spec fn collision_resolved(
    replay_on_death: bool,
    before: GameRun,
    after: GameRun,
    candidate: Point,
    r: Result<(), EngineError>,
) -> bool {
    if before.ended {
        r == Err::<(), EngineError>(EngineError::AlreadyEnded) && after == before
    } else if outcome_of(before.mode) == CollisionOutcome::Die {
        r is Ok && after == (GameRun { ended: true, show_replay: replay_on_death, ..before })
    } else if board_full(before.board, before.snake@) && !(in_bounds(candidate, before.board)
        && !before.snake@.contains(candidate)) {
        r == Err::<(), EngineError>(EngineError::NoSafeRespawn) && after == before
    } else {
        &&& r is Ok
        &&& after.snake@.len() == before.snake@.len()
        &&& before.snake@.len() > 0 ==> respawn_choice(
            before.board,
            before.snake@,
            candidate,
            after.snake@[0],
        ) && after.snake@ == before.snake@.update(0, after.snake@[0])
        &&& after == (GameRun { snake: after.snake, grace_ticks_remaining: 1, ..before })
    }
}

impl GameRun {
    /// One simulation step passes: survival ticks grow by one (saturating) and a pending
    /// grace tick is used up.
    pub fn tick(&mut self)
        ensures
            ticked(*old(self), *final(self)),
    {
        self.metrics.survival_ticks = self.metrics.survival_ticks.saturating_add(1);
        if self.grace_ticks_remaining > 0 {
            self.grace_ticks_remaining = self.grace_ticks_remaining - 1;
        }
    }

    /// One food item is eaten, worth `growth` growth units; both counters saturate.
    pub fn add_food(&mut self, growth: u64)
        ensures
            final(self).metrics.food_eaten == old(self).metrics.food_eaten.saturating_add(1),
            final(self).metrics.growth_units == old(self).metrics.growth_units.saturating_add(growth),
            final(self).metrics.survival_ticks == old(self).metrics.survival_ticks,
            final(self).grace_ticks_remaining == old(self).grace_ticks_remaining,
            final(self).mode == old(self).mode,
            final(self).board == old(self).board,
            final(self).snake == old(self).snake,
            final(self).ended == old(self).ended,
            final(self).show_replay == old(self).show_replay,
            final(self).active_loadout == old(self).active_loadout,
            final(self).effects == old(self).effects,
    {
        self.metrics.food_eaten = self.metrics.food_eaten.saturating_add(1);
        self.metrics.growth_units = self.metrics.growth_units.saturating_add(growth);
    }

    /// The loadout the run started with, if any.
    pub fn runtime_loadout(&self) -> (r: Option<&ToolLoadout>)
        ensures
            r.is_some() == self.active_loadout.is_some(),
            r.is_some() ==> *r.unwrap() == self.active_loadout.unwrap(),
    {
        match &self.active_loadout {
            Some(l) => Some(l),
            None => None,
        }
    }

    /// A loadout cannot change during a run: this always fails and changes nothing.
    pub fn update_runtime_loadout(&mut self, new_loadout: ToolLoadout) -> (r: Result<(), EngineError>)
        ensures
            r == Err::<(), EngineError>(EngineError::LoadoutImmutable),
            *final(self) == *old(self),
    {
        Err(EngineError::LoadoutImmutable)
    }
}

/// Owner of the profile, the leaderboards and the tool catalog.
#[derive(Debug, Clone)]
pub struct GameEngine {
    pub profile: Profile,
    pub leaderboards: Leaderboards,
    pub registry: ToolRegistry,
    pub thresholds: Vec<u64>,
    pub board: Board,
}

/// The unlock thresholds of `DEFAULT_THRESHOLDS`, as a sequence.
pub open spec fn default_thresholds() -> Seq<u64> {
    seq![15u64, 40, 80, 140]
}

/// `e` is the leaderboard entry that finishing `run` submits.
pub open spec fn entry_of_run(run: GameRun, e: LeaderboardEntry) -> bool {
    &&& e.mode == run.mode
    &&& e.score == score_of(run.mode, run.metrics, run.effects)
    &&& e.survival_ticks == run.metrics.survival_ticks
    &&& e.loadout_summary@ == match run.active_loadout {
        Some(l) => summary_text(l.slots@),
        None => "none"@,
    }
}

/// `r` is the engine that `GameEngine::new(profile)` builds: the profile migrated (or the
/// default one where migration fails) with unlocks recomputed, empty leaderboards, the demo
/// catalog, the default thresholds and a 12 x 12 board.
pub open spec fn fresh_engine(profile: Profile, r: GameEngine) -> bool {
    &&& (r.registry.is_demo())
    &&& (r.thresholds@ == default_thresholds())
    &&& (r.board == (Board { width: 12, height: 12 }))
    &&& (forall|m: GameMode| (#[trigger] r.leaderboards.rows_of(m)).len() == 0)
    &&& (({
            let ok = profile.schema_version <= CURRENT_SCHEMA_VERSION;
            let length = if ok {
                profile.invincible_cumulative_length
            } else {
                0
            };
            &&& r.profile.schema_version == CURRENT_SCHEMA_VERSION
            &&& r.profile.replay_on_death == (ok && profile.replay_on_death
                && profile.schema_version >= 1)
            &&& r.profile.invincible_cumulative_length == length
            &&& r.profile.old_best_score == if ok {
                profile.old_best_score
            } else {
                None
            }
            &&& r.profile.unlocked_tool_ids@ == unlocked_ids(
                r.registry.defs(),
                default_thresholds(),
                length,
            )
        }))
}

/// What recording the finished `run` does to the engine: the leaderboard entry of the run
/// goes to its mode's board at its ranked place, an Invincible run adds its growth to the
/// cumulative length and recomputes the unlocks, and nothing else changes.
pub open spec fn run_recorded(before: GameEngine, after: GameEngine, run: GameRun) -> bool {
    &&& (after.registry == before.registry)
    &&& (after.thresholds == before.thresholds)
    &&& (after.board == before.board)
    &&& (after.profile.schema_version == before.profile.schema_version)
    &&& (after.profile.replay_on_death == before.profile.replay_on_death)
    &&& (after.profile.old_best_score == before.profile.old_best_score)
    &&& (run.mode == GameMode::Invincible ==> {
            &&& after.profile.invincible_cumulative_length == before.profile.invincible_cumulative_length.saturating_add(run.metrics.growth_units)
            &&& after.profile.unlocked_tool_ids@ == unlocked_ids(
                before.registry.defs(),
                before.thresholds@,
                after.profile.invincible_cumulative_length,
            )
        })
    &&& (run.mode != GameMode::Invincible ==> after.profile == before.profile)
    &&& (exists|e: LeaderboardEntry|
            entry_of_run(run, e) && #[trigger] after.leaderboards.rows_of(run.mode)
                == before.leaderboards.rows_of(run.mode).insert(
                insert_pos(run.mode, before.leaderboards.rows_of(run.mode), e) as int,
                e,
            ))
    &&& (forall|m: GameMode|
            m != run.mode ==> #[trigger] after.leaderboards.rows_of(m) == before.leaderboards.rows_of(m))
}

impl GameEngine {
    /// The engine's own invariant: its leaderboards are ranked and its catalog is ordered.
    pub open spec fn wf(self) -> bool {
        &&& self.leaderboards.wf()
        &&& self.registry.wf()
    }

    /// An engine over `profile`, migrated to the current schema (or the default profile
    /// where migration fails), with unlocks recomputed, empty leaderboards, the demo catalog,
    /// the default thresholds and a 12 x 12 board.
    pub fn new(profile: Profile) -> (r: Self)
        ensures
            r.wf(),
            fresh_engine(profile, r),
    {
        let registry = ToolRegistry::demo();
        let mut thresholds: Vec<u64> = Vec::new();
        thresholds.push(DEFAULT_THRESHOLDS[0]);
        thresholds.push(DEFAULT_THRESHOLDS[1]);
        thresholds.push(DEFAULT_THRESHOLDS[2]);
        thresholds.push(DEFAULT_THRESHOLDS[3]);
        assert(thresholds@ =~= default_thresholds());
        let mut profile = match migrate_profile(profile) {
            Ok(p) => p,
            Err(_) => Profile::default(),
        };
        profile.apply_threshold_unlocks(&registry, thresholds.as_slice());
        GameEngine {
            profile,
            leaderboards: Leaderboards::new(),
            registry,
            thresholds,
            board: Board { width: 12, height: 12 },
        }
    }

    /// Sets whether mortal runs show a replay when they end.
    pub fn enable_replay(&mut self, enabled: bool)
        ensures
            final(self).profile.replay_on_death == enabled,
            final(self).profile.schema_version == old(self).profile.schema_version,
            final(self).profile.invincible_cumulative_length == old(
                self,
            ).profile.invincible_cumulative_length,
            final(self).profile.unlocked_tool_ids == old(self).profile.unlocked_tool_ids,
            final(self).profile.old_best_score == old(self).profile.old_best_score,
            final(self).leaderboards == old(self).leaderboards,
            final(self).registry == old(self).registry,
            final(self).thresholds == old(self).thresholds,
            final(self).board == old(self).board,
            *final(self) == (GameEngine {
                profile: Profile { replay_on_death: enabled, ..old(self).profile },
                ..*old(self)
            }),
    {
        self.profile.replay_on_death = enabled;
    }

    /// Starts a run of `mode`. An experimental run needs a loadout, which is validated
    /// against the profile's unlocked tools; other modes ignore any loadout given.
    pub fn start_run(&self, mode: GameMode, requested_loadout: Option<Vec<String>>) -> (r: Result<
        GameRun,
        EngineError,
    >)
        ensures
            mode == GameMode::Experimental ==> match requested_loadout {
                None => r == Err::<GameRun, EngineError>(EngineError::LoadoutRequired),
                Some(slots) => match self.registry.loadout_verdict(
                    ids_of(self.profile.unlocked_tool_ids@),
                    slots@,
                ) {
                    Err(e) => r == Err::<GameRun, EngineError>(e),
                    Ok(s) => {
                        &&& r is Ok
                        &&& fresh_run(r->Ok_0, mode, self.board)
                        &&& r->Ok_0.active_loadout is Some
                        &&& r->Ok_0.active_loadout->Some_0.slots@ == s
                    },
                },
            },
            mode != GameMode::Experimental ==> {
                &&& r is Ok
                &&& fresh_run(r->Ok_0, mode, self.board)
                &&& r->Ok_0.active_loadout is None
            },
    {
        let loadout = match mode {
            GameMode::Experimental => {
                match requested_loadout {
                    None => {
                        return Err(EngineError::LoadoutRequired);
                    },
                    Some(slots) => {
                        match self.registry.validate_loadout(
                            self.profile.unlocked_tool_ids.as_slice(),
                            slots.as_slice(),
                        ) {
                            Ok(l) => Some(l),
                            Err(e) => {
                                return Err(e);
                            },
                        }
                    },
                }
            },
            _ => None,
        };
        let effects = effects_from_loadout(
            match &loadout {
                Some(l) => Some(l),
                None => None,
            },
        );
        let mut snake: Vec<Point> = Vec::new();
        snake.push(Point { x: 5, y: 5 });
        snake.push(Point { x: 4, y: 5 });
        snake.push(Point { x: 3, y: 5 });
        assert(snake@ =~= start_body());
        Ok(
            GameRun {
                mode,
                board: self.board,
                snake,
                metrics: RunMetrics::default(),
                ended: false,
                show_replay: false,
                grace_ticks_remaining: 0,
                active_loadout: loadout,
                effects,
            },
        )
    }

    /// Resolves a collision of a run still in progress. Under a mode whose collisions are
    /// fatal the run ends, showing a replay exactly when the profile asks for one; under
    /// Invincible the head moves to a safe cell chosen from `candidate_respawn` and one
    /// grace tick is granted.
    pub fn handle_collision(&mut self, run: &mut GameRun, candidate_respawn: Point) -> (r: Result<
        (),
        EngineError,
    >)
        ensures
            *final(self) == *old(self),
            collision_resolved(old(self).profile.replay_on_death, *old(run), *final(run), candidate_respawn, r),
    {
        if run.ended {
            return Err(EngineError::AlreadyEnded);
        }
        let policy = policy_for(run.mode);
        match policy.collision_outcome() {
            CollisionOutcome::Die => {
                run.ended = true;
                run.show_replay = match policy.run_end_state(self.profile.replay_on_death) {
                    RunEnd::End { show_replay } => show_replay,
                    RunEnd::Continue => false,
                };
            },
            CollisionOutcome::Reposition => {
                let safe = match self.find_safe_respawn(run, candidate_respawn) {
                    Ok(p) => p,
                    Err(e) => {
                        return Err(e);
                    },
                };
                if run.snake.len() > 0 {
                    run.snake.set(0, safe);
                }
                run.grace_ticks_remaining = 1;
            },
        }
        Ok(())
    }

    /// Records a finished run: its score goes to the mode's leaderboard, and an Invincible
    /// run adds its growth to the cumulative length and recomputes the unlocks.
    pub fn finish_run(&mut self, run: &GameRun) -> (r: Result<(), EngineError>)
        requires
            old(self).wf(),
        ensures
            r is Ok,
            final(self).wf(),
            run_recorded(*old(self), *final(self), *run),
    {
        let policy = policy_for(run.mode);
        let score = policy.score(&run.metrics, &run.effects);
        if run.mode == GameMode::Invincible {
            self.profile.invincible_cumulative_length = self.profile.invincible_cumulative_length.saturating_add(
                run.metrics.growth_units,
            );
            self.profile.apply_threshold_unlocks(&self.registry, self.thresholds.as_slice());
        }
        let loadout_summary = match &run.active_loadout {
            Some(l) => l.summary(),
            None => "none".to_string(),
        };
        let entry = LeaderboardEntry {
            mode: run.mode,
            score,
            survival_ticks: run.metrics.survival_ticks,
            loadout_summary,
        };
        let ghost e = entry;
        self.leaderboards.submit(entry);
        assert(entry_of_run(*run, e));
        Ok(())
    }

    /// A safe cell for a reposition: `desired` when it is on the board and free, else the
    /// first free cell in row-major order; fails only when the board is full.
    pub fn find_safe_respawn(&self, run: &GameRun, desired: Point) -> (r: Result<Point, EngineError>)
        ensures
            in_bounds(desired, run.board) && !run.snake@.contains(desired) ==> r == Ok::<
                Point,
                EngineError,
            >(desired),
            !(in_bounds(desired, run.board) && !run.snake@.contains(desired)) ==> {
                &&& r is Ok <==> !board_full(run.board, run.snake@)
                &&& r is Ok ==> first_free_cell(run.board, run.snake@, r->Ok_0)
                &&& r is Err ==> r == Err::<Point, EngineError>(EngineError::NoSafeRespawn)
            },
    {
        if desired.within(run.board) && !body_contains(run.snake.as_slice(), desired) {
            return Ok(desired);
        }
        let mut y: i32 = 0;
        while y < run.board.height
            invariant
                0 <= y,
                run.board.height < 0 || y <= run.board.height,
                !(in_bounds(desired, run.board) && !run.snake@.contains(desired)),
                forall|q: Point| in_bounds(q, run.board) && q.y < y ==> run.snake@.contains(q),
            decreases run.board.height - y,
        {
            let mut x: i32 = 0;
            while x < run.board.width
                invariant
                    0 <= y < run.board.height,
                    0 <= x,
                    !(in_bounds(desired, run.board) && !run.snake@.contains(desired)),
                    run.board.width < 0 || x <= run.board.width,
                    forall|q: Point|
                        in_bounds(q, run.board) && row_major_before(q, Point { x, y })
                            ==> run.snake@.contains(q),
                decreases run.board.width - x,
            {
                let p = Point { x, y };
                if !body_contains(run.snake.as_slice(), p) {
                    return Ok(p);
                }
                x = x + 1;
            }
            y = y + 1;
        }
        Err(EngineError::NoSafeRespawn)
    }

    /// The labels of the main menu entries.
    pub fn build_menu_items(&self) -> (r: Vec<&'static str>)
        ensures
            r@.len() == 6,
            r@[0]@ == "Start Practice"@,
            r@[1]@ == "Start Challenge"@,
            r@[2]@ == "Start Experimental"@,
            r@[3]@ == "Start Invincible"@,
            r@[4]@ == "Leaderboards"@,
            r@[5]@ == "Settings"@,
    {
        let mut items: Vec<&'static str> = Vec::new();
        items.push("Start Practice");
        items.push("Start Challenge");
        items.push("Start Experimental");
        items.push("Start Invincible");
        items.push("Leaderboards");
        items.push("Settings");
        items
    }
}

/// An Invincible collision never ends the run; a successful reposition leaves exactly one
/// grace tick, and the next tick, with no collision handled in between, leaves none.
pub proof fn lemma_invincible_grace(
    replay_on_death: bool,
    start: GameRun,
    repositioned: GameRun,
    candidate: Point,
    r: Result<(), EngineError>,
    next: GameRun,
)
    requires
        start.mode == GameMode::Invincible,
        !start.ended,
        collision_resolved(replay_on_death, start, repositioned, candidate, r),
        ticked(repositioned, next),
    ensures
        !repositioned.ended,
        !next.ended,
        r is Ok ==> repositioned.grace_ticks_remaining == 1 && next.grace_ticks_remaining == 0,
{
}

} // verus!
