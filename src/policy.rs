use vstd::prelude::*;

use crate::tools::ToolLoadout;

verus! {

/// The four rule sets a run can be played under.
#[derive(Debug, Clone, Copy, PartialEq, Eq, Structural, Hash, PartialOrd, Ord)]
pub enum GameMode {
    Practice,
    Challenge,
    Experimental,
    Invincible,
}

/// What a collision does to a run.
#[derive(Debug, Clone, Copy, PartialEq, Eq, Structural)]
pub enum CollisionOutcome {
    Die,
    Reposition,
}

/// Whether a collision ends the run, and if so whether a replay is shown.
#[derive(Debug, Clone, Copy, PartialEq, Eq, Structural)]
pub enum RunEnd {
    Continue,
    End { show_replay: bool },
}

/// Counters of one run. They only grow, and saturate instead of wrapping.
#[derive(Debug, Clone, Copy, PartialEq, Eq, Structural)]
pub struct RunMetrics {
    pub food_eaten: u64,
    pub growth_units: u64,
    pub survival_ticks: u64,
}

impl Default for RunMetrics {
    fn default() -> (r: Self)
        ensures
            r == (RunMetrics { food_eaten: 0, growth_units: 0, survival_ticks: 0 }),
    {
        RunMetrics { food_eaten: 0, growth_units: 0, survival_ticks: 0 }
    }
}

/// Modifiers derived once from a loadout when a run starts.
#[derive(Debug, Clone, Copy, PartialEq, Eq, Structural, Default)]
pub struct ActiveEffects {
    pub score_bonus_percent: u64,
    pub has_turn_buffer: bool,
    pub has_slow_window: bool,
    pub has_soft_wrap: bool,
    pub has_rewind_step: bool,
}

/// `a * b`, or `u64::MAX` where the product does not fit.
pub open spec fn sat_mul_spec(a: u64, b: u64) -> u64 {
    if a * b > u64::MAX {
        u64::MAX
    } else {
        (a * b) as u64
    }
}

/// Saturating multiplication.
pub fn sat_mul(a: u64, b: u64) -> (r: u64)
    ensures
        r == sat_mul_spec(a, b),
{
    match a.checked_mul(b) {
        Some(p) => p,
        None => u64::MAX,
    }
}

/// `base` raised by `percent` percent of itself, rounded down, saturating.
pub open spec fn inflate(base: u64, percent: u64) -> u64 {
    base.saturating_add(sat_mul_spec(base, percent) / 100)
}

/// What a collision does under each mode.
pub open spec fn outcome_of(mode: GameMode) -> CollisionOutcome {
    match mode {
        GameMode::Invincible => CollisionOutcome::Reposition,
        _ => CollisionOutcome::Die,
    }
}

/// The score of a run with the given metrics and effects under each mode.
pub open spec fn score_of(mode: GameMode, m: RunMetrics, e: ActiveEffects) -> u64 {
    match mode {
        GameMode::Practice => sat_mul_spec(m.food_eaten, 10),
        GameMode::Challenge => inflate(
            sat_mul_spec(m.survival_ticks, 1000).saturating_add(sat_mul_spec(m.food_eaten, 10)),
            e.score_bonus_percent,
        ),
        GameMode::Experimental => inflate(
            sat_mul_spec(m.food_eaten, 12).saturating_add(m.survival_ticks / 5),
            e.score_bonus_percent,
        ),
        GameMode::Invincible => inflate(
            sat_mul_spec(m.food_eaten, 8).saturating_add(m.survival_ticks / 10),
            e.score_bonus_percent,
        ),
    }
}

/// How a collision leaves a run under each mode.
pub open spec fn end_state_of(mode: GameMode, replay_on_death: bool) -> RunEnd {
    match mode {
        GameMode::Invincible => RunEnd::Continue,
        _ => RunEnd::End { show_replay: replay_on_death },
    }
}

/// The rule table of one mode.
pub trait ModePolicy {
    /// The mode whose rules this policy applies.
    spec fn policy_mode(&self) -> GameMode;

    fn mode(&self) -> (r: GameMode)
        ensures
            r == self.policy_mode(),
    ;

    fn collision_outcome(&self) -> (r: CollisionOutcome)
        ensures
            r == outcome_of(self.policy_mode()),
    ;

    fn score(&self, metrics: &RunMetrics, effects: &ActiveEffects) -> (r: u64)
        ensures
            r == score_of(self.policy_mode(), *metrics, *effects),
    ;

    fn run_end_state(&self, replay_on_death: bool) -> (r: RunEnd)
        ensures
            r == end_state_of(self.policy_mode(), replay_on_death),
    ;
}

fn inflate_exec(base: u64, percent: u64) -> (r: u64)
    ensures
        r == inflate(base, percent),
{
    base.saturating_add(sat_mul(base, percent) / 100)
}

pub struct PracticePolicy;

pub struct ChallengePolicy;

pub struct ExperimentalPolicy;

pub struct InvinciblePolicy;

impl ModePolicy for PracticePolicy {
    open spec fn policy_mode(&self) -> GameMode {
        GameMode::Practice
    }

    fn mode(&self) -> (r: GameMode) {
        GameMode::Practice
    }

    fn collision_outcome(&self) -> (r: CollisionOutcome) {
        CollisionOutcome::Die
    }

    fn score(&self, metrics: &RunMetrics, effects: &ActiveEffects) -> (r: u64) {
        sat_mul(metrics.food_eaten, 10)
    }

    fn run_end_state(&self, replay_on_death: bool) -> (r: RunEnd) {
        RunEnd::End { show_replay: replay_on_death }
    }
}

impl ModePolicy for ChallengePolicy {
    open spec fn policy_mode(&self) -> GameMode {
        GameMode::Challenge
    }

    fn mode(&self) -> (r: GameMode) {
        GameMode::Challenge
    }

    fn collision_outcome(&self) -> (r: CollisionOutcome) {
        CollisionOutcome::Die
    }

    fn score(&self, metrics: &RunMetrics, effects: &ActiveEffects) -> (r: u64) {
        let base = sat_mul(metrics.survival_ticks, 1000).saturating_add(sat_mul(metrics.food_eaten, 10));
        inflate_exec(base, effects.score_bonus_percent)
    }

    fn run_end_state(&self, replay_on_death: bool) -> (r: RunEnd) {
        RunEnd::End { show_replay: replay_on_death }
    }
}

impl ModePolicy for ExperimentalPolicy {
    open spec fn policy_mode(&self) -> GameMode {
        GameMode::Experimental
    }

    fn mode(&self) -> (r: GameMode) {
        GameMode::Experimental
    }

    fn collision_outcome(&self) -> (r: CollisionOutcome) {
        CollisionOutcome::Die
    }

    fn score(&self, metrics: &RunMetrics, effects: &ActiveEffects) -> (r: u64) {
        let base = sat_mul(metrics.food_eaten, 12).saturating_add(metrics.survival_ticks / 5);
        inflate_exec(base, effects.score_bonus_percent)
    }

    fn run_end_state(&self, replay_on_death: bool) -> (r: RunEnd) {
        RunEnd::End { show_replay: replay_on_death }
    }
}

impl ModePolicy for InvinciblePolicy {
    open spec fn policy_mode(&self) -> GameMode {
        GameMode::Invincible
    }

    fn mode(&self) -> (r: GameMode) {
        GameMode::Invincible
    }

    fn collision_outcome(&self) -> (r: CollisionOutcome) {
        CollisionOutcome::Reposition
    }

    fn score(&self, metrics: &RunMetrics, effects: &ActiveEffects) -> (r: u64) {
        let base = sat_mul(metrics.food_eaten, 8).saturating_add(metrics.survival_ticks / 10);
        inflate_exec(base, effects.score_bonus_percent)
    }

    fn run_end_state(&self, replay_on_death: bool) -> (r: RunEnd) {
        RunEnd::Continue
    }
}

/// The policy of one mode, selected by value.
pub enum AnyPolicy {
    Practice(PracticePolicy),
    Challenge(ChallengePolicy),
    Experimental(ExperimentalPolicy),
    Invincible(InvinciblePolicy),
}

impl ModePolicy for AnyPolicy {
    open spec fn policy_mode(&self) -> GameMode {
        match self {
            AnyPolicy::Practice(_) => GameMode::Practice,
            AnyPolicy::Challenge(_) => GameMode::Challenge,
            AnyPolicy::Experimental(_) => GameMode::Experimental,
            AnyPolicy::Invincible(_) => GameMode::Invincible,
        }
    }

    fn mode(&self) -> (r: GameMode) {
        match self {
            AnyPolicy::Practice(p) => p.mode(),
            AnyPolicy::Challenge(p) => p.mode(),
            AnyPolicy::Experimental(p) => p.mode(),
            AnyPolicy::Invincible(p) => p.mode(),
        }
    }

    fn collision_outcome(&self) -> (r: CollisionOutcome) {
        match self {
            AnyPolicy::Practice(p) => p.collision_outcome(),
            AnyPolicy::Challenge(p) => p.collision_outcome(),
            AnyPolicy::Experimental(p) => p.collision_outcome(),
            AnyPolicy::Invincible(p) => p.collision_outcome(),
        }
    }

    fn score(&self, metrics: &RunMetrics, effects: &ActiveEffects) -> (r: u64) {
        match self {
            AnyPolicy::Practice(p) => p.score(metrics, effects),
            AnyPolicy::Challenge(p) => p.score(metrics, effects),
            AnyPolicy::Experimental(p) => p.score(metrics, effects),
            AnyPolicy::Invincible(p) => p.score(metrics, effects),
        }
    }

    fn run_end_state(&self, replay_on_death: bool) -> (r: RunEnd) {
        match self {
            AnyPolicy::Practice(p) => p.run_end_state(replay_on_death),
            AnyPolicy::Challenge(p) => p.run_end_state(replay_on_death),
            AnyPolicy::Experimental(p) => p.run_end_state(replay_on_death),
            AnyPolicy::Invincible(p) => p.run_end_state(replay_on_death),
        }
    }
}

/// The rule table for `mode`.
pub fn policy_for(mode: GameMode) -> (r: AnyPolicy)
    ensures
        r.policy_mode() == mode,
{
    match mode {
        GameMode::Practice => AnyPolicy::Practice(PracticePolicy),
        GameMode::Challenge => AnyPolicy::Challenge(ChallengePolicy),
        GameMode::Experimental => AnyPolicy::Experimental(ExperimentalPolicy),
        GameMode::Invincible => AnyPolicy::Invincible(InvinciblePolicy),
    }
}

/// Whether one of the three slots holds `id`.
pub open spec fn names(slots: Seq<String>, id: Seq<char>) -> bool {
    slots[0]@ == id || slots[1]@ == id || slots[2]@ == id
}

/// The score bonus, in percent, that one slot contributes.
pub open spec fn slot_bonus(id: Seq<char>) -> u64 {
    if id == "soft-wrap"@ {
        5
    } else if id == "rewind-step"@ {
        10
    } else {
        0
    }
}

/// The effects that a (possibly absent) loadout gives a run.
pub open spec fn effects_of(loadout: Option<ToolLoadout>) -> ActiveEffects {
    match loadout {
        None => ActiveEffects {
            score_bonus_percent: 0,
            has_turn_buffer: false,
            has_slow_window: false,
            has_soft_wrap: false,
            has_rewind_step: false,
        },
        Some(l) => ActiveEffects {
            score_bonus_percent: (slot_bonus(l.slots@[0]@) + slot_bonus(l.slots@[1]@) + slot_bonus(
                l.slots@[2]@,
            )) as u64,
            has_turn_buffer: names(l.slots@, "turn-buffer"@),
            has_slow_window: names(l.slots@, "slow-window"@),
            has_soft_wrap: names(l.slots@, "soft-wrap"@),
            has_rewind_step: names(l.slots@, "rewind-step"@),
        },
    }
}

/// The four catalog ids differ from one another.
pub proof fn lemma_tool_ids_distinct()
    ensures
        "turn-buffer"@ != "slow-window"@,
        "turn-buffer"@ != "soft-wrap"@,
        "turn-buffer"@ != "rewind-step"@,
        "slow-window"@ != "soft-wrap"@,
        "slow-window"@ != "rewind-step"@,
        "soft-wrap"@ != "rewind-step"@,
{
    reveal_strlit("turn-buffer");
    reveal_strlit("slow-window");
    reveal_strlit("soft-wrap");
    reveal_strlit("rewind-step");
    assert("turn-buffer"@[0] != "slow-window"@[0]);
    assert("turn-buffer"@[0] != "rewind-step"@[0]);
    assert("slow-window"@[0] != "rewind-step"@[0]);
    assert("slow-window"@[1] != "soft-wrap"@[1]);
}

fn is_id(s: &String, id: &str) -> (r: bool)
    ensures
        r == (s@ == id@),
{
    *s == id.to_string()
}

/// Computes the effects of a loadout once, at run start.
pub fn effects_from_loadout(loadout: Option<&ToolLoadout>) -> (r: ActiveEffects)
    ensures
        r == effects_of(
            match loadout {
                Some(l) => Some(*l),
                None => None,
            },
        ),
{
    let mut effects = ActiveEffects {
        score_bonus_percent: 0,
        has_turn_buffer: false,
        has_slow_window: false,
        has_soft_wrap: false,
        has_rewind_step: false,
    };
    match loadout {
        None => {},
        Some(l) => {
            let mut k: usize = 0;
            while k < 3
                invariant
                    k <= 3,
                    l.slots@.len() == 3,
                    effects.score_bonus_percent as int == if k == 0 {
                        0
                    } else if k == 1 {
                        slot_bonus(l.slots@[0]@) as int
                    } else if k == 2 {
                        slot_bonus(l.slots@[0]@) + slot_bonus(l.slots@[1]@)
                    } else {
                        slot_bonus(l.slots@[0]@) + slot_bonus(l.slots@[1]@) + slot_bonus(l.slots@[2]@)
                    },
                    effects.has_turn_buffer == exists|j: int| 0 <= j < k && l.slots@[j]@ == "turn-buffer"@,
                    effects.has_slow_window == exists|j: int| 0 <= j < k && l.slots@[j]@ == "slow-window"@,
                    effects.has_soft_wrap == exists|j: int| 0 <= j < k && l.slots@[j]@ == "soft-wrap"@,
                    effects.has_rewind_step == exists|j: int| 0 <= j < k && l.slots@[j]@ == "rewind-step"@,
                decreases 3 - k,
            {
                let slot = &l.slots[k];
                proof {
                    lemma_tool_ids_distinct();
                }
                if is_id(slot, "turn-buffer") {
                    effects.has_turn_buffer = true;
                } else if is_id(slot, "slow-window") {
                    effects.has_slow_window = true;
                } else if is_id(slot, "soft-wrap") {
                    effects.has_soft_wrap = true;
                    effects.score_bonus_percent = effects.score_bonus_percent + 5;
                } else if is_id(slot, "rewind-step") {
                    effects.has_rewind_step = true;
                    effects.score_bonus_percent = effects.score_bonus_percent + 10;
                }
                k = k + 1;
            }
        },
    }
    effects
}

} // verus!
