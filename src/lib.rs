//! Session engine for a grid-movement game, and the input state machine that drives it.
//!
//! The engine ([`GameEngine`]) starts runs, resolves collisions under each mode's rules,
//! records finished runs on ranked leaderboards and advances a player's progression. The
//! session loop ([`RunningState`]) steps a run on a fixed tick and places food with an
//! explicitly seeded generator. The screen machine ([`SnakeGuiApp`]) turns commands and
//! pointer motion into navigation, steering and idle pauses.
pub mod engine;
pub mod error;
pub mod leaderboard;
pub mod placement;
pub mod pointer;
pub mod policy;
pub mod profile;
pub mod screens;
pub mod session;
pub mod tools;

pub use engine::{Board, GameEngine, GameRun, Point};
pub use error::EngineError;
pub use leaderboard::{LeaderboardEntry, Leaderboards};
pub use placement::{
    lcg_next, next_food_position, next_respawn_position, points_touch_or_adjacent,
    spawn_food_positions,
};
pub use pointer::{cycle_index, direction_from_delta, pointer_board_cell};
pub use policy::{
    effects_from_loadout, policy_for, ActiveEffects, AnyPolicy, ChallengePolicy, CollisionOutcome,
    ExperimentalPolicy, GameMode, InvinciblePolicy, ModePolicy, PracticePolicy, RunEnd, RunMetrics,
};
pub use profile::{
    migrate_profile, LegacyProfile, Profile, CURRENT_SCHEMA_VERSION, DEFAULT_THRESHOLDS,
};
pub use screens::{
    mode_index, mode_label, tool_category_label, LoadoutState, PointerFocusTarget, RunSummary,
    ScreenState, SnakeGuiApp, UiCommand, MAIN_MENU_ITEMS, MODES,
};
pub use session::{
    snake_collides, Direction, PointerPos, RunningPhase, RunningState, StepOutcome,
    INITIAL_FOOD_COUNT,
};
pub use tools::{ToolCategory, ToolDefinition, ToolLoadout, ToolRegistry};
