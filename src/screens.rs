use vstd::prelude::*;

use crate::engine::{fresh_run, in_bounds, start_body, Board, GameEngine, Point};
use crate::error::EngineError;
use crate::placement::spawn_food_positions;
use crate::pointer::{
    board_cell_spec, cycle_index, cycle_spec, delta_direction, direction_from_delta,
    direction_toward, loadout_slot_at, main_menu_item_at, mode_item_at, moved_beyond,
    pointer_board_cell, pointer_in_back_hotzone, pointer_moved_beyond, settings_toggle_hit,
    toward_spec, LOADOUT_SLOTS, MAIN_MENU_LEN, MODE_COUNT,
};
use crate::policy::{policy_for, score_of, GameMode, ModePolicy};
use crate::profile::Profile;
use crate::session::{
    turn_accepted, Direction, PointerPos, RunningPhase, RunningState,
    StepOutcome, INITIAL_FOOD_COUNT, advanced,
};
use crate::tools::{ids_of, ToolCategory};

verus! {

/// How long the pointer must rest outside the board before the run pauses, in microseconds.
pub const POINTER_IDLE_MICROS_OUTSIDE_BOARD: u64 = 10_000;

/// How long the pointer must rest on a target to confirm it, in microseconds.
pub const POINTER_DWELL_MICROS: u64 = 450_000;

/// After a resume, idle time does not accrue for this long, in microseconds.
pub const POINTER_IDLE_GRACE_MICROS: u64 = 200_000;

/// Labels of the main menu entries, in order.
pub const MAIN_MENU_ITEMS: [&'static str; 3] = ["Play", "Leaderboards", "Settings"];

/// The modes in the order the mode screen lists them.
pub const MODES: [GameMode; 4] = [
    GameMode::Practice,
    GameMode::Challenge,
    GameMode::Experimental,
    GameMode::Invincible,
];

/// Screen width assumed until the frame loop reports one, in pixels.
pub const DEFAULT_SCREEN_WIDTH: i32 = 1000;

/// The screens of the game.
#[derive(Debug, Clone, Copy, PartialEq, Eq, Structural)]
pub enum ScreenState {
    MainMenu,
    ModeSelect,
    Loadout,
    Running,
    Summary,
    Leaderboard,
    Settings,
}

/// Abstract commands produced by keys, the wheel and dwell gestures.
#[derive(Debug, Clone, Copy, PartialEq, Eq, Structural)]
pub enum UiCommand {
    Up,
    Down,
    Left,
    Right,
    Confirm,
    Back,
}

/// A clickable region of a menu screen.
#[derive(Debug, Clone, Copy, PartialEq, Eq, Structural)]
pub enum PointerFocusTarget {
    MainMenuItem(usize),
    ModeItem(usize),
    LoadoutSlot(usize),
    SettingsToggle,
}

/// Cursor and choices of the loadout screen.
#[derive(Debug, Clone, Copy, PartialEq, Eq)]
pub struct LoadoutState {
    pub slot_cursor: usize,
    pub selected_tool_indices: [usize; 3],
}

impl Default for LoadoutState {
    fn default() -> (r: Self)
        ensures
            r.slot_cursor == 0,
            r.selected_tool_indices@ == seq![0usize, 1, 2],
    {
        let r = LoadoutState { slot_cursor: 0, selected_tool_indices: [0, 1, 2] };
        assert(r.selected_tool_indices@ =~= seq![0usize, 1, 2]);
        r
    }
}

/// What the summary screen shows about the last run.
#[derive(Debug, Clone)]
pub struct RunSummary {
    pub mode: GameMode,
    pub score: u64,
    pub survival_ticks: u64,
    pub food_eaten: u64,
    pub growth_units: u64,
    pub loadout_summary: String,
}

/// The mode listed at position `i` of the mode screen.
pub open spec fn mode_at_spec(i: int) -> GameMode {
    if i == 0 {
        GameMode::Practice
    } else if i == 1 {
        GameMode::Challenge
    } else if i == 2 {
        GameMode::Experimental
    } else {
        GameMode::Invincible
    }
}

/// The position of `mode` in the mode list.
pub open spec fn mode_index_spec(mode: GameMode) -> usize {
    match mode {
        GameMode::Practice => 0,
        GameMode::Challenge => 1,
        GameMode::Experimental => 2,
        GameMode::Invincible => 3,
    }
}

/// The mode listed at position `i`.
pub fn mode_at(i: usize) -> (r: GameMode)
    ensures
        r == mode_at_spec(i as int),
{
    if i == 0 {
        GameMode::Practice
    } else if i == 1 {
        GameMode::Challenge
    } else if i == 2 {
        GameMode::Experimental
    } else {
        GameMode::Invincible
    }
}

/// The position of `mode` in the mode list.
pub fn mode_index(mode: GameMode) -> (r: usize)
    ensures
        r == mode_index_spec(mode),
        mode_at_spec(r as int) == mode,
{
    match mode {
        GameMode::Practice => 0,
        GameMode::Challenge => 1,
        GameMode::Experimental => 2,
        GameMode::Invincible => 3,
    }
}

/// The label of a mode.
pub fn mode_label(mode: GameMode) -> (r: &'static str)
    ensures
        r@ == match mode {
            GameMode::Practice => "practice"@,
            GameMode::Challenge => "challenge"@,
            GameMode::Experimental => "experimental"@,
            GameMode::Invincible => "invincible"@,
        },
{
    match mode {
        GameMode::Practice => "practice",
        GameMode::Challenge => "challenge",
        GameMode::Experimental => "experimental",
        GameMode::Invincible => "invincible",
    }
}

/// The label of a tool category.
pub fn tool_category_label(category: ToolCategory) -> (r: &'static str)
    ensures
        r@ == match category {
            ToolCategory::ControlAssist => "control-assist"@,
            ToolCategory::RuleModifying => "rule-modifying"@,
            ToolCategory::Hybrid => "hybrid"@,
        },
{
    match category {
        ToolCategory::ControlAssist => "control-assist",
        ToolCategory::RuleModifying => "rule-modifying",
        ToolCategory::Hybrid => "hybrid",
    }
}

/// The queue after offering the turn `d` (if any) to an active run.
pub open spec fn queue_after(queue: Seq<Direction>, current: Direction, d: Option<Direction>) -> Seq<Direction> {
    match d {
        Some(d) => if turn_accepted(RunningPhase::Active, queue, current, d) {
            queue.push(d)
        } else {
            queue
        },
        None => queue,
    }
}

/// The steering intent of the pointer during an active run: toward the hovered cell if
/// the pointer is over the board (and not on the head), else along its motion this frame.
pub open spec fn steering_intent(s: RunningState, screen_width: i32, from: PointerPos, to: PointerPos) -> Option<Direction> {
    match board_cell_spec(s.run.board, screen_width, to) {
        Some(c) => match toward_spec(s.run.snake@[0], c) {
            Some(d) => Some(d),
            None => delta_direction(from, to),
        },
        None => delta_direction(from, to),
    }
}

/// Whether the pointer is over the board, which counts as engagement.
pub open spec fn pointer_engaged(s: RunningState, screen_width: i32, to: PointerPos) -> bool {
    board_cell_spec(s.run.board, screen_width, to) is Some
}

/// `new` is `old` with only the pointer idle bookkeeping, the phase and the queue changed.
pub open spec fn only_idle_changed(old: RunningState, new: RunningState) -> bool {
    &&& new.run == old.run
    &&& new.direction == old.direction
    &&& new.replay_timer_micros == old.replay_timer_micros
    &&& new.accumulator_micros == old.accumulator_micros
    &&& new.tick_micros == old.tick_micros
    &&& new.foods == old.foods
    &&& new.spawn_seed == old.spawn_seed
    &&& new.replay_path == old.replay_path
}

/// `s` after leaving an idle pause: active again, idle time restarted, the grace window
/// re-armed and the anchor moved to `pointer` when one is given; `s` itself when it was
/// not paused.
pub open spec fn resumed(s: RunningState, pointer: Option<PointerPos>) -> RunningState {
    if s.phase == RunningPhase::PointerIdlePause {
        RunningState {
            phase: RunningPhase::Active,
            pointer_idle_elapsed_micros: 0,
            idle_grace_timer_micros: POINTER_IDLE_GRACE_MICROS,
            pointer_idle_anchor: match pointer {
                Some(p) => Some(p),
                None => s.pointer_idle_anchor,
            },
            ..s
        }
    } else {
        s
    }
}

/// The session `t` is `s` after the turn `d` was offered: queued when accepted, and `s`
/// unchanged when refused.
pub open spec fn turn_offered(s: RunningState, t: RunningState, d: Direction) -> bool {
    if turn_accepted(s.phase, s.queued_directions@, s.direction, d) {
        &&& t.queued_directions@ == s.queued_directions@.push(d)
        &&& t == (RunningState { queued_directions: t.queued_directions, ..s })
    } else {
        t == s
    }
}

impl RunningState {
    /// Leaves an idle pause: the run is active again, idle time restarts, the grace window
    /// re-arms, and the anchor moves to `pointer` when one is given. Does nothing outside
    /// a pause.
    pub fn resume_from_pointer_idle_pause(&mut self, pointer: Option<PointerPos>)
        ensures
            old(self).phase != RunningPhase::PointerIdlePause ==> *final(self) == *old(self),
            old(self).phase == RunningPhase::PointerIdlePause ==> {
                &&& final(self).phase == RunningPhase::Active
                &&& final(self).pointer_idle_elapsed_micros == 0
                &&& final(self).idle_grace_timer_micros == POINTER_IDLE_GRACE_MICROS
                &&& final(self).pointer_idle_anchor == match pointer {
                    Some(p) => Some(p),
                    None => old(self).pointer_idle_anchor,
                }
                &&& final(self).queued_directions == old(self).queued_directions
                &&& only_idle_changed(*old(self), *final(self))
            },
            *final(self) == resumed(*old(self), pointer),
    {
        if self.phase != RunningPhase::PointerIdlePause {
            return;
        }
        self.phase = RunningPhase::Active;
        self.pointer_idle_elapsed_micros = 0;
        self.idle_grace_timer_micros = POINTER_IDLE_GRACE_MICROS;
        match pointer {
            Some(p) => {
                self.pointer_idle_anchor = Some(p);
            },
            None => {},
        }
    }

    /// How one frame of pointer input changes a running state (see `apply_pointer`).
    pub open spec fn pointer_step(
        old: RunningState,
        new: RunningState,
        dt_micros: u64,
        from: PointerPos,
        to: PointerPos,
        screen_width: i32,
    ) -> bool {
        &&& (only_idle_changed(old, new))
        &&& (old.phase == RunningPhase::Replay ==> new == old)
        &&& (old.phase == RunningPhase::PointerIdlePause ==> {
                    let anchor = match old.pointer_idle_anchor {
                        Some(a) => a,
                        None => to,
                    };
                    if moved_beyond(to, anchor) {
                        &&& new.phase == RunningPhase::Active
                        &&& new.idle_grace_timer_micros == POINTER_IDLE_GRACE_MICROS
                        &&& new.pointer_idle_elapsed_micros == 0
                        &&& new.pointer_idle_anchor == Some(to)
                        &&& new.queued_directions@ == queue_after(
                            old.queued_directions@,
                            old.direction,
                            delta_direction(anchor, to),
                        )
                    } else {
                        new == old
                    }
                })
        &&& (old.phase == RunningPhase::Active ==> {
                    let grace = old.idle_grace_timer_micros.saturating_sub(dt_micros);
                    let anchor = match old.pointer_idle_anchor {
                        Some(a) => a,
                        None => to,
                    };
                    let engaged = pointer_engaged(old, screen_width, to);
                    let elapsed = old.pointer_idle_elapsed_micros.saturating_add(dt_micros);
                    let pauses = grace == 0 && !engaged && !moved_beyond(to, anchor) && elapsed
                        >= POINTER_IDLE_MICROS_OUTSIDE_BOARD;
                    &&& new.idle_grace_timer_micros == grace
                    &&& pauses ==> {
                        &&& new.phase == RunningPhase::PointerIdlePause
                        &&& new.pointer_idle_anchor == Some(to)
                        &&& new.pointer_idle_elapsed_micros == 0
                        &&& new.queued_directions == old.queued_directions
                    }
                    &&& !pauses ==> {
                        &&& new.phase == RunningPhase::Active
                        &&& new.queued_directions@ == queue_after(
                            old.queued_directions@,
                            old.direction,
                            steering_intent(old, screen_width, from, to),
                        )
                        &&& grace == 0 ==> new.pointer_idle_anchor == Some(
                            if engaged || moved_beyond(to, anchor) {
                                to
                            } else {
                                anchor
                            },
                        )
                        &&& grace == 0 ==> new.pointer_idle_elapsed_micros == if engaged
                            || moved_beyond(to, anchor) {
                            0
                        } else {
                            elapsed
                        }
                        &&& grace > 0 ==> new.pointer_idle_anchor == old.pointer_idle_anchor
                        &&& grace > 0 ==> new.pointer_idle_elapsed_micros == old.pointer_idle_elapsed_micros
                    }
                })
    }

    /// Handles one frame of pointer input while running.
    ///
    /// In replay the pointer is ignored. In a pause, only motion beyond the noise threshold
    /// from the pause anchor resumes, and that motion's direction is offered as a turn.
    /// When active, the pointer steers (toward a hovered cell, else along its motion);
    /// outside the grace window, resting off the board accrues idle time, and reaching the
    /// idle threshold pauses the run without steering.
    pub fn apply_pointer(&mut self, dt_micros: u64, from: PointerPos, to: PointerPos, screen_width: i32)
        requires
            old(self).wf(),
            old(self).run.board.width <= 0x100_0000,
            old(self).run.board.height <= 0x100_0000,
        ensures
            final(self).wf(),
            Self::pointer_step(*old(self), *final(self), dt_micros, from, to, screen_width),
    {
        match self.phase {
            RunningPhase::Replay => {},
            RunningPhase::PointerIdlePause => {
                let anchor = match self.pointer_idle_anchor {
                    Some(a) => a,
                    None => to,
                };
                if pointer_moved_beyond(to, anchor) {
                    let d = direction_from_delta(anchor, to);
                    self.resume_from_pointer_idle_pause(Some(to));
                    match d {
                        Some(d) => self.enqueue_direction(d),
                        None => {},
                    }
                }
            },
            RunningPhase::Active => {
                self.idle_grace_timer_micros = self.idle_grace_timer_micros.saturating_sub(dt_micros);
                assert(in_bounds(self.run.snake@[0], self.run.board));
                let cell = pointer_board_cell(self.run.board, screen_width, to);
                let toward = match cell {
                    Some(c) => direction_toward(self.run.snake[0], c),
                    None => None,
                };
                let intent = match toward {
                    Some(d) => Some(d),
                    None => direction_from_delta(from, to),
                };
                let engaged = cell.is_some();
                if self.idle_grace_timer_micros == 0 {
                    let anchor = match self.pointer_idle_anchor {
                        Some(a) => a,
                        None => to,
                    };
                    if engaged || pointer_moved_beyond(to, anchor) {
                        self.pointer_idle_anchor = Some(to);
                        self.pointer_idle_elapsed_micros = 0;
                    } else {
                        self.pointer_idle_anchor = Some(anchor);
                        self.pointer_idle_elapsed_micros = self.pointer_idle_elapsed_micros.saturating_add(dt_micros);
                        if self.pointer_idle_elapsed_micros >= POINTER_IDLE_MICROS_OUTSIDE_BOARD {
                            self.phase = RunningPhase::PointerIdlePause;
                            self.pointer_idle_anchor = Some(to);
                            self.pointer_idle_elapsed_micros = 0;
                            return;
                        }
                    }
                }
                match intent {
                    Some(d) => self.enqueue_direction(d),
                    None => {},
                }
            },
        }
    }
}

/// The whole interactive state: engine, screen, cursors, the running session and pointer
/// gesture bookkeeping.
#[derive(Debug)]
pub struct SnakeGuiApp {
    pub engine: GameEngine,
    pub screen: ScreenState,
    pub main_menu_cursor: usize,
    pub mode_cursor: usize,
    pub leaderboard_mode_cursor: usize,
    pub loadout_state: LoadoutState,
    pub running: Option<RunningState>,
    pub summary: Option<RunSummary>,
    pub message: Option<EngineError>,
    pub pointer_last_position: Option<PointerPos>,
    pub pointer_focus_target: Option<PointerFocusTarget>,
    pub pointer_focus_dwell_micros: u64,
    pub pointer_focus_armed: bool,
    pub pointer_back_dwell_micros: u64,
    pub pointer_back_armed: bool,
    /// Seed for the placement generator of the next run.
    pub seed: u64,
    /// Width of the screen in pixels, which places the board.
    pub screen_width: i32,
}

/// The clickable region under `p` on `screen`.
pub open spec fn focus_at(screen: ScreenState, p: PointerPos) -> Option<PointerFocusTarget> {
    match screen {
        ScreenState::MainMenu => match crate::pointer::main_menu_item_spec(p) {
            Some(i) => Some(PointerFocusTarget::MainMenuItem(i)),
            None => None,
        },
        ScreenState::ModeSelect => match crate::pointer::mode_item_spec(p) {
            Some(i) => Some(PointerFocusTarget::ModeItem(i)),
            None => None,
        },
        ScreenState::Loadout => match crate::pointer::loadout_slot_spec(p) {
            Some(i) => Some(PointerFocusTarget::LoadoutSlot(i)),
            None => None,
        },
        ScreenState::Settings => if 90 <= p.x <= 910 && 185 <= p.y <= 245 {
            Some(PointerFocusTarget::SettingsToggle)
        } else {
            None
        },
        _ => None,
    }
}

/// Whether the wheel browses a list on `screen`.
pub open spec fn scrolls(screen: ScreenState) -> bool {
    screen == ScreenState::MainMenu || screen == ScreenState::ModeSelect || screen
        == ScreenState::Loadout || screen == ScreenState::Leaderboard
}

/// Whether `p` lies in the back hotzone.
pub open spec fn in_back_hotzone(p: PointerPos) -> bool {
    16 <= p.x <= 136 && 18 <= p.y <= 72
}

/// A board on which a run can start and the pointer can find cells.
pub open spec fn playable_board(board: Board) -> bool {
    6 <= board.width <= 0x100_0000 && 6 <= board.height <= 0x100_0000
}

/// Whether a run of `mode` with `requested` starts under `engine`'s rules.
pub open spec fn start_succeeds(engine: GameEngine, mode: GameMode, requested: Option<Seq<String>>) -> bool {
    mode != GameMode::Experimental || match requested {
        Some(slots) => engine.registry.loadout_verdict(
            ids_of(engine.profile.unlocked_tool_ids@),
            slots,
        ) is Ok,
        None => false,
    }
}

/// The error with which `engine` refuses to start a run of `mode` with `requested`.
pub open spec fn start_error(engine: GameEngine, mode: GameMode, requested: Option<Seq<String>>) -> EngineError {
    match requested {
        Some(slots) => match engine.registry.loadout_verdict(
            ids_of(engine.profile.unlocked_tool_ids@),
            slots,
        ) {
            Err(e) => e,
            Ok(_) => EngineError::LoadoutRequired,
        },
        None => EngineError::LoadoutRequired,
    }
}

/// The views of a requested loadout, if any.
pub open spec fn request_view(requested: Option<Vec<String>>) -> Option<Seq<String>> {
    match requested {
        Some(v) => Some(v@),
        None => None,
    }
}

/// The tool ids the loadout screen of `app` currently selects.
pub open spec fn selected_ids(app: SnakeGuiApp) -> Seq<String> {
    Seq::new(3, |k: int| app.engine.registry.defs()[app.loadout_state.selected_tool_indices@[k] as int % 4].id)
}

impl SnakeGuiApp {
    /// The invariant of the interactive state.
    pub open spec fn wf(self) -> bool {
        &&& self.wf_base()
        &&& (self.screen == ScreenState::Running <==> self.running is Some)
        &&& self.running matches Some(s) ==> s.wf() && s.run.board == self.engine.board && s.tick_micros > 0
    }

    /// The invariant apart from the link between the running screen and its session.
    pub open spec fn wf_base(self) -> bool {
        &&& self.engine.wf()
        &&& self.engine.registry.is_demo()
        &&& playable_board(self.engine.board)
        &&& self.main_menu_cursor < MAIN_MENU_LEN
        &&& self.mode_cursor < MODE_COUNT
        &&& self.leaderboard_mode_cursor < MODE_COUNT
        &&& self.loadout_state.slot_cursor < LOADOUT_SLOTS
        &&& forall|i: int| 0 <= i < 3 ==> #[trigger] self.loadout_state.selected_tool_indices@[i] <= i32::MAX
    }

    /// `r` is a fresh application: the main menu with every cursor at the top, no session,
    /// summary or message, the default loadout selection, no pointer history or gesture in
    /// progress, seed 0 and the default screen width.
    pub open spec fn at_start(r: Self) -> bool {
        &&& r == (SnakeGuiApp {
            engine: r.engine,
            screen: ScreenState::MainMenu,
            main_menu_cursor: 0,
            mode_cursor: 0,
            leaderboard_mode_cursor: 0,
            loadout_state: r.loadout_state,
            running: None,
            summary: None,
            message: None,
            pointer_last_position: None,
            pointer_focus_target: None,
            pointer_focus_dwell_micros: 0,
            pointer_focus_armed: false,
            pointer_back_dwell_micros: 0,
            pointer_back_armed: false,
            seed: 0,
            screen_width: DEFAULT_SCREEN_WIDTH,
        })
        &&& r.loadout_state.slot_cursor == 0
        &&& r.loadout_state.selected_tool_indices@ == seq![0usize, 1, 2]
    }

    /// The application on the default profile, at the main menu.
    pub fn new() -> (r: Self)
        ensures
            r.wf(),
            Self::at_start(r),
            r.engine.board == (Board { width: 12, height: 12 }),
            r.engine.registry.is_demo(),
            r.engine.profile.invincible_cumulative_length == 0,
            !r.engine.profile.replay_on_death,
    {
        Self::with_profile(Profile::default())
    }

    /// The application on `profile`, at the main menu.
    pub fn with_profile(profile: Profile) -> (r: Self)
        ensures
            r.wf(),
            crate::engine::fresh_engine(profile, r.engine),
            Self::at_start(r),
    {
        SnakeGuiApp {
            engine: GameEngine::new(profile),
            screen: ScreenState::MainMenu,
            main_menu_cursor: 0,
            mode_cursor: 0,
            leaderboard_mode_cursor: 0,
            loadout_state: LoadoutState::default(),
            running: None,
            summary: None,
            message: None,
            pointer_last_position: None,
            pointer_focus_target: None,
            pointer_focus_dwell_micros: 0,
            pointer_focus_armed: false,
            pointer_back_dwell_micros: 0,
            pointer_back_armed: false,
            seed: 0,
            screen_width: DEFAULT_SCREEN_WIDTH,
        }
    }

    /// One frame: the frame's commands in order, then the pointer, then the simulation
    /// clock. `seed` seeds a run that starts during this frame.
    pub fn update(
        &mut self,
        dt_micros: u64,
        commands: &[UiCommand],
        pointer: PointerPos,
        wheel: i32,
        screen_width: i32,
        seed: u64,
    )
        requires
            old(self).wf(),
        ensures
            final(self).wf(),
            final(self).seed == seed,
            final(self).screen_width == screen_width,
            Self::frame_step(
                SnakeGuiApp { seed, screen_width, ..*old(self) },
                *final(self),
                dt_micros,
                commands@,
                pointer,
                wheel,
            ),
    {
        self.seed = seed;
        self.screen_width = screen_width;
        let ghost start = *self;
        self.apply_commands(commands);
        let ghost a = *self;
        self.apply_pointer_input(dt_micros, pointer, wheel);
        let ghost b = *self;
        if self.screen == ScreenState::Running {
            self.update_running(dt_micros);
        }
        assert(Self::commands_applied(start, a, commands@) && Self::pointer_input_step(a, b, dt_micros, pointer, wheel));
    }

    /// Applies `commands` in order.
    fn apply_commands(&mut self, commands: &[UiCommand])
        requires
            old(self).wf(),
        ensures
            final(self).wf(),
            final(self).seed == old(self).seed,
            final(self).screen_width == old(self).screen_width,
            Self::commands_applied(*old(self), *final(self), commands@),
    {
        let ghost start = *self;
        let ghost mut states: Seq<Self> = seq![start];
        let mut i: usize = 0;
        while i < commands.len()
            invariant
                self.wf(),
                i <= commands@.len(),
                self.seed == start.seed,
                self.screen_width == start.screen_width,
                Self::command_trace(states, commands@.take(i as int)),
                states[0] == start,
                states.last() == *self,
            decreases commands@.len() - i,
        {
            let ghost mid = *self;
            self.apply_command(commands[i]);
            proof {
                let prev = states;
                states = states.push(*self);
                assert forall|k: int| 0 <= k < i + 1 implies #[trigger] Self::command_step(
                    states[k],
                    states[k + 1],
                    commands@.take(i + 1)[k],
                ) by {
                    if k < i {
                        assert(states[k] == prev[k] && states[k + 1] == prev[k + 1]);
                        assert(commands@.take(i + 1)[k] == commands@.take(i as int)[k]);
                    }
                }
            }
            i = i + 1;
        }
        assert(commands@.take(commands@.len() as int) =~= commands@);
    }

    /// `states` runs through the effects of `commands`, one command per step.
    pub open spec fn command_trace(states: Seq<Self>, commands: Seq<UiCommand>) -> bool {
        &&& states.len() == commands.len() + 1
        &&& forall|k: int|
            0 <= k < commands.len() ==> #[trigger] Self::command_step(states[k], states[k + 1], commands[k])
    }

    /// The effect of `commands`, applied in order.
    pub open spec fn commands_applied(old: Self, new: Self, commands: Seq<UiCommand>) -> bool {
        exists|states: Seq<Self>|
            #[trigger] Self::command_trace(states, commands) && states[0] == old && states.last() == new
    }

    /// One frame: `commands` in order, then the pointer, then (on the running screen) the
    /// session clock.
    pub open spec fn frame_step(
        old: Self,
        new: Self,
        dt_micros: u64,
        commands: Seq<UiCommand>,
        pointer: PointerPos,
        wheel: i32,
    ) -> bool {
        exists|a: Self, b: Self|
            #[trigger] Self::commands_applied(old, a, commands) && #[trigger] Self::pointer_input_step(
                a,
                b,
                dt_micros,
                pointer,
                wheel,
            ) && if b.screen == ScreenState::Running {
                Self::clock_update(b, new, dt_micros)
            } else {
                new == b
            }
    }

    /// The effect of `command` on the screen `old` shows (the screen command table).
    pub open spec fn command_step(old: Self, new: Self, command: UiCommand) -> bool {
        match old.screen {
            ScreenState::MainMenu => Self::main_menu_step(old, new, command),
            ScreenState::ModeSelect => Self::mode_select_step(old, new, command),
            ScreenState::Loadout => Self::loadout_step(old, new, command),
            ScreenState::Running => Self::running_step(old, new, command),
            ScreenState::Summary => Self::summary_step(old, new, command),
            ScreenState::Leaderboard => Self::leaderboard_step(old, new, command),
            ScreenState::Settings => Self::settings_step(old, new, command),
        }
    }

    /// Applies one abstract command to the current screen.
    pub fn apply_command(&mut self, command: UiCommand)
        requires
            old(self).wf(),
        ensures
            final(self).wf(),
            final(self).seed == old(self).seed,
            final(self).screen_width == old(self).screen_width,
            Self::command_step(*old(self), *final(self), command),
    {
        match self.screen {
            ScreenState::MainMenu => self.apply_main_menu_command(command),
            ScreenState::ModeSelect => self.apply_mode_select_command(command),
            ScreenState::Loadout => self.apply_loadout_command(command),
            ScreenState::Running => self.apply_running_command(command),
            ScreenState::Summary => self.apply_summary_command(command),
            ScreenState::Leaderboard => self.apply_leaderboard_command(command),
            ScreenState::Settings => self.apply_settings_command(command),
        }
    }

    /// Main menu: Up/Down cycle the three entries; Confirm enters the chosen screen.
    pub open spec fn main_menu_step(old: Self, new: Self, command: UiCommand) -> bool {
        match command {
            UiCommand::Up => new == (SnakeGuiApp {
                main_menu_cursor: cycle_spec(old.main_menu_cursor as int, -1, 3) as usize,
                ..old
            }),
            UiCommand::Down => new == (SnakeGuiApp {
                main_menu_cursor: cycle_spec(old.main_menu_cursor as int, 1, 3) as usize,
                ..old
            }),
            UiCommand::Confirm => if old.main_menu_cursor == 0 {
                new == (SnakeGuiApp { mode_cursor: 0, screen: ScreenState::ModeSelect, ..old })
            } else if old.main_menu_cursor == 1 {
                new == (SnakeGuiApp {
                    leaderboard_mode_cursor: 0,
                    screen: ScreenState::Leaderboard,
                    ..old
                })
            } else {
                new == (SnakeGuiApp { screen: ScreenState::Settings, ..old })
            },
            _ => new == old,
        }
    }

    fn apply_main_menu_command(&mut self, command: UiCommand)
        requires
            old(self).wf(),
            old(self).screen == ScreenState::MainMenu,
        ensures
            final(self).wf(),
            Self::main_menu_step(*old(self), *final(self), command),
    {
        match command {
            UiCommand::Up => {
                self.main_menu_cursor = cycle_index(self.main_menu_cursor, -1, MAIN_MENU_LEN);
            },
            UiCommand::Down => {
                self.main_menu_cursor = cycle_index(self.main_menu_cursor, 1, MAIN_MENU_LEN);
            },
            UiCommand::Confirm => {
                if self.main_menu_cursor == 0 {
                    self.mode_cursor = 0;
                    self.screen = ScreenState::ModeSelect;
                } else if self.main_menu_cursor == 1 {
                    self.leaderboard_mode_cursor = 0;
                    self.screen = ScreenState::Leaderboard;
                } else {
                    self.screen = ScreenState::Settings;
                }
            },
            UiCommand::Back | UiCommand::Left | UiCommand::Right => {},
        }
    }

    /// The result of `start_mode(mode, requested)` from `old`: on success the running
    /// screen with a fresh run and its initial food; on failure the error is shown and the
    /// loadout (experimental) or mode screen comes back.
    pub open spec fn start_step(old: Self, new: Self, mode: GameMode, requested: Option<Seq<String>>) -> bool {
        if start_succeeds(old.engine, mode, requested) {
            &&& new == (SnakeGuiApp {
                running: new.running,
                screen: ScreenState::Running,
                message: None,
                ..old
            })
            &&& new.running matches Some(s) && {
                &&& fresh_run(s.run, mode, old.engine.board)
                &&& s.phase == RunningPhase::Active
                &&& s.direction == Direction::Right
                &&& s.queued_directions@.len() == 0
                &&& s.replay_timer_micros == 0
                &&& s.accumulator_micros == 0
                &&& s.tick_micros == crate::session::SIM_TICK_MICROS
                &&& s.replay_path@.len() == 0
                &&& s.pointer_idle_anchor is None
                &&& s.pointer_idle_elapsed_micros == 0
                &&& s.idle_grace_timer_micros == 0
                &&& s.foods@.len() == INITIAL_FOOD_COUNT
                &&& (s.foods@, s.spawn_seed) == crate::placement::spawn_choice(
                    old.seed,
                    old.engine.board,
                    start_body(),
                    Seq::empty(),
                    INITIAL_FOOD_COUNT as nat,
                )
            }
        } else {
            new == (SnakeGuiApp {
                message: Some(start_error(old.engine, mode, requested)),
                screen: if mode == GameMode::Experimental {
                    ScreenState::Loadout
                } else {
                    ScreenState::ModeSelect
                },
                ..old
            })
        }
    }

    /// Mode screen: Up/Left and Down/Right cycle the four modes; Confirm opens the loadout
    /// screen for Experimental and starts any other mode; Back returns to the main menu.
    pub open spec fn mode_select_step(old: Self, new: Self, command: UiCommand) -> bool {
        match command {
            UiCommand::Up | UiCommand::Left => new == (SnakeGuiApp {
                mode_cursor: cycle_spec(old.mode_cursor as int, -1, 4) as usize,
                ..old
            }),
            UiCommand::Down | UiCommand::Right => new == (SnakeGuiApp {
                mode_cursor: cycle_spec(old.mode_cursor as int, 1, 4) as usize,
                ..old
            }),
            UiCommand::Confirm => if mode_at_spec(old.mode_cursor as int) == GameMode::Experimental {
                &&& new == (SnakeGuiApp {
                    loadout_state: new.loadout_state,
                    screen: ScreenState::Loadout,
                    ..old
                })
                &&& new.loadout_state.slot_cursor == 0
                &&& new.loadout_state.selected_tool_indices@ == seq![0usize, 1, 2]
            } else {
                Self::start_step(old, new, mode_at_spec(old.mode_cursor as int), None)
            },
            UiCommand::Back => new == (SnakeGuiApp { screen: ScreenState::MainMenu, ..old }),
        }
    }

    fn apply_mode_select_command(&mut self, command: UiCommand)
        requires
            old(self).wf(),
            old(self).screen == ScreenState::ModeSelect,
        ensures
            final(self).wf(),
            Self::mode_select_step(*old(self), *final(self), command),
    {
        match command {
            UiCommand::Left | UiCommand::Up => {
                self.mode_cursor = cycle_index(self.mode_cursor, -1, MODE_COUNT);
            },
            UiCommand::Right | UiCommand::Down => {
                self.mode_cursor = cycle_index(self.mode_cursor, 1, MODE_COUNT);
            },
            UiCommand::Confirm => {
                let mode = mode_at(self.mode_cursor);
                if mode == GameMode::Experimental {
                    self.loadout_state = self.default_loadout_state();
                    self.screen = ScreenState::Loadout;
                } else {
                    self.start_mode(mode, None);
                }
            },
            UiCommand::Back => {
                self.screen = ScreenState::MainMenu;
            },
        }
    }

    /// Loadout screen: Up/Down move between the three slots; Left/Right cycle the tool in
    /// the focused slot; Confirm starts an experimental run with the chosen tools; Back
    /// returns to the mode screen.
    pub open spec fn loadout_step(old: Self, new: Self, command: UiCommand) -> bool {
        let n = old.engine.registry.defs().len();
        let slot = old.loadout_state.slot_cursor;
        let current = old.loadout_state.selected_tool_indices@[slot as int];
        {
            match command {
                UiCommand::Up => new == (SnakeGuiApp {
                    loadout_state: LoadoutState {
                        slot_cursor: cycle_spec(slot as int, -1, 3) as usize,
                        ..old.loadout_state
                    },
                    ..old
                }),
                UiCommand::Down => new == (SnakeGuiApp {
                    loadout_state: LoadoutState {
                        slot_cursor: cycle_spec(slot as int, 1, 3) as usize,
                        ..old.loadout_state
                    },
                    ..old
                }),
                UiCommand::Left => new.loadout_state.selected_tool_indices@ == old.loadout_state.selected_tool_indices@.update(
                    slot as int,
                    cycle_spec(current as int, -1, n as int) as usize,
                ) && new == (SnakeGuiApp {
                    loadout_state: LoadoutState {
                        selected_tool_indices: new.loadout_state.selected_tool_indices,
                        ..old.loadout_state
                    },
                    ..old
                }),
                UiCommand::Right => new.loadout_state.selected_tool_indices@ == old.loadout_state.selected_tool_indices@.update(
                    slot as int,
                    cycle_spec(current as int, 1, n as int) as usize,
                ) && new == (SnakeGuiApp {
                    loadout_state: LoadoutState {
                        selected_tool_indices: new.loadout_state.selected_tool_indices,
                        ..old.loadout_state
                    },
                    ..old
                }),
                UiCommand::Confirm => Self::start_step(
                    old,
                    new,
                    GameMode::Experimental,
                    Some(selected_ids(old)),
                ),
                UiCommand::Back => new == (SnakeGuiApp { screen: ScreenState::ModeSelect, ..old }),
            }
        }
    }

    fn apply_loadout_command(&mut self, command: UiCommand)
        requires
            old(self).wf(),
            old(self).screen == ScreenState::Loadout,
        ensures
            final(self).wf(),
            Self::loadout_step(*old(self), *final(self), command),
    {
        let n = self.engine.registry.list().len();
        match command {
            UiCommand::Up => {
                self.loadout_state.slot_cursor = cycle_index(self.loadout_state.slot_cursor, -1, LOADOUT_SLOTS);
            },
            UiCommand::Down => {
                self.loadout_state.slot_cursor = cycle_index(self.loadout_state.slot_cursor, 1, LOADOUT_SLOTS);
            },
            UiCommand::Left => {
                let slot = self.loadout_state.slot_cursor;
                let current = self.loadout_state.selected_tool_indices[slot];
                self.loadout_state.selected_tool_indices[slot] = cycle_index(current, -1, n);
            },
            UiCommand::Right => {
                let slot = self.loadout_state.slot_cursor;
                let current = self.loadout_state.selected_tool_indices[slot];
                self.loadout_state.selected_tool_indices[slot] = cycle_index(current, 1, n);
            },
            UiCommand::Confirm => {
                let selected = self.selected_loadout_tool_ids();
                self.start_mode(GameMode::Experimental, Some(selected));
            },
            UiCommand::Back => {
                self.screen = ScreenState::ModeSelect;
            },
        }
    }
}

impl SnakeGuiApp {
    /// Running screen: a direction key resumes an idle pause and offers that turn; Back
    /// ends the run at once; Confirm does nothing.
    pub open spec fn running_step(old: Self, new: Self, command: UiCommand) -> bool {
        let s = old.running->Some_0;
        match command {
            UiCommand::Confirm => new == old,
            UiCommand::Back => Self::session_completed(SnakeGuiApp { running: None, ..old }, new, s),
            _ => {
                let d = match command {
                    UiCommand::Up => Direction::Up,
                    UiCommand::Down => Direction::Down,
                    UiCommand::Left => Direction::Left,
                    _ => Direction::Right,
                };
                &&& new == (SnakeGuiApp { running: new.running, ..old })
                &&& new.running matches Some(t) && turn_offered(resumed(s, None), t, d)
            },
        }
    }

    fn apply_running_command(&mut self, command: UiCommand)
        requires
            old(self).wf(),
            old(self).screen == ScreenState::Running,
        ensures
            final(self).wf(),
            Self::running_step(*old(self), *final(self), command),
    {
        match command {
            UiCommand::Up => self.enqueue_running_direction(Direction::Up),
            UiCommand::Down => self.enqueue_running_direction(Direction::Down),
            UiCommand::Left => self.enqueue_running_direction(Direction::Left),
            UiCommand::Right => self.enqueue_running_direction(Direction::Right),
            UiCommand::Back => self.complete_running_session(),
            UiCommand::Confirm => {},
        }
    }

    /// Summary screen: Confirm and Back go to the main menu, Right to the leaderboards.
    pub open spec fn summary_step(old: Self, new: Self, command: UiCommand) -> bool {
        match command {
            UiCommand::Confirm | UiCommand::Back => new == (SnakeGuiApp {
                screen: ScreenState::MainMenu,
                ..old
            }),
            UiCommand::Right => new == (SnakeGuiApp { screen: ScreenState::Leaderboard, ..old }),
            _ => new == old,
        }
    }

    fn apply_summary_command(&mut self, command: UiCommand)
        requires
            old(self).wf(),
            old(self).screen == ScreenState::Summary,
        ensures
            final(self).wf(),
            Self::summary_step(*old(self), *final(self), command),
    {
        match command {
            UiCommand::Confirm | UiCommand::Back => {
                self.screen = ScreenState::MainMenu;
            },
            UiCommand::Right => {
                self.screen = ScreenState::Leaderboard;
            },
            UiCommand::Up | UiCommand::Down | UiCommand::Left => {},
        }
    }

    /// Leaderboard screen: Up/Left and Down/Right cycle the mode shown; Confirm and Back go
    /// to the main menu.
    pub open spec fn leaderboard_step(old: Self, new: Self, command: UiCommand) -> bool {
        match command {
            UiCommand::Up | UiCommand::Left => new == (SnakeGuiApp {
                leaderboard_mode_cursor: cycle_spec(old.leaderboard_mode_cursor as int, -1, 4) as usize,
                ..old
            }),
            UiCommand::Down | UiCommand::Right => new == (SnakeGuiApp {
                leaderboard_mode_cursor: cycle_spec(old.leaderboard_mode_cursor as int, 1, 4) as usize,
                ..old
            }),
            UiCommand::Confirm | UiCommand::Back => new == (SnakeGuiApp {
                screen: ScreenState::MainMenu,
                ..old
            }),
        }
    }

    fn apply_leaderboard_command(&mut self, command: UiCommand)
        requires
            old(self).wf(),
            old(self).screen == ScreenState::Leaderboard,
        ensures
            final(self).wf(),
            Self::leaderboard_step(*old(self), *final(self), command),
    {
        match command {
            UiCommand::Left | UiCommand::Up => {
                self.leaderboard_mode_cursor = cycle_index(self.leaderboard_mode_cursor, -1, MODE_COUNT);
            },
            UiCommand::Right | UiCommand::Down => {
                self.leaderboard_mode_cursor = cycle_index(self.leaderboard_mode_cursor, 1, MODE_COUNT);
            },
            UiCommand::Confirm | UiCommand::Back => {
                self.screen = ScreenState::MainMenu;
            },
        }
    }

    /// Settings screen: Left, Right and Confirm toggle the replay setting; Back goes to the
    /// main menu.
    pub open spec fn settings_step(old: Self, new: Self, command: UiCommand) -> bool {
        match command {
            UiCommand::Left | UiCommand::Right | UiCommand::Confirm => new == (SnakeGuiApp {
                engine: GameEngine {
                    profile: Profile {
                        replay_on_death: !old.engine.profile.replay_on_death,
                        ..old.engine.profile
                    },
                    ..old.engine
                },
                ..old
            }),
            UiCommand::Back => new == (SnakeGuiApp { screen: ScreenState::MainMenu, ..old }),
            _ => new == old,
        }
    }

    fn apply_settings_command(&mut self, command: UiCommand)
        requires
            old(self).wf(),
            old(self).screen == ScreenState::Settings,
        ensures
            final(self).wf(),
            Self::settings_step(*old(self), *final(self), command),
    {
        match command {
            UiCommand::Left | UiCommand::Right | UiCommand::Confirm => {
                let next = !self.engine.profile.replay_on_death;
                self.engine.enable_replay(next);
            },
            UiCommand::Back => {
                self.screen = ScreenState::MainMenu;
            },
            UiCommand::Up | UiCommand::Down => {},
        }
    }

    /// The ids of the catalog, in listing order.
    pub fn tool_ids(&self) -> (r: Vec<String>)
        ensures
            r@.len() == self.engine.registry.defs().len(),
            forall|i: int| 0 <= i < r@.len() ==> #[trigger] r@[i]@ == self.engine.registry.defs()[i].id@,
    {
        let defs = self.engine.registry.list();
        let mut ids: Vec<String> = Vec::new();
        let mut i: usize = 0;
        while i < defs.len()
            invariant
                i <= defs@.len(),
                ids@.len() == i,
                forall|j: int| 0 <= j < i ==> #[trigger] ids@[j]@ == defs@[j].id@,
            decreases defs@.len() - i,
        {
            ids.push(defs[i].id.clone());
            i = i + 1;
        }
        ids
    }

    /// The loadout screen's starting state: the first three catalog entries, the first
    /// slot focused.
    pub fn default_loadout_state(&self) -> (r: LoadoutState)
        requires
            self.engine.registry.is_demo(),
        ensures
            r.slot_cursor == 0,
            r.selected_tool_indices@ == seq![0usize, 1, 2],
    {
        let n = self.engine.registry.list().len();
        let mut indices: [usize; 3] = [0, 0, 0];
        let mut i: usize = 0;
        while i < 3
            invariant
                n == 4,
                i <= 3,
                forall|j: int| 0 <= j < i ==> #[trigger] indices@[j] == j,
            decreases 3 - i,
        {
            indices[i] = i % n;
            i = i + 1;
        }
        assert(indices@ =~= seq![0usize, 1, 2]);
        LoadoutState { slot_cursor: 0, selected_tool_indices: indices }
    }

    /// The ids the three slots currently select.
    pub fn selected_loadout_tool_ids(&self) -> (r: Vec<String>)
        requires
            self.engine.registry.is_demo(),
        ensures
            r@ == selected_ids(*self),
    {
        let defs = self.engine.registry.list();
        let n = defs.len();
        let mut r: Vec<String> = Vec::new();
        let mut k: usize = 0;
        while k < 3
            invariant
                n == 4,
                n == defs@.len(),
                defs@ == self.engine.registry.defs(),
                k <= 3,
                r@.len() == k,
                forall|j: int| 0 <= j < k ==> #[trigger] r@[j] == selected_ids(*self)[j],
            decreases 3 - k,
        {
            let idx = self.loadout_state.selected_tool_indices[k] % n;
            r.push(defs[idx].id.clone());
            k = k + 1;
        }
        assert(r@ =~= selected_ids(*self));
        r
    }

    /// Offers a turn to the running session, if there is one.
    pub fn enqueue_direction(&mut self, direction: Direction)
        requires
            old(self).wf(),
        ensures
            final(self).wf(),
            *final(self) == (SnakeGuiApp { running: final(self).running, ..*old(self) }),
            old(self).running is None ==> *final(self) == *old(self),
            old(self).running matches Some(s) ==> (final(self).running matches Some(t) && turn_offered(
                s,
                t,
                direction,
            )),
    {
        match self.running.take() {
            Some(mut state) => {
                state.enqueue_direction(direction);
                self.running = Some(state);
            },
            None => {},
        }
    }

    /// A directional command while running: resume from an idle pause, then offer the turn.
    pub fn enqueue_running_direction(&mut self, direction: Direction)
        requires
            old(self).wf(),
        ensures
            final(self).wf(),
            *final(self) == (SnakeGuiApp { running: final(self).running, ..*old(self) }),
            old(self).running is None ==> *final(self) == *old(self),
            old(self).running matches Some(s) ==> (final(self).running matches Some(t) && turn_offered(
                resumed(s, None),
                t,
                direction,
            )),
    {
        match self.running.take() {
            Some(mut state) => {
                state.resume_from_pointer_idle_pause(None);
                state.enqueue_direction(direction);
                self.running = Some(state);
            },
            None => {},
        }
    }

    /// Whether the wheel browses lists on the current screen.
    pub fn supports_scroll_navigation(&self) -> (r: bool)
        ensures
            r == scrolls(self.screen),
    {
        match self.screen {
            ScreenState::MainMenu | ScreenState::ModeSelect | ScreenState::Loadout
            | ScreenState::Leaderboard => true,
            _ => false,
        }
    }

    /// Whether the back hotzone is live on the current screen.
    pub fn is_menu_oriented_screen(&self) -> (r: bool)
        ensures
            r == (self.screen != ScreenState::Running),
    {
        self.screen != ScreenState::Running
    }

    /// The clickable region of the current screen under the pointer.
    pub fn pointer_focus_target(&self, p: PointerPos) -> (r: Option<PointerFocusTarget>)
        ensures
            r == focus_at(self.screen, p),
            r matches Some(PointerFocusTarget::MainMenuItem(i)) ==> i < MAIN_MENU_LEN,
            r matches Some(PointerFocusTarget::ModeItem(i)) ==> i < MODE_COUNT,
            r matches Some(PointerFocusTarget::LoadoutSlot(i)) ==> i < LOADOUT_SLOTS,
    {
        proof {
            crate::pointer::lemma_first_row_bound(p.y as int, 210, 50, 36, 12, 0, MAIN_MENU_LEN as nat);
            crate::pointer::lemma_first_row_bound(p.y as int, 200, 52, 36, 12, 0, MODE_COUNT as nat);
            crate::pointer::lemma_first_row_bound(p.y as int, 230, 90, 42, 20, 0, LOADOUT_SLOTS as nat);
        }
        match self.screen {
            ScreenState::MainMenu => match main_menu_item_at(p) {
                Some(i) => Some(PointerFocusTarget::MainMenuItem(i)),
                None => None,
            },
            ScreenState::ModeSelect => match mode_item_at(p) {
                Some(i) => Some(PointerFocusTarget::ModeItem(i)),
                None => None,
            },
            ScreenState::Loadout => match loadout_slot_at(p) {
                Some(i) => Some(PointerFocusTarget::LoadoutSlot(i)),
                None => None,
            },
            ScreenState::Settings => if settings_toggle_hit(p) {
                Some(PointerFocusTarget::SettingsToggle)
            } else {
                None
            },
            _ => None,
        }
    }

    /// `app` with its cursor moved to the hovered region `target`.
    pub open spec fn with_focus(app: Self, target: PointerFocusTarget) -> Self {
        match target {
            PointerFocusTarget::MainMenuItem(i) => SnakeGuiApp { main_menu_cursor: i, ..app },
            PointerFocusTarget::ModeItem(i) => SnakeGuiApp { mode_cursor: i, ..app },
            PointerFocusTarget::LoadoutSlot(i) => SnakeGuiApp {
                loadout_state: LoadoutState { slot_cursor: i, ..app.loadout_state },
                ..app
            },
            PointerFocusTarget::SettingsToggle => app,
        }
    }

    /// Moves the cursor of the current screen to a hovered region.
    pub fn apply_pointer_focus(&mut self, target: PointerFocusTarget)
        requires
            old(self).wf(),
            target matches PointerFocusTarget::MainMenuItem(i) ==> i < MAIN_MENU_LEN,
            target matches PointerFocusTarget::ModeItem(i) ==> i < MODE_COUNT,
            target matches PointerFocusTarget::LoadoutSlot(i) ==> i < LOADOUT_SLOTS,
        ensures
            final(self).wf(),
            *final(self) == Self::with_focus(*old(self), target),
    {
        match target {
            PointerFocusTarget::MainMenuItem(index) => {
                self.main_menu_cursor = index;
            },
            PointerFocusTarget::ModeItem(index) => {
                self.mode_cursor = index;
            },
            PointerFocusTarget::LoadoutSlot(index) => {
                self.loadout_state.slot_cursor = index;
            },
            PointerFocusTarget::SettingsToggle => {},
        }
    }

    /// Leaves an idle pause of the running session, if there is one.
    pub fn resume_from_pointer_idle_pause(&mut self, pointer: Option<PointerPos>)
        requires
            old(self).wf(),
        ensures
            final(self).wf(),
            *final(self) == (SnakeGuiApp {
                running: match old(self).running {
                    Some(s) => Some(resumed(s, pointer)),
                    None => None,
                },
                ..*old(self)
            }),
    {
        match self.running.take() {
            Some(mut state) => {
                state.resume_from_pointer_idle_pause(pointer);
                self.running = Some(state);
            },
            None => {},
        }
    }

    /// Starts a run of `mode` and enters the running screen with its initial food; on
    /// failure shows the error and returns to the selection screen.
    pub fn start_mode(&mut self, mode: GameMode, requested_loadout: Option<Vec<String>>)
        requires
            old(self).wf(),
            old(self).running is None,
        ensures
            final(self).wf(),
            Self::start_step(*old(self), *final(self), mode, request_view(requested_loadout)),
    {
        self.message = None;
        match self.engine.start_run(mode, requested_loadout) {
            Ok(run) => {
                assert(run.snake@ == start_body());
                assert forall|i: int| 0 <= i < run.snake@.len() implies in_bounds(
                    #[trigger] run.snake@[i],
                    run.board,
                ) by {
                    assert(run.snake@[i] == start_body()[i]);
                }
                let mut running = RunningState::new(run);
                let (foods, next_seed) = spawn_food_positions(
                    self.seed,
                    running.run.board,
                    running.run.snake.as_slice(),
                    running.foods.as_slice(),
                    INITIAL_FOOD_COUNT,
                );
                assert(running.foods@ =~= Seq::<Point>::empty());
                proof {
                    crate::placement::lemma_spawn_len(
                        self.seed,
                        running.run.board,
                        running.run.snake@,
                        Seq::empty(),
                        INITIAL_FOOD_COUNT as nat,
                    );
                }
                running.foods = foods;
                running.spawn_seed = next_seed;
                self.running = Some(running);
                self.screen = ScreenState::Running;
            },
            Err(err) => {
                self.message = Some(err);
                self.screen = if mode == GameMode::Experimental {
                    ScreenState::Loadout
                } else {
                    ScreenState::ModeSelect
                };
            },
        }
    }

    /// Ends the running session: scores the run, records it with the engine, fills the
    /// summary and shows it.
    pub fn complete_running_session(&mut self)
        requires
            old(self).wf(),
        ensures
            final(self).wf(),
            old(self).running is None ==> *final(self) == *old(self),
            old(self).running matches Some(s) ==> Self::session_completed(
                SnakeGuiApp { running: None, ..*old(self) },
                *final(self),
                s,
            ),
    {
        match self.running.take() {
            Some(state) => self.finalize_session(state),
            None => {},
        }
    }

    /// `new` shows the summary of the session `s`, which the engine has recorded.
    pub open spec fn session_completed(old: Self, new: Self, s: RunningState) -> bool {
        &&& new.running is None
        &&& new.screen == ScreenState::Summary
        &&& new.leaderboard_mode_cursor == mode_index_spec(s.run.mode)
        &&& new.summary matches Some(sum) && {
            &&& sum.mode == s.run.mode
            &&& sum.score == score_of(s.run.mode, s.run.metrics, s.run.effects)
            &&& sum.survival_ticks == s.run.metrics.survival_ticks
            &&& sum.food_eaten == s.run.metrics.food_eaten
            &&& sum.growth_units == s.run.metrics.growth_units
            &&& sum.loadout_summary@ == match s.run.active_loadout {
                Some(l) => crate::tools::summary_text(l.slots@),
                None => "none"@,
            }
        }
        &&& new.engine.leaderboards.rows_of(s.run.mode).len() == old.engine.leaderboards.rows_of(
            s.run.mode,
        ).len() + 1
        &&& crate::engine::run_recorded(old.engine, new.engine, s.run)
        &&& new == (SnakeGuiApp {
            engine: new.engine,
            screen: ScreenState::Summary,
            running: None,
            summary: new.summary,
            leaderboard_mode_cursor: mode_index_spec(s.run.mode),
            ..old
        })
    }

    fn finalize_session(&mut self, state: RunningState)
        requires
            old(self).wf_base(),
            old(self).running is None,
        ensures
            final(self).wf(),
            Self::session_completed(*old(self), *final(self), state),
    {
        let ghost rows_before = self.engine.leaderboards.rows_of(state.run.mode);
        let score = policy_for(state.run.mode).score(&state.run.metrics, &state.run.effects);
        let loadout_summary = match &state.run.active_loadout {
            Some(l) => l.summary(),
            None => "none".to_string(),
        };
        let _ = self.engine.finish_run(&state.run);
        proof {
            let e = choose|e: crate::leaderboard::LeaderboardEntry|
                crate::engine::entry_of_run(state.run, e) && #[trigger] self.engine.leaderboards.rows_of(
                    state.run.mode,
                ) == rows_before.insert(
                    crate::leaderboard::insert_pos(state.run.mode, rows_before, e) as int,
                    e,
                );
            crate::leaderboard::lemma_insert_pos_bound(state.run.mode, rows_before, e);
        }
        self.summary = Some(
            RunSummary {
                mode: state.run.mode,
                score,
                survival_ticks: state.run.metrics.survival_ticks,
                food_eaten: state.run.metrics.food_eaten,
                growth_units: state.run.metrics.growth_units,
                loadout_summary,
            },
        );
        self.leaderboard_mode_cursor = mode_index(state.run.mode);
        self.screen = ScreenState::Summary;
    }

    /// Runs one simulation step of the running session; finalizes the session when the
    /// step ended the run without a replay. Returns whether it did.
    pub fn step_running_tick(&mut self) -> (r: bool)
        requires
            old(self).wf(),
        ensures
            final(self).wf(),
            old(self).running is None ==> !r && *final(self) == *old(self),
            r ==> final(self).screen == ScreenState::Summary && final(self).running is None,
            !r ==> final(self).screen == old(self).screen,
            !r && old(self).running is Some ==> (final(self).running matches Some(t)
                && t.accumulator_micros == old(self).running->Some_0.accumulator_micros),
            Self::tick_step(*old(self), *final(self), r),
    {
        let ghost start = *self;
        let mut state = match self.running.take() {
            Some(s) => s,
            None => {
                return false;
            },
        };
        let ghost s = state;
        let ghost taken = *self;
        let outcome = state.advance(&mut self.engine);
        let ghost t = state;
        assert(advanced(s, t, start.engine.profile.replay_on_death, outcome));
        match outcome {
            StepOutcome::Finished => {
                self.finalize_session(state);
                assert(taken == (SnakeGuiApp { running: None, ..start }));
                true
            },
            StepOutcome::Continue => {
                self.running = Some(state);
                assert(*self == (SnakeGuiApp { running: Some(t), ..start }));
                false
            },
        }
    }

    /// `new` is `old` after one simulation step of its running session (if any), `r`
    /// telling whether the step ended the session and showed its summary.
    pub open spec fn tick_step(old: Self, new: Self, r: bool) -> bool {
        match old.running {
            None => !r && new == old,
            Some(s) => Self::session_ticked(old, new, s, r),
        }
    }

    /// The session `s` of `old` advanced one step (see `RunningState::advance`); a step
    /// that finished the run completes the session.
    pub open spec fn session_ticked(old: Self, new: Self, s: RunningState, r: bool) -> bool {
        exists|t: RunningState, o: StepOutcome|
            #[trigger] advanced(s, t, old.engine.profile.replay_on_death, o) && (o
                == StepOutcome::Finished ==> r && Self::session_completed(
                SnakeGuiApp { running: None, ..old },
                new,
                t,
            )) && (o == StepOutcome::Continue ==> !r && new == (SnakeGuiApp {
                running: Some(t),
                ..old
            }))
    }

    /// Whether the running session of `a` is active with at least one tick of time banked.
    pub open spec fn clock_due(a: Self) -> bool {
        &&& a.running is Some
        &&& a.running->Some_0.phase == RunningPhase::Active
        &&& a.running->Some_0.accumulator_micros >= a.running->Some_0.tick_micros
    }

    /// `a` with one tick's time taken from its session's accumulator.
    pub open spec fn consumed(a: Self) -> Self {
        SnakeGuiApp {
            running: Some(
                RunningState {
                    accumulator_micros: (a.running->Some_0.accumulator_micros
                        - a.running->Some_0.tick_micros) as u64,
                    ..a.running->Some_0
                },
            ),
            ..a
        }
    }

    /// `a` with `dt_micros` added (saturating) to its session's accumulator.
    pub open spec fn credited(a: Self, dt_micros: u64) -> Self {
        SnakeGuiApp {
            running: Some(
                RunningState {
                    accumulator_micros: a.running->Some_0.accumulator_micros.saturating_add(dt_micros),
                    ..a.running->Some_0
                },
            ),
            ..a
        }
    }

    /// The fixed-timestep loop from `a` to `b`: while the session is active with a tick of
    /// time banked, that time is consumed and one simulation step runs (`tick_step`); the
    /// loop stops after a step that ends the session or leaves the running screen. `fuel`
    /// bounds the number of steps.
    pub open spec fn clock_run(a: Self, b: Self, fuel: nat) -> bool
        decreases fuel,
    {
        if !Self::clock_due(a) {
            b == a
        } else if fuel == 0 {
            false
        } else {
            exists|m: Self, r: bool|
                #[trigger] Self::tick_step(Self::consumed(a), m, r) && if r || m.screen
                    != ScreenState::Running {
                    b == m
                } else {
                    Self::clock_run(m, b, (fuel - 1) as nat)
                }
        }
    }

    /// How `update_running` advances the session clock by `dt_micros`: an active session
    /// banks the time and runs the fixed-timestep loop; a replay counts down and then
    /// completes the session; a paused session, or none, is left alone.
    pub open spec fn clock_update(old: Self, new: Self, dt_micros: u64) -> bool {
        match old.running {
            None => new == old,
            Some(s) => if s.phase == RunningPhase::PointerIdlePause {
                new == old
            } else if s.phase == RunningPhase::Active {
                Self::clock_run(
                    Self::credited(old, dt_micros),
                    new,
                    (s.accumulator_micros.saturating_add(dt_micros) + 1) as nat,
                )
            } else {
                let left = s.replay_timer_micros.saturating_sub(dt_micros);
                let counted = RunningState { replay_timer_micros: left, ..s };
                if left > 0 {
                    new == (SnakeGuiApp { running: Some(counted), ..old })
                } else {
                    Self::session_completed(SnakeGuiApp { running: None, ..old }, new, counted)
                }
            },
        }
    }

    /// Advances the running session by `dt_micros`: an active run takes as many fixed
    /// ticks as the accumulated time covers; a replay counts down and then finalizes the
    /// session; a pause does nothing.
    pub fn update_running(&mut self, dt_micros: u64)
        requires
            old(self).wf(),
        ensures
            final(self).wf(),
            final(self).seed == old(self).seed,
            final(self).screen_width == old(self).screen_width,
            old(self).running is Some && old(self).running->Some_0.phase == RunningPhase::Active
                && final(self).running is Some && final(self).running->Some_0.phase == RunningPhase::Active
                ==> final(self).running->Some_0.accumulator_micros < final(self).running->Some_0.tick_micros,
            Self::clock_update(*old(self), *final(self), dt_micros),
    {
        let phase = match &self.running {
            Some(s) => s.phase,
            None => {
                return;
            },
        };
        match phase {
            RunningPhase::Active => {
                let ghost start = *self;
                let mut state = self.running.take().unwrap();
                state.accumulator_micros = state.accumulator_micros.saturating_add(dt_micros);
                self.running = Some(state);
                let ghost credited = *self;
                assert(credited == Self::credited(start, dt_micros));
                let ghost total: nat = (credited.running->Some_0.accumulator_micros + 1) as nat;
                let ghost mut fuel: nat = total;
                loop
                    invariant
                        self.wf(),
                        self.seed == start.seed,
                        self.screen_width == start.screen_width,
                        self.running is Some ==> fuel >= self.running->Some_0.accumulator_micros + 1,
                        forall|b: Self| #[trigger] Self::clock_run(*self, b, fuel) ==> Self::clock_run(credited, b, total),
                    ensures
                        self.wf(),
                        self.seed == start.seed,
                        self.screen_width == start.screen_width,
                        self.running is Some && self.running->Some_0.phase == RunningPhase::Active
                            ==> self.running->Some_0.accumulator_micros < self.running->Some_0.tick_micros,
                        Self::clock_run(credited, *self, total),
                    decreases
                            match self.running {
                                Some(s) => s.accumulator_micros as int,
                                None => 0,
                            },
                {
                    let ghost a = *self;
                    let mut state = match self.running.take() {
                        Some(s) => s,
                        None => {
                            assert(Self::clock_run(a, a, fuel));
                            break;
                        },
                    };
                    if state.phase != RunningPhase::Active || state.accumulator_micros < state.tick_micros {
                        self.running = Some(state);
                        assert(*self == a);
                        assert(Self::clock_run(a, a, fuel));
                        break;
                    }
                    state.accumulator_micros = state.accumulator_micros - state.tick_micros;
                    self.running = Some(state);
                    assert(*self == Self::consumed(a));
                    let done = self.step_running_tick();
                    let ghost m = *self;
                    assert(Self::tick_step(Self::consumed(a), m, done));
                    if done || self.screen != ScreenState::Running {
                        assert(Self::clock_run(a, m, fuel));
                        break;
                    }
                    proof {
                        assert forall|b: Self| #[trigger] Self::clock_run(m, b, (fuel - 1) as nat) implies Self::clock_run(
                            credited,
                            b,
                            total,
                        ) by {
                            assert(Self::clock_run(a, b, fuel));
                        }
                        fuel = (fuel - 1) as nat;
                    }
                }
            },
            RunningPhase::Replay => {
                let mut state = self.running.take().unwrap();
                state.replay_timer_micros = state.replay_timer_micros.saturating_sub(dt_micros);
                let finished = state.replay_timer_micros == 0;
                self.running = Some(state);
                if finished {
                    self.complete_running_session();
                }
            },
            RunningPhase::PointerIdlePause => {},
        }
    }

    /// One frame of pointer input (see `apply_pointer_input`): on the running screen the
    /// session's pointer step, with menu gestures reset; elsewhere the menu gestures.
    pub open spec fn pointer_input_step(old: Self, new: Self, dt_micros: u64, pointer: PointerPos, wheel: i32) -> bool {
        let from = match old.pointer_last_position {
            Some(last) => last,
            None => pointer,
        };
        if old.screen == ScreenState::Running {
            &&& new == (SnakeGuiApp {
                running: new.running,
                pointer_last_position: Some(pointer),
                pointer_focus_target: None,
                pointer_focus_dwell_micros: 0,
                pointer_focus_armed: false,
                pointer_back_dwell_micros: 0,
                pointer_back_armed: false,
                ..old
            })
            &&& new.running matches Some(t) && RunningState::pointer_step(
                old.running->Some_0,
                t,
                dt_micros,
                from,
                pointer,
                old.screen_width,
            )
        } else {
            Self::menu_input_step(old, new, dt_micros, from, pointer, wheel)
        }
    }

    /// One frame of pointer input: while running it steers and tracks idleness (and menu
    /// gestures reset); elsewhere it drives wheel navigation, hover focus with dwell
    /// confirmation, and the back hotzone.
    pub fn apply_pointer_input(&mut self, dt_micros: u64, pointer: PointerPos, wheel: i32)
        requires
            old(self).wf(),
        ensures
            final(self).wf(),
            final(self).seed == old(self).seed,
            final(self).screen_width == old(self).screen_width,
            final(self).pointer_last_position == Some(pointer),
            Self::pointer_input_step(*old(self), *final(self), dt_micros, pointer, wheel),
    {
        let from = match self.pointer_last_position {
            Some(last) => last,
            None => pointer,
        };
        if self.screen == ScreenState::Running {
            self.apply_pointer_running(dt_micros, from, pointer);
            self.pointer_focus_target = None;
            self.pointer_focus_dwell_micros = 0;
            self.pointer_focus_armed = false;
            self.pointer_back_dwell_micros = 0;
            self.pointer_back_armed = false;
            self.pointer_last_position = Some(pointer);
            return;
        }
        self.apply_pointer_menu(dt_micros, from, pointer, wheel);
        let ghost m = *self;
        self.pointer_last_position = Some(pointer);
        assert(Self::pointer_menu_step(*old(self), m, dt_micros, from, pointer, wheel));
    }

    /// Pointer input on the running screen.
    pub fn apply_pointer_running(&mut self, dt_micros: u64, from: PointerPos, to: PointerPos)
        requires
            old(self).wf(),
        ensures
            final(self).wf(),
            *final(self) == (SnakeGuiApp { running: final(self).running, ..*old(self) }),
            old(self).running is None ==> *final(self) == *old(self),
            old(self).running matches Some(s) ==> (final(self).running matches Some(t)
                && RunningState::pointer_step(s, t, dt_micros, from, to, old(self).screen_width)),
    {
        let width = self.screen_width;
        match self.running.take() {
            Some(mut state) => {
                state.apply_pointer(dt_micros, from, to, width);
                self.running = Some(state);
            },
            None => {},
        }
    }

    /// Pointer input on a menu screen: the wheel browses lists; hovering a region focuses it
    /// and resting on it for the dwell time confirms once; resting in the back hotzone for
    /// the dwell time goes back once.
    pub fn apply_pointer_menu(&mut self, dt_micros: u64, from: PointerPos, to: PointerPos, wheel: i32)
        requires
            old(self).wf(),
        ensures
            final(self).wf(),
            final(self).seed == old(self).seed,
            final(self).screen_width == old(self).screen_width,
            Self::pointer_menu_step(*old(self), *final(self), dt_micros, from, to, wheel),
    {
        self.apply_wheel(wheel);
        let ghost a = *self;
        let still = !pointer_moved_beyond(to, from);
        self.apply_focus_dwell(dt_micros, to, still);
        let ghost b = *self;
        self.apply_back_dwell(dt_micros, to, still);
        assert(Self::wheel_step(*old(self), a, wheel) && Self::focus_step(a, b, dt_micros, to, still));
    }

    /// The wheel: on a screen with a list, a step up acts as `Up` and a step down as `Down`.
    pub open spec fn wheel_step(old: Self, new: Self, wheel: i32) -> bool {
        if scrolls(old.screen) && wheel > 0 {
            Self::command_step(old, new, UiCommand::Up)
        } else if scrolls(old.screen) && wheel < 0 {
            Self::command_step(old, new, UiCommand::Down)
        } else {
            new == old
        }
    }

    /// `new` is `primed` after a dwell `Confirm`, with the focus dwell then disarmed.
    pub open spec fn confirm_fired(primed: Self, new: Self) -> bool {
        exists|mid: Self|
            #[trigger] Self::command_step(primed, mid, UiCommand::Confirm) && new == (SnakeGuiApp {
                pointer_focus_armed: true,
                ..mid
            })
    }

    /// `new` is `primed` after a hotzone `Back`, with the back dwell then disarmed.
    pub open spec fn back_fired(primed: Self, new: Self) -> bool {
        exists|mid: Self|
            #[trigger] Self::command_step(primed, mid, UiCommand::Back) && new == (SnakeGuiApp {
                pointer_back_armed: true,
                ..mid
            })
    }

    /// Hover focus: the region under the pointer takes the cursor at once; resting on the
    /// same region (`still`) accumulates dwell time, and reaching the dwell time fires
    /// `Confirm` once, until the pointer moves or changes region.
    pub open spec fn focus_step(old: Self, new: Self, dt_micros: u64, to: PointerPos, still: bool) -> bool {
        match focus_at(old.screen, to) {
            None => new == (SnakeGuiApp {
                pointer_focus_target: None,
                pointer_focus_dwell_micros: 0,
                pointer_focus_armed: false,
                ..old
            }),
            Some(t) => {
                let same = old.pointer_focus_target == Some(t) && still;
                let dwell = if same {
                    old.pointer_focus_dwell_micros.saturating_add(dt_micros)
                } else {
                    dt_micros
                };
                let armed = same && old.pointer_focus_armed;
                let primed = SnakeGuiApp {
                    pointer_focus_target: Some(t),
                    pointer_focus_dwell_micros: dwell,
                    pointer_focus_armed: armed,
                    ..Self::with_focus(old, t)
                };
                if dwell >= POINTER_DWELL_MICROS && !armed {
                    Self::confirm_fired(primed, new)
                } else {
                    new == primed
                }
            },
        }
    }

    /// The back hotzone: on every screen but the running one, resting in the zone
    /// accumulates dwell time, and reaching the dwell time fires `Back` once, until the
    /// pointer moves or leaves.
    pub open spec fn back_step(old: Self, new: Self, dt_micros: u64, to: PointerPos, still: bool) -> bool {
        if old.screen != ScreenState::Running && in_back_hotzone(to) {
            let dwell = if still {
                old.pointer_back_dwell_micros.saturating_add(dt_micros)
            } else {
                dt_micros
            };
            let armed = still && old.pointer_back_armed;
            let primed = SnakeGuiApp {
                pointer_back_dwell_micros: dwell,
                pointer_back_armed: armed,
                ..old
            };
            if dwell >= POINTER_DWELL_MICROS && !armed {
                Self::back_fired(primed, new)
            } else {
                new == primed
            }
        } else {
            new == (SnakeGuiApp { pointer_back_dwell_micros: 0, pointer_back_armed: false, ..old })
        }
    }

    /// One frame of pointer input on a menu screen: wheel, then focus dwell, then the back
    /// hotzone, with the pointer resting when it moved no more than the noise threshold.
    pub open spec fn pointer_menu_step(
        old: Self,
        new: Self,
        dt_micros: u64,
        from: PointerPos,
        to: PointerPos,
        wheel: i32,
    ) -> bool {
        Self::gesture_chain(old, new, dt_micros, to, !moved_beyond(to, from), wheel)
    }

    /// Wheel, then focus dwell, then back hotzone, in that order.
    pub open spec fn gesture_chain(old: Self, new: Self, dt_micros: u64, to: PointerPos, still: bool, wheel: i32) -> bool {
        exists|a: Self, b: Self|
            #[trigger] Self::wheel_step(old, a, wheel) && #[trigger] Self::focus_step(a, b, dt_micros, to, still)
                && Self::back_step(b, new, dt_micros, to, still)
    }

    /// One frame of pointer input on a menu screen, remembering the pointer position.
    pub open spec fn menu_input_step(
        old: Self,
        new: Self,
        dt_micros: u64,
        from: PointerPos,
        pointer: PointerPos,
        wheel: i32,
    ) -> bool {
        exists|m: Self|
            #[trigger] Self::pointer_menu_step(old, m, dt_micros, from, pointer, wheel) && new == (
            SnakeGuiApp { pointer_last_position: Some(pointer), ..m })
    }

    /// On a screen with a list, a wheel step up acts as `Up` and a step down as `Down`.
    fn apply_wheel(&mut self, wheel: i32)
        requires
            old(self).wf(),
        ensures
            final(self).wf(),
            final(self).seed == old(self).seed,
            final(self).screen_width == old(self).screen_width,
            Self::wheel_step(*old(self), *final(self), wheel),
    {
        if self.supports_scroll_navigation() {
            if wheel > 0 {
                self.apply_command(UiCommand::Up);
            } else if wheel < 0 {
                self.apply_command(UiCommand::Down);
            }
        }
    }

    /// Hover focus: the region under the pointer takes the cursor at once; resting on it
    /// (motion within the noise threshold) for the dwell time fires `Confirm` once, and
    /// leaving or moving re-arms it.
    fn apply_focus_dwell(&mut self, dt_micros: u64, to: PointerPos, still: bool)
        requires
            old(self).wf(),
        ensures
            final(self).wf(),
            final(self).seed == old(self).seed,
            final(self).screen_width == old(self).screen_width,
            Self::focus_step(*old(self), *final(self), dt_micros, to, still),
    {
        let ghost start = *self;
        match self.pointer_focus_target(to) {
            Some(target) => {
                self.apply_pointer_focus(target);
                assert(*self == Self::with_focus(start, target));
                let ghost same = start.pointer_focus_target == Some(target) && still;
                let on_same_target = match self.pointer_focus_target {
                    Some(current) => current == target,
                    None => false,
                };
                if on_same_target && still {
                    self.pointer_focus_dwell_micros = self.pointer_focus_dwell_micros.saturating_add(dt_micros);
                } else {
                    self.pointer_focus_dwell_micros = dt_micros;
                    self.pointer_focus_target = Some(target);
                    self.pointer_focus_armed = false;
                }
                let ghost primed = *self;
                assert(primed == (SnakeGuiApp {
                    pointer_focus_target: Some(target),
                    pointer_focus_dwell_micros: if same {
                        start.pointer_focus_dwell_micros.saturating_add(dt_micros)
                    } else {
                        dt_micros
                    },
                    pointer_focus_armed: same && start.pointer_focus_armed,
                    ..Self::with_focus(start, target)
                }));
                if self.pointer_focus_dwell_micros >= POINTER_DWELL_MICROS && !self.pointer_focus_armed {
                    self.apply_command(UiCommand::Confirm);
                    let ghost mid = *self;
                    self.pointer_focus_armed = true;
                    assert(Self::command_step(primed, mid, UiCommand::Confirm));
                    assert(*self == (SnakeGuiApp { pointer_focus_armed: true, ..mid }));
                }
            },
            None => {
                self.pointer_focus_target = None;
                self.pointer_focus_dwell_micros = 0;
                self.pointer_focus_armed = false;
            },
        }
    }

    /// The back hotzone: resting in it for the dwell time on any screen but the running
    /// one fires `Back` once; leaving or moving re-arms it.
    fn apply_back_dwell(&mut self, dt_micros: u64, to: PointerPos, still: bool)
        requires
            old(self).wf(),
        ensures
            final(self).wf(),
            final(self).seed == old(self).seed,
            final(self).screen_width == old(self).screen_width,
            Self::back_step(*old(self), *final(self), dt_micros, to, still),
    {
        let ghost start = *self;
        if self.is_menu_oriented_screen() && pointer_in_back_hotzone(to) {
            if still {
                self.pointer_back_dwell_micros = self.pointer_back_dwell_micros.saturating_add(dt_micros);
            } else {
                self.pointer_back_dwell_micros = dt_micros;
                self.pointer_back_armed = false;
            }
            let ghost primed = *self;
            assert(primed == (SnakeGuiApp {
                pointer_back_dwell_micros: if still {
                    start.pointer_back_dwell_micros.saturating_add(dt_micros)
                } else {
                    dt_micros
                },
                pointer_back_armed: still && start.pointer_back_armed,
                ..start
            }));
            if self.pointer_back_dwell_micros >= POINTER_DWELL_MICROS && !self.pointer_back_armed {
                self.apply_command(UiCommand::Back);
                let ghost mid = *self;
                self.pointer_back_armed = true;
                assert(Self::command_step(primed, mid, UiCommand::Back));
                assert(*self == (SnakeGuiApp { pointer_back_armed: true, ..mid }));
            }
        } else {
            self.pointer_back_dwell_micros = 0;
            self.pointer_back_armed = false;
        }
    }
}

} // verus!
