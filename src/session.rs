use std::collections::VecDeque;

use vstd::prelude::*;

use crate::engine::{in_bounds, respawn_choice, Board, GameEngine, GameRun, Point};
use crate::placement::{
    next_respawn_position, respawn_draw, spawn_choice, spawn_food_positions,
};
use crate::policy::{outcome_of, CollisionOutcome};

verus! {

/// Length of one simulation tick, in microseconds.
pub const SIM_TICK_MICROS: u64 = 180_000;

/// How long the replay after a death stays on screen, in microseconds.
pub const REPLAY_MICROS: u64 = 850_000;

/// Food items placed when a run starts.
pub const INITIAL_FOOD_COUNT: usize = 6;

/// Every this many eaten items, a batch of new food is placed.
pub const FOOD_REFILL_EVERY_EATEN: u64 = 2;

/// Size of a batch of new food.
pub const FOOD_REFILL_COUNT: usize = 3;

/// Most turns that can wait in the queue.
pub const DIRECTION_QUEUE_CAPACITY: usize = 3;

/// A heading on the board; `Up` decreases `y`.
#[derive(Debug, Clone, Copy, PartialEq, Eq, Structural)]
pub enum Direction {
    Up,
    Down,
    Left,
    Right,
}

/// Whether `a` and `b` point in opposite directions.
pub open spec fn opposite_spec(a: Direction, b: Direction) -> bool {
    match (a, b) {
        (Direction::Up, Direction::Down) => true,
        (Direction::Down, Direction::Up) => true,
        (Direction::Left, Direction::Right) => true,
        (Direction::Right, Direction::Left) => true,
        _ => false,
    }
}

/// The cell one step from `p` in direction `d`; with `wraps`, a coordinate that leaves
/// the board re-enters at the opposite edge.
pub open spec fn step_spec(d: Direction, p: Point, width: i32, height: i32, wraps: bool) -> Point {
    let moved = match d {
        Direction::Up => Point { x: p.x, y: (p.y - 1) as i32 },
        Direction::Down => Point { x: p.x, y: (p.y + 1) as i32 },
        Direction::Left => Point { x: (p.x - 1) as i32, y: p.y },
        Direction::Right => Point { x: (p.x + 1) as i32, y: p.y },
    };
    if wraps {
        Point {
            x: if moved.x < 0 {
                (width - 1) as i32
            } else if moved.x >= width {
                0
            } else {
                moved.x
            },
            y: if moved.y < 0 {
                (height - 1) as i32
            } else if moved.y >= height {
                0
            } else {
                moved.y
            },
        }
    } else {
        moved
    }
}

impl Direction {
    /// Whether `other` points the opposite way.
    pub fn opposite(self, other: Direction) -> (r: bool)
        ensures
            r == opposite_spec(self, other),
    {
        match (self, other) {
            (Direction::Up, Direction::Down) => true,
            (Direction::Down, Direction::Up) => true,
            (Direction::Left, Direction::Right) => true,
            (Direction::Right, Direction::Left) => true,
            _ => false,
        }
    }

    /// The cell one step from `point` in this direction, wrapping at the edges if `wraps`.
    pub fn step(self, point: Point, board_width: i32, board_height: i32, wraps: bool) -> (r: Point)
        requires
            i32::MIN < point.x < i32::MAX,
            i32::MIN < point.y < i32::MAX,
            wraps ==> board_width >= 1 && board_height >= 1,
        ensures
            r == step_spec(self, point, board_width, board_height, wraps),
    {
        let mut p = point;
        match self {
            Direction::Up => p.y = p.y - 1,
            Direction::Down => p.y = p.y + 1,
            Direction::Left => p.x = p.x - 1,
            Direction::Right => p.x = p.x + 1,
        }
        if wraps {
            if p.x < 0 {
                p.x = board_width - 1;
            } else if p.x >= board_width {
                p.x = 0;
            }
            if p.y < 0 {
                p.y = board_height - 1;
            } else if p.y >= board_height {
                p.y = 0;
            }
        }
        p
    }
}

/// Whether moving the head to `next` collides: it leaves the board, or lands on the body.
/// When eating, the whole body counts; otherwise the tail, which moves away this step,
/// does not.
pub open spec fn collides(next: Point, board: Board, body: Seq<Point>, ate: bool) -> bool {
    let limit = if ate {
        body.len() as int
    } else if body.len() > 0 {
        body.len() - 1
    } else {
        0
    };
    !in_bounds(next, board) || body.take(limit).contains(next)
}

/// Whether a move of the head to `next` collides with the edge or with the body of `run`.
pub fn snake_collides(next_head: Point, run: &GameRun, ate_food: bool) -> (r: bool)
    ensures
        r == collides(next_head, run.board, run.snake@, ate_food),
{
    if !next_head.within(run.board) {
        return true;
    }
    let limit = if ate_food {
        run.snake.len()
    } else if run.snake.len() > 0 {
        run.snake.len() - 1
    } else {
        0
    };
    let mut i: usize = 0;
    while i < limit
        invariant
            limit <= run.snake@.len(),
            limit == (if ate_food {
                run.snake@.len() as int
            } else if run.snake@.len() > 0 {
                run.snake@.len() - 1
            } else {
                0
            }),
            i <= limit,
            forall|j: int| 0 <= j < i ==> run.snake@[j] != next_head,
        decreases limit - i,
    {
        if run.snake[i] == next_head {
            assert(run.snake@.take(limit as int)[i as int] == next_head);
            return true;
        }
        i = i + 1;
    }
    assert(!run.snake@.take(limit as int).contains(next_head)) by {
        if run.snake@.take(limit as int).contains(next_head) {
            let j = choose|j: int| 0 <= j < limit && run.snake@.take(limit as int)[j] == next_head;
            assert(run.snake@[j] == next_head);
        }
    }
    false
}

/// Sub-state of the running screen.
#[derive(Debug, Clone, Copy, PartialEq, Eq, Structural)]
pub enum RunningPhase {
    /// The simulation advances.
    Active,
    /// The pointer left the surface and stayed still; nothing advances.
    PointerIdlePause,
    /// The run ended and its last body is shown for a while.
    Replay,
}

/// A pointer position on screen, in whole pixels.
#[derive(Debug, Clone, Copy, PartialEq, Eq, Structural)]
pub struct PointerPos {
    pub x: i32,
    pub y: i32,
}

/// Everything the running screen owns: the run, steering, timers and food.
#[derive(Debug)]
pub struct RunningState {
    pub run: GameRun,
    pub direction: Direction,
    pub queued_directions: VecDeque<Direction>,
    pub phase: RunningPhase,
    pub replay_timer_micros: u64,
    pub accumulator_micros: u64,
    pub tick_micros: u64,
    pub foods: Vec<Point>,
    pub spawn_seed: u64,
    pub replay_path: Vec<Point>,
    pub pointer_idle_anchor: Option<PointerPos>,
    pub pointer_idle_elapsed_micros: u64,
    pub idle_grace_timer_micros: u64,
}

/// A run the session loop can drive: a non-empty body of distinct cells on the board and
/// at most one grace tick pending.
pub open spec fn run_playable(run: GameRun) -> bool {
    &&& run.snake@.len() > 0
    &&& run.snake@.no_duplicates()
    &&& forall|i: int| 0 <= i < run.snake@.len() ==> in_bounds(#[trigger] run.snake@[i], run.board)
    &&& run.grace_ticks_remaining <= 1
}

/// The direction a new turn is compared with: the last queued one, or the current one.
pub open spec fn reference_direction(queue: Seq<Direction>, current: Direction) -> Direction {
    if queue.len() > 0 {
        queue.last()
    } else {
        current
    }
}

/// Whether a turn to `d` joins the queue: the run is active, the turn is neither the
/// reference direction nor its opposite, and the queue has room.
pub open spec fn turn_accepted(phase: RunningPhase, queue: Seq<Direction>, current: Direction, d: Direction) -> bool {
    let reference = reference_direction(queue, current);
    &&& phase == RunningPhase::Active
    &&& d != reference
    &&& !opposite_spec(d, reference)
    &&& queue.len() < DIRECTION_QUEUE_CAPACITY
}

/// The tick step changed the run as a step that ended in a collision does.
pub open spec fn collision_applied(before: GameRun, after: GameRun, candidate: Point, replay_on_death: bool) -> bool {
    if outcome_of(before.mode) == CollisionOutcome::Die {
        after == (GameRun { ended: true, show_replay: replay_on_death, ..before })
    } else if after.ended {
        after == (GameRun { ended: true, ..before })
    } else {
        &&& after.grace_ticks_remaining == 1
        &&& after.snake@.len() == before.snake@.len()
        &&& respawn_choice(before.board, before.snake@, candidate, after.snake@[0])
        &&& after.snake@ == before.snake@.update(0, after.snake@[0])
        &&& after == (GameRun { snake: after.snake, grace_ticks_remaining: 1, ..before })
    }
}

impl RunningState {
    /// The invariant the session loop keeps.
    pub open spec fn wf(self) -> bool {
        &&& run_playable(self.run)
        &&& self.queued_directions@.len() <= DIRECTION_QUEUE_CAPACITY
        &&& self.phase != RunningPhase::Replay ==> !self.run.ended
    }

    /// A fresh running state for `run`, heading right, with nothing queued or timed.
    pub fn new(run: GameRun) -> (r: Self)
        ensures
            r.run == run,
            r.direction == Direction::Right,
            r.queued_directions@.len() == 0,
            r.phase == RunningPhase::Active,
            r.replay_timer_micros == 0,
            r.accumulator_micros == 0,
            r.tick_micros == SIM_TICK_MICROS,
            r.foods@.len() == 0,
            r.spawn_seed == 0,
            r.replay_path@.len() == 0,
            r.pointer_idle_anchor.is_none(),
            r.pointer_idle_elapsed_micros == 0,
            r.idle_grace_timer_micros == 0,
    {
        RunningState {
            run,
            direction: Direction::Right,
            queued_directions: VecDeque::new(),
            phase: RunningPhase::Active,
            replay_timer_micros: 0,
            accumulator_micros: 0,
            tick_micros: SIM_TICK_MICROS,
            foods: Vec::new(),
            spawn_seed: 0,
            replay_path: Vec::new(),
            pointer_idle_anchor: None,
            pointer_idle_elapsed_micros: 0,
            idle_grace_timer_micros: 0,
        }
    }

    /// Queues a turn, unless the run is not active, the turn repeats or reverses the last
    /// queued (or current) direction, or the queue is full.
    pub fn enqueue_direction(&mut self, direction: Direction)
        ensures
            final(self).queued_directions@ == if turn_accepted(
                old(self).phase,
                old(self).queued_directions@,
                old(self).direction,
                direction,
            ) {
                old(self).queued_directions@.push(direction)
            } else {
                old(self).queued_directions@
            },
            old(self).queued_directions@.len() <= DIRECTION_QUEUE_CAPACITY
                ==> final(self).queued_directions@.len() <= DIRECTION_QUEUE_CAPACITY,
            *final(self) == (RunningState { queued_directions: final(self).queued_directions, ..*old(self) }),
            !turn_accepted(old(self).phase, old(self).queued_directions@, old(self).direction, direction)
                ==> *final(self) == *old(self),
            final(self).run == old(self).run,
            final(self).direction == old(self).direction,
            final(self).phase == old(self).phase,
            final(self).replay_timer_micros == old(self).replay_timer_micros,
            final(self).accumulator_micros == old(self).accumulator_micros,
            final(self).tick_micros == old(self).tick_micros,
            final(self).foods == old(self).foods,
            final(self).spawn_seed == old(self).spawn_seed,
            final(self).replay_path == old(self).replay_path,
            final(self).pointer_idle_anchor == old(self).pointer_idle_anchor,
            final(self).pointer_idle_elapsed_micros == old(self).pointer_idle_elapsed_micros,
            final(self).idle_grace_timer_micros == old(self).idle_grace_timer_micros,
    {
        if self.phase != RunningPhase::Active {
            return;
        }
        let n = self.queued_directions.len();
        let reference = if n > 0 {
            self.queued_directions[n - 1]
        } else {
            self.direction
        };
        if direction == reference || direction.opposite(reference) {
            return;
        }
        if n < DIRECTION_QUEUE_CAPACITY {
            self.queued_directions.push_back(direction);
        }
    }
}

/// The index of the first food item on `p`, if any.
fn food_index(foods: &Vec<Point>, p: Point) -> (r: Option<usize>)
    ensures
        r.is_some() == foods@.contains(p),
        r.is_some() ==> r.unwrap() < foods@.len() && foods@[r.unwrap() as int] == p,
{
    let mut i: usize = 0;
    while i < foods.len()
        invariant
            i <= foods@.len(),
            forall|j: int| 0 <= j < i ==> foods@[j] != p,
        decreases foods@.len() - i,
    {
        if foods[i] == p {
            return Some(i);
        }
        i = i + 1;
    }
    None
}

/// Moving the head to a cell the remaining body does not hold keeps the cells distinct.
proof fn lemma_move_keeps_cells_distinct(body: Seq<Point>, next: Point, ate: bool)
    requires
        body.no_duplicates(),
        body.len() > 0,
        !body.take(if ate { body.len() as int } else { body.len() - 1 }).contains(next),
    ensures
        (if ate {
            seq![next] + body
        } else {
            (seq![next] + body).drop_last()
        }).no_duplicates(),
{
    let limit = if ate { body.len() as int } else { body.len() - 1 };
    let moved = (seq![next] + body).take(limit + 1);
    assert(moved =~= (if ate {
        seq![next] + body
    } else {
        (seq![next] + body).drop_last()
    }));
    assert forall|i: int, j: int| 0 <= i < j < moved.len() implies moved[i] != moved[j] by {
        if i == 0 {
            assert(moved[j] == body.take(limit)[j - 1]);
        } else {
            assert(moved[i] == body[i - 1] && moved[j] == body[j - 1]);
        }
    }
}

/// Replacing the head by a cell the body does not hold keeps the cells distinct.
proof fn lemma_new_head_keeps_cells_distinct(body: Seq<Point>, p: Point)
    requires
        body.no_duplicates(),
        body.len() > 0,
        !body.contains(p),
    ensures
        body.update(0, p).no_duplicates(),
{
    let moved = body.update(0, p);
    assert forall|i: int, j: int| 0 <= i < j < moved.len() implies moved[i] != moved[j] by {
        if i == 0 {
            assert(moved[j] == body[j]);
        }
    }
}

/// Appends every cell of `src` to `dst`, in order.
fn append_points(dst: &mut Vec<Point>, src: &Vec<Point>)
    ensures
        final(dst)@ == old(dst)@ + src@,
{
    let mut k: usize = 0;
    while k < src.len()
        invariant
            k <= src@.len(),
            dst@ == old(dst)@ + src@.take(k as int),
        decreases src@.len() - k,
    {
        dst.push(src[k]);
        assert(old(dst)@ + src@.take(k + 1) =~= (old(dst)@ + src@.take(k as int)).push(src@[k as int]));
        k = k + 1;
    }
    assert(src@.take(src@.len() as int) =~= src@);
}

/// What one simulation step did.
#[derive(Debug, Clone, Copy, PartialEq, Eq, Structural)]
pub enum StepOutcome {
    /// The run goes on (possibly after a reposition), or waits in replay.
    Continue,
    /// The run ended and no replay is due: the session is to be finalized now.
    Finished,
}

/// How one simulation step changes a running state and what it reports, when the
/// profile's replay setting is `replay_on_death` (see `advance`).
pub open spec fn advanced(old: RunningState, new: RunningState, replay_on_death: bool, r: StepOutcome) -> bool {
    &&& new.run.board == old.run.board
    &&& r == StepOutcome::Continue ==> new.wf()
    &&& r == StepOutcome::Finished ==> new.run.ended && run_playable(new.run)
    &&& (old.phase != RunningPhase::Active ==> r == StepOutcome::Continue && new
                == old)
    &&& (old.phase == RunningPhase::Active ==> {
            let queue = old.queued_directions@;
            let dir = if queue.len() > 0 {
                queue[0]
            } else {
                old.direction
            };
            let run = old.run;
            let board = run.board;
            let next = step_spec(dir, run.snake@[0], board.width, board.height, run.effects.has_soft_wrap);
            let ate = old.foods@.contains(next);
            let ticked = GameRun {
                metrics: crate::policy::RunMetrics {
                    survival_ticks: run.metrics.survival_ticks.saturating_add(1),
                    ..run.metrics
                },
                grace_ticks_remaining: 0,
                ..run
            };
            &&& new.direction == dir
            &&& new.queued_directions@ == if queue.len() > 0 {
                queue.drop_first()
            } else {
                queue
            }
            &&& new.tick_micros == old.tick_micros
            &&& new.accumulator_micros == old.accumulator_micros
            &&& if collides(next, board, run.snake@, ate) {
                let drawn = respawn_draw(old.spawn_seed, board, run.snake@);
                &&& new.replay_path@ == run.snake@
                &&& new.spawn_seed == drawn.1
                &&& new.foods == old.foods
                &&& collision_applied(ticked, new.run, drawn.0, replay_on_death)
                &&& (new.run.ended && new.run.show_replay) ==> {
                    &&& new.phase == RunningPhase::Replay
                    &&& new.replay_timer_micros == REPLAY_MICROS
                    &&& r == StepOutcome::Continue
                }
                &&& (new.run.ended && !new.run.show_replay) ==> r == StepOutcome::Finished
                &&& !new.run.ended ==> new.phase == RunningPhase::Active && r
                    == StepOutcome::Continue
            } else {
                &&& r == StepOutcome::Continue
                &&& new.phase == RunningPhase::Active
                &&& new.replay_path == old.replay_path
                &&& new.run.snake@ == if ate {
                    seq![next] + run.snake@
                } else {
                    (seq![next] + run.snake@).drop_last()
                }
                &&& new.run.metrics.survival_ticks == ticked.metrics.survival_ticks
                &&& new.run.ended == run.ended
                &&& new.run.mode == run.mode
                &&& new.run.effects == run.effects
                &&& !ate ==> {
                    &&& new.foods == old.foods
                    &&& new.spawn_seed == old.spawn_seed
                    &&& new.run.metrics.food_eaten == run.metrics.food_eaten
                    &&& new.run.metrics.growth_units == run.metrics.growth_units
                }
                &&& ate ==> {
                    let eaten = run.metrics.food_eaten.saturating_add(1);
                    let refill = if eaten % FOOD_REFILL_EVERY_EATEN == 0 {
                        FOOD_REFILL_COUNT
                    } else {
                        0
                    };
                    &&& new.run.metrics.food_eaten == eaten
                    &&& new.run.metrics.growth_units == run.metrics.growth_units.saturating_add(1)
                    &&& exists|i: int|
                        0 <= i < old.foods@.len() && old.foods@[i] == next && ({
                            let kept = old.foods@.remove(i);
                            let spawned = spawn_choice(
                                old.spawn_seed,
                                board,
                                new.run.snake@,
                                kept,
                                refill as nat,
                            );
                            &&& new.foods@ == kept + spawned.0
                            &&& new.spawn_seed == spawned.1
                        })
                }
            }
        })
}

impl RunningState {
    /// Performs one simulation step: count the tick, take the next queued turn, move the
    /// head one cell, and either resolve a collision through the engine or commit the move,
    /// eating and refilling food as due.
    #[verifier::rlimit(40)]
    pub fn advance(&mut self, engine: &mut GameEngine) -> (r: StepOutcome)
        requires
            old(self).wf(),
        ensures
            advanced(*old(self), *final(self), old(engine).profile.replay_on_death, r),
            *final(engine) == *old(engine),
    {
        if self.phase != RunningPhase::Active {
            return StepOutcome::Continue;
        }
        let ghost old_self = *self;
        self.run.tick();
        match self.queued_directions.pop_front() {
            Some(d) => {
                self.direction = d;
            },
            None => {},
        }
        let current_head = self.run.snake[0];
        assert(in_bounds(self.run.snake@[0], self.run.board));
        let next_head = self.direction.step(
            current_head,
            self.run.board.width,
            self.run.board.height,
            self.run.effects.has_soft_wrap,
        );
        let eaten_food_index = food_index(&self.foods, next_head);
        let ate_food = eaten_food_index.is_some();
        let collision = snake_collides(next_head, &self.run, ate_food);
        if collision && self.run.grace_ticks_remaining == 0 {
            self.replay_path = self.run.snake.clone();
            let (respawn, next_seed) = next_respawn_position(
                self.spawn_seed,
                self.run.board,
                self.run.snake.as_slice(),
            );
            self.spawn_seed = next_seed;
            let ghost before = self.run;
            match engine.handle_collision(&mut self.run, respawn) {
                Ok(()) => {},
                Err(_) => {
                    self.run.ended = true;
                },
            }
            assert(collision_applied(before, self.run, respawn, engine.profile.replay_on_death));
            proof {
                if !self.run.ended && outcome_of(before.mode) == CollisionOutcome::Reposition {
                    let head = self.run.snake@[0];
                    assert(respawn_choice(before.board, before.snake@, respawn, head));
                    lemma_new_head_keeps_cells_distinct(before.snake@, head);
                }
            }
            assert(run_playable(self.run));
            if self.run.ended {
                if self.run.show_replay {
                    self.phase = RunningPhase::Replay;
                    self.replay_timer_micros = REPLAY_MICROS;
                } else {
                    return StepOutcome::Finished;
                }
            }
            return StepOutcome::Continue;
        }
        assert(!collision);
        assert(in_bounds(next_head, self.run.board));
        let ghost body_before = self.run.snake@;
        proof {
            lemma_move_keeps_cells_distinct(body_before, next_head, ate_food);
        }
        self.run.snake.insert(0, next_head);
        assert(self.run.snake@ =~= seq![next_head] + body_before);
        match eaten_food_index {
            Some(index) => {
                self.foods.remove(index);
                self.run.add_food(1);
                let refill_count = if self.run.metrics.food_eaten % FOOD_REFILL_EVERY_EATEN == 0 {
                    FOOD_REFILL_COUNT
                } else {
                    0
                };
                let (spawned, next_seed) = spawn_food_positions(
                    self.spawn_seed,
                    self.run.board,
                    self.run.snake.as_slice(),
                    self.foods.as_slice(),
                    refill_count,
                );
                append_points(&mut self.foods, &spawned);
                self.spawn_seed = next_seed;
            },
            None => {
                self.run.snake.pop();
                assert(self.run.snake@ =~= (seq![next_head] + body_before).drop_last());
            },
        }
        assert forall|i: int| 0 <= i < self.run.snake@.len() implies in_bounds(
            #[trigger] self.run.snake@[i],
            self.run.board,
        ) by {
            if i > 0 {
                assert(self.run.snake@[i] == body_before[i - 1]);
            }
        }
        StepOutcome::Continue
    }
}

} // verus!
