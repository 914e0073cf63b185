use vstd::prelude::*;
use vstd::wrapping::u64_specs;

use crate::engine::{body_contains, in_bounds, Board, Point};

verus! {

/// Multiplier of the linear-congruential generator that places food.
pub const LCG_MULTIPLIER: u64 = 6364136223846793005;

/// One step of the placement generator.
pub open spec fn lcg_step(seed: u64) -> u64 {
    u64_specs::wrapping_add(u64_specs::wrapping_mul(seed, LCG_MULTIPLIER), 1)
}

/// The generator state after `n` steps from `seed`.
pub open spec fn lcg_iterate(seed: u64, n: nat) -> u64
    decreases n,
{
    if n == 0 {
        seed
    } else {
        lcg_iterate(lcg_step(seed), (n - 1) as nat)
    }
}

/// Advances the placement generator by one step.
pub fn lcg_next(seed: u64) -> (r: u64)
    ensures
        r == lcg_step(seed),
{
    seed.wrapping_mul(LCG_MULTIPLIER).wrapping_add(1)
}

/// A board on which placement can work: at least one cell in each direction.
pub open spec fn usable_board(board: Board) -> bool {
    board.width >= 1 && board.height >= 1
}

/// The number of cells of the board.
pub open spec fn cell_count(board: Board) -> nat {
    (board.width * board.height) as nat
}

/// The cell with row-major index `idx`.
pub open spec fn cell_at(board: Board, idx: int) -> Point {
    Point { x: (idx % board.width as int) as i32, y: (idx / board.width as int) as i32 }
}

/// Whether two cells touch or are diagonal neighbours (Chebyshev distance at most 1).
pub open spec fn touching(a: Point, b: Point) -> bool {
    -1 <= a.x - b.x <= 1 && -1 <= a.y - b.y <= 1
}

/// Whether `c` may take a new food item on the first, spaced-out pass: off the body, and
/// neither on nor next to an already placed food item.
pub open spec fn spaced_free(c: Point, body: Seq<Point>, foods: Seq<Point>) -> bool {
    &&& !body.contains(c)
    &&& !foods.contains(c)
    &&& forall|k: int| 0 <= k < foods.len() ==> !touching(#[trigger] foods[k], c)
}

/// The first of `remaining` random draws, from generator state `rng`, that lands on a
/// spaced-out free cell, with the generator state that drew it.
pub open spec fn draw_search(
    rng: u64,
    remaining: nat,
    board: Board,
    body: Seq<Point>,
    foods: Seq<Point>,
) -> Option<(Point, u64)>
    decreases remaining,
{
    if remaining == 0 {
        None
    } else {
        let next = lcg_step(rng);
        let c = cell_at(board, next as int % cell_count(board) as int);
        if spaced_free(c, body, foods) {
            Some((c, next))
        } else {
            draw_search(next, (remaining - 1) as nat, board, body, foods)
        }
    }
}

/// The first cell from row-major index `idx` on that neither `body` nor `foods` holds.
pub open spec fn scan_free(board: Board, body: Seq<Point>, foods: Seq<Point>, idx: nat) -> Option<Point>
    decreases cell_count(board) - idx,
{
    if idx >= cell_count(board) {
        None
    } else {
        let c = cell_at(board, idx as int);
        if !body.contains(c) && !foods.contains(c) {
            Some(c)
        } else {
            scan_free(board, body, foods, idx + 1)
        }
    }
}

/// Where the next food item goes, and the generator state afterwards: the first of
/// `2 * cells` draws that is spaced out; failing that, the first free cell in row-major
/// order; failing that, the head.
pub open spec fn food_choice(seed: u64, board: Board, body: Seq<Point>, foods: Seq<Point>) -> (Point, u64) {
    let attempts = 2 * cell_count(board);
    match draw_search(seed, attempts, board, body, foods) {
        Some(pair) => pair,
        None => {
            let rng = lcg_step(lcg_iterate(seed, attempts));
            match scan_free(board, body, foods, 0) {
                Some(c) => (c, rng),
                None => (body[0], rng),
            }
        },
    }
}

/// The `count` food items placed one after another beside `existing`, and the generator
/// state afterwards.
pub open spec fn spawn_choice(
    seed: u64,
    board: Board,
    body: Seq<Point>,
    existing: Seq<Point>,
    count: nat,
) -> (Seq<Point>, u64)
    decreases count,
{
    if count == 0 {
        (Seq::empty(), seed)
    } else {
        let prev = spawn_choice(seed, board, body, existing, (count - 1) as nat);
        let next = food_choice(prev.1, board, body, existing + prev.0);
        (prev.0.push(next.0), next.1)
    }
}

/// The first cell, scanning circularly from row-major index `start` (offset `offset` on),
/// that `body` does not hold.
pub open spec fn circular_free(board: Board, body: Seq<Point>, start: nat, offset: nat) -> Option<Point>
    decreases cell_count(board) - offset,
{
    if offset >= cell_count(board) {
        None
    } else {
        let c = cell_at(board, (start + offset) as int % cell_count(board) as int);
        if !body.contains(c) {
            Some(c)
        } else {
            circular_free(board, body, start, offset + 1)
        }
    }
}

/// Where a reposition candidate is drawn, and the seed afterwards: the first free cell
/// scanning circularly from `seed % cells`, or the head where none is free.
pub open spec fn respawn_draw(seed: u64, board: Board, body: Seq<Point>) -> (Point, u64) {
    let start = (seed as int % cell_count(board) as int) as nat;
    let next = u64_specs::wrapping_add(seed, 1);
    match circular_free(board, body, start, 0) {
        Some(c) => (c, next),
        None => (body[0], next),
    }
}

proof fn lemma_cell_at_in_bounds(board: Board, idx: int)
    requires
        usable_board(board),
        0 <= idx < cell_count(board),
    ensures
        in_bounds(cell_at(board, idx), board),
{
    let w = board.width as int;
    let h = board.height as int;
    assert(idx / w < h) by (nonlinear_arith)
        requires
            0 <= idx < w * h,
            w >= 1,
            h >= 1,
    ;
    assert(idx / w >= 0) by (nonlinear_arith)
        requires
            0 <= idx,
            w >= 1,
    ;
}

proof fn lemma_cell_count_fits(board: Board)
    requires
        usable_board(board),
    ensures
        1 <= cell_count(board),
        2 * cell_count(board) <= u64::MAX,
        board.width as int * board.height as int == cell_count(board),
{
    let w = board.width as int;
    let h = board.height as int;
    assert(1 <= w * h <= 0x7fff_ffff * 0x7fff_ffff) by (nonlinear_arith)
        requires
            1 <= w <= 0x7fff_ffff,
            1 <= h <= 0x7fff_ffff,
    ;
}

/// The cell with row-major index `idx`.
fn cell_of(board: Board, idx: u64) -> (r: Point)
    requires
        usable_board(board),
        idx < cell_count(board),
    ensures
        r == cell_at(board, idx as int),
        in_bounds(r, board),
{
    proof {
        lemma_cell_at_in_bounds(board, idx as int);
    }
    let w = board.width as u64;
    Point { x: (idx % w) as i32, y: (idx / w) as i32 }
}

/// Whether `c` touches one of `foods`.
fn touches_any(foods: &[Point], c: Point) -> (r: bool)
    ensures
        r == exists|k: int| 0 <= k < foods@.len() && touching(#[trigger] foods@[k], c),
{
    let mut i: usize = 0;
    while i < foods.len()
        invariant
            i <= foods@.len(),
            forall|k: int| 0 <= k < i ==> !touching(#[trigger] foods@[k], c),
        decreases foods@.len() - i,
    {
        if points_touch_or_adjacent(foods[i], c) {
            return true;
        }
        i = i + 1;
    }
    false
}

/// Whether two cells touch or are diagonal neighbours.
pub fn points_touch_or_adjacent(a: Point, b: Point) -> (r: bool)
    ensures
        r == touching(a, b),
{
    let dx = a.x as i64 - b.x as i64;
    let dy = a.y as i64 - b.y as i64;
    -1 <= dx && dx <= 1 && -1 <= dy && dy <= 1
}

/// Picks the cell for one new food item, threading the generator state through.
pub fn next_food_position(seed: u64, board: Board, body: &[Point], foods: &[Point]) -> (r: (Point, u64))
    requires
        usable_board(board),
        body@.len() > 0,
    ensures
        r == food_choice(seed, board, body@, foods@),
{
    proof {
        lemma_cell_count_fits(board);
    }
    let total = (board.width as u64) * (board.height as u64);
    let attempts = total * 2;
    let mut rng = seed;
    let mut i: u64 = 0;
    while i < attempts
        invariant
            usable_board(board),
            total == cell_count(board),
            attempts == 2 * total,
            i <= attempts,
            draw_search(seed, attempts as nat, board, body@, foods@) == draw_search(
                rng,
                (attempts - i) as nat,
                board,
                body@,
                foods@,
            ),
            lcg_iterate(seed, attempts as nat) == lcg_iterate(rng, (attempts - i) as nat),
        decreases attempts - i,
    {
        rng = lcg_next(rng);
        let candidate = cell_of(board, rng % total);
        if !body_contains(body, candidate) && !body_contains(foods, candidate) && !touches_any(
            foods,
            candidate,
        ) {
            return (candidate, rng);
        }
        i = i + 1;
    }
    let mut idx: u64 = 0;
    while idx < total
        invariant
            usable_board(board),
            total == cell_count(board),
            idx <= total,
            scan_free(board, body@, foods@, 0) == scan_free(board, body@, foods@, idx as nat),
            rng == lcg_iterate(seed, attempts as nat),
            attempts == 2 * total,
            draw_search(seed, attempts as nat, board, body@, foods@) is None,
        decreases total - idx,
    {
        let candidate = cell_of(board, idx);
        if !body_contains(body, candidate) && !body_contains(foods, candidate) {
            return (candidate, lcg_next(rng));
        }
        idx = idx + 1;
    }
    (body[0], lcg_next(rng))
}

/// Places `count` food items one after another, each kept apart from `existing` and from
/// the ones placed before it, threading the generator state through.
pub fn spawn_food_positions(seed: u64, board: Board, body: &[Point], existing: &[Point], count: usize) -> (r: (
    Vec<Point>,
    u64,
))
    requires
        usable_board(board),
        body@.len() > 0,
    ensures
        (r.0@, r.1) == spawn_choice(seed, board, body@, existing@, count as nat),
{
    let mut spawned: Vec<Point> = Vec::new();
    let mut rng = seed;
    let mut k: usize = 0;
    while k < count
        invariant
            usable_board(board),
            body@.len() > 0,
            k <= count,
            (spawned@, rng) == spawn_choice(seed, board, body@, existing@, k as nat),
        decreases count - k,
    {
        let mut occupied: Vec<Point> = Vec::new();
        let mut j: usize = 0;
        while j < existing.len()
            invariant
                j <= existing@.len(),
                occupied@ == existing@.take(j as int),
            decreases existing@.len() - j,
        {
            occupied.push(existing[j]);
            j = j + 1;
        }
        let mut j: usize = 0;
        while j < spawned.len()
            invariant
                j <= spawned@.len(),
                occupied@ == existing@ + spawned@.take(j as int),
            decreases spawned@.len() - j,
        {
            assert(existing@.take(existing@.len() as int) =~= existing@);
            occupied.push(spawned[j]);
            assert(existing@ + spawned@.take(j + 1) =~= (existing@ + spawned@.take(j as int)).push(spawned@[j as int]));
            j = j + 1;
        }
        assert(spawned@.take(spawned@.len() as int) =~= spawned@);
        assert(existing@.take(existing@.len() as int) =~= existing@);
        let (food, next) = next_food_position(rng, board, body, occupied.as_slice());
        spawned.push(food);
        rng = next;
        k = k + 1;
    }
    (spawned, rng)
}

/// Draws a candidate cell for a reposition: the first free cell scanning circularly from
/// `seed % cells`, or the head where none is free; the seed advances by one.
pub fn next_respawn_position(seed: u64, board: Board, body: &[Point]) -> (r: (Point, u64))
    requires
        usable_board(board),
        body@.len() > 0,
    ensures
        r == respawn_draw(seed, board, body@),
{
    proof {
        lemma_cell_count_fits(board);
    }
    let total = (board.width as u64) * (board.height as u64);
    let start = seed % total;
    let next = seed.wrapping_add(1);
    let mut offset: u64 = 0;
    while offset < total
        invariant
            usable_board(board),
            total == cell_count(board),
            start == seed as int % total as int,
            start < total,
            2 * total <= u64::MAX,
            next == u64_specs::wrapping_add(seed, 1),
            offset <= total,
            circular_free(board, body@, start as nat, 0) == circular_free(board, body@, start as nat, offset as nat),
        decreases total - offset,
    {
        let candidate = cell_of(board, (start + offset) % total);
        if !body_contains(body, candidate) {
            return (candidate, next);
        }
        offset = offset + 1;
    }
    (body[0], next)
}

/// A batch of `count` placements holds `count` cells.
pub proof fn lemma_spawn_len(seed: u64, board: Board, body: Seq<Point>, existing: Seq<Point>, count: nat)
    ensures
        spawn_choice(seed, board, body, existing, count).0.len() == count,
    decreases count,
{
    if count > 0 {
        lemma_spawn_len(seed, board, body, existing, (count - 1) as nat);
    }
}

/// A cell found by the spaced-out draws is spaced out.
proof fn lemma_draw_search_spaced(rng: u64, remaining: nat, board: Board, body: Seq<Point>, foods: Seq<Point>)
    ensures
        draw_search(rng, remaining, board, body, foods) matches Some(pair) ==> spaced_free(pair.0, body, foods),
    decreases remaining,
{
    if remaining > 0 {
        lemma_draw_search_spaced(lcg_step(rng), (remaining - 1) as nat, board, body, foods);
    }
}

/// Whether the `k`-th of the items placed by `spawn_choice` came from the spaced-out draws.
pub open spec fn drawn_spaced(seed: u64, board: Board, body: Seq<Point>, existing: Seq<Point>, k: nat) -> bool {
    let prev = spawn_choice(seed, board, body, existing, k);
    draw_search(prev.1, 2 * cell_count(board), board, body, existing + prev.0) is Some
}

/// Food placed in one batch is spread out: when every item of the batch came from the
/// spaced-out draws (the row-major fallback is not needed), no two new items, and no new
/// item and an earlier one, lie within Chebyshev distance 1 of each other.
pub proof fn lemma_spawned_food_apart(seed: u64, board: Board, body: Seq<Point>, existing: Seq<Point>, count: nat)
    requires
        forall|k: nat| k < count ==> #[trigger] drawn_spaced(seed, board, body, existing, k),
    ensures
        spawn_choice(seed, board, body, existing, count).0.len() == count,
        forall|i: int, j: int|
            0 <= i < j < count ==> !touching(
                #[trigger] spawn_choice(seed, board, body, existing, count).0[i],
                #[trigger] spawn_choice(seed, board, body, existing, count).0[j],
            ),
        forall|i: int, j: int|
            0 <= i < existing.len() && 0 <= j < count ==> !touching(
                #[trigger] existing[i],
                #[trigger] spawn_choice(seed, board, body, existing, count).0[j],
            ),
    decreases count,
{
    if count > 0 {
        let c1 = (count - 1) as nat;
        assert(drawn_spaced(seed, board, body, existing, c1));
        lemma_spawned_food_apart(seed, board, body, existing, c1);
        let prev = spawn_choice(seed, board, body, existing, c1);
        let foods = existing + prev.0;
        lemma_draw_search_spaced(prev.1, 2 * cell_count(board), board, body, foods);
        let s = spawn_choice(seed, board, body, existing, count).0;
        assert(s == prev.0.push(food_choice(prev.1, board, body, foods).0));
        let c = s[c1 as int];
        assert(spaced_free(c, body, foods));
        assert forall|i: int, j: int| 0 <= i < j < count implies !touching(#[trigger] s[i], #[trigger] s[j]) by {
            if j < c1 {
                assert(s[i] == prev.0[i] && s[j] == prev.0[j]);
            } else {
                assert(foods[existing.len() + i] == s[i]);
                assert(!touching(foods[existing.len() + i], c));
            }
        }
        assert forall|i: int, j: int| 0 <= i < existing.len() && 0 <= j < count implies !touching(
            #[trigger] existing[i],
            #[trigger] s[j],
        ) by {
            if j < c1 {
                assert(s[j] == prev.0[j]);
            } else {
                assert(foods[i] == existing[i]);
                assert(!touching(foods[i], c));
            }
        }
    }
}

} // verus!
