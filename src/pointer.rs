use vstd::prelude::*;

use crate::engine::{Board, Point};
use crate::session::{Direction, PointerPos};

verus! {

/// Pointer displacement, in pixels, below which motion counts as noise.
pub const POINTER_DISPLACEMENT_THRESHOLD: i64 = 2;

/// Side of one board cell on screen, in pixels.
pub const CELL_SIZE: i64 = 32;

/// Distance from the top of the screen to the board, in pixels.
pub const BOARD_ORIGIN_Y: i64 = 130;

/// Entries of the main menu.
pub const MAIN_MENU_LEN: usize = 3;

/// Entries of the mode list.
pub const MODE_COUNT: usize = 4;

/// Slots of an experimental loadout.
pub const LOADOUT_SLOTS: usize = 3;

/// `current + delta`, wrapped into `0..len` (0 for an empty list).
pub open spec fn cycle_spec(current: int, delta: int, len: int) -> int {
    if len <= 0 {
        0
    } else {
        (current + delta) % len
    }
}

/// Moves a cursor by `delta` around a list of `len` entries.
pub fn cycle_index(current: usize, delta: i32, len: usize) -> (r: usize)
    requires
        current <= i32::MAX,
        len <= i32::MAX,
    ensures
        r == cycle_spec(current as int, delta as int, len as int),
        len > 0 ==> r < len,
{
    if len == 0 {
        return 0;
    }
    let a = current as i64 + delta as i64;
    match a.checked_rem_euclid(len as i64) {
        Some(v) => v as usize,
        None => 0,
    }
}

/// The squared length of a displacement.
pub open spec fn sq_len(dx: int, dy: int) -> int {
    dx * dx + dy * dy
}

/// Whether `a` lies more than the noise threshold away from `b`.
pub open spec fn moved_beyond(a: PointerPos, b: PointerPos) -> bool {
    sq_len(a.x - b.x, a.y - b.y) > POINTER_DISPLACEMENT_THRESHOLD * POINTER_DISPLACEMENT_THRESHOLD
}

/// Whether `a` is more than the noise threshold away from `b`.
pub fn pointer_moved_beyond(a: PointerPos, b: PointerPos) -> (r: bool)
    ensures
        r == moved_beyond(a, b),
{
    let dx = a.x as i128 - b.x as i128;
    let dy = a.y as i128 - b.y as i128;
    proof {
        assert(0 <= dx * dx <= 0x1_0000_0000 * 0x1_0000_0000) by (nonlinear_arith)
            requires
                -0x1_0000_0000 <= dx <= 0x1_0000_0000,
        ;
        assert(0 <= dy * dy <= 0x1_0000_0000 * 0x1_0000_0000) by (nonlinear_arith)
            requires
                -0x1_0000_0000 <= dy <= 0x1_0000_0000,
        ;
    }
    dx * dx + dy * dy > (POINTER_DISPLACEMENT_THRESHOLD * POINTER_DISPLACEMENT_THRESHOLD) as i128
}

/// The steering direction of an offset along its dominant axis (ties go to x), with
/// `zero_is_positive` deciding the sign of a zero component.
pub open spec fn dominant_direction(dx: int, dy: int, zero_is_positive: bool) -> Direction {
    let ax = if dx < 0 {
        -dx
    } else {
        dx
    };
    let ay = if dy < 0 {
        -dy
    } else {
        dy
    };
    if ax >= ay {
        if dx > 0 || (dx == 0 && zero_is_positive) {
            Direction::Right
        } else {
            Direction::Left
        }
    } else if dy > 0 || (dy == 0 && zero_is_positive) {
        Direction::Down
    } else {
        Direction::Up
    }
}

/// The direction of a frame's pointer motion from `from` to `to`, if it exceeds the noise
/// threshold.
pub open spec fn delta_direction(from: PointerPos, to: PointerPos) -> Option<Direction> {
    if moved_beyond(to, from) {
        Some(dominant_direction(to.x - from.x, to.y - from.y, true))
    } else {
        None
    }
}

fn dominant(dx: i64, dy: i64, zero_is_positive: bool) -> (r: Direction)
    requires
        -0x1_0000_0000 <= dx <= 0x1_0000_0000,
        -0x1_0000_0000 <= dy <= 0x1_0000_0000,
    ensures
        r == dominant_direction(dx as int, dy as int, zero_is_positive),
{
    let ax = if dx < 0 {
        -dx
    } else {
        dx
    };
    let ay = if dy < 0 {
        -dy
    } else {
        dy
    };
    if ax >= ay {
        if dx > 0 || (dx == 0 && zero_is_positive) {
            Direction::Right
        } else {
            Direction::Left
        }
    } else if dy > 0 || (dy == 0 && zero_is_positive) {
        Direction::Down
    } else {
        Direction::Up
    }
}

/// The steering direction of the motion from `from` to `to`, if it is more than noise.
pub fn direction_from_delta(from: PointerPos, to: PointerPos) -> (r: Option<Direction>)
    ensures
        r == delta_direction(from, to),
{
    if !pointer_moved_beyond(to, from) {
        return None;
    }
    Some(dominant(to.x as i64 - from.x as i64, to.y as i64 - from.y as i64, true))
}

/// The direction from `head` toward `target` along the dominant axis (ties go to x), or
/// none when they coincide.
pub open spec fn toward_spec(head: Point, target: Point) -> Option<Direction> {
    if target.x == head.x && target.y == head.y {
        None
    } else {
        Some(dominant_direction(target.x - head.x, target.y - head.y, false))
    }
}

/// Steers from the head toward a hovered cell.
pub fn direction_toward(head: Point, target: Point) -> (r: Option<Direction>)
    ensures
        r == toward_spec(head, target),
{
    let dx = target.x as i64 - head.x as i64;
    let dy = target.y as i64 - head.y as i64;
    if dx == 0 && dy == 0 {
        return None;
    }
    Some(dominant(dx, dy, false))
}

/// Left edge of the board on a screen `screen_width` pixels wide (the board is centred).
pub open spec fn board_origin_x(board: Board, screen_width: i32) -> int {
    (screen_width - board.width * CELL_SIZE) / 2
}

/// The board cell under the pointer, if it is over the board.
pub open spec fn board_cell_spec(board: Board, screen_width: i32, p: PointerPos) -> Option<Point> {
    let ox = board_origin_x(board, screen_width);
    let oy = BOARD_ORIGIN_Y;
    let w = board.width * CELL_SIZE;
    let h = board.height * CELL_SIZE;
    if p.x < ox || p.x >= ox + w || p.y < oy || p.y >= oy + h {
        None
    } else {
        Some(Point { x: ((p.x - ox) / (CELL_SIZE as int)) as i32, y: ((p.y - oy) / (CELL_SIZE as int)) as i32 })
    }
}

/// The board cell under the pointer, if any.
pub fn pointer_board_cell(board: Board, screen_width: i32, p: PointerPos) -> (r: Option<Point>)
    requires
        0 <= board.width <= 0x100_0000,
        0 <= board.height <= 0x100_0000,
    ensures
        r == board_cell_spec(board, screen_width, p),
{
    let w = board.width as i64 * CELL_SIZE;
    let h = board.height as i64 * CELL_SIZE;
    let ox = match (screen_width as i64 - w).checked_div_euclid(2) {
        Some(v) => v,
        None => 0,
    };
    let oy = BOARD_ORIGIN_Y;
    let px = p.x as i64;
    let py = p.y as i64;
    if px < ox || px >= ox + w || py < oy || py >= oy + h {
        return None;
    }
    let cx = (px - ox) / CELL_SIZE;
    let cy = (py - oy) / CELL_SIZE;
    proof {
        assert(cx <= board.width) by (nonlinear_arith)
            requires
                0 <= px - ox < board.width * 32,
                cx == (px - ox) / 32,
        ;
        assert(cy <= board.height) by (nonlinear_arith)
            requires
                0 <= py - oy < board.height * 32,
                cy == (py - oy) / 32,
        ;
    }
    Some(Point { x: cx as i32, y: cy as i32 })
}

/// The first row, from row `k` of `count` on, that holds `y`: rows have baselines starting
/// at `first`, `gap` apart, each reaching `above` over and `below` under its baseline.
pub open spec fn first_row(y: int, first: int, gap: int, above: int, below: int, k: nat, count: nat) -> Option<usize>
    decreases count - k,
{
    if k >= count {
        None
    } else if first + gap * k - above <= y <= first + gap * k + below {
        Some(k as usize)
    } else {
        first_row(y, first, gap, above, below, k + 1, count)
    }
}

/// A row found among `count` rows is one of them.
pub proof fn lemma_first_row_bound(y: int, first: int, gap: int, above: int, below: int, k: nat, count: nat)
    requires
        count <= usize::MAX,
    ensures
        first_row(y, first, gap, above, below, k, count) matches Some(i) ==> k <= i < count,
    decreases count - k,
{
    if k < count {
        lemma_first_row_bound(y, first, gap, above, below, k + 1, count);
    }
}

/// The first of `count` rows that holds `y`.
fn row_hit(y: i32, first: i64, gap: i64, above: i64, below: i64, count: usize) -> (r: Option<usize>)
    requires
        0 <= first <= 1000,
        0 <= gap <= 100,
        0 <= above <= 100,
        0 <= below <= 100,
        count <= 10,
    ensures
        r == first_row(y as int, first as int, gap as int, above as int, below as int, 0, count as nat),
{
    let mut k: usize = 0;
    while k < count
        invariant
            k <= count,
            count <= 10,
            0 <= first <= 1000,
            0 <= gap <= 100,
            0 <= above <= 100,
            0 <= below <= 100,
            first_row(y as int, first as int, gap as int, above as int, below as int, 0, count as nat)
                == first_row(y as int, first as int, gap as int, above as int, below as int, k as nat, count as nat),
        decreases count - k,
    {
        assert(0 <= gap * k <= 1000) by (nonlinear_arith)
            requires
                0 <= gap <= 100,
                0 <= k <= 10,
        ;
        let base = first + gap * k as i64;
        if y as i64 >= base - above && y as i64 <= base + below {
            return Some(k);
        }
        k = k + 1;
    }
    None
}

/// The main menu entry under the pointer.
pub open spec fn main_menu_item_spec(p: PointerPos) -> Option<usize> {
    if p.x < 80 || p.x > 480 {
        None
    } else {
        first_row(p.y as int, 210, 50, 36, 12, 0, MAIN_MENU_LEN as nat)
    }
}

/// The main menu entry under the pointer, if any: rows 50 px apart from y = 210, each
/// reaching 36 px above and 12 px below its baseline.
pub fn main_menu_item_at(p: PointerPos) -> (r: Option<usize>)
    ensures
        r == main_menu_item_spec(p),
{
    if p.x < 80 || p.x > 480 {
        return None;
    }
    row_hit(p.y, 210, 50, 36, 12, MAIN_MENU_LEN)
}

/// The mode entry under the pointer.
pub open spec fn mode_item_spec(p: PointerPos) -> Option<usize> {
    if p.x < 80 || p.x > 520 {
        None
    } else {
        first_row(p.y as int, 200, 52, 36, 12, 0, MODE_COUNT as nat)
    }
}

/// The mode entry under the pointer, if any: rows 52 px apart from y = 200, each reaching
/// 36 px above and 12 px below its baseline.
pub fn mode_item_at(p: PointerPos) -> (r: Option<usize>)
    ensures
        r == mode_item_spec(p),
{
    if p.x < 80 || p.x > 520 {
        return None;
    }
    row_hit(p.y, 200, 52, 36, 12, MODE_COUNT)
}

/// The loadout slot under the pointer.
pub open spec fn loadout_slot_spec(p: PointerPos) -> Option<usize> {
    if p.x < 80 || p.x > 910 {
        None
    } else {
        first_row(p.y as int, 230, 90, 42, 20, 0, LOADOUT_SLOTS as nat)
    }
}

/// The loadout slot under the pointer, if any: boxes 90 px apart from y = 230, each
/// reaching 42 px above and 20 px below its baseline.
pub fn loadout_slot_at(p: PointerPos) -> (r: Option<usize>)
    ensures
        r == loadout_slot_spec(p),
{
    if p.x < 80 || p.x > 910 {
        return None;
    }
    row_hit(p.y, 230, 90, 42, 20, LOADOUT_SLOTS)
}

/// Whether the pointer is over the replay toggle of the settings screen.
pub fn settings_toggle_hit(p: PointerPos) -> (r: bool)
    ensures
        r == (90 <= p.x <= 910 && 185 <= p.y <= 245),
{
    p.x >= 90 && p.x <= 910 && p.y >= 185 && p.y <= 245
}

/// Whether the pointer is in the top-left corner region that dwells into `Back`.
pub fn pointer_in_back_hotzone(p: PointerPos) -> (r: bool)
    ensures
        r == (16 <= p.x <= 136 && 18 <= p.y <= 72),
{
    p.x >= 16 && p.x <= 136 && p.y >= 18 && p.y <= 72
}

} // verus!
