//! Positions, the movable rectangle and the visible window.

use vstd::prelude::*;

verus! {

/// Column and row of the screen cell at which the local player is drawn.
pub const CENTER: i32 = 30;

/// Largest distance from the screen center, along either axis, at which a
/// cell is still inside the visible window.
pub const HALF_WINDOW: i32 = 30;

/// A cell of the world grid, or of the screen.
#[derive(Clone, Copy, Debug, PartialEq, Eq, Structural)]
pub struct Point {
    pub x: i32,
    pub y: i32,
}

/// Where the local player stands in the world.
#[derive(Clone, Copy, Debug, PartialEq, Eq, Structural)]
pub struct Position {
    pub x: i32,
    pub y: i32,
}

/// Bounds of the movable on-screen widget: its top-left corner and its size.
#[derive(Clone, Copy, Debug, PartialEq, Eq, Structural)]
pub struct Rect {
    pub width: i32,
    pub height: i32,
    pub x: i32,
    pub y: i32,
}

/// Screen coordinate, along one axis, of a world coordinate seen by a player
/// who stands at `player`: the player's own coordinate maps to `CENTER`.
pub open spec fn screen_coord(world: int, player: int) -> int {
    world - player + CENTER
}

/// Whether the screen cell `(x, y)` lies inside the visible window: at most
/// `HALF_WINDOW` away from the center along each axis.
pub open spec fn in_window(x: int, y: int) -> bool {
    &&& CENTER - HALF_WINDOW <= x <= CENTER + HALF_WINDOW
    &&& CENTER - HALF_WINDOW <= y <= CENTER + HALF_WINDOW
}

/// Whether a world point is visible to a player who stands at `player`.
pub open spec fn visible(p: Point, player: Position) -> bool {
    in_window(screen_coord(p.x as int, player.x as int), screen_coord(p.y as int, player.y as int))
}

/// The screen cell of a world point that is visible from `player`.
pub open spec fn screen_point(p: Point, player: Position) -> Point
    recommends
        visible(p, player),
{
    Point {
        x: screen_coord(p.x as int, player.x as int) as i32,
        y: screen_coord(p.y as int, player.y as int) as i32,
    }
}

/// Tells whether the screen cell `(x, y)` is inside the visible window.
pub fn inside_windows(x: i32, y: i32) -> (inside: bool)
    ensures
        inside == in_window(x as int, y as int),
{
    CENTER - HALF_WINDOW <= x && x <= CENTER + HALF_WINDOW && CENTER - HALF_WINDOW <= y && y
        <= CENTER + HALF_WINDOW
}

/// Maps a world point to its screen cell, or to `None` where that cell is
/// outside the visible window. No difference of coordinates overflows.
pub fn to_screen(p: Point, player: &Position) -> (cell: Option<Point>)
    ensures
        cell.is_some() == visible(p, *player),
        visible(p, *player) ==> cell == Some(screen_point(p, *player)),
{
    let x: i64 = p.x as i64 - player.x as i64 + CENTER as i64;
    let y: i64 = p.y as i64 - player.y as i64 + CENTER as i64;
    let low: i64 = (CENTER - HALF_WINDOW) as i64;
    let high: i64 = (CENTER + HALF_WINDOW) as i64;
    if low <= x && x <= high && low <= y && y <= high {
        Some(Point { x: x as i32, y: y as i32 })
    } else {
        None
    }
}

/// A point at the player's own position is drawn at the screen center.
pub proof fn lemma_player_position_is_center(p: Point, player: Position)
    requires
        p.x == player.x,
        p.y == player.y,
    ensures
        visible(p, player),
        screen_point(p, player) == (Point { x: CENTER, y: CENTER }),
{
}

/// A point farther from the player than the half-window size, along either
/// axis, is not drawn; a point within that distance along both axes is.
pub proof fn lemma_visible_iff_near(p: Point, player: Position)
    ensures
        visible(p, player) <==> {
            &&& -HALF_WINDOW <= p.x - player.x <= HALF_WINDOW
            &&& -HALF_WINDOW <= p.y - player.y <= HALF_WINDOW
        },
{
}

} // verus!
