//! Pure window geometry. Coordinates and sizes are whole logical pixels;
//! scale factors are whole thousandths.

use vstd::arithmetic::div_mod::{lemma_fundamental_div_mod, lemma_mod_pos_bound};
use vstd::prelude::*;

verus! {

/// Natural width of the widget.
pub const BASE_WIDTH: i64 = 250;

/// Natural height of the widget.
pub const BASE_HEIGHT: i64 = 110;

/// Narrowest and widest size the window may take.
pub const MIN_WIDTH: i64 = 200;
pub const MAX_WIDTH: i64 = 375;

/// Lowest and highest size the window may take.
pub const MIN_HEIGHT: i64 = 88;
pub const MAX_HEIGHT: i64 = 1000;

/// Scale factors are written in thousandths: `SCALE_UNIT` is the natural size.
pub const SCALE_UNIT: i64 = 1000;

/// Gap between the default placement and the top-right corner of the screen.
pub const DEFAULT_MARGIN: i64 = 20;

/// Distance from a screen corner within which a dragged window snaps to it.
pub const SNAP_DISTANCE: i64 = 50;

/// Width of the screen bounds taken by the window.
pub open spec fn span_x(screen: ScreenBounds, window: WindowSize) -> int {
    screen.width - window.width
}

/// Height of the screen bounds taken by the window.
pub open spec fn span_y(screen: ScreenBounds, window: WindowSize) -> int {
    screen.height - window.height
}

/// Size of the monitor that holds the window.
#[derive(Clone, Copy, Debug, PartialEq, Eq, Structural)]
pub struct ScreenBounds {
    pub width: u32,
    pub height: u32,
}

/// Outer size of the window.
#[derive(Clone, Copy, Debug, PartialEq, Eq, Structural)]
pub struct WindowSize {
    pub width: u32,
    pub height: u32,
}

/// Top-left corner of the window.
#[derive(Clone, Copy, Debug, PartialEq, Eq, Structural)]
pub struct Position {
    pub x: i64,
    pub y: i64,
}

/// The four corner zones, in the order in which they are tried.
#[derive(Clone, Copy, Debug, PartialEq, Eq, Structural)]
pub enum SnapZone {
    TopLeft,
    TopRight,
    BottomLeft,
    BottomRight,
}

pub open spec fn near_left(x: int) -> bool {
    x < SNAP_DISTANCE
}

pub open spec fn near_top(y: int) -> bool {
    y < SNAP_DISTANCE
}

pub open spec fn near_right(x: int, screen: ScreenBounds, window: WindowSize) -> bool {
    x > span_x(screen, window) - SNAP_DISTANCE
}

pub open spec fn near_bottom(y: int, screen: ScreenBounds, window: WindowSize) -> bool {
    y > span_y(screen, window) - SNAP_DISTANCE
}

/// The first corner zone, in priority order, that holds the point.
pub open spec fn zone_of(x: int, y: int, screen: ScreenBounds, window: WindowSize) -> Option<SnapZone> {
    if near_left(x) && near_top(y) {
        Some(SnapZone::TopLeft)
    } else if near_right(x, screen, window) && near_top(y) {
        Some(SnapZone::TopRight)
    } else if near_left(x) && near_bottom(y, screen, window) {
        Some(SnapZone::BottomLeft)
    } else if near_right(x, screen, window) && near_bottom(y, screen, window) {
        Some(SnapZone::BottomRight)
    } else {
        None
    }
}

/// Where a window snapped into `zone` is placed.
pub open spec fn corner_of(zone: SnapZone, screen: ScreenBounds, window: WindowSize) -> (int, int) {
    match zone {
        SnapZone::TopLeft => (0, 0),
        SnapZone::TopRight => (span_x(screen, window), 0),
        SnapZone::BottomLeft => (0, span_y(screen, window)),
        SnapZone::BottomRight => (span_x(screen, window), span_y(screen, window)),
    }
}

/// Where a window dropped at `(x, y)` comes to rest.
pub open spec fn snapped(x: int, y: int, screen: ScreenBounds, window: WindowSize) -> (int, int) {
    match zone_of(x, y, screen, window) {
        Some(zone) => corner_of(zone, screen, window),
        None => (x, y),
    }
}

pub open spec fn pos(p: Position) -> (int, int) {
    (p.x as int, p.y as int)
}

/// The corner zone that a window dropped at `(x, y)` falls in, if any.
pub fn snap_zone(x: i64, y: i64, screen: ScreenBounds, window: WindowSize) -> (r: Option<SnapZone>)
    ensures
        r == zone_of(x as int, y as int, screen, window),
{
    let right_edge = screen.width as i64 - window.width as i64 - SNAP_DISTANCE;
    let bottom_edge = screen.height as i64 - window.height as i64 - SNAP_DISTANCE;
    let left = x < SNAP_DISTANCE;
    let top = y < SNAP_DISTANCE;
    let right = x > right_edge;
    let bottom = y > bottom_edge;
    if left && top {
        Some(SnapZone::TopLeft)
    } else if right && top {
        Some(SnapZone::TopRight)
    } else if left && bottom {
        Some(SnapZone::BottomLeft)
    } else if right && bottom {
        Some(SnapZone::BottomRight)
    } else {
        None
    }
}

/// The position of the window when it is snapped into `zone`.
pub fn corner_position(zone: SnapZone, screen: ScreenBounds, window: WindowSize) -> (r: Position)
    ensures
        pos(r) == corner_of(zone, screen, window),
{
    let right = screen.width as i64 - window.width as i64;
    let bottom = screen.height as i64 - window.height as i64;
    match zone {
        SnapZone::TopLeft => Position { x: 0, y: 0 },
        SnapZone::TopRight => Position { x: right, y: 0 },
        SnapZone::BottomLeft => Position { x: 0, y: bottom },
        SnapZone::BottomRight => Position { x: right, y: bottom },
    }
}

/// The position a window dropped at `(x, y)` is moved to: the corner of the
/// first zone that holds the point, or the point itself.
pub fn compute_snapped_position(x: i64, y: i64, screen: ScreenBounds, window: WindowSize) -> (r: Position)
    ensures
        pos(r) == snapped(x as int, y as int, screen, window),
{
    match snap_zone(x, y, screen, window) {
        Some(zone) => corner_position(zone, screen, window),
        None => Position { x, y },
    }
}

/// When the window leaves more than two snap distances of the screen free on
/// each axis, a point near a corner snaps exactly to that corner, and a point
/// away from every edge's snap band stays where it is.
pub proof fn lemma_corners_snap(x: int, y: int, screen: ScreenBounds, window: WindowSize)
    requires
        window.width < screen.width - 2 * SNAP_DISTANCE,
        window.height < screen.height - 2 * SNAP_DISTANCE,
    ensures
        near_left(x) && near_top(y) ==> snapped(x, y, screen, window) == (0int, 0int),
        near_right(x, screen, window) && near_top(y) ==> snapped(x, y, screen, window) == (
        span_x(screen, window), 0int),
        near_left(x) && near_bottom(y, screen, window) ==> snapped(x, y, screen, window) == (
        0int, span_y(screen, window)),
        near_right(x, screen, window) && near_bottom(y, screen, window) ==> snapped(
            x,
            y,
            screen,
            window,
        ) == (span_x(screen, window), span_y(screen, window)),
        SNAP_DISTANCE <= x <= span_x(screen, window) - SNAP_DISTANCE && SNAP_DISTANCE <= y
            <= span_y(screen, window) - SNAP_DISTANCE ==> snapped(x, y, screen, window) == (x, y),
{
}

/// The corners are tried in a fixed order: a point in the top-left zone goes
/// to the top-left corner, whichever other zones also hold it.
pub proof fn lemma_top_left_first(x: int, y: int, screen: ScreenBounds, window: WindowSize)
    requires
        near_left(x),
        near_top(y),
    ensures
        zone_of(x, y, screen, window) == Some(SnapZone::TopLeft),
        snapped(x, y, screen, window) == (0int, 0int),
{
}

/// Logical size of the window.
#[derive(Clone, Copy, Debug, PartialEq, Eq, Structural)]
pub struct LogicalSize {
    pub width: i64,
    pub height: i64,
}

/// `n / d` rounded to the nearest integer, halves away from zero.
pub open spec fn round_div(n: int, d: int) -> int {
    if n >= 0 {
        (2 * n + d) / (2 * d)
    } else {
        -((-2 * n + d) / (2 * d))
    }
}

/// `base` scaled by `scale` thousandths, rounded.
pub open spec fn scaled(base: int, scale: int) -> int {
    round_div(base * scale, SCALE_UNIT as int)
}

/// `round_div` is the integer nearest to `n / d`, a half going away from zero.
pub proof fn lemma_round_div_nearest(n: int, d: int)
    requires
        d > 0,
    ensures
        n >= 0 ==> 2 * d * round_div(n, d) - d <= 2 * n < 2 * d * round_div(n, d) + d,
        n < 0 ==> 2 * d * round_div(n, d) - d < 2 * n <= 2 * d * round_div(n, d) + d,
{
    let r = round_div(n, d);
    if n >= 0 {
        lemma_fundamental_div_mod(2 * n + d, 2 * d);
        lemma_mod_pos_bound(2 * n + d, 2 * d);
    } else {
        let q = (-2 * n + d) / (2 * d);
        lemma_fundamental_div_mod(-2 * n + d, 2 * d);
        lemma_mod_pos_bound(-2 * n + d, 2 * d);
        assert(2 * d * r == -(2 * d * q)) by (nonlinear_arith)
            requires r == -q;
    }
}

/// `base * scale / SCALE_UNIT`, rounded half away from zero.
fn scale_length(base: i64, scale: i64) -> (r: i64)
    requires
        0 <= base <= SCALE_UNIT,
    ensures
        r == scaled(base as int, scale as int),
{
    assert(-0x8000_0000_0000_0000 * 1000 <= base * scale <= 0x7fff_ffff_ffff_ffff * 1000)
        by (nonlinear_arith)
        requires
            0 <= base <= 1000,
            -0x8000_0000_0000_0000 <= scale <= 0x7fff_ffff_ffff_ffff,
    ;
    let n: i128 = base as i128 * scale as i128;
    let d: i128 = SCALE_UNIT as i128;
    if n >= 0 {
        let q: i128 = (2 * n + d) / (2 * d);
        proof {
            lemma_fundamental_div_mod(2 * n + d, 2 * d);
            lemma_mod_pos_bound(2 * n + d, 2 * d);
        }
        q as i64
    } else {
        let q: i128 = (-2 * n + d) / (2 * d);
        proof {
            lemma_fundamental_div_mod(-2 * n + d, 2 * d);
            lemma_mod_pos_bound(-2 * n + d, 2 * d);
        }
        (-q) as i64
    }
}

/// The size of the window at `scale` thousandths of its natural size,
/// each side rounded half away from zero; no bound is applied.
pub fn scale_to_size(scale: i64) -> (r: LogicalSize)
    ensures
        r.width == scaled(BASE_WIDTH as int, scale as int),
        r.height == scaled(BASE_HEIGHT as int, scale as int),
{
    LogicalSize { width: scale_length(BASE_WIDTH, scale), height: scale_length(BASE_HEIGHT, scale) }
}

/// Each side of a scaled size is the nearest integer to the exact product,
/// a half going up.
pub proof fn lemma_scale_to_size_rounds(scale: int)
    requires
        scale > 0,
    ensures
        2 * SCALE_UNIT * scaled(BASE_WIDTH as int, scale) - SCALE_UNIT <= 2 * (BASE_WIDTH * scale),
        2 * (BASE_WIDTH * scale) < 2 * SCALE_UNIT * scaled(BASE_WIDTH as int, scale) + SCALE_UNIT,
        2 * SCALE_UNIT * scaled(BASE_HEIGHT as int, scale) - SCALE_UNIT <= 2 * (BASE_HEIGHT * scale),
        2 * (BASE_HEIGHT * scale) < 2 * SCALE_UNIT * scaled(BASE_HEIGHT as int, scale) + SCALE_UNIT,
{
    let w = BASE_WIDTH * scale;
    let h = BASE_HEIGHT * scale;
    lemma_round_div_nearest(w, SCALE_UNIT as int);
    lemma_round_div_nearest(h, SCALE_UNIT as int);
    assert(w > 0 && h > 0);

}

/// `v` brought into `[lo, hi]`.
pub open spec fn clamped(v: int, lo: int, hi: int) -> int {
    if v < lo {
        lo
    } else if v > hi {
        hi
    } else {
        v
    }
}

/// A size brought within the window's limits, and whether that changed it.
pub fn clamp_size(size: LogicalSize) -> (r: (LogicalSize, bool))
    ensures
        r.0.width == clamped(size.width as int, MIN_WIDTH as int, MAX_WIDTH as int),
        r.0.height == clamped(size.height as int, MIN_HEIGHT as int, MAX_HEIGHT as int),
        r.1 == (r.0 != size),
{
    let width = if size.width < MIN_WIDTH {
        MIN_WIDTH
    } else if size.width > MAX_WIDTH {
        MAX_WIDTH
    } else {
        size.width
    };
    let height = if size.height < MIN_HEIGHT {
        MIN_HEIGHT
    } else if size.height > MAX_HEIGHT {
        MAX_HEIGHT
    } else {
        size.height
    };
    let changed = width != size.width || height != size.height;
    (LogicalSize { width, height }, changed)
}

/// Where the window goes when no placement was stored: the top-right corner
/// of the screen, `DEFAULT_MARGIN` in from both edges.
pub fn compute_default_position(screen: ScreenBounds) -> (r: Position)
    ensures
        r.x == screen.width - BASE_WIDTH - DEFAULT_MARGIN,
        r.y == DEFAULT_MARGIN,
{
    Position { x: screen.width as i64 - BASE_WIDTH - DEFAULT_MARGIN, y: DEFAULT_MARGIN }
}

} // verus!
