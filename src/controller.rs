//! What the window controller does on each command: it computes the size or
//! position to apply, which the host then applies to the live window.

use crate::config::WindowConfig;
use crate::geometry::{
    clamp_size, clamped, compute_default_position, compute_snapped_position, pos, scale_to_size,
    scaled, snapped, LogicalSize, Position, ScreenBounds, WindowSize, BASE_HEIGHT, BASE_WIDTH,
    DEFAULT_MARGIN, MAX_HEIGHT, MAX_WIDTH, MIN_HEIGHT, MIN_WIDTH,
};
use vstd::prelude::*;

verus! {

/// Why a move could not be handled.
#[derive(Clone, Copy, Debug, PartialEq, Eq, Structural)]
pub enum MoveError {
    /// The monitor holding the window could not be queried.
    NoMonitor,
    /// The outer size of the window could not be queried.
    NoWindowSize,
}

impl MoveError {
    /// A message for the user interface.
    pub fn message(&self) -> (r: String)
        ensures
            *self == MoveError::NoMonitor ==> r@ == "cannot get monitor information"@,
            *self == MoveError::NoWindowSize ==> r@ == "cannot get window size"@,
    {
        match self {
            MoveError::NoMonitor => "cannot get monitor information".to_string(),
            MoveError::NoWindowSize => "cannot get window size".to_string(),
        }
    }
}

/// A scaled size after it was brought within the window's limits.
#[derive(Clone, Copy, Debug, PartialEq, Eq, Structural)]
pub struct ScaledSize {
    /// The size to apply.
    pub size: LogicalSize,
    /// Whether the exact scaled size lay outside the limits.
    pub clamped: bool,
}

/// The size for a new height: the width stays at its natural value.
pub fn apply_resize(height: i64) -> (r: LogicalSize)
    ensures
        r.width == BASE_WIDTH,
        r.height == height,
{
    LogicalSize { width: BASE_WIDTH, height }
}

/// The size for `scale` thousandths of the natural size, each side within
/// the window's limits, which the host would enforce anyway; `clamped`
/// tells whether that changed it.
pub fn apply_scale(scale: i64) -> (r: ScaledSize)
    ensures
        r.size.width == clamped(scaled(BASE_WIDTH as int, scale as int), MIN_WIDTH as int, MAX_WIDTH as int),
        r.size.height == clamped(scaled(BASE_HEIGHT as int, scale as int), MIN_HEIGHT as int, MAX_HEIGHT as int),
        r.clamped == (r.size.width != scaled(BASE_WIDTH as int, scale as int) || r.size.height
            != scaled(BASE_HEIGHT as int, scale as int)),
{
    let exact = scale_to_size(scale);
    let (size, changed) = clamp_size(exact);
    ScaledSize { size, clamped: changed }
}

/// Where the window goes after it was dropped at `(x, y)`, on a screen and
/// with an outer size that the host queried; that position is then applied and
/// stored. Without either query nothing is applied.
pub fn handle_move(x: i64, y: i64, screen: Option<ScreenBounds>, window: Option<WindowSize>) -> (r:
    Result<Position, MoveError>)
    ensures
        screen is None ==> r == Err::<Position, MoveError>(MoveError::NoMonitor),
        screen is Some && window is None ==> r == Err::<Position, MoveError>(
            MoveError::NoWindowSize,
        ),
        screen is Some && window is Some ==> r is Ok && pos(r->Ok_0) == snapped(
            x as int,
            y as int,
            screen->Some_0,
            window->Some_0,
        ),
{
    match screen {
        None => Err(MoveError::NoMonitor),
        Some(screen) => match window {
            None => Err(MoveError::NoWindowSize),
            Some(window) => Ok(compute_snapped_position(x, y, screen, window)),
        },
    }
}

/// Where the window is placed at startup: the stored placement as it is, or,
/// without one, the default placement on the current screen; with neither, the
/// host's own placement stands.
pub fn restore_or_default(stored: Option<WindowConfig>, screen: Option<ScreenBounds>) -> (r: Option<
    Position,
>)
    ensures
        stored is Some ==> r == Some(Position { x: stored->Some_0.x, y: stored->Some_0.y }),
        stored is None && screen is Some ==> r is Some && r->Some_0.x == screen->Some_0.width
            - BASE_WIDTH - DEFAULT_MARGIN && r->Some_0.y == DEFAULT_MARGIN,
        stored is None && screen is None ==> r is None,
{
    match stored {
        Some(config) => Some(config.position()),
        None => match screen {
            Some(screen) => Some(compute_default_position(screen)),
            None => None,
        },
    }
}

} // verus!
