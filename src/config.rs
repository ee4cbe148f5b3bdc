//! The records that are kept between runs.

use crate::geometry::Position;
use vstd::prelude::*;

verus! {

/// Stored placement of the window: its top-left corner.
#[derive(Clone, Copy, Debug, PartialEq, Eq, Structural)]
pub struct WindowConfig {
    pub x: i64,
    pub y: i64,
}

impl WindowConfig {
    /// The record of a window placed at `p`.
    pub fn at(p: Position) -> (r: WindowConfig)
        ensures
            r.x == p.x,
            r.y == p.y,
    {
        WindowConfig { x: p.x, y: p.y }
    }

    /// The placement that this record holds.
    pub fn position(&self) -> (r: Position)
        ensures
            r.x == self.x,
            r.y == self.y,
    {
        Position { x: self.x, y: self.y }
    }
}

/// Key combinations of the widget's commands, each written as in "Ctrl+Space".
#[derive(Clone, Debug)]
pub struct ShortcutConfig {
    pub toggle: String,
    pub reset: String,
    pub preset3: String,
    pub preset4: String,
    pub preset6: String,
}

impl Default for ShortcutConfig {
    fn default() -> (r: ShortcutConfig)
        ensures
            r.toggle@ == "Ctrl+Space"@,
            r.reset@ == "Ctrl+R"@,
            r.preset3@ == "Ctrl+1"@,
            r.preset4@ == "Ctrl+2"@,
            r.preset6@ == "Ctrl+3"@,
    {
        ShortcutConfig {
            toggle: "Ctrl+Space".to_string(),
            reset: "Ctrl+R".to_string(),
            preset3: "Ctrl+1".to_string(),
            preset4: "Ctrl+2".to_string(),
            preset6: "Ctrl+3".to_string(),
        }
    }
}

} // verus!
