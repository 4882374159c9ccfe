//! Plain state kept by the editor shell around the harness.
//!
//! The GUI toolkit that draws the panels lives outside the library; what
//! remains here is the data the shell tracks between frames: whether a
//! panel is open, which painting tool is active, and the titles of the
//! left panel's tabs.

use vstd::prelude::*;

verus! {

/// The code editor panel: whether it is open.
#[derive(Debug)]
pub struct CodeWindow {
    pub enabled: bool,
}

impl Default for CodeWindow {
    fn default() -> (w: Self)
        ensures
            !w.enabled,
    {
        CodeWindow { enabled: false }
    }
}

/// A painting tool of the sprite and map editors.
#[derive(Clone, Copy, PartialEq, Eq, Structural, Debug)]
pub enum Tool {
    Pencil,
    Eraser,
    Picker,
    Rect,
    Line,
    Move,
}

impl Default for Tool {
    fn default() -> (t: Self)
        ensures
            t == Tool::Pencil,
    {
        Tool::Pencil
    }
}

/// The sprite-table tab of the left panel.
#[derive(Debug)]
pub struct SpritesSelector;

impl SpritesSelector {
    /// The tab's title.
    pub fn name(&self) -> (r: &'static str)
        ensures
            r@ == "Sprites"@,
    {
        "Sprites"
    }
}

/// The object-list tab of the left panel.
#[derive(Debug)]
pub struct ObjectSelector;

impl ObjectSelector {
    /// The tab's title.
    pub fn name(&self) -> (r: &'static str)
        ensures
            r@ == "Objects"@,
    {
        "Objects"
    }
}

} // verus!
