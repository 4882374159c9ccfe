//! The authored project as the editor supplies it to a session.
//!
//! Persistence and the editing surface live outside the library; what the
//! harness consumes is plain data: a sprite table, a tile map, and the
//! ordered list of scripted objects.

use crate::consolebuiltins::ZColor;
use crate::grid::Grid;
use vstd::prelude::*;

verus! {

/// One authored object: its name and its script's source text.
#[derive(Debug)]
pub struct EditorObject {
    pub name: String,
    pub script: String,
}

/// One sprite: a grid of pixels, each either a color or transparent.
#[derive(Debug)]
pub struct Sprite {
    pub data: Grid<Option<ZColor>>,
}

impl Sprite {
    /// A fresh, fully transparent 8 by 8 sprite.
    pub fn new() -> (s: Sprite)
        ensures
            s.data@ == Seq::new(8, |i: int| Seq::new(8, |j: int| Option::<ZColor>::None)),
            s.data.spec_width() == 8,
    {
        Sprite { data: Grid::filled_with(None, 8, 8) }
    }
}

/// An authored project: the sprite table the renderer resolves indices
/// against, the tile map (each cell an optional sprite index), and the
/// ordered list of scripted objects, one VM instance each at session
/// start.
#[derive(Debug)]
pub struct Cart {
    pub sprites: Vec<Sprite>,
    pub map: Grid<Option<usize>>,
    pub objects: Vec<EditorObject>,
}

} // verus!
