//! The placement of one map on the grid.

use vstd::prelude::*;

verus! {

/// Where one map lies in the world.
///
/// `x` and `y` are grid coordinates, not pixels. `width` and `height` are
/// there only for entries that state them; a placement derived from a pattern
/// has neither.
#[derive(Debug, PartialEq, Eq)]
pub struct WorldMap {
    /// The file of the map. For a placement derived from a pattern, the path
    /// that was resolved, unchanged.
    pub filename: String,
    /// The horizontal grid coordinate.
    pub x: i32,
    /// The vertical grid coordinate.
    pub y: i32,
    /// The width of the map, where the world states it.
    pub width: Option<i32>,
    /// The height of the map, where the world states it.
    pub height: Option<i32>,
}

/// A [`WorldMap`] with its file name as a sequence of characters.
pub struct WorldMapView {
    pub filename: Seq<char>,
    pub x: i32,
    pub y: i32,
    pub width: Option<i32>,
    pub height: Option<i32>,
}

impl View for WorldMap {
    type V = WorldMapView;

    open spec fn view(&self) -> WorldMapView {
        WorldMapView {
            filename: self.filename@,
            x: self.x,
            y: self.y,
            width: self.width,
            height: self.height,
        }
    }
}

impl Clone for WorldMap {
    fn clone(&self) -> (r: Self)
        ensures
            r@ == self@,
    {
        WorldMap {
            filename: self.filename.clone(),
            x: self.x,
            y: self.y,
            width: self.width,
            height: self.height,
        }
    }
}

} // verus!
