//! A world: explicit placements and, in order of priority, patterns.

use crate::error::{Error, ErrorView};
use crate::pattern::{outcome_view, spec_match, PatternView, WorldPattern};
use crate::placement::{WorldMap, WorldMapView};
use std::path::PathBuf;
use vstd::prelude::*;

verus! {

/// `std::path::PathBuf`, as an opaque type: the library only carries it.
#[verifier::external_type_specification]
#[verifier::external_body]
pub struct ExPathBuf(PathBuf);

/// `PathBuf::clone`: the copy is the same path.
pub assume_specification[ <PathBuf as Clone>::clone ](path: &PathBuf) -> (copy: PathBuf)
    ensures
        copy == *path,
;

/// A list of maps and of patterns that lay maps out on one grid.
///
/// The library reads a world and never changes it.
#[derive(Debug, PartialEq)]
pub struct World {
    /// Where the world was loaded from.
    pub source: PathBuf,
    /// The maps that the world places explicitly, in the order it lists them.
    pub maps: Vec<WorldMap>,
    /// The patterns of the world. An earlier pattern has priority over a later one.
    pub patterns: Vec<WorldPattern>,
}

/// A [`World`] with its maps and patterns by their views.
pub struct WorldView {
    pub source: PathBuf,
    pub maps: Seq<WorldMapView>,
    pub patterns: Seq<PatternView>,
}

impl View for World {
    type V = WorldView;

    open spec fn view(&self) -> WorldView {
        WorldView {
            source: self.source,
            maps: self.maps@.map_values(|map: WorldMap| map@),
            patterns: self.patterns@.map_values(|pattern: WorldPattern| pattern@),
        }
    }
}

impl Clone for World {
    fn clone(&self) -> (r: Self)
        ensures
            r@ == self@,
    {
        let r = World {
            source: self.source.clone(),
            maps: self.maps.clone(),
            patterns: self.patterns.clone(),
        };
        assert(r@.maps =~= self@.maps);
        assert(r@.patterns =~= self@.patterns);
        r
    }
}

/// Whether `pattern` settles the resolution of `path`: it places the path, or
/// fails on it in another way than by not matching.
pub open spec fn decides(pattern: PatternView, path: Seq<char>) -> bool {
    !(spec_match(pattern, path) matches Err(ErrorView::NoMatchFound { .. }))
}

/// The placement of `path` in a world with these patterns: what the first
/// pattern that decides `path` gives, and no match where none does.
pub open spec fn spec_resolve(patterns: Seq<PatternView>, path: Seq<char>) -> Result<
    WorldMapView,
    ErrorView,
>
    decreases patterns.len(),
{
    if patterns.len() == 0 {
        Err(ErrorView::NoMatchFound { path })
    } else if decides(patterns[0], path) {
        spec_match(patterns[0], path)
    } else {
        spec_resolve(patterns.skip(1), path)
    }
}

impl World {
    /// A world loaded from `source`.
    pub fn new(source: PathBuf, maps: Vec<WorldMap>, patterns: Vec<WorldPattern>) -> (world: World)
        ensures
            world.source == source,
            world.maps == maps,
            world.patterns == patterns,
    {
        World { source, maps, patterns }
    }

    /// Resolves `path` against the patterns in their order: the first pattern
    /// that places the path, or fails on it other than by not matching, decides.
    pub fn match_path(&self, path: &str) -> (r: Result<WorldMap, Error>)
        ensures
            outcome_view(r) == spec_resolve(self@.patterns, path@),
    {
        let ghost patterns = self@.patterns;
        let mut i: usize = 0;
        assert(patterns.skip(0) == patterns);
        while i < self.patterns.len()
            invariant
                i <= self.patterns.len(),
                patterns == self@.patterns,
                spec_resolve(patterns, path@) == spec_resolve(patterns.skip(i as int), path@),
            decreases self.patterns.len() - i,
        {
            assert(patterns.skip(i as int).skip(1) == patterns.skip(i + 1));
            match self.patterns[i].match_path(path) {
                Ok(placement) => {
                    return Ok(placement);
                },
                Err(Error::NoMatchFound { .. }) => {},
                Err(error) => {
                    return Err(error);
                },
            }
            i = i + 1;
        }
        Err(Error::NoMatchFound { path: path.to_owned() })
    }

    /// Resolves each of `paths` on its own, in their order. A path that fails
    /// does not touch the outcome of another.
    pub fn match_paths(&self, paths: &[&str]) -> (r: Vec<Result<WorldMap, Error>>)
        ensures
            r.len() == paths.len(),
            forall|i: int|
                0 <= i < paths.len() ==> outcome_view(#[trigger] r[i]) == spec_resolve(
                    self@.patterns,
                    paths[i]@,
                ),
    {
        let mut outcomes: Vec<Result<WorldMap, Error>> = Vec::new();
        let mut i: usize = 0;
        while i < paths.len()
            invariant
                i <= paths.len(),
                outcomes.len() == i,
                forall|k: int|
                    0 <= k < i ==> outcome_view(#[trigger] outcomes[k]) == spec_resolve(
                        self@.patterns,
                        paths[k]@,
                    ),
            decreases paths.len() - i,
        {
            let outcome = self.match_path(paths[i]);
            outcomes.push(outcome);
            i = i + 1;
        }
        outcomes
    }
}

} // verus!
