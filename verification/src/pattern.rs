//! One pattern of a world: a regular expression and the transform of its captures.

use crate::error::{Axis, Error, ErrorView};
use crate::number::{parse_i32, spec_parse_i32};
use crate::placement::{WorldMap, WorldMapView};
use crate::regexp::{regex_captures, Captures, CompiledRegex};
use crate::transform::{spec_transform, transform};
use vstd::prelude::*;
use vstd::std_specs::cmp::PartialEqSpecImpl;

verus! {

/// A rule that places every map whose path the expression matches.
///
/// The first capture group of the expression holds the x coordinate of a map
/// and the second its y coordinate, both as decimal integers. The coordinate
/// on the grid is `capture * multiplier + offset`.
#[derive(Debug)]
pub struct WorldPattern {
    /// The expression that paths are searched with.
    pub regexp: CompiledRegex,
    /// The multiplier of the x capture.
    pub multiplier_x: i32,
    /// The multiplier of the y capture.
    pub multiplier_y: i32,
    /// The offset added to the x product.
    pub offset_x: i32,
    /// The offset added to the y product.
    pub offset_y: i32,
}

/// A [`WorldPattern`] with its expression as source text.
pub struct PatternView {
    pub source: Seq<char>,
    pub multiplier_x: i32,
    pub multiplier_y: i32,
    pub offset_x: i32,
    pub offset_y: i32,
}

impl View for WorldPattern {
    type V = PatternView;

    open spec fn view(&self) -> PatternView {
        PatternView {
            source: self.regexp@,
            multiplier_x: self.multiplier_x,
            multiplier_y: self.multiplier_y,
            offset_x: self.offset_x,
            offset_y: self.offset_y,
        }
    }
}

/// What a resolution returned, by views.
pub open spec fn outcome_view(outcome: Result<WorldMap, Error>) -> Result<WorldMapView, ErrorView> {
    match outcome {
        Ok(placement) => Ok(placement@),
        Err(error) => Err(error@),
    }
}

/// The texts of capture groups 1 and 2 of a search, where it matched and both
/// groups took part in the match.
pub open spec fn coordinate_captures(captures: Option<Seq<Option<Seq<char>>>>) -> Option<
    (Seq<char>, Seq<char>),
> {
    match captures {
        Some(groups) => if groups.len() > 2 && groups[1] is Some && groups[2] is Some {
            Some((groups[1]->0, groups[2]->0))
        } else {
            None
        },
        None => None,
    }
}

/// The placement of `path` by `pattern`, given what searching `path` with the
/// expression of `pattern` returned.
///
/// Without both coordinate captures the path does not match. With them, the
/// first that is no decimal `i32` is reported, x before y; then the first
/// coordinate that overflows, x before y, with the step that overflowed.
pub open spec fn spec_place(
    pattern: PatternView,
    path: Seq<char>,
    captures: Option<Seq<Option<Seq<char>>>>,
) -> Result<WorldMapView, ErrorView> {
    match coordinate_captures(captures) {
        None => Err(ErrorView::NoMatchFound { path }),
        Some((text_x, text_y)) => match (spec_parse_i32(text_x), spec_parse_i32(text_y)) {
            (None, _) => Err(ErrorView::MalformedCapture { axis: Axis::X, path }),
            (Some(_), None) => Err(ErrorView::MalformedCapture { axis: Axis::Y, path }),
            (Some(captured_x), Some(captured_y)) => match (
                spec_transform(captured_x, pattern.multiplier_x, pattern.offset_x),
                spec_transform(captured_y, pattern.multiplier_y, pattern.offset_y),
            ) {
                (Err(operation), _) => Err(
                    ErrorView::ArithmeticOverflow { axis: Axis::X, operation, path },
                ),
                (Ok(_), Err(operation)) => Err(
                    ErrorView::ArithmeticOverflow { axis: Axis::Y, operation, path },
                ),
                (Ok(x), Ok(y)) => Ok(
                    WorldMapView { filename: path, x, y, width: None, height: None },
                ),
            },
        },
    }
}

/// The placement of `path` by `pattern`.
pub open spec fn spec_match(pattern: PatternView, path: Seq<char>) -> Result<
    WorldMapView,
    ErrorView,
> {
    spec_place(pattern, path, regex_captures(pattern.source, path))
}

impl PartialEq for WorldPattern {
    /// Two patterns are equal where their multipliers, their offsets and the
    /// source texts of their expressions are.
    fn eq(&self, other: &Self) -> (r: bool) {
        self.multiplier_x == other.multiplier_x && self.multiplier_y == other.multiplier_y
            && self.offset_x == other.offset_x && self.offset_y == other.offset_y && self.regexp
            == other.regexp
    }
}

impl PartialEqSpecImpl for WorldPattern {
    open spec fn obeys_eq_spec() -> bool {
        true
    }

    open spec fn eq_spec(&self, other: &Self) -> bool {
        self@ == other@
    }
}

impl Eq for WorldPattern {
}

impl Clone for WorldPattern {
    fn clone(&self) -> (r: Self)
        ensures
            r@ == self@,
    {
        WorldPattern {
            regexp: self.regexp.clone(),
            multiplier_x: self.multiplier_x,
            multiplier_y: self.multiplier_y,
            offset_x: self.offset_x,
            offset_y: self.offset_y,
        }
    }
}

impl WorldPattern {
    /// Places `path`, given what searching it with `self.regexp` returned.
    pub fn place(&self, path: &str, captures: &Captures) -> (r: Result<WorldMap, Error>)
        ensures
            outcome_view(r) == spec_place(self@, path@, captures.deep_view()),
    {
        let groups = match captures {
            Some(groups) => groups,
            None => {
                return Err(Error::NoMatchFound { path: path.to_owned() });
            },
        };
        if groups.len() <= 2 {
            return Err(Error::NoMatchFound { path: path.to_owned() });
        }
        let text_x = match &groups[1] {
            Some(text) => text,
            None => {
                return Err(Error::NoMatchFound { path: path.to_owned() });
            },
        };
        let text_y = match &groups[2] {
            Some(text) => text,
            None => {
                return Err(Error::NoMatchFound { path: path.to_owned() });
            },
        };
        let captured_x = match parse_i32(text_x.as_str()) {
            Some(value) => value,
            None => {
                return Err(Error::MalformedCapture { axis: Axis::X, path: path.to_owned() });
            },
        };
        let captured_y = match parse_i32(text_y.as_str()) {
            Some(value) => value,
            None => {
                return Err(Error::MalformedCapture { axis: Axis::Y, path: path.to_owned() });
            },
        };
        let x = match transform(captured_x, self.multiplier_x, self.offset_x) {
            Ok(x) => x,
            Err(operation) => {
                return Err(
                    Error::ArithmeticOverflow { axis: Axis::X, operation, path: path.to_owned() },
                );
            },
        };
        let y = match transform(captured_y, self.multiplier_y, self.offset_y) {
            Ok(y) => y,
            Err(operation) => {
                return Err(
                    Error::ArithmeticOverflow { axis: Axis::Y, operation, path: path.to_owned() },
                );
            },
        };
        Ok(WorldMap { filename: path.to_owned(), x, y, width: None, height: None })
    }

    /// Searches `path` with the expression, anywhere in it, and places the path
    /// by the first two capture groups of the match.
    pub fn match_path(&self, path: &str) -> (r: Result<WorldMap, Error>)
        ensures
            outcome_view(r) == spec_match(self@, path@),
    {
        let captures = self.regexp.captures(path);
        self.place(path, &captures)
    }
}

} // verus!
