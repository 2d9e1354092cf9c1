//! What holds of every resolution, proved from the definitions.

use crate::error::{Axis, Error, ErrorView, Operation};
use crate::number::{decimal_value, is_decimal, spec_parse_i32};
use crate::pattern::{coordinate_captures, outcome_view, spec_match, PatternView};
use crate::placement::{WorldMap, WorldMapView};
use crate::regexp::regex_captures;
use crate::transform::{fits_i32, spec_transform};
use crate::world::{decides, spec_resolve, World};
use vstd::prelude::*;

verus! {

/// The transform gives `captured * multiplier + offset` exactly where the
/// product and the sum are values of `i32`, and otherwise names the first of
/// the two steps that is not. It never wraps and never truncates.
pub proof fn lemma_transform_exact(captured: i32, multiplier: i32, offset: i32)
    ensures
        spec_transform(captured, multiplier, offset) matches Ok(v) ==> v == captured * multiplier
            + offset,
        spec_transform(captured, multiplier, offset) is Ok <==> fits_i32(captured * multiplier)
            && fits_i32(captured * multiplier + offset),
        spec_transform(captured, multiplier, offset) == Err::<i32, Operation>(Operation::Multiply)
            <==> !fits_i32(captured * multiplier),
        spec_transform(captured, multiplier, offset) == Err::<i32, Operation>(Operation::Add)
            <==> fits_i32(captured * multiplier) && !fits_i32(captured * multiplier + offset),
{
}

/// A path that a pattern places lies at `capture * multiplier + offset` on
/// each axis, in exact integer arithmetic, where the captures are the decimal
/// texts that groups 1 and 2 of the search matched. Its file name is the path,
/// and it has no size.
pub proof fn lemma_placement_is_affine(pattern: PatternView, path: Seq<char>)
    requires
        spec_match(pattern, path) is Ok,
    ensures
        ({
            let placement = spec_match(pattern, path)->Ok_0;
            &&& coordinate_captures(regex_captures(pattern.source, path)) matches Some(
                (text_x, text_y),
            )
            &&& is_decimal(text_x)
            &&& is_decimal(text_y)
            &&& placement.x == decimal_value(text_x) * pattern.multiplier_x + pattern.offset_x
            &&& placement.y == decimal_value(text_y) * pattern.multiplier_y + pattern.offset_y
            &&& placement.filename == path
            &&& placement.width is None
            &&& placement.height is None
        }),
{
}

/// A pattern places a path exactly where the search gives both coordinate
/// groups, both are decimal texts of `i32` values, and neither coordinate
/// leaves the range of `i32` at either step.
pub proof fn lemma_placement_exists(pattern: PatternView, path: Seq<char>)
    ensures
        spec_match(pattern, path) is Ok <==> ({
            &&& coordinate_captures(regex_captures(pattern.source, path)) matches Some(
                (text_x, text_y),
            )
            &&& spec_parse_i32(text_x) matches Some(x)
            &&& spec_parse_i32(text_y) matches Some(y)
            &&& fits_i32(x * pattern.multiplier_x)
            &&& fits_i32(x * pattern.multiplier_x + pattern.offset_x)
            &&& fits_i32(y * pattern.multiplier_y)
            &&& fits_i32(y * pattern.multiplier_y + pattern.offset_y)
        }),
{
}

/// A path that the expression of a pattern matches nowhere is not matched by
/// the pattern.
pub proof fn lemma_no_match(pattern: PatternView, path: Seq<char>)
    requires
        regex_captures(pattern.source, path) is None,
    ensures
        spec_match(pattern, path) == Err::<WorldMapView, ErrorView>(
            ErrorView::NoMatchFound { path },
        ),
{
}

/// A match without a first or without a second capture group, be it that the
/// expression has no such group or that the group took no part in the match,
/// counts as no match.
pub proof fn lemma_missing_group_is_no_match(pattern: PatternView, path: Seq<char>)
    requires
        regex_captures(pattern.source, path) matches Some(groups) && (groups.len() <= 2
            || groups[1] is None || groups[2] is None),
    ensures
        spec_match(pattern, path) == Err::<WorldMapView, ErrorView>(
            ErrorView::NoMatchFound { path },
        ),
{
}

/// A coordinate that leaves the range of `i32` fails the match with an
/// overflow error for the first axis and step at which that happens, x before
/// y; the path is not placed at a wrapped or truncated coordinate.
pub proof fn lemma_overflow_is_reported(pattern: PatternView, path: Seq<char>, x: i32, y: i32)
    requires
        coordinate_captures(regex_captures(pattern.source, path)) matches Some((text_x, text_y))
            && spec_parse_i32(text_x) == Some(x) && spec_parse_i32(text_y) == Some(y),
        !(fits_i32(x * pattern.multiplier_x) && fits_i32(
            x * pattern.multiplier_x + pattern.offset_x,
        ) && fits_i32(y * pattern.multiplier_y) && fits_i32(
            y * pattern.multiplier_y + pattern.offset_y,
        )),
    ensures
        spec_match(pattern, path) matches Err(
            ErrorView::ArithmeticOverflow { axis, operation, path: reported },
        ) && ({
            &&& reported == path
            &&& axis == Axis::X ==> spec_transform(x, pattern.multiplier_x, pattern.offset_x)
                == Err::<i32, Operation>(operation)
            &&& axis == Axis::Y ==> spec_transform(x, pattern.multiplier_x, pattern.offset_x)
                is Ok && spec_transform(y, pattern.multiplier_y, pattern.offset_y) == Err::<
                i32,
                Operation,
            >(operation)
        }),
{
}

/// Every error of a resolution carries the path that was resolved.
pub proof fn lemma_error_carries_path(patterns: Seq<PatternView>, path: Seq<char>)
    ensures
        spec_resolve(patterns, path) matches Err(error) ==> error.path() == path,
    decreases patterns.len(),
{
    if patterns.len() > 0 && !decides(patterns[0], path) {
        lemma_error_carries_path(patterns.skip(1), path);
    }
}

/// The first pattern in declared order that decides a path gives the outcome
/// of the world, whatever later patterns would give: its placement where it
/// places the path, its error where it fails other than by not matching.
pub proof fn lemma_first_deciding_pattern_wins(
    patterns: Seq<PatternView>,
    path: Seq<char>,
    first: int,
)
    requires
        0 <= first < patterns.len(),
        decides(patterns[first], path),
        forall|earlier: int| 0 <= earlier < first ==> !decides(#[trigger] patterns[earlier], path),
    ensures
        spec_resolve(patterns, path) == spec_match(patterns[first], path),
    decreases first,
{
    if first > 0 {
        lemma_first_deciding_pattern_wins(patterns.skip(1), path, first - 1);
    }
}

/// Where no pattern decides a path, and so where there is no pattern, the
/// path is not part of the world.
pub proof fn lemma_no_pattern_decides(patterns: Seq<PatternView>, path: Seq<char>)
    requires
        forall|i: int| 0 <= i < patterns.len() ==> !decides(#[trigger] patterns[i], path),
    ensures
        spec_resolve(patterns, path) == Err::<WorldMapView, ErrorView>(
            ErrorView::NoMatchFound { path },
        ),
    decreases patterns.len(),
{
    if patterns.len() > 0 {
        lemma_no_pattern_decides(patterns.skip(1), path);
    }
}

/// Resolving one path against one world twice gives the same outcome: any two
/// results that meet the contract of `World::match_path` agree.
pub proof fn lemma_resolution_repeats(
    world: World,
    path: Seq<char>,
    first: Result<WorldMap, Error>,
    second: Result<WorldMap, Error>,
)
    requires
        outcome_view(first) == spec_resolve(world@.patterns, path),
        outcome_view(second) == spec_resolve(world@.patterns, path),
    ensures
        outcome_view(first) == outcome_view(second),
{
}

/// A batch is resolved path by path: the outcome at each position of what
/// `World::match_paths` returns is the outcome of `World::match_path` on the
/// path at that position, whether the other paths fail or not.
pub proof fn lemma_batch_is_elementwise(
    world: World,
    paths: Seq<Seq<char>>,
    batch: Seq<Result<WorldMap, Error>>,
    position: int,
    single: Result<WorldMap, Error>,
)
    requires
        batch.len() == paths.len(),
        forall|i: int|
            0 <= i < paths.len() ==> outcome_view(#[trigger] batch[i]) == spec_resolve(
                world@.patterns,
                paths[i],
            ),
        0 <= position < paths.len(),
        outcome_view(single) == spec_resolve(world@.patterns, paths[position]),
    ensures
        outcome_view(batch[position]) == outcome_view(single),
{
}

} // verus!
