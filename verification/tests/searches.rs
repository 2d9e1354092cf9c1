use regex::Regex;
use tiled_world::{Axis, CompiledRegex, Error, Operation, WorldMap, WorldPattern};

const SOURCES: [&str; 9] = [
    r"map_(\d+)_(\d+)\.tmx",
    r"(-?\d+),(-?\d+)",
    r"^(\d)(\d)?$",
    r"(?:a(\d+))?b(\d+)",
    r"(\w+)-(\w+)",
    r"x(?P<x>\d+)y(?P<y>\d+)",
    r"(\d+)",
    r"\d+",
    r"((\d)(\d))",
];

const PATHS: [&str; 14] = [
    "map_2_3.tmx",
    "maps/map_10_20.tmx.bak",
    "-5,7",
    "12",
    "1",
    "a1b2",
    "b2",
    "left-right",
    "7-8",
    "x1y2",
    "2147483647,-2147483648",
    "99999999999,1",
    "",
    "\u{0663}-\u{0664}",
];

const TRANSFORMS: [(i32, i32, i32, i32); 4] =
    [(1, 1, 0, 0), (32, -32, 5, -5), (i32::MAX, 2, 1, 1), (2, i32::MIN, i32::MAX, 0)];

fn coordinate(captured: i32, multiplier: i32, offset: i32, axis: Axis, path: &str) -> Result<i32, Error> {
    let product = captured.checked_mul(multiplier).ok_or(Error::ArithmeticOverflow {
        axis,
        operation: Operation::Multiply,
        path: path.to_owned(),
    })?;
    product.checked_add(offset).ok_or(Error::ArithmeticOverflow {
        axis,
        operation: Operation::Add,
        path: path.to_owned(),
    })
}

fn expected(source: &str, transform: (i32, i32, i32, i32), path: &str) -> Result<WorldMap, Error> {
    let no_match = Error::NoMatchFound { path: path.to_owned() };
    let regex = Regex::new(source).unwrap();
    let captures = regex.captures(path).ok_or(no_match.clone())?;
    let text_x = captures.get(1).ok_or(no_match.clone())?.as_str();
    let text_y = captures.get(2).ok_or(no_match)?.as_str();
    let captured_x = text_x
        .parse::<i32>()
        .map_err(|_| Error::MalformedCapture { axis: Axis::X, path: path.to_owned() })?;
    let captured_y = text_y
        .parse::<i32>()
        .map_err(|_| Error::MalformedCapture { axis: Axis::Y, path: path.to_owned() })?;
    let x = coordinate(captured_x, transform.0, transform.2, Axis::X, path)?;
    let y = coordinate(captured_y, transform.1, transform.3, Axis::Y, path)?;
    Ok(WorldMap { filename: path.to_owned(), x, y, width: None, height: None })
}

#[test]
fn pattern_agrees_with_a_direct_search() {
    let mut placed: usize = 0;
    for source in SOURCES {
        for transform in TRANSFORMS {
            let pattern = WorldPattern {
                regexp: CompiledRegex::new(source).unwrap(),
                multiplier_x: transform.0,
                multiplier_y: transform.1,
                offset_x: transform.2,
                offset_y: transform.3,
            };
            for path in PATHS {
                let outcome = pattern.match_path(path);
                assert_eq!(outcome, expected(source, transform, path));
                if outcome.is_ok() {
                    placed += 1;
                }
            }
        }
    }
    assert!(placed > 20);
}

#[test]
fn compiled_regex_accepts_what_the_regex_crate_accepts() {
    for source in ["", "a", r"(\d+)", r"(", r")", r"a{2,1}", r"\p{Greek}+", r"(?i)x", r"[", r"\"] {
        let direct = Regex::new(source);
        let compiled = CompiledRegex::new(source);
        assert_eq!(compiled.is_ok(), direct.is_ok());
        match (compiled, direct) {
            (Ok(regexp), Ok(regex)) => assert_eq!(regexp.as_str(), regex.as_str()),
            (Err(refused), Err(error)) => {
                assert_eq!(refused.source, source);
                assert_eq!(refused.reason, error.to_string());
            }
            _ => unreachable!(),
        }
    }
}
