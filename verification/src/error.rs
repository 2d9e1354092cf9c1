//! The errors of resolving a path.

use vstd::prelude::*;

verus! {

/// One of the two axes of the grid.
#[derive(Clone, Copy, Debug, PartialEq, Eq, Structural)]
pub enum Axis {
    /// The horizontal axis, taken from the first capture group.
    X,
    /// The vertical axis, taken from the second capture group.
    Y,
}

/// The step of the transform at which a coordinate left the signed 32-bit range.
#[derive(Clone, Copy, Debug, PartialEq, Eq, Structural)]
pub enum Operation {
    /// `capture * multiplier`.
    Multiply,
    /// `capture * multiplier + offset`.
    Add,
}

/// Why a path has no placement.
#[derive(Debug, PartialEq, Eq)]
pub enum Error {
    /// No pattern matched the path with both coordinate groups present: the
    /// path is not part of the world.
    NoMatchFound { path: String },
    /// A coordinate of the path is no value of `i32`.
    ArithmeticOverflow { axis: Axis, operation: Operation, path: String },
    /// A pattern matched the path, but the text it captured for a coordinate
    /// is no decimal `i32`.
    MalformedCapture { axis: Axis, path: String },
}

/// An [`Error`] with its path as a sequence of characters.
pub enum ErrorView {
    NoMatchFound { path: Seq<char> },
    ArithmeticOverflow { axis: Axis, operation: Operation, path: Seq<char> },
    MalformedCapture { axis: Axis, path: Seq<char> },
}

impl View for Error {
    type V = ErrorView;

    open spec fn view(&self) -> ErrorView {
        match *self {
            Error::NoMatchFound { path } => ErrorView::NoMatchFound { path: path@ },
            Error::ArithmeticOverflow { axis, operation, path } => ErrorView::ArithmeticOverflow {
                axis,
                operation,
                path: path@,
            },
            Error::MalformedCapture { axis, path } => ErrorView::MalformedCapture {
                axis,
                path: path@,
            },
        }
    }
}

impl Clone for Error {
    fn clone(&self) -> (r: Self)
        ensures
            r@ == self@,
    {
        match self {
            Error::NoMatchFound { path } => Error::NoMatchFound { path: path.clone() },
            Error::ArithmeticOverflow { axis, operation, path } => Error::ArithmeticOverflow {
                axis: *axis,
                operation: *operation,
                path: path.clone(),
            },
            Error::MalformedCapture { axis, path } => Error::MalformedCapture {
                axis: *axis,
                path: path.clone(),
            },
        }
    }
}

impl Error {
    /// The path that was being resolved.
    pub fn path(&self) -> (p: &str)
        ensures
            p@ == self@.path(),
    {
        match self {
            Error::NoMatchFound { path } => path.as_str(),
            Error::ArithmeticOverflow { path, .. } => path.as_str(),
            Error::MalformedCapture { path, .. } => path.as_str(),
        }
    }
}

impl ErrorView {
    /// The path that was being resolved.
    pub open spec fn path(self) -> Seq<char> {
        match self {
            ErrorView::NoMatchFound { path } => path,
            ErrorView::ArithmeticOverflow { path, .. } => path,
            ErrorView::MalformedCapture { path, .. } => path,
        }
    }
}

} // verus!
