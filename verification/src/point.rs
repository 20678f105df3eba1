use vstd::prelude::*;

verus! {

/// A cursor position in whole pixels.
#[derive(Clone, Debug, Copy, PartialEq, Eq, Structural)]
pub struct Point {
    pub x: i32,
    pub y: i32,
}

} // verus!
