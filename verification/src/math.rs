//! Facing directions.

use vstd::prelude::*;

verus! {

/// One of the four facings (down by default).
#[derive(Clone, Copy, Debug, PartialEq, Eq, Structural)]
pub enum Dir4 {
    Up,
    Down,
    Left,
    Right,
}

impl Default for Dir4 {
    fn default() -> (d: Self)
        ensures
            d == Dir4::Down,
    {
        Dir4::Down
    }
}

/// Sprite row of a facing: down 0, up 1, sideways 2 (left is mirrored).
pub open spec fn spec_dir_slot(f: Dir4) -> u32 {
    match f {
        Dir4::Down => 0,
        Dir4::Up => 1,
        _ => 2,
    }
}

pub fn dir_slot(f: Dir4) -> (s: u32)
    ensures
        s == spec_dir_slot(f),
{
    match f {
        Dir4::Down => 0,
        Dir4::Up => 1,
        Dir4::Left | Dir4::Right => 2,
    }
}

/// The unit step of a facing, in screen axes (y grows downward).
pub open spec fn spec_dir_step(f: Dir4) -> (i32, i32) {
    match f {
        Dir4::Up => (0i32, -1i32),
        Dir4::Down => (0i32, 1i32),
        Dir4::Left => (-1i32, 0i32),
        Dir4::Right => (1i32, 0i32),
    }
}

pub fn dir_step(f: Dir4) -> (s: (i32, i32))
    ensures
        s == spec_dir_step(f),
{
    match f {
        Dir4::Up => (0, -1),
        Dir4::Down => (0, 1),
        Dir4::Left => (-1, 0),
        Dir4::Right => (1, 0),
    }
}

} // verus!
