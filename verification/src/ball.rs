//! The ball's contacts with the table: walls and paddle segments.
use vstd::prelude::*;

verus! {

/// The number of segments a paddle is cut into, each with its own rebound
/// factor (the paddle's gradient).
pub const SEGMENTS: usize = 100;

/// The segment of the paddle's gradient that a hit falls in, given the
/// hit's distance from the top of the paddle counted in whole segments:
/// hits beyond the last segment count as the last one.
pub fn gradient_index(segment: usize) -> (i: usize)
    ensures
        i == if segment < SEGMENTS {
            segment
        } else {
            (SEGMENTS - 1) as usize
        },
        i < SEGMENTS,
{
    if segment < SEGMENTS {
        segment
    } else {
        SEGMENTS - 1
    }
}

/// The horizontal walls of the table.
#[derive(Clone, Copy, Debug, PartialEq, Eq, Structural)]
pub enum Wall {
    Top,
    Bottom,
}

/// The wall the ball bounces off, if any: the top wall when the ball
/// reaches it, otherwise the bottom wall when it reaches that one.
pub fn wall_contact(reaches_top: bool, reaches_bottom: bool) -> (w: Option<Wall>)
    ensures
        w == if reaches_top {
            Some(Wall::Top)
        } else if reaches_bottom {
            Some(Wall::Bottom)
        } else {
            None
        },
{
    if reaches_top {
        Some(Wall::Top)
    } else if reaches_bottom {
        Some(Wall::Bottom)
    } else {
        None
    }
}

} // verus!
