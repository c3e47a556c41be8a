//! How the paddles choose where to move.
//!
//! A paddle's position and the ball's are measured by the host; what the
//! paddle decides from those measurements (the comparisons, handed over as
//! booleans) is stated and proved here.
use vstd::prelude::*;

use crate::text::same_text;

verus! {

/// Which way a paddle is moving along the vertical axis.
#[derive(Clone, Copy, Debug, PartialEq, Eq, Structural)]
pub enum Direction {
    Idle,
    Up,
    Down,
}

/// The direction called `name` ("None", "Up" or "Down"), if any.
pub open spec fn direction_named(name: Seq<char>) -> Option<Direction> {
    if name == seq!['N', 'o', 'n', 'e'] {
        Some(Direction::Idle)
    } else if name == seq!['U', 'p'] {
        Some(Direction::Up)
    } else if name == seq!['D', 'o', 'w', 'n'] {
        Some(Direction::Down)
    } else {
        None
    }
}

impl Direction {
    /// The direction called `name`: "None", "Up" or "Down".
    pub fn from_name(name: &str) -> (d: Option<Direction>)
        ensures
            d == direction_named(name@),
    {
        proof {
            reveal_strlit("None");
            reveal_strlit("Up");
            reveal_strlit("Down");
            assert("None"@ =~= seq!['N', 'o', 'n', 'e']);
            assert("Up"@ =~= seq!['U', 'p']);
            assert("Down"@ =~= seq!['D', 'o', 'w', 'n']);
        }
        if same_text(name, "None") {
            Some(Direction::Idle)
        } else if same_text(name, "Up") {
            Some(Direction::Up)
        } else if same_text(name, "Down") {
            Some(Direction::Down)
        } else {
            None
        }
    }

    /// Sets the direction by name; an unknown name leaves it as it was.
    pub fn set_direction(&mut self, name: &str)
        ensures
            *final(self) == match direction_named(name@) {
                Some(d) => d,
                None => *old(self),
            },
    {
        match Direction::from_name(name) {
            Some(d) => {
                *self = d;
            },
            None => {},
        }
    }

    /// The vertical sign of the movement: `-1` upwards (toward the top of the
    /// screen), `1` downwards, `0` at rest.
    pub fn sign(&self) -> (s: i8)
        ensures
            s == match *self {
                Direction::Idle => 0i8,
                Direction::Up => -1i8,
                Direction::Down => 1i8,
            },
    {
        match self {
            Direction::Idle => 0,
            Direction::Up => -1,
            Direction::Down => 1,
        }
    }
}

/// Steering by keyboard: up when the up key is held and the paddle is below
/// the top edge, otherwise down when the down key is held and the paddle is
/// above the bottom edge, otherwise at rest. A paddle never heads into an
/// edge it already touches.
pub fn keyboard_movement(up_held: bool, room_above: bool, down_held: bool, room_below: bool) -> (d:
    Direction)
    ensures
        d == (if up_held && room_above {
            Direction::Up
        } else if down_held && room_below {
            Direction::Down
        } else {
            Direction::Idle
        }),
        d == Direction::Up ==> room_above,
        d == Direction::Down ==> room_below,
{
    if up_held && room_above {
        Direction::Up
    } else if down_held && room_below {
        Direction::Down
    } else {
        Direction::Idle
    }
}

/// The player's paddle when the computer plays it: while the ball comes
/// toward the player's half, the paddle follows it (down when the ball is
/// below the paddle's centre and there is room below, otherwise up when the
/// ball is above the centre and there is room above); at any other time it
/// rests. A paddle never heads into an edge it already touches.
pub fn player_automatic_movement(
    ball_incoming: bool,
    ball_below_centre: bool,
    ball_above_centre: bool,
    room_below: bool,
    room_above: bool,
) -> (d: Direction)
    ensures
        d == (if !ball_incoming {
            Direction::Idle
        } else if ball_below_centre && room_below {
            Direction::Down
        } else if ball_above_centre && room_above {
            Direction::Up
        } else {
            Direction::Idle
        }),
        d == Direction::Up ==> room_above,
        d == Direction::Down ==> room_below,
        !ball_incoming ==> d == Direction::Idle,
{
    if ball_incoming {
        if ball_below_centre && room_below {
            Direction::Down
        } else if ball_above_centre && room_above {
            Direction::Up
        } else {
            Direction::Idle
        }
    } else {
        Direction::Idle
    }
}

/// The opponent's paddle heading for its target: down when the target lies
/// clearly below and there is room below, otherwise up when the target lies
/// clearly above and there is room above, otherwise at rest. A paddle never
/// heads into an edge it already touches.
pub fn opponent_automatic_movement(
    target_below: bool,
    target_above: bool,
    room_below: bool,
    room_above: bool,
) -> (d: Direction)
    ensures
        d == (if target_below && room_below {
            Direction::Down
        } else if target_above && room_above {
            Direction::Up
        } else {
            Direction::Idle
        }),
        d == Direction::Up ==> room_above,
        d == Direction::Down ==> room_below,
{
    if target_below && room_below {
        Direction::Down
    } else if target_above && room_above {
        Direction::Up
    } else {
        Direction::Idle
    }
}

} // verus!
