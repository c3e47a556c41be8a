//! Where a served ball starts and how it moves off.
use vstd::prelude::*;

use crate::game::Side;
use crate::random::fair_coin;

verus! {

/// Horizontal speed of a served ball, in pixels per second.
pub const SERVE_SPEED_X: i32 = 150;

/// Vertical speed of a served ball, in pixels per second.
pub const SERVE_SPEED_Y: i32 = 300;

/// A serve: the ball starts at the middle of the top edge (or of the bottom
/// edge) with this velocity, in pixels per second (positive `y` is down).
#[derive(Clone, Copy, Debug, PartialEq, Eq, Structural)]
pub struct ServePlan {
    pub from_top: bool,
    pub velocity_x: i32,
    pub velocity_y: i32,
}

/// The serve toward `to` when the coin shows `coin`. Toward the player the
/// ball heads left, from the top edge moving up when the coin shows `true`
/// and from the bottom edge moving down otherwise. Toward the opponent it
/// starts at the top edge moving up, heading right when the coin shows
/// `true` and left otherwise.
pub open spec fn plan_for(to: Side, coin: bool) -> ServePlan {
    match to {
        Side::Player => ServePlan {
            from_top: coin,
            velocity_x: (-SERVE_SPEED_X) as i32,
            velocity_y: if coin {
                (-SERVE_SPEED_Y) as i32
            } else {
                SERVE_SPEED_Y
            },
        },
        Side::Opponent => ServePlan {
            from_top: true,
            velocity_x: if coin {
                SERVE_SPEED_X
            } else {
                (-SERVE_SPEED_X) as i32
            },
            velocity_y: (-SERVE_SPEED_Y) as i32,
        },
    }
}

/// A serve starts against the top or bottom edge and moves into it (so that
/// it bounces off at once), at the serving speeds; a serve toward the player
/// always heads toward the player's side.
pub open spec fn sound_serve(to: Side, p: ServePlan) -> bool {
    &&& p.from_top <==> p.velocity_y < 0
    &&& (p.velocity_x == SERVE_SPEED_X || p.velocity_x == -SERVE_SPEED_X)
    &&& (p.velocity_y == SERVE_SPEED_Y || p.velocity_y == -SERVE_SPEED_Y)
    &&& to == Side::Player ==> p.velocity_x < 0
}

/// The serve toward `to` for the given coin.
pub fn serve_plan_with(to: Side, coin: bool) -> (p: ServePlan)
    ensures
        p == plan_for(to, coin),
        sound_serve(to, p),
{
    match to {
        Side::Player => {
            if coin {
                ServePlan { from_top: true, velocity_x: -SERVE_SPEED_X, velocity_y: -SERVE_SPEED_Y }
            } else {
                ServePlan { from_top: false, velocity_x: -SERVE_SPEED_X, velocity_y: SERVE_SPEED_Y }
            }
        },
        Side::Opponent => {
            let x = if coin {
                SERVE_SPEED_X
            } else {
                -SERVE_SPEED_X
            };
            ServePlan { from_top: true, velocity_x: x, velocity_y: -SERVE_SPEED_Y }
        },
    }
}

/// The serve toward `to`, the open choice made by a fair coin.
pub fn serve_plan(to: Side) -> (p: ServePlan)
    ensures
        exists|coin: bool| p == plan_for(to, coin),
        sound_serve(to, p),
{
    let coin = fair_coin();
    serve_plan_with(to, coin)
}

} // verus!
