//! What the menus and the starry background show.
use vstd::prelude::*;

use crate::text::{decimal, decimal_text, same_text};

verus! {

/// The way the background stars drift.
#[derive(Clone, Copy, Debug, PartialEq, Eq, Structural)]
pub enum StarDirection {
    Down,
    Diagonal,
    DiagonalReverse,
}

impl StarDirection {
    /// The signs of a star's horizontal and vertical step: straight down,
    /// down and to the right, or up and to the left.
    pub fn drift(&self) -> (d: (i8, i8))
        ensures
            d == match *self {
                StarDirection::Down => (0i8, 1i8),
                StarDirection::Diagonal => (1i8, 1i8),
                StarDirection::DiagonalReverse => (-1i8, -1i8),
            },
    {
        match self {
            StarDirection::Down => (0, 1),
            StarDirection::Diagonal => (1, 1),
            StarDirection::DiagonalReverse => (-1, -1),
        }
    }
}

/// The grey level of a star.
#[derive(Clone, Copy, Debug, PartialEq, Eq, Structural)]
pub enum StarShade {
    White,
    LightGray,
    Gray,
}

/// A star's shade, its size in pixels and its speed in pixels per second.
#[derive(Clone, Copy, Debug, PartialEq, Eq, Structural)]
pub struct StarLook {
    pub shade: StarShade,
    pub size: u32,
    pub speed: u32,
}

/// The look picked by two rolls of a three-sided die: the first roll picks
/// white, light grey or grey; the second a small slow star (1 px, 5 px/s), a
/// middle one (2 px, 15 px/s) or a large fast one (3 px, 30 px/s). Any roll
/// other than 0 and 1 counts as the third face.
pub open spec fn look_for(shade_roll: int, size_roll: int) -> StarLook {
    StarLook {
        shade: if shade_roll == 0 {
            StarShade::White
        } else if shade_roll == 1 {
            StarShade::LightGray
        } else {
            StarShade::Gray
        },
        size: if size_roll == 0 {
            1
        } else if size_roll == 1 {
            2
        } else {
            3
        },
        speed: if size_roll == 0 {
            5
        } else if size_roll == 1 {
            15
        } else {
            30
        },
    }
}

/// The look of a new star from its two rolls.
pub fn star_look(shade_roll: i32, size_roll: i32) -> (l: StarLook)
    ensures
        l == look_for(shade_roll as int, size_roll as int),
{
    let shade = if shade_roll == 0 {
        StarShade::White
    } else if shade_roll == 1 {
        StarShade::LightGray
    } else {
        StarShade::Gray
    };
    let (size, speed): (u32, u32) = if size_roll == 0 {
        (1, 5)
    } else if size_roll == 1 {
        (2, 15)
    } else {
        (3, 30)
    };
    StarLook { shade, size, speed }
}

/// Of any two stars, the larger one moves faster, and stars of one size move
/// at one speed: the parallax of the background.
pub proof fn lemma_larger_stars_move_faster(shade_a: int, size_a: int, shade_b: int, size_b: int)
    ensures
        look_for(shade_a, size_a).size < look_for(shade_b, size_b).size ==> look_for(
            shade_a,
            size_a,
        ).speed < look_for(shade_b, size_b).speed,
        look_for(shade_a, size_a).size == look_for(shade_b, size_b).size ==> look_for(
            shade_a,
            size_a,
        ).speed == look_for(shade_b, size_b).speed,
{
}

/// A star's shade depends on the shade roll alone, and its size and speed
/// on the size roll alone: changing one roll never changes what the other
/// one decides. A roll of 0 gives white (and the small size), a roll of 1
/// light grey (and the middle size).
pub proof fn lemma_rolls_decide_independently(
    shade_roll: int,
    size_a: int,
    size_b: int,
    size_roll: int,
    shade_a: int,
    shade_b: int,
)
    ensures
        look_for(shade_roll, size_a).shade == look_for(shade_roll, size_b).shade,
        look_for(shade_a, size_roll).size == look_for(shade_b, size_roll).size,
        look_for(shade_a, size_roll).speed == look_for(shade_b, size_roll).speed,
        look_for(0, size_a).shade == StarShade::White,
        look_for(1, size_a).shade == StarShade::LightGray,
        look_for(shade_a, 0).size == 1,
        look_for(shade_a, 1).size == 2,
{
}

/// The title of the end screen: "Player Won" when `winner` is "player",
/// "Opponent Won" otherwise.
pub fn end_menu_title(winner: &str) -> (t: &'static str)
    ensures
        t@ == if winner@ == seq!['p', 'l', 'a', 'y', 'e', 'r'] {
            seq!['P', 'l', 'a', 'y', 'e', 'r', ' ', 'W', 'o', 'n']
        } else {
            seq!['O', 'p', 'p', 'o', 'n', 'e', 'n', 't', ' ', 'W', 'o', 'n']
        },
{
    proof {
        reveal_strlit("player");
        reveal_strlit("Player Won");
        reveal_strlit("Opponent Won");
        assert("player"@ =~= seq!['p', 'l', 'a', 'y', 'e', 'r']);
        assert("Player Won"@ =~= seq!['P', 'l', 'a', 'y', 'e', 'r', ' ', 'W', 'o', 'n']);
        assert("Opponent Won"@ =~= seq!['O', 'p', 'p', 'o', 'n', 'e', 'n', 't', ' ', 'W', 'o', 'n']);
    }
    if same_text(winner, "player") {
        "Player Won"
    } else {
        "Opponent Won"
    }
}

/// A half of the screen.
#[derive(Clone, Copy, Debug, PartialEq, Eq, Structural)]
pub enum Half {
    Left,
    Right,
}

/// The half of the screen lit up after a point: the right half (the
/// opponent's) when `side` is "opponent", the left half otherwise. The other
/// half is dimmed.
pub fn highlighted_half(side: &str) -> (h: Half)
    ensures
        h == if side@ == seq!['o', 'p', 'p', 'o', 'n', 'e', 'n', 't'] {
            Half::Right
        } else {
            Half::Left
        },
{
    proof {
        reveal_strlit("opponent");
        assert("opponent"@ =~= seq!['o', 'p', 'p', 'o', 'n', 'e', 'n', 't']);
    }
    if same_text(side, "opponent") {
        Half::Right
    } else {
        Half::Left
    }
}

/// Whether the difficulty screen's arrow points at "Easy": when `difficulty`
/// is "easy"; at "Hard" otherwise.
pub fn arrow_at_easy(difficulty: &str) -> (easy: bool)
    ensures
        easy == (difficulty@ == seq!['e', 'a', 's', 'y']),
{
    proof {
        reveal_strlit("easy");
        assert("easy"@ =~= seq!['e', 'a', 's', 'y']);
    }
    same_text(difficulty, "easy")
}

/// The gap between the two scores on the overlay: five spaces.
pub open spec fn score_gap() -> Seq<char> {
    seq![' ', ' ', ' ', ' ', ' ']
}

/// The score overlay: the player's score and the opponent's, in decimal,
/// five spaces apart.
pub fn score_text(player_score: i32, opponent_score: i32) -> (s: String)
    ensures
        s@ == decimal(player_score as int) + score_gap() + decimal(opponent_score as int),
{
    let mut s = decimal_text(player_score);
    proof {
        reveal_strlit("     ");
        assert("     "@ =~= score_gap());
    }
    s.append("     ");
    let o = decimal_text(opponent_score);
    s.append(o.as_str());
    s
}

} // verus!
