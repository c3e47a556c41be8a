//! The screens of a match and the rules that move between them.
//!
//! Each frame the host reads the keyboard, the clock and where the ball
//! went, and hands those facts to [`Game`]. The game decides the next screen,
//! the scores and what the host has to do (sounds, serves, saving the ball's
//! velocity), and returns that as a [`FrameActions`].
use vstd::prelude::*;

use crate::random::fair_coin;

verus! {

/// Points a side needs to win the match.
pub const WINNING_SCORE: i32 = 11;

/// The screen the game shows.
#[derive(Clone, Copy, Debug, PartialEq, Eq, Structural)]
pub enum GameState {
    StartMenu,
    DifficultyMenu,
    Playing,
    Paused,
    End,
}

/// The opponent's strength as chosen on the difficulty screen.
#[derive(Clone, Copy, Debug, PartialEq, Eq, Structural)]
pub enum Difficulty {
    Easy,
    Hard,
}

/// One of the two sides of the table.
#[derive(Clone, Copy, Debug, PartialEq, Eq, Structural)]
pub enum Side {
    Player,
    Opponent,
}

/// The keys that were pressed (not held) during a frame.
#[derive(Clone, Copy, Debug, PartialEq, Eq, Structural)]
pub struct Keys {
    pub enter: bool,
    pub left: bool,
    pub right: bool,
    pub escape: bool,
    pub quit: bool,
}

/// Where the ball is after this frame's movement: on the table, or out past
/// one of the two side edges of the screen.
#[derive(Clone, Copy, Debug, PartialEq, Eq, Structural)]
pub enum BallExit {
    Inside,
    PastLeft,
    PastRight,
}

/// What the host has to carry out after a frame.
#[derive(Clone, Copy, Debug, PartialEq, Eq, Structural)]
pub struct FrameActions {
    /// Start the looping menu music.
    pub start_menu_music: bool,
    /// Stop the menu music.
    pub stop_menu_music: bool,
    /// How many times to play the selection sound (one per arrow key).
    pub selection_sounds: u8,
    /// Put both paddles at their start and serve the ball toward this side.
    pub reset_round: Option<Side>,
    /// Give the opponent this difficulty.
    pub difficulty: Option<Difficulty>,
    /// Remember the ball's velocity (the game is being paused).
    pub save_ball_velocity: bool,
    /// Give the ball back the remembered velocity (the game resumes).
    pub restore_ball_velocity: bool,
    /// This side has just won a point (play its sound).
    pub point: Option<Side>,
    /// Start the short pause that shows who scored before the next serve.
    pub start_flash: bool,
}

/// Everything the rules of the match keep track of between frames.
#[derive(Clone, Copy, Debug, PartialEq, Eq, Structural)]
pub struct Board {
    pub state: GameState,
    pub difficulty_selection: Difficulty,
    pub menu_music_playing: bool,
    pub player_score: i32,
    pub opponent_score: i32,
    pub point_scored_by: Side,
    pub serve_to_player: bool,
    pub waiting_to_serve: bool,
}

/// The side toward which a fresh round is served: the player when the coin
/// comes up, the opponent otherwise.
pub open spec fn serve_side(coin: bool) -> Side {
    if coin {
        Side::Player
    } else {
        Side::Opponent
    }
}

/// A frame after which the host has nothing to do.
pub open spec fn quiet() -> FrameActions {
    FrameActions {
        start_menu_music: false,
        stop_menu_music: false,
        selection_sounds: 0,
        reset_round: None,
        difficulty: None,
        save_ball_velocity: false,
        restore_ball_velocity: false,
        point: None,
        start_flash: false,
    }
}

/// The score of `side` on `b`.
pub open spec fn score_of(b: Board, side: Side) -> int {
    match side {
        Side::Player => b.player_score as int,
        Side::Opponent => b.opponent_score as int,
    }
}

impl Board {
    /// The board at launch: start menu, easy selected, nothing scored.
    pub open spec fn initial() -> Board {
        Board {
            state: GameState::StartMenu,
            difficulty_selection: Difficulty::Easy,
            menu_music_playing: false,
            player_score: 0,
            opponent_score: 0,
            point_scored_by: Side::Player,
            serve_to_player: false,
            waiting_to_serve: false,
        }
    }

    /// The boards that a match can reach: scores between zero and the
    /// winning score, exactly one side at the winning score on the end
    /// screen and neither elsewhere, and a fresh match (no score, no pending
    /// serve) on the difficulty screen.
    pub open spec fn valid(self) -> bool {
        &&& 0 <= self.player_score <= WINNING_SCORE
        &&& 0 <= self.opponent_score <= WINNING_SCORE
        &&& self.state == GameState::End ==> ((self.player_score == WINNING_SCORE) != (
            self.opponent_score == WINNING_SCORE))
        &&& self.state != GameState::End ==> (self.player_score < WINNING_SCORE
            && self.opponent_score < WINNING_SCORE)
        &&& self.state == GameState::DifficultyMenu ==> (self.player_score == 0
            && self.opponent_score == 0 && !self.waiting_to_serve)
    }

    /// Checks [`Board::valid`].
    pub fn is_valid(&self) -> (r: bool)
        ensures
            r == self.valid(),
    {
        let scores_in_range = 0 <= self.player_score && self.player_score <= WINNING_SCORE && 0
            <= self.opponent_score && self.opponent_score <= WINNING_SCORE;
        let player_won = self.player_score == WINNING_SCORE;
        let opponent_won = self.opponent_score == WINNING_SCORE;
        let end_ok = match self.state {
            GameState::End => player_won != opponent_won,
            _ => self.player_score < WINNING_SCORE && self.opponent_score < WINNING_SCORE,
        };
        let menu_ok = match self.state {
            GameState::DifficultyMenu => self.player_score == 0 && self.opponent_score == 0
                && !self.waiting_to_serve,
            _ => true,
        };
        scores_in_range && end_ok && menu_ok
    }
}

/// The start menu: the music is started if it is silent, and Enter begins a
/// fresh match (scores cleared, paddles reset, a serve chosen by the coin)
/// and moves on to the difficulty screen.
pub open spec fn start_menu_frame(b: Board, keys: Keys, coin: bool) -> (Board, FrameActions) {
    let acts = FrameActions { start_menu_music: !b.menu_music_playing, ..quiet() };
    let heard = Board { menu_music_playing: true, ..b };
    if keys.enter {
        (
            Board {
                state: GameState::DifficultyMenu,
                player_score: 0,
                opponent_score: 0,
                waiting_to_serve: false,
                ..heard
            },
            FrameActions { reset_round: Some(serve_side(coin)), ..acts },
        )
    } else {
        (heard, acts)
    }
}

/// The difficulty screen: Right selects hard and Left easy (Left last, so it
/// wins when both are pressed), each with a sound; Enter hands the selection
/// to the opponent and starts play; Escape goes back to the start menu, and
/// is looked at after Enter.
pub open spec fn difficulty_frame(b: Board, keys: Keys) -> (Board, FrameActions) {
    let selection = if keys.left {
        Difficulty::Easy
    } else if keys.right {
        Difficulty::Hard
    } else {
        b.difficulty_selection
    };
    let sounds = (if keys.left {
        1int
    } else {
        0int
    }) + (if keys.right {
        1int
    } else {
        0int
    });
    let state = if keys.escape {
        GameState::StartMenu
    } else if keys.enter {
        GameState::Playing
    } else {
        GameState::DifficultyMenu
    };
    (
        Board { state, difficulty_selection: selection, ..b },
        FrameActions {
            selection_sounds: sounds as u8,
            difficulty: if keys.enter {
                Some(selection)
            } else {
                None
            },
            ..quiet()
        },
    )
}

/// `side` wins a point on `b`. The match ends when that side reaches the
/// winning score; otherwise the board waits to serve toward the side that
/// conceded, after the flash that shows who scored.
pub open spec fn score_point(b: Board, acts: FrameActions, side: Side) -> (Board, FrameActions) {
    let player_score = if side == Side::Player {
        (b.player_score + 1) as i32
    } else {
        b.player_score
    };
    let opponent_score = if side == Side::Opponent {
        (b.opponent_score + 1) as i32
    } else {
        b.opponent_score
    };
    let scored = Board { player_score, opponent_score, ..b };
    let acts = FrameActions { point: Some(side), ..acts };
    if score_of(scored, side) >= WINNING_SCORE {
        (Board { state: GameState::End, ..scored }, acts)
    } else {
        (
            Board {
                point_scored_by: side,
                serve_to_player: side == Side::Opponent,
                waiting_to_serve: true,
                ..scored
            },
            FrameActions { start_flash: true, ..acts },
        )
    }
}

/// A frame of play: the menu music is stopped; Escape pauses (and the ball's
/// velocity is saved); a ball out past the left edge is a point for the
/// opponent, out past the right edge a point for the player, unless the
/// board is waiting to serve.
pub open spec fn playing_frame(b: Board, keys: Keys, exit: BallExit) -> (Board, FrameActions) {
    let base = Board {
        state: if keys.escape {
            GameState::Paused
        } else {
            GameState::Playing
        },
        menu_music_playing: false,
        ..b
    };
    let acts = FrameActions {
        stop_menu_music: true,
        save_ball_velocity: keys.escape,
        ..quiet()
    };
    if !b.waiting_to_serve && exit == BallExit::PastLeft {
        score_point(base, acts, Side::Opponent)
    } else if !b.waiting_to_serve && exit == BallExit::PastRight {
        score_point(base, acts, Side::Player)
    } else {
        (base, acts)
    }
}

/// The pause screen: Escape resumes play (and the ball gets its velocity
/// back); Q goes to the start menu, and is looked at after Escape.
pub open spec fn paused_frame(b: Board, keys: Keys) -> (Board, FrameActions) {
    let state = if keys.quit {
        GameState::StartMenu
    } else if keys.escape {
        GameState::Playing
    } else {
        GameState::Paused
    };
    (Board { state, ..b }, FrameActions { restore_ball_velocity: keys.escape, ..quiet() })
}

/// The end screen: Enter clears the scores, resets the round with a serve
/// chosen by the coin and plays again; Q clears the scores and goes to the
/// start menu, and is looked at after Enter.
pub open spec fn end_frame(b: Board, keys: Keys, coin: bool) -> (Board, FrameActions) {
    let state = if keys.quit {
        GameState::StartMenu
    } else if keys.enter {
        GameState::Playing
    } else {
        GameState::End
    };
    let cleared = keys.enter || keys.quit;
    (
        Board {
            state,
            player_score: if cleared {
                0
            } else {
                b.player_score
            },
            opponent_score: if cleared {
                0
            } else {
                b.opponent_score
            },
            waiting_to_serve: if keys.enter {
                false
            } else {
                b.waiting_to_serve
            },
            ..b
        },
        FrameActions {
            reset_round: if keys.enter {
                Some(serve_side(coin))
            } else {
                None
            },
            ..quiet()
        },
    )
}

/// What one frame does to the board, given the keys pressed, where the ball
/// went and the coin that chooses the serve of a fresh round.
pub open spec fn step_frame(b: Board, keys: Keys, exit: BallExit, coin: bool) -> (
    Board,
    FrameActions,
) {
    match b.state {
        GameState::StartMenu => start_menu_frame(b, keys, coin),
        GameState::DifficultyMenu => difficulty_frame(b, keys),
        GameState::Playing => playing_frame(b, keys, exit),
        GameState::Paused => paused_frame(b, keys),
        GameState::End => end_frame(b, keys, coin),
    }
}

/// At the start of a frame of play, a pending serve is made once the flash
/// is over: toward the player after the opponent scored, toward the opponent
/// otherwise.
pub open spec fn serve_due(b: Board, flash_over: bool) -> (Board, Option<Side>) {
    if b.state == GameState::Playing && b.waiting_to_serve && flash_over {
        (
            Board { waiting_to_serve: false, ..b },
            Some(
                if b.serve_to_player {
                    Side::Player
                } else {
                    Side::Opponent
                },
            ),
        )
    } else {
        (b, None)
    }
}

/// The side named on the end screen: the player when the player has the
/// winning score, the opponent otherwise; no one before the end.
pub open spec fn end_winner(b: Board) -> Option<Side> {
    if b.state == GameState::End {
        Some(
            if b.player_score >= WINNING_SCORE {
                Side::Player
            } else {
                Side::Opponent
            },
        )
    } else {
        None
    }
}

impl Difficulty {
    /// The name the difficulty screen goes by: "easy" or "hard".
    pub fn name(&self) -> (n: &'static str)
        ensures
            n@ == match *self {
                Difficulty::Easy => seq!['e', 'a', 's', 'y'],
                Difficulty::Hard => seq!['h', 'a', 'r', 'd'],
            },
    {
        proof {
            reveal_strlit("easy");
            reveal_strlit("hard");
            assert("easy"@ =~= seq!['e', 'a', 's', 'y']);
            assert("hard"@ =~= seq!['h', 'a', 'r', 'd']);
        }
        match self {
            Difficulty::Easy => "easy",
            Difficulty::Hard => "hard",
        }
    }
}

impl Side {
    /// The name the screens use for the side: "player" or "opponent".
    pub fn name(&self) -> (n: &'static str)
        ensures
            n@ == match *self {
                Side::Player => seq!['p', 'l', 'a', 'y', 'e', 'r'],
                Side::Opponent => seq!['o', 'p', 'p', 'o', 'n', 'e', 'n', 't'],
            },
    {
        proof {
            reveal_strlit("player");
            reveal_strlit("opponent");
            assert("player"@ =~= seq!['p', 'l', 'a', 'y', 'e', 'r']);
            assert("opponent"@ =~= seq!['o', 'p', 'p', 'o', 'n', 'e', 'n', 't']);
        }
        match self {
            Side::Player => "player",
            Side::Opponent => "opponent",
        }
    }
}

impl FrameActions {
    /// No action at all.
    pub fn none() -> (a: FrameActions)
        ensures
            a == quiet(),
    {
        FrameActions {
            start_menu_music: false,
            stop_menu_music: false,
            selection_sounds: 0,
            reset_round: None,
            difficulty: None,
            save_ball_velocity: false,
            restore_ball_velocity: false,
            point: None,
            start_flash: false,
        }
    }
}

/// One frame of the rules on a reachable board.
fn advance(b: Board, keys: Keys, exit: BallExit, coin: bool) -> (r: (Board, FrameActions))
    requires
        b.valid(),
    ensures
        r == step_frame(b, keys, exit, coin),
{
    let mut next = b;
    let mut acts = FrameActions::none();
    match b.state {
        GameState::StartMenu => {
            if !next.menu_music_playing {
                acts.start_menu_music = true;
                next.menu_music_playing = true;
            }
            if keys.enter {
                next.player_score = 0;
                next.opponent_score = 0;
                next.waiting_to_serve = false;
                acts.reset_round = Some(
                    if coin {
                        Side::Player
                    } else {
                        Side::Opponent
                    },
                );
                next.state = GameState::DifficultyMenu;
            }
        },
        GameState::DifficultyMenu => {
            if keys.right {
                acts.selection_sounds = acts.selection_sounds + 1;
                next.difficulty_selection = Difficulty::Hard;
            }
            if keys.left {
                acts.selection_sounds = acts.selection_sounds + 1;
                next.difficulty_selection = Difficulty::Easy;
            }
            if keys.enter {
                acts.difficulty = Some(next.difficulty_selection);
                next.state = GameState::Playing;
            }
            if keys.escape {
                next.state = GameState::StartMenu;
            }
        },
        GameState::Playing => {
            acts.stop_menu_music = true;
            next.menu_music_playing = false;
            if keys.escape {
                acts.save_ball_velocity = true;
                next.state = GameState::Paused;
            }
            let out_left = match exit {
                BallExit::PastLeft => true,
                _ => false,
            };
            let out_right = match exit {
                BallExit::PastRight => true,
                _ => false,
            };
            if !b.waiting_to_serve && out_left {
                acts.point = Some(Side::Opponent);
                next.opponent_score = next.opponent_score + 1;
                if next.opponent_score >= WINNING_SCORE {
                    next.state = GameState::End;
                } else {
                    next.point_scored_by = Side::Opponent;
                    next.serve_to_player = true;
                    acts.start_flash = true;
                    next.waiting_to_serve = true;
                }
            } else if !b.waiting_to_serve && out_right {
                acts.point = Some(Side::Player);
                next.player_score = next.player_score + 1;
                if next.player_score >= WINNING_SCORE {
                    next.state = GameState::End;
                } else {
                    next.point_scored_by = Side::Player;
                    next.serve_to_player = false;
                    acts.start_flash = true;
                    next.waiting_to_serve = true;
                }
            }
        },
        GameState::Paused => {
            if keys.escape {
                acts.restore_ball_velocity = true;
                next.state = GameState::Playing;
            }
            if keys.quit {
                next.state = GameState::StartMenu;
            }
        },
        GameState::End => {
            if keys.enter {
                next.player_score = 0;
                next.opponent_score = 0;
                next.waiting_to_serve = false;
                acts.reset_round = Some(
                    if coin {
                        Side::Player
                    } else {
                        Side::Opponent
                    },
                );
                next.state = GameState::Playing;
            }
            if keys.quit {
                next.player_score = 0;
                next.opponent_score = 0;
                next.state = GameState::StartMenu;
            }
        },
    }
    (next, acts)
}

/// Every frame keeps a board reachable.
pub proof fn lemma_frame_keeps_valid(b: Board, keys: Keys, exit: BallExit, coin: bool)
    requires
        b.valid(),
    ensures
        step_frame(b, keys, exit, coin).0.valid(),
{
}

/// Making a pending serve keeps a board reachable.
pub proof fn lemma_serve_keeps_valid(b: Board, flash_over: bool)
    requires
        b.valid(),
    ensures
        serve_due(b, flash_over).0.valid(),
{
}

/// A match in play, paused with Escape and resumed with Escape (the ball
/// staying on the table), is back where it was, except that the menu music
/// is known to be stopped; the first frame saves the ball's velocity and the
/// second gives it back.
pub proof fn lemma_pause_then_resume(b: Board, first_coin: bool, second_coin: bool)
    requires
        b.valid(),
        b.state == GameState::Playing,
    ensures
        ({
            let esc = Keys { enter: false, left: false, right: false, escape: true, quit: false };
            let (paused, first) = step_frame(b, esc, BallExit::Inside, first_coin);
            let (resumed, second) = step_frame(paused, esc, BallExit::Inside, second_coin);
            &&& paused.state == GameState::Paused
            &&& first.save_ball_velocity
            &&& second.restore_ball_velocity
            &&& resumed == Board { menu_music_playing: false, ..b }
        }),
{
}

/// A frame either starts the match afresh (both scores zero) or leaves each
/// score where it was or one higher, and at most one of them moves; a score
/// that moves is the one of the side named as having won the point.
pub proof fn lemma_scores_move_by_single_points(b: Board, keys: Keys, exit: BallExit, coin: bool)
    requires
        b.valid(),
    ensures
        ({
            let (n, acts) = step_frame(b, keys, exit, coin);
            ||| n.player_score == 0 && n.opponent_score == 0
            ||| {
                &&& n.player_score == b.player_score || n.player_score == b.player_score + 1
                &&& n.opponent_score == b.opponent_score || n.opponent_score == b.opponent_score
                    + 1
                &&& !(n.player_score != b.player_score && n.opponent_score != b.opponent_score)
                &&& n.player_score != b.player_score ==> acts.point == Some(Side::Player)
                &&& n.opponent_score != b.opponent_score ==> acts.point == Some(Side::Opponent)
            }
        }),
{
}

/// A point is won only during play and only while no serve is pending; the
/// side named gains exactly one point and the other side none.
pub proof fn lemma_point_only_in_play(b: Board, keys: Keys, exit: BallExit, coin: bool)
    requires
        b.valid(),
    ensures
        ({
            let (n, acts) = step_frame(b, keys, exit, coin);
            acts.point matches Some(side) ==> {
                &&& b.state == GameState::Playing
                &&& !b.waiting_to_serve
                &&& score_of(n, side) == score_of(b, side) + 1
                &&& n.player_score + n.opponent_score == b.player_score + b.opponent_score + 1
            }
        }),
{
}

/// The match ends exactly when a point takes its winner to the winning
/// score, and the end screen then names that side.
pub proof fn lemma_match_ends_at_winning_score(b: Board, keys: Keys, exit: BallExit, coin: bool)
    requires
        b.valid(),
        b.state != GameState::End,
    ensures
        ({
            let (n, acts) = step_frame(b, keys, exit, coin);
            n.state == GameState::End <==> (acts.point matches Some(side) && score_of(n, side)
                == WINNING_SCORE)
        }),
        ({
            let (n, acts) = step_frame(b, keys, exit, coin);
            n.state == GameState::End ==> end_winner(n) == acts.point
        }),
{
}

/// On the end screen of a reachable board, the side named has the winning
/// score and the other side has less.
pub proof fn lemma_end_names_the_winner(b: Board)
    requires
        b.valid(),
        b.state == GameState::End,
    ensures
        end_winner(b) matches Some(side) && score_of(b, side) == WINNING_SCORE && score_of(
            b,
            match side {
                Side::Player => Side::Opponent,
                Side::Opponent => Side::Player,
            },
        ) < WINNING_SCORE,
{
}

/// A point that does not end the match sets up the next serve toward the
/// side that conceded it, after the flash; once the flash is over (and play
/// was not paused), the serve goes that way and nothing is pending.
pub proof fn lemma_next_serve_toward_conceding_side(
    b: Board,
    keys: Keys,
    exit: BallExit,
    coin: bool,
)
    requires
        b.valid(),
    ensures
        ({
            let (n, acts) = step_frame(b, keys, exit, coin);
            let conceded = match acts.point {
                Some(Side::Player) => Side::Opponent,
                _ => Side::Player,
            };
            (acts.point is Some && n.state != GameState::End) ==> {
                &&& acts.start_flash
                &&& n.waiting_to_serve
                &&& Some(n.point_scored_by) == acts.point
                &&& (n.state == GameState::Playing ==> serve_due(n, true) == (
                    Board { waiting_to_serve: false, ..n },
                    Some(conceded),
                ))
            }
        }),
{
}

/// A fresh round always starts from a fresh match: both scores zero and no
/// serve pending.
pub proof fn lemma_reset_means_fresh_match(b: Board, keys: Keys, exit: BallExit, coin: bool)
    requires
        b.valid(),
    ensures
        ({
            let (n, acts) = step_frame(b, keys, exit, coin);
            acts.reset_round is Some ==> (n.player_score == 0 && n.opponent_score == 0
                && !n.waiting_to_serve)
        }),
{
}

/// The menu music is started only when it is silent, and is then known to
/// play; it is stopped on every frame of play.
pub proof fn lemma_menu_music_started_once(b: Board, keys: Keys, exit: BallExit, coin: bool)
    requires
        b.valid(),
    ensures
        ({
            let (n, acts) = step_frame(b, keys, exit, coin);
            &&& acts.start_menu_music ==> (!b.menu_music_playing && n.menu_music_playing)
            &&& acts.stop_menu_music <==> b.state == GameState::Playing
            &&& acts.stop_menu_music ==> !n.menu_music_playing
        }),
{
}

/// The difficulty handed to the opponent is the one left selected on the
/// difficulty screen, and it is handed over only from that screen.
pub proof fn lemma_difficulty_handed_is_selected(b: Board, keys: Keys, exit: BallExit, coin: bool)
    requires
        b.valid(),
    ensures
        ({
            let (n, acts) = step_frame(b, keys, exit, coin);
            acts.difficulty matches Some(d) ==> (b.state == GameState::DifficultyMenu
                && n.difficulty_selection == d)
        }),
{
}

/// On the difficulty screen the selection changes only by the arrow keys:
/// Left selects easy, Right alone selects hard, and a frame with neither
/// keeps the selection the board held, so Enter alone hands over exactly
/// that selection and starts play.
pub proof fn lemma_selection_persists_until_an_arrow(b: Board, keys: Keys, exit: BallExit, coin: bool)
    requires
        b.valid(),
        b.state == GameState::DifficultyMenu,
    ensures
        ({
            let (n, acts) = step_frame(b, keys, exit, coin);
            &&& (!keys.left && !keys.right) ==> n.difficulty_selection == b.difficulty_selection
            &&& keys.left ==> n.difficulty_selection == Difficulty::Easy
            &&& (keys.right && !keys.left) ==> n.difficulty_selection == Difficulty::Hard
            &&& keys.enter ==> acts.difficulty == Some(n.difficulty_selection)
            &&& !keys.enter ==> acts.difficulty is None
            &&& (keys.enter && !keys.left && !keys.right) ==> acts.difficulty == Some(
                b.difficulty_selection,
            )
            &&& (keys.enter && !keys.escape) ==> n.state == GameState::Playing
            &&& n.player_score == b.player_score && n.opponent_score == b.opponent_score
        }),
{
}

/// The pause holds: a paused frame without Escape or Q changes nothing and
/// asks nothing of the host; the game leaves the pause for play only on
/// Escape (giving the ball its velocity back), and for the start menu only
/// on Q. The scores are never touched while paused.
pub proof fn lemma_pause_holds_until_escape_or_quit(b: Board, keys: Keys, exit: BallExit, coin: bool)
    requires
        b.valid(),
        b.state == GameState::Paused,
    ensures
        ({
            let (n, acts) = step_frame(b, keys, exit, coin);
            &&& (!keys.escape && !keys.quit) ==> (n == b && !acts.restore_ball_velocity
                && acts.point is None && acts.reset_round is None)
            &&& n.state == GameState::Playing ==> (keys.escape && !keys.quit
                && acts.restore_ball_velocity)
            &&& (keys.escape && !keys.quit) ==> n.state == GameState::Playing
            &&& n.state == GameState::StartMenu <==> keys.quit
            &&& (n.state == GameState::Paused || n.state == GameState::Playing || n.state
                == GameState::StartMenu)
            &&& acts.restore_ball_velocity <==> keys.escape
            &&& n.player_score == b.player_score && n.opponent_score == b.opponent_score
            &&& n.waiting_to_serve == b.waiting_to_serve
        }),
{
}

/// No serve is made while the flash after a point is still showing, on any
/// board; and a serve, once made, is made only from a pending serve during
/// play, and clears it.
pub proof fn lemma_no_serve_during_flash(b: Board, flash_over: bool)
    ensures
        serve_due(b, false) == (b, Option::<Side>::None),
        serve_due(b, flash_over).1 is Some ==> (flash_over && b.state == GameState::Playing
            && b.waiting_to_serve && !serve_due(b, flash_over).0.waiting_to_serve),
        serve_due(b, flash_over).1 is None ==> serve_due(b, flash_over).0 == b,
        serve_due(b, flash_over).0.player_score == b.player_score,
        serve_due(b, flash_over).0.opponent_score == b.opponent_score,
        serve_due(b, flash_over).0.state == b.state,
{
}

/// A match under way: the rules' board, always reachable.
pub struct Game {
    board: Board,
}

impl View for Game {
    type V = Board;

    closed spec fn view(&self) -> Board {
        self.board
    }
}

impl Game {
    #[verifier::type_invariant]
    spec fn reachable(self) -> bool {
        self.board.valid()
    }

    /// The game at launch, on the start menu.
    pub fn new() -> (g: Game)
        ensures
            g@ == Board::initial(),
    {
        Game {
            board: Board {
                state: GameState::StartMenu,
                difficulty_selection: Difficulty::Easy,
                menu_music_playing: false,
                player_score: 0,
                opponent_score: 0,
                point_scored_by: Side::Player,
                serve_to_player: false,
                waiting_to_serve: false,
            },
        }
    }

    /// A game resumed from `board`, when the board is one a match can reach.
    pub fn from_board(board: Board) -> (g: Option<Game>)
        ensures
            g is Some <==> board.valid(),
            g matches Some(g) ==> g@ == board,
    {
        if board.is_valid() {
            Some(Game { board })
        } else {
            None
        }
    }

    /// The current board, which is always reachable.
    pub fn board(&self) -> (b: Board)
        ensures
            b == self@,
            b.valid(),
    {
        proof {
            use_type_invariant(self);
        }
        self.board
    }

    /// The screen shown.
    pub fn state(&self) -> (s: GameState)
        ensures
            s == self@.state,
    {
        self.board.state
    }

    /// The player's score.
    pub fn player_score(&self) -> (s: i32)
        ensures
            s == self@.player_score,
    {
        self.board.player_score
    }

    /// The opponent's score.
    pub fn opponent_score(&self) -> (s: i32)
        ensures
            s == self@.opponent_score,
    {
        self.board.opponent_score
    }

    /// Whether a point was just scored and the next serve is pending.
    pub fn waiting_to_serve(&self) -> (w: bool)
        ensures
            w == self@.waiting_to_serve,
    {
        self.board.waiting_to_serve
    }

    /// The side that won the last point.
    pub fn point_scored_by(&self) -> (s: Side)
        ensures
            s == self@.point_scored_by,
    {
        self.board.point_scored_by
    }

    /// The difficulty currently selected on the difficulty screen.
    pub fn difficulty_selection(&self) -> (d: Difficulty)
        ensures
            d == self@.difficulty_selection,
    {
        self.board.difficulty_selection
    }

    /// The side named on the end screen, if the match is over.
    pub fn winner(&self) -> (w: Option<Side>)
        ensures
            w == end_winner(self@),
            w matches Some(side) ==> score_of(self@, side) == WINNING_SCORE,
    {
        proof {
            use_type_invariant(self);
        }
        match self.board.state {
            GameState::End => Some(
                if self.board.player_score >= WINNING_SCORE {
                    Side::Player
                } else {
                    Side::Opponent
                },
            ),
            _ => None,
        }
    }

    /// Called at the start of a frame of play, before the ball moves: makes
    /// the pending serve once the flash is over, and says toward which side.
    pub fn serve_check(&mut self, flash_over: bool) -> (serve: Option<Side>)
        ensures
            (final(self)@, serve) == serve_due(old(self)@, flash_over),
    {
        proof {
            use_type_invariant(&*self);
        }
        let b = self.board;
        if b.state == GameState::Playing && b.waiting_to_serve && flash_over {
            self.board = Board { waiting_to_serve: false, ..b };
            Some(
                if b.serve_to_player {
                    Side::Player
                } else {
                    Side::Opponent
                },
            )
        } else {
            None
        }
    }

    /// One frame of the rules, after the ball has moved, with `coin` choosing
    /// the serve of a fresh round (the player when it is `true`).
    pub fn frame_with(&mut self, keys: Keys, exit: BallExit, coin: bool) -> (acts: FrameActions)
        ensures
            (final(self)@, acts) == step_frame(old(self)@, keys, exit, coin),
    {
        proof {
            use_type_invariant(&*self);
        }
        let (next, acts) = advance(self.board, keys, exit, coin);
        proof {
            lemma_frame_keeps_valid(self.board, keys, exit, coin);
        }
        self.board = next;
        acts
    }

    /// One frame of the rules, after the ball has moved; the serve of a fresh
    /// round goes to either side with even odds.
    pub fn frame(&mut self, keys: Keys, exit: BallExit) -> (acts: FrameActions)
        ensures
            exists|coin: bool| (final(self)@, acts) == step_frame(old(self)@, keys, exit, coin),
    {
        let coin = fair_coin();
        self.frame_with(keys, exit, coin)
    }
}

} // verus!
