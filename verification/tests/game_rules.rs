use pong::game::{
    BallExit, Board, Difficulty, FrameActions, Game, GameState, Keys, Side, WINNING_SCORE,
};

fn no_keys() -> Keys {
    Keys { enter: false, left: false, right: false, escape: false, quit: false }
}

fn enter() -> Keys {
    Keys { enter: true, ..no_keys() }
}

fn escape() -> Keys {
    Keys { escape: true, ..no_keys() }
}

fn quit() -> Keys {
    Keys { quit: true, ..no_keys() }
}

fn board(state: GameState, player: i32, opponent: i32) -> Board {
    Board {
        state,
        difficulty_selection: Difficulty::Easy,
        menu_music_playing: false,
        player_score: player,
        opponent_score: opponent,
        point_scored_by: Side::Player,
        serve_to_player: false,
        waiting_to_serve: false,
    }
}

fn game_at(b: Board) -> Game {
    Game::from_board(b).expect("reachable board")
}

#[test]
fn launch_shows_start_menu_with_nothing_scored() {
    let g = Game::new();
    let b = g.board();
    assert_eq!(b.state, GameState::StartMenu);
    assert_eq!(b.player_score, 0);
    assert_eq!(b.opponent_score, 0);
    assert_eq!(b.difficulty_selection, Difficulty::Easy);
    assert!(!b.menu_music_playing);
    assert!(!b.waiting_to_serve);
    assert_eq!(g.winner(), None);
}

#[test]
fn start_menu_starts_music_once() {
    let mut g = Game::new();
    let first = g.frame_with(no_keys(), BallExit::Inside, true);
    assert!(first.start_menu_music);
    assert!(g.board().menu_music_playing);
    let second = g.frame_with(no_keys(), BallExit::Inside, true);
    assert!(!second.start_menu_music);
    assert_eq!(second, FrameActions::none());
}

#[test]
fn enter_on_start_menu_begins_a_fresh_match() {
    let mut b = board(GameState::StartMenu, 7, 3);
    b.waiting_to_serve = true;
    let mut g = game_at(b);
    let acts = g.frame_with(enter(), BallExit::Inside, true);
    assert_eq!(g.state(), GameState::DifficultyMenu);
    assert_eq!(g.player_score(), 0);
    assert_eq!(g.opponent_score(), 0);
    assert!(!g.waiting_to_serve());
    assert_eq!(acts.reset_round, Some(Side::Player));
    let mut g = game_at(b);
    let acts = g.frame_with(enter(), BallExit::Inside, false);
    assert_eq!(acts.reset_round, Some(Side::Opponent));
}

#[test]
fn difficulty_keys_select_and_sound() {
    let mut g = game_at(board(GameState::DifficultyMenu, 0, 0));
    let acts = g.frame_with(Keys { right: true, ..no_keys() }, BallExit::Inside, true);
    assert_eq!(acts.selection_sounds, 1);
    assert_eq!(g.difficulty_selection(), Difficulty::Hard);
    let acts = g.frame_with(Keys { left: true, right: true, ..no_keys() }, BallExit::Inside, true);
    assert_eq!(acts.selection_sounds, 2);
    assert_eq!(g.difficulty_selection(), Difficulty::Easy);
    let acts = g.frame_with(Keys { right: true, enter: true, ..no_keys() }, BallExit::Inside, true);
    assert_eq!(acts.difficulty, Some(Difficulty::Hard));
    assert_eq!(g.state(), GameState::Playing);
}

#[test]
fn escape_on_difficulty_screen_wins_over_enter() {
    let mut g = game_at(board(GameState::DifficultyMenu, 0, 0));
    let acts = g.frame_with(Keys { enter: true, escape: true, ..no_keys() }, BallExit::Inside, true);
    assert_eq!(acts.difficulty, Some(Difficulty::Easy));
    assert_eq!(g.state(), GameState::StartMenu);
}

#[test]
fn ball_past_left_edge_is_a_point_for_the_opponent() {
    let mut g = game_at(board(GameState::Playing, 2, 4));
    let acts = g.frame_with(no_keys(), BallExit::PastLeft, true);
    assert_eq!(acts.point, Some(Side::Opponent));
    assert!(acts.start_flash);
    assert!(acts.stop_menu_music);
    let b = g.board();
    assert_eq!((b.player_score, b.opponent_score), (2, 5));
    assert!(b.waiting_to_serve);
    assert!(b.serve_to_player);
    assert_eq!(b.point_scored_by, Side::Opponent);
    assert_eq!(b.state, GameState::Playing);
}

#[test]
fn ball_past_right_edge_is_a_point_for_the_player() {
    let mut g = game_at(board(GameState::Playing, 2, 4));
    let acts = g.frame_with(no_keys(), BallExit::PastRight, true);
    assert_eq!(acts.point, Some(Side::Player));
    let b = g.board();
    assert_eq!((b.player_score, b.opponent_score), (3, 4));
    assert!(!b.serve_to_player);
    assert_eq!(b.point_scored_by, Side::Player);
}

#[test]
fn no_point_while_waiting_to_serve() {
    let mut b = board(GameState::Playing, 2, 4);
    b.waiting_to_serve = true;
    let mut g = game_at(b);
    let acts = g.frame_with(no_keys(), BallExit::PastLeft, true);
    assert_eq!(acts.point, None);
    assert_eq!((g.player_score(), g.opponent_score()), (2, 4));
}

#[test]
fn serve_waits_for_the_flash_then_goes_to_the_conceding_side() {
    let mut g = game_at(board(GameState::Playing, 0, 0));
    g.frame_with(no_keys(), BallExit::PastLeft, true);
    assert_eq!(g.serve_check(false), None);
    assert!(g.waiting_to_serve());
    assert_eq!(g.serve_check(true), Some(Side::Player));
    assert!(!g.waiting_to_serve());
    assert_eq!(g.serve_check(true), None);

    let mut g = game_at(board(GameState::Playing, 0, 0));
    g.frame_with(no_keys(), BallExit::PastRight, true);
    assert_eq!(g.serve_check(true), Some(Side::Opponent));
}

#[test]
fn serve_is_not_made_while_paused() {
    let mut b = board(GameState::Paused, 1, 1);
    b.waiting_to_serve = true;
    let mut g = game_at(b);
    assert_eq!(g.serve_check(true), None);
    assert!(g.waiting_to_serve());
}

#[test]
fn eleventh_point_ends_the_match() {
    let mut g = game_at(board(GameState::Playing, 10, 9));
    let acts = g.frame_with(no_keys(), BallExit::PastRight, true);
    assert_eq!(acts.point, Some(Side::Player));
    assert!(!acts.start_flash);
    assert_eq!(g.state(), GameState::End);
    assert_eq!(g.player_score(), WINNING_SCORE);
    assert_eq!(g.winner(), Some(Side::Player));

    let mut g = game_at(board(GameState::Playing, 3, 10));
    g.frame_with(no_keys(), BallExit::PastLeft, false);
    assert_eq!(g.winner(), Some(Side::Opponent));
    assert_eq!(g.opponent_score(), 11);
}

#[test]
fn pause_and_resume_keep_the_match() {
    let mut b = board(GameState::Playing, 5, 6);
    b.menu_music_playing = true;
    let mut g = game_at(b);
    let first = g.frame_with(escape(), BallExit::Inside, true);
    assert!(first.save_ball_velocity);
    assert_eq!(g.state(), GameState::Paused);
    let second = g.frame_with(escape(), BallExit::Inside, true);
    assert!(second.restore_ball_velocity);
    let expected = Board { menu_music_playing: false, ..b };
    assert_eq!(g.board(), expected);
}

#[test]
fn escape_and_a_point_in_one_frame() {
    let mut g = game_at(board(GameState::Playing, 10, 0));
    let acts = g.frame_with(escape(), BallExit::PastRight, true);
    assert!(acts.save_ball_velocity);
    assert_eq!(g.state(), GameState::End);
    let mut g = game_at(board(GameState::Playing, 1, 0));
    g.frame_with(escape(), BallExit::PastRight, true);
    assert_eq!(g.state(), GameState::Paused);
    assert_eq!(g.player_score(), 2);
}

#[test]
fn quit_from_pause_keeps_scores() {
    let mut g = game_at(board(GameState::Paused, 4, 8));
    let acts = g.frame_with(quit(), BallExit::Inside, true);
    assert_eq!(g.state(), GameState::StartMenu);
    assert_eq!((g.player_score(), g.opponent_score()), (4, 8));
    assert!(!acts.restore_ball_velocity);
}

#[test]
fn end_screen_restart_and_quit() {
    let mut g = game_at(board(GameState::End, 11, 4));
    let acts = g.frame_with(enter(), BallExit::Inside, false);
    assert_eq!(acts.reset_round, Some(Side::Opponent));
    assert_eq!(g.state(), GameState::Playing);
    assert_eq!((g.player_score(), g.opponent_score()), (0, 0));

    let mut g = game_at(board(GameState::End, 2, 11));
    let acts = g.frame_with(quit(), BallExit::Inside, false);
    assert_eq!(acts.reset_round, None);
    assert_eq!(g.state(), GameState::StartMenu);
    assert_eq!((g.player_score(), g.opponent_score()), (0, 0));

    let mut g = game_at(board(GameState::End, 2, 11));
    let acts = g.frame_with(Keys { enter: true, quit: true, ..no_keys() }, BallExit::Inside, true);
    assert_eq!(acts.reset_round, Some(Side::Player));
    assert_eq!(g.state(), GameState::StartMenu);
}

#[test]
fn end_screen_waits_without_keys() {
    let mut g = game_at(board(GameState::End, 11, 10));
    let acts = g.frame_with(no_keys(), BallExit::PastLeft, true);
    assert_eq!(acts, FrameActions::none());
    assert_eq!(g.state(), GameState::End);
}

#[test]
fn unreachable_boards_are_refused() {
    assert!(Game::from_board(board(GameState::Playing, 11, 0)).is_none());
    assert!(Game::from_board(board(GameState::End, 11, 11)).is_none());
    assert!(Game::from_board(board(GameState::End, 3, 4)).is_none());
    assert!(Game::from_board(board(GameState::DifficultyMenu, 1, 0)).is_none());
    assert!(Game::from_board(board(GameState::StartMenu, -1, 0)).is_none());
    assert!(Game::from_board(board(GameState::End, 11, 10)).is_some());
    assert!(!board(GameState::Paused, 12, 0).is_valid());
}

#[test]
fn whole_match_to_eleven() {
    let mut g = Game::new();
    g.frame_with(enter(), BallExit::Inside, true);
    g.frame_with(enter(), BallExit::Inside, true);
    assert_eq!(g.state(), GameState::Playing);
    let mut points = 0;
    while g.state() == GameState::Playing {
        let acts = g.frame_with(no_keys(), BallExit::PastRight, true);
        assert_eq!(acts.point, Some(Side::Player));
        points += 1;
        if g.state() == GameState::Playing {
            assert_eq!(g.serve_check(true), Some(Side::Opponent));
        }
    }
    assert_eq!(points, 11);
    assert_eq!(g.winner(), Some(Side::Player));
}

#[test]
fn frame_with_random_serve_keeps_reset_side_valid() {
    let mut g = Game::new();
    let acts = g.frame(enter(), BallExit::Inside);
    assert!(acts.reset_round.is_some());
    assert_eq!(g.state(), GameState::DifficultyMenu);
}

#[test]
fn names_of_sides_and_difficulties() {
    assert_eq!(Side::Player.name(), "player");
    assert_eq!(Side::Opponent.name(), "opponent");
    assert_eq!(Difficulty::Easy.name(), "easy");
    assert_eq!(Difficulty::Hard.name(), "hard");
}
