use tictactoe::engine::{State, TicTacToe};
use tictactoe::widget::{
    cell_event, cell_update, grid_event, grid_update, CellRequests, Event, GridRequests,
    GridUpdate, Motion, RESTART_SECS,
};

const NOTHING: CellRequests = CellRequests {
    paint: false,
    anim_frame: false,
    update: false,
    advance_state: false,
    advance_hover: false,
    placed: None,
    reverse_state: false,
    reverse_hover: false,
};

/// An animation that runs backwards and has come to rest: an empty cell, or
/// a highlight that is off.
const RESTING: Motion = Motion { reverse: true, finished: true };

/// An animation that runs forwards and is under way.
const RISING: Motion = Motion { reverse: false, finished: false };

fn game_after(first: State, moves: &[usize]) -> TicTacToe {
    let mut game = TicTacToe::new(first);
    for &idx in moves {
        assert!(game.set(idx));
    }
    game
}

#[test]
fn frame_paints_and_advances_what_has_not_finished() {
    let mut game = TicTacToe::new(State::X);
    let r = cell_event(&mut game, 0, Event::Frame, false, RISING, RESTING);
    assert_eq!(
        r,
        CellRequests { paint: true, anim_frame: true, advance_state: true, ..NOTHING }
    );
    let falling = Motion { reverse: true, finished: false };
    let r = cell_event(&mut game, 0, Event::Frame, false, RESTING, falling);
    assert_eq!(
        r,
        CellRequests { paint: true, anim_frame: true, advance_hover: true, ..NOTHING }
    );
    let r = cell_event(&mut game, 0, Event::Frame, false, RESTING, RESTING);
    assert_eq!(r, CellRequests { paint: true, ..NOTHING });
    assert_eq!(*game, [State::N; 9]);
}

#[test]
fn press_on_an_empty_cell_places_the_mark() {
    let mut game = TicTacToe::new(State::O);
    let r = cell_event(&mut game, 5, Event::Press, false, RESTING, RESTING);
    assert_eq!(
        r,
        CellRequests {
            anim_frame: true,
            update: true,
            placed: Some(State::O),
            reverse_state: true,
            ..NOTHING
        }
    );
    assert_eq!(game.get(5), State::O);
    assert_eq!(game.state(), State::X);
}

#[test]
fn press_under_the_pointer_turns_the_highlight_off() {
    let mut game = TicTacToe::new(State::X);
    let lit = Motion { reverse: false, finished: true };
    let r = cell_event(&mut game, 4, Event::Press, true, RESTING, lit);
    assert_eq!(
        r,
        CellRequests {
            anim_frame: true,
            update: true,
            placed: Some(State::X),
            reverse_state: true,
            reverse_hover: true,
            ..NOTHING
        }
    );
    assert_eq!(game.get(4), State::X);
}

#[test]
fn press_on_a_marked_cell_changes_nothing() {
    let mut game = game_after(State::X, &[4]);
    let shown = Motion { reverse: false, finished: true };
    let r = cell_event(&mut game, 4, Event::Press, false, shown, RESTING);
    assert_eq!(r, NOTHING);
    assert_eq!(game.get(4), State::X);
    assert_eq!(game.state(), State::O);
}

#[test]
fn press_after_the_game_is_won_changes_nothing() {
    let mut game = game_after(State::X, &[0, 1, 3, 4, 6]);
    let r = cell_event(&mut game, 8, Event::Press, false, RESTING, RESTING);
    assert_eq!(r, NOTHING);
    assert_eq!(game.get(8), State::N);
    assert_eq!(game.done(), Some(3));
}

#[test]
fn pointer_over_an_empty_cell_turns_the_highlight_on() {
    let mut game = TicTacToe::new(State::X);
    let r = cell_event(&mut game, 2, Event::Other, true, RESTING, RESTING);
    assert_eq!(r, CellRequests { anim_frame: true, reverse_hover: true, ..NOTHING });
    let lit = Motion { reverse: false, finished: false };
    let r = cell_event(&mut game, 2, Event::Other, true, RESTING, lit);
    assert_eq!(r, NOTHING);
}

#[test]
fn pointer_leaving_turns_the_highlight_off() {
    let mut game = TicTacToe::new(State::X);
    let lit = Motion { reverse: false, finished: true };
    let r = cell_event(&mut game, 2, Event::Other, false, RESTING, lit);
    assert_eq!(r, CellRequests { anim_frame: true, reverse_hover: true, ..NOTHING });
    let r = cell_event(&mut game, 2, Event::Other, false, RESTING, RESTING);
    assert_eq!(r, NOTHING);
}

#[test]
fn marked_cell_is_not_highlighted() {
    let mut game = game_after(State::X, &[2]);
    let shown = Motion { reverse: false, finished: true };
    let r = cell_event(&mut game, 2, Event::Other, true, shown, RESTING);
    assert_eq!(r, NOTHING);
    let lit = Motion { reverse: false, finished: true };
    let r = cell_event(&mut game, 2, Event::Other, true, shown, lit);
    assert_eq!(r, CellRequests { anim_frame: true, reverse_hover: true, ..NOTHING });
}

#[test]
fn no_cell_is_highlighted_once_the_game_is_won() {
    let mut game = game_after(State::X, &[0, 1, 3, 4, 6]);
    let r = cell_event(&mut game, 8, Event::Other, true, RESTING, RESTING);
    assert_eq!(r, NOTHING);
    let lit = Motion { reverse: false, finished: true };
    let r = cell_event(&mut game, 8, Event::Timer, true, RESTING, lit);
    assert_eq!(r, CellRequests { anim_frame: true, reverse_hover: true, ..NOTHING });
}

#[test]
fn cleared_cell_withdraws_its_mark() {
    let old = game_after(State::X, &[0, 1]);
    let new = TicTacToe::new(State::O);
    assert!(cell_update(&old, &new, 0));
    assert!(cell_update(&old, &new, 1));
    assert!(!cell_update(&old, &new, 2));
    assert!(!cell_update(&new, &old, 0));
    assert!(!cell_update(&old, &old, 0));
    assert!(!cell_update(&old, &new, 9));
}

#[test]
fn grid_frame_paints_and_advances_what_has_not_finished() {
    let none = GridRequests {
        paint: false,
        anim_frame: false,
        update: false,
        advance_init: false,
        advance_done: false,
    };
    let mut game = game_after(State::X, &[4]);
    let r = grid_event(&mut game, Event::Frame, false, true);
    assert_eq!(r, GridRequests { paint: true, anim_frame: true, advance_init: true, ..none });
    let r = grid_event(&mut game, Event::Frame, true, false);
    assert_eq!(r, GridRequests { paint: true, anim_frame: true, advance_done: true, ..none });
    let r = grid_event(&mut game, Event::Frame, true, true);
    assert_eq!(r, GridRequests { paint: true, ..none });
    let r = grid_event(&mut game, Event::Press, false, false);
    assert_eq!(r, none);
    let r = grid_event(&mut game, Event::Other, false, false);
    assert_eq!(r, none);
    assert_eq!(game.get(4), State::X);
    assert_eq!(game.state(), State::O);
}

#[test]
fn grid_timer_starts_a_new_game() {
    let mut game = game_after(State::X, &[0, 1, 3, 4, 6]);
    let r = grid_event(&mut game, Event::Timer, true, true);
    assert_eq!(
        r,
        GridRequests {
            paint: false,
            anim_frame: false,
            update: true,
            advance_init: false,
            advance_done: false,
        }
    );
    assert_eq!(*game, [State::N; 9]);
    assert_eq!(game.done(), None);
    assert_ne!(game.state(), State::N);
}

#[test]
fn won_game_draws_its_line_and_arms_the_timer() {
    let old = game_after(State::X, &[0, 1, 3, 4]);
    let new = game_after(State::X, &[0, 1, 3, 4, 6]);
    assert_eq!(
        grid_update(&old, &new),
        GridUpdate { line: Some(3), reverse_done: true, anim_frame: true, timer: true }
    );
}

#[test]
fn drawn_game_arms_the_timer_only() {
    let old = game_after(State::X, &[0, 1, 2, 4, 3, 5, 7, 6]);
    let new = game_after(State::X, &[0, 1, 2, 4, 3, 5, 7, 6, 8]);
    assert_eq!(
        grid_update(&old, &new),
        GridUpdate { line: None, reverse_done: false, anim_frame: false, timer: true }
    );
}

#[test]
fn replaced_game_withdraws_the_line() {
    let old = game_after(State::X, &[0, 1, 3, 4, 6]);
    let new = TicTacToe::new(State::O);
    assert_eq!(
        grid_update(&old, &new),
        GridUpdate { line: None, reverse_done: true, anim_frame: true, timer: false }
    );
}

#[test]
fn ordinary_move_asks_nothing_of_the_grid() {
    let old = game_after(State::X, &[0]);
    let new = game_after(State::X, &[0, 1]);
    assert_eq!(
        grid_update(&old, &new),
        GridUpdate { line: None, reverse_done: false, anim_frame: false, timer: false }
    );
}

#[test]
fn next_game_starts_a_second_after_the_last() {
    assert_eq!(RESTART_SECS, 1);
}
