//! What the board's widgets decide on each event.
//!
//! The host toolkit delivers events and carries out requests. Between the two
//! stands a decision, taken here on plain values: the game, the kind of
//! event, whether the pointer is over the cell, and which way each animation
//! runs. The host holds the animations' clocks and draws.

use crate::engine::{Game, State, TicTacToe};
use vstd::prelude::*;

verus! {

/// Seconds between the end of a game and the start of the next.
pub const RESTART_SECS: u64 = 1;

/// An event, as far as a decision depends on it.
#[derive(Clone, Copy, Debug, PartialEq, Eq, Structural)]
pub enum Event {
    /// A new animation frame begins.
    Frame,
    /// The left button went down over the widget.
    Press,
    /// The timer that the grid armed has fired.
    Timer,
    /// Anything else.
    Other,
}

/// An animation, as far as a decision depends on it.
#[derive(Clone, Copy, Debug, PartialEq, Eq, Structural)]
pub struct Motion {
    /// Whether it runs backwards.
    pub reverse: bool,
    /// Whether it has reached the end of its run.
    pub finished: bool,
}

/// What a cell asks for after an event.
#[derive(Clone, Copy, Debug, PartialEq, Eq, Structural)]
pub struct CellRequests {
    /// Repaint.
    pub paint: bool,
    /// Deliver another animation frame.
    pub anim_frame: bool,
    /// Let the widgets see the changed game.
    pub update: bool,
    /// Advance the mark's animation by the frame's time.
    pub advance_state: bool,
    /// Advance the highlight's animation by the frame's time.
    pub advance_hover: bool,
    /// The mark that was just placed, for the mark's animation to show.
    pub placed: Option<State>,
    /// Turn the mark's animation round.
    pub reverse_state: bool,
    /// Turn the highlight's animation round.
    pub reverse_hover: bool,
}

/// What the grid asks for after an event.
#[derive(Clone, Copy, Debug, PartialEq, Eq, Structural)]
pub struct GridRequests {
    /// Repaint.
    pub paint: bool,
    /// Deliver another animation frame.
    pub anim_frame: bool,
    /// Let the widgets see the changed game.
    pub update: bool,
    /// Advance the grid lines' animation by the frame's time.
    pub advance_init: bool,
    /// Advance the winning line's animation by the frame's time.
    pub advance_done: bool,
}

/// What the grid asks for after the game has changed.
#[derive(Clone, Copy, Debug, PartialEq, Eq, Structural)]
pub struct GridUpdate {
    /// The line that was just won, for the winning line's animation to show.
    pub line: Option<u8>,
    /// Turn the winning line's animation round.
    pub reverse_done: bool,
    /// Deliver another animation frame.
    pub anim_frame: bool,
    /// Arm the timer that starts the next game, `RESTART_SECS` from now.
    pub timer: bool,
}

/// Whether a press on cell `idx` places a mark.
pub open spec fn places(g: Game, idx: int, event: Event) -> bool {
    event == Event::Press && g.can_set(idx)
}

/// The game after cell `idx` has seen `event`.
pub open spec fn game_after_cell_event(g: Game, idx: int, event: Event) -> Game {
    if places(g, idx, event) {
        g.placed(idx)
    } else {
        g
    }
}

/// Whether cell `idx` is to be highlighted once it has seen `event`: the
/// pointer is over it, it is empty, and the game is undecided. A cell is
/// empty while its mark's animation runs backwards.
pub open spec fn wants_highlight(
    g: Game,
    idx: int,
    event: Event,
    hot: bool,
    state: Motion,
) -> bool {
    &&& hot
    &&& state.reverse != places(g, idx, event)
    &&& game_after_cell_event(g, idx, event).done is None
}

/// What cell `idx` asks for on `event`.
///
/// A frame is painted, and advances each animation that has not finished. A
/// press that places a mark shows the mark by turning its animation round.
/// After any event the highlight's animation is turned round where it does
/// not run towards what `wants_highlight` says. Every animation that is
/// advanced or turned round needs another frame.
pub open spec fn cell_requests(
    g: Game,
    idx: int,
    event: Event,
    hot: bool,
    state: Motion,
    hover: Motion,
) -> CellRequests {
    let frame = event == Event::Frame;
    let placed = places(g, idx, event);
    let reverse_hover = wants_highlight(g, idx, event, hot, state) == hover.reverse;
    CellRequests {
        paint: frame,
        anim_frame: frame && (!state.finished || !hover.finished) || placed || reverse_hover,
        update: placed,
        advance_state: frame && !state.finished,
        advance_hover: frame && !hover.finished,
        placed: if placed {
            Some(g.state)
        } else {
            None
        },
        reverse_state: placed,
        reverse_hover,
    }
}

/// Decides what cell `idx` does on `event`: a press may place a mark in
/// `game`, and the result says what to do with the cell's two animations and
/// what to ask of the host. `hot` says whether the pointer is over the cell,
/// `state` and `hover` describe the animations of the mark and of the
/// highlight before the event.
pub fn cell_event(
    game: &mut TicTacToe,
    idx: u8,
    event: Event,
    hot: bool,
    state: Motion,
    hover: Motion,
) -> (r: CellRequests)
    ensures
        final(game)@ == game_after_cell_event(old(game)@, idx as int, event),
        r == cell_requests(old(game)@, idx as int, event, hot, state, hover),
        r.placed matches Some(mark) ==> mark != State::N,
{
    let mut r = CellRequests {
        paint: false,
        anim_frame: false,
        update: false,
        advance_state: false,
        advance_hover: false,
        placed: None,
        reverse_state: false,
        reverse_hover: false,
    };
    let mut state_reverse = state.reverse;
    match event {
        Event::Frame => {
            r.paint = true;
            if !state.finished {
                r.advance_state = true;
                r.anim_frame = true;
            }
            if !hover.finished {
                r.advance_hover = true;
                r.anim_frame = true;
            }
        },
        Event::Press => {
            if game.done().is_none() {
                let mover = game.state();
                if game.set(idx as usize) {
                    r.placed = Some(mover);
                    r.reverse_state = true;
                    state_reverse = !state_reverse;
                    r.anim_frame = true;
                    r.update = true;
                }
            }
        },
        _ => {},
    }
    let settled = !state_reverse || game.done().is_some();
    if hot && !hover.reverse && settled {
        r.reverse_hover = true;
        r.anim_frame = true;
    } else if hot && hover.reverse && settled {
    } else if hot == hover.reverse {
        r.reverse_hover = true;
        r.anim_frame = true;
    }
    r
}

/// Decides what cell `idx` does after the game has changed from `old_game`
/// to `game`: whether to turn the mark's animation round and ask for a
/// frame, which it does where the cell has been cleared.
pub fn cell_update(old_game: &TicTacToe, game: &TicTacToe, idx: u8) -> (reverse_state: bool)
    ensures
        reverse_state == (game@.get(idx as int) == State::N && old_game@.get(idx as int)
            != State::N),
{
    game.get(idx as usize) == State::N && old_game.get(idx as usize) != State::N
}

/// What the grid asks for on `event`. A frame is painted, and advances each
/// animation that has not finished; the timer starts a new game.
pub open spec fn grid_requests(
    event: Event,
    init_finished: bool,
    done_finished: bool,
) -> GridRequests {
    let frame = event == Event::Frame;
    GridRequests {
        paint: frame,
        anim_frame: frame && (!init_finished || !done_finished),
        update: event == Event::Timer,
        advance_init: frame && !init_finished,
        advance_done: frame && !done_finished,
    }
}

/// Decides what the grid does on `event`, before the event goes on to the
/// cells. When the timer fires, `game` is replaced by a new one, for which a
/// coin picks who begins. `init_finished` and `done_finished` say whether the
/// animations of the grid lines and of the winning line have finished.
pub fn grid_event(
    game: &mut TicTacToe,
    event: Event,
    init_finished: bool,
    done_finished: bool,
) -> (r: GridRequests)
    ensures
        r == grid_requests(event, init_finished, done_finished),
        event != Event::Timer ==> final(game)@ == old(game)@,
        event == Event::Timer ==> final(game)@ == Game::fresh(final(game)@.state),
        event == Event::Timer ==> final(game)@.state != State::N,
{
    let mut r = GridRequests {
        paint: false,
        anim_frame: false,
        update: false,
        advance_init: false,
        advance_done: false,
    };
    match event {
        Event::Frame => {
            r.paint = true;
            if !init_finished {
                r.advance_init = true;
                r.anim_frame = true;
            }
            if !done_finished {
                r.advance_done = true;
                r.anim_frame = true;
            }
        },
        Event::Timer => {
            *game = TicTacToe::new(State::N);
            r.update = true;
        },
        _ => {},
    }
    r
}

/// What the grid asks for after the game has changed from `old` to `new`.
///
/// Where the outcome has changed, the winning line's animation is turned
/// round, to draw a line that was won or to withdraw the line of a game that
/// was replaced. A game that is over arms the timer for the next one.
pub open spec fn grid_update_requests(old: Game, new: Game) -> GridUpdate {
    let changed = new.done != old.done;
    GridUpdate {
        line: if changed {
            new.done
        } else {
            None
        },
        reverse_done: changed,
        anim_frame: changed,
        timer: new.done is Some || new.draw(),
    }
}

/// Decides what the grid does after the game has changed from `old_game` to
/// `game`, before the cells see the change.
pub fn grid_update(old_game: &TicTacToe, game: &TicTacToe) -> (r: GridUpdate)
    ensures
        r == grid_update_requests(old_game@, game@),
{
    let mut r = GridUpdate { line: None, reverse_done: false, anim_frame: false, timer: false };
    let now = game.done();
    let before = old_game.done();
    match now {
        Some(line) => {
            if before != Some(line) {
                r.line = Some(line);
                r.reverse_done = true;
                r.anim_frame = true;
            }
        },
        None => {
            if before.is_some() {
                r.reverse_done = true;
                r.anim_frame = true;
            }
        },
    }
    if game.done().is_some() || game.draw() {
        r.timer = true;
    }
    r
}

} // verus!
