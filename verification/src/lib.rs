//! Tic-tac-toe, verified.
//!
//! `engine` holds the game: the board, whose turn it is, and the win and draw
//! checks. `widget` holds what the board's widgets decide when an event
//! arrives; a host toolkit delivers the events, carries out the requests and
//! draws.

pub mod engine;
pub mod widget;
