//! Two-player tic-tac-toe: the board, win detection, rendering, the input
//! command protocol and the match controller that drives rounds.

pub mod ascii;
pub mod board;
pub mod command;
pub mod config;
pub mod game;
