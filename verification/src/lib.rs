//! A small color-guessing game library: an RGB color type with a hex
//! codec (`#RRGGBB` parsing and formatting) and the game's state machine.
pub mod codec;
pub mod game;
