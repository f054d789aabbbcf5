//! The game's state for one session: the target color, the player's
//! raw guess text, the last successfully parsed guess, and the two
//! visibility flags, together with the state transitions the
//! surrounding UI layer drives.
use vstd::prelude::*;

use crate::codec::{parse_hex, parse_hex_spec, Color};

verus! {

/// Relies on rand::random: returns a u8 drawn uniformly by the thread's
/// generator. Nothing can be promised of the value itself.
#[verifier::external_body]
fn random_byte() -> u8 {
    rand::random()
}

/// A color whose three channels are each drawn independently and
/// uniformly from 0..=255. Each call is independent; no value can be
/// promised of the result.
pub fn generate_random_color() -> Color {
    Color(random_byte(), random_byte(), random_byte())
}

/// All mutable game data for one session.
pub struct GameState {
    /// The color to guess. Set at creation and by `new_round`, never
    /// mutated otherwise.
    pub target: Color,
    /// The raw user input, replaced on every keystroke.
    pub guess_text: String,
    /// The most recent successfully parsed guess, kept even if the
    /// text later turns invalid, until the next successful submission.
    pub guess_color: Option<Color>,
    /// Whether the target is revealed (the cheat toggle; also flipped
    /// by every successful submission).
    pub reveal_target: bool,
    /// Whether a guess was ever successfully submitted.
    pub has_guessed: bool,
}

impl GameState {
    /// A fresh game: a random target, empty guess text, no guess yet,
    /// nothing revealed.
    pub fn new() -> (s: GameState)
        ensures
            s.guess_text@ == Seq::<char>::empty(),
            s.guess_color is None,
            !s.reveal_target,
            !s.has_guessed,
    {
        GameState {
            target: generate_random_color(),
            guess_text: String::new(),
            guess_color: None,
            reveal_target: false,
            has_guessed: false,
        }
    }

    /// Replace the target with a fresh random color. No other field
    /// changes; in particular the guess history is kept.
    pub fn new_round(&mut self)
        ensures
            final(self).guess_text@ == old(self).guess_text@,
            final(self).guess_color == old(self).guess_color,
            final(self).reveal_target == old(self).reveal_target,
            final(self).has_guessed == old(self).has_guessed,
    {
        self.target = generate_random_color();
    }

    /// Flip the cheat flag; nothing else changes.
    pub fn toggle_cheat(&mut self)
        ensures
            final(self).reveal_target == !old(self).reveal_target,
            final(self).target == old(self).target,
            final(self).guess_text@ == old(self).guess_text@,
            final(self).guess_color == old(self).guess_color,
            final(self).has_guessed == old(self).has_guessed,
    {
        self.reveal_target = !self.reveal_target;
    }

    /// Replace the guess text unconditionally; no validation happens
    /// at keystroke time and nothing else changes.
    pub fn update_guess_text(&mut self, new_text: String)
        ensures
            final(self).guess_text@ == new_text@,
            final(self).target == old(self).target,
            final(self).guess_color == old(self).guess_color,
            final(self).reveal_target == old(self).reveal_target,
            final(self).has_guessed == old(self).has_guessed,
    {
        self.guess_text = new_text;
    }

    /// Try to parse the current guess text. On success, record the
    /// parsed color, mark that a guess was made, and flip the reveal
    /// flag exactly once. On failure, change nothing: the invalid
    /// submission is a silent no-op.
    pub fn submit_guess(&mut self)
        ensures
            final(self).target == old(self).target,
            final(self).guess_text@ == old(self).guess_text@,
            parse_hex_spec(old(self).guess_text@) is Some ==> {
                &&& final(self).guess_color == parse_hex_spec(old(self).guess_text@)
                &&& final(self).has_guessed
                &&& final(self).reveal_target == !old(self).reveal_target
            },
            parse_hex_spec(old(self).guess_text@) is None ==> {
                &&& final(self).guess_color == old(self).guess_color
                &&& final(self).has_guessed == old(self).has_guessed
                &&& final(self).reveal_target == old(self).reveal_target
            },
    {
        match parse_hex(self.guess_text.as_str()) {
            Some(c) => {
                self.guess_color = Some(c);
                self.has_guessed = true;
                self.reveal_target = !self.reveal_target;
            },
            None => {},
        }
    }
}

} // verus!
