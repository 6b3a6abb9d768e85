//! Core logic of a terminal word-guessing game: a player has a fixed
//! budget of attempts to find a hidden word, and each accepted guess is
//! answered with per-letter feedback.
//!
//! The library holds the three parts with design content: validation and
//! normalisation of player input ([`input`]), evaluation of a guess
//! against the solution word ([`evaluate`]), and the attempt state
//! machine of one game session ([`session`]). Reading input, querying the
//! dictionary and rendering feedback are the caller's business.

pub mod evaluate;
pub mod input;
pub mod session;
