//! Pronounceable pseudo-words drawn from a phonotactic grammar.
//!
//! A grammar is an ordered template of rule slots, each drawing from one of
//! several phoneme categories. A syllable is one pass over the template, a
//! word is one to `max_syllables` syllables, and words that hold a filter
//! substring are discarded.

pub mod grammar;
mod random;
pub mod synth;
pub mod generate;
pub mod laws;

pub use grammar::{Config, Tactic};
pub use generate::{run, GenError};
