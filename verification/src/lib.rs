//! A terminal quiz that drills verb-conjugation recall: it asks for the
//! conjugated form of a verb in a given tense and grammatical person, judges
//! the typed answer against a reference dataset, and keeps a running tally
//! over a fixed-length session.
//!
//! The heart of the crate is [`session::Session`], a state machine driven by
//! one [`session::InputEvent`] at a time. Everything the machine does is
//! stated in its contracts: the transition relation, the counter invariant,
//! and exactly which inputs are ignored.

pub mod args;
pub mod laws;
pub mod person;
pub mod record;
pub mod session;
pub mod tense;
pub mod text;
pub mod verb;
