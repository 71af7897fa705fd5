//! A lexicon-driven sentence continuer. Each incoming token is classified
//! against a fixed lexicon of Swedish word entries, and a probabilistic
//! grammar state machine then produces the next token of the sentence, so
//! that subject–verb–object order, verb valency and gender/definiteness
//! agreement are loosely kept. Classification and generation are pure but
//! for the random source, which is threaded explicitly; with a replayable
//! source a whole turn is a function of its inputs.

pub mod classify;
pub mod generate;
pub mod laws;
pub mod rng;
pub mod scan;
pub mod words;
