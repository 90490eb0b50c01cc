//! A small collection of verified routines: an interactive number-guessing
//! game driven as a state machine, ownership and borrowing helpers over
//! strings, hash-tag slicing, and well-known spatial references.

pub mod game;
pub mod parse;
pub mod ownership;
pub mod slices;
pub mod spatial;
