//! A question form for a local language-model server: the prompt it sends,
//! the JSON it exchanges, and the state machine that drives one exchange at a
//! time.

pub mod prompt;
pub mod wire;
pub mod controller;
