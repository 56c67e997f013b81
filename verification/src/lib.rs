//! Verified cores of two small command-line tools: a number guessing game
//! and a todo list.

pub mod clock;
pub mod guess;
pub mod paint;
pub mod text;
pub mod todo;
