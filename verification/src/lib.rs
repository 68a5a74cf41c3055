//! Small verified building blocks: a single-slot memoizing cache, integer
//! helpers, coin values, rectangles, generic points, word splitting, and a
//! guessing game backed by a random secret number.

pub mod arith;
pub mod cache;
pub mod coins;
pub mod game;
pub mod generics;
pub mod rect;
pub mod user;
pub mod words;
pub mod workout;
