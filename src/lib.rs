//! Small, verified building blocks: a many-to-many relationship kept either
//! in a join table or in an index-based graph; the rules of a guessing game
//! and of a combination lock; and a handful of arithmetic, matching,
//! conversion and sharing helpers.
pub mod basics;
pub mod complex;
pub mod conversion;
pub mod graph;
pub mod guarded;
pub mod guessing;
pub mod lifetimes;
pub mod lock;
pub mod normalized;
pub mod shared;
pub mod squares;
pub mod summable;
