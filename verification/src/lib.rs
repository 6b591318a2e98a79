//! A verified Fibonacci sequence library.
//!
//! The library computes bounded Fibonacci sequences in 64-bit signed
//! arithmetic: the first `count` terms (capped at 92, the largest count whose
//! terms all fit in an `i64`), or every term up to a maximum value.  It also
//! holds the validation rules of the surrounding console menu, so that the
//! unverified shell only reads input and prints.

pub mod fib;
pub mod generator;
pub mod menu;
