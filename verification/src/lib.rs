//! Shallot: a format-agnostic serialization framework with one concrete
//! format, a JSON-like text codec for primitives, text and tuples.
//!
//! Values and formats meet through a pair of interfaces on each side:
//! a value accepts a visitor, and the visitor offers one operation per
//! primitive shape. What a format writes for a value, and what it reads
//! from a text, is stated over the models in [`value`].

pub mod decimal;
pub mod deserialize;
pub mod error;
pub mod laws;
pub mod serialize;
pub mod text;
pub mod value;

