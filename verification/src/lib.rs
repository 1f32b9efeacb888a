//! Discriminant assignment and projection for tagged unions.
//!
//! Given the ordered variants of a tagged union and the integer kind that
//! stores its tag, the library resolves the tag of every variant as a
//! symbolic expression, derives the payload-free mirror type, and builds the
//! lookup from a raw tag value to a mirror variant and the projection from a
//! value of the union to its mirror variant.
//!
//! Tags are never computed while they are assigned: a declared tag may be any
//! constant expression, and only the distance from it is counted. What a tag
//! is worth is defined, and decided, against an environment that gives the
//! symbols their values.

pub mod assign;
pub mod engine;
pub mod expr;
pub mod laws;
pub mod mirror;
pub mod representation;
pub mod search;
pub mod union_def;
pub mod value;
