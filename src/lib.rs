//! Small, self-contained illustrations of classic design patterns, each with
//! its behaviour stated and proved.

pub mod patterns;
