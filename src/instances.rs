//! Ready-made instances of the type classes.
//!
//! Every monoid instance combines by adding or by appending.
pub mod number;
pub mod semigroup;
pub mod monoid;
