//! Type classes for Rust, with verified instances.
//!
//! * `type_classes` holds the traits: `Semigroup`, `Monoid` and a few more.
//! * `instances` holds ready-made instances over numbers, text and vectors.
//! * `laws` holds a check that an implementation obeys the monoid laws.
pub mod type_classes;
pub mod instances;
pub mod laws;

pub use type_classes::Monoid;
pub use type_classes::Semigroup;
