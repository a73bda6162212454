//! Checks that an implementation obeys the laws of its type class.
pub mod monoid_law;

pub use monoid_law::is_monoid_law_complete;
