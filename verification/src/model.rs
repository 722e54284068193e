//! The schema model.

pub mod collection;
