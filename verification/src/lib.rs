//! A dynamic-schema layer: collections of typed columns, the DDL that creates
//! them, and the diff that evolves one snapshot of a collection into another.

pub mod model;
pub mod text;
