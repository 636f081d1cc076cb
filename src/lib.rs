//! Field selection and type-shape matching for generating a lock accessor on a
//! record whose guarded field is a shared handle over a mutual-exclusion lock.
pub mod shape;
pub mod select;
pub mod laws;
pub mod accessor;
