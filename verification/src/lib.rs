//! A verified slice of a relational query optimizer: the join-type algebra
//! (parsing, display, input-swap symmetry, outer classification) and the
//! group-join rewrite, which fuses an aggregation sitting directly above a
//! left-outer equi-join into a single `LeftGroup` join node.

pub mod join_type;
pub mod plan;
pub mod rewrite;
