//! Querying a distributed storage cluster for capacity and usage statistics.
//!
//! The verified core is split in three parts: the plain data records that a
//! query produces (`stats`), the parser for a pool's replication-size option
//! (`size`), and a step function that drives one full usage query as a state
//! machine (`query`). All network traffic stays outside the library: a caller
//! performs each requested action against the cluster and feeds the outcome
//! back in as an event.

pub mod query;
pub mod size;
pub mod stats;
