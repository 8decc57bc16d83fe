//! On-ledger entity registry and weighted-majority governance, with the
//! custody of the value that voters put behind their votes.
//!
//! The crate holds the state and the rules only. The host that runs it
//! supplies the clock reading, the amounts it has taken into custody and the
//! caller's authority; every operation here is a total function of the
//! component's state and those plain values.

pub mod amount;
pub mod entity;
pub mod proposal;
pub mod model;
pub mod component;
pub mod laws;
