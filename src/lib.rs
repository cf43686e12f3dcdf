//! Typed access to an oracle aggregator's price report: a fixed-scale decimal,
//! its wire form, the packed aggregator account, and the rule that picks the
//! authoritative price out of it.

pub mod account;
pub mod bytes;
pub mod error;
pub mod decimal;
pub mod numeric;
pub mod wire;
