//! Records of a slaughterhouse's operations, kept in durable stores that
//! share one identifier sequence, and the figures derived from them.
pub mod analytics;
pub mod charges;
pub mod creation;
pub mod grouping;
pub mod ids;
pub mod laws;
pub mod ledger;
pub mod listing;
pub mod message;
pub mod payloads;
pub mod record;
pub mod records;
pub mod stable;
pub mod store;
pub mod tally;
pub mod text;
pub mod wire;
