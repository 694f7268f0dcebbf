//! Protocol packets.
pub mod id;
