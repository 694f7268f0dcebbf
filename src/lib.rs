//! Packet identifiers of protocol version 14 and their one-byte wire opcodes.
pub mod packet;

pub use packet::id::PacketId;
