//! Client-side core of a UDP-based virtual-world simulator protocol:
//! a binary packet codec with a three-tier frequency classification,
//! a dispatch table from wire identifiers to typed message bodies, and
//! the session-bootstrap sequence that turns a successful authentication
//! into an established simulator connection.

pub mod bootstrap;
pub mod bridge;
pub mod circuit_code;
pub mod complete_agent_movement;
pub mod errors;
pub mod header;
pub mod lluid;
pub mod login;
pub mod mailbox;
pub mod packet;
pub mod packet_types;
pub mod wire;
pub mod zerocode;
