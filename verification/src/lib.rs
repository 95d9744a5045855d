//! A minimal peer-to-peer node for a Lightning-style payment-channel
//! network: a verified wire-element codec, a message-type-driven schema
//! decoder, a peer-connection transport state machine with strict nonce
//! discipline, and the dispatch policy of the peer orchestrator.

pub mod config;
pub mod logger;
pub mod messages;
pub mod node;
pub mod node_connection;
pub mod peer;
pub mod socket;
pub mod wire;
