//! Coordination core of a two-player room server: rooms and their rules, the
//! single authority that serialises commands, the per-connection liveness
//! monitor, and the routing between wire messages and commands.

pub mod codec;
pub mod gateway;
pub mod heartbeat;
pub mod laws;
pub mod message;
pub mod room;
pub mod server;
