//! The transports that connect an agent's standard streams to a client.
pub mod h2;
pub mod listen;
pub mod ndjson;
pub mod raw;
pub mod rpc;
pub mod tcp;
pub mod uds;
pub mod ws;
