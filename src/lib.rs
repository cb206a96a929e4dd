//! A supervisor and client for a locally spawned download daemon that speaks
//! JSON-RPC, with the daemon's status records translated into progress views.
pub mod client;
pub mod decimal;
pub mod queues;
pub mod rpc;
pub mod settings;
pub mod status;
pub mod supervisor;
pub mod text;
