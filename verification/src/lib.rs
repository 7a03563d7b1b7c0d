//! A transport-agnostic core for typed remote procedure calls.
//!
//! The crate performs no input or output. It fixes, per request type, the
//! interaction pattern and the response type; it converts messages between
//! the layers of nested services; and it decides, step by step, what a client
//! call or a server dispatch does next on its logical channel. A runtime
//! carries out those steps on a real transport and reports back what happened.

pub mod client;
pub mod error;
pub mod exchange;
pub mod message;
pub mod server;
pub mod stream;
pub mod task;
pub mod transport;

pub use client::RpcClient;
pub use message::Service;
pub use server::RpcServer;
pub use transport::{ServiceConnection, ServiceEndpoint};
