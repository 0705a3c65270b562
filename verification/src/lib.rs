//! Verified core of a line-delimited JSON-RPC bridge that manages native
//! window/webview pairs: protocol codec, request envelope, command dispatch,
//! resource registry and lifecycle policy.
pub mod codec;
pub mod dispatch;
pub mod json;
pub mod laws;
pub mod num;
pub mod params;
pub mod registry;
pub mod reply;
pub mod rpc;
pub mod shot;
pub mod text;

pub use json::Json;
