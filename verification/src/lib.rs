//! pacom: the logic of a runtime over uProtocol transports — the application manifest and
//! the identifiers of its logical names, local discovery, routing between the in-vehicle
//! and the cloud transports, and the plans of publishing, subscribing and RPC.

pub mod discovery;
pub mod engine;
pub mod error;
pub mod logical_registry;
pub mod names;
pub mod router;
pub mod text;
pub mod uri;
pub mod utils;
pub mod vsomeip_config;
pub mod vsomeip_topology;

pub use error::PacomError;
pub use engine::{MqttConfig, RuntimeConfig};
pub use logical_registry::ManifestConfig;

use vstd::prelude::*;

verus! {

/// Options for an RPC invocation, allowing fine-grained control over timeouts.
pub struct RpcOptions {
    /// Overrides the global discovery timeout for this specific call.
    pub discovery_timeout_ms: Option<u64>,
    /// Overrides the global RPC execution timeout for this specific call.
    pub call_timeout_ms: Option<u32>,
}

impl Default for RpcOptions {
    fn default() -> (o: Self)
        ensures
            o.discovery_timeout_ms is None,
            o.call_timeout_ms is None,
    {
        RpcOptions { discovery_timeout_ms: None, call_timeout_ms: None }
    }
}

} // verus!
