//! Server configuration: a placeholder value with a builder.
use std::sync::Arc;
use vstd::prelude::*;

verus! {

/// The server's configuration; it holds no settings yet.
#[derive(Debug, Clone, Default)]
pub struct ServerCfg {}

/// Builds a `ServerCfg`.
#[derive(Debug, Default)]
pub struct ServerCfgBuilder {}

impl ServerCfg {
    pub fn builder() -> (r: ServerCfgBuilder)
        ensures
            r == (ServerCfgBuilder {}),
    {
        ServerCfgBuilder {}
    }
}

impl ServerCfgBuilder {
    pub fn build(self) -> (r: Arc<ServerCfg>)
        ensures
            *r == (ServerCfg {}),
    {
        Arc::new(ServerCfg {})
    }
}

} // verus!
