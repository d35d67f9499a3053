//! The description of the server that is to be started.

use vstd::prelude::*;
use crate::http::Method;
use crate::routes::{routes, Route, HEALTH_CHECK_PATH};

verus! {

/// The host that the server listens on.
pub const HOST: &'static str = "127.0.0.1";

/// The port that the server listens on.
pub const PORT: u16 = 8000;

/// Where the server listens.
#[derive(Clone, Copy, Debug)]
pub struct BindAddress {
    pub host: &'static str,
    pub port: u16,
}

/// A server that is set up and not started: the address to bind and the
/// routes to register.
#[derive(Debug)]
pub struct ServerConfig {
    pub address: BindAddress,
    pub routes: Vec<Route>,
}

/// Sets the server up. It is to listen on `HOST` and `PORT`, and it has one
/// route, `GET` on the liveness endpoint. Nothing is bound and nothing is
/// accepted here: the caller binds the address, fails if that fails, and
/// decides when the server starts.
pub fn run() -> (config: ServerConfig)
    ensures
        config.address.host@ == HOST@,
        config.address.port == PORT,
        config.routes@.len() == 1,
        config.routes@[0].method == Method::Get,
        config.routes@[0].path@ == HEALTH_CHECK_PATH@,
{
    ServerConfig { address: BindAddress { host: HOST, port: PORT }, routes: routes() }
}

} // verus!
