//! A liveness service, verified.
//!
//! The library decides what the service answers to every request and
//! describes the server that is to be started. Binding the socket and moving
//! bytes is left to the application around it.

pub mod bootstrap;
pub mod http;
pub mod routes;

pub use bootstrap::{run, BindAddress, ServerConfig, HOST, PORT};
pub use http::{Method, Response, METHOD_NOT_ALLOWED, NOT_FOUND, OK};
pub use routes::{health_check, health_check_route, respond, routes, Route, HEALTH_CHECK_PATH};
