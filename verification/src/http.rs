//! The plain values of an HTTP exchange that the service reads and writes.

use vstd::prelude::*;

verus! {

/// Status of a request that was served.
pub const OK: u16 = 200;

/// Status of a request for a path that the service does not know.
pub const NOT_FOUND: u16 = 404;

/// Status of a request for a known path with a method that it does not take.
pub const METHOD_NOT_ALLOWED: u16 = 405;

/// The method of a request. `Other` stands for every extension method.
#[derive(Clone, Copy, Debug, PartialEq, Eq, Structural)]
pub enum Method {
    Get,
    Head,
    Post,
    Put,
    Delete,
    Connect,
    Options,
    Trace,
    Patch,
    Other,
}

/// What the service sends back: a status code and the bytes of the body.
#[derive(Debug, PartialEq, Eq)]
pub struct Response {
    pub status: u16,
    pub body: Vec<u8>,
}

impl Response {
    /// A response that carries `status` and no body.
    pub fn empty(status: u16) -> (r: Response)
        ensures
            r.status == status,
            r.body@ == Seq::<u8>::empty(),
    {
        Response { status, body: Vec::new() }
    }
}

} // verus!
