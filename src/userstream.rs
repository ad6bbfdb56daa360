//! Requests that open, keep alive and close a spot user-data stream.
use vstd::prelude::*;

use crate::rest::{bare_request, Endpoint, Method, Request};

verus! {

/// The spot user-data stream: its listen key is obtained, kept alive and
/// released by these requests.
#[derive(Debug, Clone)]
pub struct UserStream {
    pub recv_window: u64,
}

/// A user-data stream request about a listen key.
fn listen_key_request(method: Method, listen_key: &str) -> (r: Request)
    ensures
        r.method == method,
        r.endpoint == Endpoint::SpotUserDataStream,
        r.params@.len() == 0,
        r.recv_window is None,
        r.listen_key matches Some(k) && k@ == listen_key@,
{
    Request {
        method,
        endpoint: Endpoint::SpotUserDataStream,
        params: Vec::new(),
        recv_window: None,
        listen_key: Some(String::from_str(listen_key)),
    }
}

impl UserStream {
    /// Opens a user-data stream; the answer carries its listen key.
    pub fn start(&self) -> (r: Request)
        ensures
            r.method == Method::Post,
            r.endpoint == Endpoint::SpotUserDataStream,
            r.params@.len() == 0,
            r.recv_window is None,
            r.listen_key is None,
    {
        bare_request(Method::Post, Endpoint::SpotUserDataStream, None)
    }

    /// Extends the validity of a listen key.
    pub fn keep_alive(&self, listen_key: &str) -> (r: Request)
        ensures
            r.method == Method::Put,
            r.endpoint == Endpoint::SpotUserDataStream,
            r.params@.len() == 0,
            r.recv_window is None,
            r.listen_key matches Some(k) && k@ == listen_key@,
    {
        listen_key_request(Method::Put, listen_key)
    }

    /// Closes the user-data stream of a listen key.
    pub fn close(&self, listen_key: &str) -> (r: Request)
        ensures
            r.method == Method::Delete,
            r.endpoint == Endpoint::SpotUserDataStream,
            r.params@.len() == 0,
            r.recv_window is None,
            r.listen_key matches Some(k) && k@ == listen_key@,
    {
        listen_key_request(Method::Delete, listen_key)
    }
}

} // verus!
