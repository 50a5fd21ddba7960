//! The two interchangeable transport modes for receiving events.

use vstd::prelude::*;

verus! {

/// How events are received: over one persistent outbound connection, or by
/// a locally bound inbound endpoint.  Chosen at construction, never
/// switched at run time.
#[derive(Clone, Debug)]
pub enum Communication {
    /// The streaming strategy.
    WebSocket(WebSocketConfig),
    /// The listening strategy.
    WebHook(WebHookConfig),
}

/// Configuration of the streaming strategy.
#[derive(Clone, Debug)]
pub struct WebSocketConfig {
    /// The remote event endpoint, e.g. `ws://127.0.0.1:3000`.
    pub ws_endpoint: String,
    /// An optional credential, attached to calls and to the connection.
    pub access_token: Option<String>,
}

impl WebSocketConfig {
    /// A streaming configuration with the given endpoint and credential.
    pub fn new(ws_endpoint: String, access_token: Option<String>) -> (r: Self)
        ensures
            r.ws_endpoint == ws_endpoint,
            r.access_token == access_token,
    {
        Self { ws_endpoint, access_token }
    }
}

/// Configuration of the listening strategy.
#[derive(Clone, Debug)]
pub struct WebHookConfig {
    /// The local address to bind, `127.0.0.1` unless given.
    pub host: String,
    /// The local port to bind.
    pub port: i32,
    /// The remote call endpoint, e.g. `http://127.0.0.1:3000`.
    pub http_endpoint: String,
    /// An optional credential, attached to calls.
    pub access_token: Option<String>,
}

impl WebHookConfig {
    /// A listening configuration; a missing host defaults to `127.0.0.1`.
    pub fn new(
        host: Option<String>,
        port: i32,
        http_endpoint: String,
        access_token: Option<String>,
    ) -> (r: Self)
        ensures
            match host {
                Some(h) => r.host == h,
                None => r.host@ == "127.0.0.1"@,
            },
            r.port == port,
            r.http_endpoint == http_endpoint,
            r.access_token == access_token,
    {
        let host = match host {
            Some(h) => h,
            None => String::from_str("127.0.0.1"),
        };
        Self { host, port, http_endpoint, access_token }
    }
}

} // verus!
