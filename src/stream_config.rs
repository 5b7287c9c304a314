//! Settings of the downstream event-stream server.
use vstd::prelude::*;

verus! {

/// Default binding address: any interface, any port.
pub const DEFAULT_ADDRESS: &'static str = "0.0.0.0:0";

/// Default number of events that the broadcast channel buffers.
pub const DEFAULT_EVENT_STREAM_BUFFER_LENGTH: u32 = 5000;

/// Default maximum number of subscribers across all endpoints.
pub const DEFAULT_MAX_CONCURRENT_SUBSCRIBERS: u32 = 100;

/// Settings of the event-stream server.
#[derive(Clone, Debug)]
pub struct Config {
    /// Address to bind the server to.
    pub address: String,
    /// Number of events to buffer for subscribers.
    pub event_stream_buffer_length: u32,
    /// Maximum number of subscribers permitted at any one time.
    pub max_concurrent_subscribers: u32,
}

impl Config {
    /// The settings given, with the default for each one left out.
    pub fn new(address: Option<String>, buffer_length: Option<u32>, max_subscribers: Option<u32>) -> (r:
        Self)
        ensures
            r.address@ == match address {
                Some(a) => a@,
                None => DEFAULT_ADDRESS@,
            },
            r.event_stream_buffer_length == match buffer_length {
                Some(n) => n,
                None => DEFAULT_EVENT_STREAM_BUFFER_LENGTH,
            },
            r.max_concurrent_subscribers == match max_subscribers {
                Some(n) => n,
                None => DEFAULT_MAX_CONCURRENT_SUBSCRIBERS,
            },
    {
        let address = match address {
            Some(a) => a,
            None => DEFAULT_ADDRESS.to_owned(),
        };
        let event_stream_buffer_length = match buffer_length {
            Some(n) => n,
            None => DEFAULT_EVENT_STREAM_BUFFER_LENGTH,
        };
        let max_concurrent_subscribers = match max_subscribers {
            Some(n) => n,
            None => DEFAULT_MAX_CONCURRENT_SUBSCRIBERS,
        };
        Config { address, event_stream_buffer_length, max_concurrent_subscribers }
    }
}

impl Default for Config {
    fn default() -> (r: Self)
        ensures
            r.address@ == DEFAULT_ADDRESS@,
            r.event_stream_buffer_length == DEFAULT_EVENT_STREAM_BUFFER_LENGTH,
            r.max_concurrent_subscribers == DEFAULT_MAX_CONCURRENT_SUBSCRIBERS,
    {
        Config::new(None, None, None)
    }
}

} // verus!
