//! The service's error type.
use vstd::prelude::*;
use crate::text::prefixed;

verus! {

/// Errors of the feed service. Each variant carries the detail text that
/// its message shows.
#[derive(Debug, Clone)]
pub enum PulseError {
    Broker(String),
    WebSocket(String),
    Io(String),
    Channel(String),
    InvalidTopic(String),
    ParseString(String),
}

/// The message of an error: a fixed prefix per variant, then the detail.
pub open spec fn error_message(e: PulseError) -> Seq<char> {
    match e {
        PulseError::Broker(d) => "Broker error: "@ + d@,
        PulseError::WebSocket(d) => "WebSocket error: "@ + d@,
        PulseError::Io(d) => "IO error: "@ + d@,
        PulseError::Channel(d) => "Channel error: "@ + d@,
        PulseError::InvalidTopic(d) => "Invalid topic format: "@ + d@,
        PulseError::ParseString(d) => "error: "@ + d@,
    }
}

impl PulseError {
    /// The human-readable message of this error.
    pub fn message(&self) -> (m: String)
        ensures
            m@ == error_message(*self),
    {
        match self {
            PulseError::Broker(d) => prefixed("Broker error: ", d.as_str()),
            PulseError::WebSocket(d) => prefixed("WebSocket error: ", d.as_str()),
            PulseError::Io(d) => prefixed("IO error: ", d.as_str()),
            PulseError::Channel(d) => prefixed("Channel error: ", d.as_str()),
            PulseError::InvalidTopic(d) => prefixed("Invalid topic format: ", d.as_str()),
            PulseError::ParseString(d) => prefixed("error: ", d.as_str()),
        }
    }
}

} // verus!
