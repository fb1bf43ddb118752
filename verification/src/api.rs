//! The answers of the HTTP endpoints, and the topic a socket subscribes to.
use vstd::prelude::*;
use vstd::string::StringExecFns;
use crate::error::PulseError;

verus! {

/// A JSON reply with one field: `{"<field>": "<text>"}` under HTTP `status`.
#[derive(Debug, Clone)]
pub struct Reply {
    pub status: u16,
    pub field: String,
    pub text: String,
}

/// The reply to an ingested event: 202 when the broker took it, 500 when
/// publishing it failed.
pub fn ingest_reply(published: &Result<(), PulseError>) -> (r: Reply)
    ensures
        published is Ok ==> r.status == 202 && r.field@ == "message"@ && r.text@ == "event created"@,
        published is Err ==> r.status == 500 && r.field@ == "error"@ && r.text@
            == "Failed to process event"@,
{
    match published {
        Ok(()) => Reply {
            status: 202,
            field: String::from_str("message"),
            text: String::from_str("event created"),
        },
        Err(_) => Reply {
            status: 500,
            field: String::from_str("error"),
            text: String::from_str("Failed to process event"),
        },
    }
}

/// The reply of the health endpoint.
pub fn health_reply() -> (r: Reply)
    ensures
        r.status == 200,
        r.field@ == "message"@,
        r.text@ == "ok"@,
{
    Reply { status: 200, field: String::from_str("message"), text: String::from_str("ok") }
}

/// The topic a socket subscribes to: the one its `topic` query parameter
/// names, else `default`.
pub fn resolve_topic(requested: Option<String>) -> (t: String)
    ensures
        match requested {
            Some(r) => t@ == r@,
            None => t@ == "default"@,
        },
{
    match requested {
        Some(r) => r,
        None => String::from_str("default"),
    }
}

} // verus!
