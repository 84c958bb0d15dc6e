//! The per-request tracer: a request id that log lines carry.

use vstd::prelude::*;

use crate::error::Error;
use crate::token::{is_v4_uuid_text, new_v4_uuid_text};

verus! {

/// Tags a request's log lines with the request's id.
pub struct Tracer {
    request_id: Option<String>,
}

/// The text of an optional string.
pub open spec fn text_of(s: Option<String>) -> Option<Seq<char>> {
    match s {
        Some(t) => Some(t@),
        None => None,
    }
}

impl Tracer {
    /// The id of the request being traced, if one was assigned.
    pub closed spec fn id(&self) -> Option<Seq<char>> {
        text_of(self.request_id)
    }

    /// A tracer with no request id.
    pub fn new() -> (r: Self)
        ensures
            r.id() is None,
    {
        Tracer { request_id: None }
    }

    /// The tracer of an incoming request: its id is a fresh random UUID.
    pub fn for_request() -> (r: Self)
        ensures
            r.id() matches Some(id) && is_v4_uuid_text(id),
    {
        Tracer { request_id: Some(new_v4_uuid_text()) }
    }

    /// The id of the traced request, which must have one.
    pub fn request_id(&self) -> (r: &String)
        requires
            self.id() is Some,
        ensures
            self.id() == Some(r@),
    {
        self.request_id.as_ref().unwrap()
    }

    fn line(&self, level: &str, message: &str) -> (r: Option<String>)
        ensures
            match self.id() {
                Some(id) => r matches Some(line) && line@ == id + level@ + message@,
                None => r is None,
            },
    {
        match &self.request_id {
            Some(id) => {
                let mut line = id.clone();
                line.append(level);
                line.append(message);
                Some(line)
            },
            None => None,
        }
    }

    /// The informational log line for `message`: the request id, ` INFO ` and
    /// the message; nothing when the request has no id.
    pub fn info_line(&self, message: &str) -> (r: Option<String>)
        ensures
            match self.id() {
                Some(id) => r matches Some(line) && line@ == id + " INFO "@ + message@,
                None => r is None,
            },
    {
        self.line(" INFO ", message)
    }

    /// The error log line for `message`: the request id, ` ERROR ` and the
    /// message; nothing when the request has no id.
    pub fn error_line(&self, message: &str) -> (r: Option<String>)
        ensures
            match self.id() {
                Some(id) => r matches Some(line) && line@ == id + " ERROR "@ + message@,
                None => r is None,
            },
    {
        self.line(" ERROR ", message)
    }

    /// Whether a handler may use this tracer: only when the request was given
    /// an id; otherwise an internal error saying the tracing stage is missing.
    pub fn check_request_id(&self) -> (r: Result<(), Error>)
        ensures
            self.id() is Some ==> r is Ok,
            self.id() is None ==> (r matches Err(Error::Other(cause)) && cause@
                == "Request ID not found. Did you attach the Tracer fairing?"@),
    {
        match &self.request_id {
            Some(_) => Ok(()),
            None => Err(
                Error::Other(
                    String::from_str("Request ID not found. Did you attach the Tracer fairing?"),
                ),
            ),
        }
    }
}

impl Default for Tracer {
    fn default() -> (r: Self)
        ensures
            r.id() is None,
    {
        Tracer::new()
    }
}

} // verus!
