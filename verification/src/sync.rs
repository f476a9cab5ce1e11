//! Synchronising the list with the server.
//!
//! The list is pulled once at startup and pushed whole at a fixed interval. The
//! host sends the requests and delivers the responses; this module says which
//! requests there are and what a response means for the list.

use vstd::prelude::*;
use crate::entry::{views, Entry, EntryView};
use crate::model::Msg;

verus! {

/// The number of seconds between two pushes of the list.
pub const PUSH_INTERVAL_SECS: u64 = 5;

/// The address of the task collection on the server.
pub const TASKS_URL: &'static str = "http://[::]:8000/tasks";

/// The content type of a pushed list.
pub const JSON_CONTENT_TYPE: &'static str = "application/json";

/// The HTTP methods that the synchronisation uses.
#[derive(Clone, Copy, Debug, PartialEq, Eq)]
pub enum Method {
    Get,
    Post,
}

/// A request for the host to send. A body is a list of entries, which goes
/// over the wire as a JSON array.
#[derive(Debug, PartialEq, Eq)]
pub struct Request {
    pub method: Method,
    pub url: &'static str,
    pub content_type: Option<&'static str>,
    pub body: Option<Vec<Entry>>,
}

impl Request {
    /// Whether this is the startup pull: a `GET` of the task collection, with
    /// no content type and no body.
    pub open spec fn is_pull(self) -> bool {
        &&& self.method == Method::Get
        &&& self.url@ == TASKS_URL@
        &&& self.content_type is None
        &&& self.body is None
    }

    /// Whether this is a push of `entries`: a `POST` to the task collection
    /// that is marked as JSON and carries all of `entries` in their order.
    pub open spec fn is_push_of(self, entries: Seq<EntryView>) -> bool {
        &&& self.method == Method::Post
        &&& self.url@ == TASKS_URL@
        &&& self.content_type matches Some(content_type) && content_type@ == JSON_CONTENT_TYPE@
        &&& self.body matches Some(body) && views(body@) == entries
    }
}

/// The request of the startup pull.
pub fn pull_request() -> (request: Request)
    ensures
        request.is_pull(),
{
    Request { method: Method::Get, url: TASKS_URL, content_type: None, body: None }
}

/// The request that pushes `entries`, all of them.
pub fn push_request(entries: Vec<Entry>) -> (request: Request)
    ensures
        request.is_push_of(views(entries@)),
        request.body == Some(entries),
{
    Request {
        method: Method::Post,
        url: TASKS_URL,
        content_type: Some(JSON_CONTENT_TYPE),
        body: Some(entries),
    }
}

/// Whether an HTTP status code reports success: the codes from 200 to 299 do.
pub open spec fn is_success(status: u16) -> bool {
    200 <= status < 300
}

/// Whether an HTTP status code reports success.
pub fn status_is_success(status: u16) -> (ok: bool)
    ensures
        ok == is_success(status),
{
    300 > status && status >= 200
}

/// The message that the end of the startup pull delivers. A response with a
/// success status and a decoded list of entries replaces the list. Any other
/// outcome (a status that is no success, or a payload that is no list of
/// entries) leaves the list as it is.
pub fn pull_completed(status: u16, payload: Option<Vec<Entry>>) -> (msg: Msg)
    ensures
        msg == match payload {
            Some(entries) if is_success(status) => Msg::InitialSync(entries),
            _ => Msg::Nope,
        },
{
    match payload {
        Some(entries) => {
            if status_is_success(status) {
                Msg::InitialSync(entries)
            } else {
                Msg::Nope
            }
        },
        None => Msg::Nope,
    }
}

/// Whether the response to a push reports a failure. A failed push is not
/// sent again and changes nothing.
pub fn push_failed(status: u16) -> (failed: bool)
    ensures
        failed == !is_success(status),
{
    !status_is_success(status)
}

} // verus!
