//! Identifiers carried by requests.

use vstd::prelude::*;

verus! {

/// The identifier of one request, for tracing it through the services.
pub struct RequestId(pub String);

/// `ulid::Ulid::new().to_string()`: a fresh ULID in its canonical text form
/// (26 characters); which one depends on the time and on chance.
#[verifier::external_body]
fn fresh_ulid() -> (id: String)
    ensures
        id@.len() == 26,
{
    ulid::Ulid::new().to_string()
}

impl RequestId {
    /// A fresh random request id (a ULID).
    pub fn new() -> (r: RequestId)
        ensures
            r.0@.len() == 26,
    {
        RequestId(fresh_ulid())
    }

    /// A request id with the given text.
    pub fn from(value: String) -> (r: RequestId)
        ensures
            r.0 == value,
    {
        RequestId(value)
    }

    /// The text of the id.
    pub fn to_text(&self) -> (s: String)
        ensures
            s@ == self.0@,
    {
        self.0.clone()
    }
}

/// Who a request comes from: its id and the project it acts for.
pub struct RequestContext {
    pub request_id: RequestId,
    pub project_id: String,
}

impl RequestContext {
    pub fn new(request_id: RequestId, project_id: String) -> (c: RequestContext)
        ensures
            c.request_id == request_id,
            c.project_id == project_id,
    {
        RequestContext { request_id, project_id }
    }
}

} // verus!
