//! Decisions of the RPC and HTTP handlers: how store answers and errors
//! become responses.

use vstd::prelude::*;
use crate::auth::{ApiError, StoredApiKey, API_KEY_PREFIX, key_prefix};
use crate::strings::{chars_of, chars_contain, contains_seq, owned};
use crate::spinner::TriggerStatus;
use crate::metadata::{NotificationSettings};
use crate::dispatch::{DispatchManager, Run};
use crate::service::{DispatcherService, ServiceContext};

verus! {

/// The status an RPC answers with when it fails.
pub enum RpcStatus {
    NotFound(String),
    InvalidArgument(String),
    Internal(String),
}

/// Errors of the metadata service's handlers.
pub enum ProjectStoreHandlerError {
    /// The project is unknown; holds its id.
    NotFound(String),
    /// The store failed; holds its message.
    Store(String),
}

impl ProjectStoreHandlerError {
    /// An unknown project is "not found"; a store failure an invalid argument
    /// whose message names the failure.
    pub fn into_status(self) -> (s: RpcStatus)
        ensures
            match self {
                ProjectStoreHandlerError::NotFound(id) => s == RpcStatus::NotFound(id),
                ProjectStoreHandlerError::Store(e) => s matches RpcStatus::InvalidArgument(m) && m@
                    == "Operation on underlying database failed: "@ + e@,
            },
    {
        match self {
            ProjectStoreHandlerError::NotFound(id) => RpcStatus::NotFound(id),
            ProjectStoreHandlerError::Store(e) => RpcStatus::InvalidArgument(
                crate::strings::concat("Operation on underlying database failed: ", e.as_str()),
            ),
        }
    }
}

/// Errors of the dispatcher service's handlers.
pub enum DispatcherHandlerError {
    /// The run is unknown; holds its id.
    NotFound(String),
    /// The store failed; holds its message.
    Store(String),
}

impl DispatcherHandlerError {
    /// An unknown run is "not found" with the run id as message; a store
    /// failure an invalid argument whose message names the failure.
    pub fn into_status(self) -> (s: RpcStatus)
        ensures
            match self {
                DispatcherHandlerError::NotFound(id) => s == RpcStatus::NotFound(id),
                DispatcherHandlerError::Store(e) => s matches RpcStatus::InvalidArgument(m) && m@
                    == "Operation on underlying database failed: "@ + e@,
            },
    {
        match self {
            DispatcherHandlerError::NotFound(id) => RpcStatus::NotFound(id),
            DispatcherHandlerError::Store(e) => RpcStatus::InvalidArgument(
                crate::strings::concat("Operation on underlying database failed: ", e.as_str()),
            ),
        }
    }
}

/// The dispatcher service's RPC handler: its service context, the dispatch
/// manager that starts runs, and the run store it reads runs from.
pub struct DispatcherAPIHandler<R, A, S> {
    pub context: ServiceContext<DispatcherService>,
    pub dispatch_manager: DispatchManager<R, A>,
    pub run_store: S,
}

impl<R, A, S> DispatcherAPIHandler<R, A, S> {
    pub fn new(
        context: ServiceContext<DispatcherService>,
        dispatch_manager: DispatchManager<R, A>,
        run_store: S,
    ) -> (h: DispatcherAPIHandler<R, A, S>)
        ensures
            h.context == context,
            h.dispatch_manager == dispatch_manager,
            h.run_store == run_store,
    {
        DispatcherAPIHandler { context, dispatch_manager, run_store }
    }
}

/// What `get_run` answers for the run store's reply to a lookup of
/// `run_id`: the run when it was found, "not found" naming the run when it
/// was not, and the store's failure when the lookup failed.
pub fn get_run_result(reply: Result<Option<Run>, String>, run_id: &str) -> (r: Result<Run, DispatcherHandlerError>)
    ensures
        match reply {
            Ok(Some(run)) => r == Ok::<Run, DispatcherHandlerError>(run),
            Ok(None) => r matches Err(DispatcherHandlerError::NotFound(id)) && id@ == run_id@,
            Err(e) => r == Err::<Run, DispatcherHandlerError>(DispatcherHandlerError::Store(e)),
        },
{
    match reply {
        Ok(Some(run)) => Ok(run),
        Ok(None) => Err(DispatcherHandlerError::NotFound(owned(run_id))),
        Err(e) => Err(DispatcherHandlerError::Store(e)),
    }
}

/// What a store lookup for a project gives a handler: the value, or "not
/// found" naming the project.
pub fn found_or_not_found<T>(value: Option<T>, project_id: &str) -> (r: Result<T, ProjectStoreHandlerError>)
    ensures
        match value {
            Some(v) => r == Ok::<T, ProjectStoreHandlerError>(v),
            None => r matches Err(ProjectStoreHandlerError::NotFound(id)) && id@ == project_id@,
        },
{
    match value {
        Some(v) => Ok(v),
        None => Err(ProjectStoreHandlerError::NotFound(owned(project_id))),
    }
}

/// Whether a project is enabled.
#[derive(PartialEq, Eq, Structural)]
pub enum ProjectStatus {
    Enabled,
    Disabled,
    QuotaExceeded,
    PendingDeletion,
}

/// A project as the metadata store keeps it.
pub struct Project {
    pub id: String,
    pub created_at: i64,
    pub changed_at: i64,
    pub status: ProjectStatus,
    pub notification_settings: NotificationSettings,
}

/// A newly created project: enabled, created and changed now, with default
/// notification settings.
pub fn new_project(id: String, now: i64) -> (p: Project)
    ensures
        p.id == id,
        p.created_at == now,
        p.changed_at == now,
        p.status == ProjectStatus::Enabled,
        p.notification_settings.default_subscriptions@.len() == 0,
{
    Project { id, created_at: now, changed_at: now, status: ProjectStatus::Enabled, notification_settings: NotificationSettings::default() }
}

/// The trigger statuses a list request filters on: none when there is no
/// filter or it names no status.
pub fn list_filter_into_parts(filter: Option<Vec<TriggerStatus>>) -> (r: Option<Vec<TriggerStatus>>)
    ensures
        match filter {
            None => r is None,
            Some(statuses) => if statuses@.len() == 0 {
                r is None
            } else {
                r == Some(statuses)
            },
        },
{
    let statuses = match filter {
        Some(s) => s,
        None => {
            return None;
        },
    };
    if statuses.len() != 0 {
        Some(statuses)
    } else {
        None
    }
}

/// What an upsert did to a trigger.
pub enum UpsertEffect {
    Unknown,
    Created,
    Modified,
    NotModified,
}

/// The HTTP status answering an upsert: 201 for a created trigger, 200 for
/// a modified one, 304 for an unchanged one, 500 otherwise.
pub fn upsert_status_code(effect: &UpsertEffect) -> (code: u16)
    ensures
        effect is Created ==> code == 201,
        effect is Modified ==> code == 200,
        effect is NotModified ==> code == 304,
        effect is Unknown ==> code == 500,
{
    match effect {
        UpsertEffect::Created => 201,
        UpsertEffect::Modified => 200,
        UpsertEffect::NotModified => 304,
        UpsertEffect::Unknown => 500,
    }
}

/// The answer to revoking a key: success when a key was deleted, else "not
/// found" naming the key id.
pub fn revoke_outcome(deleted: bool, key_id: String) -> (r: Result<(), ApiError>)
    ensures
        deleted ==> r is Ok,
        !deleted ==> r == Err::<(), ApiError>(ApiError::NotFound(key_id)),
{
    if !deleted {
        return Err(ApiError::NotFound(key_id));
    }
    Ok(())
}

/// An API key as listed to its project: no hash, no secret.
pub struct ApiKeySummary {
    pub name: String,
    pub id: String,
    pub created_at: i64,
    pub creator_user_id: Option<String>,
}

/// The listing of a project's keys, in store order.
pub fn key_summaries(keys: &Vec<StoredApiKey>) -> (r: Vec<ApiKeySummary>)
    ensures
        r@.len() == keys@.len(),
        forall|i: int| 0 <= i < keys@.len() ==> #[trigger] r@[i].name == keys@[i].name && r@[i].id == keys@[i].key_id
            && r@[i].created_at == keys@[i].created_at && r@[i].creator_user_id == keys@[i].creator_user_id,
{
    let mut r: Vec<ApiKeySummary> = Vec::new();
    let mut i: usize = 0;
    while i < keys.len()
        invariant
            i <= keys@.len(),
            r@.len() == i,
            forall|j: int| 0 <= j < i ==> #[trigger] r@[j].name == keys@[j].name && r@[j].id == keys@[j].key_id
                && r@[j].created_at == keys@[j].created_at && r@[j].creator_user_id == keys@[j].creator_user_id,
        decreases keys@.len() - i,
    {
        let k = &keys[i];
        let creator = match &k.creator_user_id {
            Some(c) => Some(c.clone()),
            None => None,
        };
        r.push(ApiKeySummary { name: k.name.clone(), id: k.key_id.clone(), created_at: k.created_at, creator_user_id: creator });
        assert(r@[i as int].name == keys@[i as int].name && r@[i as int].creator_user_id == keys@[i as int].creator_user_id);
        i = i + 1;
    }
    r
}

/// The text that replaces a logged body holding `sk_`.
pub open spec fn redacted() -> Seq<char> {
    "REDACTED"@
}

/// What the request/response logger prints of a body: `REDACTED` when it
/// may hold a secret key (it holds `sk_`), else the body.
pub fn redact_body(body: &str) -> (printed: String)
    ensures
        contains_seq(body@, key_prefix()) ==> printed@ == redacted(),
        !contains_seq(body@, key_prefix()) ==> printed@ == body@,
{
    let text = chars_of(body);
    let prefix = chars_of(API_KEY_PREFIX);
    proof {
        reveal_strlit("sk_");
    }
    assert(prefix@ == key_prefix());
    if chars_contain(&text, &prefix) {
        owned("REDACTED")
    } else {
        owned(body)
    }
}

/// Whether a character may stand in the words of the names generator: a
/// lower-case ASCII letter or a hyphen.
pub open spec fn word_char(c: char) -> bool {
    ('a' <= c && c <= 'z') || c == '-'
}

/// Whether a character is an ASCII digit.
pub open spec fn ascii_digit(c: char) -> bool {
    '0' <= c && c <= '9'
}

/// The shape of a generated `adjective-noun-number` name: two words of
/// lower-case letters and inner hyphens, each at least two letters long,
/// joined by a hyphen, then a hyphen and a four-digit number from 0001 to
/// 9999.
pub open spec fn generated_name_shape(n: Seq<char>) -> bool {
    &&& n.len() >= 10
    &&& 'a' <= n[0] && n[0] <= 'z'
    &&& forall|i: int| 0 <= i < n.len() - 5 ==> word_char(#[trigger] n[i])
    &&& 'a' <= n[n.len() - 6] && n[n.len() - 6] <= 'z'
    &&& exists|j: int| 0 < j < n.len() - 6 && #[trigger] n[j] == '-'
    &&& n[n.len() - 5] == '-'
    &&& forall|i: int| n.len() - 4 <= i < n.len() ==> ascii_digit(#[trigger] n[i])
    &&& exists|i: int| n.len() - 4 <= i < n.len() && #[trigger] n[i] != '0'
}

/// `names::Generator::with_naming(names::Name::Numbered).next()`: a random
/// `adjective-noun-number` name. The generator always yields a name, made
/// as `format!("{}-{}-{:04}", adjective, noun, number)` from its word lists
/// (lower-case letters and inner hyphens, at least two letters a word) and
/// a number from 1 to 9999; which name comes is random and not stated.
#[verifier::external_body]
fn generate_trigger_name() -> (generated: Option<String>)
    ensures
        generated is Some,
        generated matches Some(name) ==> generated_name_shape(name@),
{
    names::Generator::with_naming(names::Name::Numbered).next()
}

/// The name a newly installed trigger gets: the requested one, else a
/// generated `adjective-noun-number` one.
pub fn install_trigger_name(requested: Option<String>) -> (r: Result<String, ApiError>)
    ensures
        requested matches Some(n) ==> r == Ok::<String, ApiError>(n),
        requested is None ==> (r matches Ok(n) && generated_name_shape(n@)),
{
    let name = match requested {
        Some(n) => Some(n),
        None => generate_trigger_name(),
    };
    match name {
        Some(n) => Ok(n),
        None => Err(ApiError::UnprocessableContent(owned("Trigger name cannot be set through the request body."))),
    }
}

/// Why reading a project setting failed.
pub enum ProjectSettingError {
    /// No metadata client could be made; holds the reason.
    Client(String),
    /// The metadata service answered with an error; holds its code.
    Server(String),
}

/// How long cached project settings live.
pub struct ExpirationPolicy {
    pub ttl_ms: u64,
}

impl ExpirationPolicy {
    /// How long a freshly fetched setting stays cached: the time-to-live
    /// when the fetch succeeded, nothing when it failed (so that it is
    /// fetched again on the next read).
    pub fn expire_after_create(&self, value_is_ok: bool) -> (ms: u64)
        ensures
            value_is_ok ==> ms == self.ttl_ms,
            !value_is_ok ==> ms == 0,
    {
        if value_is_ok {
            self.ttl_ms
        } else {
            0
        }
    }
}

} // verus!
