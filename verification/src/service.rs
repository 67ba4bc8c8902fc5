//! What the RPC and HTTP layers of a service decide about each request:
//! which identifiers travel with it, and the service context handlers read
//! their configuration from.

use vstd::prelude::*;
use std::marker::PhantomData;
use crate::config::{Config, MainConfig, SectionConfig, section_index, has_main, main_section, same_main};
use crate::types::RequestId;
use crate::strings::{chars_of, substring};

verus! {

// ---------------------------------------------------------------------------
// Services
// ---------------------------------------------------------------------------

/// A service role: its name, which is also its configuration section.
pub trait ServiceRole {
    /// The role's name.
    spec fn spec_role() -> Seq<char>;

    fn role() -> (r: &'static str)
        ensures
            r@ == Self::spec_role(),
    ;
}

/// The HTTP API service.
pub struct ApiService;

/// The dispatcher service, which runs webhooks.
pub struct DispatcherService;

/// The metadata service, which keeps projects and their settings.
pub struct MetadataService;

/// The scheduler service, which keeps triggers and fires them.
pub struct SchedulerService;

impl ServiceRole for ApiService {
    open spec fn spec_role() -> Seq<char> {
        "api"@
    }

    fn role() -> (r: &'static str) {
        "api"
    }
}

impl ServiceRole for DispatcherService {
    open spec fn spec_role() -> Seq<char> {
        "dispatcher"@
    }

    fn role() -> (r: &'static str) {
        "dispatcher"
    }
}

impl ServiceRole for MetadataService {
    open spec fn spec_role() -> Seq<char> {
        "metadata"@
    }

    fn role() -> (r: &'static str) {
        "metadata"
    }
}

impl ServiceRole for SchedulerService {
    open spec fn spec_role() -> Seq<char> {
        "scheduler"@
    }

    fn role() -> (r: &'static str) {
        "scheduler"
    }
}

/// What a service's handlers share: the configuration and whether a
/// shutdown was requested.
pub struct ServiceContext<S> {
    config: Config,
    shutdown_requested: bool,
    _service: PhantomData<S>,
}

impl<S: ServiceRole> ServiceContext<S> {
    pub closed spec fn spec_config(&self) -> Config {
        self.config
    }

    pub closed spec fn spec_shutdown_requested(&self) -> bool {
        self.shutdown_requested
    }

    pub fn new(config: Config) -> (c: ServiceContext<S>)
        ensures
            c.spec_config() == config,
            !c.spec_shutdown_requested(),
    {
        ServiceContext { config, shutdown_requested: false, _service: PhantomData }
    }

    /// The name of the service's role.
    pub fn service_name(&self) -> (name: &'static str)
        ensures
            name@ == S::spec_role(),
    {
        S::role()
    }

    pub fn config(&self) -> (c: &Config)
        ensures
            *c == self.spec_config(),
    {
        &self.config
    }

    /// The main section of the configuration.
    pub fn get_main_config(&self) -> (m: MainConfig)
        requires
            has_main(self.spec_config().spec_sections()),
        ensures
            section_index(self.spec_config().spec_sections(), main_section()) matches Some(i)
                && self.spec_config().spec_sections()[i].value matches SectionConfig::Main(main) && same_main(
                m,
                main,
            ),
    {
        self.config.get_main()
    }

    /// The service's own configuration section, which must have been loaded
    /// (the service registers it when the configuration is built).
    pub fn service_config(&self) -> (r: &SectionConfig)
        requires
            section_index(self.spec_config().spec_sections(), S::spec_role()) is Some,
        ensures
            *r == self.spec_config().spec_sections()[section_index(
                self.spec_config().spec_sections(),
                S::spec_role(),
            )->0].value,
    {
        self.config.get(S::role())
    }

    /// Requests every part of the system to shut down.
    pub fn broadcast_shutdown(&mut self)
        ensures
            final(self).spec_shutdown_requested(),
            final(self).spec_config() == old(self).spec_config(),
    {
        self.shutdown_requested = true;
    }
}

// ---------------------------------------------------------------------------
// RPC layer
// ---------------------------------------------------------------------------

/// The RPC middleware: it tags metrics with the service name.
pub struct CronbackRpcMiddleware {
    pub service_name: String,
}

impl CronbackRpcMiddleware {
    pub fn new(service_name: &str) -> (m: CronbackRpcMiddleware)
        ensures
            m.service_name@ == service_name@,
    {
        CronbackRpcMiddleware { service_name: service_name.to_owned() }
    }

    /// Wraps a service in the middleware.
    pub fn layer<S>(&self, service: S) -> (m: InnerMiddleware<S>)
        ensures
            m.inner == service,
            m.service_name@ == self.service_name@,
    {
        InnerMiddleware::new(self.service_name.as_str(), service)
    }
}

/// A service wrapped in the RPC middleware.
pub struct InnerMiddleware<S> {
    pub inner: S,
    pub service_name: String,
}

impl<S> InnerMiddleware<S> {
    pub fn new(service_name: &str, inner: S) -> (m: InnerMiddleware<S>)
        ensures
            m.inner == inner,
            m.service_name@ == service_name@,
    {
        InnerMiddleware { inner, service_name: service_name.to_owned() }
    }
}

/// What the RPC middleware reads from an incoming request.
pub struct RpcRequestMetadata {
    /// The request id the caller sent, if any.
    pub request_id: Option<RequestId>,
    /// The project id header, if any (validated before use).
    pub project_id: Option<String>,
    /// The endpoint: the path without its leading character.
    pub endpoint: String,
}

/// Reads the request id and project id headers and the endpoint of an RPC
/// request; the path starts with an ASCII character (a `/`).
pub fn rpc_request_metadata(request_id_header: Option<&str>, project_id_header: Option<&str>, path: &str) -> (m:
    RpcRequestMetadata)
    requires
        path@.len() > 0,
        (path@[0] as u32) < 128,
    ensures
        match request_id_header {
            Some(h) => m.request_id matches Some(id) && id.0@ == h@,
            None => m.request_id is None,
        },
        match project_id_header {
            Some(h) => m.project_id matches Some(p) && p@ == h@,
            None => m.project_id is None,
        },
        m.endpoint@ == path@.drop_first(),
{
    let request_id = match request_id_header {
        Some(h) => Some(RequestId::from(h.to_owned())),
        None => None,
    };
    let project_id = match project_id_header {
        Some(h) => Some(h.to_owned()),
        None => None,
    };
    let v = chars_of(path);
    let endpoint = substring(&v, 1, v.len());
    assert(endpoint@ == path@.drop_first());
    RpcRequestMetadata { request_id, project_id, endpoint }
}

/// A header the middleware adds to a response.
pub enum ResponseHeader {
    RequestId(String),
    ProjectId(String),
}

/// The headers added to a response: the request id and the project id the
/// handler left in the response, each when present, in that order.
pub fn response_headers(request_id: Option<&RequestId>, project_id: Option<&String>) -> (hs: Vec<ResponseHeader>)
    ensures
        hs@.len() == (if request_id is Some { 1int } else { 0int }) + (if project_id is Some { 1int } else { 0int }),
        request_id matches Some(id) ==> hs@[0] matches ResponseHeader::RequestId(v) && v@ == id.0@,
        project_id matches Some(p) ==> hs@.last() matches ResponseHeader::ProjectId(v) && v@ == p@,
{
    let mut hs: Vec<ResponseHeader> = Vec::new();
    if let Some(id) = request_id {
        hs.push(ResponseHeader::RequestId(id.0.clone()));
    }
    if let Some(p) = project_id {
        hs.push(ResponseHeader::ProjectId(p.clone()));
    }
    hs
}

/// Makes the tracing span of an RPC request, tagged with the service name.
pub struct GrpcMakeSpan {
    pub service_name: String,
}

impl GrpcMakeSpan {
    pub fn new(service_name: String) -> (m: GrpcMakeSpan)
        ensures
            m.service_name == service_name,
    {
        GrpcMakeSpan { service_name }
    }
}

/// Makes the tracing span of an HTTP request, tagged with the service name.
pub struct ApiMakeSpan {
    pub service_name: String,
}

impl ApiMakeSpan {
    pub fn new(service_name: String) -> (m: ApiMakeSpan)
        ensures
            m.service_name == service_name,
    {
        ApiMakeSpan { service_name }
    }
}

/// A span field's text: the header's value, or empty when missing.
pub fn span_field(value: Option<String>) -> (s: String)
    ensures
        match value {
            Some(v) => s == v,
            None => s@.len() == 0,
        },
{
    match value {
        Some(v) => v,
        None => String::new(),
    }
}

/// Metadata an outgoing RPC request carries.
pub enum Injection {
    ParentSpan(u64),
    RequestId(String),
    ProjectId(String),
}

/// Adds tracing and identity metadata to outgoing RPC requests.
pub struct GrpcRequestInterceptor {
    pub project_id: Option<String>,
    pub request_id: Option<RequestId>,
}

impl GrpcRequestInterceptor {
    /// The metadata to add, in order: the current span as parent span, the
    /// request id and the project id, each when present.
    pub fn injections(&self, current_span: Option<u64>) -> (v: Vec<Injection>)
        ensures
            v@.len() == (if current_span is Some { 1int } else { 0int }) + (if self.request_id is Some {
                1int
            } else {
                0int
            }) + (if self.project_id is Some { 1int } else { 0int }),
            current_span matches Some(id) ==> v@[0] == Injection::ParentSpan(id),
            self.request_id matches Some(r) ==> v@[if current_span is Some { 1int } else { 0int }] matches Injection::RequestId(
                t,
            ) && t@ == r.0@,
            self.project_id matches Some(p) ==> v@.last() matches Injection::ProjectId(t) && t@ == p@,
    {
        let mut v: Vec<Injection> = Vec::new();
        if let Some(id) = current_span {
            v.push(Injection::ParentSpan(id));
        }
        if let Some(r) = &self.request_id {
            v.push(Injection::RequestId(r.0.clone()));
        }
        if let Some(p) = &self.project_id {
            v.push(Injection::ProjectId(p.clone()));
        }
        v
    }
}

} // verus!
