use cronback::service::{
    rpc_request_metadata, response_headers, span_field, CronbackRpcMiddleware, GrpcRequestInterceptor, Injection,
    ResponseHeader,
};
use cronback::types::{RequestContext, RequestId};

#[test]
fn rpc_metadata_from_headers() {
    let m = rpc_request_metadata(Some("req_1"), Some("prj_1"), "/scheduler_svc.Scheduler/GetTrigger");
    assert_eq!(m.request_id.map(|r| r.0), Some("req_1".to_string()));
    assert_eq!(m.project_id, Some("prj_1".to_string()));
    assert_eq!(m.endpoint, "scheduler_svc.Scheduler/GetTrigger");
    let m = rpc_request_metadata(None, None, "/");
    assert!(m.request_id.is_none());
    assert!(m.project_id.is_none());
    assert_eq!(m.endpoint, "");
}

#[test]
fn response_carries_request_and_project_ids() {
    let id = RequestId::from("req_1".to_string());
    let project = "prj_1".to_string();
    let hs = response_headers(Some(&id), Some(&project));
    assert_eq!(hs.len(), 2);
    assert!(matches!(&hs[0], ResponseHeader::RequestId(v) if v == "req_1"));
    assert!(matches!(&hs[1], ResponseHeader::ProjectId(v) if v == "prj_1"));
    let hs = response_headers(None, Some(&project));
    assert_eq!(hs.len(), 1);
    assert!(matches!(&hs[0], ResponseHeader::ProjectId(v) if v == "prj_1"));
    assert!(response_headers(None, None).is_empty());
}

#[test]
fn interceptor_injections() {
    let i = GrpcRequestInterceptor { project_id: Some("prj_1".to_string()), request_id: Some(RequestId::from("r".to_string())) };
    let v = i.injections(Some(42));
    assert_eq!(v.len(), 3);
    assert!(matches!(v[0], Injection::ParentSpan(42)));
    assert!(matches!(&v[1], Injection::RequestId(t) if t == "r"));
    assert!(matches!(&v[2], Injection::ProjectId(t) if t == "prj_1"));
    let none = GrpcRequestInterceptor { project_id: None, request_id: None };
    assert!(none.injections(None).is_empty());
}

#[test]
fn request_ids() {
    let id = RequestId::new();
    assert_eq!(id.0.len(), 26);
    assert_ne!(RequestId::new().0, RequestId::new().0);
    assert_eq!(RequestId::from("abc".to_string()).to_text(), "abc");
    let ctx = RequestContext::new(RequestId::from("x".to_string()), "prj".to_string());
    assert_eq!(ctx.request_id.0, "x");
    assert_eq!(ctx.project_id, "prj");
}

#[test]
fn span_fields_and_middleware() {
    assert_eq!(span_field(Some("v".to_string())), "v");
    assert_eq!(span_field(None), "");
    let m = CronbackRpcMiddleware::new("scheduler");
    let inner = m.layer(5u8);
    assert_eq!(inner.inner, 5);
    assert_eq!(inner.service_name, "scheduler");
}
