use cronback::auth::{ApiError, StoredApiKey};
use cronback::handlers::{
    found_or_not_found, install_trigger_name, key_summaries, list_filter_into_parts, new_project, redact_body,
    revoke_outcome, upsert_status_code, DispatcherHandlerError, ExpirationPolicy, ProjectStatus,
    ProjectStoreHandlerError, RpcStatus, UpsertEffect, DispatcherAPIHandler, get_run_result,
};
use cronback::config::Config;
use cronback::dispatch::{DispatchManager, Run, RunStatus};
use cronback::service::{DispatcherService, ServiceContext};
use cronback::proto::PaginationIn;
use cronback::spinner::TriggerStatus;

#[test]
fn store_errors_become_statuses() {
    assert!(matches!(ProjectStoreHandlerError::NotFound("p".to_string()).into_status(), RpcStatus::NotFound(m) if m == "p"));
    assert!(matches!(
        ProjectStoreHandlerError::Store("boom".to_string()).into_status(),
        RpcStatus::InvalidArgument(m) if m == "Operation on underlying database failed: boom"
    ));
    assert!(matches!(
        DispatcherHandlerError::NotFound("run_1".to_string()).into_status(),
        RpcStatus::NotFound(m) if m == "run_1"
    ));
    assert!(matches!(
        DispatcherHandlerError::Store("boom".to_string()).into_status(),
        RpcStatus::InvalidArgument(m) if m == "Operation on underlying database failed: boom"
    ));
}

#[test]
fn lookups_and_projects() {
    assert!(matches!(found_or_not_found(Some(3), "p"), Ok(3)));
    assert!(matches!(found_or_not_found::<u8>(None, "p"), Err(ProjectStoreHandlerError::NotFound(id)) if id == "p"));
    let p = new_project("prj_1".to_string(), 77);
    assert_eq!(p.id, "prj_1");
    assert_eq!(p.created_at, 77);
    assert_eq!(p.changed_at, 77);
    assert!(p.status == ProjectStatus::Enabled);
    assert!(p.notification_settings.default_subscriptions.is_empty());
    assert!(p.notification_settings.channels.is_empty());
}

#[test]
fn list_filters() {
    assert!(list_filter_into_parts(None).is_none());
    assert!(list_filter_into_parts(Some(vec![])).is_none());
    let f = list_filter_into_parts(Some(vec![TriggerStatus::Paused])).unwrap();
    assert!(f.len() == 1 && f[0] == TriggerStatus::Paused);
}

#[test]
fn upsert_codes_and_revocation() {
    assert_eq!(upsert_status_code(&UpsertEffect::Created), 201);
    assert_eq!(upsert_status_code(&UpsertEffect::Modified), 200);
    assert_eq!(upsert_status_code(&UpsertEffect::NotModified), 304);
    assert_eq!(upsert_status_code(&UpsertEffect::Unknown), 500);
    assert!(revoke_outcome(true, "k".to_string()).is_ok());
    assert!(matches!(revoke_outcome(false, "k".to_string()), Err(ApiError::NotFound(id)) if id == "k"));
}

#[test]
fn key_listing_hides_secrets() {
    let keys = vec![StoredApiKey {
        key_id: "id1".to_string(),
        hash: "h".to_string(),
        hash_version: "v1".to_string(),
        project_id: "p".to_string(),
        name: "key1".to_string(),
        created_at: 9,
        creator_user_id: Some("u".to_string()),
    }];
    let s = key_summaries(&keys);
    assert_eq!(s.len(), 1);
    assert_eq!(s[0].name, "key1");
    assert_eq!(s[0].id, "id1");
    assert_eq!(s[0].created_at, 9);
    assert_eq!(s[0].creator_user_id, Some("u".to_string()));
}

#[test]
fn bodies_with_keys_are_redacted() {
    assert_eq!(redact_body("{\"key\": \"sk_abc_def\"}"), "REDACTED");
    assert_eq!(redact_body("{\"name\": \"x\"}"), "{\"name\": \"x\"}");
    assert_eq!(redact_body(""), "");
}

#[test]
fn trigger_names() {
    assert_eq!(install_trigger_name(Some("mine".to_string())).ok(), Some("mine".to_string()));
    let generated = install_trigger_name(None).ok().unwrap();
    // adjective-noun-number
    assert_eq!(generated.split('-').count(), 3);
}

#[test]
fn cache_expiry() {
    let p = ExpirationPolicy { ttl_ms: 5_000 };
    assert_eq!(p.expire_after_create(true), 5_000);
    assert_eq!(p.expire_after_create(false), 0);
}

#[test]
fn pagination_limits() {
    assert_eq!(PaginationIn { cursor: None, limit: 0 }.limit(), 20);
    assert_eq!(PaginationIn { cursor: None, limit: 5 }.limit(), 5);
    assert_eq!(PaginationIn { cursor: None, limit: 0 }.paginated_query_limit(), 21);
    assert_eq!(PaginationIn { cursor: Some("c".to_string()), limit: 50 }.paginated_query_limit(), 51);
}

fn stored_run() -> Run {
    Run {
        id: "run_1".to_string(),
        trigger_id: "trig_1".to_string(),
        project_id: "prj_1".to_string(),
        created_at: 1_000,
        status: RunStatus::Succeeded,
        latest_attempt_id: Some("att_1".to_string()),
    }
}

#[test]
fn dispatcher_handler_holds_its_parts() {
    let ctx: ServiceContext<DispatcherService> = ServiceContext::new(Config::from_sections(Vec::new(), 5));
    let h = DispatcherAPIHandler::new(ctx, DispatchManager::new(3, "runs", "attempts"), "runs");
    assert_eq!(h.dispatch_manager.cell_id, 3);
    assert_eq!(h.dispatch_manager.attempt_store, "attempts");
    assert_eq!(h.run_store, "runs");
    assert_eq!(h.context.service_name(), "dispatcher");
}

#[test]
fn get_run_answers() {
    let r = get_run_result(Ok(Some(stored_run())), "run_1");
    assert!(matches!(r, Ok(run) if run.id == "run_1" && run.status == RunStatus::Succeeded));
    let r = get_run_result(Ok(None), "run_9");
    assert!(matches!(r, Err(DispatcherHandlerError::NotFound(id)) if id == "run_9"));
    let r = get_run_result(Err("down".to_string()), "run_1");
    assert!(matches!(r, Err(DispatcherHandlerError::Store(e)) if e == "down"));
    match get_run_result(Ok(None), "run_9") {
        Err(e) => assert!(matches!(e.into_status(), RpcStatus::NotFound(m) if m == "run_9")),
        Ok(_) => panic!("a missing run was found"),
    }
}

#[test]
fn generated_trigger_names_have_their_shape() {
    for _ in 0..50 {
        let name = match install_trigger_name(None) {
            Ok(n) => n,
            Err(_) => panic!("no name was generated"),
        };
        let chars: Vec<char> = name.chars().collect();
        let len = chars.len();
        assert!(len >= 10, "{name}");
        assert!(chars[0].is_ascii_lowercase(), "{name}");
        assert_eq!(chars[len - 5], '-', "{name}");
        assert!(chars[len - 6].is_ascii_lowercase(), "{name}");
        assert!(chars[..len - 5].iter().all(|c| c.is_ascii_lowercase() || *c == '-'), "{name}");
        assert!(chars[1..len - 6].contains(&'-'), "{name}");
        let number: String = chars[len - 4..].iter().collect();
        assert!(number.chars().all(|c| c.is_ascii_digit()), "{name}");
        assert_ne!(number, "0000");
    }
    assert!(matches!(install_trigger_name(Some("mine".to_string())), Ok(n) if n == "mine"));
}
