use std::cell::RefCell;

use cronback::auth::{
    check_stored_key, new_key_record, ApiError, AuthError, AuthStore, Authenticator, HashVersion, SecretApiKey,
    StoredApiKey,
};
use cronback::auth_middleware::{
    ensure_admin, ensure_admin_for_project, ensure_authenticated, get_auth_key, get_auth_status,
    get_auth_status_finish, get_auth_status_step, ApiSvcConfig, AuthStep, AuthenticationState, AuthenticationStatus,
    OnBehalfOf,
};

#[test]
fn test_api_key() {
    let api_key = SecretApiKey::new("key1".to_string(), "supersecure".to_string());

    let serialized = api_key.unsafe_to_string();

    assert_eq!(serialized, "sk_key1_supersecure");

    let parsed_api_key = match SecretApiKey::from_str(&serialized) {
        Ok(k) => k,
        Err(e) => panic!("{}", e),
    };

    assert_eq!(api_key.key_id(), parsed_api_key.key_id());
    assert_eq!(api_key.unsafe_to_string(), parsed_api_key.unsafe_to_string());
}

#[test]
fn test_secret_api_key_regex_matching() {
    assert!(SecretApiKey::matches(SecretApiKey::generate().unsafe_to_string().as_ref()));
    assert!(SecretApiKey::matches(SecretApiKey::generate().unsafe_to_string().as_ref()));
    assert!(!SecretApiKey::matches("sk_key1_plain"));
}

#[test]
fn parse_rejects_missing_prefix() {
    match SecretApiKey::from_str("pk_key1_secret") {
        Err(e) => assert_eq!(e, "API key doesn't start with sk_"),
        Ok(_) => panic!("accepted a key without the prefix"),
    }
}

#[test]
fn parse_rejects_missing_separator() {
    match SecretApiKey::from_str("sk_key1secret") {
        Err(e) => assert_eq!(e, "Malformed API key"),
        Ok(_) => panic!("accepted a key without a separator"),
    }
}

#[test]
fn parse_splits_at_first_underscore() {
    let key = SecretApiKey::from_str("sk_id_sec_ret").ok().unwrap();
    assert_eq!(key.key_id(), "id");
    assert_eq!(key.unsafe_to_string(), "sk_id_sec_ret");
}

#[test]
fn generated_keys_are_simple_uuids() {
    let key = SecretApiKey::generate();
    assert_eq!(key.key_id().len(), 32);
    assert!(key.key_id().chars().all(|c| c.is_ascii_hexdigit() && !c.is_ascii_uppercase()));
    let text = key.unsafe_to_string();
    let parsed = SecretApiKey::from_str(&text).ok().unwrap();
    assert_eq!(parsed.key_id(), key.key_id());
}

#[test]
fn hash_is_base64_sha512_of_secret() {
    let key = SecretApiKey::new("key1".to_string(), "supersecure".to_string());
    let h = key.hash(HashVersion::V1);
    assert_eq!(h.key_id, "key1");
    // SHA-512 gives 64 bytes: 88 base64 characters with padding.
    assert_eq!(h.hash.len(), 88);
    assert!(h.hash.ends_with("=="));
    let other = SecretApiKey::new("key1".to_string(), "supersecurf".to_string()).hash(HashVersion::V1);
    assert_ne!(h.hash, other.hash);
    // The hash of the empty secret is the well-known SHA-512 of no bytes.
    let empty = SecretApiKey::new("k".to_string(), String::new()).hash(HashVersion::V1);
    assert_eq!(
        empty.hash,
        "z4PhNX7vuL3xVChQ1m2AB9Yg5AULVxXcg/SpIdNs6c5H0NE8XYXysP+DGNKHfuwvY7kxvUdBeoGlODJ6+SfaPg=="
    );
}

#[test]
fn hash_version_names() {
    assert_eq!(HashVersion::V1.to_text(), "v1");
    assert!(matches!(HashVersion::from_str("v1"), Ok(HashVersion::V1)));
    match HashVersion::from_str("v2") {
        Err(e) => assert_eq!(e, "Invalid version: v2"),
        Ok(_) => panic!("accepted an unknown version"),
    }
}

fn record_for(key: &SecretApiKey, project: &str) -> StoredApiKey {
    let h = key.hash(HashVersion::V1);
    StoredApiKey {
        key_id: h.key_id,
        hash: h.hash,
        hash_version: "v1".to_string(),
        project_id: project.to_string(),
        name: "key".to_string(),
        created_at: 0,
        creator_user_id: None,
    }
}

#[test]
fn authenticate_known_key() {
    let key = SecretApiKey::new("key1".to_string(), "secret".to_string());
    let rec = record_for(&key, "prj_1");
    assert_eq!(check_stored_key(&key, Some(rec)).ok(), Some("prj_1".to_string()));
}

#[test]
fn authenticate_unknown_key() {
    let key = SecretApiKey::from_str("sk_notfound_secret4").ok().unwrap();
    match check_stored_key(&key, None) {
        Err(AuthError::AuthFailed(m)) => assert_eq!(m, "key_id doesn't exist"),
        _ => panic!("unknown key accepted"),
    }
}

#[test]
fn authenticate_wrong_secret() {
    let key = SecretApiKey::new("key1".to_string(), "secret".to_string());
    let rec = record_for(&key, "prj_1");
    let wrong = SecretApiKey::from_str("sk_key1_wrongsecret").ok().unwrap();
    match check_stored_key(&wrong, Some(rec)) {
        Err(AuthError::AuthFailed(m)) => assert_eq!(m, "Mismatched secret key"),
        _ => panic!("wrong secret accepted"),
    }
}

#[test]
fn authenticate_unknown_hash_version() {
    let key = SecretApiKey::new("key1".to_string(), "secret".to_string());
    let mut rec = record_for(&key, "prj_1");
    rec.hash_version = "v9".to_string();
    match check_stored_key(&key, Some(rec)) {
        Err(AuthError::Internal(m)) => assert_eq!(m, "Unknown version: v9"),
        _ => panic!("unknown version accepted"),
    }
}

#[test]
fn generated_key_authenticates_to_its_project() {
    let project = "prj_42".to_string();
    let (key, rec) = new_key_record("key1".to_string(), None, &project);
    assert_eq!(rec.key_id, *key.key_id());
    assert_eq!(rec.hash_version, "v1");
    assert_eq!(rec.name, "key1");
    assert_eq!(check_stored_key(&key, Some(rec)).ok(), Some(project));
}

#[test]
fn auth_errors_map_to_api_errors() {
    assert!(matches!(ApiError::from(AuthError::Database("x".to_string())), ApiError::ServiceUnavailable));
    assert!(matches!(ApiError::from(AuthError::Internal("x".to_string())), ApiError::ServiceUnavailable));
    assert!(matches!(ApiError::from(AuthError::AuthFailed("x".to_string())), ApiError::Unauthorized));
}

#[test]
fn auth_key_header_parsing() {
    assert!(matches!(get_auth_key(None), Ok(None)));
    assert!(matches!(get_auth_key(Some("")), Ok(None)));
    match get_auth_key(Some("Bearer sk_a_b")) {
        Ok(Some(k)) => assert_eq!(k, "sk_a_b"),
        _ => panic!("bearer key not read"),
    }
    match get_auth_key(Some("Bearer wrong key")) {
        Ok(Some(k)) => assert_eq!(k, "wrong key"),
        _ => panic!("bearer key not read"),
    }
    match get_auth_key(Some("Token sk_a_b")) {
        Err(ApiError::BadRequest(m)) => assert_eq!(
            m,
            "Authentication header is malformed, please use `Authorization: Bearer sk_...`"
        ),
        _ => panic!("malformed header accepted"),
    }
    assert!(matches!(get_auth_key(Some("Bearer")), Err(ApiError::BadRequest(_))));
}

fn config() -> ApiSvcConfig {
    ApiSvcConfig {
        address: String::new(),
        port: 123,
        database_uri: String::new(),
        admin_api_keys: vec!["adminkey1".to_string(), "adminkey2".to_string()],
        log_request_body: false,
        log_response_body: false,
    }
}

/// Runs the whole authentication decision with a key store that knows the
/// given records; answers with the HTTP status the guard gives.
fn status_code(
    guard: fn(&AuthenticationStatus) -> Result<(), ApiError>,
    records: &[StoredApiKey],
    auth_header: Option<&str>,
    on_behalf_of: OnBehalfOf,
) -> u16 {
    let store = MemoryStore { keys: RefCell::new(records.iter().map(copy_record).collect()), fail: false };
    let state = AuthenticationState::new(Authenticator::new(store), config());
    let status = match get_auth_status(&state, auth_header, on_behalf_of) {
        Ok(s) => s,
        Err(ApiError::BadRequest(_)) => return 400,
        Err(_) => return 503,
    };
    match guard(&status) {
        Ok(()) => 200,
        Err(ApiError::BadRequest(_)) => 400,
        Err(ApiError::Unauthorized) => 401,
        Err(ApiError::Forbidden) => 403,
        Err(_) => 500,
    }
}

fn run_guard_scenarios(guard: fn(&AuthenticationStatus) -> Result<(), ApiError>, expected: [u16; 5]) {
    let prj1 = "prj_1".to_string();
    let (key, rec) = new_key_record("test".to_string(), None, &prj1);
    let records = vec![rec];
    let bearer = format!("Bearer {}", key.unsafe_to_string());
    let unknown = format!("Bearer {}", SecretApiKey::generate().unsafe_to_string());
    let [unauthenticated, authenticated, admin_no_project, admin_with_project, unknown_secret_key] = expected;
    assert_eq!(status_code(guard, &records, None, OnBehalfOf::Absent), unauthenticated);
    assert_eq!(status_code(guard, &records, Some(&bearer), OnBehalfOf::Absent), authenticated);
    assert_eq!(status_code(guard, &records, Some("Bearer adminkey1"), OnBehalfOf::Absent), admin_no_project);
    assert_eq!(
        status_code(guard, &records, Some("Bearer adminkey1"), OnBehalfOf::Project(prj1.clone())),
        admin_with_project
    );
    assert_eq!(
        status_code(guard, &records, Some(&unknown), OnBehalfOf::Project(prj1.clone())),
        unknown_secret_key
    );
    // A malformed secret key is treated as an unknown secret key.
    assert_eq!(status_code(guard, &records, Some("Bearer wrong key"), OnBehalfOf::Invalid), unknown_secret_key);
    // A malformed authorization header.
    let token = format!("Token {}", key.unsafe_to_string());
    assert_eq!(status_code(guard, &records, Some(&token), OnBehalfOf::Project(prj1.clone())), 400);
    // A malformed on-behalf-of project id.
    assert_eq!(status_code(guard, &records, Some("Bearer adminkey1"), OnBehalfOf::Invalid), 400);
}

#[test]
fn test_ensure_authenticated() {
    run_guard_scenarios(ensure_authenticated, [401, 200, 400, 200, 401]);
}

#[test]
fn test_ensure_admin() {
    run_guard_scenarios(ensure_admin, [401, 403, 200, 200, 401]);
}

#[test]
fn test_ensure_admin_for_project() {
    run_guard_scenarios(ensure_admin_for_project, [401, 403, 400, 200, 401]);
}

#[test]
fn status_project_ids() {
    assert_eq!(AuthenticationStatus::Authenticated("p".to_string()).project_id(), Some("p".to_string()));
    assert_eq!(AuthenticationStatus::Admin(Some("q".to_string())).project_id(), Some("q".to_string()));
    assert_eq!(AuthenticationStatus::Admin(None).project_id(), None);
    assert_eq!(AuthenticationStatus::Unauthenticated.project_id(), None);
}

fn copy_record(r: &StoredApiKey) -> StoredApiKey {
    StoredApiKey {
        key_id: r.key_id.clone(),
        hash: r.hash.clone(),
        hash_version: r.hash_version.clone(),
        project_id: r.project_id.clone(),
        name: r.name.clone(),
        created_at: r.created_at,
        creator_user_id: r.creator_user_id.clone(),
    }
}

/// A key store that keeps records in memory, in insertion order.
struct MemoryStore {
    keys: RefCell<Vec<StoredApiKey>>,
    fail: bool,
}

impl AuthStore for MemoryStore {
    fn save_key(&self, key: StoredApiKey) -> Result<(), String> {
        if self.fail {
            return Err("store down".to_string());
        }
        self.keys.borrow_mut().push(key);
        Ok(())
    }

    fn get_key(&self, key_id: &str) -> Result<Option<StoredApiKey>, String> {
        if self.fail {
            return Err("store down".to_string());
        }
        Ok(self.keys.borrow().iter().find(|k| k.key_id == key_id).map(copy_record))
    }

    fn delete_key(&self, key_id: &str, project: &str) -> Result<bool, String> {
        if self.fail {
            return Err("store down".to_string());
        }
        let mut keys = self.keys.borrow_mut();
        let before = keys.len();
        keys.retain(|k| !(k.key_id == key_id && k.project_id == project));
        Ok(keys.len() != before)
    }

    fn list_keys(&self, project: &str) -> Result<Vec<StoredApiKey>, String> {
        if self.fail {
            return Err("store down".to_string());
        }
        Ok(self.keys.borrow().iter().filter(|k| k.project_id == project).map(copy_record).collect())
    }
}

#[test]
fn test_auth_store() {
    let store = MemoryStore { keys: RefCell::new(Vec::new()), fail: false };
    let prj1 = "prj_1".to_string();
    let prj2 = "prj_2".to_string();
    let authenticator = Authenticator::new(store);

    let key1 = authenticator.gen_key("key1".to_string(), None, &prj1).ok().unwrap();
    let key2 = authenticator.gen_key("key2".to_string(), None, &prj2).ok().unwrap();
    let key3 = authenticator.gen_key("key3".to_string(), None, &prj1).ok().unwrap();
    let key4 = authenticator.gen_key("key4".to_string(), None, &prj2).ok().unwrap();

    assert_eq!(authenticator.authenticate(&key1).ok(), Some(prj1.clone()));
    assert_eq!(authenticator.authenticate(&key2).ok(), Some(prj2.clone()));
    assert_eq!(authenticator.authenticate(&key3).ok(), Some(prj1.clone()));
    assert_eq!(authenticator.authenticate(&key4).ok(), Some(prj2.clone()));

    // Unknown key id
    let key5 = SecretApiKey::from_str("sk_notfound_secret4").ok().unwrap();
    assert!(matches!(authenticator.authenticate(&key5), Err(AuthError::AuthFailed(_))));

    // Wrong secret
    let key5 = SecretApiKey::from_str("sk_key1_wrongsecret").ok().unwrap();
    assert!(matches!(authenticator.authenticate(&key5), Err(AuthError::AuthFailed(_))));

    // Delete a key
    assert_eq!(authenticator.revoke_key(key1.key_id(), &prj1).ok(), Some(true));
    assert!(matches!(authenticator.authenticate(&key1), Err(AuthError::AuthFailed(_))));

    // List keys
    let names: Vec<String> = authenticator.list_keys(&prj2).ok().unwrap().into_iter().map(|k| k.name).collect();
    assert_eq!(names, vec!["key2".to_string(), "key4".to_string()]);
}

#[test]
fn store_failures_are_database_errors() {
    let store = MemoryStore { keys: RefCell::new(Vec::new()), fail: true };
    let authenticator = Authenticator::new(store);
    let prj = "prj_1".to_string();
    assert!(matches!(authenticator.gen_key("k".to_string(), None, &prj), Err(AuthError::Database(_))));
    let key = SecretApiKey::generate();
    assert!(matches!(authenticator.authenticate(&key), Err(AuthError::Database(_))));
    assert!(matches!(authenticator.revoke_key("x", &prj), Err(AuthError::Database(_))));
    assert!(matches!(authenticator.list_keys(&prj), Err(AuthError::Database(_))));
}

#[test]
fn auth_steps_without_store() {
    let cfg = config();
    assert!(matches!(
        get_auth_status_step(Some("Bearer adminkey2"), OnBehalfOf::NotText, &cfg),
        Err(ApiError::BadRequest(m)) if m == "X-On-Behalf-Of header is not a valid UTF-8 string"
    ));
    assert!(matches!(
        get_auth_status_step(Some("Bearer sk_a_b"), OnBehalfOf::Absent, &cfg),
        Ok(AuthStep::Verify(k)) if k.key_id() == "a"
    ));
    assert!(matches!(
        get_auth_status_finish(Err(AuthError::Database("x".to_string()))),
        Ok(AuthenticationStatus::Unauthenticated)
    ));
    assert!(matches!(
        get_auth_status_finish(Err(AuthError::Internal("Unknown version: v9".to_string()))),
        Ok(AuthenticationStatus::Unauthenticated)
    ));
    assert!(matches!(
        get_auth_status_finish(Err(AuthError::AuthFailed("x".to_string()))),
        Ok(AuthenticationStatus::Unauthenticated)
    ));
}

#[test]
fn unavailable_store_leaves_caller_unauthenticated() {
    let store = MemoryStore { keys: RefCell::new(Vec::new()), fail: true };
    let state = AuthenticationState::new(Authenticator::new(store), config());
    let header = format!("Bearer {}", SecretApiKey::generate().unsafe_to_string());
    assert!(matches!(
        get_auth_status(&state, Some(&header), OnBehalfOf::Absent),
        Ok(AuthenticationStatus::Unauthenticated)
    ));
    // Admin keys never reach the store.
    assert!(matches!(
        get_auth_status(&state, Some("Bearer adminkey1"), OnBehalfOf::Absent),
        Ok(AuthenticationStatus::Admin(None))
    ));
}

#[test]
fn store_answers_pass_through() {
    assert_eq!(cronback::auth::store_answer::<bool>(Ok(true)).ok(), Some(true));
    assert_eq!(cronback::auth::store_answer::<bool>(Ok(false)).ok(), Some(false));
    match cronback::auth::store_answer::<u8>(Err("down".to_string())) {
        Err(AuthError::Database(m)) => assert_eq!(m, "down"),
        _ => panic!("a store failure was not a database error"),
    }
}
