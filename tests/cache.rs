use nx_cache_server::auth::{authenticate, extract_bearer};
use nx_cache_server::config::{AwsStorageConfig, ConfigError, ConfigValidator, ServerConfig};
use nx_cache_server::errors::{AppError, ServerError};
use nx_cache_server::handlers::{
    from_storage_error, health_check, retrieve_artifact, retrieve_outcome, store_artifact,
    store_outcome, store_precheck,
};
use nx_cache_server::service::{handle, route, Method, Request, Response, Route};
use nx_cache_server::storage::{
    presence_of, readable_from, write_permitted, BackendLookup, MemoryStorage, StorageError,
};
use nx_cache_server::text::{same_text, starts_with};
use nx_cache_server::tokens::{secrets_equal, RegistryError, TokenRegistry};
use nx_cache_server::validation::{validate_hash, MAX_HASH_LEN};

fn registry(config: &str) -> TokenRegistry {
    TokenRegistry::parse(config).expect("valid token configuration")
}

fn request(method: Method, path: &str, auth: Option<&str>, body: &[u8]) -> Request {
    Request {
        method,
        path: path.to_string(),
        authorization: auth.map(|a| a.to_string()),
        body: body.to_vec(),
    }
}

#[test]
fn hash_accepts_hex_and_alphanumerics() {
    assert_eq!(validate_hash("deadbeef"), Ok(()));
    assert_eq!(validate_hash("DEADbeef0123456789"), Ok(()));
    assert_eq!(validate_hash("doesnotexist"), Ok(()));
    assert_eq!(validate_hash(&"a".repeat(MAX_HASH_LEN)), Ok(()));
}

#[test]
fn hash_rejects_malformed_keys() {
    assert_eq!(validate_hash(""), Err(ServerError::BadRequest));
    assert_eq!(validate_hash(&"a".repeat(MAX_HASH_LEN + 1)), Err(ServerError::BadRequest));
    assert_eq!(validate_hash("../etc"), Err(ServerError::BadRequest));
    assert_eq!(validate_hash("dead beef"), Err(ServerError::BadRequest));
    assert_eq!(validate_hash("déad"), Err(ServerError::BadRequest));
}

#[test]
fn text_helpers() {
    assert!(starts_with("Bearer abc", "Bearer "));
    assert!(!starts_with("Bear", "Bearer "));
    assert!(!starts_with("bearer abc", "Bearer "));
    assert!(same_text("abc", "abc"));
    assert!(!same_text("abc", "abd"));
    assert!(!same_text("abc", "ab"));
}

#[test]
fn secrets_compare_by_content() {
    assert!(secrets_equal("abc123", "abc123"));
    assert!(!secrets_equal("abc123", "abc124"));
    assert!(!secrets_equal("abc123", "abc1234"));
    assert!(!secrets_equal("", "x"));
    assert!(secrets_equal("", ""));
}

#[test]
fn registry_parses_named_and_anonymous_entries() {
    let r = registry("ci:abc,dev:x:y,plain");
    assert_eq!(r.len(), 3);
    assert_eq!(r.name_at(0), Some("ci".to_string()));
    assert_eq!(r.secret_at(0), "abc");
    assert_eq!(r.name_at(1), Some("dev".to_string()));
    assert_eq!(r.secret_at(1), "x:y");
    assert_eq!(r.name_at(2), None);
    assert_eq!(r.secret_at(2), "plain");
}

#[test]
fn registry_rejects_empty_secrets() {
    assert!(matches!(TokenRegistry::parse(""), Err(RegistryError::EmptySecret)));
    assert!(matches!(TokenRegistry::parse("a,,b"), Err(RegistryError::EmptySecret)));
    assert!(matches!(TokenRegistry::parse("name:"), Err(RegistryError::EmptySecret)));
    assert!(matches!(TokenRegistry::parse("abc,"), Err(RegistryError::EmptySecret)));
}

#[test]
fn registry_finds_first_matching_secret() {
    let r = registry("one:aaa,two:bbb,three:bbb");
    assert_eq!(r.find("aaa"), Some(0));
    assert_eq!(r.find("bbb"), Some(1));
    assert_eq!(r.find("ccc"), None);
    assert_eq!(r.find("aa"), None);
}

#[test]
fn bearer_extraction() {
    assert_eq!(extract_bearer("Bearer abc"), Some("abc"));
    assert_eq!(extract_bearer("Bearer "), Some(""));
    assert_eq!(extract_bearer("Basic abc"), None);
    assert_eq!(extract_bearer("bearer abc"), None);
    assert_eq!(extract_bearer("Bearerabc"), None);
}

#[test]
fn guard_rejects_missing_other_scheme_and_unknown_tokens() {
    let r = registry("abc123");
    assert_eq!(authenticate(&r, None), Err(ServerError::Unauthorized));
    assert_eq!(authenticate(&r, Some("Basic abc123")), Err(ServerError::Unauthorized));
    assert_eq!(authenticate(&r, Some("Bearer wrong")), Err(ServerError::Unauthorized));
    assert_eq!(authenticate(&r, Some("Bearer abc12")), Err(ServerError::Unauthorized));
    assert_eq!(authenticate(&r, Some("abc123")), Err(ServerError::Unauthorized));
}

#[test]
fn guard_admits_any_registered_token() {
    let r = registry("ci:first,second,dev:third");
    assert_eq!(authenticate(&r, Some("Bearer first")), Ok(Some("ci".to_string())));
    assert_eq!(authenticate(&r, Some("Bearer second")), Ok(None));
    assert_eq!(authenticate(&r, Some("Bearer third")), Ok(Some("dev".to_string())));
}

#[test]
fn memory_storage_is_write_once() {
    let mut s = MemoryStorage::new();
    assert!(!s.contains("k1"));
    assert_eq!(s.retrieve("k1"), Err(StorageError::NotFound));
    assert_eq!(s.store("k1", b"one".to_vec()), Ok(()));
    assert!(s.contains("k1"));
    assert_eq!(s.store("k1", b"two".to_vec()), Err(StorageError::AlreadyExists));
    assert_eq!(s.retrieve("k1"), Ok(b"one".to_vec()));
    assert_eq!(s.store("k2", Vec::new()), Ok(()));
    assert_eq!(s.retrieve("k2"), Ok(Vec::new()));
}

#[test]
fn backend_outcomes_map_to_storage_errors() {
    assert_eq!(presence_of(BackendLookup::Present), Ok(true));
    assert_eq!(presence_of(BackendLookup::Absent), Ok(false));
    assert_eq!(presence_of(BackendLookup::Fault), Err(StorageError::OperationFailed));
    assert_eq!(readable_from(BackendLookup::Present), Ok(()));
    assert_eq!(readable_from(BackendLookup::Absent), Err(StorageError::NotFound));
    assert_eq!(readable_from(BackendLookup::Fault), Err(StorageError::OperationFailed));
    assert_eq!(write_permitted(Ok(false)), Ok(()));
    assert_eq!(write_permitted(Ok(true)), Err(StorageError::AlreadyExists));
    assert_eq!(
        write_permitted(Err(StorageError::OperationFailed)),
        Err(StorageError::OperationFailed)
    );
}

#[test]
fn handler_decisions() {
    assert_eq!(store_precheck(Ok(false)), Ok(()));
    assert_eq!(store_precheck(Ok(true)), Err(ServerError::Conflict));
    assert_eq!(store_precheck(Err(StorageError::OperationFailed)), Err(ServerError::Internal));
    assert_eq!(store_outcome(Ok(())), Ok(()));
    assert_eq!(store_outcome(Err(StorageError::OperationFailed)), Err(ServerError::Conflict));
    assert_eq!(store_outcome(Err(StorageError::AlreadyExists)), Err(ServerError::Conflict));
    assert_eq!(retrieve_outcome(Ok(7u8)), Ok(7u8));
    assert_eq!(retrieve_outcome::<u8>(Err(StorageError::NotFound)), Err(ServerError::NotFound));
    assert_eq!(
        retrieve_outcome::<u8>(Err(StorageError::OperationFailed)),
        Err(ServerError::Internal)
    );
    assert_eq!(from_storage_error(StorageError::AlreadyExists), ServerError::Conflict);
}

#[test]
fn status_codes() {
    assert_eq!(ServerError::BadRequest.status_code(), 400);
    assert_eq!(ServerError::Unauthorized.status_code(), 401);
    assert_eq!(ServerError::NotFound.status_code(), 404);
    assert_eq!(ServerError::Conflict.status_code(), 409);
    assert_eq!(ServerError::Internal.status_code(), 500);
    assert_eq!(health_check(), (200, "OK"));
}

#[test]
fn store_then_retrieve_round_trip() {
    let mut s = MemoryStorage::new();
    let payload: Vec<u8> = vec![0, 255, 10, 13, 0];
    assert_eq!(store_artifact(&mut s, "abc", payload.clone()), Ok(()));
    assert_eq!(retrieve_artifact(&s, "abc"), Ok(payload));
    assert_eq!(store_artifact(&mut s, "empty", Vec::new()), Ok(()));
    assert_eq!(retrieve_artifact(&s, "empty"), Ok(Vec::new()));
}

#[test]
fn second_store_is_conflict() {
    let mut s = MemoryStorage::new();
    assert_eq!(store_artifact(&mut s, "abc", b"one".to_vec()), Ok(()));
    assert_eq!(store_artifact(&mut s, "abc", b"one".to_vec()), Err(ServerError::Conflict));
    assert_eq!(store_artifact(&mut s, "abc", b"two".to_vec()), Err(ServerError::Conflict));
    assert_eq!(retrieve_artifact(&s, "abc"), Ok(b"one".to_vec()));
}

#[test]
fn absent_key_is_not_found() {
    let s = MemoryStorage::new();
    assert_eq!(retrieve_artifact(&s, "cafe"), Err(ServerError::NotFound));
}

#[test]
fn malformed_key_is_bad_request_and_never_stored() {
    let mut s = MemoryStorage::new();
    assert_eq!(store_artifact(&mut s, "", b"x".to_vec()), Err(ServerError::BadRequest));
    assert_eq!(store_artifact(&mut s, "a.b", b"x".to_vec()), Err(ServerError::BadRequest));
    assert_eq!(retrieve_artifact(&s, "a.b"), Err(ServerError::BadRequest));
    assert!(!s.contains("a.b"));
    assert!(!s.contains(""));
}

#[test]
fn router_paths() {
    assert_eq!(route(Method::Get, "/health"), Route::Health);
    assert_eq!(route(Method::Put, "/health"), Route::MethodNotAllowed);
    assert_eq!(route(Method::Get, "/v1/cache/abc"), Route::Retrieve("abc".to_string()));
    assert_eq!(route(Method::Put, "/v1/cache/abc"), Route::Store("abc".to_string()));
    assert_eq!(route(Method::Other, "/v1/cache/abc"), Route::MethodNotAllowed);
    assert_eq!(route(Method::Get, "/v1/cache/"), Route::NoRoute);
    assert_eq!(route(Method::Get, "/v1/cache/a/b"), Route::NoRoute);
    assert_eq!(route(Method::Get, "/other"), Route::NoRoute);
}

fn send(r: &TokenRegistry, s: &mut MemoryStorage, req: Request) -> (u16, Vec<u8>) {
    let Response { status, body } = handle(r, s, req);
    (status, body)
}

#[test]
fn health_needs_no_authorization() {
    let mut s = MemoryStorage::new();
    for config in ["abc123", "a:b,c:d", "x"] {
        let r = registry(config);
        let got = send(&r, &mut s, request(Method::Get, "/health", None, b""));
        assert_eq!(got, (200, b"OK".to_vec()));
    }
}

#[test]
fn protected_routes_need_a_registered_token() {
    let r = registry("ci:abc123,other");
    let mut s = MemoryStorage::new();
    let put = |auth: Option<&str>| request(Method::Put, "/v1/cache/beef", auth, b"x");
    assert_eq!(send(&r, &mut s, put(None)).0, 401);
    assert_eq!(send(&r, &mut s, put(Some("Basic abc123"))).0, 401);
    assert_eq!(send(&r, &mut s, put(Some("Bearer nope"))).0, 401);
    assert_eq!(send(&r, &mut s, put(Some("Bearer other"))).0, 202);
    assert_eq!(send(&r, &mut s, put(Some("Bearer abc123"))).0, 409);
}

#[test]
fn end_to_end_scenario() {
    let r = registry("abc123");
    let mut s = MemoryStorage::new();
    let good = Some("Bearer abc123");
    let put = send(&r, &mut s, request(Method::Put, "/v1/cache/deadbeef", good, b"hello"));
    assert_eq!(put, (202, Vec::new()));
    let get = send(&r, &mut s, request(Method::Get, "/v1/cache/deadbeef", good, b""));
    assert_eq!(get, (200, b"hello".to_vec()));
    let again = send(&r, &mut s, request(Method::Put, "/v1/cache/deadbeef", good, b"hello"));
    assert_eq!(again.0, 409);
    let wrong = send(&r, &mut s, request(Method::Get, "/v1/cache/deadbeef", Some("Bearer wrong"), b""));
    assert_eq!(wrong.0, 401);
    let missing = send(&r, &mut s, request(Method::Get, "/v1/cache/doesnotexist", good, b""));
    assert_eq!(missing.0, 404);
}

#[test]
fn pipeline_bad_key_and_unknown_routes() {
    let r = registry("abc123");
    let mut s = MemoryStorage::new();
    let good = Some("Bearer abc123");
    assert_eq!(send(&r, &mut s, request(Method::Put, "/v1/cache/not-hex!", good, b"x")).0, 400);
    assert_eq!(send(&r, &mut s, request(Method::Get, "/nowhere", good, b"")).0, 404);
    assert_eq!(send(&r, &mut s, request(Method::Other, "/v1/cache/abc", good, b"")).0, 405);
}

fn server(port: u16, tokens: &str) -> ServerConfig {
    ServerConfig { port, service_access_token: tokens.to_string(), debug: false }
}

#[test]
fn server_config_validation() {
    assert_eq!(server(3000, "abc").validate(), Ok(()));
    assert_eq!(
        server(3000, "").validate(),
        Err(ConfigError::MissingField("service access token"))
    );
    assert_eq!(
        server(0, "abc").validate(),
        Err(ConfigError::Invalid("port must be greater than 0"))
    );
    assert!(matches!(server(3000, "a,,b").validate(), Err(ConfigError::Invalid(_))));
    assert_eq!(server(3000, "n:s").token_registry().unwrap().len(), 1);
}

fn aws() -> AwsStorageConfig {
    AwsStorageConfig {
        region: Some("eu-west-1".to_string()),
        access_key_id: None,
        secret_access_key: None,
        session_token: None,
        bucket_name: "cache".to_string(),
        endpoint_url: None,
        timeout_seconds: 30,
    }
}

#[test]
fn storage_config_validation() {
    assert_eq!(aws().validate(), Ok(()));
    let mut c = aws();
    c.bucket_name = String::new();
    assert_eq!(c.validate(), Err(ConfigError::MissingField("S3 bucket name")));
    let mut c = aws();
    c.endpoint_url = Some("ftp://x".to_string());
    assert!(matches!(c.validate(), Err(ConfigError::Invalid(_))));
    c.endpoint_url = Some("https://minio:9000".to_string());
    assert_eq!(c.validate(), Ok(()));
    c.endpoint_url = Some("http://minio:9000".to_string());
    assert_eq!(c.validate(), Ok(()));
    let mut c = aws();
    c.access_key_id = Some("id".to_string());
    assert_eq!(c.validate(), Err(ConfigError::MissingField("AWS_SECRET_ACCESS_KEY")));
    assert!(!c.uses_static_credentials());
    c.secret_access_key = Some("s".to_string());
    assert_eq!(c.validate(), Ok(()));
    assert!(c.uses_static_credentials());
    let mut c = aws();
    c.secret_access_key = Some("s".to_string());
    assert_eq!(c.validate(), Err(ConfigError::MissingField("AWS_ACCESS_KEY_ID")));
    assert_eq!(aws().validate_with_region(false), Err(ConfigError::MissingField("AWS_REGION")));
    assert_eq!(aws().validate_with_region(true), Ok(()));
}

#[test]
fn app_error_conversions() {
    assert!(matches!(AppError::from(StorageError::NotFound), AppError::Storage(StorageError::NotFound)));
    assert!(matches!(
        AppError::from(ConfigError::MissingField("x")),
        AppError::Config(ConfigError::MissingField("x"))
    ));
}
