use backend::clock::{seconds_between, Instant};
use backend::http::{json_error, json_rejection_error, ErrorBody};
use backend::catalog::{Product, ProductLookup, ProductServiceError, StoreAccess};
use backend::json::{json_is_array, json_is_object, json_is_valid};
use backend::llm::{ollama_chat_url, ollama_status_error, LlmError};
use backend::system::{HealthService, ServiceStatus};
use backend::store::normalize_domain;
use backend::text::{remove_char, strip_prefix, text_contains, trim};

fn product_in(store_id: &str) -> Product {
    Product {
        id: "p".to_string(),
        store_id: store_id.to_string(),
        name: "Shirt".to_string(),
        category: None,
        description: None,
        specs: None,
        manual: None,
        faq: None,
        status: "active".to_string(),
        external_id: None,
        source: "manual".to_string(),
        created_at: "t".to_string(),
        updated_at: "t".to_string(),
    }
}

#[test]
fn uuids_print_hyphenated_lowercase_and_parse_back() {
    let id: u128 = 0x67E5504410B1426F9247BB680E5FE0C8;
    let a = StoreAccess::new(1, id);
    assert_eq!(a.store_id, "67e55044-10b1-426f-9247-bb680e5fe0c8");
    let l = ProductLookup::new(1, 2);
    let found = l.resume(Ok(Some(product_in(&a.store_id)))).unwrap();
    assert_eq!(found.access.store_id, a.store_id);
    let found = l.resume(Ok(Some(product_in("67E5504410B1426F9247BB680E5FE0C8")))).unwrap();
    assert_eq!(found.access.store_id, "67e55044-10b1-426f-9247-bb680e5fe0c8");
    let broken = l.resume(Ok(Some(product_in("not-a-uuid"))));
    assert_eq!(broken.unwrap_err(), ProductServiceError::InternalError("Invalid store_id format".to_string()));
}

#[test]
fn text_helpers() {
    assert_eq!(trim("  a b \n"), "a b");
    assert_eq!(trim(" \t "), "");
    assert_eq!(normalize_domain(Some(" ÀbC ".to_string())).as_deref(), Some("àbc"));
    assert!(text_contains("UNIQUE constraint failed: users.email", "users.email"));
    assert!(!text_contains("abc", "abd"));
    assert!(text_contains("abc", ""));
    assert_eq!(strip_prefix("Bearer xyz", "Bearer ").as_deref(), Some("xyz"));
    assert_eq!(strip_prefix("Bear", "Bearer "), None);
    assert_eq!(remove_char("a-b--c", '-'), "abc");
}

#[test]
fn json_kinds() {
    assert!(json_is_object("{\"a\": 1}"));
    assert!(!json_is_object("[1]"));
    assert!(json_is_array("[]"));
    assert!(json_is_valid("null"));
    assert!(!json_is_valid("{"));
}

#[test]
fn error_bodies() {
    let e = json_error(404, "Store not found");
    assert_eq!((e.status, e.body), (404, ErrorBody::Error("Store not found".to_string())));
    let e = json_rejection_error("Failed to parse the request body as JSON");
    assert_eq!(e.status, 422);
    match e.body {
        ErrorBody::Errors(v) => {
            assert_eq!(v.len(), 1);
            assert_eq!(v[0].field, "detail");
            assert_eq!(v[0].message, "Failed to parse the request body as JSON");
        },
        _ => panic!("expected field errors"),
    }
}

#[test]
fn uptime_rounds_toward_zero() {
    let a = Instant { secs: 100, nanos: 900_000_000 };
    let b = Instant { secs: 102, nanos: 100_000_000 };
    assert_eq!(seconds_between(&a, &b), 1);
    assert_eq!(seconds_between(&b, &a), -1);
    assert_eq!(seconds_between(&a, &a), 0);
}

#[test]
fn health_reports_every_component_pending() {
    let h = HealthService::report("0.1.0".to_string(), 42);
    assert_eq!(h.version, "0.1.0");
    assert_eq!(h.uptime_seconds, 42);
    for s in [&h.database, &h.qdrant, &h.llm, &h.embeddings] {
        assert_eq!(*s, ServiceStatus::pending());
    }
    let started = Instant { secs: 1_700_000_000, nanos: 0 };
    let now = HealthService::read(&started, "v".to_string());
    assert!(now.uptime_seconds > 0);
    assert_eq!(ServiceStatus::ok(), ServiceStatus { status: "ok".to_string(), detail: None });
}

#[test]
fn ollama_helpers() {
    assert_eq!(ollama_chat_url("http://localhost:11434"), "http://localhost:11434/api/chat");
    assert_eq!(ollama_status_error("404 Not Found", "no model"), LlmError::Provider("Status 404 Not Found: no model".to_string()));
    assert_eq!(LlmError::Network("x".to_string()).message(), "Network error: x");
    assert_eq!(LlmError::Provider("y".to_string()).message(), "Provider error: y");
}

#[test]
fn representable_instants_and_health_at_a_given_time() {
    let start = Instant { secs: 100, nanos: 0 };
    assert!(start.is_representable());
    assert!(!Instant { secs: 9_000_000_000_000, nanos: 0 }.is_representable());
    assert!(!Instant { secs: 0, nanos: 1_000_000_000 }.is_representable());
    let h = HealthService::read_at(&start, &Instant { secs: 161, nanos: 500 }, "1.2.3".to_string());
    assert_eq!(h.uptime_seconds, 61);
    assert_eq!(h.version, "1.2.3");
}

#[test]
fn unicode_spaces_are_trimmed() {
    assert_eq!(trim("\u{3000}\u{a0}shop\u{2029}\u{85}"), "shop");
    assert_eq!(trim("\u{200b}x"), "\u{200b}x");
}

#[test]
fn success_statuses_are_the_2xx_class() {
    assert!(backend::llm::is_success_status(200));
    assert!(backend::llm::is_success_status(299));
    assert!(!backend::llm::is_success_status(300));
    assert!(!backend::llm::is_success_status(199));
}
