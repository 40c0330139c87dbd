use backend::http::{handle_validation_errors, ErrorBody, FieldMessage, FieldViolations, Violation};
use backend::storage::RepoError;
use backend::store::{
    generate_api_token, map_store_service_error, normalize_domain, public_store_responses,
    CreateStoreRequest, CreateStoreStep, DeleteStoreRequest, Store, StoreResponse, StoreService,
    StoreServiceError, UpdateStoreNext, UpdateStoreRequest,
};

const USER: u128 = 0x67e5504410b1426f9247bb680e5fe0c8;
const OTHER: u128 = 0x11111111222233334444555555555555;
const STORE: u128 = 0xaaaaaaaabbbbccccddddeeeeeeeeeeee;

fn store(owner: &str, domain: Option<&str>) -> Store {
    Store {
        id: "aaaaaaaa-bbbb-cccc-dddd-eeeeeeeeeeee".to_string(),
        user_id: owner.to_string(),
        name: "Shop".to_string(),
        domain: domain.map(|d| d.to_string()),
        description: Some("desc".to_string()),
        api_token: Some("tok".to_string()),
        status: "active".to_string(),
        created_at: "2024-01-01".to_string(),
        updated_at: None,
    }
}

const USER_TEXT: &str = "67e55044-10b1-426f-9247-bb680e5fe0c8";

fn repo_error(msg: &str, db: Option<&str>) -> RepoError {
    RepoError { message: msg.to_string(), database_message: db.map(|d| d.to_string()) }
}

fn messages(body: &ErrorBody) -> Vec<(String, String)> {
    match body {
        ErrorBody::Errors(v) => v.iter().map(|f: &FieldMessage| (f.field.clone(), f.message.clone())).collect(),
        ErrorBody::Error(m) => vec![("error".to_string(), m.clone())],
    }
}

#[test]
fn public_response_hides_the_token() {
    let r = StoreResponse::public(store(USER_TEXT, None));
    assert_eq!(r.api_token, None);
    assert_eq!(r.name, "Shop");
    assert_eq!(r.status, "active");
}

#[test]
fn owner_response_shows_the_token() {
    let r = StoreResponse::with_api_token(store(USER_TEXT, None));
    assert_eq!(r.api_token.as_deref(), Some("tok"));
    let p = StoreResponse::public(store(USER_TEXT, None));
    assert_eq!(StoreResponse { api_token: None, ..r }, p);
}

#[test]
fn from_store_is_the_public_view() {
    let r: StoreResponse = StoreResponse::from(store(USER_TEXT, None));
    assert_eq!(r, StoreResponse::public(store(USER_TEXT, None)));
}

#[test]
fn listing_responses_keep_order_and_hide_tokens() {
    let mut second = store(USER_TEXT, None);
    second.name = "Second".to_string();
    let r = public_store_responses(vec![store(USER_TEXT, None), second]);
    assert_eq!(r.len(), 2);
    assert_eq!(r[0].name, "Shop");
    assert_eq!(r[1].name, "Second");
    assert!(r.iter().all(|s| s.api_token.is_none()));
}

#[test]
fn valid_store_request_passes() {
    let req = CreateStoreRequest { name: "Shop".to_string(), domain: Some("a.com".to_string()), description: None };
    assert!(req.validate().is_ok());
}

#[test]
fn store_request_errors_come_in_field_order() {
    let req = CreateStoreRequest {
        name: String::new(),
        domain: Some("d".repeat(256)),
        description: Some("x".repeat(2001)),
    };
    let errs = req.validate().unwrap_err();
    let e = handle_validation_errors(&errs);
    assert_eq!(e.status, 422);
    assert_eq!(
        messages(&e.body),
        vec![
            ("description".to_string(), "Description is too long".to_string()),
            ("domain".to_string(), "Domain is too long".to_string()),
            ("name".to_string(), "Store name is required".to_string()),
        ]
    );
}

#[test]
fn store_name_length_counts_characters() {
    let ok = UpdateStoreRequest { name: "é".repeat(255), domain: None, description: None };
    assert!(ok.validate().is_ok());
    let long = UpdateStoreRequest { name: "é".repeat(256), domain: None, description: None };
    assert!(long.validate().is_err());
}

#[test]
fn validation_messages_fall_back_to_codes_and_are_joined() {
    let errs = vec![FieldViolations {
        field: "name".to_string(),
        violations: vec![
            Violation { code: "length".to_string(), message: Some("too long".to_string()) },
            Violation { code: "regex".to_string(), message: None },
        ],
    }];
    let e = handle_validation_errors(&errs);
    assert_eq!(messages(&e.body), vec![("name".to_string(), "too long, regex".to_string())]);
}

#[test]
fn unconfirmed_deletion_is_refused() {
    let e = DeleteStoreRequest { confirm: Some(false) }.check_confirmed().unwrap_err();
    assert_eq!(e.status, 400);
    assert_eq!(e.body, ErrorBody::Error("Deletion was not confirmed".to_string()));
    assert!(DeleteStoreRequest { confirm: None }.check_confirmed().is_ok());
    assert!(DeleteStoreRequest { confirm: Some(true) }.check_confirmed().is_ok());
}

#[test]
fn store_error_texts() {
    assert_eq!(StoreServiceError::NotFound.message(), "Store not found");
    assert_eq!(StoreServiceError::DomainAlreadyExists.message(), "Domain already exists");
    assert_eq!(StoreServiceError::InternalError("boom".to_string()).message(), "Internal error: boom");
}

#[test]
fn store_errors_map_to_http_answers() {
    let e = map_store_service_error(StoreServiceError::NotFound);
    assert_eq!((e.status, e.body), (404, ErrorBody::Error("Store not found".to_string())));
    let e = map_store_service_error(StoreServiceError::DomainAlreadyExists);
    assert_eq!(e.status, 409);
    assert_eq!(messages(&e.body), vec![("domain".to_string(), "Domain already exists".to_string())]);
    let e = map_store_service_error(StoreServiceError::InternalError("secret detail".to_string()));
    assert_eq!((e.status, e.body), (500, ErrorBody::Error("Internal server error".to_string())));
}

#[test]
fn domains_are_trimmed_lowercased_and_dropped_when_empty() {
    assert_eq!(normalize_domain(Some("  Example.COM \t".to_string())).as_deref(), Some("example.com"));
    assert_eq!(normalize_domain(Some(" \n ".to_string())), None);
    assert_eq!(normalize_domain(Some(String::new())), None);
    assert_eq!(normalize_domain(None), None);
}

#[test]
fn api_tokens_are_32_lowercase_hex_digits() {
    let a = generate_api_token();
    let b = generate_api_token();
    assert_eq!(a.len(), 32);
    assert!(a.chars().all(|c| c.is_ascii_digit() || ('a'..='f').contains(&c)));
    assert_ne!(a, b);
    assert_eq!(&a[12..13], "4");
    assert!(matches!(&a[16..17], "8" | "9" | "a" | "b"));
}

#[test]
fn create_with_domain_checks_the_normalized_domain() {
    let step = StoreService::create_store(USER, "Shop".to_string(), Some(" My.Shop ".to_string()), None);
    let check = match step {
        CreateStoreStep::CheckDomain(c) => c,
        CreateStoreStep::Insert(_) => panic!("expected a domain check"),
    };
    assert_eq!(check.domain, "my.shop");
    let taken = StoreService::create_store(USER, "Shop".to_string(), Some("my.shop".to_string()), None);
    if let CreateStoreStep::CheckDomain(c) = taken {
        assert_eq!(c.resume(Ok(Some(store(USER_TEXT, Some("my.shop"))))).unwrap_err(), StoreServiceError::DomainAlreadyExists);
    } else {
        panic!("expected a domain check");
    }
    let insert = check.resume(Ok(None)).unwrap();
    let n = &insert.new_store;
    assert_eq!(n.user_id, USER_TEXT);
    assert_eq!(n.domain.as_deref(), Some("my.shop"));
    assert_eq!(n.name, "Shop");
    assert_eq!(n.api_token.as_ref().unwrap().len(), 32);
    assert_eq!(n.id.len(), 36);
}

#[test]
fn create_without_domain_inserts_right_away() {
    let step = StoreService::create_store(USER, "Shop".to_string(), Some("   ".to_string()), Some("d".to_string()));
    let insert = match step {
        CreateStoreStep::Insert(i) => i,
        CreateStoreStep::CheckDomain(_) => panic!("expected an insert"),
    };
    assert_eq!(insert.new_store.domain, None);
    assert_eq!(insert.new_store.description.as_deref(), Some("d"));
    let created = insert.finish(Ok(store(USER_TEXT, None))).unwrap();
    assert_eq!(created.name, "Shop");
}

#[test]
fn create_maps_foreign_key_refusals_to_not_found() {
    let step = StoreService::create_store(USER, "Shop".to_string(), None, None);
    if let CreateStoreStep::Insert(i) = step {
        let r = i.finish(Err(repo_error("error returned from database", Some("FOREIGN KEY constraint failed"))));
        assert_eq!(r.unwrap_err(), StoreServiceError::NotFound);
    } else {
        panic!("expected an insert");
    }
    let step = StoreService::create_store(USER, "Shop".to_string(), None, None);
    if let CreateStoreStep::Insert(i) = step {
        let r = i.finish(Err(repo_error("disk full", Some("database or disk is full"))));
        assert_eq!(r.unwrap_err(), StoreServiceError::InternalError("disk full".to_string()));
    } else {
        panic!("expected an insert");
    }
}

#[test]
fn get_store_answers_only_the_owner() {
    let l = StoreService::get_store(USER, STORE);
    assert_eq!(l.id, "aaaaaaaa-bbbb-cccc-dddd-eeeeeeeeeeee");
    assert_eq!(l.finish(Ok(Some(store(USER_TEXT, None)))).unwrap().name, "Shop");
    let foreign = StoreService::get_store(OTHER, STORE).finish(Ok(Some(store(USER_TEXT, None))));
    assert_eq!(foreign.unwrap_err(), StoreServiceError::NotFound);
    let missing = StoreService::get_store(USER, STORE).finish(Ok(None));
    assert_eq!(missing.unwrap_err(), StoreServiceError::NotFound);
    let failed = StoreService::get_store(USER, STORE).finish(Err(repo_error("db down", None)));
    assert_eq!(failed.unwrap_err(), StoreServiceError::InternalError("db down".to_string()));
}

#[test]
fn list_stores_asks_for_the_users_stores() {
    let l = StoreService::list_stores(USER);
    assert_eq!(l.user_id, USER_TEXT);
    assert_eq!(l.finish(Ok(vec![store(USER_TEXT, None)])).unwrap().len(), 1);
    let l = StoreService::list_stores(USER);
    assert_eq!(l.finish(Err(repo_error("x", None))).unwrap_err(), StoreServiceError::InternalError("x".to_string()));
}

#[test]
fn update_keeps_token_and_status_and_checks_changed_domains() {
    let u = StoreService::update_store(USER, STORE, "New".to_string(), Some("New.com".to_string()), None);
    let next = u.resume(Ok(Some(store(USER_TEXT, Some("old.com"))))).unwrap();
    let check = match next {
        UpdateStoreNext::CheckDomain(c) => c,
        UpdateStoreNext::Apply(_) => panic!("expected a domain check"),
    };
    assert_eq!(check.domain, "new.com");
    assert_eq!(check.update.api_token.as_deref(), Some("tok"));
    assert_eq!(check.update.status, "active");
    assert_eq!(check.update.name, "New");
    let apply = check.resume(Ok(None)).unwrap();
    assert_eq!(apply.finish(Ok(None)).unwrap_err(), StoreServiceError::NotFound);

    let same = StoreService::update_store(USER, STORE, "New".to_string(), Some("OLD.com".to_string()), None);
    match same.resume(Ok(Some(store(USER_TEXT, Some("old.com"))))).unwrap() {
        UpdateStoreNext::Apply(a) => assert_eq!(a.update.domain.as_deref(), Some("old.com")),
        UpdateStoreNext::CheckDomain(_) => panic!("an unchanged domain needs no check"),
    }
}

#[test]
fn update_of_a_foreign_store_is_not_found() {
    let u = StoreService::update_store(OTHER, STORE, "New".to_string(), None, None);
    assert_eq!(u.resume(Ok(Some(store(USER_TEXT, None)))).unwrap_err(), StoreServiceError::NotFound);
}

#[test]
fn update_to_a_taken_domain_is_refused() {
    let u = StoreService::update_store(USER, STORE, "New".to_string(), Some("taken.com".to_string()), None);
    if let UpdateStoreNext::CheckDomain(c) = u.resume(Ok(Some(store(USER_TEXT, None)))).unwrap() {
        assert_eq!(c.resume(Ok(Some(store(USER_TEXT, Some("taken.com"))))).unwrap_err(), StoreServiceError::DomainAlreadyExists);
    } else {
        panic!("expected a domain check");
    }
}

#[test]
fn delete_reports_nothing_deleted_as_not_found() {
    let d = StoreService::delete_store(USER, STORE).resume(Ok(Some(store(USER_TEXT, None)))).unwrap();
    assert_eq!(d.id, "aaaaaaaa-bbbb-cccc-dddd-eeeeeeeeeeee");
    assert_eq!(d.finish(Ok(false)).unwrap_err(), StoreServiceError::NotFound);
    let d = StoreService::delete_store(USER, STORE).resume(Ok(Some(store(USER_TEXT, None)))).unwrap();
    assert!(d.finish(Ok(true)).is_ok());
    let foreign = StoreService::delete_store(OTHER, STORE).resume(Ok(Some(store(USER_TEXT, None))));
    assert_eq!(foreign.unwrap_err(), StoreServiceError::NotFound);
}

#[test]
fn rotation_changes_only_the_token() {
    let a = StoreService::rotate_api_token(USER, STORE).resume(Ok(Some(store(USER_TEXT, Some("a.com"))))).unwrap();
    let u = &a.update;
    assert_eq!(u.name, "Shop");
    assert_eq!(u.domain.as_deref(), Some("a.com"));
    assert_eq!(u.description.as_deref(), Some("desc"));
    assert_eq!(u.status, "active");
    let t = u.api_token.as_ref().unwrap();
    assert_ne!(t, "tok");
    assert_eq!(t.len(), 32);
}
