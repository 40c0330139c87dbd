use backend::catalog::{
    check_json_fields, map_product_service_error, product_responses, CreateProductRequest, Product,
    ProductResponse, ProductService, ProductServiceError, UpdateProductRequest,
};
use backend::http::{handle_validation_errors, ErrorBody};
use backend::storage::RepoError;
use backend::store::Store;

const USER: u128 = 0x67e5504410b1426f9247bb680e5fe0c8;
const OTHER: u128 = 0x11111111222233334444555555555555;
const STORE: u128 = 0xaaaaaaaabbbbccccddddeeeeeeeeeeee;
const PRODUCT: u128 = 0x0123456789abcdef0123456789abcdef;
const USER_TEXT: &str = "67e55044-10b1-426f-9247-bb680e5fe0c8";
const STORE_TEXT: &str = "aaaaaaaa-bbbb-cccc-dddd-eeeeeeeeeeee";

fn store(owner: &str) -> Store {
    Store {
        id: STORE_TEXT.to_string(),
        user_id: owner.to_string(),
        name: "Shop".to_string(),
        domain: None,
        description: None,
        api_token: None,
        status: "active".to_string(),
        created_at: "t".to_string(),
        updated_at: None,
    }
}

fn product(store_id: &str) -> Product {
    Product {
        id: "01234567-89ab-cdef-0123-456789abcdef".to_string(),
        store_id: store_id.to_string(),
        name: "Shirt".to_string(),
        category: None,
        description: None,
        specs: Some("{\"material\":\"cotton\"}".to_string()),
        manual: None,
        faq: Some("not json".to_string()),
        status: "active".to_string(),
        external_id: None,
        source: "import".to_string(),
        created_at: "t".to_string(),
        updated_at: "t".to_string(),
    }
}

fn create(specs: Option<&str>, faq: Option<&str>, source: Option<&str>) -> backend::catalog::CreateProduct {
    ProductService::create_product(
        USER,
        STORE,
        "Shirt".to_string(),
        None,
        None,
        specs.map(|s| s.to_string()),
        None,
        faq.map(|s| s.to_string()),
        None,
        source.map(|s| s.to_string()),
    )
}

#[test]
fn response_drops_stored_json_that_does_not_parse() {
    let r = ProductResponse::from(product(STORE_TEXT));
    assert_eq!(r.specs.as_deref(), Some("{\"material\":\"cotton\"}"));
    assert_eq!(r.faq, None);
    let list = product_responses(vec![product(STORE_TEXT)]);
    assert_eq!(list, vec![r]);
}

#[test]
fn product_request_errors_come_in_field_order() {
    let req = CreateProductRequest {
        name: String::new(),
        category: Some("c".repeat(256)),
        description: None,
        specs: None,
        manual: None,
        faq: None,
        external_id: Some("e".repeat(256)),
        source: Some("s".repeat(51)),
    };
    let e = handle_validation_errors(&req.validate().unwrap_err());
    match e.body {
        ErrorBody::Errors(v) => {
            let fields: Vec<&str> = v.iter().map(|f| f.field.as_str()).collect();
            assert_eq!(fields, vec!["category", "external_id", "name", "source"]);
            assert_eq!(v[3].message, "Source is too long");
        },
        _ => panic!("expected field errors"),
    }
    let ok = UpdateProductRequest {
        name: "n".to_string(),
        category: None,
        description: None,
        specs: None,
        manual: None,
        faq: None,
        status: None,
        external_id: None,
        source: Some("s".repeat(50)),
    };
    assert!(ok.validate().is_ok());
}

#[test]
fn specs_must_be_an_object_and_faq_an_array() {
    assert!(check_json_fields(&Some("{}".to_string()), &Some("[]".to_string())).is_ok());
    assert_eq!(check_json_fields(&Some("[]".to_string()), &None), Err(ProductServiceError::InvalidSpecsFormat));
    assert_eq!(check_json_fields(&None, &Some("{}".to_string())), Err(ProductServiceError::InvalidFaqFormat));
    assert_eq!(check_json_fields(&Some("1".to_string()), &Some("2".to_string())), Err(ProductServiceError::InvalidSpecsFormat));
}

#[test]
fn product_error_texts_and_answers() {
    assert_eq!(ProductServiceError::Forbidden.message(), "Access denied");
    assert_eq!(ProductServiceError::InvalidFaqFormat.message(), "FAQ must be a JSON array");
    assert_eq!(ProductServiceError::InternalError("x".to_string()).message(), "Internal error: x");
    let cases = [
        (ProductServiceError::NotFound, 404),
        (ProductServiceError::StoreNotFound, 404),
        (ProductServiceError::Forbidden, 403),
        (ProductServiceError::InvalidSpecsFormat, 422),
        (ProductServiceError::InvalidFaqFormat, 422),
        (ProductServiceError::InternalError("x".to_string()), 500),
    ];
    for (err, status) in cases {
        assert_eq!(map_product_service_error(err).status, status);
    }
    let e = map_product_service_error(ProductServiceError::InvalidSpecsFormat);
    match e.body {
        ErrorBody::Errors(v) => {
            assert_eq!(v[0].field, "specs");
            assert_eq!(v[0].message, "Specs must be a JSON object");
        },
        _ => panic!("expected field errors"),
    }
}

#[test]
fn creation_checks_the_store_before_the_json() {
    let missing = create(Some("[]"), None, None).resume(Ok(None));
    assert_eq!(missing.unwrap_err(), ProductServiceError::StoreNotFound);
    let foreign = create(Some("[]"), None, None).resume(Ok(Some(store("someone-else"))));
    assert_eq!(foreign.unwrap_err(), ProductServiceError::Forbidden);
    let bad_specs = create(Some("[]"), None, None).resume(Ok(Some(store(USER_TEXT))));
    assert_eq!(bad_specs.unwrap_err(), ProductServiceError::InvalidSpecsFormat);
    let bad_faq = create(None, Some("{}"), None).resume(Ok(Some(store(USER_TEXT))));
    assert_eq!(bad_faq.unwrap_err(), ProductServiceError::InvalidFaqFormat);
    let failed = create(None, None, None).resume(Err(RepoError { message: "db".to_string(), database_message: None }));
    assert_eq!(failed.unwrap_err(), ProductServiceError::InternalError("db".to_string()));
}

#[test]
fn creation_defaults_the_source_to_manual() {
    let c = create(Some("{\"a\":1}"), Some("[1]"), None);
    assert_eq!(c.access.store_id, STORE_TEXT);
    let insert = c.resume(Ok(Some(store(USER_TEXT)))).unwrap();
    let n = &insert.new_product;
    assert_eq!(n.source, "manual");
    assert_eq!(n.store_id, STORE_TEXT);
    assert_eq!(n.specs.as_deref(), Some("{\"a\":1}"));
    assert_eq!(n.id.len(), 36);
    let given = create(None, None, Some("shopify")).resume(Ok(Some(store(USER_TEXT)))).unwrap();
    assert_eq!(given.new_product.source, "shopify");
}

#[test]
fn a_product_with_a_broken_store_id_is_an_internal_error() {
    let l = ProductService::get_product(USER, PRODUCT);
    assert_eq!(l.id, "01234567-89ab-cdef-0123-456789abcdef");
    let r = l.resume(Ok(Some(product("not-a-uuid"))));
    assert_eq!(r.unwrap_err(), ProductServiceError::InternalError("Invalid store_id format".to_string()));
    assert_eq!(ProductService::get_product(USER, PRODUCT).resume(Ok(None)).unwrap_err(), ProductServiceError::NotFound);
}

#[test]
fn getting_a_product_checks_its_store() {
    let access = ProductService::get_product(USER, PRODUCT).resume(Ok(Some(product(STORE_TEXT)))).unwrap();
    assert_eq!(access.access.store_id, STORE_TEXT);
    assert_eq!(access.finish(Ok(Some(store(USER_TEXT)))).unwrap().name, "Shirt");
    let access = ProductService::get_product(OTHER, PRODUCT).resume(Ok(Some(product(STORE_TEXT)))).unwrap();
    assert_eq!(access.finish(Ok(Some(store(USER_TEXT)))).unwrap_err(), ProductServiceError::Forbidden);
}

#[test]
fn listing_products_checks_the_store() {
    let l = ProductService::list_products(USER, STORE).resume(Ok(Some(store(USER_TEXT)))).unwrap();
    assert_eq!(l.store_id, STORE_TEXT);
    assert_eq!(l.finish(Ok(vec![product(STORE_TEXT)])).unwrap().len(), 1);
    let denied = ProductService::list_products(OTHER, STORE).resume(Ok(Some(store(USER_TEXT))));
    assert_eq!(denied.unwrap_err(), ProductServiceError::Forbidden);
}

#[test]
fn update_keeps_status_and_source_when_absent() {
    let u = ProductService::update_product(
        USER, PRODUCT, "New".to_string(), None, None, None, None, None, None, None, None,
    );
    let acc = u.resume(Ok(Some(product(STORE_TEXT)))).unwrap();
    let apply = acc.resume(Ok(Some(store(USER_TEXT)))).unwrap();
    assert_eq!(apply.update.status, "active");
    assert_eq!(apply.update.source, "import");
    assert_eq!(apply.update.name, "New");
    assert_eq!(apply.update.specs, None);
    assert_eq!(apply.finish(Ok(None)).unwrap_err(), ProductServiceError::NotFound);

    let u = ProductService::update_product(
        USER, PRODUCT, "New".to_string(), None, None, None, None, None,
        Some("archived".to_string()), None, Some("api".to_string()),
    );
    let apply = u.resume(Ok(Some(product(STORE_TEXT)))).unwrap().resume(Ok(Some(store(USER_TEXT)))).unwrap();
    assert_eq!(apply.update.status, "archived");
    assert_eq!(apply.update.source, "api");
}

#[test]
fn deletion_reports_nothing_deleted_as_not_found() {
    let acc = ProductService::delete_product(USER, PRODUCT).resume(Ok(Some(product(STORE_TEXT)))).unwrap();
    let d = acc.resume(Ok(Some(store(USER_TEXT)))).unwrap();
    assert_eq!(d.id, "01234567-89ab-cdef-0123-456789abcdef");
    assert_eq!(d.finish(Ok(false)).unwrap_err(), ProductServiceError::NotFound);
    let acc = ProductService::delete_product(USER, PRODUCT).resume(Ok(Some(product(STORE_TEXT)))).unwrap();
    assert!(acc.resume(Ok(Some(store(USER_TEXT)))).unwrap().finish(Ok(true)).is_ok());
}

#[test]
fn repeating_an_update_asks_for_the_same_change() {
    let run = |current: Product| {
        let u = ProductService::update_product(
            USER, PRODUCT, "New".to_string(), Some("tops".to_string()), None, None, None, None,
            Some("archived".to_string()), None, None,
        );
        u.resume(Ok(Some(current))).unwrap().resume(Ok(Some(store(USER_TEXT)))).unwrap().update
    };
    let first = run(product(STORE_TEXT));
    let mut stored = product(STORE_TEXT);
    stored.name = first.name.clone();
    stored.category = first.category.clone();
    stored.description = first.description.clone();
    stored.specs = first.specs.clone();
    stored.manual = first.manual.clone();
    stored.faq = first.faq.clone();
    stored.status = first.status.clone();
    stored.external_id = first.external_id.clone();
    stored.source = first.source.clone();
    stored.updated_at = "later".to_string();
    assert_eq!(run(stored), first);
}

#[test]
fn created_json_comes_back_in_the_response() {
    let insert = create(Some("{\"material\":\"cotton\"}"), Some("[{\"q\":\"size?\"}]"), None)
        .resume(Ok(Some(store(USER_TEXT))))
        .unwrap();
    let n = insert.new_product.clone();
    assert_eq!(&n.id[14..15], "4");
    assert!(matches!(&n.id[19..20], "8" | "9" | "a" | "b"));
    let mut stored = product(STORE_TEXT);
    stored.specs = n.specs.clone();
    stored.faq = n.faq.clone();
    let p = insert.finish(Ok(stored)).unwrap();
    let r = ProductResponse::from(p);
    assert_eq!(r.specs.as_deref(), Some("{\"material\":\"cotton\"}"));
    assert_eq!(r.faq.as_deref(), Some("[{\"q\":\"size?\"}]"));
}
