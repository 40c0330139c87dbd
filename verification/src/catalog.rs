//! Products of a store's catalog: the entity, its API representation,
//! request validation and the decisions of the product service.

use vstd::prelude::*;
use crate::http::{
    check_length, error_response, field_error_response, json_error, json_field_error,
    length_ok, length_violation, violation_text, ApiError, ErrorBodyView, FieldViolations,
    STATUS_FORBIDDEN, STATUS_INTERNAL_SERVER_ERROR, STATUS_NOT_FOUND,
    STATUS_UNPROCESSABLE_ENTITY,
};
use crate::ids::{is_v4, new_uuid_v4, parse_uuid, spec_parse_uuid, uuid_hyphenated, uuid_to_string};
use crate::json::{is_json_array, is_json_object, json_is_array, json_is_object, json_is_valid, spec_json_kind};
use crate::storage::RepoError;
use crate::store::{optional_length_ok, single_violation, violations_match, Store};

verus! {

/// A product as kept in the database; `specs` and `faq` hold JSON texts.
#[derive(Debug, Clone, PartialEq, Eq)]
pub struct Product {
    pub id: String,
    pub store_id: String,
    pub name: String,
    pub category: Option<String>,
    pub description: Option<String>,
    pub specs: Option<String>,
    pub manual: Option<String>,
    pub faq: Option<String>,
    pub status: String,
    pub external_id: Option<String>,
    pub source: String,
    pub created_at: String,
    pub updated_at: String,
}

/// A product as shown to API clients; `specs` and `faq` are shown only when
/// they hold valid JSON.
#[derive(Debug, Clone, PartialEq, Eq)]
pub struct ProductResponse {
    pub id: String,
    pub store_id: String,
    pub name: String,
    pub category: Option<String>,
    pub description: Option<String>,
    pub specs: Option<String>,
    pub manual: Option<String>,
    pub faq: Option<String>,
    pub status: String,
    pub external_id: Option<String>,
    pub source: String,
    pub created_at: String,
    pub updated_at: String,
}

/// A stored JSON text as shown: kept when it is valid JSON.
pub open spec fn shown_json(text: Option<String>) -> Option<String> {
    match text {
        Some(t) => if spec_json_kind(t@) is Some {
            Some(t)
        } else {
            None
        },
        None => None,
    }
}

/// The response for a product: its fields, with invalid JSON texts dropped.
pub open spec fn product_response_of(p: Product) -> ProductResponse {
    ProductResponse {
        id: p.id,
        store_id: p.store_id,
        name: p.name,
        category: p.category,
        description: p.description,
        specs: shown_json(p.specs),
        manual: p.manual,
        faq: shown_json(p.faq),
        status: p.status,
        external_id: p.external_id,
        source: p.source,
        created_at: p.created_at,
        updated_at: p.updated_at,
    }
}

/// Keeps a JSON text when it is valid JSON.
fn keep_valid_json(text: Option<String>) -> (r: Option<String>)
    ensures
        r == shown_json(text),
{
    match text {
        Some(t) => if json_is_valid(t.as_str()) {
            Some(t)
        } else {
            None
        },
        None => None,
    }
}

/// The responses for a list of products, in the same order.
pub fn product_responses(products: Vec<Product>) -> (r: Vec<ProductResponse>)
    ensures
        r@ == products@.map_values(|p: Product| product_response_of(p)),
{
    let ghost pv = products@;
    let mut rest = products;
    let mut out: Vec<ProductResponse> = Vec::new();
    while rest.len() > 0
        invariant
            out@.len() + rest@.len() == pv.len(),
            forall|k: int| 0 <= k < out@.len() ==> #[trigger] out@[k] == product_response_of(pv[k]),
            rest@ == pv.subrange(out@.len() as int, pv.len() as int),
        decreases rest@.len(),
    {
        let p = rest.remove(0);
        out.push(ProductResponse::from(p));
    }
    assert(out@ =~= pv.map_values(|p: Product| product_response_of(p)));
    out
}

impl From<Product> for ProductResponse {
    /// The response for a product; `specs` and `faq` that do not parse as
    /// JSON are left out.
    fn from(product: Product) -> (r: ProductResponse) {
        let specs = keep_valid_json(product.specs);
        let faq = keep_valid_json(product.faq);
        ProductResponse {
            id: product.id,
            store_id: product.store_id,
            name: product.name,
            category: product.category,
            description: product.description,
            specs,
            manual: product.manual,
            faq,
            status: product.status,
            external_id: product.external_id,
            source: product.source,
            created_at: product.created_at,
            updated_at: product.updated_at,
        }
    }
}

impl vstd::std_specs::convert::FromSpecImpl<Product> for ProductResponse {
    open spec fn obeys_from_spec() -> bool {
        true
    }

    open spec fn from_spec(p: Product) -> ProductResponse {
        product_response_of(p)
    }
}

/// Body of a request that creates a product. `specs` and `faq` hold the
/// JSON texts of the values sent.
#[derive(Debug, Clone, PartialEq, Eq)]
pub struct CreateProductRequest {
    pub name: String,
    pub category: Option<String>,
    pub description: Option<String>,
    pub specs: Option<String>,
    pub manual: Option<String>,
    pub faq: Option<String>,
    pub external_id: Option<String>,
    pub source: Option<String>,
}

/// Body of a request that updates a product (same rules as creation).
#[derive(Debug, Clone, PartialEq, Eq)]
pub struct UpdateProductRequest {
    pub name: String,
    pub category: Option<String>,
    pub description: Option<String>,
    pub specs: Option<String>,
    pub manual: Option<String>,
    pub faq: Option<String>,
    pub status: Option<String>,
    pub external_id: Option<String>,
    pub source: Option<String>,
}

/// The fields of a product request that break their rules, in field-name
/// order, each with its rule's message.
pub open spec fn product_request_violations(
    name: String,
    category: Option<String>,
    external_id: Option<String>,
    source: Option<String>,
) -> Seq<(Seq<char>, Seq<char>)> {
    (if optional_length_ok(category, 255) { Seq::empty() } else {
        seq![("category"@, "Category is too long"@)]
    }) + (if optional_length_ok(external_id, 255) { Seq::empty() } else {
        seq![("external_id"@, "External ID is too long"@)]
    }) + (if length_ok(name@, 1, 255) { Seq::empty() } else {
        seq![("name"@, "Product name is required"@)]
    }) + (if optional_length_ok(source, 50) { Seq::empty() } else {
        seq![("source"@, "Source is too long"@)]
    })
}

fn optional_length(s: &Option<String>, max: usize) -> (b: bool)
    ensures
        b == optional_length_ok(*s, max as int),
{
    match s {
        Some(t) => check_length(t.as_str(), 0, max),
        None => true,
    }
}

fn push_violation(out: &mut Vec<FieldViolations>, field: &str, message: &str)
    ensures
        final(out)@.len() == old(out)@.len() + 1,
        forall|k: int| 0 <= k < old(out)@.len() ==> final(out)@[k] == old(out)@[k],
        final(out)@.last().violations@.len() == 1,
        final(out)@.last().violations@[0].code@ == "length"@,
        final(out)@.last().violations@[0].message is Some,
        single_violation(final(out)@.last()) == (field@, message@),
{
    out.push(length_violation(field, message));
}

/// Validates the fields shared by product creation and update: a name of 1
/// to 255 characters, a category and an external id of at most 255 and a
/// source of at most 50.
pub fn validate_product_fields(
    name: &String,
    category: &Option<String>,
    external_id: &Option<String>,
    source: &Option<String>,
) -> (r: Result<(), Vec<FieldViolations>>)
    ensures
        r is Ok <==> product_request_violations(*name, *category, *external_id, *source).len() == 0,
        r matches Err(v) ==> violations_match(v@, product_request_violations(*name, *category, *external_id, *source)),
{
    let ghost e1: Seq<(Seq<char>, Seq<char>)> = if optional_length_ok(*category, 255) { Seq::empty() } else {
        seq![("category"@, "Category is too long"@)]
    };
    let ghost e2: Seq<(Seq<char>, Seq<char>)> = if optional_length_ok(*external_id, 255) { Seq::empty() } else {
        seq![("external_id"@, "External ID is too long"@)]
    };
    let ghost e3: Seq<(Seq<char>, Seq<char>)> = if length_ok(name@, 1, 255) { Seq::empty() } else {
        seq![("name"@, "Product name is required"@)]
    };
    let ghost e4: Seq<(Seq<char>, Seq<char>)> = if optional_length_ok(*source, 50) { Seq::empty() } else {
        seq![("source"@, "Source is too long"@)]
    };
    let mut out: Vec<FieldViolations> = Vec::new();
    if !optional_length(category, 255) {
        push_violation(&mut out, "category", "Category is too long");
    }
    assert(violations_match(out@, e1));
    if !optional_length(external_id, 255) {
        push_violation(&mut out, "external_id", "External ID is too long");
    }
    assert(violations_match(out@, e1 + e2));
    if !check_length(name.as_str(), 1, 255) {
        push_violation(&mut out, "name", "Product name is required");
    }
    assert(violations_match(out@, e1 + e2 + e3));
    if !optional_length(source, 50) {
        push_violation(&mut out, "source", "Source is too long");
    }
    assert(violations_match(out@, e1 + e2 + e3 + e4));
    assert(product_request_violations(*name, *category, *external_id, *source) == e1 + e2 + e3 + e4);
    if out.len() == 0 {
        Ok(())
    } else {
        Err(out)
    }
}

impl CreateProductRequest {
    /// Checks the request's fields.
    pub fn validate(&self) -> (r: Result<(), Vec<FieldViolations>>)
        ensures
            r is Ok <==> product_request_violations(self.name, self.category, self.external_id, self.source).len() == 0,
            r matches Err(v) ==> violations_match(v@, product_request_violations(self.name, self.category, self.external_id, self.source)),
    {
        validate_product_fields(&self.name, &self.category, &self.external_id, &self.source)
    }
}

impl UpdateProductRequest {
    /// Checks the request's fields by the same rules as product creation.
    pub fn validate(&self) -> (r: Result<(), Vec<FieldViolations>>)
        ensures
            r is Ok <==> product_request_violations(self.name, self.category, self.external_id, self.source).len() == 0,
            r matches Err(v) ==> violations_match(v@, product_request_violations(self.name, self.category, self.external_id, self.source)),
    {
        validate_product_fields(&self.name, &self.category, &self.external_id, &self.source)
    }
}

/// Errors of the product service.
#[derive(Debug, Clone, PartialEq, Eq)]
pub enum ProductServiceError {
    NotFound,
    StoreNotFound,
    Forbidden,
    InvalidSpecsFormat,
    InvalidFaqFormat,
    InternalError(String),
}

/// The display text of a product service error.
pub open spec fn product_error_text(e: ProductServiceError) -> Seq<char> {
    match e {
        ProductServiceError::NotFound => "Product not found"@,
        ProductServiceError::StoreNotFound => "Store not found"@,
        ProductServiceError::Forbidden => "Access denied"@,
        ProductServiceError::InvalidSpecsFormat => "Specs must be a JSON object"@,
        ProductServiceError::InvalidFaqFormat => "FAQ must be a JSON array"@,
        ProductServiceError::InternalError(m) => "Internal error: "@ + m@,
    }
}

impl ProductServiceError {
    /// The error's display text.
    pub fn message(&self) -> (s: String)
        ensures
            s@ == product_error_text(*self),
    {
        match self {
            ProductServiceError::NotFound => "Product not found".to_owned(),
            ProductServiceError::StoreNotFound => "Store not found".to_owned(),
            ProductServiceError::Forbidden => "Access denied".to_owned(),
            ProductServiceError::InvalidSpecsFormat => "Specs must be a JSON object".to_owned(),
            ProductServiceError::InvalidFaqFormat => "FAQ must be a JSON array".to_owned(),
            ProductServiceError::InternalError(m) => {
                let mut s = "Internal error: ".to_owned();
                s.append(m.as_str());
                s
            },
        }
    }
}

/// The HTTP answer to a product service error.
pub open spec fn product_error_response(e: ProductServiceError) -> (u16, ErrorBodyView) {
    match e {
        ProductServiceError::NotFound => error_response(STATUS_NOT_FOUND, "Product not found"@),
        ProductServiceError::StoreNotFound => error_response(STATUS_NOT_FOUND, "Store not found"@),
        ProductServiceError::Forbidden => error_response(STATUS_FORBIDDEN, "Access denied"@),
        ProductServiceError::InvalidSpecsFormat => field_error_response(
            STATUS_UNPROCESSABLE_ENTITY,
            "specs"@,
            "Specs must be a JSON object"@,
        ),
        ProductServiceError::InvalidFaqFormat => field_error_response(
            STATUS_UNPROCESSABLE_ENTITY,
            "faq"@,
            "FAQ must be a JSON array"@,
        ),
        ProductServiceError::InternalError(_) => error_response(
            STATUS_INTERNAL_SERVER_ERROR,
            "Internal server error"@,
        ),
    }
}

/// Maps a product service error to its HTTP answer.
pub fn map_product_service_error(err: ProductServiceError) -> (e: ApiError)
    ensures
        e.view() == product_error_response(err),
{
    match err {
        ProductServiceError::NotFound => json_error(STATUS_NOT_FOUND, "Product not found"),
        ProductServiceError::StoreNotFound => json_error(STATUS_NOT_FOUND, "Store not found"),
        ProductServiceError::Forbidden => json_error(STATUS_FORBIDDEN, "Access denied"),
        ProductServiceError::InvalidSpecsFormat => json_field_error(
            STATUS_UNPROCESSABLE_ENTITY,
            "specs",
            "Specs must be a JSON object",
        ),
        ProductServiceError::InvalidFaqFormat => json_field_error(
            STATUS_UNPROCESSABLE_ENTITY,
            "faq",
            "FAQ must be a JSON array",
        ),
        ProductServiceError::InternalError(_) => json_error(
            STATUS_INTERNAL_SERVER_ERROR,
            "Internal server error",
        ),
    }
}

/// Maps a storage failure to an internal error carrying its text.
pub open spec fn product_internal<T>(r: Result<T, RepoError>) -> Result<T, ProductServiceError> {
    match r {
        Ok(v) => Ok(v),
        Err(e) => Err(ProductServiceError::InternalError(e.message)),
    }
}

/// Whether a user may work on a store's products, given the store looked
/// up: the store must exist (`StoreNotFound`) and belong to the user
/// (`Forbidden`).
pub open spec fn store_access(user_id: u128, found: Result<Option<Store>, RepoError>) -> Result<(), ProductServiceError> {
    match found {
        Err(e) => Err(ProductServiceError::InternalError(e.message)),
        Ok(None) => Err(ProductServiceError::StoreNotFound),
        Ok(Some(s)) => if s.user_id@ == uuid_hyphenated(user_id) {
            Ok(())
        } else {
            Err(ProductServiceError::Forbidden)
        },
    }
}

/// A check that a store belongs to a user: storage is asked for the store
/// whose id is `store_id`.
#[derive(Debug, Clone, PartialEq, Eq)]
pub struct StoreAccess {
    pub user_id: u128,
    pub store_id: String,
}

impl StoreAccess {
    pub fn new(user_id: u128, store_id: u128) -> (a: StoreAccess)
        ensures
            a.user_id == user_id,
            a.store_id@ == uuid_hyphenated(store_id),
    {
        StoreAccess { user_id, store_id: uuid_to_string(store_id) }
    }

    /// Decides the check once storage has answered.
    pub fn finish(&self, found: Result<Option<Store>, RepoError>) -> (r: Result<(), ProductServiceError>)
        ensures
            r == store_access(self.user_id, found),
    {
        match found {
            Err(e) => Err(ProductServiceError::InternalError(e.message)),
            Ok(None) => Err(ProductServiceError::StoreNotFound),
            Ok(Some(s)) => {
                let owner = uuid_to_string(self.user_id);
                if s.user_id == owner {
                    Ok(())
                } else {
                    Err(ProductServiceError::Forbidden)
                }
            },
        }
    }
}

/// A lookup of a product on behalf of a user: storage is asked for the
/// product whose id is `id`.
#[derive(Debug, Clone, PartialEq, Eq)]
pub struct ProductLookup {
    pub user_id: u128,
    pub id: String,
}

/// A product found, waiting for the check of its store.
#[derive(Debug, Clone, PartialEq, Eq)]
pub struct ProductAccess {
    pub product: Product,
    pub access: StoreAccess,
}

/// What the first half of a product lookup yields: the product with the
/// check of its store, or why there is none.
pub open spec fn product_found(user_id: u128, found: Result<Option<Product>, RepoError>, r: Result<ProductAccess, ProductServiceError>) -> bool {
    match found {
        Err(e) => r == Err::<ProductAccess, ProductServiceError>(ProductServiceError::InternalError(e.message)),
        Ok(None) => r == Err::<ProductAccess, ProductServiceError>(ProductServiceError::NotFound),
        Ok(Some(p)) => match spec_parse_uuid(p.store_id@) {
            None => r matches Err(ProductServiceError::InternalError(m)) && m@ == "Invalid store_id format"@,
            Some(sid) => r matches Ok(a) && a.product == p && a.access.user_id == user_id
                && a.access.store_id@ == uuid_hyphenated(sid),
        },
    }
}

impl ProductLookup {
    pub fn new(user_id: u128, product_id: u128) -> (l: ProductLookup)
        ensures
            l.user_id == user_id,
            l.id@ == uuid_hyphenated(product_id),
    {
        ProductLookup { user_id, id: uuid_to_string(product_id) }
    }

    /// Continues once storage has answered for the product: a product
    /// whose store id does not parse is an internal error.
    pub fn resume(&self, found: Result<Option<Product>, RepoError>) -> (r: Result<ProductAccess, ProductServiceError>)
        ensures
            product_found(self.user_id, found, r),
    {
        match found {
            Err(e) => Err(ProductServiceError::InternalError(e.message)),
            Ok(None) => Err(ProductServiceError::NotFound),
            Ok(Some(p)) => match parse_uuid(p.store_id.as_str()) {
                None => Err(ProductServiceError::InternalError("Invalid store_id format".to_owned())),
                Some(sid) => Ok(ProductAccess { product: p, access: StoreAccess::new(self.user_id, sid) }),
            },
        }
    }
}

impl ProductAccess {
    /// Finishes the lookup once the product's store has been looked up.
    pub fn finish(self, found: Result<Option<Store>, RepoError>) -> (r: Result<Product, ProductServiceError>)
        ensures
            store_access(self.access.user_id, found) matches Err(e) ==> r == Err::<Product, ProductServiceError>(e),
            store_access(self.access.user_id, found) is Ok ==> r == Ok::<Product, ProductServiceError>(self.product),
    {
        match self.access.finish(found) {
            Err(e) => Err(e),
            Ok(()) => Ok(self.product),
        }
    }
}

/// The JSON checks of a product request: `specs` must be an object and
/// `faq` an array, checked in that order.
pub open spec fn json_fields_check(specs: Option<String>, faq: Option<String>) -> Result<(), ProductServiceError> {
    if specs matches Some(s) && !is_json_object(s@) {
        Err(ProductServiceError::InvalidSpecsFormat)
    } else if faq matches Some(f) && !is_json_array(f@) {
        Err(ProductServiceError::InvalidFaqFormat)
    } else {
        Ok(())
    }
}

/// Checks the JSON fields of a product request.
pub fn check_json_fields(specs: &Option<String>, faq: &Option<String>) -> (r: Result<(), ProductServiceError>)
    ensures
        r == json_fields_check(*specs, *faq),
{
    if let Some(s) = specs {
        if !json_is_object(s.as_str()) {
            return Err(ProductServiceError::InvalidSpecsFormat);
        }
    }
    if let Some(f) = faq {
        if !json_is_array(f.as_str()) {
            return Err(ProductServiceError::InvalidFaqFormat);
        }
    }
    Ok(())
}

/// A product to insert.
#[derive(Debug, Clone, PartialEq, Eq)]
pub struct NewProduct {
    pub id: String,
    pub store_id: String,
    pub name: String,
    pub category: Option<String>,
    pub description: Option<String>,
    pub specs: Option<String>,
    pub manual: Option<String>,
    pub faq: Option<String>,
    pub external_id: Option<String>,
    pub source: String,
}

/// New values for a product's fields.
#[derive(Debug, Clone, PartialEq, Eq)]
pub struct ProductUpdate {
    pub id: String,
    pub name: String,
    pub category: Option<String>,
    pub description: Option<String>,
    pub specs: Option<String>,
    pub manual: Option<String>,
    pub faq: Option<String>,
    pub status: String,
    pub external_id: Option<String>,
    pub source: String,
}

/// Product creation waiting for the check of the store.
#[derive(Debug, Clone, PartialEq, Eq)]
pub struct CreateProduct {
    pub access: StoreAccess,
    pub store_id: u128,
    pub request: CreateProductRequest,
}

/// Product creation waiting for the insert of `new_product`.
#[derive(Debug, Clone, PartialEq, Eq)]
pub struct ProductInsert {
    pub new_product: NewProduct,
}

/// The product inserted for a creation request: a fresh id, the store's id,
/// the request's fields, and `"manual"` as source when none was given.
pub open spec fn inserted_product(n: NewProduct, product_id: u128, store_id: u128, req: CreateProductRequest) -> bool {
    &&& n.id@ == uuid_hyphenated(product_id)
    &&& n.store_id@ == uuid_hyphenated(store_id)
    &&& n.name == req.name
    &&& n.category == req.category
    &&& n.description == req.description
    &&& n.specs == req.specs
    &&& n.manual == req.manual
    &&& n.faq == req.faq
    &&& n.external_id == req.external_id
    &&& n.source@ == match req.source {
        Some(s) => s@,
        None => "manual"@,
    }
}

impl CreateProduct {
    /// Continues creation once the store has been looked up: the store must
    /// be the user's, then `specs` must be a JSON object and `faq` an array.
    pub fn resume(self, found: Result<Option<Store>, RepoError>) -> (r: Result<ProductInsert, ProductServiceError>)
        ensures
            store_access(self.access.user_id, found) matches Err(e) ==> r == Err::<ProductInsert, ProductServiceError>(e),
            store_access(self.access.user_id, found) is Ok ==> match json_fields_check(self.request.specs, self.request.faq) {
                Err(e) => r == Err::<ProductInsert, ProductServiceError>(e),
                Ok(_) => r matches Ok(i) && exists|pid: u128| is_v4(pid) && inserted_product(i.new_product, pid, self.store_id, self.request),
            },
    {
        match self.access.finish(found) {
            Err(e) => return Err(e),
            Ok(()) => {},
        }
        match check_json_fields(&self.request.specs, &self.request.faq) {
            Err(e) => return Err(e),
            Ok(()) => {},
        }
        let product_id = new_uuid_v4();
        let req = self.request;
        let source = match req.source {
            Some(s) => s,
            None => "manual".to_owned(),
        };
        let new_product = NewProduct {
            id: uuid_to_string(product_id),
            store_id: uuid_to_string(self.store_id),
            name: req.name,
            category: req.category,
            description: req.description,
            specs: req.specs,
            manual: req.manual,
            faq: req.faq,
            external_id: req.external_id,
            source,
        };
        assert(inserted_product(new_product, product_id, self.store_id, req));
        Ok(ProductInsert { new_product })
    }
}

impl ProductInsert {
    /// Finishes creation with storage's answer to the insert.
    pub fn finish(self, created: Result<Product, RepoError>) -> (r: Result<Product, ProductServiceError>)
        ensures
            r == product_internal(created),
    {
        match created {
            Ok(p) => Ok(p),
            Err(e) => Err(ProductServiceError::InternalError(e.message)),
        }
    }
}

/// Listing a store's products, waiting for the check of the store.
#[derive(Debug, Clone, PartialEq, Eq)]
pub struct ListProducts {
    pub access: StoreAccess,
}

/// Listing waiting for storage's list of the products of store `store_id`.
#[derive(Debug, Clone, PartialEq, Eq)]
pub struct ProductList {
    pub store_id: String,
}

impl ListProducts {
    /// Continues once the store has been looked up.
    pub fn resume(self, found: Result<Option<Store>, RepoError>) -> (r: Result<ProductList, ProductServiceError>)
        ensures
            store_access(self.access.user_id, found) matches Err(e) ==> r == Err::<ProductList, ProductServiceError>(e),
            store_access(self.access.user_id, found) is Ok ==> r == Ok::<ProductList, ProductServiceError>(ProductList { store_id: self.access.store_id }),
    {
        match self.access.finish(found) {
            Err(e) => Err(e),
            Ok(()) => Ok(ProductList { store_id: self.access.store_id }),
        }
    }
}

impl ProductList {
    /// Finishes the listing with storage's answer.
    pub fn finish(self, listed: Result<Vec<Product>, RepoError>) -> (r: Result<Vec<Product>, ProductServiceError>)
        ensures
            r == product_internal(listed),
    {
        match listed {
            Ok(v) => Ok(v),
            Err(e) => Err(ProductServiceError::InternalError(e.message)),
        }
    }
}

/// Product update waiting for the lookup of the product.
#[derive(Debug, Clone, PartialEq, Eq)]
pub struct UpdateProduct {
    pub lookup: ProductLookup,
    pub request: UpdateProductRequest,
}

/// Product update waiting for the check of the product's store.
#[derive(Debug, Clone, PartialEq, Eq)]
pub struct UpdateProductAccess {
    pub access: ProductAccess,
    pub request: UpdateProductRequest,
}

/// A product change waiting for storage to apply `update`.
#[derive(Debug, Clone, PartialEq, Eq)]
pub struct ProductApply {
    pub update: ProductUpdate,
}

/// The change a product update asks for: the request's fields, with the
/// existing status and source kept when the request gives none.
pub open spec fn product_update_of(existing: Product, req: UpdateProductRequest, u: ProductUpdate) -> bool {
    &&& u.id == existing.id
    &&& u.name == req.name
    &&& u.category == req.category
    &&& u.description == req.description
    &&& u.specs == req.specs
    &&& u.manual == req.manual
    &&& u.faq == req.faq
    &&& u.external_id == req.external_id
    &&& u.status == match req.status {
        Some(s) => s,
        None => existing.status,
    }
    &&& u.source == match req.source {
        Some(s) => s,
        None => existing.source,
    }
}

impl UpdateProduct {
    /// Continues once the product has been looked up.
    pub fn resume(self, found: Result<Option<Product>, RepoError>) -> (r: Result<UpdateProductAccess, ProductServiceError>)
        ensures
            exists|a: Result<ProductAccess, ProductServiceError>| {
                &&& product_found(self.lookup.user_id, found, a)
                &&& match a {
                    Err(e) => r == Err::<UpdateProductAccess, ProductServiceError>(e),
                    Ok(acc) => r == Ok::<UpdateProductAccess, ProductServiceError>(UpdateProductAccess { access: acc, request: self.request }),
                }
            },
    {
        let a = self.lookup.resume(found);
        match a {
            Err(e) => Err(e),
            Ok(acc) => Ok(UpdateProductAccess { access: acc, request: self.request }),
        }
    }
}

impl UpdateProductAccess {
    /// Continues once the product's store has been looked up: the store must
    /// be the user's, then the JSON fields are checked.
    pub fn resume(self, found: Result<Option<Store>, RepoError>) -> (r: Result<ProductApply, ProductServiceError>)
        ensures
            store_access(self.access.access.user_id, found) matches Err(e) ==> r == Err::<ProductApply, ProductServiceError>(e),
            store_access(self.access.access.user_id, found) is Ok ==> match json_fields_check(self.request.specs, self.request.faq) {
                Err(e) => r == Err::<ProductApply, ProductServiceError>(e),
                Ok(_) => r matches Ok(a) && product_update_of(self.access.product, self.request, a.update),
            },
    {
        let existing = match self.access.finish(found) {
            Err(e) => return Err(e),
            Ok(p) => p,
        };
        match check_json_fields(&self.request.specs, &self.request.faq) {
            Err(e) => return Err(e),
            Ok(()) => {},
        }
        let req = self.request;
        let status = match req.status {
            Some(s) => s,
            None => existing.status,
        };
        let source = match req.source {
            Some(s) => s,
            None => existing.source,
        };
        Ok(ProductApply {
            update: ProductUpdate {
                id: existing.id,
                name: req.name,
                category: req.category,
                description: req.description,
                specs: req.specs,
                manual: req.manual,
                faq: req.faq,
                status,
                external_id: req.external_id,
                source,
            },
        })
    }
}

/// What becomes of a product change once storage has answered.
pub open spec fn applied_product_update(updated: Result<Option<Product>, RepoError>) -> Result<Product, ProductServiceError> {
    match updated {
        Err(e) => Err(ProductServiceError::InternalError(e.message)),
        Ok(None) => Err(ProductServiceError::NotFound),
        Ok(Some(p)) => Ok(p),
    }
}

impl ProductApply {
    /// Finishes a product change: no row changed is `NotFound`.
    pub fn finish(self, updated: Result<Option<Product>, RepoError>) -> (r: Result<Product, ProductServiceError>)
        ensures
            r == applied_product_update(updated),
    {
        match updated {
            Err(e) => Err(ProductServiceError::InternalError(e.message)),
            Ok(None) => Err(ProductServiceError::NotFound),
            Ok(Some(p)) => Ok(p),
        }
    }
}

/// Product deletion waiting for the lookup of the product.
#[derive(Debug, Clone, PartialEq, Eq)]
pub struct DeleteProduct {
    pub lookup: ProductLookup,
}

/// Product deletion waiting for the check of the product's store.
#[derive(Debug, Clone, PartialEq, Eq)]
pub struct DeleteProductAccess {
    pub access: ProductAccess,
}

/// Product deletion waiting for storage to delete the product `id`.
#[derive(Debug, Clone, PartialEq, Eq)]
pub struct ProductDelete {
    pub id: String,
}

impl DeleteProduct {
    /// Continues once the product has been looked up.
    pub fn resume(self, found: Result<Option<Product>, RepoError>) -> (r: Result<DeleteProductAccess, ProductServiceError>)
        ensures
            exists|a: Result<ProductAccess, ProductServiceError>| {
                &&& product_found(self.lookup.user_id, found, a)
                &&& match a {
                    Err(e) => r == Err::<DeleteProductAccess, ProductServiceError>(e),
                    Ok(acc) => r == Ok::<DeleteProductAccess, ProductServiceError>(DeleteProductAccess { access: acc }),
                }
            },
    {
        let a = self.lookup.resume(found);
        match a {
            Err(e) => Err(e),
            Ok(acc) => Ok(DeleteProductAccess { access: acc }),
        }
    }
}

impl DeleteProductAccess {
    /// Continues once the product's store has been looked up: only a
    /// product of the user's store is deleted, by the id it was found with.
    pub fn resume(self, found: Result<Option<Store>, RepoError>) -> (r: Result<ProductDelete, ProductServiceError>)
        ensures
            store_access(self.access.access.user_id, found) matches Err(e) ==> r == Err::<ProductDelete, ProductServiceError>(e),
            store_access(self.access.access.user_id, found) is Ok ==> r == Ok::<ProductDelete, ProductServiceError>(ProductDelete { id: self.access.product.id }),
    {
        match self.access.finish(found) {
            Err(e) => Err(e),
            Ok(p) => Ok(ProductDelete { id: p.id }),
        }
    }
}

/// What becomes of a product deletion once storage has answered.
pub open spec fn deleted_product(deleted: Result<bool, RepoError>) -> Result<(), ProductServiceError> {
    match deleted {
        Err(e) => Err(ProductServiceError::InternalError(e.message)),
        Ok(false) => Err(ProductServiceError::NotFound),
        Ok(true) => Ok(()),
    }
}

impl ProductDelete {
    /// Finishes a deletion: a deletion that removed nothing is `NotFound`.
    pub fn finish(self, deleted: Result<bool, RepoError>) -> (r: Result<(), ProductServiceError>)
        ensures
            r == deleted_product(deleted),
    {
        match deleted {
            Err(e) => Err(ProductServiceError::InternalError(e.message)),
            Ok(false) => Err(ProductServiceError::NotFound),
            Ok(true) => Ok(()),
        }
    }
}

/// The product service: each operation starts here and is carried on by
/// the step values it returns, each asking storage for one thing.
#[derive(Debug, Clone, PartialEq, Eq)]
pub struct ProductService;

impl ProductService {
    /// Starts creating a product in one of the user's stores. `specs` and
    /// `faq` are the JSON texts of the values sent.
    pub fn create_product(
        user_id: u128,
        store_id: u128,
        name: String,
        category: Option<String>,
        description: Option<String>,
        specs: Option<String>,
        manual: Option<String>,
        faq: Option<String>,
        external_id: Option<String>,
        source: Option<String>,
    ) -> (c: CreateProduct)
        ensures
            c.access.user_id == user_id,
            c.access.store_id@ == uuid_hyphenated(store_id),
            c.store_id == store_id,
            c.request == (CreateProductRequest {
                name,
                category,
                description,
                specs,
                manual,
                faq,
                external_id,
                source,
            }),
    {
        let request = CreateProductRequest {
            name,
            category,
            description,
            specs,
            manual,
            faq,
            external_id,
            source,
        };
        CreateProduct { access: StoreAccess::new(user_id, store_id), store_id, request }
    }

    /// Starts a lookup of a product of one of the user's stores.
    pub fn get_product(user_id: u128, product_id: u128) -> (l: ProductLookup)
        ensures
            l.user_id == user_id,
            l.id@ == uuid_hyphenated(product_id),
    {
        ProductLookup::new(user_id, product_id)
    }

    /// Starts listing the products of one of the user's stores.
    pub fn list_products(user_id: u128, store_id: u128) -> (l: ListProducts)
        ensures
            l.access.user_id == user_id,
            l.access.store_id@ == uuid_hyphenated(store_id),
    {
        ListProducts { access: StoreAccess::new(user_id, store_id) }
    }

    /// Starts updating a product of one of the user's stores. `specs` and
    /// `faq` are the JSON texts of the values sent.
    pub fn update_product(
        user_id: u128,
        product_id: u128,
        name: String,
        category: Option<String>,
        description: Option<String>,
        specs: Option<String>,
        manual: Option<String>,
        faq: Option<String>,
        status: Option<String>,
        external_id: Option<String>,
        source: Option<String>,
    ) -> (u: UpdateProduct)
        ensures
            u.lookup.user_id == user_id,
            u.lookup.id@ == uuid_hyphenated(product_id),
            u.request == (UpdateProductRequest {
                name,
                category,
                description,
                specs,
                manual,
                faq,
                status,
                external_id,
                source,
            }),
    {
        let request = UpdateProductRequest {
            name,
            category,
            description,
            specs,
            manual,
            faq,
            status,
            external_id,
            source,
        };
        UpdateProduct { lookup: ProductLookup::new(user_id, product_id), request }
    }

    /// Starts deleting a product of one of the user's stores.
    pub fn delete_product(user_id: u128, product_id: u128) -> (d: DeleteProduct)
        ensures
            d.lookup.user_id == user_id,
            d.lookup.id@ == uuid_hyphenated(product_id),
    {
        DeleteProduct { lookup: ProductLookup::new(user_id, product_id) }
    }
}

} // verus!
