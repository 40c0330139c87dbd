//! Stores: the entity, its API representation, request validation and the
//! decisions of the store service.

use vstd::prelude::*;
use crate::http::{
    check_length, error_response, field_error_response, json_error, json_field_error,
    length_ok, length_violation, violation_text, ApiError, ErrorBodyView, FieldViolations,
    STATUS_BAD_REQUEST, STATUS_CONFLICT, STATUS_INTERNAL_SERVER_ERROR, STATUS_NOT_FOUND,
};
use crate::ids::{is_v4, new_uuid_v4, uuid_hyphenated, uuid_to_string};
use crate::storage::{is_refused_with, refused_with, RepoError};
use crate::text::{remove_char, spec_to_lowercase, to_lowercase, trim, trimmed, without_char};

verus! {

/// A store as kept in the database.
#[derive(Debug, Clone, PartialEq, Eq)]
pub struct Store {
    pub id: String,
    pub user_id: String,
    pub name: String,
    pub domain: Option<String>,
    pub description: Option<String>,
    pub api_token: Option<String>,
    pub status: String,
    pub created_at: String,
    pub updated_at: Option<String>,
}

/// A store as shown to API clients; the API token is shown only when the
/// store has just been created.
#[derive(Debug, Clone, PartialEq, Eq)]
pub struct StoreResponse {
    pub id: String,
    pub user_id: String,
    pub name: String,
    pub domain: Option<String>,
    pub description: Option<String>,
    pub api_token: Option<String>,
    pub status: String,
    pub created_at: String,
    pub updated_at: Option<String>,
}

/// The response carries the store's fields, with `api_token` as given.
pub open spec fn response_of(store: Store, api_token: Option<String>) -> StoreResponse {
    StoreResponse {
        id: store.id,
        user_id: store.user_id,
        name: store.name,
        domain: store.domain,
        description: store.description,
        api_token: api_token,
        status: store.status,
        created_at: store.created_at,
        updated_at: store.updated_at,
    }
}

impl StoreResponse {
    /// The public view of a store: every field but the API token.
    pub fn public(store: Store) -> (r: StoreResponse)
        ensures
            r == response_of(store, None),
    {
        StoreResponse {
            id: store.id,
            user_id: store.user_id,
            name: store.name,
            domain: store.domain,
            description: store.description,
            api_token: None,
            status: store.status,
            created_at: store.created_at,
            updated_at: store.updated_at,
        }
    }

    /// The view of a store for its owner right after creation: every field,
    /// the API token included.
    pub fn with_api_token(store: Store) -> (r: StoreResponse)
        ensures
            r == response_of(store, store.api_token),
    {
        let Store { id, user_id, name, domain, description, api_token, status, created_at, updated_at } = store;
        let mut response = Self::public(Store {
            id,
            user_id,
            name,
            domain,
            description,
            api_token: None,
            status,
            created_at,
            updated_at,
        });
        response.api_token = api_token;
        response
    }
}

/// The public views of a list of stores, in the same order.
pub fn public_store_responses(stores: Vec<Store>) -> (r: Vec<StoreResponse>)
    ensures
        r@ == stores@.map_values(|s: Store| response_of(s, None)),
{
    let ghost sv = stores@;
    let mut rest = stores;
    let mut out: Vec<StoreResponse> = Vec::new();
    while rest.len() > 0
        invariant
            out@.len() + rest@.len() == sv.len(),
            forall|k: int| 0 <= k < out@.len() ==> #[trigger] out@[k] == response_of(sv[k], None),
            rest@ == sv.subrange(out@.len() as int, sv.len() as int),
        decreases rest@.len(),
    {
        let s = rest.remove(0);
        out.push(StoreResponse::public(s));
    }
    assert(out@ =~= sv.map_values(|s: Store| response_of(s, None)));
    out
}

impl From<Store> for StoreResponse {
    /// Same as `StoreResponse::public`.
    fn from(store: Store) -> (r: StoreResponse) {
        StoreResponse::public(store)
    }
}

impl vstd::std_specs::convert::FromSpecImpl<Store> for StoreResponse {
    open spec fn obeys_from_spec() -> bool {
        true
    }

    open spec fn from_spec(store: Store) -> StoreResponse {
        response_of(store, None)
    }
}

/// Body of a request that creates a store.
#[derive(Debug, Clone, PartialEq, Eq)]
pub struct CreateStoreRequest {
    pub name: String,
    pub domain: Option<String>,
    pub description: Option<String>,
}

/// Body of a request that updates a store (same rules as creation).
#[derive(Debug, Clone, PartialEq, Eq)]
pub struct UpdateStoreRequest {
    pub name: String,
    pub domain: Option<String>,
    pub description: Option<String>,
}

/// Query of a delete request.
#[derive(Debug, Clone, PartialEq, Eq)]
pub struct DeleteStoreRequest {
    pub confirm: Option<bool>,
}

/// An optional text passes a maximum-length rule when absent or short enough.
pub open spec fn optional_length_ok(s: Option<String>, max: int) -> bool {
    match s {
        Some(t) => length_ok(t@, 0, max),
        None => true,
    }
}

/// The fields of a store request that break their rules, in field-name
/// order, each with its rule's message.
pub open spec fn store_request_violations(
    name: String,
    domain: Option<String>,
    description: Option<String>,
) -> Seq<(Seq<char>, Seq<char>)> {
    (if optional_length_ok(description, 2000) { Seq::empty() } else {
        seq![("description"@, "Description is too long"@)]
    }) + (if optional_length_ok(domain, 255) { Seq::empty() } else {
        seq![("domain"@, "Domain is too long"@)]
    }) + (if length_ok(name@, 1, 255) { Seq::empty() } else {
        seq![("name"@, "Store name is required"@)]
    })
}

/// The field name and message of a field's single failed length rule.
pub open spec fn single_violation(f: FieldViolations) -> (Seq<char>, Seq<char>) {
    (f.field@, violation_text(f.violations@[0]))
}

/// Each entry breaks one length rule, described by `expected`.
pub open spec fn violations_match(v: Seq<FieldViolations>, expected: Seq<(Seq<char>, Seq<char>)>) -> bool {
    &&& v.len() == expected.len()
    &&& forall|k: int| 0 <= k < v.len() ==> {
        &&& (#[trigger] v[k]).violations@.len() == 1
        &&& v[k].violations@[0].code@ == "length"@
        &&& v[k].violations@[0].message is Some
        &&& single_violation(v[k]) == expected[k]
    }
}

/// Appends a length violation for `field` to `out`.
fn add_length_violation(out: &mut Vec<FieldViolations>, field: &str, message: &str)
    ensures
        final(out)@.len() == old(out)@.len() + 1,
        forall|k: int| 0 <= k < old(out)@.len() ==> final(out)@[k] == old(out)@[k],
        final(out)@.last().violations@.len() == 1,
        final(out)@.last().violations@[0].code@ == "length"@,
        final(out)@.last().violations@[0].message is Some,
        single_violation(final(out)@.last()) == (field@, message@),
{
    let f = length_violation(field, message);
    out.push(f);
}

/// Checks an optional text against a maximum length.
fn check_optional_length(s: &Option<String>, max: usize) -> (b: bool)
    ensures
        b == optional_length_ok(*s, max as int),
{
    match s {
        Some(t) => check_length(t.as_str(), 0, max),
        None => true,
    }
}

/// Validates the three fields shared by store creation and update.
pub fn validate_store_fields(
    name: &String,
    domain: &Option<String>,
    description: &Option<String>,
) -> (r: Result<(), Vec<FieldViolations>>)
    ensures
        r is Ok <==> store_request_violations(*name, *domain, *description).len() == 0,
        r matches Err(v) ==> violations_match(v@, store_request_violations(*name, *domain, *description)),
{
    let ghost expected = store_request_violations(*name, *domain, *description);
    let mut out: Vec<FieldViolations> = Vec::new();
    let ghost e1: Seq<(Seq<char>, Seq<char>)> = if optional_length_ok(*description, 2000) { Seq::empty() } else {
        seq![("description"@, "Description is too long"@)]
    };
    let ghost e2: Seq<(Seq<char>, Seq<char>)> = if optional_length_ok(*domain, 255) { Seq::empty() } else {
        seq![("domain"@, "Domain is too long"@)]
    };
    let ghost e3: Seq<(Seq<char>, Seq<char>)> = if length_ok(name@, 1, 255) { Seq::empty() } else {
        seq![("name"@, "Store name is required"@)]
    };
    if !check_optional_length(description, 2000) {
        add_length_violation(&mut out, "description", "Description is too long");
    }
    assert(violations_match(out@, e1));
    if !check_optional_length(domain, 255) {
        add_length_violation(&mut out, "domain", "Domain is too long");
    }
    assert(violations_match(out@, e1 + e2));
    if !check_length(name.as_str(), 1, 255) {
        add_length_violation(&mut out, "name", "Store name is required");
    }
    assert(violations_match(out@, e1 + e2 + e3));
    assert(expected == e1 + e2 + e3);
    if out.len() == 0 {
        Ok(())
    } else {
        Err(out)
    }
}

impl CreateStoreRequest {
    /// Checks the request's fields: a name of 1 to 255 characters, a domain
    /// of at most 255 and a description of at most 2000.
    pub fn validate(&self) -> (r: Result<(), Vec<FieldViolations>>)
        ensures
            r is Ok <==> store_request_violations(self.name, self.domain, self.description).len() == 0,
            r matches Err(v) ==> violations_match(v@, store_request_violations(self.name, self.domain, self.description)),
    {
        validate_store_fields(&self.name, &self.domain, &self.description)
    }
}

impl UpdateStoreRequest {
    /// Checks the request's fields by the same rules as store creation.
    pub fn validate(&self) -> (r: Result<(), Vec<FieldViolations>>)
        ensures
            r is Ok <==> store_request_violations(self.name, self.domain, self.description).len() == 0,
            r matches Err(v) ==> violations_match(v@, store_request_violations(self.name, self.domain, self.description)),
    {
        validate_store_fields(&self.name, &self.domain, &self.description)
    }
}

impl DeleteStoreRequest {
    /// A deletion goes ahead unless the client said `confirm=false`, which is
    /// answered `400 {"error": "Deletion was not confirmed"}`.
    pub fn check_confirmed(&self) -> (r: Result<(), ApiError>)
        ensures
            self.confirm == Some(false) ==> (r matches Err(e) && e.view() == error_response(
                STATUS_BAD_REQUEST,
                "Deletion was not confirmed"@,
            )),
            self.confirm != Some(false) ==> r is Ok,
    {
        match self.confirm {
            Some(false) => Err(json_error(STATUS_BAD_REQUEST, "Deletion was not confirmed")),
            _ => Ok(()),
        }
    }
}

/// Errors of the store service.
#[derive(Debug, Clone, PartialEq, Eq)]
pub enum StoreServiceError {
    NotFound,
    DomainAlreadyExists,
    InternalError(String),
}

/// The display text of a store service error.
pub open spec fn store_error_text(e: StoreServiceError) -> Seq<char> {
    match e {
        StoreServiceError::NotFound => "Store not found"@,
        StoreServiceError::DomainAlreadyExists => "Domain already exists"@,
        StoreServiceError::InternalError(m) => "Internal error: "@ + m@,
    }
}

impl StoreServiceError {
    /// The error's display text.
    pub fn message(&self) -> (s: String)
        ensures
            s@ == store_error_text(*self),
    {
        match self {
            StoreServiceError::NotFound => "Store not found".to_owned(),
            StoreServiceError::DomainAlreadyExists => "Domain already exists".to_owned(),
            StoreServiceError::InternalError(m) => {
                let mut s = "Internal error: ".to_owned();
                s.append(m.as_str());
                s
            },
        }
    }
}

/// The HTTP answer to a store service error.
pub open spec fn store_error_response(e: StoreServiceError) -> (u16, ErrorBodyView) {
    match e {
        StoreServiceError::NotFound => error_response(STATUS_NOT_FOUND, "Store not found"@),
        StoreServiceError::DomainAlreadyExists => field_error_response(
            STATUS_CONFLICT,
            "domain"@,
            "Domain already exists"@,
        ),
        StoreServiceError::InternalError(_) => error_response(
            STATUS_INTERNAL_SERVER_ERROR,
            "Internal server error"@,
        ),
    }
}

/// Maps a store service error to its HTTP answer: 404, 409 with a `domain`
/// field error, or 500 (the internal message is not shown).
pub fn map_store_service_error(err: StoreServiceError) -> (e: ApiError)
    ensures
        e.view() == store_error_response(err),
{
    match err {
        StoreServiceError::NotFound => json_error(STATUS_NOT_FOUND, "Store not found"),
        StoreServiceError::DomainAlreadyExists => json_field_error(
            STATUS_CONFLICT,
            "domain",
            "Domain already exists",
        ),
        StoreServiceError::InternalError(_) => json_error(
            STATUS_INTERNAL_SERVER_ERROR,
            "Internal server error",
        ),
    }
}

/// A store domain as stored: trimmed, lowercased, and absent when empty.
pub open spec fn normalized_domain(domain: Option<Seq<char>>) -> Option<Seq<char>> {
    match domain {
        None => None,
        Some(d) => {
            let n = spec_to_lowercase(trimmed(d));
            if n.len() == 0 {
                None
            } else {
                Some(n)
            }
        },
    }
}

/// Normalizes a requested domain: trims it, lowercases it, drops it when
/// nothing is left.
pub fn normalize_domain(domain: Option<String>) -> (r: Option<String>)
    ensures
        r.deep_view() == normalized_domain(domain.deep_view()),
{
    match domain {
        None => None,
        Some(d) => {
            let t = trim(d.as_str());
            let l = to_lowercase(t.as_str());
            if l.as_str().is_empty() {
                None
            } else {
                Some(l)
            }
        },
    }
}

/// The API token made from a UUID: its hyphenated text without hyphens.
pub open spec fn api_token_text(id: u128) -> Seq<char> {
    without_char(uuid_hyphenated(id), '-')
}

/// A fresh API token: a random v4 UUID's text with the hyphens removed.
pub fn generate_api_token() -> (t: String)
    ensures
        exists|id: u128| is_v4(id) && t@ == api_token_text(id),
{
    let id = new_uuid_v4();
    let text = uuid_to_string(id);
    let t = remove_char(text.as_str(), '-');
    assert(t@ == api_token_text(id));
    t
}

/// What a lookup of a store on behalf of a user yields: the store when it
/// exists and belongs to the user, `NotFound` otherwise, and the storage
/// failure's text as an internal error.
pub open spec fn owned_store(user_id: u128, found: Result<Option<Store>, RepoError>) -> Result<Store, StoreServiceError> {
    match found {
        Err(e) => Err(StoreServiceError::InternalError(e.message)),
        Ok(None) => Err(StoreServiceError::NotFound),
        Ok(Some(s)) => if s.user_id@ == uuid_hyphenated(user_id) {
            Ok(s)
        } else {
            Err(StoreServiceError::NotFound)
        },
    }
}

/// Decides a lookup of a store on behalf of a user.
pub fn check_store_owner(user_id: u128, found: Result<Option<Store>, RepoError>) -> (r: Result<Store, StoreServiceError>)
    ensures
        r == owned_store(user_id, found),
{
    match found {
        Err(e) => Err(StoreServiceError::InternalError(e.message)),
        Ok(None) => Err(StoreServiceError::NotFound),
        Ok(Some(s)) => {
            let owner = uuid_to_string(user_id);
            if s.user_id == owner {
                Ok(s)
            } else {
                Err(StoreServiceError::NotFound)
            }
        },
    }
}

/// Maps a storage failure to an internal error carrying its text.
pub open spec fn internal<T>(r: Result<T, RepoError>) -> Result<T, StoreServiceError> {
    match r {
        Ok(v) => Ok(v),
        Err(e) => Err(StoreServiceError::InternalError(e.message)),
    }
}

/// A lookup of a store by id on behalf of a user. Storage is asked for the
/// store whose id is `id`.
#[derive(Debug, Clone, PartialEq, Eq)]
pub struct StoreLookup {
    pub user_id: u128,
    pub store_id: u128,
    pub id: String,
}

impl StoreLookup {
    pub fn new(user_id: u128, store_id: u128) -> (l: StoreLookup)
        ensures
            l.user_id == user_id,
            l.store_id == store_id,
            l.id@ == uuid_hyphenated(store_id),
    {
        StoreLookup { user_id, store_id, id: uuid_to_string(store_id) }
    }

    /// Decides the lookup once storage has answered.
    pub fn finish(self, found: Result<Option<Store>, RepoError>) -> (r: Result<Store, StoreServiceError>)
        ensures
            r == owned_store(self.user_id, found),
    {
        check_store_owner(self.user_id, found)
    }
}

/// A store to insert.
#[derive(Debug, Clone, PartialEq, Eq)]
pub struct NewStore {
    pub id: String,
    pub user_id: String,
    pub name: String,
    pub domain: Option<String>,
    pub description: Option<String>,
    pub api_token: Option<String>,
}

/// New values for a store's fields.
#[derive(Debug, Clone, PartialEq, Eq)]
pub struct StoreUpdate {
    pub id: String,
    pub name: String,
    pub domain: Option<String>,
    pub description: Option<String>,
    pub api_token: Option<String>,
    pub status: String,
}

/// The first step of store creation: check that the domain is free, or
/// insert right away when there is no domain.
#[derive(Debug, Clone, PartialEq, Eq)]
pub enum CreateStoreStep {
    CheckDomain(StoreDomainCheck),
    Insert(StoreInsert),
}

/// Store creation waiting for storage to say whether `domain` is taken.
#[derive(Debug, Clone, PartialEq, Eq)]
pub struct StoreDomainCheck {
    pub domain: String,
    pub store_id: u128,
    pub user_id: u128,
    pub name: String,
    pub description: Option<String>,
}

/// Store creation waiting for the insert of `new_store`.
#[derive(Debug, Clone, PartialEq, Eq)]
pub struct StoreInsert {
    pub new_store: NewStore,
}

/// The store inserted for a creation request: fresh id, the owner's id,
/// the name and description as given, the normalized domain, and an API
/// token made from some UUID.
pub open spec fn inserted_store(n: NewStore, store_id: u128, user_id: u128, name: String, domain: Option<Seq<char>>, description: Option<String>) -> bool {
    &&& n.id@ == uuid_hyphenated(store_id)
    &&& n.user_id@ == uuid_hyphenated(user_id)
    &&& n.name == name
    &&& n.domain.deep_view() == domain
    &&& n.description == description
    &&& n.api_token matches Some(t) && exists|u: u128| is_v4(u) && t@ == api_token_text(u)
}

/// What becomes of a store creation once the insert has been answered: the
/// stored store, `NotFound` when the database refused it for a foreign key
/// (the owner does not exist), otherwise an internal error.
pub open spec fn created_store(created: Result<Store, RepoError>) -> Result<Store, StoreServiceError> {
    match created {
        Ok(s) => Ok(s),
        Err(e) => if refused_with(e, "FOREIGN KEY constraint failed"@) {
            Err(StoreServiceError::NotFound)
        } else {
            Err(StoreServiceError::InternalError(e.message))
        },
    }
}

/// Builds the insert of a new store, with a fresh API token.
fn make_insert(store_id: u128, user_id: u128, name: String, domain: Option<String>, description: Option<String>) -> (i: StoreInsert)
    ensures
        inserted_store(i.new_store, store_id, user_id, name, domain.deep_view(), description),
{
    let api_token = generate_api_token();
    StoreInsert {
        new_store: NewStore {
            id: uuid_to_string(store_id),
            user_id: uuid_to_string(user_id),
            name,
            domain,
            description,
            api_token: Some(api_token),
        },
    }
}

impl StoreDomainCheck {
    /// Continues creation once storage says which store, if any, has the
    /// domain: a taken domain is refused.
    pub fn resume(self, found: Result<Option<Store>, RepoError>) -> (r: Result<StoreInsert, StoreServiceError>)
        ensures
            found is Err ==> r == internal::<StoreInsert>(Err(found->Err_0)),
            found matches Ok(Some(_)) ==> r == Err::<StoreInsert, StoreServiceError>(StoreServiceError::DomainAlreadyExists),
            found matches Ok(None) ==> (r matches Ok(i) && inserted_store(
                i.new_store,
                self.store_id,
                self.user_id,
                self.name,
                Some(self.domain@),
                self.description,
            )),
    {
        match found {
            Err(e) => Err(StoreServiceError::InternalError(e.message)),
            Ok(Some(_)) => Err(StoreServiceError::DomainAlreadyExists),
            Ok(None) => Ok(make_insert(self.store_id, self.user_id, self.name, Some(self.domain), self.description)),
        }
    }
}

impl StoreInsert {
    /// Finishes creation once the insert has been answered.
    pub fn finish(self, created: Result<Store, RepoError>) -> (r: Result<Store, StoreServiceError>)
        ensures
            r == created_store(created),
    {
        match created {
            Ok(s) => Ok(s),
            Err(e) => {
                if is_refused_with(&e, "FOREIGN KEY constraint failed") {
                    Err(StoreServiceError::NotFound)
                } else {
                    Err(StoreServiceError::InternalError(e.message))
                }
            },
        }
    }
}

/// Store update after the lookup: check a changed domain, or apply.
#[derive(Debug, Clone, PartialEq, Eq)]
pub enum UpdateStoreNext {
    CheckDomain(StoreUpdateDomainCheck),
    Apply(StoreApply),
}

/// Store update waiting for storage to say whether `domain` is taken.
#[derive(Debug, Clone, PartialEq, Eq)]
pub struct StoreUpdateDomainCheck {
    pub domain: String,
    pub update: StoreUpdate,
}

/// A store change waiting for storage to apply `update`.
#[derive(Debug, Clone, PartialEq, Eq)]
pub struct StoreApply {
    pub update: StoreUpdate,
}

/// What becomes of a store change once storage has answered: the updated
/// store, `NotFound` when no row was changed, or an internal error.
pub open spec fn applied_update(updated: Result<Option<Store>, RepoError>) -> Result<Store, StoreServiceError> {
    match updated {
        Err(e) => Err(StoreServiceError::InternalError(e.message)),
        Ok(None) => Err(StoreServiceError::NotFound),
        Ok(Some(s)) => Ok(s),
    }
}

impl StoreApply {
    /// Finishes a store change once storage has answered.
    pub fn finish(self, updated: Result<Option<Store>, RepoError>) -> (r: Result<Store, StoreServiceError>)
        ensures
            r == applied_update(updated),
    {
        match updated {
            Err(e) => Err(StoreServiceError::InternalError(e.message)),
            Ok(None) => Err(StoreServiceError::NotFound),
            Ok(Some(s)) => Ok(s),
        }
    }
}

impl StoreUpdateDomainCheck {
    /// Continues an update once storage says which store, if any, has the
    /// new domain: a taken domain is refused.
    pub fn resume(self, found: Result<Option<Store>, RepoError>) -> (r: Result<StoreApply, StoreServiceError>)
        ensures
            found is Err ==> r == internal::<StoreApply>(Err(found->Err_0)),
            found matches Ok(Some(_)) ==> r == Err::<StoreApply, StoreServiceError>(StoreServiceError::DomainAlreadyExists),
            found matches Ok(None) ==> r == Ok::<StoreApply, StoreServiceError>(StoreApply { update: self.update }),
    {
        match found {
            Err(e) => Err(StoreServiceError::InternalError(e.message)),
            Ok(Some(_)) => Err(StoreServiceError::DomainAlreadyExists),
            Ok(None) => Ok(StoreApply { update: self.update }),
        }
    }
}

/// The change a store update asks for: new name, normalized domain and
/// description, with the existing API token and status kept.
pub open spec fn update_of(store_id: u128, existing: Store, name: String, domain: Option<Seq<char>>, description: Option<String>, u: StoreUpdate) -> bool {
    &&& u.id@ == uuid_hyphenated(store_id)
    &&& u.name == name
    &&& u.domain.deep_view() == domain
    &&& u.description == description
    &&& u.api_token == existing.api_token
    &&& u.status == existing.status
}

/// A domain needs checking when it is present and differs from the store's
/// current one.
pub open spec fn domain_changes(domain: Option<Seq<char>>, current: Option<String>) -> bool {
    domain matches Some(d) && current.deep_view() != Some(d)
}

/// Store update waiting for the lookup of the store.
#[derive(Debug, Clone, PartialEq, Eq)]
pub struct UpdateStore {
    pub lookup: StoreLookup,
    pub name: String,
    pub domain: Option<String>,
    pub description: Option<String>,
}

/// Whether an optional text equals a text.
fn option_text_eq(a: &Option<String>, b: &String) -> (r: bool)
    ensures
        r == (a.deep_view() == Some(b@)),
{
    match a {
        Some(x) => *x == *b,
        None => false,
    }
}

impl UpdateStore {
    /// Continues an update once the store has been looked up: the store must
    /// belong to the user; a changed domain is checked before the change.
    pub fn resume(self, found: Result<Option<Store>, RepoError>) -> (r: Result<UpdateStoreNext, StoreServiceError>)
        ensures
            owned_store(self.lookup.user_id, found) is Err ==> r == Err::<UpdateStoreNext, StoreServiceError>(owned_store(self.lookup.user_id, found)->Err_0),
            owned_store(self.lookup.user_id, found) matches Ok(existing) ==> {
                let domain = normalized_domain(self.domain.deep_view());
                if domain_changes(domain, existing.domain) {
                    r matches Ok(UpdateStoreNext::CheckDomain(c)) && Some(c.domain@) == domain
                        && update_of(self.lookup.store_id, existing, self.name, domain, self.description, c.update)
                } else {
                    r matches Ok(UpdateStoreNext::Apply(a))
                        && update_of(self.lookup.store_id, existing, self.name, domain, self.description, a.update)
                }
            },
    {
        let existing = match check_store_owner(self.lookup.user_id, found) {
            Ok(s) => s,
            Err(e) => return Err(e),
        };
        let domain = normalize_domain(self.domain);
        let id = uuid_to_string(self.lookup.store_id);
        match domain {
            Some(d) => {
                if !option_text_eq(&existing.domain, &d) {
                    let check = d.clone();
                    let update = StoreUpdate {
                        id,
                        name: self.name,
                        domain: Some(d),
                        description: self.description,
                        api_token: existing.api_token,
                        status: existing.status,
                    };
                    Ok(UpdateStoreNext::CheckDomain(StoreUpdateDomainCheck { domain: check, update }))
                } else {
                    Ok(UpdateStoreNext::Apply(StoreApply {
                        update: StoreUpdate {
                            id,
                            name: self.name,
                            domain: Some(d),
                            description: self.description,
                            api_token: existing.api_token,
                            status: existing.status,
                        },
                    }))
                }
            },
            None => Ok(UpdateStoreNext::Apply(StoreApply {
                update: StoreUpdate {
                    id,
                    name: self.name,
                    domain: None,
                    description: self.description,
                    api_token: existing.api_token,
                    status: existing.status,
                },
            })),
        }
    }
}

/// Store deletion waiting for the lookup of the store.
#[derive(Debug, Clone, PartialEq, Eq)]
pub struct DeleteStore {
    pub lookup: StoreLookup,
}

/// Store deletion waiting for storage to delete the store with id `id`.
#[derive(Debug, Clone, PartialEq, Eq)]
pub struct StoreDelete {
    pub id: String,
}

/// What becomes of a deletion once storage has answered.
pub open spec fn deleted_store(deleted: Result<bool, RepoError>) -> Result<(), StoreServiceError> {
    match deleted {
        Err(e) => Err(StoreServiceError::InternalError(e.message)),
        Ok(false) => Err(StoreServiceError::NotFound),
        Ok(true) => Ok(()),
    }
}

impl DeleteStore {
    /// Continues a deletion once the store has been looked up: only the
    /// owner's store is deleted.
    pub fn resume(self, found: Result<Option<Store>, RepoError>) -> (r: Result<StoreDelete, StoreServiceError>)
        ensures
            owned_store(self.lookup.user_id, found) is Err ==> r == Err::<StoreDelete, StoreServiceError>(owned_store(self.lookup.user_id, found)->Err_0),
            owned_store(self.lookup.user_id, found) is Ok ==> (r matches Ok(d) && d.id@ == uuid_hyphenated(self.lookup.store_id)),
    {
        match check_store_owner(self.lookup.user_id, found) {
            Err(e) => Err(e),
            Ok(_) => Ok(StoreDelete { id: uuid_to_string(self.lookup.store_id) }),
        }
    }
}

impl StoreDelete {
    /// Finishes a deletion: a deletion that removed nothing is `NotFound`.
    pub fn finish(self, deleted: Result<bool, RepoError>) -> (r: Result<(), StoreServiceError>)
        ensures
            r == deleted_store(deleted),
    {
        match deleted {
            Err(e) => Err(StoreServiceError::InternalError(e.message)),
            Ok(false) => Err(StoreServiceError::NotFound),
            Ok(true) => Ok(()),
        }
    }
}

/// API token rotation waiting for the lookup of the store.
#[derive(Debug, Clone, PartialEq, Eq)]
pub struct RotateApiToken {
    pub lookup: StoreLookup,
}

/// The change a token rotation asks for: every field kept but the token,
/// which is made from some UUID.
pub open spec fn rotation_of(store_id: u128, existing: Store, u: StoreUpdate) -> bool {
    &&& u.id@ == uuid_hyphenated(store_id)
    &&& u.name == existing.name
    &&& u.domain == existing.domain
    &&& u.description == existing.description
    &&& u.status == existing.status
    &&& u.api_token matches Some(t) && exists|id: u128| is_v4(id) && t@ == api_token_text(id)
}

impl RotateApiToken {
    /// Continues a rotation once the store has been looked up: only the
    /// owner's store gets a new token.
    pub fn resume(self, found: Result<Option<Store>, RepoError>) -> (r: Result<StoreApply, StoreServiceError>)
        ensures
            owned_store(self.lookup.user_id, found) is Err ==> r == Err::<StoreApply, StoreServiceError>(owned_store(self.lookup.user_id, found)->Err_0),
            owned_store(self.lookup.user_id, found) matches Ok(existing) ==> (r matches Ok(a) && rotation_of(self.lookup.store_id, existing, a.update)),
    {
        let existing = match check_store_owner(self.lookup.user_id, found) {
            Ok(s) => s,
            Err(e) => return Err(e),
        };
        let new_token = generate_api_token();
        Ok(StoreApply {
            update: StoreUpdate {
                id: uuid_to_string(self.lookup.store_id),
                name: existing.name,
                domain: existing.domain,
                description: existing.description,
                api_token: Some(new_token),
                status: existing.status,
            },
        })
    }
}

/// Listing a user's stores: storage is asked for the stores whose owner is
/// `user_id`.
#[derive(Debug, Clone, PartialEq, Eq)]
pub struct ListStores {
    pub user_id: String,
}

impl ListStores {
    /// Finishes the listing with storage's answer.
    pub fn finish(self, listed: Result<Vec<Store>, RepoError>) -> (r: Result<Vec<Store>, StoreServiceError>)
        ensures
            r == internal(listed),
    {
        match listed {
            Ok(v) => Ok(v),
            Err(e) => Err(StoreServiceError::InternalError(e.message)),
        }
    }
}

/// The store service: each operation starts here and is carried on by the
/// step values it returns, each asking storage for one thing.
#[derive(Debug, Clone, PartialEq, Eq)]
pub struct StoreService;

impl StoreService {
    /// Starts store creation: the domain is normalized; a remaining domain
    /// must be free before the store is inserted.
    pub fn create_store(
        user_id: u128,
        name: String,
        domain: Option<String>,
        description: Option<String>,
    ) -> (step: CreateStoreStep)
        ensures
            normalized_domain(domain.deep_view()) matches Some(d) ==> (step matches CreateStoreStep::CheckDomain(c)
                && c.domain@ == d && is_v4(c.store_id) && c.user_id == user_id && c.name == name
                && c.description == description),
            normalized_domain(domain.deep_view()) is None ==> (step matches CreateStoreStep::Insert(i)
                && exists|sid: u128| is_v4(sid) && inserted_store(i.new_store, sid, user_id, name, None, description)),
    {
        let store_id = new_uuid_v4();
        let normalized = normalize_domain(domain);
        match normalized {
            Some(d) => CreateStoreStep::CheckDomain(StoreDomainCheck {
                domain: d,
                store_id,
                user_id,
                name,
                description,
            }),
            None => CreateStoreStep::Insert(make_insert(store_id, user_id, name, None, description)),
        }
    }

    /// Starts a lookup of one of the user's stores.
    pub fn get_store(user_id: u128, store_id: u128) -> (l: StoreLookup)
        ensures
            l.user_id == user_id,
            l.store_id == store_id,
            l.id@ == uuid_hyphenated(store_id),
    {
        StoreLookup::new(user_id, store_id)
    }

    /// Starts listing the user's stores.
    pub fn list_stores(user_id: u128) -> (l: ListStores)
        ensures
            l.user_id@ == uuid_hyphenated(user_id),
    {
        ListStores { user_id: uuid_to_string(user_id) }
    }

    /// Starts an update of one of the user's stores.
    pub fn update_store(
        user_id: u128,
        store_id: u128,
        name: String,
        domain: Option<String>,
        description: Option<String>,
    ) -> (u: UpdateStore)
        ensures
            u.lookup.user_id == user_id,
            u.lookup.store_id == store_id,
            u.lookup.id@ == uuid_hyphenated(store_id),
            u.name == name,
            u.domain == domain,
            u.description == description,
    {
        UpdateStore { lookup: StoreLookup::new(user_id, store_id), name, domain, description }
    }

    /// Starts deleting one of the user's stores.
    pub fn delete_store(user_id: u128, store_id: u128) -> (d: DeleteStore)
        ensures
            d.lookup.user_id == user_id,
            d.lookup.store_id == store_id,
            d.lookup.id@ == uuid_hyphenated(store_id),
    {
        DeleteStore { lookup: StoreLookup::new(user_id, store_id) }
    }

    /// Starts replacing the API token of one of the user's stores.
    pub fn rotate_api_token(user_id: u128, store_id: u128) -> (t: RotateApiToken)
        ensures
            t.lookup.user_id == user_id,
            t.lookup.store_id == store_id,
            t.lookup.id@ == uuid_hyphenated(store_id),
    {
        RotateApiToken { lookup: StoreLookup::new(user_id, store_id) }
    }
}

} // verus!
