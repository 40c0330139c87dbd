//! What clients are answered: which requests pass validation, and which
//! HTTP status each service error gives, with internal details never shown.

use vstd::prelude::*;
use crate::catalog::{
    applied_product_update, deleted_product, product_error_response, product_request_violations, Product,
    ProductServiceError,
};
use crate::storage::{refused_with, RepoError};
use crate::chat::{chat_error_response, ChatServiceError};
use crate::http::{
    STATUS_BAD_GATEWAY, STATUS_CONFLICT, STATUS_FORBIDDEN, STATUS_INTERNAL_SERVER_ERROR,
    STATUS_NOT_FOUND, STATUS_UNPROCESSABLE_ENTITY,
};
use crate::store::{
    applied_update, created_store, deleted_store, store_error_response, store_request_violations, Store,
    StoreServiceError,
};

verus! {

/// An optional text has at most `max` characters when present.
pub open spec fn at_most(s: Option<String>, max: int) -> bool {
    s matches Some(t) ==> t@.len() <= max
}

/// Some entry of the violations names `field`.
pub open spec fn names_field(v: Seq<(Seq<char>, Seq<char>)>, field: Seq<char>) -> bool {
    exists|k: int| 0 <= k < v.len() && (#[trigger] v[k]).0 == field
}

/// A store request passes exactly when its name has 1 to 255 characters,
/// its domain at most 255 and its description at most 2000; each field that
/// breaks its rule is reported under its own name.
pub proof fn law_store_request_rules(name: String, domain: Option<String>, description: Option<String>)
    ensures
        store_request_violations(name, domain, description).len() == 0 <==> (1 <= name@.len() <= 255
            && at_most(domain, 255) && at_most(description, 2000)),
        !(1 <= name@.len() <= 255) ==> names_field(store_request_violations(name, domain, description), "name"@),
        !at_most(domain, 255) ==> names_field(store_request_violations(name, domain, description), "domain"@),
        !at_most(description, 2000) ==> names_field(
            store_request_violations(name, domain, description),
            "description"@,
        ),
{
    reveal_strlit("name");
    reveal_strlit("domain");
    reveal_strlit("description");
    let v = store_request_violations(name, domain, description);
    let e1: Seq<(Seq<char>, Seq<char>)> = if at_most(description, 2000) { Seq::empty() } else {
        seq![("description"@, "Description is too long"@)]
    };
    let e2: Seq<(Seq<char>, Seq<char>)> = if at_most(domain, 255) { Seq::empty() } else {
        seq![("domain"@, "Domain is too long"@)]
    };
    let e3: Seq<(Seq<char>, Seq<char>)> = if 1 <= name@.len() <= 255 { Seq::empty() } else {
        seq![("name"@, "Store name is required"@)]
    };
    assert(v =~= e1 + e2 + e3);
    if !at_most(description, 2000) {
        assert(v[0] == e1[0]);
    }
    if !at_most(domain, 255) {
        assert(v[e1.len() as int] == e2[0]);
    }
    if !(1 <= name@.len() <= 255) {
        assert(v[(e1.len() + e2.len()) as int] == e3[0]);
    }
}

/// A product request passes exactly when its name has 1 to 255 characters,
/// its category and external id at most 255 and its source at most 50; each
/// field that breaks its rule is reported under its own name.
pub proof fn law_product_request_rules(
    name: String,
    category: Option<String>,
    external_id: Option<String>,
    source: Option<String>,
)
    ensures
        product_request_violations(name, category, external_id, source).len() == 0 <==> (1 <= name@.len() <= 255
            && at_most(category, 255) && at_most(external_id, 255) && at_most(source, 50)),
        !(1 <= name@.len() <= 255) ==> names_field(product_request_violations(name, category, external_id, source), "name"@),
        !at_most(category, 255) ==> names_field(product_request_violations(name, category, external_id, source), "category"@),
        !at_most(external_id, 255) ==> names_field(
            product_request_violations(name, category, external_id, source),
            "external_id"@,
        ),
        !at_most(source, 50) ==> names_field(product_request_violations(name, category, external_id, source), "source"@),
{
    reveal_strlit("name");
    reveal_strlit("category");
    reveal_strlit("external_id");
    reveal_strlit("source");
    let v = product_request_violations(name, category, external_id, source);
    let e1: Seq<(Seq<char>, Seq<char>)> = if at_most(category, 255) { Seq::empty() } else {
        seq![("category"@, "Category is too long"@)]
    };
    let e2: Seq<(Seq<char>, Seq<char>)> = if at_most(external_id, 255) { Seq::empty() } else {
        seq![("external_id"@, "External ID is too long"@)]
    };
    let e3: Seq<(Seq<char>, Seq<char>)> = if 1 <= name@.len() <= 255 { Seq::empty() } else {
        seq![("name"@, "Product name is required"@)]
    };
    let e4: Seq<(Seq<char>, Seq<char>)> = if at_most(source, 50) { Seq::empty() } else {
        seq![("source"@, "Source is too long"@)]
    };
    assert(v =~= e1 + e2 + e3 + e4);
    if !at_most(category, 255) {
        assert(v[0] == e1[0]);
    }
    if !at_most(external_id, 255) {
        assert(v[e1.len() as int] == e2[0]);
    }
    if !(1 <= name@.len() <= 255) {
        assert(v[(e1.len() + e2.len()) as int] == e3[0]);
    }
    if !at_most(source, 50) {
        assert(v[(e1.len() + e2.len() + e3.len()) as int] == e4[0]);
    }
}

/// Store errors: a missing or foreign store is 404, a taken domain 409, and
/// every internal failure the same 500 answer, whatever its message.
pub proof fn law_store_error_statuses(m1: String, m2: String)
    ensures
        store_error_response(StoreServiceError::NotFound).0 == STATUS_NOT_FOUND,
        store_error_response(StoreServiceError::DomainAlreadyExists).0 == STATUS_CONFLICT,
        store_error_response(StoreServiceError::InternalError(m1)).0 == STATUS_INTERNAL_SERVER_ERROR,
        store_error_response(StoreServiceError::InternalError(m1)) == store_error_response(
            StoreServiceError::InternalError(m2),
        ),
{
}

/// Product errors: a missing product or store is 404, a foreign store 403,
/// bad `specs` or `faq` JSON 422, and every internal failure the same 500
/// answer, whatever its message.
pub proof fn law_product_error_statuses(m1: String, m2: String)
    ensures
        product_error_response(ProductServiceError::NotFound).0 == STATUS_NOT_FOUND,
        product_error_response(ProductServiceError::StoreNotFound).0 == STATUS_NOT_FOUND,
        product_error_response(ProductServiceError::Forbidden).0 == STATUS_FORBIDDEN,
        product_error_response(ProductServiceError::InvalidSpecsFormat).0 == STATUS_UNPROCESSABLE_ENTITY,
        product_error_response(ProductServiceError::InvalidFaqFormat).0 == STATUS_UNPROCESSABLE_ENTITY,
        product_error_response(ProductServiceError::InternalError(m1)).0 == STATUS_INTERNAL_SERVER_ERROR,
        product_error_response(ProductServiceError::InternalError(m1)) == product_error_response(
            ProductServiceError::InternalError(m2),
        ),
{
}

/// Chat errors: an unknown or foreign store is 404, a failed model call 502
/// and every internal failure 500, each the same answer whatever the
/// failure's message.
pub proof fn law_chat_error_statuses(m1: String, m2: String)
    ensures
        chat_error_response(ChatServiceError::StoreNotFound).0 == STATUS_NOT_FOUND,
        chat_error_response(ChatServiceError::LlmError(m1)).0 == STATUS_BAD_GATEWAY,
        chat_error_response(ChatServiceError::InternalError(m1)).0 == STATUS_INTERNAL_SERVER_ERROR,
        chat_error_response(ChatServiceError::LlmError(m1)) == chat_error_response(ChatServiceError::LlmError(m2)),
        chat_error_response(ChatServiceError::InternalError(m1)) == chat_error_response(
            ChatServiceError::InternalError(m2),
        ),
{
}

/// A deletion succeeds exactly when storage deleted a row; when none was
/// deleted the answer is "not found", and a storage failure is an internal
/// error carrying its message.
pub proof fn law_deletion_needs_a_deleted_row(d: Result<bool, RepoError>)
    ensures
        deleted_store(d) is Ok <==> d == Ok::<bool, RepoError>(true),
        deleted_product(d) is Ok <==> d == Ok::<bool, RepoError>(true),
        d == Ok::<bool, RepoError>(false) ==> deleted_store(d) == Err::<(), StoreServiceError>(StoreServiceError::NotFound),
        d == Ok::<bool, RepoError>(false) ==> deleted_product(d) == Err::<(), ProductServiceError>(ProductServiceError::NotFound),
        d matches Err(e) ==> deleted_store(d) == Err::<(), StoreServiceError>(StoreServiceError::InternalError(e.message)),
        d matches Err(e) ==> deleted_product(d) == Err::<(), ProductServiceError>(ProductServiceError::InternalError(e.message)),
{
}

/// An update answers with exactly the record storage gives back after
/// changing it; when no row was changed the answer is "not found".
pub proof fn law_update_answers_the_stored_record(s: Result<Option<Store>, RepoError>, p: Result<Option<Product>, RepoError>)
    ensures
        s matches Ok(Some(x)) ==> applied_update(s) == Ok::<Store, StoreServiceError>(x),
        s == Ok::<Option<Store>, RepoError>(None) ==> applied_update(s) == Err::<Store, StoreServiceError>(StoreServiceError::NotFound),
        s matches Err(e) ==> applied_update(s) == Err::<Store, StoreServiceError>(StoreServiceError::InternalError(e.message)),
        p matches Ok(Some(x)) ==> applied_product_update(p) == Ok::<Product, ProductServiceError>(x),
        p == Ok::<Option<Product>, RepoError>(None) ==> applied_product_update(p) == Err::<Product, ProductServiceError>(ProductServiceError::NotFound),
        p matches Err(e) ==> applied_product_update(p) == Err::<Product, ProductServiceError>(ProductServiceError::InternalError(e.message)),
{
}

/// Store creation answers with exactly the store storage inserted; an
/// insert refused for its owner (a foreign key) is "not found", any other
/// failure an internal error carrying its message.
pub proof fn law_creation_answers_the_stored_store(c: Result<Store, RepoError>)
    ensures
        c matches Ok(x) ==> created_store(c) == Ok::<Store, StoreServiceError>(x),
        c matches Err(e) && refused_with(e, "FOREIGN KEY constraint failed"@)
            ==> created_store(c) == Err::<Store, StoreServiceError>(StoreServiceError::NotFound),
        c matches Err(e) ==> (!refused_with(e, "FOREIGN KEY constraint failed"@)
            ==> created_store(c) == Err::<Store, StoreServiceError>(StoreServiceError::InternalError(e.message))),
{
}

} // verus!
