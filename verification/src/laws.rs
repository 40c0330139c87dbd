//! Properties that span several operations of the library.

use vstd::prelude::*;
use crate::auth::{
    argon2id_prefix, authentication_answer, bad_subject_response, bearer_token, invalid_token_response,
    password_check, registered_hash, spec_jwt_decode, token_expired, token_issued_at, PasswordCheck,
};
use crate::config::Config;
use crate::text::has_prefix;
use vstd::utf8::encode_utf8;
use crate::catalog::{
    applied_product_update, inserted_product, json_fields_check, product_response_of, product_update_of, store_access,
    CreateProductRequest, NewProduct, Product, ProductServiceError, ProductUpdate, UpdateProductRequest,
};
use crate::json::spec_json_kind;
use crate::chat::{found_room, ChatRoom, ChatServiceError};
use crate::http::ErrorBodyView;
use crate::ids::{
    is_hex_lower, lemma_hex_digit, lemma_uuid_text_injective, spec_parse_uuid, uuid_hyphenated, uuid_nibble,
    uuid_simple,
};
use crate::store::{
    api_token_text, domain_changes, inserted_store, normalized_domain, owned_store, response_of, rotation_of,
    update_of, NewStore, Store, StoreServiceError, StoreUpdate,
};
use crate::storage::RepoError;
use crate::text::without_char;

verus! {

/// A token issued to a user, presented as a bearer token before it has
/// expired (with the 60 seconds of leeway), authenticates that very user.
pub proof fn law_issued_token_authenticates_its_user(
    token: Seq<char>,
    user_id: u128,
    iat: i64,
    config: Config,
    now_secs: int,
)
    requires
        token_issued_at(token, user_id, iat, config),
        !token_expired((iat + config.jwt_expires_hours * 3600) as usize, now_secs),
    ensures
        authentication_answer(Some("Bearer "@ + token), config.jwt_secret@, now_secs) == Ok::<u128, (u16, ErrorBodyView)>(user_id),
{
    reveal_strlit("Bearer ");
    let h = "Bearer "@ + token;
    assert(h.take(7) =~= "Bearer "@);
    assert(h.skip(7) =~= token);
    assert(bearer_token(Some(h)) == Some(token));
}

/// The same token, presented once it has expired, is refused as invalid or
/// expired.
pub proof fn law_expired_token_is_refused(
    token: Seq<char>,
    user_id: u128,
    iat: i64,
    config: Config,
    now_secs: int,
)
    requires
        token_issued_at(token, user_id, iat, config),
        token_expired((iat + config.jwt_expires_hours * 3600) as usize, now_secs),
    ensures
        authentication_answer(Some("Bearer "@ + token), config.jwt_secret@, now_secs)
            == Err::<u128, (u16, ErrorBodyView)>(invalid_token_response()),
{
    reveal_strlit("Bearer ");
    let h = "Bearer "@ + token;
    assert(h.take(7) =~= "Bearer "@);
    assert(h.skip(7) =~= token);
    assert(bearer_token(Some(h)) == Some(token));
}

/// A request is only ever accepted with a bearer token that decodes under
/// the configured secret, has not expired, and whose subject reads as the
/// accepted user's id; a token that does not decode under the secret
/// (signed with another key, malformed, or without its claims) is refused
/// as invalid or expired; one that verifies with a subject that is not a
/// UUID is a server error.
pub proof fn law_only_tokens_of_the_secret_are_accepted(header: Option<Seq<char>>, secret: Seq<char>, now_secs: int)
    ensures
        authentication_answer(header, secret, now_secs) matches Ok(id) ==> (bearer_token(header) matches Some(token)
            && spec_jwt_decode(token, encode_utf8(secret)) matches Some((Some(sub), Some(exp), Some(_)))
            && !token_expired(exp, now_secs) && spec_parse_uuid(sub) == Some(id)),
        bearer_token(header) matches Some(token) && !(spec_jwt_decode(token, encode_utf8(secret)) matches Some((Some(_), Some(_), Some(_))))
            ==> authentication_answer(header, secret, now_secs) == Err::<u128, (u16, ErrorBodyView)>(invalid_token_response()),
        bearer_token(header) matches Some(token)
            && spec_jwt_decode(token, encode_utf8(secret)) matches Some((Some(sub), Some(exp), Some(_)))
            && !token_expired(exp, now_secs) && spec_parse_uuid(sub) is None
            ==> authentication_answer(header, secret, now_secs) == Err::<u128, (u16, ErrorBodyView)>(bad_subject_response()),
{
}

/// A password accepted at registration matches its stored hash at login.
pub proof fn law_registered_password_logs_in(password: Seq<char>, stored: Seq<char>)
    requires
        registered_hash(password, stored),
    ensures
        password_check(password, stored) == PasswordCheck::Match,
{
}

/// The hash stored at registration is not the password itself, unless the
/// password is written like an Argon2id hash.
pub proof fn law_stored_hash_is_not_the_password(password: Seq<char>, stored: Seq<char>)
    requires
        registered_hash(password, stored),
        !has_prefix(password, argon2id_prefix()),
    ensures
        stored != password,
{
}

/// A store that belongs to someone else is answered exactly as a store
/// that does not exist.
pub proof fn law_foreign_store_is_not_found(user_id: u128, s: Store)
    requires
        s.user_id@ != uuid_hyphenated(user_id),
    ensures
        owned_store(user_id, Ok(Some(s))) == owned_store(user_id, Ok::<Option<Store>, RepoError>(None)),
{
}

/// Every store handed on by a lookup (to be shown, changed, deleted or
/// given a new token) belongs to the user it was looked up for.
pub proof fn law_looked_up_store_is_owned(user_id: u128, found: Result<Option<Store>, RepoError>)
    ensures
        owned_store(user_id, found) matches Ok(s) ==> (found == Ok::<Option<Store>, RepoError>(Some(s))
            && s.user_id@ == uuid_hyphenated(user_id)),
{
}

/// The public and the owner's view of a store differ in the API token
/// only: the public one never shows it, the owner's one shows the store's.
pub proof fn law_responses_differ_in_token_only(store: Store)
    ensures
        response_of(store, None).api_token is None,
        response_of(store, store.api_token).api_token == store.api_token,
        ({
            let p = response_of(store, None);
            let o = response_of(store, store.api_token);
            p.id == o.id && p.user_id == o.user_id && p.name == o.name && p.domain == o.domain
                && p.description == o.description && p.status == o.status
                && p.created_at == o.created_at && p.updated_at == o.updated_at
        }),
{
}

/// A user may work on the products of a store only when the store exists
/// and belongs to that user; a store of someone else is refused as
/// forbidden, one that does not exist as not found.
pub proof fn law_product_access_needs_store_owner(user_id: u128, found: Result<Option<Store>, RepoError>)
    ensures
        store_access(user_id, found) is Ok <==> (found matches Ok(Some(s)) && s.user_id@ == uuid_hyphenated(user_id)),
        found matches Ok(Some(s)) && s.user_id@ != uuid_hyphenated(user_id)
            ==> store_access(user_id, found) == Err::<(), ProductServiceError>(ProductServiceError::Forbidden),
        found == Ok::<Option<Store>, RepoError>(None)
            ==> store_access(user_id, found) == Err::<(), ProductServiceError>(ProductServiceError::StoreNotFound),
{
}

/// A question is only ever added to a chat room of the asking user: the
/// room of someone else is refused, and a room that is handed on is the
/// one found and belongs to the user.
pub proof fn law_chat_room_belongs_to_asker(
    user_id: u128,
    found: Result<Option<ChatRoom>, RepoError>,
    r: Result<ChatRoom, ChatServiceError>,
)
    requires
        found_room(user_id, found, r),
    ensures
        r matches Ok(room) ==> found == Ok::<Option<ChatRoom>, RepoError>(Some(room))
            && room.user_id@ == uuid_hyphenated(user_id),
        found matches Ok(Some(room)) && room.user_id@ != uuid_hyphenated(user_id)
            ==> r == Err::<ChatRoom, ChatServiceError>(ChatServiceError::StoreNotFound),
{
}

/// A store created for one user is never handed to another: looking it
/// up for anyone else answers "not found", and working on its products is
/// forbidden to anyone else.
pub proof fn law_store_is_private_to_its_owner(owner: u128, user: u128, s: Store)
    requires
        s.user_id@ == uuid_hyphenated(owner),
        user != owner,
    ensures
        owned_store(user, Ok(Some(s))) == Err::<Store, StoreServiceError>(StoreServiceError::NotFound),
        store_access(user, Ok(Some(s))) == Err::<(), ProductServiceError>(ProductServiceError::Forbidden),
{
    if s.user_id@ == uuid_hyphenated(user) {
        lemma_uuid_text_injective(owner, user);
    }
}

/// A chat room opened by one user is refused to every other user.
pub proof fn law_chat_room_is_private_to_its_owner(
    owner: u128,
    user: u128,
    room: ChatRoom,
    r: Result<ChatRoom, ChatServiceError>,
)
    requires
        room.user_id@ == uuid_hyphenated(owner),
        user != owner,
        found_room(user, Ok(Some(room)), r),
    ensures
        r == Err::<ChatRoom, ChatServiceError>(ChatServiceError::StoreNotFound),
{
    if room.user_id@ == uuid_hyphenated(user) {
        lemma_uuid_text_injective(owner, user);
    }
}

/// Storage applied a product change: the product after it carries the
/// change's fields and keeps its id, store and creation time.
pub open spec fn product_change_applied(before: Product, u: ProductUpdate, after: Product) -> bool {
    &&& u.id == before.id
    &&& after.id == before.id
    &&& after.store_id == before.store_id
    &&& after.created_at == before.created_at
    &&& after.name == u.name
    &&& after.category == u.category
    &&& after.description == u.description
    &&& after.specs == u.specs
    &&& after.manual == u.manual
    &&& after.faq == u.faq
    &&& after.status == u.status
    &&& after.external_id == u.external_id
    &&& after.source == u.source
}

/// Repeating a product update with the same request asks for the same
/// change, and leaves the product as the first update left it but for the
/// time of the update. The steps are those of `update_product`: the change
/// asked for is the one `UpdateProductAccess::resume` makes of the product
/// found and the request, storage applies it, and `ProductApply::finish`
/// answers with the product storage gives back.
pub proof fn law_repeated_product_update_changes_nothing_more(
    p0: Product,
    req: UpdateProductRequest,
    u1: ProductUpdate,
    updated1: Result<Option<Product>, RepoError>,
    u2: ProductUpdate,
    updated2: Result<Option<Product>, RepoError>,
)
    requires
        product_update_of(p0, req, u1),
        updated1 matches Ok(Some(q1)) && product_change_applied(p0, u1, q1),
        applied_product_update(updated1) matches Ok(q1) && product_update_of(q1, req, u2),
        updated2 matches Ok(Some(q2)) && product_change_applied(updated1->Ok_0->Some_0, u2, q2),
    ensures
        u2 == u1,
        applied_product_update(updated1) matches Ok(q1) && applied_product_update(updated2) matches Ok(q2)
            && q2 == (Product { updated_at: q2.updated_at, ..q1 }),
{
}

/// The JSON texts of a created product come back unchanged in its
/// response: they passed the checks (`specs` an object, `faq` an array),
/// went into the insert as given, and storage keeps them.
pub proof fn law_created_product_json_is_shown(
    req: CreateProductRequest,
    n: NewProduct,
    product_id: u128,
    store_id: u128,
    p: Product,
)
    requires
        json_fields_check(req.specs, req.faq) is Ok,
        inserted_product(n, product_id, store_id, req),
        p.specs == n.specs,
        p.faq == n.faq,
    ensures
        product_response_of(p).specs == req.specs,
        product_response_of(p).faq == req.faq,
{
    if let Some(t) = req.specs {
        assert(spec_json_kind(t@) is Some);
    }
    if let Some(t) = req.faq {
        assert(spec_json_kind(t@) is Some);
    }
}

/// The domains of the stores, in order.
pub open spec fn domains_of(db: Seq<Store>) -> Seq<Option<Seq<char>>> {
    db.map_values(|s: Store| s.domain.deep_view())
}

/// Some store in `db` has the domain `d`.
pub open spec fn domain_taken(db: Seq<Store>, d: Seq<char>) -> bool {
    domains_of(db).contains(Some(d))
}

/// No domain occurs twice.
pub open spec fn domains_apart(ds: Seq<Option<Seq<char>>>) -> bool {
    forall|i: int, j: int| 0 <= i < ds.len() && 0 <= j < ds.len() && i != j && ds[i] is Some ==> ds[i] != ds[j]
}

/// A stored domain is absent, or the non-empty normalized form of some
/// requested text.
pub open spec fn domain_normalized(d: Option<Seq<char>>) -> bool {
    d matches Some(x) ==> x.len() > 0 && exists|t: Seq<char>| normalized_domain(Some(t)) == Some(x)
}

/// The stores keep their domains apart and normalized: no two stores share
/// a domain, and every domain is the non-empty normalized form of some
/// requested text.
pub open spec fn domains_well_kept(db: Seq<Store>) -> bool {
    &&& domains_apart(domains_of(db))
    &&& forall|i: int| 0 <= i < db.len() ==> domain_normalized(#[trigger] domains_of(db)[i])
}

/// A normalized domain is a well-kept one.
proof fn lemma_normalized_is_kept(domain: Option<Seq<char>>)
    ensures
        domain_normalized(normalized_domain(domain)),
{
    if let Some(t) = domain {
        if let Some(x) = normalized_domain(domain) {
            assert(normalized_domain(Some(t)) == Some(x));
        }
    }
}

/// Putting at position `k` a domain that is absent, the one already there,
/// or one that occurs nowhere keeps domains apart.
proof fn lemma_apart_update(ds: Seq<Option<Seq<char>>>, k: int, x: Option<Seq<char>>)
    requires
        domains_apart(ds),
        0 <= k < ds.len(),
        x is None || x == ds[k] || !ds.contains(x),
    ensures
        domains_apart(ds.update(k, x)),
{
    let d2 = ds.update(k, x);
    assert forall|i: int, j: int| 0 <= i < d2.len() && 0 <= j < d2.len() && i != j && d2[i] is Some implies d2[i] != d2[j] by {
        if i == k {
            if x != ds[k] && d2[j] == x {
                assert(ds[j] == x);
            }
        } else if j == k {
            if x != ds[k] && d2[i] == x {
                assert(ds[i] == x);
            }
        }
    }
}

/// Adding a domain that is absent or occurs nowhere keeps domains apart.
proof fn lemma_apart_push(ds: Seq<Option<Seq<char>>>, x: Option<Seq<char>>)
    requires
        domains_apart(ds),
        x is None || !ds.contains(x),
    ensures
        domains_apart(ds.push(x)),
{
    let d2 = ds.push(x);
    assert forall|i: int, j: int| 0 <= i < d2.len() && 0 <= j < d2.len() && i != j && d2[i] is Some implies d2[i] != d2[j] by {
        if i == ds.len() {
            assert(d2[j] == ds[j]);
        } else if j == ds.len() {
            assert(d2[i] == ds[i]);
            if d2[i] == x {
                assert(ds[i] == x);
            }
        } else {
            assert(d2[i] == ds[i] && d2[j] == ds[j]);
        }
    }
}

/// Removing a domain keeps domains apart.
proof fn lemma_apart_remove(ds: Seq<Option<Seq<char>>>, k: int)
    requires
        domains_apart(ds),
        0 <= k < ds.len(),
    ensures
        domains_apart(ds.remove(k)),
{
    let d2 = ds.remove(k);
    assert forall|i: int, j: int| 0 <= i < d2.len() && 0 <= j < d2.len() && i != j && d2[i] is Some implies d2[i] != d2[j] by {
        let a = if i < k { i } else { i + 1 };
        let b = if j < k { j } else { j + 1 };
        assert(d2[i] == ds[a] && d2[j] == ds[b]);
    }
}

/// Store creation keeps domains unique and normalized: the inserted store
/// carries the normalized requested domain, which storage reported free.
pub proof fn law_store_creation_keeps_domains(
    db: Seq<Store>,
    domain: Option<Seq<char>>,
    n: NewStore,
    store_id: u128,
    user_id: u128,
    name: String,
    description: Option<String>,
    s: Store,
)
    requires
        domains_well_kept(db),
        normalized_domain(domain) matches Some(d) ==> !domain_taken(db, d),
        inserted_store(n, store_id, user_id, name, normalized_domain(domain), description),
        s.domain == n.domain,
    ensures
        domains_well_kept(db.push(s)),
{
    lemma_normalized_is_kept(domain);
    let ds = domains_of(db);
    assert(domains_of(db.push(s)) =~= ds.push(s.domain.deep_view()));
    lemma_apart_push(ds, s.domain.deep_view());
    assert forall|i: int| 0 <= i < db.push(s).len() implies domain_normalized(#[trigger] domains_of(db.push(s))[i]) by {
        if i < db.len() {
            assert(domains_of(db.push(s))[i] == ds[i]);
        }
    }
}

/// A store update keeps domains unique and normalized: the stored domain
/// is the normalized requested one, which storage reported free whenever it
/// differs from the store's current domain.
#[verifier::spinoff_prover]
pub proof fn law_store_update_keeps_domains(
    db: Seq<Store>,
    k: int,
    store_id: u128,
    name: String,
    domain: Option<Seq<char>>,
    description: Option<String>,
    u: StoreUpdate,
    s: Store,
)
    requires
        domains_well_kept(db),
        0 <= k < db.len(),
        update_of(store_id, db[k], name, normalized_domain(domain), description, u),
        domain_changes(normalized_domain(domain), db[k].domain) ==> (normalized_domain(domain) matches Some(d)
            && !domain_taken(db, d)),
        s.domain == u.domain,
    ensures
        domains_well_kept(db.update(k, s)),
{
    lemma_normalized_is_kept(domain);
    let ds = domains_of(db);
    let x = s.domain.deep_view();
    assert(domains_of(db.update(k, s)) =~= ds.update(k, x));
    assert(ds[k] == db[k].domain.deep_view());
    lemma_apart_update(ds, k, x);
    assert forall|i: int| 0 <= i < db.update(k, s).len() implies domain_normalized(#[trigger] domains_of(db.update(k, s))[i]) by {
        if i != k {
            assert(domains_of(db.update(k, s))[i] == ds[i]);
        }
    }
}

/// Replacing a store's API token keeps domains unique and normalized: the
/// domain is kept.
pub proof fn law_token_rotation_keeps_domains(db: Seq<Store>, k: int, store_id: u128, u: StoreUpdate, s: Store)
    requires
        domains_well_kept(db),
        0 <= k < db.len(),
        rotation_of(store_id, db[k], u),
        s.domain == u.domain,
    ensures
        domains_well_kept(db.update(k, s)),
{
    let ds = domains_of(db);
    assert(domains_of(db.update(k, s)) =~= ds);
}

/// Deleting a store keeps domains unique and normalized.
#[verifier::spinoff_prover]
pub proof fn law_store_deletion_keeps_domains(db: Seq<Store>, k: int)
    requires
        domains_well_kept(db),
        0 <= k < db.len(),
    ensures
        domains_well_kept(db.remove(k)),
{
    let ds = domains_of(db);
    assert(domains_of(db.remove(k)) =~= ds.remove(k));
    lemma_apart_remove(ds, k);
    assert forall|i: int| 0 <= i < db.remove(k).len() implies domain_normalized(#[trigger] domains_of(db.remove(k))[i]) by {
        let a = if i < k { i } else { i + 1 };
        assert(domains_of(db.remove(k))[i] == ds[a]);
    }
}

/// One store operation that reached storage: what was asked, and what
/// storage stored. `k` is the position of the store the operation found.
pub enum StoreChange {
    Create {
        domain: Option<Seq<char>>,
        new_store: NewStore,
        store_id: u128,
        user_id: u128,
        name: String,
        description: Option<String>,
        stored: Store,
    },
    Update {
        k: int,
        store_id: u128,
        name: String,
        domain: Option<Seq<char>>,
        description: Option<String>,
        update: StoreUpdate,
        stored: Store,
    },
    Rotate { k: int, store_id: u128, update: StoreUpdate, stored: Store },
    Delete { k: int },
}

/// The operation is one the store steps carry out on `db`: creation inserts
/// the store `StoreDomainCheck::resume` or `create_store` builds, after
/// storage reported the normalized domain free; an update applies the
/// change `UpdateStore::resume` builds, after storage reported a changed
/// domain free; a rotation applies the change `RotateApiToken::resume`
/// builds; a deletion removes a store that exists. Storage stores the
/// domain it is given.
pub open spec fn change_allowed(db: Seq<Store>, c: StoreChange) -> bool {
    match c {
        StoreChange::Create { domain, new_store, store_id, user_id, name, description, stored } => {
            &&& normalized_domain(domain) matches Some(d) ==> !domain_taken(db, d)
            &&& inserted_store(new_store, store_id, user_id, name, normalized_domain(domain), description)
            &&& stored.domain == new_store.domain
        },
        StoreChange::Update { k, store_id, name, domain, description, update, stored } => {
            &&& 0 <= k < db.len()
            &&& update_of(store_id, db[k], name, normalized_domain(domain), description, update)
            &&& domain_changes(normalized_domain(domain), db[k].domain) ==> (normalized_domain(domain) matches Some(d)
                && !domain_taken(db, d))
            &&& stored.domain == update.domain
        },
        StoreChange::Rotate { k, store_id, update, stored } => {
            &&& 0 <= k < db.len()
            &&& rotation_of(store_id, db[k], update)
            &&& stored.domain == update.domain
        },
        StoreChange::Delete { k } => 0 <= k < db.len(),
    }
}

/// The stores after the operation.
pub open spec fn apply_change(db: Seq<Store>, c: StoreChange) -> Seq<Store> {
    match c {
        StoreChange::Create { stored, .. } => db.push(stored),
        StoreChange::Update { k, stored, .. } => db.update(k, stored),
        StoreChange::Rotate { k, stored, .. } => db.update(k, stored),
        StoreChange::Delete { k } => db.remove(k),
    }
}

/// The stores after a sequence of operations, from no store at all.
pub open spec fn replay(changes: Seq<StoreChange>) -> Seq<Store>
    decreases changes.len(),
{
    if changes.len() == 0 {
        Seq::empty()
    } else {
        apply_change(replay(changes.drop_last()), changes.last())
    }
}

/// Each operation of the sequence is allowed on the stores the earlier ones
/// left.
pub open spec fn changes_allowed(changes: Seq<StoreChange>) -> bool
    decreases changes.len(),
{
    if changes.len() == 0 {
        true
    } else {
        changes_allowed(changes.drop_last()) && change_allowed(replay(changes.drop_last()), changes.last())
    }
}

/// Any sequence of store creations, updates, token rotations and deletions,
/// carried out one after another from no store at all, leaves no two stores
/// with the same domain, and every domain the non-empty normalized form of
/// a requested text.
pub proof fn law_store_operations_keep_domains(changes: Seq<StoreChange>)
    requires
        changes_allowed(changes),
    ensures
        domains_well_kept(replay(changes)),
    decreases changes.len(),
{
    if changes.len() == 0 {
        assert(domains_of(Seq::<Store>::empty()) =~= Seq::<Option<Seq<char>>>::empty());
    } else {
        let prev = changes.drop_last();
        law_store_operations_keep_domains(prev);
        let db = replay(prev);
        match changes.last() {
            StoreChange::Create { domain, new_store, store_id, user_id, name, description, stored } => {
                law_store_creation_keeps_domains(db, domain, new_store, store_id, user_id, name, description, stored);
            },
            StoreChange::Update { k, store_id, name, domain, description, update, stored } => {
                law_store_update_keeps_domains(db, k, store_id, name, domain, description, update, stored);
            },
            StoreChange::Rotate { k, store_id, update, stored } => {
                law_token_rotation_keeps_domains(db, k, store_id, update, stored);
            },
            StoreChange::Delete { k } => {
                law_store_deletion_keeps_domains(db, k);
            },
        }
    }
}

/// Removing a character from a concatenation removes it from each part.
proof fn lemma_without_char_concat(a: Seq<char>, b: Seq<char>, c: char)
    ensures
        without_char(a + b, c) == without_char(a, c) + without_char(b, c),
    decreases b.len(),
{
    if b.len() == 0 {
        assert(a + b =~= a);
        assert(without_char(b, c) =~= Seq::<char>::empty());
        assert(without_char(a, c) + without_char(b, c) =~= without_char(a, c));
    } else {
        lemma_without_char_concat(a, b.drop_last(), c);
        assert((a + b).drop_last() =~= a + b.drop_last());
        assert((a + b).last() == b.last());
        if b.last() == c {
        } else {
            assert(without_char(a, c) + without_char(b.drop_last(), c).push(b.last())
                =~= (without_char(a, c) + without_char(b.drop_last(), c)).push(b.last()));
        }
    }
}

/// Removing a character that does not occur changes nothing.
proof fn lemma_without_absent_char(s: Seq<char>, c: char)
    requires
        forall|i: int| 0 <= i < s.len() ==> s[i] != c,
    ensures
        without_char(s, c) == s,
    decreases s.len(),
{
    if s.len() > 0 {
        lemma_without_absent_char(s.drop_last(), c);
        assert(s.drop_last().push(s.last()) =~= s);
    }
}

/// The digits of a UUID are lowercase hexadecimal digits.
proof fn lemma_uuid_digits(id: u128)
    ensures
        forall|k: int| 0 <= k < 32 ==> is_hex_lower(#[trigger] uuid_simple(id)[k]) && uuid_simple(id)[k] != '-',
{
    assert forall|k: int| 0 <= k < 32 implies is_hex_lower(#[trigger] uuid_simple(id)[k]) && uuid_simple(id)[k] != '-' by {
        let n = uuid_nibble(id, k);
        assert(0 <= n < 16);
        lemma_hex_digit(n);
    }
}

/// A store's API token is the 32 lowercase hexadecimal digits of a UUID.
pub proof fn law_api_token_is_uuid_digits(id: u128)
    ensures
        api_token_text(id) == uuid_simple(id),
        api_token_text(id).len() == 32,
        forall|k: int| 0 <= k < 32 ==> is_hex_lower(#[trigger] api_token_text(id)[k]),
{
    lemma_uuid_digits(id);
    let d = uuid_simple(id);
    let dash = seq!['-'];
    let p0 = d.subrange(0, 8);
    let p1 = d.subrange(8, 12);
    let p2 = d.subrange(12, 16);
    let p3 = d.subrange(16, 20);
    let p4 = d.subrange(20, 32);
    assert forall|i: int| 0 <= i < p0.len() implies p0[i] != '-' by { assert(p0[i] == d[i]); }
    assert forall|i: int| 0 <= i < p1.len() implies p1[i] != '-' by { assert(p1[i] == d[8 + i]); }
    assert forall|i: int| 0 <= i < p2.len() implies p2[i] != '-' by { assert(p2[i] == d[12 + i]); }
    assert forall|i: int| 0 <= i < p3.len() implies p3[i] != '-' by { assert(p3[i] == d[16 + i]); }
    assert forall|i: int| 0 <= i < p4.len() implies p4[i] != '-' by { assert(p4[i] == d[20 + i]); }
    lemma_without_absent_char(p0, '-');
    lemma_without_absent_char(p1, '-');
    lemma_without_absent_char(p2, '-');
    lemma_without_absent_char(p3, '-');
    lemma_without_absent_char(p4, '-');
    assert(without_char(dash, '-') =~= Seq::<char>::empty()) by {
        assert(dash.drop_last() =~= Seq::<char>::empty());
        assert(without_char(Seq::<char>::empty(), '-') =~= Seq::<char>::empty());
        assert(dash.last() == '-');
    }
    let s1 = p0 + dash;
    let s2 = s1 + p1;
    let s3 = s2 + dash;
    let s4 = s3 + p2;
    let s5 = s4 + dash;
    let s6 = s5 + p3;
    let s7 = s6 + dash;
    let s8 = s7 + p4;
    assert(s8 == uuid_hyphenated(id));
    lemma_without_char_concat(p0, dash, '-');
    lemma_without_char_concat(s1, p1, '-');
    lemma_without_char_concat(s2, dash, '-');
    lemma_without_char_concat(s3, p2, '-');
    lemma_without_char_concat(s4, dash, '-');
    lemma_without_char_concat(s5, p3, '-');
    lemma_without_char_concat(s6, dash, '-');
    lemma_without_char_concat(s7, p4, '-');
    assert(without_char(s8, '-') =~= p0 + p1 + p2 + p3 + p4);
    assert(p0 + p1 + p2 + p3 + p4 =~= d);
}

} // verus!
