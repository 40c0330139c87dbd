//! Where each operation puts the values it is given: which request field
//! lands in which field of the record asked of storage, of the response, or
//! of the conversation sent to the model.
//!
//! Each law is stated over the relation that the operation's own contract
//! uses for its result, field by field, for all inputs.

use vstd::prelude::*;
use crate::catalog::{
    inserted_product, product_response_of, product_update_of, CreateProductRequest, NewProduct, Product,
    ProductUpdate, UpdateProductRequest,
};
use crate::chat::{
    assistant_message_of, conversation, opened_room, recorded_model, room_title, system_prompt,
    user_message_of, ChatMessage, NewMessage, NewRoom,
};
use crate::ids::uuid_hyphenated;
use crate::json::spec_json_kind;
use crate::store::{
    inserted_store, normalized_domain, response_of, rotation_of, update_of, NewStore, Store, StoreUpdate,
};
use crate::text::{all_whitespace, lemma_trimmed_ignores_padding};

verus! {

/// What `HistoryFetch::resume` sends to the model: the system prompt
/// first, then every message of the room's history in the order fetched,
/// each with the role it was stored with (a user's question stays a user
/// message, an earlier answer stays an assistant message) and its content.
pub proof fn law_model_sees_the_history_with_its_roles(history: Seq<ChatMessage>)
    ensures
        conversation(history).len() == history.len() + 1,
        conversation(history)[0] == ("system"@, system_prompt()),
        forall|k: int| 0 <= k < history.len() ==> (#[trigger] conversation(history)[k + 1]).0 == history[k].role@
            && conversation(history)[k + 1].1 == history[k].content@,
{
}

/// The question is stored as a message of role `user` with the question as
/// its content, in the room it was asked in; the model's answer as a message
/// of role `assistant` with the answer as its content, in the same room,
/// recording the model and the latency.
pub proof fn law_stored_messages_carry_question_and_answer(
    q: NewMessage,
    room_uuid: u128,
    question: String,
    a: NewMessage,
    room_id: String,
    answer: String,
    latency_ms: i32,
)
    requires
        user_message_of(q, room_uuid, question),
        assistant_message_of(a, room_id, answer, latency_ms),
    ensures
        q.role@ == "user"@,
        q.content == question,
        q.room_id@ == uuid_hyphenated(room_uuid),
        a.role@ == "assistant"@,
        a.content == answer,
        a.room_id == room_id,
        a.latency_ms == Some(latency_ms),
        a.model.deep_view() == Some(recorded_model()),
{
}

/// A room opened by a question belongs to the asking user and the store
/// asked about, and is titled by the question: the question itself when it
/// has at most 40 characters, otherwise a cut ending in `"..."`.
pub proof fn law_opened_room_belongs_to_the_asker(n: NewRoom, user_id: u128, store_id: u128, question: Seq<char>)
    requires
        opened_room(n, user_id, store_id, question),
    ensures
        n.user_id@ == uuid_hyphenated(user_id),
        n.store_id.deep_view() == Some(uuid_hyphenated(store_id)),
        question.len() <= 40 ==> n.title.deep_view() == Some(question),
        question.len() > 40 ==> (n.title.deep_view() matches Some(t) && t.len() >= 3
            && t.subrange(t.len() - 3, t.len() as int) == "..."@),
{
    reveal_strlit("...");
    if question.len() > 40 {
        let t = room_title(question);
        let head = vstd::utf8::decode_utf8(vstd::utf8::encode_utf8(question).subrange(0, 40));
        assert(t == head + "..."@);
        assert(t.subrange(t.len() - 3, t.len() as int) =~= "..."@);
    }
}

/// The public view of a store (what getting and listing stores answer)
/// shows every field of the store as it is, and never the API token.
pub proof fn law_public_store_view_shows_every_field_but_the_token(store: Store)
    ensures
        response_of(store, None).id == store.id,
        response_of(store, None).user_id == store.user_id,
        response_of(store, None).name == store.name,
        response_of(store, None).domain == store.domain,
        response_of(store, None).description == store.description,
        response_of(store, None).status == store.status,
        response_of(store, None).created_at == store.created_at,
        response_of(store, None).updated_at == store.updated_at,
        response_of(store, None).api_token is None,
        response_of(store, store.api_token).api_token == store.api_token,
{
}

/// A created store is asked of storage with the owner, the name and the
/// description as requested and the normalized domain given.
pub proof fn law_store_insert_carries_the_request(
    n: NewStore,
    store_id: u128,
    user_id: u128,
    name: String,
    domain: Option<Seq<char>>,
    description: Option<String>,
)
    requires
        inserted_store(n, store_id, user_id, name, domain, description),
    ensures
        n.id@ == uuid_hyphenated(store_id),
        n.user_id@ == uuid_hyphenated(user_id),
        n.name == name,
        n.domain.deep_view() == domain,
        n.description == description,
        n.api_token is Some,
{
}

/// A store update asks storage for the requested name, domain and
/// description, whatever the store had before, and keeps the store's API
/// token and status.
pub proof fn law_store_update_asks_for_the_request(
    store_id: u128,
    existing: Store,
    name: String,
    domain: Option<Seq<char>>,
    description: Option<String>,
    u: StoreUpdate,
)
    requires
        update_of(store_id, existing, name, domain, description, u),
    ensures
        u.id@ == uuid_hyphenated(store_id),
        u.name == name,
        u.domain.deep_view() == domain,
        u.description == description,
        u.api_token == existing.api_token,
        u.status == existing.status,
{
}

/// A token rotation keeps every field of the store but the token.
pub proof fn law_rotation_keeps_all_but_the_token(store_id: u128, existing: Store, u: StoreUpdate)
    requires
        rotation_of(store_id, existing, u),
    ensures
        u.id@ == uuid_hyphenated(store_id),
        u.name == existing.name,
        u.domain == existing.domain,
        u.description == existing.description,
        u.status == existing.status,
        u.api_token is Some,
{
}

/// A created product is asked of storage with each request field in the
/// column of the same name, in the store it was created in; the source is
/// `"manual"` when none is given.
pub proof fn law_product_insert_carries_the_request(
    n: NewProduct,
    product_id: u128,
    store_id: u128,
    req: CreateProductRequest,
)
    requires
        inserted_product(n, product_id, store_id, req),
    ensures
        n.id@ == uuid_hyphenated(product_id),
        n.store_id@ == uuid_hyphenated(store_id),
        n.name == req.name,
        n.category == req.category,
        n.description == req.description,
        n.specs == req.specs,
        n.manual == req.manual,
        n.faq == req.faq,
        n.external_id == req.external_id,
        req.source matches Some(s) ==> n.source@ == s@,
        req.source is None ==> n.source@ == "manual"@,
{
}

/// A product update asks storage for each request field in the column of
/// the same name, whatever the product had before; only status and source
/// fall back to the product's own when the request gives none.
pub proof fn law_product_update_carries_the_request(existing: Product, req: UpdateProductRequest, u: ProductUpdate)
    requires
        product_update_of(existing, req, u),
    ensures
        u.id == existing.id,
        u.name == req.name,
        u.category == req.category,
        u.description == req.description,
        u.specs == req.specs,
        u.manual == req.manual,
        u.faq == req.faq,
        u.external_id == req.external_id,
        u.status == (match req.status {
            Some(s) => s,
            None => existing.status,
        }),
        u.source == (match req.source {
            Some(s) => s,
            None => existing.source,
        }),
{
}

/// The view of a product shows every field as stored; `specs` and `faq`
/// are shown exactly when they hold valid JSON.
pub proof fn law_product_view_shows_the_product(p: Product)
    ensures
        product_response_of(p).id == p.id,
        product_response_of(p).store_id == p.store_id,
        product_response_of(p).name == p.name,
        product_response_of(p).category == p.category,
        product_response_of(p).description == p.description,
        product_response_of(p).manual == p.manual,
        product_response_of(p).status == p.status,
        product_response_of(p).external_id == p.external_id,
        product_response_of(p).source == p.source,
        product_response_of(p).created_at == p.created_at,
        product_response_of(p).updated_at == p.updated_at,
        p.specs matches Some(t) && spec_json_kind(t@) is Some ==> product_response_of(p).specs == p.specs,
        p.faq matches Some(t) && spec_json_kind(t@) is Some ==> product_response_of(p).faq == p.faq,
        !(p.specs matches Some(t) && spec_json_kind(t@) is Some) ==> product_response_of(p).specs is None,
        !(p.faq matches Some(t) && spec_json_kind(t@) is Some) ==> product_response_of(p).faq is None,
{
}

/// Whitespace around a requested domain makes no difference to the domain
/// stored or checked for uniqueness.
pub proof fn law_domain_padding_is_ignored(p: Seq<char>, d: Seq<char>, q: Seq<char>)
    requires
        all_whitespace(p),
        all_whitespace(q),
    ensures
        normalized_domain(Some(p + d + q)) == normalized_domain(Some(d)),
{
    lemma_trimmed_ignores_padding(p, d, q);
}

} // verus!
