//! Chat about a store's products with the language model: rooms, messages,
//! and the decisions of the chat service.

use vstd::prelude::*;
use vstd::utf8::{decode_utf8, encode_utf8, is_char_boundary};
use crate::http::{
    check_length, error_response, json_error, length_ok, length_violation, violation_text,
    ApiError, ErrorBodyView, FieldViolations, STATUS_BAD_GATEWAY,
    STATUS_INTERNAL_SERVER_ERROR, STATUS_NOT_FOUND,
};
use crate::ids::{is_v4, new_uuid_v4, parse_uuid, spec_parse_uuid, uuid_hyphenated, uuid_to_string};
use crate::llm::{llm_error_text, LlmError, LlmMessage, LlmResponse};
use crate::storage::RepoError;
use crate::store::{
    owned_store, single_violation, store_error_text, violations_match, Store, StoreLookup,
    StoreServiceError,
};

verus! {

/// A chat room as kept in the database.
#[derive(Debug, Clone, PartialEq, Eq)]
pub struct ChatRoom {
    pub id: String,
    pub user_id: String,
    pub store_id: Option<String>,
    pub title: Option<String>,
    pub created_at: String,
    pub updated_at: Option<String>,
}

/// A chat message as kept in the database.
#[derive(Debug, Clone, PartialEq, Eq)]
pub struct ChatMessage {
    pub id: String,
    pub room_id: String,
    pub role: String,
    pub content: String,
    pub sources: Option<String>,
    pub model: Option<String>,
    pub latency_ms: Option<i32>,
    pub cached: bool,
    pub error_message: Option<String>,
    pub created_at: String,
}

/// Body of a chat question.
#[derive(Debug, Clone, PartialEq, Eq)]
pub struct ChatRequest {
    pub store_id: u128,
    pub question: String,
    pub room_id: Option<u128>,
}

impl ChatRequest {
    /// Checks the question: between 1 and 2000 characters.
    pub fn validate(&self) -> (r: Result<(), Vec<FieldViolations>>)
        ensures
            r is Ok <==> length_ok(self.question@, 1, 2000),
            r matches Err(v) ==> violations_match(
                v@,
                seq![("question"@, "Question must be between 1 and 2000 characters"@)],
            ),
    {
        if check_length(self.question.as_str(), 1, 2000) {
            Ok(())
        } else {
            let mut v: Vec<FieldViolations> = Vec::new();
            v.push(length_violation("question", "Question must be between 1 and 2000 characters"));
            Err(v)
        }
    }
}

/// The answer to a chat question: the room and the two messages stored.
#[derive(Debug, Clone, PartialEq, Eq)]
pub struct ChatResponse {
    pub room: ChatRoom,
    pub user_message: ChatMessage,
    pub assistant_message: ChatMessage,
}

impl ChatResponse {
    pub fn new(room: ChatRoom, user_message: ChatMessage, assistant_message: ChatMessage) -> (r: ChatResponse)
        ensures
            r.room == room,
            r.user_message == user_message,
            r.assistant_message == assistant_message,
    {
        ChatResponse { room, user_message, assistant_message }
    }
}

/// What the chat service hands back for a question.
#[derive(Debug, Clone, PartialEq, Eq)]
pub struct ChatAskResult {
    pub room: ChatRoom,
    pub user_message: ChatMessage,
    pub assistant_message: ChatMessage,
}

/// Errors of the chat service.
#[derive(Debug, Clone, PartialEq, Eq)]
pub enum ChatServiceError {
    StoreNotFound,
    LlmError(String),
    InternalError(String),
}

/// The chat error carries the store error's text.
pub open spec fn chat_error_matches_store(err: StoreServiceError, c: ChatServiceError) -> bool {
    match err {
        StoreServiceError::NotFound => c == ChatServiceError::StoreNotFound,
        _ => c matches ChatServiceError::InternalError(m) && m@ == store_error_text(err),
    }
}

impl ChatServiceError {
    /// Converts a store service error: `NotFound` becomes `StoreNotFound`,
    /// any other error an internal error with its display text.
    pub fn from_store_error(err: StoreServiceError) -> (c: ChatServiceError)
        ensures
            chat_error_matches_store(err, c),
    {
        match err {
            StoreServiceError::NotFound => ChatServiceError::StoreNotFound,
            _ => ChatServiceError::InternalError(err.message()),
        }
    }

    /// Converts a language-model error into `LlmError` with its display
    /// text.
    pub fn from_llm_error(err: LlmError) -> (c: ChatServiceError)
        ensures
            c matches ChatServiceError::LlmError(m) && m@ == llm_error_text(err),
    {
        ChatServiceError::LlmError(err.message())
    }
}

/// The HTTP answer to a chat service error.
pub open spec fn chat_error_response(e: ChatServiceError) -> (u16, ErrorBodyView) {
    match e {
        ChatServiceError::StoreNotFound => error_response(
            STATUS_NOT_FOUND,
            "Store not found or access denied"@,
        ),
        ChatServiceError::LlmError(_) => error_response(
            STATUS_BAD_GATEWAY,
            "AI service temporarily unavailable"@,
        ),
        ChatServiceError::InternalError(_) => error_response(
            STATUS_INTERNAL_SERVER_ERROR,
            "Internal server error"@,
        ),
    }
}

/// Maps a chat service error to its HTTP answer: 404, 502 or 500.
pub fn map_chat_service_error(err: ChatServiceError) -> (e: ApiError)
    ensures
        e.view() == chat_error_response(err),
{
    match err {
        ChatServiceError::StoreNotFound => json_error(STATUS_NOT_FOUND, "Store not found or access denied"),
        ChatServiceError::LlmError(_) => json_error(STATUS_BAD_GATEWAY, "AI service temporarily unavailable"),
        ChatServiceError::InternalError(_) => json_error(STATUS_INTERNAL_SERVER_ERROR, "Internal server error"),
    }
}

/// The title may be cut after 40 bytes: the question has at most 40
/// characters, or its 40th byte ends a character.
pub open spec fn title_cut_ok(question: Seq<char>) -> bool {
    question.len() > 40 ==> is_char_boundary(encode_utf8(question), 40)
}

/// The title of a room opened by a question: the question itself when it
/// has at most 40 characters, otherwise its first 40 bytes followed by
/// `"..."`.
pub open spec fn room_title(question: Seq<char>) -> Seq<char> {
    if question.len() > 40 {
        decode_utf8(encode_utf8(question).subrange(0, 40)) + "..."@
    } else {
        question
    }
}

/// Makes the title of a room opened by a question.
pub fn make_room_title(question: &str) -> (title: String)
    requires
        title_cut_ok(question@),
    ensures
        title@ == room_title(question@),
{
    broadcast use vstd::utf8::encode_utf8_decode_utf8;
    if question.unicode_len() > 40 {
        let (head, _tail) = question.split_at(40);
        let mut t = head.to_owned();
        assert(head@ == decode_utf8(encode_utf8(head@)));
        t.append("...");
        t
    } else {
        question.to_owned()
    }
}

/// The system prompt that opens every conversation with the model.
pub open spec fn system_prompt() -> Seq<char> {
    "You are a helpful e-commerce product support assistant. Answer concisely based on the provided context. If you don't know, say so."@
}

/// The model the assistant's messages are recorded with.
pub open spec fn recorded_model() -> Seq<char> {
    "qwen2.5:1.5b"@
}

/// A chat message to insert.
#[derive(Debug, Clone, PartialEq, Eq)]
pub struct NewMessage {
    pub id: String,
    pub room_id: String,
    pub role: String,
    pub content: String,
    pub sources: Option<String>,
    pub model: Option<String>,
    pub latency_ms: Option<i32>,
    pub cached: bool,
    pub error_message: Option<String>,
}

/// A chat room to insert.
#[derive(Debug, Clone, PartialEq, Eq)]
pub struct NewRoom {
    pub id: String,
    pub user_id: String,
    pub store_id: Option<String>,
    pub title: Option<String>,
}

/// A question waiting for the lookup of the store it is about.
#[derive(Debug, Clone, PartialEq, Eq)]
pub struct AskQuestion {
    pub lookup: StoreLookup,
    pub room_id: Option<u128>,
    pub question: String,
}

/// After the store check: continue in an existing room, or open a new one.
#[derive(Debug, Clone, PartialEq, Eq)]
pub enum RoomStep {
    Existing(FindChatRoom),
    New(NewChatRoom),
}

/// A question waiting for the lookup of room `id`.
#[derive(Debug, Clone, PartialEq, Eq)]
pub struct FindChatRoom {
    pub id: String,
    pub user_id: u128,
    pub question: String,
}

/// A question that opens a new room in store `store_id`.
#[derive(Debug, Clone, PartialEq, Eq)]
pub struct NewChatRoom {
    pub user_id: u128,
    pub store_id: u128,
    pub question: String,
}

/// A question waiting for the insert of `new_room`.
#[derive(Debug, Clone, PartialEq, Eq)]
pub struct ChatRoomInsert {
    pub new_room: NewRoom,
    pub question: String,
}

/// A question with its room, ready to be stored.
#[derive(Debug, Clone, PartialEq, Eq)]
pub struct RoomReady {
    pub room: ChatRoom,
    pub question: String,
}

/// A question waiting for the insert of the user's message `new_message`.
#[derive(Debug, Clone, PartialEq, Eq)]
pub struct UserMessageInsert {
    pub new_message: NewMessage,
    pub room: ChatRoom,
}

/// A question waiting for the recent messages of room `room_id` (at most
/// `limit`, oldest first).
#[derive(Debug, Clone, PartialEq, Eq)]
pub struct HistoryFetch {
    pub room_id: String,
    pub limit: i64,
    pub room: ChatRoom,
    pub user_message: ChatMessage,
}

/// A question waiting for the model's answer to `messages`.
#[derive(Debug, Clone, PartialEq, Eq)]
pub struct LlmCall {
    pub messages: Vec<LlmMessage>,
    pub room_id: String,
    pub room: ChatRoom,
    pub user_message: ChatMessage,
}

/// A question waiting for the insert of the assistant's message.
#[derive(Debug, Clone, PartialEq, Eq)]
pub struct AssistantMessageInsert {
    pub new_message: NewMessage,
    pub room: ChatRoom,
    pub user_message: ChatMessage,
}

impl AskQuestion {
    /// Continues once the store has been looked up: the store must be the
    /// user's; then the given room is looked up, or a new room is opened.
    pub fn resume(self, found: Result<Option<Store>, RepoError>) -> (r: Result<RoomStep, ChatServiceError>)
        ensures
            owned_store(self.lookup.user_id, found) matches Err(e) ==> (r matches Err(c) && chat_error_matches_store(e, c)),
            owned_store(self.lookup.user_id, found) is Ok ==> match self.room_id {
                Some(rid) => r matches Ok(RoomStep::Existing(f)) && f.id@ == uuid_hyphenated(rid)
                    && f.user_id == self.lookup.user_id && f.question == self.question,
                None => r matches Ok(RoomStep::New(n)) && n.user_id == self.lookup.user_id
                    && n.store_id == self.lookup.store_id && n.question == self.question,
            },
    {
        let user_id = self.lookup.user_id;
        let store_id = self.lookup.store_id;
        match self.lookup.finish(found) {
            Err(e) => Err(ChatServiceError::from_store_error(e)),
            Ok(_store) => match self.room_id {
                Some(rid) => Ok(RoomStep::Existing(FindChatRoom {
                    id: uuid_to_string(rid),
                    user_id,
                    question: self.question,
                })),
                None => Ok(RoomStep::New(NewChatRoom { user_id, store_id, question: self.question })),
            },
        }
    }
}

/// What the lookup of an existing room yields: the room when it belongs
/// to the user; a foreign room is answered as an unknown store.
pub open spec fn found_room(user_id: u128, found: Result<Option<ChatRoom>, RepoError>, r: Result<ChatRoom, ChatServiceError>) -> bool {
    match found {
        Err(e) => r == Err::<ChatRoom, ChatServiceError>(ChatServiceError::InternalError(e.message)),
        Ok(None) => r matches Err(ChatServiceError::InternalError(m)) && m@ == "Room not found"@,
        Ok(Some(room)) => if room.user_id@ == uuid_hyphenated(user_id) {
            r == Ok::<ChatRoom, ChatServiceError>(room)
        } else {
            r == Err::<ChatRoom, ChatServiceError>(ChatServiceError::StoreNotFound)
        },
    }
}

impl FindChatRoom {
    /// Continues once the room has been looked up.
    pub fn resume(self, found: Result<Option<ChatRoom>, RepoError>) -> (r: Result<RoomReady, ChatServiceError>)
        ensures
            exists|room: Result<ChatRoom, ChatServiceError>| {
                &&& found_room(self.user_id, found, room)
                &&& match room {
                    Err(e) => r == Err::<RoomReady, ChatServiceError>(e),
                    Ok(room) => r == Ok::<RoomReady, ChatServiceError>(RoomReady { room, question: self.question }),
                }
            },
    {
        let room = check_room_owner(self.user_id, found);
        match room {
            Err(e) => Err(e),
            Ok(room) => Ok(RoomReady { room, question: self.question }),
        }
    }
}

/// Decides the lookup of an existing room on behalf of a user.
pub fn check_room_owner(user_id: u128, found: Result<Option<ChatRoom>, RepoError>) -> (r: Result<ChatRoom, ChatServiceError>)
    ensures
        found_room(user_id, found, r),
{
    match found {
        Err(e) => Err(ChatServiceError::InternalError(e.message)),
        Ok(None) => Err(ChatServiceError::InternalError("Room not found".to_owned())),
        Ok(Some(room)) => {
            let owner = uuid_to_string(user_id);
            if room.user_id == owner {
                Ok(room)
            } else {
                Err(ChatServiceError::StoreNotFound)
            }
        },
    }
}

/// The room opened by a question: a fresh id, the user and store as
/// owners, and the question's title.
pub open spec fn opened_room(n: NewRoom, user_id: u128, store_id: u128, question: Seq<char>) -> bool {
    &&& exists|rid: u128| is_v4(rid) && n.id@ == uuid_hyphenated(rid)
    &&& n.user_id@ == uuid_hyphenated(user_id)
    &&& n.store_id.deep_view() == Some(uuid_hyphenated(store_id))
    &&& n.title.deep_view() == Some(room_title(question))
}

impl NewChatRoom {
    /// Prepares the insert of the new room.
    pub fn prepare(self) -> (i: ChatRoomInsert)
        requires
            title_cut_ok(self.question@),
        ensures
            opened_room(i.new_room, self.user_id, self.store_id, self.question@),
            i.question == self.question,
    {
        let rid = new_uuid_v4();
        let title = make_room_title(self.question.as_str());
        ChatRoomInsert {
            new_room: NewRoom {
                id: uuid_to_string(rid),
                user_id: uuid_to_string(self.user_id),
                store_id: Some(uuid_to_string(self.store_id)),
                title: Some(title),
            },
            question: self.question,
        }
    }
}

impl NewChatRoom {
    /// Like `prepare`, but gives nothing when the question has more than 40
    /// characters and its 40th byte falls inside a character.
    pub fn try_prepare(self) -> (i: Option<ChatRoomInsert>)
        ensures
            !title_cut_ok(self.question@) ==> i is None,
            title_cut_ok(self.question@) ==> (i matches Some(ins)
                && opened_room(ins.new_room, self.user_id, self.store_id, self.question@)
                && ins.question == self.question),
    {
        if self.question.unicode_len() > 40 && !self.question.as_str().is_char_boundary(40) {
            None
        } else {
            Some(self.prepare())
        }
    }
}

impl ChatRoomInsert {
    /// Continues once the room has been inserted.
    pub fn resume(self, created: Result<ChatRoom, RepoError>) -> (r: Result<RoomReady, ChatServiceError>)
        ensures
            created matches Err(e) ==> r == Err::<RoomReady, ChatServiceError>(ChatServiceError::InternalError(e.message)),
            created matches Ok(room) ==> r == Ok::<RoomReady, ChatServiceError>(RoomReady { room, question: self.question }),
    {
        match created {
            Err(e) => Err(ChatServiceError::InternalError(e.message)),
            Ok(room) => Ok(RoomReady { room, question: self.question }),
        }
    }
}

/// The user's message for a question: a fresh id, the room's id as
/// written by `uuid`, role `user`, the question, and nothing else.
pub open spec fn user_message_of(n: NewMessage, room_uuid: u128, question: String) -> bool {
    &&& exists|mid: u128| is_v4(mid) && n.id@ == uuid_hyphenated(mid)
    &&& n.room_id@ == uuid_hyphenated(room_uuid)
    &&& n.role@ == "user"@
    &&& n.content == question
    &&& n.sources is None
    &&& n.model is None
    &&& n.latency_ms is None
    &&& !n.cached
    &&& n.error_message is None
}

impl RoomReady {
    /// Prepares the insert of the user's message. The room's id must be a
    /// UUID.
    pub fn post_question(self) -> (u: UserMessageInsert)
        requires
            spec_parse_uuid(self.room.id@) is Some,
        ensures
            user_message_of(u.new_message, spec_parse_uuid(self.room.id@)->0, self.question),
            u.room == self.room,
    {
        let room_uuid = match parse_uuid(self.room.id.as_str()) {
            Some(u) => u,
            None => 0,
        };
        let mid = new_uuid_v4();
        UserMessageInsert {
            new_message: NewMessage {
                id: uuid_to_string(mid),
                room_id: uuid_to_string(room_uuid),
                role: "user".to_owned(),
                content: self.question,
                sources: None,
                model: None,
                latency_ms: None,
                cached: false,
                error_message: None,
            },
            room: self.room,
        }
    }

    /// Like `post_question`, but gives nothing when the room's id is not a
    /// UUID.
    pub fn try_post_question(self) -> (u: Option<UserMessageInsert>)
        ensures
            spec_parse_uuid(self.room.id@) is None ==> u is None,
            spec_parse_uuid(self.room.id@) matches Some(room_uuid) ==> (u matches Some(m)
                && user_message_of(m.new_message, room_uuid, self.question) && m.room == self.room),
    {
        match parse_uuid(self.room.id.as_str()) {
            None => None,
            Some(_) => Some(self.post_question()),
        }
    }
}

impl UserMessageInsert {
    /// Continues once the user's message has been stored: the recent
    /// messages of the room (at most 10) are fetched next.
    pub fn resume(self, created: Result<ChatMessage, RepoError>) -> (r: Result<HistoryFetch, ChatServiceError>)
        ensures
            created matches Err(e) ==> r == Err::<HistoryFetch, ChatServiceError>(ChatServiceError::InternalError(e.message)),
            created matches Ok(m) ==> r == Ok::<HistoryFetch, ChatServiceError>(HistoryFetch {
                room_id: self.new_message.room_id,
                limit: 10,
                room: self.room,
                user_message: m,
            }),
    {
        match created {
            Err(e) => Err(ChatServiceError::InternalError(e.message)),
            Ok(m) => Ok(HistoryFetch { room_id: self.new_message.room_id, limit: 10, room: self.room, user_message: m }),
        }
    }
}

/// The conversation sent to the model: the system prompt, then the history
/// in order, each as role and content.
pub open spec fn conversation(history: Seq<ChatMessage>) -> Seq<(Seq<char>, Seq<char>)> {
    seq![("system"@, system_prompt())] + history.map_values(|m: ChatMessage| (m.role@, m.content@))
}

impl HistoryFetch {
    /// Continues once the history has been fetched: the model is asked.
    pub fn resume(self, history: Result<Vec<ChatMessage>, RepoError>) -> (r: Result<LlmCall, ChatServiceError>)
        ensures
            history matches Err(e) ==> r == Err::<LlmCall, ChatServiceError>(ChatServiceError::InternalError(e.message)),
            history matches Ok(h) ==> (r matches Ok(c)
                && c.messages@.map_values(|m: LlmMessage| m.view()) == conversation(h@)
                && c.room_id == self.room_id && c.room == self.room && c.user_message == self.user_message),
    {
        let h = match history {
            Err(e) => return Err(ChatServiceError::InternalError(e.message)),
            Ok(h) => h,
        };
        let ghost hv = h@;
        let mut messages: Vec<LlmMessage> = Vec::new();
        messages.push(LlmMessage {
            role: "system".to_owned(),
            content: "You are a helpful e-commerce product support assistant. Answer concisely based on the provided context. If you don't know, say so.".to_owned(),
        });
        let ghost target = conversation(hv);
        let mut i: usize = 0;
        let n = h.len();
        while i < n
            invariant
                n == hv.len(),
                hv == h@,
                i <= n,
                target == conversation(hv),
                messages@.len() == i + 1,
                forall|k: int| 0 <= k <= i ==> (#[trigger] messages@[k]).view() == target[k],
            decreases n - i,
        {
            let m = &h[i];
            messages.push(LlmMessage { role: m.role.clone(), content: m.content.clone() });
            i = i + 1;
        }
        assert(messages@.map_values(|m: LlmMessage| m.view()) =~= target);
        Ok(LlmCall { messages, room_id: self.room_id, room: self.room, user_message: self.user_message })
    }
}

/// The assistant's message for the model's answer: a fresh id, the room,
/// role `assistant`, the answer, the recorded model and the latency.
pub open spec fn assistant_message_of(n: NewMessage, room_id: String, content: String, latency_ms: i32) -> bool {
    &&& exists|mid: u128| is_v4(mid) && n.id@ == uuid_hyphenated(mid)
    &&& n.room_id == room_id
    &&& n.role@ == "assistant"@
    &&& n.content == content
    &&& n.sources is None
    &&& n.model.deep_view() == Some(recorded_model())
    &&& n.latency_ms == Some(latency_ms)
    &&& !n.cached
    &&& n.error_message is None
}

impl LlmCall {
    /// Continues once the model has answered, `elapsed_ms` milliseconds
    /// after being asked (kept as `i32`, wrapping as `as` does).
    pub fn resume(self, reply: Result<LlmResponse, LlmError>, elapsed_ms: u128) -> (r: Result<AssistantMessageInsert, ChatServiceError>)
        ensures
            reply matches Err(e) ==> (r matches Err(ChatServiceError::LlmError(m)) && m@ == llm_error_text(e)),
            reply matches Ok(resp) ==> (r matches Ok(a)
                && assistant_message_of(a.new_message, self.room_id, resp.content, elapsed_ms as i32)
                && a.room == self.room && a.user_message == self.user_message),
    {
        let resp = match reply {
            Err(e) => return Err(ChatServiceError::from_llm_error(e)),
            Ok(resp) => resp,
        };
        let latency: i32 = #[verifier::truncate] (elapsed_ms as i32);
        let mid = new_uuid_v4();
        Ok(AssistantMessageInsert {
            new_message: NewMessage {
                id: uuid_to_string(mid),
                room_id: self.room_id,
                role: "assistant".to_owned(),
                content: resp.content,
                sources: None,
                model: Some("qwen2.5:1.5b".to_owned()),
                latency_ms: Some(latency),
                cached: false,
                error_message: None,
            },
            room: self.room,
            user_message: self.user_message,
        })
    }
}

impl AssistantMessageInsert {
    /// Finishes the question once the assistant's message has been stored.
    pub fn resume(self, created: Result<ChatMessage, RepoError>) -> (r: Result<ChatAskResult, ChatServiceError>)
        ensures
            created matches Err(e) ==> r == Err::<ChatAskResult, ChatServiceError>(ChatServiceError::InternalError(e.message)),
            created matches Ok(m) ==> r == Ok::<ChatAskResult, ChatServiceError>(ChatAskResult {
                room: self.room,
                user_message: self.user_message,
                assistant_message: m,
            }),
    {
        match created {
            Err(e) => Err(ChatServiceError::InternalError(e.message)),
            Ok(m) => Ok(ChatAskResult { room: self.room, user_message: self.user_message, assistant_message: m }),
        }
    }
}

/// The chat service: a question starts here and is carried on by the step
/// values it returns.
#[derive(Debug, Clone, PartialEq, Eq)]
pub struct ChatService;

impl ChatService {
    /// Starts answering a question about one of the user's stores, in the
    /// given room or a new one.
    pub fn ask_question(user_id: u128, store_id: u128, room_id: Option<u128>, question: String) -> (a: AskQuestion)
        ensures
            a.lookup.user_id == user_id,
            a.lookup.store_id == store_id,
            a.lookup.id@ == uuid_hyphenated(store_id),
            a.room_id == room_id,
            a.question == question,
    {
        AskQuestion { lookup: StoreLookup::new(user_id, store_id), room_id, question }
    }
}

} // verus!
