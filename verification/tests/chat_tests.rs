use backend::chat::{
    make_room_title, map_chat_service_error, ChatMessage, ChatRequest, ChatResponse, ChatRoom,
    ChatService, ChatServiceError, RoomStep,
};
use backend::llm::{LlmError, LlmResponse};
use backend::storage::RepoError;
use backend::store::{Store, StoreServiceError};

const USER: u128 = 0x67e5504410b1426f9247bb680e5fe0c8;
const STORE: u128 = 0xaaaaaaaabbbbccccddddeeeeeeeeeeee;
const ROOM: u128 = 0x0123456789abcdef0123456789abcdef;
const USER_TEXT: &str = "67e55044-10b1-426f-9247-bb680e5fe0c8";
const ROOM_TEXT: &str = "01234567-89ab-cdef-0123-456789abcdef";

fn store() -> Store {
    Store {
        id: "aaaaaaaa-bbbb-cccc-dddd-eeeeeeeeeeee".to_string(),
        user_id: USER_TEXT.to_string(),
        name: "Shop".to_string(),
        domain: None,
        description: None,
        api_token: None,
        status: "active".to_string(),
        created_at: "t".to_string(),
        updated_at: None,
    }
}

fn room(owner: &str, id: &str) -> ChatRoom {
    ChatRoom {
        id: id.to_string(),
        user_id: owner.to_string(),
        store_id: None,
        title: None,
        created_at: "t".to_string(),
        updated_at: None,
    }
}

fn message(role: &str, content: &str) -> ChatMessage {
    ChatMessage {
        id: "m".to_string(),
        room_id: ROOM_TEXT.to_string(),
        role: role.to_string(),
        content: content.to_string(),
        sources: None,
        model: None,
        latency_ms: None,
        cached: false,
        error_message: None,
        created_at: "t".to_string(),
    }
}

#[test]
fn questions_must_have_1_to_2000_characters() {
    let ok = ChatRequest { store_id: STORE, question: "hi".to_string(), room_id: None };
    assert!(ok.validate().is_ok());
    let empty = ChatRequest { store_id: STORE, question: String::new(), room_id: None };
    let errs = empty.validate().unwrap_err();
    assert_eq!(errs[0].field, "question");
    assert_eq!(errs[0].violations[0].message.as_deref(), Some("Question must be between 1 and 2000 characters"));
    let long = ChatRequest { store_id: STORE, question: "q".repeat(2001), room_id: None };
    assert!(long.validate().is_err());
}

#[test]
fn titles_keep_short_questions_and_cut_long_ones() {
    assert_eq!(make_room_title("What sizes do you have?"), "What sizes do you have?");
    let long = "a".repeat(41);
    assert_eq!(make_room_title(&long), format!("{}...", "a".repeat(40)));
    let exactly = "b".repeat(40);
    assert_eq!(make_room_title(&exactly), exactly);
    let mixed = format!("{}{}", "é".repeat(20), "x".repeat(30));
    assert_eq!(make_room_title(&mixed), format!("{}...", "é".repeat(20)));
}

#[test]
fn chat_errors_map_to_http_answers() {
    assert_eq!(map_chat_service_error(ChatServiceError::StoreNotFound).status, 404);
    assert_eq!(map_chat_service_error(ChatServiceError::LlmError("x".to_string())).status, 502);
    assert_eq!(map_chat_service_error(ChatServiceError::InternalError("x".to_string())).status, 500);
    assert_eq!(ChatServiceError::from_store_error(StoreServiceError::NotFound), ChatServiceError::StoreNotFound);
    assert_eq!(
        ChatServiceError::from_store_error(StoreServiceError::InternalError("db".to_string())),
        ChatServiceError::InternalError("Internal error: db".to_string())
    );
    assert_eq!(
        ChatServiceError::from_llm_error(LlmError::Network("down".to_string())),
        ChatServiceError::LlmError("Network error: down".to_string())
    );
}

#[test]
fn a_question_about_an_unknown_store_is_refused() {
    let a = ChatService::ask_question(USER, STORE, None, "hi".to_string());
    assert_eq!(a.resume(Ok(None)).unwrap_err(), ChatServiceError::StoreNotFound);
    let a = ChatService::ask_question(USER, STORE, None, "hi".to_string());
    let failed = a.resume(Err(RepoError { message: "db".to_string(), database_message: None }));
    assert_eq!(failed.unwrap_err(), ChatServiceError::InternalError("Internal error: db".to_string()));
}

#[test]
fn existing_rooms_must_belong_to_the_asker() {
    let a = ChatService::ask_question(USER, STORE, Some(ROOM), "hi".to_string());
    let find = match a.resume(Ok(Some(store()))).unwrap() {
        RoomStep::Existing(f) => f,
        RoomStep::New(_) => panic!("expected the given room"),
    };
    assert_eq!(find.id, ROOM_TEXT);
    assert_eq!(find.resume(Ok(Some(room("someone-else", ROOM_TEXT)))).unwrap_err(), ChatServiceError::StoreNotFound);
    let a = ChatService::ask_question(USER, STORE, Some(ROOM), "hi".to_string());
    if let RoomStep::Existing(f) = a.resume(Ok(Some(store()))).unwrap() {
        assert_eq!(f.resume(Ok(None)).unwrap_err(), ChatServiceError::InternalError("Room not found".to_string()));
    }
}

#[test]
fn a_full_question_round() {
    let long_question = "Is this shirt made of organic cotton or a blend?";
    let a = ChatService::ask_question(USER, STORE, None, long_question.to_string());
    let new_room = match a.resume(Ok(Some(store()))).unwrap() {
        RoomStep::New(n) => n,
        RoomStep::Existing(_) => panic!("expected a new room"),
    };
    let insert = new_room.prepare();
    assert_eq!(insert.new_room.title.as_deref(), Some("Is this shirt made of organic cotton or ..."));
    assert_eq!(insert.new_room.user_id, USER_TEXT);
    assert_eq!(insert.new_room.store_id.as_deref(), Some("aaaaaaaa-bbbb-cccc-dddd-eeeeeeeeeeee"));
    let ready = insert.resume(Ok(room(USER_TEXT, ROOM_TEXT))).unwrap();
    let post = ready.try_post_question().unwrap();
    assert_eq!(post.new_message.role, "user");
    assert_eq!(post.new_message.room_id, ROOM_TEXT);
    assert_eq!(post.new_message.content, long_question);
    let fetch = post.resume(Ok(message("user", long_question))).unwrap();
    assert_eq!(fetch.limit, 10);
    let call = fetch.resume(Ok(vec![message("assistant", "earlier"), message("user", long_question)])).unwrap();
    assert_eq!(call.messages.len(), 3);
    assert_eq!(call.messages[0].role, "system");
    assert!(call.messages[0].content.starts_with("You are a helpful e-commerce product support assistant."));
    assert_eq!(call.messages[1].content, "earlier");
    assert_eq!(call.messages[2].role, "user");
    let reply = LlmResponse { content: "Organic.".to_string(), prompt_tokens: Some(1), completion_tokens: None };
    let save = call.resume(Ok(reply), 1234).unwrap();
    assert_eq!(save.new_message.role, "assistant");
    assert_eq!(save.new_message.model.as_deref(), Some("qwen2.5:1.5b"));
    assert_eq!(save.new_message.latency_ms, Some(1234));
    assert_eq!(save.new_message.content, "Organic.");
    let done = save.resume(Ok(message("assistant", "Organic."))).unwrap();
    let resp = ChatResponse::new(done.room, done.user_message, done.assistant_message);
    assert_eq!(resp.assistant_message.content, "Organic.");
}

#[test]
fn model_failures_and_latency_wrapping() {
    let a = ChatService::ask_question(USER, STORE, Some(ROOM), "hi".to_string());
    let f = match a.resume(Ok(Some(store()))).unwrap() {
        RoomStep::Existing(f) => f,
        RoomStep::New(_) => panic!(),
    };
    let ready = f.resume(Ok(Some(room(USER_TEXT, ROOM_TEXT)))).unwrap();
    let fetch = ready.post_question().resume(Ok(message("user", "hi"))).unwrap();
    let call = fetch.resume(Ok(vec![])).unwrap();
    let err = call.resume(Err(LlmError::Provider("Status 500: x".to_string())), 5).unwrap_err();
    assert_eq!(err, ChatServiceError::LlmError("Provider error: Status 500: x".to_string()));

    let a = ChatService::ask_question(USER, STORE, Some(ROOM), "hi".to_string());
    let f = match a.resume(Ok(Some(store()))).unwrap() {
        RoomStep::Existing(f) => f,
        RoomStep::New(_) => panic!(),
    };
    let ready = f.resume(Ok(Some(room(USER_TEXT, ROOM_TEXT)))).unwrap();
    let call = ready.post_question().resume(Ok(message("user", "hi"))).unwrap().resume(Ok(vec![])).unwrap();
    let reply = LlmResponse { content: "ok".to_string(), prompt_tokens: None, completion_tokens: None };
    let save = call.resume(Ok(reply), (1u128 << 32) + 7).unwrap();
    assert_eq!(save.new_message.latency_ms, Some(7));
}

#[test]
fn a_room_id_that_is_not_a_uuid_stops_the_question() {
    let a = ChatService::ask_question(USER, STORE, Some(ROOM), "hi".to_string());
    let f = match a.resume(Ok(Some(store()))).unwrap() {
        RoomStep::Existing(f) => f,
        RoomStep::New(_) => panic!(),
    };
    let ready = f.resume(Ok(Some(room(USER_TEXT, "room-1")))).unwrap();
    assert!(ready.try_post_question().is_none());
}

#[test]
fn a_title_cut_inside_a_character_is_not_prepared() {
    let bad = format!("{}{}", "a".repeat(39), "é".repeat(5));
    let a = ChatService::ask_question(USER, STORE, None, bad);
    match a.resume(Ok(Some(store()))).unwrap() {
        RoomStep::New(n) => assert!(n.try_prepare().is_none()),
        RoomStep::Existing(_) => panic!("expected a new room"),
    }
    let a = ChatService::ask_question(USER, STORE, None, "é".repeat(45));
    match a.resume(Ok(Some(store()))).unwrap() {
        RoomStep::New(n) => {
            let insert = n.try_prepare().unwrap();
            assert_eq!(insert.new_room.title, Some(format!("{}...", "é".repeat(20))));
            assert_eq!(&insert.new_room.id[14..15], "4");
        },
        RoomStep::Existing(_) => panic!("expected a new room"),
    }
}
