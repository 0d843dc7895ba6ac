use helpline::authorization::{create_token, create_token_at, SecretKey};
use helpline::chat_connection::{chat_step, chat_step_at, ChatAction, Message, WebsocketSignal};

fn secret() -> SecretKey {
    SecretKey::from_bytes([9u8; 32])
}

#[test]
fn a_valid_token_authenticates_a_fresh_connection() {
    let token = create_token_at(&secret(), "alice", 500, [2u8; 12]).unwrap();
    let action = chat_step_at(&secret(), None, WebsocketSignal::Authorization(token), 600);
    assert_eq!(action, ChatAction::Authenticated("alice".to_owned()));
}

#[test]
fn an_expired_or_forged_token_closes_the_connection() {
    let token = create_token_at(&secret(), "alice", 500, [2u8; 12]).unwrap();
    let late = chat_step_at(&secret(), None, WebsocketSignal::Authorization(token), 500 + 86_401);
    assert_eq!(late, ChatAction::Close);
    let mut forged = create_token_at(&secret(), "alice", 500, [2u8; 12]).unwrap();
    forged.username = "bob".to_owned();
    let action = chat_step_at(&secret(), None, WebsocketSignal::Authorization(forged), 600);
    assert_eq!(action, ChatAction::Close);
}

#[test]
fn a_message_is_broadcast_under_the_name_of_its_user() {
    let action =
        chat_step_at(&secret(), Some("alice"), WebsocketSignal::Message("hi".to_owned()), 0);
    assert_eq!(
        action,
        ChatAction::Broadcast(Message { author: "alice".to_owned(), message: "hi".to_owned() })
    );
    let now = chat_step(&secret(), Some("alice"), WebsocketSignal::Message("hi".to_owned()));
    assert_eq!(now, action);
}

#[test]
fn a_message_before_any_token_closes_the_connection() {
    let action = chat_step_at(&secret(), None, WebsocketSignal::Message("hi".to_owned()), 0);
    assert_eq!(action, ChatAction::Close);
    assert_eq!(
        chat_step(&secret(), None, WebsocketSignal::Message("hi".to_owned())),
        ChatAction::Close
    );
}

#[test]
fn a_second_token_closes_the_connection() {
    let token = create_token_at(&secret(), "alice", 500, [2u8; 12]).unwrap();
    let action =
        chat_step_at(&secret(), Some("alice"), WebsocketSignal::Authorization(token), 600);
    assert_eq!(action, ChatAction::Close);
}

#[test]
fn a_fresh_token_authenticates_now() {
    let key = SecretKey::generate();
    let token = create_token(&key, "carol").unwrap();
    assert_eq!(
        chat_step(&key, None, WebsocketSignal::Authorization(token)),
        ChatAction::Authenticated("carol".to_owned())
    );
}
