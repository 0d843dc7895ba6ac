//! The chat room: what one connection may do with each signal it receives.
//!
//! A connection starts without a user. Its first signal has to present a
//! token; from then on every message it sends is broadcast under the
//! username of that token. Anything out of turn closes the connection.

use crate::authorization::{
    accepted, resolved_at, username_if_valid_at, SecretKey, Token, TokenView,
};
use crate::primitives::unix_seconds;
use vstd::prelude::*;

verus! {

/// A message as the room broadcasts it.
#[derive(Debug, PartialEq, Eq)]
pub struct Message {
    pub author: String,
    pub message: String,
}

pub struct MessageView {
    pub author: Seq<char>,
    pub message: Seq<char>,
}

impl View for Message {
    type V = MessageView;

    open spec fn view(&self) -> MessageView {
        MessageView { author: self.author@, message: self.message@ }
    }
}

/// What a connection receives from its peer.
#[derive(Debug, PartialEq, Eq)]
pub enum WebsocketSignal {
    Authorization(Token),
    Message(String),
}

pub enum WebsocketSignalView {
    Authorization(TokenView),
    Message(Seq<char>),
}

impl View for WebsocketSignal {
    type V = WebsocketSignalView;

    open spec fn view(&self) -> WebsocketSignalView {
        match self {
            WebsocketSignal::Authorization(token) => WebsocketSignalView::Authorization(token@),
            WebsocketSignal::Message(text) => WebsocketSignalView::Message(text@),
        }
    }
}

/// What a connection is to do after a signal.
#[derive(Debug, PartialEq, Eq)]
pub enum ChatAction {
    /// End the connection.
    Close,
    /// Go on as this user.
    Authenticated(String),
    /// Hand the message to everyone in the room.
    Broadcast(Message),
}

pub enum ChatActionView {
    Close,
    Authenticated(Seq<char>),
    Broadcast(MessageView),
}

impl View for ChatAction {
    type V = ChatActionView;

    open spec fn view(&self) -> ChatActionView {
        match self {
            ChatAction::Close => ChatActionView::Close,
            ChatAction::Authenticated(user) => ChatActionView::Authenticated(user@),
            ChatAction::Broadcast(message) => ChatActionView::Broadcast(message@),
        }
    }
}

/// The text of the user a connection runs as, if it has one.
pub open spec fn user_view(user: Option<&str>) -> Option<Seq<char>> {
    match user {
        Some(u) => Some(u@),
        None => None,
    }
}

/// What a signal leads to at time `now`. A token presented by a connection
/// without a user makes it that token's user where the token is accepted,
/// and closes it otherwise. A message from a connection with a user is
/// broadcast under that user's name. Everything else closes the connection:
/// a message before any token, and a second token.
pub open spec fn chat_step_spec(
    key: Seq<u8>,
    user: Option<Seq<char>>,
    signal: WebsocketSignalView,
    now: i64,
) -> ChatActionView {
    match (signal, user) {
        (WebsocketSignalView::Authorization(token), None) => match resolved_at(key, token, now) {
            Some(username) => ChatActionView::Authenticated(username),
            None => ChatActionView::Close,
        },
        (WebsocketSignalView::Message(message), Some(author)) => ChatActionView::Broadcast(
            MessageView { author, message },
        ),
        _ => ChatActionView::Close,
    }
}

/// Decides what a connection is to do after `signal`, at time `now`.
pub fn chat_step_at(
    key: &SecretKey,
    user: Option<&str>,
    signal: WebsocketSignal,
    now: i64,
) -> (action: ChatAction)
    ensures
        action@ == chat_step_spec(key@, user_view(user), signal@, now),
{
    match signal {
        WebsocketSignal::Authorization(token) => {
            if user.is_some() {
                return ChatAction::Close;
            }
            match username_if_valid_at(key, &token, now) {
                Some(username) => ChatAction::Authenticated(username.to_owned()),
                None => ChatAction::Close,
            }
        },
        WebsocketSignal::Message(message) => match user {
            Some(author) => ChatAction::Broadcast(Message { author: author.to_owned(), message }),
            None => ChatAction::Close,
        },
    }
}

/// Decides what a connection is to do after `signal`, judging a token at
/// the time that the clock shows.
pub fn chat_step(key: &SecretKey, user: Option<&str>, signal: WebsocketSignal) -> (action:
    ChatAction)
    ensures
        exists|now: i64| #[trigger]
            chat_step_spec(key@, user_view(user), signal@, now) == action@,
{
    let ghost asked = signal@;
    let now = unix_seconds();
    let action = chat_step_at(key, user, signal, now);
    assert(chat_step_spec(key@, user_view(user), asked, now) == action@);
    action
}

/// Whatever is broadcast carries the name of the user the connection runs
/// as, and nothing is broadcast for a connection without a user.
pub proof fn law_broadcast_names_its_author(
    key: Seq<u8>,
    user: Option<Seq<char>>,
    signal: WebsocketSignalView,
    now: i64,
)
    requires
        chat_step_spec(key, user, signal, now) is Broadcast,
    ensures
        user == Some(chat_step_spec(key, user, signal, now)->Broadcast_0.author),
        signal == WebsocketSignalView::Message(
            chat_step_spec(key, user, signal, now)->Broadcast_0.message,
        ),
{
}

/// A connection becomes a user only by a token that is accepted, and only
/// the user that the token names.
pub proof fn law_user_comes_from_an_accepted_token(
    key: Seq<u8>,
    user: Option<Seq<char>>,
    signal: WebsocketSignalView,
    now: i64,
)
    requires
        chat_step_spec(key, user, signal, now) is Authenticated,
    ensures
        user is None,
        signal is Authorization,
        accepted(key, signal->Authorization_0, now),
        chat_step_spec(key, user, signal, now)->Authenticated_0
            == signal->Authorization_0.username,
{
}

} // verus!
