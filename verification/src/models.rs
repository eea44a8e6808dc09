use vstd::prelude::*;

verus! {

/// A transient username/password pair, alive only for the duration of one
/// authentication check; never persisted.
#[derive(Debug)]
pub struct Credential {
    pub username: String,
    pub password: String,
}

/// A stored user record. This library only reads it; timestamps are carried
/// as whole seconds of the Unix epoch.
#[derive(Debug)]
pub struct User {
    pub id: i32,
    pub username: String,
    pub role: String,
    pub password_hash: String,
    pub created_at: i64,
}

/// A stored chat message whose text is an encrypted envelope.
#[derive(Debug)]
pub struct ChatMessage {
    pub id: i32,
    pub user_id: i32,
    pub username: String,
    pub message_text: Vec<u8>,
    pub created_at: i64,
}

/// A chat message with its text decrypted, ready to hand outward.
#[derive(Debug)]
pub struct ChatMessageResponse {
    pub id: i32,
    pub user_id: i32,
    pub username: String,
    pub message_text: String,
    pub created_at: i64,
}

/// The request body for creating a user.
#[derive(Debug)]
pub struct CreateUserPayload {
    pub username: String,
    pub password: String,
}

/// The request body for posting a message.
#[derive(Debug)]
pub struct NewMessagePayload {
    pub message_text: String,
}

} // verus!
