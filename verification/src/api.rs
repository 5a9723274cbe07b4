//! The user-facing API of a node: its root objects, the inputs it takes, and the users and
//! blobs it shows.

use crate::b64::{base64_encode, base64_length_fits, base64_standard};
use chrono::{DateTime, Utc};
use vstd::prelude::*;

verus! {

/// A point in time in UTC: whole seconds since the Unix epoch and the nanoseconds past
/// them.
#[derive(Debug, Clone, Copy, PartialEq, Eq, Structural)]
pub struct Timestamp {
    pub seconds: i64,
    pub nanos: u32,
}

/// The RFC 3339 text of a point in time, as `chrono` writes it, or `None` where `chrono`
/// cannot hold it.
pub uninterp spec fn rfc3339_of(seconds: i64, nanos: u32) -> Option<Seq<char>>;

/// `DateTime::<Utc>::from_timestamp(seconds, nanos)`, written with `to_rfc3339()`.
#[verifier::external_body]
fn rfc3339_text(seconds: i64, nanos: u32) -> (text: Option<String>)
    ensures
        rfc3339_of(seconds, nanos) == match text {
            Some(t) => Some(t@),
            None => None::<Seq<char>>,
        },
{
    match DateTime::<Utc>::from_timestamp(seconds, nanos) {
        Some(time) => Some(time.to_rfc3339()),
        None => None,
    }
}

/// The time that `chrono` reads from RFC 3339 text, as whole seconds since the Unix epoch,
/// nanoseconds past them and the offset from UTC in seconds, or `None` where it refuses
/// the text.
pub uninterp spec fn rfc3339_parsed(text: Seq<char>) -> Option<(i64, u32, i32)>;

/// `DateTime::parse_from_rfc3339(text)`, as its timestamp, sub-second nanoseconds and
/// offset from UTC.
#[verifier::external_body]
fn parse_rfc3339(text: &str) -> (time: Option<(i64, u32, i32)>)
    ensures
        time == rfc3339_parsed(text@),
{
    match DateTime::parse_from_rfc3339(text) {
        Ok(t) => Some((t.timestamp(), t.timestamp_subsec_nanos(), t.offset().local_minus_utc())),
        Err(_) => None,
    }
}

/// The creation time kept for a blob received from a peer: the time in the peer's RFC 3339
/// text, with its offset, or the time of receipt in UTC where the text does not read as one.
pub fn received_created_at(text: &str, now: Timestamp) -> (time: (i64, u32, i32))
    ensures
        time == match rfc3339_parsed(text@) {
            Some(t) => t,
            None => (now.seconds, now.nanos, 0i32),
        },
{
    match parse_rfc3339(text) {
        Some(t) => t,
        None => (now.seconds, now.nanos, 0),
    }
}

impl Timestamp {
    /// The RFC 3339 text of this point in time, or `None` where `chrono` cannot hold it.
    pub fn to_rfc3339(&self) -> (text: Option<String>)
        ensures
            rfc3339_of(self.seconds, self.nanos) == match text {
                Some(t) => Some(t@),
                None => None::<Seq<char>>,
            },
    {
        rfc3339_text(self.seconds, self.nanos)
    }
}

/// The query root of the user API.
pub struct Query;

/// The mutation root of the user API.
pub struct Mutation;

impl Query {
    /// The version of the API.
    pub fn api_version() -> (version: &'static str)
        ensures
            version@ == "1.0"@,
    {
        let version = "1.0";
        proof {
            reveal_strlit("1.0");
        }
        version
    }
}

/// A login request.
#[derive(Debug, Clone)]
pub struct LoginInput {
    pub username: String,
    pub password: String,
}

/// A registration request.
#[derive(Debug, Clone)]
pub struct NewUserInput {
    pub username: String,
    pub password: String,
    pub email: Option<String>,
}

/// A new blob: its content, and optional metadata and content type.
#[derive(Debug, Clone)]
pub struct BlobInput {
    pub content: String,
    pub metadata: Option<String>,
    pub content_type: Option<String>,
}

/// A request naming a blob.
#[derive(Debug, Clone, Copy)]
pub struct BlobIdInput {
    pub blob_id: u128,
}

/// A user as stored.
#[derive(Debug, Clone)]
pub struct User {
    pub id: u128,
    pub username: String,
    pub password_hash: String,
    pub private_key: String,
    pub email: Option<String>,
    pub created_at: Timestamp,
    pub updated_at: Timestamp,
}

/// A blob as stored.
#[derive(Debug, Clone)]
pub struct Blob {
    pub id: u128,
    pub content: Vec<u8>,
    pub metadata: Option<String>,
    pub content_type: Option<String>,
    pub size: i32,
    pub hash: Option<String>,
    pub owner_id: u128,
    pub public_key: String,
    pub created_at: Timestamp,
    pub updated_at: Timestamp,
    pub deleted_at: Option<Timestamp>,
}

/// A user as shown: id, name and email.
#[derive(Debug, Clone)]
pub struct UserSchema {
    pub id: u128,
    pub username: String,
    pub email: Option<String>,
}

impl UserSchema {
    /// How a stored user is shown.
    pub fn new(user: User) -> (shown: Self)
        ensures
            shown.id == user.id,
            shown.username == user.username,
            shown.email == user.email,
    {
        UserSchema { id: user.id, username: user.username, email: user.email }
    }
}

/// The answer to a login or registration: a session token and the user.
#[derive(Debug, Clone)]
pub struct AuthPayload {
    pub token: String,
    pub user: UserSchema,
}

/// A blob as shown: its content as text and its metadata.
#[derive(Debug, Clone)]
pub struct BlobSchema {
    pub id: u128,
    pub content: String,
    pub metadata: Option<String>,
    pub content_type: Option<String>,
    pub size: i32,
    pub hash: Option<String>,
    pub owner_id: u128,
    pub created_at: Timestamp,
}

impl BlobSchema {
    /// How a stored blob is shown when its content is not decrypted: as base64 text.
    pub fn new(blob: Blob) -> (shown: Self)
        requires
            base64_length_fits(blob.content@.len()),
        ensures
            shown.content@ == base64_standard(blob.content@),
            shown.id == blob.id,
            shown.metadata == blob.metadata,
            shown.content_type == blob.content_type,
            shown.size == blob.size,
            shown.hash == blob.hash,
            shown.owner_id == blob.owner_id,
            shown.created_at == blob.created_at,
    {
        let content = base64_encode(blob.content.as_slice());
        BlobSchema {
            id: blob.id,
            content,
            metadata: blob.metadata,
            content_type: blob.content_type,
            size: blob.size,
            hash: blob.hash,
            owner_id: blob.owner_id,
            created_at: blob.created_at,
        }
    }

    /// How a stored blob is shown with the given content text.
    pub fn from(blob: Blob, content: String) -> (shown: Self)
        ensures
            shown.content == content,
            shown.id == blob.id,
            shown.metadata == blob.metadata,
            shown.content_type == blob.content_type,
            shown.size == blob.size,
            shown.hash == blob.hash,
            shown.owner_id == blob.owner_id,
            shown.created_at == blob.created_at,
    {
        BlobSchema {
            id: blob.id,
            content,
            metadata: blob.metadata,
            content_type: blob.content_type,
            size: blob.size,
            hash: blob.hash,
            owner_id: blob.owner_id,
            created_at: blob.created_at,
        }
    }
}

} // verus!
