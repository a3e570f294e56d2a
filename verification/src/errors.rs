use vstd::prelude::*;
use crate::text::{decimal, decimal_i64};

verus! {

/// The failures that the server's own decisions can produce. Failures reported by
/// Telegram itself are passed on as they come and are not listed here.
#[derive(Debug, Clone, PartialEq, Eq)]
pub enum TgError {
    /// The lookup kind was `"username"` but no username, or a blank one, was given.
    UsernameRequired,
    /// The lookup kind was `"id"` but no id was given.
    IdRequired,
    /// The lookup kind was neither `"username"` nor `"id"`; it holds the kind given.
    UnsupportedKind(String),
    /// No dialog of the account has this peer id.
    PeerNotFound(i64),
    /// Telegram knows no peer by this username (as it was given, before leading `@` were stripped).
    UsernameNotFound(String),
    /// A reply was asked for a message id that is not positive.
    InvalidReplyTo(i32),
    /// The discussion of this channel post holds no ordinary message to reply to.
    DiscussionMessageMissing(i32),
    /// The discussion of this channel post names no chat or channel to post in.
    DiscussionPeerMissing(i32),
}

/// The text by which each failure is reported.
pub open spec fn error_text(e: TgError) -> Seq<char> {
    match e {
        TgError::UsernameRequired => "username is required when kind='username'"@,
        TgError::IdRequired => "id is required when kind='id'"@,
        TgError::UnsupportedKind(kind) => "unsupported peer lookup kind: "@ + kind@
            + " (expected 'username' or 'id')"@,
        TgError::PeerNotFound(id) => "peer with id "@ + decimal(id as int) + " not found"@,
        TgError::UsernameNotFound(name) => "no peer with "@ + name@ + " username"@,
        TgError::InvalidReplyTo(id) => "msg_reply_to must be a positive message id, got "@
            + decimal(id as int),
        TgError::DiscussionMessageMissing(id) => "failed to resolve discussion message id for "@
            + decimal(id as int) + " message id"@,
        TgError::DiscussionPeerMissing(id) => "failed to resolve discussion message peer for "@
            + decimal(id as int) + " message id"@,
    }
}

impl TgError {
    /// The text by which this failure is reported to the client.
    pub fn message(&self) -> (r: String)
        ensures
            r@ == error_text(*self),
    {
        match self {
            TgError::UsernameRequired => String::from_str("username is required when kind='username'"),
            TgError::IdRequired => String::from_str("id is required when kind='id'"),
            TgError::UnsupportedKind(kind) => {
                let mut r = String::from_str("unsupported peer lookup kind: ");
                r.append(kind.as_str());
                r.append(" (expected 'username' or 'id')");
                r
            },
            TgError::PeerNotFound(id) => {
                let mut r = String::from_str("peer with id ");
                let d = decimal_i64(*id);
                r.append(d.as_str());
                r.append(" not found");
                r
            },
            TgError::UsernameNotFound(name) => {
                let mut r = String::from_str("no peer with ");
                r.append(name.as_str());
                r.append(" username");
                r
            },
            TgError::InvalidReplyTo(id) => {
                let mut r = String::from_str("msg_reply_to must be a positive message id, got ");
                let d = decimal_i64(*id as i64);
                r.append(d.as_str());
                r
            },
            TgError::DiscussionMessageMissing(id) => {
                let mut r = String::from_str("failed to resolve discussion message id for ");
                let d = decimal_i64(*id as i64);
                r.append(d.as_str());
                r.append(" message id");
                r
            },
            TgError::DiscussionPeerMissing(id) => {
                let mut r = String::from_str("failed to resolve discussion message peer for ");
                let d = decimal_i64(*id as i64);
                r.append(d.as_str());
                r.append(" message id");
                r
            },
        }
    }
}

} // verus!
