use vstd::prelude::*;

verus! {

/// The number of matching messages a search returns when the request names no limit.
pub fn default_limit() -> (n: usize)
    ensures
        n == 50,
{
    50
}

/// An optional string seen as an optional sequence of characters.
pub open spec fn opt_str(o: Option<String>) -> Option<Seq<char>> {
    match o {
        Some(s) => Some(s@),
        None => None,
    }
}

/// One dialog of the account: a private chat, a group or a channel.
#[derive(Debug, Clone, PartialEq, Eq)]
pub struct TgDialogOutputItem {
    pub dialog_id: i64,
    pub dialog_name: Option<String>,
    pub dialog_full_name: Option<String>,
    pub dialog_type: String,
}

/// The abstract value of a [`TgDialogOutputItem`].
pub struct DialogItemView {
    pub dialog_id: i64,
    pub dialog_name: Option<Seq<char>>,
    pub dialog_full_name: Option<Seq<char>>,
    pub dialog_type: Seq<char>,
}

impl View for TgDialogOutputItem {
    type V = DialogItemView;

    open spec fn view(&self) -> DialogItemView {
        DialogItemView {
            dialog_id: self.dialog_id,
            dialog_name: opt_str(self.dialog_name),
            dialog_full_name: opt_str(self.dialog_full_name),
            dialog_type: self.dialog_type@,
        }
    }
}

/// One message of a chat, a search result or a comment thread, with what is known of its sender.
#[derive(Debug, Clone, PartialEq, Eq)]
pub struct TgMessageOutputItem {
    pub message_id: i32,
    pub sender_id: Option<i64>,
    pub sender_username: Option<String>,
    pub sender_full_name: Option<String>,
    pub reply_to_message_id: Option<i32>,
    pub text: String,
}

/// The abstract value of a [`TgMessageOutputItem`].
pub struct MessageItemView {
    pub message_id: i32,
    pub sender_id: Option<i64>,
    pub sender_username: Option<Seq<char>>,
    pub sender_full_name: Option<Seq<char>>,
    pub reply_to_message_id: Option<i32>,
    pub text: Seq<char>,
}

impl View for TgMessageOutputItem {
    type V = MessageItemView;

    open spec fn view(&self) -> MessageItemView {
        MessageItemView {
            message_id: self.message_id,
            sender_id: self.sender_id,
            sender_username: opt_str(self.sender_username),
            sender_full_name: opt_str(self.sender_full_name),
            reply_to_message_id: self.reply_to_message_id,
            text: self.text@,
        }
    }
}

/// One member of a group or channel.
#[derive(Debug, Clone, PartialEq, Eq)]
pub struct TgParticipantOutputItem {
    pub id: i64,
    pub full_name: String,
    pub username: Option<String>,
    pub is_bot: bool,
    pub is_premium: bool,
    pub phone_number: Option<String>,
    pub role: String,
}

/// The abstract value of a [`TgParticipantOutputItem`].
pub struct ParticipantItemView {
    pub id: i64,
    pub full_name: Seq<char>,
    pub username: Option<Seq<char>>,
    pub is_bot: bool,
    pub is_premium: bool,
    pub phone_number: Option<Seq<char>>,
    pub role: Seq<char>,
}

impl View for TgParticipantOutputItem {
    type V = ParticipantItemView;

    open spec fn view(&self) -> ParticipantItemView {
        ParticipantItemView {
            id: self.id,
            full_name: self.full_name@,
            username: opt_str(self.username),
            is_bot: self.is_bot,
            is_premium: self.is_premium,
            phone_number: opt_str(self.phone_number),
            role: self.role@,
        }
    }
}

/// Names a peer to look up: `kind` is `"username"` or `"id"`.
#[derive(Debug, Clone, PartialEq, Eq)]
pub struct GetPeerRequest {
    pub kind: String,
    pub username: Option<String>,
    pub id: Option<i64>,
}

/// A search for users, groups and channels.
#[derive(Debug, Clone, PartialEq, Eq)]
pub struct SearchPeerRequest {
    pub query: String,
    pub limit: usize,
}

/// Names a peer (`peer_kind` is `"id"` or `"username"`) and how many items to return from it.
#[derive(Debug, Clone, PartialEq, Eq)]
pub struct PeerDataRequest {
    pub peer_kind: String,
    pub peer_username: Option<String>,
    pub peer_id: Option<i64>,
    pub limit: usize,
}

/// Names a channel post whose discussion comments are wanted.
#[derive(Debug, Clone, PartialEq, Eq)]
pub struct GetPostCommentsRequest {
    pub peer_kind: String,
    pub peer_username: Option<String>,
    pub peer_id: Option<i64>,
    pub message_id: i32,
    pub limit: i32,
}

/// A text search among the messages of one peer.
#[derive(Debug, Clone, PartialEq, Eq)]
pub struct GetSearchMessagesRequest {
    pub peer_kind: String,
    pub peer_username: Option<String>,
    pub peer_id: Option<i64>,
    pub query: String,
    pub limit: usize,
}

/// A text message to send to a peer, optionally as a reply.
#[derive(Debug, Clone, PartialEq, Eq)]
pub struct SendMessageRequest {
    pub peer_kind: String,
    pub peer_username: Option<String>,
    pub peer_id: Option<i64>,
    pub message: String,
    pub reply_to_message_id: Option<i32>,
}

/// A comment to post in the discussion thread of a channel post.
#[derive(Debug, Clone, PartialEq, Eq)]
pub struct SendPostComment {
    pub peer_kind: String,
    pub peer_username: Option<String>,
    pub peer_id: Option<i64>,
    pub message_id: i32,
    pub post_comment: String,
}

/// What is told of a peer that was looked up or found by a search.
#[derive(Debug, Clone, PartialEq, Eq)]
pub enum TgPeerOutput {
    User {
        id: i64,
        full_name: String,
        username: Option<String>,
        is_bot: bool,
        is_premium: bool,
        phone_number: Option<String>,
    },
    Group { id: i64, title: Option<String>, username: Option<String> },
    Channel { id: i64, tittle: String, username: Option<String> },
}

} // verus!
