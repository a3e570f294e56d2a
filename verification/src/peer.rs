use vstd::prelude::*;
use crate::errors::TgError;
use crate::text::{blank, is_blank};
use crate::tg_structs::{
    opt_str, DialogItemView, TgDialogOutputItem, TgMessageOutputItem, TgPeerOutput,
};

verus! {

/// What the server reads of a Telegram peer: a user, a group or a broadcast channel.
#[derive(Debug, Clone, PartialEq, Eq)]
#[allow(inconsistent_fields)]
pub enum PeerInfo {
    User {
        id: i64,
        full_name: String,
        username: Option<String>,
        is_bot: bool,
        is_premium: bool,
        phone_number: Option<String>,
    },
    Group { id: i64, title: Option<String>, username: Option<String> },
    Channel { id: i64, title: String, username: Option<String> },
}

/// The bare id of a peer.
pub open spec fn peer_id(p: PeerInfo) -> i64 {
    match p {
        PeerInfo::User { id, .. } => id,
        PeerInfo::Group { id, .. } => id,
        PeerInfo::Channel { id, .. } => id,
    }
}

/// The public username of a peer, if it has one.
pub open spec fn peer_username(p: PeerInfo) -> Option<String> {
    match p {
        PeerInfo::User { username, .. } => username,
        PeerInfo::Group { username, .. } => username,
        PeerInfo::Channel { username, .. } => username,
    }
}

/// The name a peer is shown by: a user's full name, a group's title if it has one,
/// a channel's title.
pub open spec fn peer_display_name(p: PeerInfo) -> Option<String> {
    match p {
        PeerInfo::User { full_name, .. } => Some(full_name),
        PeerInfo::Group { title, .. } => title,
        PeerInfo::Channel { title, .. } => Some(title),
    }
}

/// The word that names the kind of a peer in a dialog listing.
pub open spec fn peer_kind_name(p: PeerInfo) -> Seq<char> {
    match p {
        PeerInfo::User { .. } => "user"@,
        PeerInfo::Group { .. } => "group"@,
        PeerInfo::Channel { .. } => "channel"@,
    }
}

/// The dialog entry that lists a peer.
pub open spec fn dialog_view(p: PeerInfo) -> DialogItemView {
    DialogItemView {
        dialog_id: peer_id(p),
        dialog_name: opt_str(peer_username(p)),
        dialog_full_name: opt_str(peer_display_name(p)),
        dialog_type: peer_kind_name(p),
    }
}

/// What is told of a peer that was looked up or found.
pub open spec fn peer_output_of(p: PeerInfo) -> TgPeerOutput {
    match p {
        PeerInfo::User { id, full_name, username, is_bot, is_premium, phone_number } => {
            TgPeerOutput::User { id, full_name, username, is_bot, is_premium, phone_number }
        },
        PeerInfo::Group { id, title, username } => TgPeerOutput::Group { id, title, username },
        PeerInfo::Channel { id, title, username } => TgPeerOutput::Channel {
            id,
            tittle: title,
            username,
        },
    }
}

/// A copy of an optional string.
pub fn copy_opt_string(o: &Option<String>) -> (r: Option<String>)
    ensures
        r == *o,
{
    match o {
        Some(s) => Some(s.clone()),
        None => None,
    }
}

impl PeerInfo {
    /// The bare id of this peer.
    pub fn id(&self) -> (r: i64)
        ensures
            r == peer_id(*self),
    {
        match self {
            PeerInfo::User { id, .. } => *id,
            PeerInfo::Group { id, .. } => *id,
            PeerInfo::Channel { id, .. } => *id,
        }
    }
}

/// The dialog entry that lists `p`.
pub fn dialog_item(p: &PeerInfo) -> (r: TgDialogOutputItem)
    ensures
        r@ == dialog_view(*p),
{
    match p {
        PeerInfo::User { id, full_name, username, .. } => TgDialogOutputItem {
            dialog_id: *id,
            dialog_name: copy_opt_string(username),
            dialog_full_name: Some(full_name.clone()),
            dialog_type: String::from_str("user"),
        },
        PeerInfo::Group { id, title, username } => TgDialogOutputItem {
            dialog_id: *id,
            dialog_name: copy_opt_string(username),
            dialog_full_name: copy_opt_string(title),
            dialog_type: String::from_str("group"),
        },
        PeerInfo::Channel { id, title, username } => TgDialogOutputItem {
            dialog_id: *id,
            dialog_name: copy_opt_string(username),
            dialog_full_name: Some(title.clone()),
            dialog_type: String::from_str("channel"),
        },
    }
}

/// The dialog listing of the account: one entry per dialog, in the order given.
pub fn dialog_items(peers: &Vec<PeerInfo>) -> (r: Vec<TgDialogOutputItem>)
    ensures
        r.len() == peers.len(),
        forall|i: int| 0 <= i < peers.len() ==> (#[trigger] r[i])@ == dialog_view(peers[i]),
{
    let mut r: Vec<TgDialogOutputItem> = Vec::new();
    let mut i: usize = 0;
    while i < peers.len()
        invariant
            i <= peers.len(),
            r.len() == i,
            forall|j: int| 0 <= j < i ==> (#[trigger] r[j])@ == dialog_view(peers[j]),
        decreases peers.len() - i,
    {
        r.push(dialog_item(&peers[i]));
        i = i + 1;
    }
    r
}

/// What is told of `p` when it was looked up or found.
pub fn peer_output(p: &PeerInfo) -> (r: TgPeerOutput)
    ensures
        r == peer_output_of(*p),
{
    match p {
        PeerInfo::User { id, full_name, username, is_bot, is_premium, phone_number } => {
            TgPeerOutput::User {
                id: *id,
                full_name: full_name.clone(),
                username: copy_opt_string(username),
                is_bot: *is_bot,
                is_premium: *is_premium,
                phone_number: copy_opt_string(phone_number),
            }
        },
        PeerInfo::Group { id, title, username } => TgPeerOutput::Group {
            id: *id,
            title: copy_opt_string(title),
            username: copy_opt_string(username),
        },
        PeerInfo::Channel { id, title, username } => TgPeerOutput::Channel {
            id: *id,
            tittle: title.clone(),
            username: copy_opt_string(username),
        },
    }
}

/// What is told of each peer a search found, in the order found.
pub fn peer_outputs(peers: &Vec<PeerInfo>) -> (r: Vec<TgPeerOutput>)
    ensures
        r.len() == peers.len(),
        forall|i: int| 0 <= i < peers.len() ==> #[trigger] r[i] == peer_output_of(peers[i]),
{
    let mut r: Vec<TgPeerOutput> = Vec::new();
    let mut i: usize = 0;
    while i < peers.len()
        invariant
            i <= peers.len(),
            r.len() == i,
            forall|j: int| 0 <= j < i ==> #[trigger] r[j] == peer_output_of(peers[j]),
        decreases peers.len() - i,
    {
        r.push(peer_output(&peers[i]));
        i = i + 1;
    }
    r
}

/// How a peer is to be found: by its public username or by its id among the dialogs.
#[derive(Debug, Clone, PartialEq, Eq)]
pub enum PeerQuery {
    Username(String),
    Id(i64),
}

/// The lookup a `kind` and its arguments ask for. A username lookup needs a username
/// that is not blank; an id lookup needs an id; no other kind is known.
pub open spec fn peer_query_of(kind: String, username: Option<String>, id: Option<i64>) -> Result<
    PeerQuery,
    TgError,
> {
    if kind@ == "username"@ {
        match username {
            Some(u) => if is_blank(u@) {
                Err(TgError::UsernameRequired)
            } else {
                Ok(PeerQuery::Username(u))
            },
            None => Err(TgError::UsernameRequired),
        }
    } else if kind@ == "id"@ {
        match id {
            Some(i) => Ok(PeerQuery::Id(i)),
            None => Err(TgError::IdRequired),
        }
    } else {
        Err(TgError::UnsupportedKind(kind))
    }
}

/// Decides how to find the peer that a request names.
pub fn peer_query(kind: String, username: Option<String>, id: Option<i64>) -> (r: Result<
    PeerQuery,
    TgError,
>)
    ensures
        r == peer_query_of(kind, username, id),
{
    let by_username = String::from_str("username");
    let by_id = String::from_str("id");
    if kind == by_username {
        match username {
            Some(u) => if blank(u.as_str()) {
                Err(TgError::UsernameRequired)
            } else {
                Ok(PeerQuery::Username(u))
            },
            None => Err(TgError::UsernameRequired),
        }
    } else if kind == by_id {
        match id {
            Some(i) => Ok(PeerQuery::Id(i)),
            None => Err(TgError::IdRequired),
        }
    } else {
        Err(TgError::UnsupportedKind(kind))
    }
}

/// Whether `p` is the dialog that an id lookup for `wanted` is after.
pub fn dialog_matches(p: &PeerInfo, wanted: i64) -> (b: bool)
    ensures
        b == (peer_id(*p) == wanted),
{
    p.id() == wanted
}

/// The peer that a username lookup found, or the failure that names the username.
pub fn found_or_missing<T>(name: String, found: Option<T>) -> (r: Result<T, TgError>)
    ensures
        match found {
            Some(p) => r == Ok::<T, TgError>(p),
            None => r == Err::<T, TgError>(TgError::UsernameNotFound(name)),
        },
{
    match found {
        Some(p) => Ok(p),
        None => Err(TgError::UsernameNotFound(name)),
    }
}

/// What is known of the sender of a message.
#[derive(Debug, Clone, PartialEq, Eq)]
pub struct SenderInfo {
    pub id: Option<i64>,
    pub username: Option<String>,
    pub full_name: Option<String>,
}

/// A peer taken as the sender of a message: its id, username and display name.
pub open spec fn sender_of(p: PeerInfo) -> SenderInfo {
    SenderInfo {
        id: Some(peer_id(p)),
        username: peer_username(p),
        full_name: peer_display_name(p),
    }
}

/// `p` taken as the sender of a message.
pub fn sender_from_peer(p: &PeerInfo) -> (r: SenderInfo)
    ensures
        r == sender_of(*p),
{
    match p {
        PeerInfo::User { id, full_name, username, .. } => SenderInfo {
            id: Some(*id),
            username: copy_opt_string(username),
            full_name: Some(full_name.clone()),
        },
        PeerInfo::Group { id, title, username } => SenderInfo {
            id: Some(*id),
            username: copy_opt_string(username),
            full_name: copy_opt_string(title),
        },
        PeerInfo::Channel { id, title, username } => SenderInfo {
            id: Some(*id),
            username: copy_opt_string(username),
            full_name: Some(title.clone()),
        },
    }
}

/// What the server reads of one message of a chat history or a search.
#[derive(Debug, Clone, PartialEq, Eq)]
pub struct MessageInfo {
    pub id: i32,
    pub text: String,
    pub reply_to_message_id: Option<i32>,
}

/// The output entry of a message from a given sender.
pub open spec fn message_item_of(m: MessageInfo, s: SenderInfo) -> TgMessageOutputItem {
    TgMessageOutputItem {
        message_id: m.id,
        sender_id: s.id,
        sender_username: s.username,
        sender_full_name: s.full_name,
        reply_to_message_id: m.reply_to_message_id,
        text: m.text,
    }
}

/// The output entry of message `m` from sender `s`.
pub fn message_item(m: MessageInfo, s: SenderInfo) -> (r: TgMessageOutputItem)
    ensures
        r == message_item_of(m, s),
{
    TgMessageOutputItem {
        message_id: m.id,
        sender_id: s.id,
        sender_username: s.username,
        sender_full_name: s.full_name,
        reply_to_message_id: m.reply_to_message_id,
        text: m.text,
    }
}

/// Who a history message is shown as from: the sender Telegram names, or else the chat.
pub open spec fn history_sender(sender: Option<PeerInfo>, chat: PeerInfo) -> PeerInfo {
    match sender {
        Some(p) => p,
        None => chat,
    }
}

/// The output entry of a message of the history of `chat`: the message's own sender when
/// Telegram names one, the chat itself otherwise.
pub fn history_message_item(m: MessageInfo, sender: Option<&PeerInfo>, chat: &PeerInfo) -> (r:
    TgMessageOutputItem)
    ensures
        r == message_item_of(
            m,
            sender_of(
                history_sender(
                    match sender {
                        Some(p) => Some(*p),
                        None => None,
                    },
                    *chat,
                ),
            ),
        ),
{
    let s = match sender {
        Some(p) => sender_from_peer(p),
        None => sender_from_peer(chat),
    };
    message_item(m, s)
}


/// The message a new message replies to: none, or a positive message id. Any other id is refused.
pub open spec fn reply_target_spec(msg_reply_to: Option<i32>) -> Result<Option<i32>, TgError> {
    match msg_reply_to {
        Some(r) => if r > 0 {
            Ok(Some(r))
        } else {
            Err(TgError::InvalidReplyTo(r))
        },
        None => Ok(None),
    }
}

/// Checks the message a new message should reply to.
pub fn reply_target(msg_reply_to: Option<i32>) -> (r: Result<Option<i32>, TgError>)
    ensures
        r == reply_target_spec(msg_reply_to),
{
    match msg_reply_to {
        Some(r) => if r > 0 {
            Ok(Some(r))
        } else {
            Err(TgError::InvalidReplyTo(r))
        },
        None => Ok(None),
    }
}

} // verus!
