use vstd::prelude::*;
use crate::collect::reverse_vec;
use crate::errors::TgError;
use crate::peer::{copy_opt_string, SenderInfo};
use crate::tg_structs::{opt_str, MessageItemView, TgMessageOutputItem};

verus! {

/// A user as Telegram lists it beside a page of messages.
#[derive(Debug, Clone, PartialEq, Eq)]
pub enum TlUser {
    User {
        id: i64,
        username: Option<String>,
        first_name: Option<String>,
        last_name: Option<String>,
    },
    /// A user of whom nothing is known.
    Empty,
}

/// A chat as Telegram lists it beside a page of messages.
#[derive(Debug, Clone, PartialEq, Eq)]
pub enum TlChat {
    Channel { id: i64, title: String, username: Option<String>, access_hash: Option<i64> },
    Chat { id: i64, title: String },
    /// An empty, forbidden or other chat that cannot be posted in.
    Other,
}

/// Who a message is from.
#[derive(Debug, Clone, PartialEq, Eq)]
pub enum TlFromPeer {
    User(i64),
    Chat(i64),
    Channel(i64),
}

/// What a message replies to.
#[derive(Debug, Clone, PartialEq, Eq)]
pub enum TlReplyHeader {
    /// A reply to a message, whose id Telegram may or may not give.
    Message(Option<i32>),
    /// A reply to a story.
    Story,
}

/// A message as Telegram sends it in a page of messages.
#[derive(Debug, Clone, PartialEq, Eq)]
pub enum TlMessage {
    Message { id: i32, from: Option<TlFromPeer>, text: String, reply_to: Option<TlReplyHeader> },
    /// An empty or service message.
    Other,
}

/// A page of replies to a post.
#[derive(Debug, Clone, PartialEq, Eq)]
pub enum TlReplies {
    Messages { messages: Vec<TlMessage>, users: Vec<TlUser>, chats: Vec<TlChat> },
    NotModified,
}

/// The first element of `s` that satisfies `p`.
pub open spec fn first_match<T>(s: Seq<T>, p: spec_fn(T) -> bool) -> Option<T>
    decreases s.len(),
{
    if s.len() == 0 {
        None
    } else if p(s[0]) {
        Some(s[0])
    } else {
        first_match(s.drop_first(), p)
    }
}

proof fn lemma_first_match_step<T>(s: Seq<T>, p: spec_fn(T) -> bool, k: int)
    requires
        0 <= k < s.len(),
    ensures
        first_match(s.subrange(k, s.len() as int), p) == (if p(s[k]) {
            Some(s[k])
        } else {
            first_match(s.subrange(k + 1, s.len() as int), p)
        }),
{
    assert(s.subrange(k, s.len() as int).drop_first() =~= s.subrange(k + 1, s.len() as int));
}

/// A known user with this id.
pub open spec fn user_with_id(uid: i64) -> spec_fn(TlUser) -> bool {
    |u: TlUser|
        match u {
            TlUser::User { id, .. } => id == uid,
            TlUser::Empty => false,
        }
}

/// A channel with this id.
pub open spec fn channel_with_id(cid: i64) -> spec_fn(TlChat) -> bool {
    |c: TlChat|
        match c {
            TlChat::Channel { id, .. } => id == cid,
            _ => false,
        }
}

/// A basic group chat with this id.
pub open spec fn chat_with_id(gid: i64) -> spec_fn(TlChat) -> bool {
    |c: TlChat|
        match c {
            TlChat::Chat { id, .. } => id == gid,
            _ => false,
        }
}

/// An optional text, or the empty text.
pub open spec fn or_empty(o: Option<String>) -> Seq<char> {
    match o {
        Some(s) => s@,
        None => Seq::empty(),
    }
}

/// A user's name as a comment shows it: first name, a space, last name, each name
/// empty when missing.
pub open spec fn comment_user_name(first: Option<String>, last: Option<String>) -> Seq<char> {
    or_empty(first) + " "@ + or_empty(last)
}

/// What is known of a sender, as sequences of characters.
pub struct SenderView {
    pub id: Option<i64>,
    pub username: Option<Seq<char>>,
    pub full_name: Option<Seq<char>>,
}

/// The abstract value of a [`SenderInfo`].
pub open spec fn sender_view(s: SenderInfo) -> SenderView {
    SenderView { id: s.id, username: opt_str(s.username), full_name: opt_str(s.full_name) }
}

/// The sender of a comment: looked up among the users or chats that came with the page,
/// by the id the comment names; the post's own peer when the comment names none.
pub open spec fn comment_sender(
    from: Option<TlFromPeer>,
    users: Seq<TlUser>,
    chats: Seq<TlChat>,
    fallback: SenderInfo,
) -> SenderView {
    match from {
        Some(TlFromPeer::User(uid)) => match first_match(users, user_with_id(uid)) {
            Some(TlUser::User { username, first_name, last_name, .. }) => SenderView {
                id: Some(uid),
                username: opt_str(username),
                full_name: Some(comment_user_name(first_name, last_name)),
            },
            _ => SenderView { id: Some(uid), username: None, full_name: None },
        },
        Some(TlFromPeer::Channel(cid)) => match first_match(chats, channel_with_id(cid)) {
            Some(TlChat::Channel { title, username, .. }) => SenderView {
                id: Some(cid),
                username: opt_str(username),
                full_name: Some(title@),
            },
            _ => SenderView { id: Some(cid), username: None, full_name: None },
        },
        Some(TlFromPeer::Chat(gid)) => match first_match(chats, chat_with_id(gid)) {
            Some(TlChat::Chat { title, .. }) => SenderView {
                id: Some(gid),
                username: None,
                full_name: Some(title@),
            },
            _ => SenderView { id: Some(gid), username: None, full_name: None },
        },
        None => sender_view(fallback),
    }
}

/// The id of the message a reply header points to.
pub open spec fn reply_target_id(r: Option<TlReplyHeader>) -> Option<i32> {
    match r {
        Some(TlReplyHeader::Message(id)) => id,
        _ => None,
    }
}

/// The output entry of one comment.
pub open spec fn comment_view(
    id: i32,
    from: Option<TlFromPeer>,
    text: String,
    reply_to: Option<TlReplyHeader>,
    users: Seq<TlUser>,
    chats: Seq<TlChat>,
    fallback: SenderInfo,
) -> MessageItemView {
    let s = comment_sender(from, users, chats, fallback);
    MessageItemView {
        message_id: id,
        sender_id: s.id,
        sender_username: s.username,
        sender_full_name: s.full_name,
        reply_to_message_id: reply_target_id(reply_to),
        text: text@,
    }
}

/// The output entries of the ordinary messages of a page, in page order; empty and
/// service messages are left out.
pub open spec fn comments_in_order(
    msgs: Seq<TlMessage>,
    users: Seq<TlUser>,
    chats: Seq<TlChat>,
    fallback: SenderInfo,
) -> Seq<MessageItemView>
    decreases msgs.len(),
{
    if msgs.len() == 0 {
        Seq::empty()
    } else {
        let before = comments_in_order(msgs.drop_last(), users, chats, fallback);
        match msgs.last() {
            TlMessage::Message { id, from, text, reply_to } => before.push(
                comment_view(id, from, text, reply_to, users, chats, fallback),
            ),
            TlMessage::Other => before,
        }
    }
}

/// The abstract values of a list of output entries.
pub open spec fn item_views(v: Seq<TgMessageOutputItem>) -> Seq<MessageItemView> {
    v.map_values(|m: TgMessageOutputItem| m@)
}

/// The first known user with id `uid`.
fn find_user(users: &Vec<TlUser>, uid: i64) -> (r: Option<&TlUser>)
    ensures
        match r {
            Some(u) => first_match(users@, user_with_id(uid)) == Some(*u),
            None => first_match(users@, user_with_id(uid)) is None,
        },
{
    let n = users.len();
    let mut i: usize = 0;
    assert(users@.subrange(0, n as int) =~= users@);
    while i < n
        invariant
            n == users@.len(),
            i <= n,
            first_match(users@, user_with_id(uid)) == first_match(
                users@.subrange(i as int, n as int),
                user_with_id(uid),
            ),
        decreases n - i,
    {
        proof {
            lemma_first_match_step(users@, user_with_id(uid), i as int);
        }
        let found = match &users[i] {
            TlUser::User { id, .. } => *id == uid,
            TlUser::Empty => false,
        };
        if found {
            return Some(&users[i]);
        }
        i = i + 1;
    }
    None
}

/// The first channel with id `cid`.
fn find_channel(chats: &Vec<TlChat>, cid: i64) -> (r: Option<&TlChat>)
    ensures
        match r {
            Some(c) => first_match(chats@, channel_with_id(cid)) == Some(*c),
            None => first_match(chats@, channel_with_id(cid)) is None,
        },
{
    let n = chats.len();
    let mut i: usize = 0;
    assert(chats@.subrange(0, n as int) =~= chats@);
    while i < n
        invariant
            n == chats@.len(),
            i <= n,
            first_match(chats@, channel_with_id(cid)) == first_match(
                chats@.subrange(i as int, n as int),
                channel_with_id(cid),
            ),
        decreases n - i,
    {
        proof {
            lemma_first_match_step(chats@, channel_with_id(cid), i as int);
        }
        let found = match &chats[i] {
            TlChat::Channel { id, .. } => *id == cid,
            _ => false,
        };
        if found {
            return Some(&chats[i]);
        }
        i = i + 1;
    }
    None
}

/// The first basic group chat with id `gid`.
fn find_chat(chats: &Vec<TlChat>, gid: i64) -> (r: Option<&TlChat>)
    ensures
        match r {
            Some(c) => first_match(chats@, chat_with_id(gid)) == Some(*c),
            None => first_match(chats@, chat_with_id(gid)) is None,
        },
{
    let n = chats.len();
    let mut i: usize = 0;
    assert(chats@.subrange(0, n as int) =~= chats@);
    while i < n
        invariant
            n == chats@.len(),
            i <= n,
            first_match(chats@, chat_with_id(gid)) == first_match(
                chats@.subrange(i as int, n as int),
                chat_with_id(gid),
            ),
        decreases n - i,
    {
        proof {
            lemma_first_match_step(chats@, chat_with_id(gid), i as int);
        }
        let found = match &chats[i] {
            TlChat::Chat { id, .. } => *id == gid,
            _ => false,
        };
        if found {
            return Some(&chats[i]);
        }
        i = i + 1;
    }
    None
}

/// A user's name as a comment shows it.
pub fn user_name_for_comment(first: &Option<String>, last: &Option<String>) -> (r: String)
    ensures
        r@ == comment_user_name(*first, *last),
{
    let mut name = match first {
        Some(f) => f.clone(),
        None => String::new(),
    };
    name.append(" ");
    match last {
        Some(l) => name.append(l.as_str()),
        None => {},
    }
    name
}

/// The sender of a comment that names `from`, given the users and chats of its page.
pub fn comment_sender_info(
    from: &Option<TlFromPeer>,
    users: &Vec<TlUser>,
    chats: &Vec<TlChat>,
    fallback: &SenderInfo,
) -> (r: SenderInfo)
    ensures
        sender_view(r) == comment_sender(*from, users@, chats@, *fallback),
{
    match from {
        Some(TlFromPeer::User(uid)) => match find_user(users, *uid) {
            Some(TlUser::User { username, first_name, last_name, .. }) => SenderInfo {
                id: Some(*uid),
                username: copy_opt_string(username),
                full_name: Some(user_name_for_comment(first_name, last_name)),
            },
            _ => SenderInfo { id: Some(*uid), username: None, full_name: None },
        },
        Some(TlFromPeer::Channel(cid)) => match find_channel(chats, *cid) {
            Some(TlChat::Channel { title, username, .. }) => SenderInfo {
                id: Some(*cid),
                username: copy_opt_string(username),
                full_name: Some(title.clone()),
            },
            _ => SenderInfo { id: Some(*cid), username: None, full_name: None },
        },
        Some(TlFromPeer::Chat(gid)) => match find_chat(chats, *gid) {
            Some(TlChat::Chat { title, .. }) => SenderInfo {
                id: Some(*gid),
                username: None,
                full_name: Some(title.clone()),
            },
            _ => SenderInfo { id: Some(*gid), username: None, full_name: None },
        },
        None => SenderInfo {
            id: fallback.id,
            username: copy_opt_string(&fallback.username),
            full_name: copy_opt_string(&fallback.full_name),
        },
    }
}

/// The id of the message that `r` points to.
pub fn reply_target_of(r: &Option<TlReplyHeader>) -> (id: Option<i32>)
    ensures
        id == reply_target_id(*r),
{
    match r {
        Some(TlReplyHeader::Message(id)) => *id,
        _ => None,
    }
}

/// How many comments a request for `limit` comments may return: none when it is not positive.
pub open spec fn comment_cap(limit: i32) -> nat {
    if limit <= 0 {
        0
    } else {
        limit as nat
    }
}

/// The first `cap` elements of `s`, or all of them when there are fewer.
pub open spec fn at_most<T>(s: Seq<T>, cap: nat) -> Seq<T> {
    if s.len() <= cap {
        s
    } else {
        s.take(cap as int)
    }
}

/// The comments a page of replies yields for a request of `limit` comments: the newest ones
/// that fit, oldest first.
pub open spec fn comments_result(
    msgs: Seq<TlMessage>,
    users: Seq<TlUser>,
    chats: Seq<TlChat>,
    fallback: SenderInfo,
    limit: i32,
) -> Seq<MessageItemView> {
    at_most(comments_in_order(msgs, users, chats, fallback), comment_cap(limit)).reverse()
}

/// The comments of a page of replies to a post, oldest first, at most `limit` of them:
/// Telegram lists a page newest first, only ordinary messages are kept, and when the page
/// holds more than the limit the newest ones are kept.
pub fn comments_from_replies(replies: &TlReplies, fallback: &SenderInfo, limit: i32) -> (r: Vec<
    TgMessageOutputItem,
>)
    ensures
        r@.len() <= comment_cap(limit),
        match *replies {
            TlReplies::Messages { messages, users, chats } => item_views(r@) == comments_result(
                messages@,
                users@,
                chats@,
                *fallback,
                limit,
            ),
            TlReplies::NotModified => r@.len() == 0,
        },
{
    match replies {
        TlReplies::NotModified => Vec::new(),
        TlReplies::Messages { messages, users, chats } => {
            let mut out: Vec<TgMessageOutputItem> = Vec::new();
            let n = messages.len();
            let mut i: usize = 0;
            while i < n
                invariant
                    n == messages@.len(),
                    i <= n,
                    item_views(out@) == comments_in_order(
                        messages@.take(i as int),
                        users@,
                        chats@,
                        *fallback,
                    ),
                decreases n - i,
            {
                assert(messages@.take(i + 1).drop_last() =~= messages@.take(i as int));
                assert(messages@.take(i + 1).last() == messages@[i as int]);
                match &messages[i] {
                    TlMessage::Message { id, from, text, reply_to } => {
                        let s = comment_sender_info(from, users, chats, fallback);
                        let item = TgMessageOutputItem {
                            message_id: *id,
                            sender_id: s.id,
                            sender_username: s.username,
                            sender_full_name: s.full_name,
                            reply_to_message_id: reply_target_of(reply_to),
                            text: text.clone(),
                        };
                        let ghost before = out@;
                        out.push(item);
                        assert(item_views(out@) =~= item_views(before).push(item@));
                    },
                    TlMessage::Other => {},
                }
                i = i + 1;
            }
            assert(messages@.take(n as int) =~= messages@);
            let cap: usize = if limit <= 0 {
                0
            } else {
                limit as usize
            };
            let ghost all = out@;
            out.truncate(cap);
            assert(item_views(out@) =~= at_most(item_views(all), cap as nat));
            let ghost fwd = out@;
            let r = reverse_vec(out);
            assert(item_views(r@) =~= item_views(fwd).reverse());
            r
        },
    }
}

/// The peer a comment is posted in: a channel, with the access hash Telegram gave for it
/// (zero when none), or a basic group chat.
#[derive(Debug, Clone, PartialEq, Eq)]
pub enum InputPeerTarget {
    Channel { channel_id: i64, access_hash: i64 },
    Chat { chat_id: i64 },
}

/// Where a comment on a channel post goes: a reply to the post's copy in the discussion
/// group, posted in that group.
#[derive(Debug, Clone, PartialEq, Eq)]
pub struct CommentTarget {
    pub reply_to_msg_id: i32,
    pub peer: InputPeerTarget,
}

/// Where a comment on post `message_id` goes, given the first message and the first chat of
/// the post's discussion.
pub open spec fn discussion_target_of(
    message_id: i32,
    first_message: Option<TlMessage>,
    first_chat: Option<TlChat>,
) -> Result<CommentTarget, TgError> {
    match first_message {
        Some(TlMessage::Message { id, .. }) => match first_chat {
            Some(TlChat::Channel { id: cid, access_hash, .. }) => Ok(
                CommentTarget {
                    reply_to_msg_id: id,
                    peer: InputPeerTarget::Channel {
                        channel_id: cid,
                        access_hash: match access_hash {
                            Some(h) => h,
                            None => 0,
                        },
                    },
                },
            ),
            Some(TlChat::Chat { id: gid, .. }) => Ok(
                CommentTarget { reply_to_msg_id: id, peer: InputPeerTarget::Chat { chat_id: gid } },
            ),
            _ => Err(TgError::DiscussionPeerMissing(message_id)),
        },
        _ => Err(TgError::DiscussionMessageMissing(message_id)),
    }
}

/// The first element of a sequence, if any.
pub open spec fn first_of<T>(s: Seq<T>) -> Option<T> {
    if s.len() > 0 {
        Some(s[0])
    } else {
        None
    }
}

/// Where a comment on post `message_id` goes, given the messages and chats of its discussion.
pub fn discussion_target(message_id: i32, messages: &Vec<TlMessage>, chats: &Vec<TlChat>) -> (r:
    Result<CommentTarget, TgError>)
    ensures
        r == discussion_target_of(message_id, first_of(messages@), first_of(chats@)),
{
    let reply_to_msg_id = if messages.len() > 0 {
        match &messages[0] {
            TlMessage::Message { id, .. } => *id,
            TlMessage::Other => return Err(TgError::DiscussionMessageMissing(message_id)),
        }
    } else {
        return Err(TgError::DiscussionMessageMissing(message_id));
    };
    if chats.len() > 0 {
        match &chats[0] {
            TlChat::Channel { id, access_hash, .. } => {
                let hash = match access_hash {
                    Some(h) => *h,
                    None => 0,
                };
                Ok(
                    CommentTarget {
                        reply_to_msg_id,
                        peer: InputPeerTarget::Channel { channel_id: *id, access_hash: hash },
                    },
                )
            },
            TlChat::Chat { id, .. } => Ok(
                CommentTarget { reply_to_msg_id, peer: InputPeerTarget::Chat { chat_id: *id } },
            ),
            TlChat::Other => Err(TgError::DiscussionPeerMissing(message_id)),
        }
    } else {
        Err(TgError::DiscussionPeerMissing(message_id))
    }
}

/// A comment ready to be sent: where it goes, its text, and the random id that lets
/// Telegram tell a resent request from a new one.
#[derive(Debug, Clone, PartialEq, Eq)]
pub struct CommentRequest {
    pub peer: InputPeerTarget,
    pub reply_to_msg_id: i32,
    pub message: String,
    pub random_id: i64,
}

/// A value from `rand::random::<i64>()`: drawn from the thread-local generator. Nothing
/// is promised of it but its type.
#[verifier::external_body]
fn random_i64() -> i64 {
    rand::random::<i64>()
}

/// The request that posts `text` as a comment at `target`, under a fresh random id.
pub fn comment_request(target: CommentTarget, text: String) -> (r: CommentRequest)
    ensures
        r.peer == target.peer,
        r.reply_to_msg_id == target.reply_to_msg_id,
        r.message == text,
{
    let random_id = random_i64();
    CommentRequest { peer: target.peer, reply_to_msg_id: target.reply_to_msg_id, message: text, random_id }
}

} // verus!
