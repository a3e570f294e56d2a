use vstd::prelude::*;
use crate::comments::{
    comment_sender, comment_view, comments_in_order, discussion_target_of, first_match, first_of,
    CommentTarget, InputPeerTarget, TlChat, TlFromPeer, TlMessage, TlReplyHeader, TlUser,
};
use crate::errors::TgError;
use crate::participants::{participant_view, role_word, ParticipantInfo, ParticipantRole};
use crate::peer::{
    dialog_view, history_sender, message_item_of, peer_output_of, peer_query_of, reply_target_spec, sender_of,
    MessageInfo, PeerInfo, PeerQuery, SenderInfo,
};
use crate::search::{first_pos, found_ref_of, FoundRef};
use crate::collect::smaller;
use crate::comments::{at_most, comment_cap, comments_result};
use crate::login::{login_step_spec, LoginActionView, LoginEvent, LoginStep};
use crate::text::{
    decimal_nat, digit_char, is_blank, is_white_space, strip_leading, trim_end, trim_start, trimmed,
    username_handle,
};
use crate::tg_structs::TgPeerOutput;

verus! {

/// An optional text as an optional sequence of characters.
pub open spec fn chars_of(o: Option<String>) -> Option<Seq<char>> {
    match o {
        Some(s) => Some(s@),
        None => None,
    }
}

/// An optional text, or the empty sequence.
pub open spec fn chars_or_empty(o: Option<String>) -> Seq<char> {
    match o {
        Some(s) => s@,
        None => Seq::empty(),
    }
}

/// A user record with this id.
pub open spec fn is_user_record(u: TlUser, uid: i64) -> bool {
    match u {
        TlUser::User { id, .. } => id == uid,
        TlUser::Empty => false,
    }
}

/// A channel record with this id.
pub open spec fn is_channel_record(c: TlChat, cid: i64) -> bool {
    match c {
        TlChat::Channel { id, .. } => id == cid,
        _ => false,
    }
}

/// A basic group record with this id.
pub open spec fn is_chat_record(c: TlChat, gid: i64) -> bool {
    match c {
        TlChat::Chat { id, .. } => id == gid,
        _ => false,
    }
}

proof fn lemma_first_match_at<T>(s: Seq<T>, p: spec_fn(T) -> bool, k: int)
    requires
        0 <= k < s.len(),
        p(s[k]),
        forall|j: int| 0 <= j < k ==> !p(#[trigger] s[j]),
    ensures
        first_match(s, p) == Some(s[k]),
    decreases k,
{
    if k > 0 {
        assert(!p(s[0]));
        assert forall|j: int| 0 <= j < k - 1 implies !p(#[trigger] s.drop_first()[j]) by {
            assert(s.drop_first()[j] == s[j + 1]);
        }
        lemma_first_match_at(s.drop_first(), p, k - 1);
    }
}

proof fn lemma_first_match_none<T>(s: Seq<T>, p: spec_fn(T) -> bool)
    requires
        forall|j: int| 0 <= j < s.len() ==> !p(#[trigger] s[j]),
    ensures
        first_match(s, p) is None,
    decreases s.len(),
{
    if s.len() > 0 {
        assert(!p(s[0]));
        assert forall|j: int| 0 <= j < s.len() - 1 implies !p(#[trigger] s.drop_first()[j]) by {
            assert(s.drop_first()[j] == s[j + 1]);
        }
        lemma_first_match_none(s.drop_first(), p);
    }
}

/// A comment's sender keeps the id the comment names, whether or not the sender's record
/// came with the page; a comment that names no sender is shown as from the post's peer.
pub proof fn law_comment_sender_keeps_id(
    from: Option<TlFromPeer>,
    users: Seq<TlUser>,
    chats: Seq<TlChat>,
    fallback: SenderInfo,
)
    ensures
        from matches Some(TlFromPeer::User(uid)) ==> comment_sender(from, users, chats, fallback).id
            == Some(uid),
        from matches Some(TlFromPeer::Channel(cid)) ==> comment_sender(
            from,
            users,
            chats,
            fallback,
        ).id == Some(cid),
        from matches Some(TlFromPeer::Chat(gid)) ==> comment_sender(from, users, chats, fallback).id
            == Some(gid),
        from is None ==> {
            &&& comment_sender(from, users, chats, fallback).id == fallback.id
            &&& comment_sender(from, users, chats, fallback).username == chars_of(fallback.username)
            &&& comment_sender(from, users, chats, fallback).full_name == chars_of(
                fallback.full_name,
            )
        },
{
}

/// A comment from a user takes the username and the name ("first last") of the first record
/// of that user that came with the page.
pub proof fn law_comment_user_from_first_record(
    uid: i64,
    users: Seq<TlUser>,
    chats: Seq<TlChat>,
    fallback: SenderInfo,
    k: int,
)
    requires
        0 <= k < users.len(),
        is_user_record(users[k], uid),
        forall|j: int| 0 <= j < k ==> !is_user_record(#[trigger] users[j], uid),
    ensures
        match users[k] {
            TlUser::User { username, first_name, last_name, .. } => {
                &&& comment_sender(Some(TlFromPeer::User(uid)), users, chats, fallback).username
                    == chars_of(username)
                &&& comment_sender(Some(TlFromPeer::User(uid)), users, chats, fallback).full_name
                    == Some(chars_or_empty(first_name) + " "@ + chars_or_empty(last_name))
            },
            TlUser::Empty => false,
        },
{
    let p = crate::comments::user_with_id(uid);
    assert forall|j: int| 0 <= j < k implies !p(#[trigger] users[j]) by {
        assert(!is_user_record(users[j], uid));
    }
    lemma_first_match_at(users, p, k);
}

/// A comment from a user whose record did not come with the page has no username or name.
pub proof fn law_comment_user_without_record(
    uid: i64,
    users: Seq<TlUser>,
    chats: Seq<TlChat>,
    fallback: SenderInfo,
)
    requires
        forall|j: int| 0 <= j < users.len() ==> !is_user_record(#[trigger] users[j], uid),
    ensures
        comment_sender(Some(TlFromPeer::User(uid)), users, chats, fallback).username is None,
        comment_sender(Some(TlFromPeer::User(uid)), users, chats, fallback).full_name is None,
{
    let p = crate::comments::user_with_id(uid);
    assert forall|j: int| 0 <= j < users.len() implies !p(#[trigger] users[j]) by {
        assert(!is_user_record(users[j], uid));
    }
    lemma_first_match_none(users, p);
}

/// A comment from a channel takes the username and title of the first record of that channel
/// among the page's chats; without one it has no username or name.
pub proof fn law_comment_channel_from_first_record(
    cid: i64,
    users: Seq<TlUser>,
    chats: Seq<TlChat>,
    fallback: SenderInfo,
    k: int,
)
    ensures
        (0 <= k < chats.len() && is_channel_record(chats[k], cid) && forall|j: int|
            0 <= j < k ==> !is_channel_record(#[trigger] chats[j], cid)) ==> match chats[k] {
            TlChat::Channel { username, title, .. } => {
                &&& comment_sender(Some(TlFromPeer::Channel(cid)), users, chats, fallback).username
                    == chars_of(username)
                &&& comment_sender(Some(TlFromPeer::Channel(cid)), users, chats, fallback).full_name
                    == Some(title@)
            },
            _ => false,
        },
        (forall|j: int| 0 <= j < chats.len() ==> !is_channel_record(#[trigger] chats[j], cid))
            ==> {
            &&& comment_sender(Some(TlFromPeer::Channel(cid)), users, chats, fallback).username is None
            &&& comment_sender(Some(TlFromPeer::Channel(cid)), users, chats, fallback).full_name is None
        },
{
    let p = crate::comments::channel_with_id(cid);
    if 0 <= k < chats.len() && is_channel_record(chats[k], cid) && forall|j: int|
        0 <= j < k ==> !is_channel_record(#[trigger] chats[j], cid) {
        assert forall|j: int| 0 <= j < k implies !p(#[trigger] chats[j]) by {
            assert(!is_channel_record(chats[j], cid));
        }
        lemma_first_match_at(chats, p, k);
    }
    if forall|j: int| 0 <= j < chats.len() ==> !is_channel_record(#[trigger] chats[j], cid) {
        assert forall|j: int| 0 <= j < chats.len() implies !p(#[trigger] chats[j]) by {
            assert(!is_channel_record(chats[j], cid));
        }
        lemma_first_match_none(chats, p);
    }
}

/// A comment from a basic group takes the title of the first record of that group among the
/// page's chats and never a username; without a record it has no name.
pub proof fn law_comment_chat_from_first_record(
    gid: i64,
    users: Seq<TlUser>,
    chats: Seq<TlChat>,
    fallback: SenderInfo,
    k: int,
)
    ensures
        comment_sender(Some(TlFromPeer::Chat(gid)), users, chats, fallback).username is None,
        (0 <= k < chats.len() && is_chat_record(chats[k], gid) && forall|j: int|
            0 <= j < k ==> !is_chat_record(#[trigger] chats[j], gid)) ==> match chats[k] {
            TlChat::Chat { title, .. } => comment_sender(
                Some(TlFromPeer::Chat(gid)),
                users,
                chats,
                fallback,
            ).full_name == Some(title@),
            _ => false,
        },
        (forall|j: int| 0 <= j < chats.len() ==> !is_chat_record(#[trigger] chats[j], gid))
            ==> comment_sender(Some(TlFromPeer::Chat(gid)), users, chats, fallback).full_name is None,
{
    let p = crate::comments::chat_with_id(gid);
    if 0 <= k < chats.len() && is_chat_record(chats[k], gid) && forall|j: int|
        0 <= j < k ==> !is_chat_record(#[trigger] chats[j], gid) {
        assert forall|j: int| 0 <= j < k implies !p(#[trigger] chats[j]) by {
            assert(!is_chat_record(chats[j], gid));
        }
        lemma_first_match_at(chats, p, k);
    }
    if forall|j: int| 0 <= j < chats.len() ==> !is_chat_record(#[trigger] chats[j], gid) {
        assert forall|j: int| 0 <= j < chats.len() implies !p(#[trigger] chats[j]) by {
            assert(!is_chat_record(chats[j], gid));
        }
        lemma_first_match_none(chats, p);
    }
}

/// A comment's entry keeps the message's id, text and sender id, and points to the message
/// the comment replies to, when it replies to one.
pub proof fn law_comment_entry_keeps_message(
    id: i32,
    from: Option<TlFromPeer>,
    text: String,
    reply_to: Option<TlReplyHeader>,
    users: Seq<TlUser>,
    chats: Seq<TlChat>,
    fallback: SenderInfo,
)
    ensures
        comment_view(id, from, text, reply_to, users, chats, fallback).message_id == id,
        comment_view(id, from, text, reply_to, users, chats, fallback).text == text@,
        from matches Some(TlFromPeer::User(uid)) ==> comment_view(
            id,
            from,
            text,
            reply_to,
            users,
            chats,
            fallback,
        ).sender_id == Some(uid),
        from matches Some(TlFromPeer::Channel(cid)) ==> comment_view(
            id,
            from,
            text,
            reply_to,
            users,
            chats,
            fallback,
        ).sender_id == Some(cid),
        from matches Some(TlFromPeer::Chat(gid)) ==> comment_view(
            id,
            from,
            text,
            reply_to,
            users,
            chats,
            fallback,
        ).sender_id == Some(gid),
        from is None ==> comment_view(id, from, text, reply_to, users, chats, fallback).sender_id
            == fallback.id,
        reply_to matches Some(TlReplyHeader::Message(r)) ==> comment_view(
            id,
            from,
            text,
            reply_to,
            users,
            chats,
            fallback,
        ).reply_to_message_id == r,
        !(reply_to matches Some(TlReplyHeader::Message(_))) ==> comment_view(
            id,
            from,
            text,
            reply_to,
            users,
            chats,
            fallback,
        ).reply_to_message_id is None,
{
}

/// On a page of ordinary messages the comments follow the page one for one, in page order.
pub proof fn law_comments_follow_the_page(
    msgs: Seq<TlMessage>,
    users: Seq<TlUser>,
    chats: Seq<TlChat>,
    fallback: SenderInfo,
)
    requires
        forall|i: int| 0 <= i < msgs.len() ==> (#[trigger] msgs[i]) is Message,
    ensures
        comments_in_order(msgs, users, chats, fallback).len() == msgs.len(),
        forall|i: int|
            0 <= i < msgs.len() ==> match #[trigger] msgs[i] {
                TlMessage::Message { id, from, text, reply_to } => comments_in_order(
                    msgs,
                    users,
                    chats,
                    fallback,
                )[i] == comment_view(id, from, text, reply_to, users, chats, fallback),
                TlMessage::Other => false,
            },
    decreases msgs.len(),
{
    if msgs.len() > 0 {
        let before = msgs.drop_last();
        assert forall|i: int| 0 <= i < before.len() implies (#[trigger] before[i]) is Message by {
            assert(before[i] == msgs[i]);
        }
        law_comments_follow_the_page(before, users, chats, fallback);
        assert(msgs.last() == msgs[msgs.len() - 1]);
        assert forall|i: int| 0 <= i < msgs.len() implies match #[trigger] msgs[i] {
            TlMessage::Message { id, from, text, reply_to } => comments_in_order(
                msgs,
                users,
                chats,
                fallback,
            )[i] == comment_view(id, from, text, reply_to, users, chats, fallback),
            TlMessage::Other => false,
        } by {
            if i < msgs.len() - 1 {
                assert(before[i] == msgs[i]);
            }
        }
    }
}

/// A comment replies to the discussion group's copy of the post: the first message of the
/// discussion, which must be an ordinary message, and is posted in the first chat of the
/// discussion, which must be a channel (with its access hash, zero when none) or a basic group.
/// Otherwise the failure names the post.
pub proof fn law_comment_goes_to_the_discussion_copy(
    message_id: i32,
    msgs: Seq<TlMessage>,
    chats: Seq<TlChat>,
)
    ensures
        discussion_target_of(message_id, first_of(msgs), first_of(chats)) matches Ok(t) ==> (
        msgs.len() > 0 && (msgs[0] matches TlMessage::Message { id, .. } && t.reply_to_msg_id
            == id)),
        (msgs.len() == 0 || msgs[0] is Other) ==> discussion_target_of(
            message_id,
            first_of(msgs),
            first_of(chats),
        ) == Err::<CommentTarget, TgError>(TgError::DiscussionMessageMissing(message_id)),
        msgs.len() > 0 && msgs[0] is Message ==> match chats.len() > 0 {
            true => match chats[0] {
                TlChat::Channel { id: cid, access_hash, .. } => discussion_target_of(
                    message_id,
                    first_of(msgs),
                    first_of(chats),
                ) matches Ok(t) && t.peer == InputPeerTarget::Channel {
                    channel_id: cid,
                    access_hash: if access_hash is Some {
                        access_hash->0
                    } else {
                        0
                    },
                },
                TlChat::Chat { id: gid, .. } => discussion_target_of(
                    message_id,
                    first_of(msgs),
                    first_of(chats),
                ) matches Ok(t) && t.peer == InputPeerTarget::Chat { chat_id: gid },
                TlChat::Other => discussion_target_of(message_id, first_of(msgs), first_of(chats))
                    == Err::<CommentTarget, TgError>(TgError::DiscussionPeerMissing(message_id)),
            },
            false => discussion_target_of(message_id, first_of(msgs), first_of(chats)) == Err::<
                CommentTarget,
                TgError,
            >(TgError::DiscussionPeerMissing(message_id)),
        },
{
}

/// What is told of a looked-up peer keeps every field read of it.
pub proof fn law_peer_output_keeps_every_field(p: PeerInfo)
    ensures
        match p {
            PeerInfo::User { id, full_name, username, is_bot, is_premium, phone_number } => match peer_output_of(p) {
                TgPeerOutput::User { id: o_id, full_name: o_name, username: o_user, is_bot: o_bot, is_premium: o_prem, phone_number: o_phone } => {
                    &&& o_id == id
                    &&& o_name == full_name
                    &&& o_user == username
                    &&& o_bot == is_bot
                    &&& o_prem == is_premium
                    &&& o_phone == phone_number
                },
                _ => false,
            },
            PeerInfo::Group { id, title, username } => match peer_output_of(p) {
                TgPeerOutput::Group { id: o_id, title: o_title, username: o_user } => o_id == id
                    && o_title == title && o_user == username,
                _ => false,
            },
            PeerInfo::Channel { id, title, username } => match peer_output_of(p) {
                TgPeerOutput::Channel { id: o_id, tittle, username: o_user } => o_id == id && tittle
                    == title && o_user == username,
                _ => false,
            },
        },
{
}

/// A dialog entry keeps the peer's id and username, shows a user by full name and a group or
/// channel by title, and names the kind of peer with a word of its own.
pub proof fn law_dialog_entry_keeps_fields(p: PeerInfo)
    ensures
        match p {
            PeerInfo::User { id, full_name, username, .. } => {
                &&& dialog_view(p).dialog_id == id
                &&& dialog_view(p).dialog_name == chars_of(username)
                &&& dialog_view(p).dialog_full_name == Some(full_name@)
                &&& dialog_view(p).dialog_type == "user"@
            },
            PeerInfo::Group { id, title, username } => {
                &&& dialog_view(p).dialog_id == id
                &&& dialog_view(p).dialog_name == chars_of(username)
                &&& dialog_view(p).dialog_full_name == chars_of(title)
                &&& dialog_view(p).dialog_type == "group"@
            },
            PeerInfo::Channel { id, title, username } => {
                &&& dialog_view(p).dialog_id == id
                &&& dialog_view(p).dialog_name == chars_of(username)
                &&& dialog_view(p).dialog_full_name == Some(title@)
                &&& dialog_view(p).dialog_type == "channel"@
            },
        },
{
}

/// A peer taken as a message's sender keeps its id and username and is named by full name
/// or title.
pub proof fn law_sender_keeps_fields(p: PeerInfo)
    ensures
        match p {
            PeerInfo::User { id, full_name, username, .. } => sender_of(p) == SenderInfo {
                id: Some(id),
                username,
                full_name: Some(full_name),
            },
            PeerInfo::Group { id, title, username } => sender_of(p) == SenderInfo {
                id: Some(id),
                username,
                full_name: title,
            },
            PeerInfo::Channel { id, title, username } => sender_of(p) == SenderInfo {
                id: Some(id),
                username,
                full_name: Some(title),
            },
        },
{
}

/// A message entry keeps the message's id, text and reply target, and the sender given.
pub proof fn law_message_entry_keeps_fields(m: MessageInfo, s: SenderInfo)
    ensures
        message_item_of(m, s).message_id == m.id,
        message_item_of(m, s).text == m.text,
        message_item_of(m, s).reply_to_message_id == m.reply_to_message_id,
        message_item_of(m, s).sender_id == s.id,
        message_item_of(m, s).sender_username == s.username,
        message_item_of(m, s).sender_full_name == s.full_name,
{
}

/// A member's entry keeps the member's own fields, and different standings are reported by
/// different words.
pub proof fn law_participant_entry_keeps_fields(p: ParticipantInfo, a: ParticipantRole, b: ParticipantRole)
    ensures
        participant_view(p).id == p.id,
        participant_view(p).full_name == p.full_name@,
        participant_view(p).username == chars_of(p.username),
        participant_view(p).is_bot == p.is_bot,
        participant_view(p).is_premium == p.is_premium,
        participant_view(p).phone_number == chars_of(p.phone_number),
        participant_view(p).role == role_word(p.role),
        a != b ==> role_word(a) != role_word(b),
{
    reveal_strlit("user");
    reveal_strlit("creator");
    reveal_strlit("admin");
    reveal_strlit("banned");
    reveal_strlit("left");
    reveal_strlit("unknown");
    if a != b && role_word(a) == role_word(b) {
        match a {
            ParticipantRole::User => assert(role_word(a)[0] == 'u'),
            ParticipantRole::Creator => assert(role_word(a)[0] == 'c'),
            ParticipantRole::Admin => assert(role_word(a)[0] == 'a'),
            ParticipantRole::Banned => assert(role_word(a)[0] == 'b'),
            ParticipantRole::Left => assert(role_word(a)[0] == 'l'),
            ParticipantRole::Unknown => assert(role_word(a).len() == 7),
        }
        match b {
            ParticipantRole::User => assert(role_word(b)[0] == 'u' && role_word(b).len() == 4),
            ParticipantRole::Creator => assert(role_word(b)[0] == 'c'),
            ParticipantRole::Admin => assert(role_word(b)[0] == 'a'),
            ParticipantRole::Banned => assert(role_word(b)[0] == 'b'),
            ParticipantRole::Left => assert(role_word(b)[0] == 'l'),
            ParticipantRole::Unknown => assert(role_word(b)[0] == 'u' && role_word(b).len() == 7),
        }
    }
}

/// Every positive message id is accepted as a reply target, unchanged, and every other id is
/// refused with a failure that names it.
pub proof fn law_every_positive_reply_target_is_accepted(r: i32)
    ensures
        r > 0 ==> reply_target_spec(Some(r)) == Ok::<Option<i32>, TgError>(Some(r)),
        r <= 0 ==> reply_target_spec(Some(r)) == Err::<Option<i32>, TgError>(
            TgError::InvalidReplyTo(r),
        ),
{
}

/// Every request is answered: a username lookup with a username that is not blank is
/// accepted with that username, an id lookup with an id is accepted with that id, and
/// otherwise the failure says what is missing or names the unknown kind.
pub proof fn law_every_lookup_is_decided(kind: String, username: Option<String>, id: Option<i64>)
    ensures
        kind@ == "username"@ ==> match username {
            Some(u) => if is_blank(u@) {
                peer_query_of(kind, username, id) == Err::<PeerQuery, TgError>(
                    TgError::UsernameRequired,
                )
            } else {
                peer_query_of(kind, username, id) == Ok::<PeerQuery, TgError>(
                    PeerQuery::Username(u),
                )
            },
            None => peer_query_of(kind, username, id) == Err::<PeerQuery, TgError>(
                TgError::UsernameRequired,
            ),
        },
        kind@ == "id"@ ==> match id {
            Some(i) => peer_query_of(kind, username, id) == Ok::<PeerQuery, TgError>(
                PeerQuery::Id(i),
            ),
            None => peer_query_of(kind, username, id) == Err::<PeerQuery, TgError>(
                TgError::IdRequired,
            ),
        },
        kind@ != "username"@ && kind@ != "id"@ ==> peer_query_of(kind, username, id) == Err::<
            PeerQuery,
            TgError,
        >(TgError::UnsupportedKind(kind)),
{
    reveal_strlit("id");
    reveal_strlit("username");
    assert("id"@.len() != "username"@.len());
}

/// The first position of an id holds that id and no earlier position does; when there is
/// none, no position holds it.
pub proof fn law_first_position(ids: Seq<i64>, id: i64)
    ensures
        first_pos(ids, id) matches Some(p) ==> p < ids.len() && ids[p as int] == id && forall|
            j: int,
        | 0 <= j < p ==> ids[j] != id,
        first_pos(ids, id) is None ==> forall|j: int| 0 <= j < ids.len() ==> ids[j] != id,
    decreases ids.len(),
{
    if ids.len() > 0 {
        law_first_position(ids.drop_first(), id);
        assert forall|j: int| 1 <= j < ids.len() implies ids[j] == ids.drop_first()[j - 1] by {}
    }
}

/// A found peer points to a record with its own id: a user among the users, a group or a
/// channel among the chats.
pub proof fn law_found_record_has_the_id(p: TlFromPeer, user_ids: Seq<i64>, chat_ids: Seq<i64>)
    requires
        user_ids.len() <= usize::MAX,
        chat_ids.len() <= usize::MAX,
    ensures
        found_ref_of(p, user_ids, chat_ids) matches Some(FoundRef::User(i)) ==> (p matches TlFromPeer::User(id) && i < user_ids.len() && user_ids[i as int] == id),
        found_ref_of(p, user_ids, chat_ids) matches Some(FoundRef::Chat(i)) ==> i < chat_ids.len() && (
        (p matches TlFromPeer::Chat(id) && chat_ids[i as int] == id) || (p matches TlFromPeer::Channel(id)
            && chat_ids[i as int] == id)),
        match p {
            TlFromPeer::User(id) => (found_ref_of(p, user_ids, chat_ids) is None) == (forall|j: int|
                0 <= j < user_ids.len() ==> user_ids[j] != id),
            TlFromPeer::Chat(id) => (found_ref_of(p, user_ids, chat_ids) is None) == (forall|j: int|
                0 <= j < chat_ids.len() ==> chat_ids[j] != id),
            TlFromPeer::Channel(id) => (found_ref_of(p, user_ids, chat_ids) is None) == (forall|
                j: int,
            | 0 <= j < chat_ids.len() ==> chat_ids[j] != id),
        },
{
    match p {
        TlFromPeer::User(id) => {
            law_first_position(user_ids, id);
            if let Some(q) = first_pos(user_ids, id) {
                assert((q as usize) as nat == q);
            }
        },
        TlFromPeer::Chat(id) => {
            law_first_position(chat_ids, id);
            if let Some(q) = first_pos(chat_ids, id) {
                assert((q as usize) as nat == q);
            }
        },
        TlFromPeer::Channel(id) => {
            law_first_position(chat_ids, id);
            if let Some(q) = first_pos(chat_ids, id) {
                assert((q as usize) as nat == q);
            }
        },
    }
}

/// The value of a sequence of decimal digits.
pub open spec fn digits_value(s: Seq<char>) -> int
    decreases s.len(),
{
    if s.len() == 0 {
        0
    } else {
        digits_value(s.drop_last()) * 10 + (s.last() as int - '0' as int)
    }
}

proof fn lemma_digit(d: nat)
    requires
        d < 10,
    ensures
        digit_char(d) as int - '0' as int == d,
        '0' <= digit_char(d) <= '9',
        digit_char(d) == '0' ==> d == 0,
{
    assert('0' as int == 48);
    assert('9' as int == 57);
    if d == 0 { assert('0' as int == 48); }
    else if d == 1 { assert('1' as int == 49); }
    else if d == 2 { assert('2' as int == 50); }
    else if d == 3 { assert('3' as int == 51); }
    else if d == 4 { assert('4' as int == 52); }
    else if d == 5 { assert('5' as int == 53); }
    else if d == 6 { assert('6' as int == 54); }
    else if d == 7 { assert('7' as int == 55); }
    else if d == 8 { assert('8' as int == 56); }
    else { assert('9' as int == 57); }
}

/// Decimal formatting writes digits only, starts with a zero only for zero itself, and the
/// digits read back as the number.
pub proof fn law_decimal_reads_back(n: nat)
    ensures
        digits_value(decimal_nat(n)) == n,
        forall|i: int|
            0 <= i < decimal_nat(n).len() ==> '0' <= #[trigger] decimal_nat(n)[i] <= '9',
        decimal_nat(n)[0] == '0' ==> n == 0,
    decreases n,
{
    if n >= 10 {
        law_decimal_reads_back(n / 10);
        lemma_digit((n % 10) as nat);
        let s = decimal_nat(n);
        let prev = decimal_nat(n / 10);
        assert(s == prev.push(digit_char((n % 10) as nat)));
        assert(s.drop_last() =~= prev);
        assert(s.last() == digit_char((n % 10) as nat));
        assert(digits_value(s) == digits_value(prev) * 10 + (n % 10));
        assert((n / 10) * 10 + n % 10 == n) by (nonlinear_arith);
        assert(digits_value(s) == n);
        assert(s[0] == prev[0]);
        assert forall|i: int| 0 <= i < s.len() implies '0' <= #[trigger] s[i] <= '9' by {
            if i < prev.len() {
                assert(s[i] == prev[i]);
            }
        }
        if s[0] == '0' {
            assert(n / 10 == 0);
        }
    } else {
        lemma_digit(n);
        let s = decimal_nat(n);
        assert(s.drop_last() =~= Seq::<char>::empty());
        assert(digits_value(s.drop_last()) == 0);
        assert(digits_value(s) == n);
    }
}

/// A history message is shown as from the sender Telegram names, and only when it names
/// none as from the chat.
pub proof fn law_history_sender(sender: Option<PeerInfo>, chat: PeerInfo)
    ensures
        sender matches Some(p) ==> history_sender(sender, chat) == p,
        sender is None ==> history_sender(sender, chat) == chat,
{
}

/// The limit of a history walk is no more than the limit asked for nor the number of items
/// Telegram reports, and is one of the two.
pub proof fn law_effective_limit(a: nat, b: nat)
    ensures
        smaller(a, b) <= a,
        smaller(a, b) <= b,
        smaller(a, b) == a || smaller(a, b) == b,
{
}

/// At most `cap` elements are kept, and they are the first ones.
pub proof fn law_at_most_keeps_a_prefix<T>(s: Seq<T>, cap: nat)
    ensures
        at_most(s, cap).len() == if s.len() <= cap { s.len() } else { cap },
        forall|i: int| 0 <= i < at_most(s, cap).len() ==> at_most(s, cap)[i] == s[i],
{
}

/// A request for a positive number of comments may get that many; any other gets none.
pub proof fn law_comment_cap(limit: i32)
    ensures
        limit > 0 ==> comment_cap(limit) == limit,
        limit <= 0 ==> comment_cap(limit) == 0,
{
}

/// On a page of ordinary messages that fits the limit, the comments are the page read
/// backwards: Telegram lists newest first, the server answers oldest first.
pub proof fn law_comments_oldest_first(
    msgs: Seq<TlMessage>,
    users: Seq<TlUser>,
    chats: Seq<TlChat>,
    fallback: SenderInfo,
    limit: i32,
)
    requires
        forall|i: int| 0 <= i < msgs.len() ==> (#[trigger] msgs[i]) is Message,
        msgs.len() <= comment_cap(limit),
    ensures
        comments_result(msgs, users, chats, fallback, limit).len() == msgs.len(),
        forall|i: int|
            0 <= i < msgs.len() ==> match #[trigger] msgs[msgs.len() - 1 - i] {
                TlMessage::Message { id, from, text, reply_to } => comments_result(
                    msgs,
                    users,
                    chats,
                    fallback,
                    limit,
                )[i] == comment_view(id, from, text, reply_to, users, chats, fallback),
                TlMessage::Other => false,
            },
{
    law_comments_follow_the_page(msgs, users, chats, fallback);
    let all = comments_in_order(msgs, users, chats, fallback);
    assert(at_most(all, comment_cap(limit)) == all);
    assert forall|i: int| 0 <= i < msgs.len() implies match #[trigger] msgs[msgs.len() - 1 - i] {
        TlMessage::Message { id, from, text, reply_to } => comments_result(
            msgs,
            users,
            chats,
            fallback,
            limit,
        )[i] == comment_view(id, from, text, reply_to, users, chats, fallback),
        TlMessage::Other => false,
    } by {
        let k = msgs.len() - 1 - i;
        assert(msgs[k] is Message);
        assert(comments_result(msgs, users, chats, fallback, limit)[i] == all[k]);
    }
}

/// The handle a username is resolved by is the username with its leading `@` signs, and
/// nothing else, taken off.
pub proof fn law_username_handle(s: Seq<char>)
    ensures
        username_handle(s).len() <= s.len(),
        username_handle(s) == s.subrange(s.len() - username_handle(s).len(), s.len() as int),
        forall|j: int| 0 <= j < s.len() - username_handle(s).len() ==> s[j] == '@',
        username_handle(s).len() == 0 || username_handle(s)[0] != '@',
    decreases s.len(),
{
    if s.len() > 0 && s[0] == '@' {
        law_username_handle(s.drop_first());
        let h = username_handle(s);
        assert(h == username_handle(s.drop_first()));
        assert(s.drop_first().subrange(s.len() - 1 - h.len(), s.len() - 1) =~= s.subrange(
            s.len() - h.len(),
            s.len() as int,
        ));
        assert forall|j: int| 0 <= j < s.len() - h.len() implies s[j] == '@' by {
            if j > 0 {
                assert(s[j] == s.drop_first()[j - 1]);
            }
        }
    } else {
        assert(s.subrange(0, s.len() as int) =~= s);
    }
}

proof fn lemma_trim_start(s: Seq<char>)
    ensures
        trim_start(s).len() <= s.len(),
        trim_start(s) == s.subrange(s.len() - trim_start(s).len(), s.len() as int),
        forall|j: int| 0 <= j < s.len() - trim_start(s).len() ==> is_white_space(#[trigger] s[j]),
        trim_start(s).len() == 0 || !is_white_space(trim_start(s)[0]),
    decreases s.len(),
{
    if s.len() > 0 && is_white_space(s[0]) {
        lemma_trim_start(s.drop_first());
        let t = trim_start(s);
        assert(s.drop_first().subrange(s.len() - 1 - t.len(), s.len() - 1) =~= s.subrange(
            s.len() - t.len(),
            s.len() as int,
        ));
        assert forall|j: int| 0 <= j < s.len() - t.len() implies is_white_space(#[trigger] s[j]) by {
            if j > 0 {
                assert(s[j] == s.drop_first()[j - 1]);
            }
        }
    } else {
        assert(s.subrange(0, s.len() as int) =~= s);
    }
}

proof fn lemma_trim_end(s: Seq<char>)
    ensures
        trim_end(s).len() <= s.len(),
        trim_end(s) == s.subrange(0, trim_end(s).len() as int),
        forall|j: int| trim_end(s).len() <= j < s.len() ==> is_white_space(#[trigger] s[j]),
        trim_end(s).len() == 0 || !is_white_space(trim_end(s).last()),
    decreases s.len(),
{
    if s.len() > 0 && is_white_space(s.last()) {
        lemma_trim_end(s.drop_last());
        let t = trim_end(s);
        assert(s.drop_last().subrange(0, t.len() as int) =~= s.subrange(0, t.len() as int));
        assert forall|j: int| t.len() <= j < s.len() implies is_white_space(#[trigger] s[j]) by {
            if j < s.len() - 1 {
                assert(s[j] == s.drop_last()[j]);
            }
        }
    } else {
        assert(s.subrange(0, s.len() as int) =~= s);
    }
}

/// Trimming takes a run of characters out of the middle of the text: everything before and
/// after it is white space, and it neither starts nor ends with white space.
pub proof fn law_trim_keeps_the_middle(s: Seq<char>)
    ensures
        ({
            let t = trimmed(s);
            let a = s.len() - trim_start(s).len();
            &&& 0 <= a
            &&& a + t.len() <= s.len()
            &&& t == s.subrange(a, a + t.len())
            &&& forall|j: int|
                (0 <= j < a || a + t.len() <= j < s.len()) ==> is_white_space(#[trigger] s[j])
            &&& t.len() == 0 || (!is_white_space(t[0]) && !is_white_space(t.last()))
        }),
{
    lemma_trim_start(s);
    let x = trim_start(s);
    lemma_trim_end(x);
    let t = trimmed(s);
    let a = s.len() - x.len();
    assert(t == x.subrange(0, t.len() as int));
    assert(t =~= s.subrange(a, a + t.len()));
    assert forall|j: int| (0 <= j < a || a + t.len() <= j < s.len()) implies is_white_space(
        #[trigger] s[j],
    ) by {
        if a + t.len() <= j < s.len() {
            assert(s[j] == x[j - a]);
        }
    }
    if t.len() > 0 {
        assert(t[0] == x[0]);
    }
}

/// The code and the password that sign-in hands on are the lines the user typed, trimmed,
/// and the password prompt shows the hint Telegram gave.
pub proof fn law_login_hands_on_what_was_typed(line: String, hint: String)
    ensures
        login_step_spec(LoginStep::AwaitingCode, LoginEvent::Entered(line)) == (
            LoginStep::SigningIn,
            LoginActionView::SignIn(trimmed(line@)),
        ),
        login_step_spec(LoginStep::AwaitingPassword, LoginEvent::Entered(line)) == (
            LoginStep::CheckingPassword,
            LoginActionView::CheckPassword(trimmed(line@)),
        ),
        login_step_spec(LoginStep::SigningIn, LoginEvent::PasswordRequired(Some(hint))).1 matches LoginActionView::Prompt(t)
            && t.len() == 28 + hint@.len() && t.subrange(25, 25 + hint@.len() as int) == hint@,
{
    reveal_strlit("Enter the password (hint ");
    reveal_strlit("): ");
    let t = "Enter the password (hint "@ + hint@ + "): "@;
    assert(t.subrange(25, 25 + hint@.len() as int) =~= hint@);
}

} // verus!
