use vstd::prelude::*;
use crate::comments::{comments_in_order, TlChat, TlMessage, TlUser};
use crate::errors::TgError;
use crate::peer::{
    SenderInfo,
    dialog_view, peer_display_name, peer_id, peer_output_of, peer_query_of, peer_username,
    reply_target_spec, sender_of, PeerInfo, PeerQuery,
};
use crate::text::{is_blank, strip_leading};
use crate::tg_structs::{opt_str, TgPeerOutput};

verus! {

/// Stripping the leading `@` of a username a second time changes nothing, and what is left
/// does not start with `@`.
pub proof fn law_strip_is_idempotent(s: Seq<char>)
    ensures
        strip_leading(strip_leading(s, '@'), '@') == strip_leading(s, '@'),
        strip_leading(s, '@').len() == 0 || strip_leading(s, '@')[0] != '@',
        strip_leading(s, '@').len() <= s.len(),
    decreases s.len(),
{
    if s.len() > 0 && s[0] == '@' {
        law_strip_is_idempotent(s.drop_first());
    }
}

/// A peer is told the same way wherever it shows up: its dialog entry, its lookup answer
/// and its place as the sender of a message agree on its id, username and name.
pub proof fn law_peer_views_agree(p: PeerInfo)
    ensures
        dialog_view(p).dialog_id == peer_id(p),
        sender_of(p).id == Some(peer_id(p)),
        dialog_view(p).dialog_name == opt_str(sender_of(p).username),
        dialog_view(p).dialog_full_name == opt_str(sender_of(p).full_name),
        match peer_output_of(p) {
            TgPeerOutput::User { id, username, full_name, .. } => {
                &&& id == peer_id(p)
                &&& username == peer_username(p)
                &&& Some(full_name) == peer_display_name(p)
            },
            TgPeerOutput::Group { id, username, title } => {
                &&& id == peer_id(p)
                &&& username == peer_username(p)
                &&& title == peer_display_name(p)
            },
            TgPeerOutput::Channel { id, username, tittle } => {
                &&& id == peer_id(p)
                &&& username == peer_username(p)
                &&& Some(tittle) == peer_display_name(p)
            },
        },
{
}

/// A lookup that is accepted asks for what the request gave: a username lookup for a
/// username that is not blank, an id lookup for the id given. A refused lookup is refused
/// for the first thing missing, whatever else the request holds.
pub proof fn law_accepted_lookup_uses_request(
    kind: String,
    username: Option<String>,
    id: Option<i64>,
)
    ensures
        peer_query_of(kind, username, id) matches Ok(PeerQuery::Username(u)) ==> (username
            == Some(u) && !is_blank(u@) && kind@ == "username"@),
        peer_query_of(kind, username, id) matches Ok(PeerQuery::Id(i)) ==> (id == Some(i)
            && kind@ == "id"@),
        kind@ == "id"@ ==> forall|other: Option<String>|
            #[trigger] peer_query_of(kind, other, id) == peer_query_of(kind, username, id),
        kind@ == "username"@ ==> forall|other: Option<i64>|
            #[trigger] peer_query_of(kind, username, other) == peer_query_of(kind, username, id),
{
    reveal_strlit("id");
    reveal_strlit("username");
    assert("id"@.len() != "username"@.len());
}

/// A reply is only ever sent to a positive message id; a message that asks for no reply is
/// always accepted.
pub proof fn law_reply_targets_are_positive(msg_reply_to: Option<i32>)
    ensures
        reply_target_spec(msg_reply_to) matches Ok(Some(r)) ==> r > 0 && msg_reply_to == Some(r),
        msg_reply_to is None ==> reply_target_spec(msg_reply_to) == Ok::<Option<i32>, TgError>(
            None,
        ),
{
}

/// The number of ordinary (not empty, not service) messages in a page.
pub open spec fn ordinary_count(msgs: Seq<TlMessage>) -> nat
    decreases msgs.len(),
{
    if msgs.len() == 0 {
        0
    } else {
        ordinary_count(msgs.drop_last()) + match msgs.last() {
            TlMessage::Message { .. } => 1nat,
            TlMessage::Other => 0nat,
        }
    }
}

/// A page of replies yields exactly one comment per ordinary message.
pub proof fn law_one_comment_per_message(
    msgs: Seq<TlMessage>,
    users: Seq<TlUser>,
    chats: Seq<TlChat>,
    fallback: SenderInfo,
)
    ensures
        comments_in_order(msgs, users, chats, fallback).len() == ordinary_count(msgs),
    decreases msgs.len(),
{
    if msgs.len() > 0 {
        law_one_comment_per_message(msgs.drop_last(), users, chats, fallback);
    }
}

} // verus!
