use tg_mcp_server::comments::{
    comment_request, comments_from_replies, discussion_target, user_name_for_comment,
    CommentTarget, InputPeerTarget, TlChat, TlFromPeer, TlMessage, TlReplies, TlReplyHeader, TlUser,
};
use tg_mcp_server::errors::TgError;
use tg_mcp_server::participants::{participant_item, role_name, ParticipantInfo, ParticipantRole};
use tg_mcp_server::peer::{
    dialog_item, dialog_items, dialog_matches, found_or_missing, history_message_item,
    message_item, peer_output, peer_outputs, peer_query, reply_target, sender_from_peer,
    MessageInfo, PeerInfo, PeerQuery, SenderInfo,
};
use tg_mcp_server::search::{found_peers, position_of, FoundRef};
use tg_mcp_server::tg_structs::{TgMessageOutputItem, TgPeerOutput};

fn s(x: &str) -> String {
    x.to_string()
}

fn user() -> PeerInfo {
    PeerInfo::User {
        id: 777,
        full_name: s("Pavel Durov"),
        username: Some(s("durov")),
        is_bot: false,
        is_premium: true,
        phone_number: None,
    }
}

fn group() -> PeerInfo {
    PeerInfo::Group { id: 12, title: Some(s("Team")), username: None }
}

fn channel() -> PeerInfo {
    PeerInfo::Channel { id: -100, title: s("News"), username: Some(s("news")) }
}

#[test]
fn lookup_by_username() {
    assert_eq!(
        peer_query(s("username"), Some(s("durov")), Some(5)),
        Ok(PeerQuery::Username(s("durov")))
    );
    assert_eq!(peer_query(s("username"), Some(s("  \t")), None), Err(TgError::UsernameRequired));
    assert_eq!(peer_query(s("username"), None, Some(5)), Err(TgError::UsernameRequired));
}

#[test]
fn lookup_by_id() {
    assert_eq!(peer_query(s("id"), None, Some(5)), Ok(PeerQuery::Id(5)));
    assert_eq!(peer_query(s("id"), Some(s("durov")), Some(-7)), Ok(PeerQuery::Id(-7)));
    assert_eq!(peer_query(s("id"), Some(s("durov")), None), Err(TgError::IdRequired));
}

#[test]
fn lookup_of_unknown_kind() {
    assert_eq!(
        peer_query(s("phone"), Some(s("x")), Some(1)),
        Err(TgError::UnsupportedKind(s("phone")))
    );
    assert_eq!(peer_query(s("ID"), None, Some(1)), Err(TgError::UnsupportedKind(s("ID"))));
}

#[test]
fn dialogs_match_by_id() {
    assert!(dialog_matches(&group(), 12));
    assert!(dialog_matches(&channel(), -100));
    assert!(!dialog_matches(&user(), 12));
    assert_eq!(TgError::PeerNotFound(5).message(), "peer with id 5 not found");
}

#[test]
fn found_peers_in_order_up_to_the_limit() {
    let results = vec![
        TlFromPeer::User(7),
        TlFromPeer::Channel(30),
        TlFromPeer::User(99),
        TlFromPeer::Chat(20),
        TlFromPeer::User(8),
    ];
    let users = vec![8, 7, 7];
    let chats = vec![20, 30];
    assert_eq!(
        found_peers(&results, &users, &chats, 10),
        vec![FoundRef::User(1), FoundRef::Chat(1), FoundRef::Chat(0), FoundRef::User(0)]
    );
    assert_eq!(found_peers(&results, &users, &chats, 2), vec![FoundRef::User(1), FoundRef::Chat(1)]);
    assert!(found_peers(&results, &users, &chats, 0).is_empty());
    assert_eq!(position_of(&vec![3, 4, 3], 3), Some(0));
    assert_eq!(position_of(&vec![3, 4, 3], 5), None);
}

#[test]
fn username_found_or_missing() {
    assert_eq!(found_or_missing(s("&durov"), Some(3u8)), Ok(3));
    assert_eq!(
        found_or_missing::<u8>(s("&durov"), None),
        Err(TgError::UsernameNotFound(s("&durov")))
    );
}

#[test]
fn dialog_entries() {
    let items = dialog_items(&vec![user(), group(), channel()]);
    assert_eq!(items.len(), 3);
    assert_eq!(items[0].dialog_id, 777);
    assert_eq!(items[0].dialog_name, Some(s("durov")));
    assert_eq!(items[0].dialog_full_name, Some(s("Pavel Durov")));
    assert_eq!(items[0].dialog_type, "user");
    assert_eq!(items[1].dialog_name, None);
    assert_eq!(items[1].dialog_full_name, Some(s("Team")));
    assert_eq!(items[1].dialog_type, "group");
    assert_eq!(items[2].dialog_id, -100);
    assert_eq!(items[2].dialog_full_name, Some(s("News")));
    assert_eq!(items[2].dialog_type, "channel");
    let untitled = dialog_item(&PeerInfo::Group { id: 1, title: None, username: None });
    assert_eq!(untitled.dialog_full_name, None);
}

#[test]
fn peer_answers() {
    assert_eq!(
        peer_output(&user()),
        TgPeerOutput::User {
            id: 777,
            full_name: s("Pavel Durov"),
            username: Some(s("durov")),
            is_bot: false,
            is_premium: true,
            phone_number: None,
        }
    );
    assert_eq!(
        peer_outputs(&vec![group(), channel()]),
        vec![
            TgPeerOutput::Group { id: 12, title: Some(s("Team")), username: None },
            TgPeerOutput::Channel { id: -100, tittle: s("News"), username: Some(s("news")) },
        ]
    );
}

#[test]
fn a_peer_is_told_alike_everywhere() {
    for p in [user(), group(), channel()] {
        let d = dialog_item(&p);
        let snd = sender_from_peer(&p);
        assert_eq!(snd.id, Some(d.dialog_id));
        assert_eq!(snd.username, d.dialog_name);
        assert_eq!(snd.full_name, d.dialog_full_name);
        let id = match peer_output(&p) {
            TgPeerOutput::User { id, .. } => id,
            TgPeerOutput::Group { id, .. } => id,
            TgPeerOutput::Channel { id, .. } => id,
        };
        assert_eq!(id, d.dialog_id);
    }
}

fn msg(id: i32, text: &str) -> MessageInfo {
    MessageInfo { id, text: s(text), reply_to_message_id: Some(3) }
}

#[test]
fn history_messages_take_their_sender() {
    let m = history_message_item(msg(10, "hi"), Some(&user()), &channel());
    assert_eq!(
        m,
        TgMessageOutputItem {
            message_id: 10,
            sender_id: Some(777),
            sender_username: Some(s("durov")),
            sender_full_name: Some(s("Pavel Durov")),
            reply_to_message_id: Some(3),
            text: s("hi"),
        }
    );
    let m = history_message_item(msg(11, "post"), None, &channel());
    assert_eq!(m.sender_id, Some(-100));
    assert_eq!(m.sender_username, Some(s("news")));
    assert_eq!(m.sender_full_name, Some(s("News")));
    let m = message_item(msg(12, "x"), SenderInfo { id: None, username: None, full_name: None });
    assert_eq!(m.sender_id, None);
    assert_eq!(m.text, "x");
}

#[test]
fn reply_targets() {
    assert_eq!(reply_target(None), Ok(None));
    assert_eq!(reply_target(Some(5)), Ok(Some(5)));
    assert_eq!(reply_target(Some(0)), Err(TgError::InvalidReplyTo(0)));
    assert_eq!(reply_target(Some(-2)), Err(TgError::InvalidReplyTo(-2)));
}

#[test]
fn participant_roles() {
    let names: Vec<String> = [
        ParticipantRole::User,
        ParticipantRole::Creator,
        ParticipantRole::Admin,
        ParticipantRole::Banned,
        ParticipantRole::Left,
        ParticipantRole::Unknown,
    ]
    .iter()
    .map(role_name)
    .collect();
    assert_eq!(names, vec!["user", "creator", "admin", "banned", "left", "unknown"]);
    let item = participant_item(ParticipantInfo {
        id: 5,
        full_name: s("Ann"),
        username: None,
        is_bot: true,
        is_premium: false,
        phone_number: Some(s("+100")),
        role: ParticipantRole::Admin,
    });
    assert_eq!(item.id, 5);
    assert_eq!(item.full_name, "Ann");
    assert!(item.is_bot);
    assert_eq!(item.phone_number, Some(s("+100")));
    assert_eq!(item.role, "admin");
}

#[test]
fn comment_user_names() {
    assert_eq!(user_name_for_comment(&Some(s("Ann")), &Some(s("Lee"))), "Ann Lee");
    assert_eq!(user_name_for_comment(&Some(s("Ann")), &None), "Ann ");
    assert_eq!(user_name_for_comment(&None, &None), " ");
}

fn page() -> TlReplies {
    TlReplies::Messages {
        messages: vec![
            TlMessage::Message {
                id: 30,
                from: Some(TlFromPeer::User(1)),
                text: s("newest"),
                reply_to: Some(TlReplyHeader::Message(Some(7))),
            },
            TlMessage::Other,
            TlMessage::Message {
                id: 20,
                from: Some(TlFromPeer::Channel(2)),
                text: s("from channel"),
                reply_to: Some(TlReplyHeader::Story),
            },
            TlMessage::Message { id: 15, from: Some(TlFromPeer::Chat(3)), text: s("from chat"), reply_to: None },
            TlMessage::Message { id: 12, from: Some(TlFromPeer::User(99)), text: s("unknown"), reply_to: None },
            TlMessage::Message { id: 10, from: None, text: s("oldest"), reply_to: None },
        ],
        users: vec![
            TlUser::Empty,
            TlUser::User { id: 1, username: Some(s("ann")), first_name: Some(s("Ann")), last_name: None },
            TlUser::User { id: 1, username: None, first_name: None, last_name: None },
        ],
        chats: vec![
            TlChat::Chat { id: 2, title: s("not a channel") },
            TlChat::Channel { id: 2, title: s("Chan"), username: Some(s("chan")), access_hash: None },
            TlChat::Chat { id: 3, title: s("Group") },
        ],
    }
}

#[test]
fn comments_of_a_post() {
    let fallback = SenderInfo { id: Some(-100), username: Some(s("news")), full_name: Some(s("News")) };
    let c = comments_from_replies(&page(), &fallback, 100);
    let ids: Vec<i32> = c.iter().map(|m| m.message_id).collect();
    assert_eq!(ids, vec![10, 12, 15, 20, 30]);
    assert_eq!(c[0].sender_id, Some(-100));
    assert_eq!(c[0].sender_full_name, Some(s("News")));
    assert_eq!(c[1].sender_id, Some(99));
    assert_eq!(c[1].sender_username, None);
    assert_eq!(c[1].sender_full_name, None);
    assert_eq!(c[2].sender_id, Some(3));
    assert_eq!(c[2].sender_username, None);
    assert_eq!(c[2].sender_full_name, Some(s("Group")));
    assert_eq!(c[3].sender_username, Some(s("chan")));
    assert_eq!(c[3].sender_full_name, Some(s("Chan")));
    assert_eq!(c[3].reply_to_message_id, None);
    assert_eq!(c[4].sender_username, Some(s("ann")));
    assert_eq!(c[4].sender_full_name, Some(s("Ann ")));
    assert_eq!(c[4].reply_to_message_id, Some(7));
    assert_eq!(c[4].text, "newest");
    assert!(comments_from_replies(&TlReplies::NotModified, &fallback, 10).is_empty());
    let newest_two: Vec<i32> =
        comments_from_replies(&page(), &fallback, 2).iter().map(|m| m.message_id).collect();
    assert_eq!(newest_two, vec![20, 30]);
    assert!(comments_from_replies(&page(), &fallback, 0).is_empty());
    assert!(comments_from_replies(&page(), &fallback, -4).is_empty());
}

#[test]
fn discussion_targets() {
    let post = TlMessage::Message { id: 501, from: None, text: s("post"), reply_to: None };
    let chan = TlChat::Channel { id: 9, title: s("Talk"), username: None, access_hash: None };
    assert_eq!(
        discussion_target(4, &vec![post.clone()], &vec![chan.clone(), TlChat::Other]),
        Ok(CommentTarget {
            reply_to_msg_id: 501,
            peer: InputPeerTarget::Channel { channel_id: 9, access_hash: 0 }
        })
    );
    let hashed = TlChat::Channel { id: 9, title: s("Talk"), username: None, access_hash: Some(77) };
    assert_eq!(
        discussion_target(4, &vec![post.clone()], &vec![hashed]).map(|t| t.peer),
        Ok(InputPeerTarget::Channel { channel_id: 9, access_hash: 77 })
    );
    assert_eq!(
        discussion_target(4, &vec![post.clone()], &vec![TlChat::Chat { id: 8, title: s("g") }]),
        Ok(CommentTarget { reply_to_msg_id: 501, peer: InputPeerTarget::Chat { chat_id: 8 } })
    );
    assert_eq!(
        discussion_target(4, &vec![TlMessage::Other, post.clone()], &vec![chan.clone()]),
        Err(TgError::DiscussionMessageMissing(4))
    );
    assert_eq!(discussion_target(4, &vec![], &vec![chan]), Err(TgError::DiscussionMessageMissing(4)));
    assert_eq!(
        discussion_target(4, &vec![post.clone()], &vec![TlChat::Other]),
        Err(TgError::DiscussionPeerMissing(4))
    );
    assert_eq!(discussion_target(4, &vec![post], &vec![]), Err(TgError::DiscussionPeerMissing(4)));
}

#[test]
fn comment_requests_keep_target_and_text() {
    let t = CommentTarget { reply_to_msg_id: 501, peer: InputPeerTarget::Chat { chat_id: 8 } };
    let r = comment_request(t, s("nice post"));
    assert_eq!(r.peer, InputPeerTarget::Chat { chat_id: 8 });
    assert_eq!(r.reply_to_msg_id, 501);
    assert_eq!(r.message, "nice post");
    let ids: Vec<i64> = (0..4)
        .map(|_| {
            comment_request(
                CommentTarget { reply_to_msg_id: 1, peer: InputPeerTarget::Chat { chat_id: 1 } },
                s("x"),
            )
            .random_id
        })
        .collect();
    assert!(ids.windows(2).any(|w| w[0] != w[1]));
}
