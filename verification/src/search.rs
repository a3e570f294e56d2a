use vstd::prelude::*;
use crate::comments::{at_most, TlFromPeer};

verus! {

/// A peer found by a search, as the position of its record among the users or among the
/// chats that came with the search results.
#[derive(Debug, Clone, PartialEq, Eq)]
pub enum FoundRef {
    User(usize),
    Chat(usize),
}

/// The first position of `id` in `ids`.
pub open spec fn first_pos(ids: Seq<i64>, id: i64) -> Option<nat>
    decreases ids.len(),
{
    if ids.len() == 0 {
        None
    } else if ids[0] == id {
        Some(0)
    } else {
        match first_pos(ids.drop_first(), id) {
            Some(p) => Some(p + 1),
            None => None,
        }
    }
}

/// Where the record of one search result is: a user result among the users, a group or
/// channel result among the chats, each by the first record with its id.
pub open spec fn found_ref_of(p: TlFromPeer, user_ids: Seq<i64>, chat_ids: Seq<i64>) -> Option<
    FoundRef,
> {
    match p {
        TlFromPeer::User(id) => match first_pos(user_ids, id) {
            Some(i) => Some(FoundRef::User(i as usize)),
            None => None,
        },
        TlFromPeer::Chat(id) => match first_pos(chat_ids, id) {
            Some(i) => Some(FoundRef::Chat(i as usize)),
            None => None,
        },
        TlFromPeer::Channel(id) => match first_pos(chat_ids, id) {
            Some(i) => Some(FoundRef::Chat(i as usize)),
            None => None,
        },
    }
}

/// The records of the search results, in result order; a result whose record did not
/// come with the search is left out.
pub open spec fn found_refs(results: Seq<TlFromPeer>, user_ids: Seq<i64>, chat_ids: Seq<i64>) -> Seq<
    FoundRef,
>
    decreases results.len(),
{
    if results.len() == 0 {
        Seq::empty()
    } else {
        let before = found_refs(results.drop_last(), user_ids, chat_ids);
        match found_ref_of(results.last(), user_ids, chat_ids) {
            Some(r) => before.push(r),
            None => before,
        }
    }
}

/// The first position of `id` in `ids`.
pub fn position_of(ids: &Vec<i64>, id: i64) -> (r: Option<usize>)
    ensures
        match r {
            Some(i) => first_pos(ids@, id) == Some(i as nat),
            None => first_pos(ids@, id) is None,
        },
{
    let n = ids.len();
    let mut i: usize = 0;
    assert(ids@.subrange(0, n as int) =~= ids@);
    while i < n
        invariant
            n == ids@.len(),
            i <= n,
            match first_pos(ids@.subrange(i as int, n as int), id) {
                Some(p) => first_pos(ids@, id) == Some((p + i) as nat),
                None => first_pos(ids@, id) is None,
            },
        decreases n - i,
    {
        assert(ids@.subrange(i as int, n as int).drop_first() =~= ids@.subrange(i + 1, n as int));
        if ids[i] == id {
            return Some(i);
        }
        i = i + 1;
    }
    assert(ids@.subrange(n as int, n as int).len() == 0);
    None
}

/// The records of the peers a search found, in result order, at most `limit` of them.
pub fn found_peers(
    results: &Vec<TlFromPeer>,
    user_ids: &Vec<i64>,
    chat_ids: &Vec<i64>,
    limit: usize,
) -> (r: Vec<FoundRef>)
    ensures
        r@ == at_most(found_refs(results@, user_ids@, chat_ids@), limit as nat),
        r@.len() <= limit,
{
    let mut out: Vec<FoundRef> = Vec::new();
    let n = results.len();
    let mut i: usize = 0;
    while i < n
        invariant
            n == results@.len(),
            i <= n,
            out@ == found_refs(results@.take(i as int), user_ids@, chat_ids@),
        decreases n - i,
    {
        assert(results@.take(i + 1).drop_last() =~= results@.take(i as int));
        assert(results@.take(i + 1).last() == results@[i as int]);
        let found = match &results[i] {
            TlFromPeer::User(id) => match position_of(user_ids, *id) {
                Some(k) => Some(FoundRef::User(k)),
                None => None,
            },
            TlFromPeer::Chat(id) => match position_of(chat_ids, *id) {
                Some(k) => Some(FoundRef::Chat(k)),
                None => None,
            },
            TlFromPeer::Channel(id) => match position_of(chat_ids, *id) {
                Some(k) => Some(FoundRef::Chat(k)),
                None => None,
            },
        };
        match found {
            Some(f) => out.push(f),
            None => {},
        }
        i = i + 1;
    }
    assert(results@.take(n as int) =~= results@);
    let ghost all = out@;
    out.truncate(limit);
    assert(out@ =~= at_most(all, limit as nat));
    out
}

} // verus!
