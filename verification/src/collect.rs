use vstd::prelude::*;

verus! {

/// The smaller of two numbers.
pub open spec fn smaller(a: nat, b: nat) -> nat {
    if a <= b {
        a
    } else {
        b
    }
}

/// The limit that applies to a history walk when Telegram reports `total` items in all:
/// the smaller of the two.
pub fn effective_limit(limit: usize, total: usize) -> (r: usize)
    ensures
        r == smaller(limit as nat, total as nat),
{
    if limit <= total {
        limit
    } else {
        total
    }
}

/// One step of a bounded walk: an item is kept only while fewer than `limit` are kept,
/// and the walk goes on while there is still room after it.
pub open spec fn collect_step<T>(items: Seq<T>, limit: nat, item: T) -> (Seq<T>, bool) {
    if items.len() < limit {
        (items.push(item), items.len() + 1 < limit)
    } else {
        (items, false)
    }
}

/// What a bounded walk keeps of a stream of items when it starts having kept `items`:
/// while there is room it takes the next item and keeps it; it stops once the step says
/// so or the stream ends.
pub open spec fn collect_run<T>(items: Seq<T>, limit: nat, stream: Seq<T>) -> Seq<T>
    decreases stream.len(),
{
    if stream.len() == 0 || items.len() >= limit {
        items
    } else {
        let (next, more) = collect_step(items, limit, stream[0]);
        if more {
            collect_run(next, limit, stream.drop_first())
        } else {
            next
        }
    }
}

/// Walks a stream of items (messages or members) and keeps at most `limit` of them.
pub struct BoundedCollector<T> {
    items: Vec<T>,
    limit: usize,
}

impl<T> BoundedCollector<T> {
    /// The items kept so far, in the order they came.
    pub closed spec fn items(&self) -> Seq<T> {
        self.items@
    }

    /// The most items the walk keeps.
    pub closed spec fn limit(&self) -> nat {
        self.limit as nat
    }

    /// A walk that has kept nothing yet.
    pub fn new(limit: usize) -> (c: Self)
        ensures
            c.items() == Seq::<T>::empty(),
            c.limit() == limit,
    {
        BoundedCollector { items: Vec::new(), limit }
    }

    /// Whether the walk has room for another item, so that the next one should be fetched.
    pub fn wants_more(&self) -> (b: bool)
        ensures
            b == (self.items().len() < self.limit()),
    {
        self.items.len() < self.limit
    }

    /// Keeps `item` if there is room for it; tells whether there is room for another.
    pub fn push(&mut self, item: T) -> (more: bool)
        ensures
            (final(self).items(), more) == collect_step(old(self).items(), old(self).limit(), item),
            final(self).limit() == old(self).limit(),
    {
        if self.items.len() < self.limit {
            self.items.push(item);
            self.items.len() < self.limit
        } else {
            false
        }
    }

    /// The items kept, in the order they came.
    pub fn into_items(self) -> (v: Vec<T>)
        ensures
            v@ == self.items(),
    {
        self.items
    }

    /// The items kept, last-come first. Telegram hands out history newest first, so
    /// this gives a history oldest first.
    pub fn into_reversed(self) -> (v: Vec<T>)
        ensures
            v@ == self.items().reverse(),
    {
        reverse_vec(self.items)
    }
}

/// The items of `v` in the opposite order.
pub fn reverse_vec<T>(v: Vec<T>) -> (r: Vec<T>)
    ensures
        r@ == v@.reverse(),
{
    let mut rest = v;
    let ghost all = rest@;
    let mut out: Vec<T> = Vec::new();
    while rest.len() > 0
        invariant
            rest@ == all.subrange(0, rest@.len() as int),
            out@.len() + rest@.len() == all.len(),
            forall|i: int| 0 <= i < out@.len() ==> out@[i] == all[all.len() - 1 - i],
        decreases rest@.len(),
    {
        let x = rest.pop().unwrap();
        out.push(x);
    }
    assert(out@ =~= all.reverse());
    out
}

/// A bounded walk keeps the first items of the stream, as many as the limit says, and
/// fewer only when the stream ends first; it never keeps more than the limit.
pub proof fn law_bounded_walk_takes_prefix<T>(items: Seq<T>, limit: nat, stream: Seq<T>)
    requires
        items.len() <= limit,
    ensures
        ({
            let n = if stream.len() <= limit - items.len() {
                stream.len() as int
            } else {
                limit - items.len()
            };
            collect_run(items, limit, stream) == items + stream.take(n)
        }),
        collect_run(items, limit, stream).len() <= limit,
    decreases stream.len(),
{
    if stream.len() == 0 || items.len() >= limit {
        assert(stream.take(0) =~= Seq::<T>::empty());
        assert(items + stream.take(0) =~= items);
    } else {
        let next = items.push(stream[0]);
        if next.len() < limit {
            law_bounded_walk_takes_prefix(next, limit, stream.drop_first());
            let n1 = if stream.len() - 1 <= limit - next.len() {
                (stream.len() - 1) as int
            } else {
                limit - next.len()
            };
            assert(next + stream.drop_first().take(n1) =~= items + stream.take(n1 + 1));
        } else {
            assert(next =~= items + stream.take(1));
        }
    }
}

} // verus!
