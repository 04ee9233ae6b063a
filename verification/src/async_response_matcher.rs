//! Correlation of asynchronous replies with pending requests.
//!
//! The matcher is a table from a request's content hash to the one-shot
//! channel its caller is waiting on. An entry is created when a request
//! is sent, and destroyed exactly once: by `resolve` when the reply
//! arrives, by `remove` when the caller's timeout fires first, or by
//! `close` on shutdown. A hash whose entry is gone matches nothing: a
//! late or duplicate reply is discarded, never an error.

use vstd::prelude::*;
use futures::channel::oneshot::Sender;

verus! {

#[verifier::external_type_specification]
#[verifier::external_body]
#[verifier::reject_recursive_types(T)]
pub struct ExSender<T>(Sender<T>);

/// Relies on `futures::channel::oneshot::Sender::send`: it consumes the
/// channel and delivers `data` to the receiving half, waking it; if the
/// receiver was already dropped it gives `data` back as the error value.
#[verifier::external_body]
fn oneshot_send(tx: Sender<Vec<u8>>, data: Vec<u8>) -> (r: Result<(), Vec<u8>>)
    ensures
        r matches Err(v) ==> v@ == data@,
{
    tx.send(data)
}

/// The pending-reply table: each entry pairs a request hash with the
/// sending half of that caller's one-shot reply channel.
pub struct AsyncResponseMatcher {
    waiting: Vec<(String, Sender<Vec<u8>>)>,
}

/// No two entries hold the same hash.
spec fn distinct_keys(s: Seq<(String, Sender<Vec<u8>>)>) -> bool {
    forall|x: int, y: int| 0 <= x < y < s.len() ==> s[x].0@ != s[y].0@
}

/// The entries of the table read as a map from hash to channel; a later
/// entry for the same hash would shadow an earlier one.
spec fn as_map(s: Seq<(String, Sender<Vec<u8>>)>) -> Map<Seq<char>, Sender<Vec<u8>>>
    decreases s.len(),
{
    if s.len() == 0 {
        Map::empty()
    } else {
        as_map(s.drop_last()).insert(s.last().0@, s.last().1)
    }
}

/// A key is in the map exactly when some entry holds it.
proof fn lemma_as_map_dom(s: Seq<(String, Sender<Vec<u8>>)>, k: Seq<char>)
    ensures
        as_map(s).contains_key(k) <==> exists|i: int| 0 <= i < s.len() && s[i].0@ == k,
    decreases s.len(),
{
    if s.len() > 0 {
        lemma_as_map_dom(s.drop_last(), k);
        if exists|i: int| 0 <= i < s.len() && s[i].0@ == k {
            let i = choose|i: int| 0 <= i < s.len() && s[i].0@ == k;
            if i < s.len() - 1 {
                assert(s.drop_last()[i].0@ == k);
            }
            assert(as_map(s).contains_key(k));
        }
        if as_map(s).contains_key(k) {
            if k == s.last().0@ {
                assert(s[s.len() - 1].0@ == k);
            } else {
                let i = choose|i: int| 0 <= i < s.drop_last().len() && s.drop_last()[i].0@ == k;
                assert(s[i].0@ == k);
            }
        }
    }
}

/// Removing an entry keeps the remaining hashes distinct.
proof fn lemma_remove_preserves_distinct(s: Seq<(String, Sender<Vec<u8>>)>, i: int)
    requires
        0 <= i < s.len(),
        distinct_keys(s),
    ensures
        distinct_keys(s.remove(i)),
{
    let t = s.remove(i);
    assert forall|x: int, y: int| 0 <= x < y < t.len() implies t[x].0@ != t[y].0@ by {
        let xx: int = if x < i {
            x
        } else {
            x + 1
        };
        let yy: int = if y < i {
            y
        } else {
            y + 1
        };
        assert(t[x] == s[xx]);
        assert(t[y] == s[yy]);
    }
}

/// With distinct keys, removing the entry at `i` removes exactly its key
/// from the map.
proof fn lemma_as_map_remove(s: Seq<(String, Sender<Vec<u8>>)>, i: int)
    requires
        0 <= i < s.len(),
        distinct_keys(s),
    ensures
        as_map(s.remove(i)) == as_map(s).remove(s[i].0@),
    decreases s.len(),
{
    let k = s[i].0@;
    if i == s.len() - 1 {
        assert(s.remove(i) =~= s.drop_last());
        lemma_as_map_dom(s.drop_last(), k);
        assert(!as_map(s.drop_last()).contains_key(k));
        assert(as_map(s).remove(k) =~= as_map(s.drop_last()));
    } else {
        assert(s.remove(i).drop_last() =~= s.drop_last().remove(i));
        assert(s.remove(i).last() == s.last());
        lemma_as_map_remove(s.drop_last(), i);
        assert(s.last().0@ != k);
        assert(as_map(s.drop_last()).remove(k).insert(s.last().0@, s.last().1) =~= as_map(
            s.drop_last(),
        ).insert(s.last().0@, s.last().1).remove(k));
    }
}

impl View for AsyncResponseMatcher {
    type V = Map<Seq<char>, Sender<Vec<u8>>>;

    closed spec fn view(&self) -> Map<Seq<char>, Sender<Vec<u8>>> {
        as_map(self.waiting@)
    }
}

impl AsyncResponseMatcher {
    /// At most one pending waiter per hash, ever.
    pub closed spec fn inv(self) -> bool {
        distinct_keys(self.waiting@)
    }

    /// An empty table: nothing is pending.
    pub fn new() -> (r: Self)
        ensures
            r.inv(),
            r@ == Map::<Seq<char>, Sender<Vec<u8>>>::empty(),
    {
        Self { waiting: Vec::new() }
    }

    /// Index of the entry waiting on `hash`, if one exists.
    fn position_of(&self, hash: &String) -> (r: Option<usize>)
        requires
            self.inv(),
        ensures
            match r {
                Some(i) => i < self.waiting@.len() && self.waiting@[i as int].0@ == hash@
                    && self@.contains_key(hash@),
                None => !self@.contains_key(hash@),
            },
    {
        let n = self.waiting.len();
        for i in 0..n
            invariant
                n == self.waiting@.len(),
                self.inv(),
                forall|j: int| 0 <= j < i ==> self.waiting@[j].0@ != hash@,
        {
            if self.waiting[i].0 == *hash {
                proof {
                    lemma_as_map_dom(self.waiting@, hash@);
                }
                return Some(i);
            }
        }
        proof {
            lemma_as_map_dom(self.waiting@, hash@);
        }
        None
    }

    /// Registers a waiter for `hash`. The caller guarantees hash
    /// uniqueness per in-flight call; should the same hash nevertheless
    /// already be pending, the new channel silently replaces the old one.
    pub fn add(&mut self, hash: String, tx: Sender<Vec<u8>>)
        requires
            old(self).inv(),
        ensures
            final(self).inv(),
            final(self)@ == old(self)@.insert(hash@, tx),
    {
        let prior = hash.clone();
        Self::remove(self, prior);
        proof {
            lemma_as_map_dom(self.waiting@, hash@);
        }
        let ghost mid = self.waiting@;
        self.waiting.push((hash, tx));
        proof {
            assert(self.waiting@.drop_last() =~= mid);
            assert(forall|x: int| 0 <= x < mid.len() ==> mid[x].0@ != hash@);
            assert(self@ =~= old(self)@.insert(hash@, tx));
        }
    }

    /// Delivers `data` to the waiter on `hash`, if one is pending, and
    /// drops the entry; returns whether a waiter was found. Without a
    /// waiter — the reply lost a race with a timeout, or is a duplicate —
    /// the table is left as it is and nothing fails.
    pub fn resolve(matcher: &mut AsyncResponseMatcher, hash: String, data: Vec<u8>) -> (delivered:
        bool)
        requires
            old(matcher).inv(),
        ensures
            final(matcher).inv(),
            delivered == old(matcher)@.contains_key(hash@),
            final(matcher)@ == old(matcher)@.remove(hash@),
    {
        let pos = matcher.position_of(&hash);
        match pos {
            Some(i) => {
                proof {
                    lemma_as_map_remove(matcher.waiting@, i as int);
                    lemma_remove_preserves_distinct(matcher.waiting@, i as int);
                }
                let entry = matcher.waiting.remove(i);
                let _ = oneshot_send(entry.1, data);
                true
            },
            None => {
                proof {
                    assert(old(matcher)@.remove(hash@) =~= old(matcher)@);
                }
                false
            },
        }
    }

    /// Cancels the waiter on `hash`, if any: the timeout path uses this
    /// so that a reply arriving later finds nothing to wake and the entry
    /// does not leak. Removing an absent hash is a no-op, not an error.
    pub fn remove(matcher: &mut AsyncResponseMatcher, hash: String)
        requires
            old(matcher).inv(),
        ensures
            final(matcher).inv(),
            final(matcher)@ == old(matcher)@.remove(hash@),
    {
        let pos = matcher.position_of(&hash);
        match pos {
            Some(i) => {
                proof {
                    lemma_as_map_remove(matcher.waiting@, i as int);
                    lemma_remove_preserves_distinct(matcher.waiting@, i as int);
                }
                let _ = matcher.waiting.remove(i);
            },
            None => {
                proof {
                    assert(old(matcher)@.remove(hash@) =~= old(matcher)@);
                }
            },
        }
    }

    /// Drops every pending entry. Dropping the sending half of a one-shot
    /// channel wakes its receiver with a cancellation, so every caller
    /// still waiting returns promptly instead of hanging; used on
    /// shutdown.
    pub fn close(&mut self)
        requires
            old(self).inv(),
        ensures
            final(self).inv(),
            final(self)@ == Map::<Seq<char>, Sender<Vec<u8>>>::empty(),
    {
        self.waiting.clear();
    }
}

/// Replies correlate by content hash alone, not by arrival order: once a
/// call is registered, resolving its own hash finds it and clears
/// exactly it, while resolving any other hash — another call's reply,
/// however interleaved — leaves it pending on its own channel.
pub proof fn lemma_correlation_by_hash(
    m: Map<Seq<char>, Sender<Vec<u8>>>,
    h: Seq<char>,
    tx: Sender<Vec<u8>>,
    other: Seq<char>,
)
    requires
        h != other,
    ensures
        m.insert(h, tx).contains_key(h),
        m.insert(h, tx)[h] == tx,
        m.insert(h, tx).remove(h) == m.remove(h),
        m.insert(h, tx).remove(other).contains_key(h),
        m.insert(h, tx).remove(other)[h] == tx,
{
    assert(m.insert(h, tx).remove(h) =~= m.remove(h));
}

/// Once the waiter on a hash is gone — resolved by a reply or cancelled
/// by a timeout — no waiter for that hash remains: a later resolution of
/// the same hash finds nothing to deliver to and leaves the table
/// unchanged. Delivery is therefore at most once, and a late reply after
/// a timeout is discarded.
pub proof fn lemma_removed_hash_has_no_waiter(m: Map<Seq<char>, Sender<Vec<u8>>>, h: Seq<char>)
    ensures
        !m.remove(h).contains_key(h),
        m.remove(h).remove(h) == m.remove(h),
{
    assert(m.remove(h).remove(h) =~= m.remove(h));
}

} // verus!
