//! The correlation bridge between pending calls and native completions.
//!
//! Each call hands the native side an opaque token and parks the sending half
//! of its one-shot completion channel here under that token. The completion
//! callback quotes the token back and reclaims that half — exactly once: a
//! token is never reissued, and reclaiming it removes it from the table, so a
//! second invocation with the same token finds nothing and is swallowed.

use vstd::prelude::*;
use vstd::map::*;

verus! {

/// The registry of pending calls: each issued, still-undelivered token is
/// paired with the sending half `S` of its completion channel.
pub struct PendingTable<S> {
    next_token: u64,
    entries: Vec<(u64, S)>,
}

/// One registration transition of the table: `token` was issued fresh and the
/// pending half was parked under it; nothing else changed.
pub open spec fn register_step<S>(
    pre: PendingTable<S>,
    post: PendingTable<S>,
    pending: S,
    token: u64,
) -> bool {
    &&& token == pre.next_token()
    &&& !pre.pending().contains_key(token)
    &&& post.next_token() == pre.next_token() + 1
    &&& post.pending() == pre.pending().insert(token, pending)
}

/// One reclaim transition of the table: the pending half parked under `token`
/// came out, if the token held one; either way the token holds nothing after,
/// and no other pending call is touched.
pub open spec fn remove_step<S>(
    pre: PendingTable<S>,
    post: PendingTable<S>,
    token: u64,
    removed: Option<S>,
) -> bool {
    &&& post.next_token() == pre.next_token()
    &&& post.pending() == pre.pending().remove(token)
    &&& removed == (if pre.pending().contains_key(token) {
        Some(pre.pending()[token])
    } else {
        None::<S>
    })
}

impl<S> PendingTable<S> {
    /// No two parked entries share a token.
    spec fn distinct_keys(s: Seq<(u64, S)>) -> bool {
        forall|a: int, b: int|
            0 <= a < b < s.len() ==> (#[trigger] s[a]).0 != (#[trigger] s[b]).0
    }

    spec fn map_of(s: Seq<(u64, S)>) -> Map<u64, S>
        decreases s.len(),
    {
        if s.len() == 0 {
            Map::empty()
        } else {
            Self::map_of(s.drop_last()).insert(s.last().0, s.last().1)
        }
    }

    /// The pending calls, as a map from token to parked channel half.
    pub closed spec fn pending(self) -> Map<u64, S> {
        Self::map_of(self.entries@)
    }

    /// The token the next registration will be given; every token issued so
    /// far is smaller.
    pub closed spec fn next_token(self) -> u64 {
        self.next_token
    }

    /// Well-formedness: no token is parked twice, and every parked token has
    /// already been issued, so a fresh token can never collide with one.
    pub closed spec fn wf(self) -> bool {
        &&& Self::distinct_keys(self.entries@)
        &&& forall|i: int|
            0 <= i < self.entries@.len() ==> (#[trigger] self.entries@[i]).0 < self.next_token
    }

    proof fn lemma_map_of_dom(s: Seq<(u64, S)>, k: u64)
        ensures
            Self::map_of(s).contains_key(k) <==> exists|i: int|
                0 <= i < s.len() && (#[trigger] s[i]).0 == k,
        decreases s.len(),
    {
        if s.len() == 0 {
        } else {
            Self::lemma_map_of_dom(s.drop_last(), k);
            if s.last().0 == k {
                assert((s[s.len() - 1]).0 == k);
            } else {
                if exists|i: int| 0 <= i < s.len() && (#[trigger] s[i]).0 == k {
                    let i = choose|i: int| 0 <= i < s.len() && (#[trigger] s[i]).0 == k;
                    assert(s.drop_last()[i] == s[i]);
                }
            }
        }
    }

    proof fn lemma_map_of_at(s: Seq<(u64, S)>, i: int)
        requires
            0 <= i < s.len(),
            Self::distinct_keys(s),
        ensures
            Self::map_of(s).contains_key((s[i]).0),
            Self::map_of(s)[(s[i]).0] == (s[i]).1,
        decreases s.len(),
    {
        if i == s.len() - 1 {
        } else {
            assert(Self::distinct_keys(s.drop_last())) by {
                assert(forall|j: int|
                    0 <= j < s.len() - 1 ==> s.drop_last()[j] == s[j]);
            }
            assert(s.drop_last()[i] == s[i]);
            Self::lemma_map_of_at(s.drop_last(), i);
            assert((s.last()).0 != (s[i]).0);
        }
    }

    proof fn lemma_map_of_remove(s: Seq<(u64, S)>, i: int)
        requires
            0 <= i < s.len(),
            Self::distinct_keys(s),
        ensures
            Self::map_of(s.remove(i)) == Self::map_of(s).remove((s[i]).0),
        decreases s.len(),
    {
        let k = (s[i]).0;
        s.remove_ensures(i);
        if i == s.len() - 1 {
            assert(s.remove(i) =~= s.drop_last());
            Self::lemma_map_of_dom(s.drop_last(), k);
            assert(forall|j: int|
                0 <= j < s.len() - 1 ==> (#[trigger] s.drop_last()[j]) == s[j]);
            assert(!Self::map_of(s.drop_last()).contains_key(k));
            assert_maps_equal!(
                Self::map_of(s.drop_last()).insert((s[i]).0, (s[i]).1).remove(k),
                Self::map_of(s.drop_last())
            );
        } else {
            assert(Self::distinct_keys(s.drop_last())) by {
                assert(forall|j: int|
                    0 <= j < s.len() - 1 ==> s.drop_last()[j] == s[j]);
            }
            s.drop_last().remove_ensures(i);
            assert(s.remove(i).drop_last() =~= s.drop_last().remove(i));
            assert(s.remove(i).last() == s.last());
            Self::lemma_map_of_remove(s.drop_last(), i);
            assert((s.last()).0 != k);
            assert_maps_equal!(
                Self::map_of(s.drop_last()).remove(k).insert((s.last()).0, (s.last()).1),
                Self::map_of(s.drop_last()).insert((s.last()).0, (s.last()).1).remove(k)
            );
        }
    }

    /// Creates an empty table: nothing pending, no token issued yet.
    pub fn new() -> (t: PendingTable<S>)
        ensures
            t.wf(),
            t.pending() == Map::<u64, S>::empty(),
            t.next_token() == 0,
    {
        PendingTable { next_token: 0, entries: Vec::new() }
    }

    /// Issues a fresh one-time token and parks the sending half of the call's
    /// completion channel under it.
    pub fn register(&mut self, pending: S) -> (token: u64)
        requires
            old(self).wf(),
            old(self).next_token() < u64::MAX,
        ensures
            final(self).wf(),
            register_step(*old(self), *final(self), pending, token),
    {
        let token = self.next_token;
        self.next_token = self.next_token + 1;
        self.entries.push((token, pending));
        proof {
            let s0 = old(self).entries@;
            let s1 = self.entries@;
            assert(s1.drop_last() =~= s0);
            Self::lemma_map_of_dom(s0, token);
            assert(forall|a: int, b: int|
                0 <= a < b < s1.len() ==> (#[trigger] s1[a]).0 != (#[trigger] s1[b]).0) by {
                assert(forall|j: int| 0 <= j < s0.len() ==> s1[j] == s0[j]);
            }
        }
        token
    }

    /// Reclaims the pending half parked under `token`, removing it from the
    /// table; yields `None` when the token holds nothing — in particular when
    /// it was already reclaimed once.
    pub fn remove(&mut self, token: u64) -> (removed: Option<S>)
        requires
            old(self).wf(),
        ensures
            final(self).wf(),
            remove_step(*old(self), *final(self), token, removed),
    {
        let mut i: usize = 0;
        while i < self.entries.len()
            invariant
                old(self).wf(),
                *self == *old(self),
                0 <= i <= self.entries@.len(),
                forall|j: int| 0 <= j < i ==> (#[trigger] self.entries@[j]).0 != token,
            decreases self.entries@.len() - i,
        {
            if self.entries[i].0 == token {
                proof {
                    let s0 = old(self).entries@;
                    Self::lemma_map_of_at(s0, i as int);
                    Self::lemma_map_of_remove(s0, i as int);
                }
                let (_, pending) = self.entries.remove(i);
                proof {
                    let s0 = old(self).entries@;
                    let s1 = self.entries@;
                    s0.remove_ensures(i as int);
                    assert(forall|a: int, b: int|
                        0 <= a < b < s1.len() ==> (#[trigger] s1[a]).0 != (#[trigger] s1[b]).0)
                        by {
                        assert(forall|j: int|
                            0 <= j < s1.len() ==> s1[j] == (if j < i { s0[j] } else { s0[j + 1] }));
                    }
                    assert(forall|j: int|
                        0 <= j < s1.len() ==> (#[trigger] s1[j]).0 < self.next_token) by {
                        assert(forall|j: int|
                            0 <= j < s1.len() ==> s1[j] == (if j < i { s0[j] } else { s0[j + 1] }));
                    }
                }
                return Some(pending);
            }
            i = i + 1;
        }
        proof {
            let s0 = old(self).entries@;
            Self::lemma_map_of_dom(s0, token);
            assert(!old(self).pending().contains_key(token));
            assert_maps_equal!(old(self).pending().remove(token), old(self).pending());
        }
        None
    }
}

/// Law: a pending call is reclaimed at most once. Whatever the first reclaim
/// of a token yielded, a second reclaim of the same token yields nothing and
/// leaves every pending call as it was.
pub proof fn lemma_at_most_one_delivery<S>(
    t0: PendingTable<S>,
    t1: PendingTable<S>,
    t2: PendingTable<S>,
    token: u64,
    first: Option<S>,
    second: Option<S>,
)
    requires
        remove_step(t0, t1, token, first),
        remove_step(t1, t2, token, second),
    ensures
        second is None,
        t2.pending() == t1.pending(),
{
    assert(!t1.pending().contains_key(token));
    assert_maps_equal!(t1.pending().remove(token), t1.pending());
}

/// Law: two registrations are independent. They issue distinct tokens, and
/// afterwards each token holds exactly the pending half parked under it.
pub proof fn lemma_independent_registrations<S>(
    t0: PendingTable<S>,
    t1: PendingTable<S>,
    t2: PendingTable<S>,
    first_pending: S,
    second_pending: S,
    first_token: u64,
    second_token: u64,
)
    requires
        register_step(t0, t1, first_pending, first_token),
        register_step(t1, t2, second_pending, second_token),
    ensures
        first_token != second_token,
        t2.pending().contains_key(first_token),
        t2.pending()[first_token] == first_pending,
        t2.pending().contains_key(second_token),
        t2.pending()[second_token] == second_pending,
{
}

/// Law: completions are correlated, not ordered. When two registered calls
/// complete in the opposite order, each token still yields exactly the
/// pending half registered under it, never the other call's.
pub proof fn lemma_out_of_order_isolation<S>(
    t0: PendingTable<S>,
    t1: PendingTable<S>,
    t2: PendingTable<S>,
    t3: PendingTable<S>,
    t4: PendingTable<S>,
    first_pending: S,
    second_pending: S,
    first_token: u64,
    second_token: u64,
    second_removed: Option<S>,
    first_removed: Option<S>,
)
    requires
        register_step(t0, t1, first_pending, first_token),
        register_step(t1, t2, second_pending, second_token),
        remove_step(t2, t3, second_token, second_removed),
        remove_step(t3, t4, first_token, first_removed),
    ensures
        second_removed == Some(second_pending),
        first_removed == Some(first_pending),
{
    lemma_independent_registrations(
        t0,
        t1,
        t2,
        first_pending,
        second_pending,
        first_token,
        second_token,
    );
}

} // verus!
