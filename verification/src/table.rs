//! The token table: an arena of slots, each holding either a persistent
//! timer registration or a one-cycle descriptor interest.

use vstd::prelude::*;
use crate::poll_events::PollEvents;

verus! {

/// A transient descriptor interest: the raw descriptor, the event mask the
/// engine asked for, and the mask observed this cycle, if any.
#[derive(Clone, Copy, Debug)]
pub struct MyFd {
    pub fd: i32,
    pub events: PollEvents,
    pub revents: Option<PollEvents>,
}

impl MyFd {
    /// A fresh interest: no events observed yet.
    pub fn new(fd: i32, events: PollEvents) -> (r: MyFd)
        ensures
            r.fd == fd,
            r.events == events,
            r.revents is None,
    {
        MyFd { fd, events, revents: None }
    }
}

/// One live registration: either a one-cycle descriptor interest or a
/// persistent timer.
#[derive(Clone, Copy, Debug)]
pub enum MyToken {
    Fd(MyFd),
    Timer,
}

impl MyToken {
    pub fn is_timer(&self) -> (r: bool)
        ensures
            r == (*self is Timer),
    {
        match self {
            MyToken::Timer => true,
            MyToken::Fd(_) => false,
        }
    }
}

/// The slot arena that owns the live entries, declared so that its
/// bookkeeping can be stated over a map from token to entry.
#[verifier::external_type_specification]
#[verifier::external_body]
#[verifier::reject_recursive_types(T)]
pub struct ExSlab<T>(slab::Slab<T>);

/// What the arena holds: the partial map from live token to entry.
pub uninterp spec fn slab_view(s: slab::Slab<MyToken>) -> Map<usize, MyToken>;

/// The entries left by a cycle-end teardown: exactly the timers, each
/// unchanged; every descriptor interest is gone.
pub open spec fn retain_timers_spec(m: Map<usize, MyToken>) -> Map<usize, MyToken> {
    Map::new(|k: usize| m.contains_key(k) && m[k] is Timer, |k: usize| m[k])
}

/// Relies on `slab::Slab::with_capacity`: makes an arena with no entries.
#[verifier::external_body]
pub(crate) fn slab_with_capacity(capacity: usize) -> (s: slab::Slab<MyToken>)
    ensures
        forall|k: usize| !slab_view(s).contains_key(k),
{
    slab::Slab::with_capacity(capacity)
}

/// Relies on `slab::Slab::insert`: stores the value in a vacant slot and
/// returns that slot's key, which no live entry held before.
#[verifier::external_body]
pub(crate) fn slab_insert(s: &mut slab::Slab<MyToken>, v: MyToken) -> (k: usize)
    ensures
        !slab_view(*old(s)).contains_key(k),
        slab_view(*final(s)) == slab_view(*old(s)).insert(k, v),
{
    s.insert(v)
}

/// Relies on `slab::Slab::try_remove`: deletes and returns the entry under
/// a live key, freeing the key; a vacant key is a no-op returning `None`.
#[verifier::external_body]
pub(crate) fn slab_try_remove(s: &mut slab::Slab<MyToken>, k: usize) -> (r: Option<MyToken>)
    ensures
        slab_view(*old(s)).contains_key(k) ==> {
            &&& r == Some(slab_view(*old(s))[k])
            &&& slab_view(*final(s)) == slab_view(*old(s)).remove(k)
        },
        !slab_view(*old(s)).contains_key(k) ==> {
            &&& r is None
            &&& slab_view(*final(s)) == slab_view(*old(s))
        },
{
    s.try_remove(k)
}

/// Relies on `slab::Slab::get`: returns the entry under a live key, `None`
/// under a vacant one.  The entry is handed out by value.
#[verifier::external_body]
pub(crate) fn slab_get_copy(s: &slab::Slab<MyToken>, k: usize) -> (r: Option<MyToken>)
    ensures
        slab_view(*s).contains_key(k) ==> r == Some(slab_view(*s)[k]),
        !slab_view(*s).contains_key(k) ==> r is None,
{
    s.get(k).copied()
}

/// Relies on `slab::Slab`'s indexed mutation (`IndexMut`): overwrites the
/// entry under a live key.  Indexing a vacant key panics, so the contract
/// asks for a live one.
#[verifier::external_body]
pub(crate) fn slab_replace(s: &mut slab::Slab<MyToken>, k: usize, v: MyToken)
    requires
        slab_view(*old(s)).contains_key(k),
    ensures
        slab_view(*final(s)) == slab_view(*old(s)).insert(k, v),
{
    s[k] = v;
}

/// Relies on `slab::Slab::iter`: walks the live entries in ascending key
/// order.  Each entry is handed out by value.
#[verifier::external_body]
pub(crate) fn slab_pairs(s: &slab::Slab<MyToken>) -> (r: Vec<(usize, MyToken)>)
    ensures
        forall|i: int|
            0 <= i < r@.len() ==> #[trigger] slab_view(*s).contains_key(r@[i].0)
                && slab_view(*s)[r@[i].0] == r@[i].1,
        forall|k: usize|
            #[trigger] slab_view(*s).contains_key(k) ==> exists|i: int|
                0 <= i < r@.len() && r@[i].0 == k,
        forall|i: int, j: int| 0 <= i < j < r@.len() ==> #[trigger] r@[i].0 < #[trigger] r@[j].0,
{
    s.iter().map(|(k, v)| (k, *v)).collect()
}

/// Relies on `slab::Slab::retain`: keeps exactly the entries the predicate
/// accepts, here the timers, each under its old key; frees every other key.
#[verifier::external_body]
pub(crate) fn slab_retain_timers(s: &mut slab::Slab<MyToken>)
    ensures
        slab_view(*final(s)) == retain_timers_spec(slab_view(*old(s))),
{
    s.retain(|_, v| v.is_timer())
}

/// Law: a token just handed out is distinct from the token of every entry
/// that was live when it was allocated, and storing under it leaves every
/// live entry unchanged.  Together with the map model of the arena this
/// keeps token values unique among live registrations at every point of
/// any insert/remove sequence.
pub proof fn lemma_token_uniqueness(m: Map<usize, MyToken>, k: usize, v: MyToken)
    requires
        !m.contains_key(k),
    ensures
        forall|k2: usize| #[trigger] m.contains_key(k2) ==> k2 != k,
        m.insert(k, v).contains_key(k),
        m.insert(k, v)[k] == v,
        forall|k2: usize| k2 != k && #[trigger] m.contains_key(k2) ==> m.insert(k, v).contains_key(k2)
            && m.insert(k, v)[k2] == m[k2],
{
}

/// Law: a descriptor interest never survives the teardown at the end of
/// the cycle after the one that created it — whether or not it fired, its
/// token is free again once the teardown has run.
pub proof fn lemma_fd_ephemeral(m: Map<usize, MyToken>, k: usize)
    requires
        m.contains_key(k),
        m[k] is Fd,
    ensures
        !retain_timers_spec(m).contains_key(k),
{
}

/// Law: a timer entry outlives any number of descriptor-only cycles.  The
/// cycle-end teardown keeps it unchanged, and so does inserting under a
/// fresh token or removing a different one; only an explicit removal of
/// its own token ends it.
pub proof fn lemma_timer_persistence(m: Map<usize, MyToken>, k: usize, k2: usize, v: MyToken)
    requires
        m.contains_key(k),
        m[k] is Timer,
        k2 != k,
    ensures
        retain_timers_spec(m).contains_key(k),
        retain_timers_spec(m)[k] == m[k],
        m.insert(k2, v).contains_key(k),
        m.insert(k2, v)[k] == m[k],
        m.remove(k2).contains_key(k),
        m.remove(k2)[k] == m[k],
{
}

/// The table after a whole fill phase: the given insertions applied in
/// order.
pub open spec fn insert_seq(m: Map<usize, MyToken>, s: Seq<(usize, MyToken)>) -> Map<
    usize,
    MyToken,
>
    decreases s.len(),
{
    if s.len() == 0 {
        m
    } else {
        insert_seq(m, s.drop_last()).insert(s.last().0, s.last().1)
    }
}

/// Whether each insertion of the sequence takes a token that is not live
/// at its point — what the arena's allocator gives every fill-phase
/// insertion.
pub open spec fn fresh_inserts(m: Map<usize, MyToken>, s: Seq<(usize, MyToken)>) -> bool
    decreases s.len(),
{
    if s.len() == 0 {
        true
    } else {
        fresh_inserts(m, s.drop_last()) && !insert_seq(m, s.drop_last()).contains_key(
            s.last().0,
        )
    }
}

/// A key is live after a fill phase exactly when it was live before or
/// some insertion used it; a key that no insertion used keeps its old
/// entry, or stays free.
pub proof fn lemma_insert_seq_keys(m: Map<usize, MyToken>, s: Seq<(usize, MyToken)>, k: usize)
    ensures
        insert_seq(m, s).contains_key(k) <==> (m.contains_key(k) || exists|i: int|
            0 <= i < s.len() && (#[trigger] s[i]).0 == k),
        (forall|i: int| 0 <= i < s.len() ==> (#[trigger] s[i]).0 != k) ==> {
            &&& insert_seq(m, s).contains_key(k) == m.contains_key(k)
            &&& (m.contains_key(k) ==> insert_seq(m, s)[k] == m[k])
        },
    decreases s.len(),
{
    if s.len() > 0 {
        lemma_insert_seq_keys(m, s.drop_last(), k);
        assert(forall|i: int|
            0 <= i < s.len() - 1 ==> (#[trigger] s.drop_last()[i]) == s[i]);
        if insert_seq(m, s).contains_key(k) && s.last().0 != k {
            assert(insert_seq(m, s.drop_last()).contains_key(k));
        }
        if exists|i: int| 0 <= i < s.len() && (#[trigger] s[i]).0 == k {
            let i = choose|i: int| 0 <= i < s.len() && (#[trigger] s[i]).0 == k;
            if i < s.len() - 1 {
                assert(s.drop_last()[i].0 == k);
            }
        }
    }
}

/// Law, a whole cycle at once: the teardown followed by any fill phase
/// frees every descriptor interest's token — an interest of one cycle is
/// absent by the start of the cycle after the next, whether or not it
/// fired, unless a later insertion deliberately reuses the freed value
/// (no identity carries meaning across such reuse).
pub proof fn lemma_fd_ephemeral_cycle(m: Map<usize, MyToken>, k: usize, s: Seq<(usize, MyToken)>)
    requires
        m.contains_key(k),
        m[k] is Fd,
        forall|i: int| 0 <= i < s.len() ==> (#[trigger] s[i]).0 != k,
    ensures
        !insert_seq(retain_timers_spec(m), s).contains_key(k),
{
    lemma_fd_ephemeral(m, k);
    lemma_insert_seq_keys(retain_timers_spec(m), s, k);
}

/// Law, a whole cycle at once: a timer entry survives the teardown and
/// any fill phase of fresh insertions unchanged, under its own token.
/// Later cycles compose: the entry is still a timer afterwards, so the
/// law applies again, for as long as the timer is not explicitly freed.
pub proof fn lemma_timer_persists_cycle(m: Map<usize, MyToken>, k: usize, s: Seq<(usize, MyToken)>)
    requires
        m.contains_key(k),
        m[k] is Timer,
        fresh_inserts(retain_timers_spec(m), s),
    ensures
        insert_seq(retain_timers_spec(m), s).contains_key(k),
        insert_seq(retain_timers_spec(m), s)[k] == m[k],
    decreases s.len(),
{
    if s.len() > 0 {
        lemma_timer_persists_cycle(m, k, s.drop_last());
    }
}

/// Law, a whole fill phase at once: the tokens of a fill phase's
/// insertions are pairwise distinct and distinct from every token live
/// when the phase began — no two live entries ever share a token.
pub proof fn lemma_fill_tokens_unique(m: Map<usize, MyToken>, s: Seq<(usize, MyToken)>)
    requires
        fresh_inserts(m, s),
    ensures
        forall|i: int, j: int| 0 <= i < j < s.len() ==> (#[trigger] s[i]).0 != (
        #[trigger] s[j]).0,
        forall|i: int| 0 <= i < s.len() ==> !m.contains_key((#[trigger] s[i]).0),
    decreases s.len(),
{
    if s.len() > 0 {
        lemma_fill_tokens_unique(m, s.drop_last());
        assert(forall|i: int|
            0 <= i < s.len() - 1 ==> (#[trigger] s.drop_last()[i]) == s[i]);
        assert forall|i: int, j: int| 0 <= i < j < s.len() implies (#[trigger] s[i]).0 != (
        #[trigger] s[j]).0 by {
            if j < s.len() - 1 {
                assert(s.drop_last()[i].0 != s.drop_last()[j].0);
            } else {
                assert(s[j] == s.last());
                assert(s.drop_last()[i].0 == s[i].0);
                lemma_insert_seq_keys(m, s.drop_last(), s[i].0);
                assert(insert_seq(m, s.drop_last()).contains_key(s[i].0));
            }
        }
        assert forall|i: int| 0 <= i < s.len() implies !m.contains_key(
            (#[trigger] s[i]).0,
        ) by {
            if i < s.len() - 1 {
                assert(!m.contains_key(s.drop_last()[i].0));
            } else {
                assert(s[i] == s.last());
                lemma_insert_seq_keys(m, s.drop_last(), s[i].0);
            }
        }
    }
}

} // verus!
