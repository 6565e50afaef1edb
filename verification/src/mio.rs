//! The reactor-integrated adapter: token bookkeeping, timer lifecycle, and
//! the per-cycle dispatch algorithm.
//!
//! The adapter stands between three collaborators, each reached through a
//! trait implemented outside this crate: the [`Engine`] (the callback-driven
//! packet processor), the [`Reactor`] (the readiness-based waiting
//! mechanism), and the [`Channel`] (the frame transport).  What is verified
//! here is the bookkeeping that reconciles them: which tokens are live, how
//! timer and descriptor registrations come and go, how observed readiness is
//! masked, and how the engine's fill-phase timeout turns into the next wait.

use vstd::prelude::*;
use crate::clock::{duration_as_secs, duration_subsec_nanos, instant_elapsed, instant_now};
use crate::poll_events::{from_mio_ready, to_mio_ready, PollEvents};
use crate::table::{
    slab_get_copy, slab_insert, slab_pairs, slab_replace, slab_retain_timers, slab_try_remove,
    slab_view, slab_with_capacity, MyFd, MyToken,
};

verus! {

/// The reserved token: the fixed, never-reused identity of the frame
/// channel's registration with the reactor.
pub const SOCKET: usize = 10_000_000;

/// The ceiling on one frame's payload, chosen to exceed jumbo-frame sizes.
pub const NET_BUFSIZE: usize = 4096 + 65536;

/// The fatal failures of the adapter.  A transport or registration failure
/// terminates the dispatch loop; a stale token marks a broken bookkeeping
/// contract between engine and adapter.
#[derive(Clone, Copy, Debug, PartialEq, Eq, Structural)]
pub enum AdapterError {
    /// The frame channel failed to read or write.
    Transport,
    /// The reactor refused to register or deregister a source.
    Registration,
    /// A token was used that names no live entry of the expected kind: a
    /// programming-contract violation between engine and adapter, not a
    /// recoverable runtime condition.  Where the unverified integration
    /// aborted the process on such a use, this library's verified
    /// functions never panic, so the violation is surfaced deliberately as
    /// this fatal error, with the state it found left untouched; the host
    /// treats it as fatal.
    StaleToken,
}

/// The frame channel: the single fixed-identity transport that carries
/// whole link-layer frames between this process and its peer, plus the
/// operator-visible report channel for non-fatal engine diagnostics.
pub trait Channel {
    /// Read one whole inbound frame, at most `NET_BUFSIZE` bytes.
    fn recv_frame(&mut self) -> Result<Vec<u8>, AdapterError>;

    /// Write one whole outbound frame atomically; returns the bytes written.
    fn send_frame(&mut self, buf: &[u8]) -> Result<usize, AdapterError>;

    /// Surface a non-fatal diagnostic string from the engine.
    fn report_guest_error(&mut self, msg: &str);
}

/// The native reactor boundary: registration and deregistration of event
/// sources under a token.  The wait primitive itself stays with the caller
/// of [`MioHandler::dispatch`], which hands the signaled events in.
pub trait Reactor {
    /// Register the frame channel under the reserved token `SOCKET`.
    fn register_channel(&mut self) -> Result<(), AdapterError>;

    /// Register a descriptor under a token, for the given native readiness
    /// bits, level-triggered.
    fn register_fd(&mut self, fd: i32, token: usize, ready_bits: u64) -> Result<(), AdapterError>;

    /// Deregister a descriptor registered by `register_fd`.
    fn deregister_fd(&mut self, fd: i32) -> Result<(), AdapterError>;

    /// Register a native one-shot timer source under a token, edge-triggered
    /// readable.  No deadline is set yet, so it does not fire.
    fn register_timer(&mut self, token: usize) -> Result<(), AdapterError>;

    /// Re-arm the timer source under the token to become ready after the
    /// given delay from now, in nanoseconds; the last call wins.  The
    /// adapter computes the delay from the engine's absolute deadline on
    /// its own monotonic clock before calling here.
    fn set_timer(&mut self, token: usize, delay_ns: u64);

    /// Deregister the timer source under the token.  Once this returns, the
    /// source delivers no further readiness.
    fn deregister_timer(&mut self, token: usize) -> Result<(), AdapterError>;
}

/// The adapter that lets the engine take part in the reactor's cycles.  It
/// owns the token table, the frame channel and the reactor handle, and the
/// process-start instant of the monotonic clock.
pub struct MioHandler<C, R> {
    tokens: slab::Slab<MyToken>,
    channel: C,
    reactor: R,
    start: std::time::Instant,
}

/// The packet-processing engine's pull hooks and callbacks, as the adapter
/// invokes them.  Every call hands the engine the adapter back, so that the
/// engine may reentrantly create, modify or free timers, register fresh
/// descriptor interests, look up observed readiness, or send frames while
/// the cycle is still in progress.
pub trait Engine<C, R> {
    /// One whole inbound frame, exactly as read from the channel; the
    /// dispatcher hands over no frame longer than `NET_BUFSIZE` bytes.
    fn input(&mut self, adapter: &mut MioHandler<C, R>, frame: &[u8]);

    /// The timer registered under `token` became ready; its action runs now,
    /// once.  The adapter does not re-arm it: without a further
    /// `timer_mod`, a one-shot fire is terminal.
    fn timer_fired(&mut self, adapter: &mut MioHandler<C, R>, token: usize);

    /// The event batch is dispatched; the engine may collect observed
    /// readiness through [`MioHandler::take_revents`].
    fn poll_completed(&mut self, adapter: &mut MioHandler<C, R>);

    /// The engine supplies this cycle's descriptor interests through
    /// [`MioHandler::add_interest`] and returns the timeout in milliseconds
    /// for the next wait; `0` asks for an indefinite wait.
    fn fill_interests(&mut self, adapter: &mut MioHandler<C, R>) -> u32;
}

/// The wait that a fill-phase timeout asks for: `0` means wait
/// indefinitely (no duration), any positive `k` means wait exactly `k`
/// milliseconds.  This inversion is deliberate and load-bearing.
pub fn wait_timeout(timeout_ms: u32) -> (r: Option<u64>)
    ensures
        timeout_ms == 0 ==> r is None,
        timeout_ms > 0 ==> r == Some(timeout_ms as u64),
{
    if timeout_ms == 0 {
        None
    } else {
        Some(timeout_ms as u64)
    }
}

/// Whether every live entry of a token table is a timer — that is, no
/// descriptor interest is pending.
pub open spec fn timers_only(m: Map<usize, MyToken>) -> bool {
    forall|k: usize| #[trigger] m.contains_key(k) ==> m[k] is Timer
}

/// The nanosecond reading assembled from a span's whole seconds and its
/// fractional nanoseconds.  Exact wherever the signed word can hold it;
/// beyond that — centuries past any process lifetime — it saturates, so a
/// reading is never negative.
pub fn ns_from_parts(secs: u64, sub: u32) -> (r: i64)
    ensures
        r >= 0,
        secs * 1_000_000_000 + sub <= i64::MAX ==> r == secs * 1_000_000_000 + sub,
        secs * 1_000_000_000 + sub > i64::MAX ==> r == i64::MAX,
{
    let total: u128 = (secs as u128) * 1_000_000_000 + (sub as u128);
    if total <= i64::MAX as u128 {
        total as i64
    } else {
        i64::MAX
    }
}

/// The relative delay until an absolute deadline on the adapter's clock: a
/// deadline at or before now asks for immediate readiness, a later one for
/// exactly the remaining nanoseconds.
pub fn delay_until(deadline_ns: i64, now_ns: i64) -> (r: u64)
    ensures
        deadline_ns <= now_ns ==> r == 0,
        deadline_ns > now_ns ==> r == deadline_ns - now_ns,
{
    if deadline_ns <= now_ns {
        0
    } else {
        ((deadline_ns as i128) - (now_ns as i128)) as u64
    }
}

/// The readiness the engine observes for a descriptor: the native readiness
/// translated to flags and intersected with the mask the engine asked for.
pub open spec fn observed_mask_spec(ready_bits: u64, requested: PollEvents) -> PollEvents {
    crate::poll_events::from_mio_ready_spec(ready_bits).intersect_spec(requested)
}

/// Law: the engine never observes an event it did not ask for.  Whatever
/// the native readiness word holds, every flag of the observed mask is also
/// set in the requested mask.
pub proof fn lemma_observed_mask_subset(ready_bits: u64, requested: PollEvents)
    ensures
        !requested.pe_in ==> !observed_mask_spec(ready_bits, requested).pe_in,
        !requested.pe_out ==> !observed_mask_spec(ready_bits, requested).pe_out,
        !requested.pe_hup ==> !observed_mask_spec(ready_bits, requested).pe_hup,
        !requested.pe_err ==> !observed_mask_spec(ready_bits, requested).pe_err,
        !requested.pe_pri ==> !observed_mask_spec(ready_bits, requested).pe_pri,
{
}

impl<C: Channel, R: Reactor> MioHandler<C, R> {
    /// The token table as a map from live token to entry.
    pub closed spec fn tokens_view(self) -> Map<usize, MyToken> {
        slab_view(self.tokens)
    }

    /// The origin of the monotonic clock: set once at construction, read
    /// only thereafter.
    pub closed spec fn clock_origin(self) -> std::time::Instant {
        self.start
    }

    /// The frame channel the adapter owns.
    pub closed spec fn channel_view(self) -> C {
        self.channel
    }

    /// The reactor handle the adapter owns.
    pub closed spec fn reactor_view(self) -> R {
        self.reactor
    }

    /// Make the adapter: registers the frame channel with the reactor under
    /// the reserved token and starts with an empty token table and a fresh
    /// clock origin.
    pub fn new(channel: C, reactor: R) -> (r: Result<MioHandler<C, R>, AdapterError>)
        ensures
            r matches Ok(h) ==> forall|k: usize| !(#[trigger] h.tokens_view().contains_key(k)),
            r is Err ==> r == Err::<MioHandler<C, R>, AdapterError>(AdapterError::Registration),
    {
        let mut reactor = reactor;
        if reactor.register_channel().is_err() {
            return Err(AdapterError::Registration);
        }
        Ok(MioHandler {
            tokens: slab_with_capacity(1024),
            channel,
            reactor,
            start: instant_now(),
        })
    }

    /// Nanoseconds of monotonic time since the adapter was made, never
    /// negative.  The engine uses this to compute the absolute deadlines
    /// it passes to `timer_mod`.  Which moment the clock is read at cannot
    /// be promised; the arithmetic that turns the drawn seconds and
    /// nanoseconds into one non-negative reading is the verified
    /// [`ns_from_parts`], which saturates centuries past any process
    /// lifetime.
    pub fn clock_get_ns(&self) -> (r: i64)
        ensures
            r >= 0,
    {
        let d = instant_elapsed(&self.start);
        let secs = duration_as_secs(&d);
        let sub = duration_subsec_nanos(&d);
        ns_from_parts(secs, sub)
    }

    /// Allocate a timer registration: a fresh token of kind Timer, with a
    /// native one-shot source registered under it.  No deadline is set, so
    /// it does not fire until `timer_mod` arms it.  A dynamic token never
    /// equals the reserved channel token: an arena slot that would collide
    /// with it is refused like a failed registration, and the table is
    /// rolled back, as it also is when the reactor refuses.
    pub fn timer_new(&mut self) -> (r: Result<usize, AdapterError>)
        ensures
            r matches Ok(tok) ==> tok != SOCKET && !old(self).tokens_view().contains_key(tok)
                && final(self).tokens_view() == old(self).tokens_view().insert(tok, MyToken::Timer),
            r is Err ==> r == Err::<usize, AdapterError>(AdapterError::Registration)
                && final(self).tokens_view() == old(self).tokens_view(),
            final(self).clock_origin() == old(self).clock_origin(),
            final(self).channel_view() == old(self).channel_view(),
    {
        let tok = slab_insert(&mut self.tokens, MyToken::Timer);
        if tok == SOCKET {
            let _ = slab_try_remove(&mut self.tokens, tok);
            proof {
                assert(old(self).tokens_view().insert(tok, MyToken::Timer).remove(tok)
                    =~= old(self).tokens_view());
            }
            return Err(AdapterError::Registration);
        }
        if self.reactor.register_timer(tok).is_err() {
            let _ = slab_try_remove(&mut self.tokens, tok);
            proof {
                assert(old(self).tokens_view().insert(tok, MyToken::Timer).remove(tok)
                    =~= old(self).tokens_view());
            }
            return Err(AdapterError::Registration);
        }
        Ok(tok)
    }

    /// Reset the deadline of a live timer; the last call wins.  The
    /// deadline is absolute, in nanoseconds on the adapter's monotonic
    /// clock; the remaining delay handed to the reactor is computed by the
    /// verified [`delay_until`] against the clock's present reading, so a
    /// deadline already passed asks for immediate readiness.  A token that
    /// names no live timer is stale: deliberately, the call returns the
    /// fatal [`AdapterError::StaleToken`] with the table untouched, where
    /// the unverified integration aborted the process.
    pub fn timer_mod(&mut self, token: usize, deadline_ns: i64) -> (r: Result<(), AdapterError>)
        ensures
            final(self).tokens_view() == old(self).tokens_view(),
            r is Ok <==> old(self).tokens_view().contains_key(token)
                && old(self).tokens_view()[token] is Timer,
            r is Err ==> r == Err::<(), AdapterError>(AdapterError::StaleToken),
            final(self).clock_origin() == old(self).clock_origin(),
            final(self).channel_view() == old(self).channel_view(),
    {
        match slab_get_copy(&self.tokens, token) {
            Some(MyToken::Timer) => {
                let now_ns = self.clock_get_ns();
                let delay_ns = delay_until(deadline_ns, now_ns);
                self.reactor.set_timer(token, delay_ns);
                Ok(())
            },
            _ => Err(AdapterError::StaleToken),
        }
    }

    /// Free a live timer: its native source is deregistered first, so that
    /// it cannot fire after this returns, and then its table slot is
    /// removed and the token is free for reuse.  A stale token changes
    /// nothing and deliberately returns the fatal
    /// [`AdapterError::StaleToken`] where the unverified integration
    /// aborted the process; a reactor refusal leaves the timer registered.
    pub fn timer_free(&mut self, token: usize) -> (r: Result<(), AdapterError>)
        ensures
            r is Ok ==> old(self).tokens_view().contains_key(token)
                && old(self).tokens_view()[token] is Timer
                && final(self).tokens_view() == old(self).tokens_view().remove(token),
            !(old(self).tokens_view().contains_key(token)
                && old(self).tokens_view()[token] is Timer) ==> r == Err::<(), AdapterError>(
                AdapterError::StaleToken,
            ),
            old(self).tokens_view().contains_key(token) && old(self).tokens_view()[token] is Timer
                ==> (r is Ok || r == Err::<(), AdapterError>(AdapterError::Registration)),
            r is Err ==> final(self).tokens_view() == old(self).tokens_view(),
            final(self).clock_origin() == old(self).clock_origin(),
            final(self).channel_view() == old(self).channel_view(),
    {
        match slab_get_copy(&self.tokens, token) {
            Some(MyToken::Timer) => {
                if self.reactor.deregister_timer(token).is_err() {
                    return Err(AdapterError::Registration);
                }
                let _ = slab_try_remove(&mut self.tokens, token);
                Ok(())
            },
            _ => Err(AdapterError::StaleToken),
        }
    }

    /// Send one outbound frame synchronously through the channel; returns
    /// the bytes written, or the transport failure, which the engine
    /// surfaces as a guest error rather than aborting.  The token table is
    /// untouched.
    pub fn send_packet(&mut self, buf: &[u8]) -> (r: Result<usize, AdapterError>)
        ensures
            final(self).tokens_view() == old(self).tokens_view(),
            final(self).clock_origin() == old(self).clock_origin(),
            final(self).reactor_view() == old(self).reactor_view(),
    {
        self.channel.send_frame(buf)
    }

    /// Surface a non-fatal diagnostic string from the engine on the report
    /// channel.  Never alters control flow or the token table.
    pub fn guest_error(&mut self, msg: &str)
        ensures
            final(self).tokens_view() == old(self).tokens_view(),
            final(self).clock_origin() == old(self).clock_origin(),
            final(self).reactor_view() == old(self).reactor_view(),
    {
        self.channel.report_guest_error(msg);
    }

    /// Diagnostic hook: the engine announces interest in a descriptor.  A
    /// deliberate no-op in this integration.
    pub fn register_poll_fd(&mut self, fd: i32)
        ensures
            *final(self) == *old(self),
    {
        let _ = fd;
    }

    /// Diagnostic hook: the engine withdraws interest in a descriptor.  A
    /// deliberate no-op in this integration.
    pub fn unregister_poll_fd(&mut self, fd: i32)
        ensures
            *final(self) == *old(self),
    {
        let _ = fd;
    }

    /// Diagnostic hook: the engine asks to be polled again.  A deliberate
    /// no-op in this integration.
    pub fn notify(&mut self)
        ensures
            *final(self) == *old(self),
    {
    }

    /// Record a fill-phase descriptor interest: a fresh token of kind Fd
    /// holding the descriptor and the requested mask, with nothing observed
    /// yet, registered with the reactor under that token.  A dynamic token
    /// never equals the reserved channel token: a colliding arena slot is
    /// refused like a failed registration, and the table is rolled back, as
    /// it also is when the reactor refuses.
    pub fn add_interest(&mut self, fd: i32, events: PollEvents) -> (r: Result<
        usize,
        AdapterError,
    >)
        ensures
            r matches Ok(tok) ==> tok != SOCKET && !old(self).tokens_view().contains_key(tok)
                && final(self).tokens_view() == old(self).tokens_view().insert(
                tok,
                MyToken::Fd(MyFd { fd, events, revents: None }),
            ),
            r is Err ==> r == Err::<usize, AdapterError>(AdapterError::Registration)
                && final(self).tokens_view() == old(self).tokens_view(),
            final(self).clock_origin() == old(self).clock_origin(),
            final(self).channel_view() == old(self).channel_view(),
    {
        let ready = to_mio_ready(events);
        let entry = MyFd::new(fd, events);
        let tok = slab_insert(&mut self.tokens, MyToken::Fd(entry));
        if tok == SOCKET {
            let _ = slab_try_remove(&mut self.tokens, tok);
            proof {
                assert(old(self).tokens_view().insert(
                    tok,
                    MyToken::Fd(MyFd { fd, events, revents: None }),
                ).remove(tok) =~= old(self).tokens_view());
            }
            return Err(AdapterError::Registration);
        }
        if self.reactor.register_fd(fd, tok, ready).is_err() {
            let _ = slab_try_remove(&mut self.tokens, tok);
            proof {
                assert(old(self).tokens_view().insert(
                    tok,
                    MyToken::Fd(MyFd { fd, events, revents: None }),
                ).remove(tok) =~= old(self).tokens_view());
            }
            return Err(AdapterError::Registration);
        }
        Ok(tok)
    }

    /// Record the readiness the reactor reported for a descriptor interest:
    /// the native word translated to flags and intersected with the mask
    /// the engine requested, so that the engine never observes an event it
    /// did not ask for.  The recorded mask replaces whatever was observed
    /// before; descriptor and requested mask stay as they are.  A token
    /// that names no live descriptor interest is stale.
    pub fn record_readiness(&mut self, token: usize, ready_bits: u64) -> (r: Result<
        (),
        AdapterError,
    >)
        ensures
            old(self).tokens_view().contains_key(token) && old(self).tokens_view()[token] is Fd
                ==> r is Ok && final(self).tokens_view() == old(self).tokens_view().insert(
                token,
                MyToken::Fd(
                    MyFd {
                        fd: old(self).tokens_view()[token]->Fd_0.fd,
                        events: old(self).tokens_view()[token]->Fd_0.events,
                        revents: Some(
                            observed_mask_spec(
                                ready_bits,
                                old(self).tokens_view()[token]->Fd_0.events,
                            ),
                        ),
                    },
                ),
            ),
            !(old(self).tokens_view().contains_key(token) && old(self).tokens_view()[token] is Fd)
                ==> r == Err::<(), AdapterError>(AdapterError::StaleToken)
                && final(self).tokens_view() == old(self).tokens_view(),
            final(self).clock_origin() == old(self).clock_origin(),
            final(self).channel_view() == old(self).channel_view(),
            final(self).reactor_view() == old(self).reactor_view(),
    {
        match slab_get_copy(&self.tokens, token) {
            Some(MyToken::Fd(f)) => {
                let observed = from_mio_ready(ready_bits).intersect(&f.events);
                slab_replace(
                    &mut self.tokens,
                    token,
                    MyToken::Fd(MyFd { fd: f.fd, events: f.events, revents: Some(observed) }),
                );
                Ok(())
            },
            _ => Err(AdapterError::StaleToken),
        }
    }

    /// Look up and consume the observed mask of a descriptor interest: the
    /// recorded mask, or the empty mask if none was recorded this cycle;
    /// the entry's observed mask is cleared either way.  A token that names
    /// no live descriptor interest is stale.
    pub fn take_revents(&mut self, token: usize) -> (r: Result<PollEvents, AdapterError>)
        ensures
            old(self).tokens_view().contains_key(token) && old(self).tokens_view()[token] is Fd
                ==> {
                &&& r == Ok::<PollEvents, AdapterError>(
                    if old(self).tokens_view()[token]->Fd_0.revents is Some {
                        old(self).tokens_view()[token]->Fd_0.revents->Some_0
                    } else {
                        PollEvents::empty_spec()
                    },
                )
                &&& final(self).tokens_view() == old(self).tokens_view().insert(
                    token,
                    MyToken::Fd(
                        MyFd {
                            fd: old(self).tokens_view()[token]->Fd_0.fd,
                            events: old(self).tokens_view()[token]->Fd_0.events,
                            revents: None,
                        },
                    ),
                )
            },
            !(old(self).tokens_view().contains_key(token) && old(self).tokens_view()[token] is Fd)
                ==> r == Err::<PollEvents, AdapterError>(AdapterError::StaleToken)
                && final(self).tokens_view() == old(self).tokens_view(),
            final(self).clock_origin() == old(self).clock_origin(),
            final(self).channel_view() == old(self).channel_view(),
            final(self).reactor_view() == old(self).reactor_view(),
    {
        match slab_get_copy(&self.tokens, token) {
            Some(MyToken::Fd(f)) => {
                let observed = match f.revents {
                    Some(ev) => ev,
                    None => PollEvents::empty(),
                };
                slab_replace(
                    &mut self.tokens,
                    token,
                    MyToken::Fd(MyFd { fd: f.fd, events: f.events, revents: None }),
                );
                Ok(observed)
            },
            _ => Err(AdapterError::StaleToken),
        }
    }

    /// One reactor cycle, driven by the event batch the caller's wait
    /// returned.
    ///
    /// First every descriptor interest left from the previous cycle is
    /// deregistered from the reactor.  Then each signaled event is
    /// dispatched in arrival order: the reserved token reads one frame and
    /// hands it to the engine, holding the channel to the `NET_BUFSIZE`
    /// ceiling — a longer answer is treated as a transport failure; a
    /// descriptor token records the observed
    /// readiness, masked to what was requested; a timer token fires the
    /// engine's timer action, which may reentrantly mutate the table.  The
    /// engine is then told the poll completed, every descriptor interest is
    /// torn out of the table, and the engine fills the fresh interest set
    /// and chooses the next timeout, which is returned under the timeout
    /// inversion of [`wait_timeout`].
    ///
    /// A transport or registration failure, or an event for a token that
    /// names no live entry, is fatal and ends the cycle at once.  Where no
    /// outside call can refuse — no descriptor interest is pending, so
    /// nothing is deregistered, and the batch is empty, so nothing is read
    /// or looked up — the cycle is owed success.  A first event whose token
    /// is neither the reserved one nor live fails as stale, except that a
    /// pending interest's failed deregistration may end the cycle first;
    /// with no interest pending it fails as stale exactly.
    #[verifier::loop_isolation(false)]
    pub fn dispatch<E: Engine<C, R>>(&mut self, engine: &mut E, events: &Vec<(usize, u64)>) -> (r:
        Result<Option<u64>, AdapterError>)
        ensures
            r matches Ok(w) ==> (w is None || (w matches Some(ms) && 1 <= ms && ms
                <= 0xffff_ffffu64)),
            timers_only(old(self).tokens_view()) && events@.len() == 0 ==> r is Ok,
            timers_only(old(self).tokens_view()) && events@.len() > 0 && events@[0].0 != SOCKET
                && !old(self).tokens_view().contains_key(events@[0].0) ==> r == Err::<
                Option<u64>,
                AdapterError,
            >(AdapterError::StaleToken),
            events@.len() > 0 && events@[0].0 != SOCKET && !old(self).tokens_view().contains_key(
                events@[0].0,
            ) ==> (r == Err::<Option<u64>, AdapterError>(AdapterError::StaleToken) || r == Err::<
                Option<u64>,
                AdapterError,
            >(AdapterError::Registration)),
    {
        let pairs = slab_pairs(&self.tokens);
        let mut i: usize = 0;
        while i < pairs.len()
            invariant
                i <= pairs@.len(),
                self.tokens == old(self).tokens,
            decreases pairs@.len() - i,
        {
            if let MyToken::Fd(f) = pairs[i].1 {
                proof {
                    // a descriptor entry is live, so the table is not
                    // timers-only and the success clauses are not owed
                    assert(slab_view(self.tokens).contains_key(pairs@[i as int].0));
                    assert(old(self).tokens_view()[pairs@[i as int].0] is Fd);
                }
                if self.reactor.deregister_fd(f.fd).is_err() {
                    return Err(AdapterError::Registration);
                }
            }
            i = i + 1;
        }
        let mut j: usize = 0;
        while j < events.len()
            invariant
                j <= events@.len(),
                j == 0 ==> self.tokens == old(self).tokens,
                j > 0 ==> !(events@.len() > 0 && events@[0].0 != SOCKET
                    && !old(self).tokens_view().contains_key(events@[0].0)),
            decreases events@.len() - j,
        {
            let tok: usize = events[j].0;
            let bits: u64 = events[j].1;
            if tok == SOCKET {
                let frame = match self.channel.recv_frame() {
                    Ok(f) => f,
                    Err(_) => {
                        return Err(AdapterError::Transport);
                    },
                };
                // the channel is held to the frame ceiling: a longer
                // answer is a broken transport, not a frame
                if frame.len() > NET_BUFSIZE {
                    return Err(AdapterError::Transport);
                }
                engine.input(self, frame.as_slice());
            } else {
                match slab_get_copy(&self.tokens, tok) {
                    Some(MyToken::Fd(_)) => {
                        // the entry is a live descriptor interest, so the
                        // recording cannot report a stale token
                        let _ = self.record_readiness(tok, bits);
                    },
                    Some(MyToken::Timer) => {
                        engine.timer_fired(self, tok);
                    },
                    None => {
                        return Err(AdapterError::StaleToken);
                    },
                }
            }
            j = j + 1;
        }
        engine.poll_completed(self);
        slab_retain_timers(&mut self.tokens);
        let timeout_ms = engine.fill_interests(self);
        Ok(wait_timeout(timeout_ms))
    }
}

} // verus!
