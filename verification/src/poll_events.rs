//! The engine-side readiness bitset and its translation to and from the
//! reactor's native readiness flags.
//!
//! `PollEvents` is a value type of five independent flags (in, out, hup,
//! err, pri).  The reactor speaks a different vocabulary: a word in which
//! each of the five conditions occupies one fixed bit.  `to_mio_ready` and
//! `from_mio_ready` translate between the two, and the round-trip lemmas
//! state that no flag is lost in either direction.

use vstd::prelude::*;

verus! {

/// Native readiness bit for "readable".
pub const MIO_READABLE: u64 = 1;

/// Native readiness bit for "writable".
pub const MIO_WRITABLE: u64 = 2;

/// Native readiness bit for "error".
pub const MIO_ERROR: u64 = 4;

/// Native readiness bit for "hang-up".
pub const MIO_HUP: u64 = 8;

/// Native readiness bit for "priority".
pub const MIO_PRI: u64 = 64;

/// All five native readiness bits together.
pub const MIO_ALL: u64 = 79;

/// A set of five independent readiness flags, decoupled from the reactor's
/// native representation.  Equality is flag-set equality.
#[derive(Clone, Copy, Debug, PartialEq, Eq, Structural)]
pub struct PollEvents {
    pub pe_in: bool,
    pub pe_out: bool,
    pub pe_hup: bool,
    pub pe_err: bool,
    pub pe_pri: bool,
}

impl PollEvents {
    /// The empty flag set.
    pub open spec fn empty_spec() -> PollEvents {
        PollEvents { pe_in: false, pe_out: false, pe_hup: false, pe_err: false, pe_pri: false }
    }

    /// No flags set.
    pub fn empty() -> (r: PollEvents)
        ensures
            r == PollEvents::empty_spec(),
    {
        PollEvents { pe_in: false, pe_out: false, pe_hup: false, pe_err: false, pe_pri: false }
    }

    /// Only the "in" (readable) flag.
    pub fn poll_in() -> (r: PollEvents)
        ensures
            r == (PollEvents { pe_in: true, pe_out: false, pe_hup: false, pe_err: false, pe_pri: false }),
    {
        PollEvents { pe_in: true, pe_out: false, pe_hup: false, pe_err: false, pe_pri: false }
    }

    /// Only the "out" (writable) flag.
    pub fn poll_out() -> (r: PollEvents)
        ensures
            r == (PollEvents { pe_in: false, pe_out: true, pe_hup: false, pe_err: false, pe_pri: false }),
    {
        PollEvents { pe_in: false, pe_out: true, pe_hup: false, pe_err: false, pe_pri: false }
    }

    /// Only the "hup" (hang-up) flag.
    pub fn poll_hup() -> (r: PollEvents)
        ensures
            r == (PollEvents { pe_in: false, pe_out: false, pe_hup: true, pe_err: false, pe_pri: false }),
    {
        PollEvents { pe_in: false, pe_out: false, pe_hup: true, pe_err: false, pe_pri: false }
    }

    /// Only the "err" (error) flag.
    pub fn poll_err() -> (r: PollEvents)
        ensures
            r == (PollEvents { pe_in: false, pe_out: false, pe_hup: false, pe_err: true, pe_pri: false }),
    {
        PollEvents { pe_in: false, pe_out: false, pe_hup: false, pe_err: true, pe_pri: false }
    }

    /// Only the "pri" (priority) flag.
    pub fn poll_pri() -> (r: PollEvents)
        ensures
            r == (PollEvents { pe_in: false, pe_out: false, pe_hup: false, pe_err: false, pe_pri: true }),
    {
        PollEvents { pe_in: false, pe_out: false, pe_hup: false, pe_err: false, pe_pri: true }
    }

    pub fn has_in(&self) -> (r: bool)
        ensures
            r == self.pe_in,
    {
        self.pe_in
    }

    pub fn has_out(&self) -> (r: bool)
        ensures
            r == self.pe_out,
    {
        self.pe_out
    }

    pub fn has_hup(&self) -> (r: bool)
        ensures
            r == self.pe_hup,
    {
        self.pe_hup
    }

    pub fn has_err(&self) -> (r: bool)
        ensures
            r == self.pe_err,
    {
        self.pe_err
    }

    pub fn has_pri(&self) -> (r: bool)
        ensures
            r == self.pe_pri,
    {
        self.pe_pri
    }

    /// The flag-wise union of two flag sets.
    pub open spec fn union_spec(self, o: PollEvents) -> PollEvents {
        PollEvents {
            pe_in: self.pe_in || o.pe_in,
            pe_out: self.pe_out || o.pe_out,
            pe_hup: self.pe_hup || o.pe_hup,
            pe_err: self.pe_err || o.pe_err,
            pe_pri: self.pe_pri || o.pe_pri,
        }
    }

    /// The flag-wise intersection of two flag sets.
    pub open spec fn intersect_spec(self, o: PollEvents) -> PollEvents {
        PollEvents {
            pe_in: self.pe_in && o.pe_in,
            pe_out: self.pe_out && o.pe_out,
            pe_hup: self.pe_hup && o.pe_hup,
            pe_err: self.pe_err && o.pe_err,
            pe_pri: self.pe_pri && o.pe_pri,
        }
    }

    pub fn union(&self, o: &PollEvents) -> (r: PollEvents)
        ensures
            r == self.union_spec(*o),
    {
        PollEvents {
            pe_in: self.pe_in || o.pe_in,
            pe_out: self.pe_out || o.pe_out,
            pe_hup: self.pe_hup || o.pe_hup,
            pe_err: self.pe_err || o.pe_err,
            pe_pri: self.pe_pri || o.pe_pri,
        }
    }

    pub fn intersect(&self, o: &PollEvents) -> (r: PollEvents)
        ensures
            r == self.intersect_spec(*o),
    {
        PollEvents {
            pe_in: self.pe_in && o.pe_in,
            pe_out: self.pe_out && o.pe_out,
            pe_hup: self.pe_hup && o.pe_hup,
            pe_err: self.pe_err && o.pe_err,
            pe_pri: self.pe_pri && o.pe_pri,
        }
    }
}

/// The native readiness word that a flag set translates to: each set flag
/// contributes its own native bit.
pub open spec fn to_mio_ready_spec(events: PollEvents) -> u64 {
    ((if events.pe_in { MIO_READABLE } else { 0 })
        + (if events.pe_out { MIO_WRITABLE } else { 0 })
        + (if events.pe_hup { MIO_HUP } else { 0 })
        + (if events.pe_err { MIO_ERROR } else { 0 })
        + (if events.pe_pri { MIO_PRI } else { 0 })) as u64
}

/// The flag set read off a native readiness word: each flag is set exactly
/// when its native bit is.
pub open spec fn from_mio_ready_spec(ready: u64) -> PollEvents {
    PollEvents {
        pe_in: ready & MIO_READABLE != 0,
        pe_out: ready & MIO_WRITABLE != 0,
        pe_hup: ready & MIO_HUP != 0,
        pe_err: ready & MIO_ERROR != 0,
        pe_pri: ready & MIO_PRI != 0,
    }
}

/// Translate a flag set to the reactor's native readiness word.
pub fn to_mio_ready(events: PollEvents) -> (r: u64)
    ensures
        r == to_mio_ready_spec(events),
        r & !MIO_ALL == 0,
{
    let mut ready: u64 = 0;
    if events.has_in() {
        ready = ready + MIO_READABLE;
    }
    if events.has_out() {
        ready = ready + MIO_WRITABLE;
    }
    if events.has_hup() {
        ready = ready + MIO_HUP;
    }
    if events.has_err() {
        ready = ready + MIO_ERROR;
    }
    if events.has_pri() {
        ready = ready + MIO_PRI;
    }
    proof {
        lemma_flag_sum_bits(
            if events.pe_in { 1u64 } else { 0u64 },
            if events.pe_out { 2u64 } else { 0u64 },
            if events.pe_err { 4u64 } else { 0u64 },
            if events.pe_hup { 8u64 } else { 0u64 },
            if events.pe_pri { 64u64 } else { 0u64 },
        );
    }
    ready
}

/// Translate a native readiness word to a flag set.  Bits outside the five
/// known flags are ignored.
pub fn from_mio_ready(ready: u64) -> (r: PollEvents)
    ensures
        r == from_mio_ready_spec(ready),
{
    PollEvents {
        pe_in: ready & MIO_READABLE != 0,
        pe_out: ready & MIO_WRITABLE != 0,
        pe_hup: ready & MIO_HUP != 0,
        pe_err: ready & MIO_ERROR != 0,
        pe_pri: ready & MIO_PRI != 0,
    }
}

/// Bit-level facts about a word assembled from the five flag contributions:
/// each native bit of the sum reads back the contribution that produced it,
/// and no bit outside the five flags is ever set.
proof fn lemma_flag_sum_bits(c1: u64, c2: u64, c3: u64, c4: u64, c5: u64)
    by (bit_vector)
    requires
        c1 == 0 || c1 == 1,
        c2 == 0 || c2 == 2,
        c3 == 0 || c3 == 4,
        c4 == 0 || c4 == 8,
        c5 == 0 || c5 == 64,
    ensures
        (c1 + c2 + c3 + c4 + c5) as u64 & 1 != 0 <==> c1 == 1,
        (c1 + c2 + c3 + c4 + c5) as u64 & 2 != 0 <==> c2 == 2,
        (c1 + c2 + c3 + c4 + c5) as u64 & 4 != 0 <==> c3 == 4,
        (c1 + c2 + c3 + c4 + c5) as u64 & 8 != 0 <==> c4 == 8,
        (c1 + c2 + c3 + c4 + c5) as u64 & 64 != 0 <==> c5 == 64,
        (c1 + c2 + c3 + c4 + c5) as u64 & !79u64 == 0,
{
}

/// Bit-level facts about a word that holds no bits outside the five flags:
/// it is exactly the sum of its five flag bits, and each flag bit is either
/// zero or its own value.
proof fn lemma_flag_bits_decompose(ready: u64)
    by (bit_vector)
    requires
        ready & !79u64 == 0,
    ensures
        ready & 1 == 0 || ready & 1 == 1,
        ready & 2 == 0 || ready & 2 == 2,
        ready & 4 == 0 || ready & 4 == 4,
        ready & 8 == 0 || ready & 8 == 8,
        ready & 64 == 0 || ready & 64 == 64,
        ((ready & 1) + (ready & 2) + (ready & 4) + (ready & 8) + (ready & 64)) as u64 == ready,
{
}

/// Round trip, engine side: translating a flag set to the native word and
/// back yields the same flag set.  No combination of the five flags is
/// collapsed or lost; in particular "in" together with "pri" keeps exactly
/// those two flags and never gains "out".
pub proof fn lemma_to_from_round_trip(events: PollEvents)
    ensures
        from_mio_ready_spec(to_mio_ready_spec(events)) == events,
{
    lemma_flag_sum_bits(
        if events.pe_in { 1u64 } else { 0u64 },
        if events.pe_out { 2u64 } else { 0u64 },
        if events.pe_err { 4u64 } else { 0u64 },
        if events.pe_hup { 8u64 } else { 0u64 },
        if events.pe_pri { 64u64 } else { 0u64 },
    );
}

/// Round trip, reactor side: a native word made of the five flag bits alone
/// survives translation to a flag set and back unchanged.
pub proof fn lemma_from_to_round_trip(ready: u64)
    requires
        ready & !MIO_ALL == 0,
    ensures
        to_mio_ready_spec(from_mio_ready_spec(ready)) == ready,
{
    lemma_flag_bits_decompose(ready);
}

} // verus!
