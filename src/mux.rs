use vstd::prelude::*;
use crate::codec::Frame;
use crate::opcode::Opcode;

verus! {

/// The most streams one connection may have in flight.
pub const MAX_STREAMS: u16 = 32767;

/// The stream reserved for server-pushed events.
pub const EVENT_STREAM: i16 = -1;

/// What one stream ID is doing.
#[derive(Debug, Clone, Copy, PartialEq, Eq, Structural)]
pub enum Slot {
    Free,
    /// Handed out by `allocate_stream`, no request registered yet.
    Reserved,
    /// A request waits on it; the value is the entry's generation.
    Pending(u64),
}

/// The completion handle of one pending request: its stream and the
/// generation that tells it apart from later users of the same stream.
#[derive(Debug, Clone, Copy, PartialEq, Eq, Structural)]
pub struct Ticket {
    pub stream: i16,
    pub generation: u64,
}

#[derive(Debug, Clone, Copy, PartialEq, Eq, Structural)]
pub enum MuxError {
    /// Every stream of the pool is in use.
    Busy,
    /// A request already waits on that stream.
    AlreadyPending,
    /// The stream lies outside the pool.
    InvalidStream,
    /// No fresh generation is left.
    GenerationsExhausted,
    /// A response arrived on a stream that no request waits on.
    UnsolicitedResponse(i16),
}

/// Where an inbound frame goes.
#[derive(Debug, Clone)]
pub enum Dispatch {
    /// A server-pushed event.
    Event(Frame),
    /// The response to the pending request of the ticket.
    Deliver(Ticket, Frame),
}

/// Stream-ID pool and pending-request table of one connection.
pub struct StreamMultiplexer {
    slots: Vec<Slot>,
    next_generation: u64,
}

/// The frame goes to the event channel.
pub open spec fn is_event(stream: i16, op: Opcode) -> bool {
    stream == EVENT_STREAM || op == Opcode::Event
}

impl StreamMultiplexer {
    pub closed spec fn slots(&self) -> Seq<Slot> {
        self.slots@
    }

    pub closed spec fn next_generation(&self) -> u64 {
        self.next_generation
    }

    /// The request of ticket `t` is pending.
    pub open spec fn holds(&self, t: Ticket) -> bool {
        0 <= t.stream < self.slots().len() && self.slots()[t.stream as int] == Slot::Pending(
            t.generation,
        )
    }

    pub open spec fn wf(&self) -> bool {
        &&& self.slots().len() <= MAX_STREAMS
        &&& forall|i: int|
            0 <= i < self.slots().len() && (#[trigger] self.slots()[i]) is Pending
                ==> self.slots()[i]->Pending_0 < self.next_generation()
        &&& forall|i: int, j: int|
            0 <= i < self.slots().len() && 0 <= j < self.slots().len()
                && (#[trigger] self.slots()[i]) is Pending && #[trigger] self.slots()[j]
                == self.slots()[i] ==> i == j
    }

    /// The lowest free stream, if any.
    pub open spec fn is_lowest_free(&self, i: int) -> bool {
        &&& 0 <= i < self.slots().len()
        &&& self.slots()[i] == Slot::Free
        &&& forall|j: int| 0 <= j < i ==> self.slots()[j] != Slot::Free
    }

    /// A pool of `max` streams, all free.
    pub fn new(max: u16) -> (r: StreamMultiplexer)
        requires
            max <= MAX_STREAMS,
        ensures
            r.wf(),
            r.slots() == Seq::new(max as nat, |_i: int| Slot::Free),
            r.next_generation() == 0,
    {
        let mut slots: Vec<Slot> = Vec::new();
        let mut i: u16 = 0;
        while i < max
            invariant
                i <= max,
                slots@ == Seq::new(i as nat, |_i: int| Slot::Free),
            decreases max - i,
        {
            slots.push(Slot::Free);
            i = i + 1;
            assert(slots@ =~= Seq::new(i as nat, |_i: int| Slot::Free));
        }
        StreamMultiplexer { slots, next_generation: 0 }
    }

    /// Number of streams in the pool.
    pub fn capacity(&self) -> (r: usize)
        ensures
            r == self.slots().len(),
    {
        self.slots.len()
    }

    /// Reserves the lowest free stream; `Busy` when none is free.
    pub fn allocate_stream(&mut self) -> (r: Result<i16, MuxError>)
        requires
            old(self).wf(),
        ensures
            final(self).wf(),
            final(self).next_generation() == old(self).next_generation(),
            match r {
                Ok(id) => old(self).is_lowest_free(id as int) && final(self).slots()
                    == old(self).slots().update(id as int, Slot::Reserved),
                Err(e) => e == MuxError::Busy && final(self).slots() == old(self).slots()
                    && forall|j: int|
                    0 <= j < old(self).slots().len() ==> old(self).slots()[j] != Slot::Free,
            },
    {
        let mut i: usize = 0;
        while i < self.slots.len()
            invariant
                i <= self.slots@.len(),
                self.wf(),
                self.slots@ == old(self).slots@,
                self.next_generation == old(self).next_generation,
                forall|j: int| 0 <= j < i ==> self.slots@[j] != Slot::Free,
            decreases self.slots@.len() - i,
        {
            if self.slots[i] == Slot::Free {
                self.slots.set(i, Slot::Reserved);
                return Ok(i as i16);
            }
            i = i + 1;
        }
        Err(MuxError::Busy)
    }

    /// Records that a request waits on `id`, under a fresh generation.
    pub fn register_pending(&mut self, id: i16) -> (r: Result<Ticket, MuxError>)
        requires
            old(self).wf(),
        ensures
            final(self).wf(),
            (id < 0 || id >= old(self).slots().len()) ==> r == Err::<Ticket, MuxError>(
                MuxError::InvalidStream,
            ),
            0 <= id < old(self).slots().len() ==> match old(self).slots()[id as int] {
                Slot::Pending(_) => r == Err::<Ticket, MuxError>(MuxError::AlreadyPending),
                _ => if old(self).next_generation() == u64::MAX {
                    r == Err::<Ticket, MuxError>(MuxError::GenerationsExhausted)
                } else {
                    r == Ok::<Ticket, MuxError>(
                        Ticket { stream: id, generation: old(self).next_generation() },
                    )
                },
            },
            r is Err ==> *final(self) == *old(self),
            r matches Ok(t) ==> final(self).slots() == old(self).slots().update(
                id as int,
                Slot::Pending(t.generation),
            ) && final(self).next_generation() == old(self).next_generation() + 1,
    {
        if id < 0 || id as usize >= self.slots.len() {
            return Err(MuxError::InvalidStream);
        }
        let i = id as usize;
        match self.slots[i] {
            Slot::Pending(_) => Err(MuxError::AlreadyPending),
            _ => {
                if self.next_generation == u64::MAX {
                    return Err(MuxError::GenerationsExhausted);
                }
                let g = self.next_generation;
                self.slots.set(i, Slot::Pending(g));
                self.next_generation = g + 1;
                Ok(Ticket { stream: id, generation: g })
            },
        }
    }

    /// Returns a reserved stream that no request was registered on to the
    /// pool. Any other stream is left as it is.
    pub fn cancel_reservation(&mut self, id: i16)
        requires
            old(self).wf(),
        ensures
            final(self).wf(),
            final(self).next_generation() == old(self).next_generation(),
            0 <= id < old(self).slots().len() && old(self).slots()[id as int] == Slot::Reserved
                ==> final(self).slots() == old(self).slots().update(id as int, Slot::Free),
            !(0 <= id < old(self).slots().len() && old(self).slots()[id as int] == Slot::Reserved)
                ==> final(self).slots() == old(self).slots(),
    {
        if id >= 0 && (id as usize) < self.slots.len() && self.slots[id as usize] == Slot::Reserved {
            self.slots.set(id as usize, Slot::Free);
        }
    }

    /// Cancels the request of `t`, freeing its stream. A ticket whose entry
    /// is already completed or cancelled changes nothing and gives `false`.
    pub fn cancel(&mut self, t: Ticket) -> (r: bool)
        requires
            old(self).wf(),
        ensures
            final(self).wf(),
            r == old(self).holds(t),
            final(self).next_generation() == old(self).next_generation(),
            r ==> final(self).slots() == old(self).slots().update(t.stream as int, Slot::Free),
            !r ==> final(self).slots() == old(self).slots(),
    {
        if t.stream < 0 || t.stream as usize >= self.slots.len() {
            return false;
        }
        let i = t.stream as usize;
        if self.slots[i] == Slot::Pending(t.generation) {
            self.slots.set(i, Slot::Free);
            true
        } else {
            false
        }
    }

    /// Routes an inbound frame: events to the event channel; a response to
    /// the request that waits on its stream, which frees the stream; any
    /// other response is a protocol violation.
    pub fn dispatch_inbound(&mut self, frame: Frame) -> (r: Result<Dispatch, MuxError>)
        requires
            old(self).wf(),
        ensures
            final(self).wf(),
            final(self).next_generation() == old(self).next_generation(),
            ({
                let s = frame.header.stream;
                if is_event(s, frame.header.opcode) {
                    r matches Ok(Dispatch::Event(f)) && f == frame && final(self).slots()
                        == old(self).slots()
                } else if 0 <= s < old(self).slots().len() && old(self).slots()[s as int] is Pending {
                    r matches Ok(Dispatch::Deliver(t, f)) && f == frame && t.stream == s
                        && old(self).holds(t) && final(self).slots() == old(self).slots().update(
                        s as int,
                        Slot::Free,
                    )
                } else {
                    r == Err::<Dispatch, MuxError>(MuxError::UnsolicitedResponse(s))
                        && final(self).slots() == old(self).slots()
                }
            }),
    {
        let s = frame.header.stream;
        if s == EVENT_STREAM || frame.header.opcode == Opcode::Event {
            return Ok(Dispatch::Event(frame));
        }
        if s < 0 || s as usize >= self.slots.len() {
            return Err(MuxError::UnsolicitedResponse(s));
        }
        let i = s as usize;
        match self.slots[i] {
            Slot::Pending(g) => {
                self.slots.set(i, Slot::Free);
                Ok(Dispatch::Deliver(Ticket { stream: s, generation: g }, frame))
            },
            _ => Err(MuxError::UnsolicitedResponse(s)),
        }
    }

    /// Completes every pending request: returns each pending ticket once and
    /// frees the whole pool.
    pub fn fail_all_pending(&mut self) -> (r: Vec<Ticket>)
        requires
            old(self).wf(),
        ensures
            final(self).wf(),
            final(self).next_generation() == old(self).next_generation(),
            final(self).slots() == Seq::new(old(self).slots().len(), |_i: int| Slot::Free),
            forall|t: Ticket| r@.contains(t) <==> old(self).holds(t),
            r@.no_duplicates(),
    {
        let ghost start = self.slots@;
        let mut out: Vec<Ticket> = Vec::new();
        let mut i: usize = 0;
        while i < self.slots.len()
            invariant
                i <= self.slots@.len(),
                self.slots@.len() == start.len(),
                start.len() <= MAX_STREAMS,
                start == old(self).slots@,
                self.next_generation == old(self).next_generation,
                forall|j: int| 0 <= j < i ==> self.slots@[j] == Slot::Free,
                forall|j: int| i <= j < start.len() ==> self.slots@[j] == start[j],
                forall|k: int| 0 <= k < out@.len() ==> 0 <= #[trigger] out@[k].stream < i,
                forall|k: int, l: int|
                    0 <= k < l < out@.len() ==> #[trigger] out@[k].stream < #[trigger] out@[l].stream,
                forall|t: Ticket|
                    out@.contains(t) <==> (0 <= t.stream < i && start[t.stream as int]
                        == Slot::Pending(t.generation)),
            decreases start.len() - i,
        {
            match self.slots[i] {
                Slot::Pending(g) => {
                    let t = Ticket { stream: i as i16, generation: g };
                    let ghost before = out@;
                    out.push(t);
                    assert forall|u: Ticket|
                        out@.contains(u) <==> (0 <= u.stream < i + 1 && start[u.stream as int]
                            == Slot::Pending(u.generation)) by {
                        if out@.contains(u) {
                            let k = choose|k: int| 0 <= k < out@.len() && out@[k] == u;
                            if k < before.len() {
                                assert(before[k] == u);
                                assert(before.contains(u));
                            } else {
                                assert(u == t);
                            }
                        }
                        if 0 <= u.stream < i && start[u.stream as int] == Slot::Pending(u.generation) {
                            assert(before.contains(u));
                            let k = choose|k: int| 0 <= k < before.len() && before[k] == u;
                            assert(out@[k] == u);
                        }
                        if u == t {
                            assert(out@[out@.len() - 1] == u);
                        }
                    }
                },
                _ => {
                    assert forall|u: Ticket|
                        out@.contains(u) <==> (0 <= u.stream < i + 1 && start[u.stream as int]
                            == Slot::Pending(u.generation)) by {
                        if out@.contains(u) {
                            let k = choose|k: int| 0 <= k < out@.len() && out@[k] == u;
                            assert(out@[k].stream < i);
                        }
                    }
                },
            }
            self.slots.set(i, Slot::Free);
            i = i + 1;
        }
        assert(self.slots@ =~= Seq::new(start.len(), |_i: int| Slot::Free));
        assert forall|k: int, l: int| 0 <= k < out@.len() && 0 <= l < out@.len() && k != l implies out@[k]
            != out@[l] by {
            if k < l {
                assert(out@[k].stream < out@[l].stream);
            } else {
                assert(out@[l].stream < out@[k].stream);
            }
        }
        out
    }
}

/// No two pending requests share a stream: in a well-formed multiplexer,
/// two tickets that are both pending on the same stream are the same
/// ticket, and two pending tickets that share a generation share a stream.
pub proof fn lemma_no_shared_stream(m: StreamMultiplexer, a: Ticket, b: Ticket)
    requires
        m.wf(),
        m.holds(a),
        m.holds(b),
    ensures
        a.stream == b.stream ==> a == b,
        a.generation == b.generation ==> a == b,
{
    if a.generation == b.generation {
        assert(m.slots()[a.stream as int] == Slot::Pending(a.generation));
        assert(m.slots()[b.stream as int] == Slot::Pending(a.generation));
    }
}

} // verus!
