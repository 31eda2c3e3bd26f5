//! The dispatch ring: a fixed-capacity array of reusable slots plus a FIFO
//! ordering channel of slot indices, coordinating a single producer and a
//! single consumer around an asynchronous encoding device.
//!
//! The producer acquires slots in strict round robin (submission `k` always
//! uses slot `k % capacity`), hands the populated slot to the external
//! submission call, and publishes the index into the channel only on success.
//! The consumer always services the front of the channel: it waits on that
//! exact slot's completion signal — never on "whichever finishes first" — so
//! output is delivered in submission order. A slot returns to `Free` only
//! after its output has been handed to the consumer and unlocked/unmapped,
//! which is what bounds the producer to `capacity` outstanding frames.
//!
//! Blocking is the embedder's business: operations that the design describes
//! as blocking return `RingError::WouldBlock` here, and the embedder retries
//! once the driver has signaled progress.
//!
//! Known limitation, inherited by design: if the consumer is abandoned while
//! slots remain submitted, those slots are never released or unmapped. The
//! producer's terminal end-of-stream submission exists so that a consumer
//! that keeps draining observes the end instead of waiting forever.

use vstd::arithmetic::div_mod::lemma_fundamental_div_mod;
use vstd::arithmetic::div_mod::lemma_mod_add_multiples_vanish;
use vstd::arithmetic::div_mod::lemma_mod_equivalence;
use vstd::arithmetic::div_mod::lemma_mod_multiples_vanish;
use vstd::arithmetic::div_mod::lemma_small_mod;
use vstd::prelude::*;

use crate::error::NvEncError;
use crate::event::EventObject;

verus! {

/// Lifecycle stage of a slot: `Free -> Submitted -> Locked -> Free`.
/// A slot is never both submitted and free; `Locked` is only held while the
/// consumer is inside its scoped access to the output.
#[derive(Debug, Copy, Clone, PartialEq, Eq, Structural)]
pub enum SlotStage {
    /// Eligible for the producer to bind a new input and submit.
    Free,
    /// Submitted to the hardware; its index is in flight.
    Submitted,
    /// The consumer holds the locked output for inspection.
    Locked,
}

/// What a submission is, seen from the histories: the terminal flag and the
/// caller's timestamp for the frame.
#[derive(Debug, Copy, Clone, PartialEq, Eq, Structural)]
pub struct FrameTag {
    pub end_of_stream: bool,
    pub timestamp: u64,
}

/// One reusable unit of in-flight state: input binding, output buffer,
/// completion signal and end-of-stream flag.
#[derive(Debug)]
pub struct Slot {
    /// Current lifecycle stage.
    pub stage: SlotStage,
    /// Set only on the terminal submission; such a slot carries no picture.
    pub end_of_stream: bool,
    /// Caller's timestamp for the frame occupying this slot.
    pub timestamp: u64,
    /// Registered input resource bound for the current submission
    /// (borrowed from the caller for one submission; `0` when none).
    pub registered_input: u64,
    /// Mapped view of the input resource, held from submission until the
    /// slot is released (unmapped).
    pub mapped_input: Option<u64>,
    /// Hardware bitstream buffer owned by this slot for the ring's lifetime.
    pub output_buffer: u64,
    /// Completion signal, set by the external driver.
    pub event_obj: EventObject,
    /// Compressed output deposited by the driver for the current submission.
    pub bitstream: Vec<u8>,
}

impl Slot {
    /// The submission this slot currently carries, as a history record.
    pub open spec fn tag(self) -> FrameTag {
        FrameTag { end_of_stream: self.end_of_stream, timestamp: self.timestamp }
    }
}

/// What the producer binds into a slot for one submission.
#[derive(Debug, Copy, Clone, PartialEq, Eq, Structural)]
pub struct FrameRequest {
    /// Registered input resource to encode (ignored for end-of-stream).
    pub registered_input: u64,
    /// Caller's timestamp for the frame.
    pub timestamp: u64,
    /// True only for the terminal submission, which carries no picture.
    pub end_of_stream: bool,
}

/// The history record a request gives rise to.
pub open spec fn tag_of(req: FrameRequest) -> FrameTag {
    FrameTag { end_of_stream: req.end_of_stream, timestamp: req.timestamp }
}

/// How a ring operation can fail.
#[derive(Debug, Copy, Clone, PartialEq, Eq, Structural)]
pub enum RingError {
    /// The operation would have to wait (backpressure on the producer side,
    /// no completed frame on the consumer side). Retry after progress.
    WouldBlock,
    /// The ordering channel was full at publish time. This signals a broken
    /// capacity invariant; it is fatal and never retried. A well-formed ring
    /// never produces it.
    CapacityViolation,
    /// A completion wait failed earlier; the pipeline is permanently stalled
    /// and must be torn down.
    Stalled,
    /// An encoder error, surfaced verbatim: a failed external submission,
    /// the caller's failed consume step, or `EndOfStream`.
    Encoder(NvEncError),
}

/// The dispatch ring itself. `submitted` and `delivered` record the whole
/// history of committed submissions and of deliveries to the consumer, in
/// order; `delivered` is always a prefix of `submitted`.
pub struct DispatchRing {
    /// The `capacity` slots, allocated once and only ever reused.
    pub slots: Vec<Slot>,
    /// FIFO ordering channel of published slot indices.
    pub queue: Vec<usize>,
    /// Round-robin write cursor; always `submitted.len() % capacity`.
    pub next_write: usize,
    /// Index already popped from the channel but not yet delivered: the
    /// consumer is waiting on (or about to service) this exact slot.
    pub pending_read: Option<usize>,
    /// Set after a completion-wait failure; no further work is accepted.
    pub stalled: bool,
    /// History of committed submissions.
    pub submitted: Ghost<Seq<FrameTag>>,
    /// History of deliveries to the consumer.
    pub delivered: Ghost<Seq<FrameTag>>,
    /// How many times an output buffer was locked.
    pub lock_count: Ghost<nat>,
    /// How many times an output buffer was unlocked.
    pub unlock_count: Ghost<nat>,
    /// How many times an input resource was unmapped.
    pub unmap_count: Ghost<nat>,
}

impl DispatchRing {
    /// Number of slots, fixed at construction.
    pub open spec fn capacity_spec(&self) -> int {
        self.slots@.len() as int
    }

    /// Submitted but not yet delivered frames.
    pub open spec fn in_flight_spec(&self) -> int {
        self.submitted@.len() - self.delivered@.len()
    }

    /// 1 if an index has been popped from the channel and awaits delivery.
    pub open spec fn pending_count(&self) -> int {
        if self.pending_read is Some {
            1int
        } else {
            0int
        }
    }

    /// Well-formedness: the protocol invariant tying the slot stages, the
    /// ordering channel, the round-robin cursor and the two histories
    /// together. Established by `new` and preserved by every operation.
    pub open spec fn wf(&self) -> bool {
        let cap = self.capacity_spec();
        let sub = self.submitted@.len() as int;
        let del = self.delivered@.len() as int;
        let p = self.pending_count();
        let q = self.queue@;
        &&& cap >= 1
        &&& del <= sub <= del + cap
        // delivery order is submission order
        &&& self.delivered@ == self.submitted@.take(del)
        // the channel holds exactly the published, not yet popped indices
        &&& q.len() == sub - del - p
        // round robin: the k-th queued index is slot (del + p + k) mod cap
        &&& forall|k: int|
            0 <= k < q.len() ==> (#[trigger] q[k]) < cap && q[k] as int == (del + p + k) % cap
        // a popped index is the slot of the oldest undelivered submission
        &&& match self.pending_read {
            Some(j) => (j as int) < cap && (j as int) == del % cap && self.slots@[j as int].tag()
                == self.submitted@[del],
            None => true,
        }
        &&& (self.next_write as int) < cap
        &&& (self.next_write as int) == sub % cap
        // a slot is Submitted exactly while its index is in flight
        &&& forall|j: int|
            0 <= j < cap ==> ((#[trigger] self.slots@[j].stage) == SlotStage::Submitted <==> (
            self.queue@.contains(j as usize) || self.pending_read == Some(j as usize)))
        // Locked never persists across an operation
        &&& forall|j: int| 0 <= j < cap ==> (#[trigger] self.slots@[j].stage) != SlotStage::Locked
        // each queued slot carries the matching submission
        &&& forall|k: int|
            0 <= k < q.len() ==> (#[trigger] self.slots@[q[k] as int].tag()) == self.submitted@[del
                + p + k]
    }
}

/// Releasing the slot the consumer was servicing — the channel untouched,
/// the pending index cleared, the delivery history extended by the oldest
/// undelivered submission — restores well-formedness.
proof fn lemma_release_restores_wf(pre: DispatchRing, post: DispatchRing, i: usize)
    requires
        pre.wf(),
        pre.pending_read == Some(i),
        post.slots@.len() == pre.slots@.len(),
        post.slots@[i as int].stage == SlotStage::Free,
        forall|j: int|
            0 <= j < pre.slots@.len() && j != i as int ==> post.slots@[j] == pre.slots@[j],
        post.queue@ == pre.queue@,
        post.next_write == pre.next_write,
        post.pending_read is None,
        post.submitted@ == pre.submitted@,
        post.delivered@ == pre.delivered@.push(pre.submitted@[pre.delivered@.len() as int]),
    ensures
        post.wf(),
{
    let cap = pre.capacity_spec();
    let sub = pre.submitted@.len() as int;
    let del = pre.delivered@.len() as int;
    let q = pre.queue@;
    assert(vstd::std_specs::vec::spec_vec_len(&pre.slots) == pre.slots@.len());
    assert(cap <= usize::MAX);
    assert(post.delivered@ =~= post.submitted@.take(del + 1));
    // the released slot sits in no channel position
    assert forall|k: int| 0 <= k < q.len() implies q[k] != i by {
        lemma_mod_window_distinct(del, del + 1 + k, cap);
    }
    assert forall|j: int| 0 <= j < cap implies ((#[trigger] post.slots@[j].stage)
        == SlotStage::Submitted <==> (post.queue@.contains(j as usize) || post.pending_read == Some(
        j as usize,
    ))) by {
        if j == i as int {
            if q.contains(i) {
                let k = choose|k: int| 0 <= k < q.len() && q[k] == i;
                assert(q[k] != i);
            }
        } else {
            assert(post.slots@[j] == pre.slots@[j]);
        }
    }
    assert forall|k: int| 0 <= k < q.len() implies (#[trigger] post.slots@[q[k] as int].tag())
        == post.submitted@[del + 1 + k] by {
        assert(q[k] != i);
        assert(post.slots@[q[k] as int] == pre.slots@[q[k] as int]);
    }
}

/// Two numbers less than `cap` apart have distinct remainders mod `cap`.
proof fn lemma_mod_window_distinct(a: int, b: int, cap: int)
    requires
        cap >= 1,
        a < b,
        b - a < cap,
    ensures
        a % cap != b % cap,
{
    lemma_small_mod((b - a) as nat, cap as nat);
    lemma_mod_equivalence(b, a, cap);
}

/// How the remainder mod `cap` steps when the dividend is incremented.
proof fn lemma_mod_step(a: int, cap: int)
    requires
        cap >= 1,
        a >= 0,
    ensures
        (a + 1) % cap == if a % cap + 1 == cap {
            0int
        } else {
            a % cap + 1
        },
{
    lemma_fundamental_div_mod(a, cap);
    let d = a / cap;
    if a % cap + 1 == cap {
        assert(a + 1 == cap * (d + 1)) by (nonlinear_arith)
            requires
                a == cap * d + a % cap,
                a % cap + 1 == cap,
        ;
        lemma_mod_multiples_vanish(d + 1, 0, cap);
        lemma_small_mod(0nat, cap as nat);
    } else {
        lemma_mod_multiples_vanish(d, a % cap + 1, cap);
        lemma_small_mod((a % cap + 1) as nat, cap as nat);
    }
}

/// Slot reuse safety and backpressure, in one statement: the round-robin
/// write target is `Free` exactly when fewer than `capacity` submissions are
/// undelivered — so a slot can never be reacquired for writing while its
/// previous occupant is still in flight, and the producer is blocked
/// precisely when `capacity` frames are outstanding.
pub proof fn lemma_write_slot_free_iff(r: &DispatchRing)
    requires
        r.wf(),
    ensures
        r.slots@[r.next_write as int].stage == SlotStage::Free <==> r.in_flight_spec()
            < r.capacity_spec(),
{
    let cap = r.capacity_spec();
    let sub = r.submitted@.len() as int;
    let del = r.delivered@.len() as int;
    let p = r.pending_count();
    let q = r.queue@;
    let nw = r.next_write as int;
    if sub - del == cap {
        // the write target still holds the oldest undelivered submission
        lemma_mod_add_multiples_vanish(del, cap);
        assert(sub % cap == del % cap);
        match r.pending_read {
            Some(j) => {
                assert(j as int == nw);
                assert(r.slots@[nw].stage == SlotStage::Submitted);
            },
            None => {
                assert(q[0] as int == (del + 0 + 0) % cap);
                assert(q[0] == nw as usize);
                assert(q.contains(nw as usize));
                assert(r.slots@[nw].stage == SlotStage::Submitted);
            },
        }
    } else {
        // fewer than capacity in flight: no in-flight index is the target
        assert(!q.contains(nw as usize)) by {
            if q.contains(nw as usize) {
                let k = choose|k: int| 0 <= k < q.len() && q[k] == nw as usize;
                let s = del + p + k;
                assert(s % cap == sub % cap);
                assert(s < sub);
                lemma_mod_window_distinct(s, sub, cap);
            }
        }
        if r.pending_read == Some(nw as usize) {
            assert(del % cap == sub % cap);
            lemma_mod_window_distinct(del, sub, cap);
        }
        assert(r.slots@[nw].stage != SlotStage::Submitted);
        assert(r.slots@[nw].stage != SlotStage::Locked);
    }
}

/// Ordering: what has been delivered is exactly the first deliveries-many
/// submissions, in submission order.
pub proof fn lemma_ordered_delivery(r: &DispatchRing)
    requires
        r.wf(),
    ensures
        r.delivered@ == r.submitted@.take(r.delivered@.len() as int),
        forall|k: int|
            0 <= k < r.delivered@.len() ==> #[trigger] r.delivered@[k] == r.submitted@[k],
{
    assert(forall|k: int|
        0 <= k < r.delivered@.len() ==> #[trigger] r.delivered@[k] == r.submitted@.take(
            r.delivered@.len() as int,
        )[k]);
}

/// Bounded depth: never more than `capacity` submissions are undelivered.
pub proof fn lemma_bounded_in_flight(r: &DispatchRing)
    requires
        r.wf(),
    ensures
        0 <= r.in_flight_spec() <= r.capacity_spec(),
{
}

impl DispatchRing {
    /// Build a ring of `capacity` slots, all `Free`, with empty histories.
    /// Slots are created once here and only ever reused.
    pub fn new(capacity: usize) -> (r: DispatchRing)
        requires
            capacity >= 1,
        ensures
            r.wf(),
            r.capacity_spec() == capacity,
            r.submitted@.len() == 0,
            r.delivered@.len() == 0,
            !r.stalled,
            r.lock_count@ == 0,
            r.unlock_count@ == 0,
            r.unmap_count@ == 0,
    {
        let mut slots: Vec<Slot> = Vec::new();
        let mut i: usize = 0;
        while i < capacity
            invariant
                i <= capacity,
                slots@.len() == i,
                forall|j: int| 0 <= j < i ==> (#[trigger] slots@[j].stage) == SlotStage::Free,
            decreases capacity - i,
        {
            slots.push(
                Slot {
                    stage: SlotStage::Free,
                    end_of_stream: false,
                    timestamp: 0,
                    registered_input: 0,
                    mapped_input: None,
                    output_buffer: i as u64,
                    event_obj: EventObject::new(),
                    bitstream: Vec::new(),
                },
            );
            i = i + 1;
        }
        let r = DispatchRing {
            slots,
            queue: Vec::new(),
            next_write: 0,
            pending_read: None,
            stalled: false,
            submitted: Ghost(Seq::empty()),
            delivered: Ghost(Seq::empty()),
            lock_count: Ghost(0nat),
            unlock_count: Ghost(0nat),
            unmap_count: Ghost(0nat),
        };
        proof {
            lemma_small_mod(0nat, capacity as nat);
            assert(r.delivered@ =~= r.submitted@.take(0));
        }
        r
    }

    /// Number of slots, fixed at construction.
    pub fn capacity(&self) -> (r: usize)
        ensures
            r == self.capacity_spec(),
    {
        self.slots.len()
    }

    /// How many submissions are outstanding (submitted, not yet delivered).
    pub fn in_flight_len(&self) -> (r: usize)
        requires
            self.wf(),
        ensures
            r == self.in_flight_spec(),
    {
        let cap = self.slots.len();
        match self.pending_read {
            Some(_) => {
                assert(self.queue@.len() < cap);
                self.queue.len() + 1
            },
            None => self.queue.len(),
        }
    }

    /// The slot the producer would write next — `Some` exactly when that
    /// slot is `Free`, i.e. when fewer than `capacity` submissions are
    /// outstanding; `None` is the backpressure case, where the design blocks.
    /// Selection is strict round robin: the slot is `submitted.len() % capacity`.
    pub fn acquire_slot_for_write(&self) -> (r: Option<usize>)
        requires
            self.wf(),
        ensures
            match r {
                Some(i) => {
                    &&& !self.stalled
                    &&& i == self.next_write
                    &&& i as int == self.submitted@.len() as int % self.capacity_spec()
                    &&& self.slots@[i as int].stage == SlotStage::Free
                    &&& self.in_flight_spec() < self.capacity_spec()
                },
                None => self.stalled || self.in_flight_spec() == self.capacity_spec(),
            },
    {
        proof {
            lemma_write_slot_free_iff(self);
        }
        if self.stalled {
            return None;
        }
        let i = self.next_write;
        match self.slots[i].stage {
            SlotStage::Free => Some(i),
            _ => None,
        }
    }

    /// Producer: submit one frame. Acquires the round-robin slot (failing
    /// with `WouldBlock` under backpressure, with no change to in-flight
    /// state), binds the request into it, hands the slot index to the
    /// external submission call `submit`, and publishes the index into the
    /// ordering channel only if that call accepted the work. If it refused,
    /// the slot is rolled back to `Free` and the error is surfaced; nothing
    /// is published.
    ///
    /// `submit` stands for the external hardware call: it is given the slot
    /// index and returns whether the hardware accepted the submission.
    pub fn submit_frame<F: Fn(usize) -> Result<(), NvEncError>>(
        &mut self,
        request: FrameRequest,
        submit: F,
    ) -> (r: Result<usize, RingError>)
        requires
            old(self).wf(),
            forall|i: usize|
                (i as int) < old(self).capacity_spec() ==> call_requires(submit, (i,)),
        ensures
            final(self).wf(),
            final(self).slots@.len() == old(self).slots@.len(),
            final(self).delivered@ == old(self).delivered@,
            final(self).stalled == old(self).stalled,
            final(self).pending_read == old(self).pending_read,
            final(self).lock_count@ == old(self).lock_count@,
            final(self).unlock_count@ == old(self).unlock_count@,
            final(self).unmap_count@ == old(self).unmap_count@,
            match r {
                Ok(i) => {
                    let cap = old(self).capacity_spec();
                    &&& !old(self).stalled
                    &&& old(self).in_flight_spec() < cap
                    &&& i == old(self).next_write
                    &&& i as int == old(self).submitted@.len() as int % cap
                    &&& old(self).slots@[i as int].stage == SlotStage::Free
                    &&& call_ensures(submit, (i,), Ok::<(), NvEncError>(()))
                    &&& final(self).submitted@ == old(self).submitted@.push(tag_of(request))
                    &&& final(self).slots@[i as int].stage == SlotStage::Submitted
                    &&& final(self).slots@[i as int].end_of_stream == request.end_of_stream
                    &&& final(self).slots@[i as int].timestamp == request.timestamp
                    &&& final(self).slots@[i as int].registered_input == (if request.end_of_stream {
                        0u64
                    } else {
                        request.registered_input
                    })
                    &&& final(self).slots@[i as int].mapped_input == (if request.end_of_stream {
                        None
                    } else {
                        Some(request.registered_input)
                    })
                    &&& final(self).slots@[i as int].output_buffer == old(self).slots@[
                        i as int
                    ].output_buffer
                    &&& !final(self).slots@[i as int].event_obj.signaled
                    &&& final(self).slots@[i as int].bitstream@.len() == 0
                    &&& forall|j: int|
                        0 <= j < cap && j != i as int ==> final(self).slots@[j] == old(self).slots@[j]
                },
                Err(RingError::WouldBlock) => {
                    &&& !old(self).stalled
                    &&& old(self).in_flight_spec() == old(self).capacity_spec()
                    &&& *final(self) == *old(self)
                },
                Err(RingError::Stalled) => old(self).stalled && *final(self) == *old(self),
                Err(RingError::Encoder(e)) => {
                    let i = old(self).next_write;
                    &&& !old(self).stalled
                    &&& old(self).in_flight_spec() < old(self).capacity_spec()
                    &&& call_ensures(submit, (i,), Err::<(), NvEncError>(e))
                    &&& final(self).submitted@ == old(self).submitted@
                    &&& final(self).queue@ == old(self).queue@
                    &&& final(self).next_write == old(self).next_write
                    &&& final(self).slots@[i as int].stage == SlotStage::Free
                    &&& final(self).slots@[i as int].mapped_input is None
                    &&& final(self).slots@[i as int].registered_input == 0
                    &&& !final(self).slots@[i as int].end_of_stream
                    &&& forall|j: int|
                        0 <= j < old(self).capacity_spec() && j != i as int ==> final(self).slots@[j]
                            == old(self).slots@[j]
                },
                Err(RingError::CapacityViolation) => false,
            },
    {
        proof {
            lemma_write_slot_free_iff(old(self));
        }
        if self.stalled {
            return Err(RingError::Stalled);
        }
        let i = self.next_write;
        match self.slots[i].stage {
            SlotStage::Free => (),
            _ => {
                return Err(RingError::WouldBlock);
            },
        }
        let ghost q0 = self.queue@;
        proof {
            // the acquired slot is in no in-flight position
            assert forall|k: int| 0 <= k < q0.len() implies q0[k] != i by {
                if q0[k] == i {
                    assert(q0.contains(i));
                }
            }
            assert(self.pending_read != Some(i));
        }
        // bind the request into the slot (the terminal submission carries no
        // picture, so nothing is mapped for it)
        if request.end_of_stream {
            self.slots[i].end_of_stream = true;
            self.slots[i].registered_input = 0;
            self.slots[i].mapped_input = None;
        } else {
            self.slots[i].end_of_stream = false;
            self.slots[i].registered_input = request.registered_input;
            self.slots[i].mapped_input = Some(request.registered_input);
        }
        self.slots[i].timestamp = request.timestamp;
        self.slots[i].event_obj.reset();
        self.slots[i].bitstream = Vec::new();
        // the external submission call
        let res = submit(i);
        match res {
            Err(e) => {
                // roll the slot back to a clean Free state; nothing published
                self.slots[i].end_of_stream = false;
                self.slots[i].registered_input = 0;
                self.slots[i].mapped_input = None;
                self.slots[i].timestamp = 0;
                Err(RingError::Encoder(e))
            },
            Ok(()) => {
                proof {
                    assert(res is Ok);
                    assert(res->Ok_0 == ());
                    assert(res == Ok::<(), NvEncError>(()));
                }
                // publish the index into the ordering channel; a full channel
                // here would mean the capacity invariant is broken
                if self.queue.len() >= self.slots.len() {
                    proof {
                        assert(false);
                    }
                    return Err(RingError::CapacityViolation);
                }
                self.slots[i].stage = SlotStage::Submitted;
                self.queue.push(i);
                let cap = self.slots.len();
                self.next_write = if i + 1 == cap {
                    0
                } else {
                    i + 1
                };
                self.submitted = Ghost(self.submitted@.push(tag_of(request)));
                proof {
                    let cap_i = cap as int;
                    let subs0 = old(self).submitted@;
                    let sub = subs0.len() as int;
                    let del = self.delivered@.len() as int;
                    let p = self.pending_count();
                    let q1 = self.queue@;
                    lemma_mod_step(sub, cap_i);
                    assert(self.delivered@ =~= self.submitted@.take(del));
                    assert(q1 == q0.push(i));
                    assert(q1[q0.len() as int] == i);
                    assert(self.queue@.contains(i));
                    assert forall|x: usize| q1.contains(x) implies (q0.contains(x) || x == i) by {
                        let k = choose|k: int| 0 <= k < q1.len() && q1[k] == x;
                        if k < q0.len() {
                            assert(q0[k] == x);
                        }
                    }
                    assert forall|x: usize| q0.contains(x) implies q1.contains(x) by {
                        let k = choose|k: int| 0 <= k < q0.len() && q0[k] == x;
                        assert(q1[k] == x);
                    }
                    // round-robin positions of the channel, including the new tail
                    assert forall|k: int| 0 <= k < q1.len() implies (#[trigger] q1[k]) < cap_i
                        && q1[k] as int == (del + p + k) % cap_i by {
                        if k == q0.len() {
                            assert(del + p + k == sub);
                            assert(q1[k] == i);
                        } else {
                            assert(q1[k] == q0[k]);
                        }
                    }
                    // the slot stages still mirror membership
                    assert forall|j: int| 0 <= j < cap_i implies ((#[trigger] self.slots@[j].stage)
                        == SlotStage::Submitted <==> (q1.contains(j as usize) || self.pending_read
                        == Some(j as usize))) by {
                        if j == i as int {
                            assert(q1.contains(i));
                        } else {
                            assert(self.slots@[j] == old(self).slots@[j]);
                        }
                    }
                    // each queued slot still carries the matching submission
                    assert forall|k: int| 0 <= k < q1.len() implies (#[trigger] self.slots@[
                        q1[k] as int
                    ].tag()) == self.submitted@[del + p + k] by {
                        if k == q0.len() {
                            assert(q1[k] == i);
                            assert(del + p + k == sub);
                        } else {
                            assert(q1[k] == q0[k]);
                            assert(q0[k] != i);
                        }
                    }
                }
                Ok(i)
            },
        }
    }

    /// Consumer: the slot index to service next — the front of the ordering
    /// channel. Pops it the first time; calling again before that frame has
    /// been delivered returns the same index, so the consumer always waits on
    /// this exact slot. `None` means nothing is in flight (the design blocks
    /// here until a frame is submitted) or the pipeline is stalled.
    pub fn take_next_for_read(&mut self) -> (r: Option<usize>)
        requires
            old(self).wf(),
        ensures
            final(self).wf(),
            final(self).slots@ == old(self).slots@,
            final(self).submitted@ == old(self).submitted@,
            final(self).delivered@ == old(self).delivered@,
            final(self).stalled == old(self).stalled,
            final(self).next_write == old(self).next_write,
            final(self).lock_count@ == old(self).lock_count@,
            final(self).unlock_count@ == old(self).unlock_count@,
            final(self).unmap_count@ == old(self).unmap_count@,
            match r {
                Some(i) => {
                    &&& !old(self).stalled
                    &&& old(self).in_flight_spec() > 0
                    &&& i as int == old(self).delivered@.len() as int % old(self).capacity_spec()
                    &&& final(self).pending_read == Some(i)
                },
                None => {
                    &&& old(self).stalled || old(self).in_flight_spec() == 0
                    &&& *final(self) == *old(self)
                },
            },
    {
        if self.stalled {
            return None;
        }
        match self.pending_read {
            Some(i) => Some(i),
            None => {
                if self.queue.len() == 0 {
                    return None;
                }
                let ghost q0 = self.queue@;
                let i = self.queue.remove(0);
                self.pending_read = Some(i);
                proof {
                    let cap = self.slots@.len() as int;
                    let sub = self.submitted@.len() as int;
                    let del = self.delivered@.len() as int;
                    let q1 = self.queue@;
                    assert(q1 =~= q0.subrange(1, q0.len() as int));
                    assert forall|x: usize| q1.contains(x) implies q0.contains(x) by {
                        let k = choose|k: int| 0 <= k < q1.len() && q1[k] == x;
                        assert(q0[k + 1] == x);
                    }
                    assert forall|x: usize| q0.contains(x) implies (q1.contains(x) || x == i) by {
                        let k = choose|k: int| 0 <= k < q0.len() && q0[k] == x;
                        if k > 0 {
                            assert(q1[k - 1] == x);
                        }
                    }
                    // the popped index sits in no remaining channel position
                    assert forall|k: int| 0 <= k < q1.len() implies q1[k] != i by {
                        lemma_mod_window_distinct(del, del + 1 + k, cap);
                    }
                    assert forall|j: int| 0 <= j < cap implies ((#[trigger] self.slots@[j].stage)
                        == SlotStage::Submitted <==> (q1.contains(j as usize) || self.pending_read
                        == Some(j as usize))) by {
                        if j == i as int {
                            assert(q0.contains(i));
                        }
                    }
                }
                Some(i)
            },
        }
    }

    /// Driver side: the external encoder finished the work submitted in slot
    /// `index`, deposited `bitstream` in its output buffer, and set its
    /// completion signal. Reports whether the slot was in fact awaiting
    /// completion; anything else is ignored.
    pub fn set_completion(&mut self, index: usize, bitstream: Vec<u8>) -> (r: bool)
        requires
            old(self).wf(),
        ensures
            final(self).wf(),
            final(self).queue@ == old(self).queue@,
            final(self).next_write == old(self).next_write,
            final(self).pending_read == old(self).pending_read,
            final(self).stalled == old(self).stalled,
            final(self).submitted@ == old(self).submitted@,
            final(self).delivered@ == old(self).delivered@,
            final(self).lock_count@ == old(self).lock_count@,
            final(self).unlock_count@ == old(self).unlock_count@,
            final(self).unmap_count@ == old(self).unmap_count@,
            r == (index < old(self).slots@.len() && old(self).slots@[index as int].stage
                == SlotStage::Submitted),
            r ==> final(self).slots@ == old(self).slots@.update(
                index as int,
                Slot {
                    event_obj: EventObject { signaled: true },
                    bitstream: bitstream,
                    ..old(self).slots@[index as int]
                },
            ),
            !r ==> *final(self) == *old(self),
    {
        if index >= self.slots.len() {
            return false;
        }
        match self.slots[index].stage {
            SlotStage::Submitted => {
                self.slots[index].event_obj.set();
                self.slots[index].bitstream = bitstream;
                proof {
                    assert(self.slots@ =~= old(self).slots@.update(
                        index as int,
                        Slot {
                            event_obj: EventObject { signaled: true },
                            bitstream: bitstream,
                            ..old(self).slots@[index as int]
                        },
                    ));
                    assert(self.slots@[index as int].stage == old(self).slots@[
                        index as int
                    ].stage);
                    assert(self.slots@[index as int].tag() == old(self).slots@[
                        index as int
                    ].tag());
                }
                true
            },
            _ => false,
        }
    }

    /// Consumer side: the wait on a completion signal failed (a signal
    /// error, not a timeout). The slot is left as it is — indeterminate and
    /// never reused — and the whole pipeline is marked stalled: no further
    /// submission or delivery is accepted; only teardown remains.
    pub fn mark_wait_failed(&mut self)
        requires
            old(self).wf(),
        ensures
            final(self).wf(),
            final(self).stalled,
            final(self).slots@ == old(self).slots@,
            final(self).queue@ == old(self).queue@,
            final(self).next_write == old(self).next_write,
            final(self).pending_read == old(self).pending_read,
            final(self).submitted@ == old(self).submitted@,
            final(self).delivered@ == old(self).delivered@,
            final(self).lock_count@ == old(self).lock_count@,
            final(self).unlock_count@ == old(self).unlock_count@,
            final(self).unmap_count@ == old(self).unmap_count@,
    {
        self.stalled = true;
    }

    /// Consumer: deliver the next frame, in submission order. Takes the next
    /// index from the ordering channel and consumes that exact slot's
    /// completion signal — if it is not set yet, returns `WouldBlock` and the
    /// embedder waits on the real event and retries. A terminal slot yields
    /// the distinguished `EndOfStream` error and no output lock is attempted
    /// for it. Otherwise the output is locked, handed to `consume`, and then
    /// unlocked and the input unmapped exactly once each, whether or not
    /// `consume` succeeded; only after that is the slot released to `Free`.
    ///
    /// `consume` stands for the caller's inspection of the locked bitstream.
    pub fn receive_output<T, F: Fn(&Slot) -> Result<T, NvEncError>>(&mut self, consume: F) -> (r:
        Result<T, RingError>)
        requires
            old(self).wf(),
            forall|s: Slot| call_requires(consume, (&s,)),
        ensures
            final(self).wf(),
            final(self).slots@.len() == old(self).slots@.len(),
            final(self).submitted@ == old(self).submitted@,
            final(self).stalled == old(self).stalled,
            final(self).next_write == old(self).next_write,
            ({
                let cap = old(self).capacity_spec();
                let del = old(self).delivered@.len() as int;
                let sub = old(self).submitted@.len() as int;
                let i = del % cap;
                let tag = old(self).submitted@[del];
                let locked = Slot {
                    stage: SlotStage::Locked,
                    event_obj: EventObject { signaled: false },
                    ..old(self).slots@[i]
                };
                match r {
                    Ok(t) => {
                        &&& !old(self).stalled
                        &&& del < sub
                        &&& old(self).slots@[i].event_obj.signaled
                        &&& !tag.end_of_stream
                        &&& final(self).delivered@ == old(self).delivered@.push(tag)
                        &&& call_ensures(consume, (&locked,), Ok::<T, NvEncError>(t))
                        &&& final(self).lock_count@ == old(self).lock_count@ + 1
                        &&& final(self).unlock_count@ == old(self).unlock_count@ + 1
                        &&& final(self).unmap_count@ == old(self).unmap_count@ + 1
                        &&& final(self).slots@[i].stage == SlotStage::Free
                        &&& final(self).slots@[i].mapped_input is None
                        &&& final(self).pending_read is None
                        &&& forall|j: int|
                            0 <= j < cap && j != i ==> final(self).slots@[j] == old(self).slots@[j]
                    },
                    Err(RingError::Encoder(e)) => {
                        &&& !old(self).stalled
                        &&& del < sub
                        &&& old(self).slots@[i].event_obj.signaled
                        &&& final(self).delivered@ == old(self).delivered@.push(tag)
                        &&& final(self).slots@[i].stage == SlotStage::Free
                        &&& final(self).slots@[i].mapped_input is None
                        &&& final(self).pending_read is None
                        &&& forall|j: int|
                            0 <= j < cap && j != i ==> final(self).slots@[j] == old(self).slots@[j]
                        &&& if tag.end_of_stream {
                            // the terminal submission is reported exactly once,
                            // and no lock touches its (absent) output
                            &&& e == NvEncError::EndOfStream
                            &&& final(self).lock_count@ == old(self).lock_count@
                            &&& final(self).unlock_count@ == old(self).unlock_count@
                            &&& final(self).unmap_count@ == old(self).unmap_count@
                        } else {
                            // the caller's consume step failed; unlock and unmap
                            // still ran, once each, and the slot is free again
                            &&& call_ensures(consume, (&locked,), Err::<T, NvEncError>(e))
                            &&& final(self).lock_count@ == old(self).lock_count@ + 1
                            &&& final(self).unlock_count@ == old(self).unlock_count@ + 1
                            &&& final(self).unmap_count@ == old(self).unmap_count@ + 1
                        }
                    },
                    Err(RingError::WouldBlock) => {
                        &&& !old(self).stalled
                        &&& (del == sub || !old(self).slots@[i].event_obj.signaled)
                        &&& final(self).slots@ == old(self).slots@
                        &&& final(self).delivered@ == old(self).delivered@
                        &&& final(self).lock_count@ == old(self).lock_count@
                        &&& final(self).unlock_count@ == old(self).unlock_count@
                        &&& final(self).unmap_count@ == old(self).unmap_count@
                    },
                    Err(RingError::Stalled) => old(self).stalled && *final(self) == *old(self),
                    Err(RingError::CapacityViolation) => false,
                }
            }),
    {
        if self.stalled {
            return Err(RingError::Stalled);
        }
        let next = self.take_next_for_read();
        let i = match next {
            None => {
                return Err(RingError::WouldBlock);
            },
            Some(i) => i,
        };
        assert(i < self.slots@.len());
        // wait on this exact slot's signal, never on whichever finishes first
        if !self.slots[i].event_obj.is_set() {
            return Err(RingError::WouldBlock);
        }
        self.slots[i].event_obj.reset();
        let ghost pre = *self;
        let ghost tag = self.submitted@[self.delivered@.len() as int];
        if self.slots[i].end_of_stream {
            // terminal submission: report end of stream; nothing to lock
            self.slots[i].stage = SlotStage::Free;
            self.slots[i].mapped_input = None;
            self.slots[i].end_of_stream = false;
            self.pending_read = None;
            self.delivered = Ghost(self.delivered@.push(tag));
            proof {
                lemma_release_restores_wf(pre, *self, i);
            }
            return Err(RingError::Encoder(NvEncError::EndOfStream));
        }
        // scoped acquisition: lock, hand to the caller, then always release
        self.slots[i].stage = SlotStage::Locked;
        self.lock_count = Ghost(self.lock_count@ + 1);
        let res = consume(&self.slots[i]);
        self.unlock_count = Ghost(self.unlock_count@ + 1);
        self.unmap_count = Ghost(self.unmap_count@ + 1);
        self.slots[i].mapped_input = None;
        self.slots[i].end_of_stream = false;
        self.slots[i].stage = SlotStage::Free;
        self.pending_read = None;
        self.delivered = Ghost(self.delivered@.push(tag));
        proof {
            lemma_release_restores_wf(pre, *self, i);
        }
        match res {
            Ok(t) => Ok(t),
            Err(e) => Err(RingError::Encoder(e)),
        }
    }
}

/// Slot reuse safety, spelled out over the histories: when the write target
/// is `Free`, every past submission that used this slot has already been
/// delivered (and hence released).
pub proof fn lemma_slot_reuse_safety(r: &DispatchRing)
    requires
        r.wf(),
        r.slots@[r.next_write as int].stage == SlotStage::Free,
    ensures
        forall|k: int|
            0 <= k < r.submitted@.len() && #[trigger] (k % r.capacity_spec()) == r.next_write as int
                ==> k < r.delivered@.len(),
{
    let cap = r.capacity_spec();
    let sub = r.submitted@.len() as int;
    let del = r.delivered@.len() as int;
    lemma_write_slot_free_iff(r);
    assert forall|k: int|
        0 <= k < sub && #[trigger] (k % cap) == r.next_write as int implies k < del by {
        if k >= del {
            lemma_mod_window_distinct(k, sub, cap);
        }
    }
}

} // verus!
