//! The consumer half of an encoding session. The handle itself carries no
//! state: its value is exclusivity — exactly one is created per session, so
//! there is a single reader — and it is the place the delivery operation
//! lives on. The dispatch ring is shared with the producer half and owned by
//! the embedder next to the two handles.

use vstd::prelude::*;

use crate::error::NvEncError;
use crate::event::EventObject;
use crate::ring::DispatchRing;
use crate::ring::RingError;
use crate::ring::Slot;
use crate::ring::SlotStage;

verus! {

/// Exclusive consumer handle of an encoding session.
#[derive(Debug, PartialEq, Eq, Structural)]
pub struct EncoderOutput {}

impl EncoderOutput {
    /// The one consumer handle of a session.
    pub fn new() -> EncoderOutput {
        EncoderOutput {  }
    }

    /// Deliver the next completed frame, in submission order: wait on the
    /// next slot's completion signal (here: `WouldBlock` until the embedder
    /// has seen the real signal), report `EndOfStream` for the terminal
    /// submission, and otherwise lock the output, run `consume_output` on it,
    /// and unlock/unmap whatever `consume_output` returned, releasing the
    /// slot. See [`DispatchRing::receive_output`] for the full contract; this
    /// handle restates its delivery clauses.
    pub fn wait_for_output<T, F: Fn(&Slot) -> Result<T, NvEncError>>(
        &self,
        ring: &mut DispatchRing,
        consume_output: F,
    ) -> (r: Result<T, RingError>)
        requires
            old(ring).wf(),
            forall|s: Slot| call_requires(consume_output, (&s,)),
        ensures
            final(ring).wf(),
            final(ring).submitted@ == old(ring).submitted@,
            final(ring).slots@.len() == old(ring).slots@.len(),
            ({
                let cap = old(ring).capacity_spec();
                let del = old(ring).delivered@.len() as int;
                let sub = old(ring).submitted@.len() as int;
                let i = del % cap;
                let tag = old(ring).submitted@[del];
                let locked = Slot {
                    stage: SlotStage::Locked,
                    event_obj: EventObject { signaled: false },
                    ..old(ring).slots@[i]
                };
                match r {
                    Ok(t) => {
                        &&& del < sub
                        &&& !tag.end_of_stream
                        &&& final(ring).delivered@ == old(ring).delivered@.push(tag)
                        &&& call_ensures(consume_output, (&locked,), Ok::<T, NvEncError>(t))
                        &&& final(ring).unlock_count@ == old(ring).unlock_count@ + 1
                        &&& final(ring).unmap_count@ == old(ring).unmap_count@ + 1
                        &&& final(ring).slots@[i].stage == SlotStage::Free
                    },
                    Err(RingError::Encoder(e)) => {
                        &&& del < sub
                        &&& final(ring).delivered@ == old(ring).delivered@.push(tag)
                        &&& final(ring).slots@[i].stage == SlotStage::Free
                        &&& (tag.end_of_stream ==> e == NvEncError::EndOfStream
                            && final(ring).lock_count@ == old(ring).lock_count@)
                        &&& (!tag.end_of_stream ==> call_ensures(
                            consume_output,
                            (&locked,),
                            Err::<T, NvEncError>(e),
                        ) && final(ring).unlock_count@ == old(ring).unlock_count@ + 1
                            && final(ring).unmap_count@ == old(ring).unmap_count@ + 1)
                    },
                    Err(RingError::WouldBlock) => {
                        &&& (del == sub || !old(ring).slots@[i].event_obj.signaled)
                        &&& final(ring).delivered@ == old(ring).delivered@
                        &&& final(ring).slots@ == old(ring).slots@
                    },
                    Err(RingError::Stalled) => old(ring).stalled && *final(ring) == *old(ring),
                    Err(RingError::CapacityViolation) => false,
                }
            }),
    {
        ring.receive_output(consume_output)
    }
}

} // verus!
