use nvenc::DispatchRing;
use nvenc::FrameRequest;
use nvenc::NvEncError;
use nvenc::RingError;
use nvenc::Slot;
use nvenc::SlotStage;

fn accept(_i: usize) -> Result<(), NvEncError> {
    Ok(())
}

fn frame(input: u64, timestamp: u64) -> FrameRequest {
    FrameRequest {
        registered_input: input,
        timestamp,
        end_of_stream: false,
    }
}

fn eos() -> FrameRequest {
    FrameRequest {
        registered_input: 0,
        timestamp: 0,
        end_of_stream: true,
    }
}

fn take_bytes(s: &Slot) -> Result<Vec<u8>, NvEncError> {
    Ok(s.bitstream.clone())
}

#[test]
fn ordered_delivery_even_when_later_frame_completes_first() {
    // capacity 2: submit A and B; the simulated driver completes B first;
    // delivery must still be A then B
    let mut ring = DispatchRing::new(2);
    assert_eq!(ring.submit_frame(frame(10, 1), accept), Ok(0));
    assert_eq!(ring.submit_frame(frame(11, 2), accept), Ok(1));

    // a third submission blocks while both slots are outstanding
    assert_eq!(
        ring.submit_frame(frame(12, 3), accept),
        Err(RingError::WouldBlock)
    );

    // driver completes frame B (slot 1) first
    assert!(ring.set_completion(1, b"BB".to_vec()));

    // the consumer waits on slot 0, not on whichever finished first
    assert_eq!(
        ring.receive_output(take_bytes),
        Err(RingError::WouldBlock)
    );

    assert!(ring.set_completion(0, b"AA".to_vec()));
    assert_eq!(ring.receive_output(take_bytes), Ok(b"AA".to_vec()));
    assert_eq!(ring.receive_output(take_bytes), Ok(b"BB".to_vec()));

    // nothing further is in flight
    assert_eq!(
        ring.receive_output(take_bytes),
        Err(RingError::WouldBlock)
    );
}

#[test]
fn backpressure_releases_after_one_delivery() {
    let mut ring = DispatchRing::new(2);
    assert_eq!(ring.submit_frame(frame(10, 1), accept), Ok(0));
    assert_eq!(ring.submit_frame(frame(11, 2), accept), Ok(1));
    assert_eq!(ring.in_flight_len(), 2);
    assert_eq!(ring.acquire_slot_for_write(), None);
    assert_eq!(
        ring.submit_frame(frame(12, 3), accept),
        Err(RingError::WouldBlock)
    );
    // the blocked submission dropped nothing: both frames still in flight
    assert_eq!(ring.in_flight_len(), 2);

    assert!(ring.set_completion(0, b"A".to_vec()));
    assert_eq!(ring.receive_output(take_bytes), Ok(b"A".to_vec()));

    // one slot came back; the producer may continue, on that very slot
    assert_eq!(ring.acquire_slot_for_write(), Some(0));
    assert_eq!(ring.submit_frame(frame(12, 3), accept), Ok(0));
}

#[test]
fn slot_not_reacquired_while_occupied() {
    let mut ring = DispatchRing::new(2);
    assert!(matches!(ring.slots[0].stage, SlotStage::Free));
    assert_eq!(ring.submit_frame(frame(10, 1), accept), Ok(0));
    assert!(matches!(ring.slots[0].stage, SlotStage::Submitted));

    // round robin moves to slot 1 while slot 0 is occupied
    assert_eq!(ring.acquire_slot_for_write(), Some(1));
    assert_eq!(ring.submit_frame(frame(11, 2), accept), Ok(1));

    // both occupied: no acquisition at all
    assert_eq!(ring.acquire_slot_for_write(), None);

    // only delivery frees slot 0 for reacquisition
    assert!(ring.set_completion(0, Vec::new()));
    ring.receive_output(take_bytes).unwrap();
    assert!(matches!(ring.slots[0].stage, SlotStage::Free));
    assert_eq!(ring.acquire_slot_for_write(), Some(0));
}

#[test]
fn round_robin_follows_submission_count() {
    let mut ring = DispatchRing::new(3);
    for k in 0u64..7 {
        let expected = (k % 3) as usize;
        assert_eq!(ring.acquire_slot_for_write(), Some(expected));
        assert_eq!(ring.submit_frame(frame(k, k), accept), Ok(expected));
        assert!(ring.set_completion(expected, vec![k as u8]));
        assert_eq!(ring.receive_output(take_bytes), Ok(vec![k as u8]));
    }
}

#[test]
fn end_of_stream_reported_once_without_bitstream() {
    let mut ring = DispatchRing::new(2);
    assert_eq!(ring.submit_frame(eos(), accept), Ok(0));
    assert!(ring.set_completion(0, Vec::new()));
    let r: Result<Vec<u8>, RingError> = ring.receive_output(take_bytes);
    assert_eq!(r, Err(RingError::Encoder(NvEncError::EndOfStream)));
    // the terminal slot is back to free, and nothing more is delivered
    assert!(matches!(ring.slots[0].stage, SlotStage::Free));
    assert_eq!(
        ring.receive_output(take_bytes),
        Err(RingError::WouldBlock)
    );
}

#[test]
fn release_still_happens_when_consume_fails() {
    let mut ring = DispatchRing::new(2);
    assert_eq!(ring.submit_frame(frame(10, 1), accept), Ok(0));
    assert!(ring.set_completion(0, b"A".to_vec()));

    let failing = |_s: &Slot| -> Result<Vec<u8>, NvEncError> {
        Err(NvEncError::Sys(
            nvenc::NonZeroNvencStatus::NV_ENC_ERR_GENERIC,
        ))
    };
    assert_eq!(
        ring.receive_output(failing),
        Err(RingError::Encoder(NvEncError::Sys(
            nvenc::NonZeroNvencStatus::NV_ENC_ERR_GENERIC
        )))
    );

    // the slot was still unlocked, unmapped and freed
    assert!(matches!(ring.slots[0].stage, SlotStage::Free));
    assert!(ring.slots[0].mapped_input.is_none());

    // and the ring accepts a full round of new work
    assert_eq!(ring.submit_frame(frame(11, 2), accept), Ok(1));
    assert_eq!(ring.submit_frame(frame(12, 3), accept), Ok(0));
}

#[test]
fn failed_submission_rolls_the_slot_back() {
    let mut ring = DispatchRing::new(2);
    let refuse = |_i: usize| -> Result<(), NvEncError> {
        Err(NvEncError::Sys(
            nvenc::NonZeroNvencStatus::NV_ENC_ERR_ENCODER_BUSY,
        ))
    };
    assert_eq!(
        ring.submit_frame(frame(10, 1), refuse),
        Err(RingError::Encoder(NvEncError::Sys(
            nvenc::NonZeroNvencStatus::NV_ENC_ERR_ENCODER_BUSY
        )))
    );

    // nothing was published and the slot is clean
    assert!(matches!(ring.slots[0].stage, SlotStage::Free));
    assert!(ring.slots[0].mapped_input.is_none());
    assert_eq!(ring.in_flight_len(), 0);
    assert_eq!(
        ring.receive_output(take_bytes),
        Err(RingError::WouldBlock)
    );

    // the caller may retry on the same slot
    assert_eq!(ring.submit_frame(frame(10, 1), accept), Ok(0));
}

#[test]
fn wait_failure_stalls_the_pipeline() {
    let mut ring = DispatchRing::new(2);
    assert_eq!(ring.submit_frame(frame(10, 1), accept), Ok(0));
    assert_eq!(ring.take_next_for_read(), Some(0));
    // the embedder's wait on the completion signal failed
    ring.mark_wait_failed();
    assert_eq!(
        ring.submit_frame(frame(11, 2), accept),
        Err(RingError::Stalled)
    );
    assert_eq!(ring.receive_output(take_bytes), Err(RingError::Stalled));
    assert_eq!(ring.take_next_for_read(), None);
    assert_eq!(ring.acquire_slot_for_write(), None);
}

#[test]
fn completion_for_idle_slot_is_ignored() {
    let mut ring = DispatchRing::new(2);
    assert!(!ring.set_completion(0, b"A".to_vec()));
    assert!(!ring.set_completion(7, b"A".to_vec()));
    assert_eq!(ring.submit_frame(frame(10, 1), accept), Ok(0));
    assert!(!ring.set_completion(1, b"A".to_vec()));
    assert!(ring.set_completion(0, b"A".to_vec()));
}

#[test]
fn take_next_for_read_is_stable_until_delivery() {
    let mut ring = DispatchRing::new(2);
    assert_eq!(ring.take_next_for_read(), None);
    assert_eq!(ring.submit_frame(frame(10, 1), accept), Ok(0));
    assert_eq!(ring.submit_frame(frame(11, 2), accept), Ok(1));
    assert_eq!(ring.take_next_for_read(), Some(0));
    assert_eq!(ring.take_next_for_read(), Some(0));
    assert!(ring.set_completion(0, b"A".to_vec()));
    assert_eq!(ring.receive_output(take_bytes), Ok(b"A".to_vec()));
    assert_eq!(ring.take_next_for_read(), Some(1));
}

#[test]
fn capacity_and_in_flight_track_the_ring() {
    let mut ring = DispatchRing::new(8);
    assert_eq!(ring.capacity(), 8);
    assert_eq!(ring.in_flight_len(), 0);
    for k in 0u64..8 {
        assert_eq!(ring.submit_frame(frame(k, k), accept), Ok(k as usize));
        assert_eq!(ring.in_flight_len(), (k + 1) as usize);
    }
    assert_eq!(
        ring.submit_frame(frame(9, 9), accept),
        Err(RingError::WouldBlock)
    );
}

#[test]
fn capacity_one_ring_alternates_strictly() {
    let mut ring = DispatchRing::new(1);
    assert_eq!(ring.submit_frame(frame(10, 1), accept), Ok(0));
    assert_eq!(
        ring.submit_frame(frame(11, 2), accept),
        Err(RingError::WouldBlock)
    );
    assert!(ring.set_completion(0, b"A".to_vec()));
    assert_eq!(ring.receive_output(take_bytes), Ok(b"A".to_vec()));
    assert_eq!(ring.submit_frame(frame(11, 2), accept), Ok(0));
}

#[test]
fn gcd_of_common_sizes() {
    assert_eq!(nvenc::util::gcd(1920, 1080), 120);
    assert_eq!(nvenc::util::gcd(1280, 720), 80);
    assert_eq!(nvenc::util::gcd(7, 13), 1);
    assert_eq!(nvenc::util::gcd(0, 5), 5);
    assert_eq!(nvenc::util::gcd(5, 0), 5);
    assert_eq!(nvenc::util::gcd(12, 12), 12);
}
