use resa::vulkan::frame_sync::{
    record_and_submit_steps, setup_submit_steps, FrameObjects, FrameSyncState, SlotState,
    SubmitStep, SyncError,
};

fn objects(i: u64) -> FrameObjects {
    FrameObjects {
        command_buffer: 10 + i,
        fence: 20 + i,
        image_available: 30 + i,
        render_finished: 40 + i,
    }
}

fn ring(n: u64) -> FrameSyncState {
    FrameSyncState::new((0..n).map(objects).collect()).unwrap()
}

#[test]
fn ring_needs_a_slot() {
    assert_eq!(FrameSyncState::new(vec![]), None);
}

#[test]
fn fresh_ring_is_idle() {
    let ring = ring(2);
    assert_eq!(ring.frames_in_flight(), 2);
    assert_eq!(ring.submitted_count(), 0);
    assert_eq!(ring.frame_index(), 0);
    assert_eq!(ring.slot_state(0), SlotState::Idle);
    assert_eq!(ring.slot_state(1), SlotState::Idle);
    assert!(!ring.must_wait());
    assert_eq!(ring.current_objects(), objects(0));
    assert_eq!(ring.objects(), &vec![objects(0), objects(1)]);
}

#[test]
fn frame_index_is_the_count_modulo_the_slots() {
    let mut ring = ring(3);
    for frame in 0u64..7 {
        assert_eq!(ring.frame_index() as u64, frame % 3);
        if ring.must_wait() {
            ring.fence_signaled(ring.frame_index());
        }
        assert_eq!(ring.begin_recording(), Ok(objects(frame % 3)));
        assert_eq!(ring.submit(), Ok(frame));
        assert_eq!(ring.submitted_count(), frame + 1);
    }
}

#[test]
fn frame_two_waits_for_the_fence_of_frame_zero() {
    let mut ring = ring(2);
    assert_eq!(ring.begin_recording(), Ok(objects(0)));
    assert_eq!(ring.submit(), Ok(0));
    assert_eq!(ring.begin_recording(), Ok(objects(1)));
    assert_eq!(ring.submit(), Ok(1));
    assert_eq!(ring.slot_state(0), SlotState::Pending(0));
    assert_eq!(ring.slot_state(1), SlotState::Pending(1));
    assert!(ring.must_wait());
    assert_eq!(ring.begin_recording(), Err(SyncError::FenceNotSignaled { frame: 0 }));
    assert_eq!(ring.slot_state(0), SlotState::Pending(0));
    // The fence of frame 1 does not help frame 2.
    ring.fence_signaled(1);
    assert_eq!(ring.begin_recording(), Err(SyncError::FenceNotSignaled { frame: 0 }));
    ring.fence_signaled(0);
    assert!(!ring.must_wait());
    assert_eq!(ring.begin_recording(), Ok(objects(0)));
    assert_eq!(ring.slot_state(0), SlotState::Recording(2));
    assert_eq!(ring.submit(), Ok(2));
    assert_eq!(ring.slot_state(0), SlotState::Pending(2));
    assert_eq!(ring.frame_index(), 1);
}

#[test]
fn never_more_frames_outstanding_than_slots() {
    let mut ring = ring(2);
    let mut begun = 0;
    for _ in 0..5 {
        if ring.begin_recording().is_ok() {
            begun += 1;
            assert!(ring.submit().is_ok());
        }
    }
    assert_eq!(begun, 2);
    assert_eq!(ring.submitted_count(), 2);
}

#[test]
fn recording_twice_is_refused() {
    let mut ring = ring(2);
    assert!(ring.begin_recording().is_ok());
    assert_eq!(ring.begin_recording(), Err(SyncError::AlreadyRecording));
    assert_eq!(ring.slot_state(0), SlotState::Recording(0));
}

#[test]
fn submitting_without_recording_is_refused() {
    let mut ring = ring(2);
    assert_eq!(ring.submit(), Err(SyncError::NotRecording));
    assert_eq!(ring.submitted_count(), 0);
    assert!(ring.begin_recording().is_ok());
    assert_eq!(ring.submit(), Ok(0));
    assert_eq!(ring.submit(), Err(SyncError::NotRecording));
}

#[test]
fn signal_leaves_idle_and_recording_slots_alone() {
    let mut ring = ring(2);
    ring.fence_signaled(0);
    assert_eq!(ring.slot_state(0), SlotState::Idle);
    assert!(ring.begin_recording().is_ok());
    ring.fence_signaled(0);
    assert_eq!(ring.slot_state(0), SlotState::Recording(0));
    ring.fence_signaled(7);
    assert_eq!(ring.slot_state(0), SlotState::Recording(0));
    assert_eq!(ring.slot_state(1), SlotState::Idle);
}

#[test]
fn single_slot_serialises_frames() {
    let mut ring = ring(1);
    assert!(ring.begin_recording().is_ok());
    assert_eq!(ring.submit(), Ok(0));
    assert_eq!(ring.begin_recording(), Err(SyncError::FenceNotSignaled { frame: 0 }));
    ring.fence_signaled(0);
    assert_eq!(ring.begin_recording(), Ok(objects(0)));
    assert_eq!(ring.submit(), Ok(1));
}

#[test]
fn ring_can_take_up_an_earlier_count() {
    let mut ring = FrameSyncState::starting_at(vec![objects(0), objects(1), objects(2)], 7).unwrap();
    assert_eq!(ring.submitted_count(), 7);
    assert_eq!(ring.frame_index(), 1);
    assert_eq!(ring.begin_recording(), Ok(objects(1)));
    assert_eq!(ring.slot_state(1), SlotState::Recording(7));
    assert_eq!(ring.submit(), Ok(7));
    assert_eq!(ring.frame_index(), 2);
    assert_eq!(FrameSyncState::starting_at(vec![], 7), None);
}

#[test]
fn frame_counter_does_not_wrap() {
    let mut ring = FrameSyncState::starting_at(vec![objects(0), objects(1)], u64::MAX).unwrap();
    assert_eq!(ring.frame_index(), 1);
    assert!(ring.begin_recording().is_ok());
    assert_eq!(ring.submit(), Err(SyncError::CounterExhausted));
    assert_eq!(ring.submitted_count(), u64::MAX);
    assert_eq!(ring.slot_state(1), SlotState::Recording(u64::MAX));
}

#[test]
fn steps_of_a_frame_submission() {
    assert_eq!(
        record_and_submit_steps(),
        vec![
            SubmitStep::WaitForFence,
            SubmitStep::ResetFence,
            SubmitStep::ResetCommandBuffer,
            SubmitStep::BeginRecording,
            SubmitStep::Record,
            SubmitStep::EndRecording,
            SubmitStep::Submit,
        ]
    );
}

#[test]
fn steps_of_a_setup_submission() {
    assert_eq!(
        setup_submit_steps(),
        vec![
            SubmitStep::ResetCommandBuffer,
            SubmitStep::BeginRecording,
            SubmitStep::Record,
            SubmitStep::EndRecording,
            SubmitStep::Submit,
            SubmitStep::WaitForFence,
        ]
    );
}
