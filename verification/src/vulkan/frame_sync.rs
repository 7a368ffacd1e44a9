//! Frames in flight: a ring of slots, each with the objects of one frame,
//! and the protocol by which the host reuses a slot only after the device
//! is done with it.

use vstd::prelude::*;

verus! {

/// What a slot of the ring is doing.
#[derive(Clone, Copy, Debug, PartialEq, Eq, Structural)]
pub enum SlotState {
    /// The fence of the slot is signalled: nothing of the slot is in use.
    Idle,
    /// The host records the frame of this number into the slot.
    Recording(u64),
    /// The frame of this number was submitted from the slot and its fence
    /// has not been seen signalled since.
    Pending(u64),
}

/// The objects of one slot, by their handles.
#[derive(Clone, Copy, Debug, PartialEq, Eq, Structural)]
pub struct FrameObjects {
    pub command_buffer: u64,
    /// Signalled when the work of the slot is complete.
    pub fence: u64,
    /// Signalled when the image to render to is available.
    pub image_available: u64,
    /// Signalled when rendering has finished.
    pub render_finished: u64,
}

/// Why a step of the protocol was refused.
#[derive(Clone, Copy, Debug, PartialEq, Eq, Structural)]
pub enum SyncError {
    /// The frame that was submitted from the slot is not known to be
    /// complete: the host has to wait for its fence first.
    FenceNotSignaled { frame: u64 },
    /// The slot is being recorded into already.
    AlreadyRecording,
    /// No frame is being recorded.
    NotRecording,
    /// The frame counter has reached its end.
    CounterExhausted,
}

/// One step of a submission, as the host performs it.
#[derive(Clone, Copy, Debug, PartialEq, Eq, Structural)]
pub enum SubmitStep {
    WaitForFence,
    ResetFence,
    ResetCommandBuffer,
    /// Begin recording a command buffer that is submitted once.
    BeginRecording,
    /// Run what the caller wants recorded.
    Record,
    EndRecording,
    /// Hand the command buffer to the graphics queue; the fence is
    /// signalled when its work is complete.
    Submit,
}

/// The ring as a mathematical value: the state of each slot and the number
/// of frames submitted so far.
pub ghost struct FrameRing {
    pub slots: Seq<SlotState>,
    pub submitted: int,
}

impl FrameRing {
    /// The number of slots: the bound on the frames in flight.
    pub open spec fn frames_in_flight(self) -> int {
        self.slots.len() as int
    }

    /// The slot of a frame.
    pub open spec fn slot_of(self, frame: int) -> int {
        frame % self.frames_in_flight()
    }

    /// The slot of the frame that is next to be submitted.
    pub open spec fn current_slot(self) -> int {
        self.slot_of(self.submitted)
    }

    /// Whether the slot at `i` holds what the protocol lets it hold: a
    /// pending frame is the last one submitted from its slot, and only the
    /// next frame is recorded.
    pub open spec fn slot_consistent(self, i: int) -> bool {
        match self.slots[i] {
            SlotState::Idle => true,
            SlotState::Recording(frame) => frame == self.submitted && self.slot_of(frame as int)
                == i,
            SlotState::Pending(frame) => {
                &&& self.submitted - self.frames_in_flight() <= frame < self.submitted
                &&& self.slot_of(frame as int) == i
            },
        }
    }

    /// Whether the ring is one that the protocol can reach.
    pub open spec fn well_formed(self) -> bool {
        &&& self.frames_in_flight() > 0
        &&& 0 <= self.submitted <= u64::MAX
        &&& forall|i: int| 0 <= i < self.slots.len() ==> self.slot_consistent(i)
    }

    /// Whether the work of `frame` is outstanding: it is being recorded, or
    /// it was submitted and is not known to be complete.
    pub open spec fn is_outstanding(self, frame: int) -> bool {
        exists|i: int|
            0 <= i < self.slots.len() && (#[trigger] self.slots[i] == SlotState::Recording(
                frame as u64,
            ) || self.slots[i] == SlotState::Pending(frame as u64)) && 0 <= frame <= u64::MAX
    }

    /// A ring of `n` idle slots with no frame submitted.
    pub open spec fn fresh(n: nat) -> FrameRing {
        FrameRing { slots: Seq::new(n, |i: int| SlotState::Idle), submitted: 0 }
    }

    /// A ring of `n` idle slots after `submitted` frames.
    pub open spec fn idle(n: nat, submitted: int) -> FrameRing {
        FrameRing { slots: Seq::new(n, |i: int| SlotState::Idle), submitted }
    }

    /// The ring after the host has seen the fence of slot `i` signalled.
    pub open spec fn signaled(self, i: int) -> FrameRing {
        if 0 <= i < self.slots.len() && self.slots[i] is Pending {
            FrameRing { slots: self.slots.update(i, SlotState::Idle), ..self }
        } else {
            self
        }
    }

    /// The outcome of beginning to record the next frame.
    pub open spec fn begun(self) -> Result<FrameRing, SyncError> {
        match self.slots[self.current_slot()] {
            SlotState::Idle => Ok(
                FrameRing {
                    slots: self.slots.update(
                        self.current_slot(),
                        SlotState::Recording(self.submitted as u64),
                    ),
                    ..self
                },
            ),
            SlotState::Recording(_) => Err(SyncError::AlreadyRecording),
            SlotState::Pending(frame) => Err(SyncError::FenceNotSignaled { frame }),
        }
    }

    /// The outcome of submitting the frame that is being recorded.
    pub open spec fn submitted_next(self) -> Result<FrameRing, SyncError> {
        match self.slots[self.current_slot()] {
            SlotState::Recording(frame) => if self.submitted == u64::MAX {
                Err(SyncError::CounterExhausted)
            } else {
                Ok(
                    FrameRing {
                        slots: self.slots.update(self.current_slot(), SlotState::Pending(frame)),
                        submitted: self.submitted + 1,
                    },
                )
            },
            _ => Err(SyncError::NotRecording),
        }
    }
}

/// The ring of frame slots and the count of submitted frames.
#[derive(Debug, PartialEq, Eq)]
pub struct FrameSyncState {
    slots: Vec<SlotState>,
    objects: Vec<FrameObjects>,
    submitted_count: u64,
}

impl View for FrameSyncState {
    type V = FrameRing;

    closed spec fn view(&self) -> FrameRing {
        FrameRing { slots: self.slots@, submitted: self.submitted_count as int }
    }
}

impl FrameSyncState {
    /// Whether the state is one that `new` and the steps of the protocol
    /// make: a well-formed ring with the objects of each slot.
    pub closed spec fn well_formed(&self) -> bool {
        &&& self.objects.len() == self.slots.len()
        &&& self@.well_formed()
    }

    /// The objects of each slot, in the order of the slots.
    pub closed spec fn slot_objects(&self) -> Seq<FrameObjects> {
        self.objects@
    }

    /// A ring with one slot for each entry of `objects`, every slot idle, as
    /// it is when every fence was created signalled. There is no ring
    /// without slots.
    pub fn new(objects: Vec<FrameObjects>) -> (ring: Option<FrameSyncState>)
        ensures
            objects.len() == 0 ==> ring is None,
            objects.len() > 0 ==> ring is Some && ring->Some_0.well_formed() && ring->Some_0@
                == FrameRing::fresh(objects.len() as nat) && ring->Some_0.slot_objects()
                == objects@,
    {
        FrameSyncState::starting_at(objects, 0)
    }

    /// A ring like that of `new`, for a renderer that has submitted
    /// `submitted_count` frames before and has seen them all complete.
    pub fn starting_at(objects: Vec<FrameObjects>, submitted_count: u64) -> (ring: Option<
        FrameSyncState,
    >)
        ensures
            objects.len() == 0 ==> ring is None,
            objects.len() > 0 ==> ring is Some && ring->Some_0.well_formed() && ring->Some_0@
                == FrameRing::idle(objects.len() as nat, submitted_count as int)
                && ring->Some_0.slot_objects() == objects@,
    {
        let n = objects.len();
        if n == 0 {
            return None;
        }
        let mut slots: Vec<SlotState> = Vec::new();
        let mut i: usize = 0;
        while i < n
            invariant
                i <= n,
                slots.len() == i,
                forall|j: int| 0 <= j < i ==> slots@[j] == SlotState::Idle,
            decreases n - i,
        {
            slots.push(SlotState::Idle);
            i += 1;
        }
        let ghost ring = FrameRing::idle(n as nat, submitted_count as int);
        assert(slots@ =~= ring.slots);
        assert forall|k: int| 0 <= k < ring.slots.len() implies ring.slot_consistent(k) by {}
        Some(FrameSyncState { slots, objects, submitted_count })
    }

    /// The objects of each slot, in the order of the slots.
    pub fn objects(&self) -> (objects: &Vec<FrameObjects>)
        ensures
            objects@ == self.slot_objects(),
    {
        &self.objects
    }

    /// The number of slots.
    pub fn frames_in_flight(&self) -> (n: usize)
        requires
            self.well_formed(),
        ensures
            n == self@.frames_in_flight(),
            n > 0,
            self@.well_formed(),
            self.slot_objects().len() == n,
    {
        self.slots.len()
    }

    /// The number of frames submitted so far.
    pub fn submitted_count(&self) -> (count: u64)
        ensures
            count == self@.submitted,
    {
        self.submitted_count
    }

    /// The slot of the frame that is next to be submitted: the count of
    /// submitted frames modulo the number of slots.
    pub fn frame_index(&self) -> (index: usize)
        requires
            self.well_formed(),
        ensures
            index == self@.current_slot(),
            index < self@.frames_in_flight(),
    {
        let n = self.slots.len() as u64;
        (self.submitted_count % n) as usize
    }

    /// The state of the slot at `index`.
    pub fn slot_state(&self, index: usize) -> (state: SlotState)
        requires
            index < self@.frames_in_flight(),
        ensures
            state == self@.slots[index as int],
    {
        self.slots[index]
    }

    /// The objects of the current slot.
    pub fn current_objects(&self) -> (objects: FrameObjects)
        requires
            self.well_formed(),
        ensures
            objects == self.slot_objects()[self@.current_slot()],
    {
        let index = self.frame_index();
        self.objects[index]
    }

    /// Whether the host has to wait for the fence of the current slot
    /// before it may record the next frame.
    pub fn must_wait(&self) -> (wait: bool)
        requires
            self.well_formed(),
        ensures
            wait == (self@.slots[self@.current_slot()] is Pending),
    {
        let index = self.frame_index();
        match self.slots[index] {
            SlotState::Pending(_) => true,
            _ => false,
        }
    }

    /// Takes note that the fence of the slot at `index` was seen signalled:
    /// a frame pending there is complete. Anything else is left as it is.
    pub fn fence_signaled(&mut self, index: usize)
        requires
            old(self).well_formed(),
        ensures
            final(self).well_formed(),
            final(self)@ == old(self)@.signaled(index as int),
            final(self).slot_objects() == old(self).slot_objects(),
    {
        proof {
            lemma_protocol_keeps_ring_well_formed(self@, 1, index as int);
        }
        if index < self.slots.len() {
            match self.slots[index] {
                SlotState::Pending(_) => {
                    self.slots.set(index, SlotState::Idle);
                },
                _ => {},
            }
        }
    }

    /// Begins to record the next frame into the current slot and hands out
    /// the objects of that slot. Refused, with the ring unchanged, while the
    /// frame submitted from the slot before is pending, or while a frame is
    /// being recorded.
    pub fn begin_recording(&mut self) -> (result: Result<FrameObjects, SyncError>)
        requires
            old(self).well_formed(),
        ensures
            final(self).well_formed(),
            final(self).slot_objects() == old(self).slot_objects(),
            match old(self)@.begun() {
                Ok(ring) => final(self)@ == ring && result == Ok::<FrameObjects, SyncError>(
                    old(self).slot_objects()[old(self)@.current_slot()],
                ),
                Err(e) => final(self)@ == old(self)@ && result == Err::<FrameObjects, SyncError>(e),
            },
    {
        proof {
            lemma_protocol_keeps_ring_well_formed(self@, 1, 0);
        }
        let index = self.frame_index();
        match self.slots[index] {
            SlotState::Idle => {
                self.slots.set(index, SlotState::Recording(self.submitted_count));
                Ok(self.objects[index])
            },
            SlotState::Recording(_) => Err(SyncError::AlreadyRecording),
            SlotState::Pending(frame) => Err(SyncError::FenceNotSignaled { frame }),
        }
    }

    /// Submits the frame that is being recorded: its slot is pending until
    /// its fence is seen signalled, and the next frame goes to the next
    /// slot. Refused, with the ring unchanged, where no frame is being
    /// recorded or the counter cannot go on.
    pub fn submit(&mut self) -> (result: Result<u64, SyncError>)
        requires
            old(self).well_formed(),
        ensures
            final(self).well_formed(),
            final(self).slot_objects() == old(self).slot_objects(),
            match old(self)@.submitted_next() {
                Ok(ring) => final(self)@ == ring && result == Ok::<u64, SyncError>(
                    old(self)@.submitted as u64,
                ),
                Err(e) => final(self)@ == old(self)@ && result == Err::<u64, SyncError>(e),
            },
    {
        proof {
            lemma_protocol_keeps_ring_well_formed(self@, 1, 0);
        }
        let index = self.frame_index();
        assert(self@.slot_consistent(index as int));
        match self.slots[index] {
            SlotState::Recording(frame) => {
                if self.submitted_count == u64::MAX {
                    return Err(SyncError::CounterExhausted);
                }
                self.slots.set(index, SlotState::Pending(frame));
                self.submitted_count = self.submitted_count + 1;
                Ok(frame)
            },
            _ => Err(SyncError::NotRecording),
        }
    }
}

/// The steps of one submission of a frame, in order.
pub open spec fn frame_submission() -> Seq<SubmitStep> {
    seq![
        SubmitStep::WaitForFence,
        SubmitStep::ResetFence,
        SubmitStep::ResetCommandBuffer,
        SubmitStep::BeginRecording,
        SubmitStep::Record,
        SubmitStep::EndRecording,
        SubmitStep::Submit,
    ]
}

/// The steps of a submission made once, before the first frame: recorded
/// and submitted like a frame, then waited for.
pub open spec fn setup_submission() -> Seq<SubmitStep> {
    seq![
        SubmitStep::ResetCommandBuffer,
        SubmitStep::BeginRecording,
        SubmitStep::Record,
        SubmitStep::EndRecording,
        SubmitStep::Submit,
        SubmitStep::WaitForFence,
    ]
}

/// Computes `frame_submission`.
pub fn record_and_submit_steps() -> (steps: Vec<SubmitStep>)
    ensures
        steps@ == frame_submission(),
{
    let mut steps: Vec<SubmitStep> = Vec::new();
    steps.push(SubmitStep::WaitForFence);
    steps.push(SubmitStep::ResetFence);
    steps.push(SubmitStep::ResetCommandBuffer);
    steps.push(SubmitStep::BeginRecording);
    steps.push(SubmitStep::Record);
    steps.push(SubmitStep::EndRecording);
    steps.push(SubmitStep::Submit);
    steps
}

/// Computes `setup_submission`.
pub fn setup_submit_steps() -> (steps: Vec<SubmitStep>)
    ensures
        steps@ == setup_submission(),
{
    let mut steps: Vec<SubmitStep> = Vec::new();
    steps.push(SubmitStep::ResetCommandBuffer);
    steps.push(SubmitStep::BeginRecording);
    steps.push(SubmitStep::Record);
    steps.push(SubmitStep::EndRecording);
    steps.push(SubmitStep::Submit);
    steps.push(SubmitStep::WaitForFence);
    steps
}

/// A fresh ring and every ring the protocol makes of a well-formed one are
/// well-formed.
pub proof fn lemma_protocol_keeps_ring_well_formed(ring: FrameRing, n: nat, i: int)
    requires
        ring.well_formed(),
    ensures
        n > 0 ==> FrameRing::fresh(n).well_formed(),
        ring.signaled(i).well_formed(),
        ring.begun() is Ok ==> ring.begun()->Ok_0.well_formed(),
        ring.submitted_next() is Ok ==> ring.submitted_next()->Ok_0.well_formed(),
{
    let len = ring.frames_in_flight();
    let cur = ring.current_slot();
    assert(0 <= cur < len) by (nonlinear_arith)
        requires
            cur == ring.submitted % len,
            len > 0,
    ;
    if n > 0 {
        let fresh = FrameRing::fresh(n);
        assert forall|k: int| 0 <= k < fresh.slots.len() implies fresh.slot_consistent(k) by {}
    }
    let after = ring.signaled(i);
    assert forall|k: int| 0 <= k < after.slots.len() implies after.slot_consistent(k) by {
        assert(ring.slot_consistent(k));
    }
    if ring.begun() is Ok {
        let next = ring.begun()->Ok_0;
        assert forall|k: int| 0 <= k < next.slots.len() implies next.slot_consistent(k) by {
            assert(ring.slot_consistent(k));
        }
    }
    if ring.submitted_next() is Ok {
        let next = ring.submitted_next()->Ok_0;
        assert(ring.slot_consistent(cur));
        assert forall|k: int| 0 <= k < next.slots.len() implies next.slot_consistent(k) by {
            assert(ring.slot_consistent(k));
            if k != cur {
                match ring.slots[k] {
                    SlotState::Pending(frame) => {
                        // A frame that is `len` behind would sit in the current slot.
                        if frame == ring.submitted - len {
                            assert((ring.submitted - len) % len == ring.submitted % len)
                                by (nonlinear_arith)
                                requires
                                    len > 0,
                            ;
                        }
                    },
                    _ => {},
                }
            }
        }
    }
}

/// What the host does to the ring.
pub ghost enum RingStep {
    /// Begin to record the next frame.
    Begin,
    /// Submit the frame that is being recorded.
    Submit,
    /// Take note that the fence of a slot was seen signalled.
    Signal(int),
}

impl FrameRing {
    /// The ring after a step. A step that is refused leaves it as it was.
    pub open spec fn after(self, step: RingStep) -> FrameRing {
        match step {
            RingStep::Begin => match self.begun() {
                Ok(ring) => ring,
                Err(_) => self,
            },
            RingStep::Submit => match self.submitted_next() {
                Ok(ring) => ring,
                Err(_) => self,
            },
            RingStep::Signal(i) => self.signaled(i),
        }
    }

    /// The ring after a run of steps.
    pub open spec fn after_all(self, steps: Seq<RingStep>) -> FrameRing
        decreases steps.len(),
    {
        if steps.len() == 0 {
            self
        } else {
            self.after_all(steps.drop_last()).after(steps.last())
        }
    }
}

/// Whatever the host does to a fresh ring, the ring stays well-formed: a
/// slot holds one frame at most, the one that was last begun in it.
pub proof fn lemma_every_run_keeps_ring_well_formed(n: nat, steps: Seq<RingStep>)
    requires
        n > 0,
    ensures
        FrameRing::fresh(n).after_all(steps).well_formed(),
        FrameRing::fresh(n).after_all(steps).frames_in_flight() == n,
    decreases steps.len(),
{
    let fresh = FrameRing::fresh(n);
    if steps.len() == 0 {
        lemma_protocol_keeps_ring_well_formed(fresh, n, 0);
        assert forall|k: int| 0 <= k < fresh.slots.len() implies fresh.slot_consistent(k) by {}
    } else {
        lemma_every_run_keeps_ring_well_formed(n, steps.drop_last());
        let before = fresh.after_all(steps.drop_last());
        match steps.last() {
            RingStep::Signal(i) => {
                lemma_protocol_keeps_ring_well_formed(before, n, i);
            },
            _ => {
                lemma_protocol_keeps_ring_well_formed(before, n, 0);
            },
        }
    }
}

/// Recording of a frame begins only when no earlier frame of its slot is
/// outstanding: with two frames in flight, frame 2 is not recorded before
/// the fence of frame 0 was seen signalled.
pub proof fn lemma_slot_is_exclusive(ring: FrameRing, earlier: int)
    requires
        ring.well_formed(),
        ring.begun() is Ok,
        0 <= earlier < ring.submitted,
        ring.slot_of(earlier) == ring.current_slot(),
    ensures
        !ring.is_outstanding(earlier),
        !ring.begun()->Ok_0.is_outstanding(earlier),
{
    let cur = ring.current_slot();
    let next = ring.begun()->Ok_0;
    assert forall|i: int| 0 <= i < ring.slots.len() implies !(ring.slots[i]
        == SlotState::Recording(earlier as u64) || ring.slots[i] == SlotState::Pending(
        earlier as u64,
    )) by {
        assert(ring.slot_consistent(i));
    }
    assert forall|i: int| 0 <= i < next.slots.len() implies !(next.slots[i]
        == SlotState::Recording(earlier as u64) || next.slots[i] == SlotState::Pending(
        earlier as u64,
    )) by {
        assert(ring.slot_consistent(i));
    }
}

/// The frames that are outstanding at one time lie less than the number of
/// slots apart, so there are never more of them than slots.
pub proof fn lemma_frames_in_flight_bounded(ring: FrameRing, a: int, b: int)
    requires
        ring.well_formed(),
        ring.is_outstanding(a),
        ring.is_outstanding(b),
    ensures
        a - b < ring.frames_in_flight(),
        a != b ==> ring.slot_of(a) != ring.slot_of(b),
{
    let len = ring.frames_in_flight();
    let i = choose|i: int|
        0 <= i < ring.slots.len() && (#[trigger] ring.slots[i] == SlotState::Recording(a as u64)
            || ring.slots[i] == SlotState::Pending(a as u64)) && 0 <= a <= u64::MAX;
    let k = choose|k: int|
        0 <= k < ring.slots.len() && (#[trigger] ring.slots[k] == SlotState::Recording(b as u64)
            || ring.slots[k] == SlotState::Pending(b as u64)) && 0 <= b <= u64::MAX;
    assert(ring.slot_consistent(i));
    assert(ring.slot_consistent(k));
    if a - b >= len {
        // Then `a` is being recorded and `b` is the frame `len` before it.
        assert((ring.submitted - len) % len == ring.submitted % len) by (nonlinear_arith)
            requires
                len > 0,
        ;
    }
}

} // verus!
