//! The ring of frame slots: which slot the next frame uses, whether the GPU
//! still works on a slot, and in what order the steps of a frame may happen.
//!
//! A slot whose submission the GPU has not been seen to finish is never
//! recorded into again: the ring waits for its fence first.

use vstd::prelude::*;

verus! {

/// Where the ring stands within a frame.
#[derive(Clone, Copy, PartialEq, Eq, Structural, Debug)]
pub enum FramePhase {
    /// Between frames.
    Idle,
    /// The slot's previous submission may still run; its fence is awaited.
    WaitingForFence,
    /// The slot is free; the callbacks left for this moment are running.
    RunningCallbacks,
    /// A presentable image is being acquired.
    Acquiring,
    /// Commands for the acquired image are being recorded.
    Recording { image_index: usize },
    /// The recording is complete and is being handed to the GPU.
    Submitting { image_index: usize },
    /// The submission is on its way; the image is being queued for display.
    Presenting { image_index: usize },
    /// A rebuild of the presentable images awaits the end of all GPU work.
    AwaitingIdle,
    /// The device is idle and the presentable images are being rebuilt.
    Rebuilding,
}

/// Why the ring refused a step.
#[derive(Clone, Copy, PartialEq, Eq, Structural, Debug)]
pub enum FrameError {
    /// The step does not follow the one before it.
    OutOfTurn,
    /// The image index names no presentable image.
    NoSuchImage,
    /// A ring cannot be rebuilt without any slot.
    NoSlots,
}

/// The ring as a mathematical value.
pub struct RingView {
    /// The slot the current or next frame uses.
    pub frame_index: usize,
    pub phase: FramePhase,
    /// Per slot, whether a submission was made whose fence was not yet seen signaled.
    pub in_flight: Seq<bool>,
    /// Per slot, the callbacks to run once its submission is known to be complete.
    pub on_finish: Seq<Seq<u64>>,
}

impl RingView {
    /// The number of slots.
    pub open spec fn slots(self) -> nat {
        self.in_flight.len()
    }

    /// What always holds of a ring. In particular the slot of a frame that is
    /// past its fence and not yet submitted is not in flight.
    pub open spec fn wf(self) -> bool {
        &&& self.in_flight.len() == self.on_finish.len()
        &&& self.in_flight.len() > 0
        &&& self.frame_index < self.in_flight.len()
        &&& match self.phase {
            FramePhase::Idle => true,
            FramePhase::WaitingForFence => self.in_flight[self.frame_index as int],
            FramePhase::RunningCallbacks => !self.in_flight[self.frame_index as int],
            FramePhase::Acquiring => !self.in_flight[self.frame_index as int],
            FramePhase::Recording { image_index } => !self.in_flight[self.frame_index as int]
                && image_index < self.in_flight.len(),
            FramePhase::Submitting { image_index } => !self.in_flight[self.frame_index as int]
                && image_index < self.in_flight.len(),
            FramePhase::Presenting { image_index } => self.in_flight[self.frame_index as int]
                && image_index < self.in_flight.len(),
            FramePhase::AwaitingIdle => true,
            FramePhase::Rebuilding => forall|i: int|
                0 <= i < self.in_flight.len() ==> !#[trigger] self.in_flight[i],
        }
    }

    /// The presentable image the frame under way renders into; zero outside
    /// the steps that have one.
    pub open spec fn image(self) -> usize {
        match self.phase {
            FramePhase::Recording { image_index } => image_index,
            FramePhase::Submitting { image_index } => image_index,
            FramePhase::Presenting { image_index } => image_index,
            _ => 0,
        }
    }

    /// The slot after the current one; after the last slot comes the first.
    pub open spec fn next_index(self) -> usize {
        if self.frame_index + 1 == self.slots() {
            0
        } else {
            (self.frame_index + 1) as usize
        }
    }

    /// A new ring of `slots` slots: nothing submitted, nothing queued, slot zero next.
    pub open spec fn fresh(slots: nat) -> RingView {
        RingView {
            frame_index: 0,
            phase: FramePhase::Idle,
            in_flight: Seq::new(slots, |i: int| false),
            on_finish: Seq::new(slots, |i: int| Seq::<u64>::empty()),
        }
    }

    /// The slot is free: its callbacks are taken and run.
    pub open spec fn freed(self) -> RingView {
        RingView {
            phase: FramePhase::RunningCallbacks,
            in_flight: self.in_flight.update(self.frame_index as int, false),
            on_finish: self.on_finish.update(self.frame_index as int, Seq::empty()),
            ..self
        }
    }

    /// A frame starts: it waits where the slot is in flight, else frees the slot.
    pub open spec fn started(self) -> RingView {
        if self.phase != FramePhase::Idle {
            self
        } else if self.in_flight[self.frame_index as int] {
            RingView { phase: FramePhase::WaitingForFence, ..self }
        } else {
            self.freed()
        }
    }

    /// The awaited fence was seen signaled.
    pub open spec fn fence_signaled(self) -> RingView {
        if self.phase != FramePhase::WaitingForFence {
            self
        } else {
            self.freed()
        }
    }

    /// The callbacks have run.
    pub open spec fn callbacks_done(self) -> RingView {
        if self.phase != FramePhase::RunningCallbacks {
            self
        } else {
            RingView { phase: FramePhase::Acquiring, ..self }
        }
    }

    /// A presentable image was acquired.
    pub open spec fn image_acquired(self, image_index: usize) -> RingView {
        if self.phase != FramePhase::Acquiring || image_index >= self.slots() {
            self
        } else {
            RingView { phase: FramePhase::Recording { image_index }, ..self }
        }
    }

    /// No image could be acquired because the surface changed: the frame is given up.
    pub open spec fn acquire_abandoned(self) -> RingView {
        if self.phase != FramePhase::Acquiring {
            self
        } else {
            RingView { phase: FramePhase::Idle, ..self }
        }
    }

    /// A callback was left for the next time this slot is free.
    pub open spec fn callback_queued(self, callback: u64) -> RingView {
        if self.phase is Recording {
            RingView {
                on_finish: self.on_finish.update(
                    self.frame_index as int,
                    self.on_finish[self.frame_index as int].push(callback),
                ),
                ..self
            }
        } else {
            self
        }
    }

    /// The recording is complete.
    pub open spec fn recorded(self) -> RingView {
        match self.phase {
            FramePhase::Recording { image_index } => RingView {
                phase: FramePhase::Submitting { image_index },
                ..self
            },
            _ => self,
        }
    }

    /// The recording was handed to the GPU: the slot is in flight.
    pub open spec fn submitted(self) -> RingView {
        match self.phase {
            FramePhase::Submitting { image_index } => RingView {
                phase: FramePhase::Presenting { image_index },
                in_flight: self.in_flight.update(self.frame_index as int, true),
                ..self
            },
            _ => self,
        }
    }

    /// The image was queued for display: the frame is over and the next slot is up.
    pub open spec fn presented(self) -> RingView {
        match self.phase {
            FramePhase::Presenting { image_index } => RingView {
                phase: FramePhase::Idle,
                frame_index: self.next_index(),
                ..self
            },
            _ => self,
        }
    }

    /// A rebuild of the presentable images was asked for.
    pub open spec fn recreate_requested(self) -> RingView {
        if self.phase != FramePhase::Idle {
            self
        } else {
            RingView { phase: FramePhase::AwaitingIdle, ..self }
        }
    }

    /// The device went idle: no slot is in flight any more.
    pub open spec fn device_idle(self) -> RingView {
        if self.phase != FramePhase::AwaitingIdle {
            self
        } else {
            RingView {
                phase: FramePhase::Rebuilding,
                in_flight: Seq::new(self.slots(), |i: int| false),
                ..self
            }
        }
    }

    /// The presentable images were rebuilt, `slots` of them, and the ring
    /// with them: it has that many slots, none in flight and none with a
    /// callback left, and goes on with the slot it was at, or with the first
    /// where that slot is gone.
    pub open spec fn resized(self, slots: nat) -> RingView {
        if self.phase != FramePhase::Rebuilding || slots == 0 {
            self
        } else {
            RingView {
                frame_index: if self.frame_index < slots {
                    self.frame_index
                } else {
                    0
                },
                phase: FramePhase::Idle,
                in_flight: Seq::new(slots, |i: int| false),
                on_finish: Seq::new(slots, |i: int| Seq::<u64>::empty()),
            }
        }
    }

    /// One whole frame on a free slot, during which the GPU reports nothing.
    pub open spec fn frame_without_completion(self, image_index: usize) -> RingView {
        self.started().callbacks_done().image_acquired(image_index).recorded().submitted().presented()
    }

    /// As many whole frames as `images` has entries, one per acquired image,
    /// during which the GPU reports nothing.
    pub open spec fn frames_without_completion(self, images: Seq<usize>) -> RingView
        decreases images.len(),
    {
        if images.len() == 0 {
            self
        } else {
            self.frames_without_completion(images.drop_last()).frame_without_completion(
                images.last(),
            )
        }
    }
}

/// The scheduling state of the frame slots.
#[derive(Debug)]
pub struct FrameRing {
    frame_index: usize,
    phase: FramePhase,
    in_flight: Vec<bool>,
    on_finish: Vec<Vec<u64>>,
}

impl View for FrameRing {
    type V = RingView;

    closed spec fn view(&self) -> RingView {
        RingView {
            frame_index: self.frame_index,
            phase: self.phase,
            in_flight: self.in_flight@,
            on_finish: Seq::new(self.on_finish@.len(), |i: int| self.on_finish@[i]@),
        }
    }
}

impl FrameRing {
    /// A ring of `slots` slots; a ring needs at least one.
    pub fn new(slots: usize) -> (made: Option<Self>)
        ensures
            made is Some <==> slots > 0,
            made matches Some(ring) ==> ring@ == RingView::fresh(slots as nat) && ring@.wf(),
    {
        if slots == 0 {
            return None;
        }
        let mut in_flight: Vec<bool> = Vec::new();
        let mut on_finish: Vec<Vec<u64>> = Vec::new();
        let mut i: usize = 0;
        while i < slots
            invariant
                i <= slots,
                in_flight@.len() == i,
                on_finish@.len() == i,
                forall|j: int| 0 <= j < i ==> !#[trigger] in_flight@[j],
                forall|j: int| 0 <= j < i ==> (#[trigger] on_finish@[j])@.len() == 0,
            decreases slots - i,
        {
            in_flight.push(false);
            on_finish.push(Vec::new());
            i += 1;
        }
        let ring = FrameRing { frame_index: 0, phase: FramePhase::Idle, in_flight, on_finish };
        proof {
            assert(ring@.in_flight =~= RingView::fresh(slots as nat).in_flight);
            assert forall|j: int| 0 <= j < slots implies #[trigger] ring@.on_finish[j]
                == Seq::<u64>::empty() by {
                assert(ring.on_finish@[j]@.len() == 0);
                assert(ring@.on_finish[j] =~= Seq::<u64>::empty());
            }
            assert(ring@.on_finish =~= RingView::fresh(slots as nat).on_finish);
        }
        Some(ring)
    }

    /// The number of slots.
    pub fn slots(&self) -> (count: usize)
        ensures
            count == self@.slots(),
    {
        self.in_flight.len()
    }

    /// The slot the current or next frame uses.
    pub fn frame_index(&self) -> (index: usize)
        ensures
            index == self@.frame_index,
    {
        self.frame_index
    }

    /// Where the ring stands within a frame.
    pub fn phase(&self) -> (phase: FramePhase)
        ensures
            phase == self@.phase,
    {
        self.phase
    }

    /// Whether a slot has a submission whose fence was not yet seen signaled.
    pub fn is_in_flight(&self, slot: usize) -> (busy: bool)
        ensures
            busy == (slot < self@.slots() && self@.in_flight[slot as int]),
    {
        slot < self.in_flight.len() && self.in_flight[slot]
    }

    /// Frees the current slot and hands out its callbacks.
    fn free_slot(&mut self) -> (callbacks: Vec<u64>)
        requires
            old(self)@.in_flight.len() == old(self)@.on_finish.len(),
            old(self)@.frame_index < old(self)@.in_flight.len(),
        ensures
            final(self)@ == old(self)@.freed(),
            callbacks@ == old(self)@.on_finish[old(self)@.frame_index as int],
    {
        let slot = self.frame_index;
        let mut callbacks: Vec<u64> = Vec::new();
        let mut k: usize = 0;
        while k < self.on_finish[slot].len()
            invariant
                self@ == old(self)@,
                slot == self.frame_index,
                slot < self.on_finish@.len(),
                k <= self.on_finish@[slot as int]@.len(),
                callbacks@ == self.on_finish@[slot as int]@.subrange(0, k as int),
            decreases self.on_finish@[slot as int]@.len() - k,
        {
            callbacks.push(self.on_finish[slot][k]);
            proof {
                assert(callbacks@ =~= self.on_finish@[slot as int]@.subrange(0, k + 1));
            }
            k += 1;
        }
        proof {
            assert(callbacks@ =~= self.on_finish@[slot as int]@);
        }
        self.on_finish.set(slot, Vec::new());
        self.in_flight.set(slot, false);
        self.phase = FramePhase::RunningCallbacks;
        proof {
            assert(self@.on_finish =~= old(self)@.on_finish.update(slot as int, Seq::empty()));
        }
        callbacks
    }

    /// Starts a frame on the current slot.
    ///
    /// The answer is `None` where the slot is in flight and its fence must be
    /// awaited first, else the callbacks to run now. Fails between the steps
    /// of a frame or of a rebuild.
    pub fn start(&mut self) -> (outcome: Result<Option<Vec<u64>>, FrameError>)
        requires
            old(self)@.wf(),
        ensures
            final(self)@.wf(),
            final(self)@ == old(self)@.started(),
            outcome is Ok <==> old(self)@.phase == FramePhase::Idle,
            outcome is Err ==> outcome == Err::<Option<Vec<u64>>, FrameError>(FrameError::OutOfTurn),
            outcome matches Ok(ready) ==> (ready is None <==> old(self)@.in_flight[old(
                self,
            )@.frame_index as int]),
            outcome matches Ok(Some(callbacks)) ==> callbacks@ == old(self)@.on_finish[old(
                self,
            )@.frame_index as int],
    {
        match self.phase {
            FramePhase::Idle => {},
            _ => {
                return Err(FrameError::OutOfTurn);
            },
        }
        if self.in_flight[self.frame_index] {
            self.phase = FramePhase::WaitingForFence;
            Ok(None)
        } else {
            let callbacks = self.free_slot();
            proof {
                assert(self@.in_flight =~= old(self)@.in_flight);
            }
            Ok(Some(callbacks))
        }
    }

    /// Notes that the awaited fence was seen signaled, and hands out the
    /// callbacks to run now. Fails unless a fence is awaited.
    pub fn fence_signaled(&mut self) -> (outcome: Result<Vec<u64>, FrameError>)
        requires
            old(self)@.wf(),
        ensures
            final(self)@.wf(),
            final(self)@ == old(self)@.fence_signaled(),
            outcome is Ok <==> old(self)@.phase == FramePhase::WaitingForFence,
            outcome is Err ==> outcome == Err::<Vec<u64>, FrameError>(FrameError::OutOfTurn),
            outcome matches Ok(callbacks) ==> callbacks@ == old(self)@.on_finish[old(
                self,
            )@.frame_index as int],
    {
        match self.phase {
            FramePhase::WaitingForFence => {},
            _ => {
                return Err(FrameError::OutOfTurn);
            },
        }
        let callbacks = self.free_slot();
        Ok(callbacks)
    }

    /// Notes that the callbacks have run. Fails unless they were handed out.
    pub fn callbacks_done(&mut self) -> (outcome: Result<(), FrameError>)
        requires
            old(self)@.wf(),
        ensures
            final(self)@.wf(),
            final(self)@ == old(self)@.callbacks_done(),
            outcome == (if old(self)@.phase == FramePhase::RunningCallbacks {
                Ok::<(), FrameError>(())
            } else {
                Err::<(), FrameError>(FrameError::OutOfTurn)
            }),
    {
        match self.phase {
            FramePhase::RunningCallbacks => {
                self.phase = FramePhase::Acquiring;
                Ok(())
            },
            _ => Err(FrameError::OutOfTurn),
        }
    }

    /// Notes which presentable image was acquired. Fails unless an image is
    /// awaited, and on an index that names no image.
    pub fn image_acquired(&mut self, image_index: usize) -> (outcome: Result<(), FrameError>)
        requires
            old(self)@.wf(),
        ensures
            final(self)@.wf(),
            final(self)@ == old(self)@.image_acquired(image_index),
            outcome == (if old(self)@.phase != FramePhase::Acquiring {
                Err::<(), FrameError>(FrameError::OutOfTurn)
            } else if image_index >= old(self)@.slots() {
                Err::<(), FrameError>(FrameError::NoSuchImage)
            } else {
                Ok::<(), FrameError>(())
            }),
    {
        match self.phase {
            FramePhase::Acquiring => {},
            _ => {
                return Err(FrameError::OutOfTurn);
            },
        }
        if image_index >= self.in_flight.len() {
            return Err(FrameError::NoSuchImage);
        }
        self.phase = FramePhase::Recording { image_index };
        Ok(())
    }

    /// Gives the frame up because the surface changed under the acquire.
    /// Fails unless an image is awaited.
    pub fn acquire_abandoned(&mut self) -> (outcome: Result<(), FrameError>)
        requires
            old(self)@.wf(),
        ensures
            final(self)@.wf(),
            final(self)@ == old(self)@.acquire_abandoned(),
            outcome == (if old(self)@.phase == FramePhase::Acquiring {
                Ok::<(), FrameError>(())
            } else {
                Err::<(), FrameError>(FrameError::OutOfTurn)
            }),
    {
        match self.phase {
            FramePhase::Acquiring => {
                self.phase = FramePhase::Idle;
                Ok(())
            },
            _ => Err(FrameError::OutOfTurn),
        }
    }

    /// Leaves a callback to run once the submission about to be recorded is
    /// known to be complete. Fails unless a recording is under way.
    pub fn run_on_finish(&mut self, callback: u64) -> (outcome: Result<(), FrameError>)
        requires
            old(self)@.wf(),
        ensures
            final(self)@.wf(),
            final(self)@ == old(self)@.callback_queued(callback),
            outcome == (if old(self)@.phase is Recording {
                Ok::<(), FrameError>(())
            } else {
                Err::<(), FrameError>(FrameError::OutOfTurn)
            }),
    {
        match self.phase {
            FramePhase::Recording { image_index } => {
                let slot = self.frame_index;
                let mut queue = self.on_finish[slot].clone();
                queue.push(callback);
                self.on_finish.set(slot, queue);
                proof {
                    assert(self@.on_finish =~= old(self)@.on_finish.update(
                        slot as int,
                        old(self)@.on_finish[slot as int].push(callback),
                    ));
                }
                Ok(())
            },
            _ => Err(FrameError::OutOfTurn),
        }
    }

    /// Notes that the recording is complete, and gives the acquired image.
    /// Fails unless a recording is under way.
    pub fn recorded(&mut self) -> (outcome: Result<usize, FrameError>)
        requires
            old(self)@.wf(),
        ensures
            final(self)@.wf(),
            final(self)@ == old(self)@.recorded(),
            outcome == (match old(self)@.phase {
                FramePhase::Recording { image_index } => Ok::<usize, FrameError>(image_index),
                _ => Err::<usize, FrameError>(FrameError::OutOfTurn),
            }),
    {
        match self.phase {
            FramePhase::Recording { image_index } => {
                self.phase = FramePhase::Submitting { image_index };
                Ok(image_index)
            },
            _ => Err(FrameError::OutOfTurn),
        }
    }

    /// Notes that the recording was handed to the GPU, and gives the image to
    /// present. Fails unless a submission is due.
    pub fn submitted(&mut self) -> (outcome: Result<usize, FrameError>)
        requires
            old(self)@.wf(),
        ensures
            final(self)@.wf(),
            final(self)@ == old(self)@.submitted(),
            outcome == (match old(self)@.phase {
                FramePhase::Submitting { image_index } => Ok::<usize, FrameError>(image_index),
                _ => Err::<usize, FrameError>(FrameError::OutOfTurn),
            }),
    {
        match self.phase {
            FramePhase::Submitting { image_index } => {
                self.in_flight.set(self.frame_index, true);
                self.phase = FramePhase::Presenting { image_index };
                Ok(image_index)
            },
            _ => Err(FrameError::OutOfTurn),
        }
    }

    /// Notes that the image was queued for display, which ends the frame and
    /// moves on to the next slot. Fails unless a present is due.
    pub fn presented(&mut self) -> (outcome: Result<(), FrameError>)
        requires
            old(self)@.wf(),
        ensures
            final(self)@.wf(),
            final(self)@ == old(self)@.presented(),
            outcome == (if old(self)@.phase is Presenting {
                Ok::<(), FrameError>(())
            } else {
                Err::<(), FrameError>(FrameError::OutOfTurn)
            }),
    {
        match self.phase {
            FramePhase::Presenting { image_index } => {
                let slots = self.in_flight.len();
                assert(self.frame_index < slots);
                let next = if self.frame_index + 1 == slots {
                    0
                } else {
                    self.frame_index + 1
                };
                self.frame_index = next;
                self.phase = FramePhase::Idle;
                Ok(())
            },
            _ => Err(FrameError::OutOfTurn),
        }
    }

    /// Asks for a rebuild of the presentable images; the device must go idle
    /// first. Fails during a frame.
    pub fn request_recreate(&mut self) -> (outcome: Result<(), FrameError>)
        requires
            old(self)@.wf(),
        ensures
            final(self)@.wf(),
            final(self)@ == old(self)@.recreate_requested(),
            outcome == (if old(self)@.phase == FramePhase::Idle {
                Ok::<(), FrameError>(())
            } else {
                Err::<(), FrameError>(FrameError::OutOfTurn)
            }),
    {
        match self.phase {
            FramePhase::Idle => {
                self.phase = FramePhase::AwaitingIdle;
                Ok(())
            },
            _ => Err(FrameError::OutOfTurn),
        }
    }

    /// Notes that the device went idle, so that no slot is in flight any
    /// more. Fails unless a rebuild was asked for.
    pub fn device_idle(&mut self) -> (outcome: Result<(), FrameError>)
        requires
            old(self)@.wf(),
        ensures
            final(self)@.wf(),
            final(self)@ == old(self)@.device_idle(),
            outcome == (if old(self)@.phase == FramePhase::AwaitingIdle {
                Ok::<(), FrameError>(())
            } else {
                Err::<(), FrameError>(FrameError::OutOfTurn)
            }),
    {
        match self.phase {
            FramePhase::AwaitingIdle => {},
            _ => {
                return Err(FrameError::OutOfTurn);
            },
        }
        let mut i: usize = 0;
        while i < self.in_flight.len()
            invariant
                i <= self.in_flight@.len(),
                self.in_flight@.len() == old(self)@.in_flight.len(),
                self.frame_index == old(self).frame_index,
                self.phase == old(self).phase,
                self.on_finish == old(self).on_finish,
                forall|j: int| 0 <= j < i ==> !#[trigger] self.in_flight@[j],
            decreases self.in_flight@.len() - i,
        {
            self.in_flight.set(i, false);
            i += 1;
        }
        self.phase = FramePhase::Rebuilding;
        proof {
            assert(self@.in_flight =~= Seq::new(old(self)@.slots(), |i: int| false));
            assert(self@.on_finish =~= old(self)@.on_finish);
        }
        Ok(())
    }

    /// Notes that the presentable images were rebuilt, `slots` of them, and
    /// makes the ring one of that many slots. The device is idle, so every
    /// earlier submission is complete: the answer holds, slot by slot, the
    /// callbacks that were left for that, to run now.
    ///
    /// Fails, changing nothing, unless the device was seen idle for the
    /// rebuild, and for a rebuild without any slot.
    pub fn resized(&mut self, slots: usize) -> (outcome: Result<Vec<Vec<u64>>, FrameError>)
        requires
            old(self)@.wf(),
        ensures
            final(self)@.wf(),
            final(self)@ == old(self)@.resized(slots as nat),
            outcome is Ok <==> old(self)@.phase == FramePhase::Rebuilding && slots > 0,
            outcome matches Err(error) ==> error == (if old(self)@.phase != FramePhase::Rebuilding {
                FrameError::OutOfTurn
            } else {
                FrameError::NoSlots
            }),
            outcome matches Ok(callbacks) ==> callbacks@.len() == old(self)@.on_finish.len()
                && forall|i: int|
                0 <= i < callbacks@.len() ==> (#[trigger] callbacks@[i])@ == old(self)@.on_finish[i],
    {
        match self.phase {
            FramePhase::Rebuilding => {},
            _ => {
                return Err(FrameError::OutOfTurn);
            },
        }
        if slots == 0 {
            return Err(FrameError::NoSlots);
        }
        let mut in_flight: Vec<bool> = Vec::new();
        let mut on_finish: Vec<Vec<u64>> = Vec::new();
        let mut i: usize = 0;
        while i < slots
            invariant
                i <= slots,
                in_flight@.len() == i,
                on_finish@.len() == i,
                forall|j: int| 0 <= j < i ==> !#[trigger] in_flight@[j],
                forall|j: int| 0 <= j < i ==> (#[trigger] on_finish@[j])@.len() == 0,
            decreases slots - i,
        {
            in_flight.push(false);
            on_finish.push(Vec::new());
            i += 1;
        }
        std::mem::swap(&mut self.on_finish, &mut on_finish);
        self.in_flight = in_flight;
        if self.frame_index >= slots {
            self.frame_index = 0;
        }
        self.phase = FramePhase::Idle;
        proof {
            let expected = old(self)@.resized(slots as nat);
            assert(self@.in_flight =~= expected.in_flight);
            assert forall|j: int| 0 <= j < slots implies #[trigger] self@.on_finish[j]
                == Seq::<u64>::empty() by {
                assert(self.on_finish@[j]@.len() == 0);
                assert(self@.on_finish[j] =~= Seq::<u64>::empty());
            }
            assert(self@.on_finish =~= expected.on_finish);
        }
        Ok(on_finish)
    }
}

/// Every step keeps a well-formed ring well-formed.
pub proof fn lemma_steps_preserve_wf(ring: RingView, image_index: usize, callback: u64)
    requires
        ring.wf(),
    ensures
        ring.started().wf(),
        ring.fence_signaled().wf(),
        ring.callbacks_done().wf(),
        ring.image_acquired(image_index).wf(),
        ring.acquire_abandoned().wf(),
        ring.callback_queued(callback).wf(),
        ring.recorded().wf(),
        ring.submitted().wf(),
        ring.presented().wf(),
        ring.recreate_requested().wf(),
        ring.device_idle().wf(),
        ring.resized(image_index as nat).wf(),
{
}

/// While a fence is awaited, no step but the fence's signal moves the ring:
/// a slot in flight is never recorded into.
pub proof fn lemma_waiting_ring_only_moves_on_fence(ring: RingView, image_index: usize, callback: u64)
    requires
        ring.wf(),
        ring.phase == FramePhase::WaitingForFence,
    ensures
        ring.started() == ring,
        ring.callbacks_done() == ring,
        ring.image_acquired(image_index) == ring,
        ring.acquire_abandoned() == ring,
        ring.callback_queued(callback) == ring,
        ring.recorded() == ring,
        ring.submitted() == ring,
        ring.presented() == ring,
        ring.recreate_requested() == ring,
        ring.device_idle() == ring,
        ring.resized(image_index as nat) == ring,
        ring.fence_signaled().phase == FramePhase::RunningCallbacks,
        !ring.fence_signaled().in_flight[ring.frame_index as int],
{
}

/// A slot stops being in flight only when its completion is seen: no step
/// but the signal of the awaited fence, or the device going idle, takes a
/// slot out of flight.
pub proof fn lemma_only_completion_frees_a_slot(
    ring: RingView,
    slot: int,
    image_index: usize,
    callback: u64,
)
    requires
        ring.wf(),
        0 <= slot < ring.slots(),
        ring.in_flight[slot],
    ensures
        ring.started().in_flight[slot],
        ring.callbacks_done().in_flight[slot],
        ring.image_acquired(image_index).in_flight[slot],
        ring.acquire_abandoned().in_flight[slot],
        ring.callback_queued(callback).in_flight[slot],
        ring.recorded().in_flight[slot],
        ring.submitted().in_flight[slot],
        ring.presented().in_flight[slot],
        ring.recreate_requested().in_flight[slot],
        ring.resized(image_index as nat) == ring,
        !ring.fence_signaled().in_flight[slot] ==> ring.phase == FramePhase::WaitingForFence
            && slot == ring.frame_index,
        !ring.device_idle().in_flight[slot] ==> ring.phase == FramePhase::AwaitingIdle,
{
}

/// After `k` whole frames on a new ring of at least `k` slots, during which
/// the GPU reports nothing, the first `k` slots are in flight and slot
/// `k` modulo the ring size is next.
pub proof fn lemma_frames_fill_the_ring(slots: nat, images: Seq<usize>)
    requires
        0 < slots <= usize::MAX,
        images.len() <= slots,
        forall|i: int| 0 <= i < images.len() ==> #[trigger] images[i] < slots,
    ensures
        ({
            let ring = RingView::fresh(slots).frames_without_completion(images);
            &&& ring.wf()
            &&& ring.phase == FramePhase::Idle
            &&& ring.slots() == slots
            &&& ring.frame_index == (images.len() as int) % (slots as int)
            &&& forall|i: int| 0 <= i < slots ==> #[trigger] ring.in_flight[i] == (i < images.len())
        }),
    decreases images.len(),
{
    let n = slots as int;
    if images.len() == 0 {
        assert(0int % n == 0) by (nonlinear_arith)
            requires
                n > 0,
        ;
    } else {
        let before = images.drop_last();
        lemma_frames_fill_the_ring(slots, before);
        let ring = RingView::fresh(slots).frames_without_completion(before);
        let k = before.len() as int;
        assert(k % n == k) by (nonlinear_arith)
            requires
                0 <= k < n,
        ;
        assert(ring.frame_index == k);
        assert(!ring.in_flight[k]);
        let after = ring.frame_without_completion(images.last());
        assert(RingView::fresh(slots).frames_without_completion(images) == after);
        let submitted = ring.started().callbacks_done().image_acquired(images.last()).recorded().submitted();
        assert(submitted.phase == FramePhase::Presenting { image_index: images.last() });
        assert(submitted.in_flight == ring.in_flight.update(k, true));
        if k + 1 == n {
            assert((k + 1) % n == 0) by (nonlinear_arith)
                requires
                    k + 1 == n,
                    n > 0,
            ;
        } else {
            assert((k + 1) % n == k + 1) by (nonlinear_arith)
                requires
                    0 <= k + 1 < n,
            ;
        }
        assert(after.frame_index == (k + 1) % n);
        assert forall|i: int| 0 <= i < slots implies #[trigger] after.in_flight[i] == (i
            < images.len()) by {
            if i == k {
            } else {
                assert(after.in_flight[i] == ring.in_flight[i]);
            }
        }
    }
}

/// Back-pressure: once every slot of a new ring has been submitted and the
/// GPU has reported nothing, the next frame does not start on slot zero. It
/// waits for that slot's fence, and the ring is otherwise as it was.
pub proof fn lemma_full_ring_blocks(slots: nat, images: Seq<usize>)
    requires
        0 < slots <= usize::MAX,
        images.len() == slots,
        forall|i: int| 0 <= i < images.len() ==> #[trigger] images[i] < slots,
    ensures
        ({
            let ring = RingView::fresh(slots).frames_without_completion(images);
            &&& ring.frame_index == 0
            &&& ring.started() == (RingView { phase: FramePhase::WaitingForFence, ..ring })
            &&& ring.started().in_flight[0]
        }),
{
    lemma_frames_fill_the_ring(slots, images);
    let n = slots as int;
    assert(n % n == 0) by (nonlinear_arith)
        requires
            n > 0,
    ;
}

} // verus!
