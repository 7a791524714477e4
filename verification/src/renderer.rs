//! The frame orchestrator: one frame goes through fence, callbacks, acquire,
//! record, submit and present, and what a submitted recording references is
//! kept until the GPU is known to have finished it.
//!
//! The orchestrator decides and keeps the books; the caller performs each
//! step on the device and reports back.

use vstd::prelude::*;
use crate::command_buffer::barrier_command;
use crate::command_buffer::clear_command;
use crate::command_buffer::ClearColor;
use crate::command_buffer::Command;
use crate::command_buffer::CommandBuffer;
use crate::command_buffer::CommandBufferView;
use crate::frame_ring::FrameError;
use crate::frame_ring::FramePhase;
use crate::frame_ring::FrameRing;
use crate::frame_ring::RingView;
use crate::image::Image;
use crate::memory::TeardownStep;
use crate::pipeline::ComputePipeline;
use crate::pipeline::Pipeline;
use crate::pipeline::PipelineErr;
use crate::pipeline::ONE_BITS;
use crate::pipeline_store::PipelineKey;
use crate::pipeline_store::PipelineStore;
use crate::shader_path::ShaderPath;
use crate::resources::ResourceError;
use crate::resources::ResourceId;
use crate::resources::ResourceTable;
use crate::resources::TableView;
use crate::swapchain::present_mode_for;
use crate::swapchain::requested_present_mode;
use crate::swapchain::AcquireOutcome;
use crate::swapchain::PresentOutcome;
use crate::swapchain::Swapchain;
use crate::vk::ACCESS_MEMORY_WRITE;
use crate::vk::ACCESS_NONE;
use crate::vk::IMAGE_LAYOUT_PRESENT_SRC;
use crate::vk::IMAGE_LAYOUT_TRANSFER_DST_OPTIMAL;
use crate::vk::IMAGE_LAYOUT_UNDEFINED;
use crate::vk::PIPELINE_STAGE_BOTTOM_OF_PIPE;
use crate::vk::PIPELINE_STAGE_TOP_OF_PIPE;
use crate::vk::PIPELINE_STAGE_TRANSFER;

verus! {

/// The native objects of one frame slot.
#[derive(Clone, Copy, PartialEq, Eq, Structural, Debug)]
pub struct FrameSync {
    pub command_buffer: u64,
    /// Signals when the GPU has finished the slot's submission.
    pub fence: u64,
    /// Signals when the acquired image may be written.
    pub image_available: u64,
    /// Signals when rendering into an image is done; used by image index.
    pub render_finished: u64,
}

/// One submission to the queue.
#[derive(Clone, Copy, PartialEq, Eq, Structural, Debug)]
pub struct SubmitInfo {
    pub command_buffer: u64,
    pub wait_semaphore: u64,
    pub wait_dst_stage_mask: u32,
    pub signal_semaphore: u64,
    pub fence: u64,
}

/// One submission outside the frame slots, waited for right away.
#[derive(Clone, Copy, PartialEq, Eq, Structural, Debug)]
pub struct SingleTimeSubmit {
    pub command_buffer: u64,
    pub fence: u64,
}

/// What the caller is to do next on the device.
#[derive(Clone, PartialEq, Eq, Debug)]
pub enum FrameAction {
    /// Block until the fence signals, then report `fence_signaled`.
    WaitForFence { fence: u64 },
    /// Run the callbacks in order, then report `callbacks_done`.
    RunCallbacks { callbacks: Vec<u64> },
    /// Acquire the next image, signalling the semaphore, then report `acquired`.
    AcquireImage { signal_semaphore: u64 },
    /// Destroy the native objects of the listed resources, let the components
    /// record, then report `end_recording`.
    Record { image_index: usize, destroy: Vec<ResourceId> },
    /// Reset the fence, submit as described, then report `submitted`.
    Submit { reset_fence: u64, info: SubmitInfo },
    /// Queue the image for display once the semaphore signals, then report
    /// `present_finished`.
    Present { wait_semaphore: u64, image_index: usize },
    /// The surface changed: rebuild the presentable images.
    RecreateSwapchain,
    /// Block until the device is idle, then report `device_idle`.
    WaitIdle,
    /// Build the presentable images anew, then report `window_recreated`.
    BuildSwapchain,
}

/// What is left to do once the frame slots were rebuilt.
#[derive(Clone, PartialEq, Eq, Debug)]
pub struct Rebuilt {
    /// Per former slot, the callbacks that were left for the completion of
    /// its submission, to run now.
    pub callbacks: Vec<Vec<u64>>,
    /// The resources whose native objects are to be destroyed now.
    pub destroy: Vec<ResourceId>,
    /// The native objects of the former slots, to be given back.
    pub retired: Vec<FrameSync>,
}

/// Why the orchestrator refused a step.
#[derive(Clone, Copy, PartialEq, Eq, Structural, Debug)]
pub enum RendererError {
    Frame(FrameError),
    Resource(ResourceError),
    /// The recording unit belongs to a frame slot.
    NotSingleTime,
    /// The driver failed with this code; there is no way on.
    Device(i32),
}

/// Opaque black.
pub open spec fn opaque_black() -> ClearColor {
    ClearColor { r_bits: 0, g_bits: 0, b_bits: 0, a_bits: ONE_BITS }
}

/// What every frame records before the components: the image is made
/// writable, cleared to opaque black, and made presentable.
pub open spec fn frame_prologue(image: u64) -> Seq<Command> {
    seq![
        barrier_command(
            image,
            IMAGE_LAYOUT_UNDEFINED,
            IMAGE_LAYOUT_TRANSFER_DST_OPTIMAL,
            PIPELINE_STAGE_TOP_OF_PIPE,
            PIPELINE_STAGE_TRANSFER,
            ACCESS_NONE,
            ACCESS_MEMORY_WRITE,
        ),
        clear_command(image, IMAGE_LAYOUT_TRANSFER_DST_OPTIMAL, opaque_black()),
        barrier_command(
            image,
            IMAGE_LAYOUT_TRANSFER_DST_OPTIMAL,
            IMAGE_LAYOUT_PRESENT_SRC,
            PIPELINE_STAGE_TRANSFER,
            PIPELINE_STAGE_BOTTOM_OF_PIPE,
            ACCESS_MEMORY_WRITE,
            ACCESS_NONE,
        ),
    ]
}

/// The end of an orchestrator: the device goes idle before any semaphore
/// goes, so that the GPU never signals one that is gone.
pub open spec fn teardown_plan(frames: Seq<FrameSync>) -> Seq<TeardownStep> {
    seq![TeardownStep::WaitIdle] + frames.map_values(
        |frame: FrameSync| TeardownStep::DestroySemaphore(frame.render_finished),
    ) + frames.map_values(|frame: FrameSync| TeardownStep::DestroySemaphore(frame.image_available))
}

/// The orchestrator as a mathematical value.
pub struct RendererView {
    pub ring: RingView,
    pub resources: TableView,
    /// Per slot, its recording unit.
    pub command_buffers: Seq<CommandBufferView>,
    /// Per slot, its native objects.
    pub frames: Seq<FrameSync>,
    pub present_mode: i32,
}

impl RendererView {
    /// What always holds of an orchestrator: every slot records under a
    /// holder of its own in a well-formed table, on its own native objects.
    pub open spec fn wf(self) -> bool {
        &&& self.ring.wf()
        &&& self.resources.wf()
        &&& self.command_buffers.len() == self.ring.slots()
        &&& self.frames.len() == self.ring.slots()
        &&& forall|i: int|
            0 <= i < self.command_buffers.len() ==> {
                &&& (#[trigger] self.command_buffers[i]).holder < self.resources.references.len()
                &&& self.command_buffers[i].handle == self.frames[i].command_buffer
                &&& self.command_buffers[i].fence == self.frames[i].fence
            }
        &&& forall|i: int, j: int|
            0 <= i < j < self.command_buffers.len() ==> (#[trigger] self.command_buffers[i]).holder
                != (#[trigger] self.command_buffers[j]).holder
    }

    /// The holder under which a slot records.
    pub open spec fn holder_of(self, slot: int) -> int {
        self.command_buffers[slot].holder as int
    }

    /// Whether a frame slot records under the holder.
    pub open spec fn is_slot_holder(self, holder: usize) -> bool {
        exists|slot: int|
            0 <= slot < self.command_buffers.len() && (#[trigger] self.command_buffers[slot]).holder
                == holder
    }

    /// Whether one of the first `count` frame slots records under the holder.
    pub open spec fn is_holder_below(self, count: int, holder: usize) -> bool {
        exists|slot: int|
            0 <= slot < count && slot < self.command_buffers.len() && (
            #[trigger] self.command_buffers[slot]).holder == holder
    }

    /// The recording unit a rebuild makes for a slot: a new holder, the
    /// slot's native objects, and nothing recorded.
    pub open spec fn rebuilt_unit(self, frames: Seq<FrameSync>, slot: int) -> CommandBufferView {
        CommandBufferView {
            holder: (self.resources.references.len() + slot) as usize,
            handle: frames[slot].command_buffer,
            fence: frames[slot].fence,
            commands: Seq::empty(),
            recording: false,
        }
    }

    /// Whether `after` is this orchestrator once its frame slots were
    /// rebuilt on the given native objects, and `destroy` the resources
    /// that went with the rebuild.
    ///
    /// There is one slot per entry of `frames`, none in flight, each with a
    /// new recording unit. The former units reference nothing any more;
    /// every other unit references what it did. Owners stay, and a resource
    /// is destroyed afterwards exactly when it was before, or when no owner
    /// holds it and no unit references it any more; `destroy` lists the
    /// newly destroyed ones, each once.
    pub open spec fn slots_rebuilt(
        self,
        frames: Seq<FrameSync>,
        after: RendererView,
        destroy: Seq<ResourceId>,
    ) -> bool {
        let known = self.resources.references.len();
        &&& after.ring == self.ring.resized(frames.len())
        &&& after.frames == frames
        &&& after.present_mode == self.present_mode
        &&& after.command_buffers.len() == frames.len()
        &&& forall|slot: int|
            0 <= slot < frames.len() ==> #[trigger] after.command_buffers[slot] == self.rebuilt_unit(
                frames,
                slot,
            )
        &&& after.resources.owners == self.resources.owners
        &&& after.resources.destroyed.len() == self.resources.destroyed.len()
        &&& after.resources.references.len() == known + frames.len()
        &&& forall|holder: usize|
            holder < known ==> #[trigger] after.resources.references[holder as int] == (
            if self.is_slot_holder(holder) {
                Seq::empty()
            } else {
                self.resources.references[holder as int]
            })
        &&& forall|holder: usize|
            known <= holder < known + frames.len()
                ==> #[trigger] after.resources.references[holder as int] == Seq::<
                ResourceId,
            >::empty()
        &&& forall|id: ResourceId|
            id < self.resources.owners.len() ==> #[trigger] after.resources.destroyed[id as int]
                == (self.resources.destroyed[id as int] || (self.resources.owners[id as int] == 0
                && !after.resources.is_referenced(id)))
        &&& forall|id: ResourceId|
            #[trigger] destroy.contains(id) <==> (self.resources.is_live(id)
                && !after.resources.is_live(id))
        &&& destroy.no_duplicates()
    }

    /// The resources a slot's recording references.
    pub open spec fn referenced_by(self, slot: int) -> Seq<ResourceId> {
        self.resources.references[self.holder_of(slot)]
    }

    /// Whether `after` has kept, for every slot that is in flight in both,
    /// the slot's native objects, its recording and everything it references.
    pub open spec fn pending_work_kept(self, after: RendererView) -> bool {
        forall|slot: int|
            0 <= slot < self.ring.slots() && #[trigger] self.ring.in_flight[slot] && slot
                < after.ring.slots() && after.ring.in_flight[slot] ==> {
                &&& after.frames[slot] == self.frames[slot]
                &&& after.command_buffers[slot] == self.command_buffers[slot]
                &&& after.referenced_by(slot) == self.referenced_by(slot)
            }
    }

    /// The submission of the current slot's recording for an acquired image.
    pub open spec fn submission(self, image_index: int) -> SubmitInfo {
        let slot = self.ring.frame_index as int;
        SubmitInfo {
            command_buffer: self.frames[slot].command_buffer,
            wait_semaphore: self.frames[slot].image_available,
            wait_dst_stage_mask: PIPELINE_STAGE_TRANSFER,
            signal_semaphore: self.frames[image_index].render_finished,
            fence: self.frames[slot].fence,
        }
    }
}

/// The frame orchestrator.
#[derive(Debug)]
pub struct Renderer {
    ring: FrameRing,
    resources: ResourceTable,
    command_buffers: Vec<CommandBuffer>,
    frames: Vec<FrameSync>,
    present_mode: i32,
}

impl View for Renderer {
    type V = RendererView;

    closed spec fn view(&self) -> RendererView {
        RendererView {
            ring: self.ring@,
            resources: self.resources@,
            command_buffers: Seq::new(self.command_buffers@.len(), |i: int| self.command_buffers@[i]@),
            frames: self.frames@,
            present_mode: self.present_mode,
        }
    }
}

impl Renderer {
    /// An orchestrator with one frame slot per entry of `frames`; it needs at
    /// least one. No slot is in flight, nothing is recorded, no resource is
    /// registered, and slot zero is next.
    pub fn new(frames: Vec<FrameSync>, vsync: bool) -> (made: Option<Self>)
        ensures
            made is Some <==> frames@.len() > 0,
            made matches Some(renderer) ==> {
                &&& renderer@.wf()
                &&& renderer@.ring == RingView::fresh(frames@.len())
                &&& renderer@.frames == frames@
                &&& renderer@.present_mode == requested_present_mode(vsync)
                &&& renderer@.resources.owners.len() == 0
                &&& renderer@.resources.references == Seq::new(
                    frames@.len(),
                    |i: int| Seq::<ResourceId>::empty(),
                )
                &&& forall|i: int|
                    0 <= i < frames@.len() ==> #[trigger] renderer@.command_buffers[i] == (
                    CommandBufferView {
                        holder: i as usize,
                        handle: frames@[i].command_buffer,
                        fence: frames@[i].fence,
                        commands: Seq::empty(),
                        recording: false,
                    })
            },
    {
        let ring = match FrameRing::new(frames.len()) {
            Some(ring) => ring,
            None => {
                return None;
            },
        };
        let mut resources = ResourceTable::new();
        let mut command_buffers: Vec<CommandBuffer> = Vec::new();
        let mut i: usize = 0;
        while i < frames.len()
            invariant
                i <= frames@.len(),
                resources@.wf(),
                resources@.owners.len() == 0,
                resources@.destroyed.len() == 0,
                resources@.references == Seq::new(i as nat, |j: int| Seq::<ResourceId>::empty()),
                command_buffers@.len() == i,
                forall|j: int|
                    0 <= j < i ==> (#[trigger] command_buffers@[j])@ == (CommandBufferView {
                        holder: j as usize,
                        handle: frames@[j].command_buffer,
                        fence: frames@[j].fence,
                        commands: Seq::empty(),
                        recording: false,
                    }),
            decreases frames@.len() - i,
        {
            let ghost before = resources@;
            let unit = CommandBuffer::new(&mut resources, frames[i].command_buffer, frames[i].fence);
            command_buffers.push(unit);
            proof {
                assert(resources@.references =~= Seq::new(
                    (i + 1) as nat,
                    |j: int| Seq::<ResourceId>::empty(),
                ));
                assert(resources@.owners =~= before.owners);
                assert(resources@.destroyed =~= before.destroyed);
            }
            i += 1;
        }
        let renderer = Renderer {
            ring,
            resources,
            command_buffers,
            frames,
            present_mode: present_mode_for(vsync),
        };
        Some(renderer)
    }

    /// The present mode asked for at start-up.
    pub fn present_mode(&self) -> (mode: i32)
        ensures
            mode == self@.present_mode,
    {
        self.present_mode
    }

    /// The number of frame slots.
    pub fn frame_count(&self) -> (count: usize)
        ensures
            count == self@.ring.slots(),
    {
        self.ring.slots()
    }

    /// The slot the current or next frame uses.
    pub fn frame_index(&self) -> (index: usize)
        ensures
            index == self@.ring.frame_index,
    {
        self.ring.frame_index()
    }

    /// Where the orchestrator stands within a frame.
    pub fn phase(&self) -> (phase: FramePhase)
        ensures
            phase == self@.ring.phase,
    {
        self.ring.phase()
    }

    /// Whether a slot has a submission that the GPU was not yet seen to finish.
    pub fn is_in_flight(&self, slot: usize) -> (busy: bool)
        ensures
            busy == (slot < self@.ring.slots() && self@.ring.in_flight[slot as int]),
    {
        self.ring.is_in_flight(slot)
    }

    /// The ownership table.
    pub fn resources(&self) -> (table: &ResourceTable)
        ensures
            table@ == self@.resources,
    {
        &self.resources
    }

    /// The recording unit of a slot.
    pub fn command_buffer(&self, slot: usize) -> (unit: Option<&CommandBuffer>)
        ensures
            unit is Some <==> slot < self@.command_buffers.len(),
            unit matches Some(found) ==> found@ == self@.command_buffers[slot as int],
    {
        if slot < self.command_buffers.len() {
            Some(&self.command_buffers[slot])
        } else {
            None
        }
    }

    /// Starts a frame on the current slot.
    ///
    /// Where the slot's previous submission was not yet seen to finish, the
    /// answer is to wait for its fence: the slot is not touched before that.
    /// Else the slot's callbacks are handed out to run. Fails between the
    /// steps of a frame or of a rebuild, changing nothing.
    pub fn draw_frame(&mut self) -> (outcome: Result<FrameAction, FrameError>)
        requires
            old(self)@.wf(),
        ensures
            final(self)@.wf(),
            old(self)@.pending_work_kept(final(self)@),
            final(self)@ == (RendererView { ring: old(self)@.ring.started(), ..old(self)@ }),
            outcome is Ok <==> old(self)@.ring.phase == FramePhase::Idle,
            outcome is Err ==> outcome matches Err(FrameError::OutOfTurn),
            outcome is Ok ==> (if old(self)@.ring.in_flight[old(self)@.ring.frame_index as int] {
                outcome matches Ok(FrameAction::WaitForFence { fence }) && fence == old(
                    self,
                )@.frames[old(self)@.ring.frame_index as int].fence
            } else {
                outcome matches Ok(FrameAction::RunCallbacks { callbacks }) && callbacks@ == old(
                    self,
                )@.ring.on_finish[old(self)@.ring.frame_index as int]
            }),
    {
        let slot = self.ring.frame_index();
        match self.ring.start() {
            Err(error) => Err(error),
            Ok(None) => Ok(FrameAction::WaitForFence { fence: self.frames[slot].fence }),
            Ok(Some(callbacks)) => Ok(FrameAction::RunCallbacks { callbacks }),
        }
    }

    /// Notes that the awaited fence was seen signaled: the slot is free, and
    /// its callbacks are handed out to run. Fails unless a fence is awaited.
    pub fn fence_signaled(&mut self) -> (outcome: Result<FrameAction, FrameError>)
        requires
            old(self)@.wf(),
        ensures
            final(self)@.wf(),
            old(self)@.pending_work_kept(final(self)@),
            final(self)@ == (RendererView { ring: old(self)@.ring.fence_signaled(), ..old(self)@ }),
            outcome is Ok <==> old(self)@.ring.phase == FramePhase::WaitingForFence,
            outcome is Err ==> outcome matches Err(FrameError::OutOfTurn),
            outcome is Ok ==> (outcome matches Ok(FrameAction::RunCallbacks { callbacks })
                && callbacks@ == old(self)@.ring.on_finish[old(self)@.ring.frame_index as int]),
    {
        match self.ring.fence_signaled() {
            Err(error) => Err(error),
            Ok(callbacks) => Ok(FrameAction::RunCallbacks { callbacks }),
        }
    }

    /// Notes that the callbacks have run; the next image is to be acquired
    /// with the slot's semaphore. Fails unless callbacks were handed out.
    pub fn callbacks_done(&mut self) -> (outcome: Result<FrameAction, FrameError>)
        requires
            old(self)@.wf(),
        ensures
            final(self)@.wf(),
            old(self)@.pending_work_kept(final(self)@),
            final(self)@ == (RendererView { ring: old(self)@.ring.callbacks_done(), ..old(self)@ }),
            outcome is Ok <==> old(self)@.ring.phase == FramePhase::RunningCallbacks,
            outcome is Err ==> outcome matches Err(FrameError::OutOfTurn),
            outcome is Ok ==> (outcome matches Ok(FrameAction::AcquireImage { signal_semaphore })
                && signal_semaphore == old(self)@.frames[old(
                self,
            )@.ring.frame_index as int].image_available),
    {
        let slot = self.ring.frame_index();
        match self.ring.callbacks_done() {
            Err(error) => Err(error),
            Ok(()) => Ok(
                FrameAction::AcquireImage { signal_semaphore: self.frames[slot].image_available },
            ),
        }
    }

    /// Gives the frame up because the surface changed under the acquire; the
    /// presentable images are to be rebuilt. Fails unless an image is awaited.
    pub fn acquire_out_of_date(&mut self) -> (outcome: Result<FrameAction, FrameError>)
        requires
            old(self)@.wf(),
        ensures
            final(self)@.wf(),
            old(self)@.pending_work_kept(final(self)@),
            final(self)@ == (RendererView {
                ring: old(self)@.ring.acquire_abandoned(),
                ..old(self)@
            }),
            outcome is Ok <==> old(self)@.ring.phase == FramePhase::Acquiring,
            outcome is Err ==> outcome matches Err(FrameError::OutOfTurn),
            outcome is Ok ==> outcome matches Ok(FrameAction::RecreateSwapchain),
    {
        match self.ring.acquire_abandoned() {
            Err(error) => Err(error),
            Ok(()) => Ok(FrameAction::RecreateSwapchain),
        }
    }

    /// Leaves a callback to run once the submission now being recorded is
    /// known to be complete. Fails unless a recording is under way.
    pub fn run_on_finish(&mut self, callback: u64) -> (outcome: Result<(), FrameError>)
        requires
            old(self)@.wf(),
        ensures
            final(self)@.wf(),
            old(self)@.pending_work_kept(final(self)@),
            final(self)@ == (RendererView {
                ring: old(self)@.ring.callback_queued(callback),
                ..old(self)@
            }),
            outcome == (if old(self)@.ring.phase is Recording {
                Ok::<(), FrameError>(())
            } else {
                Err::<(), FrameError>(FrameError::OutOfTurn)
            }),
    {
        self.ring.run_on_finish(callback)
    }

    /// Notes that the submission was made; the slot is in flight from now
    /// on, and the image is to be presented once rendering into it is done.
    /// Fails unless a submission is due.
    pub fn submitted(&mut self) -> (outcome: Result<FrameAction, FrameError>)
        requires
            old(self)@.wf(),
        ensures
            final(self)@.wf(),
            old(self)@.pending_work_kept(final(self)@),
            final(self)@ == (RendererView { ring: old(self)@.ring.submitted(), ..old(self)@ }),
            outcome is Ok <==> old(self)@.ring.phase is Submitting,
            outcome is Err ==> outcome matches Err(FrameError::OutOfTurn),
            outcome is Ok ==> (outcome matches Ok(
                FrameAction::Present { wait_semaphore, image_index },
            ) && image_index == old(self)@.ring.image() && wait_semaphore == old(
                self,
            )@.frames[image_index as int].render_finished),
    {
        match self.ring.submitted() {
            Err(error) => Err(error),
            Ok(image_index) => Ok(
                FrameAction::Present {
                    wait_semaphore: self.frames[image_index].render_finished,
                    image_index,
                },
            ),
        }
    }

    /// Notes that the image was queued for display: the frame is over and
    /// the next slot is up. Fails unless a present is due.
    pub fn presented(&mut self) -> (outcome: Result<(), FrameError>)
        requires
            old(self)@.wf(),
        ensures
            final(self)@.wf(),
            old(self)@.pending_work_kept(final(self)@),
            final(self)@ == (RendererView { ring: old(self)@.ring.presented(), ..old(self)@ }),
            outcome == (if old(self)@.ring.phase is Presenting {
                Ok::<(), FrameError>(())
            } else {
                Err::<(), FrameError>(FrameError::OutOfTurn)
            }),
    {
        self.ring.presented()
    }

    /// Asks for a rebuild of the presentable images. The device is to go
    /// idle first, so that no GPU work references the old images while they
    /// are replaced. Fails during a frame.
    pub fn recreate_window(&mut self) -> (outcome: Result<FrameAction, FrameError>)
        requires
            old(self)@.wf(),
        ensures
            final(self)@.wf(),
            old(self)@.pending_work_kept(final(self)@),
            final(self)@ == (RendererView {
                ring: old(self)@.ring.recreate_requested(),
                ..old(self)@
            }),
            outcome is Ok <==> old(self)@.ring.phase == FramePhase::Idle,
            outcome is Err ==> outcome matches Err(FrameError::OutOfTurn),
            outcome is Ok ==> outcome matches Ok(FrameAction::WaitIdle),
    {
        match self.ring.request_recreate() {
            Err(error) => Err(error),
            Ok(()) => Ok(FrameAction::WaitIdle),
        }
    }

    /// Notes that the device went idle: no slot is in flight any more, and
    /// the presentable images may be rebuilt. Fails unless a rebuild was
    /// asked for.
    pub fn device_idle(&mut self) -> (outcome: Result<FrameAction, FrameError>)
        requires
            old(self)@.wf(),
        ensures
            final(self)@.wf(),
            old(self)@.pending_work_kept(final(self)@),
            final(self)@ == (RendererView { ring: old(self)@.ring.device_idle(), ..old(self)@ }),
            outcome is Ok <==> old(self)@.ring.phase == FramePhase::AwaitingIdle,
            outcome is Err ==> outcome matches Err(FrameError::OutOfTurn),
            outcome is Ok ==> outcome matches Ok(FrameAction::BuildSwapchain),
    {
        match self.ring.device_idle() {
            Err(error) => Err(error),
            Ok(()) => Ok(FrameAction::BuildSwapchain),
        }
    }

    /// Notes that the presentable images were rebuilt, and rebuilds the
    /// frame slots to match: one slot per entry of `frames`, which holds the
    /// native objects of the new slots.
    ///
    /// The device is idle, so every earlier submission is complete. The
    /// former recording units let go of everything they referenced, the
    /// callbacks left for the former slots are handed out to run now, and
    /// the former slots' native objects come back to be given up. No slot
    /// is in flight afterwards, and the frame index is below the number of
    /// slots, whatever that number was before.
    ///
    /// Fails, changing nothing, unless the device was seen idle for the
    /// rebuild, and for a rebuild without any slot.
    pub fn window_recreated(&mut self, frames: Vec<FrameSync>) -> (outcome: Result<
        Rebuilt,
        RendererError,
    >)
        requires
            old(self)@.wf(),
        ensures
            final(self)@.wf(),
            old(self)@.pending_work_kept(final(self)@),
            outcome is Ok <==> old(self)@.ring.phase == FramePhase::Rebuilding && frames@.len() > 0,
            outcome matches Err(error) ==> final(self)@ == old(self)@ && error == (if old(
                self,
            )@.ring.phase != FramePhase::Rebuilding {
                RendererError::Frame(FrameError::OutOfTurn)
            } else {
                RendererError::Frame(FrameError::NoSlots)
            }),
            outcome matches Ok(rebuilt) ==> {
                &&& old(self)@.slots_rebuilt(frames@, final(self)@, rebuilt.destroy@)
                &&& rebuilt.retired@ == old(self)@.frames
                &&& rebuilt.callbacks@.len() == old(self)@.ring.on_finish.len()
                &&& forall|slot: int|
                    0 <= slot < rebuilt.callbacks@.len() ==> (#[trigger] rebuilt.callbacks@[slot])@
                        == old(self)@.ring.on_finish[slot]
                &&& final(self)@.ring.slots() == frames@.len()
                &&& final(self)@.ring.frame_index < frames@.len()
                &&& forall|slot: int|
                    0 <= slot < frames@.len() ==> !#[trigger] final(self)@.ring.in_flight[slot]
            },
    {
        match self.ring.phase() {
            FramePhase::Rebuilding => {},
            _ => {
                return Err(RendererError::Frame(FrameError::OutOfTurn));
            },
        }
        if frames.len() == 0 {
            return Err(RendererError::Frame(FrameError::NoSlots));
        }
        let ghost before = self@;
        let mut destroy: Vec<ResourceId> = Vec::new();
        let mut k: usize = 0;
        while k < self.command_buffers.len()
            invariant
                before == old(self)@,
                before.wf(),
                k <= self.command_buffers@.len(),
                self@.ring == before.ring,
                self@.command_buffers == before.command_buffers,
                self@.frames == before.frames,
                self@.present_mode == before.present_mode,
                self@.resources.wf(),
                self@.resources.owners == before.resources.owners,
                self@.resources.destroyed.len() == before.resources.destroyed.len(),
                self@.resources.references.len() == before.resources.references.len(),
                forall|id: ResourceId|
                    id < before.resources.destroyed.len() && before.resources.destroyed[id as int]
                        ==> #[trigger] self@.resources.destroyed[id as int],
                forall|holder: usize|
                    holder < before.resources.references.len()
                        ==> #[trigger] self@.resources.references[holder as int] == (
                    if before.is_holder_below(k as int, holder) {
                        Seq::empty()
                    } else {
                        before.resources.references[holder as int]
                    }),
                forall|id: ResourceId|
                    #[trigger] destroy@.contains(id) <==> (before.resources.is_live(id)
                        && !self@.resources.is_live(id)),
                destroy@.no_duplicates(),
            decreases self.command_buffers@.len() - k,
        {
            let ghost table = self@.resources;
            let ghost listed = destroy@;
            let holder = self.command_buffers[k].holder();
            let mut part = self.resources.release_references(holder);
            let ghost gone = part@;
            destroy.append(&mut part);
            proof {
                let now = self@.resources;
                assert(before.command_buffers[k as int].holder == holder);
                assert(holder < before.resources.references.len());
                assert(destroy@ =~= listed + gone);
                assert forall|h: usize|
                    h < before.resources.references.len() implies #[trigger] now.references[h as int]
                    == (if before.is_holder_below(k + 1, h) {
                    Seq::empty()
                } else {
                    before.resources.references[h as int]
                }) by {
                    if h == holder {
                        assert(before.is_holder_below(k + 1, h));
                    } else {
                        assert(now.references[h as int] == table.references[h as int]);
                        if before.is_holder_below(k as int, h) {
                            let s = choose|s: int|
                                0 <= s < k && s < before.command_buffers.len() && (
                                #[trigger] before.command_buffers[s]).holder == h;
                            assert(before.is_holder_below(k + 1, h));
                        }
                        if before.is_holder_below(k + 1, h) {
                            let s = choose|s: int|
                                0 <= s < k + 1 && s < before.command_buffers.len() && (
                                #[trigger] before.command_buffers[s]).holder == h;
                            assert(s != k);
                            assert(before.is_holder_below(k as int, h));
                        }
                    }
                }
                assert forall|id: ResourceId|
                    id < before.resources.destroyed.len()
                        && before.resources.destroyed[id as int] implies #[trigger] now.destroyed[id as int] by {
                    assert(table.destroyed[id as int]);
                    assert(now.destroyed[id as int] == (table.destroyed[id as int] || (
                    table.owners[id as int] == 0 && !now.is_referenced(id))));
                }
                assert forall|id: ResourceId| table.is_live(id) implies before.resources.is_live(
                    id,
                ) by {
                    if !before.resources.is_live(id) {
                        assert(before.resources.destroyed[id as int]);
                        assert(table.destroyed[id as int]);
                    }
                }
                assert forall|id: ResourceId| !table.is_live(id) implies !now.is_live(id) by {
                    if id < table.owners.len() {
                        assert(now.destroyed[id as int] == (table.destroyed[id as int] || (
                        table.owners[id as int] == 0 && !now.is_referenced(id))));
                    }
                }
                assert forall|id: ResourceId|
                    #[trigger] destroy@.contains(id) <==> (before.resources.is_live(id)
                        && !now.is_live(id)) by {
                    if destroy@.contains(id) {
                        let i = choose|i: int| 0 <= i < destroy@.len() && destroy@[i] == id;
                        if i < listed.len() {
                            assert(listed[i] == id);
                            assert(listed.contains(id));
                        } else {
                            assert(gone[i - listed.len()] == id);
                            assert(gone.contains(id));
                        }
                    }
                    if before.resources.is_live(id) && !now.is_live(id) {
                        if table.is_live(id) {
                            assert(gone.contains(id));
                            let i = choose|i: int| 0 <= i < gone.len() && gone[i] == id;
                            assert(destroy@[listed.len() + i] == id);
                        } else {
                            assert(listed.contains(id));
                            let i = choose|i: int| 0 <= i < listed.len() && listed[i] == id;
                            assert(destroy@[i] == id);
                        }
                    }
                }
                assert forall|i: int, j: int|
                    0 <= i < destroy@.len() && 0 <= j < destroy@.len() && i != j implies destroy@[i]
                    != destroy@[j] by {
                    if i < listed.len() && j < listed.len() {
                        assert(listed[i] != listed[j]);
                    } else if i >= listed.len() && j >= listed.len() {
                        let a = i - listed.len();
                        let b = j - listed.len();
                        if a < b {
                            assert(gone[a] < gone[b]);
                        } else {
                            assert(gone[b] < gone[a]);
                        }
                    } else {
                        let inner = if i < listed.len() {
                            i
                        } else {
                            j
                        };
                        let outer = if i < listed.len() {
                            j
                        } else {
                            i
                        };
                        assert(listed.contains(listed[inner]));
                        assert(gone.contains(gone[outer - listed.len()]));
                        assert(!table.is_live(listed[inner]));
                        assert(table.is_live(gone[outer - listed.len()]));
                    }
                }
            }
            k += 1;
        }
        let ghost cleared = self@.resources;
        let mut units: Vec<CommandBuffer> = Vec::new();
        let mut i: usize = 0;
        proof {
            assert(cleared.references + Seq::new(0, |j: int| Seq::<ResourceId>::empty())
                =~= cleared.references);
        }
        while i < frames.len()
            invariant
                i <= frames@.len(),
                self@.ring == before.ring,
                self@.frames == before.frames,
                self@.present_mode == before.present_mode,
                cleared.references.len() == before.resources.references.len(),
                self@.resources.wf(),
                self@.resources.owners == cleared.owners,
                self@.resources.destroyed == cleared.destroyed,
                self@.resources.references == cleared.references + Seq::new(
                    i as nat,
                    |j: int| Seq::<ResourceId>::empty(),
                ),
                units@.len() == i,
                forall|j: int| 0 <= j < i ==> (#[trigger] units@[j])@ == before.rebuilt_unit(frames@, j),
            decreases frames@.len() - i,
        {
            let unit = CommandBuffer::new(&mut self.resources, frames[i].command_buffer, frames[i].fence);
            units.push(unit);
            proof {
                assert(self@.resources.references =~= cleared.references + Seq::new(
                    (i + 1) as nat,
                    |j: int| Seq::<ResourceId>::empty(),
                ));
            }
            i += 1;
        }
        let total = self.resources.holder_count();
        let callbacks = match self.ring.resized(frames.len()) {
            Ok(callbacks) => callbacks,
            Err(error) => {
                proof {
                    assert(false);
                }
                return Err(RendererError::Frame(error));
            },
        };
        let mut retired = frames;
        std::mem::swap(&mut self.frames, &mut retired);
        self.command_buffers = units;
        proof {
            let after = self@;
            let known = before.resources.references.len();
            assert(total == known + frames@.len());
            assert(after.frames == frames@);
            assert forall|slot: int| 0 <= slot < frames@.len() implies #[trigger] after.command_buffers[slot]
                == before.rebuilt_unit(frames@, slot) by {
                assert(units@[slot]@ == before.rebuilt_unit(frames@, slot));
            }
            assert forall|h: usize| h < known implies #[trigger] after.resources.references[h as int]
                == (if before.is_slot_holder(h) {
                Seq::empty()
            } else {
                before.resources.references[h as int]
            }) by {
                assert(after.resources.references[h as int] == cleared.references[h as int]);
                if before.is_slot_holder(h) {
                    let s = choose|s: int|
                        0 <= s < before.command_buffers.len() && (
                        #[trigger] before.command_buffers[s]).holder == h;
                    assert(before.is_holder_below(before.command_buffers.len() as int, h));
                }
                if before.is_holder_below(before.command_buffers.len() as int, h) {
                    let s = choose|s: int|
                        0 <= s < before.command_buffers.len() && s < before.command_buffers.len() && (
                        #[trigger] before.command_buffers[s]).holder == h;
                    assert(before.is_slot_holder(h));
                }
            }
            assert forall|h: usize|
                known <= h < known + frames@.len() implies #[trigger] after.resources.references[h as int]
                == Seq::<ResourceId>::empty() by {}
            assert forall|id: ResourceId|
                id < before.resources.owners.len() implies #[trigger] after.resources.destroyed[id as int]
                == (before.resources.destroyed[id as int] || (before.resources.owners[id as int]
                == 0 && !after.resources.is_referenced(id))) by {
                if after.resources.is_referenced(id) {
                    let (h, j) = choose|h: int, j: int|
                        0 <= h < after.resources.references.len() && 0 <= j
                            < after.resources.references[h].len()
                            && #[trigger] after.resources.references[h][j] == id;
                    assert(after.resources.is_live(after.resources.references[h][j]));
                }
            }
            assert forall|a: int, b: int|
                0 <= a < b < after.command_buffers.len() implies (
            #[trigger] after.command_buffers[a]).holder != (
            #[trigger] after.command_buffers[b]).holder by {
                assert(after.command_buffers[a] == before.rebuilt_unit(frames@, a));
                assert(after.command_buffers[b] == before.rebuilt_unit(frames@, b));
            }
            assert forall|slot: int| 0 <= slot < after.command_buffers.len() implies (
            #[trigger] after.command_buffers[slot]).holder < after.resources.references.len()
                && after.command_buffers[slot].handle == after.frames[slot].command_buffer
                && after.command_buffers[slot].fence == after.frames[slot].fence by {
                assert(after.command_buffers[slot] == before.rebuilt_unit(frames@, slot));
            }
        }
        Ok(Rebuilt { callbacks, destroy, retired })
    }

    /// Gives a handle of its own to the pipeline that `store` holds under a
    /// key: the pipeline gets one more owner, so that it stays valid for
    /// the holder whatever is reloaded meanwhile, until the holder lets go.
    ///
    /// Gives nothing, and changes nothing, for a key that names no pipeline
    /// and for a pipeline that no owner holds any more.
    pub fn get_pipeline(&mut self, store: &PipelineStore, key: PipelineKey) -> (found: Option<
        ComputePipeline,
    >)
        requires
            old(self)@.wf(),
        ensures
            final(self)@.wf(),
            old(self)@.pending_work_kept(final(self)@),
            found is Some <==> store@.pipeline(key) is Some && old(self)@.resources.is_owned(
                store@.pipeline(key)->Some_0.resource,
            ),
            found is None ==> final(self)@ == old(self)@,
            found matches Some(pipeline) ==> {
                &&& pipeline@ == store@.pipeline(key)->Some_0@
                &&& final(self)@ == (RendererView {
                    resources: TableView {
                        owners: old(self)@.resources.owners.update(
                            pipeline.resource as int,
                            TableView::owners_after_retain(
                                old(self)@.resources.owners[pipeline.resource as int],
                            ),
                        ),
                        ..old(self)@.resources
                    },
                    ..old(self)@
                })
            },
    {
        match store.get(key) {
            None => None,
            Some(pipeline) => match self.resources.retain(pipeline.resource) {
                Ok(()) => Some(pipeline),
                Err(_) => None,
            },
        }
    }

    /// Reloads the pipelines of `store` whose shader source is the file at
    /// `changed`, as `PipelineStore::reload` does with the given builds:
    /// every pipeline to reload is visited, and a failed build keeps no
    /// other from taking effect. The store's hold on each pipeline that is
    /// then outside the store is let go of.
    ///
    /// The first answer lists the resources whose native objects are to be
    /// destroyed now. A replaced pipeline that another owner holds, or that
    /// a recording still references, is not among them: it stays valid
    /// until they let go of it.
    pub fn reload_pipelines(
        &mut self,
        store: &mut PipelineStore,
        changed: &ShaderPath,
        builds: Vec<Result<ComputePipeline, PipelineErr>>,
    ) -> (outcome: (Vec<ResourceId>, Result<(), PipelineErr>))
        requires
            old(self)@.wf(),
            old(store)@.wf(),
        ensures
            final(self)@.wf(),
            final(store)@.wf(),
            old(self)@.pending_work_kept(final(self)@),
            final(store)@.order == old(store)@.order,
            final(store)@.entries == old(store)@.entries_reloaded(changed@, builds@),
            outcome.1 == old(store)@.reload_outcome(changed@, builds@),
            ({
                let replaced = old(store)@.given_up_by_reload(changed@, builds@).map_values(
                    |pipeline: ComputePipeline| pipeline.resource,
                );
                &&& outcome.0@ == old(self)@.resources.destroyed_by_release(replaced)
                &&& final(self)@ == (RendererView {
                    resources: old(self)@.resources.released_all(replaced),
                    ..old(self)@
                })
            }),
    {
        let (replaced, report) = store.reload(changed, builds);
        let mut ids: Vec<ResourceId> = Vec::new();
        let mut i: usize = 0;
        while i < replaced.len()
            invariant
                i <= replaced@.len(),
                ids@ == replaced@.subrange(0, i as int).map_values(
                    |pipeline: ComputePipeline| pipeline.resource,
                ),
            decreases replaced@.len() - i,
        {
            ids.push(replaced[i].resource);
            proof {
                let done = replaced@.subrange(0, i as int);
                let next = replaced@.subrange(0, i + 1);
                assert(next =~= done.push(replaced@[i as int]));
                assert(ids@ =~= next.map_values(|pipeline: ComputePipeline| pipeline.resource));
            }
            i += 1;
        }
        proof {
            assert(replaced@.subrange(0, replaced@.len() as int) =~= replaced@);
        }
        let destroy = self.resources.release_all(&ids);
        (destroy, report)
    }

    /// Registers a new resource with one owner.
    pub fn create_resource(&mut self) -> (id: ResourceId)
        requires
            old(self)@.wf(),
        ensures
            final(self)@.wf(),
            old(self)@.pending_work_kept(final(self)@),
            id == old(self)@.resources.owners.len(),
            final(self)@ == (RendererView {
                resources: TableView {
                    owners: old(self)@.resources.owners.push(1),
                    destroyed: old(self)@.resources.destroyed.push(false),
                    ..old(self)@.resources
                },
                ..old(self)@
            }),
    {
        self.resources.create()
    }

    /// Adds an owner to a resource, as `ResourceTable::retain` does.
    pub fn retain_resource(&mut self, id: ResourceId) -> (outcome: Result<(), ResourceError>)
        requires
            old(self)@.wf(),
        ensures
            final(self)@.wf(),
            old(self)@.pending_work_kept(final(self)@),
            outcome is Ok <==> old(self)@.resources.is_live(id) && old(
                self,
            )@.resources.owners[id as int] > 0,
            outcome is Err ==> outcome == Err::<(), ResourceError>(ResourceError::Stale)
                && final(self)@ == old(self)@,
            outcome is Ok ==> final(self)@ == (RendererView {
                resources: TableView {
                    owners: old(self)@.resources.owners.update(
                        id as int,
                        TableView::owners_after_retain(old(self)@.resources.owners[id as int]),
                    ),
                    ..old(self)@.resources
                },
                ..old(self)@
            }),
    {
        self.resources.retain(id)
    }

    /// Takes an owner away from a resource, as `ResourceTable::release` does.
    ///
    /// The answer says whether the native object is to be destroyed now. A
    /// resource that a recording still references is never destroyed here:
    /// it goes when the last recording that references it is begun anew.
    pub fn release_resource(&mut self, id: ResourceId) -> (outcome: Result<bool, ResourceError>)
        requires
            old(self)@.wf(),
        ensures
            final(self)@.wf(),
            old(self)@.pending_work_kept(final(self)@),
            outcome is Ok <==> old(self)@.resources.is_live(id) && old(
                self,
            )@.resources.owners[id as int] > 0,
            outcome is Err ==> outcome == Err::<bool, ResourceError>(ResourceError::Stale)
                && final(self)@ == old(self)@,
            outcome matches Ok(destroy_now) ==> {
                let left = TableView::owners_after_release(old(self)@.resources.owners[id as int]);
                &&& destroy_now == (left == 0 && !old(self)@.resources.is_referenced(id))
                &&& final(self)@ == (RendererView {
                    resources: TableView {
                        owners: old(self)@.resources.owners.update(id as int, left),
                        destroyed: old(self)@.resources.destroyed.update(id as int, destroy_now),
                        ..old(self)@.resources
                    },
                    ..old(self)@
                })
            },
    {
        self.resources.release(id)
    }

    /// Notes which presentable image was acquired, and begins the slot's
    /// recording for it.
    ///
    /// The slot's previous recording is dropped and its references are
    /// released; the answer lists the resources whose native objects are to
    /// be destroyed now. The new recording starts with the frame prologue on
    /// `image`. Fails, changing nothing, unless an image is awaited, and on
    /// an index that names no image.
    pub fn image_acquired(&mut self, image_index: usize, image: &Image) -> (outcome: Result<
        FrameAction,
        FrameError,
    >)
        requires
            old(self)@.wf(),
        ensures
            final(self)@.wf(),
            old(self)@.pending_work_kept(final(self)@),
            outcome is Ok <==> old(self)@.ring.phase == FramePhase::Acquiring && image_index < old(
                self,
            )@.ring.slots(),
            outcome is Err ==> final(self)@ == old(self)@ && outcome == (if old(self)@.ring.phase
                != FramePhase::Acquiring {
                Err::<FrameAction, FrameError>(FrameError::OutOfTurn)
            } else {
                Err::<FrameAction, FrameError>(FrameError::NoSuchImage)
            }),
            outcome is Ok ==> ({
                let slot = old(self)@.ring.frame_index as int;
                &&& outcome matches Ok(FrameAction::Record { image_index: acquired, destroy })
                    && acquired == image_index && old(self)@.resources.references_released(
                    old(self)@.command_buffers[slot].holder,
                    final(self)@.resources,
                    destroy@,
                )
                &&& final(self)@.ring == old(self)@.ring.image_acquired(image_index)
                &&& final(self)@.frames == old(self)@.frames
                &&& final(self)@.present_mode == old(self)@.present_mode
                &&& final(self)@.command_buffers == old(self)@.command_buffers.update(
                    slot,
                    CommandBufferView {
                        commands: frame_prologue(image.image),
                        recording: true,
                        ..old(self)@.command_buffers[slot]
                    },
                )
            }),
    {
        let slot = self.ring.frame_index();
        match self.ring.image_acquired(image_index) {
            Err(error) => {
                return Err(error);
            },
            Ok(()) => {},
        }
        let ghost before = self.command_buffers@[slot as int]@;
        let mut unit = self.command_buffers.remove(slot);
        let destroy = unit.begin(&mut self.resources);
        unit.image_barrier(
            image,
            IMAGE_LAYOUT_UNDEFINED,
            IMAGE_LAYOUT_TRANSFER_DST_OPTIMAL,
            PIPELINE_STAGE_TOP_OF_PIPE,
            PIPELINE_STAGE_TRANSFER,
            ACCESS_NONE,
            ACCESS_MEMORY_WRITE,
        );
        unit.clear_color_image(
            image,
            IMAGE_LAYOUT_TRANSFER_DST_OPTIMAL,
            ClearColor { r_bits: 0, g_bits: 0, b_bits: 0, a_bits: ONE_BITS },
        );
        unit.image_barrier(
            image,
            IMAGE_LAYOUT_TRANSFER_DST_OPTIMAL,
            IMAGE_LAYOUT_PRESENT_SRC,
            PIPELINE_STAGE_TRANSFER,
            PIPELINE_STAGE_BOTTOM_OF_PIPE,
            ACCESS_MEMORY_WRITE,
            ACCESS_NONE,
        );
        proof {
            assert(unit@.commands =~= frame_prologue(image.image));
        }
        self.command_buffers.insert(slot, unit);
        proof {
            assert(self@.command_buffers =~= old(self)@.command_buffers.update(
                slot as int,
                CommandBufferView {
                    commands: frame_prologue(image.image),
                    recording: true,
                    ..before
                },
            ));
        }
        Ok(FrameAction::Record { image_index, destroy })
    }

    /// Takes the outcome of an acquire on `swapchain`.
    ///
    /// An acquired image begins the slot's recording, as `image_acquired`
    /// does with that image. A changed surface gives the frame up, as
    /// `acquire_out_of_date` does. A driver failure is reported and changes
    /// nothing, and so does an image the swapchain does not have.
    pub fn acquired(&mut self, outcome: AcquireOutcome, swapchain: &Swapchain) -> (step: Result<
        FrameAction,
        RendererError,
    >)
        requires
            old(self)@.wf(),
        ensures
            final(self)@.wf(),
            old(self)@.pending_work_kept(final(self)@),
            step is Ok <==> old(self)@.ring.phase == FramePhase::Acquiring && match outcome {
                AcquireOutcome::Image(index) => index < swapchain@.images.len() && index < old(
                    self,
                )@.ring.slots(),
                AcquireOutcome::OutOfDate => true,
                AcquireOutcome::Fatal(_) => false,
            },
            step is Err ==> final(self)@ == old(self)@ && step == (match outcome {
                AcquireOutcome::Fatal(code) => Err::<FrameAction, RendererError>(
                    RendererError::Device(code),
                ),
                AcquireOutcome::OutOfDate => Err::<FrameAction, RendererError>(
                    RendererError::Frame(FrameError::OutOfTurn),
                ),
                AcquireOutcome::Image(index) => if old(self)@.ring.phase != FramePhase::Acquiring {
                    Err::<FrameAction, RendererError>(RendererError::Frame(FrameError::OutOfTurn))
                } else {
                    Err::<FrameAction, RendererError>(RendererError::Frame(FrameError::NoSuchImage))
                },
            }),
            step is Ok && outcome is OutOfDate ==> final(self)@ == (RendererView {
                ring: old(self)@.ring.acquire_abandoned(),
                ..old(self)@
            }) && step matches Ok(FrameAction::RecreateSwapchain),
            step is Ok && outcome is Image ==> ({
                let slot = old(self)@.ring.frame_index as int;
                let index = outcome->Image_0;
                &&& step matches Ok(FrameAction::Record { image_index: acquired, destroy })
                    && acquired == index && old(self)@.resources.references_released(
                    old(self)@.command_buffers[slot].holder,
                    final(self)@.resources,
                    destroy@,
                )
                &&& final(self)@.ring == old(self)@.ring.image_acquired(index)
                &&& final(self)@.frames == old(self)@.frames
                &&& final(self)@.present_mode == old(self)@.present_mode
                &&& final(self)@.command_buffers == old(self)@.command_buffers.update(
                    slot,
                    CommandBufferView {
                        commands: frame_prologue(swapchain@.images[index as int].image),
                        recording: true,
                        ..old(self)@.command_buffers[slot]
                    },
                )
            }),
    {
        match outcome {
            AcquireOutcome::Fatal(code) => Err(RendererError::Device(code)),
            AcquireOutcome::OutOfDate => match self.acquire_out_of_date() {
                Ok(action) => Ok(action),
                Err(error) => Err(RendererError::Frame(error)),
            },
            AcquireOutcome::Image(index) => {
                match self.ring.phase() {
                    FramePhase::Acquiring => {},
                    _ => {
                        return Err(RendererError::Frame(FrameError::OutOfTurn));
                    },
                }
                if index >= swapchain.get_image_count() {
                    return Err(RendererError::Frame(FrameError::NoSuchImage));
                }
                let image = swapchain.get_images()[index];
                match self.image_acquired(index, &image) {
                    Ok(action) => Ok(action),
                    Err(error) => Err(RendererError::Frame(error)),
                }
            },
        }
    }

    /// Takes the outcome of a present, which ends the frame.
    ///
    /// The answer says whether the presentable images can go on being used;
    /// where the surface changed they cannot, and are to be rebuilt before
    /// the next frame. A driver failure is reported and changes nothing.
    pub fn present_finished(&mut self, outcome: PresentOutcome) -> (step: Result<bool, RendererError>)
        requires
            old(self)@.wf(),
        ensures
            final(self)@.wf(),
            old(self)@.pending_work_kept(final(self)@),
            step == (match outcome {
                PresentOutcome::Fatal(code) => Err::<bool, RendererError>(RendererError::Device(code)),
                _ => if old(self)@.ring.phase is Presenting {
                    Ok::<bool, RendererError>(outcome == PresentOutcome::Presented)
                } else {
                    Err::<bool, RendererError>(RendererError::Frame(FrameError::OutOfTurn))
                },
            }),
            step is Err ==> final(self)@ == old(self)@,
            step is Ok ==> final(self)@ == (RendererView {
                ring: old(self)@.ring.presented(),
                ..old(self)@
            }),
    {
        match outcome {
            PresentOutcome::Fatal(code) => Err(RendererError::Device(code)),
            PresentOutcome::Presented => match self.presented() {
                Ok(()) => Ok(true),
                Err(error) => Err(RendererError::Frame(error)),
            },
            PresentOutcome::OutOfDate => match self.presented() {
                Ok(()) => Ok(false),
                Err(error) => Err(RendererError::Frame(error)),
            },
        }
    }

    /// Records a command into the slot's recording. Fails unless a recording
    /// is under way.
    pub fn record(&mut self, command: Command) -> (outcome: Result<(), FrameError>)
        requires
            old(self)@.wf(),
        ensures
            final(self)@.wf(),
            old(self)@.pending_work_kept(final(self)@),
            outcome == (if old(self)@.ring.phase is Recording {
                Ok::<(), FrameError>(())
            } else {
                Err::<(), FrameError>(FrameError::OutOfTurn)
            }),
            outcome is Err ==> final(self)@ == old(self)@,
            outcome is Ok ==> final(self)@ == (RendererView {
                command_buffers: old(self)@.command_buffers.update(
                    old(self)@.ring.frame_index as int,
                    old(self)@.command_buffers[old(self)@.ring.frame_index as int].with(command),
                ),
                ..old(self)@
            }),
    {
        match self.ring.phase() {
            FramePhase::Recording { image_index } => {},
            _ => {
                return Err(FrameError::OutOfTurn);
            },
        }
        let slot = self.ring.frame_index();
        let ghost before = self.command_buffers@[slot as int]@;
        let mut unit = self.command_buffers.remove(slot);
        unit.record(command);
        self.command_buffers.insert(slot, unit);
        proof {
            assert(self@.command_buffers =~= old(self)@.command_buffers.update(
                slot as int,
                before.with(command),
            ));
        }
        Ok(())
    }

    /// Records the binding of a pipeline into the slot's recording, which
    /// from then on references the pipeline.
    ///
    /// Fails, changing nothing, unless a recording is under way, and on a
    /// pipeline whose native object is gone.
    pub fn bind_pipeline<P: Pipeline>(&mut self, pipeline: &P) -> (outcome: Result<
        (),
        RendererError,
    >)
        requires
            old(self)@.wf(),
        ensures
            final(self)@.wf(),
            old(self)@.pending_work_kept(final(self)@),
            outcome == (if !(old(self)@.ring.phase is Recording) {
                Err::<(), RendererError>(RendererError::Frame(FrameError::OutOfTurn))
            } else if !old(self)@.resources.is_live(pipeline.resource_id()) {
                Err::<(), RendererError>(RendererError::Resource(ResourceError::Stale))
            } else {
                Ok::<(), RendererError>(())
            }),
            outcome is Err ==> final(self)@ == old(self)@,
            outcome is Ok ==> ({
                let slot = old(self)@.ring.frame_index as int;
                final(self)@ == (RendererView {
                    command_buffers: old(self)@.command_buffers.update(
                        slot,
                        old(self)@.command_buffers[slot].with(
                            Command::BindPipeline {
                                bind_point: pipeline.point(),
                                pipeline: pipeline.native(),
                            },
                        ),
                    ),
                    resources: TableView {
                        references: old(self)@.resources.references.update(
                            old(self)@.holder_of(slot),
                            old(self)@.referenced_by(slot).push(pipeline.resource_id()),
                        ),
                        ..old(self)@.resources
                    },
                    ..old(self)@
                })
            }),
    {
        match self.ring.phase() {
            FramePhase::Recording { image_index } => {},
            _ => {
                return Err(RendererError::Frame(FrameError::OutOfTurn));
            },
        }
        let slot = self.ring.frame_index();
        let ghost before = self.command_buffers@[slot as int]@;
        let mut unit = self.command_buffers.remove(slot);
        let bound = unit.bind_pipeline(&mut self.resources, pipeline);
        self.command_buffers.insert(slot, unit);
        proof {
            assert(self@.command_buffers =~= old(self)@.command_buffers.update(slot as int, unit@));
            if bound is Err {
                assert(self@.command_buffers =~= old(self)@.command_buffers);
            }
        }
        match bound {
            Err(error) => Err(RendererError::Resource(error)),
            Ok(()) => Ok(()),
        }
    }

    /// Records the push of images as storage images into the slot's
    /// recording, which from then on references each of them.
    ///
    /// Fails, changing nothing, unless a recording is under way, and where
    /// the native object of one of the images is gone.
    pub fn bind_push_descriptor_images<P: Pipeline>(
        &mut self,
        pipeline: &P,
        images: &Vec<Image>,
    ) -> (outcome: Result<(), RendererError>)
        requires
            old(self)@.wf(),
        ensures
            final(self)@.wf(),
            old(self)@.pending_work_kept(final(self)@),
            outcome == (if !(old(self)@.ring.phase is Recording) {
                Err::<(), RendererError>(RendererError::Frame(FrameError::OutOfTurn))
            } else if exists|i: int|
                0 <= i < images@.len() && !old(self)@.resources.is_live(
                    #[trigger] images@[i].resource,
                ) {
                Err::<(), RendererError>(RendererError::Resource(ResourceError::Stale))
            } else {
                Ok::<(), RendererError>(())
            }),
            outcome is Err ==> final(self)@ == old(self)@,
            outcome is Ok ==> ({
                let slot = old(self)@.ring.frame_index as int;
                let pushed = final(self)@.command_buffers[slot].commands.last();
                &&& crate::command_buffer::pushes_storage_images(
                    pushed,
                    pipeline.point(),
                    pipeline.native_layout(),
                    images@,
                )
                &&& final(self)@ == (RendererView {
                    command_buffers: old(self)@.command_buffers.update(
                        slot,
                        old(self)@.command_buffers[slot].with(pushed),
                    ),
                    resources: TableView {
                        references: old(self)@.resources.references.update(
                            old(self)@.holder_of(slot),
                            old(self)@.referenced_by(slot) + crate::command_buffer::resources_of(
                                images@,
                            ),
                        ),
                        ..old(self)@.resources
                    },
                    ..old(self)@
                })
            }),
    {
        match self.ring.phase() {
            FramePhase::Recording { image_index } => {},
            _ => {
                return Err(RendererError::Frame(FrameError::OutOfTurn));
            },
        }
        let slot = self.ring.frame_index();
        let mut unit = self.command_buffers.remove(slot);
        let bound = unit.bind_push_descriptor_images(&mut self.resources, pipeline, images);
        self.command_buffers.insert(slot, unit);
        proof {
            assert(self@.command_buffers =~= old(self)@.command_buffers.update(slot as int, unit@));
            if bound is Err {
                assert(self@.command_buffers =~= old(self)@.command_buffers);
            }
        }
        match bound {
            Err(error) => Err(RendererError::Resource(error)),
            Ok(()) => Ok(()),
        }
    }

    /// Ends the slot's recording. The fence is to be reset and the recording
    /// submitted: it waits for the slot's image at the transfer stage and
    /// signals the image's rendering semaphore and the slot's fence. Fails
    /// unless a recording is under way.
    pub fn end_recording(&mut self) -> (outcome: Result<FrameAction, FrameError>)
        requires
            old(self)@.wf(),
        ensures
            final(self)@.wf(),
            old(self)@.pending_work_kept(final(self)@),
            outcome is Ok <==> old(self)@.ring.phase is Recording,
            outcome is Err ==> final(self)@ == old(self)@ && outcome matches Err(
                FrameError::OutOfTurn,
            ),
            outcome is Ok ==> ({
                let slot = old(self)@.ring.frame_index as int;
                &&& outcome matches Ok(FrameAction::Submit { reset_fence, info }) && reset_fence
                    == old(self)@.frames[slot].fence && info == old(self)@.submission(
                    old(self)@.ring.image() as int,
                )
                &&& final(self)@ == (RendererView {
                    ring: old(self)@.ring.recorded(),
                    command_buffers: old(self)@.command_buffers.update(
                        slot,
                        CommandBufferView { recording: false, ..old(self)@.command_buffers[slot] },
                    ),
                    ..old(self)@
                })
            }),
    {
        let slot = self.ring.frame_index();
        let image_index = match self.ring.recorded() {
            Err(error) => {
                return Err(error);
            },
            Ok(image_index) => image_index,
        };
        let ghost before = self.command_buffers@[slot as int]@;
        let mut unit = self.command_buffers.remove(slot);
        unit.end();
        self.command_buffers.insert(slot, unit);
        proof {
            assert(self@.command_buffers =~= old(self)@.command_buffers.update(
                slot as int,
                CommandBufferView { recording: false, ..before },
            ));
        }
        Ok(
            FrameAction::Submit {
                reset_fence: self.frames[slot].fence,
                info: SubmitInfo {
                    command_buffer: self.frames[slot].command_buffer,
                    wait_semaphore: self.frames[slot].image_available,
                    wait_dst_stage_mask: PIPELINE_STAGE_TRANSFER,
                    signal_semaphore: self.frames[image_index].render_finished,
                    fence: self.frames[slot].fence,
                },
            },
        )
    }

    /// Records the push of one image as a storage image into the slot's
    /// recording, which from then on references it. Fails as
    /// `bind_push_descriptor_images` does.
    pub fn bind_push_descriptor_image<P: Pipeline>(&mut self, pipeline: &P, image: &Image) -> (outcome:
        Result<(), RendererError>)
        requires
            old(self)@.wf(),
        ensures
            final(self)@.wf(),
            old(self)@.pending_work_kept(final(self)@),
            outcome == (if !(old(self)@.ring.phase is Recording) {
                Err::<(), RendererError>(RendererError::Frame(FrameError::OutOfTurn))
            } else if !old(self)@.resources.is_live(image.resource) {
                Err::<(), RendererError>(RendererError::Resource(ResourceError::Stale))
            } else {
                Ok::<(), RendererError>(())
            }),
            outcome is Err ==> final(self)@ == old(self)@,
            outcome is Ok ==> ({
                let slot = old(self)@.ring.frame_index as int;
                let pushed = final(self)@.command_buffers[slot].commands.last();
                &&& crate::command_buffer::pushes_storage_images(
                    pushed,
                    pipeline.point(),
                    pipeline.native_layout(),
                    seq![*image],
                )
                &&& final(self)@ == (RendererView {
                    command_buffers: old(self)@.command_buffers.update(
                        slot,
                        old(self)@.command_buffers[slot].with(pushed),
                    ),
                    resources: TableView {
                        references: old(self)@.resources.references.update(
                            old(self)@.holder_of(slot),
                            old(self)@.referenced_by(slot).push(image.resource),
                        ),
                        ..old(self)@.resources
                    },
                    ..old(self)@
                })
            }),
    {
        let mut images: Vec<Image> = Vec::new();
        images.push(*image);
        proof {
            assert(images@ =~= seq![*image]);
            assert(images@[0] == *image);
            let slot = self@.ring.frame_index as int;
            assert(self@.referenced_by(slot) + crate::command_buffer::resources_of(images@)
                =~= self@.referenced_by(slot).push(image.resource));
        }
        self.bind_push_descriptor_images(pipeline, &images)
    }

    /// Tells whether a frame slot records under the holder.
    pub fn holds_slot(&self, holder: usize) -> (found: bool)
        ensures
            found == self@.is_slot_holder(holder),
    {
        let mut slot: usize = 0;
        while slot < self.command_buffers.len()
            invariant
                slot <= self.command_buffers@.len(),
                forall|s: int| 0 <= s < slot ==> (#[trigger] self@.command_buffers[s]).holder != holder,
            decreases self.command_buffers@.len() - slot,
        {
            if self.command_buffers[slot].holder() == holder {
                assert(self@.command_buffers[slot as int].holder == holder);
                return true;
            }
            slot += 1;
        }
        false
    }

    /// Makes a recording unit outside the frame slots, for work that is
    /// submitted once and waited for.
    pub fn create_command_buffer(&mut self, handle: u64, fence: u64) -> (made: CommandBuffer)
        requires
            old(self)@.wf(),
        ensures
            final(self)@.wf(),
            old(self)@.pending_work_kept(final(self)@),
            made@ == (CommandBufferView {
                holder: old(self)@.resources.references.len() as usize,
                handle,
                fence,
                commands: Seq::empty(),
                recording: false,
            }),
            final(self)@ == (RendererView {
                resources: TableView {
                    references: old(self)@.resources.references.push(Seq::empty()),
                    ..old(self)@.resources
                },
                ..old(self)@
            }),
    {
        CommandBuffer::new(&mut self.resources, handle, fence)
    }

    /// Begins a recording on a unit made by `create_command_buffer`, as
    /// `CommandBuffer::begin` does. Fails, changing nothing, on a unit of a
    /// frame slot: those are begun by the frame loop alone.
    pub fn begin_single_time(&mut self, unit: &mut CommandBuffer) -> (outcome: Result<
        Vec<ResourceId>,
        RendererError,
    >)
        requires
            old(self)@.wf(),
        ensures
            final(self)@.wf(),
            old(self)@.pending_work_kept(final(self)@),
            outcome is Ok <==> !old(self)@.is_slot_holder(old(unit)@.holder),
            outcome is Err ==> final(self)@ == old(self)@ && final(unit)@ == old(unit)@
                && outcome matches Err(RendererError::NotSingleTime),
            outcome matches Ok(reclaimed) ==> {
                &&& final(unit)@ == (CommandBufferView {
                    commands: Seq::empty(),
                    recording: true,
                    ..old(unit)@
                })
                &&& old(self)@.resources.references_released(
                    old(unit)@.holder,
                    final(self)@.resources,
                    reclaimed@,
                )
                &&& final(self)@ == (RendererView {
                    resources: final(self)@.resources,
                    ..old(self)@
                })
            },
    {
        if self.holds_slot(unit.holder()) {
            return Err(RendererError::NotSingleTime);
        }
        let reclaimed = unit.begin(&mut self.resources);
        Ok(reclaimed)
    }

    /// Records the binding of a pipeline into a unit made by
    /// `create_command_buffer`, which from then on references the pipeline.
    ///
    /// Fails, changing nothing, on a unit of a frame slot, on a unit the
    /// table does not know, and on a pipeline whose native object is gone.
    pub fn bind_pipeline_single_time<P: Pipeline>(
        &mut self,
        unit: &mut CommandBuffer,
        pipeline: &P,
    ) -> (outcome: Result<(), RendererError>)
        requires
            old(self)@.wf(),
        ensures
            final(self)@.wf(),
            old(self)@.pending_work_kept(final(self)@),
            outcome == (if old(self)@.is_slot_holder(old(unit)@.holder) {
                Err::<(), RendererError>(RendererError::NotSingleTime)
            } else if old(unit)@.holder >= old(self)@.resources.references.len() {
                Err::<(), RendererError>(RendererError::Resource(ResourceError::UnknownHolder))
            } else if !old(self)@.resources.is_live(pipeline.resource_id()) {
                Err::<(), RendererError>(RendererError::Resource(ResourceError::Stale))
            } else {
                Ok::<(), RendererError>(())
            }),
            outcome is Err ==> final(self)@ == old(self)@ && final(unit)@ == old(unit)@,
            outcome is Ok ==> {
                &&& final(unit)@ == old(unit)@.with(
                    Command::BindPipeline {
                        bind_point: pipeline.point(),
                        pipeline: pipeline.native(),
                    },
                )
                &&& final(self)@ == (RendererView {
                    resources: TableView {
                        references: old(self)@.resources.references.update(
                            old(unit)@.holder as int,
                            old(self)@.resources.references[old(unit)@.holder as int].push(
                                pipeline.resource_id(),
                            ),
                        ),
                        ..old(self)@.resources
                    },
                    ..old(self)@
                })
            },
    {
        if self.holds_slot(unit.holder()) {
            return Err(RendererError::NotSingleTime);
        }
        match unit.bind_pipeline(&mut self.resources, pipeline) {
            Err(error) => Err(RendererError::Resource(error)),
            Ok(()) => Ok(()),
        }
    }

    /// Describes the submission of a single-time recording: it waits for
    /// nothing, signals the unit's fence alone, and the caller then waits
    /// for that fence before it reports `single_time_finished`.
    pub fn submit_single_time_command_buffer(&self, command_buffer: &CommandBuffer) -> (submission:
        SingleTimeSubmit)
        ensures
            submission == (SingleTimeSubmit {
                command_buffer: command_buffer@.handle,
                fence: command_buffer@.fence,
            }),
    {
        SingleTimeSubmit { command_buffer: command_buffer.handle(), fence: command_buffer.fence() }
    }

    /// Retires a single-time recording whose fence was seen signaled: its
    /// references are released, and the answer lists the resources whose
    /// native objects are to be destroyed now. Fails, changing nothing, on a
    /// unit of a frame slot.
    pub fn single_time_finished(&mut self, unit: CommandBuffer) -> (outcome: Result<
        Vec<ResourceId>,
        RendererError,
    >)
        requires
            old(self)@.wf(),
        ensures
            final(self)@.wf(),
            old(self)@.pending_work_kept(final(self)@),
            outcome is Ok <==> !old(self)@.is_slot_holder(unit@.holder),
            outcome is Err ==> final(self)@ == old(self)@ && outcome matches Err(
                RendererError::NotSingleTime,
            ),
            outcome matches Ok(reclaimed) ==> {
                &&& old(self)@.resources.references_released(
                    unit@.holder,
                    final(self)@.resources,
                    reclaimed@,
                )
                &&& final(self)@ == (RendererView {
                    resources: final(self)@.resources,
                    ..old(self)@
                })
            },
    {
        if self.holds_slot(unit.holder()) {
            return Err(RendererError::NotSingleTime);
        }
        let reclaimed = self.resources.release_references(unit.holder());
        Ok(reclaimed)
    }

    /// Plans the end of the orchestrator's life: the device is to go idle
    /// first, then the rendering semaphores go, then the image semaphores.
    pub fn teardown(&self) -> (steps: Vec<TeardownStep>)
        ensures
            steps@ == teardown_plan(self@.frames),
    {
        let mut steps: Vec<TeardownStep> = Vec::new();
        steps.push(TeardownStep::WaitIdle);
        let mut i: usize = 0;
        while i < self.frames.len()
            invariant
                i <= self.frames@.len(),
                steps@ == seq![TeardownStep::WaitIdle] + self.frames@.subrange(0, i as int).map_values(
                    |frame: FrameSync| TeardownStep::DestroySemaphore(frame.render_finished),
                ),
            decreases self.frames@.len() - i,
        {
            steps.push(TeardownStep::DestroySemaphore(self.frames[i].render_finished));
            proof {
                let done = self.frames@.subrange(0, i as int);
                let next = self.frames@.subrange(0, i + 1);
                assert(next =~= done.push(self.frames@[i as int]));
                assert(steps@ =~= seq![TeardownStep::WaitIdle] + next.map_values(
                    |frame: FrameSync| TeardownStep::DestroySemaphore(frame.render_finished),
                ));
            }
            i += 1;
        }
        proof {
            assert(self.frames@.subrange(0, self.frames@.len() as int) =~= self.frames@);
        }
        let ghost first = steps@;
        let mut k: usize = 0;
        while k < self.frames.len()
            invariant
                k <= self.frames@.len(),
                steps@ == first + self.frames@.subrange(0, k as int).map_values(
                    |frame: FrameSync| TeardownStep::DestroySemaphore(frame.image_available),
                ),
            decreases self.frames@.len() - k,
        {
            steps.push(TeardownStep::DestroySemaphore(self.frames[k].image_available));
            proof {
                let done = self.frames@.subrange(0, k as int);
                let next = self.frames@.subrange(0, k + 1);
                assert(next =~= done.push(self.frames@[k as int]));
                assert(steps@ =~= first + next.map_values(
                    |frame: FrameSync| TeardownStep::DestroySemaphore(frame.image_available),
                ));
            }
            k += 1;
        }
        proof {
            assert(self.frames@.subrange(0, self.frames@.len() as int) =~= self.frames@);
        }
        steps
    }
}

/// The lifetime guarantee: between two states of which the later kept the
/// pending work of the earlier, whatever a slot in flight in both referenced
/// at first still has its native object at last.
pub proof fn lemma_submitted_work_keeps_its_resources(
    before: RendererView,
    after: RendererView,
    slot: int,
    id: ResourceId,
)
    requires
        before.wf(),
        after.wf(),
        before.pending_work_kept(after),
        0 <= slot < before.ring.slots(),
        slot < after.ring.slots(),
        before.ring.in_flight[slot],
        after.ring.in_flight[slot],
        before.referenced_by(slot).contains(id),
    ensures
        after.referenced_by(slot) == before.referenced_by(slot),
        after.command_buffers[slot] == before.command_buffers[slot],
        after.frames[slot] == before.frames[slot],
        after.resources.is_live(id),
{
    let k = choose|k: int| 0 <= k < before.referenced_by(slot).len() && before.referenced_by(slot)[k] == id;
    assert(after.command_buffers[slot].holder < after.resources.references.len());
    assert(after.resources.references[after.holder_of(slot)][k] == id);
}

/// Keeping pending work composes: what a run of steps kept one by one, the
/// whole run kept, as long as the slots in question stayed in flight.
pub proof fn lemma_pending_work_kept_composes(a: RendererView, b: RendererView, c: RendererView)
    requires
        a.pending_work_kept(b),
        b.pending_work_kept(c),
        forall|slot: int|
            0 <= slot < a.ring.slots() && a.ring.in_flight[slot] && slot < c.ring.slots()
                && c.ring.in_flight[slot] ==> slot < b.ring.slots() && #[trigger] b.ring.in_flight[slot],
    ensures
        a.pending_work_kept(c),
{
    assert forall|slot: int|
        0 <= slot < a.ring.slots() && #[trigger] a.ring.in_flight[slot] && slot < c.ring.slots()
            && c.ring.in_flight[slot] implies c.frames[slot] == a.frames[slot]
        && c.command_buffers[slot] == a.command_buffers[slot] && c.referenced_by(slot)
        == a.referenced_by(slot) by {
        assert(b.ring.in_flight[slot]);
    }
}

} // verus!
