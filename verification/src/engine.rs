//! The frame scheduler and presentation-loop core.
//!
//! One `Engine` value owns every decision of the steady-state render loop:
//! which fence to wait on, when an acquired image may have its uniform
//! buffer written, when the frame is submitted and presented, when the
//! swapchain must be rebuilt, and when the loop must pause because the
//! window has no drawable area. The unverified shell performs each returned
//! action against the GPU and reports the outcome back through the next
//! method call; the engine states exactly what holds for every outcome the
//! GPU can produce.
//!
//! The fence model tracks what the CPU knows: a slot's fence is recorded as
//! signaled once a wait on it has returned, and as unsignaled from the
//! moment it is reset for a new submission. The per-image fence slots record
//! which frame slot's fence last used each swapchain image, so an image is
//! never written while a fence that may still guard it is pending.

use vstd::prelude::*;
use crate::extent::Extent;
use crate::surface::{SurfaceInfo, SwapchainConfig, plan_swapchain, spec_swapchain_config};
use crate::teardown::{ResourceKind, full_teardown_order, spec_full_teardown};

verus! {

use crate::FRAME_SLOTS;

/// Which frame slot's fence last used a swapchain image, if any.
#[derive(Clone, Copy, Debug, PartialEq, Eq, Structural)]
pub enum ImageFence {
    /// No fence has used the image since the last recreation.
    NoFence,
    /// The fence of frame slot `slot` last used the image.
    Slot { slot: usize },
}

/// Where the engine stands between two method calls. The per-frame phases
/// carry the index of the swapchain image the frame renders into.
#[derive(Clone, Copy, Debug, PartialEq, Eq, Structural)]
pub enum Phase {
    /// Ready to begin the next frame.
    Idle,
    /// The shell is waiting on the current slot's fence.
    WaitingSlotFence,
    /// The shell is acquiring the next swapchain image.
    Acquiring,
    /// The acquired image is still guarded by another slot's pending fence,
    /// and the shell is waiting on it.
    WaitingImageFence { image: usize },
    /// The shell is writing the image's uniform buffer.
    Updating { image: usize },
    /// The shell is resetting the slot's fence and submitting the frame.
    Submitting { image: usize },
    /// The shell is presenting the image.
    Presenting { image: usize },
    /// The swapchain is stale or missing and must be rebuilt before the
    /// next frame.
    NeedsRecreate,
    /// A recreation is in progress against a planned configuration.
    Recreating,
    /// A fatal error was reported; no further GPU work is decided.
    Failed,
    /// Shutdown has completed; every resource has been released.
    Destroyed,
}

/// The first action of a frame.
#[derive(Clone, Copy, Debug, PartialEq, Eq, Structural)]
pub enum BeginAction {
    /// The window has no drawable area: issue no GPU call at all.
    Paused,
    /// The swapchain is missing, stale, or outsized: rebuild it first.
    Recreate,
    /// Wait on the fence of frame slot `slot`.
    WaitSlotFence { slot: usize },
}

/// What the acquire call produced, as the shell observed it.
#[derive(Clone, Copy, Debug, PartialEq, Eq, Structural)]
pub enum AcquireOutcome {
    /// An image was acquired.
    Image { index: usize },
    /// The swapchain is out of date; no image was acquired.
    Stale,
    /// Any other acquire failure: fatal.
    Failure,
}

/// What to do after the acquire outcome is known.
#[derive(Clone, Copy, Debug, PartialEq, Eq, Structural)]
pub enum AcquireStep {
    /// The image is guarded by slot `slot`'s pending fence: wait on it.
    WaitImageFence { slot: usize },
    /// The image is free: write its uniform buffer.
    WriteUniform { image: usize },
    /// Rebuild the swapchain; the frame is retried, not lost.
    Recreate,
    /// Stop rendering; the error propagates.
    Fatal,
}

/// Reset the fence of slot `slot`, then submit image `image`'s command
/// buffer, waiting on the slot's image-acquired semaphore and signaling its
/// render-finished semaphore and its fence.
#[derive(Clone, Copy, Debug, PartialEq, Eq, Structural)]
pub struct SubmitRequest {
    pub slot: usize,
    pub image: usize,
}

/// Present image `image`, waiting on slot `slot`'s render-finished
/// semaphore.
#[derive(Clone, Copy, Debug, PartialEq, Eq, Structural)]
pub struct PresentRequest {
    pub slot: usize,
    pub image: usize,
}

/// What the present call produced, as the shell observed it.
#[derive(Clone, Copy, Debug, PartialEq, Eq, Structural)]
pub enum PresentOutcome {
    /// The image was presented and the surface still matches.
    Success,
    /// The surface is suboptimal or out of date: schedule a rebuild.
    Stale,
    /// Any other present failure: fatal.
    Failure,
}

/// What to do after the present outcome is known.
#[derive(Clone, Copy, Debug, PartialEq, Eq, Structural)]
pub enum PresentStep {
    /// The frame completed; the next frame may begin.
    Continue,
    /// Rebuild the swapchain before the next frame's acquire.
    Recreate,
    /// Stop rendering; the error propagates.
    Fatal,
}

/// The recreation decision for the current window extent.
#[derive(Clone, Copy, Debug, PartialEq, Eq, Structural)]
pub enum RecreationStep {
    /// The window has no drawable area: build nothing, stay paused.
    Deferred,
    /// Wait for the device to go idle, destroy the old bundle (when
    /// `destroy_old`) in the swapchain teardown order, and build the new
    /// bundle to `config`.
    Rebuild { config: SwapchainConfig, destroy_old: bool },
}

/// The shutdown decision.
#[derive(Debug)]
pub enum ShutdownStep {
    /// Shutdown already completed: touch nothing.
    AlreadyDown,
    /// Wait for the device to go idle, then destroy each listed resource
    /// once, in order.
    Teardown { order: Vec<ResourceKind> },
}

/// Saturating increment, used for the engine's observation counters.
pub open spec fn sat_inc(n: u64) -> u64 {
    if n < u64::MAX { (n + 1) as u64 } else { n }
}

/// The frame scheduler: all state the presentation loop carries between
/// frames, and nothing the GPU owns.
#[derive(Debug)]
pub struct Engine {
    /// Where the engine stands between two calls.
    pub phase: Phase,
    /// The frame slot the current (or next) frame uses.
    pub current_slot: usize,
    /// Per slot: whether the CPU has observed the slot's fence signaled
    /// since it was last reset. Fences are created signaled.
    pub slot_fence_signaled: Vec<bool>,
    /// Per swapchain image: which slot's fence last used the image.
    pub image_fences: Vec<ImageFence>,
    /// The current swapchain's extent; meaningful when `has_swapchain`.
    pub extent: Extent,
    /// Whether a swapchain currently exists.
    pub has_swapchain: bool,
    /// A size change was signaled and no recreation has happened since.
    pub resize_pending: bool,
    /// The window's drawable area is zero; rendering is suspended.
    pub minimized: bool,
    /// The configuration a recreation in progress builds to.
    pub pending_config: Option<SwapchainConfig>,
    /// How many times an existing swapchain has been rebuilt.
    pub recreations: u64,
    /// How many frames have been presented successfully.
    pub frames_presented: u64,
}

/// The frame-synchronization state is untouched: slot choice, fence
/// knowledge and per-image fence tracking all stay as they were.
pub open spec fn same_sync_state(pre: Engine, post: Engine) -> bool {
    &&& post.current_slot == pre.current_slot
    &&& post.slot_fence_signaled@ == pre.slot_fence_signaled@
    &&& post.image_fences@ == pre.image_fences@
}

/// The swapchain state is untouched: extent, existence, and any pending
/// recreation plan stay as they were.
pub open spec fn same_chain_state(pre: Engine, post: Engine) -> bool {
    &&& post.extent == pre.extent
    &&& post.has_swapchain == pre.has_swapchain
    &&& post.pending_config == pre.pending_config
}

/// The window flags are untouched.
pub open spec fn same_window_state(pre: Engine, post: Engine) -> bool {
    &&& post.resize_pending == pre.resize_pending
    &&& post.minimized == pre.minimized
}

/// The observation counters are untouched.
pub open spec fn same_counters(pre: Engine, post: Engine) -> bool {
    &&& post.recreations == pre.recreations
    &&& post.frames_presented == pre.frames_presented
}

impl Engine {
    /// The image the current frame renders into, in phases that carry one.
    pub open spec fn phase_image(self) -> usize {
        match self.phase {
            Phase::WaitingImageFence { image } => image,
            Phase::Updating { image } => image,
            Phase::Submitting { image } => image,
            Phase::Presenting { image } => image,
            _ => 0,
        }
    }

    /// The fence last recorded for `image` has been reset and not yet
    /// observed signaled: the image may still be in use by the GPU.
    pub open spec fn image_fence_pending(self, image: int) -> bool {
        self.image_fences@[image] matches ImageFence::Slot { slot }
            && !self.slot_fence_signaled@[slot as int]
    }

    /// The synchronization arrays are sized and indexed consistently.
    pub open spec fn sync_wf(self) -> bool {
        &&& self.slot_fence_signaled@.len() == FRAME_SLOTS
        &&& self.current_slot < FRAME_SLOTS
        &&& forall|i: int| 0 <= i < self.image_fences@.len()
            ==> (#[trigger] self.image_fences@[i] matches ImageFence::Slot { slot }
                ==> slot < FRAME_SLOTS)
    }

    /// What each phase guarantees of the rest of the state. In particular:
    /// a frame only ever reaches `Updating { image }` — the only phase in
    /// which the image's uniform buffer is written — when the fence
    /// recorded for that image is the current slot's and has been observed
    /// signaled, so no pending fence guards the image.
    pub open spec fn phase_wf(self) -> bool {
        match self.phase {
            Phase::Idle => true,
            Phase::WaitingSlotFence => self.has_swapchain,
            Phase::Acquiring => {
                &&& self.has_swapchain
                &&& self.slot_fence_signaled@[self.current_slot as int]
            },
            Phase::WaitingImageFence { image } => {
                &&& self.has_swapchain
                &&& image < self.image_fences@.len()
                &&& self.image_fences@[image as int] is Slot
                &&& self.slot_fence_signaled@[self.current_slot as int]
            },
            Phase::Updating { image } => {
                &&& self.has_swapchain
                &&& image < self.image_fences@.len()
                &&& self.image_fences@[image as int]
                    == (ImageFence::Slot { slot: self.current_slot })
                &&& self.slot_fence_signaled@[self.current_slot as int]
            },
            Phase::Submitting { image } => {
                &&& self.has_swapchain
                &&& image < self.image_fences@.len()
                &&& self.image_fences@[image as int]
                    == (ImageFence::Slot { slot: self.current_slot })
            },
            Phase::Presenting { image } => {
                &&& self.has_swapchain
                &&& image < self.image_fences@.len()
                &&& self.image_fences@[image as int]
                    == (ImageFence::Slot { slot: self.current_slot })
            },
            Phase::NeedsRecreate => true,
            Phase::Recreating => true,
            Phase::Failed => true,
            Phase::Destroyed => !self.has_swapchain,
        }
    }

    /// Engine well-formedness: constructors establish it and every method
    /// preserves it.
    pub open spec fn wf(self) -> bool {
        &&& self.sync_wf()
        &&& self.phase_wf()
        &&& (self.pending_config is Some) == (self.phase is Recreating)
    }

    /// A fresh engine: no swapchain yet (the first `begin_frame` routes to
    /// recreation, which builds it), every slot fence created signaled, and
    /// nothing counted.
    pub fn new() -> (r: Engine)
        ensures
            r.wf(),
            r.phase is NeedsRecreate,
            r.current_slot == 0,
            r.slot_fence_signaled@.len() == FRAME_SLOTS,
            forall|i: int| 0 <= i < FRAME_SLOTS ==> r.slot_fence_signaled@[i],
            r.image_fences@.len() == 0,
            !r.has_swapchain,
            !r.resize_pending,
            !r.minimized,
            r.pending_config is None,
            r.recreations == 0,
            r.frames_presented == 0,
    {
        let mut fences: Vec<bool> = Vec::new();
        let mut i: usize = 0;
        while i < FRAME_SLOTS
            invariant
                0 <= i <= FRAME_SLOTS,
                fences@.len() == i,
                forall|j: int| 0 <= j < i ==> fences@[j],
            decreases FRAME_SLOTS - i,
        {
            fences.push(true);
            i = i + 1;
        }
        Engine {
            phase: Phase::NeedsRecreate,
            current_slot: 0,
            slot_fence_signaled: fences,
            image_fences: Vec::new(),
            extent: Extent { width: 0, height: 0 },
            has_swapchain: false,
            resize_pending: false,
            minimized: false,
            pending_config: None,
            recreations: 0,
            frames_presented: 0,
        }
    }

    /// Records a window size change. A zero-area size suspends rendering;
    /// a nonzero size resumes it and leaves a recreation pending, cleared
    /// only by a completed recreation.
    pub fn note_resize(&mut self, size: Extent)
        requires
            old(self).wf(),
        ensures
            final(self).wf(),
            final(self).minimized == !size.spec_has_area(),
            final(self).resize_pending
                == (old(self).resize_pending || size.spec_has_area()),
            final(self).phase == old(self).phase,
            same_sync_state(*old(self), *final(self)),
            same_chain_state(*old(self), *final(self)),
            same_counters(*old(self), *final(self)),
    {
        if size.has_area() {
            self.minimized = false;
            self.resize_pending = true;
        } else {
            self.minimized = true;
        }
    }

    /// Decides how a frame starts. While the window has no drawable area,
    /// nothing at all is issued; with a missing or stale swapchain or a
    /// pending resize, the swapchain is rebuilt first; otherwise the frame
    /// proceeds by waiting on the current slot's fence — the slot whose
    /// resources are about to be reused.
    pub fn begin_frame(&mut self) -> (r: BeginAction)
        requires
            old(self).wf(),
            old(self).phase is Idle || old(self).phase is NeedsRecreate,
        ensures
            final(self).wf(),
            same_sync_state(*old(self), *final(self)),
            same_chain_state(*old(self), *final(self)),
            same_window_state(*old(self), *final(self)),
            same_counters(*old(self), *final(self)),
            old(self).minimized ==> {
                &&& r is Paused
                &&& final(self).phase == old(self).phase
            },
            !old(self).minimized
                && (old(self).phase is NeedsRecreate || old(self).resize_pending
                    || !old(self).has_swapchain) ==> {
                &&& r is Recreate
                &&& final(self).phase is NeedsRecreate
            },
            !old(self).minimized && old(self).phase is Idle
                && !old(self).resize_pending && old(self).has_swapchain ==> {
                &&& r == (BeginAction::WaitSlotFence { slot: old(self).current_slot })
                &&& final(self).phase is WaitingSlotFence
            },
    {
        if self.minimized {
            BeginAction::Paused
        } else if matches!(self.phase, Phase::NeedsRecreate) || self.resize_pending
            || !self.has_swapchain
        {
            self.phase = Phase::NeedsRecreate;
            BeginAction::Recreate
        } else {
            self.phase = Phase::WaitingSlotFence;
            BeginAction::WaitSlotFence { slot: self.current_slot }
        }
    }

    /// Records that the wait on the current slot's fence returned: the CPU
    /// now knows the work from this slot's previous use is finished, and
    /// the shell acquires the next image, signaling this slot's
    /// image-acquired semaphore.
    pub fn slot_fence_ready(&mut self) -> (slot: usize)
        requires
            old(self).wf(),
            old(self).phase is WaitingSlotFence,
        ensures
            final(self).wf(),
            slot == old(self).current_slot,
            final(self).slot_fence_signaled@
                == old(self).slot_fence_signaled@.update(old(self).current_slot as int, true),
            final(self).current_slot == old(self).current_slot,
            final(self).image_fences@ == old(self).image_fences@,
            final(self).phase is Acquiring,
            same_chain_state(*old(self), *final(self)),
            same_window_state(*old(self), *final(self)),
            same_counters(*old(self), *final(self)),
    {
        let slot = self.current_slot;
        self.slot_fence_signaled[slot] = true;
        self.phase = Phase::Acquiring;
        slot
    }

    /// Decides what follows the acquire call, for every outcome it can
    /// produce. A stale swapchain routes to recreation with the frame slot
    /// unchanged, so the frame is retried, not lost. An acquired image that
    /// is still guarded by another slot's pending fence must be waited for
    /// before its uniform buffer is touched; otherwise the image is
    /// recorded as owned by the current slot's fence and may be written at
    /// once. An image index out of range is a protocol violation by the
    /// driver and is fatal.
    pub fn acquire_result(&mut self, outcome: AcquireOutcome) -> (r: AcquireStep)
        requires
            old(self).wf(),
            old(self).phase is Acquiring,
        ensures
            final(self).wf(),
            final(self).current_slot == old(self).current_slot,
            final(self).slot_fence_signaled@ == old(self).slot_fence_signaled@,
            same_chain_state(*old(self), *final(self)),
            same_window_state(*old(self), *final(self)),
            same_counters(*old(self), *final(self)),
            outcome is Stale ==> {
                &&& r is Recreate
                &&& final(self).phase is NeedsRecreate
                &&& final(self).image_fences@ == old(self).image_fences@
            },
            outcome is Failure ==> {
                &&& r is Fatal
                &&& final(self).phase is Failed
                &&& final(self).image_fences@ == old(self).image_fences@
            },
            outcome matches AcquireOutcome::Image { index } ==> {
                &&& index >= old(self).image_fences@.len() ==> {
                    &&& r is Fatal
                    &&& final(self).phase is Failed
                    &&& final(self).image_fences@ == old(self).image_fences@
                }
                &&& index < old(self).image_fences@.len()
                    && old(self).image_fence_pending(index as int) ==> {
                    &&& (old(self).image_fences@[index as int]
                        matches ImageFence::Slot { slot }
                        && r == (AcquireStep::WaitImageFence { slot }))
                    &&& final(self).phase == (Phase::WaitingImageFence { image: index })
                    &&& final(self).image_fences@ == old(self).image_fences@
                }
                &&& index < old(self).image_fences@.len()
                    && !old(self).image_fence_pending(index as int) ==> {
                    &&& r == (AcquireStep::WriteUniform { image: index })
                    &&& final(self).phase == (Phase::Updating { image: index })
                    &&& final(self).image_fences@ == old(self).image_fences@.update(
                        index as int,
                        (ImageFence::Slot { slot: old(self).current_slot }),
                    )
                }
            },
    {
        match outcome {
            AcquireOutcome::Stale => {
                self.phase = Phase::NeedsRecreate;
                AcquireStep::Recreate
            },
            AcquireOutcome::Failure => {
                self.phase = Phase::Failed;
                AcquireStep::Fatal
            },
            AcquireOutcome::Image { index } => {
                if index >= self.image_fences.len() {
                    self.phase = Phase::Failed;
                    AcquireStep::Fatal
                } else {
                    let prior = self.image_fences[index];
                    match prior {
                        ImageFence::Slot { slot } => {
                            if !self.slot_fence_signaled[slot] {
                                self.phase = Phase::WaitingImageFence { image: index };
                                return AcquireStep::WaitImageFence { slot };
                            }
                            self.image_fences[index] =
                                ImageFence::Slot { slot: self.current_slot };
                            self.phase = Phase::Updating { image: index };
                            AcquireStep::WriteUniform { image: index }
                        },
                        ImageFence::NoFence => {
                            self.image_fences[index] =
                                ImageFence::Slot { slot: self.current_slot };
                            self.phase = Phase::Updating { image: index };
                            AcquireStep::WriteUniform { image: index }
                        },
                    }
                }
            },
        }
    }

    /// Records that the wait on the acquired image's guarding fence
    /// returned. The image is then recorded as owned by the current slot's
    /// fence, and its uniform buffer may be written.
    pub fn image_fence_ready(&mut self) -> (image: usize)
        requires
            old(self).wf(),
            old(self).phase is WaitingImageFence,
        ensures
            final(self).wf(),
            image == old(self).phase_image(),
            final(self).current_slot == old(self).current_slot,
            (old(self).image_fences@[old(self).phase_image() as int]
                matches ImageFence::Slot { slot }
                && final(self).slot_fence_signaled@
                    == old(self).slot_fence_signaled@.update(slot as int, true)),
            final(self).image_fences@ == old(self).image_fences@.update(
                old(self).phase_image() as int,
                (ImageFence::Slot { slot: old(self).current_slot }),
            ),
            final(self).phase == (Phase::Updating { image: old(self).phase_image() }),
            same_chain_state(*old(self), *final(self)),
            same_window_state(*old(self), *final(self)),
            same_counters(*old(self), *final(self)),
    {
        match self.phase {
            Phase::WaitingImageFence { image } => {
                let prior = self.image_fences[image];
                match prior {
                    ImageFence::Slot { slot } => {
                        self.slot_fence_signaled[slot] = true;
                        self.image_fences[image] =
                            ImageFence::Slot { slot: self.current_slot };
                        self.phase = Phase::Updating { image };
                        image
                    },
                    ImageFence::NoFence => vstd::pervasive::unreached(),
                }
            },
            _ => vstd::pervasive::unreached(),
        }
    }

    /// Records that the uniform buffer was written, and hands the shell the
    /// submission: reset the slot's fence, then submit. The fence being
    /// reset was observed signaled — it was waited on before this slot's
    /// resources were reused — and is unsignaled from here until a wait on
    /// it returns.
    pub fn uniform_written(&mut self) -> (r: SubmitRequest)
        requires
            old(self).wf(),
            old(self).phase is Updating,
        ensures
            final(self).wf(),
            r.slot == old(self).current_slot,
            r.image == old(self).phase_image(),
            old(self).slot_fence_signaled@[old(self).current_slot as int],
            final(self).slot_fence_signaled@
                == old(self).slot_fence_signaled@.update(old(self).current_slot as int, false),
            final(self).current_slot == old(self).current_slot,
            final(self).image_fences@ == old(self).image_fences@,
            final(self).phase == (Phase::Submitting { image: old(self).phase_image() }),
            same_chain_state(*old(self), *final(self)),
            same_window_state(*old(self), *final(self)),
            same_counters(*old(self), *final(self)),
    {
        match self.phase {
            Phase::Updating { image } => {
                let slot = self.current_slot;
                self.slot_fence_signaled[slot] = false;
                self.phase = Phase::Submitting { image };
                SubmitRequest { slot, image }
            },
            _ => vstd::pervasive::unreached(),
        }
    }

    /// Records that the submission was issued, and hands the shell the
    /// present request for the same image.
    pub fn submitted(&mut self) -> (r: PresentRequest)
        requires
            old(self).wf(),
            old(self).phase is Submitting,
        ensures
            final(self).wf(),
            r.slot == old(self).current_slot,
            r.image == old(self).phase_image(),
            final(self).phase == (Phase::Presenting { image: old(self).phase_image() }),
            same_sync_state(*old(self), *final(self)),
            same_chain_state(*old(self), *final(self)),
            same_window_state(*old(self), *final(self)),
            same_counters(*old(self), *final(self)),
    {
        match self.phase {
            Phase::Submitting { image } => {
                self.phase = Phase::Presenting { image };
                PresentRequest { slot: self.current_slot, image }
            },
            _ => vstd::pervasive::unreached(),
        }
    }

    /// Decides what follows the present call, for every outcome it can
    /// produce, and advances the frame slot cyclically. A stale surface
    /// schedules a rebuild before the next frame's acquire but is not an
    /// error; the frame slot still advances, as the submission itself
    /// succeeded.
    pub fn present_result(&mut self, outcome: PresentOutcome) -> (r: PresentStep)
        requires
            old(self).wf(),
            old(self).phase is Presenting,
        ensures
            final(self).wf(),
            final(self).slot_fence_signaled@ == old(self).slot_fence_signaled@,
            final(self).image_fences@ == old(self).image_fences@,
            same_chain_state(*old(self), *final(self)),
            final(self).minimized == old(self).minimized,
            final(self).recreations == old(self).recreations,
            outcome is Success ==> {
                &&& r is Continue
                &&& final(self).phase is Idle
                &&& final(self).current_slot as int
                    == (old(self).current_slot as int + 1) % (FRAME_SLOTS as int)
                &&& final(self).frames_presented == sat_inc(old(self).frames_presented)
                &&& final(self).resize_pending == old(self).resize_pending
            },
            outcome is Stale ==> {
                &&& r is Recreate
                &&& final(self).phase is NeedsRecreate
                &&& final(self).current_slot as int
                    == (old(self).current_slot as int + 1) % (FRAME_SLOTS as int)
                &&& final(self).frames_presented == old(self).frames_presented
                &&& !final(self).resize_pending
            },
            outcome is Failure ==> {
                &&& r is Fatal
                &&& final(self).phase is Failed
                &&& final(self).current_slot == old(self).current_slot
                &&& final(self).frames_presented == old(self).frames_presented
                &&& final(self).resize_pending == old(self).resize_pending
            },
    {
        match outcome {
            PresentOutcome::Success => {
                if self.frames_presented < u64::MAX {
                    self.frames_presented = self.frames_presented + 1;
                }
                self.current_slot = (self.current_slot + 1) % FRAME_SLOTS;
                self.phase = Phase::Idle;
                PresentStep::Continue
            },
            PresentOutcome::Stale => {
                self.resize_pending = false;
                self.current_slot = (self.current_slot + 1) % FRAME_SLOTS;
                self.phase = Phase::NeedsRecreate;
                PresentStep::Recreate
            },
            PresentOutcome::Failure => {
                self.phase = Phase::Failed;
                PresentStep::Fatal
            },
        }
    }

    /// Decides the recreation for the current window extent. A zero
    /// drawable area defers everything: no swapchain, pipeline, or
    /// framebuffer construction is requested, and rendering stays
    /// suspended until a nonzero size is observed. Otherwise the full
    /// configuration is selected from the surface's report, and the shell
    /// is told to wait for device idle, tear the old bundle down in order,
    /// and build the new one.
    pub fn plan_recreation(&mut self, surface: &SurfaceInfo, window: Extent) -> (r: RecreationStep)
        requires
            old(self).wf(),
            old(self).phase is NeedsRecreate,
            surface.wf(),
        ensures
            final(self).wf(),
            same_sync_state(*old(self), *final(self)),
            same_counters(*old(self), *final(self)),
            final(self).extent == old(self).extent,
            final(self).has_swapchain == old(self).has_swapchain,
            final(self).resize_pending == old(self).resize_pending,
            !window.spec_has_area() ==> {
                &&& r is Deferred
                &&& final(self).phase is NeedsRecreate
                &&& final(self).minimized
                &&& final(self).pending_config is None
            },
            window.spec_has_area() ==> {
                &&& r == (RecreationStep::Rebuild {
                    config: spec_swapchain_config(*surface, window),
                    destroy_old: old(self).has_swapchain,
                })
                &&& final(self).phase is Recreating
                &&& final(self).pending_config
                    == Some(spec_swapchain_config(*surface, window))
                &&& !final(self).minimized
            },
    {
        if !window.has_area() {
            self.minimized = true;
            RecreationStep::Deferred
        } else {
            let config = plan_swapchain(surface, window);
            self.minimized = false;
            let destroy_old = self.has_swapchain;
            self.pending_config = Some(config);
            self.phase = Phase::Recreating;
            RecreationStep::Rebuild { config, destroy_old }
        }
    }

    /// Records that the shell finished building the planned bundle, with
    /// the image count the new swapchain actually has. The per-image fence
    /// slots are resized to that count and cleared to "no fence", the
    /// pending resize is consumed, and rendering resumes. A zero image
    /// count is a protocol violation by the driver and is fatal.
    pub fn recreation_complete(&mut self, image_count: usize) -> (ok: bool)
        requires
            old(self).wf(),
            old(self).phase is Recreating,
        ensures
            final(self).wf(),
            ok == (image_count > 0),
            final(self).current_slot == old(self).current_slot,
            final(self).slot_fence_signaled@ == old(self).slot_fence_signaled@,
            final(self).minimized == old(self).minimized,
            final(self).frames_presented == old(self).frames_presented,
            final(self).pending_config is None,
            image_count == 0 ==> {
                &&& final(self).phase is Failed
                &&& final(self).image_fences@ == old(self).image_fences@
                &&& final(self).extent == old(self).extent
                &&& final(self).has_swapchain == old(self).has_swapchain
                &&& final(self).resize_pending == old(self).resize_pending
                &&& final(self).recreations == old(self).recreations
            },
            image_count > 0 ==> (old(self).pending_config matches Some(config) ==> {
                &&& final(self).phase is Idle
                &&& final(self).extent == config.extent
                &&& final(self).has_swapchain
                &&& final(self).image_fences@.len() == image_count
                &&& forall|i: int| 0 <= i < image_count
                    ==> final(self).image_fences@[i] is NoFence
                &&& !final(self).resize_pending
                &&& final(self).recreations == if old(self).has_swapchain {
                    sat_inc(old(self).recreations)
                } else {
                    old(self).recreations
                }
            }),
    {
        if image_count == 0 {
            self.pending_config = None;
            self.phase = Phase::Failed;
            return false;
        }
        let config = match self.pending_config {
            Some(c) => c,
            None => vstd::pervasive::unreached(),
        };
        let had_swapchain = self.has_swapchain;
        let mut fences: Vec<ImageFence> = Vec::new();
        let mut i: usize = 0;
        while i < image_count
            invariant
                0 <= i <= image_count,
                fences@.len() == i,
                forall|j: int| 0 <= j < i ==> fences@[j] is NoFence,
            decreases image_count - i,
        {
            fences.push(ImageFence::NoFence);
            i = i + 1;
        }
        self.image_fences = fences;
        self.extent = config.extent;
        self.has_swapchain = true;
        self.resize_pending = false;
        if had_swapchain && self.recreations < u64::MAX {
            self.recreations = self.recreations + 1;
        }
        self.pending_config = None;
        self.phase = Phase::Idle;
        true
    }

    /// Whether a size change has been signaled since the last completed
    /// recreation.
    pub fn is_resize_pending(&self) -> (r: bool)
        ensures
            r == self.resize_pending,
    {
        self.resize_pending
    }

    /// Decides the shutdown. The first call hands the shell the full
    /// teardown pass — wait for device idle, then destroy each resource
    /// once, in order — and marks the engine destroyed. Any later call
    /// finds the engine destroyed, changes nothing, and hands back nothing
    /// to destroy, so no resource can be freed twice.
    pub fn shutdown(&mut self) -> (r: ShutdownStep)
        requires
            old(self).wf(),
        ensures
            final(self).wf(),
            final(self).phase is Destroyed,
            same_sync_state(*old(self), *final(self)),
            same_window_state(*old(self), *final(self)),
            same_counters(*old(self), *final(self)),
            final(self).extent == old(self).extent,
            final(self).pending_config is None,
            !final(self).has_swapchain,
            old(self).phase is Destroyed ==> {
                &&& r is AlreadyDown
                &&& *final(self) == *old(self)
            },
            !(old(self).phase is Destroyed) ==> (r matches ShutdownStep::Teardown { order }
                && order@ == spec_full_teardown()),
    {
        match self.phase {
            Phase::Destroyed => ShutdownStep::AlreadyDown,
            _ => {
                self.pending_config = None;
                self.has_swapchain = false;
                self.phase = Phase::Destroyed;
                ShutdownStep::Teardown { order: full_teardown_order() }
            },
        }
    }
}

} // verus!
