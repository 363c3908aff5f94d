//! Verified core of a minimal real-time rendering engine.
//!
//! The library owns the logic that is hard to get right when driving a GPU
//! through a low-level graphics API: frame synchronization (fences and
//! semaphores across N frames in flight), the per-image fence-tracking
//! protocol, and the lifecycle of the swapchain and every resource sized to
//! it. The GPU and the window system are external collaborators: an
//! unverified shell performs their calls and feeds the outcomes back as plain
//! values, while every decision — which fence to wait on, when a uniform
//! buffer may be written, when and with what configuration the swapchain is
//! rebuilt, in what order resources are destroyed — is made here, under
//! contract.

use vstd::prelude::*;

mod device;
mod engine;
mod extent;
mod laws;
mod surface;
mod teardown;

pub use device::{
    EngineError, SharingMode, select_queue_family, select_physical_device,
    select_sharing_mode,
};
pub use engine::{
    Engine, Phase, ImageFence, BeginAction, AcquireOutcome, AcquireStep,
    SubmitRequest, PresentRequest, PresentOutcome, PresentStep,
    RecreationStep, ShutdownStep, sat_inc,
    same_sync_state, same_chain_state, same_window_state, same_counters,
};
pub use extent::Extent;
pub use laws::{
    slot_after, frame_advanced, lemma_slot_cycle_step,
    lemma_slots_distinct_within_window, lemma_slot_sequence_cycles,
    count_unsignaled, lemma_in_flight_bounded, lemma_uniform_write_safe,
    lemma_recreated_extent_clamped,
};
pub use surface::{
    SurfaceFormat, SurfaceCaps, SurfaceInfo, SwapchainConfig,
    FORMAT_B8G8R8A8_SRGB, COLOR_SPACE_SRGB_NONLINEAR,
    PRESENT_MODE_MAILBOX, PRESENT_MODE_FIFO,
    is_preferred_format, spec_chosen_format, spec_chosen_present_mode,
    spec_clamp, spec_chosen_extent, spec_chosen_image_count,
    spec_swapchain_config,
    choose_surface_format, choose_present_mode, choose_extent,
    choose_image_count, plan_swapchain,
};
pub use teardown::{
    ResourceKind, spec_swapchain_construction, spec_swapchain_teardown,
    spec_full_teardown, distinct_kinds,
    lemma_teardown_matches_construction, lemma_swapchain_teardown_distinct,
    lemma_full_teardown_distinct,
    swapchain_teardown_order, full_teardown_order,
};

verus! {

/// The number of frame slots: how many frames may be in flight at once.
pub const FRAME_SLOTS: usize = 2;

} // verus!
