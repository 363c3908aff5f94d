//! Global properties of the frame-synchronization protocol, proved from
//! the engine's contracts and well-formedness invariant.

use vstd::prelude::*;
use vstd::arithmetic::div_mod::{lemma_add_mod_noop, lemma_mod_bound, lemma_small_mod};
use crate::FRAME_SLOTS;
use crate::engine::{Engine, Phase, ImageFence};
use crate::extent::Extent;
use crate::surface::{SurfaceInfo, spec_swapchain_config, spec_clamp};

verus! {

/// The frame slot in use `frames` completed frames after starting at slot
/// `start`: the slot index cycles modulo the number of slots.
pub open spec fn slot_after(start: nat, frames: nat) -> nat {
    (start + frames) % (FRAME_SLOTS as nat)
}

/// Completing one more frame advances the slot by one, modulo the number
/// of slots — exactly what `present_result` ensures of `current_slot`. By
/// induction, over any run of consecutive frames the slot index cycles
/// through `0 .. FRAME_SLOTS - 1`.
pub proof fn lemma_slot_cycle_step(start: nat, frames: nat)
    ensures
        slot_after(start, frames) < FRAME_SLOTS,
        slot_after(start, frames + 1)
            == (slot_after(start, frames) + 1) % (FRAME_SLOTS as nat),
{
    let n = FRAME_SLOTS as int;
    lemma_mod_bound((start + frames) as int, n);
    lemma_mod_bound((start + frames + 1) as int, n);
    lemma_add_mod_noop((start + frames) as int, 1int, n);
    lemma_small_mod(1nat, FRAME_SLOTS as nat);
}

/// Within any window of `FRAME_SLOTS` consecutive frames, no two frames
/// use the same slot: every slot's fence is waited on exactly once before
/// that slot's resources are reused.
pub proof fn lemma_slots_distinct_within_window(start: nat, a: nat, b: nat)
    requires
        a < b,
        b < FRAME_SLOTS,
    ensures
        slot_after(start, a) != slot_after(start, b),
{
    let n = FRAME_SLOTS as int;
    let sa = slot_after(start, a) as int;
    let d: int = b - a;
    lemma_mod_bound((start + a) as int, n);
    lemma_mod_bound((start + b) as int, n);
    if slot_after(start, a) == slot_after(start, b) {
        lemma_add_mod_noop((start + a) as int, d, n);
        lemma_small_mod(d as nat, n as nat);
        assert(((start + b) as int) % n == (sa + d) % n);
        if sa + d < n {
            lemma_small_mod((sa + d) as nat, n as nat);
        } else {
            assert(n <= sa + d < 2 * n);
            assert((sa + d) % n == sa + d - n) by {
                vstd::arithmetic::div_mod::lemma_mod_sub_multiples_vanish(sa + d - n, n);
                lemma_small_mod((sa + d - n) as nat, n as nat);
            }
        }
        assert(false);
    }
}

/// One frame completed between the two states: the frame slot advanced by
/// one, cyclically — what `present_result` ensures on success and on a
/// stale (but still presented) surface.
pub open spec fn frame_advanced(pre: Engine, post: Engine) -> bool {
    post.current_slot as int == (pre.current_slot as int + 1) % (FRAME_SLOTS as int)
}

/// Over any run of consecutively completed frames — no resize interrupts a
/// run, since a recreation completes no frame — the slot of the j-th state
/// is exactly `slot_after` of the first: the frame slot index cycles
/// through `0 .. FRAME_SLOTS - 1` in order.
pub proof fn lemma_slot_sequence_cycles(states: Seq<Engine>, j: int)
    requires
        states.len() > 0,
        states[0].current_slot < FRAME_SLOTS,
        forall|i: int| 0 <= i < states.len() - 1
            ==> frame_advanced(#[trigger] states[i], states[i + 1]),
        0 <= j < states.len(),
    ensures
        states[j].current_slot == slot_after(states[0].current_slot as nat, j as nat),
    decreases j,
{
    let s0 = states[0].current_slot as nat;
    if j == 0 {
        lemma_small_mod(s0, FRAME_SLOTS as nat);
    } else {
        lemma_slot_sequence_cycles(states, j - 1);
        lemma_slot_cycle_step(s0, (j - 1) as nat);
        assert(frame_advanced(states[j - 1], states[j]));
    }
}

/// How many slot fences are currently unsignaled — reset for a submission
/// and not yet observed signaled.
pub open spec fn count_unsignaled(fences: Seq<bool>) -> nat
    decreases fences.len(),
{
    if fences.len() == 0 {
        0
    } else {
        (if fences[0] { 0nat } else { 1nat }) + count_unsignaled(fences.drop_first())
    }
}

proof fn lemma_count_unsignaled_le_len(fences: Seq<bool>)
    ensures
        count_unsignaled(fences) <= fences.len(),
    decreases fences.len(),
{
    if fences.len() > 0 {
        lemma_count_unsignaled_le_len(fences.drop_first());
    }
}

/// At any instant, the number of unsignaled fences among all frame slots
/// is at most the number of slots: the CPU can never be more than
/// `FRAME_SLOTS` frames ahead of the GPU.
pub proof fn lemma_in_flight_bounded(e: &Engine)
    requires
        e.wf(),
    ensures
        count_unsignaled(e.slot_fence_signaled@) <= FRAME_SLOTS,
{
    lemma_count_unsignaled_le_len(e.slot_fence_signaled@);
}

/// A per-image uniform buffer is written only in the `Updating` phase, and
/// in that phase the fence recorded for the image is signaled: no image's
/// uniform buffer is ever written while the fence associated with that
/// image is unsignaled.
pub proof fn lemma_uniform_write_safe(e: &Engine)
    requires
        e.wf(),
        e.phase is Updating,
    ensures
        e.phase matches Phase::Updating { image } ==> {
            &&& !e.image_fence_pending(image as int)
            &&& (e.image_fences@[image as int] matches ImageFence::Slot { slot }
                && e.slot_fence_signaled@[slot as int])
        },
{
}

/// A recreation planned for a window extent with nonzero area selects, as
/// the new swapchain's extent, exactly the window's extent clamped to the
/// surface's bounds — unless the surface fixes its own extent, which is
/// then taken as is. `recreation_complete` then installs that extent as the
/// engine's.
pub proof fn lemma_recreated_extent_clamped(surface: SurfaceInfo, window: Extent)
    requires
        surface.wf(),
        window.spec_has_area(),
    ensures
        surface.capabilities.current_extent.width != u32::MAX
            ==> spec_swapchain_config(surface, window).extent
                == surface.capabilities.current_extent,
        surface.capabilities.current_extent.width == u32::MAX
            ==> spec_swapchain_config(surface, window).extent == (Extent {
                width: spec_clamp(
                    window.width,
                    surface.capabilities.min_image_extent.width,
                    surface.capabilities.max_image_extent.width,
                ),
                height: spec_clamp(
                    window.height,
                    surface.capabilities.min_image_extent.height,
                    surface.capabilities.max_image_extent.height,
                ),
            }),
{
}

} // verus!
