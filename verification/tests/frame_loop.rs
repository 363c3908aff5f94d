//! End-to-end scenarios of the frame scheduler, driven against a simulated
//! GPU: every action the engine returns is answered with the outcome a
//! well-behaved driver would produce.

use dobby_engine::{
    AcquireOutcome, AcquireStep, BeginAction, Engine, Extent, Phase, PresentOutcome,
    PresentStep, RecreationStep, ShutdownStep, SurfaceCaps, SurfaceFormat, SurfaceInfo,
    COLOR_SPACE_SRGB_NONLINEAR, FORMAT_B8G8R8A8_SRGB, FRAME_SLOTS, PRESENT_MODE_FIFO,
};

/// A surface whose extent follows the window, bounded well above test sizes.
fn surface() -> SurfaceInfo {
    SurfaceInfo {
        capabilities: SurfaceCaps {
            min_image_count: 2,
            max_image_count: 0,
            current_extent: Extent { width: u32::MAX, height: u32::MAX },
            min_image_extent: Extent { width: 1, height: 1 },
            max_image_extent: Extent { width: 4096, height: 4096 },
        },
        formats: vec![SurfaceFormat {
            format: FORMAT_B8G8R8A8_SRGB,
            color_space: COLOR_SPACE_SRGB_NONLINEAR,
        }],
        present_modes: vec![PRESENT_MODE_FIFO],
    }
}

/// Builds an engine with a swapchain of `image_count` images at `extent`.
fn engine_with_chain(extent: Extent, image_count: usize) -> Engine {
    let mut e = Engine::new();
    match e.begin_frame() {
        BeginAction::Recreate => {}
        other => panic!("expected a recreation to be requested, got {other:?}"),
    }
    match e.plan_recreation(&surface(), extent) {
        RecreationStep::Rebuild { config, destroy_old } => {
            assert_eq!(config.extent, extent);
            assert!(!destroy_old, "nothing exists yet to destroy");
        }
        RecreationStep::Deferred => panic!("recreation deferred for a nonzero extent"),
    }
    assert!(e.recreation_complete(image_count));
    e
}

/// Runs one full successful frame, answering the engine's actions with the
/// given acquired image index; returns the image the frame rendered into.
fn run_frame(e: &mut Engine, image: usize) -> usize {
    let slot = match e.begin_frame() {
        BeginAction::WaitSlotFence { slot } => slot,
        other => panic!("expected a fence wait, got {other:?}"),
    };
    assert_eq!(slot, e.current_slot);
    assert_eq!(e.slot_fence_ready(), slot);
    let rendered = match e.acquire_result(AcquireOutcome::Image { index: image }) {
        AcquireStep::WriteUniform { image } => image,
        AcquireStep::WaitImageFence { .. } => e.image_fence_ready(),
        other => panic!("expected the frame to proceed, got {other:?}"),
    };
    let sub = e.uniform_written();
    assert_eq!(sub.slot, slot);
    assert_eq!(sub.image, rendered);
    let pres = e.submitted();
    assert_eq!(pres.image, rendered);
    match e.present_result(PresentOutcome::Success) {
        PresentStep::Continue => {}
        other => panic!("expected the frame to complete, got {other:?}"),
    }
    rendered
}

#[test]
fn five_frames_cycle_slots_with_zero_recreations() {
    let mut e = engine_with_chain(Extent { width: 800, height: 600 }, 3);
    assert_eq!(e.extent, Extent { width: 800, height: 600 });

    let mut slots = Vec::new();
    for frame in 0..5 {
        slots.push(e.current_slot);
        run_frame(&mut e, frame % 3);
    }
    assert_eq!(slots, vec![0, 1, 0, 1, 0]);
    assert_eq!(e.frames_presented, 5);
    assert_eq!(e.recreations, 0);
}

#[test]
fn stale_present_recreates_once_before_next_acquire() {
    let mut e = engine_with_chain(Extent { width: 800, height: 600 }, 3);

    // One frame whose present reports a stale surface.
    match e.begin_frame() {
        BeginAction::WaitSlotFence { .. } => {}
        other => panic!("expected a fence wait, got {other:?}"),
    }
    e.slot_fence_ready();
    match e.acquire_result(AcquireOutcome::Image { index: 0 }) {
        AcquireStep::WriteUniform { image } => assert_eq!(image, 0),
        other => panic!("expected the frame to proceed, got {other:?}"),
    }
    e.uniform_written();
    e.submitted();
    match e.present_result(PresentOutcome::Stale) {
        PresentStep::Recreate => {}
        other => panic!("expected a recreation request, got {other:?}"),
    }

    // Exactly one recreation happens before the next frame's acquire,
    // against the surface's new size.
    match e.begin_frame() {
        BeginAction::Recreate => {}
        other => panic!("expected a recreation to be requested, got {other:?}"),
    }
    match e.plan_recreation(&surface(), Extent { width: 1024, height: 768 }) {
        RecreationStep::Rebuild { config, destroy_old } => {
            assert_eq!(config.extent, Extent { width: 1024, height: 768 });
            assert!(destroy_old, "the old bundle must be torn down");
        }
        RecreationStep::Deferred => panic!("recreation deferred for a nonzero extent"),
    }
    assert!(e.recreation_complete(3));
    assert_eq!(e.recreations, 1);
    assert_eq!(e.extent, Extent { width: 1024, height: 768 });

    // The subsequent frame succeeds.
    run_frame(&mut e, 0);
    assert_eq!(e.frames_presented, 1);
    assert_eq!(e.recreations, 1);
}

#[test]
fn stale_acquire_retries_the_frame_on_the_same_slot() {
    let mut e = engine_with_chain(Extent { width: 800, height: 600 }, 3);
    run_frame(&mut e, 0);
    assert_eq!(e.current_slot, 1);

    match e.begin_frame() {
        BeginAction::WaitSlotFence { slot } => assert_eq!(slot, 1),
        other => panic!("expected a fence wait, got {other:?}"),
    }
    e.slot_fence_ready();
    match e.acquire_result(AcquireOutcome::Stale) {
        AcquireStep::Recreate => {}
        other => panic!("expected a recreation request, got {other:?}"),
    }
    // No frame was lost: the slot is unchanged and nothing was presented.
    assert_eq!(e.current_slot, 1);
    assert_eq!(e.frames_presented, 1);

    match e.plan_recreation(&surface(), Extent { width: 800, height: 600 }) {
        RecreationStep::Rebuild { .. } => {}
        RecreationStep::Deferred => panic!("recreation deferred for a nonzero extent"),
    }
    assert!(e.recreation_complete(3));

    // The retried frame runs on the same slot.
    let image = run_frame(&mut e, 0);
    assert_eq!(image, 0);
    assert_eq!(e.frames_presented, 2);
}

#[test]
fn minimized_window_issues_no_gpu_work_until_restored() {
    let mut e = engine_with_chain(Extent { width: 800, height: 600 }, 3);
    run_frame(&mut e, 0);

    e.note_resize(Extent { width: 0, height: 0 });
    assert!(e.minimized);

    // Every frame while minimized pauses: no acquire, submit, present, or
    // construction is requested.
    for _ in 0..4 {
        match e.begin_frame() {
            BeginAction::Paused => {}
            other => panic!("expected the loop to pause, got {other:?}"),
        }
    }
    assert_eq!(e.frames_presented, 1);
    assert_eq!(e.recreations, 0);
    assert_eq!(e.extent, Extent { width: 800, height: 600 });

    // Restoring the window resumes rendering through one recreation.
    e.note_resize(Extent { width: 400, height: 300 });
    assert!(!e.minimized);
    assert!(e.is_resize_pending());
    match e.begin_frame() {
        BeginAction::Recreate => {}
        other => panic!("expected a recreation to be requested, got {other:?}"),
    }
    match e.plan_recreation(&surface(), Extent { width: 400, height: 300 }) {
        RecreationStep::Rebuild { config, .. } => {
            assert_eq!(config.extent, Extent { width: 400, height: 300 });
        }
        RecreationStep::Deferred => panic!("recreation deferred for a nonzero extent"),
    }
    assert!(e.recreation_complete(3));
    assert!(!e.is_resize_pending());
    run_frame(&mut e, 0);
    assert_eq!(e.frames_presented, 2);
    assert_eq!(e.recreations, 1);
}

#[test]
fn recreation_is_deferred_while_the_area_is_zero() {
    let mut e = engine_with_chain(Extent { width: 800, height: 600 }, 3);
    e.note_resize(Extent { width: 300, height: 200 });
    match e.begin_frame() {
        BeginAction::Recreate => {}
        other => panic!("expected a recreation to be requested, got {other:?}"),
    }
    // By the time the recreation runs, the drawable area has become zero:
    // nothing is built, and the loop pauses.
    match e.plan_recreation(&surface(), Extent { width: 0, height: 0 }) {
        RecreationStep::Deferred => {}
        RecreationStep::Rebuild { .. } => panic!("built a zero-area swapchain"),
    }
    assert!(e.minimized);
    assert_eq!(e.recreations, 0);
    match e.begin_frame() {
        BeginAction::Paused => {}
        other => panic!("expected the loop to pause, got {other:?}"),
    }
}

#[test]
fn image_guarded_by_another_slots_fence_is_waited_for() {
    // Two frame slots, three images: after two frames both slot fences are
    // pending. A third frame that acquires the image slot 0 last used must
    // wait on slot 0's fence before writing the image's uniform buffer.
    let mut e = engine_with_chain(Extent { width: 800, height: 600 }, 3);
    run_frame(&mut e, 0);
    run_frame(&mut e, 1);
    assert_eq!(e.current_slot, 0);

    match e.begin_frame() {
        BeginAction::WaitSlotFence { slot } => assert_eq!(slot, 0),
        other => panic!("expected a fence wait, got {other:?}"),
    }
    e.slot_fence_ready();
    // Slot 1's fence is still pending and guards image 1.
    match e.acquire_result(AcquireOutcome::Image { index: 1 }) {
        AcquireStep::WaitImageFence { slot } => assert_eq!(slot, 1),
        other => panic!("expected a wait on the image's fence, got {other:?}"),
    }
    assert_eq!(e.image_fence_ready(), 1);
    let sub = e.uniform_written();
    assert_eq!(sub, dobby_engine::SubmitRequest { slot: 0, image: 1 });
    e.submitted();
    match e.present_result(PresentOutcome::Success) {
        PresentStep::Continue => {}
        other => panic!("expected the frame to complete, got {other:?}"),
    }
    assert_eq!(e.frames_presented, 3);
}

#[test]
fn a_free_image_is_written_without_an_extra_wait() {
    let mut e = engine_with_chain(Extent { width: 800, height: 600 }, 3);
    run_frame(&mut e, 0);
    run_frame(&mut e, 1);
    // Image 2 has never been used: no wait is needed.
    let image = run_frame(&mut e, 2);
    assert_eq!(image, 2);
    assert_eq!(e.frames_presented, 3);
}

#[test]
fn fatal_acquire_and_present_outcomes_stop_the_loop() {
    let mut e = engine_with_chain(Extent { width: 800, height: 600 }, 2);
    match e.begin_frame() {
        BeginAction::WaitSlotFence { .. } => {}
        other => panic!("expected a fence wait, got {other:?}"),
    }
    e.slot_fence_ready();
    match e.acquire_result(AcquireOutcome::Failure) {
        AcquireStep::Fatal => {}
        other => panic!("expected a fatal stop, got {other:?}"),
    }
    assert_eq!(e.phase, Phase::Failed);

    let mut e = engine_with_chain(Extent { width: 800, height: 600 }, 2);
    match e.begin_frame() {
        BeginAction::WaitSlotFence { .. } => {}
        other => panic!("expected a fence wait, got {other:?}"),
    }
    e.slot_fence_ready();
    match e.acquire_result(AcquireOutcome::Image { index: 0 }) {
        AcquireStep::WriteUniform { .. } => {}
        other => panic!("expected the frame to proceed, got {other:?}"),
    }
    e.uniform_written();
    e.submitted();
    match e.present_result(PresentOutcome::Failure) {
        PresentStep::Fatal => {}
        other => panic!("expected a fatal stop, got {other:?}"),
    }
    assert_eq!(e.phase, Phase::Failed);
}

#[test]
fn an_out_of_range_image_index_is_fatal() {
    let mut e = engine_with_chain(Extent { width: 800, height: 600 }, 2);
    match e.begin_frame() {
        BeginAction::WaitSlotFence { .. } => {}
        other => panic!("expected a fence wait, got {other:?}"),
    }
    e.slot_fence_ready();
    match e.acquire_result(AcquireOutcome::Image { index: 2 }) {
        AcquireStep::Fatal => {}
        other => panic!("expected a fatal stop, got {other:?}"),
    }
    assert_eq!(e.phase, Phase::Failed);
}

#[test]
fn a_zero_image_count_after_rebuilding_is_fatal() {
    let mut e = Engine::new();
    match e.begin_frame() {
        BeginAction::Recreate => {}
        other => panic!("expected a recreation to be requested, got {other:?}"),
    }
    match e.plan_recreation(&surface(), Extent { width: 800, height: 600 }) {
        RecreationStep::Rebuild { .. } => {}
        RecreationStep::Deferred => panic!("recreation deferred for a nonzero extent"),
    }
    assert!(!e.recreation_complete(0));
    assert_eq!(e.phase, Phase::Failed);
}

#[test]
fn shutdown_destroys_everything_once_and_is_idempotent() {
    let mut e = engine_with_chain(Extent { width: 800, height: 600 }, 3);
    run_frame(&mut e, 0);

    let order = match e.shutdown() {
        ShutdownStep::Teardown { order } => order,
        ShutdownStep::AlreadyDown => panic!("first shutdown found nothing to destroy"),
    };
    assert_eq!(order, dobby_engine::full_teardown_order());
    assert_eq!(e.phase, Phase::Destroyed);

    // A second shutdown finds the engine destroyed and frees nothing.
    match e.shutdown() {
        ShutdownStep::AlreadyDown => {}
        ShutdownStep::Teardown { .. } => panic!("a resource would be destroyed twice"),
    }
    assert_eq!(e.phase, Phase::Destroyed);
}

#[test]
fn resize_flag_is_cleared_only_by_a_completed_recreation() {
    let mut e = engine_with_chain(Extent { width: 800, height: 600 }, 3);
    assert!(!e.is_resize_pending());
    e.note_resize(Extent { width: 640, height: 480 });
    assert!(e.is_resize_pending());

    match e.begin_frame() {
        BeginAction::Recreate => {}
        other => panic!("expected a recreation to be requested, got {other:?}"),
    }
    // Deferral does not clear the flag.
    match e.plan_recreation(&surface(), Extent { width: 0, height: 0 }) {
        RecreationStep::Deferred => {}
        RecreationStep::Rebuild { .. } => panic!("built a zero-area swapchain"),
    }
    assert!(e.is_resize_pending());

    match e.plan_recreation(&surface(), Extent { width: 640, height: 480 }) {
        RecreationStep::Rebuild { .. } => {}
        RecreationStep::Deferred => panic!("recreation deferred for a nonzero extent"),
    }
    assert!(e.recreation_complete(3));
    assert!(!e.is_resize_pending());
}

/// How many slot fences the engine currently records as unsignaled.
fn unsignaled(e: &Engine) -> usize {
    e.slot_fence_signaled.iter().filter(|s| !**s).count()
}

#[test]
fn unsignaled_fences_never_exceed_the_slot_count() {
    let mut e = engine_with_chain(Extent { width: 800, height: 600 }, 3);
    assert_eq!(unsignaled(&e), 0);
    for frame in 0..6 {
        match e.begin_frame() {
            BeginAction::WaitSlotFence { .. } => {}
            other => panic!("expected a fence wait, got {other:?}"),
        }
        assert!(unsignaled(&e) <= FRAME_SLOTS);
        e.slot_fence_ready();
        assert!(unsignaled(&e) <= FRAME_SLOTS);
        match e.acquire_result(AcquireOutcome::Image { index: frame % 3 }) {
            AcquireStep::WriteUniform { .. } => {}
            AcquireStep::WaitImageFence { .. } => {
                e.image_fence_ready();
            }
            other => panic!("expected the frame to proceed, got {other:?}"),
        }
        assert!(unsignaled(&e) <= FRAME_SLOTS);
        e.uniform_written();
        assert!(unsignaled(&e) <= FRAME_SLOTS);
        e.submitted();
        e.present_result(PresentOutcome::Success);
        assert!(unsignaled(&e) <= FRAME_SLOTS);
    }
}

#[test]
fn uniform_buffers_are_written_only_behind_a_signaled_fence() {
    let mut e = engine_with_chain(Extent { width: 800, height: 600 }, 3);
    for frame in 0..6 {
        match e.begin_frame() {
            BeginAction::WaitSlotFence { .. } => {}
            other => panic!("expected a fence wait, got {other:?}"),
        }
        e.slot_fence_ready();
        let image = match e.acquire_result(AcquireOutcome::Image { index: frame % 3 }) {
            AcquireStep::WriteUniform { image } => image,
            AcquireStep::WaitImageFence { .. } => e.image_fence_ready(),
            other => panic!("expected the frame to proceed, got {other:?}"),
        };
        // The uniform write happens now; the fence recorded for this image
        // must be observed signaled.
        match e.image_fences[image] {
            dobby_engine::ImageFence::Slot { slot } => {
                assert!(e.slot_fence_signaled[slot], "write while the image's fence is pending");
            }
            dobby_engine::ImageFence::NoFence => panic!("the image must be recorded as owned"),
        }
        e.uniform_written();
        e.submitted();
        e.present_result(PresentOutcome::Success);
    }
}

#[test]
fn slot_indices_cycle_through_all_slots() {
    let mut e = engine_with_chain(Extent { width: 800, height: 600 }, 3);
    for frame in 0..8 {
        assert_eq!(e.current_slot, frame % FRAME_SLOTS);
        run_frame(&mut e, frame % 3);
    }
}
