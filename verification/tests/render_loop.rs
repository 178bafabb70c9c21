use game_window::run::{FrameOutcome, LoopAction, LoopEvent, RenderLoop};
use gfx_hal::window::Extent2D;

#[test]
fn fresh_loop_starts_dirty() {
    let lp = RenderLoop::new(Extent2D { width: 800, height: 600 });
    assert!(lp.needs_configuration());
    assert_eq!(lp.surface_extent().width, 800);
    assert_eq!(lp.surface_extent().height, 600);
}

#[test]
fn resize_updates_extent_and_marks_dirty() {
    let mut lp = RenderLoop::new(Extent2D { width: 800, height: 600 });
    lp.complete_configuration(Extent2D { width: 800, height: 600 });
    assert!(!lp.needs_configuration());

    let action = lp.handle_event(&LoopEvent::Resized { width: 1024, height: 768 });
    assert_eq!(action, LoopAction::Ignore);
    assert_eq!(lp.surface_extent().width, 1024);
    assert_eq!(lp.surface_extent().height, 768);
    assert!(lp.needs_configuration());
}

#[test]
fn scale_factor_change_updates_extent_and_marks_dirty() {
    let mut lp = RenderLoop::new(Extent2D { width: 800, height: 600 });
    lp.complete_configuration(Extent2D { width: 800, height: 600 });

    let action = lp.handle_event(&LoopEvent::ScaleFactorChanged { width: 1600, height: 1200 });
    assert_eq!(action, LoopAction::Ignore);
    assert_eq!(lp.surface_extent().width, 1600);
    assert_eq!(lp.surface_extent().height, 1200);
    assert!(lp.needs_configuration());
}

#[test]
fn close_request_exits_without_touching_state() {
    let mut lp = RenderLoop::new(Extent2D { width: 320, height: 200 });
    lp.complete_configuration(Extent2D { width: 320, height: 200 });

    let action = lp.handle_event(&LoopEvent::CloseRequested);
    assert_eq!(action, LoopAction::Exit);
    assert!(!lp.needs_configuration());
    assert_eq!(lp.surface_extent().width, 320);
}

#[test]
fn cleared_events_request_a_redraw() {
    let mut lp = RenderLoop::new(Extent2D { width: 320, height: 200 });
    let action = lp.handle_event(&LoopEvent::MainEventsCleared);
    assert_eq!(action, LoopAction::RequestRedraw);
}

#[test]
fn redraw_request_renders() {
    let mut lp = RenderLoop::new(Extent2D { width: 320, height: 200 });
    let action = lp.handle_event(&LoopEvent::RedrawRequested);
    assert_eq!(action, LoopAction::Redraw);
}

#[test]
fn other_events_are_ignored() {
    let mut lp = RenderLoop::new(Extent2D { width: 320, height: 200 });
    let action = lp.handle_event(&LoopEvent::Other);
    assert_eq!(action, LoopAction::Ignore);
    assert!(lp.needs_configuration());
    assert_eq!(lp.surface_extent().width, 320);
}

#[test]
fn configuration_caches_the_extent_the_swapchain_chose() {
    let mut lp = RenderLoop::new(Extent2D { width: 800, height: 600 });
    // The surface clamped the requested extent to its own limits.
    lp.complete_configuration(Extent2D { width: 640, height: 480 });
    assert!(!lp.needs_configuration());
    assert_eq!(lp.surface_extent().width, 640);
    assert_eq!(lp.surface_extent().height, 480);
}

#[test]
fn failed_acquire_marks_dirty_before_the_next_frame() {
    let mut lp = RenderLoop::new(Extent2D { width: 800, height: 600 });
    lp.complete_configuration(Extent2D { width: 800, height: 600 });
    assert!(!lp.needs_configuration());

    lp.apply_frame_outcome(FrameOutcome::AcquireFailed);
    assert!(lp.needs_configuration());
    assert_eq!(lp.surface_extent().width, 800);
}

#[test]
fn failed_present_marks_dirty_before_the_next_frame() {
    let mut lp = RenderLoop::new(Extent2D { width: 800, height: 600 });
    lp.complete_configuration(Extent2D { width: 800, height: 600 });

    lp.apply_frame_outcome(FrameOutcome::Presented { present_failed: true });
    assert!(lp.needs_configuration());
}

#[test]
fn clean_frame_leaves_the_flag_alone() {
    let mut lp = RenderLoop::new(Extent2D { width: 800, height: 600 });
    lp.complete_configuration(Extent2D { width: 800, height: 600 });

    lp.apply_frame_outcome(FrameOutcome::Presented { present_failed: false });
    assert!(!lp.needs_configuration());
}
