use image_example::frame::{
    AcquireAction, AcquireOutcome, FlushAction, FlushOutcome, FrameState, WindowAction, WindowInput,
};

fn redraw(width: u32, height: u32) -> WindowInput {
    WindowInput::RedrawRequested { width, height }
}

#[test]
fn close_and_escape_exit() {
    let mut s = FrameState::new();
    assert_eq!(s.on_window_event(WindowInput::CloseRequested), WindowAction::Exit);
    assert_eq!(s.on_window_event(WindowInput::KeyboardInput { escape: true }), WindowAction::Exit);
    assert_eq!(s.on_window_event(WindowInput::KeyboardInput { escape: false }), WindowAction::Nothing);
    assert_eq!(s.on_window_event(WindowInput::Other), WindowAction::Nothing);
    assert!(!s.recreate_swapchain);
}

#[test]
fn resize_then_redraw_recreates_once() {
    let mut s = FrameState::new();
    assert_eq!(s.on_window_event(WindowInput::Resized), WindowAction::Nothing);
    assert!(s.recreate_swapchain);
    assert_eq!(
        s.on_window_event(redraw(1024, 768)),
        WindowAction::BeginFrame { recreate_swapchain: true, width: 1024, height: 768 }
    );
    assert!(!s.recreate_swapchain);
    assert_eq!(
        s.on_window_event(redraw(1024, 768)),
        WindowAction::BeginFrame { recreate_swapchain: false, width: 1024, height: 768 }
    );
}

#[test]
fn minimised_window_is_not_drawn() {
    let mut s = FrameState { recreate_swapchain: true };
    assert_eq!(s.on_window_event(redraw(0, 768)), WindowAction::Nothing);
    assert_eq!(s.on_window_event(redraw(1024, 0)), WindowAction::Nothing);
    assert!(s.recreate_swapchain);
}

#[test]
fn acquire_outcomes() {
    let mut s = FrameState::new();
    assert_eq!(
        s.on_acquire(AcquireOutcome::Acquired { image_index: 2, suboptimal: false }),
        AcquireAction::DrawAndPresent { image_index: 2 }
    );
    assert!(!s.recreate_swapchain);
    assert_eq!(
        s.on_acquire(AcquireOutcome::Acquired { image_index: 0, suboptimal: true }),
        AcquireAction::DrawAndPresent { image_index: 0 }
    );
    assert!(s.recreate_swapchain);
    let mut t = FrameState::new();
    assert_eq!(t.on_acquire(AcquireOutcome::OutOfDate), AcquireAction::SkipFrame);
    assert!(t.recreate_swapchain);
    let mut u = FrameState::new();
    assert_eq!(u.on_acquire(AcquireOutcome::Failed), AcquireAction::Abort);
    assert!(!u.recreate_swapchain);
}

#[test]
fn flush_outcomes() {
    let mut s = FrameState::new();
    assert_eq!(s.on_flush(FlushOutcome::Flushed), FlushAction::KeepFrame);
    assert!(!s.recreate_swapchain);
    assert_eq!(s.on_flush(FlushOutcome::Failed), FlushAction::ReportAndResetFrame);
    assert!(!s.recreate_swapchain);
    assert_eq!(s.on_flush(FlushOutcome::OutOfDate), FlushAction::ResetFrame);
    assert!(s.recreate_swapchain);
}

#[test]
fn out_of_date_present_recreates_at_next_frame() {
    let mut s = FrameState::new();
    assert!(matches!(s.on_window_event(redraw(10, 10)), WindowAction::BeginFrame { recreate_swapchain: false, .. }));
    s.on_acquire(AcquireOutcome::Acquired { image_index: 1, suboptimal: false });
    s.on_flush(FlushOutcome::OutOfDate);
    s.on_window_event(WindowInput::Other);
    s.on_window_event(redraw(0, 0));
    assert_eq!(
        s.on_window_event(redraw(20, 30)),
        WindowAction::BeginFrame { recreate_swapchain: true, width: 20, height: 30 }
    );
}
