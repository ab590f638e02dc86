use eris::viewer::{after_frame, window_action, FrameAction, FrameError, WindowAction, WindowInput};

#[test]
fn presented_frame_continues() {
    assert_eq!(after_frame(Ok(())), FrameAction::Continue);
}

#[test]
fn lost_swap_chain_is_recreated() {
    assert_eq!(after_frame(Err(FrameError::Lost)), FrameAction::Recreate);
}

#[test]
fn out_of_memory_exits() {
    assert_eq!(after_frame(Err(FrameError::OutOfMemory)), FrameAction::Exit);
}

#[test]
fn other_frame_errors_are_reported() {
    assert_eq!(after_frame(Err(FrameError::Outdated)), FrameAction::Report);
    assert_eq!(after_frame(Err(FrameError::Timeout)), FrameAction::Report);
}

#[test]
fn consumed_window_events_are_ignored() {
    assert_eq!(window_action(true, WindowInput::CloseRequested), WindowAction::Ignore);
    assert_eq!(window_action(true, WindowInput::Resized { width: 8, height: 6 }), WindowAction::Ignore);
}

#[test]
fn window_events_close_and_resize() {
    assert_eq!(window_action(false, WindowInput::CloseRequested), WindowAction::Exit);
    assert_eq!(
        window_action(false, WindowInput::Resized { width: 800, height: 600 }),
        WindowAction::Resize { width: 800, height: 600 }
    );
    assert_eq!(
        window_action(false, WindowInput::ScaleFactorChanged { width: 1600, height: 1200 }),
        WindowAction::Resize { width: 1600, height: 1200 }
    );
    assert_eq!(window_action(false, WindowInput::Other), WindowAction::Ignore);
}
