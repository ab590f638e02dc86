//! Decisions of the viewer's event loop: what a window event and the outcome of a
//! rendered frame ask the loop to do next.

use vstd::prelude::*;

verus! {

/// Why a frame could not be presented.
#[derive(Clone, Copy, Debug, PartialEq, Eq, Structural)]
pub enum FrameError {
    /// The swap chain was lost and must be recreated.
    Lost,
    /// The GPU ran out of memory.
    OutOfMemory,
    /// The swap chain no longer matches the surface.
    Outdated,
    /// No frame became available in time.
    Timeout,
}

/// What the loop does after a frame.
#[derive(Clone, Copy, Debug, PartialEq, Eq, Structural)]
pub enum FrameAction {
    /// Go on with the next frame.
    Continue,
    /// Recreate the swap chain at the current size.
    Recreate,
    /// Stop the event loop.
    Exit,
    /// Report the error; the next frame is expected to recover.
    Report,
}

/// A lost swap chain is recreated, running out of memory ends the loop, and any other
/// failure is reported and left to the next frame.
pub fn after_frame(outcome: Result<(), FrameError>) -> (a: FrameAction)
    ensures
        a == match outcome {
            Ok(()) => FrameAction::Continue,
            Err(FrameError::Lost) => FrameAction::Recreate,
            Err(FrameError::OutOfMemory) => FrameAction::Exit,
            Err(_) => FrameAction::Report,
        },
{
    match outcome {
        Ok(()) => FrameAction::Continue,
        Err(FrameError::Lost) => FrameAction::Recreate,
        Err(FrameError::OutOfMemory) => FrameAction::Exit,
        Err(_) => FrameAction::Report,
    }
}

/// A window event, reduced to what the loop reads of it.
#[derive(Clone, Copy, Debug, PartialEq, Eq, Structural)]
pub enum WindowInput {
    CloseRequested,
    Resized { width: u32, height: u32 },
    ScaleFactorChanged { width: u32, height: u32 },
    Other,
}

/// What the loop does with a window event.
#[derive(Clone, Copy, Debug, PartialEq, Eq, Structural)]
pub enum WindowAction {
    Ignore,
    Exit,
    Resize { width: u32, height: u32 },
}

/// An event that the camera controller already consumed is ignored; otherwise a close
/// request ends the loop and a new size, or a new scale factor's inner size, resizes.
pub fn window_action(consumed: bool, event: WindowInput) -> (a: WindowAction)
    ensures
        consumed ==> a == WindowAction::Ignore,
        !consumed ==> a == match event {
            WindowInput::CloseRequested => WindowAction::Exit,
            WindowInput::Resized { width, height } => WindowAction::Resize { width, height },
            WindowInput::ScaleFactorChanged { width, height } => WindowAction::Resize { width, height },
            WindowInput::Other => WindowAction::Ignore,
        },
{
    if consumed {
        return WindowAction::Ignore;
    }
    match event {
        WindowInput::CloseRequested => WindowAction::Exit,
        WindowInput::Resized { width, height } => WindowAction::Resize { width, height },
        WindowInput::ScaleFactorChanged { width, height } => WindowAction::Resize { width, height },
        WindowInput::Other => WindowAction::Ignore,
    }
}

} // verus!
