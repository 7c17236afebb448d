//! Event-loop decisions.
//!
//! The window system delivers events and the GPU reports presentation
//! results; what to do in response is pure logic.  The functions here take
//! those occurrences as plain values and return the action the application
//! must perform, so the event loop itself is a thin interpreter.

use vstd::prelude::*;

verus! {

/// Ways that acquiring or presenting a swap-chain frame can fail.
#[derive(Clone, Copy, Debug, PartialEq, Eq, Structural)]
pub enum SurfaceFault {
    /// The frame took too long to become available.
    Timeout,
    /// The surface no longer matches the swap chain's configuration.
    Outdated,
    /// The swap chain was lost and must be rebuilt.
    Lost,
    /// The device is out of memory.
    OutOfMemory,
}

/// The result of rendering one frame.
#[derive(Clone, Copy, Debug, PartialEq, Eq, Structural)]
pub enum RenderOutcome {
    Completed,
    Failed(SurfaceFault),
}

/// What the application does after a frame was rendered (or failed to be).
#[derive(Clone, Copy, Debug, PartialEq, Eq, Structural)]
pub enum RedrawFollowup {
    /// The frame was presented; nothing to repair.
    Proceed,
    /// Reconfigure the surface at the current size, then carry on.
    ResizeToCurrent,
    /// The device is unusable; leave the event loop.
    Exit,
    /// A transient fault; report it and carry on.
    Report,
}

/// A window event, reduced to the data the application reacts to.
#[derive(Clone, Copy, Debug, PartialEq, Eq, Structural)]
pub enum WindowEventKind {
    RedrawRequested,
    Resized { width: u32, height: u32 },
    CloseRequested,
    Other,
}

/// What the application does with a window event addressed to it.
#[derive(Clone, Copy, Debug, PartialEq, Eq, Structural)]
pub enum AppAction {
    /// Run the compute and render passes, then ask for the next redraw.
    RenderFrame,
    /// Rebuild the size-dependent resources for the new extent.
    Resize { width: u32, height: u32 },
    /// The event needs no work.
    Ignore,
}

/// How the top-level handler routes an incoming window event.
#[derive(Clone, Copy, Debug, PartialEq, Eq, Structural)]
pub enum Routing {
    /// No application is live, or the event is for another window.
    Ignore,
    /// Drop the application and leave the event loop.
    Shutdown,
    /// Hand the event to the application.
    Forward,
}

/// Decides how the top-level handler treats an event: events are ignored
/// unless an application is live and the event addresses its window; a close
/// request shuts the application down; everything else is forwarded.
pub fn route_event(has_app: bool, id_matches: bool, event: WindowEventKind) -> (r: Routing)
    ensures
        r is Ignore <==> !(has_app && id_matches),
        r is Shutdown <==> has_app && id_matches && event is CloseRequested,
        r is Forward <==> has_app && id_matches && !(event is CloseRequested),
{
    if !has_app || !id_matches {
        Routing::Ignore
    } else if let WindowEventKind::CloseRequested = event {
        Routing::Shutdown
    } else {
        Routing::Forward
    }
}

/// Decides what the application does with a forwarded window event: a redraw
/// request renders a frame, a resize rebuilds the size-dependent resources at
/// exactly the reported extent, and every other event is ignored.
pub fn window_event_action(event: WindowEventKind) -> (a: AppAction)
    ensures
        a is RenderFrame <==> event is RedrawRequested,
        a is Resize <==> event is Resized,
        a is Ignore <==> (event is CloseRequested || event is Other),
        event matches WindowEventKind::Resized { width, height } ==> a == (AppAction::Resize {
            width,
            height,
        }),
{
    match event {
        WindowEventKind::RedrawRequested => AppAction::RenderFrame,
        WindowEventKind::Resized { width, height } => AppAction::Resize { width, height },
        WindowEventKind::CloseRequested => AppAction::Ignore,
        WindowEventKind::Other => AppAction::Ignore,
    }
}

/// Decides how a frame's outcome is repaired: a lost swap chain is rebuilt at
/// the current size, an out-of-memory device ends the event loop, and any
/// other fault is only reported.
pub fn redraw_followup(outcome: RenderOutcome) -> (f: RedrawFollowup)
    ensures
        f is Proceed <==> outcome is Completed,
        f is ResizeToCurrent <==> outcome == RenderOutcome::Failed(SurfaceFault::Lost),
        f is Exit <==> outcome == RenderOutcome::Failed(SurfaceFault::OutOfMemory),
        f is Report <==> (outcome matches RenderOutcome::Failed(fault) && fault != SurfaceFault::Lost
            && fault != SurfaceFault::OutOfMemory),
{
    match outcome {
        RenderOutcome::Completed => RedrawFollowup::Proceed,
        RenderOutcome::Failed(SurfaceFault::Lost) => RedrawFollowup::ResizeToCurrent,
        RenderOutcome::Failed(SurfaceFault::OutOfMemory) => RedrawFollowup::Exit,
        RenderOutcome::Failed(_) => RedrawFollowup::Report,
    }
}

} // verus!
