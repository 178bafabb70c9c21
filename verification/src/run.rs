//! The decisions of the event loop: which window events request exit, redraws
//! or a new surface extent, and how the outcome of a frame decides whether the
//! swapchain must be reconfigured before the next one.
//!
//! The event loop itself, the GPU submission and the presentation live
//! outside this library; they hand each event and each frame's outcome to the
//! state here and carry out the action it returns.

use vstd::prelude::*;
use gfx_hal::window::Extent2D;

verus! {

/// A window or loop event, reduced to what the render loop decides on.
pub enum LoopEvent {
    /// The user asked to close the window.
    CloseRequested,
    /// The window was resized to this physical size.
    Resized { width: u32, height: u32 },
    /// The DPI factor changed, giving the window this new physical size.
    ScaleFactorChanged { width: u32, height: u32 },
    /// All pending events were dispatched.
    MainEventsCleared,
    /// The platform asked for the window to be redrawn.
    RedrawRequested,
    /// Any other event; the loop ignores it.
    Other,
}

/// What the event loop must do in response to an event.
#[derive(Clone, Copy, Debug, PartialEq, Eq, Structural)]
pub enum LoopAction {
    /// Stop the event loop and exit.
    Exit,
    /// Ask the platform to schedule a redraw.
    RequestRedraw,
    /// Render a frame now.
    Redraw,
    /// Nothing to do.
    Ignore,
}

/// How a rendered frame ended.
pub enum FrameOutcome {
    /// Acquiring a swapchain image failed; the frame was skipped.
    AcquireFailed,
    /// A frame was submitted; presenting it may still have failed.
    Presented { present_failed: bool },
}

impl FrameOutcome {
    /// Whether the swapchain failed this frame, either at acquire or at
    /// present.
    pub open spec fn is_failure(self) -> bool {
        match self {
            FrameOutcome::AcquireFailed => true,
            FrameOutcome::Presented { present_failed } => present_failed,
        }
    }
}

/// The render loop's state between events: the surface extent the swapchain
/// is (to be) configured from, and whether it must be (re)configured before
/// the next frame.
pub struct RenderLoop {
    should_configure_swapchain: bool,
    surface_extent: Extent2D,
}

impl RenderLoop {
    /// Whether the swapchain must be configured before the next frame.
    pub closed spec fn spec_dirty(self) -> bool {
        self.should_configure_swapchain
    }

    /// The surface extent the swapchain is configured from.
    pub closed spec fn spec_surface_extent(self) -> Extent2D {
        self.surface_extent
    }

    /// A fresh loop starts dirty: the swapchain has never been configured.
    pub fn new(initial_extent: Extent2D) -> (r: RenderLoop)
        ensures
            r.spec_dirty(),
            r.spec_surface_extent() == initial_extent,
    {
        RenderLoop { should_configure_swapchain: true, surface_extent: initial_extent }
    }

    /// Decides what to do for one event. A close request exits; a resize or
    /// DPI change caches the new physical size as the surface extent and
    /// marks the swapchain for reconfiguration; cleared events request a
    /// redraw; a redraw request renders; everything else is ignored, and
    /// nothing but a resize or DPI change touches the state.
    pub fn handle_event(&mut self, event: &LoopEvent) -> (action: LoopAction)
        ensures
            match *event {
                LoopEvent::CloseRequested => {
                    &&& action == LoopAction::Exit
                    &&& *final(self) == *old(self)
                },
                LoopEvent::Resized { width, height } => {
                    &&& action == LoopAction::Ignore
                    &&& final(self).spec_dirty()
                    &&& final(self).spec_surface_extent() == (Extent2D { width, height })
                },
                LoopEvent::ScaleFactorChanged { width, height } => {
                    &&& action == LoopAction::Ignore
                    &&& final(self).spec_dirty()
                    &&& final(self).spec_surface_extent() == (Extent2D { width, height })
                },
                LoopEvent::MainEventsCleared => {
                    &&& action == LoopAction::RequestRedraw
                    &&& *final(self) == *old(self)
                },
                LoopEvent::RedrawRequested => {
                    &&& action == LoopAction::Redraw
                    &&& *final(self) == *old(self)
                },
                LoopEvent::Other => {
                    &&& action == LoopAction::Ignore
                    &&& *final(self) == *old(self)
                },
            },
    {
        match *event {
            LoopEvent::CloseRequested => LoopAction::Exit,
            LoopEvent::Resized { width, height } => {
                self.surface_extent = Extent2D { width, height };
                self.should_configure_swapchain = true;
                LoopAction::Ignore
            },
            LoopEvent::ScaleFactorChanged { width, height } => {
                self.surface_extent = Extent2D { width, height };
                self.should_configure_swapchain = true;
                LoopAction::Ignore
            },
            LoopEvent::MainEventsCleared => LoopAction::RequestRedraw,
            LoopEvent::RedrawRequested => LoopAction::Redraw,
            LoopEvent::Other => LoopAction::Ignore,
        }
    }

    /// Whether the swapchain must be configured before rendering the next
    /// frame.
    pub fn needs_configuration(&self) -> (r: bool)
        ensures
            r == self.spec_dirty(),
    {
        self.should_configure_swapchain
    }

    /// The extent to configure the swapchain from.
    pub fn surface_extent(&self) -> (r: Extent2D)
        ensures
            r == self.spec_surface_extent(),
    {
        self.surface_extent
    }

    /// Records that the swapchain was configured. The swapchain may have
    /// clamped the requested extent to what the surface supports, so the
    /// extent it actually chose is cached as the new surface extent.
    pub fn complete_configuration(&mut self, chosen_extent: Extent2D)
        ensures
            !final(self).spec_dirty(),
            final(self).spec_surface_extent() == chosen_extent,
    {
        self.surface_extent = chosen_extent;
        self.should_configure_swapchain = false;
    }

    /// Records how a frame ended: a failed acquire or present always marks
    /// the swapchain for reconfiguration before the next frame, and a clean
    /// frame changes nothing.
    pub fn apply_frame_outcome(&mut self, outcome: FrameOutcome)
        ensures
            final(self).spec_dirty() == (old(self).spec_dirty() || outcome.is_failure()),
            final(self).spec_surface_extent() == old(self).spec_surface_extent(),
            outcome.is_failure() ==> final(self).spec_dirty(),
    {
        let failed = match outcome {
            FrameOutcome::AcquireFailed => true,
            FrameOutcome::Presented { present_failed } => present_failed,
        };
        self.should_configure_swapchain = self.should_configure_swapchain || failed;
    }
}

} // verus!
