//! The game window: owns the native window handle and tracks the logical
//! size, physical size, maximized flag, and the surface extent that the
//! renderer configures its swapchain from.

use vstd::prelude::*;
use crate::renderer::calc_logical_and_physical_window_size;
use crate::settings::Settings;
use gfx_hal::window::Extent2D;

verus! {

/// Title given to the native window.
pub const APP_NAME: &'static str = "Game Window";

/// Relies on winit's `EventLoop::new`: creates the event loop that the
/// windowing platform dispatches events through.
#[verifier::external_body]
fn create_event_loop() -> (r: winit::event_loop::EventLoop<()>) {
    winit::event_loop::EventLoop::new()
}

/// Relies on winit's `WindowBuilder` (`with_title`, `with_inner_size`,
/// `with_maximized`, `build`): creates a native window with the given title,
/// logical inner size and maximized flag. Panics when the platform cannot
/// create a window.
#[verifier::external_body]
fn build_window(
    event_loop: &winit::event_loop::EventLoop<()>,
    title: &str,
    inner_size: winit::dpi::LogicalSize<u32>,
    maximized: bool,
) -> (r: winit::window::Window) {
    winit::window::WindowBuilder::new()
        .with_title(title)
        .with_inner_size(inner_size)
        .with_maximized(maximized)
        .build(event_loop)
        .expect("Could not create Window")
}

pub struct GameWindow {
    window: winit::window::Window,
    logical_size: winit::dpi::LogicalSize<u32>,
    physical_size: winit::dpi::PhysicalSize<u32>,
    maximized: bool,
    surface_extent: Extent2D,
}

impl GameWindow {
    /// The logical (DPI-independent) size the window was created with.
    pub closed spec fn spec_logical_size(self) -> winit::dpi::LogicalSize<u32> {
        self.logical_size
    }

    /// The physical (pixel) size the window was created with.
    pub closed spec fn spec_physical_size(self) -> winit::dpi::PhysicalSize<u32> {
        self.physical_size
    }

    /// Whether the window was created maximized.
    pub closed spec fn spec_maximized(self) -> bool {
        self.maximized
    }

    /// The cached surface extent the swapchain is configured from.
    pub closed spec fn spec_surface_extent(self) -> Extent2D {
        self.surface_extent
    }

    /// Creates the event loop and the native window from the settings.
    /// The window takes its logical size and maximized flag from the graphics
    /// settings, and the cached surface extent starts as the physical size.
    pub fn new(settings: &Settings) -> (r: (GameWindow, winit::event_loop::EventLoop<()>))
        ensures
            r.0.spec_logical_size().width == settings.spec_graphics().spec_window_size().0 as u32,
            r.0.spec_logical_size().height == settings.spec_graphics().spec_window_size().1 as u32,
            r.0.spec_maximized() == settings.spec_graphics().spec_maximized(),
            r.0.spec_surface_extent().width == r.0.spec_physical_size().width,
            r.0.spec_surface_extent().height == r.0.spec_physical_size().height,
    {
        let event_loop = create_event_loop();

        let (logical_size, physical_size) =
            calc_logical_and_physical_window_size(&event_loop, settings);
        let maximized = settings.graphics().maximized();

        let window = build_window(&event_loop, APP_NAME, logical_size, maximized);

        let surface_extent = Extent2D {
            width: physical_size.width,
            height: physical_size.height,
        };

        let this = Self {
            window,
            logical_size,
            physical_size,
            maximized,
            surface_extent,
        };
        (this, event_loop)
    }

    pub fn window(&self) -> &winit::window::Window {
        &self.window
    }

    pub fn logical_size(&self) -> (r: &winit::dpi::LogicalSize<u32>)
        ensures
            *r == self.spec_logical_size(),
    {
        &self.logical_size
    }

    pub fn physical_size(&self) -> (r: &winit::dpi::PhysicalSize<u32>)
        ensures
            *r == self.spec_physical_size(),
    {
        &self.physical_size
    }

    pub fn maximized(&self) -> (r: bool)
        ensures
            r == self.spec_maximized(),
    {
        self.maximized
    }

    pub fn surface_extent(&mut self) -> (r: &mut Extent2D)
        ensures
            *r == old(self).spec_surface_extent(),
            final(self).spec_surface_extent() == *final(r),
            final(self).spec_logical_size() == old(self).spec_logical_size(),
            final(self).spec_physical_size() == old(self).spec_physical_size(),
            final(self).spec_maximized() == old(self).spec_maximized(),
    {
        &mut self.surface_extent
    }

    /// Replaces the cached surface extent; everything else is unchanged.
    pub fn update_surface_extent(&mut self, extent: Extent2D)
        ensures
            final(self).spec_surface_extent() == extent,
            final(self).spec_logical_size() == old(self).spec_logical_size(),
            final(self).spec_physical_size() == old(self).spec_physical_size(),
            final(self).spec_maximized() == old(self).spec_maximized(),
    {
        self.surface_extent = extent
    }
}

} // verus!
