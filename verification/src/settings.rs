//! Application settings.
//!
//! The settings loader currently constructs defaults; there is no persistent
//! store to search yet. The graphics settings carry the initial window size
//! and whether the window starts maximized.

use vstd::prelude::*;

verus! {

/// Width, in logical pixels, of a window created with default settings.
pub const DEFAULT_WINDOW_WIDTH: u16 = 1280;

/// Height, in logical pixels, of a window created with default settings.
pub const DEFAULT_WINDOW_HEIGHT: u16 = 720;

pub struct Settings {
    graphics: GraphicsSettings,
}

impl Settings {
    /// The graphics settings held by this settings value.
    pub closed spec fn spec_graphics(self) -> GraphicsSettings {
        self.graphics
    }

    pub fn new() -> (r: Settings)
        ensures
            r.spec_graphics().is_default(),
    {
        Self { graphics: GraphicsSettings::new() }
    }

    /// Loading searches no store yet: it always constructs the defaults.
    pub fn load() -> (r: Settings)
        ensures
            r.spec_graphics().is_default(),
    {
        Settings::new()
    }

    pub fn graphics(&self) -> (r: &GraphicsSettings)
        ensures
            *r == self.spec_graphics(),
    {
        &self.graphics
    }
}

pub struct GraphicsSettings {
    window_size: [u16; 2],
    maximized: bool,
}

impl GraphicsSettings {
    /// The stored window size, as the pair (width, height) of logical pixels.
    pub closed spec fn spec_window_size(self) -> (u16, u16) {
        (self.window_size@[0], self.window_size@[1])
    }

    /// Whether the window starts maximized.
    pub closed spec fn spec_maximized(self) -> bool {
        self.maximized
    }

    /// Whether a settings value holds the defaults: a 1280 x 720 window,
    /// not maximized.
    pub open spec fn is_default(self) -> bool {
        &&& self.spec_window_size() == (DEFAULT_WINDOW_WIDTH, DEFAULT_WINDOW_HEIGHT)
        &&& !self.spec_maximized()
    }

    pub fn new() -> (r: GraphicsSettings)
        ensures
            r.is_default(),
    {
        Self { window_size: [1280, 720], maximized: false }
    }

    /// Loading searches no store yet: it always constructs the defaults.
    pub fn load() -> (r: GraphicsSettings)
        ensures
            r.is_default(),
    {
        GraphicsSettings::new()
    }

    pub fn window_size(&self) -> (r: [u16; 2])
        ensures
            r[0] == self.spec_window_size().0,
            r[1] == self.spec_window_size().1,
    {
        self.window_size
    }

    pub fn maximized(&self) -> (r: bool)
        ensures
            r == self.spec_maximized(),
    {
        self.maximized
    }
}

} // verus!
