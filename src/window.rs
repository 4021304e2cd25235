use vstd::prelude::*;

verus! {

/// Width of the window, in logical pixels.
pub const SCREEN_WIDTH: u32 = 1000;

/// Height of the window, in logical pixels.
pub const SCREEN_HEIGHT: u32 = 1000;

/// How the host engine is asked to set up the primary window and its asset loader.
#[derive(Clone, Copy, Debug, PartialEq, Eq, Structural)]
pub struct WindowSettings {
    pub width: u32,
    pub height: u32,
    pub resizable: bool,
    /// Present frames in step with the display's vertical refresh.
    pub vsync: bool,
    /// Reload shader and material assets when their files change on disk.
    pub watch_assets: bool,
    /// The Escape key closes the application.
    pub close_on_escape: bool,
    /// Rate of the fixed-timestep schedule, in updates per second.
    pub fixed_hz: u32,
}

/// The settings the application runs with.
pub open spec fn spec_window_settings() -> WindowSettings {
    WindowSettings {
        width: SCREEN_WIDTH,
        height: SCREEN_HEIGHT,
        resizable: true,
        vsync: true,
        watch_assets: true,
        close_on_escape: true,
        fixed_hz: 60,
    }
}

pub fn window_settings() -> (r: WindowSettings)
    ensures
        r == spec_window_settings(),
{
    WindowSettings {
        width: SCREEN_WIDTH,
        height: SCREEN_HEIGHT,
        resizable: true,
        vsync: true,
        watch_assets: true,
        close_on_escape: true,
        fixed_hz: 60,
    }
}

} // verus!
