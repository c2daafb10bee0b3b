//! The process-wide settings: the shoot flag, the window's present mode and
//! the frame-rate overlay.

use vstd::prelude::*;

verus! {

/// Whether firing is allowed. While `is_shoot` is false no bullet is spawned.
#[derive(Clone, Copy, Debug, PartialEq, Eq, Structural)]
pub struct ShootState {
    pub is_shoot: bool,
}

/// How the window hands finished frames to the display.
#[derive(Clone, Copy, Debug, PartialEq, Eq, Structural)]
pub enum PresentMode {
    /// Frames wait for the display's refresh.
    Fifo,
    /// Frames are shown as soon as they are ready.
    Immediate,
}

/// The two states of vsync, as present modes.
pub struct VsyncStatus;

impl VsyncStatus {
    /// The present mode in which vsync is on.
    pub const ON: PresentMode = PresentMode::Fifo;

    /// The present mode in which vsync is off.
    pub const OFF: PresentMode = PresentMode::Immediate;
}

/// The primary window, as far as the game touches it.
#[derive(Clone, Copy, Debug, PartialEq, Eq, Structural)]
pub struct Window {
    pub present_mode: PresentMode,
}

/// The two colours of the overlay's text.
#[derive(Clone, Copy, Debug, PartialEq, Eq, Structural)]
pub enum OverlayColor {
    Red,
    Green,
}

/// The overlay's initial font size, in points.
pub const OVERLAY_FONT_SIZE: i64 = 30;

/// The step by which one key press changes the font size, in points.
pub const FONT_STEP: i64 = 2;

/// The overlay's refresh interval: a tenth of a second, in nanoseconds.
pub const OVERLAY_REFRESH_INTERVAL: u64 = 100_000_000;

/// The settings of the frame-rate overlay.
#[derive(Clone, Copy, Debug, PartialEq, Eq, Structural)]
pub struct FpsOverlayConfig {
    pub text_color: OverlayColor,
    /// In points. No bound is kept: it may reach zero and go below.
    pub font_size: i64,
    pub enabled: bool,
    /// In nanoseconds.
    pub refresh_interval: u64,
}

} // verus!
