//! The display toggles: vsync on the window, and the colour, size and
//! visibility of the frame-rate overlay.

use crate::config::{FpsOverlayConfig, OverlayColor, PresentMode, VsyncStatus, Window, FONT_STEP};
use crate::input::{ButtonInput, KeyCode};
use vstd::prelude::*;

verus! {

impl PresentMode {
    /// The other of the two modes.
    pub open spec fn flipped(self) -> PresentMode {
        match self {
            PresentMode::Fifo => PresentMode::Immediate,
            PresentMode::Immediate => PresentMode::Fifo,
        }
    }
}

impl OverlayColor {
    /// The other of the two colours.
    pub open spec fn flipped(self) -> OverlayColor {
        match self {
            OverlayColor::Green => OverlayColor::Red,
            OverlayColor::Red => OverlayColor::Green,
        }
    }
}

/// Whether the vsync chord is struck in this frame: the modifier is held and
/// the second key went down.
pub open spec fn vsync_chord(input: ButtonInput) -> bool {
    input.pressed(KeyCode::ControlLeft) && input.just_pressed(KeyCode::AltLeft)
}

/// The present mode after a frame with the given input.
pub open spec fn present_mode_after(mode: PresentMode, input: ButtonInput) -> PresentMode {
    if vsync_chord(input) {
        mode.flipped()
    } else {
        mode
    }
}

/// The word that stands for a present mode: `ON` with vsync, `OFF` without.
pub open spec fn vsync_word(mode: PresentMode) -> Seq<char> {
    if mode == VsyncStatus::ON {
        "ON"@
    } else {
        "OFF"@
    }
}

/// The status line for a present mode.
pub open spec fn vsync_line(mode: PresentMode) -> Seq<char> {
    if mode == VsyncStatus::ON {
        "Vsync Status: ON"@
    } else {
        "Vsync Status: OFF"@
    }
}

/// The word for the window's present mode: `ON` or `OFF`.
pub fn vsync_value(window: &Window) -> (word: String)
    ensures
        word@ == vsync_word(window.present_mode),
{
    match window.present_mode {
        PresentMode::Fifo => "ON".to_owned(),
        PresentMode::Immediate => "OFF".to_owned(),
    }
}

/// The line that reports the window's vsync state. Nothing is changed.
pub fn display_settings(window: &Window) -> (line: String)
    ensures
        line@ == vsync_line(window.present_mode),
{
    match window.present_mode {
        PresentMode::Fifo => "Vsync Status: ON".to_owned(),
        PresentMode::Immediate => "Vsync Status: OFF".to_owned(),
    }
}

/// Switches vsync when the chord is struck, and leaves the window alone
/// otherwise.
pub fn game_setting(window: &mut Window, input: &ButtonInput)
    ensures
        final(window).present_mode == present_mode_after(old(window).present_mode, *input),
{
    if input.pressed(KeyCode::ControlLeft) && input.just_pressed(KeyCode::AltLeft) {
        match window.present_mode {
            PresentMode::Fifo => {
                window.present_mode = VsyncStatus::OFF;
            },
            PresentMode::Immediate => {
                window.present_mode = VsyncStatus::ON;
            },
        }
    }
}

/// The text colour after a frame with the given input.
pub open spec fn text_color_after(color: OverlayColor, input: ButtonInput) -> OverlayColor {
    if input.just_pressed(KeyCode::Digit1) {
        color.flipped()
    } else {
        color
    }
}

/// The font size after a frame with the given input: two points less for
/// the shrink key, two more for the grow key, and both where both went
/// down.
pub open spec fn font_size_after(size: int, input: ButtonInput) -> int {
    size - (if input.just_pressed(KeyCode::Digit2) {
        FONT_STEP as int
    } else {
        0
    }) + (if input.just_pressed(KeyCode::Digit3) {
        FONT_STEP as int
    } else {
        0
    })
}

/// Whether the overlay is shown after a frame with the given input.
pub open spec fn enabled_after(enabled: bool, input: ButtonInput) -> bool {
    if input.just_pressed(KeyCode::Digit4) {
        !enabled
    } else {
        enabled
    }
}

/// Whether the font size can follow the input: the size is first lowered,
/// then raised, and each step has to be a size that can be held.
pub open spec fn can_customize(overlay: FpsOverlayConfig, input: ButtonInput) -> bool {
    &&& input.just_pressed(KeyCode::Digit2) ==> overlay.font_size - FONT_STEP >= i64::MIN
    &&& input.just_pressed(KeyCode::Digit3) ==> font_size_after(overlay.font_size as int, input)
        <= i64::MAX
}

/// Tests whether the font size can follow the input.
pub fn customizable(overlay: &FpsOverlayConfig, input: &ButtonInput) -> (ok: bool)
    ensures
        ok == can_customize(*overlay, *input),
{
    let mut size: i64 = overlay.font_size;
    if input.just_pressed(KeyCode::Digit2) {
        if size < i64::MIN + FONT_STEP {
            return false;
        }
        size = size - FONT_STEP;
    }
    if input.just_pressed(KeyCode::Digit3) {
        if size > i64::MAX - FONT_STEP {
            return false;
        }
    }
    true
}

/// Applies the four overlay keys, each on the frame in which it goes down:
/// the colour switches, the font shrinks by two points, the font grows by
/// two points, the overlay is shown or hidden. The refresh interval stays.
pub fn customize_config(input: &ButtonInput, overlay: &mut FpsOverlayConfig)
    requires
        can_customize(*old(overlay), *input),
    ensures
        final(overlay).text_color == text_color_after(old(overlay).text_color, *input),
        final(overlay).font_size == font_size_after(old(overlay).font_size as int, *input),
        final(overlay).enabled == enabled_after(old(overlay).enabled, *input),
        final(overlay).refresh_interval == old(overlay).refresh_interval,
{
    if input.just_pressed(KeyCode::Digit1) {
        match overlay.text_color {
            OverlayColor::Green => {
                overlay.text_color = OverlayColor::Red;
            },
            OverlayColor::Red => {
                overlay.text_color = OverlayColor::Green;
            },
        }
    }
    if input.just_pressed(KeyCode::Digit2) {
        overlay.font_size = overlay.font_size - FONT_STEP;
    }
    if input.just_pressed(KeyCode::Digit3) {
        overlay.font_size = overlay.font_size + FONT_STEP;
    }
    if input.just_pressed(KeyCode::Digit4) {
        overlay.enabled = !overlay.enabled;
    }
}

} // verus!
