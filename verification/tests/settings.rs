use cube_arena::config::{
    FpsOverlayConfig, OverlayColor, PresentMode, VsyncStatus, Window, FONT_STEP,
    OVERLAY_FONT_SIZE, OVERLAY_REFRESH_INTERVAL,
};
use cube_arena::input::{ButtonInput, KeyCode, Keys};
use cube_arena::settings::{
    customizable, customize_config, display_settings, game_setting, vsync_value,
};

fn overlay() -> FpsOverlayConfig {
    FpsOverlayConfig {
        text_color: OverlayColor::Green,
        font_size: OVERLAY_FONT_SIZE,
        enabled: true,
        refresh_interval: OVERLAY_REFRESH_INTERVAL,
    }
}

fn strike(key: KeyCode) -> ButtonInput {
    ButtonInput { previous: Keys::none(), current: Keys::none().with(key) }
}

fn hold(key: KeyCode) -> ButtonInput {
    ButtonInput { previous: Keys::none().with(key), current: Keys::none().with(key) }
}

fn chord() -> ButtonInput {
    ButtonInput {
        previous: Keys::none().with(KeyCode::ControlLeft),
        current: Keys::none().with(KeyCode::ControlLeft).with(KeyCode::AltLeft),
    }
}

#[test]
fn vsync_is_on_in_fifo_and_off_in_immediate() {
    assert_eq!(VsyncStatus::ON, PresentMode::Fifo);
    assert_eq!(VsyncStatus::OFF, PresentMode::Immediate);
    assert_eq!(vsync_value(&Window { present_mode: VsyncStatus::ON }), "ON");
    assert_eq!(vsync_value(&Window { present_mode: VsyncStatus::OFF }), "OFF");
}

#[test]
fn the_status_line_names_the_mode() {
    assert_eq!(display_settings(&Window { present_mode: PresentMode::Fifo }), "Vsync Status: ON");
    assert_eq!(
        display_settings(&Window { present_mode: PresentMode::Immediate }),
        "Vsync Status: OFF"
    );
}

#[test]
fn the_chord_switches_vsync_back_and_forth() {
    let mut window = Window { present_mode: VsyncStatus::ON };
    game_setting(&mut window, &chord());
    assert_eq!(window.present_mode, VsyncStatus::OFF);
    assert_eq!(display_settings(&window), "Vsync Status: OFF");
    game_setting(&mut window, &chord());
    assert_eq!(window.present_mode, VsyncStatus::ON);
    assert_eq!(display_settings(&window), "Vsync Status: ON");
    game_setting(&mut window, &chord());
    assert_eq!(window.present_mode, VsyncStatus::OFF);
}

#[test]
fn the_second_key_alone_does_not_switch_vsync() {
    let mut window = Window { present_mode: VsyncStatus::ON };
    game_setting(&mut window, &strike(KeyCode::AltLeft));
    assert_eq!(window.present_mode, VsyncStatus::ON);
    game_setting(&mut window, &strike(KeyCode::ControlLeft));
    assert_eq!(window.present_mode, VsyncStatus::ON);
}

#[test]
fn a_held_chord_switches_vsync_once() {
    let mut window = Window { present_mode: VsyncStatus::ON };
    game_setting(&mut window, &chord());
    let held = ButtonInput { previous: chord().current, current: chord().current };
    game_setting(&mut window, &held);
    game_setting(&mut window, &held);
    assert_eq!(window.present_mode, VsyncStatus::OFF);
}

#[test]
fn the_modifier_may_go_down_with_the_second_key() {
    let mut window = Window { present_mode: VsyncStatus::OFF };
    let both = ButtonInput { previous: Keys::none(), current: chord().current };
    game_setting(&mut window, &both);
    assert_eq!(window.present_mode, VsyncStatus::ON);
}

#[test]
fn the_colour_key_switches_between_green_and_red() {
    let mut config = overlay();
    customize_config(&strike(KeyCode::Digit1), &mut config);
    assert_eq!(config.text_color, OverlayColor::Red);
    customize_config(&strike(KeyCode::Digit1), &mut config);
    assert_eq!(config.text_color, OverlayColor::Green);
    customize_config(&strike(KeyCode::Digit1), &mut config);
    assert_eq!(config.text_color, OverlayColor::Red);
    assert_eq!(config.font_size, 30);
    assert!(config.enabled);
}

#[test]
fn an_even_number_of_colour_presses_restores_the_colour() {
    for start in [OverlayColor::Green, OverlayColor::Red] {
        let mut config = overlay();
        config.text_color = start;
        for round in 1..=10 {
            customize_config(&strike(KeyCode::Digit1), &mut config);
            assert_eq!(config.text_color == start, round % 2 == 0);
        }
    }
}

#[test]
fn the_font_keys_move_the_size_by_two() {
    assert_eq!(FONT_STEP, 2);
    let mut config = overlay();
    customize_config(&strike(KeyCode::Digit3), &mut config);
    assert_eq!(config.font_size, 32);
    customize_config(&strike(KeyCode::Digit2), &mut config);
    customize_config(&strike(KeyCode::Digit2), &mut config);
    assert_eq!(config.font_size, 28);
}

#[test]
fn the_font_size_follows_the_count_of_presses() {
    let mut config = overlay();
    let grow = 7;
    let shrink = 4;
    for _ in 0..grow {
        customize_config(&strike(KeyCode::Digit3), &mut config);
    }
    for _ in 0..shrink {
        customize_config(&strike(KeyCode::Digit2), &mut config);
    }
    assert_eq!(config.font_size, 30 + 2 * (grow - shrink));
}

#[test]
fn the_font_size_goes_through_zero_and_below() {
    let mut config = overlay();
    for _ in 0..15 {
        customize_config(&strike(KeyCode::Digit2), &mut config);
    }
    assert_eq!(config.font_size, 0);
    customize_config(&strike(KeyCode::Digit2), &mut config);
    assert_eq!(config.font_size, -2);
}

#[test]
fn both_font_keys_in_one_frame_cancel() {
    let mut config = overlay();
    let both = ButtonInput {
        previous: Keys::none(),
        current: Keys::none().with(KeyCode::Digit2).with(KeyCode::Digit3),
    };
    customize_config(&both, &mut config);
    assert_eq!(config.font_size, 30);
}

#[test]
fn the_overlay_key_shows_and_hides() {
    let mut config = overlay();
    customize_config(&strike(KeyCode::Digit4), &mut config);
    assert!(!config.enabled);
    customize_config(&strike(KeyCode::Digit4), &mut config);
    assert!(config.enabled);
}

#[test]
fn held_keys_change_nothing() {
    let mut config = overlay();
    for key in [KeyCode::Digit1, KeyCode::Digit2, KeyCode::Digit3, KeyCode::Digit4] {
        customize_config(&hold(key), &mut config);
    }
    assert_eq!(config, overlay());
}

#[test]
fn all_four_keys_act_in_one_frame() {
    let mut config = overlay();
    let all = ButtonInput {
        previous: Keys::none(),
        current: Keys::none()
            .with(KeyCode::Digit1)
            .with(KeyCode::Digit3)
            .with(KeyCode::Digit4),
    };
    customize_config(&all, &mut config);
    assert_eq!(
        config,
        FpsOverlayConfig {
            text_color: OverlayColor::Red,
            font_size: 32,
            enabled: false,
            refresh_interval: 100_000_000,
        }
    );
}

#[test]
fn the_font_size_is_tested_against_the_range() {
    let mut config = overlay();
    assert!(customizable(&config, &strike(KeyCode::Digit2)));
    config.font_size = i64::MIN + 1;
    assert!(!customizable(&config, &strike(KeyCode::Digit2)));
    assert!(customizable(&config, &strike(KeyCode::Digit3)));
    assert!(customizable(&config, &hold(KeyCode::Digit2)));
    config.font_size = i64::MIN + 2;
    assert!(customizable(&config, &strike(KeyCode::Digit2)));
    config.font_size = i64::MAX - 1;
    assert!(!customizable(&config, &strike(KeyCode::Digit3)));
    let both = ButtonInput {
        previous: Keys::none(),
        current: Keys::none().with(KeyCode::Digit2).with(KeyCode::Digit3),
    };
    assert!(customizable(&config, &both));
    config.font_size = i64::MAX - 2;
    assert!(customizable(&config, &strike(KeyCode::Digit3)));
    customize_config(&strike(KeyCode::Digit3), &mut config);
    assert_eq!(config.font_size, i64::MAX);
}
