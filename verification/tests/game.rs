use pong_settings::fps_overlay::{performance_text, vsync_enabled_from_env};
use pong_settings::pong::{hud_text, paddle_direction, score_text, GameScore};

#[test]
fn score_counts_hits_and_resets_on_miss() {
    let mut score = GameScore { value: 0 };
    assert_eq!(score.value, 0);
    score.update(true, false);
    score.update(false, false);
    score.update(true, false);
    assert_eq!(score.value, 2);
    score.update(false, true);
    assert_eq!(score.value, 0);
    score.update(true, false);
    assert_eq!(score.value, 1);
    score.update(true, true);
    assert_eq!(score.value, 0);
}

#[test]
fn score_text_lines() {
    assert_eq!(score_text(0), "Score: 0");
    assert_eq!(score_text(1234), "Score: 1234");
}

#[test]
fn paddle_direction_from_keys() {
    assert_eq!(paddle_direction(true, false), 1);
    assert_eq!(paddle_direction(false, true), -1);
    assert_eq!(paddle_direction(true, true), 0);
    assert_eq!(paddle_direction(false, false), 0);
}

#[test]
fn hud_line() {
    assert_eq!(hud_text(None), "FPS: ...\nMove: W/S or Up/Down\nOptions: F10");
    assert_eq!(hud_text(Some("144.0")), "FPS: 144.0\nMove: W/S or Up/Down\nOptions: F10");
}

#[test]
fn vsync_env_values() {
    assert!(vsync_enabled_from_env(None));
    for off in ["0", "false", "False", "off", "Off"] {
        assert!(!vsync_enabled_from_env(Some(off)), "{off}");
    }
    for on in ["1", "true", "FALSE", "OFF", " 0", "", "no"] {
        assert!(vsync_enabled_from_env(Some(on)), "{on}");
    }
}

#[test]
fn performance_overlay() {
    assert_eq!(
        performance_text(None, true),
        "FPS: ...\nVSync: On\nRestart with BEVY_TEST02_VSYNC=0 to disable"
    );
    assert_eq!(
        performance_text(Some("60.0"), false),
        "FPS: 60.0\nVSync: Off\nRestart without BEVY_TEST02_VSYNC=0 to enable"
    );
}
