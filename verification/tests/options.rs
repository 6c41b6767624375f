use pong_settings::options_dialog::{
    fps_text, handle_option_button, load_settings, next_resolution, resolution_from_str,
    settings_description as dialog_description, DialogAction, OptionButton,
};
use pong_settings::options_popup::{
    options_description, ButtonEffect, OptionsButton, OptionsPopupState,
};
use pong_settings::settings::{GraphicsSettings, RendererBackend, ResolutionOption};

fn res(width: u32, height: u32) -> ResolutionOption {
    ResolutionOption { width, height }
}

fn custom() -> GraphicsSettings {
    GraphicsSettings {
        vsync: false,
        fullscreen: true,
        resolution: res(1920, 1080),
        renderer: RendererBackend::Dx12,
    }
}

#[test]
fn popup_starts_closed() {
    let state = OptionsPopupState::default();
    assert!(!state.visible);
    assert_eq!(state.draft, GraphicsSettings::default());
    assert!(state.message.is_empty());
}

#[test]
fn toggle_opens_with_current_settings_and_closes() {
    let mut state = OptionsPopupState::default();
    state.message = "old message".to_string();
    assert!(state.toggle(custom()));
    assert!(state.visible);
    assert_eq!(state.draft, custom());
    assert!(state.message.is_empty());
    assert!(!state.toggle(GraphicsSettings::default()));
    assert!(!state.visible);
    assert_eq!(state.draft, custom());
}

#[test]
fn edit_buttons_change_only_the_draft() {
    let mut state = OptionsPopupState::default();
    state.toggle(GraphicsSettings::default());
    assert_eq!(state.press(OptionsButton::ToggleVsync, state.visible), ButtonEffect::Edited);
    assert!(!state.draft.vsync);
    assert_eq!(state.press(OptionsButton::ToggleFullscreen, state.visible), ButtonEffect::Edited);
    assert!(state.draft.fullscreen);
    assert_eq!(state.press(OptionsButton::NextResolution, state.visible), ButtonEffect::Edited);
    assert_eq!(state.draft.resolution, res(1600, 900));
    assert_eq!(state.press(OptionsButton::NextRenderer, state.visible), ButtonEffect::Edited);
    assert_eq!(state.draft.renderer, RendererBackend::Dx12);
    assert!(state.visible);
}

#[test]
fn toggling_twice_restores_draft() {
    let mut state = OptionsPopupState::default();
    state.toggle(custom());
    state.press(OptionsButton::ToggleVsync, state.visible);
    state.press(OptionsButton::ToggleVsync, state.visible);
    state.press(OptionsButton::ToggleFullscreen, state.visible);
    state.press(OptionsButton::ToggleFullscreen, state.visible);
    for _ in 0..3 {
        state.press(OptionsButton::NextRenderer, state.visible);
    }
    for _ in 0..4 {
        state.press(OptionsButton::NextResolution, state.visible);
    }
    assert_eq!(state.draft, custom());
}

#[test]
fn ok_saves_the_draft_and_applies_it_on_success() {
    let mut state = OptionsPopupState::default();
    state.toggle(GraphicsSettings::default());
    state.press(OptionsButton::ToggleFullscreen, state.visible);
    let expected = GraphicsSettings { fullscreen: true, ..GraphicsSettings::default() };
    assert_eq!(state.press(OptionsButton::Accept, state.visible), ButtonEffect::Save(expected));
    assert!(state.visible);
    assert_eq!(state.save_finished(Ok(())), Some(expected));
    assert!(!state.visible);
}

#[test]
fn ok_with_failed_save_keeps_popup_and_shows_error() {
    let mut state = OptionsPopupState::default();
    state.toggle(custom());
    assert_eq!(state.press(OptionsButton::Accept, state.visible), ButtonEffect::Save(custom()));
    assert_eq!(state.save_finished(Err("disk full".to_string())), None);
    assert!(state.visible);
    assert_eq!(state.message, "Failed to save config: disk full");
    assert_eq!(
        options_description(&state.draft, &state.message),
        "VSync: Off\nFullscreen: On\nResolution: 1920x1080\nRenderer: DX12\n\nFailed to save config: disk full"
    );
}

#[test]
fn cancel_closes_without_saving() {
    let mut state = OptionsPopupState::default();
    state.toggle(GraphicsSettings::default());
    state.press(OptionsButton::ToggleVsync, state.visible);
    assert_eq!(state.press(OptionsButton::Cancel, state.visible), ButtonEffect::Close);
    assert!(!state.visible);
}

#[test]
fn popup_text_with_hint() {
    assert_eq!(
        options_description(&GraphicsSettings::default(), ""),
        "VSync: On\nFullscreen: Off\nResolution: 1280x720\nRenderer: Auto\n\nChanges are saved to config only when OK is pressed.\nThey are applied on the next run."
    );
    assert_eq!(
        options_description(&GraphicsSettings::default(), "note"),
        "VSync: On\nFullscreen: Off\nResolution: 1280x720\nRenderer: Auto\n\nnote"
    );
}

#[test]
fn dialog_resolutions_cycle_through_five() {
    assert_eq!(next_resolution(res(1280, 720)), res(1600, 900));
    assert_eq!(next_resolution(res(2560, 1440)), res(3840, 2160));
    assert_eq!(next_resolution(res(3840, 2160)), res(1280, 720));
    assert_eq!(next_resolution(res(1, 1)), res(1600, 900));
    let mut r = res(1920, 1080);
    for _ in 0..5 {
        r = next_resolution(r);
    }
    assert_eq!(r, res(1920, 1080));
}

#[test]
fn dialog_reads_bad_resolution_as_1920x1080() {
    assert_eq!(resolution_from_str("huge"), res(1920, 1080));
    assert_eq!(resolution_from_str("800x600"), res(800, 600));
    let s = load_settings(Some("resolution=huge\nvsync=0\n"));
    assert_eq!(s.resolution, res(1920, 1080));
    assert!(!s.vsync);
    assert_eq!(load_settings(None), GraphicsSettings::default());
    assert_eq!(load_settings(Some(&custom().to_config_text())), custom());
}

#[test]
fn dialog_buttons_edit_settings_in_place() {
    let mut s = GraphicsSettings::default();
    assert_eq!(handle_option_button(&mut s, OptionButton::ToggleVsync), DialogAction::Changed);
    assert_eq!(handle_option_button(&mut s, OptionButton::ToggleFullscreen), DialogAction::Changed);
    assert_eq!(handle_option_button(&mut s, OptionButton::NextResolution), DialogAction::Changed);
    assert_eq!(handle_option_button(&mut s, OptionButton::NextRenderer), DialogAction::Changed);
    let expected = GraphicsSettings {
        vsync: false,
        fullscreen: true,
        resolution: res(1600, 900),
        renderer: RendererBackend::Dx12,
    };
    assert_eq!(s, expected);
    assert_eq!(
        handle_option_button(&mut s, OptionButton::ApplyAndRestart),
        DialogAction::ApplyAndRestart(expected)
    );
    assert_eq!(s, expected);
}

#[test]
fn dialog_text() {
    assert_eq!(
        dialog_description(&GraphicsSettings::default()),
        "Current selection\n\nVSync: On\nFullscreen: Off\nResolution: 1280x720\nRenderer: Auto\n\nClick options, then Apply & Restart.\nRenderer changes must be selected before Bevy starts, so they require restart."
    );
    assert_eq!(fps_text(None), "FPS: ...");
    assert_eq!(fps_text(Some("59.9")), "FPS: 59.9");
}

#[test]
fn presses_on_a_closed_popup_are_ignored() {
    let mut state = OptionsPopupState::default();
    for button in [
        OptionsButton::ToggleVsync,
        OptionsButton::ToggleFullscreen,
        OptionsButton::NextResolution,
        OptionsButton::NextRenderer,
        OptionsButton::Accept,
        OptionsButton::Cancel,
    ] {
        assert_eq!(state.press(button, false), ButtonEffect::Ignored);
        assert!(!state.visible);
        assert_eq!(state.draft, GraphicsSettings::default());
    }
    state.toggle(custom());
    state.press(OptionsButton::Cancel, true);
    assert_eq!(state.press(OptionsButton::Accept, false), ButtonEffect::Ignored);
}

#[test]
fn presses_later_in_the_frame_of_a_cancel_still_count() {
    let mut state = OptionsPopupState::default();
    state.toggle(custom());
    let open_this_frame = state.visible;
    assert_eq!(state.press(OptionsButton::Cancel, open_this_frame), ButtonEffect::Close);
    assert!(!state.visible);
    assert_eq!(state.press(OptionsButton::ToggleVsync, open_this_frame), ButtonEffect::Edited);
    assert!(state.draft.vsync);
    assert!(!state.visible);
    assert_eq!(
        state.press(OptionsButton::Accept, open_this_frame),
        ButtonEffect::Save(GraphicsSettings { vsync: true, ..custom() })
    );
}
