//! The full-screen graphics options dialog: the settings are edited in place
//! and applied by saving them and restarting the program. Its resolution list
//! adds 3840x2160, and a resolution it cannot read becomes 1920x1080.
use vstd::prelude::*;
use crate::text::lemma_concat_cancel;
use crate::settings::{
    apply_config, backend_label, config_text, default_settings, lemma_config_round_trip, distinct_choices, lemma_next_choice_at,
    next_backend, next_choice, on_off, on_off_label, resolution, resolution_from_text,
    resolution_label, lemma_next_choice_absent, GraphicsSettings, RendererBackend, ResolutionOption,
};

verus! {

/// The buttons of the options dialog.
#[derive(Clone, Copy, PartialEq, Eq, Structural, Debug)]
pub enum OptionButton {
    ToggleVsync,
    ToggleFullscreen,
    NextResolution,
    NextRenderer,
    ApplyAndRestart,
}

/// What the program must do after a button press.
#[derive(Clone, Copy, PartialEq, Eq, Structural, Debug)]
pub enum DialogAction {
    /// The settings changed; the text of the dialog is to be refreshed.
    Changed,
    /// These settings are to be saved, and the program restarted with them.
    ApplyAndRestart(GraphicsSettings),
}

/// The resolutions that the dialog cycles through, in order.
pub open spec fn dialog_resolutions() -> Seq<ResolutionOption> {
    seq![
        resolution(1280, 720),
        resolution(1600, 900),
        resolution(1920, 1080),
        resolution(2560, 1440),
        resolution(3840, 2160),
    ]
}

/// The resolution that the dialog uses for a value it cannot read: 1920x1080.
pub open spec fn dialog_fallback_resolution() -> ResolutionOption {
    resolution(1920, 1080)
}

/// The settings after pressing `button` in the dialog.
pub open spec fn dialog_edit(settings: GraphicsSettings, button: OptionButton) -> GraphicsSettings {
    match button {
        OptionButton::ToggleVsync => GraphicsSettings { vsync: !settings.vsync, ..settings },
        OptionButton::ToggleFullscreen => GraphicsSettings {
            fullscreen: !settings.fullscreen,
            ..settings
        },
        OptionButton::NextResolution => GraphicsSettings {
            resolution: next_choice(settings.resolution, dialog_resolutions()),
            ..settings
        },
        OptionButton::NextRenderer => GraphicsSettings {
            renderer: next_backend(settings.renderer),
            ..settings
        },
        OptionButton::ApplyAndRestart => settings,
    }
}

/// The text of the dialog.
pub open spec fn dialog_text(s: GraphicsSettings) -> Seq<char> {
    "Current selection\n\nVSync: "@ + on_off_label(s.vsync) + "\nFullscreen: "@ + on_off_label(
        s.fullscreen,
    ) + "\nResolution: "@ + resolution_label(s.resolution) + "\nRenderer: "@ + backend_label(
        s.renderer,
    )
        + "\n\nClick options, then Apply & Restart.\nRenderer changes must be selected before Bevy starts, so they require restart."@
}

/// The frame-rate line of the dialog: `FPS: ` and the measured rate, or `...`
/// while there is no measurement yet.
pub open spec fn dialog_fps_text(fps: Option<Seq<char>>) -> Seq<char> {
    "FPS: "@ + match fps {
        Some(f) => f,
        None => "..."@,
    }
}

/// The resolutions that the dialog cycles through.
pub fn dialog_choices() -> (r: Vec<ResolutionOption>)
    ensures
        r@ == dialog_resolutions(),
{
    let mut r: Vec<ResolutionOption> = ResolutionOption::standard_choices();
    r.push(ResolutionOption { width: 3840, height: 2160 });
    assert(r@ =~= dialog_resolutions());
    r
}

/// The next resolution of the dialog, cycling 1280x720, 1600x900, 1920x1080,
/// 2560x1440, 3840x2160; any other resolution is followed by 1600x900.
pub fn next_resolution(r: ResolutionOption) -> (n: ResolutionOption)
    ensures
        n == next_choice(r, dialog_resolutions()),
{
    r.next_in(&dialog_choices())
}

/// The resolution named by a configuration value, or 1920x1080.
pub fn resolution_from_str(value: &str) -> (r: ResolutionOption)
    ensures
        r == resolution_from_text(value@, dialog_fallback_resolution()),
{
    ResolutionOption::from_str_or(value, ResolutionOption { width: 1920, height: 1080 })
}

/// The settings to start with, given the stored configuration text, if any
/// could be read: the defaults when there is none.
pub fn load_settings(stored: Option<&str>) -> (r: GraphicsSettings)
    ensures
        match stored {
            Some(content) => r == apply_config(
                default_settings(),
                content@,
                dialog_fallback_resolution(),
            ),
            None => r == default_settings(),
        },
{
    match stored {
        Some(content) => GraphicsSettings::parse_config(
            content,
            ResolutionOption { width: 1920, height: 1080 },
        ),
        None => GraphicsSettings::default(),
    }
}

/// A button of the dialog was pressed: edits the settings, or asks for them
/// to be applied by saving and restarting.
pub fn handle_option_button(settings: &mut GraphicsSettings, button: OptionButton) -> (action:
    DialogAction)
    ensures
        *final(settings) == dialog_edit(*old(settings), button),
        action == (if button == OptionButton::ApplyAndRestart {
            DialogAction::ApplyAndRestart(*old(settings))
        } else {
            DialogAction::Changed
        }),
{
    match button {
        OptionButton::ToggleVsync => {
            settings.vsync = !settings.vsync;
            DialogAction::Changed
        },
        OptionButton::ToggleFullscreen => {
            settings.fullscreen = !settings.fullscreen;
            DialogAction::Changed
        },
        OptionButton::NextResolution => {
            settings.resolution = next_resolution(settings.resolution);
            DialogAction::Changed
        },
        OptionButton::NextRenderer => {
            settings.renderer = settings.renderer.next();
            DialogAction::Changed
        },
        OptionButton::ApplyAndRestart => DialogAction::ApplyAndRestart(*settings),
    }
}

/// The text of the dialog for the current settings.
pub fn settings_description(settings: &GraphicsSettings) -> (r: String)
    ensures
        r@ == dialog_text(*settings),
{
    let mut r = String::new();
    r.append("Current selection\n\nVSync: ");
    r.append(on_off(settings.vsync));
    r.append("\nFullscreen: ");
    r.append(on_off(settings.fullscreen));
    r.append("\nResolution: ");
    r.append(&settings.resolution.to_string());
    r.append("\nRenderer: ");
    r.append(&settings.renderer.to_string());
    r.append(
        "\n\nClick options, then Apply & Restart.\nRenderer changes must be selected before Bevy starts, so they require restart.",
    );
    r
}

/// The frame-rate line of the dialog, given the measured rate already written out.
pub fn fps_text(fps: Option<&str>) -> (r: String)
    ensures
        r@ == dialog_fps_text(
            match fps {
                Some(f) => Some(f@),
                None => None,
            },
        ),
{
    let mut r = String::new();
    r.append("FPS: ");
    match fps {
        Some(f) => r.append(f),
        None => r.append("..."),
    }
    r
}

/// Next Resolution in the dialog always lands on one of its resolutions, and
/// from one of them five steps come back to it.
pub proof fn lemma_dialog_resolutions_cycle(r: ResolutionOption)
    ensures
        dialog_resolutions().contains(r) ==> dialog_resolutions().contains(
            next_choice(r, dialog_resolutions()),
        ),
        dialog_resolutions().contains(r) ==> {
            let s = dialog_resolutions();
            next_choice(
                next_choice(next_choice(next_choice(next_choice(r, s), s), s), s),
                s,
            ) == r
        },
{
    let s = dialog_resolutions();
    assert(distinct_choices(s));
    lemma_next_choice_at(s, 0);
    lemma_next_choice_at(s, 1);
    lemma_next_choice_at(s, 2);
    lemma_next_choice_at(s, 3);
    lemma_next_choice_at(s, 4);
    if s.contains(r) {
        let i = choose|i: int| 0 <= i < s.len() && s[i] == r;
        assert(s[(i + 1) % 5] == next_choice(r, s));
    }
}

/// Apply & Restart hands over the settings unchanged, and the configuration
/// text saved for them is read back as the same settings when the program
/// starts again.
pub proof fn lemma_applied_settings_load_after_restart(settings: GraphicsSettings)
    ensures
        dialog_edit(settings, OptionButton::ApplyAndRestart) == settings,
        apply_config(default_settings(), config_text(settings), dialog_fallback_resolution())
            == settings,
{
    lemma_config_round_trip(settings, default_settings(), dialog_fallback_resolution());
}

/// Next Resolution in the dialog steps through 1280x720, 1600x900,
/// 1920x1080, 2560x1440, 3840x2160 and back to 1280x720; from any other
/// resolution it goes to 1600x900. The other settings stay as they are.
pub proof fn lemma_dialog_next_resolution_steps(s: GraphicsSettings)
    ensures
        ({
            let r = dialog_edit(s, OptionButton::NextResolution);
            &&& r.vsync == s.vsync
            &&& r.fullscreen == s.fullscreen
            &&& r.renderer == s.renderer
            &&& s.resolution == resolution(1280, 720) ==> r.resolution == resolution(1600, 900)
            &&& s.resolution == resolution(1600, 900) ==> r.resolution == resolution(1920, 1080)
            &&& s.resolution == resolution(1920, 1080) ==> r.resolution == resolution(2560, 1440)
            &&& s.resolution == resolution(2560, 1440) ==> r.resolution == resolution(3840, 2160)
            &&& s.resolution == resolution(3840, 2160) ==> r.resolution == resolution(1280, 720)
            &&& (s.resolution != resolution(1280, 720) && s.resolution != resolution(1600, 900)
                && s.resolution != resolution(1920, 1080) && s.resolution != resolution(2560, 1440)
                && s.resolution != resolution(3840, 2160)) ==> r.resolution == resolution(1600, 900)
        }),
{
    let l = dialog_resolutions();
    assert(distinct_choices(l));
    lemma_next_choice_at(l, 0);
    lemma_next_choice_at(l, 1);
    lemma_next_choice_at(l, 2);
    lemma_next_choice_at(l, 3);
    lemma_next_choice_at(l, 4);
    if !l.contains(s.resolution) {
        lemma_next_choice_absent(s.resolution, l);
    } else {
        let i = choose|i: int| 0 <= i < l.len() && l[i] == s.resolution;
        assert(l[i] == s.resolution);
    }
}

/// The beginning of the dialog text, up to and including `Renderer: `.
pub open spec fn dialog_text_head(s: GraphicsSettings) -> Seq<char> {
    "Current selection\n\nVSync: "@ + on_off_label(s.vsync) + "\nFullscreen: "@ + on_off_label(
        s.fullscreen,
    ) + "\nResolution: "@ + resolution_label(s.resolution) + "\nRenderer: "@
}

/// The end of the dialog text, after the renderer's name.
pub open spec fn dialog_text_tail() -> Seq<char> {
    "\n\nClick options, then Apply & Restart.\nRenderer changes must be selected before Bevy starts, so they require restart."@
}

/// The dialog text names the settings' renderer, `Auto`, `DX12` or `Vulkan`,
/// right after `Renderer: `, so settings that differ only in the renderer
/// give different texts.
pub proof fn lemma_dialog_text_names_renderer(s: GraphicsSettings, t: GraphicsSettings)
    ensures
        dialog_text(s) == dialog_text_head(s) + match s.renderer {
            RendererBackend::Auto => "Auto"@,
            RendererBackend::Dx12 => "DX12"@,
            RendererBackend::Vulkan => "Vulkan"@,
        } + dialog_text_tail(),
        t == (GraphicsSettings { renderer: t.renderer, ..s }) && t.renderer != s.renderer
            ==> dialog_text(t) != dialog_text(s),
{
    reveal_strlit("Auto");
    reveal_strlit("DX12");
    reveal_strlit("Vulkan");
    assert(dialog_text(s) =~= dialog_text_head(s) + backend_label(s.renderer) + dialog_text_tail());
    assert(dialog_text(t) =~= dialog_text_head(t) + backend_label(t.renderer) + dialog_text_tail());
    if t == (GraphicsSettings { renderer: t.renderer, ..s }) && t.renderer != s.renderer
        && dialog_text(t) == dialog_text(s) {
        assert(dialog_text_head(t) == dialog_text_head(s));
        assert(backend_label(t.renderer) != backend_label(s.renderer)) by {
            assert("Auto"@[0] != "DX12"@[0]);
            assert("Auto"@.len() != "Vulkan"@.len());
            assert("DX12"@.len() != "Vulkan"@.len());
        }
        lemma_concat_cancel(
            dialog_text_head(s),
            backend_label(t.renderer),
            backend_label(s.renderer),
            dialog_text_tail(),
        );
    }
}

} // verus!
