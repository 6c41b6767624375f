//! The in-game options popup: opening and closing it, editing a draft of the
//! graphics settings, and saving the draft for the next run.
//!
//! The popup is a state machine. Each event (the toggle key, a button press,
//! the outcome of saving) gives the next state and, where the surrounding
//! program has outside work to do, the work to do.
use vstd::prelude::*;
use crate::settings::{
    backend_label, config_text, default_resolution, default_settings, lemma_backend_cycle,
    lemma_config_round_trip, lemma_standard_resolutions_cycle, next_backend, next_choice, on_off,
    on_off_label, resolution_label, settings_from_config, standard_resolutions, GraphicsSettings,
};

verus! {

/// The buttons of the options popup.
#[derive(Clone, Copy, PartialEq, Eq, Structural, Debug)]
pub enum OptionsButton {
    ToggleVsync,
    ToggleFullscreen,
    NextResolution,
    NextRenderer,
    Accept,
    Cancel,
}

/// What the program must do after a button press.
#[derive(Clone, Copy, PartialEq, Eq, Structural, Debug)]
pub enum ButtonEffect {
    /// Only the draft changed; the text of the popup is to be refreshed.
    Edited,
    /// These settings are to be saved; the outcome is to be reported with
    /// `OptionsPopupState::save_finished`.
    Save(GraphicsSettings),
    /// The popup has closed and is to be removed from the screen.
    Close,
    /// The popup was closed when the frame's presses began, so the press was ignored.
    Ignored,
}

/// The state of the options popup.
pub struct OptionsPopupState {
    /// Whether the popup is on screen.
    pub visible: bool,
    /// The settings being edited; they are saved only when OK is pressed.
    pub draft: GraphicsSettings,
    /// A message shown instead of the usual hint; empty when there is none.
    pub message: String,
}

/// The draft after pressing `button`: the toggles flip their setting, the
/// Next buttons advance theirs, OK and Cancel leave the draft as it is.
pub open spec fn edited_draft(draft: GraphicsSettings, button: OptionsButton) -> GraphicsSettings {
    match button {
        OptionsButton::ToggleVsync => GraphicsSettings { vsync: !draft.vsync, ..draft },
        OptionsButton::ToggleFullscreen => GraphicsSettings {
            fullscreen: !draft.fullscreen,
            ..draft
        },
        OptionsButton::NextResolution => GraphicsSettings {
            resolution: next_choice(draft.resolution, standard_resolutions()),
            ..draft
        },
        OptionsButton::NextRenderer => GraphicsSettings {
            renderer: next_backend(draft.renderer),
            ..draft
        },
        OptionsButton::Accept => draft,
        OptionsButton::Cancel => draft,
    }
}

/// What pressing `button` asks of the program, given the draft at that moment.
pub open spec fn button_effect(draft: GraphicsSettings, button: OptionsButton) -> ButtonEffect {
    match button {
        OptionsButton::Accept => ButtonEffect::Save(draft),
        OptionsButton::Cancel => ButtonEffect::Close,
        _ => ButtonEffect::Edited,
    }
}

/// The hint shown while no message is set.
pub open spec fn popup_hint() -> Seq<char> {
    "Changes are saved to config only when OK is pressed.\nThey are applied on the next run."@
}

/// The message shown when saving failed with the given error text.
pub open spec fn save_failure_message(error: Seq<char>) -> Seq<char> {
    "Failed to save config: "@ + error
}

/// The text of the popup: one line per setting, a blank line, then the
/// message, or the hint when the message is empty.
pub open spec fn popup_text(settings: GraphicsSettings, message: Seq<char>) -> Seq<char> {
    "VSync: "@ + on_off_label(settings.vsync) + "\nFullscreen: "@ + on_off_label(
        settings.fullscreen,
    ) + "\nResolution: "@ + resolution_label(settings.resolution) + "\nRenderer: "@
        + backend_label(settings.renderer) + "\n\n"@ + (if message.len() == 0 {
        popup_hint()
    } else {
        message
    })
}

impl OptionsPopupState {
    /// The toggle key was pressed: a closed popup opens with the current
    /// settings as draft and no message; an open popup closes. Returns whether
    /// the popup opened (and is to be put on screen).
    pub fn toggle(&mut self, settings: GraphicsSettings) -> (opened: bool)
        ensures
            opened == !old(self).visible,
            final(self).visible == !old(self).visible,
            old(self).visible ==> final(self).draft == old(self).draft && final(self).message@
                == old(self).message@,
            !old(self).visible ==> final(self).draft == settings && final(self).message@.len()
                == 0,
    {
        if self.visible {
            self.close();
            false
        } else {
            self.visible = true;
            self.draft = settings;
            self.message = String::new();
            true
        }
    }

    /// Closes the popup, keeping the draft and the message.
    pub fn close(&mut self)
        ensures
            !final(self).visible,
            final(self).draft == old(self).draft,
            final(self).message@ == old(self).message@,
    {
        self.visible = false;
    }

    /// A button was pressed. Presses are taken while the popup was open when
    /// the frame's buttons began to be handled (`open_this_frame`): they edit
    /// the draft, ask for the draft to be saved (OK), or close the popup and
    /// drop the draft (Cancel). Otherwise the press does nothing.
    pub fn press(&mut self, button: OptionsButton, open_this_frame: bool) -> (effect: ButtonEffect)
        ensures
            open_this_frame ==> {
                &&& effect == button_effect(old(self).draft, button)
                &&& final(self).draft == edited_draft(old(self).draft, button)
                &&& final(self).visible == (old(self).visible && button != OptionsButton::Cancel)
            },
            !open_this_frame ==> {
                &&& effect == ButtonEffect::Ignored
                &&& final(self).draft == old(self).draft
                &&& final(self).visible == old(self).visible
            },
            final(self).message@ == old(self).message@,
    {
        if !open_this_frame {
            return ButtonEffect::Ignored;
        }
        match button {
            OptionsButton::ToggleVsync => {
                self.draft.vsync = !self.draft.vsync;
                ButtonEffect::Edited
            },
            OptionsButton::ToggleFullscreen => {
                self.draft.fullscreen = !self.draft.fullscreen;
                ButtonEffect::Edited
            },
            OptionsButton::NextResolution => {
                self.draft.resolution = self.draft.resolution.next();
                ButtonEffect::Edited
            },
            OptionsButton::NextRenderer => {
                self.draft.renderer = self.draft.renderer.next();
                ButtonEffect::Edited
            },
            OptionsButton::Accept => ButtonEffect::Save(self.draft),
            OptionsButton::Cancel => {
                self.close();
                ButtonEffect::Close
            },
        }
    }

    /// Saving the draft finished with `outcome` (the error's text on failure).
    /// On success the popup closes and the draft becomes the settings in use
    /// (returned); on failure the popup stays, showing the failure.
    pub fn save_finished(&mut self, outcome: Result<(), String>) -> (applied: Option<
        GraphicsSettings,
    >)
        ensures
            final(self).draft == old(self).draft,
            match outcome {
                Ok(()) => {
                    &&& applied == Some(old(self).draft)
                    &&& !final(self).visible
                    &&& final(self).message@ == old(self).message@
                },
                Err(error) => {
                    &&& applied is None
                    &&& final(self).visible == old(self).visible
                    &&& final(self).message@ == save_failure_message(error@)
                },
            },
    {
        match outcome {
            Ok(()) => {
                self.close();
                Some(self.draft)
            },
            Err(error) => {
                let mut message = String::new();
                message.append("Failed to save config: ");
                message.append(error.as_str());
                self.message = message;
                None
            },
        }
    }
}

impl Default for OptionsPopupState {
    /// A closed popup with the default settings as draft and no message.
    fn default() -> (s: Self)
        ensures
            !s.visible,
            s.draft == default_settings(),
            s.message@.len() == 0,
    {
        OptionsPopupState { visible: false, draft: GraphicsSettings::default(), message: String::new() }
    }
}

/// The text of the popup: the settings, one per line, a blank line, then the
/// message, or the usual hint when the message is empty.
pub fn options_description(settings: &GraphicsSettings, message: &str) -> (r: String)
    ensures
        r@ == popup_text(*settings, message@),
{
    let mut r = String::new();
    r.append("VSync: ");
    r.append(on_off(settings.vsync));
    r.append("\nFullscreen: ");
    r.append(on_off(settings.fullscreen));
    r.append("\nResolution: ");
    r.append(&settings.resolution.to_string());
    r.append("\nRenderer: ");
    r.append(&settings.renderer.to_string());
    r.append("\n\n");
    if message.is_empty() {
        r.append("Changes are saved to config only when OK is pressed.\nThey are applied on the next run.");
    } else {
        r.append(message);
    }
    r
}

// ---------------------------------------------------------------------------
// Laws
// ---------------------------------------------------------------------------

/// Pressing a toggle twice gives back the draft.
pub proof fn lemma_toggle_twice(draft: GraphicsSettings)
    ensures
        edited_draft(edited_draft(draft, OptionsButton::ToggleVsync), OptionsButton::ToggleVsync)
            == draft,
        edited_draft(
            edited_draft(draft, OptionsButton::ToggleFullscreen),
            OptionsButton::ToggleFullscreen,
        ) == draft,
{
}

/// Pressing Next Renderer three times gives back the draft; pressing Next
/// Resolution four times does too when the draft's resolution is a standard one.
pub proof fn lemma_next_buttons_cycle(draft: GraphicsSettings)
    ensures
        edited_draft(
            edited_draft(
                edited_draft(draft, OptionsButton::NextRenderer),
                OptionsButton::NextRenderer,
            ),
            OptionsButton::NextRenderer,
        ) == draft,
        standard_resolutions().contains(draft.resolution) ==> edited_draft(
            edited_draft(
                edited_draft(
                    edited_draft(draft, OptionsButton::NextResolution),
                    OptionsButton::NextResolution,
                ),
                OptionsButton::NextResolution,
            ),
            OptionsButton::NextResolution,
        ) == draft,
{
    lemma_backend_cycle(draft.renderer);
    lemma_standard_resolutions_cycle(draft.resolution);
}

/// Every button changes at most the one setting it names, and only OK asks
/// for anything to be saved.
pub proof fn lemma_buttons_touch_only_their_setting(
    draft: GraphicsSettings,
    button: OptionsButton,
)
    ensures
        button != OptionsButton::ToggleVsync ==> edited_draft(draft, button).vsync == draft.vsync,
        button != OptionsButton::ToggleFullscreen ==> edited_draft(draft, button).fullscreen
            == draft.fullscreen,
        button != OptionsButton::NextResolution ==> edited_draft(draft, button).resolution
            == draft.resolution,
        button != OptionsButton::NextRenderer ==> edited_draft(draft, button).renderer
            == draft.renderer,
        (button_effect(draft, button) is Save) <==> button == OptionsButton::Accept,
{
}

/// What OK asks to save is the draft, and the configuration text written for
/// it is read back as the draft on the next run.
pub proof fn lemma_accepted_draft_is_loaded_next_run(draft: GraphicsSettings)
    ensures
        button_effect(draft, OptionsButton::Accept) == ButtonEffect::Save(draft),
        settings_from_config(config_text(draft)) == draft,
{
    lemma_config_round_trip(draft, default_settings(), default_resolution());
}

/// The popup text after the Fullscreen line's value.
pub open spec fn popup_text_after_fullscreen(settings: GraphicsSettings, message: Seq<char>) -> Seq<
    char,
> {
    "\nResolution: "@ + resolution_label(settings.resolution) + "\nRenderer: "@ + backend_label(
        settings.renderer,
    ) + "\n\n"@ + (if message.len() == 0 {
        popup_hint()
    } else {
        message
    })
}

/// The popup text begins with the draft's VSync line and then its own
/// Fullscreen line, `On` or `Off`, so drafts that differ only in Fullscreen
/// give different texts.
pub proof fn lemma_popup_text_shows_fullscreen(
    s: GraphicsSettings,
    t: GraphicsSettings,
    message: Seq<char>,
)
    ensures
        popup_text(s, message) == "VSync: "@ + (if s.vsync {
            "On"@
        } else {
            "Off"@
        }) + "\nFullscreen: "@ + (if s.fullscreen {
            "On"@
        } else {
            "Off"@
        }) + popup_text_after_fullscreen(s, message),
        t == (GraphicsSettings { fullscreen: t.fullscreen, ..s }) && t.fullscreen != s.fullscreen
            ==> popup_text(t, message) != popup_text(s, message),
{
    reveal_strlit("On");
    reveal_strlit("Off");
    assert(popup_text(s, message) =~= "VSync: "@ + on_off_label(s.vsync) + "\nFullscreen: "@
        + on_off_label(s.fullscreen) + popup_text_after_fullscreen(s, message));
    assert(popup_text(t, message) =~= "VSync: "@ + on_off_label(t.vsync) + "\nFullscreen: "@
        + on_off_label(t.fullscreen) + popup_text_after_fullscreen(t, message));
    if t == (GraphicsSettings { fullscreen: t.fullscreen, ..s }) && t.fullscreen != s.fullscreen {
        assert(popup_text_after_fullscreen(t, message) == popup_text_after_fullscreen(s, message));
        assert(popup_text(t, message).len() != popup_text(s, message).len());
    }
}

} // verus!
