//! The frame-rate overlay of the VSync experiment: whether VSync is on, read
//! from an environment value, and the text shown.
use vstd::prelude::*;
use crate::settings::{on_off, on_off_label};
use crate::text::{chars_are, chars_of};

verus! {

/// VSync is on unless the environment value is exactly `0`, `false`,
/// `False`, `off` or `Off`; it is on when there is no value.
pub open spec fn vsync_from_env(value: Option<Seq<char>>) -> bool {
    match value {
        Some(v) => !(v == "0"@ || v == "false"@ || v == "False"@ || v == "off"@ || v == "Off"@),
        None => true,
    }
}

/// The hint that says how to switch VSync at the next start.
pub open spec fn vsync_hint(enabled: bool) -> Seq<char> {
    if enabled {
        "Restart with BEVY_TEST02_VSYNC=0 to disable"@
    } else {
        "Restart without BEVY_TEST02_VSYNC=0 to enable"@
    }
}

/// The overlay: frame rate (or `...`), VSync state, and the hint.
pub open spec fn overlay_label(fps: Option<Seq<char>>, enabled: bool) -> Seq<char> {
    "FPS: "@ + match fps {
        Some(f) => f,
        None => "..."@,
    } + "\nVSync: "@ + on_off_label(enabled) + "\n"@ + vsync_hint(enabled)
}

/// Whether VSync is on, given the value of the `BEVY_TEST02_VSYNC`
/// environment variable, or `None` when it is not set or not readable.
pub fn vsync_enabled_from_env(value: Option<&str>) -> (enabled: bool)
    ensures
        enabled == vsync_from_env(
            match value {
                Some(v) => Some(v@),
                None => None,
            },
        ),
{
    match value {
        Some(v) => {
            let c = chars_of(v);
            !(chars_are(&c, "0") || chars_are(&c, "false")
                || chars_are(&c, "False") || chars_are(&c, "off")
                || chars_are(&c, "Off"))
        },
        None => true,
    }
}

/// The overlay text, given the measured frame rate already written out.
pub fn performance_text(fps: Option<&str>, vsync_enabled: bool) -> (r: String)
    ensures
        r@ == overlay_label(
            match fps {
                Some(f) => Some(f@),
                None => None,
            },
            vsync_enabled,
        ),
{
    let mut r = String::new();
    r.append("FPS: ");
    match fps {
        Some(f) => r.append(f),
        None => r.append("..."),
    }
    r.append("\nVSync: ");
    r.append(on_off(vsync_enabled));
    r.append("\n");
    if vsync_enabled {
        r.append("Restart with BEVY_TEST02_VSYNC=0 to disable");
    } else {
        r.append("Restart without BEVY_TEST02_VSYNC=0 to enable");
    }
    r
}

/// Whatever the frame rate shows, the overlay ends with the hint for the
/// VSync state alone: how to disable it when it is on, how to enable it when
/// it is off.
pub proof fn lemma_overlay_hint_follows_vsync(fps: Option<Seq<char>>, enabled: bool)
    ensures
        ({
            let text = overlay_label(fps, enabled);
            let hint = if enabled {
                "Restart with BEVY_TEST02_VSYNC=0 to disable"@
            } else {
                "Restart without BEVY_TEST02_VSYNC=0 to enable"@
            };
            &&& text.len() >= hint.len()
            &&& text.subrange(text.len() - hint.len(), text.len() as int) == hint
        }),
{
    let text = overlay_label(fps, enabled);
    let hint = vsync_hint(enabled);
    let head = "FPS: "@ + match fps {
        Some(f) => f,
        None => "..."@,
    } + "\nVSync: "@ + on_off_label(enabled) + "\n"@;
    assert(text =~= head + hint);
    assert(text.subrange(head.len() as int, text.len() as int) =~= hint);
}

} // verus!
