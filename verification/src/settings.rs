//! Graphics settings: the renderer backend and resolution choices, the
//! configuration text they are saved as and read back from, and the
//! descriptions shown to the player.
use vstd::prelude::*;
use crate::text::{
    ascii_lowercase, chars_are, chars_of, decimal, find_from, first_index, is_digit, lacks,
    lemma_decimal, lemma_first_index, lemma_first_index_at, lemma_lowercase_unchanged,
    lemma_parse_decimal, lemma_trim_unchanged, lowercased, all_whitespace, is_whitespace, lemma_trim_around_whitespace, parse_u32, parse_u32_chars,
    push_decimal, slice_chars, split_once, split_once_chars, trim, trimmed,
};

verus! {

/// The renderer backend that the graphics library is asked to use.
#[derive(Clone, Copy, PartialEq, Eq, Structural, Debug)]
pub enum RendererBackend {
    Auto,
    Dx12,
    Vulkan,
}

/// A window resolution in pixels.
#[derive(Clone, Copy, PartialEq, Eq, Structural, Debug)]
pub struct ResolutionOption {
    pub width: u32,
    pub height: u32,
}

/// The graphics settings chosen by the player.
#[derive(Clone, Copy, PartialEq, Eq, Structural, Debug)]
pub struct GraphicsSettings {
    pub vsync: bool,
    pub fullscreen: bool,
    pub resolution: ResolutionOption,
    pub renderer: RendererBackend,
}

// ---------------------------------------------------------------------------
// Specifications
// ---------------------------------------------------------------------------

/// The backend after `b` in the cycle Auto, DX12, Vulkan.
pub open spec fn next_backend(b: RendererBackend) -> RendererBackend {
    match b {
        RendererBackend::Auto => RendererBackend::Dx12,
        RendererBackend::Dx12 => RendererBackend::Vulkan,
        RendererBackend::Vulkan => RendererBackend::Auto,
    }
}

/// The backend named by a configuration value: `dx12` or `vulkan` in any
/// letter case and surrounded by any whitespace, and Auto for anything else.
pub open spec fn backend_from_text(s: Seq<char>) -> RendererBackend {
    let key = ascii_lowercase(trim(s));
    if key == "dx12"@ {
        RendererBackend::Dx12
    } else if key == "vulkan"@ {
        RendererBackend::Vulkan
    } else {
        RendererBackend::Auto
    }
}

/// The name under which a backend is shown and saved.
pub open spec fn backend_label(b: RendererBackend) -> Seq<char> {
    match b {
        RendererBackend::Auto => "Auto"@,
        RendererBackend::Dx12 => "DX12"@,
        RendererBackend::Vulkan => "Vulkan"@,
    }
}

/// A resolution of the given size.
pub open spec fn resolution(width: u32, height: u32) -> ResolutionOption {
    ResolutionOption { width, height }
}

/// The resolution used when none is configured: 1280x720.
pub open spec fn default_resolution() -> ResolutionOption {
    resolution(1280, 720)
}

/// The resolutions that the options popup cycles through, in order.
pub open spec fn standard_resolutions() -> Seq<ResolutionOption> {
    seq![resolution(1280, 720), resolution(1600, 900), resolution(1920, 1080), resolution(2560, 1440)]
}

/// The choice after `r` in the cyclic list `choices`; a resolution that is not
/// in the list is followed by the second entry, as if it were the first.
pub open spec fn next_choice(r: ResolutionOption, choices: Seq<ResolutionOption>) -> ResolutionOption {
    let index = match first_index(choices, r) {
        Some(i) => i,
        None => 0,
    };
    choices[(index + 1) % (choices.len() as int)]
}

/// The resolution named by a configuration value `WIDTHxHEIGHT` (after trimming
/// the whole value), or `fallback` when the value does not have that form.
pub open spec fn resolution_from_text(s: Seq<char>, fallback: ResolutionOption) -> ResolutionOption {
    match split_once(trim(s), 'x') {
        Some((w, h)) => match (parse_u32(w), parse_u32(h)) {
            (Some(width), Some(height)) => resolution(width, height),
            _ => fallback,
        },
        None => fallback,
    }
}

/// How a resolution is shown and saved: `WIDTHxHEIGHT`.
pub open spec fn resolution_label(r: ResolutionOption) -> Seq<char> {
    decimal(r.width as nat) + seq!['x'] + decimal(r.height as nat)
}

/// The settings used when nothing else is known: VSync on, windowed,
/// 1280x720, automatic backend.
pub open spec fn default_settings() -> GraphicsSettings {
    GraphicsSettings {
        vsync: true,
        fullscreen: false,
        resolution: default_resolution(),
        renderer: RendererBackend::Auto,
    }
}

/// A truth value read from configuration text: `true`, `1`, `yes`, `on` and
/// `false`, `0`, `no`, `off` in any letter case and surrounded by any
/// whitespace; anything else gives `default_value`.
pub open spec fn bool_from_text(s: Seq<char>, default_value: bool) -> bool {
    let key = ascii_lowercase(trim(s));
    if key == "true"@ || key == "1"@ || key == "yes"@ || key == "on"@ {
        true
    } else if key == "false"@ || key == "0"@ || key == "no"@ || key == "off"@ {
        false
    } else {
        default_value
    }
}

/// How a truth value is saved: `true` or `false`.
pub open spec fn bool_label(b: bool) -> Seq<char> {
    if b {
        "true"@
    } else {
        "false"@
    }
}

/// How a switch is shown: `On` or `Off`.
pub open spec fn on_off_label(b: bool) -> Seq<char> {
    if b {
        "On"@
    } else {
        "Off"@
    }
}

/// The effect of one configuration line on the settings: a line `KEY=VALUE`
/// whose trimmed key is `vsync`, `fullscreen`, `resolution` or `renderer`
/// sets that setting from the value; any other line changes nothing.
pub open spec fn apply_config_line(
    settings: GraphicsSettings,
    line: Seq<char>,
    resolution_fallback: ResolutionOption,
) -> GraphicsSettings {
    match split_once(line, '=') {
        Some((key, value)) => {
            let key = trim(key);
            if key == "vsync"@ {
                GraphicsSettings { vsync: bool_from_text(value, settings.vsync), ..settings }
            } else if key == "fullscreen"@ {
                GraphicsSettings {
                    fullscreen: bool_from_text(value, settings.fullscreen),
                    ..settings
                }
            } else if key == "resolution"@ {
                GraphicsSettings {
                    resolution: resolution_from_text(value, resolution_fallback),
                    ..settings
                }
            } else if key == "renderer"@ {
                GraphicsSettings { renderer: backend_from_text(value), ..settings }
            } else {
                settings
            }
        },
        None => settings,
    }
}

/// The settings after applying the lines of `text` in order, lines being
/// separated by `\n`. (A `\r` before a `\n` ends up in the value, which is
/// trimmed, so `\r\n` line ends read the same.)
pub open spec fn apply_config(
    settings: GraphicsSettings,
    text: Seq<char>,
    resolution_fallback: ResolutionOption,
) -> GraphicsSettings
    decreases text.len(),
{
    match first_index(text, '\n') {
        Some(i) => {
            proof {
                lemma_first_index(text, '\n');
            }
            apply_config(
                apply_config_line(settings, text.take(i), resolution_fallback),
                text.skip(i + 1),
                resolution_fallback,
            )
        },
        None => apply_config_line(settings, text, resolution_fallback),
    }
}

/// The settings that a configuration file holding `text` describes.
pub open spec fn settings_from_config(text: Seq<char>) -> GraphicsSettings {
    apply_config(default_settings(), text, default_resolution())
}

/// One line `KEY=VALUE` of the configuration text, with its line end.
pub open spec fn config_line(key: Seq<char>, value: Seq<char>) -> Seq<char> {
    key + seq!['='] + value + seq!['\n']
}

/// The configuration text that saves `s`.
pub open spec fn config_text(s: GraphicsSettings) -> Seq<char> {
    config_line("vsync"@, bool_label(s.vsync)) + config_line(
        "fullscreen"@,
        bool_label(s.fullscreen),
    ) + config_line("resolution"@, resolution_label(s.resolution)) + config_line(
        "renderer"@,
        backend_label(s.renderer),
    )
}

/// The one-line summary of the settings.
pub open spec fn settings_summary(s: GraphicsSettings) -> Seq<char> {
    "VSync: "@ + on_off_label(s.vsync) + ", Fullscreen: "@ + on_off_label(s.fullscreen)
        + ", Resolution: "@ + resolution_label(s.resolution) + ", Renderer: "@ + backend_label(
        s.renderer,
    )
}

// ---------------------------------------------------------------------------
// Executable code
// ---------------------------------------------------------------------------

impl RendererBackend {
    /// The next backend in the cycle Auto, DX12, Vulkan, Auto, ...
    pub fn next(self) -> (r: Self)
        ensures
            r == next_backend(self),
    {
        match self {
            RendererBackend::Auto => RendererBackend::Dx12,
            RendererBackend::Dx12 => RendererBackend::Vulkan,
            RendererBackend::Vulkan => RendererBackend::Auto,
        }
    }

    /// The backend named by a configuration value.
    pub fn from_str(value: &str) -> (r: Self)
        ensures
            r == backend_from_text(value@),
    {
        Self::from_chars(&chars_of(value))
    }

    /// The backend named by a configuration value given as characters.
    pub fn from_chars(value: &Vec<char>) -> (r: Self)
        ensures
            r == backend_from_text(value@),
    {
        let key = lowercased(&trimmed(value));
        if chars_are(&key, "dx12") {
            RendererBackend::Dx12
        } else if chars_are(&key, "vulkan") {
            RendererBackend::Vulkan
        } else {
            RendererBackend::Auto
        }
    }

    /// The value for the `WGPU_BACKEND` environment variable, or `None` when
    /// the graphics library is to choose by itself.
    pub fn env_value(self) -> (r: Option<&'static str>)
        ensures
            match self {
                RendererBackend::Auto => r is None,
                RendererBackend::Dx12 => r matches Some(v) && v@ == "dx12"@,
                RendererBackend::Vulkan => r matches Some(v) && v@ == "vulkan"@,
            },
    {
        match self {
            RendererBackend::Auto => None,
            RendererBackend::Dx12 => Some("dx12"),
            RendererBackend::Vulkan => Some("vulkan"),
        }
    }

    /// The name of the backend: `Auto`, `DX12` or `Vulkan`.
    pub fn to_string(&self) -> (r: String)
        ensures
            r@ == backend_label(*self),
    {
        let mut r = String::new();
        match self {
            RendererBackend::Auto => r.append("Auto"),
            RendererBackend::Dx12 => r.append("DX12"),
            RendererBackend::Vulkan => r.append("Vulkan"),
        }
        r
    }
}

impl ResolutionOption {
    /// The resolutions that the options popup cycles through.
    pub fn standard_choices() -> (r: Vec<ResolutionOption>)
        ensures
            r@ == standard_resolutions(),
    {
        let mut r: Vec<ResolutionOption> = Vec::new();
        r.push(ResolutionOption { width: 1280, height: 720 });
        r.push(ResolutionOption { width: 1600, height: 900 });
        r.push(ResolutionOption { width: 1920, height: 1080 });
        r.push(ResolutionOption { width: 2560, height: 1440 });
        assert(r@ =~= standard_resolutions());
        r
    }

    /// The next standard resolution, cycling 1280x720, 1600x900, 1920x1080,
    /// 2560x1440; any other resolution is followed by 1600x900.
    pub fn next(self) -> (r: Self)
        ensures
            r == next_choice(self, standard_resolutions()),
    {
        self.next_in(&Self::standard_choices())
    }

    /// The choice after this one in the cyclic list `choices`.
    pub fn next_in(self, choices: &Vec<ResolutionOption>) -> (r: Self)
        requires
            choices.len() > 0,
        ensures
            r == next_choice(self, choices@),
    {
        let n = choices.len();
        let mut i: usize = 0;
        while i < n && choices[i] != self
            invariant
                n == choices.len(),
                i <= n,
                forall|j: int| 0 <= j < i ==> choices@[j] != self,
            decreases n - i,
        {
            i = i + 1;
        }
        proof {
            lemma_first_index_at(choices@, self, i as int);
        }
        let index = if i < n {
            i
        } else {
            0
        };
        choices[(index + 1) % n]
    }

    /// The resolution named by a configuration value, or 1280x720 when the
    /// value is not of the form `WIDTHxHEIGHT`.
    pub fn from_str(value: &str) -> (r: Self)
        ensures
            r == resolution_from_text(value@, default_resolution()),
    {
        Self::from_str_or(value, Self::default())
    }

    /// The resolution named by a configuration value, or `fallback`.
    pub fn from_str_or(value: &str, fallback: ResolutionOption) -> (r: Self)
        ensures
            r == resolution_from_text(value@, fallback),
    {
        Self::from_chars_or(&chars_of(value), fallback)
    }

    /// The resolution named by a configuration value given as characters, or `fallback`.
    pub fn from_chars_or(value: &Vec<char>, fallback: ResolutionOption) -> (r: Self)
        ensures
            r == resolution_from_text(value@, fallback),
    {
        let t = trimmed(value);
        match split_once_chars(&t, 'x') {
            Some((w, h)) => match (parse_u32_chars(&w), parse_u32_chars(&h)) {
                (Some(width), Some(height)) => ResolutionOption { width, height },
                _ => fallback,
            },
            None => fallback,
        }
    }

    /// The resolution as `WIDTHxHEIGHT`.
    pub fn to_string(&self) -> (r: String)
        ensures
            r@ == resolution_label(*self),
    {
        let mut r = String::new();
        push_decimal(&mut r, self.width);
        r.append("x");
        push_decimal(&mut r, self.height);
        proof {
            reveal_strlit("x");
        }
        r
    }
}

impl Default for ResolutionOption {
    /// 1280x720.
    fn default() -> (r: Self)
        ensures
            r == default_resolution(),
    {
        ResolutionOption { width: 1280, height: 720 }
    }
}

impl Default for GraphicsSettings {
    /// VSync on, windowed, 1280x720, automatic backend.
    fn default() -> (r: Self)
        ensures
            r == default_settings(),
    {
        GraphicsSettings {
            vsync: true,
            fullscreen: false,
            resolution: ResolutionOption::default(),
            renderer: RendererBackend::Auto,
        }
    }
}

impl GraphicsSettings {
    /// The settings after one configuration line.
    fn apply_line(self, line: &Vec<char>, resolution_fallback: ResolutionOption) -> (r: Self)
        ensures
            r == apply_config_line(self, line@, resolution_fallback),
    {
        match split_once_chars(line, '=') {
            Some((key, value)) => {
                let key = trimmed(&key);
                if chars_are(&key, "vsync") {
                    GraphicsSettings { vsync: parse_bool_chars(&value, self.vsync), ..self }
                } else if chars_are(&key, "fullscreen") {
                    GraphicsSettings {
                        fullscreen: parse_bool_chars(&value, self.fullscreen),
                        ..self
                    }
                } else if chars_are(&key, "resolution") {
                    GraphicsSettings {
                        resolution: ResolutionOption::from_chars_or(&value, resolution_fallback),
                        ..self
                    }
                } else if chars_are(&key, "renderer") {
                    GraphicsSettings { renderer: RendererBackend::from_chars(&value), ..self }
                } else {
                    self
                }
            },
            None => self,
        }
    }

    /// The settings that configuration text describes, starting from the
    /// defaults and reading resolutions that are not `WIDTHxHEIGHT` as
    /// `resolution_fallback`.
    pub fn parse_config(content: &str, resolution_fallback: ResolutionOption) -> (r: Self)
        ensures
            r == apply_config(default_settings(), content@, resolution_fallback),
    {
        let v = chars_of(content);
        let mut settings = Self::default();
        let mut start: usize = 0;
        assert(v@.skip(0) =~= v@);
        loop
            invariant
                start <= v.len(),
                v@ == content@,
                apply_config(settings, v@.skip(start as int), resolution_fallback)
                    == apply_config(default_settings(), v@, resolution_fallback),
            decreases v.len() - start,
        {
            let k = find_from(&v, '\n', start);
            let line = slice_chars(&v, start, k);
            let ghost rest = v@.skip(start as int);
            proof {
                assert forall|j: int| 0 <= j < k - start implies rest[j] != '\n' by {
                    assert(rest[j] == v@[start + j]);
                }
                lemma_first_index_at(rest, '\n', k - start);
                assert(rest.take(k - start) =~= line@);
            }
            let ghost before = settings;
            settings = settings.apply_line(&line, resolution_fallback);
            if k == v.len() {
                assert(rest =~= line@);
                assert(apply_config(before, rest, resolution_fallback) == settings);
                return settings;
            }
            assert(rest.skip(k - start + 1) =~= v@.skip(k + 1));
            start = k + 1;
        }
    }

    /// The settings that the configuration text describes; values that are
    /// not understood leave the setting as it was (the resolution becomes 1280x720).
    pub fn from_config_text(content: &str) -> (r: Self)
        ensures
            r == settings_from_config(content@),
    {
        Self::parse_config(content, ResolutionOption::default())
    }

    /// The settings to start with, given the stored configuration text, if any
    /// could be read: the defaults when there is none.
    pub fn load(stored: Option<&str>) -> (r: Self)
        ensures
            match stored {
                Some(content) => r == settings_from_config(content@),
                None => r == default_settings(),
            },
    {
        match stored {
            Some(content) => Self::from_config_text(content),
            None => Self::default(),
        }
    }

    /// The configuration text that saves these settings, one `KEY=VALUE` line each
    /// for `vsync`, `fullscreen`, `resolution` and `renderer`.
    pub fn to_config_text(self) -> (r: String)
        ensures
            r@ == config_text(self),
    {
        let mut r = String::new();
        r.append("vsync=");
        r.append(bool_str(self.vsync));
        r.append("\nfullscreen=");
        r.append(bool_str(self.fullscreen));
        r.append("\nresolution=");
        push_decimal(&mut r, self.resolution.width);
        r.append("x");
        push_decimal(&mut r, self.resolution.height);
        r.append("\nrenderer=");
        r.append(&self.renderer.to_string());
        r.append("\n");
        proof {
            reveal_strlit("vsync=");
            reveal_strlit("vsync");
            reveal_strlit("\nfullscreen=");
            reveal_strlit("fullscreen");
            reveal_strlit("\nresolution=");
            reveal_strlit("resolution");
            reveal_strlit("\nrenderer=");
            reveal_strlit("renderer");
            reveal_strlit("\n");
            reveal_strlit("x");
            assert(r@ =~= config_text(self));
        }
        r
    }
}

/// `true` or `false`.
fn bool_str(b: bool) -> (r: &'static str)
    ensures
        r@ == bool_label(b),
{
    if b {
        "true"
    } else {
        "false"
    }
}

/// The word shown for a switch: `On` or `Off`.
pub fn on_off(value: bool) -> (r: &'static str)
    ensures
        r@ == on_off_label(value),
{
    if value {
        "On"
    } else {
        "Off"
    }
}

/// A truth value read from a configuration value, or `default_value` when
/// the value is not one of the accepted words.
pub fn parse_bool(value: &str, default_value: bool) -> (r: bool)
    ensures
        r == bool_from_text(value@, default_value),
{
    parse_bool_chars(&chars_of(value), default_value)
}

/// A truth value read from a configuration value given as characters.
pub fn parse_bool_chars(value: &Vec<char>, default_value: bool) -> (r: bool)
    ensures
        r == bool_from_text(value@, default_value),
{
    let key = lowercased(&trimmed(value));
    if chars_are(&key, "true") || chars_are(&key, "1") || chars_are(&key, "yes") || chars_are(
        &key,
        "on",
    ) {
        true
    } else if chars_are(&key, "false") || chars_are(&key, "0") || chars_are(&key, "no")
        || chars_are(&key, "off") {
        false
    } else {
        default_value
    }
}

/// The one-line summary `VSync: On, Fullscreen: Off, Resolution: 1280x720, Renderer: Auto`.
pub fn settings_description(settings: &GraphicsSettings) -> (r: String)
    ensures
        r@ == settings_summary(*settings),
{
    let mut r = String::new();
    r.append("VSync: ");
    r.append(on_off(settings.vsync));
    r.append(", Fullscreen: ");
    r.append(on_off(settings.fullscreen));
    r.append(", Resolution: ");
    r.append(&settings.resolution.to_string());
    r.append(", Renderer: ");
    r.append(&settings.renderer.to_string());
    r
}

// ---------------------------------------------------------------------------
// Laws
// ---------------------------------------------------------------------------

/// Reading text that starts with a line without `\n` reads that line, then the rest.
pub proof fn lemma_apply_config_first_line(
    settings: GraphicsSettings,
    line: Seq<char>,
    rest: Seq<char>,
    resolution_fallback: ResolutionOption,
)
    requires
        lacks(line, '\n'),
    ensures
        apply_config(settings, line + seq!['\n'] + rest, resolution_fallback) == apply_config(
            apply_config_line(settings, line, resolution_fallback),
            rest,
            resolution_fallback,
        ),
{
    let t = line + seq!['\n'] + rest;
    assert forall|j: int| 0 <= j < line.len() implies t[j] != '\n' by {
        assert(t[j] == line[j]);
    }
    lemma_first_index_at(t, '\n', line.len() as int);
    assert(t.take(line.len() as int) =~= line);
    assert(t.skip(line.len() as int + 1) =~= rest);
}

/// Text without any `=` changes no setting.
pub proof fn lemma_apply_config_empty(settings: GraphicsSettings, resolution_fallback: ResolutionOption)
    ensures
        apply_config(settings, Seq::<char>::empty(), resolution_fallback) == settings,
{
}

/// A line `KEY=VALUE` whose key holds no `=` splits into that key and value.
pub proof fn lemma_split_key_value(key: Seq<char>, value: Seq<char>)
    requires
        lacks(key, '='),
    ensures
        split_once(key + seq!['='] + value, '=') == Some((key, value)),
{
    let t = key + seq!['='] + value;
    assert forall|j: int| 0 <= j < key.len() implies t[j] != '=' by {
        assert(t[j] == key[j]);
    }
    lemma_first_index_at(t, '=', key.len() as int);
    assert(t.take(key.len() as int) =~= key);
    assert(t.skip(key.len() as int + 1) =~= value);
}

/// A saved truth value reads back as itself.
pub proof fn lemma_bool_label_round_trip(b: bool, default_value: bool)
    ensures
        bool_from_text(bool_label(b), default_value) == b,
        lacks(bool_label(b), '\n'),
{
    reveal_strlit("true");
    reveal_strlit("false");
    reveal_strlit("1");
    reveal_strlit("yes");
    reveal_strlit("on");
    reveal_strlit("0");
    reveal_strlit("no");
    reveal_strlit("off");
    let l = bool_label(b);
    lemma_trim_unchanged(l);
    lemma_lowercase_unchanged(l);
}

/// A saved backend name reads back as the backend.
pub proof fn lemma_backend_label_round_trip(b: RendererBackend)
    ensures
        backend_from_text(backend_label(b)) == b,
        lacks(backend_label(b), '\n'),
{
    reveal_strlit("Auto");
    reveal_strlit("DX12");
    reveal_strlit("Vulkan");
    reveal_strlit("dx12");
    reveal_strlit("vulkan");
    let l = backend_label(b);
    lemma_trim_unchanged(l);
    match b {
        RendererBackend::Auto => {
            assert(ascii_lowercase(l) =~= seq!['a', 'u', 't', 'o']);
        },
        RendererBackend::Dx12 => {
            assert(ascii_lowercase(l) =~= "dx12"@);
        },
        RendererBackend::Vulkan => {
            assert(ascii_lowercase(l) =~= "vulkan"@);
        },
    }
}

/// A saved resolution reads back as the resolution, whatever the fallback.
pub proof fn lemma_resolution_label_round_trip(r: ResolutionOption, fallback: ResolutionOption)
    ensures
        resolution_from_text(resolution_label(r), fallback) == r,
        lacks(resolution_label(r), '\n'),
{
    let w = decimal(r.width as nat);
    let h = decimal(r.height as nat);
    lemma_parse_decimal(r.width);
    lemma_parse_decimal(r.height);
    lemma_decimal(r.width as nat);
    lemma_decimal(r.height as nat);
    let l = resolution_label(r);
    assert(is_digit(w[0]));
    assert(is_digit(h.last()));
    assert(l[0] == w[0]);
    assert(l.last() == h.last());
    lemma_trim_unchanged(l);
    assert forall|j: int| 0 <= j < w.len() implies l[j] != 'x' by {
        assert(l[j] == w[j]);
    }
    lemma_first_index_at(l, 'x', w.len() as int);
    assert(l.take(w.len() as int) =~= w);
    assert(l.skip(w.len() as int + 1) =~= h);
    assert forall|j: int| 0 <= j < l.len() implies l[j] != '\n' by {
        if j < w.len() {
            assert(l[j] == w[j]);
        } else if j > w.len() {
            assert(l[j] == h[j - w.len() - 1]);
        }
    }
}

/// Reading one saved line `KEY=VALUE` followed by further text.
proof fn lemma_read_saved_line(
    settings: GraphicsSettings,
    key: Seq<char>,
    value: Seq<char>,
    rest: Seq<char>,
    resolution_fallback: ResolutionOption,
)
    requires
        lacks(key, '='),
        lacks(key, '\n'),
        lacks(value, '\n'),
    ensures
        apply_config(settings, config_line(key, value) + rest, resolution_fallback) == apply_config(
            apply_config_line(settings, key + seq!['='] + value, resolution_fallback),
            rest,
            resolution_fallback,
        ),
{
    let line = key + seq!['='] + value;
    assert forall|j: int| 0 <= j < line.len() implies line[j] != '\n' by {
        if j < key.len() {
            assert(line[j] == key[j]);
        } else if j > key.len() {
            assert(line[j] == value[j - key.len() - 1]);
        }
    }
    assert(config_line(key, value) + rest =~= line + seq!['\n'] + rest);
    lemma_apply_config_first_line(settings, line, rest, resolution_fallback);
}

/// Reading a saved `vsync` line sets VSync to the saved value.
proof fn lemma_read_vsync_line(
    settings: GraphicsSettings,
    value: bool,
    rest: Seq<char>,
    resolution_fallback: ResolutionOption,
)
    ensures
        apply_config(settings, config_line("vsync"@, bool_label(value)) + rest, resolution_fallback)
            == apply_config(GraphicsSettings { vsync: value, ..settings }, rest, resolution_fallback),
{
    reveal_strlit("vsync");
    let key = "vsync"@;
    lemma_bool_label_round_trip(value, settings.vsync);
    lemma_split_key_value(key, bool_label(value));
    lemma_trim_unchanged(key);
    lemma_read_saved_line(settings, key, bool_label(value), rest, resolution_fallback);
}

/// Reading a saved `fullscreen` line sets Fullscreen to the saved value.
proof fn lemma_read_fullscreen_line(
    settings: GraphicsSettings,
    value: bool,
    rest: Seq<char>,
    resolution_fallback: ResolutionOption,
)
    ensures
        apply_config(
            settings,
            config_line("fullscreen"@, bool_label(value)) + rest,
            resolution_fallback,
        ) == apply_config(
            GraphicsSettings { fullscreen: value, ..settings },
            rest,
            resolution_fallback,
        ),
{
    reveal_strlit("fullscreen");
    reveal_strlit("vsync");
    let key = "fullscreen"@;
    lemma_bool_label_round_trip(value, settings.fullscreen);
    lemma_split_key_value(key, bool_label(value));
    lemma_trim_unchanged(key);
    lemma_read_saved_line(settings, key, bool_label(value), rest, resolution_fallback);
}

/// Reading a saved `resolution` line sets the resolution to the saved one.
proof fn lemma_read_resolution_line(
    settings: GraphicsSettings,
    value: ResolutionOption,
    rest: Seq<char>,
    resolution_fallback: ResolutionOption,
)
    ensures
        apply_config(
            settings,
            config_line("resolution"@, resolution_label(value)) + rest,
            resolution_fallback,
        ) == apply_config(
            GraphicsSettings { resolution: value, ..settings },
            rest,
            resolution_fallback,
        ),
{
    reveal_strlit("resolution");
    reveal_strlit("vsync");
    reveal_strlit("fullscreen");
    let key = "resolution"@;
    lemma_resolution_label_round_trip(value, resolution_fallback);
    lemma_split_key_value(key, resolution_label(value));
    lemma_trim_unchanged(key);
    lemma_read_saved_line(settings, key, resolution_label(value), rest, resolution_fallback);
}

/// Reading a saved `renderer` line sets the backend to the saved one.
proof fn lemma_read_renderer_line(
    settings: GraphicsSettings,
    value: RendererBackend,
    rest: Seq<char>,
    resolution_fallback: ResolutionOption,
)
    ensures
        apply_config(
            settings,
            config_line("renderer"@, backend_label(value)) + rest,
            resolution_fallback,
        ) == apply_config(
            GraphicsSettings { renderer: value, ..settings },
            rest,
            resolution_fallback,
        ),
{
    reveal_strlit("renderer");
    reveal_strlit("vsync");
    reveal_strlit("fullscreen");
    reveal_strlit("resolution");
    let key = "renderer"@;
    lemma_backend_label_round_trip(value);
    lemma_split_key_value(key, backend_label(value));
    lemma_trim_unchanged(key);
    lemma_read_saved_line(settings, key, backend_label(value), rest, resolution_fallback);
}

/// Saving settings as configuration text and reading that text back gives
/// the same settings, whatever settings the reader starts from and whatever
/// resolution it falls back to.
pub proof fn lemma_config_round_trip(
    s: GraphicsSettings,
    start: GraphicsSettings,
    resolution_fallback: ResolutionOption,
)
    ensures
        apply_config(start, config_text(s), resolution_fallback) == s,
{
    let empty = Seq::<char>::empty();
    let line4 = config_line("renderer"@, backend_label(s.renderer));
    let line3 = config_line("resolution"@, resolution_label(s.resolution));
    let line2 = config_line("fullscreen"@, bool_label(s.fullscreen));
    let line1 = config_line("vsync"@, bool_label(s.vsync));
    let r4 = line4 + empty;
    let r3 = line3 + r4;
    let r2 = line2 + r3;
    assert(config_text(s) =~= line1 + r2);
    let s1 = GraphicsSettings { vsync: s.vsync, ..start };
    let s2 = GraphicsSettings { fullscreen: s.fullscreen, ..s1 };
    let s3 = GraphicsSettings { resolution: s.resolution, ..s2 };
    let s4 = GraphicsSettings { renderer: s.renderer, ..s3 };
    lemma_read_vsync_line(start, s.vsync, r2, resolution_fallback);
    lemma_read_fullscreen_line(s1, s.fullscreen, r3, resolution_fallback);
    lemma_read_resolution_line(s2, s.resolution, r4, resolution_fallback);
    lemma_read_renderer_line(s3, s.renderer, empty, resolution_fallback);
    lemma_apply_config_empty(s4, resolution_fallback);
    assert(s4 == s);
}

/// Three steps of Next Renderer come back to the starting backend.
pub proof fn lemma_backend_cycle(b: RendererBackend)
    ensures
        next_backend(next_backend(next_backend(b))) == b,
        next_backend(b) != b,
{
}

/// Choices in which no resolution occurs twice.
pub open spec fn distinct_choices(choices: Seq<ResolutionOption>) -> bool {
    forall|i: int, j: int|
        0 <= i < j < choices.len() ==> #[trigger] choices[i] != #[trigger] choices[j]
}

/// In a list without repeats, the choice after entry `i` is entry `i + 1`,
/// wrapping around after the last.
pub proof fn lemma_next_choice_at(choices: Seq<ResolutionOption>, i: int)
    requires
        distinct_choices(choices),
        0 <= i < choices.len(),
    ensures
        next_choice(choices[i], choices) == choices[(i + 1) % (choices.len() as int)],
{
    assert forall|j: int| 0 <= j < i implies choices[j] != choices[i] by {
        assert(choices[j] != choices[i]);
    }
    lemma_first_index_at(choices, choices[i], i);
}

/// A resolution that is not in the list is followed by the second entry.
pub proof fn lemma_next_choice_absent(r: ResolutionOption, choices: Seq<ResolutionOption>)
    requires
        choices.len() > 1,
        !choices.contains(r),
    ensures
        next_choice(r, choices) == choices[1],
{
    lemma_first_index(choices, r);
    match first_index(choices, r) {
        Some(i) => {
            assert(choices[i] == r);
            assert(choices.contains(r));
        },
        None => {
            vstd::arithmetic::div_mod::lemma_small_mod(1, choices.len());
        },
    }
}

/// Next Resolution always lands on a standard resolution; from a standard
/// resolution, four steps come back to it; any other resolution is followed
/// by 1600x900.
pub proof fn lemma_standard_resolutions_cycle(r: ResolutionOption)
    ensures
        standard_resolutions().contains(next_choice(r, standard_resolutions())),
        standard_resolutions().contains(r) ==> {
            let s = standard_resolutions();
            next_choice(next_choice(next_choice(next_choice(r, s), s), s), s) == r
        },
        !standard_resolutions().contains(r) ==> next_choice(r, standard_resolutions())
            == resolution(1600, 900),
{
    let s = standard_resolutions();
    assert(distinct_choices(s));
    lemma_next_choice_at(s, 0);
    lemma_next_choice_at(s, 1);
    lemma_next_choice_at(s, 2);
    lemma_next_choice_at(s, 3);
    if s.contains(r) {
        let i = choose|i: int| 0 <= i < s.len() && s[i] == r;
        assert(s.contains(next_choice(r, s))) by {
            assert(s[(i + 1) % 4] == next_choice(r, s));
        }
    } else {
        lemma_next_choice_absent(r, s);
        assert(s[1] == next_choice(r, s));
    }
}

/// Whitespace around a key does not change how a line is read: an indented
/// or padded `KEY = VALUE` line sets the same setting as `KEY=VALUE`.
pub proof fn lemma_config_key_whitespace(
    settings: GraphicsSettings,
    w1: Seq<char>,
    key: Seq<char>,
    w2: Seq<char>,
    value: Seq<char>,
    resolution_fallback: ResolutionOption,
)
    requires
        all_whitespace(w1),
        all_whitespace(w2),
        lacks(key, '='),
    ensures
        apply_config_line(settings, w1 + key + w2 + seq!['='] + value, resolution_fallback)
            == apply_config_line(settings, key + seq!['='] + value, resolution_fallback),
{
    let padded = w1 + key + w2;
    assert forall|i: int| 0 <= i < padded.len() implies #[trigger] padded[i] != '=' by {
        if i < w1.len() {
            assert(is_whitespace(w1[i]));
        } else if i < w1.len() + key.len() {
            assert(padded[i] == key[i - w1.len()]);
        } else {
            assert(is_whitespace(w2[i - w1.len() - key.len()]));
        }
    }
    lemma_split_key_value(padded, value);
    lemma_split_key_value(key, value);
    lemma_trim_around_whitespace(w1, key, w2);
}

} // verus!
