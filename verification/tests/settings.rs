use pong_settings::settings::{
    on_off, parse_bool, settings_description, GraphicsSettings, RendererBackend, ResolutionOption,
};

fn res(width: u32, height: u32) -> ResolutionOption {
    ResolutionOption { width, height }
}

#[test]
fn on_off_words() {
    assert_eq!(on_off(true), "On");
    assert_eq!(on_off(false), "Off");
}

#[test]
fn renderer_next_cycles_through_three() {
    assert_eq!(RendererBackend::Auto.next(), RendererBackend::Dx12);
    assert_eq!(RendererBackend::Dx12.next(), RendererBackend::Vulkan);
    assert_eq!(RendererBackend::Vulkan.next(), RendererBackend::Auto);
    for b in [RendererBackend::Auto, RendererBackend::Dx12, RendererBackend::Vulkan] {
        assert_eq!(b.next().next().next(), b);
    }
}

#[test]
fn renderer_from_str_ignores_case_and_whitespace() {
    assert_eq!(RendererBackend::from_str("dx12"), RendererBackend::Dx12);
    assert_eq!(RendererBackend::from_str("  DX12 \r"), RendererBackend::Dx12);
    assert_eq!(RendererBackend::from_str("Vulkan"), RendererBackend::Vulkan);
    assert_eq!(RendererBackend::from_str("\tvULKAN\n"), RendererBackend::Vulkan);
    assert_eq!(RendererBackend::from_str("Auto"), RendererBackend::Auto);
    assert_eq!(RendererBackend::from_str("opengl"), RendererBackend::Auto);
    assert_eq!(RendererBackend::from_str(""), RendererBackend::Auto);
    assert_eq!(RendererBackend::from_str("dx 12"), RendererBackend::Auto);
    // Unicode whitespace is trimmed too.
    assert_eq!(RendererBackend::from_str("\u{3000}vulkan\u{a0}"), RendererBackend::Vulkan);
}

#[test]
fn renderer_env_values() {
    assert_eq!(RendererBackend::Auto.env_value(), None);
    assert_eq!(RendererBackend::Dx12.env_value(), Some("dx12"));
    assert_eq!(RendererBackend::Vulkan.env_value(), Some("vulkan"));
}

#[test]
fn renderer_names() {
    assert_eq!(RendererBackend::Auto.to_string(), "Auto");
    assert_eq!(RendererBackend::Dx12.to_string(), "DX12");
    assert_eq!(RendererBackend::Vulkan.to_string(), "Vulkan");
}

#[test]
fn resolution_next_cycles_through_four() {
    assert_eq!(res(1280, 720).next(), res(1600, 900));
    assert_eq!(res(1600, 900).next(), res(1920, 1080));
    assert_eq!(res(1920, 1080).next(), res(2560, 1440));
    assert_eq!(res(2560, 1440).next(), res(1280, 720));
    // A resolution outside the list is followed by the second entry.
    assert_eq!(res(800, 600).next(), res(1600, 900));
    assert_eq!(res(3840, 2160).next(), res(1600, 900));
}

#[test]
fn resolution_from_str_reads_width_x_height() {
    assert_eq!(ResolutionOption::from_str("1920x1080"), res(1920, 1080));
    assert_eq!(ResolutionOption::from_str("  640x480 \n"), res(640, 480));
    assert_eq!(ResolutionOption::from_str("+3x+4"), res(3, 4));
    assert_eq!(ResolutionOption::from_str("0007x08"), res(7, 8));
    assert_eq!(ResolutionOption::from_str("4294967295x1"), res(u32::MAX, 1));
}

#[test]
fn resolution_from_str_falls_back_to_default() {
    let default = res(1280, 720);
    assert_eq!(ResolutionOption::default(), default);
    assert_eq!(ResolutionOption::from_str("1920 x 1080"), default);
    assert_eq!(ResolutionOption::from_str("1920X1080"), default);
    assert_eq!(ResolutionOption::from_str("1920x"), default);
    assert_eq!(ResolutionOption::from_str("x1080"), default);
    assert_eq!(ResolutionOption::from_str("1920x1080x2"), default);
    assert_eq!(ResolutionOption::from_str("-1x5"), default);
    assert_eq!(ResolutionOption::from_str("+x5"), default);
    assert_eq!(ResolutionOption::from_str("4294967296x1"), default);
    assert_eq!(ResolutionOption::from_str("99999999999x1"), default);
    assert_eq!(ResolutionOption::from_str(""), default);
    assert_eq!(ResolutionOption::from_str("１２x３"), default);
}

#[test]
fn resolution_from_str_or_uses_fallback() {
    let fallback = res(1920, 1080);
    assert_eq!(ResolutionOption::from_str_or("bad", fallback), fallback);
    assert_eq!(ResolutionOption::from_str_or("10x20", fallback), res(10, 20));
}

#[test]
fn resolution_names() {
    assert_eq!(res(1280, 720).to_string(), "1280x720");
    assert_eq!(res(0, 0).to_string(), "0x0");
    assert_eq!(res(u32::MAX, 10).to_string(), "4294967295x10");
}

#[test]
fn parse_bool_words() {
    for word in ["true", "1", "yes", "on", " TRUE ", "Yes\r", "ON"] {
        assert!(parse_bool(word, false), "{word}");
    }
    for word in ["false", "0", "no", "off", "\tFalse", "NO", "Off  "] {
        assert!(!parse_bool(word, true), "{word}");
    }
    assert!(parse_bool("maybe", true));
    assert!(!parse_bool("maybe", false));
    assert!(!parse_bool("", false));
    assert!(parse_bool("2", true));
}

#[test]
fn default_settings() {
    let s = GraphicsSettings::default();
    assert!(s.vsync);
    assert!(!s.fullscreen);
    assert_eq!(s.resolution, res(1280, 720));
    assert_eq!(s.renderer, RendererBackend::Auto);
}

#[test]
fn config_text_of_defaults() {
    assert_eq!(
        GraphicsSettings::default().to_config_text(),
        "vsync=true\nfullscreen=false\nresolution=1280x720\nrenderer=Auto\n"
    );
}

#[test]
fn config_text_of_other_settings() {
    let s = GraphicsSettings {
        vsync: false,
        fullscreen: true,
        resolution: res(2560, 1440),
        renderer: RendererBackend::Dx12,
    };
    assert_eq!(
        s.to_config_text(),
        "vsync=false\nfullscreen=true\nresolution=2560x1440\nrenderer=DX12\n"
    );
}

#[test]
fn config_round_trip() {
    let backends = [RendererBackend::Auto, RendererBackend::Dx12, RendererBackend::Vulkan];
    let resolutions = [res(1280, 720), res(3840, 2160), res(0, 1), res(u32::MAX, u32::MAX)];
    for vsync in [false, true] {
        for fullscreen in [false, true] {
            for resolution in resolutions {
                for renderer in backends {
                    let s = GraphicsSettings { vsync, fullscreen, resolution, renderer };
                    let text = s.to_config_text();
                    assert_eq!(GraphicsSettings::from_config_text(&text), s);
                    assert_eq!(GraphicsSettings::load(Some(&text)), s);
                }
            }
        }
    }
}

#[test]
fn from_config_text_reads_example_file() {
    let s = GraphicsSettings::from_config_text(
        "vsync=false\r\nfullscreen = yes\r\nresolution= 1600x900 \r\nrenderer=vulkan\r\n",
    );
    assert_eq!(
        s,
        GraphicsSettings {
            vsync: false,
            fullscreen: true,
            resolution: res(1600, 900),
            renderer: RendererBackend::Vulkan,
        }
    );
}

#[test]
fn from_config_text_ignores_unknown_and_malformed_lines() {
    let s = GraphicsSettings::from_config_text("# comment\ncolor=red\nvsync\n\n=true\nVSYNC=false\n");
    assert_eq!(s, GraphicsSettings::default());
}

#[test]
fn from_config_text_later_lines_win() {
    let s = GraphicsSettings::from_config_text("renderer=dx12\nrenderer=vulkan\nvsync=off\nvsync=on");
    assert_eq!(s.renderer, RendererBackend::Vulkan);
    assert!(s.vsync);
}

#[test]
fn from_config_text_bad_values() {
    // An unreadable truth value keeps the previous value.
    let s = GraphicsSettings::from_config_text("fullscreen=true\nfullscreen=perhaps\nvsync=??");
    assert!(s.fullscreen);
    assert!(s.vsync);
    // An unreadable resolution becomes 1280x720, an unreadable renderer Auto.
    let s = GraphicsSettings::from_config_text("resolution=1600x900\nrenderer=dx12\nresolution=big\nrenderer=metal");
    assert_eq!(s.resolution, res(1280, 720));
    assert_eq!(s.renderer, RendererBackend::Auto);
    // The value is everything after the first '='.
    let s = GraphicsSettings::from_config_text("renderer==dx12");
    assert_eq!(s.renderer, RendererBackend::Auto);
}

#[test]
fn load_without_stored_text_gives_defaults() {
    assert_eq!(GraphicsSettings::load(None), GraphicsSettings::default());
    assert_eq!(GraphicsSettings::load(Some("")), GraphicsSettings::default());
}

#[test]
fn settings_description_line() {
    let s = GraphicsSettings {
        vsync: true,
        fullscreen: false,
        resolution: res(1920, 1080),
        renderer: RendererBackend::Vulkan,
    };
    assert_eq!(
        settings_description(&s),
        "VSync: On, Fullscreen: Off, Resolution: 1920x1080, Renderer: Vulkan"
    );
}
