use spotify_player::theme::{
    ComponentStyle, Palette, Style, StyleColor, StyleModifier, TermColor, TextStyle, Theme,
    ThemeConfig, MODIFIER_BOLD, MODIFIER_REVERSED,
};

#[test]
fn parses_named_and_hex_colors() {
    assert_eq!(StyleColor::parse("Black"), Some(StyleColor::Black));
    assert_eq!(StyleColor::parse("BrightYellow"), Some(StyleColor::BrightYellow));
    assert_eq!(
        StyleColor::parse("#ff8000"),
        Some(StyleColor::Rgb { r: 255, g: 128, b: 0 })
    );
    assert_eq!(
        StyleColor::parse("#0A0b0C"),
        Some(StyleColor::Rgb { r: 10, g: 11, b: 12 })
    );
    // a field may be a sign and one digit, as u8::from_str_radix reads it
    assert_eq!(
        StyleColor::parse("#+f0000"),
        Some(StyleColor::Rgb { r: 15, g: 0, b: 0 })
    );
    assert_eq!(StyleColor::parse("black"), None);
    assert_eq!(StyleColor::parse("#ff80"), None);
    assert_eq!(StyleColor::parse("#gg0000"), None);
    assert_eq!(StyleColor::parse("#-10000"), None);
    assert_eq!(StyleColor::parse("ff80001"), None);
}

#[test]
fn colors_resolve_through_the_palette() {
    let palette = Palette::default();
    assert_eq!(StyleColor::White.color(&palette), TermColor::Gray);
    assert_eq!(StyleColor::BrightBlack.color(&palette), TermColor::DarkGray);
    assert_eq!(StyleColor::BrightWhite.color(&palette), TermColor::White);
    assert_eq!(
        StyleColor::Rgb { r: 1, g: 2, b: 3 }.color(&palette),
        TermColor::Rgb(1, 2, 3)
    );
}

#[test]
fn style_applies_colors_and_modifiers_in_order() {
    let palette = Palette::default();
    let style = Style::default()
        .fg(StyleColor::Cyan)
        .bg(StyleColor::Red)
        .modifiers(vec![StyleModifier::Bold, StyleModifier::Reversed]);
    let text = style.style(&palette);
    assert_eq!(text.fg, Some(TermColor::Cyan));
    assert_eq!(text.bg, Some(TermColor::Red));
    assert_eq!(text.add_modifier, MODIFIER_BOLD | MODIFIER_REVERSED);
    assert_eq!(text.sub_modifier, 0);
    assert_eq!(Style::default().style(&palette), TextStyle::new());
}

#[test]
fn components_fall_back_to_default_styles() {
    let theme = Theme::default();
    assert_eq!(theme.name, "default");
    assert_eq!(theme.block_title(), TextStyle::new().fg(TermColor::Magenta));
    assert_eq!(theme.border(), TextStyle::new());
    assert_eq!(
        theme.playback_track(),
        TextStyle::new().fg(TermColor::Cyan).add_modifier(MODIFIER_BOLD)
    );
    assert_eq!(
        theme.playback_progress_bar(),
        TextStyle::new().fg(TermColor::Green).bg(TermColor::DarkGray)
    );
    assert_eq!(theme.table_header(), TextStyle::new().fg(TermColor::Blue));
    assert_eq!(
        theme.selection_style(true),
        TextStyle::new().add_modifier(MODIFIER_REVERSED).add_modifier(MODIFIER_BOLD)
    );
    assert_eq!(theme.selection_style(false), TextStyle::new());
    assert_eq!(theme.app_style(), TextStyle::new());
}

#[test]
fn theme_styles_override_defaults() {
    let mut palette = Palette::default();
    palette.background = Some(TermColor::Black);
    palette.foreground = Some(TermColor::White);
    let mut component_style = ComponentStyle::default();
    component_style.border = Some(Style::default().fg(StyleColor::Green));
    let theme = Theme {
        name: "custom".to_string(),
        palette,
        component_style,
    };
    assert_eq!(theme.border(), TextStyle::new().fg(TermColor::Green));
    assert_eq!(
        theme.app_style(),
        TextStyle::new().bg(TermColor::Black).fg(TermColor::White)
    );
}

#[test]
fn user_themes_are_added_unless_named_as_existing() {
    let mut config = ThemeConfig::default();
    let mut dark = Theme::default();
    dark.name = "dark".to_string();
    let mut clash = Theme::default();
    clash.name = "default".to_string();
    clash.palette.black = TermColor::Indexed(16);
    config.add_user_themes(ThemeConfig {
        themes: vec![dark, clash],
    });
    assert_eq!(config.themes.len(), 2);
    assert_eq!(config.themes[0].name, "default");
    assert_eq!(config.themes[0].palette.black, TermColor::Black);
    assert_eq!(config.themes[1].name, "dark");
    assert!(config.find_theme("dark").is_some());
    assert_eq!(config.find_theme("default").unwrap().palette.black, TermColor::Black);
    assert!(config.find_theme("light").is_none());
}

#[test]
fn theme_switching_lists_current_theme_first() {
    let mut config = ThemeConfig::default();
    let mut dark = Theme::default();
    dark.name = "dark".to_string();
    let mut light = Theme::default();
    light.name = "light".to_string();
    config.add_user_themes(ThemeConfig { themes: vec![dark, light] });
    let names = |themes: Vec<Theme>| themes.into_iter().map(|t| t.name).collect::<Vec<_>>();
    assert_eq!(names(config.themes_current_first("light")), vec!["light", "default", "dark"]);
    assert_eq!(names(config.themes_current_first("default")), vec!["default", "dark", "light"]);
    assert_eq!(names(config.themes_current_first("none")), vec!["default", "dark", "light"]);
}
