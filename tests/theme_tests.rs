use tinct::color::{hex_to_rgb, rgb_hex};
use tinct::config::{validate_config_section, ConfigSection, ThemeMode};
use tinct::error::ThemeError;
use tinct::hct::{rgb_to_hct, Hct};
use tinct::palette::{
    generate_contrast_color, generate_container_color, generate_harmonious_color,
    generate_palette, Palette, Role,
};
use tinct::template::process_template;
use tinct::theme::{select_theme_mode, Theme, ThemeSeeds};
use tinct::process_theme_workflow;

fn seeds(pairs: &[(&str, &str)]) -> ThemeSeeds {
    let mut s = ThemeSeeds::new();
    for (k, v) in pairs {
        s.insert(k.to_string(), v.to_string());
    }
    s
}

fn theme(modes: &[(&str, &[(&str, &str)])]) -> Theme {
    let mut t = Theme::new();
    for (name, pairs) in modes {
        t.insert(name.to_string(), seeds(pairs));
    }
    t
}

fn palette_of(pairs: &[(&str, &str)], dark: bool) -> Palette {
    generate_palette(&seeds(pairs), dark, false).unwrap()
}

#[test]
fn test_select_theme_mode() {
    let theme_content = theme(&[
        ("dark", &[("primary", "#FF5722")]),
        ("light", &[("primary", "#E91E63")]),
    ]);

    let (theme, mode) = select_theme_mode(&theme_content, "dark").unwrap();
    assert_eq!(mode, "dark");
    assert_eq!(theme.get("primary").unwrap().as_str(), "#FF5722");

    let (theme, mode) = select_theme_mode(&theme_content, "light").unwrap();
    assert_eq!(mode, "light");
    assert_eq!(theme.get("primary").unwrap().as_str(), "#E91E63");

    let (theme, mode) = select_theme_mode(&theme_content, "nonexistent").unwrap();
    assert_eq!(mode, "dark");
    assert_eq!(theme.get("primary").unwrap().as_str(), "#FF5722");
}

#[test]
fn test_theme_functions() {
    let all = theme(&[(
        "dark",
        &[("primary", "#FF5722"), ("secondary", "#607D8B"), ("background", "#121212")],
    )]);
    let (theme, _) = select_theme_mode(&all, "dark").unwrap();
    let palette = generate_palette(theme, true, false).unwrap();

    assert!(!palette.primary.default.hex.is_empty());
    assert!(!palette.secondary.default.hex.is_empty());
    assert!(!palette.background.default.hex.is_empty());
    assert!(!palette.primary.default.hex.is_empty());
    assert!(!palette.primary.default.rgb.is_empty());
    assert!(!palette.primary.default.hsl.is_empty());

    let template_content = "Primary color: {{colors.primary.default.hex}}, Mode: {{mode}}";
    let result = process_template(template_content, &palette, "dark");
    assert!(result.contains("Primary color:"));
    assert!(result.contains(", Mode: "));
    assert_eq!(result, "Primary color: #ff5722, Mode: dark");
}

#[test]
fn mode_falls_back_to_dark_or_fails() {
    let only_dark = theme(&[("dark", &[("primary", "#FF5722")])]);
    let (s, mode) = select_theme_mode(&only_dark, "missing").unwrap();
    assert_eq!(mode, "dark");
    assert_eq!(s.get("primary").unwrap(), "#FF5722");

    let only_light = theme(&[("light", &[("primary", "#FF5722")])]);
    assert_eq!(select_theme_mode(&only_light, "missing").err(), Some(ThemeError::ModeUnavailable));
    assert_eq!(select_theme_mode(&only_light, "dark").err(), Some(ThemeError::ModeUnavailable));
    assert!(select_theme_mode(&only_light, "light").is_ok());
}

#[test]
fn seeds_first_entry_wins() {
    let s = seeds(&[("primary", "#111111"), ("primary", "#222222")]);
    assert_eq!(s.get("primary").unwrap(), "#111111");
    assert!(s.get("secondary").is_none());
}

#[test]
fn template_substitutes_primary_hex() {
    let palette = palette_of(&[("primary", "#FF5722")], true);
    let out = process_template("{{colors.primary.default.hex}}", &palette, "dark");
    assert_eq!(out, "#ff5722");
    assert_eq!(out, palette.primary.default.hex);
}

#[test]
fn template_unknown_role_gives_neutral_values() {
    let palette = palette_of(&[("primary", "#FF5722")], true);
    assert_eq!(process_template("{{colors.nope.default.hex}}", &palette, "dark"), "#000000");
    assert_eq!(process_template("{{colors.nope.default.hex_stripped}}", &palette, "dark"), "000000");
    assert_eq!(process_template("{{colors.nope.default.rgb}}", &palette, "dark"), "rgb(0, 0, 0)");
    assert_eq!(process_template("{{colors.nope.default.rgba}}", &palette, "dark"), "rgba(0, 0, 0, 0)");
    assert_eq!(process_template("{{colors.nope.default.hsl}}", &palette, "dark"), "hsl(0, 0%, 0%)");
    assert_eq!(
        process_template("{{colors.nope.default.hsla}}", &palette, "dark"),
        "hsla(0, 0%, 0%, 1.0)"
    );
    assert_eq!(process_template("{{colors.nope.default.alpha}}", &palette, "dark"), "0");
    assert_eq!(process_template("{{colors.nope.default.hue}}", &palette, "dark"), "0");
    // Addressable only through the palette, not the template.
    assert_eq!(process_template("{{colors.scrim.default.hex}}", &palette, "dark"), "#000000");
    assert_eq!(process_template("{{colors.inverse_primary.default.red}}", &palette, "dark"), "0");
}

#[test]
fn template_renders_every_property() {
    let palette = palette_of(&[("primary", "#804040")], false);
    let p = |t: &str| process_template(t, &palette, "light");
    assert_eq!(p("{{colors.primary.default.hex}}"), "#804040");
    assert_eq!(p("{{colors.primary.default.hex_stripped}}"), "804040");
    assert_eq!(p("{{colors.primary.default.rgb}}"), "rgb(128, 64, 64)");
    assert_eq!(p("{{colors.primary.default.rgba}}"), "rgba(128, 64, 64, 255)");
    assert_eq!(p("{{colors.primary.default.hsl}}"), "hsl(0, 33%, 37%)");
    assert_eq!(p("{{colors.primary.default.hsla}}"), "hsla(0, 33%, 37%, 1.0)");
    assert_eq!(p("{{colors.primary.default.red}}"), "128");
    assert_eq!(p("{{colors.primary.default.green}}"), "64");
    assert_eq!(p("{{colors.primary.default.blue}}"), "64");
    assert_eq!(p("{{colors.primary.default.alpha}}"), "255");
    assert_eq!(p("{{colors.primary.default.hue}}"), "0");
    assert_eq!(p("{{colors.primary.default.saturation}}"), "33");
    // 37.64 rounds to 38.
    assert_eq!(p("{{colors.primary.default.lightness}}"), "38");
}

#[test]
fn template_tolerates_space_and_leaves_other_text() {
    let palette = palette_of(&[("primary", "#FF5722")], true);
    let out = process_template(
        "a {{  colors . primary .default.  hex \t}} b {{colors.primary.default.nope}} {colors.primary.default.hex} {{ colors..default.hex }}",
        &palette,
        "dark",
    );
    assert_eq!(
        out,
        "a #ff5722 b {{colors.primary.default.nope}} {colors.primary.default.hex} {{ colors..default.hex }}"
    );
}

#[test]
fn template_mode_flags() {
    let palette = palette_of(&[("primary", "#FF5722")], true);
    assert_eq!(process_template("{{mode}} {{is_dark}} {{is_light}}", &palette, "dark"), "dark true false");
    assert_eq!(process_template("{{mode}} {{is_dark}} {{is_light}}", &palette, "light"), "light false true");
    assert_eq!(process_template("{{mode}}{{mode}}", &palette, "x"), "xx");
}

#[test]
fn palette_requires_primary() {
    let r = generate_palette(&seeds(&[("secondary", "#607D8B")]), true, false);
    assert_eq!(r.err(), Some(ThemeError::MissingColor));
    let r = generate_palette(&seeds(&[("primary", "#60")]), true, false);
    assert_eq!(r.err(), Some(ThemeError::InvalidHex));
    let r = generate_palette(&seeds(&[("primary", "#607D8B"), ("outline", "bad")]), true, false);
    assert_eq!(r.err(), Some(ThemeError::InvalidHex));
    // A text color of an implicit surface is never read.
    let r = generate_palette(&seeds(&[("primary", "#607D8B"), ("on_surface", "bad")]), true, false);
    assert!(r.is_ok());
}

#[test]
fn palette_aliases_and_fallbacks() {
    let p = palette_of(&[("mPrimary", "#FF5722")], true);
    assert_eq!(p.primary.default.hex, "#ff5722");
    assert_eq!(p.secondary.default.hex, "#ff5722");
    assert_eq!(p.tertiary.default.hex, "#ff5722");
    assert_eq!(p.error.default.hex, "#f44336");
    assert_eq!(p.on_primary.default.hex, "#ffffff");
    assert_eq!(p.scrim.default.hex, "#000000");
    assert_eq!(p.shadow.default.hex, "#000000");
    assert_eq!(p.on_surface.default.hex, "#e0e0e0");
    assert_eq!(p.background.default.hex, p.surface.default.hex);

    let p = palette_of(&[("primary", "#FF5722"), ("secondary", "#607D8B"), ("mOnPrimary", "#101010")], false);
    assert_eq!(p.tertiary.default.hex, "#607d8b");
    assert_eq!(p.on_primary.default.hex, "#101010");
    assert_eq!(p.on_primary_container.default.hex, "#101010");
    assert_eq!(p.on_secondary.default.hex, "#000000");
    assert_eq!(p.on_surface.default.hex, "#1f1f1f");
    assert_eq!(p.on_error.default.hex, "#ffffff");
    assert_eq!(p.inverse_primary.default.hex, "#bb86fc");
}

#[test]
fn palette_explicit_surface() {
    let p = palette_of(
        &[("primary", "#FF5722"), ("surface", "#121212"), ("on_surface", "#EEEEEE"), ("mSurfaceVariant", "#222222")],
        true,
    );
    assert_eq!(p.surface.default.hex, "#121212");
    assert_eq!(p.on_surface.default.hex, "#eeeeee");
    assert_eq!(p.surface_variant.default.hex, "#222222");
    assert_eq!(p.on_surface_variant.default.hex, "#c4c4c4");
    assert_eq!(p.on_background.default.hex, "#eeeeee");
}

#[test]
fn palette_tones_follow_mode() {
    let dark = palette_of(&[("primary", "#3366CC")], true);
    let light = palette_of(&[("primary", "#3366CC")], false);
    let t = |c: &tinct::format::ColorFormat| rgb_to_hct(c.red, c.green, c.blue).t;
    assert!(t(&dark.surface.default) < 1000);
    assert!(t(&light.surface.default) > 9500);
    assert!(t(&dark.primary_container.default) < t(&light.primary_container.default));
    assert!(t(&dark.surface_container_lowest.default) < t(&dark.surface_container_highest.default));
    assert!(t(&light.surface_container_lowest.default) > t(&light.surface_container_highest.default));
    // Fixed roles do not depend on the mode.
    assert_eq!(dark.primary_fixed.default.hex, light.primary_fixed.default.hex);
    assert_eq!(dark.secondary_fixed_dim.default.hex, light.secondary_fixed_dim.default.hex);
    assert_eq!(light.surface_container_lowest.default.hex, "#ffffff");
    assert_eq!(dark.entry(Role::Primary).default.hex, "#3366cc");
    assert_eq!(dark.entry(Role::OnPrimaryFixedVariant).default.hex, "#9a87ff");
}

#[test]
fn palette_derived_roles_match_hct() {
    let p = palette_of(&[("primary", "#3366CC")], true);
    let h = rgb_to_hct(0x33, 0x66, 0xcc);
    assert_eq!(p.primary_container.default.hex, Hct::from_hct(h.h, h.c * 2 / 5, 3000).to_hex());
    assert_eq!(p.primary_fixed.default.hex, Hct::from_hct(h.h, h.c * 9 / 10, 9000).to_hex());
    assert_eq!(p.surface.default.hex, Hct::from_hct(h.h, 500, 600).to_hex());
    assert_eq!(p.outline.default.hex, Hct::from_hct(h.h, 1000, 6000).to_hex());
}

#[test]
fn workflow_renders_and_reports_errors() {
    let t = theme(&[("dark", &[("primary", "#FF5722")])]);
    assert_eq!(
        process_theme_workflow(&t, "{{mode}}:{{colors.primary.default.hex}}", "light").unwrap(),
        "dark:#ff5722"
    );
    let none = theme(&[("light", &[("primary", "#FF5722")])]);
    assert_eq!(process_theme_workflow(&none, "x", "dark"), Err(ThemeError::ModeUnavailable));
    let empty = theme(&[("dark", &[])]);
    assert_eq!(process_theme_workflow(&empty, "x", "dark"), Err(ThemeError::MissingColor));
}

#[test]
fn container_harmonious_and_contrast_helpers() {
    let c = generate_container_color("#808080", true).unwrap();
    let rgb = hex_to_rgb(&c).unwrap();
    assert!(rgb.r < 0x80);
    let c = generate_container_color("#808080", false).unwrap();
    assert!(hex_to_rgb(&c).unwrap().r > 0x80);

    let f = generate_harmonious_color("#ff0000", 120, 0).unwrap();
    assert_eq!(f.hex, "#00ff00");
    let f = generate_harmonious_color("#ff0000", -120, 0).unwrap();
    assert_eq!(f.hex, "#0000ff");

    assert_eq!(generate_contrast_color("#000000", true).unwrap().hex, "#ffffff");
    assert_eq!(generate_contrast_color("#ffffff", false).unwrap().hex, "#e6e1e5");
    assert_eq!(generate_contrast_color("#ffffff", true).unwrap().hex, "#000000");
    assert_eq!(generate_contrast_color("zz", true).err(), Some(ThemeError::InvalidHex));
}

#[test]
fn config_section_validation_and_mode_names() {
    let ok = ConfigSection { input_path: "a".to_string(), output_path: "b".to_string(), post_hook: None };
    assert!(validate_config_section(&ok));
    let bad = ConfigSection { input_path: String::new(), output_path: "b".to_string(), post_hook: None };
    assert!(!validate_config_section(&bad));
    assert_eq!(ThemeMode::Dark.to_string(), "dark");
    assert_eq!(ThemeMode::Light.as_str(), "light");
}

#[test]
fn error_messages_are_not_empty() {
    for e in [ThemeError::InvalidHex, ThemeError::MissingColor, ThemeError::ModeUnavailable] {
        assert!(!e.message().is_empty());
    }
    assert_eq!(rgb_hex(hex_to_rgb("#ABCDEF").unwrap()), "#abcdef");
}
