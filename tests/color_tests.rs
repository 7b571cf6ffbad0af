use tinct::color::{clamp, hex_to_rgb, rgb_hex, rgb_to_hex, Rgb};
use tinct::error::ThemeError;
use tinct::hct::{rgb_to_hct, Hct};
use tinct::hsl::{
    adjust_lightness, adjust_lightness_and_saturation, adjust_saturation, hsl_to_rgb, rgb_to_hsl,
};
use tinct::luminance::{generate_on_color, get_contrast_ratio, get_luminance, is_light_color};

#[test]
fn test_hex_to_rgb() {
    let rgb = hex_to_rgb("#ffffff").unwrap();
    assert_eq!(rgb.r, 255);
    assert_eq!(rgb.g, 255);
    assert_eq!(rgb.b, 255);

    let rgb = hex_to_rgb("#000000").unwrap();
    assert_eq!(rgb.r, 0);
    assert_eq!(rgb.g, 0);
    assert_eq!(rgb.b, 0);

    let rgb = hex_to_rgb("#ff0000").unwrap();
    assert_eq!(rgb.r, 255);
    assert_eq!(rgb.g, 0);
    assert_eq!(rgb.b, 0);
}

#[test]
fn test_hex_to_rgb_no_hash() {
    let rgb = hex_to_rgb("ffffff").unwrap();
    assert_eq!(rgb.r, 255);
    assert_eq!(rgb.g, 255);
    assert_eq!(rgb.b, 255);
}

#[test]
fn test_rgb_to_hex() {
    assert_eq!(rgb_to_hex(255, 255, 255), "#ffffff");
    assert_eq!(rgb_to_hex(0, 0, 0), "#000000");
    assert_eq!(rgb_to_hex(255, 0, 0), "#ff0000");
}

#[test]
fn test_rgb_to_hsl() {
    // Hue in hundredths of a degree, saturation and lightness in hundredths of a percent.
    let hsl = rgb_to_hsl(255, 0, 0);
    assert_eq!(hsl.h / 100, 0);
    assert!((hsl.s as i64 - 10000).abs() < 100);
    assert!((hsl.l as i64 - 5000).abs() < 100);

    let hsl = rgb_to_hsl(0, 255, 0);
    assert_eq!(hsl.h / 100, 120);
}

#[test]
fn test_hsl_to_rgb() {
    let rgb = hsl_to_rgb(0, 10000, 5000);
    assert_eq!(rgb.r, 255);
    assert_eq!(rgb.g, 0);
    assert_eq!(rgb.b, 0);

    let rgb = hsl_to_rgb(12000, 10000, 5000);
    assert_eq!(rgb.r, 0);
    assert_eq!(rgb.g, 255);
    assert_eq!(rgb.b, 0);
}

#[test]
fn test_adjust_lightness() {
    let result = adjust_lightness("#ff0000", -20).unwrap();
    assert!(result != "#ff0000");

    let result = adjust_lightness("#808080", 100).unwrap();
    let rgb = hex_to_rgb(&result).unwrap();
    let hsl = rgb_to_hsl(rgb.r, rgb.g, rgb.b);
    assert!(hsl.l >= 9990);
}

#[test]
fn test_adjust_saturation() {
    let result = adjust_saturation("#804040", 20).unwrap();
    assert!(result != "#804040");
}

#[test]
fn test_get_luminance() {
    // Luminance in units of 10^-10.
    let lum_white = get_luminance("#ffffff").unwrap();
    assert!(lum_white > 9_000_000_000);

    let lum_black = get_luminance("#000000").unwrap();
    assert!(lum_black < 1_000_000_000);
}

#[test]
fn test_get_contrast_ratio() {
    // Contrast in thousandths.
    let ratio = get_contrast_ratio("#ffffff", "#000000").unwrap();
    assert!(ratio > 20_000);

    let ratio = get_contrast_ratio("#ffffff", "#ffffff").unwrap();
    assert!((ratio as i64 - 1000).abs() < 100);
}

#[test]
fn test_is_light_color() {
    assert_eq!(is_light_color("#ffffff").unwrap(), true);
    assert_eq!(is_light_color("#000000").unwrap(), false);
    assert_eq!(is_light_color("#888888").unwrap(), false);
}

#[test]
fn test_generate_on_color() {
    let color = generate_on_color("#ffffff", true).unwrap();
    assert!(color == "#000000" || color == "#1c1b1f");

    let color = generate_on_color("#000000", true).unwrap();
    assert!(color == "#ffffff" || color == "#e6e1e5");
}

#[test]
fn test_adjust_lightness_and_saturation() {
    let result = adjust_lightness_and_saturation("#ff8080", -10, 10).unwrap();
    assert!(result != "#ff8080");
}

#[test]
fn test_clamp() {
    assert_eq!(clamp(5, 0, 10), 5);
    assert_eq!(clamp(-1, 0, 10), 0);
    assert_eq!(clamp(15, 0, 10), 10);
}

#[test]
fn test_color_functions() {
    let rgb = hex_to_rgb("#ffffff").unwrap();
    assert_eq!((rgb.r, rgb.g, rgb.b), (255, 255, 255));
    let rgb = hex_to_rgb("#000000").unwrap();
    assert_eq!((rgb.r, rgb.g, rgb.b), (0, 0, 0));
    let rgb = hex_to_rgb("#ff0000").unwrap();
    assert_eq!((rgb.r, rgb.g, rgb.b), (255, 0, 0));
    let rgb = hex_to_rgb("ffffff").unwrap();
    assert_eq!((rgb.r, rgb.g, rgb.b), (255, 255, 255));

    assert_eq!(rgb_to_hex(255, 255, 255), "#ffffff");
    assert_eq!(rgb_to_hex(0, 0, 0), "#000000");
    assert_eq!(rgb_to_hex(255, 0, 0), "#ff0000");

    let hsl = rgb_to_hsl(255, 0, 0);
    assert_eq!(hsl.h / 100, 0);
    assert!((hsl.s as i64 - 10000).abs() < 100);
    assert!((hsl.l as i64 - 5000).abs() < 100);
    let hsl = rgb_to_hsl(0, 255, 0);
    assert_eq!(hsl.h / 100, 120);

    let rgb = hsl_to_rgb(0, 10000, 5000);
    assert_eq!((rgb.r, rgb.g, rgb.b), (255, 0, 0));
    let rgb = hsl_to_rgb(12000, 10000, 5000);
    assert_eq!((rgb.r, rgb.g, rgb.b), (0, 255, 0));

    assert!(adjust_lightness("#ff0000", -20).unwrap() != "#ff0000");
    assert!(adjust_saturation("#804040", 20).unwrap() != "#804040");

    assert!(get_luminance("#ffffff").unwrap() > 9_000_000_000);
    assert!(get_luminance("#000000").unwrap() < 1_000_000_000);

    assert!(get_contrast_ratio("#ffffff", "#000000").unwrap() > 20_000);
    assert!((get_contrast_ratio("#ffffff", "#ffffff").unwrap() as i64 - 1000).abs() < 100);

    assert_eq!(is_light_color("#ffffff").unwrap(), true);
    assert_eq!(is_light_color("#000000").unwrap(), false);
    assert_eq!(is_light_color("#888888").unwrap(), false);

    let c = generate_on_color("#ffffff", true).unwrap();
    assert!(c == "#000000" || c == "#1c1b1f");
    let c = generate_on_color("#000000", true).unwrap();
    assert!(c == "#ffffff" || c == "#e6e1e5");

    assert!(adjust_lightness_and_saturation("#ff8080", -10, 10).unwrap() != "#ff8080");

    assert_eq!(clamp(5, 0, 10), 5);
    assert_eq!(clamp(-1, 0, 10), 0);
    assert_eq!(clamp(15, 0, 10), 10);

    let hct = rgb_to_hct(255, 0, 0);
    assert_eq!(hct.h / 100, 0);

    let rgb = Hct::from_hct(0, 10000, 5000).to_rgb();
    assert!(rgb.r > 200);
    assert!(rgb.g < 50);
    assert!(rgb.b < 50);
}

#[test]
fn hex_round_trip_keeps_canonical_text() {
    for h in ["#1a2b3c", "#ffffff", "#000000", "#ff5722", "#0f0f0f"] {
        let c = hex_to_rgb(h).unwrap();
        assert_eq!(rgb_hex(c), h);
    }
}

#[test]
fn hex_parse_accepts_upper_case_and_writes_lower_case() {
    let c = hex_to_rgb("#FF5722").unwrap();
    assert_eq!(c, Rgb { r: 255, g: 87, b: 34 });
    assert_eq!(rgb_hex(c), "#ff5722");
    assert_eq!(hex_to_rgb("abcdef").unwrap(), Rgb { r: 0xab, g: 0xcd, b: 0xef });
}

#[test]
fn hex_parse_rejects_malformed_text() {
    for h in ["", "#", "#fff", "#12345", "#1234567", "#12345g", "#+12345", "#+f+f+f", "ff 000", "#ééé", "##ffffff", "###abcdef"] {
        assert_eq!(hex_to_rgb(h), Err(ThemeError::InvalidHex), "{}", h);
    }
    assert_eq!(get_luminance("#zzzzzz"), Err(ThemeError::InvalidHex));
    assert_eq!(get_contrast_ratio("#ffffff", "oops"), Err(ThemeError::InvalidHex));
    assert_eq!(is_light_color("12"), Err(ThemeError::InvalidHex));
    assert_eq!(generate_on_color("#12", false), Err(ThemeError::InvalidHex));
    assert_eq!(adjust_lightness("x", 1), Err(ThemeError::InvalidHex));
}

#[test]
fn rgb_to_hex_clamps_each_channel() {
    assert_eq!(rgb_to_hex(-5, 300, 128), "#00ff80");
    assert_eq!(rgb_to_hex(i64::MIN, i64::MAX, 16), "#00ff10");
}

#[test]
fn hsl_of_known_colors() {
    let x = rgb_to_hsl(0, 0, 255);
    assert_eq!((x.h, x.s, x.l), (24000, 10000, 5000));
    let x = rgb_to_hsl(255, 0, 128);
    assert_eq!(x.h / 100, 329);
    let x = rgb_to_hsl(128, 128, 128);
    assert_eq!((x.h, x.s, x.l), (0, 0, 5019));
    let x = rgb_to_hsl(128, 64, 64);
    assert_eq!((x.h, x.s, x.l), (0, 3333, 3764));
}

#[test]
fn hsl_round_trip_of_primaries() {
    for (r, g, b) in [(255u8, 0u8, 0u8), (0, 255, 0), (0, 0, 255), (255, 255, 0), (128, 64, 64), (17, 34, 51)] {
        let x = rgb_to_hsl(r, g, b);
        let c = hsl_to_rgb(x.h, x.s, x.l);
        assert_eq!((c.r, c.g, c.b), (r, g, b));
    }
}

#[test]
fn full_lightness_gives_white_and_none_gives_black() {
    assert_eq!(adjust_lightness("#3366cc", 100).unwrap(), "#ffffff");
    assert_eq!(adjust_lightness("#3366cc", -100).unwrap(), "#000000");
    assert_eq!(adjust_saturation("#3366cc", -100).unwrap(), adjust_saturation("#6633cc", -100).unwrap());
}

#[test]
fn luminance_exact_values() {
    assert_eq!(get_luminance("#ffffff").unwrap(), 10_000_000_000);
    assert_eq!(get_luminance("#000000").unwrap(), 0);
    // 0.2126 for pure red.
    assert_eq!(get_luminance("#ff0000").unwrap(), 2_126_000_000);
    let mid = get_luminance("#888888").unwrap();
    assert!(mid > 2_400_000_000 && mid < 2_500_000_000, "{}", mid);
}

#[test]
fn contrast_ratio_exact_and_symmetric() {
    assert_eq!(get_contrast_ratio("#ffffff", "#000000").unwrap(), 21_000);
    assert_eq!(get_contrast_ratio("#000000", "#ffffff").unwrap(), 21_000);
    let a = get_contrast_ratio("#ff5722", "#607d8b").unwrap();
    let b = get_contrast_ratio("#607d8b", "#ff5722").unwrap();
    assert_eq!(a, b);
    assert_eq!(get_contrast_ratio("#123456", "#123456").unwrap(), 1000);
}

#[test]
fn on_color_follows_luminance() {
    assert_eq!(generate_on_color("#ffffff", false).unwrap(), "#000000");
    assert_eq!(generate_on_color("#000000", false).unwrap(), "#ffffff");
    assert_eq!(generate_on_color("#ffff00", true).unwrap(), "#000000");
    assert_eq!(generate_on_color("#0000ff", false).unwrap(), "#ffffff");
    // Mid gray: dark by luminance, and white reaches 4.5:1 only barely not.
    assert_eq!(generate_on_color("#888888", false).unwrap(), "#e6e1e5");
}

#[test]
fn hct_of_gray_and_white() {
    let x = rgb_to_hct(255, 255, 255);
    assert_eq!((x.h, x.c, x.t), (0, 0, 10000));
    let x = rgb_to_hct(0, 0, 0);
    assert_eq!((x.h, x.c, x.t), (0, 0, 0));
    let x = rgb_to_hct(0, 255, 0);
    assert_eq!((x.h, x.c), (12000, 10000));
}

#[test]
fn hct_round_trip_stays_close() {
    for (r, g, b) in [(255u8, 87u8, 34u8), (96, 125, 139), (18, 18, 18), (233, 30, 99), (0, 188, 212), (200, 200, 10)] {
        let x = rgb_to_hct(r, g, b);
        let c = Hct::from_hct(x.h, x.c, x.t).to_rgb();
        for (a, e) in [(c.r, r), (c.g, g), (c.b, b)] {
            assert!((a as i32 - e as i32).abs() <= 2, "{:?} from {:?}", (c.r, c.g, c.b), (r, g, b));
        }
    }
}

#[test]
fn hct_round_trip_within_one_level_on_a_grid() {
    let levels = [0u8, 51, 102, 153, 204, 255];
    for r in levels {
        for g in levels {
            for b in levels {
                let x = rgb_to_hct(r, g, b);
                let c = Hct::from_hct(x.h, x.c, x.t).to_rgb();
                for (a, e) in [(c.r, r), (c.g, g), (c.b, b)] {
                    assert!((a as i32 - e as i32).abs() <= 1, "{:?} from {:?}", (c.r, c.g, c.b), (r, g, b));
                }
            }
        }
    }
}

#[test]
fn hct_tone_orders_luminance() {
    let mut last = 0u64;
    for t in [0u32, 1000, 2000, 4000, 6000, 8000, 9000, 10000] {
        let c = Hct::from_hct(20000, 3000, t).to_rgb();
        let l = get_luminance(&rgb_hex(c)).unwrap();
        assert!(l >= last, "tone {} gave {}", t, l);
        last = l;
    }
    assert_eq!(rgb_hex(Hct::from_hct(12345, 500, 10000).to_rgb()), "#ffffff");
    assert_eq!(rgb_hex(Hct::from_hct(12345, 500, 0).to_rgb()), "#000000");
}

#[test]
fn hct_to_hex_matches_to_rgb() {
    let x = Hct::from_hct(36000 + 4500, 4000, 5000);
    assert_eq!(x.h, 4500);
    assert_eq!(x.to_hex(), rgb_hex(x.to_rgb()));
    assert_eq!(Hct::from_hct(0, 0, 20000).t, 10000);
}
