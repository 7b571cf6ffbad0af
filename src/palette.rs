//! The palette: every color role of one appearance mode, synthesized from
//! a theme's seed colors.
use vstd::prelude::*;
use crate::color::{Rgb, clamp_spec, hex_of_rgb, hex_to_rgb, is_hex_color, rgb_of_hex};
use crate::hsl::{hsl_of, hsl_to_rgb, lightness_adjusted, rgb_of_hsl, rgb_to_hsl};
use crate::luminance::{
    LIGHT_THRESHOLD, MIN_TEXT_CONTRAST, WHITE_LUMINANCE, contrast, contrast_of, luminance,
    luminance_of,
};
use crate::error::ThemeError;
use crate::format::{ColorFormat, format_rgb};
use crate::hct::{Hct, hct_of, hct_to_rgb, rgb_of_hct, rgb_to_hct};
use crate::theme::ThemeSeeds;

verus! {

/// A named color slot of a palette.
#[derive(Debug, Clone, Copy, PartialEq, Eq, Structural)]
pub enum Role {
    Primary,
    OnPrimary,
    PrimaryContainer,
    OnPrimaryContainer,
    PrimaryFixed,
    PrimaryFixedDim,
    OnPrimaryFixed,
    OnPrimaryFixedVariant,
    Secondary,
    OnSecondary,
    SecondaryContainer,
    OnSecondaryContainer,
    SecondaryFixed,
    SecondaryFixedDim,
    OnSecondaryFixed,
    OnSecondaryFixedVariant,
    Tertiary,
    OnTertiary,
    TertiaryContainer,
    OnTertiaryContainer,
    TertiaryFixed,
    TertiaryFixedDim,
    OnTertiaryFixed,
    OnTertiaryFixedVariant,
    Error,
    OnError,
    ErrorContainer,
    OnErrorContainer,
    Background,
    OnBackground,
    Surface,
    OnSurface,
    SurfaceVariant,
    OnSurfaceVariant,
    SurfaceContainerLowest,
    SurfaceContainerLow,
    SurfaceContainer,
    SurfaceContainerHigh,
    SurfaceContainerHighest,
    InverseSurface,
    InverseOnSurface,
    InversePrimary,
    SurfaceDim,
    SurfaceBright,
    Outline,
    OutlineVariant,
    Shadow,
    Scrim,
}

/// One role's color. The single variant is the resting state.
#[derive(Debug, Clone)]
pub struct ColorEntry {
    pub default: ColorFormat,
}

/// Every color role of one appearance mode. Built whole, never changed.
#[derive(Debug, Clone)]
pub struct Palette {
    pub primary: ColorEntry,
    pub on_primary: ColorEntry,
    pub primary_container: ColorEntry,
    pub on_primary_container: ColorEntry,
    pub primary_fixed: ColorEntry,
    pub primary_fixed_dim: ColorEntry,
    pub on_primary_fixed: ColorEntry,
    pub on_primary_fixed_variant: ColorEntry,
    pub secondary: ColorEntry,
    pub on_secondary: ColorEntry,
    pub secondary_container: ColorEntry,
    pub on_secondary_container: ColorEntry,
    pub secondary_fixed: ColorEntry,
    pub secondary_fixed_dim: ColorEntry,
    pub on_secondary_fixed: ColorEntry,
    pub on_secondary_fixed_variant: ColorEntry,
    pub tertiary: ColorEntry,
    pub on_tertiary: ColorEntry,
    pub tertiary_container: ColorEntry,
    pub on_tertiary_container: ColorEntry,
    pub tertiary_fixed: ColorEntry,
    pub tertiary_fixed_dim: ColorEntry,
    pub on_tertiary_fixed: ColorEntry,
    pub on_tertiary_fixed_variant: ColorEntry,
    pub error: ColorEntry,
    pub on_error: ColorEntry,
    pub error_container: ColorEntry,
    pub on_error_container: ColorEntry,
    pub background: ColorEntry,
    pub on_background: ColorEntry,
    pub surface: ColorEntry,
    pub on_surface: ColorEntry,
    pub surface_variant: ColorEntry,
    pub on_surface_variant: ColorEntry,
    pub surface_container_lowest: ColorEntry,
    pub surface_container_low: ColorEntry,
    pub surface_container: ColorEntry,
    pub surface_container_high: ColorEntry,
    pub surface_container_highest: ColorEntry,
    pub inverse_surface: ColorEntry,
    pub inverse_on_surface: ColorEntry,
    pub inverse_primary: ColorEntry,
    pub surface_dim: ColorEntry,
    pub surface_bright: ColorEntry,
    pub outline: ColorEntry,
    pub outline_variant: ColorEntry,
    pub shadow: ColorEntry,
    pub scrim: ColorEntry,
}

/// The color format that a palette holds for a role.
pub open spec fn role_entry(p: &Palette, r: Role) -> ColorFormat {
    match r {
        Role::Primary => p.primary.default,
        Role::OnPrimary => p.on_primary.default,
        Role::PrimaryContainer => p.primary_container.default,
        Role::OnPrimaryContainer => p.on_primary_container.default,
        Role::PrimaryFixed => p.primary_fixed.default,
        Role::PrimaryFixedDim => p.primary_fixed_dim.default,
        Role::OnPrimaryFixed => p.on_primary_fixed.default,
        Role::OnPrimaryFixedVariant => p.on_primary_fixed_variant.default,
        Role::Secondary => p.secondary.default,
        Role::OnSecondary => p.on_secondary.default,
        Role::SecondaryContainer => p.secondary_container.default,
        Role::OnSecondaryContainer => p.on_secondary_container.default,
        Role::SecondaryFixed => p.secondary_fixed.default,
        Role::SecondaryFixedDim => p.secondary_fixed_dim.default,
        Role::OnSecondaryFixed => p.on_secondary_fixed.default,
        Role::OnSecondaryFixedVariant => p.on_secondary_fixed_variant.default,
        Role::Tertiary => p.tertiary.default,
        Role::OnTertiary => p.on_tertiary.default,
        Role::TertiaryContainer => p.tertiary_container.default,
        Role::OnTertiaryContainer => p.on_tertiary_container.default,
        Role::TertiaryFixed => p.tertiary_fixed.default,
        Role::TertiaryFixedDim => p.tertiary_fixed_dim.default,
        Role::OnTertiaryFixed => p.on_tertiary_fixed.default,
        Role::OnTertiaryFixedVariant => p.on_tertiary_fixed_variant.default,
        Role::Error => p.error.default,
        Role::OnError => p.on_error.default,
        Role::ErrorContainer => p.error_container.default,
        Role::OnErrorContainer => p.on_error_container.default,
        Role::Background => p.background.default,
        Role::OnBackground => p.on_background.default,
        Role::Surface => p.surface.default,
        Role::OnSurface => p.on_surface.default,
        Role::SurfaceVariant => p.surface_variant.default,
        Role::OnSurfaceVariant => p.on_surface_variant.default,
        Role::SurfaceContainerLowest => p.surface_container_lowest.default,
        Role::SurfaceContainerLow => p.surface_container_low.default,
        Role::SurfaceContainer => p.surface_container.default,
        Role::SurfaceContainerHigh => p.surface_container_high.default,
        Role::SurfaceContainerHighest => p.surface_container_highest.default,
        Role::InverseSurface => p.inverse_surface.default,
        Role::InverseOnSurface => p.inverse_on_surface.default,
        Role::InversePrimary => p.inverse_primary.default,
        Role::SurfaceDim => p.surface_dim.default,
        Role::SurfaceBright => p.surface_bright.default,
        Role::Outline => p.outline.default,
        Role::OutlineVariant => p.outline_variant.default,
        Role::Shadow => p.shadow.default,
        Role::Scrim => p.scrim.default,
    }
}

impl Palette {
    /// The entry of a role.
    pub fn entry(&self, r: Role) -> (e: &ColorEntry)
        ensures
            e.default == role_entry(self, r),
    {
        match r {
            Role::Primary => &self.primary,
            Role::OnPrimary => &self.on_primary,
            Role::PrimaryContainer => &self.primary_container,
            Role::OnPrimaryContainer => &self.on_primary_container,
            Role::PrimaryFixed => &self.primary_fixed,
            Role::PrimaryFixedDim => &self.primary_fixed_dim,
            Role::OnPrimaryFixed => &self.on_primary_fixed,
            Role::OnPrimaryFixedVariant => &self.on_primary_fixed_variant,
            Role::Secondary => &self.secondary,
            Role::OnSecondary => &self.on_secondary,
            Role::SecondaryContainer => &self.secondary_container,
            Role::OnSecondaryContainer => &self.on_secondary_container,
            Role::SecondaryFixed => &self.secondary_fixed,
            Role::SecondaryFixedDim => &self.secondary_fixed_dim,
            Role::OnSecondaryFixed => &self.on_secondary_fixed,
            Role::OnSecondaryFixedVariant => &self.on_secondary_fixed_variant,
            Role::Tertiary => &self.tertiary,
            Role::OnTertiary => &self.on_tertiary,
            Role::TertiaryContainer => &self.tertiary_container,
            Role::OnTertiaryContainer => &self.on_tertiary_container,
            Role::TertiaryFixed => &self.tertiary_fixed,
            Role::TertiaryFixedDim => &self.tertiary_fixed_dim,
            Role::OnTertiaryFixed => &self.on_tertiary_fixed,
            Role::OnTertiaryFixedVariant => &self.on_tertiary_fixed_variant,
            Role::Error => &self.error,
            Role::OnError => &self.on_error,
            Role::ErrorContainer => &self.error_container,
            Role::OnErrorContainer => &self.on_error_container,
            Role::Background => &self.background,
            Role::OnBackground => &self.on_background,
            Role::Surface => &self.surface,
            Role::OnSurface => &self.on_surface,
            Role::SurfaceVariant => &self.surface_variant,
            Role::OnSurfaceVariant => &self.on_surface_variant,
            Role::SurfaceContainerLowest => &self.surface_container_lowest,
            Role::SurfaceContainerLow => &self.surface_container_low,
            Role::SurfaceContainer => &self.surface_container,
            Role::SurfaceContainerHigh => &self.surface_container_high,
            Role::SurfaceContainerHighest => &self.surface_container_highest,
            Role::InverseSurface => &self.inverse_surface,
            Role::InverseOnSurface => &self.inverse_on_surface,
            Role::InversePrimary => &self.inverse_primary,
            Role::SurfaceDim => &self.surface_dim,
            Role::SurfaceBright => &self.surface_bright,
            Role::Outline => &self.outline,
            Role::OutlineVariant => &self.outline_variant,
            Role::Shadow => &self.shadow,
            Role::Scrim => &self.scrim,
        }
    }
}

/// A seed color that a theme may give, each under a key and a legacy alias.
#[derive(Debug, Clone, Copy, PartialEq, Eq, Structural)]
pub enum Seed {
    Primary,
    Secondary,
    Tertiary,
    Error,
    Surface,
    SurfaceVariant,
    OnPrimary,
    OnSecondary,
    OnTertiary,
    OnPrimaryContainer,
    OnSurface,
    OnSurfaceVariant,
    OnError,
    Outline,
    Shadow,
}

/// The keys a seed is looked up under, in order: the first present wins.
pub open spec fn seed_keys(s: Seed) -> (Seq<char>, Seq<char>) {
    match s {
        Seed::Primary => ("primary"@, "mPrimary"@),
        Seed::Secondary => ("secondary"@, "mSecondary"@),
        Seed::Tertiary => ("tertiary"@, "mTertiary"@),
        Seed::Error => ("error"@, "mError"@),
        Seed::Surface => ("surface"@, "mSurface"@),
        Seed::SurfaceVariant => ("surface_variant"@, "mSurfaceVariant"@),
        Seed::OnPrimary => ("on_primary"@, "mOnPrimary"@),
        Seed::OnSecondary => ("on_secondary"@, "mOnSecondary"@),
        Seed::OnTertiary => ("on_tertiary"@, "mOnTertiary"@),
        Seed::OnPrimaryContainer => ("on_primary_container"@, "mOnPrimary"@),
        Seed::OnSurface => ("on_surface"@, "mOnSurface"@),
        Seed::OnSurfaceVariant => ("on_surface_variant"@, "mOnSurfaceVariant"@),
        Seed::OnError => ("on_error"@, "mOnError"@),
        Seed::Outline => ("outline"@, "mOutline"@),
        Seed::Shadow => ("shadow"@, "mShadow"@),
    }
}

/// The keys a seed is looked up under.
pub fn keys_of(s: Seed) -> (r: (&'static str, &'static str))
    ensures
        (r.0@, r.1@) == seed_keys(s),
{
    match s {
        Seed::Primary => ("primary", "mPrimary"),
        Seed::Secondary => ("secondary", "mSecondary"),
        Seed::Tertiary => ("tertiary", "mTertiary"),
        Seed::Error => ("error", "mError"),
        Seed::Surface => ("surface", "mSurface"),
        Seed::SurfaceVariant => ("surface_variant", "mSurfaceVariant"),
        Seed::OnPrimary => ("on_primary", "mOnPrimary"),
        Seed::OnSecondary => ("on_secondary", "mOnSecondary"),
        Seed::OnTertiary => ("on_tertiary", "mOnTertiary"),
        Seed::OnPrimaryContainer => ("on_primary_container", "mOnPrimary"),
        Seed::OnSurface => ("on_surface", "mOnSurface"),
        Seed::OnSurfaceVariant => ("on_surface_variant", "mOnSurfaceVariant"),
        Seed::OnError => ("on_error", "mOnError"),
        Seed::Outline => ("outline", "mOutline"),
        Seed::Shadow => ("shadow", "mShadow"),
    }
}

/// The value of a seed: under its key, else under its alias.
pub open spec fn resolved(seeds: &ThemeSeeds, s: Seed) -> Option<Seq<char>> {
    let (k, alias) = seed_keys(s);
    match seeds.seed(k) {
        Some(v) => Some(v),
        None => seeds.seed(alias),
    }
}

/// The value of a seed: under its key, else under its alias.
pub fn resolve<'a>(seeds: &'a ThemeSeeds, s: Seed) -> (r: Option<&'a String>)
    ensures
        r is None <==> resolved(seeds, s) is None,
        r is Some ==> resolved(seeds, s) == Some(r->0@),
{
    let (k, alias) = keys_of(s);
    match seeds.get(k) {
        Some(v) => Some(v),
        None => seeds.get(alias),
    }
}

/// The color of a seed that the theme gives, else `default`.
pub open spec fn seed_or(seeds: &ThemeSeeds, s: Seed, default: Rgb) -> Rgb {
    match resolved(seeds, s) {
        Some(h) => rgb_of_hex(h),
        None => default,
    }
}

/// A seed that the theme gives is a valid hex color.
pub open spec fn seed_ok(seeds: &ThemeSeeds, s: Seed) -> bool {
    match resolved(seeds, s) {
        Some(h) => is_hex_color(h),
        None => true,
    }
}

fn color_of_seed(seeds: &ThemeSeeds, s: Seed, default: Rgb) -> (r: Result<Rgb, ThemeError>)
    ensures
        r is Ok <==> seed_ok(seeds, s),
        r is Ok ==> r->Ok_0 == seed_or(seeds, s, default),
        r is Err ==> r->Err_0 == ThemeError::InvalidHex,
{
    match resolve(seeds, s) {
        Some(h) => hex_to_rgb(h.as_str()),
        None => Ok(default),
    }
}

pub open spec fn rgb(r: u8, g: u8, b: u8) -> Rgb {
    Rgb { r, g, b }
}

fn make_rgb(r: u8, g: u8, b: u8) -> (c: Rgb)
    ensures
        c == rgb(r, g, b),
{
    Rgb { r, g, b }
}

pub open spec fn pick(dark: bool, a: Rgb, b: Rgb) -> Rgb {
    if dark {
        a
    } else {
        b
    }
}

pub open spec fn pick_tone(dark: bool, a: int, b: int) -> int {
    if dark {
        a
    } else {
        b
    }
}

/// Black text on light roles, white on dark ones, by mode.
pub open spec fn mode_text(dark: bool) -> Rgb {
    pick(dark, rgb(255, 255, 255), rgb(0, 0, 0))
}

pub open spec fn primary_rgb(seeds: &ThemeSeeds) -> Rgb {
    rgb_of_hex(resolved(seeds, Seed::Primary)->0)
}

/// Secondary falls back on primary.
pub open spec fn secondary_rgb(seeds: &ThemeSeeds) -> Rgb {
    seed_or(seeds, Seed::Secondary, primary_rgb(seeds))
}

/// Tertiary falls back on secondary.
pub open spec fn tertiary_rgb(seeds: &ThemeSeeds) -> Rgb {
    seed_or(seeds, Seed::Tertiary, secondary_rgb(seeds))
}

/// Error falls back on `#f44336`.
pub open spec fn error_rgb(seeds: &ThemeSeeds) -> Rgb {
    seed_or(seeds, Seed::Error, rgb(244, 67, 54))
}

/// The hue / chroma / tone the surface family is derived from: that of
/// the theme's surface, else a near-neutral of the primary hue.
pub open spec fn surface_hct(seeds: &ThemeSeeds, dark: bool) -> Hct {
    match resolved(seeds, Seed::Surface) {
        Some(h) => hct_of(rgb_of_hex(h)),
        None => Hct {
            h: hct_of(primary_rgb(seeds)).h,
            c: 500,
            t: pick_tone(dark, 600, 9800) as u32,
        },
    }
}

/// Every seed the synthesis reads is a valid hex color. The text color of
/// an explicit surface (or surface variant) is read only when that surface
/// is given.
pub open spec fn seeds_valid(seeds: &ThemeSeeds) -> bool {
    &&& is_hex_color(resolved(seeds, Seed::Primary)->0)
    &&& seed_ok(seeds, Seed::Secondary)
    &&& seed_ok(seeds, Seed::Tertiary)
    &&& seed_ok(seeds, Seed::Error)
    &&& seed_ok(seeds, Seed::Surface)
    &&& seed_ok(seeds, Seed::SurfaceVariant)
    &&& seed_ok(seeds, Seed::OnPrimary)
    &&& seed_ok(seeds, Seed::OnSecondary)
    &&& seed_ok(seeds, Seed::OnTertiary)
    &&& seed_ok(seeds, Seed::OnPrimaryContainer)
    &&& (resolved(seeds, Seed::Surface) is Some ==> seed_ok(seeds, Seed::OnSurface))
    &&& (resolved(seeds, Seed::SurfaceVariant) is Some ==> seed_ok(seeds, Seed::OnSurfaceVariant))
    &&& seed_ok(seeds, Seed::OnError)
    &&& seed_ok(seeds, Seed::Outline)
    &&& seed_ok(seeds, Seed::Shadow)
}

/// The color of a role of hue `h`, derived at chroma `c` and tone `t`.
#[verifier::opaque]
pub open spec fn derived(h: u32, c: int, t: int) -> Rgb {
    rgb_of_hct(h as int, c, t)
}

/// The color each role gets from the seeds, in dark or light mode.
pub open spec fn role_color(seeds: &ThemeSeeds, dark: bool, r: Role) -> Rgb {
    let ph = hct_of(primary_rgb(seeds));
    let sh = hct_of(secondary_rgb(seeds));
    let th = hct_of(tertiary_rgb(seeds));
    let eh = hct_of(error_rgb(seeds));
    let sf = surface_hct(seeds, dark);
    let explicit_surface = resolved(seeds, Seed::Surface) is Some;
    let explicit_variant = resolved(seeds, Seed::SurfaceVariant) is Some;
    let on_surface = if explicit_surface {
        seed_or(seeds, Seed::OnSurface, pick(dark, rgb(224, 224, 224), rgb(31, 31, 31)))
    } else {
        pick(dark, rgb(224, 224, 224), rgb(31, 31, 31))
    };
    let surface = match resolved(seeds, Seed::Surface) {
        Some(h) => rgb_of_hex(h),
        None => derived(sf.h, 500, pick_tone(dark, 600, 9800)),
    };
    match r {
        Role::Primary => primary_rgb(seeds),
        Role::OnPrimary => seed_or(seeds, Seed::OnPrimary, mode_text(dark)),
        Role::PrimaryContainer => derived(ph.h, ph.c * 2 / 5, pick_tone(dark, 3000, 9000)),
        Role::OnPrimaryContainer => seed_or(seeds, Seed::OnPrimaryContainer, mode_text(dark)),
        Role::PrimaryFixed => derived(ph.h, ph.c * 9 / 10, 9000),
        Role::PrimaryFixedDim => derived(ph.h, ph.c * 7 / 10, 7500),
        Role::OnPrimaryFixed => rgb(0, 0, 0),
        Role::OnPrimaryFixedVariant => pick(dark, rgb(154, 135, 255), rgb(67, 56, 157)),
        Role::Secondary => secondary_rgb(seeds),
        Role::OnSecondary => seed_or(seeds, Seed::OnSecondary, mode_text(dark)),
        Role::SecondaryContainer => derived(sh.h, sh.c * 2 / 5, pick_tone(dark, 2000, 9500)),
        Role::OnSecondaryContainer => mode_text(dark),
        Role::SecondaryFixed => derived(sh.h, sh.c * 9 / 10, 9000),
        Role::SecondaryFixedDim => derived(sh.h, sh.c * 7 / 10, 7500),
        Role::OnSecondaryFixed => rgb(0, 0, 0),
        Role::OnSecondaryFixedVariant => pick(dark, rgb(103, 218, 255), rgb(0, 107, 96)),
        Role::Tertiary => tertiary_rgb(seeds),
        Role::OnTertiary => seed_or(seeds, Seed::OnTertiary, mode_text(dark)),
        Role::TertiaryContainer => derived(th.h, th.c * 2 / 5, pick_tone(dark, 2500, 9500)),
        Role::OnTertiaryContainer => mode_text(dark),
        Role::TertiaryFixed => derived(th.h, th.c * 9 / 10, 9000),
        Role::TertiaryFixedDim => derived(th.h, th.c * 7 / 10, 7500),
        Role::OnTertiaryFixed => rgb(0, 0, 0),
        Role::OnTertiaryFixedVariant => pick(dark, rgb(248, 194, 109), rgb(68, 42, 81)),
        Role::Error => error_rgb(seeds),
        Role::OnError => seed_or(seeds, Seed::OnError, pick(dark, rgb(65, 0, 2), rgb(255, 255, 255))),
        Role::ErrorContainer => derived(eh.h, 3000, pick_tone(dark, 3000, 9500)),
        Role::OnErrorContainer => pick(dark, rgb(255, 218, 214), rgb(65, 0, 2)),
        Role::Background => surface,
        Role::OnBackground => on_surface,
        Role::Surface => surface,
        Role::OnSurface => on_surface,
        Role::SurfaceVariant => match resolved(seeds, Seed::SurfaceVariant) {
            Some(h) => rgb_of_hex(h),
            None => derived(((sf.h + 1500) % 36000) as u32, 500, pick_tone(dark, 1000, 9400)),
        },
        Role::OnSurfaceVariant => if explicit_variant {
            seed_or(seeds, Seed::OnSurfaceVariant, pick(dark, rgb(196, 196, 196), rgb(73, 69, 79)))
        } else {
            pick(dark, rgb(196, 196, 196), rgb(73, 69, 79))
        },
        Role::SurfaceContainerLowest => derived(ph.h, 500, pick_tone(dark, 400, 10000)),
        Role::SurfaceContainerLow => derived(ph.h, 500, pick_tone(dark, 600, 9800)),
        Role::SurfaceContainer => derived(ph.h, 500, pick_tone(dark, 800, 9600)),
        Role::SurfaceContainerHigh => derived(ph.h, 500, pick_tone(dark, 1000, 9200)),
        Role::SurfaceContainerHighest => derived(ph.h, 500, pick_tone(dark, 1200, 8700)),
        Role::InverseSurface => derived(sf.h, sf.c as int, pick_tone(dark, 9000, 2000)),
        Role::InverseOnSurface => pick(dark, rgb(49, 48, 49), rgb(227, 225, 227)),
        Role::InversePrimary => pick(dark, rgb(98, 0, 238), rgb(187, 134, 252)),
        Role::SurfaceDim => derived(sf.h, sf.c as int, pick_tone(dark, 600, 8700)),
        Role::SurfaceBright => derived(sf.h, sf.c as int, pick_tone(dark, 2400, 10000)),
        Role::Outline => seed_or(seeds, Seed::Outline, derived(sf.h, 1000, pick_tone(dark, 6000, 5000))),
        Role::OutlineVariant => derived(sf.h, 500, pick_tone(dark, 3000, 8000)),
        Role::Shadow => seed_or(seeds, Seed::Shadow, rgb(0, 0, 0)),
        Role::Scrim => rgb(0, 0, 0),
    }
}

/// Every role of `p` holds the color that the seeds give it.
pub open spec fn synthesized(p: &Palette, seeds: &ThemeSeeds, dark: bool) -> bool {
    forall|r: Role| #[trigger] role_entry(p, r).is_format_of(role_color(seeds, dark, r))
}

fn derive(h: u32, c: u32, t: u32) -> (r: Rgb)
    requires
        h < 36000,
        t <= 10000,
    ensures
        r == derived(h, c as int, t as int),
{
    reveal(derived);
    hct_to_rgb(h, c, t)
}

fn pick_rgb(dark: bool, a: Rgb, b: Rgb) -> (r: Rgb)
    ensures
        r == pick(dark, a, b),
{
    if dark {
        a
    } else {
        b
    }
}

fn tone(dark: bool, a: u32, b: u32) -> (t: u32)
    ensures
        t as int == pick_tone(dark, a as int, b as int),
{
    if dark {
        a
    } else {
        b
    }
}

fn entry_of(c: Rgb) -> (e: ColorEntry)
    ensures
        e.default.is_format_of(c),
{
    ColorEntry { default: format_rgb(c) }
}

/// Synthesizes every role of one mode from a theme's seeds.
///
/// Fails with `MissingColor` when the theme has no primary seed (under
/// `primary` or `mPrimary`), else with `InvalidHex` when a seed it reads
/// is not a hex color; no partial palette is ever returned.
pub fn generate_palette(theme: &ThemeSeeds, is_dark_mode: bool, _is_strict: bool) -> (res: Result<
    Palette,
    ThemeError,
>)
    ensures
        res is Ok <==> resolved(theme, Seed::Primary) is Some && seeds_valid(theme),
        res is Err ==> (res->Err_0 == ThemeError::MissingColor <==> resolved(
            theme,
            Seed::Primary,
        ) is None),
        res is Err ==> res->Err_0 == ThemeError::MissingColor || res->Err_0
            == ThemeError::InvalidHex,
        res is Ok ==> synthesized(&res->Ok_0, theme, is_dark_mode),
{
    let dark = is_dark_mode;
    let primary_hex = match resolve(theme, Seed::Primary) {
        Some(h) => h,
        None => return Err(ThemeError::MissingColor),
    };
    let p = hex_to_rgb(primary_hex.as_str())?;
    let s = color_of_seed(theme, Seed::Secondary, p)?;
    let t = color_of_seed(theme, Seed::Tertiary, s)?;
    let e = color_of_seed(theme, Seed::Error, make_rgb(244, 67, 54))?;
    let ph = rgb_to_hct(p.r, p.g, p.b);
    let sh = rgb_to_hct(s.r, s.g, s.b);
    let th = rgb_to_hct(t.r, t.g, t.b);
    let eh = rgb_to_hct(e.r, e.g, e.b);
    let black = make_rgb(0, 0, 0);
    let text = pick_rgb(dark, make_rgb(255, 255, 255), black);
    let on_p = color_of_seed(theme, Seed::OnPrimary, text)?;
    let on_s = color_of_seed(theme, Seed::OnSecondary, text)?;
    let on_t = color_of_seed(theme, Seed::OnTertiary, text)?;
    let on_pc = color_of_seed(theme, Seed::OnPrimaryContainer, text)?;
    let surface_text = pick_rgb(dark, make_rgb(224, 224, 224), make_rgb(31, 31, 31));
    let (surface, on_surface, sf) = match resolve(theme, Seed::Surface) {
        Some(h) => {
            let c = hex_to_rgb(h.as_str())?;
            let on = color_of_seed(theme, Seed::OnSurface, surface_text)?;
            (c, on, rgb_to_hct(c.r, c.g, c.b))
        },
        None => {
            let x = Hct { h: ph.h, c: 500, t: tone(dark, 600, 9800) };
            (derive(x.h, x.c, x.t), surface_text, x)
        },
    };
    let variant_text = pick_rgb(dark, make_rgb(196, 196, 196), make_rgb(73, 69, 79));
    let (surface_variant, on_surface_variant) = match resolve(theme, Seed::SurfaceVariant) {
        Some(h) => {
            let c = hex_to_rgb(h.as_str())?;
            let on = color_of_seed(theme, Seed::OnSurfaceVariant, variant_text)?;
            (c, on)
        },
        None => (derive((sf.h + 1500) % 36000, 500, tone(dark, 1000, 9400)), variant_text),
    };
    let on_e = color_of_seed(
        theme,
        Seed::OnError,
        pick_rgb(dark, make_rgb(65, 0, 2), make_rgb(255, 255, 255)),
    )?;
    let outline = color_of_seed(theme, Seed::Outline, derive(sf.h, 1000, tone(dark, 6000, 5000)))?;
    let shadow = color_of_seed(theme, Seed::Shadow, black)?;
    let palette = Palette {
        primary: entry_of(p),
        on_primary: entry_of(on_p),
        primary_container: entry_of(derive(ph.h, ph.c * 2 / 5, tone(dark, 3000, 9000))),
        on_primary_container: entry_of(on_pc),
        primary_fixed: entry_of(derive(ph.h, ph.c * 9 / 10, 9000)),
        primary_fixed_dim: entry_of(derive(ph.h, ph.c * 7 / 10, 7500)),
        on_primary_fixed: entry_of(black),
        on_primary_fixed_variant: entry_of(
            pick_rgb(dark, make_rgb(154, 135, 255), make_rgb(67, 56, 157)),
        ),
        secondary: entry_of(s),
        on_secondary: entry_of(on_s),
        secondary_container: entry_of(derive(sh.h, sh.c * 2 / 5, tone(dark, 2000, 9500))),
        on_secondary_container: entry_of(text),
        secondary_fixed: entry_of(derive(sh.h, sh.c * 9 / 10, 9000)),
        secondary_fixed_dim: entry_of(derive(sh.h, sh.c * 7 / 10, 7500)),
        on_secondary_fixed: entry_of(black),
        on_secondary_fixed_variant: entry_of(
            pick_rgb(dark, make_rgb(103, 218, 255), make_rgb(0, 107, 96)),
        ),
        tertiary: entry_of(t),
        on_tertiary: entry_of(on_t),
        tertiary_container: entry_of(derive(th.h, th.c * 2 / 5, tone(dark, 2500, 9500))),
        on_tertiary_container: entry_of(text),
        tertiary_fixed: entry_of(derive(th.h, th.c * 9 / 10, 9000)),
        tertiary_fixed_dim: entry_of(derive(th.h, th.c * 7 / 10, 7500)),
        on_tertiary_fixed: entry_of(black),
        on_tertiary_fixed_variant: entry_of(
            pick_rgb(dark, make_rgb(248, 194, 109), make_rgb(68, 42, 81)),
        ),
        error: entry_of(e),
        on_error: entry_of(on_e),
        error_container: entry_of(derive(eh.h, 3000, tone(dark, 3000, 9500))),
        on_error_container: entry_of(pick_rgb(dark, make_rgb(255, 218, 214), make_rgb(65, 0, 2))),
        background: entry_of(surface),
        on_background: entry_of(on_surface),
        surface: entry_of(surface),
        on_surface: entry_of(on_surface),
        surface_variant: entry_of(surface_variant),
        on_surface_variant: entry_of(on_surface_variant),
        surface_container_lowest: entry_of(derive(ph.h, 500, tone(dark, 400, 10000))),
        surface_container_low: entry_of(derive(ph.h, 500, tone(dark, 600, 9800))),
        surface_container: entry_of(derive(ph.h, 500, tone(dark, 800, 9600))),
        surface_container_high: entry_of(derive(ph.h, 500, tone(dark, 1000, 9200))),
        surface_container_highest: entry_of(derive(ph.h, 500, tone(dark, 1200, 8700))),
        inverse_surface: entry_of(derive(sf.h, sf.c, tone(dark, 9000, 2000))),
        inverse_on_surface: entry_of(
            pick_rgb(dark, make_rgb(49, 48, 49), make_rgb(227, 225, 227)),
        ),
        inverse_primary: entry_of(pick_rgb(dark, make_rgb(98, 0, 238), make_rgb(187, 134, 252))),
        surface_dim: entry_of(derive(sf.h, sf.c, tone(dark, 600, 8700))),
        surface_bright: entry_of(derive(sf.h, sf.c, tone(dark, 2400, 10000))),
        outline: entry_of(outline),
        outline_variant: entry_of(derive(sf.h, 500, tone(dark, 3000, 8000))),
        shadow: entry_of(shadow),
        scrim: entry_of(black),
    };
    proof {
        assert forall|r: Role| #[trigger]
            role_entry(&palette, r).is_format_of(role_color(theme, dark, r)) by {
            match r {
                Role::Primary => {},
                Role::OnPrimary => {},
                Role::PrimaryContainer => {},
                Role::OnPrimaryContainer => {},
                Role::PrimaryFixed => {},
                Role::PrimaryFixedDim => {},
                Role::OnPrimaryFixed => {},
                Role::OnPrimaryFixedVariant => {},
                Role::Secondary => {},
                Role::OnSecondary => {},
                Role::SecondaryContainer => {},
                Role::OnSecondaryContainer => {},
                Role::SecondaryFixed => {},
                Role::SecondaryFixedDim => {},
                Role::OnSecondaryFixed => {},
                Role::OnSecondaryFixedVariant => {},
                Role::Tertiary => {},
                Role::OnTertiary => {},
                Role::TertiaryContainer => {},
                Role::OnTertiaryContainer => {},
                Role::TertiaryFixed => {},
                Role::TertiaryFixedDim => {},
                Role::OnTertiaryFixed => {},
                Role::OnTertiaryFixedVariant => {},
                Role::Error => {},
                Role::OnError => {},
                Role::ErrorContainer => {},
                Role::OnErrorContainer => {},
                Role::Background => {},
                Role::OnBackground => {},
                Role::Surface => {},
                Role::OnSurface => {},
                Role::SurfaceVariant => {},
                Role::OnSurfaceVariant => {},
                Role::SurfaceContainerLowest => {},
                Role::SurfaceContainerLow => {},
                Role::SurfaceContainer => {},
                Role::SurfaceContainerHigh => {},
                Role::SurfaceContainerHighest => {},
                Role::InverseSurface => {},
                Role::InverseOnSurface => {},
                Role::InversePrimary => {},
                Role::SurfaceDim => {},
                Role::SurfaceBright => {},
                Role::Outline => {},
                Role::OutlineVariant => {},
                Role::Shadow => {},
                Role::Scrim => {},
            }
        }
    }
    Ok(palette)
}

/// A container tone of a color: HSL lightness 20 points lower in dark
/// mode, 15 points higher in light mode.
pub fn generate_container_color(source_hex: &str, is_dark_mode: bool) -> (res: Result<
    String,
    ThemeError,
>)
    ensures
        res is Ok <==> is_hex_color(source_hex@),
        res is Ok ==> res->Ok_0@ == hex_of_rgb(
            lightness_adjusted(
                rgb_of_hex(source_hex@),
                if is_dark_mode {
                    -20
                } else {
                    15
                },
            ),
        ),
        res is Err ==> res->Err_0 == ThemeError::InvalidHex,
{
    crate::hsl::adjust_lightness(source_hex, if is_dark_mode { -20 } else { 15 })
}

/// A color with its hue turned by `hue_shift` degrees (brought back into one
/// turn) and its saturation moved by `saturation_change` points.
pub open spec fn harmonious(c: Rgb, hue_shift: int, saturation_change: int) -> Rgb {
    let x = hsl_of(c);
    rgb_of_hsl(
        (x.h + 100 * hue_shift) % 36000,
        clamp_spec(x.s + 100 * saturation_change, 0, 10000),
        x.l as int,
    )
}

/// `n` modulo 360, in `[0, 360)`.
fn degrees_mod(n: i64) -> (r: u32)
    ensures
        r as int == n as int % 360,
        r < 360,
{
    if n >= 0 {
        (n % 360) as u32
    } else {
        let a = ((-(n as i128)) % 360) as u32;
        if a == 0 {
            0
        } else {
            360 - a
        }
    }
}

/// A color related to a source by a hue turn and a saturation change.
pub fn generate_harmonious_color(source_hex: &str, hue_shift: i64, saturation_change: i64) -> (res:
    Result<ColorFormat, ThemeError>)
    ensures
        res is Ok <==> is_hex_color(source_hex@),
        res is Ok ==> res->Ok_0.is_format_of(
            harmonious(rgb_of_hex(source_hex@), hue_shift as int, saturation_change as int),
        ),
        res is Err ==> res->Err_0 == ThemeError::InvalidHex,
{
    let c = hex_to_rgb(source_hex)?;
    let x = rgb_to_hsl(c.r, c.g, c.b);
    let d = degrees_mod(hue_shift);
    let h = (x.h + 100 * d) % 36000;
    proof {
        let (xh, hs) = (x.h as int, hue_shift as int);
        assert((xh + 100 * (hs % 360)) % 36000 == (xh + 100 * hs) % 36000) by (nonlinear_arith);
    }
    let sc = crate::color::clamp(saturation_change, -100, 100);
    let s = crate::color::clamp(x.s as i64 + 100 * sc, 0, 10000) as u32;
    Ok(format_rgb(hsl_to_rgb(h, s, x.l)))
}

/// Text for a background: white (or `#e6e1e5` below `4.5:1`) where the
/// background is dark in dark mode or light in light mode, else black (or
/// `#1c1b1f`).
pub open spec fn contrast_text_of(c: Rgb, dark: bool) -> Rgb {
    let l = luminance_of(c);
    if (dark && l < LIGHT_THRESHOLD) || (!dark && l > LIGHT_THRESHOLD) {
        if contrast_of(l, WHITE_LUMINANCE as int) >= MIN_TEXT_CONTRAST {
            rgb(255, 255, 255)
        } else {
            rgb(230, 225, 229)
        }
    } else {
        if contrast_of(l, 0) >= MIN_TEXT_CONTRAST {
            rgb(0, 0, 0)
        } else {
            rgb(28, 27, 31)
        }
    }
}

/// A text color for a background, chosen by its luminance and the mode.
pub fn generate_contrast_color(background_hex: &str, is_dark_mode: bool) -> (res: Result<
    ColorFormat,
    ThemeError,
>)
    ensures
        res is Ok <==> is_hex_color(background_hex@),
        res is Ok ==> res->Ok_0.is_format_of(
            contrast_text_of(rgb_of_hex(background_hex@), is_dark_mode),
        ),
        res is Err ==> res->Err_0 == ThemeError::InvalidHex,
{
    let c = hex_to_rgb(background_hex)?;
    let l = luminance(c);
    let dark = is_dark_mode;
    let text = if (dark && l < LIGHT_THRESHOLD) || (!dark && l > LIGHT_THRESHOLD) {
        if contrast(l, WHITE_LUMINANCE) >= MIN_TEXT_CONTRAST {
            make_rgb(255, 255, 255)
        } else {
            make_rgb(230, 225, 229)
        }
    } else {
        if contrast(l, 0) >= MIN_TEXT_CONTRAST {
            make_rgb(0, 0, 0)
        } else {
            make_rgb(28, 27, 31)
        }
    };
    Ok(format_rgb(text))
}

} // verus!
