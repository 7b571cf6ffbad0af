//! The whole pipeline on values: theme and mode to seeds, seeds to palette,
//! palette and template to output text.
use vstd::prelude::*;
use crate::error::ThemeError;
use crate::palette::{Seed, generate_palette, resolved, seeds_valid, synthesized};
use crate::template::{process_template, rendered};
use crate::theme::{Theme, effective_mode, select_theme_mode};

verus! {

/// The seeds a theme offers for `mode` (falling back on `dark`).
pub open spec fn mode_seeds(theme: &Theme, mode: Seq<char>) -> crate::theme::ThemeSeeds {
    theme.modes@[theme.mode_index(effective_mode(theme, mode)->0)].1
}

/// Renders a template with the palette that a theme gives in `mode`.
///
/// Fails with `ModeUnavailable` when the theme has neither `mode` nor
/// `dark`, else as the palette synthesis fails.
pub fn process_theme_workflow(theme: &Theme, template_content: &str, mode: &str) -> (res: Result<
    String,
    ThemeError,
>)
    ensures
        effective_mode(theme, mode@) is None ==> res == Err::<String, ThemeError>(
            ThemeError::ModeUnavailable,
        ),
        effective_mode(theme, mode@) is Some ==> {
            let seeds = mode_seeds(theme, mode@);
            let name = effective_mode(theme, mode@)->0;
            &&& (res is Ok <==> resolved(&seeds, Seed::Primary) is Some && seeds_valid(&seeds))
            &&& (res is Err ==> (res->Err_0 == ThemeError::MissingColor <==> resolved(
                &seeds,
                Seed::Primary,
            ) is None))
            &&& (res is Err ==> res->Err_0 == ThemeError::MissingColor || res->Err_0
                == ThemeError::InvalidHex)
            &&& (res is Ok ==> exists|p: crate::palette::Palette|
                synthesized(&p, &seeds, name == "dark"@) && res->Ok_0@ == rendered(
                    template_content@,
                    &p,
                    name,
                ))
        },
{
    let (seeds, effective) = select_theme_mode(theme, mode)?;
    let is_dark = effective == String::from_str("dark");
    let palette = generate_palette(seeds, is_dark, false)?;
    let out = process_template(template_content, &palette, effective.as_str());
    Ok(out)
}

} // verus!
