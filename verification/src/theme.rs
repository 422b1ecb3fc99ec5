//! Picking exactly one color theme for an invocation.
//!
//! Priority order, first applicable wins: a vim-theme reference goes
//! straight to the external vim-colorscheme translator and never
//! consults the theme set; otherwise the configured name — or the fixed
//! built-in default — is looked up in the set; a name the set lacks is
//! loaded from an external theme-definition file, and that load failing
//! is fatal. Afterwards the background-override rule of [`crate::color`]
//! applies.

use vstd::prelude::*;

use crate::color::Rgba;
use crate::color::resolve_background;
use crate::color::spec_resolve_background;
use crate::error::CodeError;
use crate::syntect_api::background_of;
use crate::syntect_api::load_theme_file;
use crate::syntect_api::theme_background;
use crate::syntect_api::theme_bg_map;
use crate::syntect_api::theme_set_get;

verus! {

/// Where the theme is to come from: the vim-colorscheme translator, or
/// a name to look up in the theme set.
pub enum ThemeTarget {
    /// Hand this vim-theme reference to the external translator; the
    /// theme set plays no part.
    Vim(String),
    /// Look this name up in the theme set.
    Named(String),
}

/// The built-in theme name used when none is configured.
pub open spec fn spec_default_theme() -> Seq<char> {
    "base16-ocean.dark"@
}

/// The built-in theme name used when none is configured.
pub fn default_theme_name() -> (s: String)
    ensures
        s@ == spec_default_theme(),
{
    "base16-ocean.dark".to_owned()
}

/// The name a lookup resolves: the configured one, or the built-in
/// default where none is configured.
pub open spec fn spec_theme_name(theme: Option<Seq<char>>) -> Seq<char> {
    match theme {
        Some(n) => n,
        None => spec_default_theme(),
    }
}

/// Decides where the theme comes from. A vim-theme reference wins
/// outright and short-circuits every lookup — this decision does not
/// even take the theme set. Otherwise the configured name, defaulted
/// where unspecified, is to be looked up.
pub fn theme_choice(vim_theme: Option<&str>, theme: Option<&str>) -> (r: ThemeTarget)
    ensures
        vim_theme is Some ==> (r matches ThemeTarget::Vim(v) && v@ == vim_theme->0@),
        vim_theme is None ==> (r matches ThemeTarget::Named(n) && n@ == spec_theme_name(
            match theme {
                Some(t) => Some(t@),
                None => None,
            },
        )),
{
    match vim_theme {
        Some(v) => ThemeTarget::Vim(v.to_owned()),
        None => match theme {
            Some(t) => ThemeTarget::Named(t.to_owned()),
            None => ThemeTarget::Named(default_theme_name()),
        },
    }
}

/// A resolved theme: borrowed from the theme set, or owned after an
/// external load.
pub enum ResolvedTheme<'a> {
    /// The theme the set holds under the resolved name.
    Borrowed(&'a syntect::highlighting::Theme),
    /// A theme loaded from an external definition file.
    Loaded(syntect::highlighting::Theme),
}

impl<'a> ResolvedTheme<'a> {
    /// The background the resolved theme declares.
    pub open spec fn spec_background(self) -> Option<(u8, u8, u8, u8)> {
        match self {
            ResolvedTheme::Borrowed(t) => theme_background(*t),
            ResolvedTheme::Loaded(t) => theme_background(t),
        }
    }

    /// The resolved theme itself, wherever it came from.
    pub fn theme(&self) -> (t: &syntect::highlighting::Theme)
        ensures
            theme_background(*t) == self.spec_background(),
    {
        match self {
            ResolvedTheme::Borrowed(t) => t,
            ResolvedTheme::Loaded(t) => t,
        }
    }
}

/// Looks the resolved name up in the theme set. A name the set holds
/// returns that exact entry, with no external load attempted; only a
/// name the set lacks goes to the external theme-definition file, whose
/// failure is the fatal theme-load error, carrying the name.
pub fn resolve_named_theme<'a>(
    ts: &'a syntect::highlighting::ThemeSet,
    name: &str,
) -> (r: Result<ResolvedTheme<'a>, CodeError>)
    ensures
        theme_bg_map(*ts).dom().contains(name@) ==> (r matches Ok(t) && t matches
            ResolvedTheme::Borrowed(th) && theme_background(*th) == theme_bg_map(*ts)[name@]),
        !theme_bg_map(*ts).dom().contains(name@) ==> (r matches Ok(t) && t matches
            ResolvedTheme::Loaded(_) || (r matches Err(CodeError::ThemeLoadFailure(q)) && q@
                == name@)),
{
    match theme_set_get(ts, name) {
        Some(t) => Ok(ResolvedTheme::Borrowed(t)),
        None => match load_theme_file(name) {
            Some(t) => Ok(ResolvedTheme::Loaded(t)),
            None => Err(CodeError::ThemeLoadFailure(name.to_owned())),
        },
    }
}

/// The (r, g, b, a) tuple a theme declares, as a color value.
pub open spec fn spec_rgba(c: (u8, u8, u8, u8)) -> Rgba {
    Rgba { r: c.0, g: c.1, b: c.2, a: c.3 }
}

/// The background a theme declares, as a color value.
pub open spec fn spec_declared_background(bg: Option<(u8, u8, u8, u8)>) -> Option<Rgba> {
    match bg {
        Some(c) => Some(spec_rgba(c)),
        None => None,
    }
}

/// Reads the background the theme declares.
pub fn declared_background(t: &syntect::highlighting::Theme) -> (r: Option<Rgba>)
    ensures
        r == spec_declared_background(theme_background(*t)),
{
    match background_of(t) {
        Some(c) => Some(Rgba { r: c.0, g: c.1, b: c.2, a: c.3 }),
        None => None,
    }
}

/// Applies the background-override rule for the resolved theme: the
/// theme's declared background replaces the configured one exactly when
/// the configured value still equals the sentinel default.
pub fn apply_theme_background(configured: Rgba, t: &syntect::highlighting::Theme) -> (c: Rgba)
    ensures
        c == spec_resolve_background(
            configured,
            spec_declared_background(theme_background(*t)),
        ),
{
    let bg = declared_background(t);
    resolve_background(configured, bg)
}

} // verus!
