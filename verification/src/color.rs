//! RGBA colors and the background-override rule.
//!
//! The rendering configuration starts with a fixed sentinel background
//! color. After a theme is resolved, its declared background replaces the
//! configured one only while the configured value still equals that
//! sentinel: an explicitly chosen background always wins over the theme.

use vstd::prelude::*;

verus! {

/// An RGBA color with 8-bit channels.
#[derive(Clone, Copy, Debug, PartialEq, Eq, Structural)]
pub struct Rgba {
    pub r: u8,
    pub g: u8,
    pub b: u8,
    pub a: u8,
}

/// The sentinel default background: the fixed blue a fresh configuration
/// carries before anyone changed it.
pub open spec fn spec_sentinel() -> Rgba {
    Rgba { r: 0x42, g: 0x87, b: 0xf5, a: 255 }
}

/// The sentinel default background as an executable value.
pub fn sentinel_background() -> (c: Rgba)
    ensures
        c == spec_sentinel(),
{
    Rgba { r: 0x42, g: 0x87, b: 0xf5, a: 255 }
}

/// What the configured background becomes once a theme with the given
/// declared background has been resolved.
pub open spec fn spec_resolve_background(configured: Rgba, theme_bg: Option<Rgba>) -> Rgba {
    if configured == spec_sentinel() && theme_bg is Some {
        theme_bg->0
    } else {
        configured
    }
}

/// Applies the background-override rule: the theme's declared background
/// replaces the configured one exactly when the configured value still
/// equals the sentinel default and the theme declares a background.
pub fn resolve_background(configured: Rgba, theme_bg: Option<Rgba>) -> (c: Rgba)
    ensures
        c == spec_resolve_background(configured, theme_bg),
{
    if configured == sentinel_background() {
        match theme_bg {
            Some(bg) => bg,
            None => configured,
        }
    } else {
        configured
    }
}

/// An explicitly configured background is never overridden: whenever the
/// configured color differs from the sentinel, resolution leaves it
/// unchanged, whatever the theme declares.
pub proof fn lemma_user_background_wins(configured: Rgba, theme_bg: Option<Rgba>)
    requires
        configured != spec_sentinel(),
    ensures
        spec_resolve_background(configured, theme_bg) == configured,
{
}

/// A sentinel-valued configuration takes the theme's declared background
/// whenever the theme declares one.
pub proof fn lemma_theme_background_applies(theme_bg: Rgba)
    ensures
        spec_resolve_background(spec_sentinel(), Some(theme_bg)) == theme_bg,
{
}

} // verus!
