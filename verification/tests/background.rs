use sss_code::color::{resolve_background, sentinel_background, Rgba};

#[test]
fn sentinel_is_the_fixed_blue() {
    let s = sentinel_background();
    assert_eq!(s, Rgba { r: 0x42, g: 0x87, b: 0xf5, a: 255 });
}

#[test]
fn theme_background_replaces_sentinel() {
    let configured = sentinel_background();
    let theme_bg = Some(Rgba { r: 10, g: 20, b: 30, a: 255 });
    let out = resolve_background(configured, theme_bg);
    assert_eq!(out, Rgba { r: 10, g: 20, b: 30, a: 255 });
}

#[test]
fn explicit_background_is_kept() {
    let configured = Rgba { r: 1, g: 2, b: 3, a: 255 };
    let theme_bg = Some(Rgba { r: 10, g: 20, b: 30, a: 255 });
    let out = resolve_background(configured, theme_bg);
    assert_eq!(out, Rgba { r: 1, g: 2, b: 3, a: 255 });
}

#[test]
fn explicit_background_kept_without_theme_background() {
    let configured = Rgba { r: 9, g: 9, b: 9, a: 9 };
    assert_eq!(resolve_background(configured, None), configured);
}

#[test]
fn sentinel_kept_when_theme_declares_none() {
    let configured = sentinel_background();
    assert_eq!(resolve_background(configured, None), configured);
}
