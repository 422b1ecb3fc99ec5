use sss_code::color::{sentinel_background, Rgba};
use sss_code::error::CodeError;
use sss_code::pipeline::{prepare_render, CodeConfig};
use sss_code::syntax::{first_line, resolve_syntax};
use sss_code::theme::{default_theme_name, resolve_named_theme, theme_choice, ResolvedTheme, ThemeTarget};
use syntect::highlighting::{Color, Theme, ThemeSet};
use syntect::parsing::SyntaxSet;

fn base_config() -> CodeConfig {
    CodeConfig {
        content: None,
        extension: None,
        theme: None,
        vim_theme: None,
        extra_syntaxes: None,
        list_themes: false,
        list_file_types: false,
        build_cache: None,
        output: String::new(),
        background: sentinel_background(),
    }
}

#[test]
fn first_line_stops_at_newline() {
    assert_eq!(first_line("#!/usr/bin/env python\nprint(1)"), "#!/usr/bin/env python");
    assert_eq!(first_line("no newline here"), "no newline here");
    assert_eq!(first_line(""), "");
    assert_eq!(first_line("\nrest"), "");
}

#[test]
fn extension_hint_resolves_rust() {
    let ss = SyntaxSet::load_defaults_newlines();
    let syntax = resolve_syntax(&ss, Some("rs"), "whatever content").unwrap();
    assert_eq!(sss_code::syntax::syntax_name(syntax), "Rust");
}

#[test]
fn first_line_resolves_python_shebang() {
    let ss = SyntaxSet::load_defaults_newlines();
    let syntax = resolve_syntax(&ss, None, "#!/usr/bin/env python\nprint(1)").unwrap();
    assert_eq!(sss_code::syntax::syntax_name(syntax), "Python");
}

#[test]
fn extension_hint_overrides_first_line() {
    let ss = SyntaxSet::load_defaults_newlines();
    let content = "#!/usr/bin/env python\nprint(1)";
    let syntax = resolve_syntax(&ss, Some("rs"), content).unwrap();
    assert_eq!(sss_code::syntax::syntax_name(syntax), "Rust");
}

#[test]
fn extension_lookup_ignores_ascii_case() {
    let ss = SyntaxSet::load_defaults_newlines();
    let syntax = resolve_syntax(&ss, Some("RS"), "").unwrap();
    assert_eq!(sss_code::syntax::syntax_name(syntax), "Rust");
}

#[test]
fn default_sets_carry_valid_first_line_patterns() {
    let ss = SyntaxSet::load_defaults_newlines();
    assert!(sss_code::syntax::syntax_patterns_valid(&ss));
    assert!(sss_code::syntax::syntax_patterns_valid(&SyntaxSet::new()));
}

#[test]
fn unknown_extension_reports_the_extension() {
    let ss = SyntaxSet::load_defaults_newlines();
    match resolve_syntax(&ss, Some("zz-no-such-ext"), "text") {
        Err(CodeError::SyntaxNotFound(q)) => assert_eq!(q, "zz-no-such-ext"),
        other => panic!("expected SyntaxNotFound, got {:?}", other.map(|_| ())),
    }
}

#[test]
fn unmatched_first_line_reports_the_line() {
    let ss = SyntaxSet::new();
    match resolve_syntax(&ss, None, "gibberish first line\nrest") {
        Err(CodeError::SyntaxNotFound(q)) => assert_eq!(q, "gibberish first line"),
        other => panic!("expected SyntaxNotFound, got {:?}", other.map(|_| ())),
    }
}

#[test]
fn vim_reference_short_circuits_the_name() {
    match theme_choice(Some("gruvbox"), Some("base16-ocean.dark")) {
        ThemeTarget::Vim(v) => assert_eq!(v, "gruvbox"),
        ThemeTarget::Named(_) => panic!("vim reference must win"),
    }
}

#[test]
fn configured_name_is_used_without_vim_reference() {
    match theme_choice(None, Some("solarized")) {
        ThemeTarget::Named(n) => assert_eq!(n, "solarized"),
        ThemeTarget::Vim(_) => panic!("no vim reference was configured"),
    }
}

#[test]
fn missing_name_falls_back_to_builtin_default() {
    assert_eq!(default_theme_name(), "base16-ocean.dark");
    match theme_choice(None, None) {
        ThemeTarget::Named(n) => assert_eq!(n, "base16-ocean.dark"),
        ThemeTarget::Vim(_) => panic!("no vim reference was configured"),
    }
}

#[test]
fn present_name_returns_the_set_entry_without_external_load() {
    let mut ts = ThemeSet::new();
    let mut theme = Theme::default();
    theme.settings.background = Some(Color { r: 10, g: 20, b: 30, a: 255 });
    ts.themes.insert("base16-ocean.dark".to_string(), theme);
    match resolve_named_theme(&ts, "base16-ocean.dark") {
        Ok(ResolvedTheme::Borrowed(t)) => {
            assert_eq!(t, ts.themes.get("base16-ocean.dark").unwrap());
        }
        _ => panic!("a present name must resolve from the set"),
    }
}

#[test]
fn absent_name_fails_with_the_name() {
    let ts = ThemeSet::new();
    match resolve_named_theme(&ts, "no-such-theme-anywhere") {
        Err(CodeError::ThemeLoadFailure(q)) => assert_eq!(q, "no-such-theme-anywhere"),
        _ => panic!("an absent name with no external file must fail"),
    }
}

#[test]
fn render_context_python_by_first_line() {
    let ss = SyntaxSet::load_defaults_newlines();
    let mut ts = ThemeSet::new();
    let mut theme = Theme::default();
    theme.settings.background = Some(Color { r: 10, g: 20, b: 30, a: 255 });
    ts.themes.insert("base16-ocean.dark".to_string(), theme);

    let mut cfg = base_config();
    cfg.content = Some("#!/usr/bin/env python\nprint(1)".to_string());
    let ctx = prepare_render(&ss, &ts, &cfg, None).unwrap();
    assert_eq!(sss_code::syntax::syntax_name(ctx.syntax), "Python");
    assert_eq!(ctx.background, Rgba { r: 10, g: 20, b: 30, a: 255 });
    assert_eq!(ctx.content, "#!/usr/bin/env python\nprint(1)");
}

#[test]
fn render_context_keeps_explicit_background() {
    let ss = SyntaxSet::load_defaults_newlines();
    let mut ts = ThemeSet::new();
    let mut theme = Theme::default();
    theme.settings.background = Some(Color { r: 10, g: 20, b: 30, a: 255 });
    ts.themes.insert("base16-ocean.dark".to_string(), theme);

    let mut cfg = base_config();
    cfg.content = Some("fn main() {}".to_string());
    cfg.extension = Some("rs".to_string());
    cfg.background = Rgba { r: 7, g: 7, b: 7, a: 255 };
    let ctx = prepare_render(&ss, &ts, &cfg, None).unwrap();
    assert_eq!(sss_code::syntax::syntax_name(ctx.syntax), "Rust");
    assert_eq!(ctx.background, Rgba { r: 7, g: 7, b: 7, a: 255 });
}

#[test]
fn vim_path_never_consults_the_theme_set() {
    let ss = SyntaxSet::load_defaults_newlines();
    let ts = ThemeSet::new();
    let mut cfg = base_config();
    cfg.content = Some("fn main() {}".to_string());
    cfg.extension = Some("rs".to_string());
    cfg.vim_theme = Some("gruvbox".to_string());
    let translated = Theme::default();
    let ctx = prepare_render(&ss, &ts, &cfg, Some(translated)).unwrap();
    match ctx.theme {
        ResolvedTheme::Loaded(_) => {}
        ResolvedTheme::Borrowed(_) => panic!("the vim path must not borrow from the set"),
    }
}

#[test]
fn missing_content_is_fatal() {
    let ss = SyntaxSet::load_defaults_newlines();
    let ts = ThemeSet::new();
    let cfg = base_config();
    match prepare_render(&ss, &ts, &cfg, None) {
        Err(CodeError::ContentUnavailable) => {}
        _ => panic!("missing content must abort"),
    }
}
