use sss_code::assets::{
    extend_syntaxes, fallback_to_default, load_syntax_set, load_theme_set, persist_syntax_set,
    persist_theme_set, syntax_set_from_blobs, theme_set_from_blobs,
};
use sss_code::cache::build_cache;
use sss_code::error::CodeError;
use sss_code::syntax::resolve_syntax;
use sss_code::theme::{resolve_named_theme, ResolvedTheme};
use syntect::highlighting::{Theme, ThemeSet};
use syntect::parsing::{SyntaxSet, SyntaxSetBuilder};

fn plain_text_set() -> SyntaxSet {
    let mut builder = SyntaxSetBuilder::new();
    builder.add_plain_text_syntax();
    builder.build()
}

#[test]
fn cached_value_is_preferred() {
    assert_eq!(fallback_to_default(Some(1u32), Some(2u32)), Ok(1u32));
}

#[test]
fn embedded_value_backs_a_missing_cache() {
    assert_eq!(fallback_to_default(None, Some(2u32)), Ok(2u32));
}

#[test]
fn both_tiers_missing_is_a_load_failure() {
    match fallback_to_default::<u32>(None, None) {
        Err(CodeError::AssetLoadFailure) => {}
        _ => panic!("both tiers empty must be a load failure"),
    }
}

#[test]
fn missing_cache_falls_back_to_embedded_bytes() {
    let set = plain_text_set();
    let embedded = syntect::dumps::dump_binary(&set);
    let loaded = load_syntax_set("/no/such/cache/dir", &embedded).unwrap();
    let syntax = resolve_syntax(&loaded, Some("txt"), "").unwrap();
    assert_eq!(sss_code::syntax::syntax_name(syntax), "Plain Text");
}

#[test]
fn corrupt_embedded_and_missing_cache_fail() {
    match load_syntax_set("/no/such/cache/dir", &[1, 2, 3]) {
        Err(CodeError::AssetLoadFailure) => {}
        _ => panic!("nothing decodable must be a load failure"),
    }
}

#[test]
fn missing_theme_cache_falls_back_to_embedded_bytes() {
    let mut ts = ThemeSet::new();
    ts.themes.insert("solarized".to_string(), Theme::default());
    let embedded = syntect::dumps::dump_binary(&ts);
    let loaded = load_theme_set("/no/such/cache/dir", &embedded).unwrap();
    match resolve_named_theme(&loaded, "solarized") {
        Ok(ResolvedTheme::Borrowed(_)) => {}
        _ => panic!("the embedded theme set must hold solarized"),
    }
}

#[test]
fn persisted_syntaxes_reload_from_the_cache_dir() {
    let set = plain_text_set();
    persist_syntax_set(&set, "/tmp").unwrap();
    let loaded = load_syntax_set("/tmp", &[]).unwrap();
    let syntax = resolve_syntax(&loaded, Some("txt"), "").unwrap();
    assert_eq!(sss_code::syntax::syntax_name(syntax), "Plain Text");
}

#[test]
fn persisted_themes_reload_from_the_cache_dir() {
    let mut ts = ThemeSet::new();
    ts.themes.insert("base16-ocean.dark".to_string(), Theme::default());
    persist_theme_set(&ts, "/tmp").unwrap();
    let loaded = load_theme_set("/tmp", &[]).unwrap();
    match resolve_named_theme(&loaded, "base16-ocean.dark") {
        Ok(ResolvedTheme::Borrowed(_)) => {}
        _ => panic!("the persisted theme must reload"),
    }
}

#[test]
fn unreadable_folder_is_a_folder_failure() {
    let set = plain_text_set();
    match extend_syntaxes(set, "/no/such/folder/of/syntaxes", "/tmp") {
        Err(CodeError::FolderLoadFailure) => {}
        _ => panic!("an unreadable folder must be a folder failure"),
    }
}

#[test]
fn unwritable_cache_dir_is_a_persist_failure() {
    let set = plain_text_set();
    match persist_syntax_set(&set, "/no/such/output/dir") {
        Err(CodeError::PersistFailure) => {}
        _ => panic!("an unwritable directory must be a persist failure"),
    }
}

#[test]
fn build_cache_without_source_folders_is_a_folder_failure() {
    let set = plain_text_set();
    let mut ts = ThemeSet::new();
    match build_cache(&set, &mut ts, "/no/such/source/dir", "/tmp") {
        Err(CodeError::FolderLoadFailure) => {}
        _ => panic!("a missing source directory must be a folder failure"),
    }
}

#[test]
fn extending_with_a_grammar_free_folder_keeps_the_set() {
    // The crate's own tests directory holds no grammar files, so the
    // merge walks it, adds nothing, and persists the unchanged set.
    let set = plain_text_set();
    let merged = extend_syntaxes(set, "tests", "/tmp").unwrap();
    let syntax = resolve_syntax(&merged, Some("txt"), "").unwrap();
    assert_eq!(sss_code::syntax::syntax_name(syntax), "Plain Text");
    let reloaded = load_syntax_set("/tmp", &[]).unwrap();
    let syntax = resolve_syntax(&reloaded, Some("txt"), "").unwrap();
    assert_eq!(sss_code::syntax::syntax_name(syntax), "Plain Text");
}

#[test]
fn cache_blob_is_preferred_over_embedded_blob() {
    let mut builder = SyntaxSetBuilder::new();
    builder.add_plain_text_syntax();
    let cached_set = builder.build();
    let embedded_set = SyntaxSet::new();
    let cache = syntect::dumps::dump_binary(&cached_set);
    let embedded = syntect::dumps::dump_binary(&embedded_set);
    let loaded = syntax_set_from_blobs(Some(&cache), &embedded).unwrap();
    let syntax = resolve_syntax(&loaded, Some("txt"), "").unwrap();
    assert_eq!(sss_code::syntax::syntax_name(syntax), "Plain Text");
}

#[test]
fn encoded_syntax_blob_reloads_the_same_names() {
    let set = plain_text_set();
    let bytes = syntect::dumps::dump_binary(&set);
    let loaded = syntax_set_from_blobs(Some(&bytes), &[]).unwrap();
    assert_eq!(
        loaded.syntaxes().iter().map(|s| s.name.clone()).collect::<Vec<_>>(),
        set.syntaxes().iter().map(|s| s.name.clone()).collect::<Vec<_>>(),
    );
}

#[test]
fn corrupt_cache_blob_falls_back_to_embedded_blob() {
    let set = plain_text_set();
    let embedded = syntect::dumps::dump_binary(&set);
    let loaded = syntax_set_from_blobs(Some(&[9, 9, 9]), &embedded).unwrap();
    let syntax = resolve_syntax(&loaded, Some("txt"), "").unwrap();
    assert_eq!(sss_code::syntax::syntax_name(syntax), "Plain Text");
}

#[test]
fn corrupt_blobs_on_both_tiers_fail() {
    match syntax_set_from_blobs(Some(&[9, 9, 9]), &[1, 2, 3]) {
        Err(CodeError::AssetLoadFailure) => {}
        _ => panic!("nothing decodable must be a load failure"),
    }
}

#[test]
fn theme_cache_blob_is_preferred_over_embedded_blob() {
    let mut cached = ThemeSet::new();
    cached.themes.insert("solarized".to_string(), Theme::default());
    let mut embedded = ThemeSet::new();
    embedded.themes.insert("other".to_string(), Theme::default());
    let cache_bytes = syntect::dumps::dump_binary(&cached);
    let embedded_bytes = syntect::dumps::dump_binary(&embedded);
    let loaded = theme_set_from_blobs(Some(&cache_bytes), &embedded_bytes).unwrap();
    assert!(loaded.themes.contains_key("solarized"));
    assert!(!loaded.themes.contains_key("other"));
}
