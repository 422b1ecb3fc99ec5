//! The orchestrator: configuration, run-mode selection, and the
//! assembly of the rendering context.
//!
//! One invocation selects its run mode once, up front: a list mode, the
//! build-cache mode, or the render path. The render path obtains the
//! content, resolves exactly one syntax and one theme, applies the
//! background-override rule, and hands a fully resolved context to the
//! external renderer.

use vstd::prelude::*;
use vstd::string::StringExecFns;

use crate::color::Rgba;
use crate::color::spec_resolve_background;
use crate::error::CodeError;
use crate::syntax::resolve_syntax;
use crate::syntax::spec_hint;
use crate::syntax::syntax_patterns_valid;
use crate::syntax::spec_query;
use crate::syntax::spec_resolved_syntax;
use crate::syntect_api::first_line_patterns_ok;
use crate::syntect_api::syntax_ref_name;
use crate::syntect_api::theme_bg_map;
use crate::syntect_api::theme_background;
use crate::theme::ResolvedTheme;
use crate::theme::ThemeTarget;
use crate::theme::apply_theme_background;
use crate::theme::resolve_named_theme;
use crate::theme::spec_declared_background;
use crate::theme::spec_theme_name;
use crate::theme::theme_choice;

verus! {

/// The user configuration the pipeline consumes: what to render, which
/// hints and names to resolve by, which mode to run in, and the
/// configured rendering background.
pub struct CodeConfig {
    /// The content to render, where the content source produced any.
    pub content: Option<String>,
    /// An explicit file-extension hint for syntax resolution.
    pub extension: Option<String>,
    /// The configured theme name.
    pub theme: Option<String>,
    /// A vim-theme reference for the external translator.
    pub vim_theme: Option<String>,
    /// A folder of extra grammars to merge into the syntax set.
    pub extra_syntaxes: Option<String>,
    /// List the theme set's names and stop.
    pub list_themes: bool,
    /// List each syntax's name and extensions and stop.
    pub list_file_types: bool,
    /// Build the cache from this source directory and terminate.
    pub build_cache: Option<String>,
    /// The output directory of the build-cache mode.
    pub output: String,
    /// The configured rendering background.
    pub background: Rgba,
}

/// The mode an invocation runs in, selected once before any
/// rendering-path state is constructed.
#[derive(Clone, Copy, Debug, PartialEq, Eq, Structural)]
pub enum RunMode {
    /// Print the theme names and stop.
    ListThemes,
    /// Print the file-type lines and stop.
    ListFileTypes,
    /// Merge and serialize the sets, then terminate the process.
    BuildCache,
    /// Resolve a syntax and a theme and render.
    Render,
}

/// The mode the configuration selects, in priority order: list-themes,
/// then list-file-types, then build-cache, else the render path.
pub open spec fn spec_run_mode(cfg: CodeConfig) -> RunMode {
    if cfg.list_themes {
        RunMode::ListThemes
    } else if cfg.list_file_types {
        RunMode::ListFileTypes
    } else if cfg.build_cache is Some {
        RunMode::BuildCache
    } else {
        RunMode::Render
    }
}

/// Selects the run mode, in priority order: list-themes, then
/// list-file-types, then build-cache, else the render path.
pub fn select_mode(cfg: &CodeConfig) -> (m: RunMode)
    ensures
        m == spec_run_mode(*cfg),
{
    if cfg.list_themes {
        RunMode::ListThemes
    } else if cfg.list_file_types {
        RunMode::ListFileTypes
    } else if cfg.build_cache.is_some() {
        RunMode::BuildCache
    } else {
        RunMode::Render
    }
}

/// The configured content, or the fatal error of a content source that
/// produced nothing.
pub fn content_or_error(cfg: &CodeConfig) -> (r: Result<String, CodeError>)
    ensures
        cfg.content matches Some(c) ==> (r matches Ok(s) && s@ == c@),
        cfg.content is None ==> r == Err::<String, CodeError>(CodeError::ContentUnavailable),
{
    match &cfg.content {
        Some(c) => Ok(c.clone()),
        None => Err(CodeError::ContentUnavailable),
    }
}

/// The fixed subpath of the platform cache directory that holds the two
/// blob files.
pub open spec fn spec_cache_subdir() -> Seq<char> {
    "/sss"@
}

/// Relies on directories::BaseDirs::new and BaseDirs::cache_dir: the
/// platform's cache directory for the current user. The result depends
/// on the environment, so nothing more is stated.
#[verifier::external_body]
fn platform_cache_dir() -> Option<String> {
    directories::BaseDirs::new().map(|d| d.cache_dir().to_string_lossy().into_owned())
}

/// The cache directory this pipeline uses: the platform cache directory
/// with the fixed subpath appended, where the platform names one.
pub fn resolve_cache_dir() -> (r: Option<String>)
    ensures
        r matches Some(p) ==> exists|base: Seq<char>| p@ == base + spec_cache_subdir(),
{
    match platform_cache_dir() {
        Some(base) => {
            let ghost b = base@;
            let mut p = base;
            p.append("/sss");
            proof {
                assert(p@ == b + spec_cache_subdir());
            }
            Some(p)
        },
        None => None,
    }
}

/// The fully resolved rendering context, assembled once and handed to
/// the external renderer exactly once.
pub struct RenderContext<'a> {
    /// The one syntax resolution picked.
    pub syntax: &'a syntect::parsing::SyntaxReference,
    /// The one theme resolution picked.
    pub theme: ResolvedTheme<'a>,
    /// The content to render.
    pub content: String,
    /// The rendering background after the override rule.
    pub background: Rgba,
}

/// The view of an optional configured string.
pub open spec fn spec_opt_view(o: Option<String>) -> Option<Seq<char>> {
    match o {
        Some(s) => Some(s@),
        None => None,
    }
}

/// Assembles the rendering context: obtains the content, resolves the
/// syntax by hint or first line, resolves the theme — the translated
/// vim theme where one is configured, never consulting the set; else
/// the resolved name, from the set where present, else the external
/// file — and applies the background-override rule.
///
/// Without an extension hint the first-line patterns of the set are
/// matched, which demands that they all compile; a set carrying an
/// invalid one (possible only for a foreign dump) is rejected as an
/// asset-load failure rather than consulted.
///
/// The translated vim theme is passed in by the caller, who runs the
/// external translator exactly when a vim-theme reference is
/// configured.
pub fn prepare_render<'a>(
    ss: &'a syntect::parsing::SyntaxSet,
    ts: &'a syntect::highlighting::ThemeSet,
    cfg: &CodeConfig,
    vim_theme: Option<syntect::highlighting::Theme>,
) -> (r: Result<RenderContext<'a>, CodeError>)
    requires
        cfg.vim_theme is Some <==> vim_theme is Some,
    ensures
        r matches Ok(ctx) ==> {
            &&& cfg.content is Some
            &&& ctx.content@ == cfg.content->0@
            &&& spec_resolved_syntax(*ss, spec_opt_view(cfg.extension), cfg.content->0@) is Some
            &&& syntax_ref_name(*ctx.syntax) == spec_resolved_syntax(
                *ss,
                spec_opt_view(cfg.extension),
                cfg.content->0@,
            )->0
            &&& ctx.background == spec_resolve_background(
                cfg.background,
                spec_declared_background(ctx.theme.spec_background()),
            )
            &&& (vim_theme matches Some(t) ==> ctx.theme == ResolvedTheme::Loaded(t))
            &&& (cfg.vim_theme is None && theme_bg_map(*ts).dom().contains(
                spec_theme_name(spec_opt_view(cfg.theme)),
            ) ==> (ctx.theme matches ResolvedTheme::Borrowed(th) && theme_background(*th)
                == theme_bg_map(*ts)[spec_theme_name(spec_opt_view(cfg.theme))]))
            &&& (cfg.vim_theme is None && !theme_bg_map(*ts).dom().contains(
                spec_theme_name(spec_opt_view(cfg.theme)),
            ) ==> ctx.theme matches ResolvedTheme::Loaded(_))
        },
        cfg.content is None <==> r == Err::<RenderContext<'a>, CodeError>(
            CodeError::ContentUnavailable,
        ),
        r == Err::<RenderContext<'a>, CodeError>(CodeError::AssetLoadFailure) <==> (cfg.content
            is Some && cfg.extension is None && !first_line_patterns_ok(*ss)),
        r matches Err(CodeError::SyntaxNotFound(q)) ==> {
            &&& cfg.content is Some
            &&& spec_resolved_syntax(*ss, spec_opt_view(cfg.extension), cfg.content->0@) is None
            &&& q@ == spec_query(spec_opt_view(cfg.extension), cfg.content->0@)
        },
        cfg.content is Some && (cfg.extension is Some || first_line_patterns_ok(*ss))
            && spec_resolved_syntax(*ss, spec_opt_view(cfg.extension), cfg.content->0@) is None
            ==> (r matches Err(CodeError::SyntaxNotFound(q)) && q@ == spec_query(
            spec_opt_view(cfg.extension),
            cfg.content->0@,
        )),
        r matches Err(CodeError::ThemeLoadFailure(q)) ==> {
            &&& cfg.vim_theme is None
            &&& !theme_bg_map(*ts).dom().contains(spec_theme_name(spec_opt_view(cfg.theme)))
            &&& q@ == spec_theme_name(spec_opt_view(cfg.theme))
        },
        cfg.content is Some && (cfg.extension is Some || first_line_patterns_ok(*ss))
            && spec_resolved_syntax(*ss, spec_opt_view(cfg.extension), cfg.content->0@) is Some
            && (cfg.vim_theme is Some || theme_bg_map(*ts).dom().contains(
            spec_theme_name(spec_opt_view(cfg.theme)),
        )) ==> r is Ok,
{
    let content = match content_or_error(cfg) {
        Ok(c) => c,
        Err(e) => {
            return Err(e);
        },
    };
    let hint = match &cfg.extension {
        Some(e) => Some(e.as_str()),
        None => None,
    };
    proof {
        assert(spec_hint(hint) == spec_opt_view(cfg.extension));
    }
    if hint.is_none() && !syntax_patterns_valid(ss) {
        return Err(CodeError::AssetLoadFailure);
    }
    let syntax = match resolve_syntax(ss, hint, content.as_str()) {
        Ok(s) => s,
        Err(e) => {
            return Err(e);
        },
    };
    let target = theme_choice(
        match &cfg.vim_theme {
            Some(v) => Some(v.as_str()),
            None => None,
        },
        match &cfg.theme {
            Some(t) => Some(t.as_str()),
            None => None,
        },
    );
    let theme = match (target, vim_theme) {
        (ThemeTarget::Vim(_), Some(t)) => ResolvedTheme::Loaded(t),
        (ThemeTarget::Named(name), _) => match resolve_named_theme(ts, name.as_str()) {
            Ok(t) => t,
            Err(e) => {
                return Err(e);
            },
        },
        // a vim reference comes with its translated theme, so this
        // pairing cannot arise
        (ThemeTarget::Vim(_), None) => vstd::pervasive::unreached(),
    };
    let background = apply_theme_background(cfg.background, theme.theme());
    Ok(RenderContext { syntax, theme, content, background })
}

} // verus!
