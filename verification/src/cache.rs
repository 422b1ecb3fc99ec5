//! The build-cache batch mode.
//!
//! Merges the theme and syntax definitions found under a source
//! directory's `themes/` and `syntaxes/` subfolders into the loaded
//! sets and serializes both results into an output directory. The
//! process terminates right after a successful build; that exit belongs
//! to the caller, not to this library.

use vstd::prelude::*;
use vstd::string::StringExecFns;

use crate::assets::persist_syntax_set;
use crate::assets::persist_theme_set;
use crate::error::CodeError;
use crate::syntect_api::builder_add_from_folder;
use crate::syntect_api::builder_build;
use crate::syntect_api::clone_syntax_set;
use crate::syntect_api::contexts_intact;
use crate::syntect_api::set_into_builder;
use crate::syntect_api::syntax_names;
use crate::syntect_api::theme_bg_map;
use crate::syntect_api::theme_set_add_from_folder;

verus! {

/// Builds the cache: adds `source_dir/themes` into the theme set, adds
/// `source_dir/syntaxes` into a builder seeded from a copy of the
/// syntax set, and serializes both results into `output_dir`. Neither
/// merge loses anything: the prior syntax names stay a prefix of the
/// result's, and every prior theme name is still present. Failure is a
/// folder failure or a persist failure, nothing else. Seeding the
/// builder deserializes the copied set's context data, so the set's
/// contexts must be intact; the merged set's are, being freshly built.
pub fn build_cache(
    ss: &syntect::parsing::SyntaxSet,
    ts: &mut syntect::highlighting::ThemeSet,
    source_dir: &str,
    output_dir: &str,
) -> (r: Result<syntect::parsing::SyntaxSet, CodeError>)
    requires
        contexts_intact(*ss),
    ensures
        r is Ok ==> contexts_intact(r->Ok_0),
        forall|n: Seq<char>|
            theme_bg_map(*old(ts)).dom().contains(n) ==> theme_bg_map(
                *final(ts),
            ).dom().contains(n),
        r is Ok ==> syntax_names(*ss).is_prefix_of(syntax_names(r->Ok_0)),
        r is Err ==> r == Err::<syntect::parsing::SyntaxSet, CodeError>(
            CodeError::FolderLoadFailure,
        ) || r == Err::<syntect::parsing::SyntaxSet, CodeError>(CodeError::PersistFailure),
{
    let mut themes_folder = source_dir.to_owned();
    themes_folder.append("/themes");
    if theme_set_add_from_folder(ts, themes_folder.as_str()).is_none() {
        return Err(CodeError::FolderLoadFailure);
    }

    let mut syntaxes_folder = source_dir.to_owned();
    syntaxes_folder.append("/syntaxes");
    let mut builder = set_into_builder(clone_syntax_set(ss));
    if builder_add_from_folder(&mut builder, syntaxes_folder.as_str()).is_none() {
        return Err(CodeError::FolderLoadFailure);
    }
    let merged = builder_build(builder);

    if persist_theme_set(ts, output_dir).is_err() {
        return Err(CodeError::PersistFailure);
    }
    if persist_syntax_set(&merged, output_dir).is_err() {
        return Err(CodeError::PersistFailure);
    }
    Ok(merged)
}

} // verus!
