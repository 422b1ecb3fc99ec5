//! Loading, merging and persisting the definition sets.
//!
//! Sets come from a two-tier source: a blob file in the cache directory,
//! falling back to an embedded default blob when the file is missing or
//! corrupt. A folder of extra grammars can be merged in through the
//! set's builder; the merged set is persisted back to the cache
//! directory, never losing a previously held grammar.

use vstd::prelude::*;
use vstd::string::StringExecFns;

use crate::error::CodeError;
use crate::syntect_api::builder_add_from_folder;
use crate::syntect_api::builder_build;
use crate::syntect_api::builder_names;
use crate::syntect_api::contexts_intact;
use crate::syntect_api::decode_syntax_set;
use crate::syntect_api::decode_theme_set;
use crate::syntect_api::decoded_syntax_names;
use crate::syntect_api::decoded_theme_map;
use crate::syntect_api::read_syntax_dump;
use crate::syntect_api::read_theme_dump;
use crate::syntect_api::set_into_builder;
use crate::syntect_api::syntax_names;
use crate::syntect_api::theme_bg_map;
use crate::syntect_api::write_syntax_dump;
use crate::syntect_api::write_theme_dump;

verus! {

/// The blob file a syntax set is cached in, under a cache directory.
pub open spec fn spec_syntaxes_file(dir: Seq<char>) -> Seq<char> {
    dir + "/syntaxes.bin"@
}

/// The blob file a theme set is cached in, under a cache directory.
pub open spec fn spec_themes_file(dir: Seq<char>) -> Seq<char> {
    dir + "/themes.bin"@
}

/// The path of the syntax blob file under the given directory.
pub fn syntaxes_file(dir: &str) -> (p: String)
    ensures
        p@ == spec_syntaxes_file(dir@),
{
    let mut p = dir.to_owned();
    p.append("/syntaxes.bin");
    p
}

/// The path of the theme blob file under the given directory.
pub fn themes_file(dir: &str) -> (p: String)
    ensures
        p@ == spec_themes_file(dir@),
{
    let mut p = dir.to_owned();
    p.append("/themes.bin");
    p
}

/// The two-tier choice: the cached value where the cache decoded, else
/// the embedded default where that decoded, else a load failure. The
/// embedded tier is consulted only when the cache tier yielded nothing.
pub fn fallback_to_default<T>(cached: Option<T>, embedded: Option<T>) -> (r: Result<T, CodeError>)
    ensures
        cached is Some ==> r == Ok::<T, CodeError>(cached->0),
        cached is None && embedded is Some ==> r == Ok::<T, CodeError>(embedded->0),
        cached is None && embedded is None ==> r == Err::<T, CodeError>(
            CodeError::AssetLoadFailure,
        ),
{
    match cached {
        Some(v) => Ok(v),
        None => match embedded {
            Some(v) => Ok(v),
            None => Err(CodeError::AssetLoadFailure),
        },
    }
}

/// The two-tier load over in-memory blobs, every outcome pinned: the
/// cache blob's set where those bytes decode, else the embedded default
/// bytes' set where those decode, else the load failure — and nothing
/// else.
pub fn syntax_set_from_blobs(cache: Option<&[u8]>, embedded: &[u8]) -> (r: Result<
    syntect::parsing::SyntaxSet,
    CodeError,
>)
    ensures
        cache is Some && decoded_syntax_names(cache->0@) is Some ==> r is Ok && syntax_names(
            r->Ok_0,
        ) == decoded_syntax_names(cache->0@)->0,
        (cache is None || decoded_syntax_names(cache->0@) is None) && decoded_syntax_names(
            embedded@,
        ) is Some ==> r is Ok && syntax_names(r->Ok_0) == decoded_syntax_names(embedded@)->0,
        r is Err <==> ((cache is None || decoded_syntax_names(cache->0@) is None)
            && decoded_syntax_names(embedded@) is None),
        r is Err ==> r == Err::<syntect::parsing::SyntaxSet, CodeError>(
            CodeError::AssetLoadFailure,
        ),
{
    let cached = match cache {
        Some(bytes) => decode_syntax_set(bytes),
        None => None,
    };
    match cached {
        Some(ss) => Ok(ss),
        None => fallback_to_default(None, decode_syntax_set(embedded)),
    }
}

/// The two-tier load over in-memory blobs, every outcome pinned: the
/// cache blob's set where those bytes decode, else the embedded default
/// bytes' set where those decode, else the load failure — and nothing
/// else.
pub fn theme_set_from_blobs(cache: Option<&[u8]>, embedded: &[u8]) -> (r: Result<
    syntect::highlighting::ThemeSet,
    CodeError,
>)
    ensures
        cache is Some && decoded_theme_map(cache->0@) is Some ==> r is Ok && theme_bg_map(r->Ok_0)
            == decoded_theme_map(cache->0@)->0,
        (cache is None || decoded_theme_map(cache->0@) is None) && decoded_theme_map(
            embedded@,
        ) is Some ==> r is Ok && theme_bg_map(r->Ok_0) == decoded_theme_map(embedded@)->0,
        r is Err <==> ((cache is None || decoded_theme_map(cache->0@) is None) && decoded_theme_map(
            embedded@,
        ) is None),
        r is Err ==> r == Err::<syntect::highlighting::ThemeSet, CodeError>(
            CodeError::AssetLoadFailure,
        ),
{
    let cached = match cache {
        Some(bytes) => decode_theme_set(bytes),
        None => None,
    };
    match cached {
        Some(ts) => Ok(ts),
        None => fallback_to_default(None, decode_theme_set(embedded)),
    }
}

/// Loads the syntax set from the cache directory's blob file, falling
/// back to the embedded default bytes. The file is read and decoded on
/// disk behind a contract-free wrapper, so only the embedded tier is
/// pinned here: a decodable embedded default makes success certain, and
/// an error can only mean both tiers failed to decode. The blob-level
/// sibling [`syntax_set_from_blobs`] pins every outcome.
pub fn load_syntax_set(cache_dir: &str, embedded: &[u8]) -> (r: Result<
    syntect::parsing::SyntaxSet,
    CodeError,
>)
    ensures
        decoded_syntax_names(embedded@) is Some ==> r is Ok,
        r is Err ==> r == Err::<syntect::parsing::SyntaxSet, CodeError>(
            CodeError::AssetLoadFailure,
        ),
{
    let path = syntaxes_file(cache_dir);
    match read_syntax_dump(path.as_str()) {
        Some(ss) => Ok(ss),
        None => syntax_set_from_blobs(None, embedded),
    }
}

/// Loads the theme set from the cache directory's blob file, falling
/// back to the embedded default bytes. The file is read and decoded on
/// disk behind a contract-free wrapper, so only the embedded tier is
/// pinned here: a decodable embedded default makes success certain, and
/// an error can only mean both tiers failed to decode. The blob-level
/// sibling [`theme_set_from_blobs`] pins every outcome.
pub fn load_theme_set(cache_dir: &str, embedded: &[u8]) -> (r: Result<
    syntect::highlighting::ThemeSet,
    CodeError,
>)
    ensures
        decoded_theme_map(embedded@) is Some ==> r is Ok,
        r is Err ==> r == Err::<syntect::highlighting::ThemeSet, CodeError>(
            CodeError::AssetLoadFailure,
        ),
{
    let path = themes_file(cache_dir);
    match read_theme_dump(path.as_str()) {
        Some(ts) => Ok(ts),
        None => theme_set_from_blobs(None, embedded),
    }
}

/// Persists a syntax set to the cache directory's blob file.
pub fn persist_syntax_set(ss: &syntect::parsing::SyntaxSet, dir: &str) -> (r: Result<
    (),
    CodeError,
>)
    ensures
        r is Err ==> r == Err::<(), CodeError>(CodeError::PersistFailure),
{
    let path = syntaxes_file(dir);
    match write_syntax_dump(ss, path.as_str()) {
        Some(_) => Ok(()),
        None => Err(CodeError::PersistFailure),
    }
}

/// Persists a theme set to a blob file under the given directory.
pub fn persist_theme_set(ts: &syntect::highlighting::ThemeSet, dir: &str) -> (r: Result<
    (),
    CodeError,
>)
    ensures
        r is Err ==> r == Err::<(), CodeError>(CodeError::PersistFailure),
{
    let path = themes_file(dir);
    match write_theme_dump(ts, path.as_str()) {
        Some(_) => Ok(()),
        None => Err(CodeError::PersistFailure),
    }
}

/// Merges the grammars of a folder into the set and persists the merge
/// to the cache directory. The merge is monotonic: the prior names stay
/// a prefix of the merged set's names. Failure is a folder failure or a
/// persist failure, nothing else. Seeding the builder deserializes the
/// set's context data, so the set's contexts must be intact; the merged
/// set's are, being freshly built.
pub fn extend_syntaxes(
    ss: syntect::parsing::SyntaxSet,
    folder: &str,
    cache_dir: &str,
) -> (r: Result<syntect::parsing::SyntaxSet, CodeError>)
    requires
        contexts_intact(ss),
    ensures
        r is Ok ==> contexts_intact(r->Ok_0),
        r is Ok ==> syntax_names(ss).is_prefix_of(syntax_names(r->Ok_0)),
        r is Err ==> r == Err::<syntect::parsing::SyntaxSet, CodeError>(
            CodeError::FolderLoadFailure,
        ) || r == Err::<syntect::parsing::SyntaxSet, CodeError>(CodeError::PersistFailure),
{
    let mut builder = set_into_builder(ss);
    if builder_add_from_folder(&mut builder, folder).is_none() {
        return Err(CodeError::FolderLoadFailure);
    }
    let merged = builder_build(builder);
    match persist_syntax_set(&merged, cache_dir) {
        Ok(_) => Ok(merged),
        Err(_) => Err(CodeError::PersistFailure),
    }
}

/// A monotonic merge loses nothing: every name of the original sequence
/// is still a name of any sequence it is a prefix of.
pub proof fn lemma_merge_keeps_names(pre: Seq<Seq<char>>, post: Seq<Seq<char>>)
    requires
        pre.is_prefix_of(post),
    ensures
        forall|n: Seq<char>| pre.contains(n) ==> post.contains(n),
{
    assert forall|n: Seq<char>| pre.contains(n) implies post.contains(n) by {
        let i = choose|i: int| 0 <= i < pre.len() && pre[i] == n;
        assert(post[i] == n);
    }
}

} // verus!
