//! The trusted boundary to the syntect crate.
//!
//! The pipeline's sets of syntax grammars and color themes are syntect's
//! own types; their contents are opaque here. This module declares those
//! types, gives their observable contents names — the sequence of syntax
//! names a set holds, the map from theme name to declared background a
//! theme set holds — and wraps each syntect call the pipeline makes in a
//! function whose contract states, over those names, what syntect's
//! source shows.

use vstd::prelude::*;

verus! {

#[verifier::external_type_specification]
#[verifier::external_body]
pub struct ExSyntaxSet(syntect::parsing::SyntaxSet);

#[verifier::external_type_specification]
#[verifier::external_body]
pub struct ExSyntaxSetBuilder(syntect::parsing::SyntaxSetBuilder);

#[verifier::external_type_specification]
#[verifier::external_body]
pub struct ExSyntaxReference(syntect::parsing::SyntaxReference);

#[verifier::external_type_specification]
#[verifier::external_body]
pub struct ExThemeSet(syntect::highlighting::ThemeSet);

#[verifier::external_type_specification]
#[verifier::external_body]
pub struct ExTheme(syntect::highlighting::Theme);

/// The names of the syntaxes a set holds, in the order `syntaxes()`
/// presents them.
pub uninterp spec fn syntax_names(ss: syntect::parsing::SyntaxSet) -> Seq<Seq<char>>;

/// The extension lists of the syntaxes a set holds, in the same order as
/// `syntax_names`.
pub uninterp spec fn syntax_ext_lists(ss: syntect::parsing::SyntaxSet) -> Seq<Seq<Seq<char>>>;

/// The names of the syntaxes a builder has accumulated, in insertion
/// order.
pub uninterp spec fn builder_names(b: syntect::parsing::SyntaxSetBuilder) -> Seq<Seq<char>>;

/// The name of one syntax definition.
pub uninterp spec fn syntax_ref_name(s: syntect::parsing::SyntaxReference) -> Seq<char>;

/// The file-extension list of one syntax definition.
pub uninterp spec fn syntax_ref_extensions(s: syntect::parsing::SyntaxReference) -> Seq<Seq<char>>;

/// What a theme set holds: each theme's name mapped to the background
/// color its settings declare, as (r, g, b, a), where one is declared.
pub uninterp spec fn theme_bg_map(ts: syntect::highlighting::ThemeSet) -> Map<
    Seq<char>,
    Option<(u8, u8, u8, u8)>,
>;

/// The background color one theme's settings declare, as (r, g, b, a).
pub uninterp spec fn theme_background(t: syntect::highlighting::Theme) -> Option<(u8, u8, u8, u8)>;

/// Whether two characters are equal up to ASCII case: the same, or the
/// same letter in the two ASCII cases.
pub open spec fn ascii_char_eq_ignore_case(a: char, b: char) -> bool {
    ||| a == b
    ||| (a as u32 + 32 == b as u32 && 65 <= a as u32 <= 90)
    ||| (b as u32 + 32 == a as u32 && 65 <= b as u32 <= 90)
}

/// Whether two character sequences are equal up to ASCII case.
pub open spec fn ascii_eq_ignore_case(a: Seq<char>, b: Seq<char>) -> bool {
    a.len() == b.len() && (forall|i: int|
        0 <= i < a.len() ==> ascii_char_eq_ignore_case(a[i], b[i]))
}

/// Whether an extension list holds the query, up to ASCII case.
pub open spec fn ext_list_matches(exts: Seq<Seq<char>>, query: Seq<char>) -> bool {
    exists|j: int| 0 <= j < exts.len() && ascii_eq_ignore_case(#[trigger] exts[j], query)
}

/// Whether every first-line pattern a set carries compiles as a valid
/// regex. A set decoded from a crafted dump can carry one that does
/// not, and matching against it would abort inside syntect; the probe
/// below tests this, and the first-line lookup demands it.
pub uninterp spec fn first_line_patterns_ok(ss: syntect::parsing::SyntaxSet) -> bool;

/// Whether the serialized context data of every syntax of a set
/// deserializes. It holds of every set a builder of this process
/// finalized, and survives cloning; a set decoded from a crafted dump
/// may lack it, and syntect offers no way to test it without aborting,
/// so nothing establishes it for decoded sets.
pub uninterp spec fn contexts_intact(ss: syntect::parsing::SyntaxSet) -> bool;

/// The result of looking a file extension up in a syntax set: the name
/// of the syntax `find_syntax_by_extension` picks, where one matches.
/// The lookup reads the set and the extension alone.
pub uninterp spec fn syntax_for_extension(
    ss: syntect::parsing::SyntaxSet,
    ext: Seq<char>,
) -> Option<Seq<char>>;

/// The result of matching a first line against a syntax set: the name of
/// the syntax `find_syntax_by_first_line` picks, where a first-line
/// pattern matches. The match reads the set and the line alone.
pub uninterp spec fn syntax_for_first_line(
    ss: syntect::parsing::SyntaxSet,
    line: Seq<char>,
) -> Option<Seq<char>>;

/// The syntax names of the set that the given bytes decode to, where
/// they decode at all. Decoding reads the bytes alone.
pub uninterp spec fn decoded_syntax_names(bytes: Seq<u8>) -> Option<Seq<Seq<char>>>;

/// The theme contents of the set that the given bytes decode to, where
/// they decode at all. Decoding reads the bytes alone.
pub uninterp spec fn decoded_theme_map(bytes: Seq<u8>) -> Option<
    Map<Seq<char>, Option<(u8, u8, u8, u8)>>,
>;

/// Relies on syntect::dumps::from_reader: decodes a syntax set from an
/// in-memory blob; the result is a function of the bytes alone.
#[verifier::external_body]
pub(crate) fn decode_syntax_set(bytes: &[u8]) -> (r: Option<syntect::parsing::SyntaxSet>)
    ensures
        r is Some <==> decoded_syntax_names(bytes@) is Some,
        r is Some ==> syntax_names(r->0) == decoded_syntax_names(bytes@)->0,
{
    syntect::dumps::from_reader(bytes).ok()
}

/// Relies on syntect::dumps::from_reader: decodes a theme set from an
/// in-memory blob; the result is a function of the bytes alone.
#[verifier::external_body]
pub(crate) fn decode_theme_set(bytes: &[u8]) -> (r: Option<syntect::highlighting::ThemeSet>)
    ensures
        r is Some <==> decoded_theme_map(bytes@) is Some,
        r is Some ==> theme_bg_map(r->0) == decoded_theme_map(bytes@)->0,
{
    syntect::dumps::from_reader(bytes).ok()
}

/// Relies on syntect::dumps::from_dump_file: reads and decodes a blob
/// file. What comes back depends on the disk, so nothing more is stated.
#[verifier::external_body]
pub(crate) fn read_syntax_dump(path: &str) -> Option<syntect::parsing::SyntaxSet> {
    syntect::dumps::from_dump_file(std::path::Path::new(path)).ok()
}

/// Relies on syntect::dumps::from_dump_file: reads and decodes a blob
/// file. What comes back depends on the disk, so nothing more is stated.
#[verifier::external_body]
pub(crate) fn read_theme_dump(path: &str) -> Option<syntect::highlighting::ThemeSet> {
    syntect::dumps::from_dump_file(std::path::Path::new(path)).ok()
}

/// Relies on syntect::dumps::dump_to_file: serializes the set to the
/// given path, overwriting it. Success depends on the disk.
#[verifier::external_body]
pub(crate) fn write_syntax_dump(ss: &syntect::parsing::SyntaxSet, path: &str) -> Option<()> {
    syntect::dumps::dump_to_file(ss, std::path::Path::new(path)).ok()
}

/// Relies on syntect::dumps::dump_to_file: serializes the set to the
/// given path, overwriting it. Success depends on the disk.
#[verifier::external_body]
pub(crate) fn write_theme_dump(ts: &syntect::highlighting::ThemeSet, path: &str) -> Option<()> {
    syntect::dumps::dump_to_file(ts, std::path::Path::new(path)).ok()
}

/// Relies on SyntaxSet::into_builder: the builder starts from exactly
/// the syntaxes of the set, in order. The call deserializes each
/// syntax's context data and aborts where that data is corrupt, so it
/// demands intact contexts.
#[verifier::external_body]
pub(crate) fn set_into_builder(ss: syntect::parsing::SyntaxSet) -> (b: syntect::parsing::SyntaxSetBuilder)
    requires
        contexts_intact(ss),
    ensures
        builder_names(b) == syntax_names(ss),
{
    ss.into_builder()
}

/// Relies on SyntaxSetBuilder::add_from_folder: walks the folder and
/// appends each parsed grammar, so the prior names stay a prefix of the
/// new ones whether or not the walk succeeds; what is appended depends
/// on the disk.
#[verifier::external_body]
pub(crate) fn builder_add_from_folder(
    b: &mut syntect::parsing::SyntaxSetBuilder,
    folder: &str,
) -> (r: Option<()>)
    ensures
        builder_names(*old(b)).is_prefix_of(builder_names(*final(b))),
{
    b.add_from_folder(std::path::Path::new(folder), true).ok()
}

/// Relies on SyntaxSetBuilder::build: the finalized set holds exactly
/// the builder's syntaxes, in order, and its context data, serialized
/// by this very call, deserializes.
#[verifier::external_body]
pub(crate) fn builder_build(b: syntect::parsing::SyntaxSetBuilder) -> (ss: syntect::parsing::SyntaxSet)
    ensures
        syntax_names(ss) == builder_names(b),
        contexts_intact(ss),
{
    b.build()
}

/// Relies on the derived SyntaxSet::clone: the copy holds the same
/// syntaxes, the same pattern strings and the same context bytes, so
/// it keeps both validity predicates.
#[verifier::external_body]
pub(crate) fn clone_syntax_set(ss: &syntect::parsing::SyntaxSet) -> (r: syntect::parsing::SyntaxSet)
    ensures
        syntax_names(r) == syntax_names(*ss),
        contexts_intact(*ss) ==> contexts_intact(r),
        first_line_patterns_ok(*ss) ==> first_line_patterns_ok(r),
{
    ss.clone()
}

/// Relies on SyntaxSet::syntaxes: hands out the set's syntaxes in the
/// order their names are listed.
#[verifier::external_body]
pub(crate) fn set_syntaxes<'a>(
    ss: &'a syntect::parsing::SyntaxSet,
) -> (r: &'a [syntect::parsing::SyntaxReference])
    ensures
        r@.len() == syntax_names(*ss).len(),
        r@.len() == syntax_ext_lists(*ss).len(),
        forall|i: int|
            0 <= i < r@.len() ==> syntax_ref_name(#[trigger] r@[i]) == syntax_names(*ss)[i],
        forall|i: int|
            0 <= i < r@.len() ==> syntax_ref_extensions(#[trigger] r@[i]) == syntax_ext_lists(
                *ss,
            )[i],
{
    ss.syntaxes()
}

/// Relies on SyntaxSet::find_syntax_by_extension: a syntax is found
/// exactly when the extension list of some syntax of the set holds the
/// query — up to ASCII case, not exact-case — and the found syntax is
/// one of the set's, with a list that holds the query; it bears the
/// name the lookup names.
#[verifier::external_body]
pub(crate) fn find_by_extension<'a>(ss: &'a syntect::parsing::SyntaxSet, ext: &str) -> (r: Option<
    &'a syntect::parsing::SyntaxReference,
>)
    ensures
        r is Some <==> syntax_for_extension(*ss, ext@) is Some,
        r is Some <==> (exists|i: int|
            0 <= i < syntax_ext_lists(*ss).len() && ext_list_matches(
                #[trigger] syntax_ext_lists(*ss)[i],
                ext@,
            )),
        r is Some ==> syntax_ref_name(*r->0) == syntax_for_extension(*ss, ext@)->0,
        r is Some ==> (exists|i: int|
            0 <= i < syntax_names(*ss).len() && syntax_ref_name(*r->0)
                == #[trigger] syntax_names(*ss)[i] && syntax_ref_extensions(*r->0)
                == syntax_ext_lists(*ss)[i] && ext_list_matches(syntax_ext_lists(*ss)[i], ext@)
                && (forall|j: int|
                i < j < syntax_ext_lists(*ss).len() ==> !ext_list_matches(
                    #[trigger] syntax_ext_lists(*ss)[j],
                    ext@,
                ))),
{
    ss.find_syntax_by_extension(ext)
}

/// Relies on Regex::try_compile: tests whether every first-line
/// pattern the set carries compiles, which is what the lazy compilation
/// inside `find_syntax_by_first_line` would otherwise abort on.
#[verifier::external_body]
pub(crate) fn check_first_line_patterns(ss: &syntect::parsing::SyntaxSet) -> (r: bool)
    ensures
        r == first_line_patterns_ok(*ss),
{
    ss.syntaxes().iter().all(|s| match &s.first_line_match {
        Some(p) => syntect::parsing::Regex::try_compile(p).is_none(),
        None => true,
    })
}

/// Relies on SyntaxSet::find_syntax_by_first_line: a match is found
/// exactly when the first-line match names a syntax, and the found
/// syntax bears the name the match names. The lookup compiles the
/// set's first-line patterns lazily and aborts on an invalid one, so it
/// demands the probed validity.
#[verifier::external_body]
pub(crate) fn find_by_first_line<'a>(ss: &'a syntect::parsing::SyntaxSet, line: &str) -> (r: Option<
    &'a syntect::parsing::SyntaxReference,
>)
    requires
        first_line_patterns_ok(*ss),
    ensures
        r is Some <==> syntax_for_first_line(*ss, line@) is Some,
        r is Some ==> syntax_ref_name(*r->0) == syntax_for_first_line(*ss, line@)->0,
{
    ss.find_syntax_by_first_line(line)
}

/// Relies on the public `name` field of SyntaxReference.
#[verifier::external_body]
pub(crate) fn name_of(s: &syntect::parsing::SyntaxReference) -> (r: String)
    ensures
        r@ == syntax_ref_name(*s),
{
    s.name.clone()
}

/// Relies on the public `file_extensions` field of SyntaxReference.
#[verifier::external_body]
pub(crate) fn extensions_of(s: &syntect::parsing::SyntaxReference) -> (r: Vec<String>)
    ensures
        r@.len() == syntax_ref_extensions(*s).len(),
        forall|i: int|
            0 <= i < r@.len() ==> (#[trigger] r@[i])@ == syntax_ref_extensions(*s)[i],
{
    s.file_extensions.clone()
}

/// Relies on BTreeMap::get on the public `themes` map of ThemeSet: the
/// lookup succeeds exactly for names the set holds, and the theme found
/// declares the background the set records for that name.
#[verifier::external_body]
pub(crate) fn theme_set_get<'a>(ts: &'a syntect::highlighting::ThemeSet, name: &str) -> (r: Option<
    &'a syntect::highlighting::Theme,
>)
    ensures
        r is Some <==> theme_bg_map(*ts).dom().contains(name@),
        r is Some ==> theme_background(*r->0) == theme_bg_map(*ts)[name@],
{
    ts.themes.get(name)
}

/// Relies on BTreeMap::keys on the public `themes` map of ThemeSet:
/// hands out exactly the names the set holds, each once; the map also
/// fixes their order, which is left unstated.
#[verifier::external_body]
pub(crate) fn theme_set_names(ts: &syntect::highlighting::ThemeSet) -> (r: Vec<String>)
    ensures
        forall|i: int, j: int|
            0 <= i < j < r@.len() ==> (#[trigger] r@[i])@ != (#[trigger] r@[j])@,
        forall|i: int|
            0 <= i < r@.len() ==> theme_bg_map(*ts).dom().contains((#[trigger] r@[i])@),
        forall|n: Seq<char>|
            theme_bg_map(*ts).dom().contains(n) ==> exists|i: int|
                0 <= i < r@.len() && (#[trigger] r@[i])@ == n,
{
    ts.themes.keys().cloned().collect()
}

/// Relies on ThemeSet::add_from_folder: inserts each theme file found in
/// the folder under its base name, so every prior name is still present
/// whether or not the walk succeeds; what is inserted depends on the
/// disk.
#[verifier::external_body]
pub(crate) fn theme_set_add_from_folder(
    ts: &mut syntect::highlighting::ThemeSet,
    folder: &str,
) -> (r: Option<()>)
    ensures
        forall|n: Seq<char>|
            theme_bg_map(*old(ts)).dom().contains(n) ==> theme_bg_map(
                *final(ts),
            ).dom().contains(n),
{
    ts.add_from_folder(std::path::Path::new(folder)).ok()
}

/// Relies on ThemeSet::get_theme: parses one theme-definition file.
/// What comes back depends on the disk, so nothing more is stated.
#[verifier::external_body]
pub(crate) fn load_theme_file(path: &str) -> Option<syntect::highlighting::Theme> {
    syntect::highlighting::ThemeSet::get_theme(std::path::Path::new(path)).ok()
}

/// Relies on the public `settings.background` field of Theme.
#[verifier::external_body]
pub(crate) fn background_of(t: &syntect::highlighting::Theme) -> (r: Option<(u8, u8, u8, u8)>)
    ensures
        r == theme_background(*t),
{
    t.settings.background.map(|c| (c.r, c.g, c.b, c.a))
}

} // verus!
