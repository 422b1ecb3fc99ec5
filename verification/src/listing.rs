//! The two list modes: theme names and file types.
//!
//! `list-themes` hands out the theme set's names; `list-file-types`
//! formats, for each syntax of the set, a line of the shape
//! `- name (.ext1, .ext2)`.

use vstd::prelude::*;
use vstd::string::StringExecFns;

use crate::syntect_api::extensions_of;
use crate::syntect_api::name_of;
use crate::syntect_api::set_syntaxes;
use crate::syntect_api::syntax_ext_lists;
use crate::syntect_api::syntax_ref_extensions;
use crate::syntect_api::syntax_ref_name;
use crate::syntect_api::syntax_names;
use crate::syntect_api::theme_bg_map;
use crate::syntect_api::theme_set_names;

verus! {

/// The first `n` extensions joined with `", ."` between them.
pub open spec fn spec_join_prefix(exts: Seq<Seq<char>>, n: int) -> Seq<char>
    decreases n,
{
    if n <= 0 {
        Seq::empty()
    } else if n == 1 {
        exts[0]
    } else {
        spec_join_prefix(exts, n - 1) + ", ."@ + exts[n - 1]
    }
}

/// All the extensions joined with `", ."` between them.
pub open spec fn spec_joined_exts(exts: Seq<Seq<char>>) -> Seq<char> {
    spec_join_prefix(exts, exts.len() as int)
}

/// One line of the file-type listing: `- name (.ext1, .ext2)`.
pub open spec fn spec_file_type_line(name: Seq<char>, exts: Seq<Seq<char>>) -> Seq<char> {
    "- "@ + name + " (."@ + spec_joined_exts(exts) + ")"@
}

/// Joins extensions with `", ."` between them.
fn join_extensions(exts: &Vec<String>) -> (r: String)
    ensures
        r@ == spec_joined_exts(exts@.map_values(|e: String| e@)),
{
    let ghost v = exts@.map_values(|e: String| e@);
    let mut r = String::new();
    let mut i: usize = 0;
    while i < exts.len()
        invariant
            i <= exts.len(),
            v == exts@.map_values(|e: String| e@),
            v.len() == exts@.len(),
            r@ == spec_join_prefix(v, i as int),
        decreases exts.len() - i,
    {
        if i > 0 {
            r.append(", .");
        }
        r.append(exts[i].as_str());
        assert(r@ =~= spec_join_prefix(v, i + 1));
        i = i + 1;
    }
    r
}

/// Formats one line of the file-type listing.
pub fn format_file_type_line(name: &str, exts: &Vec<String>) -> (r: String)
    ensures
        r@ == spec_file_type_line(name@, exts@.map_values(|e: String| e@)),
{
    let mut r = "- ".to_owned();
    r.append(name);
    r.append(" (.");
    let joined = join_extensions(exts);
    r.append(joined.as_str());
    r.append(")");
    r
}

/// The `list-file-types` listing: one line per syntax of the set, in the
/// set's order, each of the shape `- name (.ext1, .ext2)`.
pub fn list_file_types(ss: &syntect::parsing::SyntaxSet) -> (r: Vec<String>)
    ensures
        r@.len() == syntax_names(*ss).len(),
        forall|i: int|
            0 <= i < r@.len() ==> (#[trigger] r@[i])@ == spec_file_type_line(
                syntax_names(*ss)[i],
                syntax_ext_lists(*ss)[i],
            ),
{
    let syntaxes = set_syntaxes(ss);
    let mut r: Vec<String> = Vec::new();
    let mut i: usize = 0;
    while i < syntaxes.len()
        invariant
            i <= syntaxes.len(),
            syntaxes@.len() == syntax_names(*ss).len(),
            syntaxes@.len() == syntax_ext_lists(*ss).len(),
            forall|j: int|
                0 <= j < syntaxes@.len() ==> syntax_ref_name(syntaxes@[j]) == syntax_names(
                    *ss,
                )[j],
            forall|j: int|
                0 <= j < syntaxes@.len() ==> syntax_ref_extensions(syntaxes@[j])
                    == syntax_ext_lists(*ss)[j],
            r@.len() == i,
            forall|j: int|
                0 <= j < i ==> (#[trigger] r@[j])@ == spec_file_type_line(
                    syntax_names(*ss)[j],
                    syntax_ext_lists(*ss)[j],
                ),
        decreases syntaxes.len() - i,
    {
        let s = &syntaxes[i];
        let name = name_of(s);
        let exts = extensions_of(s);
        assert(exts@.map_values(|e: String| e@) =~= syntax_ext_lists(*ss)[i as int]);
        let line = format_file_type_line(name.as_str(), &exts);
        r.push(line);
        i = i + 1;
    }
    r
}

/// The names the theme set holds, for the `list-themes` mode: exactly
/// the set's names, each exactly once as the underlying map iterates.
pub fn list_themes(ts: &syntect::highlighting::ThemeSet) -> (r: Vec<String>)
    ensures
        forall|i: int|
            0 <= i < r@.len() ==> theme_bg_map(*ts).dom().contains((#[trigger] r@[i])@),
        forall|n: Seq<char>|
            theme_bg_map(*ts).dom().contains(n) ==> exists|i: int|
                0 <= i < r@.len() && (#[trigger] r@[i])@ == n,
{
    theme_set_names(ts)
}

} // verus!
