//! Picking exactly one syntax grammar for an input.
//!
//! An explicit file-extension hint is looked up in the set's extension
//! lists; without a hint, the first line of the content is matched
//! against the set's first-line patterns. The two paths are mutually
//! exclusive: when a hint is present the content is never consulted.

use vstd::prelude::*;
use vstd::string::StrSliceExecFns;

use crate::error::CodeError;
use crate::syntect_api::check_first_line_patterns;
use crate::syntect_api::ext_list_matches;
use crate::syntect_api::extensions_of;
use crate::syntect_api::find_by_extension;
use crate::syntect_api::find_by_first_line;
use crate::syntect_api::first_line_patterns_ok;
use crate::syntect_api::name_of;
use crate::syntect_api::syntax_ext_lists;
use crate::syntect_api::syntax_for_extension;
use crate::syntect_api::syntax_for_first_line;
use crate::syntect_api::syntax_names;
use crate::syntect_api::syntax_ref_extensions;
use crate::syntect_api::syntax_ref_name;

verus! {

/// How many characters the first line of `s` holds: everything before
/// the first newline, or all of `s` when it has none.
pub open spec fn spec_line_len(s: Seq<char>) -> nat
    decreases s.len(),
{
    if s.len() == 0 {
        0
    } else if s[0] == '\n' {
        0
    } else {
        1 + spec_line_len(s.drop_first())
    }
}

/// The first line of `s`: the segment before the first newline, which
/// is empty for empty content.
pub open spec fn spec_first_line(s: Seq<char>) -> Seq<char> {
    s.take(spec_line_len(s) as int)
}

/// A position with no newline before it and a newline (or the end) at
/// it is exactly where the first line ends.
pub proof fn lemma_line_len_at(s: Seq<char>, i: int)
    requires
        0 <= i <= s.len(),
        forall|j: int| 0 <= j < i ==> s[j] != '\n',
        i < s.len() ==> s[i] == '\n',
    ensures
        spec_line_len(s) == i,
    decreases i,
{
    if i == 0 {
    } else {
        assert(s[0] != '\n');
        lemma_line_len_at(s.drop_first(), i - 1);
    }
}

/// Splits off the first line of the content: the segment before the
/// first newline, or the whole content when it has none.
pub fn first_line<'a>(s: &'a str) -> (r: &'a str)
    ensures
        r@ == spec_first_line(s@),
{
    let n = s.unicode_len();
    let mut i: usize = 0;
    while i < n && s.get_char(i) != '\n'
        invariant
            i <= n,
            n == s@.len(),
            forall|j: int| 0 <= j < i ==> s@[j] != '\n',
        decreases n - i,
    {
        i = i + 1;
    }
    proof {
        lemma_line_len_at(s@, i as int);
    }
    s.substring_char(0, i)
}

/// The view of an optional extension hint.
pub open spec fn spec_hint(hint: Option<&str>) -> Option<Seq<char>> {
    match hint {
        Some(e) => Some(e@),
        None => None,
    }
}

/// The query a resolution poses: the extension hint where one is given,
/// else the content's first line.
pub open spec fn spec_query(hint: Option<Seq<char>>, content: Seq<char>) -> Seq<char> {
    match hint {
        Some(e) => e,
        None => spec_first_line(content),
    }
}

/// The name of the syntax a resolution picks: the extension lookup's
/// choice where a hint is given, else the first-line match's choice.
pub open spec fn spec_resolved_syntax(
    ss: syntect::parsing::SyntaxSet,
    hint: Option<Seq<char>>,
    content: Seq<char>,
) -> Option<Seq<char>> {
    match hint {
        Some(e) => syntax_for_extension(ss, e),
        None => syntax_for_first_line(ss, spec_first_line(content)),
    }
}

/// Picks exactly one syntax: by the extension hint where one is given,
/// else by the content's first line. Succeeds exactly when the posed
/// query names a syntax; fails with that query otherwise. A hint held
/// by some syntax's extension list always succeeds with such a syntax
/// of the set; the set's lookup compares extensions up to ASCII case,
/// not by exact case. Without a hint the set's first-line patterns are
/// compiled, so they must be valid; [`syntax_patterns_valid`] tests
/// that.
pub fn resolve_syntax<'a>(
    ss: &'a syntect::parsing::SyntaxSet,
    hint: Option<&str>,
    content: &str,
) -> (r: Result<&'a syntect::parsing::SyntaxReference, CodeError>)
    requires
        hint is None ==> first_line_patterns_ok(*ss),
    ensures
        match spec_resolved_syntax(*ss, spec_hint(hint), content@) {
            Some(n) => r is Ok && syntax_ref_name(*r->Ok_0) == n,
            None => (r matches Err(CodeError::SyntaxNotFound(q)) && q@ == spec_query(
                spec_hint(hint),
                content@,
            )),
        },
        hint is Some && (exists|i: int|
            0 <= i < syntax_ext_lists(*ss).len() && ext_list_matches(
                #[trigger] syntax_ext_lists(*ss)[i],
                hint->0@,
            )) ==> r is Ok,
        hint is Some && r is Ok ==> (exists|i: int|
            0 <= i < syntax_names(*ss).len() && syntax_ref_name(*r->Ok_0)
                == #[trigger] syntax_names(*ss)[i] && syntax_ref_extensions(*r->Ok_0)
                == syntax_ext_lists(*ss)[i] && ext_list_matches(
                syntax_ext_lists(*ss)[i],
                hint->0@,
            )),
{
    match hint {
        Some(ext) => match find_by_extension(ss, ext) {
            Some(s) => Ok(s),
            None => Err(CodeError::SyntaxNotFound(ext.to_owned())),
        },
        None => {
            let line = first_line(content);
            match find_by_first_line(ss, line) {
                Some(s) => Ok(s),
                None => Err(CodeError::SyntaxNotFound(line.to_owned())),
            }
        },
    }
}

/// Tests whether every first-line pattern the set carries compiles,
/// which first-line resolution demands. A set finalized by a builder of
/// this process carries only the patterns its grammars declared; one
/// decoded from a foreign dump may carry anything.
pub fn syntax_patterns_valid(ss: &syntect::parsing::SyntaxSet) -> (r: bool)
    ensures
        r == first_line_patterns_ok(*ss),
{
    check_first_line_patterns(ss)
}

/// The name of a resolved syntax definition.
pub fn syntax_name(s: &syntect::parsing::SyntaxReference) -> (r: String)
    ensures
        r@ == syntax_ref_name(*s),
{
    name_of(s)
}

/// The file-extension list of a resolved syntax definition.
pub fn syntax_extensions(s: &syntect::parsing::SyntaxReference) -> (r: Vec<String>)
    ensures
        r@.len() == syntax_ref_extensions(*s).len(),
        forall|i: int|
            0 <= i < r@.len() ==> (#[trigger] r@[i])@ == syntax_ref_extensions(*s)[i],
{
    extensions_of(s)
}

/// Extension priority: with a hint present, resolution is the extension
/// lookup alone — deterministic, and the same whatever the content, even
/// where a first line would have matched a different syntax.
pub proof fn lemma_extension_priority(
    ss: syntect::parsing::SyntaxSet,
    ext: Seq<char>,
    c1: Seq<char>,
    c2: Seq<char>,
)
    ensures
        spec_resolved_syntax(ss, Some(ext), c1) == syntax_for_extension(ss, ext),
        spec_resolved_syntax(ss, Some(ext), c1) == spec_resolved_syntax(ss, Some(ext), c2),
{
}

} // verus!
