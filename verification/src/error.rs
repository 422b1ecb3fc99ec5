//! The failure kinds of the resolution pipeline.
//!
//! Every failure aborts the invocation: there is no retry and no partial
//! success. Each variant records which stage failed and, where useful,
//! the query that failed.

use vstd::prelude::*;
use vstd::string::StringExecFns;

verus! {

/// Why an invocation of the pipeline aborted.
#[derive(Clone, Debug, PartialEq, Eq)]
pub enum CodeError {
    /// Neither the cache blob nor the embedded default blob decoded.
    AssetLoadFailure,
    /// A definition folder was unreadable or held unparsable definitions.
    FolderLoadFailure,
    /// Writing a merged blob back to disk failed.
    PersistFailure,
    /// The configured content source produced no data.
    ContentUnavailable,
    /// No syntax matched the extension hint or the first line; carries
    /// the query that found nothing.
    SyntaxNotFound(String),
    /// The named theme was absent from the set and the external file
    /// load for that name failed too; carries the name.
    ThemeLoadFailure(String),
}

impl CodeError {
    /// The description of this failure, for the process's final message:
    /// a fixed text per kind, with the failed query appended where the
    /// kind carries one.
    pub fn message(&self) -> (m: String)
        ensures
            self matches CodeError::AssetLoadFailure ==> m@
                == "cannot decode syntax or theme assets"@,
            self matches CodeError::FolderLoadFailure ==> m@
                == "cannot add definitions from folder"@,
            self matches CodeError::PersistFailure ==> m@ == "cannot write merged assets to disk"@,
            self matches CodeError::ContentUnavailable ==> m@ == "cannot get content to render"@,
            self matches CodeError::SyntaxNotFound(q) ==> m@ == "no syntax found for: "@ + q@,
            self matches CodeError::ThemeLoadFailure(q) ==> m@ == "cannot load theme: "@ + q@,
    {
        let base: &str = match self {
            CodeError::AssetLoadFailure => "cannot decode syntax or theme assets",
            CodeError::FolderLoadFailure => "cannot add definitions from folder",
            CodeError::PersistFailure => "cannot write merged assets to disk",
            CodeError::ContentUnavailable => "cannot get content to render",
            CodeError::SyntaxNotFound(_) => "no syntax found for: ",
            CodeError::ThemeLoadFailure(_) => "cannot load theme: ",
        };
        let mut m = base.to_owned();
        match self {
            CodeError::SyntaxNotFound(q) => {
                m.append(q.as_str());
            },
            CodeError::ThemeLoadFailure(q) => {
                m.append(q.as_str());
            },
            _ => {},
        }
        m
    }
}

} // verus!
