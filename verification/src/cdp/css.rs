//! The `CSS` domain.
use vstd::prelude::*;

verus! {

/// Identifies a style sheet.
#[derive(Debug, PartialEq, Eq)]
pub struct StyleSheetId(pub String);

impl DeepView for StyleSheetId {
    type V = Seq<char>;

    open spec fn deep_view(&self) -> Seq<char> {
        self.0@
    }
}

impl Clone for StyleSheetId {
    fn clone(&self) -> (copy: StyleSheetId)
        ensures
            copy == *self,
    {
        StyleSheetId(self.0.clone())
    }
}

/// A range of text within a style sheet.
#[derive(Clone, Copy, Debug, PartialEq, Eq, Structural)]
pub struct SourceRange {
    pub start_line: i64,
    pub start_column: i64,
    pub end_line: i64,
    pub end_column: i64,
}

impl DeepView for SourceRange {
    type V = SourceRange;

    open spec fn deep_view(&self) -> SourceRange {
        *self
    }
}

} // verus!
