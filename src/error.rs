use vstd::prelude::*;

verus! {

/// Why an extraction produced no records.
#[derive(PartialEq, Eq, Structural, Clone, Copy, Debug)]
pub enum TagError {
    /// A bundled tag query does not compile against its grammar.
    QueryCompile,
    /// The language identifier names no registered language.
    UnsupportedLanguage,
    /// The tree could not be matched against the query.
    Match,
}

} // verus!
