//! Definition and reference tags of named program entities, extracted from
//! source text with the bundled tree-sitter grammars and tag queries.

pub mod text;
pub mod record;
pub mod error;
pub mod language;
pub mod tagger;
pub mod extract;
