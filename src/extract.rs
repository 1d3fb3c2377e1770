use vstd::prelude::*;
use crate::error::TagError;
use crate::language::{language_of, Language};
use crate::record::TagRecord;
use crate::tagger::{compiles, parse_tags, result_views, tagged, Tagger};

verus! {

/// Tags `source` as `language`: the records are exactly those that the
/// registered queries find when they compile, and a compile error otherwise.
pub fn tags_in(language: Language, source: &[u8]) -> (r: Result<Vec<TagRecord>, TagError>)
    ensures
        compiles(language) ==> result_views(r) == tagged(language, source@),
        !compiles(language) ==> r == Err::<Vec<TagRecord>, TagError>(TagError::QueryCompile),
{
    match Tagger::new(language) {
        Ok(tagger) => parse_tags(&tagger, source),
        Err(e) => Err(e),
    }
}

/// Extracts the tags of `source`, written in the language that `language_id`
/// names. An unknown identifier gives `UnsupportedLanguage` and no records.
pub fn extract_tags(language_id: &str, source: &[u8]) -> (r: Result<Vec<TagRecord>, TagError>)
    ensures
        language_of(language_id@) is None ==> r == Err::<Vec<TagRecord>, TagError>(
            TagError::UnsupportedLanguage,
        ),
        language_of(language_id@) matches Some(l) ==> (compiles(l) ==> result_views(r) == tagged(
            l,
            source@,
        )),
        language_of(language_id@) matches Some(l) ==> (!compiles(l) ==> r == Err::<
            Vec<TagRecord>,
            TagError,
        >(TagError::QueryCompile)),
{
    match Language::from_id(language_id) {
        Ok(language) => tags_in(language, source),
        Err(e) => Err(e),
    }
}

/// Tags JavaScript source.
pub fn parse_js(source: &[u8]) -> (r: Result<Vec<TagRecord>, TagError>)
    ensures
        compiles(Language::JavaScript) ==> result_views(r) == tagged(Language::JavaScript, source@),
        !compiles(Language::JavaScript) ==> r == Err::<Vec<TagRecord>, TagError>(TagError::QueryCompile),
{
    tags_in(Language::JavaScript, source)
}

/// Tags TypeScript source, with TypeScript's rules followed by JavaScript's.
pub fn parse_ts(source: &[u8]) -> (r: Result<Vec<TagRecord>, TagError>)
    ensures
        compiles(Language::TypeScript) ==> result_views(r) == tagged(Language::TypeScript, source@),
        !compiles(Language::TypeScript) ==> r == Err::<Vec<TagRecord>, TagError>(TagError::QueryCompile),
{
    tags_in(Language::TypeScript, source)
}

/// Tags Ruby source.
pub fn parse_rb(source: &[u8]) -> (r: Result<Vec<TagRecord>, TagError>)
    ensures
        compiles(Language::Ruby) ==> result_views(r) == tagged(Language::Ruby, source@),
        !compiles(Language::Ruby) ==> r == Err::<Vec<TagRecord>, TagError>(TagError::QueryCompile),
{
    tags_in(Language::Ruby, source)
}

/// Tags PHP source.
pub fn parse_php(source: &[u8]) -> (r: Result<Vec<TagRecord>, TagError>)
    ensures
        compiles(Language::Php) ==> result_views(r) == tagged(Language::Php, source@),
        !compiles(Language::Php) ==> r == Err::<Vec<TagRecord>, TagError>(TagError::QueryCompile),
{
    tags_in(Language::Php, source)
}

/// Tags Python source.
pub fn parse_py(source: &[u8]) -> (r: Result<Vec<TagRecord>, TagError>)
    ensures
        compiles(Language::Python) ==> result_views(r) == tagged(Language::Python, source@),
        !compiles(Language::Python) ==> r == Err::<Vec<TagRecord>, TagError>(TagError::QueryCompile),
{
    tags_in(Language::Python, source)
}

} // verus!
