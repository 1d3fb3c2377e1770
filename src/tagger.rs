use vstd::prelude::*;
use tree_sitter_tags::{Error, TagsConfiguration, TagsContext};
use crate::error::TagError;
use crate::language::{compose_queries, Language};
use crate::record::{materialize_all, records_of, views_of, RawTag, TagRecord, TagView};

verus! {

#[verifier::external_type_specification]
#[verifier::external_body]
pub struct ExTagsConfiguration(TagsConfiguration);

#[verifier::external_type_specification]
#[verifier::external_body]
pub struct ExTagsContext(TagsContext);

#[verifier::external_type_specification]
#[verifier::external_body]
pub struct ExTagsError(Error);

/// Relies on `TagsContext::new`: a fresh parser and query cursor.
pub assume_specification[ TagsContext::new ]() -> TagsContext;

/// The tags that the registered queries of `language` find in `source`, in the
/// order in which the matcher reports them, or nothing when matching fails.
pub uninterp spec fn tags_found(language: Language, source: Seq<u8>) -> Option<Seq<RawTag>>;

/// The text of a query that the crate of `grammar` ships: its tag rules, or
/// its local-scope rules when `locals` holds.
pub uninterp spec fn shipped_query(grammar: Language, locals: bool) -> Seq<char>;

/// The tag rules compiled for `language`: TypeScript's own rules followed by
/// JavaScript's for TypeScript, the shipped rules for the others.
pub open spec fn registered_tags_query(language: Language) -> Seq<char> {
    match language {
        Language::TypeScript => shipped_query(Language::TypeScript, false) + shipped_query(
            Language::JavaScript,
            false,
        ),
        _ => shipped_query(language, false),
    }
}

/// The local-scope rules compiled for `language`; PHP and Python have none.
pub open spec fn registered_locals_query(language: Language) -> Seq<char> {
    match language {
        Language::TypeScript => shipped_query(Language::TypeScript, true) + shipped_query(
            Language::JavaScript,
            true,
        ),
        Language::Php | Language::Python => Seq::empty(),
        _ => shipped_query(language, true),
    }
}

/// Whether `TagsConfiguration::new` accepts the given tag and local-scope
/// rules over the grammar of `grammar`.
pub uninterp spec fn queries_compile(grammar: Language, tags: Seq<char>, locals: Seq<char>) -> bool;

/// Whether the registered queries of `language` compile against its grammar.
pub open spec fn compiles(language: Language) -> bool {
    queries_compile(
        language,
        registered_tags_query(language),
        registered_locals_query(language),
    )
}

/// TypeScript's rules extend JavaScript's: they are TypeScript's own rules
/// followed by the whole of JavaScript's, for tags and for local scopes.
pub proof fn lemma_typescript_extends_javascript()
    ensures
        registered_tags_query(Language::TypeScript) == shipped_query(Language::TypeScript, false)
            + registered_tags_query(Language::JavaScript),
        registered_locals_query(Language::TypeScript) == shipped_query(Language::TypeScript, true)
            + registered_locals_query(Language::JavaScript),
{
}

/// Relies on tree-sitter-javascript's `TAGS_QUERY` and `LOCALS_QUERY`.
#[verifier::external_body]
fn javascript_queries() -> (r: (&'static str, &'static str))
    ensures
        r.0@ == shipped_query(Language::JavaScript, false),
        r.1@ == shipped_query(Language::JavaScript, true),
{
    (tree_sitter_javascript::TAGS_QUERY, tree_sitter_javascript::LOCALS_QUERY)
}

/// Relies on tree-sitter-typescript's `TAGS_QUERY` and `LOCALS_QUERY`.
#[verifier::external_body]
fn typescript_queries() -> (r: (&'static str, &'static str))
    ensures
        r.0@ == shipped_query(Language::TypeScript, false),
        r.1@ == shipped_query(Language::TypeScript, true),
{
    (tree_sitter_typescript::TAGS_QUERY, tree_sitter_typescript::LOCALS_QUERY)
}

/// Relies on tree-sitter-ruby's `TAGS_QUERY` and `LOCALS_QUERY`.
#[verifier::external_body]
fn ruby_queries() -> (r: (&'static str, &'static str))
    ensures
        r.0@ == shipped_query(Language::Ruby, false),
        r.1@ == shipped_query(Language::Ruby, true),
{
    (tree_sitter_ruby::TAGS_QUERY, tree_sitter_ruby::LOCALS_QUERY)
}

/// Relies on tree-sitter-php's `TAGS_QUERY`.
#[verifier::external_body]
fn php_tags_query() -> (r: &'static str)
    ensures
        r@ == shipped_query(Language::Php, false),
{
    tree_sitter_php::TAGS_QUERY
}

/// Relies on tree-sitter-python's `TAGS_QUERY`.
#[verifier::external_body]
fn python_tags_query() -> (r: &'static str)
    ensures
        r@ == shipped_query(Language::Python, false),
{
    tree_sitter_python::TAGS_QUERY
}

/// Relies on `TagsConfiguration::new` with tree-sitter-javascript's grammar.
#[verifier::external_body]
fn javascript_configuration(tags: &str, locals: &str) -> (r: Result<TagsConfiguration, Error>)
    ensures
        r is Ok <==> queries_compile(Language::JavaScript, tags@, locals@),
{
    TagsConfiguration::new(tree_sitter_javascript::LANGUAGE.into(), tags, locals)
}

/// Relies on `TagsConfiguration::new` with tree-sitter-typescript's TypeScript grammar.
#[verifier::external_body]
fn typescript_configuration(tags: &str, locals: &str) -> (r: Result<TagsConfiguration, Error>)
    ensures
        r is Ok <==> queries_compile(Language::TypeScript, tags@, locals@),
{
    TagsConfiguration::new(tree_sitter_typescript::LANGUAGE_TYPESCRIPT.into(), tags, locals)
}

/// Relies on `TagsConfiguration::new` with tree-sitter-ruby's grammar.
#[verifier::external_body]
fn ruby_configuration(tags: &str, locals: &str) -> (r: Result<TagsConfiguration, Error>)
    ensures
        r is Ok <==> queries_compile(Language::Ruby, tags@, locals@),
{
    TagsConfiguration::new(tree_sitter_ruby::LANGUAGE.into(), tags, locals)
}

/// Relies on `TagsConfiguration::new` with tree-sitter-php's PHP grammar.
#[verifier::external_body]
fn php_configuration(tags: &str, locals: &str) -> (r: Result<TagsConfiguration, Error>)
    ensures
        r is Ok <==> queries_compile(Language::Php, tags@, locals@),
{
    TagsConfiguration::new(tree_sitter_php::LANGUAGE_PHP.into(), tags, locals)
}

/// Relies on `TagsConfiguration::new` with tree-sitter-python's grammar.
#[verifier::external_body]
fn python_configuration(tags: &str, locals: &str) -> (r: Result<TagsConfiguration, Error>)
    ensures
        r is Ok <==> queries_compile(Language::Python, tags@, locals@),
{
    TagsConfiguration::new(tree_sitter_python::LANGUAGE.into(), tags, locals)
}

/// A compiled tag configuration of one registered language. Build it once and
/// reuse it: compiling the queries is the costly part.
pub struct Tagger {
    language: Language,
    tags_query: Ghost<Seq<char>>,
    locals_query: Ghost<Seq<char>>,
    config: TagsConfiguration,
}

/// Relies on `TagsContext::generate_tags`, which parses `source` and yields
/// its tags in order (with no cancellation flag it yields no error), and on
/// `TagsConfiguration::syntax_type_name`, which names the kind of each of them
/// (every id it yields indexes the configuration's table of kinds). Only
/// `Tagger::new` builds a tagger, from the registered queries of its language,
/// so what comes back depends on that language and on `source` alone.
#[verifier::external_body]
fn generate(context: &mut TagsContext, tagger: &Tagger, source: &[u8]) -> (r: Result<Vec<RawTag>, Error>)
    ensures
        r is Err <==> tags_found(tagger.language, source@) is None,
        r matches Ok(v) ==> tags_found(tagger.language, source@) == Some(v@),
{
    let config = &tagger.config;
    let (tags, _) = context.generate_tags(config, source, None)?;
    tags.map(|t| t.map(|t| RawTag {
        name_start: t.name_range.start,
        name_end: t.name_range.end,
        line_start: t.line_range.start,
        line_end: t.line_range.end,
        kind: config.syntax_type_name(t.syntax_type_id).to_string(),
        is_definition: t.is_definition,
    })).collect()
}

/// What tagging `source` as `language` gives: one record per tag found, in
/// the matcher's order, or a match error.
pub open spec fn tagged(language: Language, source: Seq<u8>) -> Result<Seq<TagView>, TagError> {
    match tags_found(language, source) {
        Some(c) => Ok(records_of(source, c)),
        None => Err(TagError::Match),
    }
}

/// A result with each record replaced by its view.
pub open spec fn result_views(r: Result<Vec<TagRecord>, TagError>) -> Result<Seq<TagView>, TagError> {
    match r {
        Ok(v) => Ok(views_of(v@)),
        Err(e) => Err(e),
    }
}

/// When the queries find no tag in a source, tagging it gives no records
/// and no error.
pub proof fn lemma_nothing_found_gives_no_records(language: Language, source: Seq<u8>)
    requires
        tags_found(language, source) == Some(Seq::<RawTag>::empty()),
    ensures
        tagged(language, source) == Ok::<Seq<TagView>, TagError>(Seq::empty()),
{
    assert(records_of(source, Seq::<RawTag>::empty()) =~= Seq::empty());
}

impl Tagger {
    pub closed spec fn spec_language(&self) -> Language {
        self.language
    }

    /// The tag rules that the configuration was compiled from.
    pub closed spec fn tags_query(&self) -> Seq<char> {
        self.tags_query@
    }

    /// The local-scope rules that the configuration was compiled from.
    pub closed spec fn locals_query(&self) -> Seq<char> {
        self.locals_query@
    }

    /// Compiles the registered queries of `language`. TypeScript's queries are
    /// its own rules followed by JavaScript's.
    pub fn new(language: Language) -> (r: Result<Tagger, TagError>)
        ensures
            r matches Ok(t) ==> t.spec_language() == language && t.tags_query()
                == registered_tags_query(language) && t.locals_query() == registered_locals_query(
                language,
            ),
            r matches Err(e) ==> e == TagError::QueryCompile,
            r is Ok <==> compiles(language),
    {
        let ghost mut handed_tags: Seq<char> = Seq::empty();
        let ghost mut handed_locals: Seq<char> = Seq::empty();
        let built = match language {
            Language::JavaScript => {
                let (tags, locals) = javascript_queries();
                proof {
                    handed_tags = tags@;
                    handed_locals = locals@;
                }
                javascript_configuration(tags, locals)
            },
            Language::TypeScript => {
                let (ts_tags, ts_locals) = typescript_queries();
                let (js_tags, js_locals) = javascript_queries();
                let tags = compose_queries(ts_tags, js_tags);
                let locals = compose_queries(ts_locals, js_locals);
                proof {
                    handed_tags = tags@;
                    handed_locals = locals@;
                }
                typescript_configuration(tags.as_str(), locals.as_str())
            },
            Language::Ruby => {
                let (tags, locals) = ruby_queries();
                proof {
                    handed_tags = tags@;
                    handed_locals = locals@;
                }
                ruby_configuration(tags, locals)
            },
            Language::Php => {
                let tags = php_tags_query();
                let none = "";
                proof {
                    reveal_strlit("");
                    handed_tags = tags@;
                    handed_locals = none@;
                }
                php_configuration(tags, none)
            },
            Language::Python => {
                let tags = python_tags_query();
                let none = "";
                proof {
                    reveal_strlit("");
                    handed_tags = tags@;
                    handed_locals = none@;
                }
                python_configuration(tags, none)
            },
        };
        assert(handed_tags =~= registered_tags_query(language));
        assert(handed_locals =~= registered_locals_query(language));
        match built {
            Ok(config) => Ok(
                Tagger {
                    language,
                    tags_query: Ghost(handed_tags),
                    locals_query: Ghost(handed_locals),
                    config,
                },
            ),
            Err(_) => Err(TagError::QueryCompile),
        }
    }

    /// The language whose queries this tagger holds.
    pub fn language(&self) -> (r: Language)
        ensures
            r == self.spec_language(),
    {
        self.language
    }
}

/// The records of the tags that `tagger` finds in `source`, in order.
pub fn parse_tags(tagger: &Tagger, source: &[u8]) -> (r: Result<Vec<TagRecord>, TagError>)
    ensures
        result_views(r) == tagged(tagger.spec_language(), source@),
{
    let mut context = TagsContext::new();
    match generate(&mut context, tagger, source) {
        Ok(raws) => Ok(materialize_all(source, &raws)),
        Err(_) => Err(TagError::Match),
    }
}

} // verus!
