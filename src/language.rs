use vstd::prelude::*;
use vstd::string::StringExecFns;
use crate::error::TagError;
use crate::text::same_text;

verus! {

/// The languages whose grammars and tag queries are registered.
#[derive(PartialEq, Eq, Structural, Clone, Copy, Debug)]
pub enum Language {
    JavaScript,
    TypeScript,
    Ruby,
    Php,
    Python,
}

/// The language that an identifier names, if it names one.
pub open spec fn language_of(id: Seq<char>) -> Option<Language> {
    if id == "javascript"@ {
        Some(Language::JavaScript)
    } else if id == "typescript"@ {
        Some(Language::TypeScript)
    } else if id == "ruby"@ {
        Some(Language::Ruby)
    } else if id == "php"@ {
        Some(Language::Php)
    } else if id == "python"@ {
        Some(Language::Python)
    } else {
        None
    }
}

/// What looking up an identifier in the registry gives.
pub open spec fn lookup(id: Seq<char>) -> Result<Language, TagError> {
    match language_of(id) {
        Some(l) => Ok(l),
        None => Err(TagError::UnsupportedLanguage),
    }
}

impl Language {
    pub open spec fn spec_id(self) -> Seq<char> {
        match self {
            Language::JavaScript => "javascript"@,
            Language::TypeScript => "typescript"@,
            Language::Ruby => "ruby"@,
            Language::Php => "php"@,
            Language::Python => "python"@,
        }
    }

    /// The identifier under which the language is registered.
    pub fn id(&self) -> (r: &'static str)
        ensures
            r@ == self.spec_id(),
    {
        match self {
            Language::JavaScript => "javascript",
            Language::TypeScript => "typescript",
            Language::Ruby => "ruby",
            Language::Php => "php",
            Language::Python => "python",
        }
    }

    /// Looks a language up by its identifier.
    pub fn from_id(id: &str) -> (r: Result<Language, TagError>)
        ensures
            r == lookup(id@),
    {
        if same_text(id, "javascript") {
            Ok(Language::JavaScript)
        } else if same_text(id, "typescript") {
            Ok(Language::TypeScript)
        } else if same_text(id, "ruby") {
            Ok(Language::Ruby)
        } else if same_text(id, "php") {
            Ok(Language::Php)
        } else if same_text(id, "python") {
            Ok(Language::Python)
        } else {
            Err(TagError::UnsupportedLanguage)
        }
    }
}

/// Every registered language is found again under its own identifier.
pub proof fn lemma_id_names_language(language: Language)
    ensures
        language_of(language.spec_id()) == Some(language),
{
    reveal_strlit("javascript");
    reveal_strlit("typescript");
    reveal_strlit("ruby");
    reveal_strlit("php");
    reveal_strlit("python");
    // The identifiers differ in their first character or in their length.
    assert("typescript"@[0] != "javascript"@[0]);
    assert("ruby"@[0] != "javascript"@[0] && "ruby"@[0] != "typescript"@[0]);
    assert("php"@[0] != "javascript"@[0] && "php"@[0] != "typescript"@[0] && "php"@[0]
        != "ruby"@[0]);
    assert("python"@[0] != "javascript"@[0] && "python"@[0] != "typescript"@[0] && "python"@[0]
        != "ruby"@[0] && "python"@.len() != "php"@.len());
}

/// A query made of the rules of `own` followed by those of `base`, for a
/// grammar that extends another one.
pub fn compose_queries(own: &str, base: &str) -> (r: String)
    ensures
        r@ == own@ + base@,
{
    own.to_owned().concat(base)
}

} // verus!
