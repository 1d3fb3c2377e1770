use code_tags::error::TagError;
use code_tags::extract::{extract_tags, parse_js, parse_php, parse_py, parse_rb, parse_ts, tags_in};
use code_tags::language::{compose_queries, Language};
use code_tags::record::{materialize, materialize_all, RawTag, Role, TagRecord};
use code_tags::tagger::{parse_tags, Tagger};
use code_tags::text::{same_text, slice_text};

fn raw(name: (usize, usize), line: (usize, usize), kind: &str, is_definition: bool) -> RawTag {
    RawTag {
        name_start: name.0,
        name_end: name.1,
        line_start: line.0,
        line_end: line.1,
        kind: kind.to_string(),
        is_definition,
    }
}

#[test]
fn slice_text_takes_the_range() {
    assert_eq!(slice_text(b"class Foo {}", 6, 9), "Foo");
    assert_eq!(slice_text(b"abc", 0, 3), "abc");
    assert_eq!(slice_text(b"abc", 1, 1), "");
}

#[test]
fn slice_text_out_of_bounds_is_empty() {
    assert_eq!(slice_text(b"abc", 2, 7), "");
    assert_eq!(slice_text(b"abc", 3, 1), "");
}

#[test]
fn slice_text_invalid_utf8_is_empty() {
    assert_eq!(slice_text(&[0x61, 0xff, 0x62], 0, 3), "");
    // Cutting a two-byte character in half leaves no valid text.
    assert_eq!(slice_text("é".as_bytes(), 0, 1), "");
    assert_eq!(slice_text("aé".as_bytes(), 1, 3), "é");
}

#[test]
fn same_text_compares_contents() {
    assert!(same_text("ruby", "ruby"));
    assert!(!same_text("ruby", "rubx"));
    assert!(!same_text("ruby", "rub"));
    assert!(same_text("", ""));
}

#[test]
fn role_labels() {
    assert_eq!(Role::of(true), Role::Def);
    assert_eq!(Role::of(false), Role::Ref);
    assert_eq!(Role::Def.as_str(), "def");
    assert_eq!(Role::Ref.as_str(), "ref");
}

#[test]
fn language_ids_round_trip() {
    for l in [Language::JavaScript, Language::TypeScript, Language::Ruby, Language::Php, Language::Python] {
        assert_eq!(Language::from_id(l.id()), Ok(l));
    }
    assert_eq!(Language::from_id("python"), Ok(Language::Python));
}

#[test]
fn unknown_language_is_refused() {
    assert_eq!(Language::from_id("cobol"), Err(TagError::UnsupportedLanguage));
    assert_eq!(Language::from_id("JavaScript"), Err(TagError::UnsupportedLanguage));
    assert_eq!(extract_tags("cobol", b"class A {}"), Err(TagError::UnsupportedLanguage));
    assert_eq!(extract_tags("", b""), Err(TagError::UnsupportedLanguage));
}

#[test]
fn compose_queries_puts_own_rules_first() {
    assert_eq!(compose_queries("(a) @x\n", "(b) @y\n"), "(a) @x\n(b) @y\n");
    assert_eq!(compose_queries("", "(b) @y"), "(b) @y");
}

#[test]
fn materialize_slices_name_and_line() {
    let source = b"class Foo {}\nfoo();\n";
    let r = materialize(source, &raw((6, 9), (0, 12), "class", true));
    assert_eq!(r.name, "Foo");
    assert_eq!(r.kind, "class");
    assert_eq!(r.role, Role::Def);
    assert_eq!(r.first_line, "class Foo {}");
}

#[test]
fn materialize_degrades_bad_ranges() {
    let source = b"foo();";
    let r = materialize(source, &raw((0, 3), (0, 99), "call", false));
    assert_eq!(r.name, "foo");
    assert_eq!(r.role, Role::Ref);
    assert_eq!(r.first_line, "");
}

#[test]
fn materialize_all_keeps_order_and_roles() {
    let source = b"a b c";
    let raws = vec![
        raw((4, 5), (0, 5), "call", false),
        raw((0, 1), (0, 5), "class", true),
        raw((2, 3), (0, 5), "method", true),
    ];
    let recs = materialize_all(source, &raws);
    let names: Vec<&str> = recs.iter().map(|r| r.name.as_str()).collect();
    assert_eq!(names, vec!["c", "a", "b"]);
    let roles: Vec<Role> = recs.iter().map(|r| r.role).collect();
    assert_eq!(roles, vec![Role::Ref, Role::Def, Role::Def]);
    assert!(materialize_all(source, &vec![]).is_empty());
}

#[test]
fn extraction_is_deterministic() {
    let source = b"class A {\n  run() {\n    go();\n  }\n}\n";
    let first = extract_tags("javascript", source);
    let second = extract_tags("javascript", source);
    assert!(first.is_ok());
    assert_eq!(first, second);
}

#[test]
fn tagger_can_be_reused() {
    let tagger = Tagger::new(Language::Python).unwrap();
    assert_eq!(tagger.language(), Language::Python);
    let a = parse_tags(&tagger, b"def f():\n    pass\n").unwrap();
    let b = parse_tags(&tagger, b"def f():\n    pass\n").unwrap();
    assert_eq!(a, b);
    assert_eq!(a, vec![rec("f", "function", Role::Def, "def f():")]);
}

fn rec(name: &str, kind: &str, role: Role, first_line: &str) -> TagRecord {
    TagRecord { name: name.to_string(), kind: kind.to_string(), role, first_line: first_line.to_string() }
}

#[test]
fn comment_only_sources_give_no_tags() {
    assert_eq!(parse_js(b"// nothing here\n"), Ok(vec![]));
    assert_eq!(parse_ts(b"// nothing here\n"), Ok(vec![]));
    assert_eq!(parse_rb(b"# nothing here\n"), Ok(vec![]));
    assert_eq!(parse_php(b"<?php\n// nothing here\n"), Ok(vec![]));
    assert_eq!(parse_py(b"# nothing here\n"), Ok(vec![]));
    assert_eq!(extract_tags("python", b""), Ok(vec![]));
}

#[test]
fn arbitrary_bytes_do_not_fail() {
    let junk = [0xffu8, 0xfe, 0x00, 0x41, 0xc3];
    assert!(extract_tags("ruby", &junk).is_ok());
    assert!(extract_tags("javascript", &junk).is_ok());
}

#[test]
fn js_class_then_methods_in_source_order() {
    let source = b"class Animal extends Model {\n  static get tableName() {\n    return 'animals';\n  }\n}\n";
    let tags = extract_tags("javascript", source).unwrap();
    assert_eq!(
        tags,
        vec![
            rec("Animal", "class", Role::Def, "class Animal extends Model {"),
            rec("tableName", "method", Role::Def, "static get tableName() {"),
        ]
    );
}

#[test]
fn python_class_then_field_call() {
    let source = b"class Question(models.Model):\n    question_text = models.CharField(max_length=200)\n";
    let tags = parse_py(source).unwrap();
    assert_eq!(
        tags,
        vec![
            rec("Question", "class", Role::Def, "class Question(models.Model):"),
            rec("CharField", "call", Role::Ref, "question_text = models.CharField(max_length=200)"),
        ]
    );
}

#[test]
fn typescript_decorator_comes_before_its_class() {
    let source = b"@Entity(\"sample10_post\")\nexport class Post {\n}\n";
    let tags = tags_in(Language::TypeScript, source).unwrap();
    assert_eq!(
        tags,
        vec![
            rec("Entity", "call", Role::Ref, "@Entity(\"sample10_post\")"),
            rec("Post", "class", Role::Def, "export class Post {"),
        ]
    );
}

#[test]
fn javascript_rules_alone_miss_typescript_types() {
    // The type reference comes from TypeScript's own rules.
    let source = b"let d: PostDetails;\n";
    let ts = parse_ts(source).unwrap();
    assert_eq!(ts, vec![rec("PostDetails", "type", Role::Ref, "let d: PostDetails;")]);
}

#[test]
fn non_ascii_names_are_kept() {
    let source = "def café():\n    pass\n".as_bytes();
    let tags = parse_py(source).unwrap();
    assert_eq!(tags, vec![rec("café", "function", Role::Def, "def café():")]);
}
