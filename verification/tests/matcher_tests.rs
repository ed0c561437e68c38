use lsp_state::document_matcher::{normalize_language, DocumentMatcher, DocumentMatchers, GrammarId};
use lsp_state::server_state::ServerState;

fn strings(items: &[&str]) -> Vec<String> {
    items.iter().map(|s| s.to_string()).collect()
}

fn table() -> DocumentMatchers {
    DocumentMatchers::new(vec![
        DocumentMatcher::new("by-language".to_string()).with_lang_strings(strings(&["TypeScript", "tsx"])),
        DocumentMatcher::new("by-glob".to_string()).with_url_globs(strings(&["**/*.ts", "**/*.md"])),
        DocumentMatcher::new("later-glob".to_string()).with_url_globs(strings(&["**/*.md"])),
    ])
}

#[test]
fn builders_collect_their_arguments() {
    let m = DocumentMatcher::new("name".to_string())
        .with_url_globs(strings(&["a", "b"]))
        .with_url_globs(strings(&["c"]))
        .with_lang_strings(strings(&["x"]))
        .with_lang_grammar(GrammarId(7));
    assert_eq!(m.name, "name");
    assert_eq!(m.url_globs, strings(&["a", "b", "c"]));
    assert_eq!(m.lang_strings, strings(&["x"]));
    assert_eq!(m.lang_grammar, Some(GrammarId(7)));
    let empty = DocumentMatcher::new("e".to_string());
    assert!(empty.url_globs.is_empty());
    assert!(empty.lang_strings.is_empty());
    assert_eq!(empty.lang_grammar, None);
}

#[test]
fn language_is_trimmed_and_lowered() {
    assert_eq!(normalize_language("  TypeScript\t"), "typescript");
    assert_eq!(normalize_language("\u{c9}T\u{c9}"), "\u{c9}t\u{c9}");
}

#[test]
fn language_wins_over_a_glob() {
    let t = table();
    assert_eq!(t.find(Some("/project/main.ts"), "typescript"), Some(0));
    assert_eq!(t.find(Some("/project/readme.md"), " TSX "), Some(0));
    assert_eq!(t.find(None, "typescript"), Some(0));
}

#[test]
fn glob_decides_without_a_language_match() {
    let t = table();
    assert_eq!(t.find(Some("/project/main.ts"), "javascript"), Some(1));
    assert_eq!(t.find(Some("/project/main.rs"), "rust"), None);
    assert_eq!(t.find(None, "rust"), None);
}

#[test]
fn first_registered_glob_wins() {
    let t = table();
    assert_eq!(t.find(Some("/docs/readme.md"), "markdown"), Some(1));
}

#[test]
fn last_registered_language_wins() {
    let t = DocumentMatchers::new(vec![
        DocumentMatcher::new("first".to_string()).with_lang_strings(strings(&["lua"])),
        DocumentMatcher::new("second".to_string()).with_lang_strings(strings(&["LUA"])),
    ]);
    assert_eq!(t.find(None, "lua"), Some(1));
    assert_eq!(t.get(1).name, "second");
    assert_eq!(t.len(), 2);
}

#[test]
fn invalid_globs_are_left_out() {
    let only_invalid = DocumentMatcher::new("bad".to_string()).with_url_globs(strings(&["a{b"]));
    assert!(only_invalid.build_glob_set().is_none());
    let mixed = DocumentMatcher::new("mixed".to_string()).with_url_globs(strings(&["a{b", "*.txt"]));
    let set = mixed.build_glob_set().unwrap();
    assert!(set.is_match("notes.txt"));
    assert!(!set.is_match("notes.md"));
    let none = DocumentMatcher::new("none".to_string());
    assert!(none.build_glob_set().is_none());
    assert!(mixed.has_language(&"x".to_string()) == false);
}

#[test]
fn documents_carry_the_name_of_their_matcher() {
    let mut state = ServerState::new(vec![
        DocumentMatcher::new("by-language".to_string()).with_lang_strings(strings(&["typescript"])),
        DocumentMatcher::new("by-glob".to_string()).with_url_globs(strings(&["**/*.ts"])),
    ]);
    state.handle_document_open("a".to_string(), Some("/p/a.ts"), "", 1, "typescript".to_string());
    state.handle_document_open("b".to_string(), Some("/p/b.ts"), "", 1, "other".to_string());
    state.handle_document_open("c".to_string(), Some("/p/c.rs"), "", 1, "other".to_string());
    assert_eq!(state.document("a").unwrap().matched_name(), Some("by-language"));
    assert_eq!(state.document("b").unwrap().matched_name(), Some("by-glob"));
    assert_eq!(state.document("c").unwrap().matched_name(), None);
    assert_eq!(state.matchers().len(), 2);
}
