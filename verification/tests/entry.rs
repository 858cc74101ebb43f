use rwasm::entry::main;
use rwasm::entry::next_group;
use rwasm::entry::next_literal;
use rwasm::entry::prelude;
use rwasm::entry::Delimiter;
use rwasm::entry::Entry;
use rwasm::entry::EntryError;
use rwasm::entry::TokenTree;

fn ident(name: &str) -> TokenTree {
    TokenTree::Ident(String::from(name))
}

fn literal(text: &str) -> TokenTree {
    TokenTree::Literal(String::from(text))
}

fn brackets(tokens: Vec<TokenTree>) -> TokenTree {
    TokenTree::Group(Delimiter::Bracket, tokens)
}

fn parens(tokens: Vec<TokenTree>) -> TokenTree {
    TokenTree::Group(Delimiter::Parenthesis, tokens)
}

/// `async fn main() { body }`
fn entry_point() -> Vec<TokenTree> {
    vec![
        ident("async"),
        ident("fn"),
        ident("main"),
        parens(vec![]),
        TokenTree::Group(Delimiter::Brace, vec![ident("body")]),
    ]
}

/// `async fn amain() { body }`
fn renamed() -> Vec<TokenTree> {
    vec![
        ident("async"),
        ident("fn"),
        ident("amain"),
        parens(vec![]),
        TokenTree::Group(Delimiter::Brace, vec![ident("body")]),
    ]
}

/// `#[rwasm(name = value)]` in front of `item`
fn with_setting(name: &str, value: TokenTree, item: Vec<TokenTree>) -> Vec<TokenTree> {
    let mut tokens = vec![
        TokenTree::Punct('#'),
        brackets(vec![ident("rwasm"), parens(vec![ident(name), TokenTree::Punct('='), value])]),
    ];
    tokens.extend(item);
    tokens
}

const DEFAULT: &str = "\n        fn main() {\n            rwasm::wasync::Executor::spawn(amain());\n        }\n        ";

#[test]
fn prelude_spawns_amain() {
    assert_eq!(prelude("rwasm"), DEFAULT);
    assert_eq!(
        prelude("other"),
        "\n        fn main() {\n            other::wasync::Executor::spawn(amain());\n        }\n        "
    );
    assert_eq!(
        prelude(""),
        "\n        fn main() {\n            ::wasync::Executor::spawn(amain());\n        }\n        "
    );
}

#[test]
fn main_is_renamed() {
    assert_eq!(
        main(vec![], entry_point()),
        Ok(Entry { prelude: String::from(DEFAULT), tokens: renamed(), start: 0 })
    );
}

#[test]
fn arguments_of_the_attribute_are_not_read() {
    assert_eq!(
        main(vec![ident("anything"), TokenTree::Punct('!')], entry_point()),
        Ok(Entry { prelude: String::from(DEFAULT), tokens: renamed(), start: 0 })
    );
}

#[test]
fn shortest_entry_point() {
    assert_eq!(
        main(vec![], vec![ident("async"), ident("fn"), ident("main")]),
        Ok(Entry {
            prelude: String::from(DEFAULT),
            tokens: vec![ident("async"), ident("fn"), ident("amain")],
            start: 0
        })
    );
}

#[test]
fn crate_rename_names_the_crate() {
    let item = with_setting("crate_rename", literal("\"other\""), entry_point());
    assert_eq!(
        main(vec![], item),
        Ok(Entry { prelude: prelude("other"), tokens: renamed(), start: 2 })
    );
}

#[test]
fn unquoted_literal_is_taken_as_it_is() {
    let item = with_setting("crate_rename", literal("42"), entry_point());
    assert_eq!(main(vec![], item).unwrap().prelude, prelude("42"));
}

#[test]
fn last_crate_rename_wins() {
    let item = with_setting(
        "crate_rename",
        literal("\"first\""),
        with_setting("crate_rename", literal("\"second\""), entry_point()),
    );
    assert_eq!(main(vec![], item).unwrap().prelude, prelude("second"));
}

#[test]
fn other_settings_change_nothing() {
    let item = with_setting("verbose", literal("\"yes\""), entry_point());
    assert_eq!(
        main(vec![], item),
        Ok(Entry { prelude: String::from(DEFAULT), tokens: renamed(), start: 2 })
    );
}

#[test]
fn setting_without_a_value_changes_nothing() {
    let mut item = vec![
        TokenTree::Punct('#'),
        brackets(vec![ident("rwasm"), parens(vec![ident("crate_rename")])]),
    ];
    item.extend(entry_point());
    assert_eq!(main(vec![], item).unwrap().prelude, DEFAULT);
}

#[test]
fn other_attributes_are_dropped() {
    let mut item = vec![
        TokenTree::Punct('#'),
        brackets(vec![ident("allow"), parens(vec![ident("unused")])]),
        TokenTree::Punct('#'),
        brackets(vec![ident("inline")]),
    ];
    item.extend(entry_point());
    assert_eq!(
        main(vec![], item),
        Ok(Entry { prelude: String::from(DEFAULT), tokens: renamed(), start: 4 })
    );
}

#[test]
fn mark_other_than_hash_is_no_attribute() {
    let mut item = vec![TokenTree::Punct('!'), brackets(vec![ident("inline")])];
    item.extend(entry_point());
    assert_eq!(main(vec![], item), Err(EntryError::NotAnAttribute));
}

#[test]
fn hash_without_a_group() {
    let mut item = vec![TokenTree::Punct('#')];
    item.extend(entry_point());
    assert_eq!(main(vec![], item), Err(EntryError::MissingGroup));
    assert_eq!(main(vec![], vec![TokenTree::Punct('#')]), Err(EntryError::MissingGroup));
}

#[test]
fn rwasm_without_settings() {
    let mut item = vec![TokenTree::Punct('#'), brackets(vec![ident("rwasm")])];
    item.extend(entry_point());
    assert_eq!(main(vec![], item), Err(EntryError::MissingGroup));
}

#[test]
fn empty_groups() {
    let mut item = vec![TokenTree::Punct('#'), brackets(vec![])];
    item.extend(entry_point());
    assert_eq!(main(vec![], item), Err(EntryError::EmptyGroup));
    let mut item = vec![TokenTree::Punct('#'), brackets(vec![ident("rwasm"), parens(vec![])])];
    item.extend(entry_point());
    assert_eq!(main(vec![], item), Err(EntryError::EmptyGroup));
}

#[test]
fn setting_without_a_literal() {
    let item = with_setting("crate_rename", ident("other"), entry_point());
    assert_eq!(main(vec![], item), Err(EntryError::MissingLiteral));
    let item = with_setting("verbose", ident("other"), entry_point());
    assert_eq!(main(vec![], item), Err(EntryError::MissingLiteral));
    let mut item = vec![
        TokenTree::Punct('#'),
        brackets(vec![ident("rwasm"), parens(vec![ident("crate_rename"), TokenTree::Punct('=')])]),
    ];
    item.extend(entry_point());
    assert_eq!(main(vec![], item), Err(EntryError::MissingLiteral));
    let item = with_setting("crate_rename", literal("\""), entry_point());
    assert_eq!(main(vec![], item), Err(EntryError::MissingLiteral));
}

#[test]
fn item_that_ends_too_early() {
    assert_eq!(main(vec![], vec![]), Err(EntryError::UnexpectedEnd));
    assert_eq!(main(vec![], vec![ident("async")]), Err(EntryError::UnexpectedEnd));
    assert_eq!(main(vec![], vec![ident("async"), ident("fn")]), Err(EntryError::UnexpectedEnd));
    assert_eq!(
        main(vec![], vec![TokenTree::Punct('#'), brackets(vec![ident("inline")])]),
        Err(EntryError::UnexpectedEnd)
    );
}

#[test]
fn only_async_functions() {
    assert_eq!(
        main(vec![], vec![ident("fn"), ident("main"), parens(vec![])]),
        Err(EntryError::NotAsync)
    );
    assert_eq!(
        main(vec![], vec![literal("async"), ident("fn"), ident("main")]),
        Err(EntryError::NotAsync)
    );
    assert_eq!(
        main(vec![], vec![parens(vec![]), ident("fn"), ident("main")]),
        Err(EntryError::NotAsync)
    );
}

#[test]
fn only_functions() {
    assert_eq!(
        main(vec![], vec![ident("async"), ident("move"), ident("main")]),
        Err(EntryError::NotFunction)
    );
    assert_eq!(
        main(vec![], vec![ident("async"), TokenTree::Punct('|'), ident("main")]),
        Err(EntryError::NotFunction)
    );
}

#[test]
fn only_main() {
    assert_eq!(
        main(vec![], vec![ident("async"), ident("fn"), ident("start"), parens(vec![])]),
        Err(EntryError::NotMain)
    );
    assert_eq!(
        main(vec![], vec![ident("async"), ident("fn"), ident("amain")]),
        Err(EntryError::NotMain)
    );
}

#[test]
fn next_group_finds_only_groups() {
    let source = vec![ident("a"), parens(vec![ident("b")]), TokenTree::Punct('#')];
    assert_eq!(next_group(&source, 0), None);
    assert_eq!(next_group(&source, 1), Some(&vec![ident("b")]));
    assert_eq!(next_group(&source, 2), None);
    assert_eq!(next_group(&source, 3), None);
}

#[test]
fn next_literal_strips_the_quotes_of_a_string() {
    let source = vec![
        literal("\"text\""),
        literal("12"),
        literal("\"\""),
        literal("\""),
        literal("\"ü\""),
        literal(""),
        ident("\"x\""),
    ];
    assert_eq!(next_literal(&source, 0), Some(String::from("text")));
    assert_eq!(next_literal(&source, 1), Some(String::from("12")));
    assert_eq!(next_literal(&source, 2), Some(String::new()));
    assert_eq!(next_literal(&source, 3), None);
    assert_eq!(next_literal(&source, 4), Some(String::from("ü")));
    assert_eq!(next_literal(&source, 5), Some(String::new()));
    assert_eq!(next_literal(&source, 6), None);
    assert_eq!(next_literal(&source, 7), None);
}
