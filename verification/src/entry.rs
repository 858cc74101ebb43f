use vstd::prelude::*;
use vstd::string::StrSliceExecFns;
use vstd::string::StringExecFns;

verus! {

/// How a group of tokens is enclosed.
#[derive(Debug, Clone, Copy, PartialEq, Eq)]
pub enum Delimiter {
    Parenthesis,
    Brace,
    Bracket,
    /// No delimiter is written.
    Invisible,
}

/// One token of a program text, or a group of them with its delimiter.
#[derive(Debug, PartialEq, Eq)]
pub enum TokenTree {
    Group(Delimiter, Vec<TokenTree>),
    Ident(String),
    Punct(char),
    Literal(String),
}

/// Why an item is not an entry point that can be rewritten.
#[derive(Debug, Clone, Copy, PartialEq, Eq)]
pub enum EntryError {
    /// A punctuation mark other than `#` stands where an attribute begins.
    NotAnAttribute,
    /// A group of tokens is missing: after `#`, or after `rwasm`.
    MissingGroup,
    /// A group that must name something is empty.
    EmptyGroup,
    /// A setting is not followed by `=` and a literal.
    MissingLiteral,
    /// The item ends before `async fn main`.
    UnexpectedEnd,
    /// The item does not begin with `async`.
    NotAsync,
    /// `async` is not followed by `fn`.
    NotFunction,
    /// The function is not called `main`.
    NotMain,
}

/// The rewritten entry point: the text of the `main` that starts the
/// executor, the tokens of the asynchronous function under its new name, and
/// the position in the item at which that function began, behind the
/// attributes.
#[derive(Debug, PartialEq, Eq)]
pub struct Entry {
    pub prelude: String,
    pub tokens: Vec<TokenTree>,
    pub start: usize,
}

/// Whether `token` is written as `name`. A punctuation mark and a group are
/// written as no name.
pub open spec fn is_named(token: TokenTree, name: Seq<char>) -> bool {
    match token {
        TokenTree::Ident(text) => text@ == name,
        TokenTree::Literal(text) => text@ == name,
        _ => false,
    }
}

/// Whether `token` is the identifier `name`.
pub open spec fn is_ident(token: TokenTree, name: Seq<char>) -> bool {
    token matches TokenTree::Ident(text) && text@ == name
}

/// The tokens of the group at position `at`, if a group stands there.
pub open spec fn group_at(source: Seq<TokenTree>, at: int) -> Option<Seq<TokenTree>> {
    if 0 <= at < source.len() {
        match source[at] {
            TokenTree::Group(_, stream) => Some(stream@),
            _ => None,
        }
    } else {
        None
    }
}

/// A literal's text without the quotes of a string literal.
pub open spec fn unquoted(text: Seq<char>) -> Seq<char> {
    if text.len() >= 2 && text[0] == '"' {
        text.subrange(1, text.len() - 1)
    } else {
        text
    }
}

/// The value of the literal at position `at`, if a literal stands there. A
/// quote alone is no literal.
pub open spec fn literal_at(source: Seq<TokenTree>, at: int) -> Option<Seq<char>> {
    if 0 <= at < source.len() {
        match source[at] {
            TokenTree::Literal(text) => if text@.len() == 1 && text@[0] == '"' {
                None
            } else {
                Some(unquoted(text@))
            },
            _ => None,
        }
    } else {
        None
    }
}

/// What one setting, the tokens between the brackets of `rwasm(..)`, says
/// of the crate's name.
pub open spec fn setting(config: Seq<TokenTree>) -> Result<Option<Seq<char>>, EntryError> {
    if config.len() == 0 {
        Err(EntryError::EmptyGroup)
    } else if config.len() == 1 {
        Ok(None)
    } else {
        match literal_at(config, 2) {
            None => Err(EntryError::MissingLiteral),
            Some(value) => if is_named(config[0], "crate_rename"@) {
                Ok(Some(value))
            } else {
                Ok(None)
            },
        }
    }
}

/// What one attribute, the tokens between its square brackets, says of the
/// crate's name. Only `rwasm(..)` says anything.
pub open spec fn attribute(tokens: Seq<TokenTree>) -> Result<Option<Seq<char>>, EntryError> {
    if tokens.len() == 0 {
        Err(EntryError::EmptyGroup)
    } else if !is_named(tokens[0], "rwasm"@) {
        Ok(None)
    } else {
        match group_at(tokens, 1) {
            None => Err(EntryError::MissingGroup),
            Some(config) => setting(config),
        }
    }
}

/// Reads the attributes of `item` from position `at` on, with `rename` the
/// crate's name as found so far: the position behind the last attribute, and
/// the name that the last `crate_rename` gave.
pub open spec fn attributes(item: Seq<TokenTree>, at: int, rename: Option<Seq<char>>) -> Result<
    (int, Option<Seq<char>>),
    EntryError,
>
    decreases item.len() - at,
{
    if 0 <= at < item.len() && item[at] is Punct {
        if item[at] != TokenTree::Punct('#') {
            Err(EntryError::NotAnAttribute)
        } else {
            match group_at(item, at + 1) {
                None => Err(EntryError::MissingGroup),
                Some(tokens) => match attribute(tokens) {
                    Err(e) => Err(e),
                    Ok(Some(name)) => attributes(item, at + 2, Some(name)),
                    Ok(None) => attributes(item, at + 2, rename),
                },
            }
        }
    } else {
        Ok((at, rename))
    }
}

/// What is wrong with the three tokens at `at`, which must be `async fn main`.
pub open spec fn signature(item: Seq<TokenTree>, at: int) -> Option<EntryError> {
    if at >= item.len() {
        Some(EntryError::UnexpectedEnd)
    } else if !is_ident(item[at], "async"@) {
        Some(EntryError::NotAsync)
    } else if at + 1 >= item.len() {
        Some(EntryError::UnexpectedEnd)
    } else if !is_ident(item[at + 1], "fn"@) {
        Some(EntryError::NotFunction)
    } else if at + 2 >= item.len() {
        Some(EntryError::UnexpectedEnd)
    } else if !is_ident(item[at + 2], "main"@) {
        Some(EntryError::NotMain)
    } else {
        None
    }
}

/// The crate's name where no attribute renames it.
pub open spec fn default_crate() -> Seq<char> {
    "rwasm"@
}

/// What the rewriting of `item` rests on: the position of `async`, and the
/// name of the crate whose executor the new `main` starts.
pub open spec fn entry_point(item: Seq<TokenTree>) -> Result<(int, Seq<char>), EntryError> {
    match attributes(item, 0, None) {
        Err(e) => Err(e),
        Ok((at, rename)) => match signature(item, at) {
            Some(e) => Err(e),
            None => Ok(
                (
                    at,
                    match rename {
                        Some(name) => name,
                        None => default_crate(),
                    },
                ),
            ),
        },
    }
}

/// The text of the `main` that spawns the renamed entry point on the
/// executor of the crate `crate_name`.
pub open spec fn prelude_text(crate_name: Seq<char>) -> Seq<char> {
    "\n        fn main() {\n            "@ + crate_name
        + "::wasync::Executor::spawn(amain());\n        }\n        "@
}

/// Whether `text` is `name`.
fn same_text(text: &String, name: &str) -> (same: bool)
    ensures
        same == (text@ == name@),
{
    let wanted = name.to_owned();
    *text == wanted
}

/// Whether `token` is written as `name`.
fn named(token: &TokenTree, name: &str) -> (found: bool)
    ensures
        found == is_named(*token, name@),
{
    match token {
        TokenTree::Ident(text) => same_text(text, name),
        TokenTree::Literal(text) => same_text(text, name),
        _ => false,
    }
}

/// Whether the token of `source` at `at` is the identifier `name`.
fn ident_at(source: &Vec<TokenTree>, at: usize, name: &str) -> (found: bool)
    requires
        at < source@.len(),
    ensures
        found == is_ident(source@[at as int], name@),
{
    match &source[at] {
        TokenTree::Ident(text) => same_text(text, name),
        _ => false,
    }
}

/// The tokens of the group that stands at position `at` of `source`, or
/// `None` if something else stands there or `source` ends before.
pub fn next_group(source: &Vec<TokenTree>, at: usize) -> (group: Option<&Vec<TokenTree>>)
    ensures
        match group {
            Some(stream) => group_at(source@, at as int) == Some(stream@),
            None => group_at(source@, at as int) is None,
        },
{
    if at < source.len() {
        match &source[at] {
            TokenTree::Group(_, stream) => Some(stream),
            _ => None,
        }
    } else {
        None
    }
}

/// The value of the literal that stands at position `at` of `source`, a
/// string literal without its quotes, or `None` if no literal stands there.
pub fn next_literal(source: &Vec<TokenTree>, at: usize) -> (literal: Option<String>)
    ensures
        match literal {
            Some(value) => literal_at(source@, at as int) == Some(value@),
            None => literal_at(source@, at as int) is None,
        },
{
    if at >= source.len() {
        return None;
    }
    match &source[at] {
        TokenTree::Literal(text) => {
            let text = text.as_str();
            let len = text.unicode_len();
            if len >= 1 && text.get_char(0) == '"' {
                if len == 1 {
                    None
                } else {
                    Some(text.substring_char(1, len - 1).to_owned())
                }
            } else {
                Some(text.to_owned())
            }
        },
        _ => None,
    }
}

/// Reads one setting of `rwasm(..)`.
fn read_setting(config: &Vec<TokenTree>) -> (found: Result<Option<String>, EntryError>)
    ensures
        match found {
            Ok(Some(name)) => setting(config@) == Ok::<Option<Seq<char>>, EntryError>(
                Some(name@),
            ),
            Ok(None) => setting(config@) == Ok::<Option<Seq<char>>, EntryError>(None),
            Err(e) => setting(config@) == Err::<Option<Seq<char>>, EntryError>(e),
        },
{
    if config.len() == 0 {
        Err(EntryError::EmptyGroup)
    } else if config.len() == 1 {
        Ok(None)
    } else {
        match next_literal(config, 2) {
            None => Err(EntryError::MissingLiteral),
            Some(value) => if named(&config[0], "crate_rename") {
                Ok(Some(value))
            } else {
                Ok(None)
            },
        }
    }
}

/// Reads one attribute.
fn read_attribute(tokens: &Vec<TokenTree>) -> (found: Result<Option<String>, EntryError>)
    ensures
        match found {
            Ok(Some(name)) => attribute(tokens@) == Ok::<Option<Seq<char>>, EntryError>(
                Some(name@),
            ),
            Ok(None) => attribute(tokens@) == Ok::<Option<Seq<char>>, EntryError>(None),
            Err(e) => attribute(tokens@) == Err::<Option<Seq<char>>, EntryError>(e),
        },
{
    if tokens.len() == 0 {
        Err(EntryError::EmptyGroup)
    } else if !named(&tokens[0], "rwasm") {
        Ok(None)
    } else {
        match next_group(tokens, 1) {
            None => Err(EntryError::MissingGroup),
            Some(config) => read_setting(config),
        }
    }
}

/// The text of the `main` that spawns the renamed entry point on the
/// executor of the crate `crate_name`.
pub fn prelude(crate_name: &str) -> (text: String)
    ensures
        text@ == prelude_text(crate_name@),
{
    let mut text = String::from_str("\n        fn main() {\n            ");
    text.append(crate_name);
    text.append("::wasync::Executor::spawn(amain());\n        }\n        ");
    text
}

/// The view of a crate name that may not have been given.
pub open spec fn name_view(name: Option<String>) -> Option<Seq<char>> {
    match name {
        Some(name) => Some(name@),
        None => None,
    }
}

/// Rewrites an asynchronous entry point: the attributes in front of it are
/// read and dropped, `async fn main` becomes `async fn amain`, and the rest
/// of the item follows unchanged. With it comes the text of a `main` that
/// spawns `amain()` on the executor of this crate, or of the crate that an
/// attribute `#[rwasm(crate_rename = "..")]` names. The attribute's own
/// arguments, `attr`, are not read.
pub fn main(_attr: Vec<TokenTree>, item: Vec<TokenTree>) -> (rewritten: Result<Entry, EntryError>)
    ensures
        match rewritten {
            Ok(entry) => {
                &&& entry_point(item@) matches Ok((at, crate_name))
                &&& entry.start == at
                &&& entry.prelude@ == prelude_text(crate_name)
                &&& entry.tokens@.len() == item@.len() - at
                &&& is_ident(entry.tokens@[0], "async"@)
                &&& is_ident(entry.tokens@[1], "fn"@)
                &&& is_ident(entry.tokens@[2], "amain"@)
                &&& entry.tokens@.subrange(3, entry.tokens@.len() as int) == item@.subrange(
                    at + 3,
                    item@.len() as int,
                )
            },
            Err(e) => entry_point(item@) == Err::<(int, Seq<char>), EntryError>(e),
        },
{
    let mut source = item;
    let mut at: usize = 0;
    let mut rename: Option<String> = None;
    loop
        invariant
            source@ == item@,
            at <= source@.len(),
            attributes(item@, 0, None) == attributes(item@, at as int, name_view(rename)),
        ensures
            at >= source@.len() || !(source@[at as int] is Punct),
        decreases source@.len() - at,
    {
        if at >= source.len() {
            break;
        }
        match &source[at] {
            TokenTree::Punct(mark) => {
                if *mark != '#' {
                    return Err(EntryError::NotAnAttribute);
                }
            },
            _ => {
                break;
            },
        }
        let found = match next_group(&source, at + 1) {
            None => {
                return Err(EntryError::MissingGroup);
            },
            Some(tokens) => read_attribute(tokens),
        };
        match found {
            Err(e) => {
                return Err(e);
            },
            Ok(Some(name)) => {
                rename = Some(name);
            },
            Ok(None) => {},
        }
        at = at + 2;
    }
    if at >= source.len() {
        return Err(EntryError::UnexpectedEnd);
    }
    if !ident_at(&source, at, "async") {
        return Err(EntryError::NotAsync);
    }
    if at + 1 >= source.len() {
        return Err(EntryError::UnexpectedEnd);
    }
    if !ident_at(&source, at + 1, "fn") {
        return Err(EntryError::NotFunction);
    }
    if at + 2 >= source.len() {
        return Err(EntryError::UnexpectedEnd);
    }
    if !ident_at(&source, at + 2, "main") {
        return Err(EntryError::NotMain);
    }
    let mut rest = source.split_off(at + 3);
    let mut tokens: Vec<TokenTree> = Vec::new();
    tokens.push(TokenTree::Ident("async".to_owned()));
    tokens.push(TokenTree::Ident("fn".to_owned()));
    tokens.push(TokenTree::Ident("amain".to_owned()));
    tokens.append(&mut rest);
    let prelude = match rename {
        Some(name) => prelude(name.as_str()),
        None => prelude("rwasm"),
    };
    Ok(Entry { prelude, tokens, start: at })
}

} // verus!
