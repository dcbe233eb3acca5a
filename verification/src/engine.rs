//! The syntax-tree engine: everything here is believed of `tree_sitter`, not
//! proved.
//!
//! The engine's C code classifies the characters of a pattern, and some
//! grammars those of a text, with `iswspace`, `iswalnum` and their like.
//! For characters outside ASCII these go by the locale of the process, so
//! the outcome of parsing and of compiling is named for ASCII texts only.

use vstd::prelude::*;
use vstd::utf8::is_ascii_chars;
use tree_sitter::{Language, LanguageError, Parser, Query, QueryCursor, QueryError, Tree};
use tree_sitter::StreamingIterator;
use crate::analyzer::{Capture, CapturedNode};

verus! {

/// `tree_sitter::Language`: a grammar. Nothing inside it is visible here.
#[verifier::external_type_specification]
#[verifier::external_body]
pub struct ExLanguage(tree_sitter::Language);

/// `tree_sitter::Tree`: the syntax tree of one text.
#[verifier::external_type_specification]
#[verifier::external_body]
pub struct ExTree(tree_sitter::Tree);

/// `tree_sitter::Query`: a pattern compiled for one grammar.
#[verifier::external_type_specification]
#[verifier::external_body]
pub struct ExQuery(tree_sitter::Query);

/// `tree_sitter::LanguageError`: why a parser refused a grammar.
#[verifier::external_type_specification]
#[verifier::external_body]
pub struct ExLanguageError(tree_sitter::LanguageError);

/// `tree_sitter::QueryError`: why a pattern is not valid for a grammar.
#[verifier::external_type_specification]
#[verifier::external_body]
pub struct ExQueryError(tree_sitter::QueryError);

/// The matches of a query as plain values: one sequence of captures for
/// each match.
pub open spec fn capture_groups(groups: Seq<Vec<Capture>>) -> Seq<Seq<CapturedNode>> {
    groups.map_values(|group: Vec<Capture>| group@.map_values(|capture: Capture| capture@))
}

/// What a new parser answers when it is given `language` and then the
/// ASCII text `source`: the grammar's refusal, or the tree, or no tree.
pub uninterp spec fn parse_outcome(language: Language, source: Seq<char>) -> Result<
    Option<Tree>,
    LanguageError,
>;

/// The text that a tree was parsed from.
pub uninterp spec fn tree_source(tree: Tree) -> Seq<char>;

/// What compiling the ASCII text `pattern` for `language` gives: the
/// query, or the reason why the pattern is not valid.
pub uninterp spec fn compiled_query(language: Language, pattern: Seq<char>) -> Result<
    Query,
    QueryError,
>;

/// The matches of `query` in `tree`, in the order in which the engine finds
/// them, each with its captured nodes in order; `source` is the text of the
/// tree.
pub uninterp spec fn query_captures(query: Query, tree: Tree, source: Seq<char>) -> Seq<
    Seq<CapturedNode>,
>;

/// Calls `Parser::new`, `Parser::set_language` and `Parser::parse` of
/// `tree_sitter`, the last without an old tree. The contract claims that
/// the outcome depends on the grammar and the text alone where the text is
/// ASCII, and that a tree it returns is the tree of `source`.
#[verifier::external_body]
pub(crate) fn parse_source(language: &Language, source: &str) -> (outcome: Result<
    Option<Tree>,
    LanguageError,
>)
    ensures
        is_ascii_chars(source@) ==> outcome == parse_outcome(*language, source@),
        outcome matches Ok(Some(tree)) ==> tree_source(tree) == source@,
{
    let mut parser = Parser::new();
    parser.set_language(language)?;
    Ok(parser.parse(source, None))
}

/// Calls `Query::new` of `tree_sitter`. The contract claims that the
/// outcome depends on the grammar and the pattern alone where the pattern
/// is ASCII.
#[verifier::external_body]
pub(crate) fn compile_query(language: &Language, pattern: &str) -> (outcome: Result<
    Query,
    QueryError,
>)
    ensures
        is_ascii_chars(pattern@) ==> outcome == compiled_query(*language, pattern@),
{
    Query::new(language, pattern)
}

/// Runs `query` over the whole of `tree` with a new `QueryCursor` of
/// `tree_sitter` (`QueryCursor::matches` from `Tree::root_node`), and hands
/// out, for every match, each captured node's `Node::start_position` and
/// `Node::utf8_text`. The contract claims that the matches depend on the
/// query, the tree and the text alone. `utf8_text` cuts the node's bytes
/// out of `source`, so `source` has to be the text of the tree.
#[verifier::external_body]
pub(crate) fn run_query(query: &Query, tree: &Tree, source: &str) -> (groups: Vec<Vec<Capture>>)
    requires
        tree_source(*tree) == source@,
    ensures
        capture_groups(groups@) == query_captures(*query, *tree, source@),
{
    let text = source.as_bytes();
    let mut cursor = QueryCursor::new();
    let mut matches = cursor.matches(query, tree.root_node(), text);
    let mut groups = Vec::new();
    while let Some(found) = matches.next() {
        groups.push(found.captures().iter().map(|capture| Capture {
            row: capture.node.start_position().row,
            column: capture.node.start_position().column,
            text: capture.node.utf8_text(text).ok().map(|t| t.to_string()),
        }).collect());
    }
    groups
}

} // verus!
