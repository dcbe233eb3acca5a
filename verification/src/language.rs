//! The languages that have a built-in grammar and rule set.

use vstd::prelude::*;
use tree_sitter::Language;
use crate::text::{ascii_lowered, lowered_is};

verus! {

/// The built-in rule set for Rust, as TOML.
pub const RUST_CONFIG: &'static str = "\
[[rules]]\n\
name = \"unwrap_usage\"\n\
query = '(call_expression function: (field_expression field: (field_identifier) @method) (#eq? @method \"unwrap\"))'\n\
severity = \"warning\"\n\
message = \"Call to unwrap() panics when the value is missing\"\n\
suggestion = \"Propagate the error with ? or handle both cases\"\n\
enabled = true\n\
\n\
[[rules]]\n\
name = \"deep_nesting\"\n\
query = '(if_expression consequence: (block (expression_statement (if_expression consequence: (block (expression_statement (if_expression) @nested))))))'\n\
severity = \"warning\"\n\
message = \"Conditionals nested three levels deep\"\n\
suggestion = \"Return early or move the inner branches into a function\"\n\
enabled = true\n\
\n\
[[rules]]\n\
name = \"panic_macro\"\n\
query = '(macro_invocation macro: (identifier) @name (#eq? @name \"panic\"))'\n\
severity = \"warning\"\n\
message = \"Explicit panic in library code\"\n\
suggestion = \"Return an error value instead\"\n\
enabled = true\n\
\n\
[[rules]]\n\
name = \"unsafe_block\"\n\
query = '(unsafe_block) @block'\n\
severity = \"error\"\n\
message = \"Unsafe block\"\n\
suggestion = \"Wrap the operation in a safe abstraction\"\n\
enabled = true\n\
\n\
[[rules]]\n\
name = \"todo_comment\"\n\
query = '((line_comment) @comment (#match? @comment \"TODO|FIXME\"))'\n\
severity = \"info\"\n\
message = \"Unfinished work noted in a comment\"\n\
enabled = true\n\
";

/// The built-in rule set for Go, as TOML.
pub const GO_CONFIG: &'static str = "\
[[rules]]\n\
name = \"panic_call\"\n\
query = '(call_expression function: (identifier) @name (#eq? @name \"panic\"))'\n\
severity = \"warning\"\n\
message = \"Call to panic()\"\n\
suggestion = \"Return an error to the caller\"\n\
enabled = true\n\
\n\
[[rules]]\n\
name = \"ignored_error\"\n\
query = '(short_var_declaration left: (expression_list (identifier) @blank (#eq? @blank \"_\")))'\n\
severity = \"error\"\n\
message = \"Result discarded with the blank identifier\"\n\
suggestion = \"Check the returned error\"\n\
enabled = true\n\
\n\
[[rules]]\n\
name = \"fmt_print\"\n\
query = '(call_expression function: (selector_expression) @callee (#match? @callee \"^fmt[.]Print\"))'\n\
severity = \"info\"\n\
message = \"Direct printing to standard output\"\n\
suggestion = \"Use a logger\"\n\
enabled = true\n\
\n\
[[rules]]\n\
name = \"todo_comment\"\n\
query = '((comment) @comment (#match? @comment \"TODO|FIXME\"))'\n\
severity = \"info\"\n\
message = \"Unfinished work noted in a comment\"\n\
enabled = true\n\
";

/// The built-in rule set for JavaScript, as TOML.
pub const JAVASCRIPT_CONFIG: &'static str = "\
[[rules]]\n\
name = \"var_declaration\"\n\
query = '(variable_declaration) @declaration'\n\
severity = \"warning\"\n\
message = \"Variable declared with var\"\n\
suggestion = \"Declare it with let or const\"\n\
enabled = true\n\
\n\
[[rules]]\n\
name = \"console_log\"\n\
query = '(call_expression function: (member_expression) @callee (#match? @callee \"^console[.]\"))'\n\
severity = \"info\"\n\
message = \"Console output left in the code\"\n\
suggestion = \"Remove it or use a logger\"\n\
enabled = true\n\
\n\
[[rules]]\n\
name = \"loose_equality\"\n\
query = '(binary_expression operator: \"==\" @operator)'\n\
severity = \"warning\"\n\
message = \"Comparison with ==\"\n\
suggestion = \"Compare with ===\"\n\
enabled = true\n\
\n\
[[rules]]\n\
name = \"debugger_statement\"\n\
query = '(debugger_statement) @statement'\n\
severity = \"error\"\n\
message = \"Debugger statement left in the code\"\n\
suggestion = \"Remove it\"\n\
enabled = true\n\
";

/// The built-in rule set for Java, as TOML.
pub const JAVA_CONFIG: &'static str = "\
[[rules]]\n\
name = \"system_out_println\"\n\
query = '(method_invocation object: (field_access) @target (#eq? @target \"System.out\"))'\n\
severity = \"warning\"\n\
message = \"Printing through System.out\"\n\
suggestion = \"Use a logger\"\n\
enabled = true\n\
\n\
[[rules]]\n\
name = \"magic_number\"\n\
query = '((decimal_integer_literal) @number (#not-match? @number \"^[01]$\"))'\n\
severity = \"style\"\n\
message = \"Unnamed numeric constant\"\n\
suggestion = \"Give the value a named constant\"\n\
enabled = true\n\
\n\
[[rules]]\n\
name = \"null_return\"\n\
query = '(return_statement (null_literal) @value)'\n\
severity = \"warning\"\n\
message = \"Method returns null\"\n\
suggestion = \"Return an Optional or an empty value\"\n\
enabled = true\n\
\n\
[[rules]]\n\
name = \"empty_catch\"\n\
query = '(catch_clause body: (block) @body (#eq? @body \"{}\"))'\n\
severity = \"error\"\n\
message = \"Exception swallowed by an empty catch block\"\n\
suggestion = \"Handle or rethrow the exception\"\n\
enabled = true\n\
";

/// The built-in rule set for Zig, as TOML.
pub const ZIG_CONFIG: &'static str = "\
[[rules]]\n\
name = \"panic_builtin\"\n\
query = '((builtin_identifier) @name (#eq? @name \"@panic\"))'\n\
severity = \"warning\"\n\
message = \"Call to @panic\"\n\
suggestion = \"Return an error to the caller\"\n\
enabled = true\n\
\n\
[[rules]]\n\
name = \"catch_unreachable\"\n\
query = '((catch_expression) @expression (#match? @expression \"catch[ ]+unreachable\"))'\n\
severity = \"error\"\n\
message = \"Error discarded with catch unreachable\"\n\
suggestion = \"Handle the error or propagate it with try\"\n\
enabled = true\n\
\n\
[[rules]]\n\
name = \"todo_comment\"\n\
query = '((comment) @comment (#match? @comment \"TODO|FIXME\"))'\n\
severity = \"info\"\n\
message = \"Unfinished work noted in a comment\"\n\
enabled = true\n\
";

/// A language with a built-in grammar and rule set.
#[derive(Debug, Clone, Copy, PartialEq, Eq, Structural)]
pub enum SupportedLanguage {
    Rust,
    Go,
    JavaScript,
    Zig,
    Java,
}

/// The grammar that the syntax-tree engine has for a language.
pub uninterp spec fn grammar_of(language: SupportedLanguage) -> Language;

/// `extension` stands somewhere in `path`, behind a dot.
pub open spec fn has_dotted(path: Seq<char>, extension: Seq<char>) -> bool {
    exists|at: int|
        0 <= at && at + 1 + extension.len() <= path.len() && #[trigger] path.subrange(
            at,
            at + 1 + extension.len(),
        ) == seq!['.'] + extension
}

/// The extension of a path, as `Path::extension` of std gives it: nothing
/// where the path has none.
pub uninterp spec fn extension_of(path: Seq<char>) -> Option<Seq<char>>;

/// Calls `Path::extension` of std on `path`. The contract gives the result
/// its name: in one build of the library it depends on the path alone. It
/// claims besides, as std documents, that an extension is a part of the
/// path that follows a dot.
#[verifier::external_body]
fn path_extension(path: &str) -> (extension: Option<String>)
    ensures
        match extension {
            Some(found) => extension_of(path@) == Some(found@),
            None => extension_of(path@) is None,
        },
        extension matches Some(found) ==> has_dotted(path@, found@),
{
    std::path::Path::new(path).extension().and_then(|part| part.to_str()).map(
        |part| part.to_string(),
    )
}

/// Hands out `tree_sitter_rust::LANGUAGE` as a grammar. The contract gives
/// it its name: every call hands out the same grammar.
#[verifier::external_body]
fn rust_grammar() -> (grammar: Language)
    ensures
        grammar == grammar_of(SupportedLanguage::Rust),
{
    tree_sitter_rust::LANGUAGE.into()
}

/// Hands out `tree_sitter_go::LANGUAGE` as a grammar. The contract gives
/// it its name: every call hands out the same grammar.
#[verifier::external_body]
fn go_grammar() -> (grammar: Language)
    ensures
        grammar == grammar_of(SupportedLanguage::Go),
{
    tree_sitter_go::LANGUAGE.into()
}

/// Hands out `tree_sitter_javascript::LANGUAGE` as a grammar. The contract gives
/// it its name: every call hands out the same grammar.
#[verifier::external_body]
fn javascript_grammar() -> (grammar: Language)
    ensures
        grammar == grammar_of(SupportedLanguage::JavaScript),
{
    tree_sitter_javascript::LANGUAGE.into()
}

/// Hands out `tree_sitter_zig::LANGUAGE` as a grammar. The contract gives
/// it its name: every call hands out the same grammar.
#[verifier::external_body]
fn zig_grammar() -> (grammar: Language)
    ensures
        grammar == grammar_of(SupportedLanguage::Zig),
{
    tree_sitter_zig::LANGUAGE.into()
}

/// Hands out `tree_sitter_java::LANGUAGE` as a grammar. The contract gives
/// it its name: every call hands out the same grammar.
#[verifier::external_body]
fn java_grammar() -> (grammar: Language)
    ensures
        grammar == grammar_of(SupportedLanguage::Java),
{
    tree_sitter_java::LANGUAGE.into()
}

impl SupportedLanguage {
    /// The language of a file name extension, given without its dot and
    /// in any mix of ASCII upper and lower case.
    pub open spec fn of_extension(extension: Seq<char>) -> Option<SupportedLanguage> {
        let lower = ascii_lowered(extension);
        if lower == "rs"@ {
            Some(SupportedLanguage::Rust)
        } else if lower == "go"@ {
            Some(SupportedLanguage::Go)
        } else if lower == "js"@ || lower == "jsx"@ {
            Some(SupportedLanguage::JavaScript)
        } else if lower == "zig"@ {
            Some(SupportedLanguage::Zig)
        } else if lower == "java"@ {
            Some(SupportedLanguage::Java)
        } else {
            None
        }
    }

    /// The key under which the language's rules are configured.
    pub open spec fn key_text(self) -> Seq<char> {
        match self {
            SupportedLanguage::Rust => "rust"@,
            SupportedLanguage::Go => "go"@,
            SupportedLanguage::JavaScript => "javascript"@,
            SupportedLanguage::Zig => "zig"@,
            SupportedLanguage::Java => "java"@,
        }
    }

    /// The language's name as it is shown to people.
    pub open spec fn name_text(self) -> Seq<char> {
        match self {
            SupportedLanguage::Rust => "Rust"@,
            SupportedLanguage::Go => "Go"@,
            SupportedLanguage::JavaScript => "JavaScript"@,
            SupportedLanguage::Zig => "Zig"@,
            SupportedLanguage::Java => "Java"@,
        }
    }

    /// The language's built-in rule set.
    pub open spec fn config_text(self) -> Seq<char> {
        match self {
            SupportedLanguage::Rust => RUST_CONFIG@,
            SupportedLanguage::Go => GO_CONFIG@,
            SupportedLanguage::JavaScript => JAVASCRIPT_CONFIG@,
            SupportedLanguage::Zig => ZIG_CONFIG@,
            SupportedLanguage::Java => JAVA_CONFIG@,
        }
    }

    /// Selects the language of a file name extension.
    pub fn from_extension(extension: &str) -> (language: Option<Self>)
        ensures
            language == Self::of_extension(extension@),
    {
        if lowered_is(extension, "rs") {
            Some(SupportedLanguage::Rust)
        } else if lowered_is(extension, "go") {
            Some(SupportedLanguage::Go)
        } else if lowered_is(extension, "js") || lowered_is(extension, "jsx") {
            Some(SupportedLanguage::JavaScript)
        } else if lowered_is(extension, "zig") {
            Some(SupportedLanguage::Zig)
        } else if lowered_is(extension, "java") {
            Some(SupportedLanguage::Java)
        } else {
            None
        }
    }

    /// The language of a path: the language of its extension, and none
    /// where the path has no extension.
    pub open spec fn of_path(path: Seq<char>) -> Option<SupportedLanguage> {
        match extension_of(path) {
            Some(extension) => Self::of_extension(extension),
            None => None,
        }
    }

    /// Selects the language of a file by the extension of its path; `None`
    /// where the path has no extension or the extension is not known. The
    /// directory and the stem of the file name play no part.
    pub fn from_path(file_path: &str) -> (language: Option<Self>)
        ensures
            language == Self::of_path(file_path@),
            language matches Some(found) ==> exists|extension: Seq<char>|
                has_dotted(file_path@, extension) && #[trigger] Self::of_extension(extension)
                    == Some(found),
    {
        match path_extension(file_path) {
            None => None,
            Some(extension) => Self::from_extension(extension.as_str()),
        }
    }

    /// The language's grammar for the syntax-tree engine.
    pub fn tree_sitter_language(&self) -> (grammar: Language)
        ensures
            grammar == grammar_of(*self),
    {
        match self {
            SupportedLanguage::Rust => rust_grammar(),
            SupportedLanguage::Go => go_grammar(),
            SupportedLanguage::JavaScript => javascript_grammar(),
            SupportedLanguage::Zig => zig_grammar(),
            SupportedLanguage::Java => java_grammar(),
        }
    }

    /// The key under which the language's rules are configured.
    pub fn config_key(&self) -> (key: &'static str)
        ensures
            key@ == self.key_text(),
    {
        match self {
            SupportedLanguage::Rust => "rust",
            SupportedLanguage::Go => "go",
            SupportedLanguage::JavaScript => "javascript",
            SupportedLanguage::Zig => "zig",
            SupportedLanguage::Java => "java",
        }
    }

    /// The language's name as it is shown to people.
    pub fn display_name(&self) -> (name: &'static str)
        ensures
            name@ == self.name_text(),
    {
        match self {
            SupportedLanguage::Rust => "Rust",
            SupportedLanguage::Go => "Go",
            SupportedLanguage::JavaScript => "JavaScript",
            SupportedLanguage::Zig => "Zig",
            SupportedLanguage::Java => "Java",
        }
    }

    /// The language's built-in rule set, as TOML.
    pub fn default_config(&self) -> (config: &'static str)
        ensures
            config@ == self.config_text(),
    {
        match self {
            SupportedLanguage::Rust => RUST_CONFIG,
            SupportedLanguage::Go => GO_CONFIG,
            SupportedLanguage::JavaScript => JAVASCRIPT_CONFIG,
            SupportedLanguage::Zig => ZIG_CONFIG,
            SupportedLanguage::Java => JAVA_CONFIG,
        }
    }
}

} // verus!
