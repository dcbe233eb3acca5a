//! Scores the quality of a single source file: pattern rules are matched
//! against its syntax tree, every captured node becomes an issue, and the
//! issues together with the file's line count are reduced to a bounded
//! score, a breakdown by severity, a rating and a one-line summary.
//!
//! All amounts are exact fixed-point integers, so that every contract is
//! stated over the integers and no rounding hides in the arithmetic. One
//! score point is [`analyzer::SCORE_UNIT`] units, and a rule weight of 1.0
//! is [`analyzer::WEIGHT_ONE`]. The one place where the score is rounded,
//! to a tenth of a point, is [`scoring::rounded_tenths`].
//!
//! - [`analyzer`]: severities, rules, issues, scores and the analyzer.
//! - [`matcher`]: from rules and a text to issues.
//! - [`scoring`]: from issues and a line count to a score.
//! - [`laws`]: what holds of every score and every analysis.
//! - [`config`]: configured rule sets and the analyzers made of them.
//! - [`language`]: the languages with a built-in grammar and rule set.
//! - [`engine`]: the calls into the syntax-tree engine, which are trusted.
//! - [`text`]: line counting, numerals and comparisons of texts.

pub mod analyzer;
pub mod config;
pub mod engine;
pub mod language;
pub mod laws;
pub mod matcher;
pub mod scoring;
pub mod text;
