//! Rule sets as they are configured, and how an analyzer is made of one.

use vstd::prelude::*;
use crate::analyzer::{AnalysisRule, CodeAnalyzer, Severity};
use crate::text::same_text;

verus! {

/// One configured rule.
#[derive(Debug, Clone)]
pub struct RuleConfig {
    pub name: String,
    pub query: String,
    /// One of `error`, `warning`, `info` and `style`, in any case.
    pub severity: String,
    pub message: String,
    pub suggestion: Option<String>,
    /// Weight multiplier in thousandths; 1000 stands for 1.0.
    pub weight: u32,
    /// Only enabled rules reach an analyzer.
    pub enabled: bool,
    /// The language that the rule is for; a rule without one is for every
    /// language.
    pub language: Option<String>,
}

/// A configured rule set, shared by all languages.
#[derive(Debug, Clone)]
pub struct AnalyzerConfig {
    pub rules: Vec<RuleConfig>,
}

/// The lower-case form of a text, as `str::to_lowercase` of std gives it.
pub uninterp spec fn lowercase_of(text: Seq<char>) -> Seq<char>;

/// Calls `str::to_lowercase` of std. The contract gives the result its
/// name: it depends on the text alone.
#[verifier::external_body]
fn lowercase(text: &str) -> (lower: String)
    ensures
        lower@ == lowercase_of(text@),
{
    text.to_lowercase()
}

/// The severity that a label in lower case names; `Info` where it names
/// none.
pub open spec fn severity_of_label(label: Seq<char>) -> Severity {
    if label == "error"@ {
        Severity::Error
    } else if label == "warning"@ {
        Severity::Warning
    } else if label == "style"@ {
        Severity::Style
    } else {
        Severity::Info
    }
}

/// Whether a configured rule reaches the analyzer of the language whose
/// name in lower case is `target`.
pub open spec fn is_selected(rule: RuleConfig, target: Seq<char>) -> bool {
    rule.enabled && match rule.language {
        Some(language) => lowercase_of(language@) == target,
        None => true,
    }
}

/// The rule that a configured rule stands for.
pub open spec fn rule_of(rule: RuleConfig) -> AnalysisRule {
    AnalysisRule {
        name: rule.name,
        query: rule.query,
        severity: severity_of_label(lowercase_of(rule.severity@)),
        message_template: rule.message,
        suggestion: rule.suggestion,
        weight_multiplier: rule.weight,
    }
}

/// The rules of the analyzer of the language whose name in lower case is
/// `target`: the selected rules, in the order of the configuration.
pub open spec fn selected_rules(rules: Seq<RuleConfig>, target: Seq<char>) -> Seq<AnalysisRule>
    decreases rules.len(),
{
    if rules.len() == 0 {
        Seq::empty()
    } else if is_selected(rules.last(), target) {
        selected_rules(rules.drop_last(), target).push(rule_of(rules.last()))
    } else {
        selected_rules(rules.drop_last(), target)
    }
}

impl Severity {
    /// Reads a severity from its label in lower case.
    pub fn from_label(label: &str) -> (severity: Severity)
        ensures
            severity == severity_of_label(label@),
    {
        if same_text(label, "error") {
            Severity::Error
        } else if same_text(label, "warning") {
            Severity::Warning
        } else if same_text(label, "style") {
            Severity::Style
        } else {
            Severity::Info
        }
    }

    /// Reads a severity from its label in any case.
    pub fn parse(label: &str) -> (severity: Severity)
        ensures
            severity == severity_of_label(lowercase_of(label@)),
    {
        let lower = lowercase(label);
        Severity::from_label(lower.as_str())
    }
}

impl RuleConfig {
    /// Whether this rule reaches the analyzer of the language whose name
    /// in lower case is `target`.
    pub fn applies_to(&self, target: &str) -> (selected: bool)
        ensures
            selected == is_selected(*self, target@),
    {
        if !self.enabled {
            return false;
        }
        match &self.language {
            Some(language) => {
                let lower = lowercase(language.as_str());
                same_text(lower.as_str(), target)
            },
            None => true,
        }
    }

    /// The rule that this configured rule stands for.
    pub fn to_rule(&self) -> (rule: AnalysisRule)
        ensures
            rule == rule_of(*self),
    {
        let severity = Severity::parse(self.severity.as_str());
        AnalysisRule::new(
            self.name.clone(),
            self.query.clone(),
            severity,
            self.message.clone(),
            self.suggestion.clone(),
        ).with_weight(self.weight)
    }
}

impl AnalyzerConfig {
    /// The analyzer for `language`: it has the enabled rules that are for
    /// that language or for every language, in the order of the
    /// configuration. Language names are compared in lower case.
    pub fn to_analyzer_for_language(&self, language: &str) -> (analyzer: CodeAnalyzer)
        ensures
            analyzer@ == selected_rules(self.rules@, lowercase_of(language@)),
    {
        let mut analyzer = CodeAnalyzer::new();
        let target = lowercase(language);
        let mut i: usize = 0;
        while i < self.rules.len()
            invariant
                i <= self.rules.len(),
                target@ == lowercase_of(language@),
                analyzer@ == selected_rules(self.rules@.take(i as int), target@),
            decreases self.rules.len() - i,
        {
            proof {
                assert(self.rules@.take(i + 1).drop_last() == self.rules@.take(i as int));
                assert(self.rules@.take(i + 1).last() == self.rules@[i as int]);
            }
            if self.rules[i].applies_to(target.as_str()) {
                analyzer.add_rule(self.rules[i].to_rule());
            }
            i = i + 1;
        }
        proof {
            assert(self.rules@.take(self.rules.len() as int) == self.rules@);
        }
        analyzer
    }
}

} // verus!
