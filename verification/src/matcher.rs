//! From rules and a text to issues: every node that a rule's pattern
//! captures becomes one issue, in the order of the rules and, within a
//! rule, in the order in which the engine reports matches and captures.

use vstd::prelude::*;
use vstd::utf8::is_ascii_chars;
use tree_sitter::{Language, LanguageError, QueryError, Tree};
use crate::analyzer::{
    issue_for, issue_views, AnalysisResult, AnalysisRule, Capture, CapturedNode, CodeAnalyzer,
    CodeScore, IssueView,
};
use crate::engine::{
    capture_groups, compile_query, compiled_query, parse_outcome, parse_source, query_captures,
    run_query,
};
use crate::scoring::is_score_of;
use crate::text::line_count;

verus! {

/// Why an analysis gave no issues. Any of these ends the whole analysis.
#[derive(Debug)]
pub enum AnalysisError {
    /// The engine cannot parse with the grammar.
    Grammar(LanguageError),
    /// The engine returned no tree for the text.
    Parse,
    /// The pattern of the rule at index `rule` is not valid for the
    /// grammar.
    Pattern { rule: usize, error: QueryError },
    /// The rule at index `rule` captured a node at a row or column whose
    /// number, counted from 1, does not fit the machine's word.
    Position { rule: usize },
}

/// The issues that `rule` raises for the captures of one match.
pub open spec fn issues_of_match(rule: AnalysisRule, captures: Seq<CapturedNode>) -> Seq<
    IssueView,
> {
    captures.map_values(|capture: CapturedNode| issue_for(rule, capture))
}

/// The issues that `rule` raises for its matches: one for every captured
/// node of every match, in order.
pub open spec fn issues_of_matches(rule: AnalysisRule, groups: Seq<Seq<CapturedNode>>) -> Seq<
    IssueView,
>
    decreases groups.len(),
{
    if groups.len() == 0 {
        Seq::empty()
    } else {
        issues_of_matches(rule, groups.drop_last()) + issues_of_match(rule, groups.last())
    }
}

/// Every captured node starts at a row and a column that can be counted
/// from 1 in a machine word.
pub open spec fn positions_fit(groups: Seq<Seq<CapturedNode>>) -> bool {
    forall|i: int, j: int|
        0 <= i < groups.len() && 0 <= j < groups[i].len() ==> {
            &&& (#[trigger] groups[i][j]).row < usize::MAX
            &&& groups[i][j].column < usize::MAX
        }
}

/// What the rule at `index` contributes to the analysis of `tree`: its
/// issues, or the error that ends the analysis.
pub open spec fn rule_outcome(
    rule: AnalysisRule,
    index: usize,
    language: Language,
    tree: Tree,
    source: Seq<char>,
) -> Result<Seq<IssueView>, AnalysisError> {
    match compiled_query(language, rule.query@) {
        Err(error) => Err(AnalysisError::Pattern { rule: index, error }),
        Ok(query) => {
            let groups = query_captures(query, tree, source);
            if positions_fit(groups) {
                Ok(issues_of_matches(rule, groups))
            } else {
                Err(AnalysisError::Position { rule: index })
            }
        },
    }
}

/// The issues of `rules` on `tree`, rule after rule, or the error of the
/// first rule that has one.
pub open spec fn rules_outcome(
    rules: Seq<AnalysisRule>,
    language: Language,
    tree: Tree,
    source: Seq<char>,
) -> Result<Seq<IssueView>, AnalysisError>
    decreases rules.len(),
{
    if rules.len() == 0 {
        Ok(Seq::empty())
    } else {
        match rules_outcome(rules.drop_last(), language, tree, source) {
            Err(error) => Err(error),
            Ok(front) => match rule_outcome(
                rules.last(),
                (rules.len() - 1) as usize,
                language,
                tree,
                source,
            ) {
                Err(error) => Err(error),
                Ok(more) => Ok(front + more),
            },
        }
    }
}

/// The outcome of analysing `source` with `rules` under the grammar
/// `language`.
pub open spec fn analysis_of(rules: Seq<AnalysisRule>, language: Language, source: Seq<char>)
    -> Result<Seq<IssueView>, AnalysisError> {
    match parse_outcome(language, source) {
        Err(error) => Err(AnalysisError::Grammar(error)),
        Ok(None) => Err(AnalysisError::Parse),
        Ok(Some(tree)) => rules_outcome(rules, language, tree, source),
    }
}

/// Every pattern of `rules` is ASCII.
pub open spec fn patterns_are_ascii(rules: Seq<AnalysisRule>) -> bool {
    forall|i: int| 0 <= i < rules.len() ==> is_ascii_chars((#[trigger] rules[i]).query@)
}

/// The issues that `rules` raise, rule after rule, where `matches[i]` holds
/// the matches of `rules[i]`.
pub open spec fn issues_of_rules(
    rules: Seq<AnalysisRule>,
    matches: Seq<Seq<Seq<CapturedNode>>>,
) -> Seq<IssueView>
    decreases rules.len(),
{
    if rules.len() == 0 || matches.len() == 0 {
        Seq::empty()
    } else {
        issues_of_rules(rules.drop_last(), matches.drop_last()) + issues_of_matches(
            rules.last(),
            matches.last(),
        )
    }
}

/// `issues` are raised by `rules`: each rule has matches, at positions
/// that fit, such that the issues are those of the first rule's captures,
/// then those of the second rule's, and so on.
pub open spec fn are_raised_by(issues: Seq<IssueView>, rules: Seq<AnalysisRule>) -> bool {
    exists|matches: Seq<Seq<Seq<CapturedNode>>>|
        {
            &&& matches.len() == rules.len()
            &&& forall|i: int| 0 <= i < matches.len() ==> positions_fit(#[trigger] matches[i])
            &&& #[trigger] issues_of_rules(rules, matches) == issues
        }
}

/// What holds of the outcome of every analysis with `rules`, whatever the
/// engine answered: issues are raised by the rules, and an error of a rule
/// names a rule that is there.
pub open spec fn is_outcome_of(
    outcome: Result<Vec<AnalysisResult>, AnalysisError>,
    rules: Seq<AnalysisRule>,
) -> bool {
    match outcome {
        Ok(issues) => are_raised_by(issue_views(issues@), rules),
        Err(AnalysisError::Pattern { rule, error }) => rule < rules.len(),
        Err(AnalysisError::Position { rule }) => rule < rules.len(),
        Err(_) => true,
    }
}

/// `outcome` is the outcome of analysing `source` with `rules` under the
/// grammar `language`.
pub open spec fn is_analysis_of(
    outcome: Result<Vec<AnalysisResult>, AnalysisError>,
    rules: Seq<AnalysisRule>,
    language: Language,
    source: Seq<char>,
) -> bool {
    match outcome {
        Ok(issues) => analysis_of(rules, language, source) == Ok::<Seq<IssueView>, AnalysisError>(
            issue_views(issues@),
        ),
        Err(error) => analysis_of(rules, language, source) == Err::<
            Seq<IssueView>,
            AnalysisError,
        >(error),
    }
}

/// An error among the first rules is the error of the whole rule set.
pub proof fn lemma_error_ends_analysis(
    rules: Seq<AnalysisRule>,
    count: int,
    language: Language,
    tree: Tree,
    source: Seq<char>,
)
    requires
        0 <= count <= rules.len(),
        rules_outcome(rules.take(count), language, tree, source) is Err,
    ensures
        rules_outcome(rules, language, tree, source) == rules_outcome(
            rules.take(count),
            language,
            tree,
            source,
        ),
    decreases rules.len() - count,
{
    if count == rules.len() {
        assert(rules.take(count) == rules);
    } else {
        assert(rules.take(count + 1).drop_last() == rules.take(count));
        lemma_error_ends_analysis(rules, count + 1, language, tree, source);
    }
}

/// Whether every captured node's row and column can be counted from 1.
pub fn all_positions_fit(groups: &Vec<Vec<Capture>>) -> (fit: bool)
    ensures
        fit == positions_fit(capture_groups(groups@)),
{
    let mut i: usize = 0;
    while i < groups.len()
        invariant
            i <= groups.len(),
            positions_fit(capture_groups(groups@).take(i as int)),
        decreases groups.len() - i,
    {
        let group = &groups[i];
        let mut j: usize = 0;
        while j < group.len()
            invariant
                j <= group.len(),
                i < groups.len(),
                *group == groups@[i as int],
                forall|k: int|
                    0 <= k < j ==> (#[trigger] group@[k]).row < usize::MAX && group@[k].column
                        < usize::MAX,
            decreases group.len() - j,
        {
            if group[j].row == usize::MAX || group[j].column == usize::MAX {
                assert(capture_groups(groups@)[i as int][j as int] == group@[j as int]@);
                return false;
            }
            j = j + 1;
        }
        proof {
            let all = capture_groups(groups@);
            assert forall|a: int, b: int|
                0 <= a < all.take(i + 1).len() && 0 <= b < all.take(i + 1)[a].len() implies {
                &&& (#[trigger] all.take(i + 1)[a][b]).row < usize::MAX
                &&& all.take(i + 1)[a][b].column < usize::MAX
            } by {
                if a < i {
                    assert(all.take(i + 1)[a] == all.take(i as int)[a]);
                } else {
                    assert(all.take(i + 1)[a][b] == group@[b]@);
                }
            }
        }
        i = i + 1;
    }
    proof {
        assert(capture_groups(groups@).take(groups.len() as int) == capture_groups(groups@));
    }
    true
}

/// Turns the matches of `rule`, as the engine reported them, into issues:
/// one for every captured node of every match, in order.
pub fn issues_from_matches(rule: &AnalysisRule, groups: &Vec<Vec<Capture>>) -> (issues: Vec<
    AnalysisResult,
>)
    requires
        positions_fit(capture_groups(groups@)),
    ensures
        issue_views(issues@) == issues_of_matches(*rule, capture_groups(groups@)),
{
    let ghost all = capture_groups(groups@);
    let mut issues: Vec<AnalysisResult> = Vec::new();
    let mut i: usize = 0;
    while i < groups.len()
        invariant
            i <= groups.len(),
            all == capture_groups(groups@),
            positions_fit(all),
            issue_views(issues@) == issues_of_matches(*rule, all.take(i as int)),
        decreases groups.len() - i,
    {
        let group = &groups[i];
        let ghost before = issue_views(issues@);
        let mut j: usize = 0;
        while j < group.len()
            invariant
                j <= group.len(),
                i < groups.len(),
                all == capture_groups(groups@),
                positions_fit(all),
                *group == groups@[i as int],
                issue_views(issues@) == before + issues_of_match(*rule, all[i as int].take(j as int)),
            decreases group.len() - j,
        {
            assert(all[i as int][j as int] == group@[j as int]@);
            let issue = AnalysisResult::from_capture(rule, &group[j]);
            let ghost earlier = issues@;
            issues.push(issue);
            proof {
                assert(issue_views(issues@) == issue_views(earlier).push(issue@));
                assert(all[i as int].take(j + 1) == all[i as int].take(j as int).push(
                    all[i as int][j as int],
                ));
                assert(issues_of_match(*rule, all[i as int].take(j + 1)) == issues_of_match(
                    *rule,
                    all[i as int].take(j as int),
                ).push(issue@));
            }
            j = j + 1;
        }
        proof {
            assert(all[i as int].take(group.len() as int) == all[i as int]);
            assert(all.take(i + 1).drop_last() == all.take(i as int));
            assert(all.take(i + 1).last() == all[i as int]);
        }
        i = i + 1;
    }
    proof {
        assert(all.take(groups.len() as int) == all);
    }
    issues
}

impl CodeAnalyzer {
    /// Applies the rules to `source_code`, parsed with the grammar
    /// `language`: the issues of every rule in the order of the rules, or
    /// the first error. Where the text and the patterns are ASCII the
    /// outcome is fixed by the grammar, the rules and the text.
    pub fn analyze(&self, source_code: &str, language: &Language) -> (outcome: Result<
        Vec<AnalysisResult>,
        AnalysisError,
    >)
        ensures
            is_ascii_chars(source_code@) && patterns_are_ascii(self@) ==> is_analysis_of(
                outcome,
                self@,
                *language,
                source_code@,
            ),
            is_outcome_of(outcome, self@),
    {
        let ghost exact = is_ascii_chars(source_code@) && patterns_are_ascii(self@);
        let tree = match parse_source(language, source_code) {
            Err(error) => {
                return Err(AnalysisError::Grammar(error));
            },
            Ok(None) => {
                return Err(AnalysisError::Parse);
            },
            Ok(Some(tree)) => tree,
        };
        let rules = self.rules();
        let mut results: Vec<AnalysisResult> = Vec::new();
        let ghost mut found: Seq<Seq<Seq<CapturedNode>>> = Seq::empty();
        let mut i: usize = 0;
        proof {
            assert(issue_views(results@) == Seq::<IssueView>::empty());
        }
        while i < rules.len()
            invariant
                i <= rules.len(),
                rules@ == self@,
                exact == (is_ascii_chars(source_code@) && patterns_are_ascii(self@)),
                crate::engine::tree_source(tree) == source_code@,
                exact ==> parse_outcome(*language, source_code@) == Ok::<
                    Option<Tree>,
                    LanguageError,
                >(Some(tree)),
                exact ==> rules_outcome(rules@.take(i as int), *language, tree, source_code@)
                    == Ok::<Seq<IssueView>, AnalysisError>(issue_views(results@)),
                found.len() == i,
                forall|k: int| 0 <= k < found.len() ==> positions_fit(#[trigger] found[k]),
                issues_of_rules(rules@.take(i as int), found) == issue_views(results@),
            decreases rules.len() - i,
        {
            let rule = &rules[i];
            proof {
                assert(rules@.take(i + 1).drop_last() == rules@.take(i as int));
                assert(rules@.take(i + 1).last() == *rule);
                assert(exact ==> is_ascii_chars(rules@[i as int].query@));
            }
            let query = match compile_query(language, rule.query.as_str()) {
                Err(error) => {
                    proof {
                        if exact {
                            lemma_error_ends_analysis(
                                rules@,
                                i + 1,
                                *language,
                                tree,
                                source_code@,
                            );
                        }
                    }
                    return Err(AnalysisError::Pattern { rule: i, error });
                },
                Ok(query) => query,
            };
            let groups = run_query(&query, &tree, source_code);
            if !all_positions_fit(&groups) {
                proof {
                    if exact {
                        lemma_error_ends_analysis(rules@, i + 1, *language, tree, source_code@);
                    }
                }
                return Err(AnalysisError::Position { rule: i });
            }
            let mut more = issues_from_matches(rule, &groups);
            let ghost earlier = results@;
            let ghost added = more@;
            results.append(&mut more);
            proof {
                assert(issue_views(earlier + added) == issue_views(earlier) + issue_views(added));
                let longer = found.push(capture_groups(groups@));
                assert(longer.drop_last() == found);
                assert(longer.last() == capture_groups(groups@));
                found = longer;
            }
            i = i + 1;
        }
        proof {
            assert(rules@.take(rules.len() as int) == rules@);
            assert(issues_of_rules(self@, found) == issue_views(results@));
        }
        Ok(results)
    }

    /// Analyses `source_code` and scores the issues by its number of lines.
    pub fn analyze_with_score(&self, source_code: &str, language: &Language) -> (outcome: Result<
        (Vec<AnalysisResult>, CodeScore),
        AnalysisError,
    >)
        ensures
            match outcome {
                Ok((issues, score)) => {
                    &&& is_ascii_chars(source_code@) && patterns_are_ascii(self@)
                        ==> is_analysis_of(
                        Ok::<Vec<AnalysisResult>, AnalysisError>(issues),
                        self@,
                        *language,
                        source_code@,
                    )
                    &&& is_outcome_of(Ok::<Vec<AnalysisResult>, AnalysisError>(issues), self@)
                    &&& is_score_of(score, issues@, line_count(source_code@))
                },
                Err(error) => {
                    &&& is_ascii_chars(source_code@) && patterns_are_ascii(self@)
                        ==> is_analysis_of(
                        Err::<Vec<AnalysisResult>, AnalysisError>(error),
                        self@,
                        *language,
                        source_code@,
                    )
                    &&& is_outcome_of(Err::<Vec<AnalysisResult>, AnalysisError>(error), self@)
                },
            },
    {
        match self.analyze(source_code, language) {
            Err(error) => Err(error),
            Ok(results) => {
                let score = self.calculate_score(results.as_slice(), source_code);
                Ok((results, score))
            },
        }
    }
}

} // verus!
