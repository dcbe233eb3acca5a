//! What holds of every score and of every analysis, stated over the
//! functions that define them.

use vstd::prelude::*;
use vstd::utf8::is_ascii_chars;
use vstd::arithmetic::div_mod::{lemma_div_is_ordered, lemma_fundamental_div_mod};
use tree_sitter::Language;
use crate::analyzer::{
    issue_views, AnalysisResult, AnalysisRule, CapturedNode, CodeScore, IssueView, Rating,
    Severity, MAX_SCORE, WEIGHT_ONE,
};
use crate::matcher::{
    are_raised_by, is_analysis_of, issues_of_matches, issues_of_rules, patterns_are_ascii,
    positions_fit, AnalysisError,
};
use crate::scoring::{
    count_of, deduction_of, is_score_of, issue_deduction, leniency_milli, overall_score_of,
    rounded_tenths, size_bonus_of, size_factor_milli, total_deduction,
};

verus! {

/// The overall score lies between zero and ten points and is a whole
/// number of tenths, for all issues and all line counts.
pub proof fn lemma_score_in_range(issues: Seq<AnalysisResult>, line_count: nat)
    ensures
        0 <= overall_score_of(issues, line_count) <= MAX_SCORE,
        overall_score_of(issues, line_count) % 1_000 == 0,
{
    crate::scoring::lemma_rounded_tenths_bound(
        total_deduction(issues),
        size_factor_milli(line_count),
    );
}

/// The total of a score is the number of issues, and the four severity
/// counts of its breakdown add up to it.
pub proof fn lemma_counts_sum_to_total(
    score: CodeScore,
    issues: Seq<AnalysisResult>,
    line_count: nat,
)
    requires
        is_score_of(score, issues, line_count),
    ensures
        score.total_issues == issues.len(),
        score.total_issues == score.breakdown.errors + score.breakdown.warnings
            + score.breakdown.info_issues + score.breakdown.style_issues,
{
    crate::scoring::lemma_counts_partition(issues);
}

/// Counts and deductions go by what the issues hold: two lists with the
/// same views have the same counts and the same deductions.
pub proof fn lemma_tallies_go_by_views(
    first: Seq<AnalysisResult>,
    second: Seq<AnalysisResult>,
    severity: Severity,
)
    requires
        issue_views(first) == issue_views(second),
    ensures
        first.len() == second.len(),
        count_of(first, severity) == count_of(second, severity),
        deduction_of(first, severity) == deduction_of(second, severity),
    decreases first.len(),
{
    assert(issue_views(first).len() == first.len());
    assert(issue_views(second).len() == second.len());
    if first.len() > 0 {
        assert(issue_views(first).last() == first.last()@);
        assert(issue_views(second).last() == second.last()@);
        assert(issue_views(first.drop_last()) == issue_views(first).drop_last());
        assert(issue_views(second.drop_last()) == issue_views(second).drop_last());
        lemma_tallies_go_by_views(first.drop_last(), second.drop_last(), severity);
    }
}

/// The same issues and line count give the same score: any two scores of
/// issue lists that hold the same agree in every part.
pub proof fn lemma_score_is_determined(
    first: CodeScore,
    first_issues: Seq<AnalysisResult>,
    second: CodeScore,
    second_issues: Seq<AnalysisResult>,
    line_count: nat,
)
    requires
        issue_views(first_issues) == issue_views(second_issues),
        is_score_of(first, first_issues, line_count),
        is_score_of(second, second_issues, line_count),
    ensures
        first.overall_score == second.overall_score,
        first.max_score == second.max_score,
        first.total_issues == second.total_issues,
        first.breakdown == second.breakdown,
        first.rating@ == second.rating@,
        first.summary@ == second.summary@,
{
    lemma_tallies_go_by_views(first_issues, second_issues, Severity::Error);
    lemma_tallies_go_by_views(first_issues, second_issues, Severity::Warning);
    lemma_tallies_go_by_views(first_issues, second_issues, Severity::Info);
    lemma_tallies_go_by_views(first_issues, second_issues, Severity::Style);
}

/// The same rules, grammar and text give the same issues or the same
/// error: any two outcomes that are the analysis of them agree. An
/// analysis states that of its outcome where the text and the patterns
/// are ASCII; beyond ASCII the engine goes by the locale of the process.
pub proof fn lemma_analysis_is_determined(
    first: Result<Vec<AnalysisResult>, AnalysisError>,
    second: Result<Vec<AnalysisResult>, AnalysisError>,
    rules: Seq<AnalysisRule>,
    language: Language,
    source: Seq<char>,
)
    requires
        is_ascii_chars(source),
        patterns_are_ascii(rules),
        is_analysis_of(first, rules, language, source),
        is_analysis_of(second, rules, language, source),
    ensures
        first is Ok <==> second is Ok,
        first matches Ok(issues) ==> issue_views(issues@) == issue_views(second->Ok_0@),
        first matches Err(error) ==> second == Err::<Vec<AnalysisResult>, AnalysisError>(error),
{
}

/// Every issue that rules raise has the name, the severity and the impact
/// of one of the rules, whatever the engine matched.
pub proof fn lemma_raised_issues_carry_a_rule(
    issues: Seq<IssueView>,
    rules: Seq<AnalysisRule>,
    index: int,
)
    requires
        are_raised_by(issues, rules),
        0 <= index < issues.len(),
    ensures
        exists|r: int|
            0 <= r < rules.len() && issues[index].rule_name == (#[trigger] rules[r]).name@
                && issues[index].severity == rules[r].severity && issues[index].score_impact
                == rules[r].impact(),
        issues[index].score_impact <= 0,
{
    let matches = choose|matches: Seq<Seq<Seq<CapturedNode>>>|
        {
            &&& matches.len() == rules.len()
            &&& forall|i: int| 0 <= i < matches.len() ==> positions_fit(#[trigger] matches[i])
            &&& #[trigger] issues_of_rules(rules, matches) == issues
        };
    let r = lemma_issue_of_rules(rules, matches, index);
    lemma_impact_is_weighted_base(rules[r]);
}

/// The issue at `index` among those of `rules` is an issue of one rule;
/// the lemma returns that rule's index.
pub proof fn lemma_issue_of_rules(
    rules: Seq<AnalysisRule>,
    matches: Seq<Seq<Seq<CapturedNode>>>,
    index: int,
) -> (r: int)
    requires
        matches.len() == rules.len(),
        0 <= index < issues_of_rules(rules, matches).len(),
    ensures
        0 <= r < rules.len(),
        issues_of_rules(rules, matches)[index].rule_name == rules[r].name@,
        issues_of_rules(rules, matches)[index].severity == rules[r].severity,
        issues_of_rules(rules, matches)[index].score_impact == rules[r].impact(),
    decreases rules.len(),
{
    let front = issues_of_rules(rules.drop_last(), matches.drop_last());
    if index < front.len() {
        lemma_issue_of_rules(rules.drop_last(), matches.drop_last(), index)
    } else {
        lemma_issues_carry_their_rule(rules.last(), matches.last(), index - front.len());
        rules.len() - 1
    }
}

/// Every issue of a rule has the rule's name, severity and impact.
pub proof fn lemma_issues_carry_their_rule(
    rule: AnalysisRule,
    groups: Seq<Seq<CapturedNode>>,
    index: int,
)
    requires
        0 <= index < issues_of_matches(rule, groups).len(),
    ensures
        issues_of_matches(rule, groups)[index].rule_name == rule.name@,
        issues_of_matches(rule, groups)[index].severity == rule.severity,
        issues_of_matches(rule, groups)[index].score_impact == rule.impact(),
        issues_of_matches(rule, groups)[index].score_impact
            == -(rule.severity.magnitude_tenths() * rule.weight_multiplier),
    decreases groups.len(),
{
    if groups.len() > 0 {
        let front = issues_of_matches(rule, groups.drop_last());
        if index < front.len() {
            lemma_issues_carry_their_rule(rule, groups.drop_last(), index);
        }
    }
}

/// A rule's impact is its severity's base impact times its weight, where
/// the weight counts thousandths; it is never positive.
pub proof fn lemma_impact_is_weighted_base(rule: AnalysisRule)
    ensures
        rule.impact() * WEIGHT_ONE == rule.severity.base_impact() * rule.weight_multiplier,
        rule.impact() <= 0,
{
    let tenths = rule.severity.magnitude_tenths();
    let weight = rule.weight_multiplier as int;
    assert(-(tenths * weight) * 1_000 == -(tenths * 1_000) * weight) by (nonlinear_arith);
    assert(tenths * weight >= 0) by (nonlinear_arith)
        requires
            tenths >= 0,
            weight >= 0,
    ;
}

/// The deduction of a concatenation is the sum of the deductions.
pub proof fn lemma_deduction_of_concat(
    front: Seq<AnalysisResult>,
    back: Seq<AnalysisResult>,
    severity: Severity,
)
    ensures
        deduction_of(front + back, severity) == deduction_of(front, severity) + deduction_of(
            back,
            severity,
        ),
    decreases back.len(),
{
    if back.len() == 0 {
        assert(front + back == front);
    } else {
        assert((front + back).drop_last() == front + back.drop_last());
        assert((front + back).last() == back.last());
        lemma_deduction_of_concat(front, back.drop_last(), severity);
    }
}

/// Inserting an issue anywhere adds its deduction to the total.
pub proof fn lemma_total_after_insert(
    issues: Seq<AnalysisResult>,
    position: int,
    issue: AnalysisResult,
)
    requires
        0 <= position <= issues.len(),
    ensures
        total_deduction(issues.insert(position, issue)) == total_deduction(issues)
            + issue_deduction(issue),
{
    let front = issues.subrange(0, position);
    let back = issues.subrange(position, issues.len() as int);
    assert(front + back == issues);
    assert(front.push(issue).drop_last() == front);
    assert forall|severity: Severity|
        deduction_of(issues.insert(position, issue), severity) == deduction_of(issues, severity)
            + if issue.severity == severity {
            issue_deduction(issue)
        } else {
            0nat
        } by {
        lemma_deduction_of_concat(front, back, severity);
        lemma_deduction_of_concat(front.push(issue), back, severity);
    }
}

/// A larger deduction never gives a higher rounded score.
pub proof fn lemma_rounding_is_monotonic(smaller: nat, larger: nat, size_factor: nat)
    requires
        smaller <= larger,
        size_factor > 0,
    ensures
        rounded_tenths(larger, size_factor) <= rounded_tenths(smaller, size_factor),
{
    if larger < 100 * size_factor {
        lemma_div_is_ordered(
            201 * size_factor - 2 * larger,
            201 * size_factor - 2 * smaller,
            2 * size_factor as int,
        );
    }
}

/// Adding an issue, at any position and with all else fixed, never
/// increases the overall score.
pub proof fn lemma_adding_issue_never_raises_score(
    issues: Seq<AnalysisResult>,
    position: int,
    issue: AnalysisResult,
    line_count: nat,
)
    requires
        0 <= position <= issues.len(),
    ensures
        overall_score_of(issues.insert(position, issue), line_count) <= overall_score_of(
            issues,
            line_count,
        ),
{
    lemma_total_after_insert(issues, position, issue);
    lemma_rounding_is_monotonic(
        total_deduction(issues),
        total_deduction(issues.insert(position, issue)),
        size_factor_milli(line_count),
    );
}

/// The leniency is capped at 0.3 however long the file is, and the size
/// factor at 1.3.
pub proof fn lemma_leniency_is_capped(line_count: nat)
    ensures
        leniency_milli(line_count) <= 300,
        leniency_milli(line_count) > 0 <==> line_count > 200,
        900 <= size_factor_milli(line_count) <= 1_300,
{
}

/// A size bonus is recorded only for files of more than 200 lines, and it
/// is never more than 0.3 of the info and style deductions.
pub proof fn lemma_size_bonus_needs_large_file(issues: Seq<AnalysisResult>, line_count: nat)
    ensures
        size_bonus_of(issues, line_count) > 0 ==> line_count > 200,
        10 * size_bonus_of(issues, line_count) <= 3 * (deduction_of(issues, Severity::Info)
            + deduction_of(issues, Severity::Style)),
{
    let minor = deduction_of(issues, Severity::Info) + deduction_of(issues, Severity::Style);
    let leniency = leniency_milli(line_count);
    let product = (leniency * minor) as int;
    assert(0 <= leniency * minor <= 300 * minor) by (nonlinear_arith)
        requires
            0 <= leniency <= 300,
            0 <= minor,
    ;
    lemma_fundamental_div_mod(product, 1_000);
    if line_count <= 200 {
        assert(leniency * minor == 0) by (nonlinear_arith)
            requires
                leniency == 0,
        ;
    }
}

/// The rounded score is the tenth nearest to ten points less
/// `deduction / size_factor`, a half rounding up; it is zero where the
/// deduction uses up the ten points.
pub proof fn lemma_rounding_is_nearest(deduction: nat, size_factor: nat)
    requires
        size_factor > 0,
    ensures
        deduction >= 100 * size_factor ==> rounded_tenths(deduction, size_factor) == 0,
        deduction < 100 * size_factor ==> {
            let exact_times_factor = 100 * size_factor - deduction;
            let rounded_times_factor = rounded_tenths(deduction, size_factor) * size_factor;
            &&& 2 * rounded_times_factor - size_factor <= 2 * exact_times_factor
            &&& 2 * exact_times_factor < 2 * rounded_times_factor + size_factor
        },
{
    if deduction < 100 * size_factor {
        let numerator = 201 * size_factor - 2 * deduction;
        let denominator = 2 * size_factor as int;
        lemma_fundamental_div_mod(numerator, denominator);
        let quotient = numerator / denominator;
        assert(denominator * quotient == 2 * (quotient * size_factor)) by (nonlinear_arith)
            requires
                denominator == 2 * size_factor,
        ;
    }
}

/// The rating bands partition the scores from zero to ten points at the
/// granularity of a tenth: the bands adjoin from zero up to ten points, so
/// every such score lies in the band of exactly one rating, and that is
/// the rating it gets.
pub proof fn lemma_rating_bands_partition(score: nat, rating: Rating)
    requires
        score <= MAX_SCORE,
        score % 1_000 == 0,
    ensures
        (rating.lowest() <= score <= rating.highest()) <==> Rating::of_score(score) == rating,
        Rating::of_score(score).lowest() <= score <= Rating::of_score(score).highest(),
        Rating::Critical.lowest() == 0,
        Rating::Critical.highest() + 1_000 == Rating::Poor.lowest(),
        Rating::Poor.highest() + 1_000 == Rating::Fair.lowest(),
        Rating::Fair.highest() + 1_000 == Rating::Good.lowest(),
        Rating::Good.highest() + 1_000 == Rating::Excellent.lowest(),
        Rating::Excellent.highest() == MAX_SCORE,
{
    let tenths = score / 1_000;
    assert(score == 1_000 * tenths);
}

} // verus!
