use vstd::prelude::*;
use vstd::string::StringExecFns;
use crate::analyzer::{
    AnalysisResult, CodeAnalyzer, CodeScore, Rating, ScoreBreakdown, Severity, MAX_SCORE,
};
use crate::text::{count_lines, decimal_digits, decimal_string, line_count};

verus! {

/// What one issue deducts: the absolute value of its score impact.
pub open spec fn issue_deduction(issue: AnalysisResult) -> nat {
    if issue.score_impact >= 0 {
        issue.score_impact as nat
    } else {
        (-issue.score_impact) as nat
    }
}

/// Number of issues of one severity.
pub open spec fn count_of(issues: Seq<AnalysisResult>, severity: Severity) -> nat
    decreases issues.len(),
{
    if issues.len() == 0 {
        0
    } else {
        count_of(issues.drop_last(), severity) + if issues.last().severity == severity {
            1nat
        } else {
            0nat
        }
    }
}

/// Sum of the deductions of the issues of one severity, in score units.
pub open spec fn deduction_of(issues: Seq<AnalysisResult>, severity: Severity) -> nat
    decreases issues.len(),
{
    if issues.len() == 0 {
        0
    } else {
        deduction_of(issues.drop_last(), severity) + if issues.last().severity == severity {
            issue_deduction(issues.last())
        } else {
            0nat
        }
    }
}

/// Sum of the deductions of all issues, in score units.
pub open spec fn total_deduction(issues: Seq<AnalysisResult>) -> nat {
    deduction_of(issues, Severity::Error) + deduction_of(issues, Severity::Warning)
        + deduction_of(issues, Severity::Info) + deduction_of(issues, Severity::Style)
}

/// Leniency earned by a file of `line_count` lines, in thousandths: one
/// thousandth per line beyond 200, capped at 300 (that is 0.3).
pub open spec fn leniency_milli(line_count: nat) -> nat {
    if line_count <= 200 {
        0
    } else if line_count - 200 < 300 {
        (line_count - 200) as nat
    } else {
        300
    }
}

/// The divisor applied to the total deduction, in thousandths: above 1.0
/// for files over 200 lines, 0.9 for files under 50 lines, else 1.0.
pub open spec fn size_factor_milli(line_count: nat) -> nat {
    if line_count > 200 {
        1_000 + leniency_milli(line_count)
    } else if line_count < 50 {
        900
    } else {
        1_000
    }
}

/// The recorded size bonus in score units: the leniency applied to the
/// info and style deductions, rounded down.
pub open spec fn size_bonus_of(issues: Seq<AnalysisResult>, line_count: nat) -> nat {
    leniency_milli(line_count) * (deduction_of(issues, Severity::Info) + deduction_of(
        issues,
        Severity::Style,
    )) / 1_000
}

/// Ten points less `deduction / size_factor`, not below zero, rounded to
/// the nearest tenth of a point (a half rounds up). `deduction` is in score
/// units, `size_factor` in thousandths; the result counts tenths.
pub open spec fn rounded_tenths(deduction: nat, size_factor: nat) -> nat {
    if deduction >= 100 * size_factor {
        0
    } else {
        ((201 * size_factor - 2 * deduction) / (2 * size_factor as int)) as nat
    }
}

/// The overall score of `issues` in a file of `line_count` lines, in score
/// units.
pub open spec fn overall_score_of(issues: Seq<AnalysisResult>, line_count: nat) -> nat {
    1_000 * rounded_tenths(total_deduction(issues), size_factor_milli(line_count))
}

/// The breakdown that belongs to `issues` in a file of `line_count` lines.
pub open spec fn is_breakdown_of(
    breakdown: ScoreBreakdown,
    issues: Seq<AnalysisResult>,
    line_count: nat,
) -> bool {
    &&& breakdown.errors == count_of(issues, Severity::Error)
    &&& breakdown.warnings == count_of(issues, Severity::Warning)
    &&& breakdown.info_issues == count_of(issues, Severity::Info)
    &&& breakdown.style_issues == count_of(issues, Severity::Style)
    &&& breakdown.error_deduction == deduction_of(issues, Severity::Error)
    &&& breakdown.warning_deduction == deduction_of(issues, Severity::Warning)
    &&& breakdown.info_deduction == deduction_of(issues, Severity::Info)
    &&& breakdown.style_deduction == deduction_of(issues, Severity::Style)
    &&& breakdown.size_bonus == size_bonus_of(issues, line_count)
}

/// Every issue has exactly one severity, so the four counts add up to the
/// number of issues.
pub proof fn lemma_counts_partition(issues: Seq<AnalysisResult>)
    ensures
        count_of(issues, Severity::Error) + count_of(issues, Severity::Warning) + count_of(
            issues,
            Severity::Info,
        ) + count_of(issues, Severity::Style) == issues.len(),
    decreases issues.len(),
{
    if issues.len() > 0 {
        lemma_counts_partition(issues.drop_last());
    }
}

/// No issue deducts more than `2^63` units, so the total is bounded by the
/// number of issues.
pub proof fn lemma_total_deduction_bound(issues: Seq<AnalysisResult>)
    ensures
        total_deduction(issues) <= issues.len() * 0x8000_0000_0000_0000,
    decreases issues.len(),
{
    if issues.len() > 0 {
        lemma_total_deduction_bound(issues.drop_last());
        assert(issue_deduction(issues.last()) <= 0x8000_0000_0000_0000);
        assert((issues.len() - 1) * 0x8000_0000_0000_0000 + 0x8000_0000_0000_0000
            == issues.len() * 0x8000_0000_0000_0000) by (nonlinear_arith);
    }
}

/// Counts the issues of each severity and sums their deductions; the size
/// bonus is left at zero.
pub fn tally(results: &[AnalysisResult]) -> (breakdown: ScoreBreakdown)
    ensures
        is_breakdown_of(breakdown, results@, 0),
{
    let mut breakdown = ScoreBreakdown {
        errors: 0,
        warnings: 0,
        info_issues: 0,
        style_issues: 0,
        error_deduction: 0,
        warning_deduction: 0,
        info_deduction: 0,
        style_deduction: 0,
        size_bonus: 0,
    };
    let mut i: usize = 0;
    while i < results.len()
        invariant
            i <= results.len(),
            is_breakdown_of(breakdown, results@.take(i as int), 0),
        decreases results.len() - i,
    {
        let ghost seen = results@.take(i as int);
        let ghost next = results@.take(i + 1);
        proof {
            assert(next.drop_last() == seen);
            assert(next.last() == results@[i as int]);
            lemma_counts_partition(next);
            lemma_total_deduction_bound(next);
            assert(next.len() * 0x8000_0000_0000_0000 <= 0xffff_ffff_ffff_ffff
                * 0x8000_0000_0000_0000) by (nonlinear_arith)
                requires
                    next.len() <= 0xffff_ffff_ffff_ffff,
            ;
        }
        let impact: i64 = results[i].score_impact;
        let amount: u128 = if impact >= 0 {
            impact as u128
        } else {
            (-(impact as i128)) as u128
        };
        match results[i].severity {
            Severity::Error => {
                breakdown.errors = breakdown.errors + 1;
                breakdown.error_deduction = breakdown.error_deduction + amount;
            },
            Severity::Warning => {
                breakdown.warnings = breakdown.warnings + 1;
                breakdown.warning_deduction = breakdown.warning_deduction + amount;
            },
            Severity::Info => {
                breakdown.info_issues = breakdown.info_issues + 1;
                breakdown.info_deduction = breakdown.info_deduction + amount;
            },
            Severity::Style => {
                breakdown.style_issues = breakdown.style_issues + 1;
                breakdown.style_deduction = breakdown.style_deduction + amount;
            },
        }
        i = i + 1;
    }
    proof {
        assert(results@.take(results.len() as int) == results@);
    }
    breakdown
}

/// The one-line summary of a score. The first of these that applies
/// decides: an error, more than five warnings, more than ten info issues, a
/// score of nine points or more, a score of seven and a half or more.
pub open spec fn summary_text(score: nat, errors: nat, warnings: nat, info_issues: nat) -> Seq<
    char,
> {
    if errors > 0 {
        "Code has "@ + decimal_digits(errors)
            + " critical errors that need immediate attention"@
    } else if warnings > 5 {
        "Multiple warnings detected - consider addressing them"@
    } else if info_issues > 10 {
        "Many minor issues found - good opportunity for cleanup"@
    } else if score >= 90_000 {
        "Excellent code quality with minimal issues"@
    } else if score >= 75_000 {
        "Good code quality with room for minor improvements"@
    } else {
        "Code needs improvement in several areas"@
    }
}

/// `score` is the score of `issues` in a file of `line_count` lines.
pub open spec fn is_score_of(score: CodeScore, issues: Seq<AnalysisResult>, line_count: nat) -> bool {
    &&& score.overall_score == overall_score_of(issues, line_count)
    &&& score.max_score == MAX_SCORE
    &&& score.total_issues == issues.len()
    &&& is_breakdown_of(score.breakdown, issues, line_count)
    &&& score.rating@ == Rating::of_score(score.overall_score as nat).label_text()
    &&& score.summary@ == summary_text(
        score.overall_score as nat,
        score.breakdown.errors as nat,
        score.breakdown.warnings as nat,
        score.breakdown.info_issues as nat,
    )
}

/// The rounded score never exceeds ten points.
pub proof fn lemma_rounded_tenths_bound(deduction: nat, size_factor: nat)
    requires
        size_factor > 0,
    ensures
        rounded_tenths(deduction, size_factor) <= 100,
{
    if deduction < 100 * size_factor {
        let numerator = 201 * size_factor - 2 * deduction;
        let denominator = 2 * size_factor as int;
        assert(numerator / denominator <= 100) by (nonlinear_arith)
            requires
                0 <= numerator < 101 * denominator,
                denominator > 0,
        ;
    }
}

/// Computes the leniency of a file of `line_count` lines, in thousandths.
pub fn leniency_for(line_count: usize) -> (leniency: u64)
    ensures
        leniency == leniency_milli(line_count as nat),
        leniency <= 300,
{
    if line_count <= 200 {
        0
    } else if line_count - 200 < 300 {
        (line_count - 200) as u64
    } else {
        300
    }
}

/// Computes the size factor of a file of `line_count` lines, in
/// thousandths.
pub fn size_factor_for(line_count: usize) -> (factor: u64)
    ensures
        factor == size_factor_milli(line_count as nat),
        900 <= factor <= 1_300,
{
    if line_count > 200 {
        1_000 + leniency_for(line_count)
    } else if line_count < 50 {
        900
    } else {
        1_000
    }
}

/// Rounds ten points less `deduction / size_factor` to tenths of a point.
pub fn round_to_tenths(deduction: u128, size_factor: u64) -> (tenths: u64)
    requires
        size_factor > 0,
    ensures
        tenths == rounded_tenths(deduction as nat, size_factor as nat),
        tenths <= 100,
{
    proof {
        lemma_rounded_tenths_bound(deduction as nat, size_factor as nat);
    }
    let factor: u128 = size_factor as u128;
    if deduction >= 100 * factor {
        0
    } else {
        ((201 * factor - 2 * deduction) / (2 * factor)) as u64
    }
}

impl CodeAnalyzer {
    /// Selects the rating and the summary of a score, given in score units,
    /// with its breakdown.
    pub fn get_rating_and_summary(&self, score: u64, breakdown: &ScoreBreakdown) -> (out: (
        String,
        String,
    ))
        ensures
            out.0@ == Rating::of_score(score as nat).label_text(),
            out.1@ == summary_text(
                score as nat,
                breakdown.errors as nat,
                breakdown.warnings as nat,
                breakdown.info_issues as nat,
            ),
    {
        let rating = String::from_str(Rating::from_score(score).label());
        let summary = if breakdown.errors > 0 {
            let count = decimal_string(breakdown.errors);
            String::from_str("Code has ").concat(count.as_str()).concat(
                " critical errors that need immediate attention",
            )
        } else if breakdown.warnings > 5 {
            String::from_str("Multiple warnings detected - consider addressing them")
        } else if breakdown.info_issues > 10 {
            String::from_str("Many minor issues found - good opportunity for cleanup")
        } else if score >= 90_000 {
            String::from_str("Excellent code quality with minimal issues")
        } else if score >= 75_000 {
            String::from_str("Good code quality with room for minor improvements")
        } else {
            String::from_str("Code needs improvement in several areas")
        };
        (rating, summary)
    }

    /// Scores `results` for a file of `line_count` lines.
    pub fn score_for_line_count(&self, results: &[AnalysisResult], line_count: usize) -> (score:
        CodeScore)
        ensures
            is_score_of(score, results@, line_count as nat),
            score.overall_score <= MAX_SCORE,
            score.total_issues == score.breakdown.errors + score.breakdown.warnings
                + score.breakdown.info_issues + score.breakdown.style_issues,
    {
        let total_issues: usize = results.len();
        let mut breakdown = tally(results);
        proof {
            lemma_counts_partition(results@);
            lemma_total_deduction_bound(results@);
            assert(total_issues * 0x8000_0000_0000_0000 <= 0xffff_ffff_ffff_ffff
                * 0x8000_0000_0000_0000) by (nonlinear_arith)
                requires
                    total_issues <= 0xffff_ffff_ffff_ffff,
            ;
        }
        let total: u128 = breakdown.error_deduction + breakdown.warning_deduction
            + breakdown.info_deduction + breakdown.style_deduction;
        let leniency: u128 = leniency_for(line_count) as u128;
        let minor: u128 = breakdown.info_deduction + breakdown.style_deduction;
        let whole: u128 = minor / 1_000;
        let rest: u128 = minor % 1_000;
        proof {
            assert(whole * leniency <= minor) by (nonlinear_arith)
                requires
                    whole * 1_000 <= minor,
                    0 <= leniency <= 300,
                    0 <= whole,
            ;
            assert(rest * leniency <= 999 * 300) by (nonlinear_arith)
                requires
                    0 <= rest <= 999,
                    0 <= leniency <= 300,
            ;
            assert(leniency * minor == rest * leniency + (whole * leniency) * 1_000)
                by (nonlinear_arith)
                requires
                    minor == whole * 1_000 + rest,
            ;
            vstd::arithmetic::div_mod::lemma_hoist_over_denominator(
                rest * leniency,
                (whole * leniency) as int,
                1_000,
            );
        }
        breakdown.size_bonus = whole * leniency + rest * leniency / 1_000;
        let tenths: u64 = round_to_tenths(total, size_factor_for(line_count));
        let overall: u64 = 1_000 * tenths;
        let (rating, summary) = self.get_rating_and_summary(overall, &breakdown);
        CodeScore {
            overall_score: overall,
            max_score: MAX_SCORE,
            total_issues,
            breakdown,
            rating,
            summary,
        }
    }

    /// Scores `results` for the analysed text `source_code`, by its number
    /// of lines.
    pub fn calculate_score(&self, results: &[AnalysisResult], source_code: &str) -> (score:
        CodeScore)
        ensures
            is_score_of(score, results@, line_count(source_code@)),
            score.overall_score <= MAX_SCORE,
            score.total_issues == score.breakdown.errors + score.breakdown.warnings
                + score.breakdown.info_issues + score.breakdown.style_issues,
    {
        self.score_for_line_count(results, count_lines(source_code))
    }
}

} // verus!
