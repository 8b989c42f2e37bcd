use vstd::prelude::*;

verus! {

#[derive(Debug, Clone, Copy, PartialEq, Eq, Structural)]
pub enum Severity {
    Error,
    Warning,
}

/// One finding of a validation: its severity, a stable code, a message and
/// the field or path it concerns.
#[derive(Debug, Clone, PartialEq, Eq)]
pub struct ValidationIssue {
    pub severity: Severity,
    pub code: &'static str,
    pub message: String,
    pub path: Option<String>,
}

/// An issue as plain values.
pub struct IssueView {
    pub severity: Severity,
    pub code: Seq<char>,
    pub message: Seq<char>,
    pub path: Option<Seq<char>>,
}

pub open spec fn opt_text(o: Option<String>) -> Option<Seq<char>> {
    match o {
        Some(s) => Some(s@),
        None => None,
    }
}

impl View for ValidationIssue {
    type V = IssueView;

    open spec fn view(&self) -> IssueView {
        IssueView {
            severity: self.severity,
            code: self.code@,
            message: self.message@,
            path: opt_text(self.path),
        }
    }
}

pub open spec fn issue(
    severity: Severity,
    code: Seq<char>,
    message: Seq<char>,
    path: Option<Seq<char>>,
) -> IssueView {
    IssueView { severity, code, message, path }
}

pub open spec fn error_issue(code: Seq<char>, message: Seq<char>, path: Seq<char>) -> IssueView {
    issue(Severity::Error, code, message, Some(path))
}

pub open spec fn warning_issue(code: Seq<char>, message: Seq<char>, path: Seq<char>) -> IssueView {
    issue(Severity::Warning, code, message, Some(path))
}

/// The views of a list of issues.
pub open spec fn views(s: Seq<ValidationIssue>) -> Seq<IssueView> {
    s.map_values(|i: ValidationIssue| i@)
}

/// The issues with the given severity, in their order.
pub open spec fn with_severity(issues: Seq<IssueView>, severity: Severity) -> Seq<IssueView>
    decreases issues.len(),
{
    if issues.len() == 0 {
        Seq::empty()
    } else if issues.last().severity == severity {
        with_severity(issues.drop_last(), severity).push(issues.last())
    } else {
        with_severity(issues.drop_last(), severity)
    }
}

/// The report that a list of issues gives: errors and warnings in their order,
/// valid exactly when there is no error.
pub open spec fn report_of(issues: Seq<IssueView>, report: ValidationReport) -> bool {
    &&& views(report.errors@) == with_severity(issues, Severity::Error)
    &&& views(report.warnings@) == with_severity(issues, Severity::Warning)
    &&& report.valid == (with_severity(issues, Severity::Error).len() == 0)
}

/// The outcome of a validation: the issues split by severity.
#[derive(Debug)]
pub struct ValidationReport {
    pub valid: bool,
    pub errors: Vec<ValidationIssue>,
    pub warnings: Vec<ValidationIssue>,
}

pub proof fn lemma_with_severity_append(a: Seq<IssueView>, b: Seq<IssueView>, severity: Severity)
    ensures
        with_severity(a + b, severity) == with_severity(a, severity) + with_severity(b, severity),
    decreases b.len(),
{
    if b.len() == 0 {
        assert(a + b =~= a);
        assert(with_severity(a, severity) + with_severity(b, severity) =~= with_severity(
            a,
            severity,
        ));
    } else {
        lemma_with_severity_append(a, b.drop_last(), severity);
        assert((a + b).drop_last() =~= a + b.drop_last());
        assert((a + b).last() == b.last());
        if b.last().severity == severity {
            assert(with_severity(a, severity) + with_severity(b, severity) =~= (with_severity(
                a,
                severity,
            ) + with_severity(b.drop_last(), severity)).push(b.last()));
        }
    }
}

/// Every issue of a list lands in exactly one of the two severities.
pub proof fn lemma_with_severity_partition(issues: Seq<IssueView>)
    ensures
        with_severity(issues, Severity::Error).len() + with_severity(issues, Severity::Warning).len()
            == issues.len(),
        (with_severity(issues, Severity::Error).len() == 0) <==> (forall|i: int|
            0 <= i < issues.len() ==> (#[trigger] issues[i]).severity != Severity::Error),
    decreases issues.len(),
{
    if issues.len() > 0 {
        let init = issues.drop_last();
        lemma_with_severity_partition(init);
        assert forall|i: int| 0 <= i < init.len() implies #[trigger] init[i] == issues[i] by {}
        if issues.last().severity != Severity::Error {
            assert forall|i: int| 0 <= i < issues.len() && (forall|k: int|
                0 <= k < init.len() ==> (#[trigger] init[k]).severity != Severity::Error) implies (
            #[trigger] issues[i]).severity != Severity::Error by {
                if i < init.len() {
                    assert(init[i] == issues[i]);
                }
            }
        }
    }
}

impl ValidationIssue {
    /// A copy of this issue.
    pub fn duplicate(&self) -> (r: Self)
        ensures
            r == *self,
    {
        ValidationIssue {
            severity: self.severity,
            code: self.code,
            message: self.message.clone(),
            path: match &self.path {
                Some(p) => Some(p.clone()),
                None => None,
            },
        }
    }
}

/// An error-severity issue.
pub fn error(code: &'static str, message: String, path: Option<String>) -> (r: ValidationIssue)
    ensures
        r == (ValidationIssue { severity: Severity::Error, code, message, path }),
{
    ValidationIssue { severity: Severity::Error, code, message, path }
}

/// A warning-severity issue.
pub fn warning(code: &'static str, message: String, path: Option<String>) -> (r: ValidationIssue)
    ensures
        r == (ValidationIssue { severity: Severity::Warning, code, message, path }),
{
    ValidationIssue { severity: Severity::Warning, code, message, path }
}

impl ValidationReport {
    /// Splits issues into errors and warnings; the report is valid when there is no error.
    pub fn from_issues(issues: Vec<ValidationIssue>) -> (r: Self)
        ensures
            report_of(views(issues@), r),
    {
        let ghost all = issues@;
        let mut rest = issues;
        let mut errors: Vec<ValidationIssue> = Vec::new();
        let mut warnings: Vec<ValidationIssue> = Vec::new();
        assert(views(errors@) =~= Seq::<IssueView>::empty());
        assert(views(warnings@) =~= Seq::<IssueView>::empty());
        assert(views(all.skip(all.len() as int)) =~= Seq::<IssueView>::empty());
        while rest.len() > 0
            invariant
                rest@.len() <= all.len(),
                rest@ == all.take(rest@.len() as int),
                views(errors@) == with_severity(views(all.skip(rest@.len() as int)), Severity::Error),
                views(warnings@) == with_severity(
                    views(all.skip(rest@.len() as int)),
                    Severity::Warning,
                ),
            decreases rest@.len(),
        {
            let ghost k = rest@.len() as int;
            let ghost old_errors = errors@;
            let ghost old_warnings = warnings@;
            let issue = rest.pop().unwrap();
            proof {
                assert(views(all.skip(k - 1)) =~= seq![issue@] + views(all.skip(k)));
                lemma_with_severity_append(seq![issue@], views(all.skip(k)), Severity::Error);
                lemma_with_severity_append(seq![issue@], views(all.skip(k)), Severity::Warning);
                assert(seq![issue@].drop_last() =~= Seq::<IssueView>::empty());
                reveal_with_fuel(with_severity, 2);
                assert(rest@ =~= all.take(k - 1));
            }
            match issue.severity {
                Severity::Error => {
                    errors.insert(0, issue);
                    assert(views(errors@) =~= seq![issue@] + views(old_errors));
                    assert(views(warnings@) =~= views(old_warnings));
                },
                Severity::Warning => {
                    warnings.insert(0, issue);
                    assert(views(warnings@) =~= seq![issue@] + views(old_warnings));
                    assert(views(errors@) =~= views(old_errors));
                },
            }
        }
        assert(all.skip(0) =~= all);
        ValidationReport { valid: errors.len() == 0, errors, warnings }
    }
}

/// A report is valid exactly when none of the issues it was made from is an
/// error, and every issue lands in exactly one of its two lists.
pub proof fn law_report_valid_iff_no_error(issues: Seq<IssueView>, report: ValidationReport)
    requires
        report_of(issues, report),
    ensures
        report.valid <==> (forall|i: int|
            0 <= i < issues.len() ==> (#[trigger] issues[i]).severity != Severity::Error),
        report.errors@.len() + report.warnings@.len() == issues.len(),
{
    lemma_with_severity_partition(issues);
    assert(views(report.errors@).len() == report.errors@.len());
    assert(views(report.warnings@).len() == report.warnings@.len());
}

} // verus!

verus! {

pub proof fn lemma_views_push(s: Seq<ValidationIssue>, x: ValidationIssue)
    ensures
        views(s.push(x)) == views(s).push(x@),
{
    assert(views(s.push(x)) =~= views(s).push(x@));
}

/// Appends an issue to a list of issues.
pub fn add_issue(issues: &mut Vec<ValidationIssue>, issue: ValidationIssue)
    ensures
        views(final(issues)@) == views(old(issues)@).push(issue@),
{
    proof {
        lemma_views_push(issues@, issue);
    }
    issues.push(issue);
}

} // verus!
