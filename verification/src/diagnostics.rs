//! Findings, and the reporter that collects them in the order they are made.

use vstd::prelude::*;
use crate::hir::Span;
use crate::ty::Malformed;

verus! {

/// How serious a finding is.
#[derive(Clone, Copy, Debug, PartialEq, Eq, Structural)]
pub enum Severity {
    Warning,
    Error,
}

/// The group that a lint belongs to.
#[derive(Clone, Copy, Debug, PartialEq, Eq, Structural)]
pub enum Category {
    Correctness,
    Style,
    Complexity,
    Perf,
    Pedantic,
    Restriction,
}

/// The name under which a rule is known, with its group and what it is about.
#[derive(Clone, Debug, PartialEq, Eq)]
pub struct Lint {
    pub name: String,
    pub category: Category,
    pub description: String,
}

/// A `Lint` by the characters of its texts.
pub struct LintView {
    pub name: Seq<char>,
    pub category: Category,
    pub description: Seq<char>,
}

impl View for Lint {
    type V = LintView;

    open spec fn view(&self) -> LintView {
        LintView { name: self.name@, category: self.category, description: self.description@ }
    }
}

impl Lint {
    /// A copy with the same texts.
    pub fn duplicate(&self) -> (copy: Lint)
        ensures
            copy@ == self@,
    {
        Lint {
            name: self.name.clone(),
            category: self.category,
            description: self.description.clone(),
        }
    }
}

/// One finding: where, how serious, what, and what to do about it.
#[derive(Clone, Debug, PartialEq, Eq)]
pub struct Diagnosis {
    pub span: Span,
    pub severity: Severity,
    /// One line.
    pub summary: String,
    /// May run over several lines.
    pub help: String,
    /// The lint of the rule that made the finding; `None` where the analysis
    /// itself reports that it could not go on.
    pub lint: Option<Lint>,
}

/// A `Diagnosis` by the characters of its texts.
pub struct DiagnosisView {
    pub span: Span,
    pub severity: Severity,
    pub summary: Seq<char>,
    pub help: Seq<char>,
    pub lint: Option<LintView>,
}

impl View for Diagnosis {
    type V = DiagnosisView;

    open spec fn view(&self) -> DiagnosisView {
        DiagnosisView {
            span: self.span,
            severity: self.severity,
            summary: self.summary@,
            help: self.help@,
            lint: match self.lint {
                Some(lint) => Some(lint@),
                None => None,
            },
        }
    }
}

/// The summary of the finding that stands for a unit that could not be analysed.
pub const INTERNAL_ERROR_SUMMARY: &'static str = "internal error: expression without a type";

/// The help text of that finding.
pub const INTERNAL_ERROR_HELP: &'static str =
    "the expression tree and the type table of this unit do not belong together; the unit was not analysed";

/// The finding that stands for a unit that could not be analysed.
pub open spec fn internal_error(cause: Malformed) -> DiagnosisView {
    DiagnosisView {
        span: cause.span,
        severity: Severity::Error,
        summary: INTERNAL_ERROR_SUMMARY@,
        help: INTERNAL_ERROR_HELP@,
        lint: None,
    }
}

impl Diagnosis {
    /// The finding that stands for a unit that could not be analysed. It
    /// carries no lint, which sets it apart from every finding of a rule.
    pub fn internal(cause: Malformed) -> (diagnosis: Diagnosis)
        ensures
            diagnosis@ == internal_error(cause),
    {
        Diagnosis {
            span: cause.span,
            severity: Severity::Error,
            summary: INTERNAL_ERROR_SUMMARY.to_owned(),
            help: INTERNAL_ERROR_HELP.to_owned(),
            lint: None,
        }
    }
}

/// The findings of `records`, one by one.
pub open spec fn views(records: Seq<Diagnosis>) -> Seq<DiagnosisView> {
    Seq::new(records.len(), |i: int| records[i]@)
}

/// The findings of a list with one record more are those of the list and
/// the finding of that record.
pub proof fn lemma_views_push(records: Seq<Diagnosis>, diagnosis: Diagnosis)
    ensures
        views(records.push(diagnosis)) == views(records).push(diagnosis@),
{
    assert(views(records.push(diagnosis)) =~= views(records).push(diagnosis@));
}

/// Collects findings in the order in which they are reported. It neither
/// drops nor merges any: two findings on one span stay two.
#[derive(Clone, Debug)]
pub struct Reporter {
    pub records: Vec<Diagnosis>,
}

impl View for Reporter {
    type V = Seq<DiagnosisView>;

    open spec fn view(&self) -> Seq<DiagnosisView> {
        views(self.records@)
    }
}

impl Reporter {
    /// A reporter that holds nothing yet.
    pub fn new() -> (reporter: Reporter)
        ensures
            reporter@ == Seq::<DiagnosisView>::empty(),
    {
        let reporter = Reporter { records: Vec::new() };
        assert(reporter@ =~= Seq::<DiagnosisView>::empty());
        reporter
    }

    /// Appends one finding.
    pub fn report(&mut self, diagnosis: Diagnosis)
        ensures
            final(self)@ == old(self)@.push(diagnosis@),
    {
        self.records.push(diagnosis);
        proof {
            lemma_views_push(old(self).records@, diagnosis);
        }
    }

    /// Appends findings, in their order.
    pub fn report_all(&mut self, findings: Vec<Diagnosis>)
        ensures
            final(self)@ == old(self)@ + views(findings@),
    {
        let ghost added = findings@;
        let mut findings = findings;
        self.records.append(&mut findings);
        assert(self@ =~= old(self)@ + views(added));
    }

    /// How many findings were reported.
    pub fn len(&self) -> (n: usize)
        ensures
            n == self@.len(),
    {
        self.records.len()
    }
}

} // verus!
