//! The visitor: one read-only walk over each unit, node before children and
//! children in document order, showing every node to every rule.

use vstd::prelude::*;
use crate::diagnostics::{internal_error, lemma_views_push, views, Diagnosis, DiagnosisView, Reporter};
use crate::hir::{Expr, ExprKind};
use crate::paths::{Definitions, PathTable};
use crate::resolve::ResolutionTable;
use crate::rule::{Context, Rule};
use crate::ty::{Malformed, TypeTable};

verus! {

/// The findings of a walk, or the node at which it had to stop.
pub type Findings = Result<Seq<DiagnosisView>, Malformed>;

/// `first`, then `second`: the findings of both in that order. Where either
/// stopped, the whole stops at the earlier of the two nodes.
pub open spec fn in_order(first: Findings, second: Findings) -> Findings {
    match (first, second) {
        (Ok(a), Ok(b)) => Ok(a + b),
        (Ok(_), Err(cause)) => Err(cause),
        (Err(cause), _) => Err(cause),
    }
}

/// What one rule finds at the node `expr` itself: nothing if it does not
/// look at nodes of that kind, else what its chain gives.
pub open spec fn rule_findings(rule: Rule, expr: Expr, cx: Context) -> Findings {
    if !rule.wants(expr.node_kind()) {
        Ok(Seq::empty())
    } else {
        match rule.outcome(expr, cx) {
            Ok(Some(diagnosis)) => Ok(seq![diagnosis]),
            Ok(None) => Ok(Seq::empty()),
            Err(cause) => Err(cause),
        }
    }
}

/// What `rules` find at the node `expr` itself, in the order of registration.
/// A match of one rule keeps no other rule from the node.
pub open spec fn node_findings(rules: Seq<Rule>, expr: Expr, cx: Context) -> Findings
    decreases rules.len(),
{
    if rules.len() == 0 {
        Ok(Seq::empty())
    } else {
        in_order(rule_findings(rules[0], expr, cx), node_findings(rules.drop_first(), expr, cx))
    }
}

/// What `rules` find in the tree under `expr`: at the node first, then in
/// its children from left to right.
pub open spec fn tree_findings(rules: Seq<Rule>, expr: Expr, cx: Context) -> Findings
    decreases expr,
{
    in_order(
        node_findings(rules, expr, cx),
        match expr.kind {
            ExprKind::Call { callee, args } => in_order(
                tree_findings(rules, *callee, cx),
                list_findings(rules, args@, cx),
            ),
            ExprKind::MethodCall { args } => list_findings(rules, args@, cx),
            ExprKind::Other { children } => list_findings(rules, children@, cx),
            _ => Ok(Seq::empty()),
        },
    )
}

/// What `rules` find in the trees of `exprs`, one tree after the other.
pub open spec fn list_findings(rules: Seq<Rule>, exprs: Seq<Expr>, cx: Context) -> Findings
    decreases exprs,
{
    if exprs.len() == 0 {
        Ok(Seq::empty())
    } else {
        in_order(tree_findings(rules, exprs[0], cx), list_findings(rules, exprs.drop_first(), cx))
    }
}

/// One function body or module body, with the tables that the host made for
/// it. A unit is analysed on its own.
#[derive(Debug)]
pub struct Unit {
    pub body: Expr,
    pub types: TypeTable,
    pub resolutions: ResolutionTable,
}

/// The visitor: the registered rules, and what stays the same from unit to
/// unit. Nothing in it changes during an analysis.
#[derive(Clone, Debug)]
pub struct Visitor {
    pub rules: Vec<Rule>,
    pub definitions: Definitions,
    pub paths: PathTable,
}

impl Visitor {
    /// What the rules may consult while `unit` is walked.
    pub open spec fn context(self, unit: Unit) -> Context<'static> {
        Context {
            types: &unit.types,
            resolutions: &unit.resolutions,
            definitions: &self.definitions,
            paths: &self.paths,
        }
    }

    /// What the analysis of `unit` reports: every finding of the walk over
    /// its body, or, where the walk had to stop, the one finding that says
    /// so, and no other.
    pub open spec fn unit_report(self, unit: Unit) -> Seq<DiagnosisView> {
        match tree_findings(self.rules@, unit.body, self.context(unit)) {
            Ok(findings) => findings,
            Err(cause) => seq![internal_error(cause)],
        }
    }

    /// What the analysis of `units` reports: the report of each, in their order.
    pub open spec fn session_report(self, units: Seq<Unit>) -> Seq<DiagnosisView>
        decreases units.len(),
    {
        if units.len() == 0 {
            Seq::empty()
        } else {
            self.unit_report(units[0]) + self.session_report(units.drop_first())
        }
    }

    /// A visitor without rules.
    pub fn new(definitions: Definitions, paths: PathTable) -> (visitor: Visitor)
        ensures
            visitor.rules@ == Seq::<Rule>::empty(),
            visitor.definitions == definitions,
            visitor.paths == paths,
    {
        Visitor { rules: Vec::new(), definitions, paths }
    }

    /// Registers `rule` behind the rules that are there.
    pub fn register(&mut self, rule: Rule)
        ensures
            final(self).rules@ == old(self).rules@.push(rule),
            final(self).definitions == old(self).definitions,
            final(self).paths == old(self).paths,
    {
        self.rules.push(rule);
    }

    /// Shows the node `expr` to every rule, in the order of registration,
    /// and appends what they find to `found`.
    fn visit_node(&self, expr: &Expr, cx: &Context, found: &mut Vec<Diagnosis>) -> (result: Result<
        (),
        Malformed,
    >)
        ensures
            match node_findings(self.rules@, *expr, *cx) {
                Ok(findings) => result is Ok && views(final(found)@) == views(old(found)@)
                    + findings,
                Err(cause) => result == Err::<(), _>(cause),
            },
    {
        let kind = expr.kind_of();
        let mut i: usize = 0;
        let ghost mut seen: Seq<DiagnosisView> = Seq::empty();
        assert(self.rules@.skip(0) =~= self.rules@);
        assert(views(found@) + seen =~= views(found@));
        while i < self.rules.len()
            invariant
                i <= self.rules.len(),
                kind == expr.node_kind(),
                views(found@) == views(old(found)@) + seen,
                node_findings(self.rules@, *expr, *cx) == in_order(
                    Ok(seen),
                    node_findings(self.rules@.skip(i as int), *expr, *cx),
                ),
            decreases self.rules.len() - i,
        {
            let ghost rest = self.rules@.skip(i as int);
            assert(rest[0] == self.rules@[i as int]);
            assert(rest.drop_first() =~= self.rules@.skip(i + 1));
            let ghost tail = node_findings(self.rules@.skip(i + 1), *expr, *cx);
            if self.rules[i].is_interested_in(kind) {
                match self.rules[i].evaluate(expr, cx) {
                    Ok(Some(diagnosis)) => {
                        let ghost before = found@;
                        found.push(diagnosis);
                        proof {
                            lemma_views_push(before, diagnosis);
                            assert(views(found@) =~= views(old(found)@) + seen.push(diagnosis@));
                            if tail is Ok {
                                assert(seen + (seq![diagnosis@] + tail->Ok_0) =~= seen.push(
                                    diagnosis@,
                                ) + tail->Ok_0);
                            }
                            seen = seen.push(diagnosis@);
                        }
                    },
                    Ok(None) => {
                        proof {
                            if tail is Ok {
                                assert(Seq::<DiagnosisView>::empty() + tail->Ok_0 =~= tail->Ok_0);
                            }
                        }
                    },
                    Err(cause) => {
                        return Err(cause);
                    },
                }
            } else {
                proof {
                    if tail is Ok {
                        assert(Seq::<DiagnosisView>::empty() + tail->Ok_0 =~= tail->Ok_0);
                    }
                }
            }
            i = i + 1;
        }
        assert(seen + Seq::<DiagnosisView>::empty() =~= seen);
        Ok(())
    }

    /// Walks the tree under `expr`, the node before its children, and
    /// appends what the rules find to `found`.
    fn visit_tree(&self, expr: &Expr, cx: &Context, found: &mut Vec<Diagnosis>) -> (result: Result<
        (),
        Malformed,
    >)
        ensures
            match tree_findings(self.rules@, *expr, *cx) {
                Ok(findings) => result is Ok && views(final(found)@) == views(old(found)@)
                    + findings,
                Err(cause) => result == Err::<(), _>(cause),
            },
        decreases *expr,
    {
        let ghost here = node_findings(self.rules@, *expr, *cx);
        match self.visit_node(expr, cx, found) {
            Err(cause) => {
                return Err(cause);
            },
            Ok(()) => {},
        }
        match &expr.kind {
            ExprKind::Call { callee, args } => {
                let ghost first = tree_findings(self.rules@, **callee, *cx);
                let ghost rest = list_findings(self.rules@, args@, *cx);
                match self.visit_tree(callee, cx, found) {
                    Err(cause) => {
                        return Err(cause);
                    },
                    Ok(()) => {},
                }
                match self.visit_list(args, cx, found) {
                    Err(cause) => {
                        return Err(cause);
                    },
                    Ok(()) => {},
                }
                assert(views(old(found)@) + here->Ok_0 + first->Ok_0 + rest->Ok_0
                    =~= views(old(found)@) + (here->Ok_0 + (first->Ok_0 + rest->Ok_0)));
                Ok(())
            },
            ExprKind::MethodCall { args } => {
                let ghost rest = list_findings(self.rules@, args@, *cx);
                match self.visit_list(args, cx, found) {
                    Err(cause) => {
                        return Err(cause);
                    },
                    Ok(()) => {},
                }
                assert(views(old(found)@) + here->Ok_0 + rest->Ok_0 =~= views(old(found)@)
                    + (here->Ok_0 + rest->Ok_0));
                Ok(())
            },
            ExprKind::Other { children } => {
                let ghost rest = list_findings(self.rules@, children@, *cx);
                match self.visit_list(children, cx, found) {
                    Err(cause) => {
                        return Err(cause);
                    },
                    Ok(()) => {},
                }
                assert(views(old(found)@) + here->Ok_0 + rest->Ok_0 =~= views(old(found)@)
                    + (here->Ok_0 + rest->Ok_0));
                Ok(())
            },
            _ => {
                assert(here->Ok_0 + Seq::<DiagnosisView>::empty() =~= here->Ok_0);
                Ok(())
            },
        }
    }

    /// Walks the trees of `exprs` from left to right.
    fn visit_list(&self, exprs: &Vec<Expr>, cx: &Context, found: &mut Vec<Diagnosis>) -> (result:
        Result<(), Malformed>)
        ensures
            match list_findings(self.rules@, exprs@, *cx) {
                Ok(findings) => result is Ok && views(final(found)@) == views(old(found)@)
                    + findings,
                Err(cause) => result == Err::<(), _>(cause),
            },
        decreases *exprs,
    {
        let mut i: usize = 0;
        let ghost mut seen: Seq<DiagnosisView> = Seq::empty();
        assert(exprs@.skip(0) =~= exprs@);
        assert(views(found@) + seen =~= views(found@));
        while i < exprs.len()
            invariant
                i <= exprs.len(),
                views(found@) == views(old(found)@) + seen,
                list_findings(self.rules@, exprs@, *cx) == in_order(
                    Ok(seen),
                    list_findings(self.rules@, exprs@.skip(i as int), *cx),
                ),
            decreases exprs.len() - i,
        {
            let ghost rest = exprs@.skip(i as int);
            assert(rest[0] == exprs@[i as int]);
            assert(rest.drop_first() =~= exprs@.skip(i + 1));
            let ghost tree = tree_findings(self.rules@, exprs@[i as int], *cx);
            let ghost tail = list_findings(self.rules@, exprs@.skip(i + 1), *cx);
            match self.visit_tree(&exprs[i], cx, found) {
                Err(cause) => {
                    return Err(cause);
                },
                Ok(()) => {},
            }
            proof {
                assert(views(found@) =~= views(old(found)@) + (seen + tree->Ok_0));
                if tail is Ok {
                    assert(seen + (tree->Ok_0 + tail->Ok_0) =~= (seen + tree->Ok_0) + tail->Ok_0);
                }
                seen = seen + tree->Ok_0;
            }
            i = i + 1;
        }
        assert(seen + Seq::<DiagnosisView>::empty() =~= seen);
        Ok(())
    }

    /// Walks the tree under `expr` once, the node before its children and
    /// the children from left to right, and shows each node to every rule.
    /// The findings come in the order of the walk. Where a rule meets a node
    /// that the tables do not know, the walk stops there and hands back that
    /// node and no finding.
    pub fn visit_expr(&self, expr: &Expr, cx: &Context) -> (result: Result<Vec<Diagnosis>, Malformed>)
        ensures
            match result {
                Ok(found) => tree_findings(self.rules@, *expr, *cx) == Ok::<_, Malformed>(
                    views(found@),
                ),
                Err(cause) => tree_findings(self.rules@, *expr, *cx) == Err::<
                    Seq<DiagnosisView>,
                    _,
                >(cause),
            },
    {
        let mut found: Vec<Diagnosis> = Vec::new();
        assert(views(found@) =~= Seq::<DiagnosisView>::empty());
        match self.visit_tree(expr, cx, &mut found) {
            Err(cause) => Err(cause),
            Ok(()) => {
                let ghost findings = tree_findings(self.rules@, *expr, *cx)->Ok_0;
                assert(Seq::<DiagnosisView>::empty() + findings =~= findings);
                Ok(found)
            },
        }
    }

    /// Analyses one unit and reports what was found: the findings of the
    /// whole walk, or, where the unit is malformed, the one finding that
    /// says so. A unit is never reported in part.
    pub fn analyze_unit(&self, unit: &Unit, reporter: &mut Reporter)
        ensures
            final(reporter)@ == old(reporter)@ + self.unit_report(*unit),
    {
        let cx = Context {
            types: &unit.types,
            resolutions: &unit.resolutions,
            definitions: &self.definitions,
            paths: &self.paths,
        };
        match self.visit_expr(&unit.body, &cx) {
            Ok(found) => {
                reporter.report_all(found);
            },
            Err(cause) => {
                reporter.report(Diagnosis::internal(cause));
                assert(reporter@ =~= old(reporter)@ + seq![internal_error(cause)]);
            },
        }
    }

    /// Analyses the units one after the other. A malformed unit costs its own
    /// findings and no others: the units behind it are analysed all the same.
    pub fn analyze(&self, units: &Vec<Unit>, reporter: &mut Reporter)
        ensures
            final(reporter)@ == old(reporter)@ + self.session_report(units@),
    {
        let mut i: usize = 0;
        let ghost mut seen: Seq<DiagnosisView> = Seq::empty();
        assert(units@.skip(0) =~= units@);
        assert(reporter@ + seen =~= reporter@);
        while i < units.len()
            invariant
                i <= units.len(),
                reporter@ == old(reporter)@ + seen,
                self.session_report(units@) == seen + self.session_report(units@.skip(i as int)),
            decreases units.len() - i,
        {
            let ghost rest = units@.skip(i as int);
            assert(rest[0] == units@[i as int]);
            assert(rest.drop_first() =~= units@.skip(i + 1));
            let ghost report = self.unit_report(units@[i as int]);
            let ghost tail = self.session_report(units@.skip(i + 1));
            self.analyze_unit(&units[i], reporter);
            proof {
                assert(reporter@ =~= old(reporter)@ + (seen + report));
                assert(seen + (report + tail) =~= (seen + report) + tail);
                seen = seen + report;
            }
            i = i + 1;
        }
        assert(seen + Seq::<DiagnosisView>::empty() =~= seen);
    }
}

/// Units are analysed independently: the report of two runs of units, one
/// behind the other, is the report of the first and then that of the second.
/// So the reports of workers that took different units can be put together
/// in the order of the units.
pub proof fn lemma_session_report_concat(visitor: Visitor, first: Seq<Unit>, second: Seq<Unit>)
    ensures
        visitor.session_report(first + second) == visitor.session_report(first)
            + visitor.session_report(second),
    decreases first.len(),
{
    if first.len() == 0 {
        assert(first + second =~= second);
        assert(Seq::<DiagnosisView>::empty() + visitor.session_report(second)
            =~= visitor.session_report(second));
    } else {
        assert((first + second).drop_first() =~= first.drop_first() + second);
        lemma_session_report_concat(visitor, first.drop_first(), second);
        assert(visitor.unit_report(first[0]) + (visitor.session_report(first.drop_first())
            + visitor.session_report(second)) =~= (visitor.unit_report(first[0])
            + visitor.session_report(first.drop_first())) + visitor.session_report(second));
    }
}

/// An analysis can be repeated: a second run over the same units, with the
/// same rules and tables, adds to the reporter the same findings as the
/// first, in the same order.
pub proof fn lemma_analysis_repeats(visitor: Visitor, units: Seq<Unit>, before: Seq<DiagnosisView>)
    ensures
        ({
            let once = before + visitor.session_report(units);
            let twice = once + visitor.session_report(units);
            &&& once.skip(before.len() as int) == visitor.session_report(units)
            &&& twice.skip(once.len() as int) == once.skip(before.len() as int)
        }),
{
    let report = visitor.session_report(units);
    let once = before + report;
    let twice = once + report;
    assert(once.skip(before.len() as int) =~= report);
    assert(twice.skip(once.len() as int) =~= report);
}

/// The finding that stands for a malformed unit is no finding of any rule:
/// every finding of a rule carries the lint of the rule.
pub proof fn lemma_internal_error_is_no_rule_finding(
    rule: Rule,
    expr: Expr,
    cx: Context,
    cause: Malformed,
)
    ensures
        rule.outcome(expr, cx) != Ok::<_, Malformed>(Some(internal_error(cause))),
{
}

} // verus!
