//! The rule against references made of nothing: a call without arguments
//! whose result is a reference and whose callee fills its result with zero
//! bytes or leaves it unwritten.

use vstd::prelude::*;
use crate::diagnostics::{Category, Diagnosis, DiagnosisView, Lint, LintView, Reporter, Severity};
use crate::hir::{Expr, ExprKind, NodeKind, Span};
use crate::paths::RuleTag;
use crate::rule::{is_direct_call, resolved_callee, run_chain, Context, Guard, Rule, Step};
use crate::resolve::SymbolIdentity;
use crate::ty::{Malformed, TypeShape};
use crate::visitor::{list_findings, node_findings, rule_findings, tree_findings};

verus! {

/// The name of the lint.
pub const INVALID_REF: &'static str = "invalid_ref";

/// What the lint is about.
pub const DESCRIPTION: &'static str = "creation of invalid reference";

/// The summary of a finding on a zero-filled reference.
pub const ZERO_REF_SUMMARY: &'static str = "null reference";

/// The summary of a finding on an unwritten reference.
pub const UNINIT_REF_SUMMARY: &'static str = "uninitialized reference";

/// The help text of every finding.
pub const HELP: &'static str =
    "Creation of a null or uninitialized reference is undefined behavior; see https://doc.rust-lang.org/reference/behavior-considered-undefined.html";

/// Checks for the creation of references with a null or an uninitialized
/// value. Such a reference is undefined behaviour even if it is never read
/// through.
///
/// ```text
/// let bad_ref: &usize = std::mem::zeroed();
/// let also_bad_ref: &usize = std::mem::uninitialized();
/// ```
///
/// The type that counts is the one that inference recorded for the call.
/// Whether the binding that takes the result is annotated plays no part: an
/// unannotated `let r = std::mem::zeroed();` is flagged exactly if the type
/// table says that the call gives a reference.
#[derive(Clone, Copy, Debug, PartialEq, Eq)]
pub struct InvalidRef;

/// The lint of `InvalidRef`.
pub open spec fn invalid_ref_lint() -> LintView {
    LintView { name: INVALID_REF@, category: Category::Correctness, description: DESCRIPTION@ }
}

/// The summary for a callee with `tag`.
pub open spec fn summary_of(tag: RuleTag) -> Seq<char> {
    match tag {
        RuleTag::ZeroFill => ZERO_REF_SUMMARY@,
        RuleTag::Uninitialized => UNINIT_REF_SUMMARY@,
    }
}

/// The finding of `InvalidRef` on an expression at `span` whose callee has `tag`.
pub open spec fn invalid_ref_finding(span: Span, tag: RuleTag) -> DiagnosisView {
    DiagnosisView {
        span,
        severity: Severity::Error,
        summary: summary_of(tag),
        help: HELP@,
        lint: Some(invalid_ref_lint()),
    }
}

/// Whether `rule` is the rule of `InvalidRef`, as a guard chain.
pub open spec fn is_invalid_ref_rule(rule: Rule) -> bool {
    &&& rule.lint@ == invalid_ref_lint()
    &&& rule.severity == Severity::Error
    &&& rule.node_kinds@ == seq![NodeKind::Call]
    &&& rule.guards@ == seq![
        Guard::DirectCall { args: 0 },
        Guard::ResultShape(TypeShape::Reference),
        Guard::ResolvedCallee,
    ]
    &&& rule.zero_fill_summary@ == ZERO_REF_SUMMARY@
    &&& rule.uninit_summary@ == UNINIT_REF_SUMMARY@
    &&& rule.help@ == HELP@
}

impl InvalidRef {
    /// What the rule says of `expr`. There is a finding exactly if `expr` is
    /// a call through a plain path without arguments, its inferred type is a
    /// reference, the callee resolves to a declaration, and the declaration
    /// is registered; the tag under which it is registered picks the summary.
    /// The conditions are taken in this order, and the first that fails ends
    /// the matter: a call with arguments is never looked up in the tables.
    pub open spec fn verdict(expr: Expr, cx: Context) -> Result<Option<DiagnosisView>, Malformed> {
        if !is_direct_call(expr, 0) {
            Ok(None)
        } else {
            match cx.types.shape_of_spec(expr) {
                Err(cause) => Err(cause),
                Ok(shape) => if shape != TypeShape::Reference {
                    Ok(None)
                } else {
                    match resolved_callee(expr, cx) {
                        None => Ok(None),
                        Some(id) => match cx.paths.lookup_spec(id, *cx.definitions) {
                            None => Ok(None),
                            Some(tag) => Ok(Some(invalid_ref_finding(expr.span, tag))),
                        },
                    }
                },
            }
        }
    }

    /// The lint of this rule.
    pub fn lint() -> (lint: Lint)
        ensures
            lint@ == invalid_ref_lint(),
    {
        Lint {
            name: INVALID_REF.to_owned(),
            category: Category::Correctness,
            description: DESCRIPTION.to_owned(),
        }
    }

    /// The lints that this rule can raise: the one.
    pub fn get_lints(&self) -> (lints: Vec<Lint>)
        ensures
            lints@.len() == 1,
            lints@[0]@ == invalid_ref_lint(),
    {
        let mut lints: Vec<Lint> = Vec::new();
        lints.push(Self::lint());
        lints
    }

    /// This rule as a guard chain, to be registered with a visitor.
    pub fn rule(&self) -> (rule: Rule)
        ensures
            is_invalid_ref_rule(rule),
    {
        let mut node_kinds: Vec<NodeKind> = Vec::new();
        node_kinds.push(NodeKind::Call);
        let mut guards: Vec<Guard> = Vec::new();
        guards.push(Guard::DirectCall { args: 0 });
        guards.push(Guard::ResultShape(TypeShape::Reference));
        guards.push(Guard::ResolvedCallee);
        let rule = Rule {
            lint: Self::lint(),
            severity: Severity::Error,
            node_kinds,
            guards,
            zero_fill_summary: ZERO_REF_SUMMARY.to_owned(),
            uninit_summary: UNINIT_REF_SUMMARY.to_owned(),
            help: HELP.to_owned(),
        };
        assert(rule.node_kinds@ =~= seq![NodeKind::Call]);
        assert(rule.guards@ =~= seq![
            Guard::DirectCall { args: 0 },
            Guard::ResultShape(TypeShape::Reference),
            Guard::ResolvedCallee,
        ]);
        rule
    }

    /// Checks one expression, and reports the finding if there is one.
    ///
    /// The tables are only read. Where the type table does not know the
    /// expression, nothing is reported and the node is handed back.
    pub fn check_expr(&mut self, cx: &Context, expr: &Expr, reporter: &mut Reporter) -> (result:
        Result<(), Malformed>)
        ensures
            match Self::verdict(*expr, *cx) {
                Ok(Some(finding)) => result is Ok && final(reporter)@ == old(reporter)@.push(
                    finding,
                ),
                Ok(None) => result is Ok && final(reporter)@ == old(reporter)@,
                Err(cause) => result == Err::<(), _>(cause) && final(reporter)@ == old(reporter)@,
            },
    {
        match &expr.kind {
            ExprKind::Call { callee, args } => match &callee.kind {
                ExprKind::Path(_) => {
                    if args.len() != 0 {
                        return Ok(());
                    }
                    match cx.types.shape_of(expr) {
                        Err(cause) => {
                            return Err(cause);
                        },
                        Ok(TypeShape::Reference) => {},
                        Ok(_) => {
                            return Ok(());
                        },
                    }
                    let id = match cx.resolutions.resolve(callee) {
                        Some(id) => id,
                        None => {
                            return Ok(());
                        },
                    };
                    let msg = match cx.paths.lookup(id, cx.definitions) {
                        Some(RuleTag::ZeroFill) => ZERO_REF_SUMMARY,
                        Some(RuleTag::Uninitialized) => UNINIT_REF_SUMMARY,
                        None => {
                            return Ok(());
                        },
                    };
                    reporter.report(
                        Diagnosis {
                            span: expr.span,
                            severity: Severity::Error,
                            summary: msg.to_owned(),
                            help: HELP.to_owned(),
                            lint: Some(Self::lint()),
                        },
                    );
                    Ok(())
                },
                _ => Ok(()),
            },
            _ => Ok(()),
        }
    }
}

/// The guard chain of `InvalidRef` says of every expression what
/// `InvalidRef::verdict` says.
pub proof fn lemma_rule_agrees(rule: Rule, expr: Expr, cx: Context)
    requires
        is_invalid_ref_rule(rule),
    ensures
        rule.outcome(expr, cx) == InvalidRef::verdict(expr, cx),
{
    let guards = rule.guards@;
    let two = guards.drop_first();
    let one = two.drop_first();
    assert(one.drop_first().len() == 0);
    assert(two[0] == Guard::ResultShape(TypeShape::Reference));
    assert(one[0] == Guard::ResolvedCallee);
    let first = guards[0].step(expr, cx, None);
    assert(run_chain(guards, expr, cx, None) == match first {
        Step::Pass(found) => run_chain(two, expr, cx, found),
        ended => ended,
    });
    assert(run_chain(two, expr, cx, None) == match two[0].step(expr, cx, None) {
        Step::Pass(found) => run_chain(one, expr, cx, found),
        ended => ended,
    });
    assert(run_chain(one, expr, cx, None) == match one[0].step(expr, cx, None) {
        Step::Pass(found) => run_chain(one.drop_first(), expr, cx, found),
        ended => ended,
    });
}

/// What a visitor that holds the rule of `InvalidRef` and no other finds at
/// a node: the finding of `InvalidRef::verdict`, if there is one.
pub proof fn lemma_node_findings(rule: Rule, expr: Expr, cx: Context)
    requires
        is_invalid_ref_rule(rule),
    ensures
        node_findings(seq![rule], expr, cx) == match InvalidRef::verdict(expr, cx) {
            Ok(Some(finding)) => Ok::<_, Malformed>(seq![finding]),
            Ok(None) => Ok(Seq::empty()),
            Err(cause) => Err(cause),
        },
{
    lemma_rule_agrees(rule, expr, cx);
    let rules = seq![rule];
    assert(rules.drop_first().len() == 0);
    assert(node_findings(rules.drop_first(), expr, cx) == Ok::<_, Malformed>(
        Seq::<DiagnosisView>::empty(),
    ));
    assert(rules[0] == rule);
    assert(rule.node_kinds@[0] == NodeKind::Call);
    assert(rule.wants(NodeKind::Call));
    assert(!(expr.kind is Call) ==> !rule.wants(expr.node_kind()));
    match rule_findings(rule, expr, cx) {
        Ok(found) => {
            assert(found + Seq::<DiagnosisView>::empty() =~= found);
        },
        Err(_) => {},
    }
}

/// A call without arguments whose inferred type is a reference, and whose
/// callee resolves to a declaration that is registered under `tag`, is
/// flagged exactly once: the walk over the call gives one finding, on the
/// span of the call, with the summary of `tag`. For a callee that fills its
/// result with zero bytes that is the summary of a null reference, for one
/// that leaves it unwritten that of an uninitialized reference. How the
/// call site spells the callee is no part of the conditions.
pub proof fn lemma_registered_constructor_is_flagged(
    rule: Rule,
    expr: Expr,
    cx: Context,
    id: SymbolIdentity,
    tag: RuleTag,
)
    requires
        is_invalid_ref_rule(rule),
        is_direct_call(expr, 0),
        cx.types.shape_of_spec(expr) == Ok::<_, Malformed>(TypeShape::Reference),
        resolved_callee(expr, cx) == Some(id),
        cx.paths.lookup_spec(id, *cx.definitions) == Some(tag),
    ensures
        InvalidRef::verdict(expr, cx) == Ok::<_, Malformed>(
            Some(invalid_ref_finding(expr.span, tag)),
        ),
        tree_findings(seq![rule], expr, cx) == Ok::<_, Malformed>(
            seq![invalid_ref_finding(expr.span, tag)],
        ),
        invalid_ref_finding(expr.span, RuleTag::ZeroFill).summary == ZERO_REF_SUMMARY@,
        invalid_ref_finding(expr.span, RuleTag::Uninitialized).summary == UNINIT_REF_SUMMARY@,
{
    let rules = seq![rule];
    let finding = invalid_ref_finding(expr.span, tag);
    lemma_node_findings(rule, expr, cx);
    match expr.kind {
        ExprKind::Call { callee, args } => {
            lemma_node_findings(rule, *callee, cx);
            assert(!is_direct_call(*callee, 0));
            assert(tree_findings(rules, *callee, cx) == Ok::<_, Malformed>(
                Seq::<DiagnosisView>::empty(),
            )) by {
                assert(Seq::<DiagnosisView>::empty() + Seq::<DiagnosisView>::empty()
                    =~= Seq::<DiagnosisView>::empty());
            }
            assert(list_findings(rules, args@, cx) == Ok::<_, Malformed>(
                Seq::<DiagnosisView>::empty(),
            ));
            assert(seq![finding] + (Seq::<DiagnosisView>::empty() + Seq::<DiagnosisView>::empty())
                =~= seq![finding]);
        },
        _ => {},
    }
}

/// A call that passes one argument or more is not flagged, whatever its
/// callee and its type are: the tables are not even asked.
pub proof fn lemma_call_with_arguments_is_not_flagged(rule: Rule, expr: Expr, cx: Context)
    requires
        is_invalid_ref_rule(rule),
        expr.kind matches ExprKind::Call { args, .. } && args@.len() >= 1,
    ensures
        InvalidRef::verdict(expr, cx) == Ok::<Option<DiagnosisView>, Malformed>(None),
        node_findings(seq![rule], expr, cx) == Ok::<_, Malformed>(Seq::<DiagnosisView>::empty()),
{
    lemma_node_findings(rule, expr, cx);
}

/// An expression whose inferred type is not a reference is not flagged,
/// whatever its callee is.
pub proof fn lemma_other_shape_is_not_flagged(rule: Rule, expr: Expr, cx: Context, shape: TypeShape)
    requires
        is_invalid_ref_rule(rule),
        cx.types.shape_of_spec(expr) == Ok::<_, Malformed>(shape),
        shape != TypeShape::Reference,
    ensures
        InvalidRef::verdict(expr, cx) == Ok::<Option<DiagnosisView>, Malformed>(None),
        node_findings(seq![rule], expr, cx) == Ok::<_, Malformed>(Seq::<DiagnosisView>::empty()),
{
    lemma_node_findings(rule, expr, cx);
}

/// The finding `verdict` moved to `span`.
pub open spec fn at_span(
    verdict: Result<Option<DiagnosisView>, Malformed>,
    span: Span,
) -> Result<Option<DiagnosisView>, Malformed> {
    match verdict {
        Ok(Some(finding)) => Ok(Some(DiagnosisView { span, ..finding })),
        other => other,
    }
}

/// The rule does not see how a call site spells its callee. Two typed
/// expressions that are alike as calls, have types of one shape and resolve
/// to the same declaration get the same verdict, each on its own span,
/// whatever paths they are written with.
pub proof fn lemma_alias_independence(first: Expr, second: Expr, cx: Context, other: Context)
    requires
        is_direct_call(first, 0) == is_direct_call(second, 0),
        cx.types.shape_of_spec(first) is Ok,
        cx.types.shape_of_spec(first) == other.types.shape_of_spec(second),
        resolved_callee(first, cx) == resolved_callee(second, other),
        cx.definitions == other.definitions,
        cx.paths == other.paths,
    ensures
        InvalidRef::verdict(second, other) == at_span(InvalidRef::verdict(first, cx), second.span),
{
}

} // verus!
