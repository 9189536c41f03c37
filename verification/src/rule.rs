//! Rules as guard chains: an ordered list of conditions on a node, checked
//! from the left, the first failure ending the chain, and a classification of
//! the callee at its end.

use vstd::prelude::*;
use crate::diagnostics::{Diagnosis, DiagnosisView, Lint, Severity};
use crate::hir::{Expr, ExprKind, NodeKind};
use crate::paths::{Definitions, PathTable, RuleTag};
use crate::resolve::{ResolutionTable, SymbolIdentity};
use crate::ty::{Malformed, TypeShape, TypeTable};

verus! {

/// What a rule may consult about a node: the tables of the unit that holds
/// the node, the declarations the host knows, and the registry. All of it is
/// borrowed and only read.
#[derive(Clone, Copy, Debug)]
pub struct Context<'a> {
    pub types: &'a TypeTable,
    pub resolutions: &'a ResolutionTable,
    pub definitions: &'a Definitions,
    pub paths: &'a PathTable,
}

/// One condition of a chain.
#[derive(Clone, Copy, Debug, PartialEq, Eq, Structural)]
pub enum Guard {
    /// The node is a call whose callee is a plain path, not a method call,
    /// and it passes exactly `args` arguments.
    DirectCall { args: usize },
    /// The inferred type of the node has this shape.
    ResultShape(TypeShape),
    /// The callee of the call resolves to a declaration, which the chain
    /// keeps for the classification.
    ResolvedCallee,
}

/// How one guard, or a chain of them, ends.
#[derive(Clone, Copy, Debug, PartialEq, Eq, Structural)]
pub enum Step {
    /// Every condition held; with the declaration found for the callee, if a
    /// guard looked for it.
    Pass(Option<SymbolIdentity>),
    /// A condition did not hold: the rule has nothing to say of this node.
    Fail,
    /// The tables do not know the node.
    Abort(Malformed),
}

/// Whether `expr` is a call through a plain path with `args` arguments.
pub open spec fn is_direct_call(expr: Expr, args: usize) -> bool {
    match expr.kind {
        ExprKind::Call { callee, args: passed } => callee.kind is Path && passed@.len() == args,
        _ => false,
    }
}

/// The declaration that the callee of `expr` resolves to: `expr` must be a
/// call, its callee a path, and the path must denote a declaration.
pub open spec fn resolved_callee(expr: Expr, cx: Context) -> Option<SymbolIdentity> {
    match expr.kind {
        ExprKind::Call { callee, args } => cx.resolutions.resolve_spec(*callee),
        _ => None,
    }
}

impl Guard {
    /// How this guard ends on `expr`, where the chain has found `callee` so far.
    pub open spec fn step(self, expr: Expr, cx: Context, callee: Option<SymbolIdentity>) -> Step {
        match self {
            Guard::DirectCall { args } => if is_direct_call(expr, args) {
                Step::Pass(callee)
            } else {
                Step::Fail
            },
            Guard::ResultShape(shape) => match cx.types.shape_of_spec(expr) {
                Ok(found) => if found == shape {
                    Step::Pass(callee)
                } else {
                    Step::Fail
                },
                Err(cause) => Step::Abort(cause),
            },
            Guard::ResolvedCallee => match resolved_callee(expr, cx) {
                Some(id) => Step::Pass(Some(id)),
                None => Step::Fail,
            },
        }
    }

    /// Checks this guard on `expr`.
    pub fn check(self, expr: &Expr, cx: &Context, callee: Option<SymbolIdentity>) -> (step: Step)
        ensures
            step == self.step(*expr, *cx, callee),
    {
        match self {
            Guard::DirectCall { args } => match &expr.kind {
                ExprKind::Call { callee: called, args: passed } => match &called.kind {
                    ExprKind::Path(_) => if passed.len() == args {
                        Step::Pass(callee)
                    } else {
                        Step::Fail
                    },
                    _ => Step::Fail,
                },
                _ => Step::Fail,
            },
            Guard::ResultShape(shape) => match cx.types.shape_of(expr) {
                Ok(found) => if found == shape {
                    Step::Pass(callee)
                } else {
                    Step::Fail
                },
                Err(cause) => Step::Abort(cause),
            },
            Guard::ResolvedCallee => match &expr.kind {
                ExprKind::Call { callee: called, args: _ } => match cx.resolutions.resolve(called) {
                    Some(id) => Step::Pass(Some(id)),
                    None => Step::Fail,
                },
                _ => Step::Fail,
            },
        }
    }
}

/// How the chain `guards` ends on `expr`: the guards are taken from the left,
/// and the first that does not pass ends the chain with its own result. No
/// guard behind it is looked at.
pub open spec fn run_chain(
    guards: Seq<Guard>,
    expr: Expr,
    cx: Context,
    callee: Option<SymbolIdentity>,
) -> Step
    decreases guards.len(),
{
    if guards.len() == 0 {
        Step::Pass(callee)
    } else {
        match guards[0].step(expr, cx, callee) {
            Step::Pass(found) => run_chain(guards.drop_first(), expr, cx, found),
            ended => ended,
        }
    }
}

/// A chain of two parts ends as its first part does, unless that part passes:
/// then it ends as the second part does, begun with what the first found. So
/// a chain stops at its first guard that does not pass, and nothing behind
/// that guard has any say.
pub proof fn lemma_chain_split(
    front: Seq<Guard>,
    back: Seq<Guard>,
    expr: Expr,
    cx: Context,
    callee: Option<SymbolIdentity>,
)
    ensures
        run_chain(front + back, expr, cx, callee) == match run_chain(front, expr, cx, callee) {
            Step::Pass(found) => run_chain(back, expr, cx, found),
            ended => ended,
        },
    decreases front.len(),
{
    if front.len() == 0 {
        assert(front + back =~= back);
    } else {
        assert((front + back)[0] == front[0]);
        assert((front + back).drop_first() =~= front.drop_first() + back);
        match front[0].step(expr, cx, callee) {
            Step::Pass(found) => {
                lemma_chain_split(front.drop_first(), back, expr, cx, found);
            },
            _ => {},
        }
    }
}

/// A rule: a lint, the kinds of node it looks at, its guard chain, and the
/// texts of its findings. A rule holds no state between nodes.
#[derive(Clone, Debug)]
pub struct Rule {
    pub lint: Lint,
    /// The severity of every finding of this rule.
    pub severity: Severity,
    /// The kinds of node that this rule is shown.
    pub node_kinds: Vec<NodeKind>,
    pub guards: Vec<Guard>,
    /// The summary where the callee fills its result with zero bytes.
    pub zero_fill_summary: String,
    /// The summary where the callee leaves its result unwritten.
    pub uninit_summary: String,
    pub help: String,
}

impl Rule {
    /// Whether this rule is shown nodes of `kind`.
    pub open spec fn wants(self, kind: NodeKind) -> bool {
        self.node_kinds@.contains(kind)
    }

    /// The summary of a finding on a callee with `tag`.
    pub open spec fn summary_for(self, tag: RuleTag) -> Seq<char> {
        match tag {
            RuleTag::ZeroFill => self.zero_fill_summary@,
            RuleTag::Uninitialized => self.uninit_summary@,
        }
    }

    /// The finding of this rule on `expr`, where the callee has `tag`.
    pub open spec fn finding(self, expr: Expr, tag: RuleTag) -> DiagnosisView {
        DiagnosisView {
            span: expr.span,
            severity: self.severity,
            summary: self.summary_for(tag),
            help: self.help@,
            lint: Some(self.lint@),
        }
    }

    /// What this rule says of `expr`: a finding if every guard passes, the
    /// chain has resolved the callee, and the callee is registered; nothing
    /// if a guard fails or the callee is unknown or not registered; and the
    /// node that the tables do not know, if a guard met one.
    pub open spec fn outcome(self, expr: Expr, cx: Context) -> Result<Option<DiagnosisView>, Malformed> {
        match run_chain(self.guards@, expr, cx, None) {
            Step::Abort(cause) => Err(cause),
            Step::Fail => Ok(None),
            Step::Pass(None) => Ok(None),
            Step::Pass(Some(id)) => match cx.paths.lookup_spec(id, *cx.definitions) {
                Some(tag) => Ok(Some(self.finding(expr, tag))),
                None => Ok(None),
            },
        }
    }

    /// Whether this rule is shown nodes of `kind`.
    pub fn is_interested_in(&self, kind: NodeKind) -> (wanted: bool)
        ensures
            wanted == self.wants(kind),
    {
        let mut i: usize = 0;
        while i < self.node_kinds.len()
            invariant
                i <= self.node_kinds.len(),
                forall|j: int| 0 <= j < i ==> self.node_kinds@[j] != kind,
            decreases self.node_kinds.len() - i,
        {
            if self.node_kinds[i] == kind {
                return true;
            }
            i = i + 1;
        }
        false
    }

    /// Runs the guard chain on `expr`, from the left, and stops at the first
    /// guard that does not pass.
    pub fn run_guards(&self, expr: &Expr, cx: &Context) -> (step: Step)
        ensures
            step == run_chain(self.guards@, *expr, *cx, None),
    {
        let mut callee: Option<SymbolIdentity> = None;
        let mut i: usize = 0;
        assert(self.guards@.skip(0) =~= self.guards@);
        while i < self.guards.len()
            invariant
                i <= self.guards.len(),
                run_chain(self.guards@, *expr, *cx, None) == run_chain(
                    self.guards@.skip(i as int),
                    *expr,
                    *cx,
                    callee,
                ),
            decreases self.guards.len() - i,
        {
            let ghost rest = self.guards@.skip(i as int);
            assert(rest[0] == self.guards@[i as int]);
            assert(rest.drop_first() =~= self.guards@.skip(i + 1));
            match self.guards[i].check(expr, cx, callee) {
                Step::Pass(found) => {
                    callee = found;
                },
                Step::Fail => {
                    return Step::Fail;
                },
                Step::Abort(cause) => {
                    return Step::Abort(cause);
                },
            }
            i = i + 1;
        }
        Step::Pass(callee)
    }

    /// Evaluates this rule on `expr`. Either the rule matches and the finding
    /// is whole, or there is none.
    pub fn evaluate(&self, expr: &Expr, cx: &Context) -> (result: Result<Option<Diagnosis>, Malformed>)
        ensures
            match result {
                Ok(Some(diagnosis)) => self.outcome(*expr, *cx) == Ok::<_, Malformed>(Some(diagnosis@)),
                Ok(None) => self.outcome(*expr, *cx) == Ok::<Option<DiagnosisView>, Malformed>(None),
                Err(cause) => self.outcome(*expr, *cx) == Err::<Option<DiagnosisView>, _>(cause),
            },
    {
        let id = match self.run_guards(expr, cx) {
            Step::Abort(cause) => {
                return Err(cause);
            },
            Step::Fail | Step::Pass(None) => {
                return Ok(None);
            },
            Step::Pass(Some(id)) => id,
        };
        let summary = match cx.paths.lookup(id, cx.definitions) {
            Some(RuleTag::ZeroFill) => self.zero_fill_summary.clone(),
            Some(RuleTag::Uninitialized) => self.uninit_summary.clone(),
            None => {
                return Ok(None);
            },
        };
        Ok(
            Some(
                Diagnosis {
                    span: expr.span,
                    severity: self.severity,
                    summary,
                    help: self.help.clone(),
                    lint: Some(self.lint.duplicate()),
                },
            ),
        )
    }
}

} // verus!
