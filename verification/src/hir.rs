//! The typed expression tree that the host hands over: nodes, spans and the paths
//! written at call sites.

use vstd::prelude::*;

verus! {

/// A region of source text: the file and the half-open byte range `lo..hi` in it.
#[derive(Clone, Copy, Debug, PartialEq, Eq, Structural)]
pub struct Span {
    pub file: u32,
    pub lo: u32,
    pub hi: u32,
}

/// The stable identity of a node, the key under which the host's tables speak of it.
#[derive(Clone, Copy, Debug, PartialEq, Eq, Structural)]
pub struct NodeId(pub u32);

/// A path as it is written in the source, alias and all: `alias::zero_fn`.
///
/// Nothing in the analysis reads the segments. What a path denotes is looked up
/// in the host's tables under the node that holds it.
#[derive(Clone, Debug, PartialEq, Eq)]
pub struct Path {
    pub segments: Vec<String>,
}

/// What kind of expression a node is, with its sub-expressions in document order.
#[derive(Debug, PartialEq, Eq)]
pub enum ExprKind {
    /// `callee(args..)`
    Call { callee: Box<Expr>, args: Vec<Expr> },
    /// `receiver.name(args..)`; the receiver is the first of `args`.
    MethodCall { args: Vec<Expr> },
    /// A path that names an item or a local.
    Path(Path),
    /// A literal.
    Lit,
    /// Any other expression.
    Other { children: Vec<Expr> },
}

/// A node of the expression tree.
#[derive(Debug, PartialEq, Eq)]
pub struct Expr {
    pub id: NodeId,
    pub span: Span,
    pub kind: ExprKind,
}

/// The kinds of node that a rule can ask to be shown.
#[derive(Clone, Copy, Debug, PartialEq, Eq, Structural)]
pub enum NodeKind {
    Call,
    MethodCall,
    Path,
    Lit,
    Other,
}

impl Expr {
    /// The kind of this node, without its contents.
    pub open spec fn node_kind(self) -> NodeKind {
        match self.kind {
            ExprKind::Call { .. } => NodeKind::Call,
            ExprKind::MethodCall { .. } => NodeKind::MethodCall,
            ExprKind::Path(_) => NodeKind::Path,
            ExprKind::Lit => NodeKind::Lit,
            ExprKind::Other { .. } => NodeKind::Other,
        }
    }

    /// The kind of this node, without its contents.
    pub fn kind_of(&self) -> (k: NodeKind)
        ensures
            k == self.node_kind(),
    {
        match &self.kind {
            ExprKind::Call { .. } => NodeKind::Call,
            ExprKind::MethodCall { .. } => NodeKind::MethodCall,
            ExprKind::Path(_) => NodeKind::Path,
            ExprKind::Lit => NodeKind::Lit,
            ExprKind::Other { .. } => NodeKind::Other,
        }
    }
}

} // verus!
