//! The symbol resolver: from the callee written at a call site to the
//! declaration it denotes.

use std::collections::HashMap;
use vstd::prelude::*;
use crate::hir::{Expr, ExprKind, NodeId};

verus! {

/// The identity of a declaration. However a call site names the declaration,
/// through an alias or a re-export, it resolves to this one key. Two
/// identities are compared for equality and nothing else.
#[derive(Clone, Copy, Debug, PartialEq, Eq, Structural)]
pub struct SymbolIdentity(pub u64);

/// What name resolution found for a path.
#[derive(Clone, Copy, Debug, PartialEq, Eq, Structural)]
pub enum Def {
    /// A declaration: a function, a method, a constructor.
    Item(SymbolIdentity),
    /// A local binding, such as a closure or a function pointer held in a
    /// variable: what it calls is not known statically.
    Local,
    /// Resolution failed.
    Unresolved,
}

impl Def {
    /// The declaration behind a resolution, where there is one.
    pub open spec fn identity(self) -> Option<SymbolIdentity> {
        match self {
            Def::Item(id) => Some(id),
            _ => None,
        }
    }

    /// The declaration behind a resolution, where there is one.
    pub fn opt_identity(self) -> (id: Option<SymbolIdentity>)
        ensures
            id == self.identity(),
    {
        match self {
            Def::Item(id) => Some(id),
            _ => None,
        }
    }
}

/// What each path node of one unit resolves to, by node identity.
#[derive(Clone, Debug)]
pub struct ResolutionTable {
    pub defs: HashMap<u32, Def>,
}

impl ResolutionTable {
    /// The resolution recorded for node `id`; `Def::Unresolved` where none is.
    pub open spec fn def_of(self, id: NodeId) -> Def {
        if self.defs@.contains_key(id.0) {
            self.defs@[id.0]
        } else {
            Def::Unresolved
        }
    }

    /// The declaration that `callee` denotes: `callee` must be a path, and the
    /// path must be recorded as resolving to a declaration.
    pub open spec fn resolve_spec(self, callee: Expr) -> Option<SymbolIdentity> {
        match callee.kind {
            ExprKind::Path(_) => self.def_of(callee.id).identity(),
            _ => None,
        }
    }

    /// A table without entries.
    pub fn new() -> (table: ResolutionTable)
        ensures
            table.defs@ == Map::<u32, Def>::empty(),
    {
        ResolutionTable { defs: HashMap::new() }
    }

    /// Records `def` as what the path at node `id` resolves to, in place of an
    /// earlier entry.
    pub fn record(&mut self, id: NodeId, def: Def)
        ensures
            final(self).defs@ == old(self).defs@.insert(id.0, def),
    {
        broadcast use vstd::std_specs::hash::group_hash_axioms;
        self.defs.insert(id.0, def);
    }

    /// The resolution recorded for node `id`; `Def::Unresolved` where none is.
    pub fn lookup(&self, id: NodeId) -> (def: Def)
        ensures
            def == self.def_of(id),
    {
        broadcast use vstd::std_specs::hash::group_hash_axioms;
        match self.defs.get(&id.0) {
            Some(def) => *def,
            None => Def::Unresolved,
        }
    }

    /// Resolves the callee of a call to the declaration it denotes.
    ///
    /// The answer depends on what the path resolves to and not on how it is
    /// spelled. `None` is no failure: it says that the callee is not a path, or
    /// that what it calls cannot be told statically.
    pub fn resolve(&self, callee: &Expr) -> (id: Option<SymbolIdentity>)
        ensures
            id == self.resolve_spec(*callee),
    {
        match &callee.kind {
            ExprKind::Path(_) => self.lookup(callee.id).opt_identity(),
            _ => None,
        }
    }
}

} // verus!
