//! The type shape oracle: what shape the inferred type of an expression has.

use std::collections::HashMap;
use vstd::prelude::*;
use crate::hir::{Expr, NodeId, Span};

verus! {

/// The kind of a type that inference has settled on, as the host reports it.
#[derive(Clone, Copy, Debug, PartialEq, Eq, Structural)]
pub enum TyKind {
    Bool,
    Char,
    /// A signed integer.
    Int,
    /// An unsigned integer.
    Uint,
    /// A floating-point number.
    Float,
    /// A struct, an enum or a union.
    Adt,
    /// A type of another language, known by name only.
    Foreign,
    Str,
    Array,
    Slice,
    /// `*const T` or `*mut T`
    RawPtr,
    /// `&T` or `&mut T`
    Ref,
    /// The type of one function item.
    FnDef,
    FnPtr,
    /// A trait object.
    Dynamic,
    Closure,
    Generator,
    Never,
    Tuple,
    /// An associated type that is not worked out, `<T as Trait>::Out`.
    Projection,
    /// `impl Trait`
    Opaque,
    /// A type parameter.
    Param,
    /// A type that inference left open.
    Infer,
    /// The type of an expression that did not type-check.
    Error,
}

/// A coarse classification of a type.
#[derive(Clone, Copy, Debug, PartialEq, Eq, Structural)]
pub enum TypeShape {
    Reference,
    RawPointer,
    Value,
    /// Not a type of the program: inference failed or never finished.
    Other,
}

impl TyKind {
    /// The shape of a type of this kind.
    pub open spec fn shape(self) -> TypeShape {
        match self {
            TyKind::Ref => TypeShape::Reference,
            TyKind::RawPtr => TypeShape::RawPointer,
            TyKind::Infer | TyKind::Error => TypeShape::Other,
            _ => TypeShape::Value,
        }
    }

    /// The shape of a type of this kind.
    pub fn classify(self) -> (shape: TypeShape)
        ensures
            shape == self.shape(),
    {
        match self {
            TyKind::Ref => TypeShape::Reference,
            TyKind::RawPtr => TypeShape::RawPointer,
            TyKind::Infer | TyKind::Error => TypeShape::Other,
            _ => TypeShape::Value,
        }
    }
}

/// A node that the type table does not know: the tree and the table do not
/// belong together, and the unit that holds the node cannot be analysed.
#[derive(Clone, Copy, Debug, PartialEq, Eq, Structural)]
pub struct Malformed {
    pub node: NodeId,
    pub span: Span,
}

/// The inferred type of each expression node of one unit, by node identity.
#[derive(Clone, Debug)]
pub struct TypeTable {
    pub types: HashMap<u32, TyKind>,
}

impl TypeTable {
    /// The type recorded for `id`, if there is one.
    pub open spec fn type_of(self, id: NodeId) -> Option<TyKind> {
        if self.types@.contains_key(id.0) {
            Some(self.types@[id.0])
        } else {
            None
        }
    }

    /// What the oracle answers for `expr`: the shape of its recorded type, or
    /// the node itself where the table has no type for it.
    pub open spec fn shape_of_spec(self, expr: Expr) -> Result<TypeShape, Malformed> {
        match self.type_of(expr.id) {
            Some(kind) => Ok(kind.shape()),
            None => Err(Malformed { node: expr.id, span: expr.span }),
        }
    }

    /// A table without entries.
    pub fn new() -> (table: TypeTable)
        ensures
            table.types@ == Map::<u32, TyKind>::empty(),
    {
        TypeTable { types: HashMap::new() }
    }

    /// Records `kind` as the type of node `id`, in place of an earlier entry.
    pub fn record(&mut self, id: NodeId, kind: TyKind)
        ensures
            final(self).types@ == old(self).types@.insert(id.0, kind),
    {
        broadcast use vstd::std_specs::hash::group_hash_axioms;
        self.types.insert(id.0, kind);
    }

    /// The shape of the inferred type of `expr`. The table is only read.
    ///
    /// An expression that did not type-check has the shape `Other`. A node
    /// without an entry is reported as malformed input.
    pub fn shape_of(&self, expr: &Expr) -> (shape: Result<TypeShape, Malformed>)
        ensures
            shape == self.shape_of_spec(*expr),
    {
        broadcast use vstd::std_specs::hash::group_hash_axioms;
        match self.types.get(&expr.id.0) {
            Some(kind) => Ok(kind.classify()),
            None => Err(Malformed { node: expr.id, span: expr.span }),
        }
    }
}

} // verus!
