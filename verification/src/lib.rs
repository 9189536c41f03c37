//! A pattern-guarded call classifier.
//!
//! The host hands over expression trees after type inference and name
//! resolution, with its tables. Rules are guard chains over a node: ordered
//! conditions that end at the first failure. A visitor walks each tree once,
//! shows every node to every rule, and a reporter collects what they find, in
//! the order of the walk. `InvalidRef` is the rule against references that are
//! made of zero bytes or of memory that was never written.

pub mod diagnostics;
pub mod hir;
pub mod lint;
pub mod paths;
pub mod resolve;
pub mod rule;
pub mod ty;
pub mod visitor;

pub use lint::InvalidRef;
