use invalid_ref::diagnostics::{Category, Diagnosis, Lint, Reporter, Severity};
use invalid_ref::hir::{Expr, ExprKind, NodeId, NodeKind, Path, Span};
use invalid_ref::paths::{CanonicalPath, Definitions, PathTable, RuleTag};
use invalid_ref::resolve::{Def, ResolutionTable, SymbolIdentity};
use invalid_ref::ty::{Malformed, TyKind, TypeShape, TypeTable};

fn leaf(id: u32, kind: ExprKind) -> Expr {
    Expr { id: NodeId(id), span: Span { file: 0, lo: id, hi: id + 1 }, kind }
}

fn spelled(id: u32, segments: &[&str]) -> Expr {
    leaf(id, ExprKind::Path(Path { segments: segments.iter().map(|s| s.to_string()).collect() }))
}

fn finding(lo: u32, summary: &str) -> Diagnosis {
    Diagnosis {
        span: Span { file: 0, lo, hi: lo + 1 },
        severity: Severity::Warning,
        summary: summary.to_string(),
        help: String::new(),
        lint: None,
    }
}

#[test]
fn canonical_path_keeps_its_segments() {
    let path = CanonicalPath::new(&["core", "mem", "zeroed"]);
    assert_eq!(path.segments, vec!["core".to_string(), "mem".to_string(), "zeroed".to_string()]);
    assert_eq!(CanonicalPath::new(&[]).segments, Vec::<String>::new());
}

#[test]
fn canonical_paths_compare_segment_by_segment() {
    let path = CanonicalPath::new(&["core", "mem", "zeroed"]);
    assert!(path.same_as(&CanonicalPath::new(&["core", "mem", "zeroed"])));
    assert!(!path.same_as(&CanonicalPath::new(&["core", "mem", "zeroes"])));
    assert!(!path.same_as(&CanonicalPath::new(&["std", "mem", "zeroed"])));
    assert!(!path.same_as(&CanonicalPath::new(&["core", "mem"])));
    assert!(!path.same_as(&CanonicalPath::new(&["core", "mem", "zeroed", ""])));
    assert!(!path.same_as(&CanonicalPath::new(&["core", "memzeroed"])));
    assert!(!path.same_as(&CanonicalPath::new(&[])));
    assert!(CanonicalPath::new(&[]).same_as(&CanonicalPath::new(&[])));
}

#[test]
fn registry_answers_for_what_was_registered() {
    let mut table = PathTable::new();
    let a = CanonicalPath::new(&["a", "zero"]);
    let b = CanonicalPath::new(&["b", "uninit"]);
    assert_eq!(table.tag_of(&a), None);
    assert!(table.register(a.clone(), RuleTag::ZeroFill));
    assert_eq!(table.tag_of(&a), Some(RuleTag::ZeroFill));
    assert_eq!(table.tag_of(&b), None);
    assert!(table.register(b.clone(), RuleTag::Uninitialized));
    assert_eq!(table.tag_of(&a), Some(RuleTag::ZeroFill));
    assert_eq!(table.tag_of(&b), Some(RuleTag::Uninitialized));
}

#[test]
fn registry_takes_no_path_twice() {
    let mut table = PathTable::new();
    let a = CanonicalPath::new(&["a", "zero"]);
    assert!(table.register(a.clone(), RuleTag::ZeroFill));
    assert!(!table.register(a.clone(), RuleTag::Uninitialized));
    assert_eq!(table.tag_of(&a), Some(RuleTag::ZeroFill));
    assert!(!table.register(a.clone(), RuleTag::ZeroFill));
    assert_eq!(table.tag_of(&a), Some(RuleTag::ZeroFill));

    let mut known = PathTable::dangerous_constructors();
    assert!(!known.register(CanonicalPath::new(&["core", "mem", "zeroed"]), RuleTag::Uninitialized));
    assert_eq!(
        known.tag_of(&CanonicalPath::new(&["core", "mem", "zeroed"])),
        Some(RuleTag::ZeroFill)
    );
}

#[test]
fn lookup_goes_by_the_canonical_path_of_the_declaration() {
    let mut table = PathTable::new();
    table.register(CanonicalPath::new(&["a", "zero"]), RuleTag::ZeroFill);
    let mut definitions = Definitions::new();
    definitions.define(SymbolIdentity(1), CanonicalPath::new(&["a", "zero"]));
    definitions.define(SymbolIdentity(2), CanonicalPath::new(&["a", "one"]));
    assert_eq!(table.lookup(SymbolIdentity(1), &definitions), Some(RuleTag::ZeroFill));
    assert_eq!(table.lookup(SymbolIdentity(2), &definitions), None);
    assert_eq!(table.lookup(SymbolIdentity(3), &definitions), None);
    assert_eq!(
        definitions.canonical_path(SymbolIdentity(2)),
        Some(&CanonicalPath::new(&["a", "one"]))
    );
    assert_eq!(definitions.canonical_path(SymbolIdentity(3)), None);
    // A later definition takes the place of an earlier one.
    definitions.define(SymbolIdentity(2), CanonicalPath::new(&["a", "zero"]));
    assert_eq!(table.lookup(SymbolIdentity(2), &definitions), Some(RuleTag::ZeroFill));
}

#[test]
fn shapes_of_type_kinds() {
    assert_eq!(TyKind::Ref.classify(), TypeShape::Reference);
    assert_eq!(TyKind::RawPtr.classify(), TypeShape::RawPointer);
    assert_eq!(TyKind::Infer.classify(), TypeShape::Other);
    assert_eq!(TyKind::Error.classify(), TypeShape::Other);
    for kind in [
        TyKind::Bool,
        TyKind::Char,
        TyKind::Int,
        TyKind::Uint,
        TyKind::Float,
        TyKind::Foreign,
        TyKind::Generator,
        TyKind::Projection,
        TyKind::Opaque,
        TyKind::Adt,
        TyKind::Str,
        TyKind::Array,
        TyKind::Slice,
        TyKind::Tuple,
        TyKind::FnDef,
        TyKind::FnPtr,
        TyKind::Dynamic,
        TyKind::Closure,
        TyKind::Never,
        TyKind::Param,
    ] {
        assert_eq!(kind.classify(), TypeShape::Value);
    }
}

#[test]
fn oracle_reads_the_type_table() {
    let mut types = TypeTable::new();
    types.record(NodeId(1), TyKind::Ref);
    types.record(NodeId(2), TyKind::Adt);
    types.record(NodeId(3), TyKind::Error);
    assert_eq!(types.shape_of(&leaf(1, ExprKind::Lit)), Ok(TypeShape::Reference));
    assert_eq!(types.shape_of(&leaf(2, ExprKind::Lit)), Ok(TypeShape::Value));
    assert_eq!(types.shape_of(&leaf(3, ExprKind::Lit)), Ok(TypeShape::Other));
    assert_eq!(
        types.shape_of(&leaf(4, ExprKind::Lit)),
        Err(Malformed { node: NodeId(4), span: Span { file: 0, lo: 4, hi: 5 } })
    );
    types.record(NodeId(1), TyKind::RawPtr);
    assert_eq!(types.shape_of(&leaf(1, ExprKind::Lit)), Ok(TypeShape::RawPointer));
    assert_eq!(types.shape_of(&leaf(2, ExprKind::Lit)), Ok(TypeShape::Value));
}

#[test]
fn resolver_goes_by_the_table_and_not_by_the_spelling() {
    let mut defs = ResolutionTable::new();
    defs.record(NodeId(1), Def::Item(SymbolIdentity(40)));
    defs.record(NodeId(2), Def::Item(SymbolIdentity(40)));
    defs.record(NodeId(3), Def::Local);
    defs.record(NodeId(4), Def::Unresolved);
    defs.record(NodeId(6), Def::Item(SymbolIdentity(41)));
    assert_eq!(defs.resolve(&spelled(1, &["alias", "zero_fn"])), Some(SymbolIdentity(40)));
    assert_eq!(
        defs.resolve(&spelled(2, &["canonical", "module", "zero_fn"])),
        Some(SymbolIdentity(40))
    );
    assert_eq!(defs.resolve(&spelled(3, &["callback"])), None);
    assert_eq!(defs.resolve(&spelled(4, &["zero_fn"])), None);
    assert_eq!(defs.resolve(&spelled(5, &["zero_fn"])), None);
    assert_eq!(defs.resolve(&spelled(6, &["alias", "zero_fn"])), Some(SymbolIdentity(41)));
    // Only a path can be resolved.
    assert_eq!(defs.resolve(&leaf(1, ExprKind::Lit)), None);
    assert_eq!(defs.resolve(&leaf(1, ExprKind::Other { children: vec![] })), None);
    assert_eq!(defs.lookup(NodeId(3)), Def::Local);
    assert_eq!(defs.lookup(NodeId(5)), Def::Unresolved);
    assert_eq!(Def::Item(SymbolIdentity(9)).opt_identity(), Some(SymbolIdentity(9)));
    assert_eq!(Def::Local.opt_identity(), None);
    assert_eq!(Def::Unresolved.opt_identity(), None);
}

#[test]
fn node_kinds() {
    assert_eq!(leaf(1, ExprKind::Lit).kind_of(), NodeKind::Lit);
    assert_eq!(spelled(1, &["x"]).kind_of(), NodeKind::Path);
    assert_eq!(leaf(1, ExprKind::Other { children: vec![] }).kind_of(), NodeKind::Other);
    assert_eq!(leaf(1, ExprKind::MethodCall { args: vec![] }).kind_of(), NodeKind::MethodCall);
    let call = leaf(1, ExprKind::Call { callee: Box::new(spelled(2, &["f"])), args: vec![] });
    assert_eq!(call.kind_of(), NodeKind::Call);
}

#[test]
fn reporter_keeps_order_and_duplicates() {
    let mut reporter = Reporter::new();
    assert_eq!(reporter.len(), 0);
    reporter.report(finding(3, "c"));
    reporter.report(finding(1, "a"));
    reporter.report(finding(3, "c"));
    assert_eq!(reporter.len(), 3);
    assert_eq!(reporter.records, vec![finding(3, "c"), finding(1, "a"), finding(3, "c")]);
    reporter.report_all(vec![finding(2, "b"), finding(1, "a")]);
    reporter.report_all(vec![]);
    assert_eq!(
        reporter.records,
        vec![finding(3, "c"), finding(1, "a"), finding(3, "c"), finding(2, "b"), finding(1, "a")]
    );
}

#[test]
fn lint_copy_is_equal() {
    let lint = Lint {
        name: "some_lint".to_string(),
        category: Category::Complexity,
        description: "what it is about".to_string(),
    };
    assert_eq!(lint.duplicate(), lint);
}
