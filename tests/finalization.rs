use gc_core::shape::{AdtDecl, Bound, Capability, FinalizerHazard, TypeShape};

fn decl(id: u64, has_drop: bool, no_finalize: bool) -> AdtDecl {
    AdtDecl {
        id,
        has_drop,
        copy: false,
        no_finalize,
        pinned: false,
        no_trace: false,
        conservative: false,
        drop_mutates_shared: false,
        skips_finalizer_check: false,
    }
}

fn scalar() -> TypeShape {
    TypeShape::Scalar
}

fn has_drop() -> TypeShape {
    TypeShape::Adt(decl(1, true, false), Box::new(TypeShape::Scalar))
}

fn has_drop_no_finalize() -> TypeShape {
    TypeShape::Adt(decl(2, true, true), Box::new(TypeShape::Scalar))
}

fn string() -> TypeShape {
    TypeShape::Sequence(Box::new(TypeShape::Scalar))
}

fn boxed(t: TypeShape) -> TypeShape {
    TypeShape::Boxed(Box::new(t))
}

fn seq(t: TypeShape) -> TypeShape {
    TypeShape::Sequence(Box::new(t))
}

fn pair(a: TypeShape, b: TypeShape) -> TypeShape {
    TypeShape::Pair(Box::new(a), Box::new(b))
}

fn nf(t: &TypeShape) -> bool {
    t.needs_finalizer(&Vec::new())
}

#[test]
fn plain_types() {
    assert!(!nf(&scalar()));
    assert!(!nf(&string()));
    assert!(nf(&has_drop()));
    assert!(!nf(&has_drop_no_finalize()));
}

#[test]
fn boxed_types() {
    assert!(!nf(&boxed(scalar())));
    assert!(nf(&boxed(has_drop())));
    assert!(!nf(&boxed(has_drop_no_finalize())));
    assert!(nf(&boxed(pair(has_drop(), has_drop()))));
    assert!(!nf(&boxed(pair(has_drop_no_finalize(), has_drop_no_finalize()))));
}

#[test]
fn sequence_types() {
    assert!(!nf(&seq(scalar())));
    assert!(nf(&seq(has_drop())));
    assert!(!nf(&seq(has_drop_no_finalize())));
    assert!(!nf(&seq(pair(has_drop_no_finalize(), scalar()))));
    assert!(nf(&seq(pair(has_drop(), has_drop()))));
    assert!(nf(&seq(pair(has_drop(), scalar()))));
}

#[test]
fn nested_sequence_types() {
    assert!(nf(&seq(seq(has_drop()))));
    assert!(!nf(&seq(seq(has_drop_no_finalize()))));
    assert!(!nf(&seq(string())));
    assert!(nf(&seq(boxed(has_drop()))));
    assert!(!nf(&seq(boxed(has_drop_no_finalize()))));
}

#[test]
fn outer_destructor_needs_finalizing() {
    let container = TypeShape::Adt(decl(3, true, false), Box::new(seq(has_drop_no_finalize())));
    assert!(nf(&container));
}

#[test]
fn sequence_follows_element() {
    for e in [scalar(), has_drop(), has_drop_no_finalize(), string(), boxed(has_drop())] {
        assert_eq!(nf(&seq(e.same_copy())), nf(&e));
    }
}

trait SameCopy {
    fn same_copy(&self) -> TypeShape;
}

impl SameCopy for TypeShape {
    fn same_copy(&self) -> TypeShape {
        match self {
            TypeShape::Scalar => TypeShape::Scalar,
            TypeShape::Managed(e) => TypeShape::Managed(Box::new(e.same_copy())),
            TypeShape::Boxed(e) => TypeShape::Boxed(Box::new(e.same_copy())),
            TypeShape::Sequence(e) => TypeShape::Sequence(Box::new(e.same_copy())),
            TypeShape::Pair(a, b) => TypeShape::Pair(Box::new(a.same_copy()), Box::new(b.same_copy())),
            TypeShape::Cell(e) => TypeShape::Cell(Box::new(e.same_copy())),
            TypeShape::Opaque => TypeShape::Opaque,
            TypeShape::Param(p) => TypeShape::Param(*p),
            TypeShape::Adt(d, f) => TypeShape::Adt(*d, Box::new(f.same_copy())),
        }
    }
}

#[test]
fn no_destructor_no_finalizer() {
    for t in [scalar(), string(), boxed(scalar()), pair(scalar(), scalar()),
              TypeShape::Managed(Box::new(has_drop())), TypeShape::Cell(Box::new(scalar()))] {
        if !t.needs_drop() {
            assert!(!nf(&t));
        }
    }
    assert!(!TypeShape::Managed(Box::new(has_drop())).needs_drop());
    assert!(!nf(&TypeShape::Managed(Box::new(has_drop()))));
}

#[test]
fn destructor_without_elision_needs_finalizer() {
    let env: Vec<Bound> = Vec::new();
    for t in [has_drop(), boxed(has_drop()), seq(has_drop()), TypeShape::Opaque, TypeShape::Param(0)] {
        assert!(t.needs_drop());
        assert!(!t.is_manageable_contents(&env));
        assert!(t.needs_finalizer(&env));
    }
    let elided = seq(has_drop_no_finalize());
    assert!(elided.needs_drop());
    assert!(elided.is_manageable_contents(&env));
    assert!(!elided.needs_finalizer(&env));
}

#[test]
fn param_bounded_no_finalize() {
    let env = vec![Bound { param: 0, cap: Capability::NoFinalize }];
    assert!(!TypeShape::Param(0).needs_finalizer(&env));
    assert!(TypeShape::Param(1).needs_finalizer(&env));
    assert!(!seq(TypeShape::Param(0)).needs_finalizer(&env));
}

fn should_fail() -> TypeShape {
    let mut d = decl(10, true, false);
    d.drop_mutates_shared = true;
    TypeShape::Adt(d, Box::new(TypeShape::Cell(Box::new(TypeShape::Scalar))))
}

#[test]
fn finalizer_safety_pass() {
    let should_pass = TypeShape::Adt(decl(11, true, false), Box::new(TypeShape::Scalar));
    assert_eq!(should_pass.check_finalizer_safety(&Vec::new()), Ok(()));
}

#[test]
fn finalizer_safety_unsynchronized_cell() {
    assert_eq!(should_fail().check_finalizer_safety(&Vec::new()), Err(FinalizerHazard::MutatesSharedState));
}

#[test]
fn finalizer_safety_opt_out() {
    let mut d = decl(10, true, false);
    d.drop_mutates_shared = true;
    d.skips_finalizer_check = true;
    let opted = TypeShape::Adt(d, Box::new(TypeShape::Cell(Box::new(TypeShape::Scalar))));
    assert_eq!(opted.check_finalizer_safety(&Vec::new()), Ok(()));
}

#[test]
fn finalizer_safety_boxed_trait_object() {
    assert_eq!(boxed(TypeShape::Opaque).check_finalizer_safety(&Vec::new()), Err(FinalizerHazard::UnknownDestructor));
}

#[test]
fn finalizer_safety_managed_field() {
    let has_gc_fields = TypeShape::Adt(decl(12, true, false), Box::new(TypeShape::Managed(Box::new(TypeShape::Scalar))));
    assert_eq!(has_gc_fields.check_finalizer_safety(&Vec::new()), Err(FinalizerHazard::ReadsManagedPointer));
}

#[test]
fn finalizer_safety_no_finalizer_needed() {
    assert_eq!(TypeShape::Cell(Box::new(TypeShape::Scalar)).check_finalizer_safety(&Vec::new()), Ok(()));
    assert_eq!(TypeShape::Managed(Box::new(has_drop())).check_finalizer_safety(&Vec::new()), Ok(()));
}

#[test]
fn same_as_compares_structure() {
    assert!(seq(has_drop()).same_as(&seq(has_drop())));
    assert!(!seq(has_drop()).same_as(&seq(has_drop_no_finalize())));
    assert!(!boxed(scalar()).same_as(&seq(scalar())));
}
