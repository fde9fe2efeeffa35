//! Type shapes: the model of a concrete (or generic) type that the
//! finalization decision and the capability oracle are computed over.
use vstd::prelude::*;

verus! {

/// Marker for element types whose containers the collector may reclaim in
/// bulk, without a finalizer: freeing the storage is as good as dropping each
/// element. A shape stands for such a type when no element needs a finalizer.
pub trait ManageableContents {
}

/// Marker for a type whose memory the collector may reclaim without running
/// its destructor; a shape stands for such a type with `AdtDecl::no_finalize`.
pub trait NoFinalize {
}

/// One of the fixed capability flags that the oracle answers for a type.
#[derive(Clone, Copy, PartialEq, Eq, Structural, Debug)]
pub enum Capability {
    /// Trivially copyable.
    Copy,
    /// Of a size known at compile time.
    Sized,
    /// Without interior mutability.
    Freeze,
    /// Free to move after being pinned.
    Unpin,
    /// Opaque to the collector's scan: holds no managed pointers.
    NoTrace,
    /// Must be scanned conservatively.
    Conservative,
    /// Its memory may be reclaimed without running its destructor.
    NoFinalize,
    /// Is itself a managed pointer.
    GcSmartPointer,
}

/// A bound of a generic environment: type parameter `param` has capability `cap`.
#[derive(Clone, Copy, PartialEq, Eq, Structural, Debug)]
pub struct Bound {
    pub param: u32,
    pub cap: Capability,
}

/// What a user-declared type (struct or enum) states about itself.
#[derive(Clone, Copy, PartialEq, Eq, Structural, Debug)]
pub struct AdtDecl {
    /// Identity of the declaration.
    pub id: u64,
    /// The type has a `Drop` impl of its own.
    pub has_drop: bool,
    /// The type implements `Copy`.
    pub copy: bool,
    /// The type implements the `NoFinalize` marker.
    pub no_finalize: bool,
    /// The type is declared `!Unpin`.
    pub pinned: bool,
    /// The type declares that it holds no managed pointers.
    pub no_trace: bool,
    /// The type asks to be scanned conservatively.
    pub conservative: bool,
    /// The destructor mutates unsynchronized shared state (a negative finalizer-safety impl).
    pub drop_mutates_shared: bool,
    /// The type opts out of the finalizer-safety check.
    pub skips_finalizer_check: bool,
}

/// The shape of a type, as far as collection and finalization care.
pub enum TypeShape {
    /// An integer, `bool`, `char`, raw pointer or unit: nothing to drop.
    Scalar,
    /// A managed pointer to a value of the inner shape.
    Managed(Box<TypeShape>),
    /// An owned heap box of the inner shape.
    Boxed(Box<TypeShape>),
    /// A growable sequence of elements of the inner shape (a string is a sequence of bytes).
    Sequence(Box<TypeShape>),
    /// Two values side by side (a tuple, or two fields).
    Pair(Box<TypeShape>, Box<TypeShape>),
    /// An unsynchronized interior-mutability cell around the inner shape.
    Cell(Box<TypeShape>),
    /// A trait object: its destructor and contents are unknown.
    Opaque,
    /// A generic type parameter, answered from the environment's bounds.
    Param(u32),
    /// A user-declared type and the shape of its fields.
    Adt(AdtDecl, Box<TypeShape>),
}

/// Why a value cannot be safely finalized.
#[derive(Clone, Copy, PartialEq, Eq, Structural, Debug)]
pub enum FinalizerHazard {
    /// A destructor may mutate unsynchronized shared state.
    MutatesSharedState,
    /// A destructor may dereference a managed pointer whose referent was already reclaimed.
    ReadsManagedPointer,
    /// The destructor is not known.
    UnknownDestructor,
}

/// The environment holds a bound `param: cap`.
pub open spec fn has_bound(env: Seq<Bound>, param: u32, cap: Capability) -> bool {
    exists|i: int| 0 <= i < env.len() && env[i] == (Bound { param, cap })
}

/// Running the type's destructor has an effect (it has drop glue).
pub open spec fn requires_destructor(t: TypeShape) -> bool
    decreases t,
{
    match t {
        TypeShape::Scalar => false,
        TypeShape::Managed(_) => false,
        TypeShape::Boxed(_) => true,
        TypeShape::Sequence(_) => true,
        TypeShape::Pair(a, b) => requires_destructor(*a) || requires_destructor(*b),
        TypeShape::Cell(e) => requires_destructor(*e),
        TypeShape::Opaque => true,
        TypeShape::Param(_) => true,
        TypeShape::Adt(d, f) => d.has_drop || requires_destructor(*f),
    }
}

/// A value of this type needs a finalizer call before its memory is reclaimed.
pub open spec fn needs_finalizer(t: TypeShape, env: Seq<Bound>) -> bool
    decreases t,
{
    match t {
        TypeShape::Scalar => false,
        TypeShape::Managed(_) => false,
        TypeShape::Boxed(e) => needs_finalizer(*e, env),
        TypeShape::Sequence(e) => needs_finalizer(*e, env),
        TypeShape::Pair(a, b) => needs_finalizer(*a, env) || needs_finalizer(*b, env),
        TypeShape::Cell(e) => needs_finalizer(*e, env),
        TypeShape::Opaque => true,
        TypeShape::Param(p) => !has_bound(env, p, Capability::NoFinalize),
        TypeShape::Adt(d, f) => !d.no_finalize && (d.has_drop || needs_finalizer(*f, env)),
    }
}

/// Recognized shapes whose destructor can be elided: bulk reclamation of the
/// storage is as good as running the destructor. False wherever no rule applies.
pub open spec fn manageable_without_finalizer(t: TypeShape, env: Seq<Bound>) -> bool
    decreases t,
{
    match t {
        TypeShape::Scalar => false,
        TypeShape::Managed(_) => false,
        TypeShape::Boxed(e) => !needs_finalizer(*e, env),
        TypeShape::Sequence(e) => !needs_finalizer(*e, env),
        TypeShape::Pair(a, b) => (requires_destructor(*a) || requires_destructor(*b))
            && !needs_finalizer(*a, env) && !needs_finalizer(*b, env),
        TypeShape::Cell(e) => manageable_without_finalizer(*e, env),
        TypeShape::Opaque => false,
        TypeShape::Param(p) => has_bound(env, p, Capability::NoFinalize),
        TypeShape::Adt(d, f) => d.no_finalize
            || (!d.has_drop && requires_destructor(*f) && !needs_finalizer(*f, env)),
    }
}

/// A value of this type can never be safely finalized, and why; `None` when it can.
pub open spec fn finalizer_hazard(t: TypeShape) -> Option<FinalizerHazard>
    decreases t,
{
    match t {
        TypeShape::Scalar => None,
        TypeShape::Managed(_) => Some(FinalizerHazard::ReadsManagedPointer),
        TypeShape::Boxed(e) => finalizer_hazard(*e),
        TypeShape::Sequence(e) => finalizer_hazard(*e),
        TypeShape::Pair(a, b) => match finalizer_hazard(*a) {
            Some(h) => Some(h),
            None => finalizer_hazard(*b),
        },
        TypeShape::Cell(_) => Some(FinalizerHazard::MutatesSharedState),
        TypeShape::Opaque => Some(FinalizerHazard::UnknownDestructor),
        TypeShape::Param(_) => Some(FinalizerHazard::UnknownDestructor),
        TypeShape::Adt(d, f) => if d.skips_finalizer_check {
            None
        } else if d.drop_mutates_shared {
            Some(FinalizerHazard::MutatesSharedState)
        } else {
            finalizer_hazard(*f)
        },
    }
}

/// The verdict of the finalizer-safety check on a value of type `t` placed in a
/// managed pointer: a type that needs no finalizer passes; one that does passes
/// only when its finalizer is free of hazards.
pub open spec fn finalizer_check(t: TypeShape, env: Seq<Bound>) -> Result<(), FinalizerHazard> {
    if !needs_finalizer(t, env) {
        Ok(())
    } else {
        match finalizer_hazard(t) {
            None => Ok(()),
            Some(h) => Err(h),
        }
    }
}

/// Whether type `t` has capability `cap` under the bounds of `env`.
pub open spec fn satisfies(t: TypeShape, env: Seq<Bound>, cap: Capability) -> bool
    decreases t,
{
    match t {
        TypeShape::Scalar => match cap {
            Capability::Conservative | Capability::NoFinalize | Capability::GcSmartPointer => false,
            _ => true,
        },
        TypeShape::Managed(_) => match cap {
            Capability::Copy | Capability::Sized | Capability::Freeze | Capability::Unpin
            | Capability::GcSmartPointer => true,
            _ => false,
        },
        TypeShape::Boxed(e) => match cap {
            Capability::Sized | Capability::Freeze | Capability::Unpin => true,
            Capability::NoTrace => satisfies(*e, env, cap),
            _ => false,
        },
        TypeShape::Sequence(e) => match cap {
            Capability::Sized | Capability::Freeze | Capability::Unpin => true,
            Capability::NoTrace => satisfies(*e, env, cap),
            _ => false,
        },
        TypeShape::Pair(a, b) => match cap {
            Capability::Copy | Capability::Sized | Capability::Freeze | Capability::Unpin
            | Capability::NoTrace => satisfies(*a, env, cap) && satisfies(*b, env, cap),
            _ => false,
        },
        TypeShape::Cell(e) => match cap {
            Capability::Sized => true,
            Capability::Unpin | Capability::NoTrace => satisfies(*e, env, cap),
            _ => false,
        },
        TypeShape::Opaque => false,
        TypeShape::Param(p) => has_bound(env, p, cap),
        TypeShape::Adt(d, f) => match cap {
            Capability::Copy => d.copy && !d.has_drop && satisfies(*f, env, cap),
            Capability::Sized => true,
            Capability::Freeze => satisfies(*f, env, cap),
            Capability::Unpin => !d.pinned && satisfies(*f, env, cap),
            Capability::NoTrace => d.no_trace || satisfies(*f, env, cap),
            Capability::Conservative => d.conservative,
            Capability::NoFinalize => d.no_finalize,
            Capability::GcSmartPointer => false,
        },
    }
}

/// A type without a destructor never needs a finalizer.
pub proof fn lemma_no_destructor_no_finalizer(t: TypeShape, env: Seq<Bound>)
    ensures
        !requires_destructor(t) ==> !needs_finalizer(t, env),
    decreases t,
{
    match t {
        TypeShape::Boxed(e) => lemma_no_destructor_no_finalizer(*e, env),
        TypeShape::Sequence(e) => lemma_no_destructor_no_finalizer(*e, env),
        TypeShape::Pair(a, b) => {
            lemma_no_destructor_no_finalizer(*a, env);
            lemma_no_destructor_no_finalizer(*b, env);
        },
        TypeShape::Cell(e) => lemma_no_destructor_no_finalizer(*e, env),
        TypeShape::Adt(_, f) => lemma_no_destructor_no_finalizer(*f, env),
        _ => {},
    }
}

/// A type needs a finalizer exactly when it has a destructor and no elision
/// rule covers it; so a type with a destructor that no rule covers needs one.
pub proof fn lemma_finalizer_decision(t: TypeShape, env: Seq<Bound>)
    ensures
        needs_finalizer(t, env) == (requires_destructor(t) && !manageable_without_finalizer(t, env)),
    decreases t,
{
    lemma_no_destructor_no_finalizer(t, env);
    match t {
        TypeShape::Boxed(e) => lemma_no_destructor_no_finalizer(*e, env),
        TypeShape::Sequence(e) => lemma_no_destructor_no_finalizer(*e, env),
        TypeShape::Pair(a, b) => {
            lemma_no_destructor_no_finalizer(*a, env);
            lemma_no_destructor_no_finalizer(*b, env);
        },
        TypeShape::Cell(e) => lemma_finalizer_decision(*e, env),
        TypeShape::Adt(_, f) => lemma_no_destructor_no_finalizer(*f, env),
        _ => {},
    }
}

/// A sequence needs a finalizer exactly when its element type does, and so does
/// a sequence of sequences.
pub proof fn lemma_sequence_follows_element(e: TypeShape, env: Seq<Bound>)
    ensures
        needs_finalizer(TypeShape::Sequence(Box::new(e)), env) == needs_finalizer(e, env),
        needs_finalizer(TypeShape::Sequence(Box::new(TypeShape::Sequence(Box::new(e)))), env)
            == needs_finalizer(e, env),
{
    reveal_with_fuel(needs_finalizer, 2);
}

/// Whether `env` holds the bound `param: cap`.
pub fn env_has_bound(env: &Vec<Bound>, param: u32, cap: Capability) -> (r: bool)
    ensures
        r == has_bound(env@, param, cap),
{
    let mut i: usize = 0;
    while i < env.len()
        invariant
            i <= env.len(),
            forall|j: int| 0 <= j < i ==> env@[j] != (Bound { param, cap }),
        decreases env.len() - i,
    {
        let b = env[i];
        if b.param == param && b.cap == cap {
            assert(env@[i as int] == (Bound { param, cap }));
            return true;
        }
        i = i + 1;
    }
    false
}

/// A type whose destructor mutates unsynchronized shared state is rejected when
/// placed in a managed pointer; the same type is accepted once it opts out of
/// the finalizer-safety check.
pub proof fn lemma_finalizer_check_opt_out(d: AdtDecl, f: TypeShape, env: Seq<Bound>)
    requires
        d.has_drop,
        !d.no_finalize,
        d.drop_mutates_shared,
    ensures
        !d.skips_finalizer_check ==> finalizer_check(TypeShape::Adt(d, Box::new(f)), env)
            == Err::<(), FinalizerHazard>(FinalizerHazard::MutatesSharedState),
        finalizer_check(TypeShape::Adt((AdtDecl { skips_finalizer_check: true, ..d }), Box::new(f)), env)
            == Ok::<(), FinalizerHazard>(()),
{
}

impl TypeShape {
    /// Whether dropping a value of this shape has an effect (it has drop glue).
    pub fn needs_drop(&self) -> (r: bool)
        ensures
            r == requires_destructor(*self),
        decreases self,
    {
        match self {
            TypeShape::Scalar => false,
            TypeShape::Managed(_) => false,
            TypeShape::Boxed(_) => true,
            TypeShape::Sequence(_) => true,
            TypeShape::Pair(a, b) => a.needs_drop() || b.needs_drop(),
            TypeShape::Cell(e) => e.needs_drop(),
            TypeShape::Opaque => true,
            TypeShape::Param(_) => true,
            TypeShape::Adt(d, f) => d.has_drop || f.needs_drop(),
        }
    }

    /// The elision rule: whether this shape is one of the recognized containers
    /// that the collector may reclaim in bulk without a finalizer.
    pub fn is_manageable_contents(&self, env: &Vec<Bound>) -> (r: bool)
        ensures
            r == manageable_without_finalizer(*self, env@),
        decreases self, 0int,
    {
        match self {
            TypeShape::Scalar => false,
            TypeShape::Managed(_) => false,
            TypeShape::Boxed(e) => !e.needs_finalizer(env),
            TypeShape::Sequence(e) => !e.needs_finalizer(env),
            TypeShape::Pair(a, b) => (a.needs_drop() || b.needs_drop()) && !a.needs_finalizer(env)
                && !b.needs_finalizer(env),
            TypeShape::Cell(e) => e.is_manageable_contents(env),
            TypeShape::Opaque => false,
            TypeShape::Param(p) => env_has_bound(env, *p, Capability::NoFinalize),
            TypeShape::Adt(d, f) => d.no_finalize || (!d.has_drop && f.needs_drop()
                && !f.needs_finalizer(env)),
        }
    }

    /// Whether a value of this shape must have a finalizer registered when it is
    /// handed to the collector: it has a destructor and no elision rule covers it.
    pub fn needs_finalizer(&self, env: &Vec<Bound>) -> (r: bool)
        ensures
            r == needs_finalizer(*self, env@),
        decreases self, 1int,
    {
        proof {
            lemma_finalizer_decision(*self, env@);
        }
        self.needs_drop() && !self.is_manageable_contents(env)
    }

    /// The first hazard that makes a finalizer for this shape unsafe, if any.
    pub fn finalizer_hazard(&self) -> (r: Option<FinalizerHazard>)
        ensures
            r == finalizer_hazard(*self),
        decreases self,
    {
        match self {
            TypeShape::Scalar => None,
            TypeShape::Managed(_) => Some(FinalizerHazard::ReadsManagedPointer),
            TypeShape::Boxed(e) => e.finalizer_hazard(),
            TypeShape::Sequence(e) => e.finalizer_hazard(),
            TypeShape::Pair(a, b) => match a.finalizer_hazard() {
                Some(h) => Some(h),
                None => b.finalizer_hazard(),
            },
            TypeShape::Cell(_) => Some(FinalizerHazard::MutatesSharedState),
            TypeShape::Opaque => Some(FinalizerHazard::UnknownDestructor),
            TypeShape::Param(_) => Some(FinalizerHazard::UnknownDestructor),
            TypeShape::Adt(d, f) => if d.skips_finalizer_check {
                None
            } else if d.drop_mutates_shared {
                Some(FinalizerHazard::MutatesSharedState)
            } else {
                f.finalizer_hazard()
            },
        }
    }

    /// The finalizer-safety check for a value of this shape placed in a managed
    /// pointer: `Err` names the hazard that rejects it.
    pub fn check_finalizer_safety(&self, env: &Vec<Bound>) -> (r: Result<(), FinalizerHazard>)
        ensures
            r == finalizer_check(*self, env@),
    {
        if !self.needs_finalizer(env) {
            Ok(())
        } else {
            match self.finalizer_hazard() {
                None => Ok(()),
                Some(h) => Err(h),
            }
        }
    }

    /// The capability oracle: whether this shape has `cap` under the bounds of `env`.
    pub fn satisfies(&self, env: &Vec<Bound>, cap: Capability) -> (r: bool)
        ensures
            r == satisfies(*self, env@, cap),
        decreases self,
    {
        match self {
            TypeShape::Scalar => match cap {
                Capability::Conservative | Capability::NoFinalize | Capability::GcSmartPointer => false,
                _ => true,
            },
            TypeShape::Managed(_) => match cap {
                Capability::Copy | Capability::Sized | Capability::Freeze | Capability::Unpin
                | Capability::GcSmartPointer => true,
                _ => false,
            },
            TypeShape::Boxed(e) => match cap {
                Capability::Sized | Capability::Freeze | Capability::Unpin => true,
                Capability::NoTrace => e.satisfies(env, cap),
                _ => false,
            },
            TypeShape::Sequence(e) => match cap {
                Capability::Sized | Capability::Freeze | Capability::Unpin => true,
                Capability::NoTrace => e.satisfies(env, cap),
                _ => false,
            },
            TypeShape::Pair(a, b) => match cap {
                Capability::Copy | Capability::Sized | Capability::Freeze | Capability::Unpin
                | Capability::NoTrace => a.satisfies(env, cap) && b.satisfies(env, cap),
                _ => false,
            },
            TypeShape::Cell(e) => match cap {
                Capability::Sized => true,
                Capability::Unpin | Capability::NoTrace => e.satisfies(env, cap),
                _ => false,
            },
            TypeShape::Opaque => false,
            TypeShape::Param(p) => env_has_bound(env, *p, cap),
            TypeShape::Adt(d, f) => match cap {
                Capability::Copy => d.copy && !d.has_drop && f.satisfies(env, cap),
                Capability::Sized => true,
                Capability::Freeze => f.satisfies(env, cap),
                Capability::Unpin => !d.pinned && f.satisfies(env, cap),
                Capability::NoTrace => d.no_trace || f.satisfies(env, cap),
                Capability::Conservative => d.conservative,
                Capability::NoFinalize => d.no_finalize,
                Capability::GcSmartPointer => false,
            },
        }
    }

    /// Whether two shapes describe the same type.
    pub fn same_as(&self, other: &TypeShape) -> (r: bool)
        ensures
            r == (*self == *other),
        decreases self,
    {
        match (self, other) {
            (TypeShape::Scalar, TypeShape::Scalar) => true,
            (TypeShape::Managed(a), TypeShape::Managed(b)) => a.same_as(b),
            (TypeShape::Boxed(a), TypeShape::Boxed(b)) => a.same_as(b),
            (TypeShape::Sequence(a), TypeShape::Sequence(b)) => a.same_as(b),
            (TypeShape::Pair(a1, a2), TypeShape::Pair(b1, b2)) => a1.same_as(b1) && a2.same_as(b2),
            (TypeShape::Cell(a), TypeShape::Cell(b)) => a.same_as(b),
            (TypeShape::Opaque, TypeShape::Opaque) => true,
            (TypeShape::Param(a), TypeShape::Param(b)) => *a == *b,
            (TypeShape::Adt(d1, f1), TypeShape::Adt(d2, f2)) => *d1 == *d2 && f1.same_as(f2),
            _ => false,
        }
    }
}

} // verus!
