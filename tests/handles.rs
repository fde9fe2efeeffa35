use gc_core::collector::{BoxState, GcAllocator, Layout};
use gc_core::gc::{Erased, Gc};
use gc_core::shape::{AdtDecl, TypeShape};
use std::mem::MaybeUninit;

const USIZE_ID: u64 = 1;
const U8_ID: u64 = 2;
const HAS_DROP_ID: u64 = 3;
const OTHER_ID: u64 = 4;

struct HasDrop(#[allow(dead_code)] u64);

struct Other;

fn has_drop() -> TypeShape {
    TypeShape::Adt(
        AdtDecl {
            id: HAS_DROP_ID,
            has_drop: true,
            copy: false,
            no_finalize: false,
            pinned: false,
            no_trace: false,
            conservative: false,
            drop_mutates_shared: false,
            skips_finalizer_check: false,
        },
        Box::new(TypeShape::Scalar),
    )
}

fn ready() -> GcAllocator {
    let mut heap = GcAllocator::new();
    heap.init();
    heap
}

#[test]
fn new_registers_finalizer_only_when_needed() {
    let mut heap = ready();
    let a: Gc<usize> = Gc::new(&mut heap, TypeShape::Scalar, USIZE_ID);
    let b: Gc<HasDrop> = Gc::new(&mut heap, has_drop(), HAS_DROP_ID);
    let c: Gc<String> = Gc::new(&mut heap, TypeShape::Sequence(Box::new(TypeShape::Scalar)), OTHER_ID);
    assert_eq!(heap.block(Gc::into_raw(a)).state, BoxState::Initialized { finalizer: false });
    assert_eq!(heap.block(Gc::into_raw(b)).state, BoxState::Initialized { finalizer: true });
    assert_eq!(heap.block(Gc::into_raw(c)).state, BoxState::Initialized { finalizer: false });
    assert!(heap.is_managed(Gc::into_raw(b)));
}

#[test]
fn new_uses_the_natural_layout() {
    let mut heap = ready();
    let a: Gc<u64> = Gc::new(&mut heap, TypeShape::Scalar, USIZE_ID);
    assert_eq!(heap.block(Gc::into_raw(a)).layout, Layout { size: 8, align: 8 });
    let b: Gc<u8> = Gc::new(&mut heap, TypeShape::Scalar, U8_ID);
    assert_eq!(heap.block(Gc::into_raw(b)).layout, Layout { size: 1, align: 1 });
    assert_eq!(Layout::of::<u32>(), Layout { size: 4, align: 4 });
}

#[test]
fn clone_is_pointer_equal() {
    let mut heap = ready();
    let p: Gc<HasDrop> = Gc::new(&mut heap, has_drop(), HAS_DROP_ID);
    let before = heap.block(Gc::into_raw(p));
    let q = p.clone();
    assert!(Gc::ptr_eq(&p, &q));
    assert_eq!(heap.block(Gc::into_raw(q)), before);
}

#[test]
fn distinct_values_are_not_pointer_equal() {
    let mut heap = ready();
    let p: Gc<usize> = Gc::new(&mut heap, TypeShape::Scalar, USIZE_ID);
    let q: Gc<usize> = Gc::new(&mut heap, TypeShape::Scalar, USIZE_ID);
    assert!(!Gc::ptr_eq(&p, &q));
}

#[test]
fn raw_round_trip() {
    let mut heap = ready();
    let _first: Gc<usize> = Gc::new(&mut heap, TypeShape::Scalar, USIZE_ID);
    let p: Gc<usize> = Gc::new(&mut heap, TypeShape::Scalar, USIZE_ID);
    let raw = Gc::into_raw(p);
    assert_eq!(raw, 1);
    let back: Gc<usize> = Gc::from_raw(raw);
    assert!(Gc::ptr_eq(&p, &back));
}

#[test]
fn downcast_to_right_type() {
    let mut heap = ready();
    let p: Gc<HasDrop> = Gc::new(&mut heap, has_drop(), HAS_DROP_ID);
    let any = Gc::into_any(p);
    match any.downcast::<HasDrop>(&heap, HAS_DROP_ID) {
        Ok(g) => assert!(Gc::ptr_eq(&g, &p)),
        Err(_) => panic!("downcast to the referent's type failed"),
    }
}

#[test]
fn downcast_to_wrong_type() {
    let mut heap = ready();
    let p: Gc<HasDrop> = Gc::new(&mut heap, has_drop(), HAS_DROP_ID);
    let any: Gc<Erased> = Gc::into_any(p);
    match any.downcast::<Other>(&heap, OTHER_ID) {
        Ok(_) => panic!("downcast to another type succeeded"),
        Err(g) => assert!(Gc::ptr_eq(&g, &any)),
    }
    assert!(any.downcast::<HasDrop>(&heap, HAS_DROP_ID).is_ok());
}

#[test]
fn downcast_between_same_shaped_types() {
    let mut heap = ready();
    let p: Gc<usize> = Gc::new(&mut heap, TypeShape::Scalar, USIZE_ID);
    let any = Gc::into_any(p);
    match any.downcast::<u8>(&heap, U8_ID) {
        Ok(_) => panic!("downcast from usize to u8 succeeded"),
        Err(g) => assert!(Gc::ptr_eq(&g, &any)),
    }
    match any.downcast::<usize>(&heap, USIZE_ID) {
        Ok(g) => assert_eq!(Gc::into_raw(g), Gc::into_raw(p)),
        Err(_) => panic!("downcast to usize failed"),
    }
}

#[test]
fn downcast_of_raw_block_fails() {
    let mut heap = ready();
    let a = heap.allocate(Layout { size: 8, align: 8 });
    let any: Gc<Erased> = Gc::from_raw(a);
    assert!(any.downcast::<usize>(&heap, USIZE_ID).is_err());
}

#[test]
fn deferred_initialization_registers_lazily() {
    let mut heap = ready();
    let big = Layout { size: 64, align: 16 };
    let u: Gc<MaybeUninit<HasDrop>> = Gc::<HasDrop>::new_from_layout(&mut heap, has_drop(), HAS_DROP_ID, big);
    let a = Gc::into_raw(u);
    assert_eq!(heap.block(a).state, BoxState::Uninit);
    assert_eq!(heap.block(a).layout, big);
    let v: Gc<HasDrop> = u.assume_init(&mut heap);
    assert_eq!(Gc::into_raw(v), a);
    assert_eq!(heap.block(a).state, BoxState::Initialized { finalizer: true });
    assert!(Gc::into_any(v).downcast::<HasDrop>(&heap, HAS_DROP_ID).is_ok());
}

#[test]
fn deferred_initialization_without_destructor() {
    let mut heap = ready();
    let small = Layout { size: 8, align: 8 };
    let u: Gc<MaybeUninit<u64>> = Gc::<u64>::new_from_layout_unchecked(&mut heap, TypeShape::Scalar, USIZE_ID, small);
    let v: Gc<u64> = u.assume_init(&mut heap);
    assert_eq!(heap.block(Gc::into_raw(v)).state, BoxState::Initialized { finalizer: false });
}

#[test]
fn layout_fits() {
    let natural = Layout { size: 16, align: 8 };
    assert!(Layout { size: 16, align: 8 }.fits(&natural));
    assert!(Layout { size: 32, align: 16 }.fits(&natural));
    assert!(!Layout { size: 8, align: 8 }.fits(&natural));
    assert!(!Layout { size: 32, align: 4 }.fits(&natural));
}
