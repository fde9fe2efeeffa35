//! The managed pointer: a one-word, copyable handle to a block of the
//! collector context. Handles carry no count; the collector alone decides when
//! a referent is reclaimed.
use vstd::prelude::*;
use core::marker::PhantomData;
use core::mem::MaybeUninit;
use crate::collector::{AllocClass, BlockMeta, BoxState, GcAllocator, HeapState, Layout};
use crate::shape::{
    finalizer_check, lemma_finalizer_decision, lemma_sequence_follows_element,
    manageable_without_finalizer, needs_finalizer, requires_destructor, Bound, TypeShape,
};

verus! {

/// The type of a handle whose referent's type is known only at run time.
pub struct Erased;

/// A managed pointer to a value of type `T`.
pub struct Gc<T> {
    ptr: usize,
    _phantom: PhantomData<T>,
}

/// The handle that raw address `raw` turns back into.
pub closed spec fn gc_at<T>(raw: usize) -> Gc<T> {
    Gc { ptr: raw, _phantom: PhantomData }
}

/// The record a managed value's block starts with: collectable, holding a
/// valid value, with a finalizer registered exactly when its shape needs one.
pub open spec fn managed_block(shape: TypeShape, layout: Layout) -> BlockMeta {
    BlockMeta {
        layout,
        class: AllocClass::Collectable,
        state: BoxState::Initialized { finalizer: needs_finalizer(shape, Seq::empty()) },
        managed: true,
    }
}

impl<T> Gc<T> {
    /// The address of the referent's block.
    pub closed spec fn addr(&self) -> usize {
        self.ptr
    }

    fn from_inner(ptr: usize) -> (r: Gc<T>)
        ensures
            r == gc_at::<T>(ptr),
            r.addr() == ptr,
    {
        Gc { ptr, _phantom: PhantomData }
    }

    /// Places a block for a value of type `T` under the collector: laid out
    /// as `T` is, described by `shape`, known by the type identity `type_id`,
    /// and with its finalizer registered when the shape needs one. The handle
    /// carries no value; the block's contents are the backend's. The shape
    /// must have passed the finalizer-safety check.
    pub fn new(heap: &mut GcAllocator, shape: TypeShape, type_id: u64) -> (r: Gc<T>)
        requires
            old(heap)@.wf(),
            old(heap)@.initialized,
            finalizer_check(shape, Seq::empty()) is Ok,
        ensures
            final(heap)@.wf(),
            r.addr() == old(heap)@.blocks.len(),
            final(heap)@ == old(heap)@.allocated(shape, Some(type_id), managed_block(shape, Layout::natural::<T>())),
    {
        let env: Vec<Bound> = Vec::new();
        proof {
            assert(env@ =~= Seq::<Bound>::empty());
        }
        let register = shape.needs_finalizer(&env);
        let ghost s = shape;
        let layout = Layout::of::<T>();
        let a = heap.push_block(shape, Some(type_id), BlockMeta {
            layout,
            class: AllocClass::Collectable,
            state: BoxState::Initialized { finalizer: false },
            managed: true,
        });
        if register {
            heap.register_finalizer(a);
        }
        proof {
            assert(final(heap)@.blocks =~= old(heap)@.allocated(s, Some(type_id), managed_block(s, layout)).blocks);
        }
        Gc::from_inner(a)
    }

    /// Allocates room for a value of type `T` (described by `shape`, known by
    /// `type_id`) by `layout`, which must be at least as large and as aligned
    /// as `T`'s own layout. The value is not valid until `assume_init`.
    pub fn new_from_layout(heap: &mut GcAllocator, shape: TypeShape, type_id: u64, layout: Layout)
        -> (r: Gc<MaybeUninit<T>>)
        requires
            old(heap)@.wf(),
            old(heap)@.initialized,
            layout.covers(Layout::natural::<T>()),
        ensures
            final(heap)@.wf(),
            r.addr() == old(heap)@.blocks.len(),
            final(heap)@ == old(heap)@.allocated(shape, Some(type_id), BlockMeta {
                layout,
                class: AllocClass::Collectable,
                state: BoxState::Uninit,
                managed: true,
            }),
    {
        Gc::<T>::new_from_layout_unchecked(heap, shape, type_id, layout)
    }

    /// Allocates room for a value of type `T` by `layout`, with no check of the
    /// layout against `T`'s.
    pub fn new_from_layout_unchecked(heap: &mut GcAllocator, shape: TypeShape, type_id: u64, layout: Layout)
        -> (r: Gc<MaybeUninit<T>>)
        requires
            old(heap)@.wf(),
            old(heap)@.initialized,
        ensures
            final(heap)@.wf(),
            r.addr() == old(heap)@.blocks.len(),
            final(heap)@ == old(heap)@.allocated(shape, Some(type_id), BlockMeta {
                layout,
                class: AllocClass::Collectable,
                state: BoxState::Uninit,
                managed: true,
            }),
    {
        let a = heap.push_block(shape, Some(type_id), BlockMeta {
            layout,
            class: AllocClass::Collectable,
            state: BoxState::Uninit,
            managed: true,
        });
        Gc::<MaybeUninit<T>>::from_inner(a)
    }

    /// The raw address of the referent.
    pub fn into_raw(this: Self) -> (r: usize)
        ensures
            r == this.addr(),
    {
        this.ptr
    }

    /// The handle of the referent at raw address `raw`, which must come from `into_raw`.
    pub fn from_raw(raw: usize) -> (r: Gc<T>)
        ensures
            r == gc_at::<T>(raw),
            r.addr() == raw,
    {
        Gc::from_inner(raw)
    }

    /// Whether two handles designate the same referent.
    pub fn ptr_eq(this: &Self, other: &Self) -> (r: bool)
        ensures
            r == (this.addr() == other.addr()),
    {
        this.ptr == other.ptr
    }

    /// The same handle, with the referent's type known only at run time.
    pub fn into_any(this: Self) -> (r: Gc<Erased>)
        ensures
            r.addr() == this.addr(),
    {
        Gc::<Erased>::from_inner(this.ptr)
    }
}

impl Gc<Erased> {
    /// Narrows the handle to a referent of type `U`, whose type identity is
    /// `target_id`. When the referent's block was made for that type the
    /// narrowed handle designates the same referent; otherwise the handle
    /// itself comes back, unchanged.
    pub fn downcast<U>(&self, heap: &GcAllocator, target_id: u64) -> (r: Result<Gc<U>, Gc<Erased>>)
        requires
            heap@.wf(),
            heap@.holds(self.addr()),
        ensures
            r is Ok <==> heap@.type_ids[self.addr() as int] == Some(target_id),
            r matches Ok(g) ==> g.addr() == self.addr(),
            r matches Err(g) ==> g == *self,
    {
        if heap.type_id_of(self.ptr) == Some(target_id) {
            Ok(Gc::<U>::from_inner(self.ptr))
        } else {
            Err(Gc { ptr: self.ptr, _phantom: PhantomData })
        }
    }
}

impl<T> Gc<MaybeUninit<T>> {
    /// Declares the referent valid. The finalizer is registered now, when the
    /// shape needs one: it could not be at allocation, while the value was not
    /// yet valid.
    pub fn assume_init(self, heap: &mut GcAllocator) -> (r: Gc<T>)
        requires
            old(heap)@.wf(),
            old(heap)@.holds(self.addr()),
            old(heap)@.blocks[self.addr() as int].state == BoxState::Uninit,
            finalizer_check(old(heap)@.shapes[self.addr() as int], Seq::empty()) is Ok,
        ensures
            final(heap)@.wf(),
            r.addr() == self.addr(),
            final(heap)@ == old(heap)@.with_block(self.addr(), (BlockMeta {
                state: BoxState::Initialized {
                    finalizer: needs_finalizer(old(heap)@.shapes[self.addr() as int], Seq::empty()),
                },
                ..old(heap)@.blocks[self.addr() as int]
            })),
    {
        let a = self.ptr;
        let env: Vec<Bound> = Vec::new();
        proof {
            assert(env@ =~= Seq::<Bound>::empty());
        }
        let register = heap.shape_of(a).needs_finalizer(&env);
        heap.mark_initialized(a);
        if register {
            heap.register_finalizer(a);
        }
        proof {
            let pre = old(heap)@;
            assert(final(heap)@.blocks =~= pre.with_block(a, (BlockMeta {
                state: BoxState::Initialized { finalizer: needs_finalizer(pre.shapes[a as int], Seq::empty()) },
                ..pre.blocks[a as int]
            })).blocks);
        }
        Gc::<T>::from_inner(a)
    }
}

impl<T> Clone for Gc<T> {
    /// A copy of the handle: the same referent, and nothing changes in the collector.
    fn clone(&self) -> (r: Self)
        ensures
            r == *self,
    {
        Gc { ptr: self.ptr, _phantom: PhantomData }
    }
}

impl<T> Copy for Gc<T> {
}

/// A value whose type has a destructor that no elision rule covers gets a
/// block with a finalizer registered.
pub proof fn lemma_new_registers_for_destructor(shape: TypeShape, layout: Layout)
    requires
        requires_destructor(shape),
        !manageable_without_finalizer(shape, Seq::empty()),
    ensures
        managed_block(shape, layout).state == (BoxState::Initialized { finalizer: true }),
{
    lemma_finalizer_decision(shape, Seq::empty());
}

/// A sequence's block gets a finalizer exactly when a block of its element type would.
pub proof fn lemma_new_sequence_follows_element(e: TypeShape, layout: Layout)
    ensures
        managed_block(TypeShape::Sequence(Box::new(e)), layout).state
            == managed_block(e, layout).state,
{
    lemma_sequence_follows_element(e, Seq::empty());
}

/// Turning a handle into its raw address and back gives the same handle.
pub proof fn lemma_raw_round_trip<T>(p: Gc<T>)
    ensures
        gc_at::<T>(p.addr()) == p,
{
}

/// A copy of a handle is pointer-equal to it, and in any collector state it
/// sees the same block record, registration included.
pub proof fn lemma_copy_shares_registration<T>(p: Gc<T>, q: Gc<T>, h: HeapState)
    requires
        q == p,
        h.holds(p.addr()),
    ensures
        q.addr() == p.addr(),
        h.blocks[q.addr() as int] == h.blocks[p.addr() as int],
{
}

} // verus!
