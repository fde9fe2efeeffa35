//! The collector context: the process-wide state of the collector backend as
//! the library sees it, and the operations that allocate, register finalizers,
//! register mutator threads and run collection cycles.
use vstd::prelude::*;
use crate::shape::TypeShape;

verus! {

/// The size and alignment of a block, in bytes.
#[derive(Clone, Copy, PartialEq, Eq, Structural, Debug)]
pub struct Layout {
    pub size: usize,
    pub align: usize,
}

impl Layout {
    /// The layout of a value of type `T`.
    pub open spec fn natural<T>() -> Layout {
        Layout { size: core::mem::size_of::<T>(), align: core::mem::align_of::<T>() }
    }

    /// The layout of a value of type `T`.
    pub fn of<T>() -> (r: Layout)
        ensures
            r == Layout::natural::<T>(),
    {
        Layout { size: core::mem::size_of::<T>(), align: core::mem::align_of::<T>() }
    }

    /// This layout is at least as large and at least as aligned as `natural`.
    pub open spec fn covers(self, natural: Layout) -> bool {
        self.size >= natural.size && self.align >= natural.align
    }

    /// Whether this layout can hold a value whose own layout is `natural`.
    pub fn fits(&self, natural: &Layout) -> (r: bool)
        ensures
            r == self.covers(*natural),
    {
        self.size >= natural.size && self.align >= natural.align
    }
}

/// A precise-scanning descriptor: bit `i` of `bitmap` is set when word `i`
/// of the block, among the first `words`, holds a pointer.
#[derive(Clone, Copy, PartialEq, Eq, Structural, Debug)]
pub struct Descriptor {
    pub bitmap: usize,
    pub words: usize,
}

/// How the collector treats a block.
#[derive(Clone, Copy, PartialEq, Eq, Structural, Debug)]
pub enum AllocClass {
    /// Scanned for pointers and reclaimed when unreachable.
    Collectable,
    /// Never scanned (it holds no pointers), reclaimed when unreachable.
    Untraceable,
    /// Scanned, never reclaimed by the collector: freed explicitly.
    Uncollectable,
    /// Scanned exactly, by the descriptor, and reclaimed when unreachable.
    Precise(Descriptor),
}

/// Where a block stands in its life.
#[derive(Clone, Copy, PartialEq, Eq, Structural, Debug)]
pub enum BoxState {
    /// Allocated; the value in it is not yet known to be valid.
    Uninit,
    /// Holds a valid value; `finalizer` tells whether a finalizer is registered.
    Initialized { finalizer: bool },
    /// Reclaimed; `finalized` tells whether its finalizer ran.
    Reclaimed { finalized: bool },
}

/// What the collector records of one block.
#[derive(Clone, Copy, PartialEq, Eq, Structural, Debug)]
pub struct BlockMeta {
    pub layout: Layout,
    pub class: AllocClass,
    pub state: BoxState,
    /// The collector reclaims the block when it becomes unreachable.
    pub managed: bool,
}

/// Read-only telemetry of the collector.
#[derive(Clone, Copy, PartialEq, Eq, Structural, Debug, Default)]
pub struct ProfileStats {
    /// Heap size in bytes (including area unmapped to the OS).
    pub heapsize_full: usize,
    /// Total bytes contained in free and unmapped blocks.
    pub free_bytes_full: usize,
    /// Amount of memory unmapped to the OS.
    pub unmapped_bytes: usize,
    /// Number of bytes allocated since the recent collection.
    pub bytes_allocd_since_gc: usize,
    /// Number of bytes allocated before the recent collection (may wrap).
    pub allocd_bytes_before_gc: usize,
    /// Number of bytes not considered candidates for collection.
    pub non_gc_bytes: usize,
    /// Collection cycle number (may wrap).
    pub gc_no: usize,
    /// Number of marker threads, excluding the initiating one.
    pub markers_m1: usize,
    /// Approximate number of reclaimed bytes after the recent collection.
    pub bytes_reclaimed_since_gc: usize,
    /// Approximate number of bytes reclaimed before the recent collection (may wrap).
    pub reclaimed_bytes_before_gc: usize,
    /// Number of bytes freed explicitly since the recent collection.
    pub expl_freed_bytes_since_gc: usize,
}

/// The abstract state of the collector context.
pub struct HeapState {
    pub initialized: bool,
    pub threads_allowed: bool,
    pub warnings_suppressed: bool,
    /// The registered mutator threads.
    pub threads: Seq<u64>,
    /// The shape of the value each block holds, by address.
    pub shapes: Seq<TypeShape>,
    /// The identity of the type of the value each block holds, by address;
    /// `None` for a raw allocation.
    pub type_ids: Seq<Option<u64>>,
    /// The collector's record of each block, by address.
    pub blocks: Seq<BlockMeta>,
    /// The addresses whose finalizer has run, in the order they ran.
    pub finalized: Seq<usize>,
}

/// The state a block reaches when a collection finds it unreachable.
pub open spec fn reclaimed(m: BlockMeta) -> BlockMeta {
    match m.state {
        BoxState::Uninit => BlockMeta { state: BoxState::Reclaimed { finalized: false }, ..m },
        BoxState::Initialized { finalizer } => BlockMeta {
            state: BoxState::Reclaimed { finalized: finalizer },
            ..m
        },
        BoxState::Reclaimed { .. } => m,
    }
}

impl HeapState {
    /// The collector's invariant: one shape per block; the log of finalizer runs
    /// names each block at most once, and exactly the blocks reclaimed with
    /// their finalizer run; no thread is registered twice.
    pub open spec fn wf(self) -> bool {
        &&& self.shapes.len() == self.blocks.len()
        &&& self.type_ids.len() == self.blocks.len()
        &&& forall|i: int|
            0 <= i < self.finalized.len() ==> {
                &&& self.finalized[i] < self.blocks.len()
                &&& self.blocks[self.finalized[i] as int].state == (BoxState::Reclaimed { finalized: true })
            }
        &&& forall|i: int, j: int|
            0 <= i < j < self.finalized.len() ==> self.finalized[i] != self.finalized[j]
        &&& forall|a: int|
            0 <= a < self.blocks.len() && self.blocks[a].state == (BoxState::Reclaimed { finalized: true })
                ==> self.finalized.contains(a as usize)
        &&& self.threads.no_duplicates()
    }

    /// `a` is the address of a block.
    pub open spec fn holds(self, a: usize) -> bool {
        a < self.blocks.len()
    }

    /// This state with one more block.
    pub open spec fn allocated(self, shape: TypeShape, type_id: Option<u64>, meta: BlockMeta) -> HeapState {
        HeapState {
            shapes: self.shapes.push(shape),
            type_ids: self.type_ids.push(type_id),
            blocks: self.blocks.push(meta),
            ..self
        }
    }

    /// This state with the record of block `a` replaced.
    pub open spec fn with_block(self, a: usize, meta: BlockMeta) -> HeapState {
        HeapState { blocks: self.blocks.update(a as int, meta), ..self }
    }

    /// `post` is this state after a collection cycle that found the blocks of
    /// `dead` unreachable: each managed one is reclaimed, its finalizer run
    /// when one was registered, and nothing else changes.
    pub open spec fn collected(self, dead: Seq<usize>, post: HeapState) -> bool {
        &&& post.blocks.len() == self.blocks.len()
        &&& forall|a: int|
            0 <= a < self.blocks.len() ==> post.blocks[a] == if dead.contains(a as usize)
                && self.blocks[a].managed {
                reclaimed(self.blocks[a])
            } else {
                self.blocks[a]
            }
        &&& post.finalized.subrange(0, self.finalized.len() as int) == self.finalized
        &&& forall|a: usize|
            post.finalized.contains(a) <==> (self.finalized.contains(a) || (dead.contains(a)
                && self.holds(a) && self.blocks[a as int].managed && self.blocks[a as int].state
                == (BoxState::Initialized { finalizer: true })))
        &&& post.shapes == self.shapes
        &&& post.type_ids == self.type_ids
        &&& post.threads == self.threads
        &&& post.initialized == self.initialized
        &&& post.threads_allowed == self.threads_allowed
        &&& post.warnings_suppressed == self.warnings_suppressed
    }
}

/// The collector context. One exists per process; every operation of the
/// backend goes through it.
pub struct GcAllocator {
    initialized: bool,
    threads_allowed: bool,
    warnings_suppressed: bool,
    threads: Vec<u64>,
    shapes: Vec<TypeShape>,
    type_ids: Vec<Option<u64>>,
    blocks: Vec<BlockMeta>,
    finalized: Vec<usize>,
}

impl View for GcAllocator {
    type V = HeapState;

    closed spec fn view(&self) -> HeapState {
        HeapState {
            initialized: self.initialized,
            threads_allowed: self.threads_allowed,
            warnings_suppressed: self.warnings_suppressed,
            threads: self.threads@,
            shapes: self.shapes@,
            type_ids: self.type_ids@,
            blocks: self.blocks@,
            finalized: self.finalized@,
        }
    }
}

impl GcAllocator {
    /// A context whose backend has not been initialized yet.
    pub fn new() -> (r: GcAllocator)
        ensures
            r@.wf(),
            !r@.initialized,
            !r@.threads_allowed,
            !r@.warnings_suppressed,
            r@.threads.len() == 0,
            r@.blocks.len() == 0,
            r@.finalized.len() == 0,
    {
        GcAllocator {
            initialized: false,
            threads_allowed: false,
            warnings_suppressed: false,
            threads: Vec::new(),
            shapes: Vec::new(),
            type_ids: Vec::new(),
            blocks: Vec::new(),
            finalized: Vec::new(),
        }
    }

    /// Initializes the backend; a second call changes nothing.
    pub fn init(&mut self)
        ensures
            final(self)@ == (HeapState { initialized: true, ..old(self)@ }),
    {
        self.initialized = true;
    }

    /// Whether the backend was initialized.
    pub fn is_initialized(&self) -> (r: bool)
        ensures
            r == self@.initialized,
    {
        self.initialized
    }

    /// Records a new block and returns its address.
    pub(crate) fn push_block(&mut self, shape: TypeShape, type_id: Option<u64>, meta: BlockMeta) -> (r: usize)
        requires
            old(self)@.wf(),
            meta.state != (BoxState::Reclaimed { finalized: true }),
        ensures
            final(self)@.wf(),
            r == old(self)@.blocks.len(),
            final(self)@ == old(self)@.allocated(shape, type_id, meta),
    {
        let a = self.blocks.len();
        self.shapes.push(shape);
        self.type_ids.push(type_id);
        self.blocks.push(meta);
        proof {
            let post = self@;
            assert forall|i: int| 0 <= i < post.finalized.len() implies {
                &&& post.finalized[i] < post.blocks.len()
                &&& post.blocks[post.finalized[i] as int].state == (BoxState::Reclaimed { finalized: true })
            } by {
                assert(old(self)@.blocks[old(self)@.finalized[i] as int] == post.blocks[post.finalized[i] as int]);
            }
        }
        a
    }

    /// Replaces the record of block `a`, which must not be reclaimed.
    fn set_live_block(&mut self, a: usize, meta: BlockMeta)
        requires
            old(self)@.wf(),
            old(self)@.holds(a),
            old(self)@.blocks[a as int].state !is Reclaimed,
            meta.state !is Reclaimed,
        ensures
            final(self)@.wf(),
            final(self)@ == old(self)@.with_block(a, meta),
    {
        self.blocks.set(a, meta);
        proof {
            let pre = old(self)@;
            let post = self@;
            assert forall|i: int| 0 <= i < post.finalized.len() implies {
                &&& post.finalized[i] < post.blocks.len()
                &&& post.blocks[post.finalized[i] as int].state == (BoxState::Reclaimed { finalized: true })
            } by {
                assert(pre.blocks[pre.finalized[i] as int].state is Reclaimed);
            }
        }
    }

    /// Declares the value in the uninitialized block `a` valid, with no finalizer yet.
    pub(crate) fn mark_initialized(&mut self, a: usize)
        requires
            old(self)@.wf(),
            old(self)@.holds(a),
            old(self)@.blocks[a as int].state == BoxState::Uninit,
        ensures
            final(self)@.wf(),
            final(self)@ == old(self)@.with_block(a, (BlockMeta {
                state: BoxState::Initialized { finalizer: false },
                ..old(self)@.blocks[a as int]
            })),
    {
        let m = self.blocks[a];
        self.set_live_block(a, BlockMeta { state: BoxState::Initialized { finalizer: false }, ..m });
    }

    /// Allocates an uncollectable block: scanned, and never reclaimed until freed.
    pub fn alloc_uncollectable(&mut self, layout: Layout) -> (r: usize)
        requires
            old(self)@.wf(),
            old(self)@.initialized,
        ensures
            final(self)@.wf(),
            r == old(self)@.blocks.len(),
            final(self)@ == old(self)@.allocated(TypeShape::Scalar, None, BlockMeta {
                layout,
                class: AllocClass::Uncollectable,
                state: BoxState::Initialized { finalizer: false },
                managed: false,
            }),
    {
        self.push_block(TypeShape::Scalar, None, BlockMeta {
            layout,
            class: AllocClass::Uncollectable,
            state: BoxState::Initialized { finalizer: false },
            managed: false,
        })
    }

    /// Allocates a collectable block that is scanned for pointers.
    pub fn allocate(&mut self, layout: Layout) -> (r: usize)
        requires
            old(self)@.wf(),
            old(self)@.initialized,
        ensures
            final(self)@.wf(),
            r == old(self)@.blocks.len(),
            final(self)@ == old(self)@.allocated(TypeShape::Scalar, None, BlockMeta {
                layout,
                class: AllocClass::Collectable,
                state: BoxState::Initialized { finalizer: false },
                managed: true,
            }),
    {
        self.push_block(TypeShape::Scalar, None, BlockMeta {
            layout,
            class: AllocClass::Collectable,
            state: BoxState::Initialized { finalizer: false },
            managed: true,
        })
    }

    /// Allocates a block whose lifetime is kept outside the collector: scanned
    /// conservatively, never reclaimed until freed.
    pub fn alloc_conservative(&mut self, layout: Layout) -> (r: usize)
        requires
            old(self)@.wf(),
            old(self)@.initialized,
        ensures
            final(self)@.wf(),
            r == old(self)@.blocks.len(),
            final(self)@ == old(self)@.allocated(TypeShape::Scalar, None, BlockMeta {
                layout,
                class: AllocClass::Uncollectable,
                state: BoxState::Initialized { finalizer: false },
                managed: false,
            }),
    {
        self.push_block(TypeShape::Scalar, None, BlockMeta {
            layout,
            class: AllocClass::Uncollectable,
            state: BoxState::Initialized { finalizer: false },
            managed: false,
        })
    }

    /// Allocates a collectable block that is never scanned: the caller asserts
    /// it holds no pointers.
    pub fn alloc_untraceable(&mut self, layout: Layout) -> (r: usize)
        requires
            old(self)@.wf(),
            old(self)@.initialized,
        ensures
            final(self)@.wf(),
            r == old(self)@.blocks.len(),
            final(self)@ == old(self)@.allocated(TypeShape::Scalar, None, BlockMeta {
                layout,
                class: AllocClass::Untraceable,
                state: BoxState::Initialized { finalizer: false },
                managed: true,
            }),
    {
        self.push_block(TypeShape::Scalar, None, BlockMeta {
            layout,
            class: AllocClass::Untraceable,
            state: BoxState::Initialized { finalizer: false },
            managed: true,
        })
    }

    /// Allocates a collectable block scanned exactly: bit `i` of `bitmap` marks
    /// word `i`, among the first `bitmap_size`, as a pointer.
    pub fn alloc_precise(&mut self, layout: Layout, bitmap: usize, bitmap_size: usize) -> (r: usize)
        requires
            old(self)@.wf(),
            old(self)@.initialized,
        ensures
            final(self)@.wf(),
            r == old(self)@.blocks.len(),
            final(self)@ == old(self)@.allocated(TypeShape::Scalar, None, BlockMeta {
                layout,
                class: AllocClass::Precise(Descriptor { bitmap, words: bitmap_size }),
                state: BoxState::Initialized { finalizer: false },
                managed: true,
            }),
    {
        let descriptor = Descriptor { bitmap, words: bitmap_size };
        self.push_block(TypeShape::Scalar, None, BlockMeta {
            layout,
            class: AllocClass::Precise(descriptor),
            state: BoxState::Initialized { finalizer: false },
            managed: true,
        })
    }

    /// Frees block `a` explicitly: it is reclaimed without running a finalizer.
    /// A reclaimed block or an unknown address is left alone.
    pub fn dealloc(&mut self, a: usize)
        requires
            old(self)@.wf(),
        ensures
            final(self)@.wf(),
            final(self)@ == if old(self)@.holds(a) && old(self)@.blocks[a as int].state !is Reclaimed {
                old(self)@.with_block(a, (BlockMeta {
                    state: BoxState::Reclaimed { finalized: false },
                    ..old(self)@.blocks[a as int]
                }))
            } else {
                old(self)@
            },
    {
        if a < self.blocks.len() {
            let m = self.blocks[a];
            match m.state {
                BoxState::Reclaimed { .. } => {},
                _ => {
                    self.blocks.set(a, BlockMeta { state: BoxState::Reclaimed { finalized: false }, ..m });
                    proof {
                        let pre = old(self)@;
                        let post = self@;
                        assert forall|i: int| 0 <= i < post.finalized.len() implies {
                            &&& post.finalized[i] < post.blocks.len()
                            &&& post.blocks[post.finalized[i] as int].state == (BoxState::Reclaimed { finalized: true })
                        } by {
                            assert(pre.blocks[pre.finalized[i] as int].state is Reclaimed);
                        }
                        assert forall|b: int|
                            0 <= b < post.blocks.len() && post.blocks[b].state == (BoxState::Reclaimed { finalized: true })
                            implies post.finalized.contains(b as usize) by {
                            assert(b != a);
                            assert(pre.blocks[b] == post.blocks[b]);
                        }
                    }
                },
            }
        }
    }

    /// The record of block `a`.
    pub fn block(&self, a: usize) -> (r: BlockMeta)
        requires
            self@.holds(a),
        ensures
            r == self@.blocks[a as int],
    {
        self.blocks[a]
    }

    /// The shape of the value that block `a` holds.
    pub fn shape_of(&self, a: usize) -> (r: &TypeShape)
        requires
            self@.wf(),
            self@.holds(a),
        ensures
            *r == self@.shapes[a as int],
    {
        &self.shapes[a]
    }

    /// The identity of the type of the value that block `a` holds.
    pub fn type_id_of(&self, a: usize) -> (r: Option<u64>)
        requires
            self@.wf(),
            self@.holds(a),
        ensures
            r == self@.type_ids[a as int],
    {
        self.type_ids[a]
    }

    /// Resizes block `a` to `new_size` bytes in place, keeping its contents,
    /// class and registration. A reclaimed block or an unknown address is left alone.
    pub fn realloc(&mut self, a: usize, new_size: usize)
        requires
            old(self)@.wf(),
        ensures
            final(self)@.wf(),
            final(self)@ == if old(self)@.holds(a) && old(self)@.blocks[a as int].state !is Reclaimed {
                old(self)@.with_block(a, (BlockMeta {
                    layout: Layout { size: new_size, ..old(self)@.blocks[a as int].layout },
                    ..old(self)@.blocks[a as int]
                }))
            } else {
                old(self)@
            },
    {
        if a < self.blocks.len() {
            let m = self.blocks[a];
            match m.state {
                BoxState::Reclaimed { .. } => {},
                _ => {
                    let layout = Layout { size: new_size, ..m.layout };
                    self.set_live_block(a, BlockMeta { layout, ..m });
                },
            }
        }
    }

    /// Registers the finalizer of block `a`, which runs the destructor of the
    /// value it holds when the block is reclaimed. Only a block that holds a
    /// valid value takes one, and a block never has two.
    pub fn register_finalizer(&mut self, a: usize)
        requires
            old(self)@.wf(),
        ensures
            final(self)@.wf(),
            final(self)@ == if old(self)@.holds(a) && old(self)@.blocks[a as int].state is Initialized {
                old(self)@.with_block(a, (BlockMeta {
                    state: BoxState::Initialized { finalizer: true },
                    ..old(self)@.blocks[a as int]
                }))
            } else {
                old(self)@
            },
    {
        if a < self.blocks.len() {
            let m = self.blocks[a];
            if let BoxState::Initialized { .. } = m.state {
                self.set_live_block(a, BlockMeta { state: BoxState::Initialized { finalizer: true }, ..m });
            }
        }
    }

    /// Removes the finalizer of block `a`, if it has one; a second call changes nothing.
    pub fn unregister_finalizer(&mut self, a: usize)
        requires
            old(self)@.wf(),
        ensures
            final(self)@.wf(),
            final(self)@ == if old(self)@.holds(a) && old(self)@.blocks[a as int].state is Initialized {
                old(self)@.with_block(a, (BlockMeta {
                    state: BoxState::Initialized { finalizer: false },
                    ..old(self)@.blocks[a as int]
                }))
            } else {
                old(self)@
            },
    {
        if a < self.blocks.len() {
            let m = self.blocks[a];
            if let BoxState::Initialized { .. } = m.state {
                self.set_live_block(a, BlockMeta { state: BoxState::Initialized { finalizer: false }, ..m });
            }
        }
    }

    /// Runs a full collection cycle, given the blocks that the backend's scan
    /// found unreachable. Each managed one among them is reclaimed, and its
    /// finalizer runs if one is registered; no finalizer runs twice.
    pub fn force_gc(&mut self, dead: &Vec<usize>)
        requires
            old(self)@.wf(),
        ensures
            final(self)@.wf(),
            old(self)@.collected(dead@, final(self)@),
    {
        let ghost pre = self@;
        let mut k: usize = 0;
        proof {
            assert(pre.finalized.subrange(0, pre.finalized.len() as int) =~= pre.finalized);
            assert(dead@.subrange(0, 0) =~= Seq::<usize>::empty());
        }
        while k < dead.len()
            invariant
                k <= dead.len(),
                pre == old(self)@,
                pre.wf(),
                self@.wf(),
                self@.finalized.len() >= pre.finalized.len(),
                pre.collected(dead@.subrange(0, k as int), self@),
            decreases dead.len() - k,
        {
            let ghost cur = self@;
            let ghost mut pushed = false;
            let a = dead[k];
            if a < self.blocks.len() {
                let m = self.blocks[a];
                if m.managed {
                    match m.state {
                        BoxState::Initialized { finalizer } => {
                            self.blocks.set(a, BlockMeta { state: BoxState::Reclaimed { finalized: finalizer }, ..m });
                            if finalizer {
                                proof {
                                    assert(!cur.finalized.contains(a)) by {
                                        if cur.finalized.contains(a) {
                                            let i = choose|i: int| 0 <= i < cur.finalized.len() && cur.finalized[i] == a;
                                            assert(cur.blocks[cur.finalized[i] as int].state is Reclaimed);
                                        }
                                    }
                                }
                                self.finalized.push(a);
                                proof {
                                    pushed = true;
                                }
                            }
                        },
                        BoxState::Uninit => {
                            self.blocks.set(a, BlockMeta { state: BoxState::Reclaimed { finalized: false }, ..m });
                        },
                        BoxState::Reclaimed { .. } => {},
                    }
                }
            }
            proof {
                let done = dead@.subrange(0, k as int);
                let next = dead@.subrange(0, k as int + 1);
                assert(next == done.push(a));
                assert forall|x: usize| next.contains(x) <==> (done.contains(x) || x == a) by {
                    if x == a {
                        assert(next[k as int] == a);
                    }
                    if done.contains(x) {
                        let j = choose|j: int| 0 <= j < done.len() && done[j] == x;
                        assert(next[j] == x);
                    }
                }
                let post = self@;
                assert(pushed == (cur.holds(a) && cur.blocks[a as int].managed
                    && cur.blocks[a as int].state == (BoxState::Initialized { finalizer: true })));
                assert(post.finalized == if pushed { cur.finalized.push(a) } else { cur.finalized });
                assert(post.finalized.subrange(0, cur.finalized.len() as int) =~= cur.finalized);
                assert(post.finalized.subrange(0, pre.finalized.len() as int) =~= pre.finalized) by {
                    assert(cur.finalized.subrange(0, pre.finalized.len() as int) == pre.finalized);
                    assert forall|i: int| 0 <= i < pre.finalized.len() implies
                        post.finalized[i] == cur.finalized[i] by {
                        assert(post.finalized.subrange(0, cur.finalized.len() as int)[i] == cur.finalized[i]);
                    }
                }
                assert forall|x: usize| post.finalized.contains(x) <==> (cur.finalized.contains(x)
                    || (x == a && cur.holds(a) && cur.blocks[a as int].managed
                        && cur.blocks[a as int].state == (BoxState::Initialized { finalizer: true }))) by {
                    if cur.finalized.contains(x) {
                        let i = choose|i: int| 0 <= i < cur.finalized.len() && cur.finalized[i] == x;
                        assert(post.finalized[i] == x);
                    }
                    if pushed && x == a {
                        assert(post.finalized[cur.finalized.len() as int] == a);
                    }
                    if post.finalized.contains(x) && !cur.finalized.contains(x) {
                        let i = choose|i: int| 0 <= i < post.finalized.len() && post.finalized[i] == x;
                        if i < cur.finalized.len() {
                            assert(post.finalized[i] == cur.finalized[i]);
                        }
                    }
                }
            }
            k = k + 1;
        }
        proof {
            assert(dead@.subrange(0, dead@.len() as int) == dead@);
        }
    }

    /// Lets threads other than the first register with the collector.
    pub fn allow_register_threads(&mut self)
        ensures
            final(self)@ == (HeapState { threads_allowed: true, ..old(self)@ }),
    {
        self.threads_allowed = true;
    }

    /// Installs a warning sink that ignores every warning of the backend.
    pub fn suppress_warnings(&mut self)
        ensures
            final(self)@ == (HeapState { warnings_suppressed: true, ..old(self)@ }),
    {
        self.warnings_suppressed = true;
    }

    /// Whether the backend's warnings are suppressed.
    pub fn warnings_suppressed(&self) -> (r: bool)
        ensures
            r == self@.warnings_suppressed,
    {
        self.warnings_suppressed
    }

    /// How many times the finalizer of block `a` has run: never more than once.
    pub fn finalized_count(&self, a: usize) -> (r: usize)
        requires
            self@.wf(),
        ensures
            r == (if self@.finalized.contains(a) { 1usize } else { 0usize }),
    {
        let mut i: usize = 0;
        while i < self.finalized.len()
            invariant
                i <= self.finalized.len(),
                forall|j: int| 0 <= j < i ==> self.finalized@[j] != a,
            decreases self.finalized.len() - i,
        {
            if self.finalized[i] == a {
                return 1;
            }
            i = i + 1;
        }
        0
    }

    /// Whether `thread` is registered with the collector.
    pub fn thread_registered(&self, thread: u64) -> (r: bool)
        ensures
            r == self@.threads.contains(thread),
    {
        let mut i: usize = 0;
        while i < self.threads.len()
            invariant
                i <= self.threads.len(),
                forall|j: int| 0 <= j < i ==> self.threads@[j] != thread,
            decreases self.threads.len() - i,
        {
            if self.threads[i] == thread {
                return true;
            }
            i = i + 1;
        }
        false
    }

    /// Registers `thread`, whose stack starts at `stack_base`, as a mutator.
    /// Returns whether it was registered: that takes an initialized backend
    /// that allows thread registration, a stack base other than zero, and a
    /// thread not registered yet. On failure nothing changes.
    pub fn register_thread(&mut self, thread: u64, stack_base: usize) -> (r: bool)
        requires
            old(self)@.wf(),
        ensures
            final(self)@.wf(),
            r == (old(self)@.initialized && old(self)@.threads_allowed && stack_base != 0
                && !old(self)@.threads.contains(thread)),
            final(self)@ == if r {
                HeapState { threads: old(self)@.threads.push(thread), ..old(self)@ }
            } else {
                old(self)@
            },
    {
        if !self.initialized || !self.threads_allowed || stack_base == 0 {
            return false;
        }
        if self.thread_registered(thread) {
            return false;
        }
        self.threads.push(thread);
        proof {
            let t = self@.threads;
            assert forall|i: int, j: int| 0 <= i < t.len() && 0 <= j < t.len() && i != j implies t[i] != t[j] by {
                if i == t.len() - 1 {
                    assert(old(self)@.threads[j] == t[j]);
                } else if j == t.len() - 1 {
                    assert(old(self)@.threads[i] == t[i]);
                }
            }
        }
        true
    }

    /// Unregisters `thread`. Returns whether it was registered.
    pub fn unregister_thread(&mut self, thread: u64) -> (r: bool)
        requires
            old(self)@.wf(),
        ensures
            final(self)@.wf(),
            r == old(self)@.threads.contains(thread),
            forall|t: u64| final(self)@.threads.contains(t) <==> (old(self)@.threads.contains(t) && t != thread),
            final(self)@ == (HeapState { threads: final(self)@.threads, ..old(self)@ }),
    {
        let mut i: usize = 0;
        while i < self.threads.len()
            invariant
                i <= self.threads.len(),
                self@ == old(self)@,
                self@.wf(),
                forall|j: int| 0 <= j < i ==> self.threads@[j] != thread,
            decreases self.threads.len() - i,
        {
            if self.threads[i] == thread {
                let ghost before = self.threads@;
                self.threads.remove(i);
                proof {
                    let after = self.threads@;
                    assert(after == before.remove(i as int));
                    assert(before.no_duplicates());
                    assert(before[i as int] == thread);
                    assert forall|t: u64| after.contains(t) <==> (before.contains(t) && t != thread) by {
                        if after.contains(t) {
                            let j = choose|j: int| 0 <= j < after.len() && after[j] == t;
                            if j < i {
                                assert(before[j] == t);
                                assert(j != i);
                            } else {
                                assert(before[j + 1] == t);
                                assert(j + 1 != i);
                            }
                        }
                        if before.contains(t) && t != thread {
                            let j = choose|j: int| 0 <= j < before.len() && before[j] == t;
                            if j < i {
                                assert(after[j] == t);
                            } else {
                                assert(j != i);
                                assert(after[j - 1] == t);
                            }
                        }
                    }
                    assert forall|x: int, y: int| 0 <= x < after.len() && 0 <= y < after.len() && x != y implies after[x] != after[y] by {
                        let bx = if x < i { x } else { x + 1 };
                        let by_ = if y < i { y } else { y + 1 };
                        assert(after[x] == before[bx]);
                        assert(after[y] == before[by_]);
                        assert(bx != by_);
                        assert(0 <= bx < before.len() && 0 <= by_ < before.len());
                    }
                }
                return true;
            }
            i = i + 1;
        }
        false
    }

    /// Hands block `a` to the collector: from now on it is reclaimed when unreachable.
    pub fn set_managed(&mut self, a: usize)
        requires
            old(self)@.wf(),
        ensures
            final(self)@.wf(),
            final(self)@ == if old(self)@.holds(a) {
                old(self)@.with_block(a, (BlockMeta { managed: true, ..old(self)@.blocks[a as int] }))
            } else {
                old(self)@
            },
    {
        if a < self.blocks.len() {
            let m = self.blocks[a];
            self.blocks.set(a, BlockMeta { managed: true, ..m });
            proof {
                let pre = old(self)@;
                let post = self@;
                assert forall|i: int| 0 <= i < post.finalized.len() implies {
                    &&& post.finalized[i] < post.blocks.len()
                    &&& post.blocks[post.finalized[i] as int].state == (BoxState::Reclaimed { finalized: true })
                } by {
                    assert(pre.blocks[pre.finalized[i] as int].state == (BoxState::Reclaimed { finalized: true }));
                }
                assert forall|b: int|
                    0 <= b < post.blocks.len() && post.blocks[b].state == (BoxState::Reclaimed { finalized: true })
                    implies post.finalized.contains(b as usize) by {
                    assert(pre.blocks[b].state == post.blocks[b].state);
                }
            }
        }
    }

    /// Whether `a` is the address of a block that the collector reclaims when unreachable.
    pub fn is_managed(&self, a: usize) -> (r: bool)
        ensures
            r == (self@.holds(a) && self@.blocks[a as int].managed),
    {
        a < self.blocks.len() && self.blocks[a].managed
    }
}

/// In every state the collector can be in, a block's finalizer has run at most once.
pub proof fn lemma_finalizer_runs_at_most_once(h: HeapState, a: usize)
    requires
        h.wf(),
    ensures
        forall|i: int, j: int|
            0 <= i < h.finalized.len() && 0 <= j < h.finalized.len() && h.finalized[i] == a
                && h.finalized[j] == a ==> i == j,
{
}

/// A collection cycle that finds a managed block with a registered finalizer
/// unreachable reclaims it and runs its finalizer: once, and never again later.
pub proof fn lemma_collection_finalizes_once(pre: HeapState, dead: Seq<usize>, post: HeapState, a: usize)
    requires
        pre.wf(),
        post.wf(),
        pre.collected(dead, post),
        dead.contains(a),
        pre.holds(a),
        pre.blocks[a as int].managed,
        pre.blocks[a as int].state == (BoxState::Initialized { finalizer: true }),
    ensures
        post.blocks[a as int].state == (BoxState::Reclaimed { finalized: true }),
        exists|i: int|
            0 <= i < post.finalized.len() && post.finalized[i] == a && forall|j: int|
                0 <= j < post.finalized.len() && post.finalized[j] == a ==> j == i,
{
    assert(post.finalized.contains(a));
    let i = choose|i: int| 0 <= i < post.finalized.len() && post.finalized[i] == a;
    assert(forall|j: int| 0 <= j < post.finalized.len() && post.finalized[j] == a ==> j == i);
}

} // verus!
