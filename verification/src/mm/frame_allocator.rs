//! The allocator of physical page frames.
//!
//! A bump pointer walks up through the managed range, and freed pages wait on
//! a stack from which they are handed out again, the last one freed first.
//! Pages all have one size and never merge, so both operations take constant
//! time but for the search that guards against freeing a page twice.
use super::address::PhysAddr;
use super::address::PhysPageNum;
use super::address::page_ceil;
use super::address::page_floor;
use super::address::PA_LIMIT;
use super::address::PPN_LIMIT;
use super::memory::PhysMemory;
use super::memory::zero_page;
use vstd::prelude::*;

verus! {

/// Why a page was not taken back.
#[derive(Copy, Clone, PartialEq, Eq, Structural, Debug)]
pub enum FrameError {
    /// The page lies at or above the bump pointer: it was never handed out.
    NeverAllocated,
    /// The page already waits to be handed out again.
    DoubleFree,
}

/// What a frame allocator knows, as plain mathematics.
#[verifier::ext_equal]
pub struct FramePool {
    /// The next page that was never handed out.
    pub current: nat,
    /// The page at which the managed range ends; it is not part of the range.
    pub end: nat,
    /// The freed pages, the one freed last at the end.
    pub recycled: Seq<nat>,
}

impl FramePool {
    /// The bump pointer has not passed the end, no page waits twice, and
    /// every page that waits lies below the bump pointer.
    pub open spec fn wf(self) -> bool {
        &&& self.current <= self.end < PPN_LIMIT
        &&& self.recycled.no_duplicates()
        &&& forall|i: int| 0 <= i < self.recycled.len() ==> self.recycled[i] < self.current
    }

    /// Whether page `ppn` is handed out: it lies below the bump pointer and
    /// does not wait to be handed out again.
    pub open spec fn is_allocated(self, ppn: nat) -> bool {
        ppn < self.current && !self.recycled.contains(ppn)
    }

    /// The page that the next allocation hands out, or nothing if the pool is
    /// exhausted.
    pub open spec fn next_frame(self) -> Option<nat> {
        if self.recycled.len() > 0 {
            Some(self.recycled.last())
        } else if self.current == self.end {
            None
        } else {
            Some(self.current)
        }
    }

    /// The pool after one allocation.
    pub open spec fn after_alloc(self) -> FramePool {
        if self.recycled.len() > 0 {
            FramePool { recycled: self.recycled.drop_last(), ..self }
        } else if self.current == self.end {
            self
        } else {
            FramePool { current: self.current + 1, ..self }
        }
    }

    /// The pool after page `ppn` was taken back.
    pub open spec fn after_dealloc(self, ppn: nat) -> FramePool {
        FramePool { recycled: self.recycled.push(ppn), ..self }
    }

    /// The pool hands out no page but those from `first` up to, and without,
    /// `first + pages`.
    pub open spec fn within(self, first: nat, pages: nat) -> bool {
        &&& self.current < self.end ==> first <= self.current && self.end <= first + pages
        &&& forall|i: int|
            0 <= i < self.recycled.len() ==> first <= #[trigger] self.recycled[i] < first + pages
    }

    /// The pool that manages the pages from `l` up to, and without, `r`, none
    /// of them handed out yet.
    pub open spec fn fresh(l: nat, r: nat) -> FramePool {
        FramePool { current: l, end: r, recycled: Seq::empty() }
    }

    /// The pool after `count` allocations in a row.
    pub open spec fn after_allocs(self, count: nat) -> FramePool
        decreases count,
    {
        if count == 0 {
            self
        } else {
            self.after_alloc().after_allocs((count - 1) as nat)
        }
    }

    /// An allocation keeps the invariant, and the page it hands out was not
    /// handed out before and is handed out after.  The bump pointer never
    /// moves back, and a page that is handed out stays so.
    pub proof fn lemma_alloc(self)
        requires
            self.wf(),
        ensures
            self.after_alloc().wf(),
            self.next_frame() matches Some(ppn) ==> !self.is_allocated(ppn)
                && self.after_alloc().is_allocated(ppn),
            self.next_frame() is None ==> self.after_alloc() == self,
            self.current <= self.after_alloc().current <= self.end,
            forall|other: nat|
                self.is_allocated(other) ==> #[trigger] self.after_alloc().is_allocated(other),
    {
        if self.recycled.len() > 0 {
            let last = self.recycled.len() - 1;
            let ppn = self.recycled[last];
            assert(self.recycled.contains(ppn));
            assert forall|i: int| 0 <= i < last implies self.recycled.drop_last()[i] != ppn by {
                assert(self.recycled[i] != self.recycled[last]);
            }
        }
    }

    /// Taking back a page that is handed out keeps the invariant; the page
    /// is handed out no longer, and every other page is as before.
    pub proof fn lemma_dealloc(self, ppn: nat)
        requires
            self.wf(),
            self.is_allocated(ppn),
        ensures
            self.after_dealloc(ppn).wf(),
            !self.after_dealloc(ppn).is_allocated(ppn),
            forall|other: nat|
                other != ppn ==> self.after_dealloc(ppn).is_allocated(other) == self.is_allocated(
                    other,
                ),
    {
        let grown = self.recycled.push(ppn);
        assert forall|a: int, b: int| 0 <= a < grown.len() && 0 <= b < grown.len() && a
            != b implies grown[a] != grown[b] by {
            if a < self.recycled.len() && b < self.recycled.len() {
                assert(self.recycled[a] != self.recycled[b]);
            } else if a < self.recycled.len() {
                assert(self.recycled.contains(self.recycled[a]));
            } else {
                assert(self.recycled.contains(self.recycled[b]));
            }
        }
        assert(grown[grown.len() - 1] == ppn);
        assert forall|other: nat| other != ppn implies self.after_dealloc(ppn).is_allocated(other)
            == self.is_allocated(other) by {
            if self.recycled.contains(other) {
                let i = choose|i: int| 0 <= i < self.recycled.len() && self.recycled[i] == other;
                assert(grown[i] == other);
            }
            if grown.contains(other) {
                let i = choose|i: int| 0 <= i < grown.len() && grown[i] == other;
                assert(self.recycled[i] == other);
            }
        }
    }

    /// A page that was just taken back is the next to be handed out, and
    /// handing it out again leaves the pool as it was before: freed pages are
    /// used again, the last one freed first, before the bump pointer moves.
    pub proof fn lemma_dealloc_then_alloc(self, ppn: nat)
        ensures
            self.after_dealloc(ppn).next_frame() == Some(ppn),
            self.after_dealloc(ppn).after_alloc() == self,
    {
        assert(self.recycled.push(ppn).drop_last() =~= self.recycled);
    }

    /// A fresh pool over the pages from `l` to `r` hands them out in rising
    /// order: after `count` allocations the next page is `l + count`, until
    /// the range is used up and nothing is handed out any more.
    pub proof fn lemma_fresh_allocs(l: nat, r: nat, count: nat)
        requires
            l <= r,
        ensures
            count <= r - l ==> Self::fresh(l, r).after_allocs(count) == Self::fresh(l + count, r),
            count < r - l ==> Self::fresh(l, r).after_allocs(count).next_frame() == Some(l + count),
            count >= r - l ==> Self::fresh(l, r).after_allocs(count) == Self::fresh(r, r)
                && Self::fresh(l, r).after_allocs(count).next_frame() is None,
        decreases count,
    {
        if count > 0 {
            if l < r {
                assert(Self::fresh(l, r).after_alloc() == Self::fresh(l + 1, r));
                Self::lemma_fresh_allocs(l + 1, r, (count - 1) as nat);
            } else {
                assert(Self::fresh(l, r).after_alloc() == Self::fresh(l, r));
                Self::lemma_fresh_allocs(l, r, (count - 1) as nat);
            }
        }
    }

    /// A pool that stays within a run of pages still does so after an
    /// allocation, and after it took back a page of that run.
    pub proof fn lemma_within(self, first: nat, pages: nat, ppn: nat)
        requires
            self.wf(),
            self.within(first, pages),
        ensures
            self.after_alloc().within(first, pages),
            first <= ppn < first + pages ==> self.after_dealloc(ppn).within(first, pages),
            self.next_frame() matches Some(next) ==> first <= next < first + pages,
    {
        if self.recycled.len() > 0 {
            assert(first <= self.recycled[self.recycled.len() - 1] < first + pages);
        }
    }
}

/// A frame allocator made of a bump pointer and a stack of freed pages.
pub struct StackFrameAllocator {
    current: PhysPageNum,
    end: PhysPageNum,
    recycled: Vec<u64>,
}

impl StackFrameAllocator {
    /// What the allocator knows.
    pub closed spec fn view(&self) -> FramePool {
        FramePool {
            current: self.current@,
            end: self.end@,
            recycled: self.recycled@.map_values(|ppn: u64| ppn as nat),
        }
    }

    /// The invariant of the allocator: that of its pool.
    pub open spec fn wf(&self) -> bool {
        self@.wf()
    }

    /// An allocator that manages no page yet.
    pub fn new() -> (allocator: Self)
        ensures
            allocator@ == (FramePool { current: 0, end: 0, recycled: Seq::empty() }),
            allocator.wf(),
    {
        let allocator = Self {
            current: PhysPageNum::from(0),
            end: PhysPageNum::from(0),
            recycled: Vec::new(),
        };
        assert(allocator@.recycled =~= Seq::empty());
        allocator
    }

    /// Hands out a page: the one freed last if any waits, else the one at the
    /// bump pointer, else, with the range used up, nothing.
    pub fn allocate(&mut self) -> (frame: Option<PhysPageNum>)
        requires
            old(self).wf(),
        ensures
            final(self).wf(),
            final(self)@ == old(self)@.after_alloc(),
            frame is Some <==> old(self)@.next_frame() is Some,
            frame matches Some(ppn) ==> Some(ppn@) == old(self)@.next_frame() && !old(
                self,
            )@.is_allocated(ppn@) && final(self)@.is_allocated(ppn@),
    {
        let ghost before = self@;
        if let Some(ppn) = self.recycled.pop() {
            proof {
                let waiting = before.recycled;
                let last = waiting.len() - 1;
                assert(waiting[last] == ppn as nat);
                assert(self@.recycled =~= waiting.drop_last());
                assert(waiting.contains(ppn as nat));
                assert forall|i: int| 0 <= i < last implies waiting[i] != ppn as nat by {
                    assert(waiting[i] != waiting[last]);
                }
            }
            Some(PhysPageNum::from(ppn))
        } else {
            assert(self@.recycled =~= before.recycled);
            proof {
                self.current.lemma_view_injective(self.end);
            }
            if self.current == self.end {
                None
            } else {
                let frame = self.current;
                self.current = frame + 1;
                Some(frame)
            }
        }
    }

    /// Takes page `ppn` back, to be handed out again before any other.  A
    /// page that was never handed out, or that already waits, is refused and
    /// nothing changes.
    pub fn dealloc(&mut self, ppn: PhysPageNum) -> (res: Result<(), FrameError>)
        requires
            old(self).wf(),
        ensures
            final(self).wf(),
            res is Ok <==> old(self)@.is_allocated(ppn@),
            res is Ok ==> final(self)@ == old(self)@.after_dealloc(ppn@),
            res is Err ==> final(self)@ == old(self)@,
            res == Err::<(), FrameError>(FrameError::NeverAllocated) <==> ppn@ >= old(
                self,
            )@.current,
            res == Err::<(), FrameError>(FrameError::DoubleFree) <==> ppn@ < old(self)@.current
                && old(self)@.recycled.contains(ppn@),
    {
        let page = u64::from(ppn);
        if page >= u64::from(self.current) {
            return Err(FrameError::NeverAllocated);
        }
        let ghost waiting = self@.recycled;
        let mut i: usize = 0;
        while i < self.recycled.len()
            invariant
                i <= self.recycled@.len(),
                *self == *old(self),
                self.wf(),
                waiting == self@.recycled,
                page == ppn@,
                page < self@.current,
                forall|j: int| 0 <= j < i ==> waiting[j] != page as nat,
            decreases self.recycled@.len() - i,
        {
            if self.recycled[i] == page {
                assert(waiting[i as int] == page as nat);
                return Err(FrameError::DoubleFree);
            }
            i += 1;
        }
        assert(!waiting.contains(page as nat));
        self.recycled.push(page);
        proof {
            let grown = waiting.push(page as nat);
            assert(self@.recycled =~= grown);
            assert forall|a: int, b: int| 0 <= a < grown.len() && 0 <= b < grown.len() && a
                != b implies grown[a] != grown[b] by {
                if a < waiting.len() && b < waiting.len() {
                    assert(waiting[a] != waiting[b]);
                } else if a < waiting.len() {
                    assert(waiting.contains(waiting[a]));
                } else {
                    assert(waiting.contains(waiting[b]));
                }
            }
        }
        Ok(())
    }

    /// Makes the allocator manage the pages from `l` up to, and without, `r`.
    /// No page may wait to be handed out again: the allocator is set up once,
    /// before its first use.
    pub fn init(&mut self, l: PhysPageNum, r: PhysPageNum)
        requires
            old(self)@.recycled.len() == 0,
            l@ <= r@,
        ensures
            final(self)@ == (FramePool { current: l@, end: r@, recycled: Seq::empty() }),
            final(self).wf(),
    {
        proof {
            use_type_invariant(&r);
        }
        self.current = l;
        self.end = r;
        assert(self@.recycled =~= Seq::empty());
    }
}

/// Makes `allocator` manage the whole pages between the end of the kernel
/// image, at address `kernel_end`, and the end of memory, at address
/// `memory_end`: from the first page that starts at or after the one up to,
/// and without, the page that holds the other.
pub fn init_frame_allocator(allocator: &mut StackFrameAllocator, kernel_end: u64, memory_end: u64)
    requires
        old(allocator)@.recycled.len() == 0,
        page_ceil((kernel_end % PA_LIMIT) as nat) % (PPN_LIMIT as nat) <= page_floor(
            (memory_end % PA_LIMIT) as nat,
        ),
    ensures
        final(allocator)@ == (FramePool {
            current: page_ceil((kernel_end % PA_LIMIT) as nat) % (PPN_LIMIT as nat),
            end: page_floor((memory_end % PA_LIMIT) as nat),
            recycled: Seq::empty(),
        }),
        final(allocator).wf(),
{
    allocator.init(
        PhysAddr::from(kernel_end).page_number_ceil(),
        PhysAddr::from(memory_end).page_number_floor(),
    );
}

/// The one handle to an allocated page.  It cannot be copied, and giving it
/// to `frame_dealloc` is the way to hand the page back.
#[derive(Debug)]
pub struct FrameTracker {
    pub ppn: PhysPageNum,
}

impl FrameTracker {
    /// The handle to page `ppn`, whose bytes in `memory` it sets to zero, so
    /// that nothing of an earlier owner is left in them.
    pub fn new(ppn: PhysPageNum, memory: &mut PhysMemory) -> (tracker: Self)
        requires
            old(memory).holds(ppn@),
        ensures
            tracker.ppn == ppn,
            final(memory).first_page() == old(memory).first_page(),
            final(memory)@ == old(memory).zeroed(ppn@),
            final(memory).page(ppn@) == zero_page(),
    {
        // page cleaning
        memory.zero_page(ppn);
        Self { ppn }
    }
}

/// Allocates a page from `allocator` and hands out its handle, the page in
/// `memory` zeroed; nothing if the pool is exhausted.
pub fn frame_alloc(allocator: &mut StackFrameAllocator, memory: &mut PhysMemory) -> (frame: Option<
    FrameTracker,
>)
    requires
        old(allocator).wf(),
        old(allocator)@.within(old(memory).first_page(), old(memory).pages()),
    ensures
        final(allocator).wf(),
        final(allocator)@ == old(allocator)@.after_alloc(),
        final(allocator)@.within(final(memory).first_page(), final(memory).pages()),
        final(memory).first_page() == old(memory).first_page(),
        frame is Some <==> old(allocator)@.next_frame() is Some,
        frame is None ==> final(memory)@ == old(memory)@,
        frame matches Some(tracker) ==> {
            &&& Some(tracker.ppn@) == old(allocator)@.next_frame()
            &&& final(allocator)@.is_allocated(tracker.ppn@)
            &&& old(memory).holds(tracker.ppn@)
            &&& final(memory)@ == old(memory).zeroed(tracker.ppn@)
            &&& final(memory).page(tracker.ppn@) == zero_page()
        },
{
    let ghost pool = allocator@;
    match allocator.allocate() {
        Some(ppn) => {
            proof {
                if pool.recycled.len() > 0 {
                    assert(pool.recycled[pool.recycled.len() - 1] == ppn@);
                }
            }
            Some(FrameTracker::new(ppn, memory))
        },
        None => {
            assert(memory@ =~= old(memory)@);
            None
        },
    }
}

/// Hands the page of `tracker` back to `allocator` and uses the handle up.
/// The handle of a page that the allocator does not count as handed out is
/// refused, and nothing changes.
pub fn frame_dealloc(allocator: &mut StackFrameAllocator, tracker: FrameTracker) -> (res: Result<
    (),
    FrameError,
>)
    requires
        old(allocator).wf(),
    ensures
        final(allocator).wf(),
        res is Ok <==> old(allocator)@.is_allocated(tracker.ppn@),
        res is Ok ==> final(allocator)@ == old(allocator)@.after_dealloc(tracker.ppn@),
        res is Err ==> final(allocator)@ == old(allocator)@,
        res == Err::<(), FrameError>(FrameError::NeverAllocated) <==> tracker.ppn@ >= old(
            allocator,
        )@.current,
        res == Err::<(), FrameError>(FrameError::DoubleFree) <==> tracker.ppn@ < old(
            allocator,
        )@.current && old(allocator)@.recycled.contains(tracker.ppn@),
{
    allocator.dealloc(tracker.ppn)
}

} // verus!
