//! A bounds-checked window onto a run of physical pages.
//!
//! Whoever owns the raw memory hands it over once, as a byte slice together
//! with the number of the page at which it starts.  Everything else reaches
//! the pages through this type, by page number, and never past the slice.
use super::address::PhysPageNum;
use super::address::PPN_LIMIT;
use crate::config::PAGE_SIZE;
use vstd::prelude::*;

verus! {

/// The bytes of the physical pages `first_page()`, `first_page() + 1`, ...
pub struct PhysMemory<'a> {
    first: PhysPageNum,
    bytes: &'a mut [u8],
}

/// The page of 4096 zero bytes.
pub open spec fn zero_page() -> Seq<u8> {
    Seq::new(4096, |i: int| 0u8)
}

/// The bytes of page `ppn` among `bytes`, which are those of the pages from
/// `first` on.
pub open spec fn page_of(bytes: Seq<u8>, first: nat, ppn: nat) -> Seq<u8> {
    bytes.subrange((ppn - first) * 4096, (ppn - first + 1) * 4096)
}

/// The bytes `bytes`, which are those of the pages from `first` on, with the
/// bytes of page `ppn` set to zero.
pub open spec fn with_page_zeroed(bytes: Seq<u8>, first: nat, ppn: nat) -> Seq<u8> {
    Seq::new(
        bytes.len(),
        |i: int|
            if (ppn - first) * 4096 <= i < (ppn - first + 1) * 4096 {
                0u8
            } else {
                bytes[i]
            },
    )
}

/// Zeroing a page leaves as many bytes as before, makes that page the zero
/// page and changes no other page.
pub proof fn lemma_with_page_zeroed(bytes: Seq<u8>, first: nat, ppn: nat, other: nat)
    requires
        first <= ppn,
        (ppn - first + 1) * 4096 <= bytes.len(),
    ensures
        with_page_zeroed(bytes, first, ppn).len() == bytes.len(),
        page_of(with_page_zeroed(bytes, first, ppn), first, ppn) == zero_page(),
        first <= other && other != ppn && (other - first + 1) * 4096 <= bytes.len() ==> page_of(
            with_page_zeroed(bytes, first, ppn),
            first,
            other,
        ) == page_of(bytes, first, other),
{
    assert(page_of(with_page_zeroed(bytes, first, ppn), first, ppn) =~= zero_page());
    if first <= other && other != ppn && (other - first + 1) * 4096 <= bytes.len() {
        assert(page_of(with_page_zeroed(bytes, first, ppn), first, other) =~= page_of(
            bytes,
            first,
            other,
        ));
    }
}

impl<'a> PhysMemory<'a> {
    /// All bytes of the window, those of the first page first.
    pub closed spec fn view(&self) -> Seq<u8> {
        self.bytes@
    }

    /// The number of the page at which the window starts.
    pub closed spec fn first_page(&self) -> nat {
        self.first@
    }

    /// The number of pages in the window.
    pub open spec fn pages(&self) -> nat {
        self@.len() / 4096
    }

    /// The window is made of whole pages, and all of them have a page number.
    #[verifier::type_invariant]
    pub open spec fn wf(self) -> bool {
        &&& self@.len() % 4096 == 0
        &&& self.first_page() + self.pages() <= PPN_LIMIT
    }

    /// Whether page `ppn` lies in the window.
    pub open spec fn holds(&self, ppn: nat) -> bool {
        self.first_page() <= ppn < self.first_page() + self.pages()
    }

    /// The bytes of page `ppn`, which must lie in the window.
    pub open spec fn page(&self, ppn: nat) -> Seq<u8> {
        page_of(self@, self.first_page(), ppn)
    }

    /// The bytes of the window once page `ppn`, which must lie in it, is
    /// filled with zero bytes.
    pub open spec fn zeroed(&self, ppn: nat) -> Seq<u8> {
        with_page_zeroed(self@, self.first_page(), ppn)
    }

    /// The window of the pages that start at page `first` and whose bytes are
    /// `bytes`; nothing if `bytes` is not made of whole pages or reaches past
    /// the last physical page.
    pub fn new(first: PhysPageNum, bytes: &'a mut [u8]) -> (memory: Option<Self>)
        ensures
            memory is Some <==> old(bytes)@.len() % 4096 == 0 && first@ + old(bytes)@.len() / 4096
                <= PPN_LIMIT,
            memory matches Some(m) ==> m@ == old(bytes)@ && m.first_page() == first@,
    {
        proof {
            use_type_invariant(&first);
        }
        let len = bytes.len();
        if len % PAGE_SIZE != 0 {
            return None;
        }
        let room = 0x1000_0000_0000 - u64::from(first);
        if (len / PAGE_SIZE) as u64 > room {
            return None;
        }
        Some(Self { first, bytes })
    }

    /// The place of the first byte of page `ppn` in the window, or nothing if
    /// the page lies outside.
    fn page_start(&self, ppn: PhysPageNum) -> (start: Option<usize>)
        ensures
            start is Some <==> self.holds(ppn@),
            start matches Some(at) ==> at == (ppn@ - self.first_page()) * 4096 && at + 4096
                <= self@.len() <= usize::MAX,
    {
        proof {
            use_type_invariant(self);
        }
        let first = u64::from(self.first);
        let page = u64::from(ppn);
        if page < first {
            return None;
        }
        let pages = self.bytes.len() / PAGE_SIZE;
        if page - first >= pages as u64 {
            return None;
        }
        let index = (page - first) as usize;
        assert(index * 4096 + 4096 <= self@.len()) by (nonlinear_arith)
            requires
                index < self@.len() / 4096,
        ;
        Some(index * PAGE_SIZE)
    }

    /// Whether page `ppn` lies in the window.
    pub fn contains(&self, ppn: PhysPageNum) -> (inside: bool)
        ensures
            inside == self.holds(ppn@),
    {
        self.page_start(ppn).is_some()
    }

    /// The bytes of page `ppn`, or nothing if the page lies outside the
    /// window.
    pub fn get_bytes_array(&self, ppn: PhysPageNum) -> (bytes: Option<&[u8]>)
        ensures
            bytes is Some <==> self.holds(ppn@),
            bytes matches Some(b) ==> b@ == self.page(ppn@),
    {
        match self.page_start(ppn) {
            Some(start) => Some(&self.bytes[start..start + PAGE_SIZE]),
            None => None,
        }
    }

    /// Fills page `ppn` with zero bytes and says so; outside the window it
    /// writes nothing and says that.
    pub fn zero_page(&mut self, ppn: PhysPageNum) -> (done: bool)
        ensures
            done == old(self).holds(ppn@),
            final(self).first_page() == old(self).first_page(),
            final(self)@ == if done {
                old(self).zeroed(ppn@)
            } else {
                old(self)@
            },
            done ==> final(self).page(ppn@) == zero_page(),
    {
        proof {
            use_type_invariant(&*self);
        }
        let start = match self.page_start(ppn) {
            Some(start) => start,
            None => {
                assert(self@ =~= old(self)@);
                return false;
            },
        };
        let mut i: usize = 0;
        while i < PAGE_SIZE
            invariant
                i <= 4096,
                start + 4096 <= self@.len() <= usize::MAX,
                self@.len() == old(self)@.len(),
                self.first_page() == old(self).first_page(),
                self.wf(),
                forall|j: int| start <= j < start + i ==> self@[j] == 0u8,
                forall|j: int|
                    0 <= j < self@.len() && !(start <= j < start + i) ==> self@[j] == old(self)@[j],
            decreases 4096 - i,
        {
            self.bytes[start + i] = 0;
            i += 1;
        }
        assert(self@ =~= old(self).zeroed(ppn@));
        assert(self.page(ppn@) =~= zero_page());
        true
    }
}

} // verus!
