//! Physical and virtual addresses and page numbers of the SV39 scheme.
//!
//! Each of the four types wraps one integer whose bits above the
//! architectural width are zero.  The width is a type invariant, so every
//! value that executable code can hold obeys it; specifications reach the
//! wrapped integer through the view `@`.
use core::fmt::Debug;
use core::ops::Add;
use core::ops::Sub;
use vstd::prelude::*;
use vstd::std_specs::cmp::PartialEqSpec;
use vstd::std_specs::cmp::PartialEqSpecImpl;
use vstd::std_specs::convert::FromSpec;
use vstd::std_specs::convert::FromSpecImpl;
use vstd::std_specs::convert::TryFromSpec;
use vstd::std_specs::convert::TryFromSpecImpl;
use vstd::std_specs::ops::AddSpecImpl;
use vstd::std_specs::ops::SubSpecImpl;

verus! {

/// Bits of a physical address.
pub const PA_WIDTH_SV39: usize = 56;

/// Bits of a physical page number.
pub const PPN_WIDTH_SV39: usize = 44;

/// Bits of a virtual address.
pub const VA_WIDTH_SV39: usize = 39;

/// Bits of a virtual page number.
pub const VPN_WIDTH_SV39: usize = 27;

/// First integer that is no physical address: 2^56.
pub const PA_LIMIT: u64 = 0x100_0000_0000_0000;

/// First integer that is no physical page number: 2^44.
pub const PPN_LIMIT: u64 = 0x1000_0000_0000;

/// First integer that is no virtual address: 2^39.
pub const VA_LIMIT: u64 = 0x80_0000_0000;

/// First integer that is no virtual page number: 2^27.
pub const VPN_LIMIT: u64 = 0x800_0000;

/// A physical address: 56 significant bits.
#[derive(Copy, Clone, Ord, PartialOrd, Eq, PartialEq, Structural, Debug)]
pub struct PhysAddr(u64);

/// A virtual address: 39 significant bits.
#[derive(Copy, Clone, Ord, PartialOrd, Eq, PartialEq, Structural, Debug)]
pub struct VirtAddr(u64);

/// A physical page number: a physical address without its 12 offset bits.
#[derive(Copy, Clone, Ord, PartialOrd, Eq, PartialEq, Structural, Debug)]
pub struct PhysPageNum(u64);

/// A virtual page number: a virtual address without its 12 offset bits.
#[derive(Copy, Clone, Ord, PartialOrd, Eq, Debug)]
pub struct VirtPageNum(u64);

/// The fault raised when an address with a non-zero page offset is turned
/// into a page number.
#[derive(Copy, Clone, Eq, PartialEq, Structural, Debug)]
pub struct AlignmentFault;

/// The page that holds address `addr`.
pub open spec fn page_floor(addr: nat) -> nat {
    addr / 4096
}

/// The first page that starts at or after address `addr`.
pub open spec fn page_ceil(addr: nat) -> nat {
    (addr + 4095) / 4096
}

/// The three page-table indices of virtual page number `vpn`, root level first.
pub open spec fn vpn_indexes(vpn: nat) -> Seq<usize> {
    seq![
        ((vpn / 262144) % 512) as usize,
        ((vpn / 512) % 512) as usize,
        (vpn % 512) as usize,
    ]
}

/// The virtual page number that three page-table indices spell, root level first.
pub open spec fn vpn_of_indexes(idx: Seq<usize>) -> nat {
    (((idx[0] * 512) + idx[1]) * 512 + idx[2]) as nat
}

impl PhysAddr {
    /// The address as a number.
    pub closed spec fn view(&self) -> nat {
        self.0 as nat
    }

    /// The bits above the 56th are zero.
    #[verifier::type_invariant]
    pub open spec fn wf(self) -> bool {
        self@ < PA_LIMIT
    }

    /// Two values are the same exactly when they are the same number.
    pub proof fn lemma_view_injective(self, other: Self)
        ensures
            (self == other) <==> (self@ == other@),
    {
    }

    /// The offset of the address inside its page.
    pub fn page_offset(&self) -> (offset: usize)
        ensures
            offset == self@ % 4096,
    {
        let x = self.0;
        assert(x & 0xfff == x % 4096) by (bit_vector);
        (self.0 & 0xfff) as usize
    }

    /// The number of the page that holds the address.
    pub fn page_number_floor(&self) -> (ppn: PhysPageNum)
        ensures
            ppn@ == page_floor(self@),
    {
        proof {
            use_type_invariant(self);
        }
        let x = self.0;
        assert(x >> 12 == x / 4096) by (bit_vector);
        PhysPageNum::from(self.0 >> 12)
    }

    /// The number of the first page that starts at or after the address.
    ///
    /// A physical page number has 44 bits, so the result wraps to 0 for an
    /// address inside the last page of the physical address space.
    pub fn page_number_ceil(&self) -> (ppn: PhysPageNum)
        ensures
            ppn@ == page_ceil(self@) % (PPN_LIMIT as nat),
    {
        proof {
            use_type_invariant(self);
        }
        let x = (self.0 + 4095) as u64;
        assert(x >> 12 == x / 4096) by (bit_vector);
        PhysPageNum::from((self.0 + 4095) >> 12)
    }
}

impl VirtAddr {
    /// The address as a number.
    pub closed spec fn view(&self) -> nat {
        self.0 as nat
    }

    /// The bits above the 39th are zero.
    #[verifier::type_invariant]
    pub open spec fn wf(self) -> bool {
        self@ < VA_LIMIT
    }

    /// Two values are the same exactly when they are the same number.
    pub proof fn lemma_view_injective(self, other: Self)
        ensures
            (self == other) <==> (self@ == other@),
    {
    }

    /// The offset of the address inside its page.
    pub fn page_offset(&self) -> (offset: usize)
        ensures
            offset == self@ % 4096,
    {
        let x = self.0;
        assert(x & 0xfff == x % 4096) by (bit_vector);
        (self.0 & 0xfff) as usize
    }
}

impl PhysPageNum {
    /// The page number as a number.
    pub closed spec fn view(&self) -> nat {
        self.0 as nat
    }

    /// The bits above the 44th are zero.
    #[verifier::type_invariant]
    pub open spec fn wf(self) -> bool {
        self@ < PPN_LIMIT
    }

    /// Two values are the same exactly when they are the same number.
    pub proof fn lemma_view_injective(self, other: Self)
        ensures
            (self == other) <==> (self@ == other@),
    {
    }
}

impl VirtPageNum {
    /// The page number as a number.
    pub closed spec fn view(&self) -> nat {
        self.0 as nat
    }

    /// The bits above the 27th are zero.
    #[verifier::type_invariant]
    pub open spec fn wf(self) -> bool {
        self@ < VPN_LIMIT
    }

    /// Two values are the same exactly when they are the same number.
    pub proof fn lemma_view_injective(self, other: Self)
        ensures
            (self == other) <==> (self@ == other@),
    {
    }

    /// The index into the page table of each level, root level first.
    ///
    /// Each index has 9 bits, and the three of them spell the page number
    /// again in radix 512.
    pub fn indexes(&self) -> (idx: [usize; 3])
        ensures
            idx@ == vpn_indexes(self@),
            vpn_of_indexes(idx@) == self@,
    {
        proof {
            use_type_invariant(self);
        }
        let ghost v = self.0;
        let mut vpn = self.0;
        let mut idx = [0usize;3];
        let mut i: usize = 3;
        while i > 0
            invariant
                i <= 3,
                v < VPN_LIMIT,
                i == 3 ==> vpn == v,
                i == 2 ==> vpn == v / 512,
                i == 1 ==> vpn == v / 262144,
                i <= 2 ==> idx@[2] == v % 512,
                i <= 1 ==> idx@[1] == (v / 512) % 512,
                i <= 0 ==> idx@[0] == (v / 262144) % 512,
            decreases i,
        {
            i -= 1;
            assert(vpn & 511 == vpn % 512) by (bit_vector);
            assert(vpn >> 9 == vpn / 512) by (bit_vector);
            assert((v / 512) / 512 == v / 262144) by (bit_vector);
            idx[i] = (vpn & 511) as usize;
            vpn >>= 9;
        }
        assert(idx@ =~= vpn_indexes(v as nat));
        assert(((((v / 262144) % 512) * 512 + ((v / 512) % 512)) * 512 + v % 512) == v)
            by (bit_vector)
            requires
                v < 0x800_0000u64,
        ;
        idx
    }
}

impl PartialEq for VirtPageNum {
    fn eq(&self, other: &Self) -> (same: bool) {
        self.0 == other.0
    }
}

impl PartialEqSpecImpl for VirtPageNum {
    open spec fn obeys_eq_spec() -> bool {
        true
    }

    open spec fn eq_spec(&self, other: &Self) -> bool {
        self@ == other@
    }
}

impl From<u64> for PhysAddr {
    /// Keeps the low 56 bits of `x`.
    fn from(x: u64) -> (pa: Self)
        ensures
            pa@ == x % PA_LIMIT,
    {
        assert(x & 0xff_ffff_ffff_ffff == x % 0x100_0000_0000_0000) by (bit_vector);
        Self(x & 0xff_ffff_ffff_ffff)
    }
}

impl FromSpecImpl<u64> for PhysAddr {
    open spec fn obeys_from_spec() -> bool {
        true
    }

    closed spec fn from_spec(x: u64) -> Self {
        PhysAddr(x & 0xff_ffff_ffff_ffff)
    }
}

impl From<u64> for VirtAddr {
    /// Keeps the low 39 bits of `x`.
    fn from(x: u64) -> (va: Self)
        ensures
            va@ == x % VA_LIMIT,
    {
        assert(x & 0x7f_ffff_ffff == x % 0x80_0000_0000) by (bit_vector);
        Self(x & 0x7f_ffff_ffff)
    }
}

impl FromSpecImpl<u64> for VirtAddr {
    open spec fn obeys_from_spec() -> bool {
        true
    }

    closed spec fn from_spec(x: u64) -> Self {
        VirtAddr(x & 0x7f_ffff_ffff)
    }
}

impl From<u64> for PhysPageNum {
    /// Keeps the low 44 bits of `x`.
    fn from(x: u64) -> (ppn: Self)
        ensures
            ppn@ == x % PPN_LIMIT,
    {
        assert(x & 0xfff_ffff_ffff == x % 0x1000_0000_0000) by (bit_vector);
        Self(x & 0xfff_ffff_ffff)
    }
}

impl FromSpecImpl<u64> for PhysPageNum {
    open spec fn obeys_from_spec() -> bool {
        true
    }

    closed spec fn from_spec(x: u64) -> Self {
        PhysPageNum(x & 0xfff_ffff_ffff)
    }
}

impl From<u64> for VirtPageNum {
    /// Keeps the low 27 bits of `x`.
    fn from(x: u64) -> (vpn: Self)
        ensures
            vpn@ == x % VPN_LIMIT,
    {
        assert(x & 0x7ff_ffff == x % 0x800_0000) by (bit_vector);
        Self(x & 0x7ff_ffff)
    }
}

impl FromSpecImpl<u64> for VirtPageNum {
    open spec fn obeys_from_spec() -> bool {
        true
    }

    closed spec fn from_spec(x: u64) -> Self {
        VirtPageNum(x & 0x7ff_ffff)
    }
}

impl From<PhysAddr> for u64 {
    fn from(x: PhysAddr) -> (raw: u64)
        ensures
            raw == x@,
    {
        x.0
    }
}

impl FromSpecImpl<PhysAddr> for u64 {
    open spec fn obeys_from_spec() -> bool {
        true
    }

    closed spec fn from_spec(x: PhysAddr) -> u64 {
        x.0
    }
}

impl From<VirtAddr> for u64 {
    fn from(x: VirtAddr) -> (raw: u64)
        ensures
            raw == x@,
    {
        x.0
    }
}

impl FromSpecImpl<VirtAddr> for u64 {
    open spec fn obeys_from_spec() -> bool {
        true
    }

    closed spec fn from_spec(x: VirtAddr) -> u64 {
        x.0
    }
}

impl From<PhysPageNum> for u64 {
    fn from(x: PhysPageNum) -> (raw: u64)
        ensures
            raw == x@,
    {
        x.0
    }
}

impl FromSpecImpl<PhysPageNum> for u64 {
    open spec fn obeys_from_spec() -> bool {
        true
    }

    closed spec fn from_spec(x: PhysPageNum) -> u64 {
        x.0
    }
}

impl From<VirtPageNum> for u64 {
    fn from(x: VirtPageNum) -> (raw: u64)
        ensures
            raw == x@,
    {
        x.0
    }
}

impl FromSpecImpl<VirtPageNum> for u64 {
    open spec fn obeys_from_spec() -> bool {
        true
    }

    closed spec fn from_spec(x: VirtPageNum) -> u64 {
        x.0
    }
}

impl TryFrom<PhysAddr> for PhysPageNum {
    type Error = AlignmentFault;

    /// The page number of a page-aligned address; any other address faults.
    fn try_from(x: PhysAddr) -> (res: Result<Self, AlignmentFault>)
        ensures
            res is Ok <==> x@ % 4096 == 0,
            res matches Ok(ppn) ==> ppn@ == x@ / 4096,
    {
        proof {
            use_type_invariant(&x);
        }
        if x.page_offset() == 0 {
            let raw = x.0;
            assert(raw >> 12 == raw / 4096) by (bit_vector);
            Ok(Self(x.0 >> 12))
        } else {
            Err(AlignmentFault)
        }
    }
}

impl TryFromSpecImpl<PhysAddr> for PhysPageNum {
    open spec fn obeys_try_from_spec() -> bool {
        true
    }

    closed spec fn try_from_spec(x: PhysAddr) -> Result<Self, AlignmentFault> {
        if x.0 % 4096 == 0 {
            Ok(PhysPageNum(x.0 >> 12))
        } else {
            Err(AlignmentFault)
        }
    }
}

impl TryFrom<VirtAddr> for VirtPageNum {
    type Error = AlignmentFault;

    /// The page number of a page-aligned address; any other address faults.
    fn try_from(x: VirtAddr) -> (res: Result<Self, AlignmentFault>)
        ensures
            res is Ok <==> x@ % 4096 == 0,
            res matches Ok(vpn) ==> vpn@ == x@ / 4096,
    {
        proof {
            use_type_invariant(&x);
        }
        if x.page_offset() == 0 {
            let raw = x.0;
            assert(raw >> 12 == raw / 4096) by (bit_vector);
            Ok(Self(x.0 >> 12))
        } else {
            Err(AlignmentFault)
        }
    }
}

impl TryFromSpecImpl<VirtAddr> for VirtPageNum {
    open spec fn obeys_try_from_spec() -> bool {
        true
    }

    closed spec fn try_from_spec(x: VirtAddr) -> Result<Self, AlignmentFault> {
        if x.0 % 4096 == 0 {
            Ok(VirtPageNum(x.0 >> 12))
        } else {
            Err(AlignmentFault)
        }
    }
}

impl From<PhysPageNum> for PhysAddr {
    /// The address at which the page starts.
    fn from(x: PhysPageNum) -> (pa: Self)
        ensures
            pa@ == x@ * 4096,
    {
        proof {
            use_type_invariant(&x);
        }
        let raw = x.0;
        assert(raw << 12 == raw * 4096) by (bit_vector)
            requires
                raw < 0x1000_0000_0000u64,
        ;
        Self(x.0 << 12)
    }
}

impl FromSpecImpl<PhysPageNum> for PhysAddr {
    open spec fn obeys_from_spec() -> bool {
        true
    }

    closed spec fn from_spec(x: PhysPageNum) -> Self {
        PhysAddr(x.0 << 12)
    }
}

impl From<VirtPageNum> for VirtAddr {
    /// The address at which the page starts.
    fn from(x: VirtPageNum) -> (va: Self)
        ensures
            va@ == x@ * 4096,
    {
        proof {
            use_type_invariant(&x);
        }
        let raw = x.0;
        assert(raw << 12 == raw * 4096) by (bit_vector)
            requires
                raw < 0x800_0000u64,
        ;
        Self(x.0 << 12)
    }
}

impl FromSpecImpl<VirtPageNum> for VirtAddr {
    open spec fn obeys_from_spec() -> bool {
        true
    }

    closed spec fn from_spec(x: VirtPageNum) -> Self {
        VirtAddr(x.0 << 12)
    }
}

impl Add<u64> for PhysAddr {
    type Output = Self;

    /// The address `rhs` further on; the sum must still be a address.
    fn add(self, rhs: u64) -> (sum: Self)
        ensures
            sum@ == self@ + rhs,
    {
        Self(self.0 + rhs)
    }
}

impl AddSpecImpl<u64> for PhysAddr {
    open spec fn obeys_add_spec() -> bool {
        true
    }

    open spec fn add_req(self, rhs: u64) -> bool {
        self@ + rhs < PA_LIMIT
    }

    closed spec fn add_spec(self, rhs: u64) -> Self {
        PhysAddr((self.0 + rhs) as u64)
    }
}

impl Sub<u64> for PhysAddr {
    type Output = Self;

    /// The address `rhs` before this one; `rhs` must not exceed it.
    fn sub(self, rhs: u64) -> (difference: Self)
        ensures
            difference@ == self@ - rhs,
    {
        proof {
            use_type_invariant(&self);
        }
        Self(self.0 - rhs)
    }
}

impl SubSpecImpl<u64> for PhysAddr {
    open spec fn obeys_sub_spec() -> bool {
        true
    }

    open spec fn sub_req(self, rhs: u64) -> bool {
        rhs <= self@
    }

    closed spec fn sub_spec(self, rhs: u64) -> Self {
        PhysAddr((self.0 - rhs) as u64)
    }
}

impl Add<u64> for VirtAddr {
    type Output = Self;

    /// The address `rhs` further on; the sum must still be a address.
    fn add(self, rhs: u64) -> (sum: Self)
        ensures
            sum@ == self@ + rhs,
    {
        Self(self.0 + rhs)
    }
}

impl AddSpecImpl<u64> for VirtAddr {
    open spec fn obeys_add_spec() -> bool {
        true
    }

    open spec fn add_req(self, rhs: u64) -> bool {
        self@ + rhs < VA_LIMIT
    }

    closed spec fn add_spec(self, rhs: u64) -> Self {
        VirtAddr((self.0 + rhs) as u64)
    }
}

impl Sub<u64> for VirtAddr {
    type Output = Self;

    /// The address `rhs` before this one; `rhs` must not exceed it.
    fn sub(self, rhs: u64) -> (difference: Self)
        ensures
            difference@ == self@ - rhs,
    {
        proof {
            use_type_invariant(&self);
        }
        Self(self.0 - rhs)
    }
}

impl SubSpecImpl<u64> for VirtAddr {
    open spec fn obeys_sub_spec() -> bool {
        true
    }

    open spec fn sub_req(self, rhs: u64) -> bool {
        rhs <= self@
    }

    closed spec fn sub_spec(self, rhs: u64) -> Self {
        VirtAddr((self.0 - rhs) as u64)
    }
}

impl Add<u64> for PhysPageNum {
    type Output = Self;

    /// The page number `rhs` further on; the sum must still be a page number.
    fn add(self, rhs: u64) -> (sum: Self)
        ensures
            sum@ == self@ + rhs,
    {
        Self(self.0 + rhs)
    }
}

impl AddSpecImpl<u64> for PhysPageNum {
    open spec fn obeys_add_spec() -> bool {
        true
    }

    open spec fn add_req(self, rhs: u64) -> bool {
        self@ + rhs < PPN_LIMIT
    }

    closed spec fn add_spec(self, rhs: u64) -> Self {
        PhysPageNum((self.0 + rhs) as u64)
    }
}

impl Sub<u64> for PhysPageNum {
    type Output = Self;

    /// The page number `rhs` before this one; `rhs` must not exceed it.
    fn sub(self, rhs: u64) -> (difference: Self)
        ensures
            difference@ == self@ - rhs,
    {
        proof {
            use_type_invariant(&self);
        }
        Self(self.0 - rhs)
    }
}

impl SubSpecImpl<u64> for PhysPageNum {
    open spec fn obeys_sub_spec() -> bool {
        true
    }

    open spec fn sub_req(self, rhs: u64) -> bool {
        rhs <= self@
    }

    closed spec fn sub_spec(self, rhs: u64) -> Self {
        PhysPageNum((self.0 - rhs) as u64)
    }
}

impl Add<u64> for VirtPageNum {
    type Output = Self;

    /// The page number `rhs` further on; the sum must still be a page number.
    fn add(self, rhs: u64) -> (sum: Self)
        ensures
            sum@ == self@ + rhs,
    {
        Self(self.0 + rhs)
    }
}

impl AddSpecImpl<u64> for VirtPageNum {
    open spec fn obeys_add_spec() -> bool {
        true
    }

    open spec fn add_req(self, rhs: u64) -> bool {
        self@ + rhs < VPN_LIMIT
    }

    closed spec fn add_spec(self, rhs: u64) -> Self {
        VirtPageNum((self.0 + rhs) as u64)
    }
}

impl Sub<u64> for VirtPageNum {
    type Output = Self;

    /// The page number `rhs` before this one; `rhs` must not exceed it.
    fn sub(self, rhs: u64) -> (difference: Self)
        ensures
            difference@ == self@ - rhs,
    {
        proof {
            use_type_invariant(&self);
        }
        Self(self.0 - rhs)
    }
}

impl SubSpecImpl<u64> for VirtPageNum {
    open spec fn obeys_sub_spec() -> bool {
        true
    }

    open spec fn sub_req(self, rhs: u64) -> bool {
        rhs <= self@
    }

    closed spec fn sub_spec(self, rhs: u64) -> Self {
        VirtPageNum((self.0 - rhs) as u64)
    }
}

/// A type whose values stand in a row and can move to the next place.
///
/// `ordinal` gives the place of a value and `valid` the values that the type
/// admits.  `==` on the type must compare places, and a value that stands
/// before some valid value must have a successor: `lemma_positions` is the
/// proof of both that every implementation owes.
pub trait StepByOne: Sized + PartialEq {
    /// The place of the value in the row.
    spec fn ordinal(&self) -> nat;

    /// Whether the value is one that the type admits.
    spec fn valid(&self) -> bool;

    /// Whether a valid value follows this one.
    spec fn has_successor(&self) -> bool;

    /// Moves the value one place on.
    fn step(&mut self)
        requires
            old(self).valid(),
            old(self).has_successor(),
        ensures
            final(self).valid(),
            final(self).ordinal() == old(self).ordinal() + 1,
    ;

    /// `==` compares places, and whatever stands before a valid value can step.
    proof fn lemma_positions(a: Self, b: Self)
        requires
            a.valid(),
            b.valid(),
        ensures
            Self::obeys_eq_spec(),
            a.eq_spec(&b) <==> a.ordinal() == b.ordinal(),
            a.ordinal() < b.ordinal() ==> a.has_successor(),
    ;
}

impl StepByOne for VirtPageNum {
    open spec fn ordinal(&self) -> nat {
        self@
    }

    open spec fn valid(&self) -> bool {
        self.wf()
    }

    open spec fn has_successor(&self) -> bool {
        self@ + 1 < VPN_LIMIT
    }

    fn step(&mut self) {
        self.0 += 1;
    }

    proof fn lemma_positions(a: Self, b: Self) {
    }
}

/// The values from `l` up to, and without, `r`.
#[derive(Copy)]
pub struct SimpleRange<T> where T: StepByOne + Copy + PartialEq + PartialOrd + Debug {
    l: T,
    r: T,
}

impl<T> Clone for SimpleRange<T> where T: StepByOne + Copy + PartialEq + PartialOrd + Debug {
    fn clone(&self) -> (copy: Self)
        ensures
            copy == *self,
    {
        *self
    }
}

impl<T> SimpleRange<T> where T: StepByOne + Copy + PartialEq + PartialOrd + Debug {
    /// The first value of the range.
    pub closed spec fn start(&self) -> T {
        self.l
    }

    /// The value at which the range stops; it is not part of the range.
    pub closed spec fn end(&self) -> T {
        self.r
    }

    /// Both ends are valid and the start does not lie behind the end.
    #[verifier::type_invariant]
    pub open spec fn wf(self) -> bool {
        &&& self.start().valid()
        &&& self.end().valid()
        &&& self.start().ordinal() <= self.end().ordinal()
    }

    /// The places of the values in the range, in the order of iteration.
    pub open spec fn view(&self) -> Seq<nat> {
        places(self.start().ordinal(), self.end().ordinal())
    }

    /// The range from `start` up to, and without, `end`.
    pub fn new(start: T, end: T) -> (range: Self)
        requires
            start.valid(),
            end.valid(),
            start.ordinal() <= end.ordinal(),
        ensures
            range.start() == start,
            range.end() == end,
    {
        Self { l: start, r: end }
    }

    pub fn get_start(&self) -> (start: T)
        ensures
            start == self.start(),
    {
        self.l
    }

    pub fn get_end(&self) -> (end: T)
        ensures
            end == self.end(),
    {
        self.r
    }

    /// An iterator that stands at the start of the range.  The range is
    /// `Copy`, so it can be iterated any number of times.
    pub fn into_iter(self) -> (iter: SimpleRangeIterator<T>)
        ensures
            iter.current() == self.start(),
            iter.end() == self.end(),
            iter@ == self@,
    {
        proof {
            use_type_invariant(&self);
        }
        SimpleRangeIterator::new(self.l, self.r)
    }
}

/// The places `from`, `from + 1`, ... up to, and without, `to`.
pub open spec fn places(from: nat, to: nat) -> Seq<nat> {
    Seq::new((to - from) as nat, |i: int| (from + i) as nat)
}

/// A walk over a `SimpleRange`: the value it stands at and the end.
pub struct SimpleRangeIterator<T> where T: StepByOne + Copy + PartialEq + PartialOrd + Debug {
    current: T,
    end: T,
}

impl<T> SimpleRangeIterator<T> where T: StepByOne + Copy + PartialEq + PartialOrd + Debug {
    /// The value that `next` hands out next, unless the walk is over.
    pub closed spec fn current(&self) -> T {
        self.current
    }

    /// The value at which the walk is over.
    pub closed spec fn end(&self) -> T {
        self.end
    }

    /// Both values are valid and the walk has not passed its end.
    #[verifier::type_invariant]
    pub open spec fn wf(self) -> bool {
        &&& self.current().valid()
        &&& self.end().valid()
        &&& self.current().ordinal() <= self.end().ordinal()
    }

    /// The places of the values still to come, in order.
    pub open spec fn view(&self) -> Seq<nat> {
        places(self.current().ordinal(), self.end().ordinal())
    }

    /// A walk from `l` up to, and without, `r`.
    pub fn new(l: T, r: T) -> (iter: Self)
        requires
            l.valid(),
            r.valid(),
            l.ordinal() <= r.ordinal(),
        ensures
            iter.current() == l,
            iter.end() == r,
    {
        Self { current: l, end: r }
    }

    /// Hands out the value the walk stands at and moves one place on; at the
    /// end it hands out nothing and stays.
    pub fn next(&mut self) -> (item: Option<T>)
        ensures
            old(self)@.len() == 0 ==> item is None && *final(self) == *old(self),
            old(self)@.len() > 0 ==> item == Some(old(self).current()) && old(self).current().ordinal()
                == old(self)@[0] && final(self).end() == old(self).end() && final(self)@ == old(
                self,
            )@.drop_first(),
    {
        proof {
            use_type_invariant(&*self);
            T::lemma_positions(self.current, self.end);
        }
        if self.current == self.end {
            None
        } else {
            let t = self.current;
            let mut following = t;
            following.step();
            self.current = following;
            assert(self@ =~= old(self)@.drop_first());
            Some(t)
        }
    }
}

/// A range of virtual page numbers.
pub type VPNRange = SimpleRange<VirtPageNum>;

/// Each limit is two to the power of the width it belongs to.
pub proof fn lemma_limits_are_powers_of_two()
    ensures
        PA_LIMIT == 1u64 << 56,
        PPN_LIMIT == 1u64 << 44,
        VA_LIMIT == 1u64 << 39,
        VPN_LIMIT == 1u64 << 27,
        PA_WIDTH_SV39 == 56 && PPN_WIDTH_SV39 == PA_WIDTH_SV39 - 12,
        VA_WIDTH_SV39 == 39 && VPN_WIDTH_SV39 == VA_WIDTH_SV39 - 12,
{
    assert(0x100_0000_0000_0000u64 == 1u64 << 56 && 0x1000_0000_0000u64 == 1u64 << 44
        && 0x80_0000_0000u64 == 1u64 << 39 && 0x800_0000u64 == 1u64 << 27) by (bit_vector);
}

/// A page-aligned physical address is the start of its own page: turning it
/// into a page number and back gives the same address.  Any other address
/// faults.
pub proof fn lemma_phys_page_round_trip(a: PhysAddr)
    requires
        a.wf(),
    ensures
        a@ % 4096 == 0 ==> <PhysPageNum as TryFromSpec<PhysAddr>>::try_from_spec(a) is Ok && <PhysAddr as FromSpec<
            PhysPageNum,
        >>::from_spec(<PhysPageNum as TryFromSpec<PhysAddr>>::try_from_spec(a)->Ok_0) == a,
        a@ % 4096 != 0 ==> <PhysPageNum as TryFromSpec<PhysAddr>>::try_from_spec(a) == Err::<
            PhysPageNum,
            AlignmentFault,
        >(AlignmentFault),
{
    let raw = a.0;
    assert(raw % 4096 == 0 ==> (raw >> 12) << 12 == raw) by (bit_vector);
}

/// A page-aligned virtual address is the start of its own page: turning it
/// into a page number and back gives the same address.  Any other address
/// faults.
pub proof fn lemma_virt_page_round_trip(a: VirtAddr)
    requires
        a.wf(),
    ensures
        a@ % 4096 == 0 ==> <VirtPageNum as TryFromSpec<VirtAddr>>::try_from_spec(a) is Ok && <VirtAddr as FromSpec<
            VirtPageNum,
        >>::from_spec(<VirtPageNum as TryFromSpec<VirtAddr>>::try_from_spec(a)->Ok_0) == a,
        a@ % 4096 != 0 ==> <VirtPageNum as TryFromSpec<VirtAddr>>::try_from_spec(a) == Err::<
            VirtPageNum,
            AlignmentFault,
        >(AlignmentFault),
{
    let raw = a.0;
    assert(raw % 4096 == 0 ==> (raw >> 12) << 12 == raw) by (bit_vector);
}

/// The three indices of a virtual page number are its digits in radix 512:
/// each is below 512, and together they spell the page number.
pub proof fn lemma_indexes_round_trip(vpn: nat)
    requires
        vpn < VPN_LIMIT,
    ensures
        vpn_of_indexes(vpn_indexes(vpn)) == vpn,
        forall|level: int| 0 <= level < 3 ==> vpn_indexes(vpn)[level] < 512,
{
    let v = vpn as u64;
    assert(((((v / 262144) % 512) * 512 + ((v / 512) % 512)) * 512 + v % 512) == v)
        by (bit_vector)
        requires
            v < 0x800_0000u64,
    ;
}

} // verus!
