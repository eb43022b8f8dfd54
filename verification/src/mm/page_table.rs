//! The page-table entry: a 64-bit record of a physical page number and
//! eight flags.
//!
//! Bits 0 to 7 hold the flags, bits 10 to 53 the physical page number; bits 8,
//! 9 and 54 to 63 are reserved and always zero.  Nothing here touches memory.
use super::address::PhysPageNum;
use super::address::PPN_LIMIT;
use core::ops::BitAnd;
use core::ops::BitOr;
use vstd::prelude::*;
use vstd::std_specs::convert::FromSpecImpl;
use vstd::std_specs::ops::BitAndSpecImpl;
use vstd::std_specs::ops::BitOrSpecImpl;

verus! {

/// One flag of a page-table entry.
#[derive(Copy, Clone, PartialEq, Eq, Structural, Debug)]
pub enum PTEFlag {
    /// Bit 0: the entry is valid.
    V,
    /// Bit 1: the page may be read.
    R,
    /// Bit 2: the page may be written.
    W,
    /// Bit 3: the page may be executed.
    X,
    /// Bit 4: the page is open to user mode.
    U,
    /// Bit 5: the mapping is global.
    G,
    /// Bit 6: the page was accessed.
    A,
    /// Bit 7: the page was written to.
    D,
}

impl PTEFlag {
    /// The byte in which only the bit of this flag is set.
    pub open spec fn mask_spec(self) -> u8 {
        match self {
            PTEFlag::V => 0x01,
            PTEFlag::R => 0x02,
            PTEFlag::W => 0x04,
            PTEFlag::X => 0x08,
            PTEFlag::U => 0x10,
            PTEFlag::G => 0x20,
            PTEFlag::A => 0x40,
            PTEFlag::D => 0x80,
        }
    }

    /// The byte in which only the bit of this flag is set.
    #[verifier::when_used_as_spec(mask_spec)]
    pub fn mask(self) -> (m: u8)
        ensures
            m == self.mask_spec(),
    {
        match self {
            PTEFlag::V => 0x01,
            PTEFlag::R => 0x02,
            PTEFlag::W => 0x04,
            PTEFlag::X => 0x08,
            PTEFlag::U => 0x10,
            PTEFlag::G => 0x20,
            PTEFlag::A => 0x40,
            PTEFlag::D => 0x80,
        }
    }
}

/// A set of page-table-entry flags, kept as the flag byte of an entry.
///
/// All eight bits of the byte name a flag, so every byte is a set of flags.
#[derive(Copy, Clone, PartialEq, Eq, Structural, Debug)]
pub struct PTEFlags {
    bits: u8,
}

impl PTEFlags {
    /// The flag byte.
    pub closed spec fn view(&self) -> u8 {
        self.bits
    }

    /// Whether `flag` is in the set.
    pub open spec fn has(self, flag: PTEFlag) -> bool {
        self@ & flag.mask_spec() != 0
    }

    /// The set without any flag.
    pub fn empty() -> (flags: Self)
        ensures
            flags@ == 0,
    {
        Self { bits: 0 }
    }

    /// The flag byte.
    pub fn bits(&self) -> (bits: u8)
        ensures
            bits == self@,
    {
        self.bits
    }

    /// The set that the byte `bits` spells.  No bit of a byte is undefined,
    /// so nothing is cut off.
    pub fn from_bits_truncate(bits: u8) -> (flags: Self)
        ensures
            flags@ == bits,
    {
        Self { bits }
    }

    /// Whether the set holds no flag.
    pub fn is_empty(&self) -> (none: bool)
        ensures
            none == (self@ == 0),
    {
        self.bits == 0
    }

    /// Whether `flag` is in the set.
    pub fn contains(&self, flag: PTEFlag) -> (found: bool)
        ensures
            found == self.has(flag),
    {
        self.bits & flag.mask() != 0
    }
}

impl Default for PTEFlags {
    /// The set without any flag.
    fn default() -> (flags: Self)
        ensures
            flags@ == 0,
    {
        Self { bits: 0 }
    }
}

impl From<PTEFlag> for PTEFlags {
    /// The set that holds `flag` alone.
    fn from(flag: PTEFlag) -> (flags: Self)
        ensures
            flags@ == flag.mask_spec(),
    {
        Self { bits: flag.mask() }
    }
}

impl FromSpecImpl<PTEFlag> for PTEFlags {
    open spec fn obeys_from_spec() -> bool {
        true
    }

    closed spec fn from_spec(flag: PTEFlag) -> Self {
        PTEFlags { bits: flag.mask_spec() }
    }
}

impl BitOr for PTEFlags {
    type Output = Self;

    /// The flags of either set.
    fn bitor(self, rhs: Self) -> (union: Self)
        ensures
            union@ == self@ | rhs@,
    {
        Self { bits: self.bits | rhs.bits }
    }
}

impl BitOrSpecImpl for PTEFlags {
    open spec fn obeys_bitor_spec() -> bool {
        true
    }

    open spec fn bitor_req(self, rhs: Self) -> bool {
        true
    }

    closed spec fn bitor_spec(self, rhs: Self) -> Self {
        PTEFlags { bits: self.bits | rhs.bits }
    }
}

impl BitAnd for PTEFlags {
    type Output = Self;

    /// The flags of both sets.
    fn bitand(self, rhs: Self) -> (common: Self)
        ensures
            common@ == self@ & rhs@,
    {
        Self { bits: self.bits & rhs.bits }
    }
}

impl BitAndSpecImpl for PTEFlags {
    open spec fn obeys_bitand_spec() -> bool {
        true
    }

    open spec fn bitand_req(self, rhs: Self) -> bool {
        true
    }

    closed spec fn bitand_spec(self, rhs: Self) -> Self {
        PTEFlags { bits: self.bits & rhs.bits }
    }
}

/// The 64-bit record that holds page number `ppn` and flag byte `flags`.
pub open spec fn pte_encode(ppn: nat, flags: u8) -> nat {
    ppn * 1024 + flags as nat
}

/// The physical page number in the record `bits`: its bits 10 to 53.
pub open spec fn pte_ppn(bits: nat) -> nat {
    (bits / 1024) % (PPN_LIMIT as nat)
}

/// The flag byte of the record `bits`: its bits 0 to 7.
pub open spec fn pte_flags(bits: nat) -> u8 {
    (bits % 256) as u8
}

/// Whether `flag` is set in the record `bits`.
pub open spec fn pte_has(bits: nat, flag: PTEFlag) -> bool {
    pte_flags(bits) & flag.mask_spec() != 0
}

/// The record `bits` with its reserved bits cleared.
pub open spec fn pte_clear_reserved(bits: nat) -> nat {
    pte_encode(pte_ppn(bits), pte_flags(bits))
}

/// One entry of a page table.
#[derive(Copy, Clone, PartialEq, Eq, Structural, Debug)]
pub struct PageTableEntry {
    bits: u64,
}

impl PageTableEntry {
    /// The record as a number.
    pub closed spec fn view(&self) -> nat {
        self.bits as nat
    }

    /// The reserved bits are zero: the record is a page number and a flag
    /// byte and nothing else.
    #[verifier::type_invariant]
    pub open spec fn wf(self) -> bool {
        self@ == pte_encode(pte_ppn(self@), pte_flags(self@))
    }

    /// The entry that maps to page `ppn` with the flags `flags`.
    pub fn new(ppn: PhysPageNum, flags: PTEFlags) -> (pte: Self)
        ensures
            pte@ == pte_encode(ppn@, flags@),
            pte_ppn(pte@) == ppn@,
            pte_flags(pte@) == flags@,
    {
        proof {
            use_type_invariant(&ppn);
        }
        let p = u64::from(ppn);
        let f = flags.bits();
        assert((p << 10) | (f as u64) == p * 1024 + f && (((p << 10) | (f as u64)) / 1024)
            % 0x1000_0000_0000 == p && ((p << 10) | (f as u64)) % 256 == f) by (bit_vector)
            requires
                p < 0x1000_0000_0000u64,
        ;
        Self { bits: (p << 10) | (f as u64) }
    }

    /// The entry that maps nothing: the zero record.
    pub fn empty() -> (pte: Self)
        ensures
            pte@ == 0,
    {
        Self { bits: 0 }
    }

    /// The entry that the raw record `bits` spells, its reserved bits cleared.
    pub fn from_bits(bits: u64) -> (pte: Self)
        ensures
            pte@ == pte_clear_reserved(bits as nat),
    {
        assert((bits & 0x3f_ffff_ffff_fcff) == ((bits / 1024) % 0x1000_0000_0000) * 1024 + (bits
            % 256) && ((bits % 256) as u8) as u64 == bits % 256) by (bit_vector);
        let kept = bits & 0x3f_ffff_ffff_fcff;
        assert((kept / 1024) % 0x1000_0000_0000 == (bits / 1024) % 0x1000_0000_0000 && kept % 256
            == bits % 256) by (bit_vector)
            requires
                kept == bits & 0x3f_ffff_ffff_fcff,
        ;
        Self { bits: kept }
    }

    /// The raw record.
    pub fn bits(&self) -> (bits: u64)
        ensures
            bits == self@,
    {
        self.bits
    }

    /// The physical page number that the entry maps to.
    pub fn ppn(&self) -> (ppn: PhysPageNum)
        ensures
            ppn@ == pte_ppn(self@),
    {
        let bits = self.bits;
        assert((bits >> 10) & 0xfff_ffff_ffff == (bits / 1024) % 0x1000_0000_0000) by (bit_vector);
        PhysPageNum::from((self.bits >> 10) & 0xfff_ffff_ffff)
    }

    /// The flags of the entry.
    pub fn flags(&self) -> (flags: PTEFlags)
        ensures
            flags@ == pte_flags(self@),
    {
        let bits = self.bits;
        assert(bits & 0xff == bits % 256) by (bit_vector);
        PTEFlags::from_bits_truncate((self.bits & 0xff) as u8)
    }

    /// Whether the entry maps a page.
    pub fn valid(&self) -> (set: bool)
        ensures
            set == pte_has(self@, PTEFlag::V),
    {
        self.flags().contains(PTEFlag::V)
    }

    /// Whether the mapped page may be read.
    pub fn readable(&self) -> (set: bool)
        ensures
            set == pte_has(self@, PTEFlag::R),
    {
        self.flags().contains(PTEFlag::R)
    }

    /// Whether the mapped page may be written.
    pub fn writable(&self) -> (set: bool)
        ensures
            set == pte_has(self@, PTEFlag::W),
    {
        self.flags().contains(PTEFlag::W)
    }

    /// Whether the mapped page may be executed.
    pub fn executable(&self) -> (set: bool)
        ensures
            set == pte_has(self@, PTEFlag::X),
    {
        self.flags().contains(PTEFlag::X)
    }
}

/// Packing and unpacking agree: the record of a page number and a flag byte
/// gives both back, so no flag leaks into the page number, and its reserved
/// bits are zero.
pub proof fn lemma_pte_round_trip(ppn: nat, flags: u8)
    requires
        ppn < PPN_LIMIT,
    ensures
        pte_ppn(pte_encode(ppn, flags)) == ppn,
        pte_flags(pte_encode(ppn, flags)) == flags,
        pte_clear_reserved(pte_encode(ppn, flags)) == pte_encode(ppn, flags),
        pte_encode(ppn, flags) < 0x40_0000_0000_0000,
{
    let p = ppn as u64;
    assert(((p * 1024 + flags) / 1024) % 0x1000_0000_0000 == p && (p * 1024 + flags) % 256
        == flags && p * 1024 + flags < 0x40_0000_0000_0000) by (bit_vector)
        requires
            p < 0x1000_0000_0000u64,
    ;
}

/// The zero record holds no flag; in particular it is not valid.
pub proof fn lemma_pte_empty_has_no_flag(flag: PTEFlag)
    ensures
        !pte_has(0, flag),
{
    let m = flag.mask_spec();
    assert(0u8 & m == 0) by (bit_vector);
}

/// Each flag has a bit of its own: the set of one flag holds that flag and
/// no other.
pub proof fn lemma_flag_bits_distinct(flag: PTEFlag, other: PTEFlag)
    ensures
        (flag.mask_spec() & other.mask_spec() != 0) <==> flag == other,
{
    assert(
        0x01u8 & 0x01u8 != 0 && 0x01u8 & 0x02u8 == 0 && 0x01u8 & 0x04u8 == 0 &&
        0x01u8 & 0x08u8 == 0 && 0x01u8 & 0x10u8 == 0 && 0x01u8 & 0x20u8 == 0 &&
        0x01u8 & 0x40u8 == 0 && 0x01u8 & 0x80u8 == 0 && 0x02u8 & 0x01u8 == 0 &&
        0x02u8 & 0x02u8 != 0 && 0x02u8 & 0x04u8 == 0 && 0x02u8 & 0x08u8 == 0 &&
        0x02u8 & 0x10u8 == 0 && 0x02u8 & 0x20u8 == 0 && 0x02u8 & 0x40u8 == 0 &&
        0x02u8 & 0x80u8 == 0 && 0x04u8 & 0x01u8 == 0 && 0x04u8 & 0x02u8 == 0 &&
        0x04u8 & 0x04u8 != 0 && 0x04u8 & 0x08u8 == 0 && 0x04u8 & 0x10u8 == 0 &&
        0x04u8 & 0x20u8 == 0 && 0x04u8 & 0x40u8 == 0 && 0x04u8 & 0x80u8 == 0 &&
        0x08u8 & 0x01u8 == 0 && 0x08u8 & 0x02u8 == 0 && 0x08u8 & 0x04u8 == 0 &&
        0x08u8 & 0x08u8 != 0 && 0x08u8 & 0x10u8 == 0 && 0x08u8 & 0x20u8 == 0 &&
        0x08u8 & 0x40u8 == 0 && 0x08u8 & 0x80u8 == 0 && 0x10u8 & 0x01u8 == 0 &&
        0x10u8 & 0x02u8 == 0 && 0x10u8 & 0x04u8 == 0 && 0x10u8 & 0x08u8 == 0 &&
        0x10u8 & 0x10u8 != 0 && 0x10u8 & 0x20u8 == 0 && 0x10u8 & 0x40u8 == 0 &&
        0x10u8 & 0x80u8 == 0 && 0x20u8 & 0x01u8 == 0 && 0x20u8 & 0x02u8 == 0 &&
        0x20u8 & 0x04u8 == 0 && 0x20u8 & 0x08u8 == 0 && 0x20u8 & 0x10u8 == 0 &&
        0x20u8 & 0x20u8 != 0 && 0x20u8 & 0x40u8 == 0 && 0x20u8 & 0x80u8 == 0 &&
        0x40u8 & 0x01u8 == 0 && 0x40u8 & 0x02u8 == 0 && 0x40u8 & 0x04u8 == 0 &&
        0x40u8 & 0x08u8 == 0 && 0x40u8 & 0x10u8 == 0 && 0x40u8 & 0x20u8 == 0 &&
        0x40u8 & 0x40u8 != 0 && 0x40u8 & 0x80u8 == 0 && 0x80u8 & 0x01u8 == 0 &&
        0x80u8 & 0x02u8 == 0 && 0x80u8 & 0x04u8 == 0 && 0x80u8 & 0x08u8 == 0 &&
        0x80u8 & 0x10u8 == 0 && 0x80u8 & 0x20u8 == 0 && 0x80u8 & 0x40u8 == 0 &&
        0x80u8 & 0x80u8 != 0
    ) by (bit_vector);
}

/// A union holds a flag exactly when one of its two sets does, and an
/// intersection exactly when both do.
pub proof fn lemma_flag_sets(a: u8, b: u8, flag: PTEFlag)
    ensures
        ((a | b) & flag.mask_spec() != 0) <==> (a & flag.mask_spec() != 0) || (b & flag.mask_spec()
            != 0),
        ((a & b) & flag.mask_spec() != 0) <==> (a & flag.mask_spec() != 0) && (b & flag.mask_spec()
            != 0),
{
    let m = flag.mask_spec();
    assert(((a | b) & m != 0) <==> (a & m != 0) || (b & m != 0)) by (bit_vector);
    assert(m == 0x01 || m == 0x02 || m == 0x04 || m == 0x08 || m == 0x10 || m == 0x20 || m == 0x40
        || m == 0x80);
    assert(((a & b) & m != 0) <==> (a & m != 0) && (b & m != 0)) by (bit_vector)
        requires
            m == 0x01 || m == 0x02 || m == 0x04 || m == 0x08 || m == 0x10 || m == 0x20 || m == 0x40
                || m == 0x80,
    ;
}

} // verus!
