//! The 64-bit page-flag word that the kernel reports for every physical
//! frame, together with the named bits this library interprets.
//!
//! Also see the kernel documentation for the pagemap interface:
//! <https://www.kernel.org/doc/Documentation/vm/pagemap.txt>

use vstd::prelude::*;

verus! {

/// page is being locked for exclusive access, e.g. by read/write IO
pub const LOCKED: u64 = 0x0000_0001;

/// IO error occurred on this page
pub const ERROR: u64 = 0x0000_0002;

/// page has been referenced since the last LRU list enqueue/requeue
pub const REFERENCED: u64 = 0x0000_0004;

/// page has up-to-date data
pub const UPTODATE: u64 = 0x0000_0008;

/// page has been written to, hence contains new data
pub const DIRTY: u64 = 0x0000_0010;

/// page is in one of the LRU lists
pub const LRU: u64 = 0x0000_0020;

/// page is in the active LRU list
pub const ACTIVE: u64 = 0x0000_0040;

/// page is managed by the SLAB/SLOB/SLUB/SLQB kernel memory allocator
pub const SLAB: u64 = 0x0000_0080;

/// page is being synced to disk
pub const WRITEBACK: u64 = 0x0000_0100;

/// page will be reclaimed soon after its pageout IO completed
pub const RECLAIM: u64 = 0x0000_0200;

/// a free memory block managed by the buddy system allocator
pub const BUDDY: u64 = 0x0000_0400;

/// a memory mapped page
pub const MMAP: u64 = 0x0000_0800;

/// a memory mapped page that is not part of a file
pub const ANON: u64 = 0x0000_1000;

/// page is mapped to swap space, i.e. has an associated swap entry
pub const SWAPCACHE: u64 = 0x0000_2000;

/// page is backed by swap/RAM
pub const SWAPBACKEND: u64 = 0x0000_4000;

/// head page of a compound page
pub const COMPOUND_HEAD: u64 = 0x0000_8000;

/// tail page of a compound page
pub const COMPOUND_TAIL: u64 = 0x0001_0000;

/// this is an integral part of a HugeTLB page
pub const HUGE: u64 = 0x0002_0000;

/// page is in the unevictable (non-)LRU list
pub const UNEVICTABLE: u64 = 0x0004_0000;

/// hardware detected memory corruption on this page
pub const HWPOISON: u64 = 0x0008_0000;

/// no page frame exists at the requested address
pub const NOPAGE: u64 = 0x0010_0000;

/// identical memory pages dynamically shared between one or more processes
pub const KSM: u64 = 0x0020_0000;

/// contiguous pages which construct transparent hugepages
pub const THP: u64 = 0x0040_0000;

/// page is logically offline
pub const OFFLINE: u64 = 0x0080_0000;

/// zero page for pfn_zero or huge_zero page
pub const ZERO_PAGE: u64 = 0x0100_0000;

/// page has not been accessed since it was marked idle
pub const IDLE: u64 = 0x0200_0000;

/// page contains paging structures
pub const PAGETABLE: u64 = 0x0400_0000;

/// Union of every named flag bit: the bits a flag word may carry after
/// tolerant decoding.  Bits outside this mask are never matched by any
/// named test and are dropped when a raw word is decoded.
pub const ALL_FLAGS: u64 = LOCKED | ERROR | REFERENCED | UPTODATE | DIRTY | LRU | ACTIVE | SLAB
    | WRITEBACK | RECLAIM | BUDDY | MMAP | ANON | SWAPCACHE | SWAPBACKEND | COMPOUND_HEAD
    | COMPOUND_TAIL | HUGE | UNEVICTABLE | HWPOISON | NOPAGE | KSM | THP | OFFLINE | ZERO_PAGE
    | IDLE | PAGETABLE;

/// Does the flag word `word` contain every bit of `mask`?
pub open spec fn spec_contains(word: u64, mask: u64) -> bool {
    word & mask == mask
}

/// Does the flag word `word` share at least one bit with `mask`?
pub open spec fn spec_intersects(word: u64, mask: u64) -> bool {
    word & mask != 0
}

/// Describes the status of one page frame: a set of flag bits, immutable
/// per reading.  Only the named bits in [`ALL_FLAGS`] are ever set.
#[derive(Clone, Copy, Debug, PartialEq, Eq, Structural)]
pub struct PageFlags {
    pub bits: u64,
}

impl PageFlags {
    /// The flag set with no bit set.
    pub fn empty() -> (r: PageFlags)
        ensures
            r.bits == 0,
    {
        PageFlags { bits: 0 }
    }

    /// The flag set holding every named bit.
    pub fn all() -> (r: PageFlags)
        ensures
            r.bits == ALL_FLAGS,
    {
        PageFlags { bits: ALL_FLAGS }
    }

    /// Decodes a raw flag word tolerantly: every named bit is kept and
    /// any unknown bit is dropped rather than rejected.
    pub fn from_bits_truncate(raw: u64) -> (r: PageFlags)
        ensures
            r.bits == raw & ALL_FLAGS,
    {
        PageFlags { bits: raw & ALL_FLAGS }
    }

    /// The raw bit word of this flag set.
    pub fn bits(&self) -> (r: u64)
        ensures
            r == self.bits,
    {
        self.bits
    }

    /// True when every bit of `mask` is set.
    pub fn contains(&self, mask: u64) -> (r: bool)
        ensures
            r == spec_contains(self.bits, mask),
    {
        self.bits & mask == mask
    }

    /// True when at least one bit of `mask` is set.
    pub fn intersects(&self, mask: u64) -> (r: bool)
        ensures
            r == spec_intersects(self.bits, mask),
    {
        self.bits & mask != 0
    }

    /// True when no bit at all is set.
    pub fn is_empty(&self) -> (r: bool)
        ensures
            r == (self.bits == 0),
    {
        self.bits == 0
    }

    /// The bitwise union of two flag sets.
    pub fn union(&self, other: PageFlags) -> (r: PageFlags)
        ensures
            r.bits == self.bits | other.bits,
    {
        PageFlags { bits: self.bits | other.bits }
    }

    /// The bitwise intersection of two flag sets.
    pub fn intersection(&self, other: PageFlags) -> (r: PageFlags)
        ensures
            r.bits == self.bits & other.bits,
    {
        PageFlags { bits: self.bits & other.bits }
    }
}

} // verus!
