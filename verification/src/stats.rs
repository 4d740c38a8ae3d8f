//! Per-frame records and the aggregate statistics that one classification
//! pass accumulates.
//!
//! Every counter group has a ghost model with `nat` fields (its view), so
//! that contracts and laws can speak about the counters without any
//! machine-integer truncation.

use vstd::prelude::*;

use crate::page_flags::PageFlags;

verus! {

/// Represents the state of one physical page frame.
#[derive(Clone, Copy, Debug, PartialEq, Eq, Structural)]
pub struct PageFrame {
    /// The number of times the frame is used.
    pub reference_count: u64,
    /// The state of the page frame.
    pub flags: PageFlags,
}

/// Model of [`LRUPageFrameStats`].
#[verifier::ext_equal]
pub ghost struct LruStatsModel {
    pub total: nat,
    pub active: nat,
    pub inactive: nat,
    pub unevictable: nat,
}

/// Model of [`MmapFrameStats`].
#[verifier::ext_equal]
pub ghost struct MmapStatsModel {
    pub total: nat,
    pub anon: nat,
    pub file: nat,
}

/// Model of [`FreeFramesStats`].
#[verifier::ext_equal]
pub ghost struct FreeStatsModel {
    pub total: nat,
    pub noflag: nat,
    pub previously_used: nat,
}

/// Model of [`HugeFramesStats`].
#[verifier::ext_equal]
pub ghost struct HugeStatsModel {
    pub total: nat,
    pub total_fine_granular: nat,
    pub reserved: nat,
    pub reserved_fine_granular: nat,
    pub transparent: nat,
    pub transparent_fine_granular: nat,
}

/// Model of [`PageFrameStats`]: one `nat` per counter.
#[verifier::ext_equal]
pub ghost struct StatsModel {
    pub lru: LruStatsModel,
    pub mmap: MmapStatsModel,
    pub free: FreeStatsModel,
    pub huge: HugeStatsModel,
    pub shared: nat,
    pub poisoned: nat,
    pub buddy: nat,
    pub slab: nat,
    pub zero: nat,
    pub compound: nat,
    pub pagetable: nat,
    pub frames_in_use: nat,
    pub total_frames: nat,
}

impl StatsModel {
    /// The all-zero accumulator every refresh starts from.
    pub open spec fn zero() -> StatsModel {
        StatsModel {
            lru: LruStatsModel { total: 0, active: 0, inactive: 0, unevictable: 0 },
            mmap: MmapStatsModel { total: 0, anon: 0, file: 0 },
            free: FreeStatsModel { total: 0, noflag: 0, previously_used: 0 },
            huge: HugeStatsModel {
                total: 0,
                total_fine_granular: 0,
                reserved: 0,
                reserved_fine_granular: 0,
                transparent: 0,
                transparent_fine_granular: 0,
            },
            shared: 0,
            poisoned: 0,
            buddy: 0,
            slab: 0,
            zero: 0,
            compound: 0,
            pagetable: 0,
            frames_in_use: 0,
            total_frames: 0,
        }
    }
}

/// Counters for frames on the kernel's LRU reclaim lists.
#[derive(Clone, Copy, Debug, PartialEq, Eq, Structural)]
pub struct LRUPageFrameStats {
    pub total: u64,
    pub active: u64,
    pub inactive: u64,
    pub unevictable: u64,
}

impl View for LRUPageFrameStats {
    type V = LruStatsModel;

    open spec fn view(&self) -> LruStatsModel {
        LruStatsModel {
            total: self.total as nat,
            active: self.active as nat,
            inactive: self.inactive as nat,
            unevictable: self.unevictable as nat,
        }
    }
}

impl Default for LRUPageFrameStats {
    fn default() -> (r: Self)
        ensures
            r@ == (LruStatsModel { total: 0, active: 0, inactive: 0, unevictable: 0 }),
    {
        LRUPageFrameStats { total: 0, active: 0, inactive: 0, unevictable: 0 }
    }
}

/// Counters for memory-mapped frames.
#[derive(Clone, Copy, Debug, PartialEq, Eq, Structural)]
pub struct MmapFrameStats {
    pub total: u64,
    pub anon: u64,
    pub file: u64,
}

impl View for MmapFrameStats {
    type V = MmapStatsModel;

    open spec fn view(&self) -> MmapStatsModel {
        MmapStatsModel {
            total: self.total as nat,
            anon: self.anon as nat,
            file: self.file as nat,
        }
    }
}

impl Default for MmapFrameStats {
    fn default() -> (r: Self)
        ensures
            r@ == (MmapStatsModel { total: 0, anon: 0, file: 0 }),
    {
        MmapFrameStats { total: 0, anon: 0, file: 0 }
    }
}

/// Counters for frames no allocator and no mapping claims.
#[derive(Clone, Copy, Debug, PartialEq, Eq, Structural)]
pub struct FreeFramesStats {
    pub total: u64,
    pub noflag: u64,
    /// Frames that are not referenced but still carry flags and are
    /// therefore not available in some allocator.
    pub previously_used: u64,
}

impl View for FreeFramesStats {
    type V = FreeStatsModel;

    open spec fn view(&self) -> FreeStatsModel {
        FreeStatsModel {
            total: self.total as nat,
            noflag: self.noflag as nat,
            previously_used: self.previously_used as nat,
        }
    }
}

impl Default for FreeFramesStats {
    fn default() -> (r: Self)
        ensures
            r@ == (FreeStatsModel { total: 0, noflag: 0, previously_used: 0 }),
    {
        FreeFramesStats { total: 0, noflag: 0, previously_used: 0 }
    }
}

/// Counters for huge-page frames, split between reserved (HugeTLB) and
/// transparent huge pages, each once per logical page group and once per
/// constituent base-size frame (the fine-granular variants).
#[derive(Clone, Copy, Debug, PartialEq, Eq, Structural)]
pub struct HugeFramesStats {
    pub total: u64,
    pub total_fine_granular: u64,
    pub reserved: u64,
    pub reserved_fine_granular: u64,
    pub transparent: u64,
    pub transparent_fine_granular: u64,
}

impl View for HugeFramesStats {
    type V = HugeStatsModel;

    open spec fn view(&self) -> HugeStatsModel {
        HugeStatsModel {
            total: self.total as nat,
            total_fine_granular: self.total_fine_granular as nat,
            reserved: self.reserved as nat,
            reserved_fine_granular: self.reserved_fine_granular as nat,
            transparent: self.transparent as nat,
            transparent_fine_granular: self.transparent_fine_granular as nat,
        }
    }
}

impl Default for HugeFramesStats {
    fn default() -> (r: Self)
        ensures
            r@ == (HugeStatsModel {
                total: 0,
                total_fine_granular: 0,
                reserved: 0,
                reserved_fine_granular: 0,
                transparent: 0,
                transparent_fine_granular: 0,
            }),
    {
        HugeFramesStats {
            total: 0,
            total_fine_granular: 0,
            reserved: 0,
            reserved_fine_granular: 0,
            transparent: 0,
            transparent_fine_granular: 0,
        }
    }
}

/// Statistics about physical page frames in the system, reset to zero at
/// the start of each refresh.
#[derive(Clone, Copy, Debug, PartialEq, Eq, Structural)]
pub struct PageFrameStats {
    pub lru_stats: LRUPageFrameStats,

    pub mmaped_stats: MmapFrameStats,

    pub free_stats: FreeFramesStats,

    /// Frames that are shared in KSM.
    pub shared: u64,

    /// Frames with faulty hardware.
    pub poisoned: u64,

    pub buddy: u64,
    pub slab: u64,
    pub zero: u64,
    pub compound: u64,

    pub huge_stats: HugeFramesStats,

    pub pagetable: u64,

    pub frames_in_use: u64,
    pub total_frames: u64,
}

impl View for PageFrameStats {
    type V = StatsModel;

    open spec fn view(&self) -> StatsModel {
        StatsModel {
            lru: self.lru_stats@,
            mmap: self.mmaped_stats@,
            free: self.free_stats@,
            huge: self.huge_stats@,
            shared: self.shared as nat,
            poisoned: self.poisoned as nat,
            buddy: self.buddy as nat,
            slab: self.slab as nat,
            zero: self.zero as nat,
            compound: self.compound as nat,
            pagetable: self.pagetable as nat,
            frames_in_use: self.frames_in_use as nat,
            total_frames: self.total_frames as nat,
        }
    }
}

impl Default for PageFrameStats {
    fn default() -> (r: Self)
        ensures
            r@ == StatsModel::zero(),
    {
        PageFrameStats {
            lru_stats: LRUPageFrameStats::default(),
            mmaped_stats: MmapFrameStats::default(),
            free_stats: FreeFramesStats::default(),
            shared: 0,
            poisoned: 0,
            buddy: 0,
            slab: 0,
            zero: 0,
            compound: 0,
            huge_stats: HugeFramesStats::default(),
            pagetable: 0,
            frames_in_use: 0,
            total_frames: 0,
        }
    }
}

} // verus!
