//! Per-frame classification and the statistics fold.
//!
//! For every decoded pair `(reference_count, flag word)` the classifier
//! decides absence, the LRU sub-class, the mutually exclusive primary
//! category and the independent overlay categories, and accumulates one
//! [`PageFrameStats`] value over the whole table.  The ghost functions
//! here are the mathematical model of that pass; the laws about them live
//! in [`crate::laws`].

use vstd::prelude::*;

use crate::errors::ConsistencyFault;
use crate::errors::FaultKind;
use crate::page_flags::ACTIVE;
use crate::page_flags::ALL_FLAGS;
use crate::page_flags::ANON;
use crate::page_flags::BUDDY;
use crate::page_flags::COMPOUND_HEAD;
use crate::page_flags::COMPOUND_TAIL;
use crate::page_flags::HUGE;
use crate::page_flags::HWPOISON;
use crate::page_flags::KSM;
use crate::page_flags::LRU;
use crate::page_flags::MMAP;
use crate::page_flags::NOPAGE;
use crate::page_flags::PAGETABLE;
use crate::page_flags::PageFlags;
use crate::page_flags::SLAB;
use crate::page_flags::THP;
use crate::page_flags::UNEVICTABLE;
use crate::page_flags::ZERO_PAGE;
use crate::page_flags::spec_contains;
use crate::page_flags::spec_intersects;
use crate::stats::FreeStatsModel;
use crate::stats::HugeStatsModel;
use crate::stats::LruStatsModel;
use crate::stats::MmapStatsModel;
use crate::stats::PageFrame;
use crate::stats::PageFrameStats;
use crate::stats::StatsModel;

verus! {

/// The largest frame count one classification pass accepts.  A single
/// frame can add two to a 64-bit huge-page counter (once for HUGE, once
/// for THP), so the machine limit on the counters caps the table at half
/// the `u64` range.
pub const MAX_FRAMES: u64 = 0x7FFF_FFFF_FFFF_FFFF;

/// The flag word as classification sees it: named bits only.
pub open spec fn truncated(raw: u64) -> u64 {
    raw & ALL_FLAGS
}

/// A frame is absent (no physical backing at its index) when NOPAGE is
/// set in its raw flag word.
pub open spec fn is_absent(raw: u64) -> bool {
    spec_contains(truncated(raw), NOPAGE)
}

/// The mutually exclusive primary category of a present frame.
#[derive(Clone, Copy, Debug, PartialEq, Eq, Structural)]
pub enum Category {
    /// Hardware detected memory corruption.
    Poisoned,
    /// Shared in KSM.
    Shared,
    /// Free block managed by the buddy allocator.
    Buddy,
    /// Managed by the SLAB family of kernel allocators.
    Slab,
    /// Contains paging structures.
    PageTable,
    /// Memory mapped.
    Mmap,
    /// The zero page.
    Zero,
    /// Free and carrying no flag at all.
    FreeNoFlag,
    /// Free, but still carrying flags from an earlier use.
    FreePreviouslyUsed,
}

/// The primary category of a present frame with truncated flag word
/// `flags`: first match wins, so the categories are mutually exclusive
/// and, together, exhaustive.
pub open spec fn category_of(flags: u64) -> Category {
    if spec_contains(flags, HWPOISON) {
        Category::Poisoned
    } else if spec_contains(flags, KSM) {
        Category::Shared
    } else if spec_contains(flags, BUDDY) {
        Category::Buddy
    } else if spec_contains(flags, SLAB) {
        Category::Slab
    } else if spec_contains(flags, PAGETABLE) {
        Category::PageTable
    } else if spec_contains(flags, MMAP) {
        Category::Mmap
    } else if spec_contains(flags, ZERO_PAGE) {
        Category::Zero
    } else if flags == 0 {
        Category::FreeNoFlag
    } else {
        Category::FreePreviouslyUsed
    }
}

/// The consistency invariant one decoded pair violates, if any, in the
/// order the classifier checks them.
pub open spec fn frame_fault_kind(reference_count: u64, raw: u64) -> Option<FaultKind> {
    let flags = truncated(raw);
    if is_absent(raw) {
        None
    } else if spec_contains(flags, LRU) && spec_contains(flags, ACTIVE) && spec_contains(
        flags,
        UNEVICTABLE,
    ) {
        Some(FaultKind::ActiveUnevictable)
    } else if category_of(flags) == Category::Shared && reference_count < 2 {
        Some(FaultKind::SharedLowRefCount)
    } else if category_of(flags) == Category::FreePreviouslyUsed && reference_count != 0 {
        Some(FaultKind::FreeFrameReferenced)
    } else {
        None
    }
}

/// One decoded pair that violates no classification invariant.
pub open spec fn frame_ok(reference_count: u64, raw: u64) -> bool {
    frame_fault_kind(reference_count, raw) is None
}

/// The table slot stored for one decoded pair: absent frames are never
/// materialized, present frames keep their reference count and their
/// truncated flags.
pub open spec fn spec_slot(reference_count: u64, raw: u64) -> Option<PageFrame> {
    if is_absent(raw) {
        None
    } else {
        Some(PageFrame { reference_count, flags: PageFlags { bits: truncated(raw) } })
    }
}

/// LRU sub-classification of one present frame.
pub open spec fn step_lru(m: StatsModel, flags: u64) -> StatsModel {
    if spec_contains(flags, LRU) {
        let bumped = if spec_contains(flags, ACTIVE) {
            LruStatsModel { active: m.lru.active + 1, ..m.lru }
        } else if spec_contains(flags, UNEVICTABLE) {
            LruStatsModel { unevictable: m.lru.unevictable + 1, ..m.lru }
        } else {
            LruStatsModel { inactive: m.lru.inactive + 1, ..m.lru }
        };
        StatsModel { lru: LruStatsModel { total: bumped.total + 1, ..bumped }, ..m }
    } else {
        m
    }
}

/// Primary-category accounting of one present frame: exactly one counter
/// group gains one frame.
pub open spec fn step_primary(m: StatsModel, flags: u64) -> StatsModel {
    match category_of(flags) {
        Category::Poisoned => StatsModel { poisoned: m.poisoned + 1, ..m },
        Category::Shared => StatsModel { shared: m.shared + 1, ..m },
        Category::Buddy => StatsModel { buddy: m.buddy + 1, ..m },
        Category::Slab => StatsModel { slab: m.slab + 1, ..m },
        Category::PageTable => StatsModel { pagetable: m.pagetable + 1, ..m },
        Category::Mmap => StatsModel {
            mmap: if spec_contains(flags, ANON) {
                MmapStatsModel { total: m.mmap.total + 1, anon: m.mmap.anon + 1, ..m.mmap }
            } else {
                MmapStatsModel { total: m.mmap.total + 1, file: m.mmap.file + 1, ..m.mmap }
            },
            ..m
        },
        Category::Zero => StatsModel { zero: m.zero + 1, ..m },
        Category::FreeNoFlag => StatsModel {
            free: FreeStatsModel { total: m.free.total + 1, noflag: m.free.noflag + 1, ..m.free },
            ..m
        },
        Category::FreePreviouslyUsed => StatsModel {
            free: FreeStatsModel {
                total: m.free.total + 1,
                previously_used: m.free.previously_used + 1,
                ..m.free
            },
            ..m
        },
    }
}

/// Overlay accounting of one present frame: compound membership (counted
/// once per head or tail frame, a known overcount that is preserved) and
/// the huge / transparent-huge counters.
pub open spec fn step_overlays(m: StatsModel, flags: u64) -> StatsModel {
    let m1 = if spec_intersects(flags, COMPOUND_HEAD | COMPOUND_TAIL) {
        StatsModel { compound: m.compound + 1, ..m }
    } else {
        m
    };
    let m2 = if spec_contains(flags, HUGE) {
        let h = if spec_intersects(flags, COMPOUND_HEAD) {
            HugeStatsModel {
                reserved: m1.huge.reserved + 1,
                total: m1.huge.total + 1,
                ..m1.huge
            }
        } else {
            m1.huge
        };
        StatsModel {
            huge: HugeStatsModel {
                reserved_fine_granular: h.reserved_fine_granular + 1,
                total_fine_granular: h.total_fine_granular + 1,
                ..h
            },
            ..m1
        }
    } else {
        m1
    };
    if spec_contains(flags, THP) {
        let h = if spec_intersects(flags, COMPOUND_HEAD) {
            HugeStatsModel {
                transparent: m2.huge.transparent + 1,
                total: m2.huge.total + 1,
                ..m2.huge
            }
        } else {
            m2.huge
        };
        StatsModel {
            huge: HugeStatsModel {
                transparent_fine_granular: h.transparent_fine_granular + 1,
                total_fine_granular: h.total_fine_granular + 1,
                ..h
            },
            ..m2
        }
    } else {
        m2
    }
}

/// Everything one decoded pair adds to the accumulator.  An absent frame
/// adds nothing at all.
pub open spec fn step_frame(m: StatsModel, reference_count: u64, raw: u64) -> StatsModel {
    if is_absent(raw) {
        m
    } else {
        let flags = truncated(raw);
        let m1 = step_lru(m, flags);
        let m2 = step_primary(m1, flags);
        let m3 = step_overlays(m2, flags);
        let m4 = if reference_count > 0 {
            StatsModel { frames_in_use: m3.frames_in_use + 1, ..m3 }
        } else {
            m3
        };
        StatsModel { total_frames: m4.total_frames + 1, ..m4 }
    }
}

/// The accumulator after the first `n` decoded pairs, starting from zero.
pub open spec fn stats_after(counts: Seq<u64>, raws: Seq<u64>, n: int) -> StatsModel
    decreases n,
{
    if n <= 0 {
        StatsModel::zero()
    } else {
        step_frame(stats_after(counts, raws, n - 1), counts[n - 1], raws[n - 1])
    }
}

/// How many pairs two decoded tables yield: the two sequences are zipped
/// by index, so only the shorter length's worth of pairs is produced.
pub open spec fn pair_count(counts: Seq<u64>, raws: Seq<u64>) -> int {
    if counts.len() <= raws.len() {
        counts.len() as int
    } else {
        raws.len() as int
    }
}

/// The result of one classification pass: the frame table (one optional
/// slot per physical frame number, in ascending order) and the aggregate
/// statistics.
#[derive(Debug, PartialEq, Eq)]
pub struct Classification {
    pub table: Vec<Option<PageFrame>>,
    pub stats: PageFrameStats,
}

/// Classifies every decoded pair and accumulates the statistics.
///
/// Succeeds exactly when no pair violates a classification invariant; the
/// first violation is reported as a [`ConsistencyFault`] with its frame
/// number.  On success the table holds one slot per pair and the
/// statistics are the fold of [`step_frame`] over all pairs.
#[verifier::rlimit(100)]
pub fn classify_frames(counts: &Vec<u64>, flag_words: &Vec<u64>) -> (r: Result<
    Classification,
    ConsistencyFault,
>)
    requires
        pair_count(counts@, flag_words@) <= MAX_FRAMES,
    ensures
        r is Ok <==> (forall|i: int|
            0 <= i < pair_count(counts@, flag_words@) ==> frame_ok(counts@[i], flag_words@[i])),
        r matches Ok(c) ==> {
            &&& c.table@.len() == pair_count(counts@, flag_words@)
            &&& (forall|i: int|
                0 <= i < c.table@.len() ==> c.table@[i] == spec_slot(counts@[i], flag_words@[i]))
            &&& c.stats@ == stats_after(counts@, flag_words@, pair_count(counts@, flag_words@))
        },
        r matches Err(e) ==> {
            &&& 0 <= e.pfn < pair_count(counts@, flag_words@)
            &&& frame_fault_kind(counts@[e.pfn as int], flag_words@[e.pfn as int]) == Some(e.kind)
            &&& (forall|j: int| 0 <= j < e.pfn ==> frame_ok(counts@[j], flag_words@[j]))
        },
{
    let n = if counts.len() <= flag_words.len() {
        counts.len()
    } else {
        flag_words.len()
    };
    let mut stats = PageFrameStats::default();
    let mut table: Vec<Option<PageFrame>> = Vec::new();
    let mut i: usize = 0;
    while i < n
        invariant
            n == pair_count(counts@, flag_words@),
            n <= counts@.len(),
            n <= flag_words@.len(),
            n <= MAX_FRAMES,
            i <= n,
            table@.len() == i,
            forall|j: int| 0 <= j < i ==> frame_ok(counts@[j], flag_words@[j]),
            forall|j: int| 0 <= j < i ==> table@[j] == spec_slot(counts@[j], flag_words@[j]),
            stats@ == stats_after(counts@, flag_words@, i as int),
        decreases n - i,
    {
        let reference_count = counts[i];
        let raw = flag_words[i];
        let flags = PageFlags::from_bits_truncate(raw);
        let ghost pre = stats@;
        proof {
            crate::laws::lemma_stats_after_bounded(counts@, flag_words@, i as int);
        }
        if !flags.contains(NOPAGE) {
            if flags.contains(LRU) {
                stats.lru_stats.total = stats.lru_stats.total + 1;
                if flags.contains(ACTIVE) {
                    if flags.contains(UNEVICTABLE) {
                        return Err(
                            ConsistencyFault { pfn: i, kind: FaultKind::ActiveUnevictable },
                        );
                    }
                    stats.lru_stats.active = stats.lru_stats.active + 1;
                } else if flags.contains(UNEVICTABLE) {
                    stats.lru_stats.unevictable = stats.lru_stats.unevictable + 1;
                } else {
                    stats.lru_stats.inactive = stats.lru_stats.inactive + 1;
                }
            }
            if flags.contains(HWPOISON) {
                stats.poisoned = stats.poisoned + 1;
            } else if flags.contains(KSM) {
                if reference_count < 2 {
                    return Err(ConsistencyFault { pfn: i, kind: FaultKind::SharedLowRefCount });
                }
                stats.shared = stats.shared + 1;
            } else if flags.contains(BUDDY) {
                stats.buddy = stats.buddy + 1;
            } else if flags.contains(SLAB) {
                stats.slab = stats.slab + 1;
            } else if flags.contains(PAGETABLE) {
                stats.pagetable = stats.pagetable + 1;
            } else if flags.contains(MMAP) {
                stats.mmaped_stats.total = stats.mmaped_stats.total + 1;
                if flags.contains(ANON) {
                    stats.mmaped_stats.anon = stats.mmaped_stats.anon + 1;
                } else {
                    stats.mmaped_stats.file = stats.mmaped_stats.file + 1;
                }
            } else if flags.contains(ZERO_PAGE) {
                stats.zero = stats.zero + 1;
            } else if flags.is_empty() {
                stats.free_stats.total = stats.free_stats.total + 1;
                stats.free_stats.noflag = stats.free_stats.noflag + 1;
            } else {
                if reference_count != 0 {
                    return Err(ConsistencyFault { pfn: i, kind: FaultKind::FreeFrameReferenced });
                }
                stats.free_stats.total = stats.free_stats.total + 1;
                stats.free_stats.previously_used = stats.free_stats.previously_used + 1;
            }
            if flags.intersects(COMPOUND_HEAD | COMPOUND_TAIL) {
                stats.compound = stats.compound + 1;
            }
            if flags.contains(HUGE) {
                if flags.intersects(COMPOUND_HEAD) {
                    stats.huge_stats.reserved = stats.huge_stats.reserved + 1;
                    stats.huge_stats.total = stats.huge_stats.total + 1;
                }
                stats.huge_stats.reserved_fine_granular = stats.huge_stats.reserved_fine_granular
                    + 1;
                stats.huge_stats.total_fine_granular = stats.huge_stats.total_fine_granular + 1;
            }
            if flags.contains(THP) {
                if flags.intersects(COMPOUND_HEAD) {
                    stats.huge_stats.transparent = stats.huge_stats.transparent + 1;
                    stats.huge_stats.total = stats.huge_stats.total + 1;
                }
                stats.huge_stats.transparent_fine_granular =
                    stats.huge_stats.transparent_fine_granular + 1;
                stats.huge_stats.total_fine_granular = stats.huge_stats.total_fine_granular + 1;
            }
            if reference_count > 0 {
                stats.frames_in_use = stats.frames_in_use + 1;
            }
            stats.total_frames = stats.total_frames + 1;
            table.push(Some(PageFrame { reference_count, flags }));
        } else {
            table.push(None);
        }
        proof {
            assert(stats@ =~= step_frame(pre, reference_count, raw));
        }
        i = i + 1;
    }
    proof {
        crate::laws::lemma_stats_after_consistent(counts@, flag_words@, n as int);
    }
    let category_sum = stats.mmaped_stats.total + stats.slab + stats.buddy + stats.zero
        + stats.poisoned + stats.pagetable + stats.shared + stats.free_stats.total;
    if category_sum != stats.total_frames {
        return Err(ConsistencyFault { pfn: n, kind: FaultKind::TotalMismatch });
    }
    Ok(Classification { table, stats })
}

} // verus!
