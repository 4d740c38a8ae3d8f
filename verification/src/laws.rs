//! The laws of the classification model.
//!
//! Each public proof function states one property of the statistics fold
//! that callers may rely on; the private helpers carry the inductions.

use vstd::prelude::*;

use crate::classify::Category;
use crate::classify::category_of;
use crate::classify::frame_ok;
use crate::classify::is_absent;
use crate::classify::stats_after;
use crate::classify::step_frame;
use crate::classify::truncated;
use crate::stats::StatsModel;

verus! {

/// Every counter of `m` is at most `b`.
pub open spec fn bounded_by(m: StatsModel, b: int) -> bool {
    &&& m.lru.total <= b
    &&& m.lru.active <= b
    &&& m.lru.inactive <= b
    &&& m.lru.unevictable <= b
    &&& m.mmap.total <= b
    &&& m.mmap.anon <= b
    &&& m.mmap.file <= b
    &&& m.free.total <= b
    &&& m.free.noflag <= b
    &&& m.free.previously_used <= b
    &&& m.huge.total <= b
    &&& m.huge.total_fine_granular <= b
    &&& m.huge.reserved <= b
    &&& m.huge.reserved_fine_granular <= b
    &&& m.huge.transparent <= b
    &&& m.huge.transparent_fine_granular <= b
    &&& m.shared <= b
    &&& m.poisoned <= b
    &&& m.buddy <= b
    &&& m.slab <= b
    &&& m.zero <= b
    &&& m.compound <= b
    &&& m.pagetable <= b
    &&& m.frames_in_use <= b
    &&& m.total_frames <= b
}

/// One frame adds at most two to any one counter (two is reached only by
/// the shared huge counters when a frame is both HUGE and THP).
#[verifier::rlimit(100)]
#[verifier::spinoff_prover]
proof fn lemma_step_frame_bounds(m: StatsModel, reference_count: u64, raw: u64, b: int)
    requires
        bounded_by(m, b),
    ensures
        bounded_by(step_frame(m, reference_count, raw), b + 2),
{
}

/// The counters after `n` frames are bounded by `2 * n`.
pub proof fn lemma_stats_after_bounded(counts: Seq<u64>, raws: Seq<u64>, n: int)
    requires
        0 <= n,
    ensures
        bounded_by(stats_after(counts, raws, n), 2 * n),
    decreases n,
{
    if n > 0 {
        lemma_stats_after_bounded(counts, raws, n - 1);
        lemma_step_frame_bounds(stats_after(counts, raws, n - 1), counts[n - 1], raws[n - 1], 2 * n
            - 2);
    }
}

/// The cross-field invariants of a well-formed accumulator: the primary
/// category totals partition the counted frames, free frames split into
/// no-flag and previously-used, mapped frames split into anonymous and
/// file-backed, and the LRU lists partition the LRU total.
pub open spec fn counters_consistent(m: StatsModel) -> bool {
    &&& m.mmap.total + m.slab + m.buddy + m.zero + m.poisoned + m.pagetable + m.shared
        + m.free.total == m.total_frames
    &&& m.free.total == m.free.noflag + m.free.previously_used
    &&& m.mmap.total == m.mmap.anon + m.mmap.file
    &&& m.lru.total == m.lru.active + m.lru.inactive + m.lru.unevictable
}

#[verifier::rlimit(100)]
#[verifier::spinoff_prover]
proof fn lemma_step_frame_consistent(m: StatsModel, reference_count: u64, raw: u64)
    requires
        counters_consistent(m),
    ensures
        counters_consistent(step_frame(m, reference_count, raw)),
{
}

/// Law: after any classification pass the primary category totals sum to
/// the total frame count, and the free, mmap and LRU splits add up.  In
/// particular exactly one primary category is assigned per counted frame.
pub proof fn lemma_stats_after_consistent(counts: Seq<u64>, raws: Seq<u64>, n: int)
    ensures
        counters_consistent(stats_after(counts, raws, n)),
    decreases n,
{
    if n > 0 {
        lemma_stats_after_consistent(counts, raws, n - 1);
        lemma_step_frame_consistent(stats_after(counts, raws, n - 1), counts[n - 1], raws[n - 1]);
    }
}

/// The counter that tallies the frames of one primary category.
pub open spec fn category_tally(m: StatsModel, cat: Category) -> nat {
    match cat {
        Category::Poisoned => m.poisoned,
        Category::Shared => m.shared,
        Category::Buddy => m.buddy,
        Category::Slab => m.slab,
        Category::PageTable => m.pagetable,
        Category::Mmap => m.mmap.total,
        Category::Zero => m.zero,
        Category::FreeNoFlag => m.free.noflag,
        Category::FreePreviouslyUsed => m.free.previously_used,
    }
}

/// Law: one decoded pair is assigned exactly one primary category.  A
/// present frame adds one to the tally of its own category and nothing to
/// any other; an absent frame adds to none; and the total frame count
/// grows exactly with the present frames.
#[verifier::rlimit(100)]
#[verifier::spinoff_prover]
pub proof fn lemma_step_assigns_one_category(
    m: StatsModel,
    reference_count: u64,
    raw: u64,
    cat: Category,
)
    ensures
        category_tally(step_frame(m, reference_count, raw), cat) == category_tally(m, cat) + (
        if !is_absent(raw) && cat == category_of(truncated(raw)) {
            1nat
        } else {
            0nat
        }),
        step_frame(m, reference_count, raw).total_frames == m.total_frames + (
        if is_absent(raw) {
            0nat
        } else {
            1nat
        }),
{
}

/// Law: every KSM-classified frame that passes the consistency checks has
/// a reference count of at least two.
pub proof fn lemma_shared_frame_reference_count(reference_count: u64, raw: u64)
    requires
        frame_ok(reference_count, raw),
        !is_absent(raw),
        category_of(truncated(raw)) == Category::Shared,
    ensures
        reference_count >= 2,
{
}

/// Law: every frame classified as previously-used free memory has a
/// reference count of zero.
pub proof fn lemma_previously_used_frame_unreferenced(reference_count: u64, raw: u64)
    requires
        frame_ok(reference_count, raw),
        !is_absent(raw),
        category_of(truncated(raw)) == Category::FreePreviouslyUsed,
    ensures
        reference_count == 0,
{
}

/// Law: no frame is counted in both the active and the unevictable LRU
/// lists: one step never increases both counters.
#[verifier::rlimit(100)]
#[verifier::spinoff_prover]
pub proof fn lemma_lru_active_unevictable_exclusive(m: StatsModel, reference_count: u64, raw: u64)
    ensures
        !(step_frame(m, reference_count, raw).lru.active > m.lru.active && step_frame(
            m,
            reference_count,
            raw,
        ).lru.unevictable > m.lru.unevictable),
{
}

} // verus!
