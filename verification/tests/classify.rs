use meminfo::classify::classify_frames;
use meminfo::errors::FaultKind;
use meminfo::page_flags::ACTIVE;
use meminfo::page_flags::ANON;
use meminfo::page_flags::BUDDY;
use meminfo::page_flags::COMPOUND_HEAD;
use meminfo::page_flags::COMPOUND_TAIL;
use meminfo::page_flags::DIRTY;
use meminfo::page_flags::HUGE;
use meminfo::page_flags::HWPOISON;
use meminfo::page_flags::KSM;
use meminfo::page_flags::LRU;
use meminfo::page_flags::MMAP;
use meminfo::page_flags::NOPAGE;
use meminfo::page_flags::PageFlags;
use meminfo::page_flags::PAGETABLE;
use meminfo::page_flags::SLAB;
use meminfo::page_flags::THP;
use meminfo::page_flags::UNEVICTABLE;
use meminfo::page_flags::ZERO_PAGE;
use meminfo::stats::PageFrame;

#[test]
fn absent_frame_leaves_an_empty_slot_and_no_stats() {
    let c = classify_frames(&vec![0], &vec![NOPAGE]).unwrap();
    assert_eq!(c.table, vec![None]);
    assert_eq!(c.stats.total_frames, 0);
    assert_eq!(c.stats.frames_in_use, 0);
    assert_eq!(c.stats.free_stats.total, 0);
}

#[test]
fn active_lru_frame_is_counted_in_use() {
    let c = classify_frames(&vec![1], &vec![LRU | ACTIVE | MMAP]).unwrap();
    assert_eq!(c.stats.lru_stats.total, 1);
    assert_eq!(c.stats.lru_stats.active, 1);
    assert_eq!(c.stats.lru_stats.inactive, 0);
    assert_eq!(c.stats.lru_stats.unevictable, 0);
    assert_eq!(c.stats.free_stats.total, 0);
    assert_eq!(c.stats.total_frames, 1);
    assert_eq!(c.stats.frames_in_use, 1);
    assert_eq!(
        c.table,
        vec![Some(PageFrame {
            reference_count: 1,
            flags: PageFlags::from_bits_truncate(LRU | ACTIVE | MMAP),
        })]
    );
}

#[test]
fn a_bare_active_lru_frame_with_references_is_a_fault() {
    // LRU and ACTIVE alone name no primary category, so a reference
    // count other than zero violates the previously-used-free invariant.
    let fault = classify_frames(&vec![1], &vec![LRU | ACTIVE]).unwrap_err();
    assert_eq!(fault.pfn, 0);
    assert_eq!(fault.kind, FaultKind::FreeFrameReferenced);
}

#[test]
fn ksm_frame_with_enough_references_is_shared() {
    let c = classify_frames(&vec![3], &vec![KSM]).unwrap();
    assert_eq!(c.stats.shared, 1);
    assert_eq!(c.stats.total_frames, 1);
}

#[test]
fn ksm_frame_with_too_few_references_is_a_fault() {
    let fault = classify_frames(&vec![1], &vec![KSM]).unwrap_err();
    assert_eq!(fault.pfn, 0);
    assert_eq!(fault.kind, FaultKind::SharedLowRefCount);
}

#[test]
fn empty_flag_set_counts_as_untouched_free_frame() {
    let c = classify_frames(&vec![0], &vec![0]).unwrap();
    assert_eq!(c.stats.free_stats.total, 1);
    assert_eq!(c.stats.free_stats.noflag, 1);
    assert_eq!(c.stats.free_stats.previously_used, 0);
}

#[test]
fn uncategorized_flags_count_as_previously_used_free_frame() {
    let c = classify_frames(&vec![0], &vec![DIRTY]).unwrap();
    assert_eq!(c.stats.free_stats.total, 1);
    assert_eq!(c.stats.free_stats.previously_used, 1);
    assert_eq!(c.stats.free_stats.noflag, 0);
}

#[test]
fn referenced_uncategorized_frame_is_a_fault() {
    let fault = classify_frames(&vec![1], &vec![DIRTY]).unwrap_err();
    assert_eq!(fault.pfn, 0);
    assert_eq!(fault.kind, FaultKind::FreeFrameReferenced);
}

#[test]
fn active_and_unevictable_together_are_a_fault() {
    let fault = classify_frames(&vec![1], &vec![LRU | ACTIVE | UNEVICTABLE | MMAP]).unwrap_err();
    assert_eq!(fault.pfn, 0);
    assert_eq!(fault.kind, FaultKind::ActiveUnevictable);
}

#[test]
fn unevictable_frame_without_active_is_counted() {
    let c = classify_frames(&vec![1], &vec![LRU | UNEVICTABLE | MMAP]).unwrap();
    assert_eq!(c.stats.lru_stats.total, 1);
    assert_eq!(c.stats.lru_stats.unevictable, 1);
    assert_eq!(c.stats.lru_stats.active, 0);
    assert_eq!(c.stats.mmaped_stats.total, 1);
    assert_eq!(c.stats.mmaped_stats.file, 1);
}

#[test]
fn the_first_fault_wins_within_one_frame() {
    // The LRU consistency check runs before the KSM one.
    let fault = classify_frames(&vec![1], &vec![LRU | ACTIVE | UNEVICTABLE | KSM]).unwrap_err();
    assert_eq!(fault.kind, FaultKind::ActiveUnevictable);
}

#[test]
fn the_first_faulty_frame_is_reported() {
    let fault = classify_frames(&vec![0, 1, 1], &vec![0, DIRTY, KSM]).unwrap_err();
    assert_eq!(fault.pfn, 1);
    assert_eq!(fault.kind, FaultKind::FreeFrameReferenced);
}

#[test]
fn primary_categories_follow_the_match_order() {
    let counts = vec![5, 2, 0, 0, 0, 7, 4, 1];
    let raws = vec![
        HWPOISON | KSM,  // poisoned wins over shared
        KSM | BUDDY,     // shared wins over buddy
        BUDDY | SLAB,    // buddy wins over slab
        SLAB | PAGETABLE,
        PAGETABLE | MMAP,
        MMAP | ANON | ZERO_PAGE,
        ZERO_PAGE | DIRTY,
        MMAP, // file-backed mapping
    ];
    let c = classify_frames(&counts, &raws).unwrap();
    assert_eq!(c.stats.poisoned, 1);
    assert_eq!(c.stats.shared, 1);
    assert_eq!(c.stats.buddy, 1);
    assert_eq!(c.stats.slab, 1);
    assert_eq!(c.stats.pagetable, 1);
    assert_eq!(c.stats.mmaped_stats.total, 2);
    assert_eq!(c.stats.mmaped_stats.anon, 1);
    assert_eq!(c.stats.mmaped_stats.file, 1);
    assert_eq!(c.stats.zero, 1);
    assert_eq!(c.stats.total_frames, 8);
    assert_eq!(c.stats.frames_in_use, 5);
    let category_sum = c.stats.mmaped_stats.total
        + c.stats.slab
        + c.stats.buddy
        + c.stats.zero
        + c.stats.poisoned
        + c.stats.pagetable
        + c.stats.shared
        + c.stats.free_stats.total;
    assert_eq!(category_sum, c.stats.total_frames);
}

#[test]
fn compound_head_and_tail_are_counted_separately() {
    // Known overcount that is preserved: head and tail frames both count.
    let c = classify_frames(&vec![0, 0], &vec![COMPOUND_HEAD, COMPOUND_TAIL]).unwrap();
    assert_eq!(c.stats.compound, 2);
}

#[test]
fn huge_frame_counts_once_per_group_and_once_per_frame() {
    let c = classify_frames(
        &vec![0, 0],
        &vec![HUGE | COMPOUND_HEAD, HUGE | COMPOUND_TAIL],
    )
    .unwrap();
    assert_eq!(c.stats.huge_stats.reserved, 1);
    assert_eq!(c.stats.huge_stats.total, 1);
    assert_eq!(c.stats.huge_stats.reserved_fine_granular, 2);
    assert_eq!(c.stats.huge_stats.total_fine_granular, 2);
    assert_eq!(c.stats.huge_stats.transparent, 0);
    assert_eq!(c.stats.huge_stats.transparent_fine_granular, 0);
}

#[test]
fn transparent_huge_frames_mirror_the_reserved_counters() {
    let c = classify_frames(
        &vec![0, 0],
        &vec![THP | COMPOUND_HEAD, THP | COMPOUND_TAIL],
    )
    .unwrap();
    assert_eq!(c.stats.huge_stats.transparent, 1);
    assert_eq!(c.stats.huge_stats.total, 1);
    assert_eq!(c.stats.huge_stats.transparent_fine_granular, 2);
    assert_eq!(c.stats.huge_stats.total_fine_granular, 2);
    assert_eq!(c.stats.huge_stats.reserved, 0);
}

#[test]
fn a_frame_that_is_both_huge_and_transparent_counts_twice_in_the_totals() {
    let c = classify_frames(&vec![0], &vec![HUGE | THP | COMPOUND_HEAD]).unwrap();
    assert_eq!(c.stats.huge_stats.total, 2);
    assert_eq!(c.stats.huge_stats.total_fine_granular, 2);
    assert_eq!(c.stats.huge_stats.reserved, 1);
    assert_eq!(c.stats.huge_stats.transparent, 1);
}

#[test]
fn unknown_flag_bits_are_tolerated_and_never_matched() {
    // With only unknown bits set the frame counts as carrying no flag.
    let c = classify_frames(&vec![0], &vec![1 << 40]).unwrap();
    assert_eq!(c.stats.free_stats.noflag, 1);

    // Unknown bits beside named ones do not change the category.
    let c = classify_frames(&vec![0], &vec![DIRTY | (1 << 63)]).unwrap();
    assert_eq!(c.stats.free_stats.previously_used, 1);
}

#[test]
fn tables_of_different_length_zip_to_the_shorter_one() {
    let c = classify_frames(&vec![1, 1, 1], &vec![LRU | ACTIVE | MMAP]).unwrap();
    assert_eq!(c.table.len(), 1);
    assert_eq!(c.stats.total_frames, 1);

    let c = classify_frames(&vec![1], &vec![LRU | ACTIVE | MMAP, NOPAGE, NOPAGE]).unwrap();
    assert_eq!(c.table.len(), 1);
}

#[test]
fn classifying_the_same_input_twice_gives_identical_stats() {
    let counts = vec![5, 0, 2, 0, 1];
    let raws = vec![MMAP | ANON | DIRTY, NOPAGE, KSM, 0, LRU | MMAP];
    let first = classify_frames(&counts, &raws).unwrap();
    let second = classify_frames(&counts, &raws).unwrap();
    assert_eq!(first.stats, second.stats);
    assert_eq!(first.table, second.table);
}
