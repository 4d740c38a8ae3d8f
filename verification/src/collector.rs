//! One refresh cycle of the collector service, from raw bytes to the
//! frame table, the statistics and the rendered response.
//!
//! The collector itself owns the two protected kernel streams; reading
//! them is the host's job.  Everything after the read — decoding,
//! classification and rendering — happens here and is verified.

use vstd::prelude::*;

use crate::classify::Classification;
use crate::classify::classify_frames;
use crate::classify::frame_ok;
use crate::classify::pair_count;
use crate::classify::spec_slot;
use crate::classify::stats_after;
use crate::decode::decode_words;
use crate::decode::decoded_words;
use crate::errors::FormatError;
use crate::errors::RefreshError;
use crate::page_flags::ANON;
use crate::page_flags::DIRTY;
use crate::page_flags::HUGE;
use crate::page_flags::THP;
use crate::page_flags::spec_contains;
use crate::page_flags::spec_intersects;
use crate::render::render_summary;
use crate::render::summary_seq;
use crate::stats::PageFrame;
use crate::stats::PageFrameStats;
use crate::stats::StatsModel;

verus! {

/// Both raw tables have a byte length that is a multiple of the record
/// size.
pub open spec fn buffers_aligned(count_bytes: Seq<u8>, flag_bytes: Seq<u8>) -> bool {
    count_bytes.len() % 8 == 0 && flag_bytes.len() % 8 == 0
}

/// The number of frames one refresh over these buffers yields.
pub open spec fn refresh_frames(count_bytes: Seq<u8>, flag_bytes: Seq<u8>) -> int {
    pair_count(decoded_words(count_bytes), decoded_words(flag_bytes))
}

/// A refresh over these buffers succeeds: both tables decode and no
/// decoded pair violates a classification invariant.
pub open spec fn refresh_ok(count_bytes: Seq<u8>, flag_bytes: Seq<u8>) -> bool {
    &&& buffers_aligned(count_bytes, flag_bytes)
    &&& (forall|i: int|
        0 <= i < refresh_frames(count_bytes, flag_bytes) ==> frame_ok(
            decoded_words(count_bytes)[i],
            decoded_words(flag_bytes)[i],
        ))
}

/// The statistics a successful refresh over these buffers reports.
pub open spec fn refresh_stats_model(count_bytes: Seq<u8>, flag_bytes: Seq<u8>) -> StatsModel {
    stats_after(
        decoded_words(count_bytes),
        decoded_words(flag_bytes),
        refresh_frames(count_bytes, flag_bytes),
    )
}

/// The frame table a successful refresh over these buffers builds.
pub open spec fn refresh_table_model(count_bytes: Seq<u8>, flag_bytes: Seq<u8>) -> Seq<
    Option<PageFrame>,
> {
    Seq::new(
        refresh_frames(count_bytes, flag_bytes) as nat,
        |i: int| spec_slot(decoded_words(count_bytes)[i], decoded_words(flag_bytes)[i]),
    )
}

/// A table slot that the response counts: a present frame whose flags
/// contain both DIRTY and ANON.
pub open spec fn is_dirty_anon_slot(slot: Option<PageFrame>) -> bool {
    slot matches Some(frame) && spec_contains(frame.flags.bits, DIRTY | ANON)
}

/// How many of the first `n` table slots the response counts.
pub open spec fn dirty_anon_count(table: Seq<Option<PageFrame>>, n: int) -> nat
    decreases n,
{
    if n <= 0 {
        0
    } else {
        dirty_anon_count(table, n - 1) + (if is_dirty_anon_slot(table[n - 1]) {
            1nat
        } else {
            0nat
        })
    }
}

proof fn lemma_dirty_anon_count_le(table: Seq<Option<PageFrame>>, n: int)
    requires
        0 <= n,
    ensures
        dirty_anon_count(table, n) <= n,
    decreases n,
{
    if n > 0 {
        lemma_dirty_anon_count_le(table, n - 1);
    }
}

/// Counts the present frames whose flags contain both DIRTY and ANON.
pub fn count_dirty_anon(table: &Vec<Option<PageFrame>>) -> (r: u64)
    ensures
        r == dirty_anon_count(table@, table@.len() as int),
{
    let mut count: u64 = 0;
    let mut i: usize = 0;
    let n = table.len();
    while i < n
        invariant
            n == table@.len(),
            i <= n,
            n <= usize::MAX,
            count == dirty_anon_count(table@, i as int),
        decreases n - i,
    {
        proof {
            lemma_dirty_anon_count_le(table@, i as int);
        }
        if let Some(frame) = &table[i] {
            if frame.flags.contains(DIRTY | ANON) {
                count = count + 1;
            }
        }
        i = i + 1;
    }
    count
}

/// A table slot worth reporting through the observability hook: a present
/// frame that is part of a reserved or transparent huge page.
pub open spec fn is_huge_slot(slot: Option<PageFrame>) -> bool {
    slot matches Some(frame) && spec_intersects(frame.flags.bits, HUGE | THP) && frame.flags.bits
        != 0
}

/// The frame numbers of the first `n` slots worth reporting, ascending.
pub open spec fn huge_slot_indices(table: Seq<Option<PageFrame>>, n: int) -> Seq<usize>
    decreases n,
{
    if n <= 0 {
        Seq::empty()
    } else {
        huge_slot_indices(table, n - 1) + (if is_huge_slot(table[n - 1]) {
            seq![(n - 1) as usize]
        } else {
            Seq::empty()
        })
    }
}

/// The observability hook of one refresh: the frame numbers of every
/// present huge or transparent-huge frame, in ascending order, for the
/// host to log.
pub fn huge_frame_indices(table: &Vec<Option<PageFrame>>) -> (r: Vec<usize>)
    ensures
        r@ == huge_slot_indices(table@, table@.len() as int),
{
    let mut indices: Vec<usize> = Vec::new();
    let mut i: usize = 0;
    let n = table.len();
    while i < n
        invariant
            n == table@.len(),
            i <= n,
            indices@ == huge_slot_indices(table@, i as int),
        decreases n - i,
    {
        let mut worth_logging = false;
        if let Some(frame) = &table[i] {
            if frame.flags.intersects(HUGE | THP) && !frame.flags.is_empty() {
                worth_logging = true;
            }
        }
        if worth_logging {
            indices.push(i);
        }
        proof {
            assert(indices@ =~= huge_slot_indices(table@, i + 1));
        }
        i = i + 1;
    }
    indices
}

/// Law: a refresh is a pure function of the raw buffers, so decoding the
/// same unmodified input buffers twice yields identical statistics and an
/// identical frame table.
pub proof fn lemma_refresh_deterministic(
    count_bytes1: Seq<u8>,
    flag_bytes1: Seq<u8>,
    count_bytes2: Seq<u8>,
    flag_bytes2: Seq<u8>,
)
    requires
        count_bytes1 == count_bytes2,
        flag_bytes1 == flag_bytes2,
    ensures
        refresh_stats_model(count_bytes1, flag_bytes1) == refresh_stats_model(
            count_bytes2,
            flag_bytes2,
        ),
        refresh_table_model(count_bytes1, flag_bytes1) == refresh_table_model(
            count_bytes2,
            flag_bytes2,
        ),
{
}

/// Everything one successful refresh produces: the wholly replaced frame
/// table, the fresh statistics, and the rendered response text.
#[derive(Debug, PartialEq, Eq)]
pub struct RefreshOutput {
    pub table: Vec<Option<PageFrame>>,
    pub stats: PageFrameStats,
    pub summary: String,
}

/// One refresh cycle over the two raw kernel tables, already read in
/// full: decode both, classify every pair, and render the response.
///
/// Fails with a [`FormatError`] when a buffer's byte length is not a
/// multiple of the record size (the reference-count table is checked
/// first), and with a [`ConsistencyFault`] when a decoded pair violates a
/// classification invariant.
pub fn refresh_from_buffers(count_bytes: &Vec<u8>, flag_bytes: &Vec<u8>) -> (r: Result<
    RefreshOutput,
    RefreshError,
>)
    ensures
        r is Ok <==> refresh_ok(count_bytes@, flag_bytes@),
        r matches Ok(o) ==> {
            &&& o.table@ == refresh_table_model(count_bytes@, flag_bytes@)
            &&& o.stats@ == refresh_stats_model(count_bytes@, flag_bytes@)
            &&& o.summary@ == summary_seq(
                o.table@.len(),
                dirty_anon_count(o.table@, o.table@.len() as int),
            )
        },
        count_bytes@.len() % 8 != 0 ==> r == Err::<RefreshOutput, RefreshError>(
            RefreshError::Format((FormatError { byte_len: count_bytes@.len() as usize })),
        ),
        count_bytes@.len() % 8 == 0 && flag_bytes@.len() % 8 != 0 ==> r == Err::<
            RefreshOutput,
            RefreshError,
        >(RefreshError::Format((FormatError { byte_len: flag_bytes@.len() as usize }))),
        r matches Err(RefreshError::Consistency(fault)) ==> {
            &&& buffers_aligned(count_bytes@, flag_bytes@)
            &&& 0 <= fault.pfn < refresh_frames(count_bytes@, flag_bytes@)
            &&& crate::classify::frame_fault_kind(
                decoded_words(count_bytes@)[fault.pfn as int],
                decoded_words(flag_bytes@)[fault.pfn as int],
            ) == Some(fault.kind)
            &&& (forall|j: int|
                0 <= j < fault.pfn ==> frame_ok(
                    decoded_words(count_bytes@)[j],
                    decoded_words(flag_bytes@)[j],
                ))
        },
{
    let counts = match decode_words(count_bytes) {
        Ok(words) => words,
        Err(e) => {
            return Err(RefreshError::Format(e));
        },
    };
    let raws = match decode_words(flag_bytes) {
        Ok(words) => words,
        Err(e) => {
            return Err(RefreshError::Format(e));
        },
    };
    proof {
        vstd::std_specs::vec::axiom_spec_len(count_bytes);
        vstd::std_specs::vec::axiom_spec_len(flag_bytes);
        vstd::arithmetic::div_mod::lemma_div_is_ordered(
            count_bytes@.len() as int,
            usize::MAX as int,
            8,
        );
        vstd::arithmetic::div_mod::lemma_div_is_ordered(
            flag_bytes@.len() as int,
            usize::MAX as int,
            8,
        );
        assert(counts@.len() <= usize::MAX as int / 8);
        assert(raws@.len() <= usize::MAX as int / 8);
    }
    let classification: Classification = match classify_frames(&counts, &raws) {
        Ok(c) => c,
        Err(fault) => {
            return Err(RefreshError::Consistency(fault));
        },
    };
    let Classification { table, stats } = classification;
    let total_frames = table.len() as u64;
    let dirty_anon = count_dirty_anon(&table);
    let summary = render_summary(total_frames, dirty_anon);
    proof {
        assert(table@ =~= refresh_table_model(count_bytes@, flag_bytes@));
    }
    Ok(RefreshOutput { table, stats, summary })
}

} // verus!
