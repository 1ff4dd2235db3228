use vstd::arithmetic::div_mod::{lemma_mod_sub_multiples_vanish, lemma_small_mod};
use vstd::prelude::*;

use crate::config::gap_width;
use crate::frame::{PpmTime, MAX_PPM_CHANNELS};
use crate::parser::{model_gap, pull, step, ParserModel, ParserState};

verus! {

/// The model after edges at each timestamp of `edges`, in order.
pub open spec fn run(m: ParserModel, edges: Seq<PpmTime>) -> ParserModel
    decreases edges.len(),
{
    if edges.len() == 0 {
        m
    } else {
        step(run(m, edges.drop_last()), edges.last())
    }
}

/// The gap that ends at `edges[i]`, when the edges follow a model `m`.
pub open spec fn edge_gap(m: ParserModel, edges: Seq<PpmTime>, i: int) -> int {
    let prev = if i == 0 {
        m.last
    } else {
        edges[i - 1]
    };
    gap_width(prev as int, edges[i] as int, m.config.wrap_modulus())
}

/// All the gaps that end at the timestamps of `edges`, as channel values.
pub open spec fn edge_gaps(m: ParserModel, edges: Seq<PpmTime>) -> Seq<PpmTime> {
    Seq::new(edges.len(), |i: int| edge_gap(m, edges, i) as PpmTime)
}

/// Whether the thresholds tell a sync from a channel gap.
pub open spec fn config_valid(m: ParserModel) -> bool {
    m.config.min_sync_width > m.config.max_chan_value
}

/// Running edges keeps the configuration and remembers the latest edge.
pub proof fn lemma_run_keeps_config(m: ParserModel, edges: Seq<PpmTime>)
    ensures
        run(m, edges).config == m.config,
        run(m, edges).last == (if edges.len() == 0 {
            m.last
        } else {
            edges.last()
        }),
    decreases edges.len(),
{
    if edges.len() > 0 {
        lemma_run_keeps_config(m, edges.drop_last());
    }
}

/// The gaps of a prefix of `edges` are the gaps of `edges` up to its length.
proof fn lemma_edge_gap_prefix(m: ParserModel, edges: Seq<PpmTime>, i: int)
    requires
        edges.len() > 0,
        0 <= i < edges.len() - 1,
    ensures
        edge_gap(m, edges.drop_last(), i) == edge_gap(m, edges, i),
{
}

/// The gap before the last edge is the one `step` sees after the earlier
/// edges.
proof fn lemma_last_gap(m: ParserModel, edges: Seq<PpmTime>)
    requires
        edges.len() > 0,
    ensures
        gap_width(
            run(m, edges.drop_last()).last as int,
            edges.last() as int,
            run(m, edges.drop_last()).config.wrap_modulus(),
        ) == edge_gap(m, edges, edges.len() - 1),
{
    lemma_run_keeps_config(m, edges.drop_last());
}

/// While scanning, gaps shorter than a sync are discarded: only the latest
/// edge is remembered.
pub proof fn lemma_scanning_discards(m: ParserModel, edges: Seq<PpmTime>)
    requires
        m.state == ParserState::Scanning,
        forall|i: int| 0 <= i < edges.len() ==> !m.config.is_sync(#[trigger] edge_gap(m, edges, i)),
    ensures
        run(m, edges) == (ParserModel { last: run(m, edges).last, ..m }),
    decreases edges.len(),
{
    if edges.len() > 0 {
        let prefix = edges.drop_last();
        assert forall|i: int| 0 <= i < prefix.len() implies !m.config.is_sync(
            #[trigger] edge_gap(m, prefix, i),
        ) by {
            lemma_edge_gap_prefix(m, edges, i);
            assert(!m.config.is_sync(edge_gap(m, edges, i)));
        }
        lemma_scanning_discards(m, prefix);
        lemma_last_gap(m, edges);
        lemma_run_keeps_config(m, prefix);
        assert(!m.config.is_sync(edge_gap(m, edges, edges.len() - 1)));
    }
}

/// Starting from scanning, the first gap that is at least the sync width
/// synchronizes the parser on an empty frame; every gap before it is ignored.
pub proof fn lemma_first_sync_synchronizes(m: ParserModel, edges: Seq<PpmTime>)
    requires
        m.state == ParserState::Scanning,
        edges.len() > 0,
        forall|i: int|
            0 <= i < edges.len() - 1 ==> !m.config.is_sync(#[trigger] edge_gap(m, edges, i)),
        m.config.is_sync(edge_gap(m, edges, edges.len() - 1)),
    ensures
        run(m, edges) == (ParserModel {
            state: ParserState::Synced,
            last: edges.last(),
            working: Seq::empty(),
            ..m
        }),
{
    let prefix = edges.drop_last();
    assert forall|i: int| 0 <= i < prefix.len() implies !m.config.is_sync(
        #[trigger] edge_gap(m, prefix, i),
    ) by {
        lemma_edge_gap_prefix(m, edges, i);
        assert(!m.config.is_sync(edge_gap(m, edges, i)));
    }
    lemma_scanning_discards(m, prefix);
    lemma_last_gap(m, edges);
    lemma_run_keeps_config(m, prefix);
}

/// While synced, each gap in the channel range appends exactly one channel
/// value, equal to the gap, in arrival order (as long as the frame has room).
pub proof fn lemma_channels_appended(m: ParserModel, edges: Seq<PpmTime>)
    requires
        config_valid(m),
        m.state == ParserState::Synced,
        m.working.len() + edges.len() <= MAX_PPM_CHANNELS,
        forall|i: int| 0 <= i < edges.len() ==> m.config.is_channel(#[trigger] edge_gap(m, edges, i)),
    ensures
        run(m, edges) == (ParserModel {
            last: run(m, edges).last,
            working: m.working + edge_gaps(m, edges),
            ..m
        }),
    decreases edges.len(),
{
    if edges.len() == 0 {
        assert(m.working + edge_gaps(m, edges) =~= m.working);
    } else {
        let prefix = edges.drop_last();
        assert forall|i: int| 0 <= i < prefix.len() implies m.config.is_channel(
            #[trigger] edge_gap(m, prefix, i),
        ) by {
            lemma_edge_gap_prefix(m, edges, i);
            assert(m.config.is_channel(edge_gap(m, edges, i)));
        }
        lemma_channels_appended(m, prefix);
        lemma_last_gap(m, edges);
        lemma_run_keeps_config(m, prefix);
        let k = edges.len() - 1;
        assert(m.config.is_channel(edge_gap(m, edges, k)));
        assert forall|i: int| 0 <= i < prefix.len() implies #[trigger] edge_gaps(m, prefix)[i]
            == edge_gaps(m, edges)[i] by {
            lemma_edge_gap_prefix(m, edges, i);
        }
        assert(m.working + edge_gaps(m, edges) =~= (m.working + edge_gaps(m, prefix)).push(
            edge_gap(m, edges, k) as PpmTime,
        ));
    }
}

/// A frame sync that closes a frame with fewer channels than the minimum
/// leaves nothing to take and empties the frame being assembled.
pub proof fn lemma_short_frame_rejected(m: ParserModel, now: PpmTime)
    requires
        m.state == ParserState::Synced,
        m.config.is_sync(model_gap(m, now)),
        m.working.len() < m.config.min_channels,
    ensures
        pull(step(m, now)).0 is None,
        step(m, now).working.len() == 0,
{
}

/// After a frame sync, channel gaps followed by another frame sync yield
/// exactly the frame of those gaps, in order, when there are at least the
/// minimum number of them; the next frame then starts empty.
pub proof fn lemma_frame_published(m: ParserModel, edges: Seq<PpmTime>, now: PpmTime)
    requires
        config_valid(m),
        m.state == ParserState::Synced,
        m.working.len() == 0,
        edges.len() <= MAX_PPM_CHANNELS,
        edges.len() >= m.config.min_channels,
        forall|i: int| 0 <= i < edges.len() ==> m.config.is_channel(#[trigger] edge_gap(m, edges, i)),
        m.config.is_sync(edge_gap(m, edges.push(now), edges.len() as int)),
    ensures
        pull(run(m, edges.push(now))).0 == Some(edge_gaps(m, edges)),
        run(m, edges.push(now)).working.len() == 0,
        run(m, edges.push(now)).state == ParserState::Synced,
{
    let all = edges.push(now);
    assert(all.drop_last() =~= edges);
    lemma_channels_appended(m, edges);
    lemma_last_gap(m, all);
    assert(m.working + edge_gaps(m, edges) =~= edge_gaps(m, edges));
}

/// While synced, a gap outside the channel range that is not a frame sync
/// discards the frame being assembled and returns to scanning, publishing
/// nothing.
pub proof fn lemma_corrupt_gap_resyncs(m: ParserModel, now: PpmTime)
    requires
        m.state == ParserState::Synced,
        !m.config.is_sync(model_gap(m, now)),
        !m.config.is_channel(model_gap(m, now)),
    ensures
        step(m, now) == (ParserModel {
            state: ParserState::Scanning,
            last: now,
            working: Seq::empty(),
            ..m
        }),
{
}

/// Taking the pending frame twice in a row yields it once, then nothing.
pub proof fn lemma_pull_twice(m: ParserModel)
    ensures
        pull(m).0 == m.pending,
        pull(pull(m).1).0 is None,
{
}

/// The gap between two edges is the true elapsed time, whether or not the
/// timer wrapped between them: an edge that comes `elapsed` after `last`
/// (on a timer counting modulo `modulus`) gives a gap of `elapsed`.
pub proof fn lemma_gap_ignores_wrap(last: int, elapsed: int, modulus: int)
    requires
        0 <= last < modulus,
        0 <= elapsed < modulus,
    ensures
        gap_width(last, (last + elapsed) % modulus, modulus) == elapsed,
        gap_width(last, (last + elapsed) % modulus, modulus) == ((last + elapsed) % modulus
            - last) % modulus,
{
    if last + elapsed < modulus {
        lemma_small_mod((last + elapsed) as nat, modulus as nat);
        lemma_small_mod(elapsed as nat, modulus as nat);
    } else {
        lemma_mod_sub_multiples_vanish(last + elapsed, modulus);
        lemma_small_mod((last + elapsed - modulus) as nat, modulus as nat);
        lemma_mod_sub_multiples_vanish(elapsed, modulus);
        lemma_small_mod(elapsed as nat, modulus as nat);
        assert((last + elapsed) % modulus - last == -modulus + elapsed);
    }
}

} // verus!
