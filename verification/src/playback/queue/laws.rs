//! Properties that every queue operation keeps, and laws that relate the
//! operations to one another.
use vstd::prelude::*;

use crate::playback::queue::entry::{PlaybackQueueEntry, PlaybackQueueEntrySource, TrackId};
use crate::util::{is_first_index, lemma_first_index};
use crate::constants::PLAYBACK_QUEUE_LENGTH;
use crate::playback::queue::generation::{
    added_track_ids, first_anchor_position, last_anchor_position, system_entries, walk_back,
    walk_forward,
};
use crate::playback::queue::{
    is_user_entry, track_at, user_run, PlaybackQueueOrder, PlaybackQueueView,
};

verus! {

/// Entries hold pairwise distinct identifiers.
pub open spec fn ids_distinct(entries: Seq<PlaybackQueueEntry>) -> bool {
    forall|i: int, j: int|
        0 <= i < j < entries.len() ==> #[trigger] entries[i].id != #[trigger] entries[j].id
}

pub proof fn lemma_filter_keeps_ids_distinct(
    entries: Seq<PlaybackQueueEntry>,
    keep: spec_fn(PlaybackQueueEntry) -> bool,
)
    requires
        ids_distinct(entries),
    ensures
        ids_distinct(entries.filter(keep)),
        forall|i: int|
            0 <= i < entries.filter(keep).len() ==> entries.contains(
                #[trigger] entries.filter(keep)[i],
            ),
    decreases entries.len(),
{
    reveal(Seq::filter);
    if entries.len() > 0 {
        let rest = entries.drop_last();
        assert(ids_distinct(rest));
        lemma_filter_keeps_ids_distinct(rest, keep);
        let filtered = entries.filter(keep);
        let rest_filtered = rest.filter(keep);
        assert forall|i: int| 0 <= i < rest_filtered.len() implies #[trigger] rest_filtered[i].id
            != entries.last().id by {
            assert(rest.contains(rest_filtered[i]));
            let k = choose|k: int| 0 <= k < rest.len() && rest[k] == rest_filtered[i];
            assert(entries[k] == rest[k]);
        }
        assert forall|i: int| 0 <= i < filtered.len() implies entries.contains(
            #[trigger] filtered[i],
        ) by {
            if keep(entries.last()) && i == filtered.len() - 1 {
                assert(entries[entries.len() - 1] == filtered[i]);
            } else {
                assert(rest.contains(rest_filtered[i]));
                let k = choose|k: int| 0 <= k < rest.len() && rest[k] == rest_filtered[i];
                assert(entries[k] == filtered[i]);
            }
        }
    }
}

pub proof fn lemma_appended_fresh(view: PlaybackQueueView, track_ids: Seq<TrackId>)
    requires
        view.ids_fresh(),
        view.next_id + track_ids.len() <= u64::MAX,
    ensures
        view.appended(track_ids).ids_fresh(),
{
    let after = view.appended(track_ids);
    let n = view.entries.len();
    let added = system_entries(track_ids, view.next_id);
    assert forall|i: int| 0 <= i < after.entries.len() implies #[trigger] after.entries[i].id
        < after.next_id by {
        if i >= n {
            assert(after.entries[i] == added[i - n]);
        }
    }
    assert forall|i: int, j: int| 0 <= i < j < after.entries.len() implies #[trigger] after.entries[i].id
        != #[trigger] after.entries[j].id by {
        if j >= n {
            assert(after.entries[j] == added[j - n]);
            if i >= n {
                assert(after.entries[i] == added[i - n]);
            } else {
                assert(after.entries[i] == view.entries[i]);
            }
        }
    }
}

pub proof fn lemma_prepended_fresh(view: PlaybackQueueView, track_ids: Seq<TrackId>)
    requires
        view.ids_fresh(),
        view.next_id + track_ids.len() <= u64::MAX,
    ensures
        view.prepended(track_ids).ids_fresh(),
{
    let after = view.prepended(track_ids);
    let k = track_ids.len() as int;
    let added = system_entries(track_ids, view.next_id);
    assert forall|i: int| 0 <= i < after.entries.len() implies #[trigger] after.entries[i].id
        < after.next_id by {
        if i < k {
            assert(after.entries[i] == added[i]);
        } else {
            assert(after.entries[i] == view.entries[i - k]);
        }
    }
    assert forall|i: int, j: int| 0 <= i < j < after.entries.len() implies #[trigger] after.entries[i].id
        != #[trigger] after.entries[j].id by {
        if i < k {
            assert(after.entries[i] == added[i]);
            if j < k {
                assert(after.entries[j] == added[j]);
            } else {
                assert(after.entries[j] == view.entries[j - k]);
            }
        } else {
            assert(after.entries[i] == view.entries[i - k]);
            assert(after.entries[j] == view.entries[j - k]);
        }
    }
}

pub proof fn lemma_inserted_fresh(view: PlaybackQueueView, index: int, track_id: TrackId)
    requires
        view.ids_fresh(),
        view.has_id_room(1),
        0 <= index,
    ensures
        view.inserted(index, track_id).ids_fresh(),
{
    let after = view.inserted(index, track_id);
    let at = if index < view.entries.len() {
        index
    } else {
        view.entries.len() as int
    };
    assert forall|i: int| 0 <= i < after.entries.len() implies #[trigger] after.entries[i].id
        < after.next_id by {
        if i < at {
            assert(after.entries[i] == view.entries[i]);
        } else if i > at {
            assert(after.entries[i] == view.entries[i - 1]);
        }
    }
    assert forall|i: int, j: int| 0 <= i < j < after.entries.len() implies #[trigger] after.entries[i].id
        != #[trigger] after.entries[j].id by {
        if i < at {
            assert(after.entries[i] == view.entries[i]);
        } else if i > at {
            assert(after.entries[i] == view.entries[i - 1]);
        }
        if j < at {
            assert(after.entries[j] == view.entries[j]);
        } else if j > at {
            assert(after.entries[j] == view.entries[j - 1]);
        }
    }
}

pub proof fn lemma_removed_fresh(view: PlaybackQueueView, index: int)
    requires
        view.ids_fresh(),
        0 <= index < view.entries.len(),
    ensures
        view.removed(index).ids_fresh(),
{
    let after = view.removed(index);
    assert forall|i: int| 0 <= i < after.entries.len() implies #[trigger] after.entries[i].id
        < after.next_id by {
        if i >= index {
            assert(after.entries[i] == view.entries[i + 1]);
        }
    }
    assert forall|i: int, j: int| 0 <= i < j < after.entries.len() implies #[trigger] after.entries[i].id
        != #[trigger] after.entries[j].id by {
        if i >= index {
            assert(after.entries[i] == view.entries[i + 1]);
        }
        if j >= index {
            assert(after.entries[j] == view.entries[j + 1]);
        }
    }
}

pub proof fn lemma_truncated_fresh(view: PlaybackQueueView)
    requires
        view.ids_fresh(),
        view.cursor < view.entries.len(),
    ensures
        view.truncated().ids_fresh(),
{
    let after = view.truncated();
    let k = view.cursor + 1;
    let head = view.entries.take(k as int);
    let tail = view.entries.skip(k as int);
    let keep = |entry: PlaybackQueueEntry| is_user_entry(entry);
    assert(ids_distinct(tail));
    lemma_filter_keeps_ids_distinct(tail, keep);
    let kept = tail.filter(keep);
    assert forall|i: int| 0 <= i < kept.len() implies exists|t: int|
        0 <= t < tail.len() && tail[t] == #[trigger] kept[i] by {
        assert(tail.contains(kept[i]));
    }
    assert forall|i: int| 0 <= i < after.entries.len() implies #[trigger] after.entries[i].id
        < after.next_id by {
        if i >= k {
            let t = choose|t: int| 0 <= t < tail.len() && tail[t] == kept[i - k];
            assert(view.entries[t + k] == tail[t]);
        }
    }
    assert forall|i: int, j: int| 0 <= i < j < after.entries.len() implies #[trigger] after.entries[i].id
        != #[trigger] after.entries[j].id by {
        if j >= k {
            let t = choose|t: int| 0 <= t < tail.len() && tail[t] == kept[j - k];
            assert(view.entries[t + k] == tail[t]);
            if i < k {
                assert(after.entries[i] == view.entries[i]);
            } else {
                assert(after.entries[i] == kept[i - k]);
                assert(after.entries[j] == kept[j - k]);
            }
        }
    }
}

pub proof fn lemma_pruned_fresh(view: PlaybackQueueView)
    requires
        view.ids_fresh(),
    ensures
        view.pruned().ids_fresh(),
{
    let start = if view.cursor < view.entries.len() {
        view.cursor
    } else {
        view.entries.len()
    };
    let tail = view.entries.skip(start as int);
    let keep = |entry: PlaybackQueueEntry|
        (tail.len() > 0 && entry.id == tail[0].id) || is_user_entry(entry);
    assert(ids_distinct(tail));
    lemma_filter_keeps_ids_distinct(tail, keep);
    let after = view.pruned();
    assert(after.entries == tail.filter(keep));
    assert forall|i: int| 0 <= i < after.entries.len() implies #[trigger] after.entries[i].id
        < after.next_id by {
        assert(tail.contains(after.entries[i]));
        let t = choose|t: int| 0 <= t < tail.len() && tail[t] == after.entries[i];
        assert(view.entries[t + start] == tail[t]);
    }
}


pub proof fn lemma_refilled_keeps_invariants(
    before: PlaybackQueueView,
    after: PlaybackQueueView,
    amount: nat,
)
    requires
        before.refilled_by(after, amount),
        after.next_id <= u64::MAX,
    ensures
        before.ids_fresh() ==> after.ids_fresh(),
        before.cursor_valid() ==> after.cursor_valid(),
        after.cursor == before.cursor,
{
    let track_ids = added_track_ids(before, after);
    if before.ids_fresh() {
        lemma_appended_fresh(before, track_ids);
    }
}

pub proof fn lemma_refilled_if_low_keeps_invariants(before: PlaybackQueueView, after: PlaybackQueueView)
    requires
        before.refilled_if_low(after),
        after.next_id <= u64::MAX,
    ensures
        before.ids_fresh() ==> after.ids_fresh(),
        before.cursor_valid() ==> after.cursor_valid(),
        after.cursor == before.cursor,
        after.entries.len() >= before.entries.len(),
{
    if before.remaining() <= PLAYBACK_QUEUE_LENGTH {
        lemma_refilled_keeps_invariants(before, after, PLAYBACK_QUEUE_LENGTH as nat);
    }
}

pub proof fn lemma_previous_generated_keeps_invariants(
    before: PlaybackQueueView,
    after: PlaybackQueueView,
    amount: nat,
)
    requires
        before.previous_generated(after, amount),
        after.next_id <= u64::MAX,
    ensures
        before.ids_fresh() ==> after.ids_fresh(),
        before.cursor_valid() ==> after.cursor_valid(),
{
    if before.order == PlaybackQueueOrder::Sequential && before.ids_fresh() {
        lemma_prepended_fresh(before, before.sequential_previous_ids(amount));
    }
}

pub proof fn lemma_previous_if_at_start_keeps_invariants(
    before: PlaybackQueueView,
    after: PlaybackQueueView,
)
    requires
        before.previous_if_at_start(after),
        after.next_id <= u64::MAX,
    ensures
        before.ids_fresh() ==> after.ids_fresh(),
        before.cursor_valid() ==> after.cursor_valid(),
{
    if before.cursor == 0 {
        lemma_previous_generated_keeps_invariants(before, after, PLAYBACK_QUEUE_LENGTH as nat);
    }
}


/// Moving back after a successful move to the next track returns to the entry
/// one started from, and gives its track.
pub proof fn law_previous_undoes_next(
    start: PlaybackQueueView,
    forward: PlaybackQueueView,
    next_track: Option<TrackId>,
    back: PlaybackQueueView,
    previous_track: Option<TrackId>,
)
    requires
        start.moved_next(forward, next_track),
        next_track is Some,
        forward.moved_previous(back, previous_track),
    ensures
        back == (PlaybackQueueView { cursor: start.cursor, ..forward }),
        previous_track == track_at(forward.entries, start.cursor as int),
        start.cursor < start.entries.len() ==> previous_track == track_at(
            start.entries,
            start.cursor as int,
        ),
{
    let refilled = PlaybackQueueView { cursor: start.cursor, ..forward };
    if start.remaining() <= PLAYBACK_QUEUE_LENGTH {
        assert(start.entries.len() <= refilled.entries.len());
        assert(forall|i: int|
            0 <= i < start.entries.len() ==> refilled.entries[i] == start.entries[i]);
    }
}

/// Peeking the next track of a non-empty sequential queue tells the track that
/// moving to the next track gives, and refills the queue alike.
pub proof fn law_peek_next_agrees_with_next(
    start: PlaybackQueueView,
    peeked: PlaybackQueueView,
    peeked_track: Option<TrackId>,
    moved: PlaybackQueueView,
    next_track: Option<TrackId>,
)
    requires
        start.order == PlaybackQueueOrder::Sequential,
        start.entries.len() > 0,
        start.refilled_if_low(peeked),
        peeked_track == track_at(peeked.entries, start.cursor + 1int),
        start.moved_next(moved, next_track),
    ensures
        peeked_track == next_track,
        moved.entries == peeked.entries,
        moved.next_id == peeked.next_id,
{
    let refilled = PlaybackQueueView { cursor: start.cursor, ..moved };
    if start.remaining() <= PLAYBACK_QUEUE_LENGTH {
        let ids = start.sequential_next_ids(PLAYBACK_QUEUE_LENGTH as nat);
        assert(added_track_ids(start, refilled) == ids);
        assert(added_track_ids(start, peeked) == ids);
    }
}

/// Peeking the previous track of a non-empty queue tells the track that
/// moving to the previous track gives.
pub proof fn law_peek_previous_agrees_with_previous(
    start: PlaybackQueueView,
    peeked: PlaybackQueueView,
    peeked_track: Option<TrackId>,
    moved: PlaybackQueueView,
    previous_track: Option<TrackId>,
)
    requires
        start.entries.len() > 0,
        start.previous_if_at_start(peeked),
        peeked_track == if peeked.cursor >= 1 {
            track_at(peeked.entries, peeked.cursor - 1)
        } else {
            None
        },
        start.moved_previous(moved, previous_track),
    ensures
        peeked_track == previous_track,
{
}

/// A refill only ever adds tracks of the pool.
pub proof fn law_refill_draws_from_pool(
    before: PlaybackQueueView,
    after: PlaybackQueueView,
    amount: nat,
)
    requires
        before.refilled_by(after, amount),
    ensures
        forall|i: int|
            0 <= i < added_track_ids(before, after).len() ==> before.pool.contains(
                #[trigger] added_track_ids(before, after)[i],
            ),
{
    let ids = added_track_ids(before, after);
    match before.order {
        PlaybackQueueOrder::Sequential => {
            let skip = last_anchor_position(before.entries, before.pool) + if before.entries.len()
                > 0 {
                1int
            } else {
                0int
            };
            let start = if before.repeating() && skip == before.pool.len() {
                0
            } else {
                skip
            };
            lemma_walk_forward_in_pool(before.pool, start, amount, before.repeating());
        },
        PlaybackQueueOrder::Shuffle => {
            broadcast use vstd::seq_lib::group_to_multiset_ensures;

            let candidates = before.shuffle_candidates();
            assert forall|i: int| 0 <= i < ids.len() implies before.pool.contains(
                #[trigger] ids[i],
            ) by {
                assert(ids.contains(ids[i]));
                assert(ids.to_multiset().count(ids[i]) > 0);
                assert(candidates.to_multiset().count(ids[i]) > 0);
                assert(candidates.contains(ids[i]));
                before.pool.lemma_filter_contains_rev(
                    |track_id: TrackId| !before.was_recently_played(track_id),
                    ids[i],
                );
            }
        },
    }
}

pub proof fn lemma_walk_forward_in_pool(pool: Seq<TrackId>, i: int, n: nat, repeating: bool)
    ensures
        forall|k: int|
            0 <= k < walk_forward(pool, i, n, repeating).len() ==> pool.contains(
                #[trigger] walk_forward(pool, i, n, repeating)[k],
            ),
    decreases n,
{
    if n > 0 && 0 <= i < pool.len() {
        let next = if repeating && i + 1 == pool.len() {
            0
        } else {
            i + 1
        };
        lemma_walk_forward_in_pool(pool, next, (n - 1) as nat, repeating);
        let rest = walk_forward(pool, next, (n - 1) as nat, repeating);
        assert forall|k: int| 0 <= k < walk_forward(pool, i, n, repeating).len() implies pool.contains(
            #[trigger] walk_forward(pool, i, n, repeating)[k],
        ) by {
            if k == 0 {
                assert(pool[i] == walk_forward(pool, i, n, repeating)[k]);
            } else {
                assert(walk_forward(pool, i, n, repeating)[k] == rest[k - 1]);
            }
        }
    }
}

pub proof fn lemma_user_run_bound(entries: Seq<PlaybackQueueEntry>, i: int)
    requires
        0 <= i <= entries.len(),
    ensures
        i + user_run(entries, i) <= entries.len(),
    decreases entries.len() - i,
{
    if i < entries.len() {
        lemma_user_run_bound(entries, i + 1);
    }
}

pub proof fn lemma_user_run_insert(
    entries: Seq<PlaybackQueueEntry>,
    i: int,
    at: int,
    entry: PlaybackQueueEntry,
)
    requires
        0 <= i <= at <= entries.len(),
        user_run(entries, i) == at - i,
        is_user_entry(entry),
    ensures
        user_run(entries.insert(at, entry), i) == at - i + 1,
    decreases at - i,
{
    let inserted = entries.insert(at, entry);
    if i == at {
        assert(inserted[at] == entry);
        if at + 1 < inserted.len() {
            assert(inserted[at + 1] == entries[at]);
        }
        assert(user_run(inserted, at + 1) == 0);
    } else {
        assert(inserted[i] == entries[i]);
        lemma_user_run_insert(entries, i + 1, at, entry);
    }
}

/// Tracks queued one after the other with `insert_next` are played in the
/// order they were queued: the second lands right after the first.
pub proof fn law_insert_next_keeps_order(
    view: PlaybackQueueView,
    first: TrackId,
    second: TrackId,
)
    requires
        view.cursor < view.entries.len(),
    ensures
        ({
            let at = view.next_insert_index();
            let once = view.inserted(at, first);
            let twice = once.inserted(once.next_insert_index(), second);
            &&& once.next_insert_index() == at + 1
            &&& twice.entries[at].track_id == first
            &&& twice.entries[at + 1].track_id == second
        }),
{
    let at = view.next_insert_index();
    lemma_user_run_bound(view.entries, view.cursor + 1int);
    let once = view.inserted(at, first);
    assert(once.cursor == view.cursor);
    lemma_user_run_insert(view.entries, view.cursor + 1int, at, once.entries[at]);
}

/// Removing the entry that was just inserted gives back the entries and the
/// cursor one started from; only the next identifier has moved on.
pub proof fn law_remove_undoes_insert(view: PlaybackQueueView, index: int, track_id: TrackId)
    requires
        view.cursor_valid(),
        0 <= index,
    ensures
        ({
            let at = if index < view.entries.len() {
                index
            } else {
                view.entries.len() as int
            };
            view.inserted(index, track_id).removed(at) == (PlaybackQueueView {
                next_id: view.next_id + 1,
                ..view
            })
        }),
{
    let at = if index < view.entries.len() {
        index
    } else {
        view.entries.len() as int
    };
    let inserted = view.inserted(index, track_id);
    assert(inserted.entries.remove(at) =~= view.entries);
}

/// With repeat off, a shuffled refill never adds a track that already occurs
/// anywhere in the queue, and once every pool track is in the queue it adds
/// nothing.
pub proof fn law_shuffled_refill_avoids_queued_tracks(
    before: PlaybackQueueView,
    after: PlaybackQueueView,
    amount: nat,
)
    requires
        !before.repeating(),
        after == before.appended(added_track_ids(before, after)),
        before.shuffle_admissible(added_track_ids(before, after), amount),
    ensures
        forall|i: int, j: int|
            0 <= i < before.entries.len() <= j < after.entries.len() ==> #[trigger] before.entries[i].track_id
                != #[trigger] after.entries[j].track_id,
        (forall|t: TrackId|
            before.pool.contains(t) ==> exists|i: int|
                0 <= i < before.entries.len() && #[trigger] before.entries[i].track_id == t)
            ==> after.entries.len() == before.entries.len(),
{
    broadcast use vstd::seq_lib::group_to_multiset_ensures;

    let ids = added_track_ids(before, after);
    let candidates = before.shuffle_candidates();
    let n = before.entries.len() as int;
    assert(after.entries.len() == n + ids.len());
    assert forall|k: int| 0 <= k < ids.len() implies #[trigger] candidates.contains(ids[k]) by {
        assert(ids.contains(ids[k]));
        assert(ids.to_multiset().count(ids[k]) > 0);
        assert(candidates.to_multiset().count(ids[k]) > 0);
    }
    assert forall|k: int| 0 <= k < ids.len() implies !before.was_recently_played(#[trigger] ids[k])
        && before.pool.contains(ids[k]) by {
        assert(candidates.contains(ids[k]));
        let c = choose|c: int| 0 <= c < candidates.len() && candidates[c] == ids[k];
        before.pool.lemma_filter_pred(|track_id: TrackId| !before.was_recently_played(track_id), c);
        before.pool.lemma_filter_contains_rev(
            |track_id: TrackId| !before.was_recently_played(track_id),
            ids[k],
        );
    }
    assert(before.recently_played() == before.entries);
    assert forall|i: int, j: int|
        0 <= i < before.entries.len() <= j < after.entries.len() implies #[trigger] before.entries[i].track_id
            != #[trigger] after.entries[j].track_id by {
        assert(after.entries[j].track_id == ids[j - n]);
        assert(!before.was_recently_played(ids[j - n]));
        if before.entries[i].track_id == ids[j - n] {
            assert(before.recently_played()[i].track_id == ids[j - n]);
        }
    }
    if (forall|t: TrackId|
        before.pool.contains(t) ==> exists|i: int|
            0 <= i < before.entries.len() && #[trigger] before.entries[i].track_id == t) && ids.len() > 0 {
        assert(!before.was_recently_played(ids[0]) && before.pool.contains(ids[0]));
        let i = choose|i: int| 0 <= i < before.entries.len() && #[trigger] before.entries[i].track_id == ids[0];
        assert(before.recently_played()[i].track_id == ids[0]);
    }
}

/// In sequential order, moving back from the first entry of a queue, when that
/// entry plays the pool track at position `p >= 1`, plays the pool track just
/// before it.
pub proof fn law_previous_plays_preceding_pool_track(
    before: PlaybackQueueView,
    after: PlaybackQueueView,
    result: Option<TrackId>,
    p: int,
)
    requires
        before.order == PlaybackQueueOrder::Sequential,
        before.cursor == 0,
        before.entries.len() > 0,
        before.entries[0].source == PlaybackQueueEntrySource::System,
        0 < p < before.pool.len(),
        before.pool[p] == before.entries[0].track_id,
        before.pool.no_duplicates(),
        before.moved_previous(after, result),
    ensures
        result == Some(before.pool[p - 1]),
{
    let pool = before.pool;
    let track_id = before.entries[0].track_id;
    assert(pool.contains(track_id));
    assert(is_first_index(pool, track_id, p));
    lemma_first_index(pool, track_id, p);
    assert(first_anchor_position(before.entries, pool) == p);
    let back = walk_back(pool, p - 1, PLAYBACK_QUEUE_LENGTH as nat, before.repeating());
    assert(back[0] == pool[p - 1]);
    let ids = before.sequential_previous_ids(PLAYBACK_QUEUE_LENGTH as nat);
    assert(ids == back.reverse());
    assert(ids.len() >= 1);
    assert(ids[ids.len() - 1] == pool[p - 1]);
    let generated = before.prepended(ids);
    assert(generated.entries[ids.len() - 1] == system_entries(ids, before.next_id)[ids.len() - 1]);
}

/// Pruning keeps the current entry, and every entry the user queued after it,
/// in the order they came.
pub proof fn law_prune_keeps_current_and_user_entries(view: PlaybackQueueView)
    requires
        view.cursor < view.entries.len(),
    ensures
        view.pruned().entries.len() > 0,
        view.pruned().entries[0] == view.entries[view.cursor as int],
        forall|j: int|
            view.cursor < j < view.entries.len() && is_user_entry(#[trigger] view.entries[j])
                ==> view.pruned().entries.contains(view.entries[j]),
        forall|i: int, j: int|
            view.cursor < i < j < view.entries.len() && is_user_entry(#[trigger] view.entries[i])
                && is_user_entry(#[trigger] view.entries[j]) ==> exists|a: int, b: int|
                0 <= a < b < view.pruned().entries.len() && view.pruned().entries[a]
                    == view.entries[i] && view.pruned().entries[b] == view.entries[j],
{
    let start = view.cursor as int;
    let tail = view.entries.skip(start);
    let keep = |entry: PlaybackQueueEntry|
        (tail.len() > 0 && entry.id == tail[0].id) || is_user_entry(entry);
    assert(view.pruned().entries == tail.filter(keep));
    assert(tail =~= seq![tail[0]] + tail.drop_first());
    tail.drop_first().lemma_filter_prepend(tail[0], keep);
    assert forall|j: int|
        view.cursor < j < view.entries.len() && is_user_entry(#[trigger] view.entries[j])
            implies view.pruned().entries.contains(view.entries[j]) by {
        assert(tail[j - start] == view.entries[j]);
        tail.lemma_filter_contains(keep, j - start);
    }
    assert forall|i: int, j: int|
        view.cursor < i < j < view.entries.len() && is_user_entry(#[trigger] view.entries[i])
            && is_user_entry(#[trigger] view.entries[j]) implies exists|a: int, b: int|
            0 <= a < b < view.pruned().entries.len() && view.pruned().entries[a] == view.entries[i]
                && view.pruned().entries[b] == view.entries[j] by {
        lemma_filter_keeps_order(tail, keep, i - start, j - start);
    }
}

/// Filtering keeps the order of two kept elements.
pub proof fn lemma_filter_keeps_order<A>(s: Seq<A>, keep: spec_fn(A) -> bool, i: int, j: int)
    requires
        0 <= i < j < s.len(),
        keep(s[i]),
        keep(s[j]),
    ensures
        exists|a: int, b: int|
            0 <= a < b < s.filter(keep).len() && s.filter(keep)[a] == s[i] && s.filter(keep)[b]
                == s[j],
    decreases s.len(),
{
    reveal(Seq::filter);
    let rest = s.drop_last();
    if j == s.len() - 1 {
        assert(rest[i] == s[i]);
        rest.lemma_filter_contains(keep, i);
        let a = choose|a: int| 0 <= a < rest.filter(keep).len() && rest.filter(keep)[a] == s[i];
        assert(s.filter(keep) == rest.filter(keep).push(s.last()));
        let b = rest.filter(keep).len() as int;
        assert(s.filter(keep)[a] == s[i] && s.filter(keep)[b] == s[j]);
    } else {
        assert(rest[i] == s[i] && rest[j] == s[j]);
        lemma_filter_keeps_order(rest, keep, i, j);
        let (a, b) = choose|a: int, b: int|
            0 <= a < b < rest.filter(keep).len() && rest.filter(keep)[a] == rest[i]
                && rest.filter(keep)[b] == rest[j];
        if keep(s.last()) {
            assert(s.filter(keep) == rest.filter(keep).push(s.last()));
        } else {
            assert(s.filter(keep) == rest.filter(keep));
        }
        assert(s.filter(keep)[a] == s[i] && s.filter(keep)[b] == s[j]);
    }
}

/// Without repeating, the pool is read forward from `i` with no wrap.
pub proof fn lemma_walk_forward_without_repeat(pool: Seq<TrackId>, i: int, n: nat)
    ensures
        walk_forward(pool, i, n, false).len() > 0 ==> 0 <= i && i + walk_forward(
            pool,
            i,
            n,
            false,
        ).len() <= pool.len(),
        forall|k: int|
            0 <= k < walk_forward(pool, i, n, false).len() ==> #[trigger] walk_forward(
                pool,
                i,
                n,
                false,
            )[k] == pool[i + k],
    decreases n,
{
    if n > 0 && 0 <= i < pool.len() {
        lemma_walk_forward_without_repeat(pool, i + 1, (n - 1) as nat);
        let w = walk_forward(pool, i, n, false);
        let rest = walk_forward(pool, i + 1, (n - 1) as nat, false);
        assert(w == seq![pool[i]] + rest);
        assert forall|k: int| 0 <= k < w.len() implies #[trigger] w[k] == pool[i + k] by {
            if k > 0 {
                assert(w[k] == rest[k - 1]);
            }
        }
    } else {
        assert(walk_forward(pool, i, n, false) == Seq::<TrackId>::empty());
    }
}

/// Switching repeat off in sequential order drops what repeating generated:
/// afterwards the system entries after the cursor read the pool forward
/// without wrapping, so no pool track comes up twice before the queue ends.
pub proof fn law_repeat_off_plays_each_pool_track_once(
    before: PlaybackQueueView,
    after: PlaybackQueueView,
)
    requires
        before.order == PlaybackQueueOrder::Sequential,
        before.repeating(),
        !before.repeat_mode.successor().repeats(),
        before.pool.no_duplicates(),
        before.ids_fresh(),
        before.repeat_mode_cycled().refilled_if_low(after),
    ensures
        forall|i: int, j: int|
            after.cursor < i < j < after.entries.len() && (#[trigger] after.entries[i]).source
                == PlaybackQueueEntrySource::System && (#[trigger] after.entries[j]).source
                == PlaybackQueueEntrySource::System ==> after.entries[i].track_id
                != after.entries[j].track_id,
{
    let cycled = PlaybackQueueView { repeat_mode: before.repeat_mode.successor(), ..before };
    let pruned = cycled.pruned();
    assert(before.repeat_mode_cycled() == pruned);
    assert(pruned.cursor == 0);
    let start = if cycled.cursor < cycled.entries.len() {
        cycled.cursor
    } else {
        cycled.entries.len()
    };
    let tail = cycled.entries.skip(start as int);
    let keep = |entry: PlaybackQueueEntry|
        (tail.len() > 0 && entry.id == tail[0].id) || is_user_entry(entry);
    assert(pruned.entries == tail.filter(keep));
    assert(ids_distinct(tail)) by {
        assert forall|a: int, b: int| 0 <= a < b < tail.len() implies #[trigger] tail[a].id
            != #[trigger] tail[b].id by {
            assert(tail[a] == before.entries[start + a]);
            assert(tail[b] == before.entries[start + b]);
        }
    }
    lemma_filter_keeps_ids_distinct(tail, keep);
    if tail.len() > 0 {
        assert(tail =~= seq![tail[0]] + tail.drop_first());
        tail.drop_first().lemma_filter_prepend(tail[0], keep);
        assert(pruned.entries[0] == tail[0]);
    } else {
        assert(tail.filter(keep).len() <= tail.len()) by {
            tail.lemma_filter_len(keep);
        }
    }
    assert forall|k: int| 0 < k < pruned.entries.len() implies is_user_entry(
        #[trigger] pruned.entries[k],
    ) by {
        tail.lemma_filter_pred(keep, k);
        assert(pruned.entries[k].id != pruned.entries[0].id);
    }
    let m = pruned.entries.len() as int;
    if pruned.remaining() <= PLAYBACK_QUEUE_LENGTH {
        let ids = added_track_ids(pruned, after);
        assert(ids == pruned.sequential_next_ids(PLAYBACK_QUEUE_LENGTH as nat));
        let skip = last_anchor_position(pruned.entries, pruned.pool) + if m > 0 {
            1int
        } else {
            0int
        };
        assert(ids == walk_forward(pruned.pool, skip, PLAYBACK_QUEUE_LENGTH as nat, false));
        lemma_walk_forward_without_repeat(pruned.pool, skip, PLAYBACK_QUEUE_LENGTH as nat);
        assert forall|i: int, j: int|
            after.cursor < i < j < after.entries.len() && (#[trigger] after.entries[i]).source
                == PlaybackQueueEntrySource::System && (#[trigger] after.entries[j]).source
                == PlaybackQueueEntrySource::System implies after.entries[i].track_id
                != after.entries[j].track_id by {
            if i < m {
                assert(after.entries[i] == pruned.entries[i]);
            } else {
                assert(after.entries[i] == system_entries(ids, pruned.next_id)[i - m]);
                assert(after.entries[j] == system_entries(ids, pruned.next_id)[j - m]);
                assert(ids[i - m] == pruned.pool[skip + i - m]);
                assert(ids[j - m] == pruned.pool[skip + j - m]);
            }
        }
    } else {
        assert(after == pruned);
    }
}

} // verus!
