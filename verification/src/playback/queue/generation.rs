use std::collections::VecDeque;

use vstd::prelude::*;

use crate::playback::queue::entry::{PlaybackQueueEntry, PlaybackQueueEntrySource, TrackId};
use crate::fx;
use crate::util::{first_index, lemma_first_index, position_of};
use crate::playback::queue::random::{sample_track_ids, shuffle_track_ids, thread_rng};
use crate::playback::queue::{PlaybackQueue, PlaybackQueueOrder, PlaybackQueueView};
use rustc_hash::FxHashSet;

verus! {

/// Direction in which the queue is extended from the track pool.
pub enum GenerationDirection {
    Next,
    Previous,
}

/// A system entry whose track belongs to the pool: it tells where in the pool
/// the sequential order stands.
pub open spec fn is_anchor(entry: PlaybackQueueEntry, pool: Seq<TrackId>) -> bool {
    entry.source == PlaybackQueueEntrySource::System && pool.contains(entry.track_id)
}

/// Pool position of the last anchor of the queue, or 0 if there is none.
pub open spec fn last_anchor_position(entries: Seq<PlaybackQueueEntry>, pool: Seq<TrackId>) -> int
    decreases entries.len(),
{
    if entries.len() == 0 {
        0
    } else if is_anchor(entries.last(), pool) {
        first_index(pool, entries.last().track_id)
    } else {
        last_anchor_position(entries.drop_last(), pool)
    }
}

/// Pool position of the first anchor of the queue, or 0 if there is none.
pub open spec fn first_anchor_position(entries: Seq<PlaybackQueueEntry>, pool: Seq<TrackId>) -> int
    decreases entries.len(),
{
    if entries.len() == 0 {
        0
    } else if is_anchor(entries.first(), pool) {
        first_index(pool, entries.first().track_id)
    } else {
        first_anchor_position(entries.drop_first(), pool)
    }
}

/// At most `n` tracks of the pool read forwards from index `i`, wrapping
/// around to the start when repeating.
pub open spec fn walk_forward(pool: Seq<TrackId>, i: int, n: nat, repeating: bool) -> Seq<TrackId>
    decreases n,
{
    if n == 0 || !(0 <= i < pool.len()) {
        Seq::empty()
    } else {
        seq![pool[i]] + walk_forward(
            pool,
            if repeating && i + 1 == pool.len() { 0 } else { i + 1 },
            (n - 1) as nat,
            repeating,
        )
    }
}

/// At most `n` tracks of the pool read backwards from index `i`, wrapping
/// around to the end when repeating.
pub open spec fn walk_back(pool: Seq<TrackId>, i: int, n: nat, repeating: bool) -> Seq<TrackId>
    decreases n,
{
    if n == 0 || !(0 <= i < pool.len()) {
        Seq::empty()
    } else {
        seq![pool[i]] + walk_back(
            pool,
            if repeating && i == 0 { pool.len() - 1 } else { i - 1 },
            (n - 1) as nat,
            repeating,
        )
    }
}

/// System entries for `track_ids`, numbered from `first_id` on.
pub open spec fn system_entries(track_ids: Seq<TrackId>, first_id: nat) -> Seq<PlaybackQueueEntry> {
    Seq::new(
        track_ids.len(),
        |i: int|
            PlaybackQueueEntry {
                id: (first_id + i) as u64,
                track_id: track_ids[i],
                source: PlaybackQueueEntrySource::System,
            },
    )
}

impl PlaybackQueueView {
    /// Tracks that sequential generation appends after the queue: the pool
    /// read from just after the last anchor (from the start when there is no
    /// entry yet).
    pub open spec fn sequential_next_ids(self, amount: nat) -> Seq<TrackId> {
        let skip = last_anchor_position(self.entries, self.pool) + if self.entries.len() > 0 {
            1int
        } else {
            0int
        };
        let start = if self.repeating() && skip == self.pool.len() {
            0
        } else {
            skip
        };
        walk_forward(self.pool, start, amount, self.repeating())
    }

    /// Tracks that sequential generation puts before the queue, in playing
    /// order: the pool read backwards from just before the first anchor,
    /// wrapping from the end when repeating.
    pub open spec fn sequential_previous_ids(self, amount: nat) -> Seq<TrackId> {
        let first = first_anchor_position(self.entries, self.pool);
        if self.pool.len() == 0 {
            Seq::empty()
        } else if first >= 1 {
            walk_back(self.pool, first - 1, amount, self.repeating()).reverse()
        } else if self.repeating() {
            walk_back(self.pool, self.pool.len() - 1, amount, self.repeating()).reverse()
        } else {
            Seq::empty()
        }
    }

    /// The queue after appending system entries for `track_ids`.
    pub open spec fn appended(self, track_ids: Seq<TrackId>) -> PlaybackQueueView {
        PlaybackQueueView {
            next_id: self.next_id + track_ids.len(),
            entries: self.entries + system_entries(track_ids, self.next_id),
            ..self
        }
    }

    /// The queue after prepending system entries for `track_ids`; the cursor
    /// keeps pointing at the same entry, or at the last new entry when the
    /// queue was empty.
    pub open spec fn prepended(self, track_ids: Seq<TrackId>) -> PlaybackQueueView {
        PlaybackQueueView {
            next_id: self.next_id + track_ids.len(),
            entries: system_entries(track_ids, self.next_id) + self.entries,
            cursor: if track_ids.len() == 0 {
                self.cursor
            } else if self.entries.len() == 0 {
                (self.cursor + track_ids.len() - 1) as nat
            } else {
                self.cursor + track_ids.len()
            },
            ..self
        }
    }
    /// Entries whose tracks a shuffled refill avoids: when repeating, the last
    /// half pool length of entries (all of them if there are fewer); otherwise
    /// every entry.
    pub open spec fn recently_played(self) -> Seq<PlaybackQueueEntry> {
        let half = self.pool.len() / 2;
        if self.repeating() && self.entries.len() >= half {
            self.entries.skip(self.entries.len() - half)
        } else {
            self.entries
        }
    }

    pub open spec fn was_recently_played(self, track_id: TrackId) -> bool {
        exists|i: int|
            0 <= i < self.recently_played().len() && #[trigger] self.recently_played()[i].track_id
                == track_id
    }

    /// Pool tracks a shuffled refill may draw from.
    pub open spec fn shuffle_candidates(self) -> Seq<TrackId> {
        self.pool.filter(|track_id: TrackId| !self.was_recently_played(track_id))
    }

    /// `track_ids` is a possible outcome of a shuffled refill of `amount`
    /// tracks: as many candidates as there are or `amount` of them, each drawn
    /// at most as often as it occurs among the candidates.
    pub open spec fn shuffle_admissible(self, track_ids: Seq<TrackId>, amount: nat) -> bool {
        let candidates = self.shuffle_candidates();
        &&& track_ids.len() == if amount < candidates.len() {
            amount
        } else {
            candidates.len()
        }
        &&& track_ids.to_multiset().subset_of(candidates.to_multiset())
    }

    /// `track_ids` is a possible outcome of refilling `amount` tracks after the
    /// queue in its current order.
    pub open spec fn next_ids_admissible(self, amount: nat, track_ids: Seq<TrackId>) -> bool {
        match self.order {
            PlaybackQueueOrder::Sequential => track_ids == self.sequential_next_ids(amount),
            PlaybackQueueOrder::Shuffle => self.shuffle_admissible(track_ids, amount),
        }
    }

    /// `after` is the queue with `amount` tracks refilled after its entries.
    pub open spec fn refilled_by(self, after: PlaybackQueueView, amount: nat) -> bool {
        let track_ids = added_track_ids(self, after);
        &&& after == self.appended(track_ids)
        &&& self.next_ids_admissible(amount, track_ids)
    }

    /// `after` is the queue after generating previous entries: sequential
    /// generation prepends, shuffled generation leaves the queue as it is.
    pub open spec fn previous_generated(self, after: PlaybackQueueView, amount: nat) -> bool {
        match self.order {
            PlaybackQueueOrder::Sequential => after == self.prepended(
                self.sequential_previous_ids(amount),
            ),
            PlaybackQueueOrder::Shuffle => after == self,
        }
    }
}

/// Tracks of the entries that `after` holds beyond those of `before`.
pub open spec fn added_track_ids(before: PlaybackQueueView, after: PlaybackQueueView) -> Seq<TrackId> {
    after.entries.skip(before.entries.len() as int).map_values(|entry: PlaybackQueueEntry| entry.track_id)
}

pub proof fn lemma_appended_added(view: PlaybackQueueView, track_ids: Seq<TrackId>)
    ensures
        added_track_ids(view, view.appended(track_ids)) == track_ids,
{
    assert(added_track_ids(view, view.appended(track_ids)) =~= track_ids);
}


impl PlaybackQueue {
    /// Gets the track pool position for sequential generation depending on the
    /// direction we are generating:
    ///
    /// - If we are generating the next tracks, we get the last track pool system entry in the queue.
    /// - If we are generating the previous tracks, we get the first track pool system entry in the queue
    pub fn get_track_pool_position(&self, generation_direction: GenerationDirection) -> (position:
        usize)
        ensures
            position == match generation_direction {
                GenerationDirection::Next => last_anchor_position(self@.entries, self@.pool),
                GenerationDirection::Previous => first_anchor_position(self@.entries, self@.pool),
            },
            position == 0 || position < self@.pool.len(),
    {
        let ghost entries = self@.entries;
        let ghost pool = self@.pool;
        match generation_direction {
            GenerationDirection::Next => {
                let mut i = self.entries.len();
                assert(entries.take(i as int) =~= entries);
                while i > 0
                    invariant
                        i <= entries.len(),
                        entries == self.entries@,
                        entries == self@.entries,
                        pool == self@.pool,
                        pool == self.track_pool@,
                        generation_direction is Next,
                        last_anchor_position(entries, pool) == last_anchor_position(
                            entries.take(i as int),
                            pool,
                        ),
                    decreases i,
                {
                    let entry = self.entries[i - 1];
                    let prefix = Ghost(entries.take(i as int));
                    assert(prefix@.last() == entry);
                    if matches!(entry.source, PlaybackQueueEntrySource::System) {
                        if let Some(position) = position_of(&self.track_pool, entry.track_id) {
                            proof {
                                lemma_first_index(pool, entry.track_id, position as int);
                                assert(is_anchor(prefix@.last(), pool));
                            }
                            return position;
                        }
                    }
                    assert(prefix@.drop_last() =~= entries.take(i - 1));
                    i -= 1;
                }
                0
            },
            GenerationDirection::Previous => {
                let mut i: usize = 0;
                assert(entries.skip(0) =~= entries);
                while i < self.entries.len()
                    invariant
                        i <= entries.len(),
                        entries == self.entries@,
                        entries == self@.entries,
                        pool == self@.pool,
                        pool == self.track_pool@,
                        generation_direction is Previous,
                        first_anchor_position(entries, pool) == first_anchor_position(
                            entries.skip(i as int),
                            pool,
                        ),
                    decreases entries.len() - i,
                {
                    let entry = self.entries[i];
                    let suffix = Ghost(entries.skip(i as int));
                    assert(suffix@.first() == entry);
                    if matches!(entry.source, PlaybackQueueEntrySource::System) {
                        if let Some(position) = position_of(&self.track_pool, entry.track_id) {
                            proof {
                                lemma_first_index(pool, entry.track_id, position as int);
                                assert(is_anchor(entry, pool));
                            }
                            return position;
                        }
                    }
                    assert(suffix@.drop_first() =~= entries.skip(i + 1));
                    i += 1;
                }
                0
            },
        }
    }

    /// Appends up to `amount` system entries read sequentially from the track
    /// pool after the last anchor.
    pub fn generate_next_entries_sequentially(&mut self, amount: usize)
        requires
            old(self)@.has_id_room(amount as nat),
        ensures
            final(self)@ == old(self)@.appended(old(self)@.sequential_next_ids(amount as nat)),
    {
        let ghost old_view = self@;
        let track_pool_position = self.get_track_pool_position(GenerationDirection::Next);
        let pool_len = self.track_pool.len();
        let repeating = self.repeat_mode.is_repeating();
        let skip = track_pool_position + if self.entries.len() > 0 {
            1usize
        } else {
            0usize
        };
        let start = if repeating && skip == pool_len {
            0
        } else {
            skip
        };
        let ghost target = old_view.sequential_next_ids(amount as nat);
        let ghost pool = old_view.pool;
        let mut index = start;
        let mut count: usize = 0;
        let ghost mut added: Seq<TrackId> = Seq::empty();
        assert(target == walk_forward(pool, start as int, amount as nat, repeating));
        assert(added + target =~= target);
        while count < amount && index < pool_len
            invariant
                count <= amount,
                pool_len == pool.len(),
                pool == self.track_pool@,
                repeating == old_view.repeating(),
                added.len() == count,
                added + walk_forward(pool, index as int, (amount - count) as nat, repeating)
                    == target,
                self@ == old_view.appended(added),
                self.next_entry_id as nat == old_view.next_id + count,
                old_view.next_id + amount <= u64::MAX,
            decreases amount - count,
        {
            let track_id = self.track_pool[index];
            let id = self.get_next_entry_id();
            self.entries.push_back(PlaybackQueueEntry::system(id, track_id));
            let ghost next_index = if repeating && index + 1 == pool_len {
                0int
            } else {
                index + 1
            };
            assert(walk_forward(pool, index as int, (amount - count) as nat, repeating) == seq![
                track_id,
            ] + walk_forward(pool, next_index, (amount - count - 1) as nat, repeating));
            proof {
                assert((added + seq![track_id]) + walk_forward(
                    pool,
                    next_index,
                    (amount - count - 1) as nat,
                    repeating,
                ) =~= added + (seq![track_id] + walk_forward(
                    pool,
                    next_index,
                    (amount - count - 1) as nat,
                    repeating,
                )));
                assert(system_entries(added + seq![track_id], old_view.next_id) =~= system_entries(
                    added,
                    old_view.next_id,
                ).push(PlaybackQueueEntry { id, track_id, source: PlaybackQueueEntrySource::System }));
                added = added + seq![track_id];
            }
            index = if repeating && index + 1 == pool_len {
                0
            } else {
                index + 1
            };
            count += 1;
            assert(self@.entries =~= old_view.appended(added).entries);
        }
        assert(added =~= target);
    }

    /// Prepends up to `amount` system entries read backwards from the track
    /// pool before the first anchor, keeping the cursor on the same entry.
    pub fn generate_previous_entries_sequentially(&mut self, amount: usize)
        requires
            old(self)@.has_id_room(amount as nat),
            old(self)@.cursor + amount <= usize::MAX,
        ensures
            final(self)@ == old(self)@.prepended(old(self)@.sequential_previous_ids(amount as nat)),
    {
        let ghost old_view = self@;
        let ghost pool = old_view.pool;
        if self.track_pool.len() == 0 {
            return;
        }
        let pool_len = self.track_pool.len();
        let repeating = self.repeat_mode.is_repeating();
        let first_position = self.get_track_pool_position(GenerationDirection::Previous);
        let start = if first_position >= 1 {
            first_position - 1
        } else if repeating {
            pool_len - 1
        } else {
            return ;
        };
        let ghost walked = walk_back(pool, start as int, amount as nat, repeating);
        assert(old_view.sequential_previous_ids(amount as nat) == walked.reverse());
        // Tracks in the order they are read, that is latest first.
        let mut reversed: Vec<TrackId> = Vec::new();
        let mut index = start;
        let mut exhausted = false;
        let mut count: usize = 0;
        assert(reversed@ + walked =~= walked);
        while count < amount && !exhausted
            invariant
                count <= amount,
                reversed@.len() == count,
                pool_len == pool.len(),
                pool == self.track_pool@,
                self@ == old_view,
                repeating == old_view.repeating(),
                exhausted || index < pool_len,
                reversed@ + walk_back(
                    pool,
                    if exhausted { -1 } else { index as int },
                    (amount - count) as nat,
                    repeating,
                ) == walked,
            decreases amount - count,
        {
            let track_id = self.track_pool[index];
            let ghost next_index = if repeating && index == 0 {
                pool_len - 1
            } else {
                index - 1
            };
            assert(walk_back(pool, index as int, (amount - count) as nat, repeating) == seq![track_id]
                + walk_back(pool, next_index, (amount - count - 1) as nat, repeating));
            assert((reversed@.push(track_id)) + walk_back(
                pool,
                next_index,
                (amount - count - 1) as nat,
                repeating,
            ) =~= reversed@ + (seq![track_id] + walk_back(
                pool,
                next_index,
                (amount - count - 1) as nat,
                repeating,
            )));
            reversed.push(track_id);
            if index == 0 {
                if repeating {
                    index = pool_len - 1;
                } else {
                    exhausted = true;
                }
            } else {
                index -= 1;
            }
            count += 1;
        }
        assert(reversed@ =~= walked);
        let ghost ids = walked.reverse();
        let added = reversed.len();
        let mut previous_entries: VecDeque<PlaybackQueueEntry> = VecDeque::new();
        let mut j: usize = 0;
        while j < added
            invariant
                j <= added,
                added == reversed@.len(),
                ids == reversed@.reverse(),
                previous_entries@ == system_entries(ids.take(j as int), old_view.next_id),
                self@ == (PlaybackQueueView { next_id: old_view.next_id + j as nat, ..old_view }),
                old_view.next_id + added <= u64::MAX,
                added <= amount,
                old_view.cursor + amount <= usize::MAX,
            decreases added - j,
        {
            let track_id = reversed[added - 1 - j];
            let id = self.get_next_entry_id();
            previous_entries.push_back(PlaybackQueueEntry::system(id, track_id));
            assert(system_entries(ids.take(j + 1), old_view.next_id) =~= system_entries(
                ids.take(j as int),
                old_view.next_id,
            ).push(
                PlaybackQueueEntry { id, track_id, source: PlaybackQueueEntrySource::System },
            ));
            j += 1;
        }
        assert(ids.take(added as int) =~= ids);
        if added > 0 {
            if self.entries.len() > 0 {
                self.cursor += added;
            } else {
                self.cursor += added - 1;
            }
        }
        previous_entries.append(&mut self.entries);
        self.entries = previous_entries;
    }

    /// Appends up to `amount` system entries drawn at random from the pool
    /// tracks that were not played recently.
    pub fn generate_next_entries_shuffled(&mut self, amount: usize)
        requires
            old(self)@.has_id_room(amount as nat),
        ensures
            final(self)@ == old(self)@.appended(added_track_ids(old(self)@, final(self)@)),
            old(self)@.shuffle_admissible(added_track_ids(old(self)@, final(self)@), amount as nat),
    {
        let ghost old_view = self@;
        let mut rng = thread_rng();
        let pool_len = self.track_pool.len();
        let entries_len = self.entries.len();
        let half = pool_len / 2;
        let from = if self.repeat_mode.is_repeating() && entries_len >= half {
            entries_len - half
        } else {
            0
        };
        let ghost recent = old_view.recently_played();
        assert(recent =~= old_view.entries.skip(from as int));
        let mut played: FxHashSet<TrackId> = FxHashSet::default();
        let mut k = from;
        while k < entries_len
            invariant
                from <= k <= entries_len,
                entries_len == old_view.entries.len(),
                self@ == old_view,
                recent == old_view.entries.skip(from as int),
                forall|t: TrackId|
                    played@.contains(t) <==> exists|i: int|
                        from <= i < k && #[trigger] old_view.entries[i].track_id == t,
            decreases entries_len - k,
        {
            let track_id = self.entries[k].track_id;
            fx::set_insert(&mut played, track_id);
            assert forall|t: TrackId|
                played@.contains(t) <==> exists|i: int|
                    from <= i < k + 1 && #[trigger] old_view.entries[i].track_id == t by {
                if t == track_id {
                    assert(old_view.entries[k as int].track_id == t);
                }
            }
            k += 1;
        }
        assert forall|t: TrackId| played@.contains(t) <==> old_view.was_recently_played(t) by {
            if played@.contains(t) {
                let i = choose|i: int| from <= i < entries_len && #[trigger] old_view.entries[i].track_id == t;
                assert(recent[i - from].track_id == t);
            }
            if old_view.was_recently_played(t) {
                let i = choose|i: int| 0 <= i < recent.len() && #[trigger] recent[i].track_id == t;
                assert(old_view.entries[from + i].track_id == t);
            }
        }
        let ghost pool = old_view.pool;
        let ghost not_played = |track_id: TrackId| !old_view.was_recently_played(track_id);
        let mut candidates: Vec<TrackId> = Vec::new();
        let mut i: usize = 0;
        assert(pool.take(0).filter(not_played) =~= Seq::<TrackId>::empty()) by {
            reveal(Seq::filter);
        }
        while i < pool_len
            invariant
                i <= pool_len,
                pool_len == pool.len(),
                self@ == old_view,
                self.track_pool@ == pool,
                forall|t: TrackId| played@.contains(t) <==> old_view.was_recently_played(t),
                forall|t: TrackId| #[trigger] not_played(t) == !old_view.was_recently_played(t),
                candidates@ == pool.take(i as int).filter(not_played),
            decreases pool_len - i,
        {
            let track_id = self.track_pool[i];
            assert(pool.take(i + 1).drop_last() =~= pool.take(i as int));
            assert(pool.take(i + 1).last() == track_id);
            reveal(Seq::filter);
            if !fx::set_contains(&played, track_id) {
                candidates.push(track_id);
                assert(not_played(track_id));
            } else {
                assert(!not_played(track_id));
            }
            i += 1;
        }
        assert(pool.take(pool_len as int) =~= pool);
        assert(old_view.shuffle_candidates() == pool.filter(not_played)) by {
            assert(not_played =~= (|track_id: TrackId| !old_view.was_recently_played(track_id)));
        }
        let mut track_ids = sample_track_ids(&mut rng, candidates, amount);
        let ghost sampled = track_ids@;
        shuffle_track_ids(&mut rng, &mut track_ids);
        let count = track_ids.len();
        let mut j: usize = 0;
        assert(track_ids@.take(0) =~= Seq::<TrackId>::empty());
        assert(old_view.appended(Seq::empty()) =~= old_view);
        while j < count
            invariant
                j <= count,
                count == track_ids@.len(),
                count <= amount,
                old_view.next_id + amount <= u64::MAX,
                self@ == old_view.appended(track_ids@.take(j as int)),
            decreases count - j,
        {
            let track_id = track_ids[j];
            let id = self.get_next_entry_id();
            self.entries.push_back(PlaybackQueueEntry::system(id, track_id));
            assert(system_entries(track_ids@.take(j + 1), old_view.next_id) =~= system_entries(
                track_ids@.take(j as int),
                old_view.next_id,
            ).push(PlaybackQueueEntry { id, track_id, source: PlaybackQueueEntrySource::System }));
            assert(self@.entries =~= old_view.appended(track_ids@.take(j + 1)).entries);
            j += 1;
        }
        assert(track_ids@.take(count as int) =~= track_ids@);
        proof {
            lemma_appended_added(old_view, track_ids@);
        }
    }

    /// Appends up to `amount` entries after the queue, following its order.
    pub fn generate_next_entries(&mut self, amount: usize)
        requires
            old(self)@.has_id_room(amount as nat),
        ensures
            old(self)@.refilled_by(final(self)@, amount as nat),
    {
        match self.order {
            PlaybackQueueOrder::Sequential => {
                self.generate_next_entries_sequentially(amount);
                proof {
                    lemma_appended_added(old(self)@, old(self)@.sequential_next_ids(amount as nat));
                }
            },
            PlaybackQueueOrder::Shuffle => self.generate_next_entries_shuffled(amount),
        }
    }

    /// Prepends up to `amount` entries before the queue when its order is
    /// sequential; a shuffled queue has no previous tracks to generate.
    pub fn generate_previous_entries(&mut self, amount: usize)
        requires
            old(self)@.has_id_room(amount as nat),
            old(self)@.cursor + amount <= usize::MAX,
        ensures
            old(self)@.previous_generated(final(self)@, amount as nat),
    {
        match self.order {
            PlaybackQueueOrder::Sequential => self.generate_previous_entries_sequentially(amount),
            PlaybackQueueOrder::Shuffle => {},
        }
    }
}

} // verus!
