pub mod entry;
pub mod generation;
pub mod handler;
pub mod laws;
pub mod random;

use std::collections::VecDeque;

use vstd::prelude::*;

use crate::constants::PLAYBACK_QUEUE_LENGTH;
use crate::playback::queue::entry::{
    PlaybackQueueEntry, PlaybackQueueEntryId, PlaybackQueueEntrySource, TrackId,
};
use crate::playback::queue::generation::added_track_ids;
use crate::playback::queue::laws::{
    lemma_inserted_fresh, lemma_previous_if_at_start_keeps_invariants, lemma_pruned_fresh,
    lemma_refilled_if_low_keeps_invariants, lemma_removed_fresh, lemma_truncated_fresh,
};

verus! {

/// Errors of the playback queue operations.
#[derive(Debug, Clone, Copy, PartialEq, Eq, Structural)]
pub enum PlaybackQueueError {
    /// Attempted to remove queued track beyond queue length.
    InvalidQueueRemovePosition,
}

/// The queue of tracks to be played: a sequence of entries with a cursor on the
/// current one, refilled from a pool of tracks.
#[derive(Debug, Clone)]
pub struct PlaybackQueue {
    /// Incrementing unique identifier granted to each queue entry upon creation.
    next_entry_id: u64,
    /// Current position in the queue.
    pub cursor: usize,
    /// The entries of the queue.
    pub entries: VecDeque<PlaybackQueueEntry>,
    /// The list of track ids from which the queue picks, assumed non-repeating.
    track_pool: Vec<TrackId>,
    pub repeat_mode: PlaybackRepeatMode,
    pub order: PlaybackQueueOrder,
}

#[derive(Debug, Clone, Copy, PartialEq, Eq, Structural)]
pub enum PlaybackRepeatMode {
    NoRepeat,
    Repeat,
    RepeatOne,
}

#[derive(Debug, Clone, Copy, PartialEq, Eq, Structural)]
pub enum PlaybackQueueOrder {
    Sequential,
    Shuffle,
}

impl PlaybackRepeatMode {
    pub open spec fn repeats(self) -> bool {
        self is Repeat || self is RepeatOne
    }

    pub open spec fn successor(self) -> Self {
        match self {
            PlaybackRepeatMode::NoRepeat => PlaybackRepeatMode::Repeat,
            PlaybackRepeatMode::Repeat => PlaybackRepeatMode::RepeatOne,
            PlaybackRepeatMode::RepeatOne => PlaybackRepeatMode::NoRepeat,
        }
    }

    pub fn is_repeating(&self) -> (r: bool)
        ensures
            r == self.repeats(),
    {
        match self {
            PlaybackRepeatMode::NoRepeat => false,
            PlaybackRepeatMode::Repeat | PlaybackRepeatMode::RepeatOne => true,
        }
    }

    pub fn next(&self) -> (mode: Self)
        ensures
            mode == self.successor(),
    {
        match self {
            PlaybackRepeatMode::NoRepeat => PlaybackRepeatMode::Repeat,
            PlaybackRepeatMode::Repeat => PlaybackRepeatMode::RepeatOne,
            PlaybackRepeatMode::RepeatOne => PlaybackRepeatMode::NoRepeat,
        }
    }
}

impl PlaybackQueueOrder {
    pub open spec fn successor(self) -> Self {
        match self {
            PlaybackQueueOrder::Sequential => PlaybackQueueOrder::Shuffle,
            PlaybackQueueOrder::Shuffle => PlaybackQueueOrder::Sequential,
        }
    }

    pub fn next(&self) -> (order: Self)
        ensures
            order == self.successor(),
    {
        match self {
            PlaybackQueueOrder::Sequential => PlaybackQueueOrder::Shuffle,
            PlaybackQueueOrder::Shuffle => PlaybackQueueOrder::Sequential,
        }
    }
}

/// Cycling the repeat mode three times gives back the mode one started from.
pub proof fn law_repeat_mode_cycle(mode: PlaybackRepeatMode)
    ensures
        mode.successor().successor().successor() == mode,
{
}

/// Cycling the queue order twice gives back the order one started from.
pub proof fn law_queue_order_cycle(order: PlaybackQueueOrder)
    ensures
        order.successor().successor() == order,
{
}

/// Mathematical state of a playback queue.
pub struct PlaybackQueueView {
    pub next_id: nat,
    pub cursor: nat,
    pub entries: Seq<PlaybackQueueEntry>,
    pub pool: Seq<TrackId>,
    pub repeat_mode: PlaybackRepeatMode,
    pub order: PlaybackQueueOrder,
}

impl View for PlaybackQueue {
    type V = PlaybackQueueView;

    closed spec fn view(&self) -> PlaybackQueueView {
        PlaybackQueueView {
            next_id: self.next_entry_id as nat,
            cursor: self.cursor as nat,
            entries: self.entries@,
            pool: self.track_pool@,
            repeat_mode: self.repeat_mode,
            order: self.order,
        }
    }
}

/// `i` is the first index of an entry with id `entry_id`.
pub open spec fn is_entry_index(entries: Seq<PlaybackQueueEntry>, entry_id: PlaybackQueueEntryId, i: int) -> bool {
    &&& 0 <= i < entries.len()
    &&& entries[i].id == entry_id
    &&& forall|j: int| 0 <= j < i ==> entries[j].id != entry_id
}

/// Index of the first entry with id `entry_id`, if there is one.
pub open spec fn entry_index(entries: Seq<PlaybackQueueEntry>, entry_id: PlaybackQueueEntryId) -> Option<int> {
    if exists|i: int| is_entry_index(entries, entry_id, i) {
        Some(choose|i: int| is_entry_index(entries, entry_id, i))
    } else {
        None
    }
}

/// An entry id has at most one first index.
pub proof fn lemma_entry_index(entries: Seq<PlaybackQueueEntry>, entry_id: PlaybackQueueEntryId, i: int)
    requires
        is_entry_index(entries, entry_id, i),
    ensures
        entry_index(entries, entry_id) == Some(i),
{
    let k = choose|k: int| is_entry_index(entries, entry_id, k);
    assert(is_entry_index(entries, entry_id, k));
    if k < i {
        assert(entries[k].id != entry_id);
    } else if i < k {
        assert(entries[i].id != entry_id);
    }
}

/// Track of the entry at index `i`, if there is one.
pub open spec fn track_at(entries: Seq<PlaybackQueueEntry>, i: int) -> Option<TrackId> {
    if 0 <= i < entries.len() {
        Some(entries[i].track_id)
    } else {
        None
    }
}

impl PlaybackQueueView {
    pub open spec fn repeating(self) -> bool {
        self.repeat_mode.repeats()
    }

    /// Number of entries from the cursor to the end of the queue.
    pub open spec fn remaining(self) -> nat {
        if self.entries.len() >= self.cursor {
            (self.entries.len() - self.cursor) as nat
        } else {
            0
        }
    }

    /// The entries hold distinct identifiers, all below the next identifier.
    pub open spec fn ids_fresh(self) -> bool {
        &&& forall|i: int| 0 <= i < self.entries.len() ==> #[trigger] self.entries[i].id < self.next_id
        &&& forall|i: int, j: int|
            0 <= i < j < self.entries.len() ==> #[trigger] self.entries[i].id
                != #[trigger] self.entries[j].id
    }

    /// The cursor points at an entry, or is zero on an empty queue.
    pub open spec fn cursor_valid(self) -> bool {
        self.cursor < self.entries.len() || (self.entries.len() == 0 && self.cursor == 0)
    }

    /// The queue can grant `n` more identifiers without overflowing.
    pub open spec fn has_id_room(self, n: nat) -> bool {
        self.next_id + n <= u64::MAX
    }
}


/// Number of consecutive user entries starting at index `i`.
pub open spec fn user_run(entries: Seq<PlaybackQueueEntry>, i: int) -> nat
    decreases entries.len() - i,
{
    if 0 <= i < entries.len() && entries[i].source == PlaybackQueueEntrySource::User {
        1 + user_run(entries, i + 1)
    } else {
        0
    }
}

pub open spec fn is_user_entry(entry: PlaybackQueueEntry) -> bool {
    entry.source == PlaybackQueueEntrySource::User
}

impl PlaybackQueueView {
    /// The queue refilled after its entries when at most a queue length of
    /// entries remains from the cursor on; unchanged otherwise.
    pub open spec fn refilled_if_low(self, after: PlaybackQueueView) -> bool {
        if self.remaining() <= PLAYBACK_QUEUE_LENGTH {
            self.refilled_by(after, PLAYBACK_QUEUE_LENGTH as nat)
        } else {
            after == self
        }
    }

    /// Previous entries generated when the cursor is on the first entry;
    /// unchanged otherwise.
    pub open spec fn previous_if_at_start(self, after: PlaybackQueueView) -> bool {
        if self.cursor == 0 {
            self.previous_generated(after, PLAYBACK_QUEUE_LENGTH as nat)
        } else {
            after == self
        }
    }

    /// `after` and `result` are what moving to the next track gives: a refill
    /// when few entries remain, then the entry after the cursor, onto which
    /// the cursor moves if it exists.
    pub open spec fn moved_next(self, after: PlaybackQueueView, result: Option<TrackId>) -> bool {
        &&& self.refilled_if_low(PlaybackQueueView { cursor: self.cursor, ..after })
        &&& result == track_at(after.entries, self.cursor + 1int)
        &&& after.cursor == if result is Some {
            self.cursor + 1
        } else {
            self.cursor
        }
    }

    /// `after` and `result` are what moving to the previous track gives:
    /// previous entries generated when at the first entry, then the entry
    /// before the cursor, onto which the cursor moves if it exists.
    pub open spec fn moved_previous(self, after: PlaybackQueueView, result: Option<TrackId>) -> bool {
        let generated = PlaybackQueueView {
            cursor: if result is Some {
                after.cursor + 1
            } else {
                after.cursor
            },
            ..after
        };
        &&& self.previous_if_at_start(generated)
        &&& result == if generated.cursor >= 1 {
            track_at(generated.entries, generated.cursor - 1)
        } else {
            None
        }
    }

    /// The queue with a user entry for `track_id` inserted at `index`, or at
    /// the end when `index` is beyond it; the cursor keeps to its entry, within
    /// the queue.
    pub open spec fn inserted(self, index: int, track_id: TrackId) -> PlaybackQueueView {
        let at = if index < self.entries.len() {
            index
        } else {
            self.entries.len() as int
        };
        let entries = self.entries.insert(
            at,
            PlaybackQueueEntry {
                id: self.next_id as u64,
                track_id,
                source: PlaybackQueueEntrySource::User,
            },
        );
        PlaybackQueueView {
            next_id: self.next_id + 1,
            entries,
            cursor: if at <= self.cursor {
                if self.cursor + 1 < entries.len() {
                    self.cursor + 1
                } else {
                    (entries.len() - 1) as nat
                }
            } else {
                self.cursor
            },
            ..self
        }
    }

    /// Index after the run of user entries that directly follows the cursor.
    pub open spec fn next_insert_index(self) -> int {
        self.cursor + user_run(self.entries, self.cursor + 1int) + 1int
    }

    /// The queue without the entry at `index`; the cursor keeps to its entry
    /// and stays within the queue.
    pub open spec fn removed(self, index: int) -> PlaybackQueueView {
        let entries = self.entries.remove(index);
        let cursor = if index < self.cursor {
            (self.cursor - 1) as nat
        } else {
            self.cursor
        };
        PlaybackQueueView {
            entries,
            cursor: if entries.len() == 0 {
                0
            } else if cursor < entries.len() {
                cursor
            } else {
                (entries.len() - 1) as nat
            },
            ..self
        }
    }

    /// The queue started over `pool`, holding only an entry for
    /// `first`, if given.
    pub open spec fn started(self, pool: Seq<TrackId>, first: Option<TrackId>) -> PlaybackQueueView {
        PlaybackQueueView {
            next_id: if first is Some {
                self.next_id + 1
            } else {
                self.next_id
            },
            cursor: 0,
            entries: match first {
                Some(track_id) => seq![
                    PlaybackQueueEntry {
                        id: self.next_id as u64,
                        track_id,
                        source: PlaybackQueueEntrySource::System,
                    },
                ],
                None => Seq::empty(),
            },
            pool,
            ..self
        }
    }

    /// The cursor set to `cursor`, kept within the queue.
    pub open spec fn with_cursor(self, cursor: nat) -> PlaybackQueueView {
        PlaybackQueueView {
            cursor: if self.entries.len() == 0 {
                0
            } else if cursor < self.entries.len() {
                cursor
            } else {
                (self.entries.len() - 1) as nat
            },
            ..self
        }
    }

    /// The queue without the system entries after the cursor.
    pub open spec fn truncated(self) -> PlaybackQueueView {
        let kept = self.cursor + 1;
        PlaybackQueueView {
            entries: self.entries.take(kept as int) + self.entries.skip(kept as int).filter(
                |entry: PlaybackQueueEntry| is_user_entry(entry),
            ),
            ..self
        }
    }

    /// The queue reduced to the current entry and the user entries after it,
    /// with the cursor on its first entry.
    pub open spec fn pruned(self) -> PlaybackQueueView {
        let start = if self.cursor < self.entries.len() {
            self.cursor
        } else {
            self.entries.len()
        };
        let tail = self.entries.skip(start as int);
        PlaybackQueueView {
            entries: tail.filter(
                |entry: PlaybackQueueEntry|
                    (tail.len() > 0 && entry.id == tail[0].id) || is_user_entry(entry),
            ),
            cursor: 0,
            ..self
        }
    }

    /// The state from which `cycle_repeat_mode` refills: the next repeat mode,
    /// with the upcoming system entries dropped when the mode switches between
    /// repeating and not repeating.
    pub open spec fn repeat_mode_cycled(self) -> PlaybackQueueView {
        let cycled = PlaybackQueueView { repeat_mode: self.repeat_mode.successor(), ..self };
        if self.repeating() != cycled.repeating() {
            match self.order {
                PlaybackQueueOrder::Sequential => cycled.pruned(),
                PlaybackQueueOrder::Shuffle => cycled.truncated(),
            }
        } else {
            cycled
        }
    }
}

impl PlaybackQueue {
    pub fn new() -> (queue: Self)
        ensures
            queue@.next_id == 0,
            queue@.cursor == 0,
            queue@.entries == Seq::<PlaybackQueueEntry>::empty(),
            queue@.pool == Seq::<TrackId>::empty(),
            queue@.repeat_mode == PlaybackRepeatMode::NoRepeat,
            queue@.order == PlaybackQueueOrder::Sequential,
            queue@.ids_fresh(),
            queue@.cursor_valid(),
    {
        Self {
            next_entry_id: 0,
            cursor: 0,
            entries: VecDeque::new(),
            track_pool: Vec::new(),
            repeat_mode: PlaybackRepeatMode::NoRepeat,
            order: PlaybackQueueOrder::Sequential,
        }
    }

    fn get_next_entry_id(&mut self) -> (id: u64)
        requires
            old(self)@.has_id_room(1),
        ensures
            id == old(self)@.next_id,
            final(self)@ == (PlaybackQueueView { next_id: old(self)@.next_id + 1, ..old(self)@ }),
    {
        let id = self.next_entry_id;
        self.next_entry_id = self.next_entry_id + 1;
        id
    }

    /// Sets the track pool and optionally the initial track.
    pub fn start(&mut self, track_pool: Vec<TrackId>, current_playing_track_id: Option<TrackId>)
        requires
            current_playing_track_id is Some ==> old(self)@.has_id_room(1),
        ensures
            final(self)@ == old(self)@.started(track_pool@, current_playing_track_id),
            final(self)@.ids_fresh(),
            final(self)@.cursor_valid(),
    {
        self.cursor = 0;
        self.entries.clear();
        self.track_pool = track_pool;
        if let Some(current_playing_track_id) = current_playing_track_id {
            let id = self.get_next_entry_id();
            self.entries.push_back(PlaybackQueueEntry::system(id, current_playing_track_id));
        }
        assert(self.entries@ =~= final(self)@.entries);
    }

    /// Peeks the next track without moving the cursor.
    pub fn peek_next(&mut self) -> (track: Option<TrackId>)
        requires
            old(self)@.has_id_room(PLAYBACK_QUEUE_LENGTH as nat),
            old(self)@.entries.len() > 0 ==> old(self)@.cursor < usize::MAX,
        ensures
            old(self)@.refilled_if_low(final(self)@),
            track == track_at(
                final(self)@.entries,
                old(self)@.cursor + if old(self)@.entries.len() > 0 {
                    1int
                } else {
                    0int
                },
            ),
            old(self)@.ids_fresh() ==> final(self)@.ids_fresh(),
            old(self)@.cursor_valid() ==> final(self)@.cursor_valid(),
            final(self)@.cursor == old(self)@.cursor,
    {
        let original_queue_length = self.entries.len();
        if self.get_remaining_tracks() <= PLAYBACK_QUEUE_LENGTH {
            self.generate_next_entries(PLAYBACK_QUEUE_LENGTH);
        }
        proof {
            lemma_refilled_if_low_keeps_invariants(old(self)@, self@);
        }
        let index = self.cursor + if original_queue_length > 0 {
            1usize
        } else {
            0usize
        };
        if index < self.entries.len() {
            Some(self.entries[index].track_id)
        } else {
            None
        }
    }

    /// Peeks the previous track without moving the cursor.
    pub fn peek_previous(&mut self) -> (track: Option<TrackId>)
        requires
            old(self)@.has_id_room(PLAYBACK_QUEUE_LENGTH as nat),
            old(self)@.cursor + PLAYBACK_QUEUE_LENGTH <= usize::MAX,
        ensures
            old(self)@.previous_if_at_start(final(self)@),
            ({
                let step = if old(self)@.entries.len() > 0 {
                    1int
                } else {
                    0int
                };
                track == if final(self)@.cursor >= step {
                    track_at(final(self)@.entries, final(self)@.cursor - step)
                } else {
                    None
                }
            }),
            old(self)@.ids_fresh() ==> final(self)@.ids_fresh(),
            old(self)@.cursor_valid() ==> final(self)@.cursor_valid(),
    {
        let original_queue_length = self.entries.len();
        if self.cursor == 0 {
            self.generate_previous_entries(PLAYBACK_QUEUE_LENGTH);
        }
        proof {
            lemma_previous_if_at_start_keeps_invariants(old(self)@, self@);
        }
        let step = if original_queue_length > 0 {
            1usize
        } else {
            0usize
        };
        if self.cursor < step {
            return None;
        }
        let index = self.cursor - step;
        if index < self.entries.len() {
            Some(self.entries[index].track_id)
        } else {
            None
        }
    }

    /// Gets the next track and moves the cursor forward, generating new entries if needed.
    pub fn next(&mut self) -> (track: Option<TrackId>)
        requires
            old(self)@.has_id_room(PLAYBACK_QUEUE_LENGTH as nat),
            old(self)@.cursor < usize::MAX,
        ensures
            old(self)@.moved_next(final(self)@, track),
            old(self)@.ids_fresh() ==> final(self)@.ids_fresh(),
            old(self)@.cursor_valid() ==> final(self)@.cursor_valid(),
    {
        if self.get_remaining_tracks() <= PLAYBACK_QUEUE_LENGTH {
            self.generate_next_entries(PLAYBACK_QUEUE_LENGTH);
        }
        proof {
            lemma_refilled_if_low_keeps_invariants(old(self)@, self@);
        }
        let index = self.cursor + 1;
        let next_track_id = if index < self.entries.len() {
            Some(self.entries[index].track_id)
        } else {
            None
        };
        if next_track_id.is_some() {
            self.cursor = index;
        }
        next_track_id
    }

    /// Gets the previous track and moves the cursor backwards, generating new
    /// previous entries if applicable.
    pub fn previous(&mut self) -> (track: Option<TrackId>)
        requires
            old(self)@.has_id_room(PLAYBACK_QUEUE_LENGTH as nat),
            old(self)@.cursor + PLAYBACK_QUEUE_LENGTH <= usize::MAX,
        ensures
            old(self)@.moved_previous(final(self)@, track),
            old(self)@.ids_fresh() ==> final(self)@.ids_fresh(),
            old(self)@.cursor_valid() ==> final(self)@.cursor_valid(),
    {
        if self.cursor == 0 {
            self.generate_previous_entries(PLAYBACK_QUEUE_LENGTH);
        }
        proof {
            lemma_previous_if_at_start_keeps_invariants(old(self)@, self@);
        }
        if self.cursor == 0 {
            return None;
        }
        let index = self.cursor - 1;
        let previous_track_id = if index < self.entries.len() {
            Some(self.entries[index].track_id)
        } else {
            None
        };
        if previous_track_id.is_some() {
            self.cursor = index;
        }
        previous_track_id
    }

    /// Moves the cursor to `cursor`, kept within the queue, and refills the
    /// queue when few entries remain.
    pub fn set_cursor(&mut self, cursor: usize)
        requires
            old(self)@.has_id_room(PLAYBACK_QUEUE_LENGTH as nat),
        ensures
            old(self)@.with_cursor(cursor as nat).refilled_if_low(final(self)@),
            old(self)@.ids_fresh() ==> final(self)@.ids_fresh(),
            final(self)@.cursor_valid(),
    {
        self.cursor = if cursor < self.entries.len() {
            cursor
        } else {
            self.entries.len().saturating_sub(1)
        };
        if self.get_remaining_tracks() <= PLAYBACK_QUEUE_LENGTH {
            self.generate_next_entries(PLAYBACK_QUEUE_LENGTH);
        }
        proof {
            lemma_refilled_if_low_keeps_invariants(old(self)@.with_cursor(cursor as nat), self@);
        }
    }

    /// Inserts a track id in the queue at the given index, if the index is out
    /// of bounds it adds the track id at the end.
    pub fn insert(&mut self, index: usize, track_id: TrackId)
        requires
            old(self)@.has_id_room(1),
            old(self)@.cursor < usize::MAX,
        ensures
            final(self)@ == old(self)@.inserted(index as int, track_id),
            old(self)@.ids_fresh() ==> final(self)@.ids_fresh(),
            final(self)@.cursor_valid(),
    {
        let insert_index = if index < self.entries.len() {
            index
        } else {
            self.entries.len()
        };
        let id = self.get_next_entry_id();
        self.entries.insert(insert_index, PlaybackQueueEntry::user(id, track_id));
        if insert_index <= self.cursor {
            let last = self.entries.len() - 1;
            self.cursor = if self.cursor + 1 < last + 1 {
                self.cursor + 1
            } else {
                last
            };
        }
        proof {
            if old(self)@.ids_fresh() {
                lemma_inserted_fresh(old(self)@, index as int, track_id);
            }
        }
    }

    /// Inserts a queue entry at the end of of a consecutive set of user
    /// entries starting at the entry after the cursor.
    pub fn insert_next(&mut self, track_id: TrackId)
        requires
            old(self)@.has_id_room(1),
            old(self)@.cursor < usize::MAX,
        ensures
            final(self)@ == old(self)@.inserted(old(self)@.next_insert_index(), track_id),
            old(self)@.ids_fresh() ==> final(self)@.ids_fresh(),
            final(self)@.cursor_valid(),
    {
        let ghost entries = self@.entries;
        let mut insert_index = self.cursor;
        while insert_index + 1 < self.entries.len() && matches!(
            self.entries[insert_index + 1].source,
            PlaybackQueueEntrySource::User
        )
            invariant
                self@ == old(self)@,
                entries == self@.entries,
                self.cursor <= insert_index < usize::MAX,
                insert_index < entries.len() || insert_index == self.cursor,
                self.cursor + user_run(entries, self.cursor + 1int) == insert_index + user_run(
                    entries,
                    insert_index + 1int,
                ),
            decreases self.entries@.len() - insert_index,
        {
            insert_index += 1;
        }
        self.insert(insert_index + 1, track_id);
    }

    /// Removes a track id from the queue at the given index, bear in mind this
    /// index can differ from the displayed queue pane table row number, to
    /// perform removal relative to the displayed tracks in the queue pane, use
    /// `remove_relative_to_cursor`.
    ///
    /// # Errors
    /// This method will fail if the index is out of bounds.
    pub fn remove(&mut self, index: usize) -> (result: Result<(), PlaybackQueueError>)
        ensures
            index >= old(self)@.entries.len() ==> result == Err::<(), PlaybackQueueError>(
                PlaybackQueueError::InvalidQueueRemovePosition,
            ) && final(self)@ == old(self)@,
            index < old(self)@.entries.len() ==> result is Ok && final(self)@ == old(self)@.removed(
                index as int,
            ),
            old(self)@.ids_fresh() ==> final(self)@.ids_fresh(),
            result is Ok ==> final(self)@.cursor_valid(),
    {
        if index >= self.entries.len() {
            return Err(PlaybackQueueError::InvalidQueueRemovePosition);
        }
        self.entries.remove(index);
        if index < self.cursor {
            self.cursor = self.cursor - 1;
        }
        // Guards against cursor falling outside of queue entries.
        let last = self.entries.len().saturating_sub(1);
        if self.cursor > last {
            self.cursor = last;
        }
        Ok(())
    }

    /// Removes the track id relative to the cursor, which current value
    /// determines the first track displayed in the queue pane table.
    pub fn remove_relative_to_cursor(&mut self, index: usize) -> (result: Result<
        (),
        PlaybackQueueError,
    >)
        requires
            old(self)@.cursor + index <= usize::MAX,
        ensures
            old(self)@.cursor + index >= old(self)@.entries.len() ==> result == Err::<
                (),
                PlaybackQueueError,
            >(PlaybackQueueError::InvalidQueueRemovePosition) && final(self)@ == old(self)@,
            old(self)@.cursor + index < old(self)@.entries.len() ==> result is Ok && final(self)@
                == old(self)@.removed(old(self)@.cursor + index),
            old(self)@.ids_fresh() ==> final(self)@.ids_fresh(),
            result is Ok ==> final(self)@.cursor_valid(),
    {
        self.remove(self.cursor + index)
    }

    /// Removes all upcoming system entries from the queue.
    pub fn truncate(&mut self)
        requires
            old(self)@.cursor < old(self)@.entries.len(),
        ensures
            final(self)@ == old(self)@.truncated(),
            old(self)@.ids_fresh() ==> final(self)@.ids_fresh(),
            final(self)@.cursor_valid(),
    {
        let ghost old_view = self@;
        let entries_len = self.entries.len();
        let cursor_position = if self.cursor < entries_len {
            self.cursor
        } else {
            entries_len
        };
        let mut entries_tail = self.entries.split_off(cursor_position + 1);
        let ghost tail = entries_tail@;
        let mut kept: VecDeque<PlaybackQueueEntry> = VecDeque::new();
        let mut i: usize = 0;
        assert(tail.take(0).filter(|entry: PlaybackQueueEntry| is_user_entry(entry))
            =~= Seq::<PlaybackQueueEntry>::empty()) by {
            reveal(Seq::filter);
        }
        while i < entries_tail.len()
            invariant
                i <= tail.len(),
                entries_tail@ == tail,
                kept@ == tail.take(i as int).filter(|entry: PlaybackQueueEntry| is_user_entry(entry)),
            decreases tail.len() - i,
        {
            let entry = entries_tail[i];
            assert(tail.take(i + 1).drop_last() =~= tail.take(i as int));
            reveal(Seq::filter);
            if matches!(entry.source, PlaybackQueueEntrySource::User) {
                kept.push_back(entry);
            }
            i += 1;
        }
        assert(tail.take(tail.len() as int) =~= tail);
        self.entries.append(&mut kept);
        assert(self@.entries =~= old_view.truncated().entries);
        proof {
            if old_view.ids_fresh() {
                lemma_truncated_fresh(old_view);
            }
        }
    }

    /// Removes all tracks except the current one and the unplayed entries
    /// inserted by the user.
    pub fn prune(&mut self)
        ensures
            final(self)@ == old(self)@.pruned(),
            old(self)@.ids_fresh() ==> final(self)@.ids_fresh(),
            final(self)@.cursor_valid(),
    {
        let ghost old_view = self@;
        let cursor_position = if self.cursor < self.entries.len() {
            self.cursor
        } else {
            self.entries.len()
        };
        let entries_tail = self.entries.split_off(cursor_position);
        let ghost tail = entries_tail@;
        let ghost keep = |entry: PlaybackQueueEntry|
            (tail.len() > 0 && entry.id == tail[0].id) || is_user_entry(entry);
        let current_entry_id = if entries_tail.len() > 0 {
            Some(entries_tail[0].id)
        } else {
            None
        };
        let mut kept: VecDeque<PlaybackQueueEntry> = VecDeque::new();
        let mut i: usize = 0;
        assert(tail.take(0).filter(keep) =~= Seq::<PlaybackQueueEntry>::empty()) by {
            reveal(Seq::filter);
        }
        while i < entries_tail.len()
            invariant
                i <= tail.len(),
                entries_tail@ == tail,
                current_entry_id == if tail.len() > 0 {
                    Some(tail[0].id)
                } else {
                    None::<u64>
                },
                forall|entry: PlaybackQueueEntry| #[trigger] keep(entry) == ((tail.len() > 0
                    && entry.id == tail[0].id) || is_user_entry(entry)),
                kept@ == tail.take(i as int).filter(keep),
            decreases tail.len() - i,
        {
            let entry = entries_tail[i];
            assert(tail.take(i + 1).drop_last() =~= tail.take(i as int));
            reveal(Seq::filter);
            let is_current = match current_entry_id {
                Some(id) => id == entry.id,
                None => false,
            };
            if is_current || matches!(entry.source, PlaybackQueueEntrySource::User) {
                kept.push_back(entry);
                assert(keep(entry));
            } else {
                assert(!keep(entry));
            }
            i += 1;
        }
        assert(tail.take(tail.len() as int) =~= tail);
        self.entries = kept;
        self.cursor = 0;
        assert(old_view.pruned().entries == tail.filter(keep)) by {
            assert(keep =~= (|entry: PlaybackQueueEntry|
                (tail.len() > 0 && entry.id == tail[0].id) || is_user_entry(entry)));
        }
        proof {
            if old_view.ids_fresh() {
                lemma_pruned_fresh(old_view);
            }
        }
    }

    /// Switches to the next queue order and regenerates the upcoming entries
    /// in it.
    pub fn cycle_queue_order(&mut self)
        requires
            old(self)@.has_id_room(PLAYBACK_QUEUE_LENGTH as nat),
        ensures
            (PlaybackQueueView {
                order: old(self)@.order.successor(),
                ..old(self)@
            }).pruned().refilled_by(final(self)@, PLAYBACK_QUEUE_LENGTH as nat),
            old(self)@.ids_fresh() ==> final(self)@.ids_fresh(),
            final(self)@.cursor_valid(),
    {
        self.order = self.order.next();
        self.prune();
        self.generate_next_entries(PLAYBACK_QUEUE_LENGTH);
    }

    /// Switches to the next repeat mode; when the queue starts or stops
    /// repeating, the upcoming generated entries are dropped and the queue is
    /// refilled.
    pub fn cycle_repeat_mode(&mut self)
        requires
            old(self)@.has_id_room(PLAYBACK_QUEUE_LENGTH as nat),
            old(self)@.order == PlaybackQueueOrder::Shuffle && old(self)@.repeating()
                != old(self)@.repeat_mode.successor().repeats() ==> old(self)@.cursor < old(
                self,
            )@.entries.len(),
        ensures
            old(self)@.repeat_mode_cycled().refilled_if_low(final(self)@),
            old(self)@.ids_fresh() ==> final(self)@.ids_fresh(),
            old(self)@.cursor_valid() ==> final(self)@.cursor_valid(),
    {
        let previous_repeat_mode = self.repeat_mode;
        self.repeat_mode = self.repeat_mode.next();
        if previous_repeat_mode.is_repeating() != self.repeat_mode.is_repeating() {
            match self.order {
                PlaybackQueueOrder::Sequential => {
                    self.prune();
                },
                PlaybackQueueOrder::Shuffle => {
                    self.truncate();
                },
            }
        }
        if self.get_remaining_tracks() <= PLAYBACK_QUEUE_LENGTH {
            self.generate_next_entries(PLAYBACK_QUEUE_LENGTH);
        }
    }

    /// The track of the entry under the cursor.
    pub fn current(&self) -> (track: Option<TrackId>)
        ensures
            track == track_at(self@.entries, self@.cursor as int),
    {
        if self.cursor < self.entries.len() {
            Some(self.entries[self.cursor].track_id)
        } else {
            None
        }
    }

    /// Index and track of the first entry with id `entry_id`, if there is one.
    pub fn find_entry(&self, entry_id: PlaybackQueueEntryId) -> (found: Option<(usize, TrackId)>)
        ensures
            match found {
                Some((index, track_id)) => entry_index(self@.entries, entry_id) == Some(index as int)
                    && track_id == self@.entries[index as int].track_id,
                None => entry_index(self@.entries, entry_id) is None,
            },
    {
        let mut index: usize = 0;
        while index < self.entries.len()
            invariant
                index <= self.entries@.len(),
                forall|j: int| 0 <= j < index ==> self.entries@[j].id != entry_id,
            decreases self.entries@.len() - index,
        {
            if self.entries[index].id == entry_id {
                proof {
                    lemma_entry_index(self@.entries, entry_id, index as int);
                }
                return Some((index, self.entries[index].track_id));
            }
            index += 1;
        }
        None
    }

    /// Whether the queue repeats the current track.
    pub fn is_repeating_one(&self) -> (repeating_one: bool)
        ensures
            repeating_one == (self@.repeat_mode == PlaybackRepeatMode::RepeatOne),
    {
        match self.repeat_mode {
            PlaybackRepeatMode::RepeatOne => true,
            _ => false,
        }
    }

    /// The tracks the queue generates its entries from.
    pub fn track_pool(&self) -> (track_pool: &[TrackId])
        ensures
            track_pool@ == self@.pool,
    {
        self.track_pool.as_slice()
    }

    pub fn get_remaining_tracks(&self) -> (remaining: usize)
        ensures
            remaining == self@.remaining(),
    {
        self.entries.len().saturating_sub(self.cursor)
    }
}

impl Default for PlaybackQueue {
    fn default() -> (queue: Self)
        ensures
            queue@.next_id == 0,
            queue@.cursor == 0,
            queue@.entries == Seq::<PlaybackQueueEntry>::empty(),
            queue@.pool == Seq::<TrackId>::empty(),
            queue@.repeat_mode == PlaybackRepeatMode::NoRepeat,
            queue@.order == PlaybackQueueOrder::Sequential,
    {
        Self::new()
    }
}

} // verus!
