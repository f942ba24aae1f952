//! Random sampling of tracks for the shuffled queue order, done by `rand`.
use rand::rngs::ThreadRng;
use rand::seq::{IteratorRandom, SliceRandom};

use vstd::prelude::*;

use crate::playback::queue::entry::TrackId;

verus! {

#[verifier::external_type_specification]
#[verifier::external_body]
pub struct ExThreadRng(ThreadRng);

/// `rand::rng`: a handle to the thread-local random generator. Nothing is
/// claimed of its state.
#[verifier::external_body]
pub(crate) fn thread_rng() -> ThreadRng {
    rand::rng()
}

/// `IteratorRandom::sample`: draws `amount` elements at distinct positions of
/// `candidates`, or all of them when there are fewer. Claimed: the length of
/// the result, and that it holds no element more often than `candidates`
/// does; which elements are drawn, and their order, is left to chance.
#[verifier::external_body]
pub(crate) fn sample_track_ids(rng: &mut ThreadRng, candidates: Vec<TrackId>, amount: usize) -> (sampled:
    Vec<TrackId>)
    ensures
        sampled@.len() == if amount < candidates@.len() {
            amount as nat
        } else {
            candidates@.len()
        },
        sampled@.to_multiset().subset_of(candidates@.to_multiset()),
{
    candidates.into_iter().sample(rng, amount)
}

/// `SliceRandom::shuffle`: permutes the tracks in place. Claimed: the result
/// holds the same tracks as many times each; their order is left to chance.
#[verifier::external_body]
pub(crate) fn shuffle_track_ids(rng: &mut ThreadRng, track_ids: &mut Vec<TrackId>)
    ensures
        final(track_ids)@.len() == old(track_ids)@.len(),
        final(track_ids)@.to_multiset() == old(track_ids)@.to_multiset(),
{
    track_ids.shuffle(rng)
}

} // verus!
