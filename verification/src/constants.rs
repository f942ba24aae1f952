use vstd::prelude::*;

verus! {

/// Number of upcoming entries the playback queue keeps generated ahead of the
/// cursor.
pub const PLAYBACK_QUEUE_LENGTH: usize = 50;

} // verus!
