//! The splits between the panes of the window.
use vstd::prelude::*;

verus! {

#[derive(Debug, Clone, Copy, PartialEq, Eq, Structural)]
pub enum PaneSplit {
    /// The split between the explorer pane and main pane.
    ExplorerMain,
    /// The split between the main pane and the column with the queue pane and the track information pane.
    MainQueue,
    /// The split between the queue pane and the track information pane.
    QueueTrackInformation,
}

} // verus!
