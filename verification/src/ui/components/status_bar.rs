//! The bar that tells what the application is doing.
use vstd::prelude::*;

verus! {

/// What the application is busy with.
#[derive(Debug, Clone, Copy, PartialEq, Eq, Structural)]
pub enum AppStatus {
    Idle,
    AddingTracks,
    FinishedAddingTracks,
}

#[derive(Debug)]
pub struct StatusBar {}

#[derive(Debug)]
pub struct StatusBarUpdateContext {}

} // verus!
