//! The menu bar at the top of the window.
use vstd::prelude::*;

use crate::outcome::ModalOutcome;

verus! {

#[derive(Debug)]
pub struct NavigationBar {}

#[derive(Debug, Clone, Copy, PartialEq, Eq, Structural)]
pub enum Message {
    SelectedScanDirectoryOption,
    SelectedEditMenuManageTagsOption,
}

#[derive(Debug)]
pub enum Outcome {
    Modal(ModalOutcome),
    OpenSelectDirectoryDialog,
}

impl NavigationBar {
    /// Handles a menu choice: scanning asks for a directory dialog, managing
    /// tags asks for its modal.
    pub fn update(&mut self, message: Message) -> (outcomes: Vec<Outcome>)
        ensures
            outcomes@ == match message {
                Message::SelectedScanDirectoryOption => seq![Outcome::OpenSelectDirectoryDialog],
                Message::SelectedEditMenuManageTagsOption => seq![
                    Outcome::Modal(ModalOutcome::OpenManageTagsModal),
                ],
            },
    {
        let mut outcomes: Vec<Outcome> = Vec::new();
        match message {
            Message::SelectedScanDirectoryOption => {
                outcomes.push(Outcome::OpenSelectDirectoryDialog);
            },
            Message::SelectedEditMenuManageTagsOption => {
                outcomes.push(Outcome::Modal(ModalOutcome::OpenManageTagsModal));
            },
        }
        outcomes
    }
}

} // verus!
