//! The modal in which the user adds and removes tag groups and tags.
use vstd::prelude::*;

use crate::outcome::{ModalOutcome, TagOutcome};
use crate::tag::models::{Tag, TagGroup, TagGroupId, TagId};

verus! {

pub struct ManageTagsModal {
    selected_tag_group_id: Option<TagGroupId>,
    new_tag_group_name_input_text: String,
    new_tag_name_input_text: String,
}

#[derive(Debug)]
pub enum Message {
    Close,
    SelectTagGroup(TagGroupId),
    NewTagGroupNameInputTextChanged(String),
    AddNewTagGroup,
    RemoveTagGroup(TagGroupId),
    NewTagNameInputTextChanged(String),
    AddNewTag,
    RemoveTag(TagId),
}

#[derive(Debug)]
pub enum Outcome {
    Modal(ModalOutcome),
    Tag(TagOutcome),
}

/// Mathematical state of the modal.
pub struct ManageTagsModalView {
    pub selected_tag_group_id: Option<TagGroupId>,
    pub new_tag_group_name: Seq<char>,
    pub new_tag_name: Seq<char>,
}

impl View for ManageTagsModal {
    type V = ManageTagsModalView;

    closed spec fn view(&self) -> ManageTagsModalView {
        ManageTagsModalView {
            selected_tag_group_id: self.selected_tag_group_id,
            new_tag_group_name: self.new_tag_group_name_input_text@,
            new_tag_name: self.new_tag_name_input_text@,
        }
    }
}

impl ManageTagsModalView {
    /// The modal after `message`, and the outcomes that it gives.
    pub open spec fn updated(self, after: ManageTagsModalView, message: Message, outcomes: Seq<Outcome>) -> bool {
        match message {
            Message::Close => after == self && outcomes == seq![
                Outcome::Modal(ModalOutcome::CloseModal),
            ],
            Message::SelectTagGroup(tag_group_id) => after == (ManageTagsModalView {
                selected_tag_group_id: Some(tag_group_id),
                ..self
            }) && outcomes.len() == 0,
            Message::NewTagGroupNameInputTextChanged(text) => after == (ManageTagsModalView {
                new_tag_group_name: text@,
                ..self
            }) && outcomes.len() == 0,
            Message::NewTagNameInputTextChanged(text) => after == (ManageTagsModalView {
                new_tag_name: text@,
                ..self
            }) && outcomes.len() == 0,
            Message::AddNewTag => match self.selected_tag_group_id {
                Some(tag_group_id) => {
                    &&& after == (ManageTagsModalView { new_tag_name: Seq::empty(), ..self })
                    &&& outcomes.len() == 1
                    &&& match outcomes[0] {
                        Outcome::Tag(TagOutcome::AddNewTag(group, name)) => group == tag_group_id
                            && name@ == self.new_tag_name,
                        _ => false,
                    }
                },
                None => after == self && outcomes.len() == 0,
            },
            Message::AddNewTagGroup => {
                &&& after == (ManageTagsModalView { new_tag_group_name: Seq::empty(), ..self })
                &&& outcomes.len() == 1
                &&& match outcomes[0] {
                    Outcome::Tag(TagOutcome::AddNewTagGroup(name)) => name@ == self.new_tag_group_name,
                    _ => false,
                }
            },
            Message::RemoveTagGroup(tag_group_id) => after == self && outcomes == seq![
                Outcome::Tag(TagOutcome::RemoveTagGroup(tag_group_id)),
            ],
            Message::RemoveTag(tag_id) => after == self && outcomes == seq![
                Outcome::Tag(TagOutcome::RemoveTag(tag_id)),
            ],
        }
    }
}

impl ManageTagsModal {
    /// A modal with no tag group selected and empty inputs.
    pub fn new() -> (modal: Self)
        ensures
            modal@ == (ManageTagsModalView {
                selected_tag_group_id: None,
                new_tag_group_name: Seq::empty(),
                new_tag_name: Seq::empty(),
            }),
    {
        Self {
            selected_tag_group_id: None,
            new_tag_group_name_input_text: String::new(),
            new_tag_name_input_text: String::new(),
        }
    }

    /// Handles `message`: the inputs follow what is typed, and adding asks for
    /// the typed name and empties the input.
    pub fn update(&mut self, message: Message, tags: &[Tag], tag_groups: &[TagGroup]) -> (outcomes:
        Vec<Outcome>)
        ensures
            old(self)@.updated(final(self)@, message, outcomes@),
    {
        let mut outcomes: Vec<Outcome> = Vec::new();
        match message {
            Message::Close => outcomes.push(Outcome::Modal(ModalOutcome::CloseModal)),
            Message::SelectTagGroup(tag_group_id) => {
                self.selected_tag_group_id = Some(tag_group_id);
            },
            Message::NewTagGroupNameInputTextChanged(new_tag_group_name_input_text) => {
                self.new_tag_group_name_input_text = new_tag_group_name_input_text;
            },
            Message::NewTagNameInputTextChanged(new_tag_name_input_text) => {
                self.new_tag_name_input_text = new_tag_name_input_text;
            },
            Message::AddNewTag => {
                if let Some(selected_tag_group_id) = self.selected_tag_group_id {
                    outcomes.push(
                        Outcome::Tag(
                            TagOutcome::AddNewTag(
                                selected_tag_group_id,
                                self.new_tag_name_input_text.clone(),
                            ),
                        ),
                    );
                    self.new_tag_name_input_text = String::new();
                }
            },
            Message::AddNewTagGroup => {
                outcomes.push(
                    Outcome::Tag(
                        TagOutcome::AddNewTagGroup(self.new_tag_group_name_input_text.clone()),
                    ),
                );
                self.new_tag_group_name_input_text = String::new();
            },
            Message::RemoveTagGroup(tag_group_id) => {
                outcomes.push(Outcome::Tag(TagOutcome::RemoveTagGroup(tag_group_id)));
            },
            Message::RemoveTag(tag_id) => {
                outcomes.push(Outcome::Tag(TagOutcome::RemoveTag(tag_id)));
            },
        }
        outcomes
    }

    /// The selected tag group, if any.
    pub fn selected_tag_group_id(&self) -> (tag_group_id: Option<TagGroupId>)
        ensures
            tag_group_id == self@.selected_tag_group_id,
    {
        self.selected_tag_group_id
    }
}

impl Default for ManageTagsModal {
    fn default() -> (modal: Self)
        ensures
            modal@ == (ManageTagsModalView {
                selected_tag_group_id: None,
                new_tag_group_name: Seq::empty(),
                new_tag_name: Seq::empty(),
            }),
    {
        Self::new()
    }
}

} // verus!
