use soundlore::outcome::{ModalOutcome, TagOutcome};
use soundlore::ui::modals::manage_tags::{ManageTagsModal, Message, Outcome};

#[test]
fn adding_a_tag_needs_a_selected_group_and_empties_the_input() {
    let mut modal = ManageTagsModal::new();

    modal.update(Message::NewTagNameInputTextChanged("Ambient".to_string()), &[], &[]);
    assert!(modal.update(Message::AddNewTag, &[], &[]).is_empty());

    modal.update(Message::SelectTagGroup(3), &[], &[]);
    assert_eq!(modal.selected_tag_group_id(), Some(3));
    let outcomes = modal.update(Message::AddNewTag, &[], &[]);
    assert!(matches!(
        outcomes.as_slice(),
        [Outcome::Tag(TagOutcome::AddNewTag(3, name))] if name == "Ambient"
    ));

    let outcomes = modal.update(Message::AddNewTag, &[], &[]);
    assert!(matches!(
        outcomes.as_slice(),
        [Outcome::Tag(TagOutcome::AddNewTag(3, name))] if name.is_empty()
    ));
}

#[test]
fn adding_a_tag_group_empties_the_input() {
    let mut modal = ManageTagsModal::default();
    modal.update(Message::NewTagGroupNameInputTextChanged("Era".to_string()), &[], &[]);
    let outcomes = modal.update(Message::AddNewTagGroup, &[], &[]);
    assert!(matches!(
        outcomes.as_slice(),
        [Outcome::Tag(TagOutcome::AddNewTagGroup(name))] if name == "Era"
    ));
    let outcomes = modal.update(Message::AddNewTagGroup, &[], &[]);
    assert!(matches!(
        outcomes.as_slice(),
        [Outcome::Tag(TagOutcome::AddNewTagGroup(name))] if name.is_empty()
    ));
}

#[test]
fn removals_and_closing_give_their_outcomes() {
    let mut modal = ManageTagsModal::new();
    assert!(matches!(
        modal.update(Message::RemoveTagGroup(4), &[], &[]).as_slice(),
        [Outcome::Tag(TagOutcome::RemoveTagGroup(4))]
    ));
    assert!(matches!(
        modal.update(Message::RemoveTag(8), &[], &[]).as_slice(),
        [Outcome::Tag(TagOutcome::RemoveTag(8))]
    ));
    assert!(matches!(
        modal.update(Message::Close, &[], &[]).as_slice(),
        [Outcome::Modal(ModalOutcome::CloseModal)]
    ));
}
