use soundlore::playback::queue::entry::TrackId;
use soundlore::tag::index::TrackTagIndex;
use soundlore::tag::models::{TagId, TrackTag};

fn assert_track_tag_exists(index: &TrackTagIndex, track_id: TrackId, tag_id: TagId) {
    assert!(index.track_tag_exists(track_id, tag_id), "Index didn't find inserted track tag.");

    assert!(
        index.get_tag_tracks(tag_id).expect("index didn't find tag tracks").contains(&track_id),
        "Index did not insert track id to tracks_by_id index."
    );

    assert!(
        index.get_track_tags(track_id).expect("index didn't find track tags").contains(&tag_id),
        "Index did not insert tag id to tags_by_track index."
    );
}

fn assert_no_track_tag_exists(index: &TrackTagIndex, track_id: TrackId, tag_id: TagId) {
    assert!(
        !index.track_tag_exists(track_id, tag_id),
        "Index found inserted the track tag when it shouldn't be there."
    );

    assert!(
        index.get_tag_tracks(tag_id).is_none_or(|tag_tracks| !tag_tracks.contains(&track_id)),
        "Index found inserted the track tag in the tracks_by_id index when it shouldn't be there."
    );

    assert!(
        index.get_track_tags(track_id).is_none_or(|track_tags| !track_tags.contains(&tag_id)),
        "Index found inserted the track tag in the tags_by_id index when it shouldn't be there."
    );
}

#[test]
fn should_get_existing_track_tag() {
    let mut index = TrackTagIndex::new(vec![]);

    let track_id = 1;
    let tag_id = 2;

    index.tag_track(track_id, tag_id);

    assert_track_tag_exists(&index, track_id, tag_id);
}

#[test]
fn should_not_get_existing_track_tag() {
    let index = TrackTagIndex::new(vec![]);

    let track_id = 1;
    let tag_id = 2;

    assert_no_track_tag_exists(&index, track_id, tag_id);
}

#[test]
fn should_initialize_with_track_tags() {
    let mut track_tag_rows: Vec<TrackTag> = Vec::new();

    for track_id in 0..10 {
        for tag_id in 0..track_id {
            track_tag_rows.push(TrackTag {
                id: track_tag_rows.len() as i64,
                tag_id,
                track_id,
                created_at: 0,
            });
        }
    }

    let index = TrackTagIndex::new(track_tag_rows);

    for track_id in 0..10 {
        for tag_id in 0..track_id {
            assert_track_tag_exists(&index, track_id, tag_id);
        }
    }

    assert_no_track_tag_exists(&index, 1, 10);
}

#[test]
fn should_toggle_track_tags() {
    let mut index = TrackTagIndex::new(vec![]);

    let track_id = 1;
    let tag_id = 2;

    index.toggle_track_tag(track_id, tag_id);

    assert_track_tag_exists(&index, track_id, tag_id);

    index.toggle_track_tag(track_id, tag_id);

    assert_no_track_tag_exists(&index, track_id, tag_id);
}
