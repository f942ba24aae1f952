use rustc_hash::FxHashSet;
use soundlore::playback::queue::entry::TrackId;
use soundlore::search::models::SearchConditionStatement;
use soundlore::tag::index::TrackTagIndex;
use soundlore::tag::models::TrackTag;

/// The library's tracks: ids 1 to 10.
fn generate_tracks() -> FxHashSet<TrackId> {
    (1..=10).collect()
}

/// Tag 1 on tracks 1 to 5.
fn generate_track_tag_index() -> TrackTagIndex {
    let rows = (1..=5)
        .map(|track_id| TrackTag { id: track_id, tag_id: 1, track_id, created_at: 0 })
        .collect();
    TrackTagIndex::new(rows)
}

fn assert_filter_result(filter_result: FxHashSet<TrackId>, expected_filter_result: &[TrackId]) {
    assert_eq!(
        filter_result.len(),
        expected_filter_result.len(),
        "\n\n    filter_result: {filter_result:?}\n    expected_filter_result: {expected_filter_result:?}\n"
    );

    for expected_filter_result_track_id in expected_filter_result {
        assert!(
            filter_result.contains(expected_filter_result_track_id),
            "Filter result does not contain expected value: {expected_filter_result_track_id}\n\n    filter_result: {filter_result:?}\n    expected_filter_result: {expected_filter_result:?}\n"
        );
    }
}

#[test]
fn should_filter_has_tag_statement() {
    let tracks = generate_tracks();
    let track_tag_index = generate_track_tag_index();

    let statement = SearchConditionStatement::HasTag { tag_id: Some(1) };

    let filter_result = statement.filter(&tracks, &track_tag_index).unwrap();

    assert_filter_result(filter_result, &[1, 2, 3, 4, 5]);
}

#[test]
fn should_filter_has_tag_statement_with_non_existent_tag() {
    let tracks = generate_tracks();
    let track_tag_index = generate_track_tag_index();

    let statement = SearchConditionStatement::HasTag { tag_id: Some(0) };

    let filter_result = statement.filter(&tracks, &track_tag_index).unwrap();

    assert_filter_result(filter_result, &[]);
}

#[test]
fn should_filter_does_not_have_tag_statement() {
    let tracks = generate_tracks();
    let track_tag_index = generate_track_tag_index();

    let statement = SearchConditionStatement::DoesNotHaveTag { tag_id: Some(1) };

    let filter_result = statement.filter(&tracks, &track_tag_index).unwrap();

    assert_filter_result(filter_result, &[6, 7, 8, 9, 10]);
}

#[test]
fn should_filter_does_not_have_tag_statement_with_non_existent_tag() {
    let tracks = generate_tracks();
    let track_tag_index = generate_track_tag_index();

    let statement = SearchConditionStatement::DoesNotHaveTag { tag_id: Some(0) };

    let filter_result = statement.filter(&tracks, &track_tag_index).unwrap();

    assert_filter_result(filter_result, &[1, 2, 3, 4, 5, 6, 7, 8, 9, 10]);
}

#[test]
fn should_not_filter_has_tag_statement_missing_tag_id() {
    let tracks = generate_tracks();
    let track_tag_index = generate_track_tag_index();

    let statement = SearchConditionStatement::HasTag { tag_id: None };

    assert!(statement.filter(&tracks, &track_tag_index).is_none());
}

#[test]
fn should_not_filter_does_not_have_tag_statement_missing_tag_id() {
    let tracks = generate_tracks();
    let track_tag_index = generate_track_tag_index();

    let statement = SearchConditionStatement::DoesNotHaveTag { tag_id: None };

    assert!(statement.filter(&tracks, &track_tag_index).is_none());
}
