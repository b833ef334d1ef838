use spotify_player::playlist_import::{
    import_report_text, plan_import, track_batches, TrackData, TRACK_BUFFER_CAP,
};

fn track(id: &str, name: &str) -> TrackData {
    TrackData { id: id.to_string(), name: name.to_string() }
}

fn ids(tracks: &[TrackData]) -> Vec<String> {
    let mut v: Vec<String> = tracks.iter().map(|t| t.id.clone()).collect();
    v.sort();
    v
}

#[test]
fn first_import_adds_missing_tracks() {
    let from = vec![track("1", "One"), track("2", "Two"), track("3", "Three"), track("2", "Two")];
    let to = vec![track("2", "Two"), track("9", "Nine")];
    let plan = plan_import(&from, &to, None);
    assert_eq!(ids(&plan.new_tracks), vec!["1", "3"]);
    assert!(plan.deleted_tracks.is_empty());
    assert_eq!(ids(&plan.cached_tracks), vec!["1", "2", "3"]);
}

#[test]
fn later_import_skips_previously_imported_tracks() {
    let previous = vec![track("1", "One"), track("2", "Two")];
    let from = vec![track("2", "Two"), track("3", "Three"), track("1", "One")];
    let to = vec![track("9", "Nine")];
    let plan = plan_import(&from, &to, Some(&previous));
    assert_eq!(ids(&plan.new_tracks), vec!["3"]);
    assert!(plan.deleted_tracks.is_empty());
}

#[test]
fn tracks_that_left_the_source_are_listed_as_deleted() {
    let previous = vec![track("1", "One"), track("2", "Two")];
    let from = vec![track("2", "Two")];
    let to = vec![track("1", "One"), track("2", "Two")];
    let plan = plan_import(&from, &to, Some(&previous));
    assert!(plan.new_tracks.is_empty());
    assert_eq!(ids(&plan.deleted_tracks), vec!["1"]);
}

#[test]
fn reimporting_an_unchanged_source_changes_nothing() {
    let from = vec![track("1", "One"), track("2", "Two")];
    let first = plan_import(&from, &vec![], None);
    let mut to = first.new_tracks.clone();
    to.push(track("7", "Seven"));
    let second = plan_import(&from, &to, Some(&first.cached_tracks));
    assert!(second.new_tracks.is_empty());
    assert!(second.deleted_tracks.is_empty());
}

#[test]
fn a_renamed_track_counts_as_another_track() {
    let from = vec![track("1", "One (Remastered)")];
    let to = vec![track("1", "One")];
    let plan = plan_import(&from, &to, None);
    assert_eq!(plan.new_tracks.len(), 1);
}

#[test]
fn batches_hold_at_most_a_hundred_tracks() {
    let tracks: Vec<TrackData> = (0..250).map(|i| track(&i.to_string(), "t")).collect();
    let batches = track_batches(&tracks);
    assert_eq!(batches.len(), 3);
    assert_eq!(batches[0].len(), TRACK_BUFFER_CAP);
    assert_eq!(batches[1].len(), TRACK_BUFFER_CAP);
    assert_eq!(batches[2].len(), 50);
    let flat: Vec<String> = batches.concat();
    let expected: Vec<String> = (0..250).map(|i: i32| i.to_string()).collect();
    assert_eq!(flat, expected);
    assert!(track_batches(&vec![]).is_empty());
    assert_eq!(track_batches(&tracks[..100].to_vec()).len(), 1);
}

#[test]
fn report_lists_deleted_and_new_tracks() {
    let previous = vec![track("1", "One")];
    let from = vec![track("2", "Two")];
    let plan = plan_import(&from, &vec![], Some(&previous));
    let report = import_report_text("src", "Source", "dst", "Target", &plan, true, true);
    assert_eq!(
        report,
        "Importing from src:Source to dst:Target...\n\
         Tracks deleted from Source: \n    1: One\n\
         New tracks imported to Target: \n    2: Two\n"
    );
    let listed = import_report_text("src", "Source", "dst", "Target", &plan, true, false);
    assert_eq!(
        listed,
        "Importing from src:Source to dst:Target...\n\
         Tracks that are no longer in Source since last import: \n    1: One\n\
         New tracks imported to Target: \n    2: Two\n"
    );
    let first = import_report_text("src", "Source", "dst", "Target", &plan, false, false);
    assert_eq!(
        first,
        "Importing from src:Source to dst:Target...\nNew tracks imported to Target: \n    2: Two\n"
    );
}
