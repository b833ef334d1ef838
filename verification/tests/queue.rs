use spotify_player::model::{ContextId, TracksId};
use spotify_player::queue::{AdvanceResult, CustomQueue, RepeatState, RetreatResult, ShuffleMode};

fn make_track_id(n: u32) -> u64 {
    u64::from(n)
}

fn make_tracks(count: u32) -> Vec<u64> {
    (0..count).map(make_track_id).collect()
}

#[test]
fn new_queue_basic_properties() {
    let tracks = make_tracks(10);
    let q = CustomQueue::new(tracks.clone(), 0, 5, None, false);

    assert_eq!(q.len(), 10);
    assert_eq!(q.position(), 0);
    assert_eq!(q.batch_start(), 0);
    assert_eq!(q.batch_end(), 5);
    assert_eq!(q.current_batch().len(), 5);
    assert_eq!(*q.current_track(), tracks[0]);
}

#[test]
fn new_queue_start_position_mid() {
    let tracks = make_tracks(10);
    let q = CustomQueue::new(tracks.clone(), 3, 5, None, false);

    assert_eq!(q.position(), 3);
    assert_eq!(q.batch_start(), 3);
    assert_eq!(q.batch_end(), 8);
    assert_eq!(*q.current_track(), tracks[3]);
}

#[test]
fn new_queue_batch_end_clamped() {
    let tracks = make_tracks(3);
    let q = CustomQueue::new(tracks, 0, 10, None, false);

    assert_eq!(q.batch_end(), 3);
    assert_eq!(q.current_batch().len(), 3);
}

#[test]
fn advance_within_batch() {
    let tracks = make_tracks(10);
    let mut q = CustomQueue::new(tracks.clone(), 0, 5, None, false);

    assert_eq!(q.advance(), AdvanceResult::SameBatch);
    assert_eq!(q.position(), 1);
    assert_eq!(*q.current_track(), tracks[1]);
}

#[test]
fn advance_across_batch_boundary() {
    let tracks = make_tracks(10);
    let mut q = CustomQueue::new(tracks, 0, 5, None, false);

    for _ in 0..4 {
        assert_eq!(q.advance(), AdvanceResult::SameBatch);
    }
    assert_eq!(q.position(), 4);

    let result = q.advance();
    assert!(matches!(result, AdvanceResult::NewBatch(_)));
    assert_eq!(q.position(), 5);
    assert_eq!(q.batch_start(), 5);
    assert_eq!(q.batch_end(), 10);
}

#[test]
fn advance_end_of_queue() {
    let tracks = make_tracks(3);
    let mut q = CustomQueue::new(tracks, 0, 10, None, false);

    for _ in 0..2 {
        q.advance();
    }
    assert_eq!(q.advance(), AdvanceResult::EndOfQueue);
}

#[test]
fn advance_needs_radio_tracks() {
    let tracks = make_tracks(3);
    let mut q = CustomQueue::new(tracks, 0, 10, None, true);

    for _ in 0..2 {
        q.advance();
    }
    assert_eq!(q.advance(), AdvanceResult::NeedsRadioTracks);
}

#[test]
fn advance_repeat_context_wraps() {
    let tracks = make_tracks(3);
    let mut q = CustomQueue::new(tracks.clone(), 0, 10, None, false);
    q.set_repeat(RepeatState::Context);

    for _ in 0..2 {
        q.advance();
    }
    let result = q.advance();
    assert!(matches!(result, AdvanceResult::NewBatch(_)));
    assert_eq!(q.position(), 0);
    assert_eq!(*q.current_track(), tracks[0]);
}

#[test]
fn advance_repeat_track_stays() {
    let tracks = make_tracks(3);
    let mut q = CustomQueue::new(tracks.clone(), 0, 10, None, false);
    q.set_repeat(RepeatState::Track);

    assert_eq!(q.advance(), AdvanceResult::SameBatch);
    assert_eq!(q.position(), 0);
    assert_eq!(*q.current_track(), tracks[0]);
}

#[test]
fn retreat_within_batch() {
    let tracks = make_tracks(10);
    let mut q = CustomQueue::new(tracks.clone(), 0, 5, None, false);

    q.advance();
    q.advance();
    assert_eq!(q.position(), 2);

    assert_eq!(q.retreat(), RetreatResult::SameBatch);
    assert_eq!(q.position(), 1);
    assert_eq!(*q.current_track(), tracks[1]);
}

#[test]
fn retreat_at_beginning() {
    let tracks = make_tracks(10);
    let mut q = CustomQueue::new(tracks, 0, 5, None, false);

    assert_eq!(q.retreat(), RetreatResult::BeginningOfQueue);
    assert_eq!(q.position(), 0);
}

#[test]
fn retreat_across_batch_boundary() {
    let tracks = make_tracks(10);
    let mut q = CustomQueue::new(tracks, 0, 5, None, false);

    for _ in 0..4 {
        q.advance();
    }
    q.advance();

    let result = q.retreat();
    assert!(matches!(result, RetreatResult::PreviousBatch(_)));
    assert_eq!(q.position(), 4);
}

#[test]
fn truncate_batch_to_current() {
    let tracks = make_tracks(10);
    let mut q = CustomQueue::new(tracks, 0, 5, None, false);

    q.advance();
    q.advance();
    q.truncate_batch_to_current();

    assert_eq!(q.batch_end(), 3);
    assert!(q.is_at_batch_end());
}

#[test]
fn remaining_tracks_correct() {
    let tracks = make_tracks(5);
    let q = CustomQueue::new(tracks.clone(), 0, 10, None, false);

    assert_eq!(q.remaining_tracks().len(), 4);
    assert_eq!(q.remaining_tracks()[0], tracks[1]);
}

#[test]
fn remaining_tracks_at_end() {
    let tracks = make_tracks(3);
    let mut q = CustomQueue::new(tracks, 0, 10, None, false);
    q.advance();
    q.advance();

    assert!(q.remaining_tracks().is_empty());
}

#[test]
fn expected_next_track_within_batch() {
    let tracks = make_tracks(10);
    let q = CustomQueue::new(tracks.clone(), 0, 5, None, false);

    assert_eq!(q.expected_next_track(), Some(&tracks[1]));
}

#[test]
fn expected_next_track_at_batch_end() {
    let tracks = make_tracks(10);
    let mut q = CustomQueue::new(tracks, 0, 5, None, false);

    for _ in 0..4 {
        q.advance();
    }
    assert_eq!(q.expected_next_track(), None);
}

#[test]
fn append_radio_tracks() {
    let tracks = make_tracks(3);
    let mut q = CustomQueue::new(tracks, 0, 10, None, false);

    let radio = make_tracks(5);
    q.append_radio_tracks(radio);

    assert_eq!(q.len(), 8);
}

#[test]
fn set_shuffle_mode_shuffle() {
    let tracks = make_tracks(10);
    let mut q = CustomQueue::new(tracks.clone(), 3, 5, None, false);

    q.set_shuffle_mode(ShuffleMode::Shuffle);

    assert_eq!(*q.current_track(), tracks[3]);
    assert_eq!(q.position(), 0);
    assert_eq!(q.len(), 10);
    assert_eq!(*q.shuffle_mode(), ShuffleMode::Shuffle);
    assert_eq!(q.batch_end(), 1);
}

#[test]
fn set_shuffle_mode_off_restores_order() {
    let tracks = make_tracks(10);
    let mut q = CustomQueue::new(tracks.clone(), 3, 5, None, false);

    q.set_shuffle_mode(ShuffleMode::Shuffle);
    q.set_shuffle_mode(ShuffleMode::Off);

    assert_eq!(q.play_order(), tracks.as_slice());
    assert_eq!(*q.current_track(), tracks[3]);
    assert_eq!(q.position(), 3);
}

#[test]
fn shuffled_order_is_a_permutation_with_current_first() {
    let tracks = make_tracks(20);
    let mut q = CustomQueue::new(tracks.clone(), 7, 5, None, false);
    q.set_shuffle_mode(ShuffleMode::Shuffle);
    let mut order = q.play_order().to_vec();
    assert_eq!(order[0], 7);
    order.sort();
    assert_eq!(order, tracks);
}

#[test]
fn smart_shuffle_interleaves_a_radio_track_every_four_tracks() {
    let tracks = make_tracks(9);
    let mut q = CustomQueue::new(tracks, 0, 5, None, false);
    let radio = vec![100, 101, 102, 103];
    q.set_shuffle_mode(ShuffleMode::SmartShuffle(radio.clone()));
    let order = q.play_order().to_vec();
    // 9 tracks: radio tracks follow track number 4 and track number 8,
    // the two left over are appended
    assert_eq!(order.len(), 13);
    assert_eq!(order[0], 0);
    assert_eq!(order[5], 100);
    assert_eq!(order[10], 101);
    assert_eq!(&order[11..], &[102, 103]);
    assert_eq!(q.position(), 0);
    assert_eq!(q.batch_end(), 1);
}

#[test]
fn smart_shuffle_without_radio_is_plain_shuffle() {
    let tracks = make_tracks(6);
    let mut q = CustomQueue::new(tracks.clone(), 2, 5, None, false);
    q.set_shuffle_mode(ShuffleMode::SmartShuffle(vec![]));
    let mut order = q.play_order().to_vec();
    assert_eq!(order[0], 2);
    order.sort();
    assert_eq!(order, tracks);
}

#[test]
fn advance_then_retreat_returns_to_the_same_track() {
    let tracks = make_tracks(10);
    let mut q = CustomQueue::new(tracks, 0, 3, None, false);
    for _ in 0..7 {
        let before = q.position();
        q.advance();
        q.retreat();
        assert_eq!(q.position(), before);
        q.advance();
    }
}

#[test]
fn retreat_wraps_with_context_repeat() {
    let tracks = make_tracks(7);
    let mut q = CustomQueue::new(tracks, 0, 3, None, false);
    q.set_repeat(RepeatState::Context);
    match q.retreat() {
        RetreatResult::PreviousBatch(batch) => assert_eq!(batch, vec![4, 5, 6]),
        other => panic!("unexpected {other:?}"),
    }
    assert_eq!(q.position(), 6);
    assert_eq!(q.batch_start(), 4);
    assert_eq!(q.batch_end(), 7);
}

#[test]
fn next_batch_moves_on_until_the_end() {
    let tracks = make_tracks(7);
    let mut q = CustomQueue::new(tracks, 0, 3, None, false);
    assert_eq!(q.next_batch(), Some(vec![3, 4, 5]));
    assert_eq!(q.next_batch(), Some(vec![6]));
    assert_eq!(q.next_batch(), None);
    assert!(q.last_batch_transition().is_some());
    assert!(q.in_batch_cooldown());
}

#[test]
fn new_batch_holds_the_next_tracks() {
    let tracks = make_tracks(5);
    let mut q = CustomQueue::new(tracks, 0, 2, None, false);
    q.advance();
    assert_eq!(q.advance(), AdvanceResult::NewBatch(vec![2, 3]));
    assert!(q.is_at_batch_start());
}

#[test]
fn source_context_is_kept() {
    let ctx = ContextId::Tracks(TracksId::new("spotify:user-liked-tracks", "Liked Tracks"));
    let q = CustomQueue::new(make_tracks(2), 0, 2, Some(ctx.clone()), false);
    assert_eq!(q.source_context(), Some(&ctx));
    assert!(q.last_batch_transition().is_none());
    assert!(!q.in_batch_cooldown());
}

#[test]
fn repeat_setting_cycles_through_three_states() {
    assert_eq!(RepeatState::Off.cycled(), RepeatState::Track);
    assert_eq!(RepeatState::Track.cycled(), RepeatState::Context);
    assert_eq!(RepeatState::Context.cycled(), RepeatState::Off);
}

#[test]
fn shuffle_makes_the_current_track_end_its_batch() {
    let tracks = make_tracks(10);
    let mut q = CustomQueue::new(tracks.clone(), 3, 5, None, false);
    q.set_shuffle_mode(ShuffleMode::Shuffle);
    assert!(q.batch_start() <= q.position() && q.position() < q.batch_end());
    assert_eq!(q.current_batch().last(), Some(&tracks[3]));
    assert_eq!(*q.current_track(), tracks[3]);
    q.set_shuffle_mode(ShuffleMode::SmartShuffle(vec![100, 101]));
    assert!(q.batch_start() <= q.position() && q.position() < q.batch_end());
    assert_eq!(q.current_batch(), &[tracks[3]][..]);
    q.set_shuffle_mode(ShuffleMode::Off);
    assert_eq!(q.position(), 3);
    assert_eq!(q.batch_start(), 3);
    assert_eq!(q.batch_end(), 4);
    assert_eq!(q.current_batch(), &[tracks[3]][..]);
}

#[test]
fn batch_cooldown_lasts_three_seconds() {
    assert!(spotify_player::queue::cooldown_running(0));
    assert!(spotify_player::queue::cooldown_running(2_999_999_999));
    assert!(!spotify_player::queue::cooldown_running(3_000_000_000));
}
