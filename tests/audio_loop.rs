use some_bevy_tools::audio_loop::{pending_after, AudioLoopEvent, LoopableAudioSource};

// Ten mono frames per second: sample i plays at 100 * i ms.
fn source(loop_start: i64, loop_end: i64) -> LoopableAudioSource {
    let samples: Vec<i16> = (0..20).collect();
    LoopableAudioSource::new(samples, 10, 1, loop_start, loop_end)
}

fn read(s: &mut LoopableAudioSource, n: usize) -> Vec<i16> {
    (0..n).map(|_| s.next()).collect()
}

#[test]
fn plays_through_the_loop_end_then_jumps_back() {
    let mut s = source(0, 1000);
    assert_eq!(read(&mut s, 11), (0..11).collect::<Vec<i16>>());
    assert_eq!(s.next(), 0);
    assert_eq!(s.next(), 1);
}

#[test]
fn pending_start_takes_effect_at_loop_end() {
    let mut s = source(0, 500);
    s.set_loop_start(300);
    assert_eq!(read(&mut s, 6), vec![0, 1, 2, 3, 4, 5]);
    assert_eq!(read(&mut s, 3), vec![3, 4, 5]);
    assert_eq!(s.next(), 3);
}

#[test]
fn pending_end_takes_effect_at_loop_end() {
    let mut s = source(0, 200);
    s.set_loop_end(400);
    assert_eq!(read(&mut s, 3), vec![0, 1, 2]);
    assert_eq!(read(&mut s, 5), vec![0, 1, 2, 3, 4]);
    assert_eq!(s.next(), 0);
}

#[test]
fn end_of_samples_wraps_to_loop_start() {
    let mut s = source(1500, i64::MAX);
    s.set_position(1900);
    assert_eq!(s.next(), 19);
    assert_eq!(s.next(), 15);
}

#[test]
fn immediate_loop_points() {
    let mut s = source(0, 1000);
    s.set_loop_end_immediate(100);
    assert_eq!(read(&mut s, 3), vec![0, 1, 0]);
    s.set_loop_start_immediate(700);
    s.set_loop_end_immediate(800);
    // Setting the start at once does not move playback.
    assert_eq!(read(&mut s, 3), vec![1, 2, 3]);
}

#[test]
fn positions_in_milliseconds() {
    let mut s = source(0, 1000);
    s.set_position(250);
    assert_eq!(s.get_position(), 200);
    s.move_position(450);
    assert_eq!(s.get_position(), 600);
    s.move_position(-1000);
    assert_eq!(s.get_position(), 0);
    s.set_position(-5);
    assert_eq!(s.get_position(), 0);
}

#[test]
fn stereo_positions_count_both_channels() {
    let samples: Vec<i16> = (0..40).collect();
    let mut s = LoopableAudioSource::new(samples, 10, 2, 0, 1000);
    s.set_position(500);
    assert_eq!(s.next(), 10);
    assert_eq!(s.get_position(), 550);
    assert_eq!(s.channels(), 2);
    assert_eq!(s.sample_rate(), 10);
    assert_eq!(s.total_duration(), None);
    assert_eq!(s.current_frame_len(), None);
}

#[test]
fn add_loop_offset_sets_pending_points() {
    let mut s = source(100, 300);
    s.add_loop_offset(200);
    assert_eq!(read(&mut s, 4), vec![0, 1, 2, 3]);
    assert_eq!(s.next(), 3);
}

#[test]
fn add_loop_offset_moves_negative_start_to_zero() {
    let mut s = source(-100, 200);
    s.add_loop_offset(1000);
    // The pending loop is 0 to 300 ms.
    assert_eq!(read(&mut s, 3), vec![0, 1, 2]);
    assert_eq!(read(&mut s, 5), vec![0, 1, 2, 3, 0]);
}

#[test]
fn move_loop_offset_keeps_distance_to_start() {
    let mut s = source(0, 1000);
    s.set_position(300);
    s.move_loop_offset(200);
    assert_eq!(s.get_position(), 500);
    assert_eq!(s.next(), 5);
}

#[test]
fn loop_position_sets_all_and_drops_pending() {
    let mut s = source(0, 1000);
    s.set_loop_start(900);
    s.apply_event(AudioLoopEvent::LoopPosition(200, 400, 300));
    assert_eq!(read(&mut s, 3), vec![3, 4, 2]);
}

#[test]
fn events_apply_their_methods() {
    let mut s = source(0, 1000);
    s.apply_event(AudioLoopEvent::EndPositionImmediate(100));
    s.apply_event(AudioLoopEvent::StartPosition(500));
    s.apply_event(AudioLoopEvent::EndPosition(600));
    assert_eq!(read(&mut s, 4), vec![0, 1, 5, 6]);
    s.apply_event(AudioLoopEvent::StartPositionImmediate(1000));
    assert_eq!(s.next(), 10);
    s.apply_event(AudioLoopEvent::LoopOffset(100));
    s.apply_event(AudioLoopEvent::LoopOffsetImmediate(0));
    assert_eq!(s.get_position(), 1100);
}

#[test]
fn reading_is_refused_past_the_samples() {
    let empty = LoopableAudioSource::new(vec![], 10, 1, 0, 1000);
    assert!(!empty.can_read());
    let s = source(5000, 6000);
    let mut t = s;
    t.set_position(2500);
    assert!(!t.can_read());
    assert!(source(0, 1000).can_read());
}

#[test]
fn pending_after_keeps_unapplied_events_in_order() {
    let events = vec![
        (1u64, AudioLoopEvent::StartPosition(100)),
        (2u64, AudioLoopEvent::EndPosition(200)),
        (1u64, AudioLoopEvent::LoopOffset(5)),
        (3u64, AudioLoopEvent::LoopPosition(0, 10, 5)),
    ];
    let kept = pending_after(&events, &vec![true, false, true, false]);
    assert_eq!(
        kept,
        vec![
            (2u64, AudioLoopEvent::EndPosition(200)),
            (3u64, AudioLoopEvent::LoopPosition(0, 10, 5)),
        ]
    );
    assert!(pending_after(&events, &vec![true; 4]).is_empty());
    assert_eq!(pending_after(&events, &vec![false; 4]), events);
}
