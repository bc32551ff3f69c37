use midi_improv_hero::mode::RecordingMode;
use midi_improv_hero::recorder::Recorder;
use midi_improv_hero::recording::Recording;

const SECOND: u64 = 1_000_000;

fn offsets(r: &Recording<u8>) -> Vec<u64> {
    let mut v = Vec::new();
    for i in 0..r.len() {
        v.push(r.offset(i));
    }
    v
}

fn events(r: &Recording<u8>) -> Vec<u8> {
    let mut v = Vec::new();
    for i in 0..r.len() {
        v.push(*r.event(i));
    }
    v
}

fn recording_at(timeout: u64) -> Recorder<u8> {
    let mut r = Recorder::new(timeout, String::from("port"));
    r.set_mode(RecordingMode::Record);
    r
}

#[test]
fn phrases_split_on_long_gap() {
    let mut r = recording_at(SECOND);
    r.receive(0, 1);
    r.receive(300_000, 2);
    r.receive(600_000, 3);
    r.receive(2 * SECOND, 4);
    assert_eq!(r.len(), 2);
    assert_eq!(offsets(r.index(0)), vec![0, 300_000, 600_000]);
    assert_eq!(events(r.index(0)), vec![1, 2, 3]);
    assert_eq!(offsets(r.index(1)), vec![0]);
    assert_eq!(events(r.index(1)), vec![4]);
}

#[test]
fn gap_equal_to_timeout_starts_new_phrase() {
    let mut r = recording_at(SECOND);
    r.receive(0, 1);
    r.receive(SECOND, 2);
    assert_eq!(r.len(), 2);
    r.receive(SECOND + SECOND - 1, 3);
    assert_eq!(r.len(), 2);
    assert_eq!(offsets(r.index(1)), vec![0, SECOND - 1]);
}

#[test]
fn first_event_opens_phrase() {
    let mut r = recording_at(5 * SECOND);
    assert!(!r.actively_recording(0));
    r.receive(7 * SECOND, 9);
    assert_eq!(r.len(), 1);
    assert!(r.actively_recording(8 * SECOND));
    assert!(!r.actively_recording(12 * SECOND));
    assert_eq!(offsets(r.index(0)), vec![0]);
}

#[test]
fn playthrough_stores_nothing() {
    let mut r: Recorder<u8> = Recorder::new(SECOND, String::from("port"));
    for i in 0..1000u64 {
        r.receive(i * 1000, (i % 128) as u8);
    }
    assert_eq!(r.len(), 0);
    assert!(r.is_empty());
    assert_eq!(r.solo_count(), 0);
    assert_eq!(r.mode(), RecordingMode::Playthrough);
}

#[test]
fn playthrough_leaves_stored_phrases_alone() {
    let mut r = recording_at(SECOND);
    r.receive(0, 1);
    r.set_mode(RecordingMode::Playthrough);
    r.receive(100, 2);
    r.receive(5 * SECOND, 3);
    assert_eq!(r.len(), 1);
    assert_eq!(events(r.index(0)), vec![1]);
}

#[test]
fn clock_going_back_counts_as_no_time() {
    let mut r = recording_at(SECOND);
    r.receive(500_000, 1);
    r.receive(800_000, 2);
    r.receive(100_000, 3);
    assert_eq!(offsets(r.index(0)), vec![0, 300_000, 300_000]);
}

fn four_second_backing() -> Recorder<u8> {
    let mut r = recording_at(5 * SECOND);
    r.receive(0, 60);
    r.receive(4 * SECOND, 64);
    assert_eq!(r.index(0).duration(), 4 * SECOND);
    r.set_mode(RecordingMode::SoloOver);
    r
}

#[test]
fn solo_keeps_events_within_backing() {
    let mut r = four_second_backing();
    let start = 10 * SECOND;
    assert!(r.start_solo(0, start));
    assert!(r.actively_soloing());
    assert_eq!(r.solo_count(), 1);
    assert!(r.solo(0).is_empty());
    r.receive(start + SECOND, 1);
    r.receive(start + 3_900_000, 2);
    assert!(r.actively_soloing());
    r.receive(start + 4_200_000, 3);
    assert!(!r.actively_soloing());
    assert_eq!(offsets(r.solo(0)), vec![SECOND, 3_900_000]);
    assert_eq!(events(r.solo(0)), vec![1, 2]);
    assert_eq!(r.len(), 1);
}

#[test]
fn termination_event_after_silence_ends_solo() {
    let mut r = four_second_backing();
    assert!(r.start_solo(0, 10 * SECOND));
    r.receive(10 * SECOND + 4 * SECOND + 1, 0);
    assert!(!r.actively_soloing());
    assert!(r.solo(0).is_empty());
}

#[test]
fn event_at_exact_duration_is_kept() {
    let mut r = four_second_backing();
    assert!(r.start_solo(0, 10 * SECOND));
    r.receive(14 * SECOND, 5);
    assert!(r.actively_soloing());
    assert_eq!(offsets(r.solo(0)), vec![4 * SECOND]);
}

#[test]
fn second_solo_refused_while_active() {
    let mut r = four_second_backing();
    assert!(r.start_solo(0, 10 * SECOND));
    assert!(!r.start_solo(0, 11 * SECOND));
    assert_eq!(r.solo_count(), 1);
    r.receive(20 * SECOND, 1);
    assert!(!r.actively_soloing());
    assert!(r.start_solo(0, 21 * SECOND));
    assert_eq!(r.solo_count(), 2);
}

#[test]
fn solo_mode_without_session_ignores_events() {
    let mut r = four_second_backing();
    r.receive(9 * SECOND, 1);
    assert_eq!(r.solo_count(), 0);
    assert_eq!(r.len(), 1);
}

#[test]
fn read_accessors_repeat() {
    let mut r = recording_at(SECOND);
    r.receive(0, 1);
    r.receive(3 * SECOND, 2);
    assert_eq!(r.len(), r.len());
    assert_eq!(r.is_empty(), r.is_empty());
    assert_eq!(offsets(r.index(1)), offsets(r.index(1)));
    assert_eq!(r.len(), 2);
    assert_eq!(r.input_port_name(), "port");
}

#[test]
fn timeout_can_change() {
    let mut r = recording_at(SECOND);
    assert_eq!(r.timeout(), SECOND);
    r.set_timeout(3 * SECOND);
    assert_eq!(r.timeout(), 3 * SECOND);
    r.receive(0, 1);
    r.receive(2 * SECOND, 2);
    assert_eq!(r.len(), 1);
}

#[test]
fn recording_duration_is_last_offset() {
    let mut rec: Recording<u8> = Recording::new();
    assert_eq!(rec.duration(), 0);
    rec.add_message(5, 1);
    rec.add_message(9, 2);
    assert_eq!(rec.duration(), 9);
    assert_eq!(rec.len(), 2);
}
