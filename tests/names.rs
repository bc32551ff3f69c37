use midi_improv_hero::mode::RecordingMode;
use midi_improv_hero::{filename_sans_suffix, stem};
use std::path::PathBuf;

#[test]
fn mode_labels() {
    assert_eq!(RecordingMode::Playthrough.text(), "Play Freely");
    assert_eq!(RecordingMode::Record.text(), "Record Accompaniment");
    assert_eq!(RecordingMode::SoloOver.text(), "Solo Over Recording");
}

#[test]
fn stem_stops_at_first_dot() {
    assert_eq!(stem("BravuraText.otf"), "BravuraText");
    assert_eq!(stem("a.tar.gz"), "a");
    assert_eq!(stem("plain"), "plain");
    assert_eq!(stem(".hidden"), "");
    assert_eq!(stem(""), "");
}

#[test]
fn filename_without_suffix() {
    let p = PathBuf::from("/fonts/bravura/BravuraText.otf");
    assert_eq!(filename_sans_suffix(&p), Some(String::from("BravuraText")));
    assert_eq!(filename_sans_suffix(&PathBuf::from("/")), None);
}

#[test]
fn chord_runs_keep_first_start() {
    let input = vec![
        (String::from("C"), 0),
        (String::from("C"), 500_000),
        (String::from("G7"), 1_000_000),
        (String::from("C"), 1_500_000),
        (String::from("C"), 2_000_000),
    ];
    let out = midi_improv_hero::chords::chords_starts(&input);
    assert_eq!(
        out,
        vec![
            (String::from("C"), 0),
            (String::from("G7"), 1_000_000),
            (String::from("C"), 1_500_000),
        ]
    );
    assert!(midi_improv_hero::chords::chords_starts(&Vec::new()).is_empty());
}
