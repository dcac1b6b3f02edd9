use prakrust::clock::{clock_label, seek_back_target, seek_forward_target, track_length};
use prakrust::media::{
    duration_from_probe, duration_from_timing, frames_to_nanos, probe_in_range, timing_in_range, TimeBase,
    TrackTiming, MAX_DURATION_NANOS,
};
use prakrust::paths::{file_extension, file_stem, name_extension, name_stem};
use prakrust::{Playlist, PlayerError, Track};

fn timing(numer: u32, denom: u32, frames: Option<u64>) -> TrackTiming {
    TrackTiming { time_base: TimeBase::new(numer, denom), n_frames: frames }
}

#[test]
fn stems_and_extensions_of_paths() {
    assert_eq!(file_stem("music/song.mp3"), Some("song".to_string()));
    assert_eq!(file_stem("music/archive.tar.gz"), Some("archive.tar".to_string()));
    assert_eq!(file_stem("music/.hidden"), Some(".hidden".to_string()));
    assert_eq!(file_stem("music/noext"), Some("noext".to_string()));
    assert_eq!(file_stem("/"), None);
    assert_eq!(file_stem("music/.."), None);
    assert_eq!(file_extension("music/archive.tar.gz"), Some("gz".to_string()));
    assert_eq!(file_extension("music/.hidden"), None);
    assert_eq!(file_extension("music/noext"), None);
    assert_eq!(file_extension("music/"), None);
}

#[test]
fn stems_and_extensions_of_names() {
    assert_eq!(name_stem("a."), "a");
    assert_eq!(name_extension("a."), Some(String::new()));
    assert_eq!(name_stem(".a.b"), ".a");
    assert_eq!(name_extension(".a.b"), Some("b".to_string()));
    assert_eq!(name_stem("трек.flac"), "трек");
}

#[test]
fn audio_files_are_mp3_wav_flac_ogg() {
    assert!(Playlist::is_audio_file("music/a.mp3"));
    assert!(Playlist::is_audio_file("music/a.wav"));
    assert!(Playlist::is_audio_file("music/a.flac"));
    assert!(Playlist::is_audio_file("a.ogg"));
    assert!(!Playlist::is_audio_file("music/a.MP3"));
    assert!(!Playlist::is_audio_file("music/a.txt"));
    assert!(!Playlist::is_audio_file("music/mp3"));
    assert!(!Playlist::is_audio_file("music/.mp3"));
    assert!(!Playlist::is_audio_file("music/a.mp3/.."));
}

#[test]
fn track_titles_come_from_file_stems() {
    let t = Track::new("music/Rock/Song One.mp3".to_string(), &None);
    assert_eq!(t.path, "music/Rock/Song One.mp3");
    assert_eq!(t.title, "Song One");
    assert_eq!(t.duration, None);
    let u = Track::new("..".to_string(), &None);
    assert_eq!(u.title, "Unknown");
}

#[test]
fn track_duration_from_its_first_stream() {
    let probe = Some(vec![timing(1, 8000, Some(8000)), timing(1, 44_100, Some(1))]);
    let t = Track::new("music/beep.wav".to_string(), &probe);
    assert_eq!(t.title, "beep");
    assert_eq!(t.duration, Some(1_000_000_000));
    let no_streams = Track::new("music/empty.ogg".to_string(), &Some(Vec::new()));
    assert_eq!(no_streams.duration, Some(180_000_000_000));
}

#[test]
fn time_bases_have_nonzero_denominators() {
    assert!(TimeBase::new(1, 0).is_none());
    let tb = TimeBase::new(3, 7).unwrap();
    assert_eq!((tb.numer(), tb.denom()), (3, 7));
}

#[test]
fn frames_times_time_base_rounded_to_the_nanosecond() {
    assert_eq!(frames_to_nanos(44_100, 1, 44_100), 1_000_000_000);
    assert_eq!(frames_to_nanos(1, 1, 3), 333_333_333);
    assert_eq!(frames_to_nanos(2, 1, 3), 666_666_667);
    assert_eq!(frames_to_nanos(1, 1, 2_000_000_000), 1);
    assert_eq!(frames_to_nanos(0, 1, 48_000), 0);
    // long streams keep their exact length, up to what a `Duration` holds
    assert_eq!(frames_to_nanos(u64::MAX, 1, 1), u64::MAX as u128 * 1_000_000_000);
    assert_eq!(frames_to_nanos(u64::MAX, 2, 3), 12_297_829_382_473_034_410_000_000_000);
}

#[test]
fn durations_longer_than_a_duration_holds_are_out_of_range() {
    assert!(timing_in_range(&timing(1, 1, Some(u64::MAX))));
    assert!(!timing_in_range(&timing(2, 1, Some(u64::MAX))));
    assert!(timing_in_range(&timing(2, 1, None)));
    assert!(probe_in_range(&None));
    assert!(probe_in_range(&Some(Vec::new())));
    assert!(!probe_in_range(&Some(vec![timing(u32::MAX, 1, Some(u64::MAX))])));
    assert!(probe_in_range(&Some(vec![timing(1, 1, Some(5)), timing(u32::MAX, 1, Some(u64::MAX))])));
}

#[test]
fn probe_reports_give_durations() {
    assert_eq!(duration_from_probe(&None), None);
    assert_eq!(duration_from_probe(&Some(Vec::new())), Some(180_000_000_000));
    assert_eq!(duration_from_probe(&Some(vec![timing(1, 44_100, None)])), Some(180_000_000_000));
    let no_base = TrackTiming { time_base: None, n_frames: Some(10) };
    assert_eq!(duration_from_timing(&no_base), 180_000_000_000);
    assert_eq!(duration_from_probe(&Some(vec![timing(1, 1000, Some(1500))])), Some(1_500_000_000));
}

#[test]
fn clock_labels() {
    assert_eq!(clock_label(0), "00:00");
    assert_eq!(clock_label(999_999_999), "00:00");
    assert_eq!(clock_label(61_000_000_000), "01:01");
    assert_eq!(clock_label(3_599_000_000_000), "59:59");
    assert_eq!(clock_label(6_000_000_000_000), "100:00");
    assert_eq!(clock_label(MAX_DURATION_NANOS), "307445734561825860:15");
}

#[test]
fn seek_step_targets() {
    assert_eq!(seek_back_target(25_000_000_000, 10), 15_000_000_000);
    assert_eq!(seek_back_target(5_000_000_000, 10), 0);
    assert_eq!(seek_back_target(10_000_000_000, 10), 0);
    assert_eq!(seek_back_target(MAX_DURATION_NANOS, u64::MAX), 999_999_999);
    assert_eq!(seek_forward_target(5_000_000_000, 10), 15_000_000_000);
    assert_eq!(seek_forward_target(999_999_999, u64::MAX), MAX_DURATION_NANOS);
}

#[test]
fn shown_track_length_falls_back_to_three_minutes() {
    let t = Track::new("a.mp3".to_string(), &None);
    assert_eq!(track_length(&t), 180_000_000_000);
    let u = Track::new("a.wav".to_string(), &Some(vec![timing(1, 8000, Some(4000))]));
    assert_eq!(track_length(&u), 500_000_000);
}

#[test]
fn error_messages() {
    assert_eq!(PlayerError::UnsupportedFormat.message(), "Unsupported audio format");
    assert_eq!(PlayerError::InvalidFileName.message(), "Invalid file name");
    assert_eq!(PlayerError::PlaylistNotFound.message(), "Playlist not found");
    assert_eq!(PlayerError::Io("disk full".to_string()).message(), "disk full");
}
