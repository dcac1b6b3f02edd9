use prakrust::{Playlist, PlayerError, ScannedFile, Track};

fn file(path: &str) -> ScannedFile {
    ScannedFile { path: path.to_string(), is_file: true, probe: None }
}

fn dir(path: &str) -> ScannedFile {
    ScannedFile { path: path.to_string(), is_file: false, probe: None }
}

#[test]
fn new_playlist_lives_in_the_music_folder() {
    let p = Playlist::new("Rock".to_string(), "music");
    assert_eq!(p.name, "Rock");
    assert_eq!(p.folder_path, "music/Rock");
    assert!(p.tracks.is_empty());
}

#[test]
fn load_tracks_keeps_audio_files_in_listing_order() {
    let mut p = Playlist::new("Rock".to_string(), "music");
    p.tracks.push_back(Track::new("old.mp3".to_string(), &None));
    let listing = vec![
        file("music/Rock/b.ogg"),
        file("music/Rock/notes.txt"),
        dir("music/Rock/sub.mp3"),
        file("music/Rock/a.mp3"),
    ];
    p.load_tracks(&listing);
    let titles: Vec<&str> = p.tracks.iter().map(|t| t.title.as_str()).collect();
    assert_eq!(titles, vec!["b", "a"]);
    assert_eq!(p.tracks[1].path, "music/Rock/a.mp3");
}

#[test]
fn audio_files_of_a_listing() {
    let listing = vec![file("m/x.flac"), file("m/y.doc"), dir("m/z.wav"), file("m/w.wav")];
    assert_eq!(Playlist::audio_files(&listing), vec!["m/x.flac".to_string(), "m/w.wav".to_string()]);
}

#[test]
fn add_track_destination_and_refusals() {
    let p = Playlist::new("Rock".to_string(), "music");
    assert_eq!(p.add_track_destination("/home/u/Song.mp3").ok(), Some("music/Rock/Song.mp3".to_string()));
    assert!(matches!(p.add_track_destination("/home/u/readme.txt"), Err(PlayerError::UnsupportedFormat)));
    assert!(matches!(p.add_track_destination("/home/u/noext"), Err(PlayerError::UnsupportedFormat)));
}

#[test]
fn add_track_from_path_appends_after_a_copy() {
    let mut p = Playlist::new("Rock".to_string(), "music");
    assert!(p.add_track_from_path("/tmp/a.mp3", Ok(None)).is_ok());
    assert_eq!(p.tracks.len(), 1);
    assert_eq!(p.tracks[0].path, "music/Rock/a.mp3");
    assert_eq!(p.tracks[0].title, "a");
    let failed = p.add_track_from_path("/tmp/b.mp3", Err("permission denied".to_string()));
    assert!(matches!(failed, Err(PlayerError::Io(ref m)) if m == "permission denied"));
    assert_eq!(p.tracks.len(), 1);
    let refused = p.add_track_from_path("/tmp/b.pdf", Ok(None));
    assert!(matches!(refused, Err(PlayerError::UnsupportedFormat)));
    assert_eq!(p.tracks.len(), 1);
}

#[test]
fn remove_track_within_and_past_the_end() {
    let mut p = Playlist::new("Rock".to_string(), "music");
    p.load_tracks(&vec![file("music/Rock/a.mp3"), file("music/Rock/b.mp3"), file("music/Rock/c.mp3")]);
    let removed = p.remove_track(1);
    assert_eq!(removed.map(|t| t.title), Some("b".to_string()));
    assert_eq!(p.tracks.len(), 2);
    assert_eq!(p.tracks[1].title, "c");
    assert!(p.remove_track(5).is_none());
    assert_eq!(p.tracks.len(), 2);
}

#[test]
fn clear_tracks_empties() {
    let mut p = Playlist::new("Rock".to_string(), "music");
    p.load_tracks(&vec![file("music/Rock/a.mp3")]);
    p.clear_tracks();
    assert!(p.tracks.is_empty());
    assert_eq!(p.name, "Rock");
}

#[test]
fn removing_the_added_track_gives_back_the_playlist() {
    let mut p = Playlist::new("Rock".to_string(), "music");
    p.load_tracks(&vec![file("music/Rock/a.mp3"), file("music/Rock/b.mp3")]);
    let before: Vec<String> = p.tracks.iter().map(|t| t.path.clone()).collect();
    assert!(p.add_track_from_path("/tmp/c.mp3", Ok(None)).is_ok());
    let last = p.tracks.len() - 1;
    assert!(p.remove_track(last).is_some());
    let after: Vec<String> = p.tracks.iter().map(|t| t.path.clone()).collect();
    assert_eq!(before, after);
}
