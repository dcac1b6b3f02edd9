use prakrust::{AudioPlayer, FolderEntry, MusicListing, PlaybackState, PlayerError, ScannedFile, SoundAction, SoundStatus, Track};

fn file(path: &str) -> ScannedFile {
    ScannedFile { path: path.to_string(), is_file: true, probe: None }
}

fn root_file(path: &str) -> FolderEntry {
    FolderEntry { path: path.to_string(), is_dir: false, contents: Ok(Vec::new()) }
}

fn root_dir(path: &str, contents: Vec<ScannedFile>) -> FolderEntry {
    FolderEntry { path: path.to_string(), is_dir: true, contents: Ok(contents) }
}

/// A listing of the music folder that met no error.
fn listing(entries: Vec<FolderEntry>) -> MusicListing {
    MusicListing { entries, error: None }
}

/// A player whose default playlist holds a.mp3, b.mp3, c.mp3.
fn player_with_three() -> AudioPlayer {
    let mut p = AudioPlayer::new("music".to_string());
    let entries = vec![root_dir(
        "music/Default",
        vec![file("music/Default/a.mp3"), file("music/Default/b.mp3"), file("music/Default/c.mp3")],
    )];
    assert!(p.load_playlists(Ok(()), listing(entries)).is_ok());
    p
}

fn started(a: &SoundAction) -> Option<String> {
    match a {
        SoundAction::Start(t) => Some(t.title.clone()),
        _ => None,
    }
}

/// Carries out a start as the application does when loading succeeds.
fn start(p: &mut AudioPlayer, a: SoundAction) {
    if let SoundAction::Start(t) = a {
        p.track_started(t);
    }
}

#[test]
fn a_new_player_has_the_default_playlist() {
    let p = AudioPlayer::new("music".to_string());
    assert_eq!(p.state(), PlaybackState::Stopped);
    assert_eq!(p.playlist_names(), vec!["Default".to_string()]);
    assert_eq!(p.current_playlist_name().map(|s| s.as_str()), Some("Default"));
    assert_eq!(p.playlists()[0].folder_path, "music/Default");
    assert_eq!(p.current_index(), 0);
    assert!(p.current_track().is_none());
    assert!(p.get_current_track().is_none());
}

#[test]
fn play_pause_resume_stop() {
    let mut p = player_with_three();
    let a = p.play();
    assert_eq!(started(&a), Some("a".to_string()));
    assert_eq!(p.state(), PlaybackState::Stopped);
    start(&mut p, a);
    assert_eq!(p.state(), PlaybackState::Playing);
    assert_eq!(p.current_track().map(|t| t.title.as_str()), Some("a"));
    assert!(matches!(p.play(), SoundAction::Nothing));
    assert!(matches!(p.pause(), SoundAction::Pause));
    assert_eq!(p.state(), PlaybackState::Paused);
    assert!(matches!(p.pause(), SoundAction::Nothing));
    assert!(matches!(p.play(), SoundAction::Resume));
    assert_eq!(p.state(), PlaybackState::Playing);
    assert!(matches!(p.stop(), SoundAction::Stop));
    assert_eq!(p.state(), PlaybackState::Stopped);
    assert!(matches!(p.stop(), SoundAction::Stop));
    assert_eq!(p.stored_position(), 0);
}

#[test]
fn play_with_no_tracks_does_nothing() {
    let mut p = AudioPlayer::new("music".to_string());
    assert!(matches!(p.play(), SoundAction::Nothing));
    assert_eq!(p.state(), PlaybackState::Stopped);
}

#[test]
fn next_wraps_and_previous_wraps() {
    let mut p = player_with_three();
    assert_eq!(started(&p.next()), Some("b".to_string()));
    assert_eq!(p.current_index(), 1);
    assert_eq!(started(&p.next()), Some("c".to_string()));
    assert_eq!(started(&p.next()), Some("a".to_string()));
    assert_eq!(p.current_index(), 0);
    assert_eq!(started(&p.previous()), Some("c".to_string()));
    assert_eq!(p.current_index(), 2);
}

#[test]
fn next_then_previous_returns_to_the_same_track() {
    let mut p = player_with_three();
    p.play_track_at(1);
    let _ = p.next();
    let a = p.previous();
    assert_eq!(started(&a), Some("b".to_string()));
    assert_eq!(p.current_index(), 1);
    assert_eq!(p.state(), PlaybackState::Stopped);
}

#[test]
fn next_in_an_empty_playlist_does_nothing() {
    let mut p = AudioPlayer::new("music".to_string());
    assert!(matches!(p.next(), SoundAction::Nothing));
    assert!(matches!(p.previous(), SoundAction::Nothing));
}

#[test]
fn seek_is_capped_by_the_track() {
    let mut p = player_with_three();
    // without a loaded track a seek does nothing
    assert!(matches!(p.seek_to(5_000_000_000, None), SoundAction::Nothing));
    assert_eq!(p.stored_position(), 0);
    let a = p.play();
    start(&mut p, a);
    // a track of unknown length can be sought up to five minutes
    assert!(matches!(p.seek_to(400_000_000_000, Some(SoundStatus::Playing)), SoundAction::Seek(300_000_000_000)));
    assert_eq!(p.stored_position(), 300_000_000_000);
    // seeking again to the same place changes nothing more
    assert!(matches!(p.seek_to(400_000_000_000, Some(SoundStatus::Playing)), SoundAction::Seek(300_000_000_000)));
    assert_eq!(p.stored_position(), 300_000_000_000);
    assert!(matches!(p.seek_to(7_000_000_000, Some(SoundStatus::Paused)), SoundAction::Seek(7_000_000_000)));
    // a stopped sound, or none, does not seek but the position is kept
    assert!(matches!(p.seek_to(9_000_000_000, Some(SoundStatus::Stopped)), SoundAction::Nothing));
    assert_eq!(p.stored_position(), 9_000_000_000);
    assert!(matches!(p.seek_to(8_000_000_000, None), SoundAction::Nothing));
    assert_eq!(p.stored_position(), 8_000_000_000);
}

#[test]
fn shown_position_follows_the_sound() {
    let mut p = player_with_three();
    assert_eq!(p.get_position(Some((SoundStatus::Playing, 42))), 42);
    let a = p.play();
    start(&mut p, a);
    assert_eq!(p.get_position(Some((SoundStatus::Playing, 1_000))), 1_000);
    assert_eq!(p.get_position(Some((SoundStatus::Paused, 900_000_000_000))), 300_000_000_000);
    assert_eq!(p.get_position(Some((SoundStatus::Stopped, 1_000))), 0);
    assert_eq!(p.get_position(None), 0);
}

#[test]
fn update_follows_the_sound() {
    let mut p = player_with_three();
    let a = p.play();
    start(&mut p, a);
    assert!(matches!(p.update(Some((SoundStatus::Playing, 2_000_000_000))), SoundAction::Nothing));
    assert_eq!(p.stored_position(), 2_000_000_000);
    // the sound ended: the player moves on
    let a = p.update(Some((SoundStatus::Stopped, 3_000_000_000)));
    assert_eq!(started(&a), Some("b".to_string()));
    start(&mut p, a);
    assert_eq!(p.current_index(), 1);
    // the sound paused on its own: so does the player
    assert!(matches!(p.update(Some((SoundStatus::Paused, 10))), SoundAction::Nothing));
    assert_eq!(p.state(), PlaybackState::Paused);
    // a paused player does not follow
    assert!(matches!(p.update(Some((SoundStatus::Stopped, 20))), SoundAction::Nothing));
    assert_eq!(p.stored_position(), 10);
}

#[test]
fn create_and_switch_playlists() {
    let mut p = player_with_three();
    let name = "Rock".to_string();
    assert_eq!(p.plan_create_playlist(&name), Some("music/Rock".to_string()));
    assert!(p.create_playlist(name.clone(), Ok(())).is_ok());
    assert_eq!(p.current_playlist_name().map(|s| s.as_str()), Some("Rock"));
    assert_eq!(p.playlist_names(), vec!["Default".to_string(), "Rock".to_string()]);
    assert_eq!(p.plan_create_playlist(&name), None);
    assert!(p.create_playlist(name, Err("exists".to_string())).is_ok());
    assert_eq!(p.playlists().len(), 2);
    let failed = p.create_playlist("Jazz".to_string(), Err("read-only".to_string()));
    assert!(matches!(failed, Err(PlayerError::Io(ref m)) if m == "read-only"));
    assert_eq!(p.playlists().len(), 2);
    assert!(matches!(p.switch_playlist("Default".to_string()), SoundAction::Stop));
    assert_eq!(p.current_playlist_name().map(|s| s.as_str()), Some("Default"));
    assert!(matches!(p.switch_playlist("Nope".to_string()), SoundAction::Nothing));
    assert_eq!(p.current_playlist_name().map(|s| s.as_str()), Some("Default"));
}

#[test]
fn add_track_to_a_named_playlist() {
    let mut p = AudioPlayer::new("music".to_string());
    assert_eq!(p.plan_add_track("/tmp/x.ogg", "Default").ok(), Some("music/Default/x.ogg".to_string()));
    assert!(matches!(p.plan_add_track("/tmp/x.ogg", "Nope"), Err(PlayerError::PlaylistNotFound)));
    assert!(p.add_track_to_playlist("/tmp/x.ogg", "Default", Ok(None)).is_ok());
    assert_eq!(p.get_current_playlist().map(|pl| pl.tracks.len()), Some(1));
    let missing = p.add_track_to_playlist("/tmp/y.ogg", "Nope", Ok(None));
    assert!(matches!(missing, Err(PlayerError::PlaylistNotFound)));
    let wrong = p.add_track_to_playlist("/tmp/y.doc", "Default", Ok(None));
    assert!(matches!(wrong, Err(PlayerError::UnsupportedFormat)));
    assert_eq!(p.get_current_playlist().map(|pl| pl.tracks.len()), Some(1));
}

#[test]
fn removing_tracks_keeps_the_index_in_range() {
    let mut p = player_with_three();
    p.play_track_at(2);
    assert_eq!(p.removal_target(0), Some("music/Default/a.mp3".to_string()));
    assert_eq!(p.removal_target(9), None);
    // removing a track before the current one shifts the index
    assert!(matches!(p.remove_track_from_current_playlist(0, Ok(())), Ok(SoundAction::Nothing)));
    assert_eq!(p.current_index(), 1);
    assert_eq!(p.get_current_track().map(|t| t.title), Some("c".to_string()));
    // removing the current track stops and forgets it
    let a = p.play();
    start(&mut p, a);
    assert!(matches!(p.remove_track_from_current_playlist(1, Ok(())), Ok(SoundAction::Stop)));
    assert_eq!(p.state(), PlaybackState::Stopped);
    assert!(p.current_track().is_none());
    assert_eq!(p.current_index(), 0);
    // removing the last track leaves the first index, stopped
    assert!(matches!(p.remove_track_from_current_playlist(0, Ok(())), Ok(SoundAction::Stop)));
    assert_eq!(p.current_index(), 0);
    assert_eq!(p.get_current_playlist().map(|pl| pl.tracks.len()), Some(0));
}

#[test]
fn a_failed_deletion_removes_the_track_only() {
    let mut p = player_with_three();
    p.play_track_at(2);
    let r = p.remove_track_from_current_playlist(0, Err("busy".to_string()));
    assert!(matches!(r, Err(PlayerError::Io(ref m)) if m == "busy"));
    assert_eq!(p.get_current_playlist().map(|pl| pl.tracks.len()), Some(2));
    assert_eq!(p.current_index(), 2);
}

#[test]
fn clearing_the_current_playlist() {
    let mut p = player_with_three();
    assert_eq!(p.clear_target(), Some("music/Default".to_string()));
    let failed = p.clear_current_playlist(Err("denied".to_string()));
    assert!(matches!(failed, Err(PlayerError::Io(_))));
    assert_eq!(p.get_current_playlist().map(|pl| pl.tracks.len()), Some(3));
    p.play_track_at(1);
    assert!(matches!(p.clear_current_playlist(Ok(())), Ok(SoundAction::Stop)));
    assert_eq!(p.get_current_playlist().map(|pl| pl.tracks.len()), Some(0));
    assert_eq!(p.current_index(), 0);
    assert!(p.current_track().is_none());
}

#[test]
fn loading_playlists_from_the_music_folder() {
    let mut p = AudioPlayer::new("music".to_string());
    assert!(p.create_playlist("Gone".to_string(), Ok(())).is_ok());
    let entries = vec![
        root_dir("music/Rock", vec![file("music/Rock/r1.mp3"), file("music/Rock/r.txt")]),
        root_file("music/top.flac"),
        root_dir("music/Default", vec![file("music/Default/d1.mp3"), file("music/Default/d2.wav")]),
        root_file("music/readme.md"),
        root_dir("music/Jazz", vec![]),
    ];
    assert!(p.load_playlists(Ok(()), listing(entries)).is_ok());
    assert_eq!(p.playlist_names(), vec!["Default".to_string(), "Rock".to_string(), "Jazz".to_string()]);
    let ps = p.playlists();
    // the default playlist is read from its own folder, not the music folder's top
    assert_eq!(ps[0].tracks.len(), 2);
    assert_eq!(ps[0].tracks[0].path, "music/Default/d1.mp3");
    assert_eq!(ps[0].folder_path, "music/Default");
    assert_eq!(ps[1].tracks.len(), 1);
    assert_eq!(ps[1].folder_path, "music/Rock");
    assert_eq!(ps[2].tracks.len(), 0);
    // the current playlist was gone: back to the default one
    assert_eq!(p.current_playlist_name().map(|s| s.as_str()), Some("Default"));
    assert_eq!(p.current_index(), 0);
}

#[test]
fn without_its_folder_the_default_playlist_loads_empty() {
    let mut p = AudioPlayer::new("music".to_string());
    assert!(p.load_playlists(Ok(()), listing(vec![root_file("music/top.mp3")])).is_ok());
    assert_eq!(p.playlist_names(), vec!["Default".to_string()]);
    assert_eq!(p.playlists()[0].tracks.len(), 0);
}

#[test]
fn an_added_track_survives_a_reload() {
    let mut p = AudioPlayer::new("music".to_string());
    assert!(p.create_playlist("Rock".to_string(), Ok(())).is_ok());
    let rock = p.plan_add_track("/home/u/Song.mp3", "Rock").ok().unwrap();
    assert!(p.add_track_to_playlist("/home/u/Song.mp3", "Rock", Ok(None)).is_ok());
    let default = p.plan_add_track("/home/u/Other.ogg", "Default").ok().unwrap();
    assert!(p.add_track_to_playlist("/home/u/Other.ogg", "Default", Ok(None)).is_ok());
    let entries = vec![
        root_dir("music/Default", vec![file(&default)]),
        root_dir("music/Rock", vec![file(&rock)]),
    ];
    assert!(p.load_playlists(Ok(()), listing(entries)).is_ok());
    let ps = p.playlists();
    assert_eq!(ps[0].name, "Default");
    assert_eq!(ps[0].tracks.iter().filter(|t| t.path == default).count(), 1);
    assert_eq!(ps[1].name, "Rock");
    assert_eq!(ps[1].tracks.iter().filter(|t| t.path == rock).count(), 1);
    assert_eq!(ps[1].tracks[0].title, "Song");
}

#[test]
fn loading_keeps_a_current_playlist_that_is_still_there() {
    let mut p = AudioPlayer::new("music".to_string());
    assert!(p.create_playlist("Rock".to_string(), Ok(())).is_ok());
    let entries = vec![root_dir("music/Rock", vec![file("music/Rock/r1.mp3")])];
    assert!(p.load_playlists(Ok(()), listing(entries)).is_ok());
    assert_eq!(p.current_playlist_name().map(|s| s.as_str()), Some("Rock"));
}

#[test]
fn a_failed_listing_keeps_what_was_read_before_it() {
    let mut p = player_with_three();
    // the music folder could not be listed at all: only the empty default playlist
    let r = p.load_playlists(Ok(()), MusicListing { entries: Vec::new(), error: Some("no such directory".to_string()) });
    assert!(matches!(r, Err(PlayerError::Io(ref m)) if m == "no such directory"));
    assert_eq!(p.playlist_names(), vec!["Default".to_string()]);
    assert_eq!(p.playlists()[0].tracks.len(), 0);
    // a directory could not be listed: the playlists before it are kept
    let entries = vec![
        root_dir("music/Rock", vec![file("music/Rock/r1.mp3")]),
        FolderEntry { path: "music/Jazz".to_string(), is_dir: true, contents: Err("denied".to_string()) },
        root_dir("music/Pop", vec![]),
    ];
    let r = p.load_playlists(Ok(()), listing(entries));
    assert!(matches!(r, Err(PlayerError::Io(ref m)) if m == "denied"));
    assert_eq!(p.playlist_names(), vec!["Default".to_string(), "Rock".to_string()]);
    // the default playlist's folder could not be made: no playlist is left
    let r = p.load_playlists(Err("read-only".to_string()), listing(Vec::new()));
    assert!(matches!(r, Err(PlayerError::Io(ref m)) if m == "read-only"));
    assert!(p.playlists().is_empty());
}

#[test]
fn clicking_a_track_while_playing_only_moves_the_index() {
    let mut p = player_with_three();
    let a = p.play();
    start(&mut p, a);
    assert!(matches!(p.play_track_at(2), SoundAction::Nothing));
    assert_eq!(p.current_index(), 2);
    assert_eq!(p.current_track().map(|t| t.title.as_str()), Some("a"));
}

#[test]
fn the_duplicate_of_a_track_is_equal() {
    let t = Track::new("music/x.mp3".to_string(), &None);
    let d = t.duplicate();
    assert_eq!(d.path, t.path);
    assert_eq!(d.title, t.title);
    assert_eq!(d.duration, t.duration);
}
