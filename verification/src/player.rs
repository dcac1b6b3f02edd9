//! The player: its playlists, which track is current, and the playback state
//! machine. The player never touches the audio device: each operation that
//! affects the sound returns a `SoundAction` that the caller carries out on
//! the sound it holds, and the caller reports what the sound is doing as a
//! `SoundStatus`.

use crate::error::PlayerError;
use crate::paths::{file_name_of, join_path, opt_str_view, path_file_name, path_join};
use crate::media::{probe_fits, probe_view, TrackTiming};
use crate::playlist::{add_destination, files_fit, scanned_tracks, Playlist, PlaylistView, ScannedFile};
use crate::track::{track_of, Track, TrackView};
use vstd::prelude::*;

verus! {

/// Whether the player is playing.
#[derive(Clone, Copy, Debug, PartialEq, Eq, Structural)]
pub enum PlaybackState {
    Stopped,
    Playing,
    Paused,
}

/// What the sound the caller holds is doing (the audio engine's own
/// playback state).
#[derive(Clone, Copy, Debug, PartialEq, Eq, Structural)]
pub enum SoundStatus {
    Playing,
    Pausing,
    Paused,
    Stopping,
    Stopped,
}

/// What the caller is to do with its sound.
#[derive(Clone, Debug)]
pub enum SoundAction {
    /// Leave it as it is.
    Nothing,
    /// Resume it, where there is one.
    Resume,
    /// Pause it, where there is one.
    Pause,
    /// Stop it and let it go, where there is one.
    Stop,
    /// Stop it and let it go, where there is one; then start streaming this
    /// track from its beginning and report the outcome (`track_started`).
    Start(Track),
    /// Seek it to this position, in nanoseconds.
    Seek(u128),
}

/// A `SoundAction`, with the track it starts as a view.
#[verifier::ext_equal]
pub enum ActionView {
    Nothing,
    Resume,
    Pause,
    Stop,
    Start(TrackView),
    Seek(u128),
}

impl View for SoundAction {
    type V = ActionView;

    open spec fn view(&self) -> ActionView {
        match self {
            SoundAction::Nothing => ActionView::Nothing,
            SoundAction::Resume => ActionView::Resume,
            SoundAction::Pause => ActionView::Pause,
            SoundAction::Stop => ActionView::Stop,
            SoundAction::Start(t) => ActionView::Start(t@),
            SoundAction::Seek(p) => ActionView::Seek(*p),
        }
    }
}

/// The name of the playlist that every player has: its music folder's own files.
pub open spec fn default_name() -> Seq<char> {
    seq!['D', 'e', 'f', 'a', 'u', 'l', 't']
}

/// How far a seek may go in a track whose duration is unknown: five
/// minutes, in nanoseconds.
pub const UNKNOWN_DURATION_LIMIT: u128 = 300_000_000_000;

/// The player's state: its playlists, the one that is current, the index of
/// the current track in it, the track loaded last, the playback state and
/// position (nanoseconds), and the music folder.
pub struct AudioPlayer {
    state: PlaybackState,
    current_track: Option<Track>,
    playlists: Vec<Playlist>,
    current_playlist: Option<String>,
    current_index: usize,
    position: u128,
    music_folder: String,
}

/// What a player is.
#[verifier::ext_equal]
pub struct PlayerView {
    pub state: PlaybackState,
    pub current_track: Option<TrackView>,
    pub playlists: Seq<PlaylistView>,
    pub current_playlist: Option<Seq<char>>,
    pub current_index: nat,
    pub position: u128,
    pub music_folder: Seq<char>,
}

/// The views of a sequence of playlists.
pub open spec fn playlist_views(ps: Seq<Playlist>) -> Seq<PlaylistView> {
    ps.map_values(|p: Playlist| p@)
}

/// The view of an optional track.
pub open spec fn opt_track_view(t: Option<Track>) -> Option<TrackView> {
    match t {
        Some(x) => Some(x@),
        None => None,
    }
}

impl View for AudioPlayer {
    type V = PlayerView;

    closed spec fn view(&self) -> PlayerView {
        PlayerView {
            state: self.state,
            current_track: opt_track_view(self.current_track),
            playlists: playlist_views(self.playlists@),
            current_playlist: match self.current_playlist {
                Some(n) => Some(n@),
                None => None,
            },
            current_index: self.current_index as nat,
            position: self.position,
            music_folder: self.music_folder@,
        }
    }
}

/// Index of the first playlist named `name`, or -1.
pub open spec fn find_playlist(ps: Seq<PlaylistView>, name: Seq<char>) -> int
    decreases ps.len(),
{
    if ps.len() == 0 {
        -1
    } else {
        let r = find_playlist(ps.drop_last(), name);
        if r >= 0 {
            r
        } else if ps.last().name == name {
            ps.len() - 1
        } else {
            -1
        }
    }
}

/// Whether every two playlists have different names.
pub open spec fn names_distinct(ps: Seq<PlaylistView>) -> bool {
    forall|i: int, j: int| 0 <= i < j < ps.len() ==> ps[i].name != ps[j].name
}

/// Playlists of different names, one of them the default playlist.
pub open spec fn playlists_well_formed(ps: Seq<PlaylistView>) -> bool {
    &&& names_distinct(ps)
    &&& find_playlist(ps, default_name()) >= 0
}

/// `ps` with `q` in place of the playlist of its name, or with `q` added
/// where none has it.
pub open spec fn upsert(ps: Seq<PlaylistView>, q: PlaylistView) -> Seq<PlaylistView> {
    let i = find_playlist(ps, q.name);
    if i >= 0 {
        ps.update(i, q)
    } else {
        ps.push(q)
    }
}

/// An entry of the music folder's listing: its path, whether it is a
/// directory, and the listing of that directory (empty for anything else),
/// or the error that listing it met.
#[derive(Debug)]
pub struct FolderEntry {
    pub path: String,
    pub is_dir: bool,
    pub contents: Result<Vec<ScannedFile>, String>,
}

/// A listing of the music folder: the entries read, in order, and the error
/// that stopped it, where one did.
#[derive(Debug)]
pub struct MusicListing {
    pub entries: Vec<FolderEntry>,
    pub error: Option<String>,
}

/// What a directory of the music folder gives: a playlist named by the
/// directory, its tracks read from the directory's listing, or the error
/// that listing met. Entries that are no directory, or have no file name,
/// give nothing.
pub open spec fn dir_step(e: FolderEntry, music_folder: Seq<char>) -> Option<Result<PlaylistView, String>> {
    if e.is_dir {
        match path_file_name(e.path@) {
            Some(n) => Some(
                match e.contents {
                    Ok(c) => Ok(PlaylistView { name: n, tracks: scanned_tracks(c@), folder_path: path_join(music_folder, n) }),
                    Err(m) => Err(m),
                },
            ),
            None => None,
        }
    } else {
        None
    }
}

/// `base` with the playlists of the directories of `entries` put in, in
/// order, up to the first directory whose listing failed; and that failure.
pub open spec fn fold_dir_playlists(base: Seq<PlaylistView>, entries: Seq<FolderEntry>, music_folder: Seq<char>) -> (Seq<PlaylistView>, Option<String>)
    decreases entries.len(),
{
    if entries.len() == 0 {
        (base, None)
    } else {
        let r = fold_dir_playlists(base, entries.drop_last(), music_folder);
        if r.1 is Some {
            r
        } else {
            match dir_step(entries.last(), music_folder) {
                Some(Ok(q)) => (upsert(r.0, q), None),
                Some(Err(m)) => (r.0, Some(m)),
                None => r,
            }
        }
    }
}

/// Whether every directory listing of the music folder's listing holds
/// only files whose probes give durations that a `Duration` holds.
pub open spec fn entries_fit(entries: Seq<FolderEntry>) -> bool {
    forall|k: int| 0 <= k < entries.len() ==> (#[trigger] entries[k].contents matches Ok(c) ==> files_fit(c@))
}

/// The default playlist, empty, in its folder inside the music folder.
pub open spec fn empty_default_playlist(music_folder: Seq<char>) -> PlaylistView {
    PlaylistView { name: default_name(), tracks: Seq::empty(), folder_path: path_join(music_folder, default_name()) }
}

/// The playlists that a listing of the music folder gives: one for each
/// directory, the default playlist first (empty where its folder is not
/// listed); and the failure of a directory's listing, where one failed.
pub open spec fn loaded_playlists(entries: Seq<FolderEntry>, music_folder: Seq<char>) -> (Seq<PlaylistView>, Option<String>) {
    fold_dir_playlists(seq![empty_default_playlist(music_folder)], entries, music_folder)
}

/// The player and outcome after `load_playlists(default_folder, listing)`,
/// the listing being its entries and its error.
pub open spec fn load_spec(
    v: PlayerView,
    default_folder: Result<(), String>,
    entries: Seq<FolderEntry>,
    error: Option<String>,
) -> (PlayerView, Result<(), PlayerError>) {
    match default_folder {
        Err(m) => (PlayerView { playlists: Seq::empty(), ..v }, Err(PlayerError::Io(m))),
        Ok(_) => {
            let (ps, failed) = loaded_playlists(entries, v.music_folder);
            match failed {
                Some(m) => (PlayerView { playlists: ps, ..v }, Err(PlayerError::Io(m))),
                None => match error {
                    Some(m) => (PlayerView { playlists: ps, ..v }, Err(PlayerError::Io(m))),
                    None => {
                        let cur = match v.current_playlist {
                            Some(c) => if find_playlist(ps, c) >= 0 {
                                Some(c)
                            } else {
                                Some(default_name())
                            },
                            None => Some(default_name()),
                        };
                        (PlayerView { playlists: ps, current_playlist: cur, current_index: 0, ..v }, Ok(()))
                    },
                },
            }
        },
    }
}

/// The index of a player's current playlist, or -1 where it has none or its
/// name is not among the playlists.
pub open spec fn current_playlist_index(v: PlayerView) -> int {
    match v.current_playlist {
        Some(n) => find_playlist(v.playlists, n),
        None => -1,
    }
}

/// The track at the current index of the current playlist, where there is one.
pub open spec fn track_at_current(v: PlayerView) -> Option<TrackView> {
    let i = current_playlist_index(v);
    if i >= 0 && v.current_index < v.playlists[i].tracks.len() {
        Some(v.playlists[i].tracks[v.current_index as int])
    } else {
        None
    }
}

/// The longest position that can be sought to in a track: its duration, or
/// five minutes where that is unknown.
pub open spec fn seek_limit(t: TrackView) -> u128 {
    match t.duration {
        Some(d) => d,
        None => UNKNOWN_DURATION_LIMIT,
    }
}

impl PlayerView {
    /// Its playlists have different names, and one of them is the default
    /// playlist: a new player is so, every operation keeps it so, and a load
    /// makes it so unless the default playlist's folder could not be made.
    pub open spec fn well_formed(self) -> bool {
        playlists_well_formed(self.playlists)
    }

    /// The player after `stop`: stopped, at position zero.
    pub open spec fn stopped(self) -> PlayerView {
        PlayerView { state: PlaybackState::Stopped, position: 0, ..self }
    }

    /// The player with a different current index.
    pub open spec fn at_index(self, i: nat) -> PlayerView {
        PlayerView { current_index: i, ..self }
    }
}

/// The player and action after `pause`.
pub open spec fn pause_spec(v: PlayerView) -> (PlayerView, ActionView) {
    if v.state == PlaybackState::Playing {
        (PlayerView { state: PlaybackState::Paused, ..v }, ActionView::Pause)
    } else {
        (v, ActionView::Nothing)
    }
}

/// The player and action after `play`: a paused player resumes; a stopped
/// one stops its sound and starts the current track, where there is one.
pub open spec fn play_spec(v: PlayerView) -> (PlayerView, ActionView) {
    match v.state {
        PlaybackState::Paused => (PlayerView { state: PlaybackState::Playing, ..v }, ActionView::Resume),
        PlaybackState::Stopped => match track_at_current(v) {
            Some(t) => (v.stopped(), ActionView::Start(t)),
            None => (v, ActionView::Nothing),
        },
        PlaybackState::Playing => (v, ActionView::Nothing),
    }
}

/// The index after `next` in a playlist of `len` tracks.
pub open spec fn next_index(i: nat, len: nat) -> nat
    recommends
        len > 0,
{
    ((i + 1) % len) as nat
}

/// The index after `previous` in a playlist of `len` tracks.
pub open spec fn previous_index(i: nat, len: nat) -> nat
    recommends
        len > 0,
{
    if i == 0 {
        (len - 1) as nat
    } else {
        (i - 1) as nat
    }
}

/// The player and action after moving to index `i` of the current playlist
/// and starting the track there, where there is one.
pub open spec fn start_at_spec(v: PlayerView, i: nat) -> (PlayerView, ActionView) {
    let w = v.at_index(i);
    match track_at_current(w) {
        Some(t) => (w.stopped(), ActionView::Start(t)),
        None => (w, ActionView::Nothing),
    }
}

/// The player and action after `next`: in a current playlist with tracks,
/// the index moves one on, wrapping at the end, and that track starts.
pub open spec fn next_spec(v: PlayerView) -> (PlayerView, ActionView) {
    let i = current_playlist_index(v);
    if i >= 0 && v.playlists[i].tracks.len() > 0 {
        start_at_spec(v, next_index(v.current_index, v.playlists[i].tracks.len()))
    } else {
        (v, ActionView::Nothing)
    }
}

/// The player and action after `previous`: in a current playlist with
/// tracks, the index moves one back, wrapping at the start, and that track
/// starts where there is one.
pub open spec fn previous_spec(v: PlayerView) -> (PlayerView, ActionView) {
    let i = current_playlist_index(v);
    if i >= 0 && v.playlists[i].tracks.len() > 0 {
        start_at_spec(v, previous_index(v.current_index, v.playlists[i].tracks.len()))
    } else {
        (v, ActionView::Nothing)
    }
}

/// A playlist with other tracks.
pub open spec fn with_tracks(p: PlaylistView, ts: Seq<TrackView>) -> PlaylistView {
    PlaylistView { tracks: ts, ..p }
}

/// The player and action after `seek_to(position)`, where the caller's sound
/// is in state `sound` (`None`: it holds none). With a loaded track the
/// position becomes the asked one, capped at the track's seek limit; the
/// sound seeks there where it is playing or paused.
pub open spec fn seek_spec(v: PlayerView, position: u128, sound: Option<SoundStatus>) -> (PlayerView, ActionView) {
    match v.current_track {
        None => (v, ActionView::Nothing),
        Some(t) => {
            let c = if position > seek_limit(t) {
                seek_limit(t)
            } else {
                position
            };
            let w = PlayerView { position: c, ..v };
            if sound == Some(SoundStatus::Playing) || sound == Some(SoundStatus::Paused) {
                (w, ActionView::Seek(c))
            } else {
                (w, ActionView::Nothing)
            }
        },
    }
}

/// The position the player shows, where the caller's sound is in state
/// `sound.0` at position `sound.1` (`None`: it holds none): the sound's
/// position, capped at the loaded track's seek limit, while the sound plays
/// or is paused; else the position the player keeps.
pub open spec fn position_spec(v: PlayerView, sound: Option<(SoundStatus, u128)>) -> u128 {
    match sound {
        Some(sp) => if sp.0 == SoundStatus::Playing || sp.0 == SoundStatus::Paused {
            match v.current_track {
                Some(t) => if sp.1 > seek_limit(t) {
                    seek_limit(t)
                } else {
                    sp.1
                },
                None => sp.1,
            }
        } else {
            v.position
        },
        None => v.position,
    }
}

/// The player and action after `update`, where the caller's sound is in
/// state `sound.0` at position `sound.1`: a playing player takes the
/// sound's position; where the sound has stopped it stops and moves on to
/// the next track; where the sound is paused it is paused.
pub open spec fn update_spec(v: PlayerView, sound: Option<(SoundStatus, u128)>) -> (PlayerView, ActionView) {
    if v.state != PlaybackState::Playing {
        (v, ActionView::Nothing)
    } else {
        match sound {
            None => (v, ActionView::Nothing),
            Some(sp) => {
                let w = PlayerView { position: sp.1, ..v };
                if sp.0 == SoundStatus::Stopped {
                    next_spec(PlayerView { state: PlaybackState::Stopped, ..w })
                } else if sp.0 == SoundStatus::Paused {
                    (PlayerView { state: PlaybackState::Paused, ..w }, ActionView::Nothing)
                } else {
                    (w, ActionView::Nothing)
                }
            },
        }
    }
}

/// After the track at `index` is taken out of a playlist of `len` tracks
/// whose current index is `ci`: whether playback stops (and the loaded track
/// is forgotten), and the new current index.
pub open spec fn removal_adjust(index: nat, ci: nat, len: nat) -> (bool, nat)
    recommends
        len > 0,
{
    let stops = index == ci;
    let c1: nat = if index < ci {
        (ci - 1) as nat
    } else {
        ci
    };
    let nl: nat = (len - 1) as nat;
    if c1 >= nl && nl > 0 {
        (stops, (nl - 1) as nat)
    } else if nl == 0 {
        (true, 0)
    } else {
        (stops, c1)
    }
}

/// The outcome of an operation, with the action as a view.
pub open spec fn outcome_view(r: Result<SoundAction, PlayerError>) -> Result<ActionView, PlayerError> {
    match r {
        Ok(a) => Ok(a@),
        Err(e) => Err(e),
    }
}

/// The player and outcome after `remove_track_from_current_playlist(index)`,
/// where deleting the track's file had the outcome `deleted`.
pub open spec fn remove_spec(v: PlayerView, index: nat, deleted: Result<(), String>) -> (PlayerView, Result<ActionView, PlayerError>) {
    let i = current_playlist_index(v);
    if i < 0 {
        (v, Ok(ActionView::Nothing))
    } else {
        let p = v.playlists[i];
        let len = p.tracks.len();
        let ps = if index < len {
            v.playlists.update(i, with_tracks(p, p.tracks.remove(index as int)))
        } else {
            v.playlists
        };
        let w = PlayerView { playlists: ps, ..v };
        if index < len && deleted is Err {
            (w, Err(PlayerError::Io(deleted->Err_0)))
        } else {
            let (stops, ni) = removal_adjust(index, v.current_index, len);
            if stops {
                (PlayerView { current_index: ni, current_track: None, ..w }.stopped(), Ok(ActionView::Stop))
            } else {
                (PlayerView { current_index: ni, ..w }, Ok(ActionView::Nothing))
            }
        }
    }
}

/// The player and outcome after `clear_current_playlist`, where deleting
/// the audio files of its folder had the outcome `deleted`.
pub open spec fn clear_spec(v: PlayerView, deleted: Result<(), String>) -> (PlayerView, Result<ActionView, PlayerError>) {
    let i = current_playlist_index(v);
    if i < 0 {
        (v, Ok(ActionView::Nothing))
    } else if deleted is Err {
        (v, Err(PlayerError::Io(deleted->Err_0)))
    } else {
        let ps = v.playlists.update(i, with_tracks(v.playlists[i], Seq::empty()));
        (PlayerView { playlists: ps, current_track: None, current_index: 0, ..v }.stopped(), Ok(ActionView::Stop))
    }
}

proof fn lemma_find_step(ps: Seq<PlaylistView>, name: Seq<char>, i: int)
    requires
        0 <= i < ps.len(),
    ensures
        find_playlist(ps.take(i + 1), name) == if find_playlist(ps.take(i), name) >= 0 {
            find_playlist(ps.take(i), name)
        } else if ps[i].name == name {
            i
        } else {
            -1
        },
{
    assert(ps.take(i + 1).drop_last() =~= ps.take(i));
}

/// What `find_playlist` gives: -1, or an index whose playlist has the name
/// and before which none has it.
pub proof fn lemma_find_playlist(ps: Seq<PlaylistView>, name: Seq<char>)
    ensures
        -1 <= find_playlist(ps, name) < ps.len(),
        find_playlist(ps, name) >= 0 ==> ps[find_playlist(ps, name)].name == name,
        forall|k: int| 0 <= k < ps.len() && ps[k].name == name ==> find_playlist(ps, name) >= 0 && find_playlist(ps, name) <= k,
    decreases ps.len(),
{
    if ps.len() > 0 {
        let q = ps.drop_last();
        lemma_find_playlist(q, name);
        assert forall|k: int| 0 <= k < ps.len() && ps[k].name == name implies find_playlist(ps, name) >= 0
            && find_playlist(ps, name) <= k by {
            if k < ps.len() - 1 {
                assert(q[k].name == name);
            }
        }
    }
}


/// Replacing a playlist by one of the same name changes no lookup by name.
pub proof fn lemma_find_update(ps: Seq<PlaylistView>, i: int, q: PlaylistView, n: Seq<char>)
    requires
        0 <= i < ps.len(),
        q.name == ps[i].name,
    ensures
        find_playlist(ps.update(i, q), n) == find_playlist(ps, n),
    decreases ps.len(),
{
    let u = ps.update(i, q);
    if i < ps.len() - 1 {
        assert(u.drop_last() =~= ps.drop_last().update(i, q));
        lemma_find_update(ps.drop_last(), i, q, n);
    } else {
        assert(u.drop_last() =~= ps.drop_last());
    }
}

/// Replacing a playlist by one of the same name keeps the playlists well formed.
proof fn lemma_update_keeps_well_formed(ps: Seq<PlaylistView>, i: int, q: PlaylistView)
    requires
        playlists_well_formed(ps),
        0 <= i < ps.len(),
        q.name == ps[i].name,
    ensures
        playlists_well_formed(ps.update(i, q)),
{
    lemma_find_update(ps, i, q, default_name());
    assert forall|a: int, b: int| 0 <= a < b < ps.update(i, q).len() implies ps.update(i, q)[a].name
        != ps.update(i, q)[b].name by {
        assert(ps[a].name != ps[b].name);
    }
}

/// Adding a playlist of a name that none has keeps the playlists well formed.
proof fn lemma_push_keeps_well_formed(ps: Seq<PlaylistView>, q: PlaylistView)
    requires
        playlists_well_formed(ps),
        find_playlist(ps, q.name) == -1,
    ensures
        playlists_well_formed(ps.push(q)),
        find_playlist(ps.push(q), q.name) == ps.len(),
{
    assert(ps.push(q).drop_last() =~= ps);
    lemma_find_playlist(ps, q.name);
    assert forall|i: int, j: int| 0 <= i < j < ps.push(q).len() implies ps.push(q)[i].name != ps.push(q)[j].name by {
        if j == ps.len() {
            assert(ps[i].name != q.name);
        }
    }
}

/// Putting a playlist in keeps the playlists well formed.
pub proof fn lemma_upsert_keeps_well_formed(ps: Seq<PlaylistView>, q: PlaylistView)
    requires
        playlists_well_formed(ps),
    ensures
        playlists_well_formed(upsert(ps, q)),
{
    lemma_find_playlist(ps, q.name);
    let i = find_playlist(ps, q.name);
    if i >= 0 {
        lemma_update_keeps_well_formed(ps, i, q);
    } else {
        lemma_push_keeps_well_formed(ps, q);
    }
}

impl AudioPlayer {
    /// A stopped player whose music folder is `music_folder` and whose only
    /// playlist, current, is the default one (the folder "Default" inside
    /// it), empty. (The caller creates the folders.)
    pub fn new(music_folder: String) -> (res: AudioPlayer)
        ensures
            res@.state == PlaybackState::Stopped,
            res@.current_track is None,
            res@.playlists.len() == 1,
            res@.playlists[0].name == default_name(),
            res@.playlists[0].tracks == Seq::<TrackView>::empty(),
            res@.playlists[0].folder_path == path_join(music_folder@, default_name()),
            res@.current_playlist == Some(default_name()),
            res@.current_index == 0,
            res@.position == 0,
            res@.music_folder == music_folder@,
            res@.well_formed(),
            current_playlist_index(res@) == 0,
    {
        let name = String::from_str("Default");
        proof {
            reveal_strlit("Default");
        }
        assert(name@ =~= default_name());
        let default_playlist = Playlist::new(name.clone(), music_folder.as_str());
        let mut playlists: Vec<Playlist> = Vec::new();
        playlists.push(default_playlist);
        let res = AudioPlayer {
            state: PlaybackState::Stopped,
            current_track: None,
            playlists,
            current_playlist: Some(name),
            current_index: 0,
            position: 0,
            music_folder,
        };
        assert(res@.playlists =~= seq![default_playlist@]);
        assert(res@.playlists.drop_last() =~= Seq::<PlaylistView>::empty());
        assert(find_playlist(Seq::<PlaylistView>::empty(), default_name()) == -1);
        assert(find_playlist(res@.playlists, default_name()) == 0);
        res
    }

    /// The index of the first playlist named `name`.
    fn find_playlist_index(&self, name: &String) -> (res: Option<usize>)
        ensures
            match res {
                Some(i) => i as int == find_playlist(self@.playlists, name@) && i < self.playlists@.len(),
                None => find_playlist(self@.playlists, name@) == -1,
            },
    {
        let mut i: usize = 0;
        while i < self.playlists.len()
            invariant
                0 <= i <= self.playlists@.len(),
                find_playlist(self@.playlists.take(i as int), name@) == -1,
            decreases self.playlists@.len() - i,
        {
            proof {
                lemma_find_step(self@.playlists, name@, i as int);
            }
            if self.playlists[i].name == *name {
                proof {
                    let ps = self@.playlists;
                    lemma_find_playlist(ps, name@);
                    lemma_find_playlist(ps.take(i as int), name@);
                    let f = find_playlist(ps, name@);
                    if f < i {
                        assert(ps.take(i as int)[f].name == name@);
                    }
                }
                return Some(i);
            }
            i = i + 1;
        }
        assert(self@.playlists.take(i as int) =~= self@.playlists);
        None
    }

    /// The index of the current playlist.
    fn current_playlist_position(&self) -> (res: Option<usize>)
        ensures
            match res {
                Some(i) => i as int == current_playlist_index(self@) && i < self.playlists@.len(),
                None => current_playlist_index(self@) == -1,
            },
    {
        match &self.current_playlist {
            Some(n) => self.find_playlist_index(n),
            None => None,
        }
    }

    /// Stops: the player is stopped at position zero; the caller stops and
    /// lets go of its sound.
    pub fn stop(&mut self) -> (res: SoundAction)
        ensures
            final(self)@ == old(self)@.stopped(),
            res@ == ActionView::Stop,
    {
        self.state = PlaybackState::Stopped;
        self.position = 0;
        SoundAction::Stop
    }

    /// Pauses a playing player.
    pub fn pause(&mut self) -> (res: SoundAction)
        ensures
            (final(self)@, res@) == pause_spec(old(self)@),
    {
        if self.state == PlaybackState::Playing {
            self.state = PlaybackState::Paused;
            SoundAction::Pause
        } else {
            SoundAction::Nothing
        }
    }

    /// The track at the current index of the current playlist.
    pub fn get_current_track(&self) -> (res: Option<Track>)
        ensures
            opt_track_view(res) == track_at_current(self@),
    {
        match self.current_playlist_position() {
            Some(i) => {
                let p = &self.playlists[i];
                if self.current_index < p.tracks.len() {
                    Some(p.tracks[self.current_index].duplicate())
                } else {
                    None
                }
            },
            None => None,
        }
    }

    /// The current playlist, where there is one.
    pub fn get_current_playlist(&self) -> (res: Option<&Playlist>)
        ensures
            match res {
                Some(p) => current_playlist_index(self@) >= 0 && p@ == self@.playlists[current_playlist_index(self@)],
                None => current_playlist_index(self@) == -1,
            },
    {
        match self.current_playlist_position() {
            Some(i) => Some(&self.playlists[i]),
            None => None,
        }
    }

    /// Plays: resumes a paused player; a stopped one starts the current
    /// track, where there is one.
    pub fn play(&mut self) -> (res: SoundAction)
        ensures
            (final(self)@, res@) == play_spec(old(self)@),
    {
        match self.state {
            PlaybackState::Paused => {
                self.state = PlaybackState::Playing;
                SoundAction::Resume
            },
            PlaybackState::Stopped => match self.get_current_track() {
                Some(t) => {
                    self.stop();
                    SoundAction::Start(t)
                },
                None => SoundAction::Nothing,
            },
            PlaybackState::Playing => SoundAction::Nothing,
        }
    }

    /// Records that the caller has started streaming `track` (after a
    /// `SoundAction::Start`): the player plays it from its beginning.
    pub fn track_started(&mut self, track: Track)
        ensures
            final(self)@ == (PlayerView {
                state: PlaybackState::Playing,
                position: 0,
                current_track: Some(track@),
                ..old(self)@
            }),
    {
        self.position = 0;
        self.current_track = Some(track);
        self.state = PlaybackState::Playing;
    }

    /// Moves to index `i` of the current playlist and starts the track
    /// there, where there is one.
    fn start_at(&mut self, i: usize) -> (res: SoundAction)
        ensures
            (final(self)@, res@) == start_at_spec(old(self)@, i as nat),
    {
        self.current_index = i;
        match self.get_current_track() {
            Some(t) => {
                self.stop();
                SoundAction::Start(t)
            },
            None => SoundAction::Nothing,
        }
    }

    /// Moves to the next track of the current playlist, wrapping at its end,
    /// and starts it.
    pub fn next(&mut self) -> (res: SoundAction)
        ensures
            (final(self)@, res@) == next_spec(old(self)@),
    {
        match self.current_playlist_position() {
            Some(p) => {
                let len = self.playlists[p].tracks.len();
                if len > 0 {
                    let ci = self.current_index;
                    let j = (ci % len + 1) % len;
                    proof {
                        vstd::arithmetic::div_mod::lemma_add_mod_noop(ci as int, 1, len as int);
                        if len > 1 {
                            vstd::arithmetic::div_mod::lemma_small_mod(1, len as nat);
                        }
                        vstd::arithmetic::div_mod::lemma_mod_bound(ci as int, len as int);
                        if len == 1 {
                            vstd::arithmetic::div_mod::lemma_mod_self_0(1);
                        }
                    }
                    assert(j as nat == next_index(ci as nat, len as nat));
                    self.start_at(j)
                } else {
                    SoundAction::Nothing
                }
            },
            None => SoundAction::Nothing,
        }
    }

    /// Moves to the previous track of the current playlist, wrapping at its
    /// start, and starts it where there is one.
    pub fn previous(&mut self) -> (res: SoundAction)
        ensures
            (final(self)@, res@) == previous_spec(old(self)@),
    {
        match self.current_playlist_position() {
            Some(p) => {
                let len = self.playlists[p].tracks.len();
                if len > 0 {
                    let j = if self.current_index == 0 {
                        len - 1
                    } else {
                        self.current_index - 1
                    };
                    self.start_at(j)
                } else {
                    SoundAction::Nothing
                }
            },
            None => SoundAction::Nothing,
        }
    }

    /// Takes the playlist at `i` out, to be put back with `put_playlist`.
    fn take_playlist(&mut self, i: usize) -> (res: Playlist)
        requires
            i < old(self).playlists@.len(),
        ensures
            res == old(self).playlists@[i as int],
            final(self).playlists@ == old(self).playlists@.remove(i as int),
            final(self).state == old(self).state,
            final(self).current_track == old(self).current_track,
            final(self).current_playlist == old(self).current_playlist,
            final(self).current_index == old(self).current_index,
            final(self).position == old(self).position,
            final(self).music_folder == old(self).music_folder,
    {
        self.playlists.remove(i)
    }

    /// Makes the player current on the playlist named `name`, at its first
    /// track, and stops; where no playlist has that name, nothing changes.
    pub fn switch_playlist(&mut self, playlist_name: String) -> (res: SoundAction)
        ensures
            if find_playlist(old(self)@.playlists, playlist_name@) >= 0 {
                &&& final(self)@ == (PlayerView {
                    current_playlist: Some(playlist_name@),
                    current_index: 0,
                    ..old(self)@
                }).stopped()
                &&& res@ == ActionView::Stop
            } else {
                &&& final(self)@ == old(self)@
                &&& res@ == ActionView::Nothing
            },
            old(self)@.well_formed() ==> final(self)@.well_formed(),
    {
        match self.find_playlist_index(&playlist_name) {
            Some(_) => {
                self.current_playlist = Some(playlist_name);
                self.current_index = 0;
                self.stop()
            },
            None => SoundAction::Nothing,
        }
    }

    /// Moves to track `index` of the current playlist and plays (which
    /// starts it only where the player is stopped).
    pub fn play_track_at(&mut self, index: usize) -> (res: SoundAction)
        ensures
            (final(self)@, res@) == play_spec(old(self)@.at_index(index as nat)),
            old(self)@.well_formed() ==> final(self)@.well_formed(),
    {
        self.current_index = index;
        self.play()
    }

    /// Seeks the loaded track to `position` (nanoseconds), capped at its
    /// seek limit. `sound` is the state of the caller's sound (`None`: it
    /// holds none). Without a loaded track nothing changes.
    pub fn seek_to(&mut self, position: u128, sound: Option<SoundStatus>) -> (res: SoundAction)
        ensures
            (final(self)@, res@) == seek_spec(old(self)@, position, sound),
            old(self)@.well_formed() ==> final(self)@.well_formed(),
    {
        match &self.current_track {
            Some(t) => {
                let limit = match t.duration {
                    Some(d) => d,
                    None => UNKNOWN_DURATION_LIMIT,
                };
                let c = if position > limit {
                    limit
                } else {
                    position
                };
                self.position = c;
                match sound {
                    Some(SoundStatus::Playing) | Some(SoundStatus::Paused) => SoundAction::Seek(c),
                    _ => SoundAction::Nothing,
                }
            },
            None => SoundAction::Nothing,
        }
    }

    /// The position to show, in nanoseconds, where the caller's sound is in
    /// state `sound.0` at position `sound.1` (`None`: it holds none).
    pub fn get_position(&self, sound: Option<(SoundStatus, u128)>) -> (res: u128)
        ensures
            res == position_spec(self@, sound),
    {
        match sound {
            Some((SoundStatus::Playing, p)) | Some((SoundStatus::Paused, p)) => match &self.current_track {
                Some(t) => {
                    let limit = match t.duration {
                        Some(d) => d,
                        None => UNKNOWN_DURATION_LIMIT,
                    };
                    if p > limit {
                        limit
                    } else {
                        p
                    }
                },
                None => p,
            },
            _ => self.position,
        }
    }

    /// Brings a playing player up to date with the caller's sound, in state
    /// `sound.0` at position `sound.1` (`None`: it holds none): takes its
    /// position; where it has stopped, stops and moves on to the next track;
    /// where it is paused, pauses.
    pub fn update(&mut self, sound: Option<(SoundStatus, u128)>) -> (res: SoundAction)
        ensures
            (final(self)@, res@) == update_spec(old(self)@, sound),
            old(self)@.well_formed() ==> final(self)@.well_formed(),
    {
        if self.state != PlaybackState::Playing {
            return SoundAction::Nothing;
        }
        match sound {
            None => SoundAction::Nothing,
            Some((status, p)) => {
                self.position = p;
                match status {
                    SoundStatus::Stopped => {
                        self.state = PlaybackState::Stopped;
                        self.next()
                    },
                    SoundStatus::Paused => {
                        self.state = PlaybackState::Paused;
                        SoundAction::Nothing
                    },
                    _ => SoundAction::Nothing,
                }
            },
        }
    }

    /// The path of the file to delete before
    /// `remove_track_from_current_playlist(index)`: that of the track at
    /// `index` of the current playlist, where there is one.
    pub fn removal_target(&self, index: usize) -> (res: Option<String>)
        ensures
            opt_str_view(res) == if current_playlist_index(self@) >= 0 && index
                < self@.playlists[current_playlist_index(self@)].tracks.len() {
                Some(self@.playlists[current_playlist_index(self@)].tracks[index as int].path)
            } else {
                None
            },
    {
        match self.current_playlist_position() {
            Some(i) => {
                let p = &self.playlists[i];
                if index < p.tracks.len() {
                    Some(p.tracks[index].path.clone())
                } else {
                    None
                }
            },
            None => None,
        }
    }

    /// Takes the track at `index` out of the current playlist. `deleted` is
    /// the outcome of deleting its file (see `removal_target`). Where that
    /// failed the track is out and nothing else changes; else the current
    /// index follows the tracks, and playback stops where the current track
    /// was removed or the playlist is left empty.
    pub fn remove_track_from_current_playlist(&mut self, index: usize, deleted: Result<(), String>) -> (res: Result<SoundAction, PlayerError>)
        requires
            current_playlist_index(old(self)@) >= 0 ==> old(self)@.playlists[current_playlist_index(
                old(self)@,
            )].tracks.len() > 0,
        ensures
            (final(self)@, outcome_view(res)) == remove_spec(old(self)@, index as nat, deleted),
            old(self)@.well_formed() ==> final(self)@.well_formed(),
    {
        let i = match self.current_playlist_position() {
            Some(i) => i,
            None => return Ok(SoundAction::Nothing),
        };
        let ghost v0 = self@;
        let mut p = self.take_playlist(i);
        let tracks_len = p.tracks.len();
        let removed = p.remove_track(index);
        self.playlists.insert(i, p);
        assert(self@.playlists =~= remove_spec(v0, index as nat, deleted).0.playlists);
        proof {
            if v0.well_formed() {
                lemma_update_keeps_well_formed(v0.playlists, i as int, p@);
            }
        }
        if removed.is_some() {
            if let Err(m) = deleted {
                return Err(PlayerError::Io(m));
            }
        }
        let mut stopped = false;
        if index == self.current_index {
            stopped = true;
        } else if index < self.current_index {
            self.current_index = self.current_index - 1;
        }
        let new_len = tracks_len - 1;
        if self.current_index >= new_len && new_len > 0 {
            self.current_index = new_len - 1;
        } else if new_len == 0 {
            self.current_index = 0;
            stopped = true;
        }
        if stopped {
            self.current_track = None;
            Ok(self.stop())
        } else {
            Ok(SoundAction::Nothing)
        }
    }

    /// The folder whose audio files are to be deleted before
    /// `clear_current_playlist`: that of the current playlist.
    pub fn clear_target(&self) -> (res: Option<String>)
        ensures
            opt_str_view(res) == if current_playlist_index(self@) >= 0 {
                Some(self@.playlists[current_playlist_index(self@)].folder_path)
            } else {
                None
            },
    {
        match self.current_playlist_position() {
            Some(i) => Some(self.playlists[i].folder_path.clone()),
            None => None,
        }
    }

    /// Empties the current playlist. `deleted` is the outcome of deleting
    /// the audio files of its folder (see `clear_target`); where that failed
    /// nothing changes. Else the player forgets its track, goes back to the
    /// first index and stops.
    pub fn clear_current_playlist(&mut self, deleted: Result<(), String>) -> (res: Result<SoundAction, PlayerError>)
        ensures
            (final(self)@, outcome_view(res)) == clear_spec(old(self)@, deleted),
            old(self)@.well_formed() ==> final(self)@.well_formed(),
    {
        let i = match self.current_playlist_position() {
            Some(i) => i,
            None => return Ok(SoundAction::Nothing),
        };
        if let Err(m) = deleted {
            return Err(PlayerError::Io(m));
        }
        let ghost v0 = self@;
        let mut p = self.take_playlist(i);
        p.clear_tracks();
        self.playlists.insert(i, p);
        assert(self@.playlists =~= v0.playlists.update(i as int, with_tracks(v0.playlists[i as int], Seq::empty())));
        proof {
            if v0.well_formed() {
                lemma_update_keeps_well_formed(v0.playlists, i as int, p@);
            }
        }
        self.current_track = None;
        self.current_index = 0;
        Ok(self.stop())
    }

    /// Puts a playlist in: in place of the one of its name, or added.
    fn upsert_playlist(&mut self, p: Playlist)
        ensures
            final(self)@ == (PlayerView { playlists: upsert(old(self)@.playlists, p@), ..old(self)@ }),
    {
        let ghost v0 = self@;
        match self.find_playlist_index(&p.name) {
            Some(i) => {
                self.playlists.set(i, p);
            },
            None => {
                self.playlists.push(p);
            },
        }
        assert(self@.playlists =~= upsert(v0.playlists, p@));
    }

    /// The folder to create before `create_playlist(name)`: `name` inside the
    /// music folder, where no playlist has that name yet.
    pub fn plan_create_playlist(&self, name: &String) -> (res: Option<String>)
        ensures
            opt_str_view(res) == if find_playlist(self@.playlists, name@) >= 0 {
                None
            } else {
                Some(path_join(self@.music_folder, name@))
            },
    {
        match self.find_playlist_index(name) {
            Some(_) => None,
            None => Some(join_path(self.music_folder.as_str(), name.as_str())),
        }
    }

    /// Adds an empty playlist named `name` and makes it current, where none
    /// has that name. `folder_created` is the outcome of creating its folder
    /// (see `plan_create_playlist`); where that failed nothing changes.
    pub fn create_playlist(&mut self, name: String, folder_created: Result<(), String>) -> (res: Result<(), PlayerError>)
        ensures
            if find_playlist(old(self)@.playlists, name@) >= 0 {
                &&& res is Ok
                &&& final(self)@ == old(self)@
            } else {
                match folder_created {
                    Err(m) => {
                        &&& res == Err::<(), PlayerError>(PlayerError::Io(m))
                        &&& final(self)@ == old(self)@
                    },
                    Ok(_) => {
                        &&& res is Ok
                        &&& final(self)@ == (PlayerView {
                            playlists: old(self)@.playlists.push(PlaylistView {
                                name: name@,
                                tracks: Seq::empty(),
                                folder_path: path_join(old(self)@.music_folder, name@),
                            }),
                            current_playlist: Some(name@),
                            ..old(self)@
                        })
                    },
                }
            },
            old(self)@.well_formed() ==> final(self)@.well_formed(),
    {
        if self.find_playlist_index(&name).is_some() {
            return Ok(());
        }
        if let Err(m) = folder_created {
            return Err(PlayerError::Io(m));
        }
        let ghost v0 = self@;
        let p = Playlist::new(name.clone(), self.music_folder.as_str());
        self.playlists.push(p);
        self.current_playlist = Some(name);
        assert(self@.playlists =~= v0.playlists.push(p@));
        proof {
            if v0.well_formed() {
                lemma_push_keeps_well_formed(v0.playlists, p@);
            }
        }
        Ok(())
    }

    /// Where `source_path` goes when it is added to the playlist named
    /// `playlist_name` (see `Playlist::add_track_destination`).
    pub fn plan_add_track(&self, source_path: &str, playlist_name: &str) -> (res: Result<String, PlayerError>)
        ensures
            find_playlist(self@.playlists, playlist_name@) < 0 ==> res == Err::<String, PlayerError>(PlayerError::PlaylistNotFound),
            find_playlist(self@.playlists, playlist_name@) >= 0 ==> match res {
                Ok(d) => add_destination(self@.playlists[find_playlist(self@.playlists, playlist_name@)].folder_path, source_path@)
                    == Ok::<Seq<char>, PlayerError>(d@),
                Err(e) => add_destination(self@.playlists[find_playlist(self@.playlists, playlist_name@)].folder_path, source_path@)
                    == Err::<Seq<char>, PlayerError>(e),
            },
    {
        let name = String::from_str(playlist_name);
        match self.find_playlist_index(&name) {
            Some(i) => self.playlists[i].add_track_destination(source_path),
            None => Err(PlayerError::PlaylistNotFound),
        }
    }

    /// Adds the file at `source_path` to the playlist named `playlist_name`.
    /// `copied` is the outcome of copying it to `plan_add_track`'s
    /// destination (see `Playlist::add_track_from_path`).
    pub fn add_track_to_playlist(&mut self, source_path: &str, playlist_name: &str, copied: Result<Option<Vec<TrackTiming>>, String>) -> (res: Result<(), PlayerError>)
        requires
            copied matches Ok(p) ==> probe_fits(probe_view(p)),
        ensures
            ({
                let i = find_playlist(old(self)@.playlists, playlist_name@);
                if i < 0 {
                    &&& res == Err::<(), PlayerError>(PlayerError::PlaylistNotFound)
                    &&& final(self)@ == old(self)@
                } else {
                    let p = old(self)@.playlists[i];
                    match add_destination(p.folder_path, source_path@) {
                        Err(e) => res == Err::<(), PlayerError>(e) && final(self)@ == old(self)@,
                        Ok(d) => match copied {
                            Err(m) => res == Err::<(), PlayerError>(PlayerError::Io(m)) && final(self)@ == old(self)@,
                            Ok(probe) => {
                                &&& res is Ok
                                &&& final(self)@ == (PlayerView {
                                    playlists: old(self)@.playlists.update(i, with_tracks(p, p.tracks.push(track_of(d, probe_view(probe))))),
                                    ..old(self)@
                                })
                            },
                        },
                    }
                }
            }),
            old(self)@.well_formed() ==> final(self)@.well_formed(),
    {
        let name = String::from_str(playlist_name);
        let i = match self.find_playlist_index(&name) {
            Some(i) => i,
            None => return Err(PlayerError::PlaylistNotFound),
        };
        let ghost v0 = self@;
        let mut p = self.take_playlist(i);
        let r = p.add_track_from_path(source_path, copied);
        self.playlists.insert(i, p);
        assert(self@.playlists =~= v0.playlists.update(i as int, p@));
        proof {
            if v0.well_formed() {
                lemma_update_keeps_well_formed(v0.playlists, i as int, p@);
            }
        }
        r
    }

    /// Rebuilds the playlists from a listing of the music folder: each
    /// directory is a playlist of the audio files in it, named by the
    /// directory; the default playlist comes first, from the folder
    /// "Default", and is empty where that folder is not listed. A current
    /// playlist that is gone falls back to the default one; the current index
    /// goes back to the first. `default_folder` is the outcome of making sure
    /// the default playlist's folder exists: where that failed no playlist is
    /// left. Where the listing of the music folder, or of one of its
    /// directories, failed, the playlists read before the failure are kept
    /// and the error is returned.
    pub fn load_playlists(&mut self, default_folder: Result<(), String>, listing: MusicListing) -> (res: Result<(), PlayerError>)
        requires
            entries_fit(listing.entries@),
        ensures
            (final(self)@, res) == load_spec(old(self)@, default_folder, listing.entries@, listing.error),
            default_folder is Ok ==> final(self)@.well_formed(),
    {
        if let Err(m) = default_folder {
            self.playlists = Vec::new();
            assert(self@.playlists =~= Seq::<PlaylistView>::empty());
            return Err(PlayerError::Io(m));
        }
        let dname = String::from_str("Default");
        proof {
            reveal_strlit("Default");
        }
        assert(dname@ =~= default_name());
        let default = Playlist::new(dname.clone(), self.music_folder.as_str());
        assert(default@.tracks =~= Seq::<TrackView>::empty());
        let ghost music = self.music_folder@;
        let ghost base = seq![default@];
        assert(default@ == empty_default_playlist(music));
        self.playlists = vec![default];
        assert(self@.playlists =~= base);
        assert(base.drop_last() =~= Seq::<PlaylistView>::empty());
        assert(playlists_well_formed(base));
        let entries = listing.entries;
        let ghost v1 = self@;
        let mut failed: Option<String> = None;
        let mut k: usize = 0;
        while k < entries.len()
            invariant
                0 <= k <= entries@.len(),
                self.music_folder@ == music,
                self@ == (PlayerView { playlists: self@.playlists, ..v1 }),
                (self@.playlists, failed) == fold_dir_playlists(base, entries@.take(k as int), music),
                playlists_well_formed(self@.playlists),
                dname@ == default_name(),
                entries_fit(entries@),
            decreases entries@.len() - k,
        {
            assert(entries@.take(k + 1).drop_last() =~= entries@.take(k as int));
            let e = &entries[k];
            if failed.is_none() && e.is_dir {
                match file_name_of(e.path.as_str()) {
                    Some(n) => match &e.contents {
                        Ok(c) => {
                            let mut p = Playlist::new(n, self.music_folder.as_str());
                            p.load_tracks(c);
                            proof {
                                lemma_upsert_keeps_well_formed(self@.playlists, p@);
                            }
                            self.upsert_playlist(p);
                        },
                        Err(m) => {
                            failed = Some(m.clone());
                        },
                    },
                    None => {},
                }
            }
            k = k + 1;
        }
        assert(entries@.take(entries@.len() as int) =~= entries@);
        if let Some(m) = failed {
            return Err(PlayerError::Io(m));
        }
        if let Some(m) = listing.error {
            return Err(PlayerError::Io(m));
        }
        let keep = match &self.current_playlist {
            Some(c) => self.find_playlist_index(c).is_some(),
            None => false,
        };
        if !keep {
            self.current_playlist = Some(dname);
        }
        self.current_index = 0;
        Ok(())
    }

    /// The names of the playlists, in order.
    pub fn playlist_names(&self) -> (res: Vec<String>)
        ensures
            res@.map_values(|s: String| s@) == self@.playlists.map_values(|p: PlaylistView| p.name),
    {
        let mut out: Vec<String> = Vec::new();
        let mut i: usize = 0;
        while i < self.playlists.len()
            invariant
                0 <= i <= self.playlists@.len(),
                out@.len() == i,
                forall|k: int| 0 <= k < i ==> #[trigger] out@[k]@ == self@.playlists[k].name,
            decreases self.playlists@.len() - i,
        {
            assert(self@.playlists[i as int] == self.playlists@[i as int]@);
            out.push(self.playlists[i].name.clone());
            i = i + 1;
        }
        assert(out@.map_values(|s: String| s@) =~= self@.playlists.map_values(|p: PlaylistView| p.name));
        out
    }

    /// The playlists, in order.
    pub fn playlists(&self) -> (res: &Vec<Playlist>)
        ensures
            playlist_views(res@) == self@.playlists,
    {
        &self.playlists
    }

    /// The playback state.
    pub fn state(&self) -> (res: PlaybackState)
        ensures
            res == self@.state,
    {
        self.state
    }

    /// The track loaded last, where there is one.
    pub fn current_track(&self) -> (res: Option<&Track>)
        ensures
            match res {
                Some(t) => self@.current_track == Some(t@),
                None => self@.current_track is None,
            },
    {
        match &self.current_track {
            Some(t) => Some(t),
            None => None,
        }
    }

    /// The name of the current playlist, where there is one.
    pub fn current_playlist_name(&self) -> (res: Option<&String>)
        ensures
            match res {
                Some(n) => self@.current_playlist == Some(n@),
                None => self@.current_playlist is None,
            },
    {
        match &self.current_playlist {
            Some(n) => Some(n),
            None => None,
        }
    }

    /// The index of the current track in the current playlist.
    pub fn current_index(&self) -> (res: usize)
        ensures
            res as nat == self@.current_index,
    {
        self.current_index
    }

    /// The position the player keeps, in nanoseconds.
    pub fn stored_position(&self) -> (res: u128)
        ensures
            res == self@.position,
    {
        self.position
    }

    /// The music folder.
    pub fn music_folder(&self) -> (res: &String)
        ensures
            res@ == self@.music_folder,
    {
        &self.music_folder
    }
}

} // verus!
