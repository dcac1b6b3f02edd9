//! A playlist: a named folder of audio files and the tracks read from it.

use std::collections::VecDeque;
use crate::error::PlayerError;
use crate::paths::{file_extension, file_name_of, join_path, opt_str_view, path_extension, path_file_name, path_join};
use crate::media::{probe_fits, probe_view, TrackTiming};
use crate::track::{track_of, Track, TrackView};
use vstd::prelude::*;

verus! {

/// An entry of a directory listing: its path, whether it is a regular file,
/// and what a probe of the file reported of its streams (`None` where it
/// could not be read, its format was not recognised, or it is no audio file).
#[derive(Clone, Debug)]
pub struct ScannedFile {
    pub path: String,
    pub is_file: bool,
    pub probe: Option<Vec<TrackTiming>>,
}

/// The extensions of the files the player plays: mp3, wav, flac, ogg.
pub open spec fn is_audio_extension(e: Seq<char>) -> bool {
    ||| e == seq!['m', 'p', '3']
    ||| e == seq!['w', 'a', 'v']
    ||| e == seq!['f', 'l', 'a', 'c']
    ||| e == seq!['o', 'g', 'g']
}

/// Whether a path names an audio file: its extension is one the player plays.
pub open spec fn is_audio_path(path: Seq<char>) -> bool {
    match path_extension(path) {
        Some(e) => is_audio_extension(e),
        None => false,
    }
}

/// Whether a listed entry is an audio file.
pub open spec fn is_audio_entry(f: ScannedFile) -> bool {
    f.is_file && is_audio_path(f.path@)
}

/// The tracks read from a directory listing: one for each audio file, in
/// the listing's order.
pub open spec fn scanned_tracks(files: Seq<ScannedFile>) -> Seq<TrackView>
    decreases files.len(),
{
    if files.len() == 0 {
        Seq::empty()
    } else {
        let rest = scanned_tracks(files.drop_last());
        let f = files.last();
        if is_audio_entry(f) {
            rest.push(track_of(f.path@, probe_view(f.probe)))
        } else {
            rest
        }
    }
}

/// The paths of the audio files of a directory listing, in its order.
pub open spec fn audio_paths(files: Seq<ScannedFile>) -> Seq<Seq<char>>
    decreases files.len(),
{
    if files.len() == 0 {
        Seq::empty()
    } else {
        let rest = audio_paths(files.drop_last());
        let f = files.last();
        if is_audio_entry(f) {
            rest.push(f.path@)
        } else {
            rest
        }
    }
}

/// Whether every listed file's probe gives a duration that a `Duration`
/// holds (see `probe_fits`).
pub open spec fn files_fit(files: Seq<ScannedFile>) -> bool {
    forall|i: int| 0 <= i < files.len() ==> probe_fits(probe_view(#[trigger] files[i].probe))
}

/// The views of a sequence of tracks.
pub open spec fn track_views(ts: Seq<Track>) -> Seq<TrackView> {
    ts.map_values(|t: Track| t@)
}

/// A playlist: its name, its tracks and the folder that holds their files.
#[derive(Clone, Debug)]
pub struct Playlist {
    pub name: String,
    pub tracks: VecDeque<Track>,
    pub folder_path: String,
}

/// What a playlist is, as text and track views.
pub struct PlaylistView {
    pub name: Seq<char>,
    pub tracks: Seq<TrackView>,
    pub folder_path: Seq<char>,
}

impl View for Playlist {
    type V = PlaylistView;

    open spec fn view(&self) -> PlaylistView {
        PlaylistView {
            name: self.name@,
            tracks: track_views(self.tracks@),
            folder_path: self.folder_path@,
        }
    }
}

/// Where a file copied into a playlist's folder goes: the folder joined with
/// the source's file name. Refused where the source is no audio file or has
/// no file name.
pub open spec fn add_destination(folder: Seq<char>, source: Seq<char>) -> Result<Seq<char>, PlayerError> {
    if !is_audio_path(source) {
        Err(PlayerError::UnsupportedFormat)
    } else {
        match path_file_name(source) {
            Some(name) => Ok(path_join(folder, name)),
            None => Err(PlayerError::InvalidFileName),
        }
    }
}

fn ext_is(e: &String, lit: &str) -> (res: bool)
    ensures
        res == (e@ == lit@),
{
    let l = String::from_str(lit);
    *e == l
}

impl Playlist {
    /// An empty playlist named `name`, whose folder is `name` inside
    /// `music_folder`. (The caller creates the folder.)
    pub fn new(name: String, music_folder: &str) -> (res: Playlist)
        ensures
            res@.name == name@,
            res@.tracks == Seq::<TrackView>::empty(),
            res@.folder_path == path_join(music_folder@, name@),
    {
        let folder_path = join_path(music_folder, name.as_str());
        let res = Playlist { name, tracks: VecDeque::new(), folder_path };
        assert(res@.tracks =~= Seq::<TrackView>::empty());
        res
    }

    /// Whether `path` names an audio file (extension mp3, wav, flac or ogg).
    pub fn is_audio_file(path: &str) -> (res: bool)
        ensures
            res == is_audio_path(path@),
    {
        match file_extension(path) {
            Some(e) => {
                proof {
                    reveal_strlit("mp3");
                    reveal_strlit("wav");
                    reveal_strlit("flac");
                    reveal_strlit("ogg");
                }
                let r = ext_is(&e, "mp3") || ext_is(&e, "wav") || ext_is(&e, "flac") || ext_is(&e, "ogg");
                assert("mp3"@ =~= seq!['m', 'p', '3']);
                assert("wav"@ =~= seq!['w', 'a', 'v']);
                assert("flac"@ =~= seq!['f', 'l', 'a', 'c']);
                assert("ogg"@ =~= seq!['o', 'g', 'g']);
                r
            },
            None => false,
        }
    }

    /// Replaces the tracks with those read from the listing of the folder:
    /// one for each audio file, in the listing's order.
    pub fn load_tracks(&mut self, files: &Vec<ScannedFile>)
        requires
            files_fit(files@),
        ensures
            final(self)@.name == old(self)@.name,
            final(self)@.folder_path == old(self)@.folder_path,
            final(self)@.tracks == scanned_tracks(files@),
    {
        self.tracks.clear();
        assert(track_views(self.tracks@) =~= Seq::<TrackView>::empty());
        let mut i: usize = 0;
        while i < files.len()
            invariant
                files_fit(files@),
                0 <= i <= files@.len(),
                self.name == old(self).name,
                self.folder_path == old(self).folder_path,
                track_views(self.tracks@) == scanned_tracks(files@.take(i as int)),
            decreases files@.len() - i,
        {
            assert(files@.take(i + 1).drop_last() =~= files@.take(i as int));
            self.append_if_audio(&files[i]);
            i = i + 1;
        }
        assert(files@.take(files@.len() as int) =~= files@);
    }

    /// Appends a track for a listed entry, where it is an audio file.
    pub(crate) fn append_if_audio(&mut self, f: &ScannedFile)
        requires
            probe_fits(probe_view(f.probe)),
        ensures
            final(self).name == old(self).name,
            final(self).folder_path == old(self).folder_path,
            track_views(final(self).tracks@) == if is_audio_entry(*f) {
                track_views(old(self).tracks@).push(track_of(f.path@, probe_view(f.probe)))
            } else {
                track_views(old(self).tracks@)
            },
    {
        if f.is_file && Playlist::is_audio_file(f.path.as_str()) {
            let t = Track::new(f.path.clone(), &f.probe);
            let ghost before = self.tracks@;
            self.tracks.push_back(t);
            assert(track_views(self.tracks@) =~= track_views(before).push(t@));
        }
    }

    /// Where `source_path` goes when it is added to this playlist: the
    /// playlist's folder joined with its file name (see `add_destination`).
    pub fn add_track_destination(&self, source_path: &str) -> (res: Result<String, PlayerError>)
        ensures
            match res {
                Ok(d) => add_destination(self.folder_path@, source_path@) == Ok::<Seq<char>, PlayerError>(d@),
                Err(e) => add_destination(self.folder_path@, source_path@) == Err::<Seq<char>, PlayerError>(e),
            },
    {
        if !Playlist::is_audio_file(source_path) {
            return Err(PlayerError::UnsupportedFormat);
        }
        match file_name_of(source_path) {
            Some(name) => Ok(join_path(self.folder_path.as_str(), name.as_str())),
            None => Err(PlayerError::InvalidFileName),
        }
    }

    /// Adds the file at `source_path` to this playlist. `copied` is the outcome
    /// of copying it to `add_track_destination(source_path)`: what a probe of
    /// the copy reported of its streams (`None` where it could not be read or
    /// its format was not recognised), or the copy's error.
    /// A source that is no audio file, or has no file name, is refused before
    /// any copy; a failed copy adds nothing.
    pub fn add_track_from_path(&mut self, source_path: &str, copied: Result<Option<Vec<TrackTiming>>, String>) -> (res: Result<(), PlayerError>)
        requires
            copied matches Ok(p) ==> probe_fits(probe_view(p)),
        ensures
            final(self)@.name == old(self)@.name,
            final(self)@.folder_path == old(self)@.folder_path,
            match add_destination(old(self)@.folder_path, source_path@) {
                Err(e) => res == Err::<(), PlayerError>(e) && final(self)@.tracks == old(self)@.tracks,
                Ok(d) => match copied {
                    Err(m) => res == Err::<(), PlayerError>(PlayerError::Io(m)) && final(self)@.tracks == old(self)@.tracks,
                    Ok(probe) => res is Ok && final(self)@.tracks == old(self)@.tracks.push(
                        track_of(d, probe_view(probe)),
                    ),
                },
            },
    {
        let dest = match self.add_track_destination(source_path) {
            Ok(d) => d,
            Err(e) => return Err(e),
        };
        match copied {
            Err(m) => Err(PlayerError::Io(m)),
            Ok(probe) => {
                let t = Track::new(dest, &probe);
                let ghost before = self.tracks@;
                self.tracks.push_back(t);
                assert(track_views(self.tracks@) =~= track_views(before).push(t@));
                Ok(())
            },
        }
    }

    /// Takes the track at `index` out of the playlist, where there is one,
    /// and hands it back (the caller deletes its file).
    pub fn remove_track(&mut self, index: usize) -> (res: Option<Track>)
        ensures
            final(self)@.name == old(self)@.name,
            final(self)@.folder_path == old(self)@.folder_path,
            if index < old(self)@.tracks.len() {
                &&& res matches Some(t) && t@ == old(self)@.tracks[index as int]
                &&& final(self)@.tracks == old(self)@.tracks.remove(index as int)
            } else {
                &&& res is None
                &&& final(self)@.tracks == old(self)@.tracks
            },
    {
        let ghost before = self.tracks@;
        let r = self.tracks.remove(index);
        proof {
            if index < before.len() {
                assert(track_views(self.tracks@) =~= track_views(before).remove(index as int));
            }
        }
        r
    }

    /// Empties the playlist (the caller deletes the audio files of its folder).
    pub fn clear_tracks(&mut self)
        ensures
            final(self)@.name == old(self)@.name,
            final(self)@.folder_path == old(self)@.folder_path,
            final(self)@.tracks == Seq::<TrackView>::empty(),
    {
        self.tracks.clear();
        assert(track_views(self.tracks@) =~= Seq::<TrackView>::empty());
    }

    /// The paths of the audio files of a directory listing, in its order:
    /// the files that `clear_tracks` has deleted from a playlist's folder.
    pub fn audio_files(files: &Vec<ScannedFile>) -> (res: Vec<String>)
        ensures
            res@.map_values(|s: String| s@) == audio_paths(files@),
    {
        let mut out: Vec<String> = Vec::new();
        let mut i: usize = 0;
        while i < files.len()
            invariant
                0 <= i <= files@.len(),
                out@.map_values(|s: String| s@) == audio_paths(files@.take(i as int)),
            decreases files@.len() - i,
        {
            let f = &files[i];
            assert(files@.take(i + 1).drop_last() =~= files@.take(i as int));
            if f.is_file && Playlist::is_audio_file(f.path.as_str()) {
                let ghost before = out@;
                out.push(f.path.clone());
                assert(out@.map_values(|s: String| s@) =~= before.map_values(|s: String| s@).push(f.path@));
            }
            i = i + 1;
        }
        assert(files@.take(files@.len() as int) =~= files@);
        out
    }
}

} // verus!
