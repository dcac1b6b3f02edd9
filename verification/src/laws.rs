//! What holds of the player across its operations.

use crate::clock::{back_target, forward_target};
use crate::player::{
    clear_spec, remove_spec, update_spec,
    current_playlist_index, empty_default_playlist, dir_step, find_playlist, fold_dir_playlists,
    lemma_find_playlist, lemma_find_update, lemma_upsert_keeps_well_formed, load_spec,
    loaded_playlists, next_index, next_spec, pause_spec, play_spec, playlists_well_formed,
    position_spec, previous_index, previous_spec, removal_adjust, seek_limit, seek_spec,
    track_at_current, upsert, ActionView, FolderEntry, PlaybackState, PlayerView, SoundStatus,
};
use crate::playlist::{add_destination, is_audio_entry, is_audio_path, scanned_tracks, PlaylistView, ScannedFile};
use crate::media::{duration_of_probe, frames_nanos, probe_view, TrackTiming, NANOS_PER_SEC};
use crate::error::PlayerError;
use crate::paths::{path_extension, path_file_name};
use crate::track::track_of;
use crate::track::TrackView;
use vstd::prelude::*;

verus! {

/// Moving back after moving on, or on after moving back, returns to the same
/// index of a playlist, for every index within it.
pub proof fn lemma_previous_undoes_next(i: nat, len: nat)
    requires
        i < len,
    ensures
        previous_index(next_index(i, len), len) == i,
        next_index(previous_index(i, len), len) == i,
{
    if i + 1 < len {
        assert((i + 1) % len == i + 1) by {
            vstd::arithmetic::div_mod::lemma_small_mod((i + 1) as nat, len);
        }
    } else {
        vstd::arithmetic::div_mod::lemma_mod_self_0(len as int);
    }
    if i == 0 {
        vstd::arithmetic::div_mod::lemma_mod_self_0(len as int);
    } else {
        vstd::arithmetic::div_mod::lemma_small_mod(i, len);
    }
}

/// Moving on always lands within the playlist; moving back does from
/// within it.
pub proof fn lemma_moves_stay_in_playlist(i: nat, len: nat)
    requires
        len > 0,
    ensures
        next_index(i, len) < len,
        i < len ==> previous_index(i, len) < len,
{
    vstd::arithmetic::div_mod::lemma_mod_bound((i + 1) as int, len as int);
}

/// `next` then `previous`, from a track of a playlist with tracks, leaves
/// the player stopped where it was and starts that same track again.
pub proof fn lemma_next_then_previous(v: PlayerView)
    requires
        current_playlist_index(v) >= 0,
        v.current_index < v.playlists[current_playlist_index(v)].tracks.len(),
    ensures
        previous_spec(next_spec(v).0) == (v.stopped(), ActionView::Start(
            v.playlists[current_playlist_index(v)].tracks[v.current_index as int],
        )),
{
    let i = current_playlist_index(v);
    let len = v.playlists[i].tracks.len();
    lemma_previous_undoes_next(v.current_index, len);
    lemma_moves_stay_in_playlist(v.current_index, len);
    let w = next_spec(v).0;
    assert(w == v.at_index(next_index(v.current_index, len)).stopped());
    assert(current_playlist_index(w) == i);
    assert(w.at_index(v.current_index).stopped() =~= v.stopped());
}

/// Pausing a playing player and playing again resumes it, with the player
/// exactly as it was.
pub proof fn lemma_pause_then_play(v: PlayerView)
    requires
        v.state == PlaybackState::Playing,
    ensures
        pause_spec(v).1 == ActionView::Pause,
        play_spec(pause_spec(v).0) == (v, ActionView::Resume),
{
    assert((PlayerView { state: PlaybackState::Playing, ..pause_spec(v).0 }) =~= v);
}

/// Stopping twice is stopping once.
pub proof fn lemma_stop_idempotent(v: PlayerView)
    ensures
        v.stopped().stopped() == v.stopped(),
{
    assert(v.stopped().stopped() =~= v.stopped());
}

/// A seek never takes the position past the loaded track's seek limit, and
/// seeking again to the same position changes nothing more.
pub proof fn lemma_seek_within_limit(v: PlayerView, position: u128, sound: Option<SoundStatus>)
    requires
        v.current_track is Some,
    ensures
        seek_spec(v, position, sound).0.position <= seek_limit(v.current_track->Some_0),
        seek_spec(seek_spec(v, position, sound).0, position, sound) == seek_spec(v, position, sound),
{
    let w = seek_spec(v, position, sound).0;
    assert(seek_spec(w, position, sound).0 =~= w);
}

/// While the sound plays or is paused, the position shown never passes
/// the loaded track's seek limit.
pub proof fn lemma_position_within_limit(v: PlayerView, status: SoundStatus, at: u128)
    requires
        v.current_track is Some,
        status == SoundStatus::Playing || status == SoundStatus::Paused,
    ensures
        position_spec(v, Some((status, at))) <= seek_limit(v.current_track->Some_0),
{
}

/// After a track is taken out of a playlist of two or more tracks, the
/// current index lies within the tracks that are left; out of a playlist of
/// one, it is the first.
pub proof fn lemma_removal_keeps_index_in_range(index: nat, ci: nat, len: nat)
    requires
        len > 0,
    ensures
        len >= 2 ==> removal_adjust(index, ci, len).1 < len - 1,
        len == 1 ==> removal_adjust(index, ci, len) == (true, 0nat),
{
}

/// After the playlists are loaded from a listing without failure, the
/// current playlist is one of them, at its first index.
pub proof fn lemma_load_keeps_current_playlist(v: PlayerView, entries: Seq<FolderEntry>, error: Option<String>)
    requires
        load_spec(v, Ok(()), entries, error).1 is Ok,
    ensures
        current_playlist_index(load_spec(v, Ok(()), entries, error).0) >= 0,
        load_spec(v, Ok(()), entries, error).0.current_index == 0,
{
    lemma_loaded_playlists_well_formed(entries, v.music_folder);
}

/// The playlists loaded from a listing have different names, and one of
/// them is the default playlist.
pub proof fn lemma_loaded_playlists_well_formed(entries: Seq<FolderEntry>, music_folder: Seq<char>)
    ensures
        playlists_well_formed(loaded_playlists(entries, music_folder).0),
{
    let base = seq![empty_default_playlist(music_folder)];
    assert(base.drop_last() =~= Seq::<PlaylistView>::empty());
    lemma_fold_keeps_well_formed(base, entries, music_folder);
}

proof fn lemma_fold_keeps_well_formed(base: Seq<PlaylistView>, entries: Seq<FolderEntry>, music_folder: Seq<char>)
    requires
        playlists_well_formed(base),
    ensures
        playlists_well_formed(fold_dir_playlists(base, entries, music_folder).0),
    decreases entries.len(),
{
    if entries.len() > 0 {
        lemma_fold_keeps_well_formed(base, entries.drop_last(), music_folder);
        let ps = fold_dir_playlists(base, entries.drop_last(), music_folder).0;
        match dir_step(entries.last(), music_folder) {
            Some(Ok(q)) => lemma_upsert_keeps_well_formed(ps, q),
            _ => {},
        }
    }
}

/// A stopped player that plays starts the track at its current index, where
/// there is one.
pub proof fn lemma_play_starts_current_track(v: PlayerView)
    requires
        v.state == PlaybackState::Stopped,
        track_at_current(v) is Some,
    ensures
        play_spec(v) == (v.stopped(), ActionView::Start(track_at_current(v)->Some_0)),
{
}

/// Putting a playlist in keeps every name that was there and adds its own.
proof fn lemma_upsert_keeps_names(ps: Seq<PlaylistView>, q: PlaylistView, n: Seq<char>)
    ensures
        find_playlist(ps, n) >= 0 ==> find_playlist(upsert(ps, q), n) >= 0,
        find_playlist(upsert(ps, q), q.name) >= 0,
{
    lemma_find_playlist(ps, q.name);
    let i = find_playlist(ps, q.name);
    if i >= 0 {
        lemma_find_update(ps, i, q, n);
        lemma_find_update(ps, i, q, q.name);
    } else {
        assert(ps.push(q).drop_last() =~= ps);
    }
}

proof fn lemma_fold_has_dir(base: Seq<PlaylistView>, entries: Seq<FolderEntry>, music_folder: Seq<char>, k: int)
    requires
        0 <= k < entries.len(),
        dir_step(entries[k], music_folder) matches Some(r) && r is Ok,
        fold_dir_playlists(base, entries, music_folder).1 is None,
    ensures
        find_playlist(
            fold_dir_playlists(base, entries, music_folder).0,
            dir_step(entries[k], music_folder)->Some_0->Ok_0.name,
        ) >= 0,
    decreases entries.len(),
{
    let n = dir_step(entries[k], music_folder)->Some_0->Ok_0.name;
    let prev = entries.drop_last();
    let ps = fold_dir_playlists(base, prev, music_folder).0;
    if k < entries.len() - 1 {
        assert(prev[k] == entries[k]);
        lemma_fold_has_dir(base, prev, music_folder, k);
    }
    match dir_step(entries.last(), music_folder) {
        Some(Ok(q)) => lemma_upsert_keeps_names(ps, q, n),
        _ => {},
    }
}

/// Every directory of the music folder becomes a playlist of its name when
/// the playlists are loaded without failure.
pub proof fn lemma_every_folder_is_a_playlist(entries: Seq<FolderEntry>, music_folder: Seq<char>, k: int)
    requires
        0 <= k < entries.len(),
        dir_step(entries[k], music_folder) matches Some(r) && r is Ok,
        loaded_playlists(entries, music_folder).1 is None,
    ensures
        find_playlist(
            loaded_playlists(entries, music_folder).0,
            dir_step(entries[k], music_folder)->Some_0->Ok_0.name,
        ) >= 0,
{
    lemma_fold_has_dir(seq![empty_default_playlist(music_folder)], entries, music_folder, k);
}

/// Rewinding never goes past the start nor forward; fast-forwarding never
/// goes back.
pub proof fn lemma_seek_steps_are_ordered(position: u128, step_secs: u64)
    ensures
        back_target(position, step_secs) <= position,
        position <= forward_target(position, step_secs),
{
}

/// Taking out the track that was added last gives back the tracks as they
/// were before it was added (`add_track_from_path` appends, `remove_track`
/// takes out at an index).
pub proof fn lemma_remove_undoes_add(tracks: Seq<TrackView>, t: TrackView)
    ensures
        tracks.push(t).remove(tracks.len() as int) == tracks,
{
    assert(tracks.push(t).remove(tracks.len() as int) =~= tracks);
}

proof fn lemma_no_track_at(files: Seq<ScannedFile>, d: Seq<char>)
    requires
        forall|j: int| 0 <= j < files.len() ==> (#[trigger] files[j]).path@ != d,
    ensures
        forall|m: int| 0 <= m < scanned_tracks(files).len() ==> (#[trigger] scanned_tracks(files)[m]).path != d,
    decreases files.len(),
{
    if files.len() > 0 {
        let rest = files.drop_last();
        assert forall|j: int| 0 <= j < rest.len() implies (#[trigger] rest[j]).path@ != d by {
            assert(rest[j] == files[j]);
        }
        lemma_no_track_at(rest, d);
    }
}

/// A listed audio file whose path no other entry has gives exactly one track
/// at its path, the track made from its probe.
proof fn lemma_track_at(files: Seq<ScannedFile>, j: int, d: Seq<char>) -> (idx: int)
    requires
        0 <= j < files.len(),
        files[j].path@ == d,
        is_audio_entry(files[j]),
        forall|j2: int| 0 <= j2 < files.len() && j2 != j ==> (#[trigger] files[j2]).path@ != d,
    ensures
        0 <= idx < scanned_tracks(files).len(),
        scanned_tracks(files)[idx] == track_of(d, probe_view(files[j].probe)),
        forall|m: int| 0 <= m < scanned_tracks(files).len() && (#[trigger] scanned_tracks(files)[m]).path == d ==> m == idx,
    decreases files.len(),
{
    let rest = files.drop_last();
    let last = files.len() - 1;
    if j == last {
        assert forall|j2: int| 0 <= j2 < rest.len() implies (#[trigger] rest[j2]).path@ != d by {
            assert(rest[j2] == files[j2]);
        }
        lemma_no_track_at(rest, d);
        scanned_tracks(rest).len() as int
    } else {
        assert(rest[j] == files[j]);
        assert forall|j2: int| 0 <= j2 < rest.len() && j2 != j implies (#[trigger] rest[j2]).path@ != d by {
            assert(rest[j2] == files[j2]);
        }
        let i = lemma_track_at(rest, j, d);
        assert(files.last().path@ != d);
        i
    }
}

/// Where entry `k` is the only directory of its name, and the listing had
/// no failure, loading gives the playlist of that name from its listing.
proof fn lemma_fold_playlist(base: Seq<PlaylistView>, entries: Seq<FolderEntry>, music_folder: Seq<char>, k: int)
    requires
        0 <= k < entries.len(),
        dir_step(entries[k], music_folder) matches Some(r) && r is Ok,
        fold_dir_playlists(base, entries, music_folder).1 is None,
        forall|k2: int|
            0 <= k2 < entries.len() && k2 != k && (#[trigger] dir_step(entries[k2], music_folder)) is Some
                ==> dir_step(entries[k2], music_folder)->Some_0 is Err || dir_step(entries[k2], music_folder)->Some_0->Ok_0.name
                != dir_step(entries[k], music_folder)->Some_0->Ok_0.name,
    ensures
        ({
            let q = dir_step(entries[k], music_folder)->Some_0->Ok_0;
            let ps = fold_dir_playlists(base, entries, music_folder).0;
            &&& find_playlist(ps, q.name) >= 0
            &&& ps[find_playlist(ps, q.name)] == q
        }),
    decreases entries.len(),
{
    let q = dir_step(entries[k], music_folder)->Some_0->Ok_0;
    let n = q.name;
    let rest = entries.drop_last();
    let ps = fold_dir_playlists(base, rest, music_folder).0;
    lemma_find_playlist(ps, n);
    if k == entries.len() - 1 {
        let i = find_playlist(ps, n);
        if i >= 0 {
            lemma_find_update(ps, i, q, n);
        } else {
            assert(ps.push(q).drop_last() =~= ps);
        }
    } else {
        assert(rest[k] == entries[k]);
        assert forall|k2: int|
            0 <= k2 < rest.len() && k2 != k && (#[trigger] dir_step(rest[k2], music_folder)) is Some implies dir_step(
            rest[k2], music_folder)->Some_0 is Err || dir_step(rest[k2], music_folder)->Some_0->Ok_0.name != n by {
            assert(rest[k2] == entries[k2]);
        }
        lemma_fold_playlist(base, rest, music_folder, k);
        match dir_step(entries.last(), music_folder) {
            Some(Ok(q2)) => {
                assert(q2.name != n);
                lemma_find_playlist(ps, q2.name);
                let i2 = find_playlist(ps, q2.name);
                if i2 >= 0 {
                    lemma_find_update(ps, i2, q2, n);
                } else {
                    assert(ps.push(q2).drop_last() =~= ps);
                }
            },
            _ => {},
        }
    }
}

/// The playlist named `n` after loading from `entries`.
pub open spec fn reloaded(entries: Seq<FolderEntry>, music_folder: Seq<char>, n: Seq<char>) -> PlaylistView {
    let ps = loaded_playlists(entries, music_folder).0;
    ps[find_playlist(ps, n)]
}

/// Playlists are saved: a track added to a playlist (its copy at the
/// destination `d` that `add_destination` gives, whose name has the audio
/// extension of the source's) comes back on the next load without failure,
/// where the listing of the music folder lists the playlist's directory
/// once, and that directory's listing lists the copy as a file, once. The playlist then holds exactly one track at `d`, made
/// from what the probe of the copy reported.
pub proof fn lemma_added_track_survives_reload(
    folder: Seq<char>,
    source: Seq<char>,
    d: Seq<char>,
    entries: Seq<FolderEntry>,
    music_folder: Seq<char>,
    n: Seq<char>,
    k: int,
    j: int,
) -> (idx: int)
    requires
        add_destination(folder, source) == Ok::<Seq<char>, PlayerError>(d),
        is_audio_path(d),
        loaded_playlists(entries, music_folder).1 is None,
        0 <= k < entries.len(),
        entries[k].is_dir,
        path_file_name(entries[k].path@) == Some(n),
        forall|k2: int|
            0 <= k2 < entries.len() && k2 != k && (#[trigger] entries[k2]).is_dir ==> path_file_name(entries[k2].path@)
                != Some(n),
        entries[k].contents is Ok,
        0 <= j < entries[k].contents->Ok_0@.len(),
        entries[k].contents->Ok_0@[j].path@ == d,
        entries[k].contents->Ok_0@[j].is_file,
        forall|j2: int|
            0 <= j2 < entries[k].contents->Ok_0@.len() && j2 != j ==> (#[trigger] entries[k].contents->Ok_0@[j2]).path@ != d,
    ensures
        find_playlist(loaded_playlists(entries, music_folder).0, n) >= 0,
        reloaded(entries, music_folder, n).name == n,
        0 <= idx < reloaded(entries, music_folder, n).tracks.len(),
        reloaded(entries, music_folder, n).tracks[idx] == track_of(d, probe_view(entries[k].contents->Ok_0@[j].probe)),
        forall|m: int|
            0 <= m < reloaded(entries, music_folder, n).tracks.len() && (#[trigger] reloaded(
                entries,
                music_folder,
                n,
            ).tracks[m]).path == d ==> m == idx,
{
    assert forall|k2: int|
        0 <= k2 < entries.len() && k2 != k && (#[trigger] dir_step(entries[k2], music_folder)) is Some implies dir_step(
        entries[k2], music_folder)->Some_0 is Err || dir_step(entries[k2], music_folder)->Some_0->Ok_0.name != n by {
        assert(entries[k2].is_dir);
    }
    lemma_fold_playlist(seq![empty_default_playlist(music_folder)], entries, music_folder, k);
    lemma_track_at(entries[k].contents->Ok_0@, j, d)
}

/// The extensions of the files the player plays, written out: mp3, wav,
/// flac, ogg.
pub open spec fn plays_extension(e: Seq<char>) -> bool {
    e == seq!['m', 'p', '3'] || e == seq!['w', 'a', 'v'] || e == seq!['f', 'l', 'a', 'c'] || e == seq!['o', 'g', 'g']
}

/// A path names an audio file exactly when its extension is mp3, wav, flac
/// or ogg; any other extension (jpg, txt, ...) or none makes it no audio file.
pub proof fn lemma_audio_file_means_audio_extension(path: Seq<char>)
    ensures
        is_audio_path(path) <==> (path_extension(path) matches Some(e) && plays_extension(e)),
{
}

/// Loading a folder's listing makes tracks of audio files only: every track
/// has the path of a listed file, and that path's extension is mp3, wav,
/// flac or ogg. There are never more tracks than listed entries.
pub proof fn lemma_tracks_come_from_audio_files(files: Seq<ScannedFile>)
    ensures
        scanned_tracks(files).len() <= files.len(),
        forall|m: int|
            0 <= m < scanned_tracks(files).len() ==> (path_extension(#[trigger] scanned_tracks(files)[m].path) matches Some(
                e,
            ) && plays_extension(e)),
    decreases files.len(),
{
    if files.len() > 0 {
        lemma_tracks_come_from_audio_files(files.drop_last());
    }
}

/// A listing with no file of extension mp3, wav, flac or ogg gives no track.
pub proof fn lemma_no_audio_no_tracks(files: Seq<ScannedFile>)
    requires
        forall|j: int|
            0 <= j < files.len() ==> !(path_extension((#[trigger] files[j]).path@) matches Some(e) && plays_extension(e)),
    ensures
        scanned_tracks(files).len() == 0,
    decreases files.len(),
{
    if files.len() > 0 {
        let rest = files.drop_last();
        assert forall|j: int| 0 <= j < rest.len() implies !(path_extension((#[trigger] rest[j]).path@) matches Some(e)
            && plays_extension(e)) by {
            assert(rest[j] == files[j]);
        }
        lemma_no_audio_no_tracks(rest);
    }
}

/// Taking out a track before the current one keeps the same track current:
/// the index moves one back, nothing stops, and the playlist loses exactly
/// that track.
pub proof fn lemma_removal_before_current_keeps_current_track(v: PlayerView, k: nat)
    requires
        current_playlist_index(v) >= 0,
        k < v.current_index < v.playlists[current_playlist_index(v)].tracks.len(),
    ensures
        ({
            let i = current_playlist_index(v);
            let w = remove_spec(v, k, Ok(())).0;
            &&& remove_spec(v, k, Ok(())).1 == Ok::<ActionView, PlayerError>(ActionView::Nothing)
            &&& current_playlist_index(w) == i
            &&& w.current_index == v.current_index - 1
            &&& w.playlists[i].tracks == v.playlists[i].tracks.remove(k as int)
            &&& w.playlists[i].tracks[w.current_index as int] == v.playlists[i].tracks[v.current_index as int]
            &&& w.state == v.state
            &&& w.position == v.position
            &&& w.current_track == v.current_track
        }),
{
    let i = current_playlist_index(v);
    let p = v.playlists[i];
    lemma_find_playlist(v.playlists, v.current_playlist->Some_0);
    lemma_find_update(v.playlists, i, PlaylistView { tracks: p.tracks.remove(k as int), ..p }, v.current_playlist->Some_0);
}

/// Taking out a track after the current one keeps the index and the current
/// track, and nothing stops.
pub proof fn lemma_removal_after_current_keeps_current_track(v: PlayerView, k: nat)
    requires
        current_playlist_index(v) >= 0,
        v.current_index < k < v.playlists[current_playlist_index(v)].tracks.len(),
    ensures
        ({
            let i = current_playlist_index(v);
            let w = remove_spec(v, k, Ok(())).0;
            &&& remove_spec(v, k, Ok(())).1 == Ok::<ActionView, PlayerError>(ActionView::Nothing)
            &&& current_playlist_index(w) == i
            &&& w.current_index == v.current_index
            &&& w.playlists[i].tracks[w.current_index as int] == v.playlists[i].tracks[v.current_index as int]
            &&& w.state == v.state
            &&& w.current_track == v.current_track
        }),
{
    let i = current_playlist_index(v);
    let p = v.playlists[i];
    lemma_find_playlist(v.playlists, v.current_playlist->Some_0);
    lemma_find_update(v.playlists, i, PlaylistView { tracks: p.tracks.remove(k as int), ..p }, v.current_playlist->Some_0);
}

/// Taking out the current track stops playback and forgets the loaded track.
pub proof fn lemma_removing_current_track_stops(v: PlayerView)
    requires
        current_playlist_index(v) >= 0,
        v.current_index < v.playlists[current_playlist_index(v)].tracks.len(),
    ensures
        remove_spec(v, v.current_index, Ok(())).1 == Ok::<ActionView, PlayerError>(ActionView::Stop),
        remove_spec(v, v.current_index, Ok(())).0.state == PlaybackState::Stopped,
        remove_spec(v, v.current_index, Ok(())).0.current_track is None,
        remove_spec(v, v.current_index, Ok(())).0.position == 0,
{
}

/// A seek in a track of known duration `d` goes to the asked position or to
/// `d`, whichever is less, and so does the position shown while the sound
/// plays or is paused; a track of unknown duration caps them at five minutes.
pub proof fn lemma_seek_clamps_to_track_duration(v: PlayerView, position: u128, status: SoundStatus, at: u128)
    requires
        v.current_track is Some,
    ensures
        ({
            let cap: u128 = match v.current_track->Some_0.duration {
                Some(d) => d,
                None => 300_000_000_000u128,
            };
            let c = if position > cap {
                cap
            } else {
                position
            };
            let shown = if at > cap {
                cap
            } else {
                at
            };
            &&& seek_spec(v, position, Some(status)).0.position == c
            &&& (status == SoundStatus::Playing || status == SoundStatus::Paused) ==> seek_spec(
                v,
                position,
                Some(status),
            ).1 == ActionView::Seek(c)
            &&& (status == SoundStatus::Playing || status == SoundStatus::Paused) ==> position_spec(v, Some((status, at)))
                == shown
            &&& !(status == SoundStatus::Playing || status == SoundStatus::Paused) ==> seek_spec(
                v,
                position,
                Some(status),
            ).1 == ActionView::Nothing
            &&& !(status == SoundStatus::Playing || status == SoundStatus::Paused) ==> position_spec(
                v,
                Some((status, at)),
            ) == v.position
            &&& seek_spec(v, position, None).1 == ActionView::Nothing
            &&& seek_spec(v, position, None).0.position == c
            &&& position_spec(v, None) == v.position
        }),
        v.current_track->Some_0.duration matches Some(d) ==> seek_spec(v, position, None).0.position <= d,
{
}

/// Clearing the current playlist empties that playlist, and only it: every
/// other playlist is left exactly as it was. Playback stops and the loaded
/// track is forgotten.
pub proof fn lemma_clear_empties_only_the_current_playlist(v: PlayerView, n: Seq<char>)
    requires
        v.current_playlist == Some(n),
        find_playlist(v.playlists, n) >= 0,
    ensures
        ({
            let i = find_playlist(v.playlists, n);
            let w = clear_spec(v, Ok(())).0;
            &&& clear_spec(v, Ok(())).1 == Ok::<ActionView, PlayerError>(ActionView::Stop)
            &&& w.playlists.len() == v.playlists.len()
            &&& w.playlists[i].name == n
            &&& w.playlists[i].folder_path == v.playlists[i].folder_path
            &&& w.playlists[i].tracks.len() == 0
            &&& forall|j: int| 0 <= j < v.playlists.len() && j != i ==> w.playlists[j] == v.playlists[j]
            &&& w.current_playlist == Some(n)
            &&& w.current_index == 0
            &&& w.current_track is None
            &&& w.state == PlaybackState::Stopped
        }),
{
    lemma_find_playlist(v.playlists, n);
}

/// When the sound of a playing player ends, the player moves on to the next
/// track of its playlist, wrapping from the last to the first: the index
/// becomes `(ci + 1) % len` and the track there starts from its beginning.
pub proof fn lemma_finished_sound_moves_on(v: PlayerView, at: u128)
    requires
        v.state == PlaybackState::Playing,
        current_playlist_index(v) >= 0,
        v.current_index < v.playlists[current_playlist_index(v)].tracks.len(),
    ensures
        ({
            let i = current_playlist_index(v);
            let len = v.playlists[i].tracks.len();
            let j: int = ((v.current_index + 1) as int) % (len as int);
            let r = update_spec(v, Some((SoundStatus::Stopped, at)));
            &&& 0 <= j < len
            &&& r.1 == ActionView::Start(v.playlists[i].tracks[j])
            &&& r.0.current_index == j
            &&& r.0.state == PlaybackState::Stopped
            &&& r.0.position == 0
            &&& r.0.playlists == v.playlists
            &&& r.0.current_playlist == v.current_playlist
            &&& (v.current_index == len - 1 ==> j == 0)
        }),
{
    let i = current_playlist_index(v);
    let len = v.playlists[i].tracks.len();
    vstd::arithmetic::div_mod::lemma_mod_bound((v.current_index + 1) as int, len as int);
    vstd::arithmetic::div_mod::lemma_mod_pos_bound((v.current_index + 1) as int, len as int);
    if v.current_index == len - 1 {
        vstd::arithmetic::div_mod::lemma_mod_self_0(len as int);
    }
}

/// `next` from a track of a playlist moves the index to `(ci + 1) % len`
/// and starts that track; `previous` moves it to `ci - 1`, or to the last
/// track from the first, and starts that track.
pub proof fn lemma_next_and_previous_move_by_one(v: PlayerView)
    requires
        current_playlist_index(v) >= 0,
        v.current_index < v.playlists[current_playlist_index(v)].tracks.len(),
    ensures
        ({
            let i = current_playlist_index(v);
            let len = v.playlists[i].tracks.len();
            let j: int = ((v.current_index + 1) as int) % (len as int);
            let k: int = if v.current_index == 0 {
                len - 1
            } else {
                v.current_index - 1
            };
            &&& next_spec(v).0.current_index == j
            &&& next_spec(v).1 == ActionView::Start(v.playlists[i].tracks[j])
            &&& previous_spec(v).0.current_index == k
            &&& previous_spec(v).1 == ActionView::Start(v.playlists[i].tracks[k])
        }),
{
    let i = current_playlist_index(v);
    let len = v.playlists[i].tracks.len();
    vstd::arithmetic::div_mod::lemma_mod_bound((v.current_index + 1) as int, len as int);
    vstd::arithmetic::div_mod::lemma_mod_pos_bound((v.current_index + 1) as int, len as int);
}

/// Stopping leaves the player stopped at position zero, and changes
/// nothing else: playlists, current playlist, index and loaded track stay.
pub proof fn lemma_stop_changes_only_state_and_position(v: PlayerView)
    ensures
        v.stopped().state == PlaybackState::Stopped,
        v.stopped().position == 0,
        v.stopped().playlists == v.playlists,
        v.stopped().current_playlist == v.current_playlist,
        v.stopped().current_index == v.current_index,
        v.stopped().current_track == v.current_track,
        v.stopped().music_folder == v.music_folder,
{
}

/// Adding a file is refused as unsupported exactly when it is no audio file;
/// an audio file with a file name goes into the playlist's folder under that
/// same name.
pub proof fn lemma_add_destination_keeps_the_file_name(folder: Seq<char>, source: Seq<char>)
    ensures
        add_destination(folder, source) == Err::<Seq<char>, PlayerError>(PlayerError::UnsupportedFormat) <==> !is_audio_path(
            source,
        ),
        is_audio_path(source) && path_file_name(source) is Some ==> add_destination(folder, source) == Ok::<
            Seq<char>,
            PlayerError,
        >(crate::paths::path_join(folder, path_file_name(source)->Some_0)),
        is_audio_path(source) && path_file_name(source) is None ==> add_destination(folder, source) == Err::<
            Seq<char>,
            PlayerError,
        >(PlayerError::InvalidFileName),
{
}

/// A failed deletion takes the track out and changes nothing else: the
/// index, the state and the loaded track stay.
pub proof fn lemma_failed_deletion_keeps_the_rest(v: PlayerView, k: nat, m: String)
    requires
        current_playlist_index(v) >= 0,
        k < v.playlists[current_playlist_index(v)].tracks.len(),
    ensures
        ({
            let i = current_playlist_index(v);
            let w = remove_spec(v, k, Err(m)).0;
            &&& remove_spec(v, k, Err(m)).1 == Err::<ActionView, PlayerError>(PlayerError::Io(m))
            &&& w.playlists[i].tracks == v.playlists[i].tracks.remove(k as int)
            &&& w.current_index == v.current_index
            &&& w.state == v.state
            &&& w.position == v.position
            &&& w.current_track == v.current_track
        }),
{
    lemma_find_playlist(v.playlists, v.current_playlist->Some_0);
}

/// While playing, a sound that is playing only moves the position; a sound
/// that paused pauses the player at its position. Neither asks anything of
/// the sound.
pub proof fn lemma_update_follows_the_sound(v: PlayerView, at: u128)
    requires
        v.state == PlaybackState::Playing,
    ensures
        update_spec(v, Some((SoundStatus::Playing, at))) == (PlayerView { position: at, ..v }, ActionView::Nothing),
        update_spec(v, Some((SoundStatus::Paused, at))) == (
            PlayerView { position: at, state: PlaybackState::Paused, ..v },
            ActionView::Nothing,
        ),
        update_spec(v, None) == (v, ActionView::Nothing),
{
}

/// A player that is not playing ignores what the sound reports.
pub proof fn lemma_update_ignored_unless_playing(v: PlayerView, sound: Option<(SoundStatus, u128)>)
    requires
        v.state != PlaybackState::Playing,
    ensures
        update_spec(v, sound) == (v, ActionView::Nothing),
{
}

/// A track's duration is its frames times its time base to the nearest
/// nanosecond: it is off from the exact length by at most half a
/// nanosecond.
pub proof fn lemma_duration_is_nearest(n_frames: u64, numer: u32, denom: u32)
    requires
        denom > 0,
    ensures
        ({
            let exact = (n_frames as int) * (numer as int) * (NANOS_PER_SEC as int);
            let q = frames_nanos(n_frames, numer, denom) as int;
            &&& 2 * exact - (denom as int) < 2 * q * (denom as int)
            &&& 2 * q * (denom as int) <= 2 * exact + (denom as int)
        }),
{
    let exact = (n_frames as int) * (numer as int) * (NANOS_PER_SEC as int);
    let b = 2 * (denom as int);
    let a = 2 * exact + (denom as int);
    let nf = n_frames as int;
    let nu = numer as int;
    assert(nf * nu * 1_000_000_000 >= 0) by (nonlinear_arith)
        requires
            nf >= 0,
            nu >= 0,
    ;
    vstd::arithmetic::div_mod::lemma_fundamental_div_mod(a, b);
    vstd::arithmetic::div_mod::lemma_mod_bound(a, b);
    let q = a / b;
    let de = denom as int;
    assert(b * q == 2 * q * de) by (nonlinear_arith)
        requires
            b == 2 * de,
    ;
}

/// Only the first stream of a file times its track: streams after it change
/// nothing.
pub proof fn lemma_only_first_stream_counts(ts: Seq<TrackTiming>, t: TrackTiming)
    requires
        ts.len() > 0,
    ensures
        duration_of_probe(Some(ts.push(t))) == duration_of_probe(Some(ts)),
{
}

} // verus!
