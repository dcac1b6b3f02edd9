//! A track: a file of a playlist, its title and its duration.

use crate::media::{duration_from_probe, duration_of_probe, probe_fits, probe_view, TrackTiming};
use crate::paths::{file_stem, path_stem};
use vstd::prelude::*;

verus! {

/// A track of a playlist. `duration` is in nanoseconds; `None` where the
/// file could not be read or its format was not recognised.
#[derive(Clone, Debug)]
pub struct Track {
    pub path: String,
    pub title: String,
    pub duration: Option<u128>,
}

/// What a track is, as text and numbers.
pub struct TrackView {
    pub path: Seq<char>,
    pub title: Seq<char>,
    pub duration: Option<u128>,
}

impl View for Track {
    type V = TrackView;

    open spec fn view(&self) -> TrackView {
        TrackView { path: self.path@, title: self.title@, duration: self.duration }
    }
}

/// The title given to a track whose path has no file name.
pub open spec fn unknown_title() -> Seq<char> {
    seq!['U', 'n', 'k', 'n', 'o', 'w', 'n']
}

/// A track's title: the stem of its file name, or "Unknown".
pub open spec fn title_of(path: Seq<char>) -> Seq<char> {
    match path_stem(path) {
        Some(s) => s,
        None => unknown_title(),
    }
}

/// The track made for a path whose probe reported `probe` (`None`: the
/// file could not be read or its format was not recognised).
pub open spec fn track_of(path: Seq<char>, probe: Option<Seq<TrackTiming>>) -> TrackView {
    TrackView { path, title: title_of(path), duration: duration_of_probe(probe) }
}

impl Track {
    /// A track for the file at `path`, whose probe reported the streams
    /// `probe` (`None` where the file could not be read or its format was
    /// not recognised): titled by the file's stem, timed by its first stream.
    /// A stream longer than a `Duration` holds is left out (`probe_fits`).
    pub fn new(path: String, probe: &Option<Vec<TrackTiming>>) -> (res: Track)
        requires
            probe_fits(probe_view(*probe)),
        ensures
            res@ == track_of(path@, probe_view(*probe)),
    {
        let title = match file_stem(path.as_str()) {
            Some(s) => s,
            None => {
                let t = String::from_str("Unknown");
                proof {
                    reveal_strlit("Unknown");
                }
                assert(t@ =~= unknown_title());
                t
            },
        };
        let duration = duration_from_probe(probe);
        Track { path, title, duration }
    }

    /// A copy of this track.
    pub fn duplicate(&self) -> (res: Track)
        ensures
            res@ == self@,
    {
        Track { path: self.path.clone(), title: self.title.clone(), duration: self.duration }
    }
}

} // verus!
