//! A music player's verified core: tracks, playlists and the playback state
//! machine. The parts that touch the file system, the audio device and the
//! window live in the application around this library; they hand it plain
//! values and carry out the actions it returns.

pub mod clock;
pub mod error;
pub mod laws;
pub mod media;
pub mod paths;
pub mod player;
pub mod playlist;
pub mod track;

pub use error::PlayerError;
pub use player::{AudioPlayer, FolderEntry, MusicListing, PlaybackState, SoundAction, SoundStatus};
pub use playlist::{Playlist, ScannedFile};
pub use track::Track;
