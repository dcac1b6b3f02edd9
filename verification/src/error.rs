//! What can go wrong in the player's operations.

use vstd::prelude::*;

verus! {

/// An error of a playlist or player operation.
#[derive(Clone, Debug)]
pub enum PlayerError {
    /// The file's extension is not one of mp3, wav, flac, ogg.
    UnsupportedFormat,
    /// The path has no file name.
    InvalidFileName,
    /// No playlist has the name asked for.
    PlaylistNotFound,
    /// A file-system operation failed; its message.
    Io(String),
}

/// The message of an error.
pub open spec fn error_message(e: PlayerError) -> Seq<char> {
    match e {
        PlayerError::UnsupportedFormat => "Unsupported audio format"@,
        PlayerError::InvalidFileName => "Invalid file name"@,
        PlayerError::PlaylistNotFound => "Playlist not found"@,
        PlayerError::Io(m) => m@,
    }
}

impl PlayerError {
    /// The message of this error, as the player reports it.
    pub fn message(&self) -> (res: String)
        ensures
            res@ == error_message(*self),
    {
        match self {
            PlayerError::UnsupportedFormat => String::from_str("Unsupported audio format"),
            PlayerError::InvalidFileName => String::from_str("Invalid file name"),
            PlayerError::PlaylistNotFound => String::from_str("Playlist not found"),
            PlayerError::Io(m) => m.clone(),
        }
    }
}

} // verus!
