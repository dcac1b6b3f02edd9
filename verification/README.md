# prakrust

The verified core of a desktop music player: playlists kept as folders of
audio files under a music folder, and a playback state machine (play, pause,
stop, next, previous, seek) driven by what the sound engine reports.

- `src/` — the library, proved with Verus: `paths` (file names, stems,
  extensions, the audio-file filter), `media` (track durations from what a
  probe reports of a file's streams), `track`, `playlist`, `player` (the state machine and its
  model), `clock` (seek steps and "MM:SS" labels), `laws` (properties across
  operations), `error`.
- `app/` — the window (eframe/egui), the sound engine (kira), the file
  dialog (rfd), the media probe (symphonia) and the file system. It lists
  folders, probes, copies and deletes files, and carries out the
  `SoundAction`s that the player returns.
- `tests/` — tests of the library on concrete values.

Each playlist is a folder inside the music folder; the default playlist's
folder is `Default`. Loading rebuilds every playlist from its folder.

Durations and positions are nanoseconds (`u128`), up to the longest `std::time::Duration`.
