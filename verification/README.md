# sfontplayer

The bookkeeping behind a MIDI player that makes soundfont comparison easy:
playlists and workspaces, the play queue, closing and reopening playlists,
the soundfont each playlist sounds with, the MIDI inspector's track list and
preset mapping. The library in `src/` is verified by Verus; its calls into
std, rand, rustysynth and midi-msg go through a few trusted wrappers whose
contracts are believed, not proved, and whose doc comments say what they
leave unclaimed.

- `src/player.rs` — open, playing and closed playlists; moving through the queue.
- `src/playlist.rs` — a playlist's songs, fonts, selections and queue; the font library; errors.
- `src/workspace.rs` — workspaces with deferred deletions; queue building and shuffling.
- `src/media.rs`, `src/paths.rs` — MIDI file references and path questions.
- `src/smf.rs` — the structure of a standard MIDI file, checked before a file reaches a decoder.
- `src/midi_inspector.rs`, `src/preset_mapper.rs` — inspection of a MIDI file.
- `src/conversions.rs`, `src/text.rs` — playback time text.
- `app/` — a command-line front end that reads files and walks the queue.
