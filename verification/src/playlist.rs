//! A playlist: songs, the song selection, the play queue, and the bookkeeping the
//! player needs to close it and to save it to a portable file.

use vstd::prelude::*;
use crate::media::MidiMeta;
use crate::paths::{paths_equal, same_path, same_path_as_itself};
use crate::workspace::{
    build_queue, bytes_view, has_font, has_midi, law_queue_outcome_in_range, loaded_from,
    path_texts, queue_outcome,
};

verus! {

/// Errors of the player and its playlists.
#[derive(Debug, PartialEq, Eq, Structural)]
pub enum PlayerError {
    PlaybackNoQueueIndex,
    PlaybackNoSoundfont,
    MidiOverride,
    PlaylistIndex { index: usize },
    PlaylistCantSwitch,
    PlaylistCantMove,
    PlaylistAlreadyOpen,
    PlaylistSaveFailed,
    DebugBlockSaving,
    SongIndex { index: usize },
    SongAlreadyInPlaylist,
    FontIndex { index: usize },
    FontAlreadyInPlaylist,
    /// The file given to the MIDI inspector did not load.
    MidiInspectorLoad,
}

/// Where a playlist stands with respect to being closed.
#[derive(Debug, Clone, Copy, PartialEq, Eq, Structural)]
pub enum PlaylistState {
    /// Open.
    Open,
    /// To be closed once it has no unsaved changes.
    Queued,
    /// To be closed, unsaved changes or not.
    QueuedDiscard,
}

#[derive(Debug)]
pub struct Playlist {
    pub name: String,
    pub state: PlaylistState,
    /// File this playlist is kept in, for a portable playlist.
    pub portable_path: Option<String>,
    pub unsaved_changes: bool,
    /// Soundfonts to compare the songs with.
    pub fonts: Vec<String>,
    /// The soundfont chosen for this playlist.
    pub font_idx: Option<usize>,
    pub songs: Vec<MidiMeta>,
    pub song_idx: Option<usize>,
    pub queue: Vec<usize>,
    pub queue_idx: Option<usize>,
}

/// A playlist as `Playlist::default` makes it.
pub open spec fn is_fresh_playlist(p: Playlist) -> bool {
    &&& p.name@ == "Playlist"@
    &&& p.state == PlaylistState::Open
    &&& p.portable_path is None
    &&& !p.unsaved_changes
    &&& p.fonts@ == Seq::<String>::empty()
    &&& p.font_idx is None
    &&& p.songs@ == Seq::<MidiMeta>::empty()
    &&& p.song_idx is None
    &&& p.queue@ == Seq::<usize>::empty()
    &&& p.queue_idx is None
}

/// The text of an optional path.
pub open spec fn opt_path(p: Option<String>) -> Option<Seq<char>> {
    match p {
        Some(s) => Some(s@),
        None => None,
    }
}

/// Where a rebuilt queue starts: at the selected song in a sequential queue
/// (the first song when none is selected), at the front of a shuffled one;
/// nowhere when there are no songs.
pub open spec fn queue_start(n: nat, selected: Option<usize>, shuffle: bool) -> Option<usize> {
    if n == 0 {
        None
    } else if shuffle {
        Some(0usize)
    } else {
        match selected {
            Some(s) => if s < n { Some(s) } else { Some(0usize) },
            None => Some(0usize),
        }
    }
}

/// Two song lists refer to the same files with the same metadata.
pub open spec fn same_songs(a: Seq<MidiMeta>, b: Seq<MidiMeta>) -> bool {
    &&& a.len() == b.len()
    &&& forall|i: int|
        0 <= i < a.len() ==> {
            &&& (#[trigger] a[i]).path() == b[i].path()
            &&& a[i].spec_duration() == b[i].spec_duration()
            &&& a[i].spec_error() == b[i].spec_error()
        }
}

/// `b` holds what `a` holds, name and portable file left aside.
pub open spec fn same_content(a: Playlist, b: Playlist) -> bool {
    &&& a.state == b.state
    &&& a.unsaved_changes == b.unsaved_changes
    &&& path_texts(a.fonts@) == path_texts(b.fonts@)
    &&& a.font_idx == b.font_idx
    &&& same_songs(a.songs@, b.songs@)
    &&& a.song_idx == b.song_idx
    &&& a.queue@ == b.queue@
    &&& a.queue_idx == b.queue_idx
}

/// What rebuilding the queue of `before` with the given shuffle setting leaves:
/// a new queue, started over, and nothing else changed.
pub open spec fn rebuilt(before: Playlist, after: Playlist, shuffle: bool) -> bool {
    &&& queue_outcome(after.queue@, before.songs@.len(), before.song_idx, shuffle)
    &&& after.queue_idx == queue_start(before.songs@.len(), before.song_idx, shuffle)
    &&& after == Playlist { queue: after.queue, queue_idx: after.queue_idx, ..before }
}

/// The songs and the queue are in step: the queue position, if any, is in the
/// queue, and every queued entry is a song.
pub open spec fn queue_consistent(p: Playlist) -> bool {
    &&& p.queue_idx matches Some(q) ==> q < p.queue@.len()
    &&& forall|i: int| 0 <= i < p.queue@.len() ==> #[trigger] p.queue@[i] < p.songs@.len()
}

/// A rebuilt queue is in step with the songs, when the song selection (if any)
/// is one of the songs: playback can move along it without leaving the songs.
pub proof fn law_rebuilt_queue_consistent(before: Playlist, after: Playlist, shuffle: bool)
    requires
        rebuilt(before, after, shuffle),
        before.song_idx matches Some(s) ==> s < before.songs@.len(),
    ensures
        queue_consistent(after),
        after.queue@.len() == before.songs@.len(),
{
    assert(before.songs@.len() == before.songs.len());
    law_queue_outcome_in_range(after.queue@, before.songs@.len(), before.song_idx, shuffle);
}

/// The soundfonts known to the player, one of them chosen as the default.
pub struct FontLibrary {
    pub fonts: Vec<String>,
    pub selected: Option<usize>,
}

impl Default for FontLibrary {
    fn default() -> (r: FontLibrary)
        ensures
            r.fonts@ == Seq::<String>::empty(),
            r.selected is None,
    {
        FontLibrary { fonts: Vec::new(), selected: None }
    }
}

impl FontLibrary {
    /// The default soundfont, if the choice is one of the fonts.
    pub fn get_selected(&self) -> (r: Option<&String>)
        ensures
            match self.selected {
                Some(i) if i < self.fonts@.len() => r == Some(&self.fonts@[i as int]),
                _ => r is None,
            },
    {
        match self.selected {
            Some(i) => if i < self.fonts.len() {
                Some(&self.fonts[i])
            } else {
                None
            },
            None => None,
        }
    }
}

impl Default for Playlist {
    fn default() -> (r: Playlist)
        ensures
            is_fresh_playlist(r),
    {
        Playlist {
            name: "Playlist".to_owned(),
            state: PlaylistState::Open,
            portable_path: None,
            unsaved_changes: false,
            fonts: Vec::new(),
            font_idx: None,
            songs: Vec::new(),
            song_idx: None,
            queue: Vec::new(),
            queue_idx: None,
        }
    }
}

impl Playlist {
    pub fn has_unsaved_changes(&self) -> (r: bool)
        ensures
            r == self.unsaved_changes,
    {
        self.unsaved_changes
    }

    /// Whether the playlist is kept in a file of its own.
    pub fn is_portable(&self) -> (r: bool)
        ensures
            r == self.portable_path is Some,
    {
        self.portable_path.is_some()
    }

    pub fn get_portable_path(&self) -> (r: Option<String>)
        ensures
            opt_path(r) == opt_path(self.portable_path),
    {
        match &self.portable_path {
            Some(p) => Some(p.clone()),
            None => None,
        }
    }

    pub fn set_portable_path(&mut self, path: Option<String>)
        ensures
            *final(self) == (Playlist { portable_path: path, ..*old(self) }),
    {
        self.portable_path = path;
    }

    pub fn get_song_idx(&self) -> (r: Option<usize>)
        ensures
            r == self.song_idx,
    {
        self.song_idx
    }

    /// Selects a song, or clears the selection. An index past the songs is refused.
    pub fn set_song_idx(&mut self, index: Option<usize>) -> (r: Result<(), PlayerError>)
        ensures
            match index {
                Some(i) if i >= old(self).songs@.len() => {
                    &&& r == Err::<(), PlayerError>(PlayerError::SongIndex { index: i })
                    &&& *final(self) == *old(self)
                },
                _ => r is Ok && *final(self) == (Playlist { song_idx: index, ..*old(self) }),
            },
    {
        if let Some(i) = index {
            if i >= self.songs.len() {
                return Err(PlayerError::SongIndex { index: i });
            }
        }
        self.song_idx = index;
        Ok(())
    }

    /// The soundfont chosen for this playlist, if the choice is one of its fonts.
    pub fn get_selected_font(&self) -> (r: Option<&String>)
        ensures
            match self.font_idx {
                Some(i) if i < self.fonts@.len() => r == Some(&self.fonts@[i as int]),
                _ => r is None,
            },
    {
        match self.font_idx {
            Some(i) => if i < self.fonts.len() {
                Some(&self.fonts[i])
            } else {
                None
            },
            None => None,
        }
    }

    /// Chooses a soundfont, or clears the choice. An index past the fonts is refused.
    pub fn set_font_idx(&mut self, index: Option<usize>) -> (r: Result<(), PlayerError>)
        ensures
            match index {
                Some(i) if i >= old(self).fonts@.len() => {
                    &&& r == Err::<(), PlayerError>(PlayerError::FontIndex { index: i })
                    &&& *final(self) == *old(self)
                },
                _ => r is Ok && *final(self) == (Playlist { font_idx: index, ..*old(self) }),
            },
    {
        if let Some(i) = index {
            if i >= self.fonts.len() {
                return Err(PlayerError::FontIndex { index: i });
            }
        }
        self.font_idx = index;
        Ok(())
    }

    /// Adds the soundfont at `path`. A path that is already there is refused.
    pub fn add_font(&mut self, path: String) -> (r: Result<(), PlayerError>)
        ensures
            has_font(path_texts(old(self).fonts@), path@) ==> {
                &&& r == Err::<(), PlayerError>(PlayerError::FontAlreadyInPlaylist)
                &&& *final(self) == *old(self)
            },
            !has_font(path_texts(old(self).fonts@), path@) ==> {
                &&& r is Ok
                &&& final(self).fonts@ == old(self).fonts@.push(path)
                &&& *final(self) == (Playlist { fonts: final(self).fonts, ..*old(self) })
            },
            has_font(path_texts(final(self).fonts@), path@),
    {
        let mut i: usize = 0;
        while i < self.fonts.len()
            invariant
                i <= self.fonts.len(),
                forall|j: int| 0 <= j < i ==> !same_path(#[trigger] self.fonts@[j]@, path@),
            decreases self.fonts.len() - i,
        {
            if paths_equal(self.fonts[i].as_str(), path.as_str()) {
                assert(path_texts(self.fonts@)[i as int] == self.fonts@[i as int]@);
                return Err(PlayerError::FontAlreadyInPlaylist);
            }
            i += 1;
        }
        assert forall|j: int| 0 <= j < path_texts(self.fonts@).len() implies !same_path(
            #[trigger] path_texts(self.fonts@)[j],
            path@,
        ) by {
            assert(path_texts(self.fonts@)[j] == self.fonts@[j]@);
        }
        same_path_as_itself(path.as_str());
        self.fonts.push(path);
        assert(path_texts(self.fonts@)[self.fonts@.len() - 1] == self.fonts@[self.fonts@.len() - 1]@);
        Ok(())
    }

    /// Adds the song at `path`, loaded from `contents` (its bytes, or `None`
    /// where it could not be read). A path that is already there is refused.
    pub fn add_song(&mut self, path: String, contents: Option<&[u8]>) -> (r: Result<(), PlayerError>)
        ensures
            has_midi(old(self).songs@, path@) ==> {
                &&& r == Err::<(), PlayerError>(PlayerError::SongAlreadyInPlaylist)
                &&& *final(self) == *old(self)
            },
            !has_midi(old(self).songs@, path@) ==> {
                &&& r is Ok
                &&& *final(self) == (Playlist { songs: final(self).songs, ..*old(self) })
                &&& final(self).songs@.drop_last() == old(self).songs@
                &&& final(self).songs@.len() == old(self).songs@.len() + 1
                &&& final(self).songs@.last().path() == path@
                &&& loaded_from(final(self).songs@.last(), bytes_view(contents))
            },
            has_midi(final(self).songs@, path@),
    {
        let mut i: usize = 0;
        while i < self.songs.len()
            invariant
                i <= self.songs.len(),
                forall|j: int| 0 <= j < i ==> !same_path(#[trigger] self.songs@[j].path(), path@),
            decreases self.songs.len() - i,
        {
            let p = self.songs[i].get_path();
            if paths_equal(p.as_str(), path.as_str()) {
                return Err(PlayerError::SongAlreadyInPlaylist);
            }
            i += 1;
        }
        same_path_as_itself(path.as_str());
        let meta = MidiMeta::new(path, contents);
        self.songs.push(meta);
        assert(self.songs@.drop_last() =~= old(self).songs@);
        assert(same_path(self.songs@[self.songs@.len() - 1].path(), path@));
        Ok(())
    }

    /// A copy of this playlist.
    pub fn duplicate(&self) -> (r: Playlist)
        ensures
            r.name@ == self.name@,
            opt_path(r.portable_path) == opt_path(self.portable_path),
            same_content(*self, r),
    {
        let mut songs: Vec<MidiMeta> = Vec::new();
        let mut i: usize = 0;
        while i < self.songs.len()
            invariant
                i <= self.songs@.len(),
                songs@.len() == i,
                forall|j: int|
                    0 <= j < i ==> {
                        &&& (#[trigger] songs@[j]).path() == self.songs@[j].path()
                        &&& songs@[j].spec_duration() == self.songs@[j].spec_duration()
                        &&& songs@[j].spec_error() == self.songs@[j].spec_error()
                    },
            decreases self.songs@.len() - i,
        {
            songs.push(self.songs[i].duplicate());
            i += 1;
        }
        let mut queue: Vec<usize> = Vec::new();
        let mut k: usize = 0;
        while k < self.queue.len()
            invariant
                k <= self.queue@.len(),
                queue@ == self.queue@.take(k as int),
            decreases self.queue@.len() - k,
        {
            queue.push(self.queue[k]);
            assert(queue@ =~= self.queue@.take(k + 1));
            k += 1;
        }
        assert(queue@ =~= self.queue@);
        let mut fonts: Vec<String> = Vec::new();
        let mut f: usize = 0;
        while f < self.fonts.len()
            invariant
                f <= self.fonts@.len(),
                fonts@.len() == f,
                forall|j: int| 0 <= j < f ==> (#[trigger] fonts@[j])@ == self.fonts@[j]@,
            decreases self.fonts@.len() - f,
        {
            fonts.push(self.fonts[f].clone());
            f += 1;
        }
        assert(path_texts(fonts@) =~= path_texts(self.fonts@));
        Playlist {
            name: self.name.clone(),
            state: self.state,
            portable_path: self.get_portable_path(),
            unsaved_changes: self.unsaved_changes,
            fonts,
            font_idx: self.font_idx,
            songs,
            song_idx: self.song_idx,
            queue,
            queue_idx: self.queue_idx,
        }
    }

    /// Create a new song queue from the songs, and start it over.
    pub fn rebuild_queue(&mut self, shuffle: bool)
        ensures
            rebuilt(*old(self), *final(self), shuffle),
    {
        let n = self.songs.len();
        self.queue = build_queue(n, self.song_idx, shuffle);
        self.queue_idx = if n == 0 {
            None
        } else if shuffle {
            Some(0)
        } else {
            match self.song_idx {
                Some(s) => if s < n { Some(s) } else { Some(0) },
                None => Some(0),
            }
        };
    }
}

} // verus!
