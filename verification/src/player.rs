//! The player's app logic: the open playlists, which one is shown and which one
//! plays, closing and reopening playlists, and moving through the play queue.
//! Sound output, files and the window are the caller's: functions here say what
//! to do and keep the state; the caller carries out the sound and file work.

use vstd::prelude::*;
use crate::media::MidiMeta;
use crate::paths::{paths_equal, same_path};
use crate::playlist::{
    is_fresh_playlist, opt_path, queue_consistent, rebuilt, same_content, FontLibrary, Playlist,
    PlayerError, PlaylistState,
};
use vstd::string::StringExecFns;

verus! {

/// How many closed playlists are kept for reopening.
pub const REMOVED_PLAYLIST_HISTORY_LEN: usize = 100;

#[derive(Debug, Clone, Copy, PartialEq, Eq, Structural)]
pub enum RepeatMode {
    Disabled,
    Queue,
    Song,
}

/// What the caller does with the sound output after the queue moved on.
#[derive(Debug, Clone, Copy, PartialEq, Eq, Structural)]
pub enum QueueStep {
    /// Pause the output; the inspector's file holds the player.
    Pause,
    /// Stop the output; the queue has ended.
    Stop,
    /// Play the song now at the queue position.
    Play,
}

/// The Player class does high-level app logic, which includes playlists and playback.
pub struct Player {
    /// Is there playback going on? Paused playback also counts.
    pub is_playing: bool,
    pub playlists: Vec<Playlist>,
    /// Which playlist is open
    pub playlist_idx: usize,
    /// Which playlist was last playing music
    pub playing_playlist_idx: usize,
    /// For undo closing
    pub removed_playlists: Vec<Playlist>,
    /// The soundfonts known to the player, with the default one.
    pub font_lib: FontLibrary,
    /// A file opened in the MIDI inspector overrides the playlists.
    pub midi_override: Option<MidiMeta>,
    pub shuffle: bool,
    pub repeat: RepeatMode,
    pub autosave: bool,
    pub debug_block_saving: bool,
}

impl Default for Player {
    /// A player without playlists: nothing plays and saving is on.
    fn default() -> (r: Player)
        ensures
            r.playlists@.len() == 0,
            r.removed_playlists@.len() == 0,
            r.font_lib.fonts@.len() == 0,
            r.font_lib.selected is None,
            r.playlist_idx == 0,
            r.playing_playlist_idx == 0,
            !r.is_playing,
            r.midi_override is None,
            !r.shuffle,
            r.repeat == RepeatMode::Disabled,
            r.autosave,
            !r.debug_block_saving,
    {
        Player {
            is_playing: false,
            playlists: Vec::new(),
            playlist_idx: 0,
            playing_playlist_idx: 0,
            removed_playlists: Vec::new(),
            font_lib: FontLibrary::default(),
            midi_override: None,
            shuffle: false,
            repeat: RepeatMode::Disabled,
            autosave: true,
            debug_block_saving: false,
        }
    }
}

/// The soundfont a playlist sounds with: the playlist's own choice when it is
/// one of its fonts, otherwise the library's default when that is one of its fonts.
pub open spec fn chosen_font<'a>(p: Playlist, lib: FontLibrary) -> Option<&'a String> {
    match p.font_idx {
        Some(i) if i < p.fonts@.len() => Some(&p.fonts@[i as int]),
        _ => match lib.selected {
            Some(j) if j < lib.fonts@.len() => Some(&lib.fonts@[j as int]),
            _ => None,
        },
    }
}

/// A playlist's chosen font wins, whatever the library default is; a playlist
/// with no font chosen (or a choice past its fonts) sounds with the library's
/// default font, whatever fonts the playlist holds.
pub proof fn law_chosen_font_or_library_default(p: Playlist, other_fonts: Vec<String>, lib: FontLibrary)
    ensures
        p.font_idx is Some && p.font_idx->0 < p.fonts@.len() ==> chosen_font(p, lib) == Some(
            &p.fonts@[p.font_idx->0 as int],
        ),
        p.font_idx is None ==> match lib.selected {
            Some(j) if j < lib.fonts@.len() => chosen_font(p, lib) == Some(&lib.fonts@[j as int]),
            _ => chosen_font(p, lib) is None,
        },
        p.font_idx is None ==> chosen_font(p, lib) == chosen_font(
            Playlist { fonts: other_fonts, ..p },
            lib,
        ),
{
}

/// Reopening gives back the newest closed playlist, portable or not, unless it
/// is kept in a file that is open again; the history loses just that entry.
pub proof fn law_reopen_gives_back_newest(removed: Seq<Playlist>, open: Seq<Playlist>)
    requires
        removed.len() > 0,
        removed.last().portable_path is None || !portable_open(
            open,
            removed.last().portable_path->0@,
        ),
    ensures
        reopen_pick(removed, open) == (removed.drop_last(), Some(removed.last())),
{
}

/// Reopening never brings back a playlist whose file is open already, and
/// what it brings back comes from the history, whose remainder is a prefix of it.
pub proof fn law_reopen_skips_open_files(removed: Seq<Playlist>, open: Seq<Playlist>)
    ensures
        ({
            let (rest, back) = reopen_pick(removed, open);
            &&& rest.len() <= removed.len()
            &&& rest == removed.take(rest.len() as int)
            &&& back matches Some(q) ==> {
                &&& removed.len() > rest.len()
                &&& q == removed[rest.len() as int]
                &&& !(q.portable_path is Some && portable_open(open, q.portable_path->0@))
            }
        }),
    decreases removed.len(),
{
    if removed.len() > 0 {
        let p = removed.last();
        if p.portable_path is Some && portable_open(open, p.portable_path->0@) {
            law_reopen_skips_open_files(removed.drop_last(), open);
            let rest = reopen_pick(removed.drop_last(), open).0;
            assert(removed.drop_last().take(rest.len() as int) =~= removed.take(rest.len() as int));
        } else {
            assert(removed.drop_last() =~= removed.take(removed.len() - 1));
        }
    } else {
        assert(removed.take(0) =~= removed);
    }
}

/// While a song plays, playback works on the playing playlist, wherever the
/// open tab is; when nothing plays, it works on the open playlist.
pub proof fn law_playback_follows_playing_playlist(p: Player, open_tab: usize)
    ensures
        p.is_playing ==> p.playing_index() == p.playing_playlist_idx,
        !p.is_playing ==> p.playing_index() == p.playlist_idx,
        p.is_playing ==> (Player { playlist_idx: open_tab, ..p }).playing_index()
            == p.playing_index(),
{
}

/// The sequence with the item at `o` taken out and put back at `n`.
pub open spec fn moved<T>(s: Seq<T>, o: int, n: int) -> Seq<T> {
    s.remove(o).insert(n, s[o])
}

/// Where the item at `c` is found after the item at `o` was moved to `n`.
pub open spec fn moved_index(c: usize, o: usize, n: usize) -> usize {
    if o == c {
        n
    } else if o < c && c <= n {
        (c - 1) as usize
    } else if n <= c && c < o {
        (c + 1) as usize
    } else {
        c
    }
}

/// Moving an item follows every item: the item that was at `c` is found at
/// `moved_index(c, o, n)`.
pub proof fn law_move_tracks_index<T>(s: Seq<T>, o: usize, n: usize, c: usize)
    requires
        o < s.len(),
        n < s.len(),
        c < s.len(),
    ensures
        moved_index(c, o, n) < s.len(),
        moved(s, o as int, n as int).len() == s.len(),
        moved(s, o as int, n as int)[moved_index(c, o, n) as int] == s[c as int],
{
}

/// Moving an item back from where it was moved to undoes the move, for the
/// items and for every index that follows them.
pub proof fn law_move_round_trip<T>(s: Seq<T>, o: usize, n: usize, c: usize)
    requires
        o < s.len(),
        n < s.len(),
        c < s.len(),
    ensures
        moved(moved(s, o as int, n as int), n as int, o as int) == s,
        moved_index(moved_index(c, o, n), n, o) == c,
{
    assert(moved(moved(s, o as int, n as int), n as int, o as int) =~= s);
}

/// Whether an open playlist is kept in the file `path`.
pub open spec fn portable_open(playlists: Seq<Playlist>, path: Seq<char>) -> bool {
    exists|i: int|
        0 <= i < playlists.len() && (#[trigger] playlists[i]).portable_path is Some
            && same_path(playlists[i].portable_path->0@, path)
}

/// A playlist that waits for the user to confirm discarding its unsaved changes.
pub open spec fn waits_for_discard(p: Playlist) -> bool {
    p.state == PlaylistState::Queued && p.unsaved_changes
}

/// The outcome of setting the closing state of playlist `index`: refused
/// with `PlaylistIndex` past the playlists, otherwise only that state changes.
pub open spec fn state_set_outcome(
    before: Player,
    after: Player,
    r: Result<(), PlayerError>,
    index: usize,
    state: PlaylistState,
) -> bool {
    if index >= before.playlists@.len() {
        r == Err::<(), PlayerError>(PlayerError::PlaylistIndex { index }) && after == before
    } else {
        &&& r is Ok
        &&& after == (Player { playlists: after.playlists, ..before })
        &&& after.playlists@ == before.playlists@.update(
            index as int,
            Playlist { state, ..before.playlists@[index as int] },
        )
    }
}

/// A playlist that closing takes away now: marked to be discarded, or marked to
/// be closed and without unsaved changes.
pub open spec fn doomed(p: Playlist) -> bool {
    p.state == PlaylistState::QueuedDiscard || (p.state == PlaylistState::Queued && !p.unsaved_changes)
}

/// The history of closed playlists, cut to its newest entries.
pub open spec fn trim_history(h: Seq<Playlist>) -> Seq<Playlist> {
    if h.len() > REMOVED_PLAYLIST_HISTORY_LEN {
        h.skip(h.len() - REMOVED_PLAYLIST_HISTORY_LEN)
    } else {
        h
    }
}

/// What closing playlists changes: the open playlists, the closed history, and
/// the open and playing indices.
pub struct ClosingState {
    pub playlists: Seq<Playlist>,
    pub removed: Seq<Playlist>,
    pub idx: usize,
    pub playing: usize,
}

/// Closing playlist `i`, if it is doomed: it moves to the history, and the
/// indices follow. The open index never moves below the first playlist, moves
/// down when a playlist before it closes, and moves down when it would point
/// past the last playlist. The playing index moves down when a playlist at or
/// before it closes.
pub open spec fn close_step(st: ClosingState, i: int) -> ClosingState {
    if doomed(st.playlists[i]) {
        let playlists = st.playlists.remove(i);
        let last_selected = st.idx == playlists.len();
        ClosingState {
            playlists,
            removed: trim_history(st.removed.push(st.playlists[i])),
            idx: if 0 < st.idx && (i < st.idx || last_selected) {
                (st.idx - 1) as usize
            } else {
                st.idx
            },
            playing: if 0 < st.playing && i <= st.playing {
                (st.playing - 1) as usize
            } else {
                st.playing
            },
        }
    } else {
        st
    }
}

/// The state after closing the doomed playlists from the last one down to `k`.
pub open spec fn closed_from(st: ClosingState, k: nat) -> ClosingState
    decreases st.playlists.len() - k,
{
    if k >= st.playlists.len() {
        st
    } else {
        close_step(closed_from(st, k + 1), k as int)
    }
}

/// The part of a player that closing playlists changes.
pub open spec fn closing_state(p: Player) -> ClosingState {
    ClosingState {
        playlists: p.playlists@,
        removed: p.removed_playlists@,
        idx: p.playlist_idx,
        playing: p.playing_playlist_idx,
    }
}

/// An index that points at a playlist, or is zero when there is none.
pub open spec fn index_fits(idx: usize, len: nat) -> bool {
    idx < len || (len == 0 && idx == 0)
}

/// Closing the doomed playlists from the top down to `k` keeps the playlists
/// below `k`, keeps every index pointing at a playlist, and keeps the open
/// index on the same playlist when that one stays open.
pub proof fn lemma_closed_from(st: ClosingState, k: nat)
    requires
        k <= st.playlists.len(),
    ensures
        ({
            let r = closed_from(st, k);
            &&& r.playlists.len() >= k
            &&& forall|j: int| 0 <= j < k ==> #[trigger] r.playlists[j] == st.playlists[j]
            &&& index_fits(st.idx, st.playlists.len()) ==> index_fits(r.idx, r.playlists.len())
            &&& index_fits(st.playing, st.playlists.len()) ==> index_fits(r.playing, r.playlists.len())
            &&& st.removed.len() <= REMOVED_PLAYLIST_HISTORY_LEN ==> r.removed.len()
                <= REMOVED_PLAYLIST_HISTORY_LEN
            &&& st.idx < st.playlists.len() && !doomed(st.playlists[st.idx as int]) ==> {
                &&& r.idx < r.playlists.len()
                &&& r.playlists[r.idx as int] == st.playlists[st.idx as int]
            }
            &&& r.playlists == st.playlists.take(k as int) + st.playlists.skip(k as int).filter(
                |p: Playlist| !doomed(p),
            )
        }),
    decreases st.playlists.len() - k,
{
    broadcast use vstd::seq_lib::group_filter_ensures;
    if k < st.playlists.len() {
        lemma_closed_from(st, k + 1);
        let prev = closed_from(st, k + 1);
        let i = k as int;
        assert(prev.playlists[i] == st.playlists[i]);
        let tail = st.playlists.skip(k as int);
        assert(tail =~= seq![st.playlists[i]] + st.playlists.skip(i + 1));
        Seq::filter_distributes_over_add(seq![st.playlists[i]], st.playlists.skip(i + 1), |p: Playlist| !doomed(p));
        reveal_with_fuel(Seq::<_>::filter, 2);
        if doomed(st.playlists[i]) {
            assert(prev.playlists.remove(i) =~= st.playlists.take(k as int) + st.playlists.skip(
                k as int,
            ).filter(|p: Playlist| !doomed(p)));
            if st.idx < st.playlists.len() && !doomed(st.playlists[st.idx as int]) {
                assert(prev.idx != i);
            }
        } else {
            assert(prev.playlists =~= st.playlists.take(k as int) + st.playlists.skip(
                k as int,
            ).filter(|p: Playlist| !doomed(p)));
        }
    } else {
        assert(st.playlists.take(k as int) =~= st.playlists);
        assert(st.playlists.skip(k as int).filter(|p: Playlist| !doomed(p)) =~= Seq::empty()) by {
            reveal_with_fuel(Seq::<_>::filter, 1);
        }
    }
}

/// Appends a closed playlist to the history, dropping the oldest entries past
/// the history's length.
fn push_history(history: &mut Vec<Playlist>, closed: Playlist)
    ensures
        final(history)@ == trim_history(old(history)@.push(closed)),
{
    history.push(closed);
    let ghost h = history@;
    while history.len() > REMOVED_PLAYLIST_HISTORY_LEN
        invariant
            h.len() <= REMOVED_PLAYLIST_HISTORY_LEN ==> history@ == h,
            h.len() > REMOVED_PLAYLIST_HISTORY_LEN ==> {
                &&& history@.len() >= REMOVED_PLAYLIST_HISTORY_LEN
                &&& history@.len() <= h.len()
                &&& history@ == h.skip(h.len() - history@.len())
            },
        decreases history@.len(),
    {
        let ghost cur = history@;
        history.remove(0);
        assert(history@ =~= h.skip(h.len() - history@.len())) by {
            assert forall|j: int| 0 <= j < history@.len() implies history@[j] == h.skip(
                h.len() - history@.len(),
            )[j] by {
                assert(history@[j] == cur[j + 1]);
            }
        }
    }
    assert(history@ == trim_history(h)) by {
        if h.len() <= REMOVED_PLAYLIST_HISTORY_LEN {
        }
    }
}

/// Reopening a closed playlist: the newest closed playlist comes back, except
/// that portable ones whose file is open again are dropped from the history on
/// the way. Gives the history left and the playlist to reopen, if any.
pub open spec fn reopen_pick(removed: Seq<Playlist>, open: Seq<Playlist>) -> (Seq<Playlist>, Option<Playlist>)
    decreases removed.len(),
{
    if removed.len() == 0 {
        (removed, None)
    } else {
        let p = removed.last();
        if p.portable_path is Some && portable_open(open, p.portable_path->0@) {
            reopen_pick(removed.drop_last(), open)
        } else {
            (removed.drop_last(), Some(p))
        }
    }
}

/// The player with playlist `i` replaced by `p`.
pub open spec fn with_playlist(before: Player, after: Player, i: int, p: Playlist) -> bool {
    &&& after.playlists@ == before.playlists@.update(i, p)
    &&& after == Player { playlists: after.playlists, ..before }
}

/// A playlist with its queue position and song selection cleared.
pub open spec fn stopped(p: Playlist) -> Playlist {
    Playlist { queue_idx: None, song_idx: None, ..p }
}

/// Moving the queue on from its position stays in the queue and lands on a
/// song: the position is in the queue, and the entry that becomes the selected
/// song (the same one when the song repeats, the next one, or the first one
/// after the last when the queue repeats) is one of the songs.
pub open spec fn advance_fits(p: Playlist, repeat: RepeatMode) -> bool {
    match p.queue_idx {
        None => true,
        Some(q) => {
            &&& q < p.queue@.len()
            &&& if repeat == RepeatMode::Song {
                p.queue@[q as int] < p.songs@.len()
            } else if q + 1 < p.queue@.len() {
                p.queue@[q + 1] < p.songs@.len()
            } else if repeat == RepeatMode::Queue {
                p.queue@[0] < p.songs@.len()
            } else {
                true
            }
        },
    }
}

/// A queue in step with the songs can always be moved on.
pub proof fn law_consistent_queue_advances(p: Playlist, repeat: RepeatMode)
    requires
        queue_consistent(p),
    ensures
        advance_fits(p, repeat),
{
}

/// Where skipping forward moves the queue position `q` in a queue of `len`
/// songs: one song on; from the last song, back to the start with the queue
/// repeating; otherwise it stays (`None`).
pub open spec fn skip_target(q: usize, len: nat, repeat: RepeatMode) -> Option<usize> {
    if q + 1 < len {
        Some((q + 1) as usize)
    } else if repeat == RepeatMode::Queue {
        Some(0usize)
    } else {
        None
    }
}

/// Where skipping back moves the queue position `q`: one song back; from the
/// first song, to the last one with the queue repeating; otherwise it stays.
pub open spec fn skip_back_target(q: usize, len: nat, repeat: RepeatMode) -> Option<usize> {
    if q > 0 {
        Some((q - 1) as usize)
    } else if repeat == RepeatMode::Queue {
        Some((len - 1) as usize)
    } else {
        None
    }
}

/// Skipping back undoes skipping forward from any song but the last, whatever
/// the repeat mode; with the queue repeating, skipping back from the first song
/// lands on the last one and skipping on from there returns to the first.
pub proof fn law_skip_back_undoes_skip(q: usize, len: nat, repeat: RepeatMode)
    requires
        q + 1 < len <= usize::MAX,
    ensures
        skip_target(q, len, repeat) == Some((q + 1) as usize),
        skip_back_target((q + 1) as usize, len, repeat) == Some(q),
        repeat == RepeatMode::Queue ==> skip_back_target(0, len, repeat) == Some((len - 1) as usize)
            && skip_target((len - 1) as usize, len, repeat) == Some(0usize),
{
}

/// Closing only playlist `i` from the top down leaves the others in order and
/// puts playlist `i` at the newest end of the history.
proof fn lemma_close_single(st: ClosingState, i: int, k: nat)
    requires
        0 <= i < st.playlists.len(),
        k <= st.playlists.len(),
        doomed(st.playlists[i]),
        forall|j: int| 0 <= j < st.playlists.len() && j != i ==> !doomed(#[trigger] st.playlists[j]),
    ensures
        k > i ==> closed_from(st, k).playlists == st.playlists && closed_from(st, k).removed
            == st.removed,
        k <= i ==> closed_from(st, k).playlists == st.playlists.remove(i) && closed_from(
            st,
            k,
        ).removed == trim_history(st.removed.push(st.playlists[i])),
    decreases st.playlists.len() - k,
{
    if k < st.playlists.len() {
        lemma_close_single(st, i, k + 1);
        let prev = closed_from(st, k + 1);
        if k < i {
            assert(prev.playlists[k as int] == st.playlists[k as int]);
        }
    }
}

/// Undo closing: when a playlist that is not kept in a file of its own is the
/// only one due to close, closing takes it out of the open playlists and
/// reopening then gives exactly that playlist back (`remove_playlist`, `update`
/// and `reopen_removed_playlist` state these steps for the player).
pub proof fn law_close_then_reopen(st: ClosingState, i: int)
    requires
        0 <= i < st.playlists.len(),
        doomed(st.playlists[i]),
        st.playlists[i].portable_path is None,
        forall|j: int| 0 <= j < st.playlists.len() && j != i ==> !doomed(#[trigger] st.playlists[j]),
    ensures
        ({
            let c = closed_from(st, 0);
            &&& c.playlists == st.playlists.remove(i)
            &&& c.removed.len() > 0
            &&& reopen_pick(c.removed, c.playlists) == (c.removed.drop_last(), Some(st.playlists[i]))
        }),
{
    lemma_close_single(st, i, 0);
    let h = st.removed.push(st.playlists[i]);
    let c = closed_from(st, 0);
    assert(c.removed.last() == st.playlists[i]) by {
        if h.len() > REMOVED_PLAYLIST_HISTORY_LEN {
            assert(h.skip(h.len() - REMOVED_PLAYLIST_HISTORY_LEN).last() == h.last());
        }
    }
}

/// What a frame update's closing of playlists leaves: the closing of
/// `closed_from`, then a fresh playlist where none is left (unless the
/// inspector overrides), with `closed` counting the playlists closed; nothing
/// else changes.
pub open spec fn queued_deleted(before: Player, after: Player, closed: usize) -> bool {
    let c = closed_from(closing_state(before), 0);
    &&& after == (Player {
        playlists: after.playlists,
        removed_playlists: after.removed_playlists,
        playlist_idx: after.playlist_idx,
        playing_playlist_idx: after.playing_playlist_idx,
        ..before
    })
    &&& c.playlists.len() > 0 ==> closing_state(after) == c
    &&& c.playlists.len() == 0 && before.midi_override is Some ==> closing_state(after) == (
    ClosingState { idx: 0, ..c })
    &&& c.playlists.len() == 0 && before.midi_override is None ==> {
        &&& after.playlists@.len() == 1
        &&& is_fresh_playlist(after.playlists@[0])
        &&& after.playlist_idx == 0
        &&& after.removed_playlists@ == c.removed
        &&& after.playing_playlist_idx == c.playing
    }
    &&& closed == before.playlists@.len() - c.playlists.len()
}

/// The laws of closing playlists: the open playlists are those that were open
/// and not due to close; an open playlist that stays open stays the open one;
/// indices that pointed at a playlist still do, where there is one; the history
/// of closed playlists stays within its length; and without the inspector, a
/// player whose indices point at playlists keeps at least one playlist, with
/// both indices pointing at one.
pub open spec fn closing_laws(before: Player, after: Player) -> bool {
    &&& closed_from(closing_state(before), 0).playlists == before.playlists@.filter(
        |p: Playlist| !doomed(p),
    )
    &&& before.playlist_idx < before.playlists@.len() && !doomed(
        before.playlists@[before.playlist_idx as int],
    ) ==> after.playlist_idx < after.playlists@.len()
        && after.playlists@[after.playlist_idx as int]
        == before.playlists@[before.playlist_idx as int]
    &&& index_fits(before.playlist_idx, before.playlists@.len()) ==> index_fits(
        after.playlist_idx,
        after.playlists@.len(),
    )
    &&& index_fits(before.playing_playlist_idx, before.playlists@.len()) ==> index_fits(
        after.playing_playlist_idx,
        after.playlists@.len(),
    )
    &&& before.removed_playlists@.len() <= REMOVED_PLAYLIST_HISTORY_LEN
        ==> after.removed_playlists@.len() <= REMOVED_PLAYLIST_HISTORY_LEN
    &&& before.midi_override is None && index_fits(before.playlist_idx, before.playlists@.len())
        && index_fits(before.playing_playlist_idx, before.playlists@.len()) ==> {
        &&& after.playlists@.len() > 0
        &&& after.playlist_idx < after.playlists@.len()
        &&& after.playing_playlist_idx < after.playlists@.len()
    }
}

/// A frame update keeps a player usable: without the inspector open, a player
/// with a playlist, both indices pointing at playlists and a closed history
/// within its length still has a playlist, both indices pointing at
/// playlists, and a history within its length afterwards.
pub proof fn law_update_keeps_player_usable(before: Player, after: Player, closed: usize)
    requires
        queued_deleted(before, after, closed),
        before.midi_override is None,
        before.playlists@.len() > 0,
        before.playlist_idx < before.playlists@.len(),
        before.playing_playlist_idx < before.playlists@.len(),
        before.removed_playlists@.len() <= REMOVED_PLAYLIST_HISTORY_LEN,
    ensures
        after.playlists@.len() > 0,
        after.playlist_idx < after.playlists@.len(),
        after.playing_playlist_idx < after.playlists@.len(),
        after.removed_playlists@.len() <= REMOVED_PLAYLIST_HISTORY_LEN,
{
    lemma_closed_from(closing_state(before), 0);
}

impl Player {
    /// The playlist playback works on: the playing one while something plays,
    /// otherwise the open one.
    pub open spec fn playing_index(&self) -> usize {
        if self.is_playing {
            self.playing_playlist_idx
        } else {
            self.playlist_idx
        }
    }

    /// The default soundfont: the one chosen in the font library.
    pub fn get_default_soundfont(&self) -> (r: Option<&String>)
        ensures
            match self.font_lib.selected {
                Some(i) if i < self.font_lib.fonts@.len() => r == Some(&self.font_lib.fonts@[i as int]),
                _ => r is None,
            },
    {
        self.font_lib.get_selected()
    }

    /// The soundfont the open playlist sounds with: its own choice, else the default.
    pub fn get_soundfont_meta(&self) -> (r: Option<&String>)
        requires
            self.playlist_idx < self.playlists@.len(),
        ensures
            r == chosen_font(self.playlists@[self.playlist_idx as int], self.font_lib),
    {
        let font_meta = match self.get_playlist().get_selected_font() {
            Some(font) => font,
            None => return self.get_default_soundfont(),
        };
        Some(font_meta)
    }

    /// Finds out which font playback loads: the playing playlist's own choice,
    /// else the default; refused where there is neither. The caller loads it.
    pub fn reload_font(&self) -> (r: Result<String, PlayerError>)
        requires
            self.playing_index() < self.playlists@.len(),
        ensures
            match chosen_font(self.playlists@[self.playing_index() as int], self.font_lib) {
                Some(f) => r matches Ok(path) && path@ == f@,
                None => r == Err::<String, PlayerError>(PlayerError::PlaybackNoSoundfont),
            },
    {
        let mut font_meta = self.get_playing_playlist().get_selected_font();
        if font_meta.is_none() {
            font_meta = self.font_lib.get_selected();
        }
        let Some(font_meta) = font_meta else {
            return Err(PlayerError::PlaybackNoSoundfont);
        };
        Ok(font_meta.clone())
    }

    // --- Manage Playlists

    /// Index of currently open playlist
    pub fn get_playlist_idx(&self) -> (r: usize)
        ensures
            r == self.playlist_idx,
    {
        self.playlist_idx
    }

    /// Index of currently playing playlist
    pub fn get_playing_playlist_idx(&self) -> (r: usize)
        ensures
            r == self.playing_playlist_idx,
    {
        self.playing_playlist_idx
    }

    /// Get a reference to the playlist list
    pub fn get_playlists(&self) -> (r: &Vec<Playlist>)
        ensures
            r == &self.playlists,
    {
        &self.playlists
    }

    /// Get a reference to the currently open playlist
    pub fn get_playlist(&self) -> (r: &Playlist)
        requires
            self.playlist_idx < self.playlists@.len(),
        ensures
            *r == self.playlists@[self.playlist_idx as int],
    {
        &self.playlists[self.playlist_idx]
    }

    /// Get a reference to the currently playing playlist.
    /// If nothing's playing, it gives the currently open playlist instead.
    pub fn get_playing_playlist(&self) -> (r: &Playlist)
        requires
            self.playing_index() < self.playlists@.len(),
        ensures
            *r == self.playlists@[self.playing_index() as int],
    {
        if self.is_playing {
            return &self.playlists[self.playing_playlist_idx];
        }
        &self.playlists[self.playlist_idx]
    }

    /// Get a mutable reference to the playlist list
    pub fn get_playlists_mut(&mut self) -> (r: &mut Vec<Playlist>)
        ensures
            *r == old(self).playlists,
            *final(self) == (Player { playlists: *final(r), ..*old(self) }),
    {
        &mut self.playlists
    }

    /// Get a mutable reference to the currently open playlist
    pub fn get_playlist_mut(&mut self) -> (r: &mut Playlist)
        requires
            old(self).playlist_idx < old(self).playlists@.len(),
        ensures
            *r == old(self).playlists@[old(self).playlist_idx as int],
            final(self).playlists@ == old(self).playlists@.update(
                old(self).playlist_idx as int,
                *final(r),
            ),
            *final(self) == (Player { playlists: final(self).playlists, ..*old(self) }),
    {
        &mut self.playlists[self.playlist_idx]
    }

    /// Get a mutable reference to the currently playing playlist.
    /// If nothing's playing, it gives the currently open playlist instead.
    pub fn get_playing_playlist_mut(&mut self) -> (r: &mut Playlist)
        requires
            old(self).playing_index() < old(self).playlists@.len(),
        ensures
            *r == old(self).playlists@[old(self).playing_index() as int],
            final(self).playlists@ == old(self).playlists@.update(
                old(self).playing_index() as int,
                *final(r),
            ),
            *final(self) == (Player { playlists: final(self).playlists, ..*old(self) }),
    {
        if self.is_playing {
            return &mut self.playlists[self.playing_playlist_idx];
        }
        &mut self.playlists[self.playlist_idx]
    }

    // --- Portable playlist files

    /// Whether playlist `index` may be saved to its file now: refused past the
    /// playlists, and while saving is blocked.
    pub fn check_save_portable(&self, index: usize) -> (r: Result<(), PlayerError>)
        ensures
            index >= self.playlists@.len() ==> r == Err::<(), PlayerError>(
                PlayerError::PlaylistIndex { index },
            ),
            index < self.playlists@.len() && self.debug_block_saving ==> r == Err::<(), PlayerError>(
                PlayerError::DebugBlockSaving,
            ),
            index < self.playlists@.len() && !self.debug_block_saving ==> r is Ok,
    {
        if index >= self.playlists.len() {
            return Err(PlayerError::PlaylistIndex { index });
        }
        if self.debug_block_saving {
            return Err(PlayerError::DebugBlockSaving);
        }
        Ok(())
    }

    /// Whether the portable playlists may be saved to their files now.
    pub fn check_save_all(&self) -> (r: Result<(), PlayerError>)
        ensures
            self.debug_block_saving ==> r == Err::<(), PlayerError>(PlayerError::DebugBlockSaving),
            !self.debug_block_saving ==> r is Ok,
    {
        if self.debug_block_saving {
            return Err(PlayerError::DebugBlockSaving);
        }
        Ok(())
    }

    /// The copy of playlist `index` to be saved into the new file `filepath`:
    /// kept in that file, named after the file's stem (`file_stem`), or after
    /// the copied playlist with " (Copy)" where the path has no stem. Refused past the
    /// playlists, while saving is blocked, and when that file is already open.
    pub fn prepare_save_as(&self, index: usize, filepath: String, file_stem: Option<String>) -> (r:
        Result<Playlist, PlayerError>)
        ensures
            index >= self.playlists@.len() ==> r == Err::<Playlist, PlayerError>(
                PlayerError::PlaylistIndex { index },
            ),
            index < self.playlists@.len() && self.debug_block_saving ==> r == Err::<
                Playlist,
                PlayerError,
            >(PlayerError::DebugBlockSaving),
            index < self.playlists@.len() && !self.debug_block_saving && portable_open(
                self.playlists@,
                filepath@,
            ) ==> r == Err::<Playlist, PlayerError>(PlayerError::PlaylistAlreadyOpen),
            index < self.playlists@.len() && !self.debug_block_saving && !portable_open(
                self.playlists@,
                filepath@,
            ) ==> (r matches Ok(copy) && {
                let source = self.playlists@[index as int];
                &&& same_content(source, copy)
                &&& opt_path(copy.portable_path) == Some(filepath@)
                &&& copy.name@ == match file_stem {
                    Some(stem) => stem@,
                    None => source.name@ + " (Copy)"@,
                }
            }),
    {
        if index >= self.playlists.len() {
            return Err(PlayerError::PlaylistIndex { index });
        }
        if self.debug_block_saving {
            return Err(PlayerError::DebugBlockSaving);
        }
        if self.is_portable_playlist_open(&filepath) {
            return Err(PlayerError::PlaylistAlreadyOpen);
        }
        let mut new_playlist = self.playlists[index].duplicate();
        new_playlist.set_portable_path(Some(filepath));
        new_playlist.name = match file_stem {
            Some(stem) => stem,
            None => {
                let mut name = self.playlists[index].name.clone();
                name.append(" (Copy)");
                name
            },
        };
        Ok(new_playlist)
    }

    /// Adds a playlist saved to a new file, and switches to it where switching
    /// is allowed.
    pub fn add_saved_playlist(&mut self, playlist: Playlist)
        ensures
            final(self).playlists@ == old(self).playlists@.push(playlist),
            *final(self) == (Player {
                playlists: final(self).playlists,
                playlist_idx: if old(self).midi_override is None {
                    old(self).playlists@.len() as usize
                } else {
                    old(self).playlist_idx
                },
                ..*old(self)
            }),
    {
        self.playlists.push(playlist);
        let _ = self.switch_to_playlist(self.playlists.len() - 1);
    }

    /// Opens a playlist read from the portable file `filepath`, unless that file
    /// is already open.
    pub fn open_portable_playlist(&mut self, filepath: &String, playlist: Playlist) -> (r: Result<
        (),
        PlayerError,
    >)
        ensures
            portable_open(old(self).playlists@, filepath@) ==> r == Err::<(), PlayerError>(
                PlayerError::PlaylistAlreadyOpen,
            ) && *final(self) == *old(self),
            !portable_open(old(self).playlists@, filepath@) ==> {
                &&& r is Ok
                &&& final(self).playlists@ == old(self).playlists@.push(playlist)
                &&& *final(self) == (Player {
                    playlists: final(self).playlists,
                    playlist_idx: old(self).playlists@.len() as usize,
                    ..*old(self)
                })
            },
    {
        if self.is_portable_playlist_open(filepath) {
            return Err(PlayerError::PlaylistAlreadyOpen);
        }
        self.playlists.push(playlist);
        self.playlist_idx = self.playlists.len() - 1;
        Ok(())
    }

    /// Switch to another playlist
    pub fn switch_to_playlist(&mut self, index: usize) -> (r: Result<(), PlayerError>)
        ensures
            old(self).midi_override is Some ==> r == Err::<(), PlayerError>(PlayerError::MidiOverride)
                && *final(self) == *old(self),
            old(self).midi_override is None && index >= old(self).playlists@.len() ==> r == Err::<
                (),
                PlayerError,
            >(PlayerError::PlaylistIndex { index }) && *final(self) == *old(self),
            old(self).midi_override is None && index < old(self).playlists@.len() ==> r is Ok
                && *final(self) == (Player { playlist_idx: index, ..*old(self) }),
    {
        if self.midi_override.is_some() {
            return Err(PlayerError::MidiOverride);
        }
        if index >= self.playlists.len() {
            return Err(PlayerError::PlaylistIndex { index });
        }
        self.playlist_idx = index;
        Ok(())
    }

    pub fn switch_playlist_left(&mut self) -> (r: Result<(), PlayerError>)
        ensures
            old(self).midi_override is Some ==> r == Err::<(), PlayerError>(PlayerError::MidiOverride)
                && *final(self) == *old(self),
            old(self).midi_override is None && old(self).playlist_idx == 0 ==> r == Err::<
                (),
                PlayerError,
            >(PlayerError::PlaylistCantSwitch) && *final(self) == *old(self),
            old(self).midi_override is None && old(self).playlist_idx > 0 ==> r is Ok && *final(self)
                == (Player { playlist_idx: (old(self).playlist_idx - 1) as usize, ..*old(self) }),
    {
        if self.midi_override.is_some() {
            return Err(PlayerError::MidiOverride);
        }
        if self.playlist_idx == 0 {
            return Err(PlayerError::PlaylistCantSwitch);
        }
        self.playlist_idx -= 1;
        Ok(())
    }

    pub fn switch_playlist_right(&mut self) -> (r: Result<(), PlayerError>)
        requires
            old(self).midi_override is Some || old(self).playlists@.len() > 0,
        ensures
            old(self).midi_override is Some ==> r == Err::<(), PlayerError>(PlayerError::MidiOverride)
                && *final(self) == *old(self),
            old(self).midi_override is None && old(self).playlist_idx + 1 >= old(self).playlists@.len()
                ==> r == Err::<(), PlayerError>(PlayerError::PlaylistCantSwitch) && *final(self)
                == *old(self),
            old(self).midi_override is None && old(self).playlist_idx + 1 < old(self).playlists@.len()
                ==> r is Ok && *final(self) == (Player {
                playlist_idx: (old(self).playlist_idx + 1) as usize,
                ..*old(self)
            }),
    {
        if self.midi_override.is_some() {
            return Err(PlayerError::MidiOverride);
        }
        if self.playlist_idx >= self.playlists.len() - 1 {
            return Err(PlayerError::PlaylistCantSwitch);
        }
        self.playlist_idx += 1;
        Ok(())
    }

    /// Create a new playlist
    pub fn new_playlist(&mut self) -> (r: Result<(), PlayerError>)
        ensures
            old(self).midi_override is Some ==> r == Err::<(), PlayerError>(PlayerError::MidiOverride)
                && *final(self) == *old(self),
            old(self).midi_override is None ==> {
                &&& r is Ok
                &&& final(self).playlists@.len() == old(self).playlists@.len() + 1
                &&& final(self).playlists@.drop_last() == old(self).playlists@
                &&& is_fresh_playlist(final(self).playlists@.last())
                &&& *final(self) == (Player { playlists: final(self).playlists, ..*old(self) })
            },
    {
        if self.midi_override.is_some() {
            return Err(PlayerError::MidiOverride);
        }
        self.playlists.push(Playlist::default());
        assert(self.playlists@.drop_last() =~= old(self).playlists@);
        Ok(())
    }

    /// Marks a playlist to be closed: at once when it has no unsaved changes,
    /// after the user confirms otherwise.
    pub fn remove_playlist(&mut self, index: usize) -> (r: Result<(), PlayerError>)
        ensures
            old(self).midi_override is Some ==> r == Err::<(), PlayerError>(PlayerError::MidiOverride)
                && *final(self) == *old(self),
            old(self).midi_override is None ==> state_set_outcome(
                *old(self),
                *final(self),
                r,
                index,
                PlaylistState::Queued,
            ),
    {
        if self.midi_override.is_some() {
            return Err(PlayerError::MidiOverride);
        }
        self.set_playlist_state(index, PlaylistState::Queued)
    }

    /// Remove a playlist by index, override unsaved check
    pub fn force_remove_playlist(&mut self, index: usize) -> (r: Result<(), PlayerError>)
        ensures
            state_set_outcome(*old(self), *final(self), r, index, PlaylistState::QueuedDiscard),
    {
        self.set_playlist_state(index, PlaylistState::QueuedDiscard)
    }

    pub fn cancel_remove_playlist(&mut self, index: usize) -> (r: Result<(), PlayerError>)
        ensures
            state_set_outcome(*old(self), *final(self), r, index, PlaylistState::Open),
    {
        self.set_playlist_state(index, PlaylistState::Open)
    }

    fn set_playlist_state(&mut self, index: usize, state: PlaylistState) -> (r: Result<
        (),
        PlayerError,
    >)
        ensures
            state_set_outcome(*old(self), *final(self), r, index, state),
    {
        if index >= self.playlists.len() {
            return Err(PlayerError::PlaylistIndex { index });
        }
        let mut playlist = self.playlists.remove(index);
        playlist.state = state;
        self.playlists.insert(index, playlist);
        assert(self.playlists@ =~= old(self).playlists@.update(
            index as int,
            Playlist { state, ..old(self).playlists@[index as int] },
        ));
        Ok(())
    }

    /// Get a playlist waiting for delete confirm, if any exist.
    pub fn get_playlist_waiting_for_discard(&self) -> (r: Option<usize>)
        ensures
            match r {
                Some(i) => i < self.playlists@.len() && waits_for_discard(self.playlists@[i as int])
                    && forall|j: int| 0 <= j < i ==> !waits_for_discard(#[trigger] self.playlists@[j]),
                None => forall|j: int|
                    0 <= j < self.playlists@.len() ==> !waits_for_discard(#[trigger] self.playlists@[j]),
            },
    {
        let mut i: usize = 0;
        while i < self.playlists.len()
            invariant
                i <= self.playlists@.len(),
                forall|j: int| 0 <= j < i ==> !waits_for_discard(#[trigger] self.playlists@[j]),
            decreases self.playlists@.len() - i,
        {
            let playlist = &self.playlists[i];
            if playlist.state == PlaylistState::Queued && playlist.has_unsaved_changes() {
                return Some(i);
            }
            i += 1;
        }
        None
    }

    /// Playlist tabs have been closed
    pub fn has_removed_playlist(&self) -> (r: bool)
        ensures
            r == (self.removed_playlists@.len() > 0),
    {
        !self.removed_playlists.is_empty()
    }

    /// Rearrange playlists
    pub fn move_playlist(&mut self, old_index: usize, new_index: usize) -> (r: Result<(), PlayerError>)
        ensures
            old_index >= old(self).playlists@.len() ==> r == Err::<(), PlayerError>(
                PlayerError::PlaylistIndex { index: old_index },
            ) && *final(self) == *old(self),
            old_index < old(self).playlists@.len() && new_index >= old(self).playlists@.len() ==> r
                == Err::<(), PlayerError>(PlayerError::PlaylistIndex { index: new_index })
                && *final(self) == *old(self),
            old_index < old(self).playlists@.len() && new_index < old(self).playlists@.len() ==> {
                &&& r is Ok
                &&& final(self).playlists@ == moved(
                    old(self).playlists@,
                    old_index as int,
                    new_index as int,
                )
                &&& *final(self) == (Player {
                    playlists: final(self).playlists,
                    playlist_idx: moved_index(old(self).playlist_idx, old_index, new_index),
                    playing_playlist_idx: moved_index(
                        old(self).playing_playlist_idx,
                        old_index,
                        new_index,
                    ),
                    ..*old(self)
                })
            },
    {
        if old_index >= self.playlists.len() {
            return Err(PlayerError::PlaylistIndex { index: old_index });
        }
        if new_index >= self.playlists.len() {
            return Err(PlayerError::PlaylistIndex { index: new_index });
        }
        let playlist = self.playlists.remove(old_index);  // Remove at old index
        self.playlists.insert(new_index, playlist);  // Reinsert at new index

        // Update current playlist index if it was affected by the move
        if old_index == self.playlist_idx {
            self.playlist_idx = new_index;
        } else if old_index < self.playlist_idx && self.playlist_idx <= new_index {
            self.playlist_idx -= 1;
        } else if new_index <= self.playlist_idx && self.playlist_idx < old_index {
            self.playlist_idx += 1;
        }
        // Update playing playlist index if it was affected by the move
        if old_index == self.playing_playlist_idx {
            self.playing_playlist_idx = new_index;
        } else if old_index < self.playing_playlist_idx && self.playing_playlist_idx <= new_index {
            self.playing_playlist_idx -= 1;
        } else if new_index <= self.playing_playlist_idx && self.playing_playlist_idx < old_index {
            self.playing_playlist_idx += 1;
        }
        Ok(())
    }

    /// Move current playlist left
    pub fn move_playlist_left(&mut self) -> (r: Result<(), PlayerError>)
        requires
            old(self).playlist_idx == 0 || old(self).playlist_idx < old(self).playlists@.len(),
        ensures
            old(self).playlist_idx == 0 ==> r == Err::<(), PlayerError>(PlayerError::PlaylistCantMove)
                && *final(self) == *old(self),
            old(self).playlist_idx > 0 ==> {
                let o = old(self).playlist_idx;
                let n = (old(self).playlist_idx - 1) as usize;
                &&& r is Ok
                &&& final(self).playlists@ == moved(old(self).playlists@, o as int, n as int)
                &&& *final(self) == (Player {
                    playlists: final(self).playlists,
                    playlist_idx: n,
                    playing_playlist_idx: moved_index(old(self).playing_playlist_idx, o, n),
                    ..*old(self)
                })
            },
    {
        if self.playlist_idx == 0 {
            return Err(PlayerError::PlaylistCantMove);
        }
        let r = self.move_playlist(self.playlist_idx, self.playlist_idx - 1);
        assert(r is Ok);
        Ok(())
    }

    /// Move current playlist right
    pub fn move_playlist_right(&mut self) -> (r: Result<(), PlayerError>)
        requires
            old(self).playlists@.len() > 0,
        ensures
            old(self).playlist_idx + 1 >= old(self).playlists@.len() ==> r == Err::<(), PlayerError>(
                PlayerError::PlaylistCantMove,
            ) && *final(self) == *old(self),
            old(self).playlist_idx + 1 < old(self).playlists@.len() ==> {
                let o = old(self).playlist_idx;
                let n = (old(self).playlist_idx + 1) as usize;
                &&& r is Ok
                &&& final(self).playlists@ == moved(old(self).playlists@, o as int, n as int)
                &&& *final(self) == (Player {
                    playlists: final(self).playlists,
                    playlist_idx: n,
                    playing_playlist_idx: moved_index(old(self).playing_playlist_idx, o, n),
                    ..*old(self)
                })
            },
    {
        if self.playlist_idx >= self.playlists.len() - 1 {
            return Err(PlayerError::PlaylistCantMove);
        }
        let r = self.move_playlist(self.playlist_idx, self.playlist_idx + 1);
        assert(r is Ok);
        Ok(())
    }

    /// The positions of the playlists that the next frame update closes, in
    /// increasing order: those marked to be discarded, and those marked to be
    /// closed that have no unsaved changes.
    pub fn playlists_due_to_close(&self) -> (r: Vec<usize>)
        ensures
            forall|k: int|
                0 <= k < r@.len() ==> (#[trigger] r@[k]) < self.playlists@.len() && doomed(
                    self.playlists@[r@[k] as int],
                ),
            forall|k: int, l: int| 0 <= k < l < r@.len() ==> r@[k] < r@[l],
            forall|i: int|
                0 <= i < self.playlists@.len() && doomed(#[trigger] self.playlists@[i])
                    ==> r@.contains(i as usize),
    {
        let mut due: Vec<usize> = Vec::new();
        let mut i: usize = 0;
        while i < self.playlists.len()
            invariant
                i <= self.playlists@.len(),
                forall|k: int|
                    0 <= k < due@.len() ==> (#[trigger] due@[k]) < i && doomed(
                        self.playlists@[due@[k] as int],
                    ),
                forall|k: int, l: int| 0 <= k < l < due@.len() ==> due@[k] < due@[l],
                forall|j: int|
                    0 <= j < i && doomed(#[trigger] self.playlists@[j]) ==> due@.contains(j as usize),
            decreases self.playlists@.len() - i,
        {
            let playlist = &self.playlists[i];
            let close = match playlist.state {
                PlaylistState::Open => false,
                PlaylistState::Queued => !playlist.has_unsaved_changes(),
                PlaylistState::QueuedDiscard => true,
            };
            if close {
                let ghost before = due@;
                due.push(i);
                assert forall|j: int|
                    0 <= j < i + 1 && doomed(#[trigger] self.playlists@[j]) implies due@.contains(
                    j as usize,
                ) by {
                    if j < i {
                        let w = choose|w: int| 0 <= w < before.len() && before[w] == j as usize;
                        assert(due@[w] == j as usize);
                    } else {
                        assert(due@[before.len() as int] == i);
                    }
                }
            } else {
                assert(!doomed(self.playlists@[i as int]));
            }
            i += 1;
        }
        due
    }

    /// Whether an open playlist is kept in the file `filepath`.
    pub fn is_portable_playlist_open(&self, filepath: &String) -> (r: bool)
        ensures
            r == portable_open(self.playlists@, filepath@),
    {
        let mut i: usize = 0;
        while i < self.playlists.len()
            invariant
                i <= self.playlists@.len(),
                forall|j: int|
                    0 <= j < i ==> !((#[trigger] self.playlists@[j]).portable_path is Some && same_path(
                        self.playlists@[j].portable_path->0@,
                        filepath@,
                    )),
            decreases self.playlists@.len() - i,
        {
            if let Some(playlist_path) = &self.playlists[i].portable_path {
                if paths_equal(playlist_path.as_str(), filepath.as_str()) {
                    return true;
                }
            }
            i += 1;
        }
        false
    }

    fn close_due_playlists(&mut self)
        ensures
            closing_state(*final(self)) == closed_from(closing_state(*old(self)), 0),
            *final(self) == (Player {
                playlists: final(self).playlists,
                removed_playlists: final(self).removed_playlists,
                playlist_idx: final(self).playlist_idx,
                playing_playlist_idx: final(self).playing_playlist_idx,
                ..*old(self)
            }),
    {
        let ghost st0 = closing_state(*self);
        let mut index: usize = self.playlists.len();
        while index > 0
            invariant
                index <= self.playlists@.len(),
                index <= st0.playlists.len(),
                closing_state(*self) == closed_from(st0, index as nat),
                *self == (Player {
                    playlists: self.playlists,
                    removed_playlists: self.removed_playlists,
                    playlist_idx: self.playlist_idx,
                    playing_playlist_idx: self.playing_playlist_idx,
                    ..*old(self)
                }),
            decreases index,
        {
            index -= 1;
            let ghost before = closing_state(*self);
            let playlist = &self.playlists[index];
            let close = match playlist.state {
                PlaylistState::Open => false,
                PlaylistState::Queued => !playlist.has_unsaved_changes(),
                PlaylistState::QueuedDiscard => true,
            };
            if close {
                let closed = self.playlists.remove(index);
                push_history(&mut self.removed_playlists, closed);

                let last_selected = self.playlist_idx == self.playlists.len();
                // First selected: Never decrement
                // Between: Decrement if smaller
                // Last selected: Always decrement (unless last == first)
                if 0 < self.playlist_idx && (index < self.playlist_idx || last_selected) {
                    self.playlist_idx -= 1;
                }
                // Doesn't really matter what we do with stale playing index, as long as it's in bounds.
                if 0 < self.playing_playlist_idx && index <= self.playing_playlist_idx {
                    self.playing_playlist_idx -= 1;
                }
            }
            assert(closing_state(*self) == close_step(before, index as int));
        }
    }

    /// Closes the playlists whose closing is due, then makes sure a playlist
    /// is open. Returns how many playlists were closed.
    fn delete_queued_playlists(&mut self) -> (closed: usize)
        ensures
            queued_deleted(*old(self), *final(self), closed),
            closing_laws(*old(self), *final(self)),
    {
        let before = self.playlists.len();
        self.close_due_playlists();
        proof {
            broadcast use vstd::seq_lib::group_filter_ensures;
            let st0 = closing_state(*old(self));
            lemma_closed_from(st0, 0);
            assert(st0.playlists.take(0) =~= Seq::<Playlist>::empty());
            assert(st0.playlists.skip(0) =~= st0.playlists);
            assert(st0.playlists.take(0) + st0.playlists.filter(|p: Playlist| !doomed(p))
                =~= st0.playlists.filter(|p: Playlist| !doomed(p)));
        }
        let closed = before - self.playlists.len();
        self.ensure_playlist_existence();
        closed
    }

    /// Frame update: closes the playlists whose closing is due, and makes sure
    /// a playlist is open. Returns how many playlists were closed. With
    /// `autosave` on, the caller first saves the portable ones among
    /// `playlists_due_to_close` to their files.
    pub fn update(&mut self) -> (closed: usize)
        ensures
            queued_deleted(*old(self), *final(self), closed),
            closing_laws(*old(self), *final(self)),
    {
        self.delete_queued_playlists()
    }

    fn take_playlist(&mut self, i: usize) -> (r: Playlist)
        requires
            i < old(self).playlists@.len(),
        ensures
            r == old(self).playlists@[i as int],
            final(self).playlists@ == old(self).playlists@.remove(i as int),
            *final(self) == (Player { playlists: final(self).playlists, ..*old(self) }),
    {
        self.playlists.remove(i)
    }

    fn put_playlist(&mut self, i: usize, p: Playlist)
        requires
            i <= old(self).playlists@.len(),
        ensures
            final(self).playlists@ == old(self).playlists@.insert(i as int, p),
            *final(self) == (Player { playlists: final(self).playlists, ..*old(self) }),
    {
        self.playlists.insert(i, p);
    }

    /// Undo playlist close, reopen the tab.
    pub fn reopen_removed_playlist(&mut self) -> (r: Result<(), PlayerError>)
        ensures
            old(self).midi_override is Some ==> r == Err::<(), PlayerError>(PlayerError::MidiOverride)
                && *final(self) == *old(self),
            old(self).midi_override is None ==> {
                let (rest, pick) = reopen_pick(old(self).removed_playlists@, old(self).playlists@);
                &&& r is Ok
                &&& final(self).removed_playlists@ == rest
                &&& match pick {
                    None => *final(self) == (Player {
                        removed_playlists: final(self).removed_playlists,
                        ..*old(self)
                    }),
                    Some(p) => {
                        &&& final(self).playlists@ == old(self).playlists@.push(
                            Playlist { state: PlaylistState::Open, ..p },
                        )
                        &&& *final(self) == (Player {
                            playlists: final(self).playlists,
                            removed_playlists: final(self).removed_playlists,
                            playlist_idx: old(self).playlists@.len() as usize,
                            ..*old(self)
                        })
                    },
                }
            },
    {
        if self.midi_override.is_some() {
            return Err(PlayerError::MidiOverride);
        }
        loop
            invariant
                self.midi_override is None,
                reopen_pick(self.removed_playlists@, self.playlists@) == reopen_pick(
                    old(self).removed_playlists@,
                    old(self).playlists@,
                ),
                *self == (Player { removed_playlists: self.removed_playlists, ..*old(self) }),
            decreases self.removed_playlists@.len(),
        {
            if self.removed_playlists.len() == 0 {
                return Ok(());
            }
            let last_index = self.removed_playlists.len() - 1;
            let ghost before = self.removed_playlists@;
            let mut playlist = self.removed_playlists.remove(last_index);
            assert(self.removed_playlists@ =~= before.drop_last());
            playlist.state = PlaylistState::Open;

            // Skip this one, it's been reopened since closing.
            if let Some(filepath) = playlist.get_portable_path() {
                if self.is_portable_playlist_open(&filepath) {
                    continue;
                }
            }
            self.playlists.push(playlist);
            self.playlist_idx = self.playlists.len() - 1;
            return Ok(());
        }
    }

    /// New playlist is stored to app data.
    pub fn duplicate_playlist(&mut self, index: usize) -> (r: Result<(), PlayerError>)
        ensures
            old(self).midi_override is Some ==> r == Err::<(), PlayerError>(PlayerError::MidiOverride)
                && *final(self) == *old(self),
            old(self).midi_override is None && index >= old(self).playlists@.len() ==> r == Err::<
                (),
                PlayerError,
            >(PlayerError::PlaylistIndex { index }) && *final(self) == *old(self),
            old(self).midi_override is None && index < old(self).playlists@.len() ==> {
                let source = old(self).playlists@[index as int];
                let copy = final(self).playlists@.last();
                &&& r is Ok
                &&& final(self).playlists@.len() == old(self).playlists@.len() + 1
                &&& final(self).playlists@.drop_last() == old(self).playlists@
                &&& copy.name@ == source.name@ + " (Copy)"@
                &&& copy.portable_path is None
                &&& same_content(source, copy)
                &&& *final(self) == (Player {
                    playlists: final(self).playlists,
                    playlist_idx: old(self).playlists@.len() as usize,
                    ..*old(self)
                })
            },
    {
        if self.midi_override.is_some() {
            return Err(PlayerError::MidiOverride);
        }
        if index >= self.playlists.len() {
            return Err(PlayerError::PlaylistIndex { index });
        }
        let mut new_playlist = self.playlists[index].duplicate();
        new_playlist.set_portable_path(None);
        let mut name = self.playlists[index].name.clone();
        name.append(" (Copy)");
        new_playlist.name = name;

        self.playlists.push(new_playlist);
        assert(self.playlists@.drop_last() =~= old(self).playlists@);
        let _ = self.switch_to_playlist(self.playlists.len() - 1);
        Ok(())
    }

    // --- Playback Control

    /// Start playing (from a fully stopped state): the open playlist becomes the
    /// playing one and its queue is rebuilt. The caller then plays the queued song.
    pub fn start(&mut self)
        requires
            old(self).playlist_idx < old(self).playlists@.len(),
        ensures
            final(self).playing_playlist_idx == old(self).playlist_idx,
            final(self).playlists@.len() == old(self).playlists@.len(),
            rebuilt(
                old(self).playlists@[old(self).playlist_idx as int],
                final(self).playlists@[old(self).playlist_idx as int],
                old(self).shuffle,
            ),
            final(self).playlists@ == old(self).playlists@.update(
                old(self).playlist_idx as int,
                final(self).playlists@[old(self).playlist_idx as int],
            ),
            *final(self) == (Player {
                playlists: final(self).playlists,
                playing_playlist_idx: old(self).playlist_idx,
                ..*old(self)
            }),
    {
        self.playing_playlist_idx = self.playlist_idx;
        let shuffle = self.shuffle;
        let i = self.playlist_idx;
        let mut playlist = self.take_playlist(i);
        playlist.rebuild_queue(shuffle);
        self.put_playlist(i, playlist);
        assert(self.playlists@ =~= old(self).playlists@.update(i as int, playlist));
    }

    /// Which song playback should load: the one at the queue position of the
    /// playing playlist.
    pub fn queued_song(&self) -> (r: Result<usize, PlayerError>)
        requires
            self.playing_index() < self.playlists@.len(),
            self.playlists@[self.playing_index() as int].queue_idx matches Some(q) ==> q
                < self.playlists@[self.playing_index() as int].queue@.len(),
        ensures
            ({
                let p = self.playlists@[self.playing_index() as int];
                match p.queue_idx {
                    None => r == Err::<usize, PlayerError>(PlayerError::PlaybackNoQueueIndex),
                    Some(q) => r == Ok::<usize, PlayerError>(p.queue@[q as int]),
                }
            }),
    {
        let playlist = self.get_playing_playlist();
        match playlist.queue_idx {
            None => Err(PlayerError::PlaybackNoQueueIndex),
            Some(queue_index) => Ok(playlist.queue[queue_index]),
        }
    }

    /// Playback of `song` of the playing playlist has started: the song becomes
    /// the selected one and the player counts as playing.
    pub fn mark_song_playing(&mut self, song: usize) -> (r: Result<(), PlayerError>)
        requires
            old(self).playing_index() < old(self).playlists@.len(),
        ensures
            ({
                let i = old(self).playing_index() as int;
                let p = old(self).playlists@[i];
                if song >= p.songs@.len() {
                    r == Err::<(), PlayerError>(PlayerError::SongIndex { index: song })
                        && *final(self) == *old(self)
                } else {
                    &&& r is Ok
                    &&& final(self).playlists@ == old(self).playlists@.update(
                        i,
                        Playlist { song_idx: Some(song), ..p },
                    )
                    &&& *final(self) == (Player {
                        playlists: final(self).playlists,
                        is_playing: true,
                        ..*old(self)
                    })
                }
            }),
    {
        let i = if self.is_playing {
            self.playing_playlist_idx
        } else {
            self.playlist_idx
        };
        if song >= self.playlists[i].songs.len() {
            return Err(PlayerError::SongIndex { index: song });
        }
        let mut playlist = self.take_playlist(i);
        playlist.song_idx = Some(song);
        self.put_playlist(i, playlist);
        assert(self.playlists@ =~= old(self).playlists@.update(i as int, playlist));
        self.is_playing = true;
        Ok(())
    }

    /// Stop playback: the playing playlist loses its queue position and song
    /// selection, and nothing counts as playing.
    pub fn stop(&mut self)
        requires
            old(self).playing_index() < old(self).playlists@.len(),
        ensures
            final(self).playlists@ == old(self).playlists@.update(
                old(self).playing_index() as int,
                stopped(old(self).playlists@[old(self).playing_index() as int]),
            ),
            *final(self) == (Player {
                playlists: final(self).playlists,
                is_playing: false,
                ..*old(self)
            }),
    {
        let i = if self.is_playing {
            self.playing_playlist_idx
        } else {
            self.playlist_idx
        };
        let mut playlist = self.take_playlist(i);
        playlist.queue_idx = None;
        let _ = playlist.set_song_idx(None);
        self.put_playlist(i, playlist);
        assert(self.playlists@ =~= old(self).playlists@.update(i as int, playlist));
        self.is_playing = false;
    }

    fn set_queue_position(&mut self, i: usize, position: Option<usize>)
        requires
            i < old(self).playlists@.len(),
        ensures
            with_playlist(
                *old(self),
                *final(self),
                i as int,
                Playlist { queue_idx: position, ..old(self).playlists@[i as int] },
            ),
    {
        let mut playlist = self.take_playlist(i);
        playlist.queue_idx = position;
        self.put_playlist(i, playlist);
        assert(self.playlists@ =~= old(self).playlists@.update(i as int, playlist));
    }

    /// Which of the skip back and skip buttons can be used: neither for an
    /// empty queue; both while playing a repeating queue; otherwise back when
    /// not at the first song and forward when not at the last one.
    pub fn skip_buttons_enabled(&self) -> (r: (bool, bool))
        requires
            self.playing_index() < self.playlists@.len(),
        ensures
            ({
                let p = self.playlists@[self.playing_index() as int];
                r == if p.queue@.len() == 0 {
                    (false, false)
                } else if self.repeat == RepeatMode::Queue && self.is_playing {
                    (true, true)
                } else {
                    match p.queue_idx {
                        Some(q) => (q > 0, q + 1 < p.queue@.len()),
                        None => (false, false),
                    }
                }
            }),
    {
        let playlist = self.get_playing_playlist();
        if playlist.queue.len() == 0 {
            (false, false)
        } else if self.repeat == RepeatMode::Queue && self.is_playing {
            (true, true)
        } else if let Some(idx) = playlist.queue_idx {
            (idx > 0, idx < playlist.queue.len() - 1)
        } else {
            (false, false)
        }
    }

    /// Play previous song. Returns whether the caller should play the song now
    /// at the queue position.
    pub fn skip_back(&mut self) -> (r: Result<bool, PlayerError>)
        requires
            old(self).playing_index() < old(self).playlists@.len(),
            old(self).midi_override is None && old(self).repeat == RepeatMode::Queue && old(
                self,
            ).playlists@[old(self).playing_index() as int].queue_idx == Some(0usize) ==> old(
                self,
            ).playlists@[old(self).playing_index() as int].queue@.len() > 0,
        ensures
            ({
                let i = old(self).playing_index() as int;
                let p = old(self).playlists@[i];
                if old(self).midi_override is Some {
                    r == Err::<bool, PlayerError>(PlayerError::MidiOverride) && *final(self) == *old(self)
                } else {
                    match p.queue_idx {
                        Some(q) if skip_back_target(q, p.queue@.len(), old(self).repeat) is Some => {
                            &&& r == Ok::<bool, PlayerError>(true)
                            &&& with_playlist(
                                *old(self),
                                *final(self),
                                i,
                                Playlist {
                                    queue_idx: skip_back_target(q, p.queue@.len(), old(self).repeat),
                                    ..p
                                },
                            )
                        },
                        _ => r == Ok::<bool, PlayerError>(false) && *final(self) == *old(self),
                    }
                }
            }),
    {
        if self.midi_override.is_some() {
            return Err(PlayerError::MidiOverride);
        }
        let i = if self.is_playing {
            self.playing_playlist_idx
        } else {
            self.playlist_idx
        };
        if let Some(mut index) = self.playlists[i].queue_idx {
            if index > 0 {
                index -= 1;
                self.set_queue_position(i, Some(index));
                return Ok(true);
            } else if self.repeat == RepeatMode::Queue {
                index = self.playlists[i].queue.len() - 1;
                self.set_queue_position(i, Some(index));
                return Ok(true);
            }
        }
        Ok(false)
    }

    /// Play next song. Returns whether the caller should play the song now at
    /// the queue position. Past the last song, the queue starts over when it repeats.
    pub fn skip(&mut self) -> (r: Result<bool, PlayerError>)
        requires
            old(self).playing_index() < old(self).playlists@.len(),
            old(self).playlists@[old(self).playing_index() as int].queue_idx is Some ==> old(
                self,
            ).playlists@[old(self).playing_index() as int].queue@.len() > 0,
        ensures
            ({
                let i = old(self).playing_index() as int;
                let p = old(self).playlists@[i];
                if old(self).midi_override is Some {
                    r == Err::<bool, PlayerError>(PlayerError::MidiOverride) && *final(self) == *old(self)
                } else {
                    match p.queue_idx {
                        Some(q) if skip_target(q, p.queue@.len(), old(self).repeat) is Some => {
                            &&& r == Ok::<bool, PlayerError>(true)
                            &&& with_playlist(
                                *old(self),
                                *final(self),
                                i,
                                Playlist {
                                    queue_idx: skip_target(q, p.queue@.len(), old(self).repeat),
                                    ..p
                                },
                            )
                        },
                        _ => r == Ok::<bool, PlayerError>(false) && *final(self) == *old(self),
                    }
                }
            }),
    {
        if self.midi_override.is_some() {
            return Err(PlayerError::MidiOverride);
        }
        let i = if self.is_playing {
            self.playing_playlist_idx
        } else {
            self.playlist_idx
        };
        let mut play = false;
        if let Some(index) = self.playlists[i].queue_idx {
            if index < self.playlists[i].queue.len() - 1 {
                self.set_queue_position(i, Some(index + 1));
                play = true;
            } else if self.repeat == RepeatMode::Queue {
                self.set_queue_position(i, Some(0));
                play = true;
            }
        }
        proof {
            let p = old(self).playlists@[i as int];
            if play {
                assert(self.playlists@ =~= old(self).playlists@.update(
                    i as int,
                    Playlist { queue_idx: self.playlists@[i as int].queue_idx, ..p },
                ));
            }
        }
        Ok(play)
    }

    /// When previous song has ended, advance queue or stop.
    pub fn advance_queue(&mut self) -> (r: Result<QueueStep, PlayerError>)
        requires
            old(self).playing_index() < old(self).playlists@.len(),
            old(self).midi_override is None ==> advance_fits(
                old(self).playlists@[old(self).playing_index() as int],
                old(self).repeat,
            ),
        ensures
            ({
                let i = old(self).playing_index() as int;
                let p = old(self).playlists@[i];
                if old(self).midi_override is Some {
                    r == Ok::<QueueStep, PlayerError>(QueueStep::Pause) && *final(self) == *old(self)
                } else {
                    match p.queue_idx {
                        None => {
                            &&& r == Err::<QueueStep, PlayerError>(PlayerError::PlaybackNoQueueIndex)
                            &&& final(self).playlists@ == old(self).playlists@.update(i, stopped(p))
                            &&& *final(self) == (Player {
                                playlists: final(self).playlists,
                                is_playing: false,
                                ..*old(self)
                            })
                        },
                        Some(q) => if old(self).repeat == RepeatMode::Song {
                            // Replay the same song
                            r == Ok::<QueueStep, PlayerError>(QueueStep::Play) && with_playlist(
                                *old(self),
                                *final(self),
                                i,
                                Playlist { song_idx: Some(p.queue@[q as int]), ..p },
                            )
                        } else if q + 1 == p.queue@.len() && old(self).repeat != RepeatMode::Queue {
                            // Queue end reached
                            &&& r == Ok::<QueueStep, PlayerError>(QueueStep::Stop)
                            &&& final(self).playlists@ == old(self).playlists@.update(i, stopped(p))
                            &&& *final(self) == (Player {
                                playlists: final(self).playlists,
                                is_playing: false,
                                ..*old(self)
                            })
                        } else {
                            // Next song in queue, back to start at the end
                            let next = if q + 1 == p.queue@.len() { 0 } else { q + 1 };
                            r == Ok::<QueueStep, PlayerError>(QueueStep::Play) && with_playlist(
                                *old(self),
                                *final(self),
                                i,
                                Playlist {
                                    queue_idx: Some(next as usize),
                                    song_idx: Some(p.queue@[next]),
                                    ..p
                                },
                            )
                        },
                    }
                }
            }),
    {
        if self.midi_override.is_some() {
            return Ok(QueueStep::Pause);
        }
        let repeat = self.repeat;
        let i = if self.is_playing {
            self.playing_playlist_idx
        } else {
            self.playlist_idx
        };
        let mut queue_index = match self.playlists[i].queue_idx {
            Some(q) => q,
            None => {
                self.stop();
                return Err(PlayerError::PlaybackNoQueueIndex);
            },
        };

        let mut playlist = self.take_playlist(i);
        // Replay the same song
        if repeat == RepeatMode::Song {
            playlist.song_idx = Some(playlist.queue[queue_index]);
            self.put_playlist(i, playlist);
            assert(self.playlists@ =~= old(self).playlists@.update(i as int, playlist));
            return Ok(QueueStep::Play);
        }

        let queue_len = playlist.queue.len();
        queue_index += 1;

        // Queue end reached, back to start or bail out
        if queue_index == playlist.queue.len() {
            if repeat == RepeatMode::Queue {
                queue_index = 0;
            } else {
                playlist.song_idx = None;
                self.put_playlist(i, playlist);
                assert(self.playlists@ =~= old(self).playlists@.update(i as int, playlist));
                self.stop();
                assert(self.playlists@ =~= old(self).playlists@.update(
                    i as int,
                    stopped(old(self).playlists@[i as int]),
                ));
                return Ok(QueueStep::Stop);
            }
        }

        // Play next song in queue
        playlist.queue_idx = Some(queue_index);
        playlist.song_idx = Some(playlist.queue[queue_index]);
        self.put_playlist(i, playlist);
        assert(self.playlists@ =~= old(self).playlists@.update(i as int, playlist));
        Ok(QueueStep::Play)
    }

    pub fn get_shuffle(&self) -> (r: bool)
        ensures
            r == self.shuffle,
    {
        self.shuffle
    }

    /// Toggle shuffle and rebuild queue
    pub fn toggle_shuffle(&mut self)
        requires
            old(self).playing_index() < old(self).playlists@.len(),
        ensures
            ({
                let i = old(self).playing_index() as int;
                &&& final(self).playlists@.len() == old(self).playlists@.len()
                &&& rebuilt(old(self).playlists@[i], final(self).playlists@[i], !old(self).shuffle)
                &&& final(self).playlists@ == old(self).playlists@.update(i, final(self).playlists@[i])
                &&& *final(self) == (Player {
                    playlists: final(self).playlists,
                    shuffle: !old(self).shuffle,
                    ..*old(self)
                })
            }),
    {
        let shuffle = !self.shuffle;
        self.shuffle = shuffle;
        let i = if self.is_playing {
            self.playing_playlist_idx
        } else {
            self.playlist_idx
        };
        let mut playlist = self.take_playlist(i);
        playlist.rebuild_queue(shuffle);
        self.put_playlist(i, playlist);
        assert(self.playlists@ =~= old(self).playlists@.update(i as int, playlist));
    }

    pub fn get_repeat(&self) -> (r: RepeatMode)
        ensures
            r == self.repeat,
    {
        self.repeat
    }

    /// Disabled, then repeat the queue, then repeat the song, then disabled again.
    pub fn cycle_repeat(&mut self)
        ensures
            *final(self) == (Player {
                repeat: match old(self).repeat {
                    RepeatMode::Disabled => RepeatMode::Queue,
                    RepeatMode::Queue => RepeatMode::Song,
                    RepeatMode::Song => RepeatMode::Disabled,
                },
                ..*old(self)
            }),
    {
        match self.repeat {
            RepeatMode::Disabled => self.repeat = RepeatMode::Queue,
            RepeatMode::Queue => self.repeat = RepeatMode::Song,
            RepeatMode::Song => self.repeat = RepeatMode::Disabled,
        }
    }

    // --- Playback Status

    pub fn is_playing(&self) -> (r: bool)
        ensures
            r == self.is_playing,
    {
        self.is_playing
    }

    pub fn get_inspected_midi_meta(&self) -> (r: Option<&MidiMeta>)
        ensures
            match r {
                Some(m) => self.midi_override == Some(*m),
                None => self.midi_override is None,
            },
    {
        match &self.midi_override {
            Some(m) => Some(m),
            None => None,
        }
    }

    /// Opens a MIDI file in the inspector, which overrides the playlists, and
    /// stops playback. A file that did not load is refused.
    pub fn open_midi_inspector(&mut self, meta: MidiMeta) -> (r: Result<(), PlayerError>)
        requires
            old(self).playing_index() < old(self).playlists@.len(),
        ensures
            meta.spec_duration() is None ==> r == Err::<(), PlayerError>(PlayerError::MidiInspectorLoad)
                && *final(self) == *old(self),
            meta.spec_duration() is Some ==> {
                &&& r is Ok
                &&& final(self).playlists@ == old(self).playlists@.update(
                    old(self).playing_index() as int,
                    stopped(old(self).playlists@[old(self).playing_index() as int]),
                )
                &&& *final(self) == (Player {
                    playlists: final(self).playlists,
                    is_playing: false,
                    midi_override: Some(meta),
                    ..*old(self)
                })
            },
    {
        if meta.get_duration().is_none() {
            return Err(PlayerError::MidiInspectorLoad);
        }
        self.midi_override = Some(meta);
        self.stop();
        Ok(())
    }

    /// Closes the inspector, giving the playlists back, and stops playback.
    pub fn close_midi_inspector(&mut self)
        requires
            old(self).playing_index() < old(self).playlists@.len(),
        ensures
            final(self).playlists@ == old(self).playlists@.update(
                old(self).playing_index() as int,
                stopped(old(self).playlists@[old(self).playing_index() as int]),
            ),
            *final(self) == (Player {
                playlists: final(self).playlists,
                is_playing: false,
                midi_override: None,
                ..*old(self)
            }),
    {
        self.midi_override = None;
        self.stop();
    }

    /// Make sure at least one playlist exists!
    pub fn ensure_playlist_existence(&mut self)
        ensures
            old(self).playlists@.len() > 0 ==> *final(self) == *old(self),
            old(self).playlists@.len() == 0 && old(self).midi_override is Some ==> *final(self) == (
            Player { playlist_idx: 0, ..*old(self) }),
            old(self).playlists@.len() == 0 && old(self).midi_override is None ==> {
                &&& final(self).playlists@.len() == 1
                &&& is_fresh_playlist(final(self).playlists@[0])
                &&& *final(self) == (Player {
                    playlists: final(self).playlists,
                    playlist_idx: 0,
                    ..*old(self)
                })
            },
    {
        if self.playlists.len() == 0 {
            let _ = self.new_playlist();
            self.playlist_idx = 0;
        }
    }
}

/// The hint shown on the save action of playlist `index`.
pub fn get_save_playlist_tooltip(player: &Player, index: usize) -> (r: &'static str)
    requires
        index < player.playlists@.len(),
    ensures
        r@ == if player.playlists@[index as int].portable_path is None {
            "Playlists in app memory are saved automatically."@
        } else if player.autosave {
            "Autosave is enabled."@
        } else {
            "Save unsaved changes."@
        },
{
    if !player.get_playlists()[index].is_portable() {
        "Playlists in app memory are saved automatically."
    } else if player.autosave {
        "Autosave is enabled."
    } else {
        "Save unsaved changes."
    }
}

} // verus!
