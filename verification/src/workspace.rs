//! A workspace: a set of soundfonts and MIDI files, with the selection, the
//! playback queue and the deletions that wait for the end of the frame.

use rand::seq::SliceRandom;
use vstd::prelude::*;
use crate::media::{load_outcome, MidiMeta};
use crate::paths::{paths_equal, same_path, same_path_as_itself};

verus! {

/// Whether some font path in `fonts` is the same path as `p`.
pub open spec fn has_font(fonts: Seq<Seq<char>>, p: Seq<char>) -> bool {
    exists|i: int| 0 <= i < fonts.len() && same_path(#[trigger] fonts[i], p)
}

/// Whether some MIDI reference in `midis` points at the same path as `p`.
pub open spec fn has_midi(midis: Seq<MidiMeta>, p: Seq<char>) -> bool {
    exists|i: int| 0 <= i < midis.len() && same_path(#[trigger] midis[i].path(), p)
}

/// The file contents handed to a loader, as a sequence of bytes.
pub open spec fn bytes_view(contents: Option<&[u8]>) -> Option<Seq<u8>> {
    match contents {
        Some(b) => Some(b@),
        None => None,
    }
}

/// What a fresh reference loaded from `contents` holds: nothing for unreadable
/// contents; otherwise the error flag when they fail to load and a length when
/// they load.
pub open spec fn loaded_from(m: MidiMeta, contents: Option<Seq<u8>>) -> bool {
    match contents {
        None => m.spec_duration() is None && !m.spec_error(),
        Some(bytes) => load_outcome(m, bytes),
    }
}

/// The sequence left after removing, one after another, the positions in `q`
/// (each position counted in the sequence as it is at that moment).
pub open spec fn remove_all<T>(s: Seq<T>, q: Seq<usize>) -> Seq<T>
    decreases q.len(),
{
    if q.len() == 0 {
        s
    } else {
        remove_all(s, q.drop_last()).remove(q.last() as int)
    }
}

/// Every removal in `q` stays in bounds of a sequence that starts with `len`
/// items and loses one item per removal.
pub open spec fn removals_fit(len: nat, q: Seq<usize>) -> bool {
    forall|i: int| 0 <= i < q.len() ==> #[trigger] q[i] + i < len
}

/// A selection after the item at position `d` was removed: lost if it was that
/// item, moved down by one if it was behind it, unchanged otherwise.
pub open spec fn shift_index(idx: Option<usize>, d: usize) -> Option<usize> {
    match idx {
        None => None,
        Some(c) => if d == c {
            None
        } else if d < c {
            Some((c - 1) as usize)
        } else {
            Some(c)
        },
    }
}

/// A selection after all the removals in `q`, in order.
pub open spec fn shift_index_all(idx: Option<usize>, q: Seq<usize>) -> Option<usize>
    decreases q.len(),
{
    if q.len() == 0 {
        idx
    } else {
        shift_index(shift_index_all(idx, q.drop_last()), q.last())
    }
}

/// The indices `0, 1, .., n - 1` in order.
pub open spec fn index_range(n: nat) -> Seq<usize> {
    Seq::new(n, |i: int| i as usize)
}

/// The test "is not `s`".
pub open spec fn other_than(s: usize) -> spec_fn(usize) -> bool {
    |x: usize| x != s
}

/// A queue whose first entry is the selected song, if there is one, followed by
/// the other entries of `p` in their order.
pub open spec fn selected_first(p: Seq<usize>, selected: Option<usize>) -> Seq<usize> {
    match selected {
        None => p,
        Some(s) => seq![s] + p.filter(other_than(s)),
    }
}

/// Removing in order the positions in `q` from a sequence leaves one item fewer
/// per removal, and an item that survives is found again where the shifted
/// selection points.
pub proof fn lemma_remove_all<T>(s: Seq<T>, q: Seq<usize>, c: usize)
    requires
        removals_fit(s.len(), q),
    ensures
        remove_all(s, q).len() == s.len() - q.len(),
        c < s.len() && shift_index_all(Some(c), q) is Some ==> {
            let c2 = shift_index_all(Some(c), q)->0;
            &&& c2 < remove_all(s, q).len()
            &&& remove_all(s, q)[c2 as int] == s[c as int]
        },
    decreases q.len(),
{
    if q.len() > 0 {
        let q1 = q.drop_last();
        assert(removals_fit(s.len(), q1)) by {
            assert forall|i: int| 0 <= i < q1.len() implies #[trigger] q1[i] + i < s.len() by {
                assert(q1[i] == q[i]);
            }
        }
        lemma_remove_all(s, q1, c);
        let d = q.last();
        assert(d + (q.len() - 1) < s.len()) by {
            assert(q[q.len() - 1] + (q.len() - 1) < s.len());
        }
        let r1 = remove_all(s, q1);
        if c < s.len() && shift_index_all(Some(c), q) is Some {
            let c1 = shift_index_all(Some(c), q1)->0;
            if d < c1 {
                assert(r1.remove(d as int)[c1 - 1] == r1[c1 as int]);
            } else {
                assert(r1.remove(d as int)[c1 as int] == r1[c1 as int]);
            }
        }
    }
}

/// Path texts commute with removals.
proof fn lemma_path_texts_remove_all(v: Seq<String>, q: Seq<usize>)
    requires
        removals_fit(v.len(), q),
    ensures
        path_texts(remove_all(v, q)) == remove_all(path_texts(v), q),
    decreases q.len(),
{
    if q.len() > 0 {
        let q1 = q.drop_last();
        assert(removals_fit(v.len(), q1)) by {
            assert forall|i: int| 0 <= i < q1.len() implies #[trigger] q1[i] + i < v.len() by {
                assert(q1[i] == q[i]);
            }
        }
        lemma_path_texts_remove_all(v, q1);
        lemma_remove_all(v, q1, 0);
        assert(q[q.len() - 1] + (q.len() - 1) < v.len());
        let r = remove_all(v, q1);
        assert(path_texts(r.remove(q.last() as int)) =~= path_texts(r).remove(q.last() as int));
    }
}

/// Carries out, in order, the removals in `q` on `items`, moving the selection `idx` along.
fn apply_removals<T>(items: &mut Vec<T>, idx: &mut Option<usize>, q: &Vec<usize>)
    requires
        removals_fit(old(items)@.len(), q@),
    ensures
        final(items)@ == remove_all(old(items)@, q@),
        *final(idx) == shift_index_all(*old(idx), q@),
{
    let n = q.len();
    let mut i: usize = 0;
    while i < n
        invariant
            n == q@.len(),
            i <= n,
            removals_fit(old(items)@.len(), q@),
            items@ == remove_all(old(items)@, q@.take(i as int)),
            items@.len() == old(items)@.len() - i,
            *idx == shift_index_all(*old(idx), q@.take(i as int)),
        decreases n - i,
    {
        let d = q[i];
        assert(q@[i as int] + i < old(items)@.len());
        items.remove(d);
        match *idx {
            Some(current) => {
                if d == current {
                    *idx = None;
                } else if d < current {
                    *idx = Some(current - 1);
                }
            },
            None => {},
        }
        assert(q@.take(i + 1).drop_last() =~= q@.take(i as int));
        i += 1;
    }
    assert(q@.take(n as int) =~= q@);
}

/// The vector without its entries equal to `s`, behind a first entry `s`.
fn with_first(v: &Vec<usize>, s: usize) -> (r: Vec<usize>)
    ensures
        r@ == seq![s] + v@.filter(other_than(s)),
{
    let mut r: Vec<usize> = Vec::new();
    r.push(s);
    let mut j: usize = 0;
    while j < v.len()
        invariant
            j <= v.len(),
            r@ == seq![s] + v@.take(j as int).filter(other_than(s)),
        decreases v.len() - j,
    {
        proof {
            reveal_with_fuel(Seq::<_>::filter, 1);
            assert(v@.take(j + 1).drop_last() =~= v@.take(j as int));
        }
        if v[j] != s {
            r.push(v[j]);
            assert(r@ =~= seq![s] + v@.take(j + 1).filter(other_than(s)));
        } else {
            assert(r@ =~= seq![s] + v@.take(j + 1).filter(other_than(s)));
        }
        j += 1;
    }
    assert(v@.take(v.len() as int) =~= v@);
    r
}

/// `SliceRandom::shuffle` with the thread-local generator of `rand`.
/// Claimed: the result is a permutation of the input (the same multiset of items).
/// Which permutation comes out is left open: it depends on the generator.
#[verifier::external_body]
fn shuffle_indices(v: &mut Vec<usize>)
    ensures
        final(v)@.to_multiset() == old(v)@.to_multiset(),
        final(v)@.len() == old(v)@.len(),
{
    v.shuffle(&mut rand::thread_rng());
}

/// What a workspace holds, as plain values.
/// What a rebuilt queue over `n` songs holds: the songs in order, or, shuffled,
/// some permutation of them with the selected song (if any) moved to the front.
pub open spec fn queue_outcome(q: Seq<usize>, n: nat, selected: Option<usize>, shuffle: bool) -> bool {
    if shuffle {
        exists|p: Seq<usize>|
            #[trigger] p.to_multiset() == index_range(n).to_multiset() && q == selected_first(p, selected)
    } else {
        q == index_range(n)
    }
}

/// Each index below `n` occurs once in `index_range(n)`, and nothing else occurs.
proof fn lemma_index_range_count(n: nat, x: usize)
    requires
        n <= usize::MAX,
    ensures
        index_range(n).to_multiset().count(x) == if x < n { 1nat } else { 0nat },
    decreases n,
{
    broadcast use vstd::seq_lib::group_to_multiset_ensures;
    if n > 0 {
        lemma_index_range_count((n - 1) as nat, x);
        assert(index_range(n) =~= index_range((n - 1) as nat).push((n - 1) as usize));
    } else {
        assert(index_range(n) =~= Seq::<usize>::empty());
    }
}

/// Taking out the entries equal to `s` takes out all copies of `s` and keeps
/// every other entry as often as it occurs.
proof fn lemma_filter_other_count(p: Seq<usize>, s: usize, x: usize)
    ensures
        p.filter(other_than(s)).to_multiset().count(x) == if x == s {
            0nat
        } else {
            p.to_multiset().count(x)
        },
    decreases p.len(),
{
    broadcast use vstd::seq_lib::group_to_multiset_ensures;
    reveal_with_fuel(Seq::<_>::filter, 1);
    if p.len() > 0 {
        lemma_filter_other_count(p.drop_last(), s, x);
        assert(p =~= p.drop_last().push(p.last()));
    } else {
        assert(p.filter(other_than(s)) =~= Seq::<usize>::empty());
    }
}

/// A shuffled queue with the selection moved to the front is still a
/// permutation of all the songs, and starts with the selected song, when the
/// selection is one of the songs.
pub proof fn law_shuffled_queue_is_permutation(p: Seq<usize>, n: nat, selected: Option<usize>)
    requires
        n <= usize::MAX,
        p.to_multiset() == index_range(n).to_multiset(),
        selected matches Some(s) ==> s < n,
    ensures
        selected_first(p, selected).to_multiset() == index_range(n).to_multiset(),
        selected matches Some(s) ==> selected_first(p, selected)[0] == s,
{
    broadcast use vstd::seq_lib::group_to_multiset_ensures;
    if let Some(s) = selected {
        let q = selected_first(p, selected);
        let f = p.filter(other_than(s));
        assert forall|x: usize| q.to_multiset().count(x) == index_range(n).to_multiset().count(x) by {
            lemma_filter_other_count(p, s, x);
            lemma_index_range_count(n, x);
            assert(q =~= seq![s] + f);
            vstd::seq_lib::lemma_multiset_commutative(seq![s], f);
            assert(seq![s].to_multiset() =~= vstd::multiset::Multiset::<usize>::empty().insert(s)) by {
                assert(seq![s] =~= Seq::<usize>::empty().push(s));
                assert(Seq::<usize>::empty().to_multiset() =~= vstd::multiset::Multiset::<usize>::empty());
            }
        }
        assert(q.to_multiset() =~= index_range(n).to_multiset());
    }
}

/// A rebuilt queue over `n` songs lists each of the songs once, when the
/// selection (if any) is one of them; in particular every entry is below `n`.
pub proof fn law_queue_outcome_in_range(q: Seq<usize>, n: nat, selected: Option<usize>, shuffle: bool)
    requires
        n <= usize::MAX,
        queue_outcome(q, n, selected, shuffle),
        selected matches Some(s) ==> s < n,
    ensures
        q.to_multiset() == index_range(n).to_multiset(),
        q.len() == n,
        forall|i: int| 0 <= i < q.len() ==> #[trigger] q[i] < n,
{
    broadcast use vstd::seq_lib::group_to_multiset_ensures;
    if shuffle {
        let p = choose|p: Seq<usize>|
            #[trigger] p.to_multiset() == index_range(n).to_multiset() && q == selected_first(p, selected);
        law_shuffled_queue_is_permutation(p, n, selected);
    }
    assert(q.len() == q.to_multiset().len());
    assert forall|i: int| 0 <= i < q.len() implies #[trigger] q[i] < n by {
        assert(q.contains(q[i]));
        assert(q.to_multiset().count(q[i]) > 0);
        lemma_index_range_count(n, q[i]);
    }
}

/// A play queue over `n` songs, as `queue_outcome` describes it.
pub(crate) fn build_queue(n: usize, selected: Option<usize>, shuffle: bool) -> (r: Vec<usize>)
    ensures
        queue_outcome(r@, n as nat, selected, shuffle),
{
    // Sequential queue starting from currently selected song
    let mut queue: Vec<usize> = Vec::new();
    let mut i: usize = 0;
    while i < n
        invariant
            i <= n,
            queue@ == index_range(i as nat),
        decreases n - i,
    {
        queue.push(i);
        assert(queue@ =~= index_range((i + 1) as nat));
        i += 1;
    }
    if shuffle {
        shuffle_indices(&mut queue);
        let ghost p = queue@;
        // Put current selected song to the beginnning.
        // If it doesn't exist, the first song is random result of the shuffle.
        if let Some(song_idx) = selected {
            queue = with_first(&queue, song_idx);
        }
        assert(p.to_multiset() == index_range(n as nat).to_multiset());
        assert(queue@ == selected_first(p, selected));
    }
    queue
}

pub struct WorkspaceView {
    pub name: Seq<char>,
    pub fonts: Seq<Seq<char>>,
    pub midis: Seq<MidiMeta>,
    pub font_idx: Option<usize>,
    pub midi_idx: Option<usize>,
    pub queue: Seq<usize>,
    pub queue_idx: Option<usize>,
    /// MIDI positions marked for removal, in the order they were marked.
    pub midi_deletions: Seq<usize>,
    /// Font positions marked for removal, in the order they were marked.
    pub font_deletions: Seq<usize>,
}

impl WorkspaceView {
    /// Every marked removal can be carried out in order.
    pub open spec fn deletions_fit(self) -> bool {
        &&& removals_fit(self.midis.len(), self.midi_deletions)
        &&& removals_fit(self.fonts.len(), self.font_deletions)
    }
}

pub struct Workspace {
    pub name: String,
    pub fonts: Vec<String>,
    pub midis: Vec<MidiMeta>,
    pub font_idx: Option<usize>,
    pub midi_idx: Option<usize>,
    pub queue: Vec<usize>,
    pub queue_idx: Option<usize>,
    /// MIDI positions marked for removal at the end of the frame.
    pub midi_delete_queue: Vec<usize>,
    /// Font positions marked for removal at the end of the frame.
    pub font_delete_queue: Vec<usize>,
}

/// The text of each path.
pub open spec fn path_texts(v: Seq<String>) -> Seq<Seq<char>> {
    v.map_values(|p: String| p@)
}

impl View for Workspace {
    type V = WorkspaceView;

    open spec fn view(&self) -> WorkspaceView {
        WorkspaceView {
            name: self.name@,
            fonts: path_texts(self.fonts@),
            midis: self.midis@,
            font_idx: self.font_idx,
            midi_idx: self.midi_idx,
            queue: self.queue@,
            queue_idx: self.queue_idx,
            midi_deletions: self.midi_delete_queue@,
            font_deletions: self.font_delete_queue@,
        }
    }
}

impl Default for Workspace {
    fn default() -> (r: Workspace)
        ensures
            r@ == (WorkspaceView {
                name: "Workspace"@,
                fonts: Seq::empty(),
                midis: Seq::empty(),
                font_idx: None,
                midi_idx: None,
                queue: Seq::empty(),
                queue_idx: None,
                midi_deletions: Seq::empty(),
                font_deletions: Seq::empty(),
            }),
    {
        let r = Workspace {
            name: "Workspace".to_owned(),
            fonts: Vec::new(),
            midis: Vec::new(),
            font_idx: None,
            midi_idx: None,
            queue: Vec::new(),
            queue_idx: None,
            midi_delete_queue: Vec::new(),
            font_delete_queue: Vec::new(),
        };
        assert(path_texts(r.fonts@) =~= Seq::empty());
        r
    }
}

impl Workspace {
    /// A workspace from stored parts, with nothing marked for removal.
    pub fn from_parts(
        name: String,
        fonts: Vec<String>,
        midis: Vec<MidiMeta>,
        font_idx: Option<usize>,
        midi_idx: Option<usize>,
        queue: Vec<usize>,
    ) -> (r: Workspace)
        ensures
            r@ == (WorkspaceView {
                name: name@,
                fonts: path_texts(fonts@),
                midis: midis@,
                font_idx,
                midi_idx,
                queue: queue@,
                queue_idx: None,
                midi_deletions: Seq::empty(),
                font_deletions: Seq::empty(),
            }),
    {
        Workspace {
            name,
            fonts,
            midis,
            font_idx,
            midi_idx,
            queue,
            queue_idx: None,
            midi_delete_queue: Vec::new(),
            font_delete_queue: Vec::new(),
        }
    }

    pub fn contains_midi(&self, filepath: &String) -> (r: bool)
        ensures
            r == has_midi(self@.midis, filepath@),
    {
        let mut i: usize = 0;
        while i < self.midis.len()
            invariant
                i <= self.midis.len(),
                forall|j: int| 0 <= j < i ==> !same_path(#[trigger] self.midis@[j].path(), filepath@),
            decreases self.midis.len() - i,
        {
            let path = self.midis[i].get_path();
            if paths_equal(path.as_str(), filepath.as_str()) {
                return true;
            }
            i += 1;
        }
        false
    }

    fn contains_font(&self, filepath: &String) -> (r: bool)
        ensures
            r == has_font(self@.fonts, filepath@),
    {
        let mut i: usize = 0;
        while i < self.fonts.len()
            invariant
                i <= self.fonts.len(),
                forall|j: int| 0 <= j < i ==> !same_path(#[trigger] self.fonts@[j]@, filepath@),
            decreases self.fonts.len() - i,
        {
            if paths_equal(self.fonts[i].as_str(), filepath.as_str()) {
                assert(self@.fonts[i as int] == self.fonts@[i as int]@);
                return true;
            }
            i += 1;
        }
        assert forall|j: int| 0 <= j < self@.fonts.len() implies !same_path(#[trigger] self@.fonts[j], filepath@) by {
            assert(self@.fonts[j] == self.fonts@[j]@);
        }
        false
    }

    // --- Soundfonts

    pub fn add_font(&mut self, path: String)
        ensures
            final(self)@ == (WorkspaceView {
                fonts: if has_font(old(self)@.fonts, path@) {
                    old(self)@.fonts
                } else {
                    old(self)@.fonts.push(path@)
                },
                ..old(self)@
            }),
            has_font(final(self)@.fonts, path@),
    {
        if !self.contains_font(&path) {
            same_path_as_itself(path.as_str());
            self.fonts.push(path);
            assert(path_texts(self.fonts@) =~= path_texts(old(self).fonts@).push(path@));
            assert(same_path(self@.fonts[self@.fonts.len() - 1], path@));
        }
    }

    /// Marks a font for removal at the end of the frame.
    pub fn remove_font(&mut self, index: usize)
        ensures
            final(self)@ == (WorkspaceView {
                font_deletions: old(self)@.font_deletions.push(index),
                ..old(self)@
            }),
    {
        self.font_delete_queue.push(index);
    }

    /// Empties the MIDI list and drops its selection; the fonts stay as they are.
    pub fn clear_fonts(&mut self)
        ensures
            final(self)@ == (WorkspaceView { midis: Seq::empty(), midi_idx: None, ..old(self)@ }),
    {
        self.midis.clear();
        self.midi_idx = None;
    }

    // --- Midi files

    /// Adds a reference to the MIDI file at `path`, loaded from `contents` (its
    /// bytes, or `None` where it could not be read), unless the path is already there.
    pub fn add_midi(&mut self, path: String, contents: Option<&[u8]>)
        ensures
            has_midi(old(self)@.midis, path@) ==> final(self)@ == old(self)@,
            !has_midi(old(self)@.midis, path@) ==> {
                &&& final(self)@ == (WorkspaceView { midis: final(self)@.midis, ..old(self)@ })
                &&& final(self)@.midis.len() == old(self)@.midis.len() + 1
                &&& final(self)@.midis.drop_last() == old(self)@.midis
                &&& final(self)@.midis.last().path() == path@
                &&& loaded_from(final(self)@.midis.last(), bytes_view(contents))
            },
            has_midi(final(self)@.midis, path@),
    {
        if !self.contains_midi(&path) {
            same_path_as_itself(path.as_str());
            let meta = MidiMeta::new(path, contents);
            self.midis.push(meta);
            assert(self.midis@.drop_last() =~= old(self).midis@);
            assert(same_path(self.midis@[self.midis@.len() - 1].path(), path@));
        }
    }

    /// Marks a MIDI file for removal at the end of the frame.
    pub fn remove_midi(&mut self, index: usize)
        ensures
            final(self)@ == (WorkspaceView {
                midi_deletions: old(self)@.midi_deletions.push(index),
                ..old(self)@
            }),
    {
        self.midi_delete_queue.push(index);
    }

    // --- Playback Queue

    /// Create a new song queue from currently available songs.
    /// To be called when song list changes, or shuffle is toggled
    pub fn rebuild_queue(&mut self, shuffle: bool)
        ensures
            final(self)@ == (WorkspaceView { queue: final(self)@.queue, ..old(self)@ }),
            queue_outcome(final(self)@.queue, old(self)@.midis.len(), old(self)@.midi_idx, shuffle),
    {
        self.queue = build_queue(self.midis.len(), self.midi_idx, shuffle);
    }

    // --- Misc.

    /// Delete fonts and midis queued for removal.
    /// Call this at the end of the frame.
    pub fn delete_queued(&mut self)
        requires
            old(self)@.deletions_fit(),
        ensures
            final(self)@ == (WorkspaceView {
                midis: remove_all(old(self)@.midis, old(self)@.midi_deletions),
                midi_idx: shift_index_all(old(self)@.midi_idx, old(self)@.midi_deletions),
                fonts: remove_all(old(self)@.fonts, old(self)@.font_deletions),
                font_idx: shift_index_all(old(self)@.font_idx, old(self)@.font_deletions),
                midi_deletions: Seq::empty(),
                font_deletions: Seq::empty(),
                ..old(self)@
            }),
            // A selection that survives the deletions still points at the same item.
            old(self)@.midi_idx is Some && old(self)@.midi_idx->0 < old(self)@.midis.len()
                && final(self)@.midi_idx is Some ==> {
                &&& final(self)@.midi_idx->0 < final(self)@.midis.len()
                &&& final(self)@.midis[final(self)@.midi_idx->0 as int]
                    == old(self)@.midis[old(self)@.midi_idx->0 as int]
            },
            old(self)@.font_idx is Some && old(self)@.font_idx->0 < old(self)@.fonts.len()
                && final(self)@.font_idx is Some ==> {
                &&& final(self)@.font_idx->0 < final(self)@.fonts.len()
                &&& final(self)@.fonts[final(self)@.font_idx->0 as int]
                    == old(self)@.fonts[old(self)@.font_idx->0 as int]
            },
    {
        apply_removals(&mut self.midis, &mut self.midi_idx, &self.midi_delete_queue);
        self.midi_delete_queue.clear();
        proof {
            lemma_path_texts_remove_all(old(self).fonts@, old(self).font_delete_queue@);
        }
        apply_removals(&mut self.fonts, &mut self.font_idx, &self.font_delete_queue);
        self.font_delete_queue.clear();
        proof {
            if let Some(c) = old(self)@.midi_idx {
                lemma_remove_all(old(self)@.midis, old(self)@.midi_deletions, c);
            }
            if let Some(c) = old(self)@.font_idx {
                lemma_remove_all(old(self)@.fonts, old(self)@.font_deletions, c);
            }
        }
    }

    pub fn clear_midis(&mut self)
        ensures
            final(self)@ == (WorkspaceView { midis: Seq::empty(), midi_idx: None, ..old(self)@ }),
    {
        self.midis.clear();
        self.midi_idx = None;
    }
}

} // verus!
