//! The note store, the filtered view over it, and the selection cursor.

use vstd::prelude::*;
use std::collections::VecDeque;
use crate::clock::Timestamp;
use crate::text::is_substring;
use crate::text::str_contains;

verus! {

/// One note: its text and the moment it was made.
#[derive(Clone, Debug)]
pub struct Note {
    pub text: String,
    pub created_at: Timestamp,
}

/// What a note is to a contract.
pub struct NoteView {
    pub text: Seq<char>,
    pub created_at: Timestamp,
}

impl View for Note {
    type V = NoteView;

    open spec fn view(&self) -> NoteView {
        NoteView { text: self.text@, created_at: self.created_at }
    }
}

/// The note store: every note, newest first.
#[derive(Clone, Debug)]
pub struct Feed {
    pub notes: VecDeque<Note>,
}

impl View for Feed {
    type V = Seq<NoteView>;

    open spec fn view(&self) -> Seq<NoteView> {
        Seq::new(self.notes@.len(), |i: int| self.notes@[i]@)
    }
}

impl Feed {
    /// The empty store.
    pub fn new() -> (feed: Feed)
        ensures
            feed@ == Seq::<NoteView>::empty(),
    {
        Feed { notes: VecDeque::new() }
    }

    /// The number of notes.
    pub fn len(&self) -> (n: usize)
        ensures
            n == self@.len(),
    {
        self.notes.len()
    }

    /// The note at `position`, if there is one.
    pub fn get(&self, position: usize) -> (note: Option<&Note>)
        ensures
            position < self@.len() ==> note is Some && note->0@ == self@[position as int] && *note->0
                == self.notes@[position as int],
            position >= self@.len() ==> note is None,
    {
        if position < self.notes.len() {
            Some(&self.notes[position])
        } else {
            None
        }
    }

    /// Puts a new note in front of all others.
    pub fn insert_front(&mut self, text: String, created_at: Timestamp)
        ensures
            final(self)@ == seq![NoteView { text: text@, created_at }] + old(self)@,
    {
        self.notes.push_front(Note { text, created_at });
    }

    /// Takes the note at `position` out of the store and hands it back; the
    /// notes behind it move up by one. Out of bounds, nothing happens.
    pub fn remove_at(&mut self, position: usize) -> (removed: Option<Note>)
        ensures
            position < old(self)@.len() ==> removed is Some && removed->0@ == old(self)@[position as int]
                && final(self)@ == old(self)@.remove(position as int),
            position >= old(self)@.len() ==> removed is None && final(self)@ == old(self)@,
    {
        self.notes.remove(position)
    }

    /// Replaces the text of the note at `position` and says whether there was
    /// such a note. Its time stamp and its place stay.
    pub fn set_text(&mut self, position: usize, text: String) -> (done: bool)
        ensures
            done == (position < old(self)@.len()),
            done ==> final(self)@ == old(self)@.update(
                position as int,
                NoteView { text: text@, created_at: old(self)@[position as int].created_at },
            ),
            !done ==> final(self)@ == old(self)@,
    {
        match self.notes.remove(position) {
            Some(note) => {
                self.notes.insert(position, Note { text, created_at: note.created_at });
                true
            },
            None => false,
        }
    }
}

/// The positions in `notes`, in rising order, of the notes whose text holds
/// `pat`.
pub open spec fn matching(notes: Seq<NoteView>, pat: Seq<char>) -> Seq<int>
    decreases notes.len(),
{
    if notes.len() == 0 {
        Seq::empty()
    } else if is_substring(notes.last().text, pat) {
        matching(notes.drop_last(), pat).push(notes.len() - 1)
    } else {
        matching(notes.drop_last(), pat)
    }
}

/// The references of a feed view as plain positions.
pub open spec fn positions(refs: Seq<usize>) -> Seq<int> {
    Seq::new(refs.len(), |i: int| refs[i] as int)
}

/// The feed view: references into the note store, one for each note that
/// passes the filter.
#[derive(Clone, Debug)]
pub struct FeedView {
    pub refs: Vec<usize>,
}

impl View for FeedView {
    type V = Seq<int>;

    open spec fn view(&self) -> Seq<int> {
        positions(self.refs@)
    }
}

impl FeedView {
    /// The view of `feed` under the filter `pat`: every position if `pat` is
    /// empty, else the positions of the notes whose text holds `pat`. The
    /// references rise strictly, so none occurs twice.
    pub fn filter(feed: &Feed, pat: &str) -> (view: FeedView)
        ensures
            view@ == matching(feed@, pat@),
            pat@.len() == 0 ==> view@ == Seq::new(feed@.len(), |i: int| i),
            forall|j: int, k: int| 0 <= j < k < view@.len() ==> view@[j] < view@[k],
            forall|k: int|
                0 <= k < view@.len() ==> 0 <= #[trigger] view@[k] < feed@.len() && is_substring(
                    feed@[view@[k]].text,
                    pat@,
                ),
            forall|p: int|
                0 <= p < feed@.len() && is_substring(#[trigger] feed@[p].text, pat@)
                    ==> view@.contains(p),
    {
        let n = feed.notes.len();
        let all = pat.is_empty();
        let mut refs: Vec<usize> = Vec::new();
        let mut i: usize = 0;
        while i < n
            invariant
                i <= n,
                n == feed.notes@.len(),
                all == (pat@.len() == 0),
                positions(refs@) == matching(feed@.take(i as int), pat@),
            decreases n - i,
        {
            let ghost before = positions(refs@);
            let ghost head = feed@.take(i + 1);
            proof {
                assert(head.drop_last() == feed@.take(i as int));
                assert(head.last().text == feed.notes@[i as int].text@);
                assert(head.len() - 1 == i);
                if all {
                    assert(pat@ == Seq::<char>::empty());
                    lemma_empty_pattern(feed.notes@[i as int].text@);
                }
            }
            if all || str_contains(feed.notes[i].text.as_str(), pat) {
                refs.push(i);
                assert(positions(refs@) == before.push(i as int));
                assert(is_substring(head.last().text, pat@));
            } else {
                assert(!is_substring(head.last().text, pat@));
            }
            i += 1;
        }
        proof {
            assert(feed@.take(n as int) == feed@);
            lemma_matching(feed@, pat@);
            if all {
                assert(pat@ == Seq::<char>::empty());
                lemma_matching_all(feed@);
            }
        }
        FeedView { refs }
    }

    /// The number of entries.
    pub fn len(&self) -> (n: usize)
        ensures
            n == self@.len(),
    {
        self.refs.len()
    }
}

/// The empty pattern occurs in every text.
pub proof fn lemma_empty_pattern(text: Seq<char>)
    ensures
        is_substring(text, Seq::empty()),
{
    let pat = Seq::<char>::empty();
    let i: int = 0;
    assert(text.subrange(i, i + pat.len()) == pat);
}

/// The feed view is sound and complete: its references lie in the store, rise
/// strictly, point at notes that hold the pattern, and miss no such note.
pub proof fn lemma_matching(notes: Seq<NoteView>, pat: Seq<char>)
    ensures
        matching(notes, pat).len() <= notes.len(),
        forall|k: int|
            0 <= k < matching(notes, pat).len() ==> 0 <= #[trigger] matching(notes, pat)[k]
                < notes.len() && is_substring(notes[matching(notes, pat)[k]].text, pat),
        forall|j: int, k: int|
            0 <= j < k < matching(notes, pat).len() ==> matching(notes, pat)[j] < matching(
                notes,
                pat,
            )[k],
        forall|p: int|
            0 <= p < notes.len() && is_substring(#[trigger] notes[p].text, pat) ==> matching(
                notes,
                pat,
            ).contains(p),
    decreases notes.len(),
{
    if notes.len() > 0 {
        let head = notes.drop_last();
        let last = notes.len() - 1;
        lemma_matching(head, pat);
        let inner = matching(head, pat);
        let outer = matching(notes, pat);
        assert forall|p: int|
            0 <= p < notes.len() && is_substring(#[trigger] notes[p].text, pat) implies outer.contains(
            p,
        ) by {
            if p < last {
                assert(head[p] == notes[p]);
                let k = choose|k: int| 0 <= k < inner.len() && inner[k] == p;
                assert(outer[k] == p);
            } else {
                assert(outer[outer.len() - 1] == p);
            }
        }
        assert forall|k: int| 0 <= k < outer.len() implies 0 <= #[trigger] outer[k] < notes.len()
            && is_substring(notes[outer[k]].text, pat) by {
            if k < inner.len() {
                assert(outer[k] == inner[k]);
                assert(head[inner[k]] == notes[inner[k]]);
            }
        }
        assert forall|j: int, k: int| 0 <= j < k < outer.len() implies outer[j] < outer[k] by {
            assert(outer[j] == inner[j]);
            if k < inner.len() {
                assert(outer[k] == inner[k]);
            }
        }
    }
}

/// Under the empty filter the feed view holds every position in order.
pub proof fn lemma_matching_all(notes: Seq<NoteView>)
    ensures
        matching(notes, Seq::empty()) == Seq::new(notes.len(), |i: int| i),
    decreases notes.len(),
{
    if notes.len() > 0 {
        lemma_matching_all(notes.drop_last());
        lemma_empty_pattern(notes.last().text);
        assert(matching(notes, Seq::empty()) =~= Seq::new(notes.len(), |i: int| i));
    } else {
        assert(matching(notes, Seq::empty()) =~= Seq::new(notes.len(), |i: int| i));
    }
}

/// Taking a note that passes the filter out of the store makes the feed view
/// shorter by one.
pub proof fn lemma_matching_remove(notes: Seq<NoteView>, pat: Seq<char>, position: int)
    requires
        0 <= position < notes.len(),
        is_substring(notes[position].text, pat),
    ensures
        matching(notes.remove(position), pat).len() == matching(notes, pat).len() - 1,
    decreases notes.len(),
{
    let last = notes.len() - 1;
    if position == last {
        assert(notes.remove(position) == notes.drop_last());
    } else {
        let rest = notes.remove(position);
        assert(rest.drop_last() == notes.drop_last().remove(position));
        assert(rest.last() == notes.last());
        assert(notes.drop_last()[position] == notes[position]);
        lemma_matching_remove(notes.drop_last(), pat, position);
    }
}

/// The selection after a step forward in a view of `len` entries: the next
/// entry, the last one at most, the first one if nothing was selected.
pub open spec fn next_selection(selected: Option<usize>, len: nat) -> Option<usize> {
    if len == 0 {
        selected
    } else {
        match selected {
            Some(i) => if i + 1 < len {
                Some((i + 1) as usize)
            } else {
                Some(i)
            },
            None => Some(0),
        }
    }
}

/// The selection after a step back in a view of `len` entries: the entry
/// before, the first one at least, the first one if nothing was selected.
pub open spec fn previous_selection(selected: Option<usize>, len: nat) -> Option<usize> {
    if len == 0 {
        selected
    } else {
        match selected {
            Some(i) => if i > 0 {
                Some((i - 1) as usize)
            } else {
                Some(i)
            },
            None => Some(0),
        }
    }
}

/// The selection fitted to a view of `len` entries: nothing if the view is
/// empty, the last entry if the selection lay behind it.
pub open spec fn clamped_selection(selected: Option<usize>, len: nat) -> Option<usize> {
    match selected {
        Some(i) => if len == 0 {
            None
        } else if i >= len {
            Some((len - 1) as usize)
        } else {
            Some(i)
        },
        None => None,
    }
}

/// Moves the selection one entry forward, without wrapping round.
pub fn select_next(selected: Option<usize>, len: usize) -> (next: Option<usize>)
    ensures
        next == next_selection(selected, len as nat),
{
    if len == 0 {
        return selected;
    }
    match selected {
        Some(i) => if i < len - 1 {
            Some(i + 1)
        } else {
            Some(i)
        },
        None => Some(0),
    }
}

/// Moves the selection one entry back, without wrapping round.
pub fn select_previous(selected: Option<usize>, len: usize) -> (previous: Option<usize>)
    ensures
        previous == previous_selection(selected, len as nat),
{
    if len == 0 {
        return selected;
    }
    match selected {
        Some(i) => if i > 0 {
            Some(i - 1)
        } else {
            Some(i)
        },
        None => Some(0),
    }
}

/// Fits the selection to a view of `len` entries.
pub fn clamp_selection(selected: Option<usize>, len: usize) -> (clamped: Option<usize>)
    ensures
        clamped == clamped_selection(selected, len as nat),
{
    match selected {
        Some(i) => if len == 0 {
            None
        } else if i >= len {
            Some(len - 1)
        } else {
            Some(i)
        },
        None => None,
    }
}

} // verus!
