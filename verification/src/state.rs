//! The dispatcher as a state machine: its state, the step that a key makes
//! it take, and what holds of every step.

use vstd::prelude::*;
use crate::buffer::fresh;
use crate::buffer::BufferView;
use crate::buffer::History;
use crate::buffer::Motion;
use crate::clock::Timestamp;
use crate::dispatch::decision;
use crate::dispatch::Command;
use crate::dispatch::Decision;
use crate::dispatch::Focus;
use crate::dispatch::InputMode;
use crate::dispatch::Pending;
use crate::feed::clamped_selection;
use crate::feed::lemma_matching;
use crate::feed::lemma_matching_remove;
use crate::feed::matching;
use crate::feed::next_selection;
use crate::feed::previous_selection;
use crate::feed::NoteView;
use crate::key::Input;
use crate::text::all_unbroken;
use crate::text::concatenated;
use crate::text::joined;
use crate::text::lemma_concatenated_unbroken;
use crate::text::text_lines;
use crate::text::unbroken;

verus! {

/// What an edit session will store when it is committed.
#[derive(Clone, Copy, Debug, PartialEq, Eq, Structural)]
pub enum FeedEditingMode {
    /// A new note.
    New,
    /// The text of the note at this position of the store.
    Edit(usize),
}

/// What the host of the dispatcher has to do after a key.
#[derive(Clone, Copy, Debug, PartialEq, Eq, Structural)]
pub enum Action {
    /// Go on with the next key.
    Continue,
    /// Write the notes out and leave.
    PersistAndQuit,
}

/// The state of the dispatcher, the buffer apart.
pub struct State {
    /// The note store.
    pub notes: Seq<NoteView>,
    /// The filter in force.
    pub filter: Seq<char>,
    /// The feed view.
    pub refs: Seq<int>,
    /// The selection cursor, an index into the feed view.
    pub selected: Option<usize>,
    pub focus: Focus,
    pub inputmode: InputMode,
    pub pending: Pending,
    /// The target of the edit session.
    pub target: FeedEditingMode,
    /// Whether the feed can be filtered.
    pub filtering: bool,
}

impl State {
    /// The state at the start: the feed has the focus and shows every note,
    /// and none is selected.
    pub open spec fn initial(notes: Seq<NoteView>, filtering: bool) -> State {
        State {
            notes,
            filter: Seq::empty(),
            refs: matching(notes, Seq::empty()),
            selected: None,
            focus: Focus::Feed,
            inputmode: InputMode::Normal,
            pending: Pending::Idle,
            target: FeedEditingMode::New,
            filtering,
        }
    }

    /// The state is sound: the feed view is the view of the store under the
    /// filter, which holds no line feed; the selection lies in the view, the
    /// target of a session lies in the store, and a pending prefix belongs to
    /// the part that has the focus.
    pub open spec fn wf(self) -> bool {
        &&& self.refs == matching(self.notes, self.filter)
        &&& unbroken(self.filter)
        &&& self.selected matches Some(i) ==> i < self.refs.len()
        &&& self.focus == Focus::NewNote ==> (self.target matches FeedEditingMode::Edit(p) ==> p
            < self.notes.len())
        &&& self.focus == Focus::Filter ==> self.filtering
        &&& self.pending == Pending::FeedDelete ==> self.focus == Focus::Feed && self.selected is Some
        &&& self.pending != Pending::Idle && self.pending != Pending::FeedDelete ==> self.focus
            != Focus::Feed
    }

    /// The position in the store of the selected note.
    pub open spec fn selected_position(self) -> Option<int> {
        match self.selected {
            Some(i) => if i < self.refs.len() {
                Some(self.refs[i as int])
            } else {
                None
            },
            None => None,
        }
    }

    /// What the key `input` leads to in this state.
    pub open spec fn decision(self, input: Input) -> Decision {
        decision(
            self.focus,
            self.inputmode,
            self.pending,
            self.selected is Some,
            self.filtering,
            input,
        )
    }

    /// This state with another store or filter: the feed view is made anew,
    /// the selection fitted to it, and the feed has the focus.
    pub open spec fn refreshed(self, notes: Seq<NoteView>, filter: Seq<char>) -> State {
        let refs = matching(notes, filter);
        State {
            notes,
            filter,
            refs,
            selected: clamped_selection(self.selected, refs.len()),
            focus: Focus::Feed,
            ..self
        }
    }

    /// The store after the text `text` was committed at the time `now`: a new
    /// note in front, or the target note with that text.
    pub open spec fn committed(self, text: Seq<char>, now: Timestamp) -> Seq<NoteView> {
        match self.target {
            FeedEditingMode::New => seq![NoteView { text, created_at: now }] + self.notes,
            FeedEditingMode::Edit(p) => if p < self.notes.len() {
                self.notes.update(
                    p as int,
                    NoteView { text, created_at: self.notes[p as int].created_at },
                )
            } else {
                self.notes
            },
        }
    }

    /// The state after the decision `d`, where the buffer holds `lines` and
    /// the clock shows `now`.
    pub open spec fn step(self, d: Decision, now: Timestamp, lines: Seq<Seq<char>>) -> State {
        let quiet = State { inputmode: d.inputmode, pending: d.pending, ..self };
        match d.command {
            Command::Ignore => quiet,
            Command::Quit => quiet,
            Command::Edit(_) => quiet,
            Command::SelectNext => State {
                selected: next_selection(self.selected, self.refs.len()),
                ..quiet
            },
            Command::SelectPrevious => State {
                selected: previous_selection(self.selected, self.refs.len()),
                ..quiet
            },
            Command::DeleteNote => match self.selected_position() {
                Some(p) => State {
                    selected: previous_selection(self.selected, self.refs.len()),
                    ..quiet
                }.refreshed(self.notes.remove(p), self.filter),
                None => quiet,
            },
            Command::NewNote => State {
                focus: Focus::NewNote,
                target: FeedEditingMode::New,
                ..quiet
            },
            Command::EditNote => match self.selected_position() {
                Some(p) => State {
                    focus: Focus::NewNote,
                    target: FeedEditingMode::Edit(p as usize),
                    ..quiet
                },
                None => quiet,
            },
            Command::EditFilter => State { focus: Focus::Filter, ..quiet },
            Command::CommitNote => quiet.refreshed(self.committed(joined(lines), now), self.filter),
            Command::CommitFilter => quiet.refreshed(self.notes, concatenated(lines)),
            Command::Abandon => State { focus: Focus::Feed, ..quiet },
        }
    }

    /// The state after the key `input`, where the buffer holds `lines` and
    /// the clock shows `now`.
    pub open spec fn next(self, input: Input, now: Timestamp, lines: Seq<Seq<char>>) -> State {
        self.step(self.decision(input), now, lines)
    }

    /// What the command `command` makes of the buffer `buffer` with the
    /// history `past` in this state: `after` with the history `future` is a
    /// possible outcome. A session starts on a buffer made anew and ends with
    /// its buffer thrown away, an empty one in its place; an editing command
    /// works on the buffer; nothing else touches it.
    pub open spec fn buffer_after(
        self,
        command: Command,
        buffer: BufferView,
        past: History,
        after: BufferView,
        future: History,
    ) -> bool {
        let anew = future == History::empty();
        match command {
            Command::NewNote => after == fresh(Seq::empty()) && anew,
            Command::EditNote => match self.selected_position() {
                Some(p) => after == fresh(text_lines(self.notes[p].text)) && anew,
                None => after == buffer && future == past,
            },
            Command::EditFilter => after == fresh(seq![self.filter]).moved(Motion::End) && anew,
            Command::CommitNote => after == fresh(Seq::empty()) && anew,
            Command::CommitFilter => after == fresh(Seq::empty()) && anew,
            Command::Abandon => after == fresh(Seq::empty()) && anew,
            Command::Edit(edit) => buffer.performed(past, edit, after, future),
            _ => after == buffer && future == past,
        }
    }
}

/// What the host has to do after `command`.
pub open spec fn action_of(command: Command) -> Action {
    if command == Command::Quit {
        Action::PersistAndQuit
    } else {
        Action::Continue
    }
}

/// The state at the start is sound.
pub proof fn lemma_initial_wf(notes: Seq<NoteView>, filtering: bool)
    ensures
        State::initial(notes, filtering).wf(),
{
}

/// Every key takes a sound state to a sound state, the key that commits a
/// filter where the lines of the buffer hold no line feed.
pub proof fn lemma_next_wf(s: State, input: Input, now: Timestamp, lines: Seq<Seq<char>>)
    requires
        s.wf(),
        s.decision(input).command == Command::CommitFilter ==> all_unbroken(lines),
    ensures
        s.next(input, now, lines).wf(),
{
    let d = s.decision(input);
    let t = s.next(input, now, lines);
    lemma_matching(s.notes, s.filter);
    if d.command == Command::CommitFilter {
        lemma_concatenated_unbroken(lines);
    }
    match d.command {
        Command::EditNote => {
            let p = s.selected_position()->0;
            assert(0 <= p < s.notes.len());
            assert((p as usize) < s.notes.len());
        },
        _ => {},
    }
}

/// One key as the dispatcher meets it: the key, the time on the clock and
/// the lines in the buffer at that moment.
pub struct Stroke {
    pub input: Input,
    pub now: Timestamp,
    pub lines: Seq<Seq<char>>,
}

impl State {
    /// The state after the keys `strokes`, one after the other.
    pub open spec fn run(self, strokes: Seq<Stroke>) -> State
        decreases strokes.len(),
    {
        if strokes.len() == 0 {
            self
        } else {
            let last = strokes.last();
            self.run(strokes.drop_last()).next(last.input, last.now, last.lines)
        }
    }

    /// The key `input` commits the edit session of this state.
    pub open spec fn commits(self, input: Input) -> bool {
        self.decision(input).command == Command::CommitNote || self.decision(input).command
            == Command::CommitFilter
    }
}

/// Every run of keys takes a sound state to a sound state, where each key
/// that commits a filter finds no line feed in the lines of the buffer.
pub proof fn lemma_run_wf(s: State, strokes: Seq<Stroke>)
    requires
        s.wf(),
        forall|k: int|
            0 <= k < strokes.len() && (#[trigger] s.run(strokes.take(k))).decision(
                strokes[k].input,
            ).command == Command::CommitFilter ==> all_unbroken(strokes[k].lines),
    ensures
        s.run(strokes).wf(),
    decreases strokes.len(),
{
    if strokes.len() > 0 {
        let last = strokes.last();
        let head = strokes.drop_last();
        assert forall|k: int|
            0 <= k < head.len() && (#[trigger] s.run(head.take(k))).decision(
                head[k].input,
            ).command == Command::CommitFilter implies all_unbroken(head[k].lines) by {
            assert(head.take(k) == strokes.take(k));
        }
        assert(strokes.take(strokes.len() - 1) == head);
        lemma_run_wf(s, strokes.drop_last());
        lemma_next_wf(s.run(strokes.drop_last()), last.input, last.now, last.lines);
    }
}

/// Deleting the selected note makes the feed view shorter by exactly one,
/// takes that note and no other out of the store, and leaves the selection on
/// the entry before, on the first entry if there is none before, and on
/// nothing if the view is empty.
pub proof fn lemma_delete_note(s: State, input: Input, now: Timestamp, lines: Seq<Seq<char>>)
    requires
        s.wf(),
        s.decision(input).command == Command::DeleteNote,
    ensures
        s.selected is Some,
        s.next(input, now, lines).notes == s.notes.remove(s.refs[s.selected->0 as int]),
        s.next(input, now, lines).refs.len() == s.refs.len() - 1,
        s.next(input, now, lines).selected == if s.refs.len() == 1 {
            None
        } else if s.selected->0 > 0 {
            Some((s.selected->0 - 1) as usize)
        } else {
            Some(0usize)
        },
{
    lemma_matching(s.notes, s.filter);
    let i = s.selected->0;
    lemma_matching_remove(s.notes, s.filter, s.refs[i as int]);
}

/// Committing a new note puts exactly one note into the store, in front of
/// all others, with the lines of the buffer joined by line breaks as its text.
pub proof fn lemma_commit_new(s: State, input: Input, now: Timestamp, lines: Seq<Seq<char>>)
    requires
        s.decision(input).command == Command::CommitNote,
        s.target == FeedEditingMode::New,
    ensures
        s.next(input, now, lines).notes.len() == s.notes.len() + 1,
        s.next(input, now, lines).notes[0] == (NoteView { text: joined(lines), created_at: now }),
        forall|i: int|
            0 <= i < s.notes.len() ==> #[trigger] s.next(input, now, lines).notes[i + 1]
                == s.notes[i],
{
}

/// Committing an edit of the note at `position` gives that note the lines of
/// the buffer joined by line breaks as its text. Its time stamp stays, every
/// other note stays, and no note comes or goes.
pub proof fn lemma_commit_edit(
    s: State,
    input: Input,
    now: Timestamp,
    lines: Seq<Seq<char>>,
    position: usize,
)
    requires
        s.wf(),
        s.decision(input).command == Command::CommitNote,
        s.target == FeedEditingMode::Edit(position),
    ensures
        position < s.notes.len(),
        s.next(input, now, lines).notes.len() == s.notes.len(),
        s.next(input, now, lines).notes[position as int].text == joined(lines),
        s.next(input, now, lines).notes[position as int].created_at
            == s.notes[position as int].created_at,
        forall|i: int|
            0 <= i < s.notes.len() && i != position ==> #[trigger] s.next(input, now, lines).notes[i]
                == s.notes[i],
{
}

/// A key that the editor gets and that does not commit leaves the store, the
/// filter and the feed view as they are.
pub proof fn lemma_editor_key(s: State, input: Input, now: Timestamp, lines: Seq<Seq<char>>)
    requires
        s.wf(),
        s.focus != Focus::Feed,
        !s.commits(input),
    ensures
        s.next(input, now, lines).notes == s.notes,
        s.next(input, now, lines).filter == s.filter,
        s.next(input, now, lines).refs == s.refs,
{
}

/// An edit session that is not committed leaves the store, the filter and
/// the feed view as they were when it started: so does every run of keys that
/// the editor gets, none of which commits, whether or not the last of them
/// abandons the session.
pub proof fn lemma_session_without_commit(s: State, strokes: Seq<Stroke>)
    requires
        s.wf(),
        forall|k: int|
            0 <= k < strokes.len() ==> (#[trigger] s.run(strokes.take(k))).focus != Focus::Feed
                && !s.run(strokes.take(k)).commits(strokes[k].input),
    ensures
        s.run(strokes).notes == s.notes,
        s.run(strokes).filter == s.filter,
        s.run(strokes).refs == s.refs,
    decreases strokes.len(),
{
    if strokes.len() > 0 {
        let head = strokes.drop_last();
        let last = strokes.last();
        assert forall|k: int| 0 <= k < head.len() implies (#[trigger] s.run(head.take(k))).focus
            != Focus::Feed && !s.run(head.take(k)).commits(head[k].input) by {
            assert(head.take(k) == strokes.take(k));
        }
        lemma_session_without_commit(s, head);
        lemma_run_wf(s, head);
        assert(strokes.take(strokes.len() - 1) == head);
        lemma_editor_key(s.run(head), last.input, last.now, last.lines);
    }
}

/// Abandoning an edit session gives the focus back to the feed and changes
/// nothing in the store, the filter or the feed view.
pub proof fn lemma_abandon(s: State, input: Input, now: Timestamp, lines: Seq<Seq<char>>)
    requires
        s.decision(input).command == Command::Abandon,
    ensures
        s.next(input, now, lines).focus == Focus::Feed,
        s.next(input, now, lines).notes == s.notes,
        s.next(input, now, lines).filter == s.filter,
        s.next(input, now, lines).refs == s.refs,
        s.next(input, now, lines).selected == s.selected,
{
}

} // verus!
