//! The input dispatcher: it owns the note store, the feed view, the selection
//! and the text buffer, and takes one key at a time.

use vstd::prelude::*;
use crate::buffer::fresh;
use crate::buffer::BufferView;
use crate::buffer::History;
use crate::buffer::Motion;
use crate::buffer::TextBuffer;
use crate::clock::local_now;
use crate::clock::Timestamp;
use crate::dispatch::decide;
use crate::dispatch::Command;
use crate::dispatch::Focus;
use crate::dispatch::InputMode;
use crate::dispatch::Pending;
use crate::editor::EditCommand;
use crate::feed::clamp_selection;
use crate::feed::lemma_matching;
use crate::feed::select_next;
use crate::feed::select_previous;
use crate::feed::Feed;
use crate::feed::FeedView;
use crate::key::Input;
use crate::state::action_of;
use crate::state::lemma_initial_wf;
use crate::state::lemma_next_wf;
use crate::state::Action;
use crate::state::FeedEditingMode;
use crate::state::State;
use crate::text::concat_lines;
use crate::text::join_lines;
use crate::text::lemma_text_lines_unbroken;
use crate::text::str_lines;
use crate::text::text_lines;

verus! {

/// The input dispatcher.
pub struct Dispatcher {
    feed: Feed,
    feed_view: FeedView,
    filter: String,
    selected: Option<usize>,
    focus: Focus,
    inputmode: InputMode,
    pending: Pending,
    feed_editing_mode: FeedEditingMode,
    textarea: TextBuffer,
    filtering: bool,
}

impl Dispatcher {
    /// The state of the dispatcher, the buffer apart.
    pub closed spec fn state(&self) -> State {
        State {
            notes: self.feed@,
            filter: self.filter@,
            refs: self.feed_view@,
            selected: self.selected,
            focus: self.focus,
            inputmode: self.inputmode,
            pending: self.pending,
            target: self.feed_editing_mode,
            filtering: self.filtering,
        }
    }

    /// The buffer of the dispatcher.
    pub closed spec fn buffer(&self) -> BufferView {
        self.textarea@
    }

    /// The history of edits of the buffer.
    pub closed spec fn history(&self) -> History {
        self.textarea.history()
    }

    /// The dispatcher is sound: its state is, and its buffer is in order.
    pub open spec fn wf(&self) -> bool {
        self.state().wf() && self.buffer().sound()
    }

    /// A dispatcher over the notes of `feed`: the feed has the focus and
    /// shows every note, none is selected, and the buffer is empty.
    /// `filtering` says whether the feed can be filtered.
    pub fn new(feed: Feed, filtering: bool) -> (dispatcher: Dispatcher)
        ensures
            dispatcher.wf(),
            dispatcher.state() == State::initial(feed@, filtering),
            dispatcher.buffer() == fresh(Seq::empty()),
            dispatcher.history() == History::empty(),
    {
        let filter = String::new();
        let feed_view = FeedView::filter(&feed, filter.as_str());
        proof {
            lemma_initial_wf(feed@, filtering);
        }
        Dispatcher {
            feed,
            feed_view,
            filter,
            selected: None,
            focus: Focus::Feed,
            inputmode: InputMode::Normal,
            pending: Pending::Idle,
            feed_editing_mode: FeedEditingMode::New,
            textarea: TextBuffer::new(Vec::new()),
            filtering,
        }
    }

    /// The note store.
    pub fn feed(&self) -> (feed: &Feed)
        ensures
            feed@ == self.state().notes,
    {
        &self.feed
    }

    /// The feed view.
    pub fn feed_view(&self) -> (view: &FeedView)
        ensures
            view@ == self.state().refs,
    {
        &self.feed_view
    }

    /// The filter in force.
    pub fn filter(&self) -> (filter: &String)
        ensures
            filter@ == self.state().filter,
    {
        &self.filter
    }

    /// The selection cursor: an index into the feed view.
    pub fn selected(&self) -> (selected: Option<usize>)
        ensures
            selected == self.state().selected,
    {
        self.selected
    }

    /// The part that has the focus.
    pub fn focus(&self) -> (focus: Focus)
        ensures
            focus == self.state().focus,
    {
        self.focus
    }

    /// The mode of the editor.
    pub fn inputmode(&self) -> (inputmode: InputMode)
        ensures
            inputmode == self.state().inputmode,
    {
        self.inputmode
    }

    /// The keys of a sequence read so far.
    pub fn pending(&self) -> (pending: Pending)
        ensures
            pending == self.state().pending,
    {
        self.pending
    }

    /// The target of the edit session.
    pub fn feed_editing_mode(&self) -> (target: FeedEditingMode)
        ensures
            target == self.state().target,
    {
        self.feed_editing_mode
    }

    /// Whether the feed can be filtered.
    pub fn filtering(&self) -> (filtering: bool)
        ensures
            filtering == self.state().filtering,
    {
        self.filtering
    }

    /// The text buffer.
    pub fn textarea(&self) -> (buffer: &TextBuffer)
        ensures
            buffer@ == self.buffer(),
    {
        &self.textarea
    }

    /// Gives the note store back, to be written out.
    pub fn into_feed(self) -> (feed: Feed)
        ensures
            feed@ == self.state().notes,
    {
        self.feed
    }

    /// Makes the feed view anew and fits the selection to it; the feed gets
    /// the focus.
    fn refresh(&mut self)
        ensures
            final(self).state() == old(self).state().refreshed(
                old(self).state().notes,
                old(self).state().filter,
            ),
            final(self).buffer() == old(self).buffer(),
            final(self).history() == old(self).history(),
    {
        self.feed_view = FeedView::filter(&self.feed, self.filter.as_str());
        self.selected = clamp_selection(self.selected, self.feed_view.len());
        self.focus = Focus::Feed;
    }

    /// The position in the store of the selected note.
    fn selected_position(&self) -> (position: Option<usize>)
        requires
            self.wf(),
        ensures
            match position {
                Some(p) => self.state().selected_position() == Some(p as int) && p
                    < self.state().notes.len(),
                None => self.state().selected_position() is None,
            },
    {
        proof {
            lemma_matching(self.feed@, self.filter@);
        }
        match self.selected {
            Some(i) => if i < self.feed_view.refs.len() {
                Some(self.feed_view.refs[i])
            } else {
                None
            },
            None => None,
        }
    }

    /// Takes one key, with `now` as the time on the clock: the state goes
    /// where the key leads, and the buffer is made anew, edited, thrown away
    /// or left alone as the key's command says.
    pub fn handle_key_at(&mut self, input: Input, now: Timestamp) -> (action: Action)
        requires
            old(self).wf(),
        ensures
            final(self).wf(),
            final(self).state() == old(self).state().next(input, now, old(self).buffer().lines),
            old(self).state().buffer_after(
                old(self).state().decision(input).command,
                old(self).buffer(),
                old(self).history(),
                final(self).buffer(),
                final(self).history(),
            ),
            action == action_of(old(self).state().decision(input).command),
    {
        proof {
            lemma_next_wf(self.state(), input, now, self.buffer().lines);
        }
        let d = decide(
            self.focus,
            self.inputmode,
            self.pending,
            self.selected.is_some(),
            self.filtering,
            input,
        );
        let position = self.selected_position();
        self.inputmode = d.inputmode;
        self.pending = d.pending;
        match d.command {
            Command::Ignore => {},
            Command::Quit => {
                return Action::PersistAndQuit;
            },
            Command::Edit(edit) => {
                self.textarea.perform(edit);
            },
            Command::SelectNext => {
                self.selected = select_next(self.selected, self.feed_view.len());
            },
            Command::SelectPrevious => {
                self.selected = select_previous(self.selected, self.feed_view.len());
            },
            Command::DeleteNote => {
                if let Some(p) = position {
                    self.selected = select_previous(self.selected, self.feed_view.len());
                    self.feed.remove_at(p);
                    self.refresh();
                }
            },
            Command::NewNote => {
                self.textarea = TextBuffer::new(Vec::new());
                self.feed_editing_mode = FeedEditingMode::New;
                self.focus = Focus::NewNote;
            },
            Command::EditNote => {
                if let Some(p) = position {
                    let lines = match self.feed.get(p) {
                        Some(note) => str_lines(note.text.as_str()),
                        None => Vec::new(),
                    };
                    proof {
                        lemma_text_lines_unbroken(old(self).state().notes[p as int].text);
                    }
                    self.textarea = TextBuffer::new(lines);
                    assert(self.textarea@ == fresh(text_lines(old(self).state().notes[p as int].text)));
                    self.feed_editing_mode = FeedEditingMode::Edit(p);
                    self.focus = Focus::NewNote;
                }
            },
            Command::EditFilter => {
                let lines = vec![self.filter.clone()];
                assert(lines.deep_view() =~~= seq![self.filter@]);
                self.textarea = TextBuffer::new(lines);
                self.textarea.perform(EditCommand::Move(Motion::End));
                self.focus = Focus::Filter;
            },
            Command::CommitNote => {
                let text = join_lines(&self.textarea.lines());
                match self.feed_editing_mode {
                    FeedEditingMode::New => {
                        self.feed.insert_front(text, now);
                    },
                    FeedEditingMode::Edit(p) => {
                        self.feed.set_text(p, text);
                    },
                }
                self.textarea = TextBuffer::new(Vec::new());
                self.refresh();
            },
            Command::CommitFilter => {
                self.filter = concat_lines(&self.textarea.lines());
                self.textarea = TextBuffer::new(Vec::new());
                self.refresh();
            },
            Command::Abandon => {
                self.textarea = TextBuffer::new(Vec::new());
                self.focus = Focus::Feed;
            },
        }
        Action::Continue
    }

    /// Takes one key. A note that the key commits is stamped with the time
    /// that the clock shows.
    pub fn handle_key(&mut self, input: Input) -> (action: Action)
        requires
            old(self).wf(),
        ensures
            final(self).wf(),
            exists|now: Timestamp|
                final(self).state() == #[trigger] old(self).state().next(
                    input,
                    now,
                    old(self).buffer().lines,
                ),
            old(self).state().buffer_after(
                old(self).state().decision(input).command,
                old(self).buffer(),
                old(self).history(),
                final(self).buffer(),
                final(self).history(),
            ),
            action == action_of(old(self).state().decision(input).command),
    {
        let d = decide(
            self.focus,
            self.inputmode,
            self.pending,
            self.selected.is_some(),
            self.filtering,
            input,
        );
        let now = if d.command == Command::CommitNote {
            local_now()
        } else {
            Timestamp { secs: 0, nanos: 0, offset: 0 }
        };
        self.handle_key_at(input, now)
    }
}

} // verus!
